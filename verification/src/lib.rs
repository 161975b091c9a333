//! Protocol engine for the appointment service of the city of Madrid.
//!
//! The service is a web application, not an API: it wants a server-side
//! session that is opened in a fixed order, it answers with JSON, with JSON
//! inside a script, and with HTML, and it says "nothing found" with magic
//! values.  This crate holds the engine's decisions and its readers, and
//! leaves the network to its caller: [`session::AppointmentSession`] tells
//! which request to send next and reads what comes back.
//!
//! The readers are [`office::read_office_optional`] for the envelope around
//! an office, [`days::read_appointment_days`] for the days with openings,
//! [`slots::read_day_slots`] for the slots of a day, and
//! [`listing::read_offices`] and [`listing::read_procedures`] for the two
//! listings.  [`commands`] and [`datagen`] hold what the command-line
//! programs decide.

pub mod calendar;
pub mod commands;
pub mod datagen;
pub mod days;
pub mod error;
pub mod html;
pub mod http;
pub mod json;
pub mod listing;
pub mod model;
pub mod office;
pub mod pattern;
pub mod seqs;
pub mod session;
pub mod slots;
pub mod text;

pub use calendar::{AppointmentDay, AppointmentSlot};
pub use days::NetAppointment;
pub use error::ParseError;
pub use listing::{NetOfficeBasicInfoModel, NetProcedureModel};
pub use model::{
    DataGenModel, DataGenOffice, DataGenOfficeProcedure, DataGenProcedure, OfficeId, ProcedureId,
    ProcedureOfficeId, StaticOffice, StaticOfficeProcedure, StaticProcedure,
};
pub use office::{NetOfficeModel, NetOfficeProcedureModel};
pub use session::AppointmentSession;
pub use slots::{NetAppointmentHourlySlots, NetAppointmentSlot, NetAppointmentSlotSet};
