//! The days on which an office has openings.
//!
//! The service answers with a page whose script holds the days as a JSON
//! list inside a call of `JSON.parse('...')`, or with a notice that the
//! openings were reserved a moment ago.

use vstd::prelude::*;
use crate::calendar::{signed_year, valid_date, AppointmentDay, Date};
use crate::error::ParseError;
use crate::json::{
    json_document, json_field, json_u32, json_u8, parse_document, Json, JsonValue,
};
use crate::pattern::{capture_first, first_capture};
use crate::text::{contains, occurs_in};

verus! {

/// The notice that stands in the page when the openings of an office were
/// reserved a moment ago.
pub const RESERVED_NOTICE: &'static str =
    "Las citas disponibles en esta oficina han sido reservadas recientemente";

/// The pattern of the script call that holds the days: its first group is
/// the single-quoted argument of `JSON.parse`.
pub const EMBEDDED_DAYS_PATTERN: &'static str = "JSON\\.parse\\(\\s*'([^']*)'\\s*\\)";

/// A day as the service writes it: day of the month, month and year.
#[derive(Debug, Clone, Copy, PartialEq, Eq, Structural)]
pub struct NetAppointment {
    pub day: u8,
    pub month: u8,
    pub year: u32,
}

/// The day that a document describes: a record of the three fields `dia`,
/// `mes` and `ano`.
pub open spec fn appointment_record(json: Json) -> Option<NetAppointment> {
    let day = match json_field(json, 3, 0, "dia"@) {
        Some(field) => json_u8(field),
        None => None,
    };
    let month = match json_field(json, 3, 1, "mes"@) {
        Some(field) => json_u8(field),
        None => None,
    };
    let year = match json_field(json, 3, 2, "ano"@) {
        Some(field) => json_u32(field),
        None => None,
    };
    if day is Some && month is Some && year is Some {
        Some(NetAppointment { day: day->0, month: month->0, year: year->0 })
    } else {
        None
    }
}

/// The days that the items of an array describe, if each item describes one.
pub open spec fn appointment_records(items: Seq<Json>) -> Option<Seq<NetAppointment>> {
    if forall|i: int| 0 <= i < items.len() ==> (#[trigger] appointment_record(items[i])) is Some {
        Some(Seq::new(items.len(), |i: int| appointment_record(items[i])->0))
    } else {
        None
    }
}

/// Whether a day as the service writes it names a calendar date.  The year
/// is read as a signed number.
pub open spec fn names_date(appointment: NetAppointment) -> bool {
    valid_date(signed_year(appointment.year), appointment.month as int, appointment.day as int)
}

/// The calendar date that a day as the service writes it names.
pub open spec fn date_of(appointment: NetAppointment) -> Date {
    Date {
        year: signed_year(appointment.year),
        month: appointment.month as int,
        day: appointment.day as int,
    }
}

/// The calendar dates of a list of days, in the list's order.  One entry
/// that names no calendar date fails the whole list.
pub open spec fn dates_of(list: Seq<NetAppointment>) -> Result<Seq<Date>, ParseError> {
    if forall|i: int| 0 <= i < list.len() ==> names_date(#[trigger] list[i]) {
        Ok(Seq::new(list.len(), |i: int| date_of(list[i])))
    } else {
        Err(ParseError::InvalidDate)
    }
}

/// The days that a parsed document lists.  The document must be an array of
/// day records, and each record must name a calendar date.
pub open spec fn days_of_document(document: Option<Json>) -> Result<Seq<Date>, ParseError> {
    match document {
        Some(Json::Array(items)) => match appointment_records(items) {
            Some(list) => dates_of(list),
            None => Err(ParseError::Record),
        },
        _ => Err(ParseError::Json),
    }
}

/// The days that the argument of the script call lists; without such a call
/// the page is not what the operation expects.
pub open spec fn days_of_capture(capture: Option<Seq<char>>) -> Result<Seq<Date>, ParseError> {
    match capture {
        Some(text) => days_of_document(json_document(text)),
        None => Err(ParseError::UnexpectedBody),
    }
}

/// The days that a page reports.  A page with the "recently reserved" notice
/// reports none, whatever else it holds.
pub open spec fn days_of_body(body: Seq<char>) -> Result<Seq<Date>, ParseError> {
    if occurs_in(RESERVED_NOTICE@, body) {
        Ok(Seq::empty())
    } else {
        days_of_capture(first_capture(EMBEDDED_DAYS_PATTERN@, body))
    }
}

/// The view of a list of days or of the failure to read one.
pub open spec fn days_view(outcome: Result<Vec<AppointmentDay>, ParseError>) -> Result<
    Seq<Date>,
    ParseError,
> {
    match outcome {
        Ok(days) => Ok(days.deep_view()),
        Err(e) => Err(e),
    }
}

impl NetAppointment {
    /// The calendar date that the record names, if it names one.
    pub fn date(&self) -> (date: Option<AppointmentDay>)
        ensures
            date is Some <==> names_date(*self),
            date matches Some(d) ==> d@ == date_of(*self),
    {
        let year: i32 = if self.year <= 0x7fff_ffff {
            self.year as i32
        } else {
            -((0xffff_ffff - self.year) as i32) - 1
        };
        AppointmentDay::from_ymd(year, self.month, self.day)
    }
}

/// Decodes one day record.
pub fn read_appointment(value: &JsonValue) -> (appointment: Option<NetAppointment>)
    ensures
        appointment == appointment_record(value@),
{
    let day = match value.field(3, 0, "dia") {
        Some(field) => field.as_u8(),
        None => None,
    };
    let month = match value.field(3, 1, "mes") {
        Some(field) => field.as_u8(),
        None => None,
    };
    let year = match value.field(3, 2, "ano") {
        Some(field) => field.as_u32(),
        None => None,
    };
    match (day, month, year) {
        (Some(day), Some(month), Some(year)) => Some(NetAppointment { day, month, year }),
        _ => None,
    }
}

/// Decodes the day records of an array, in order.
pub fn read_appointments(items: &Vec<JsonValue>) -> (list: Option<Vec<NetAppointment>>)
    ensures
        list is Some <==> appointment_records(items.deep_view()) is Some,
        list matches Some(l) ==> appointment_records(items.deep_view()) == Some(l@),
{
    let mut out: Vec<NetAppointment> = Vec::new();
    let mut i: usize = 0;
    while i < items.len()
        invariant
            i <= items.len(),
            out.len() == i,
            forall|k: int|
                0 <= k < i ==> (#[trigger] appointment_record(items.deep_view()[k])) == Some(
                    out[k],
                ),
        decreases items.len() - i,
    {
        match read_appointment(&items[i]) {
            Some(appointment) => {
                out.push(appointment);
            },
            None => {
                assert(appointment_record(items.deep_view()[i as int]) is None);
                return None;
            },
        }
        i = i + 1;
    }
    assert(out@ =~= appointment_records(items.deep_view())->0);
    Some(out)
}

/// Turns day records into calendar dates, in order.
pub fn appointment_days(list: &Vec<NetAppointment>) -> (outcome: Result<
    Vec<AppointmentDay>,
    ParseError,
>)
    ensures
        days_view(outcome) == dates_of(list@),
{
    let mut out: Vec<AppointmentDay> = Vec::new();
    let mut i: usize = 0;
    while i < list.len()
        invariant
            i <= list.len(),
            out.len() == i,
            forall|k: int| 0 <= k < i ==> names_date(#[trigger] list[k]),
            forall|k: int| 0 <= k < i ==> (#[trigger] out[k])@ == date_of(list[k]),
        decreases list.len() - i,
    {
        match list[i].date() {
            Some(day) => {
                out.push(day);
            },
            None => {
                assert(!names_date(list[i as int]));
                return Err(ParseError::InvalidDate);
            },
        }
        i = i + 1;
    }
    assert(out.deep_view() =~= dates_of(list@)->Ok_0);
    Ok(out)
}

/// Reads the days that a parsed document lists.
pub fn read_days_document(document: Option<&JsonValue>) -> (outcome: Result<
    Vec<AppointmentDay>,
    ParseError,
>)
    ensures
        days_view(outcome) == days_of_document(
            document.deep_view(),
        ),
{
    let value = match document {
        Some(value) => value,
        None => {
            return Err(ParseError::Json);
        },
    };
    let items = match value.items() {
        Some(items) => items,
        None => {
            return Err(ParseError::Json);
        },
    };
    match read_appointments(items) {
        Some(list) => appointment_days(&list),
        None => Err(ParseError::Record),
    }
}

/// Reads the days from the argument of the script call, if the page held
/// such a call.
pub fn read_days_capture(capture: Option<&str>) -> (outcome: Result<
    Vec<AppointmentDay>,
    ParseError,
>)
    ensures
        days_view(outcome) == days_of_capture(
            match capture {
                Some(text) => Some(text@),
                None => None,
            },
        ),
{
    match capture {
        Some(text) => {
            let parsed = parse_document(text);
            read_days_document(parsed.as_ref())
        },
        None => Err(ParseError::UnexpectedBody),
    }
}

/// Reads the days with openings from the page that the service answers with.
///
/// A page with the "recently reserved" notice yields no days, and that is no
/// failure.  Any other page must hold the script call with the list of days;
/// the days come out in the list's order.
pub fn read_appointment_days(body: &str) -> (outcome: Result<Vec<AppointmentDay>, ParseError>)
    ensures
        days_view(outcome) == days_of_body(body@),
        occurs_in(RESERVED_NOTICE@, body@) ==> (outcome matches Ok(days) && days@.len() == 0),
{
    if contains(body, RESERVED_NOTICE) {
        let days: Vec<AppointmentDay> = Vec::new();
        assert(days.deep_view() =~= Seq::<Date>::empty());
        return Ok(days);
    }
    let capture = capture_first(EMBEDDED_DAYS_PATTERN, body);
    match capture {
        Some(text) => read_days_capture(Some(text.as_str())),
        None => read_days_capture(None),
    }
}

/// Law: a page with the "recently reserved" notice reports no days, whatever
/// list of days it also holds.
pub proof fn lemma_reserved_notice_reports_no_days(body: Seq<char>)
    requires
        occurs_in(RESERVED_NOTICE@, body),
    ensures
        days_of_body(body) == Ok::<Seq<Date>, ParseError>(Seq::empty()),
{
}

} // verus!
