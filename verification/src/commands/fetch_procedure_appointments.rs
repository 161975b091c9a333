//! The appointments that the offices have for one procedure.

use vstd::prelude::*;
use crate::calendar::{year_month_day, AppointmentDay, AppointmentSlot, Date, Instant};
use crate::commands::ExitCode;
use crate::model::{StaticOffice, StaticOfficeProcedure};
use crate::seqs::{lemma_filter_next, lemma_filter_none};
use crate::text::{lowercase, to_lowercase};

verus! {

/// The arguments of the command.
#[derive(Debug)]
pub struct Args {
    /// Fetch appointments for this procedure.
    pub procedure_id: u32,
    /// Fetch also slots for each day found to have appointments.
    pub slots: bool,
    /// Search only on this office
    pub office_id: Option<u32>,
    /// Search only in the offices within the given group
    pub office_group: Option<String>,
    /// Prints all the results at once in JSON format
    pub json: bool,
}

/// A day with openings.  `slots` holds the Unix timestamps of the day's
/// slots, or nothing where the slots were not asked for.
#[derive(Debug)]
pub struct DayWithAppointments {
    pub day: String,
    pub slots: Option<Vec<i64>>,
}

/// The identifier and the name of an office.
#[derive(Debug)]
pub struct OfficeBasicInfo {
    pub office_id: u32,
    pub office_name: &'static str,
}

/// The days with openings of one office.
#[derive(Debug)]
pub struct OfficeAppoinmentsInfo {
    pub office: OfficeBasicInfo,
    pub appointments: Vec<DayWithAppointments>,
}

/// The days with openings of all offices that were asked.
#[derive(Debug)]
pub struct ProcudureAppointments {
    pub appointments_by_office: Vec<OfficeAppoinmentsInfo>,
}

/// What a [`DayWithAppointments`] holds.
pub struct ReportedDay {
    pub day: Seq<char>,
    pub slots: Option<Seq<i64>>,
}

impl View for DayWithAppointments {
    type V = ReportedDay;

    open spec fn view(&self) -> ReportedDay {
        ReportedDay {
            day: self.day@,
            slots: match self.slots {
                Some(slots) => Some(slots@),
                None => None,
            },
        }
    }
}

impl DeepView for DayWithAppointments {
    type V = ReportedDay;

    open spec fn deep_view(&self) -> ReportedDay {
        self@
    }
}

/// What an [`OfficeAppoinmentsInfo`] holds.
pub struct ReportedOffice {
    pub office_id: u32,
    pub office_name: Seq<char>,
    pub appointments: Seq<ReportedDay>,
}

impl View for OfficeAppoinmentsInfo {
    type V = ReportedOffice;

    open spec fn view(&self) -> ReportedOffice {
        ReportedOffice {
            office_id: self.office.office_id,
            office_name: self.office.office_name@,
            appointments: self.appointments.deep_view(),
        }
    }
}

impl DeepView for OfficeAppoinmentsInfo {
    type V = ReportedOffice;

    open spec fn deep_view(&self) -> ReportedOffice {
        self@
    }
}

/// The identifier and the name of an office of the catalogue.
pub fn basic_office_info_from_static(office: &StaticOffice) -> (info: OfficeBasicInfo)
    ensures
        info.office_id == office.id.0,
        info.office_name@ == office.name@,
{
    OfficeBasicInfo { office_id: office.id.0, office_name: office.name }
}

/// Whether an office passes the filters: its identifier is the one asked
/// for, if one is, and its group is the one asked for, if one is.  Groups are
/// compared in lower case.
pub open spec fn office_matches(
    office: &StaticOffice,
    office_id: Option<u32>,
    group: Option<Seq<char>>,
) -> bool {
    &&& office_id matches Some(id) ==> office.id.0 == id
    &&& group matches Some(g) ==> lowercase(office.group@) == lowercase(g)
}

/// Keeps the offices that pass the filters, in their order.
pub fn filter_offices(
    offices: Vec<&'static StaticOffice>,
    match_office_id: Option<u32>,
    match_office_group: Option<String>,
) -> (kept: Vec<&'static StaticOffice>)
    ensures
        kept@ == offices@.filter(matching(match_office_id, match_office_group.deep_view())),
{
    let ghost pred = matching(match_office_id, match_office_group.deep_view());
    let search_group: Option<String> = match &match_office_group {
        Some(group) => Some(to_lowercase(group.as_str())),
        None => None,
    };
    let mut kept: Vec<&'static StaticOffice> = Vec::new();
    let mut i: usize = 0;
    proof {
        lemma_filter_none(offices@, pred);
    }
    while i < offices.len()
        invariant
            i <= offices.len(),
            pred == matching(match_office_id, match_office_group.deep_view()),
            search_group.deep_view() == match match_office_group.deep_view() {
                Some(g) => Some(lowercase(g)),
                None => None,
            },
            kept@ == offices@.take(i as int).filter(pred),
        decreases offices.len() - i,
    {
        let office = offices[i];
        let id_matches = match match_office_id {
            Some(id) => office.id.0 == id,
            None => true,
        };
        let group_matches = match &search_group {
            Some(group) => {
                let lower = to_lowercase(office.group);
                lower == *group
            },
            None => true,
        };
        proof {
            lemma_filter_next(offices@, pred, i as int);
        }
        if id_matches && group_matches {
            kept.push(office);
        }
        i = i + 1;
    }
    assert(offices@.take(offices.len() as int) =~= offices@);
    kept
}

/// Whether `index` is the place of the first procedure with the given
/// identifier among the procedures of an office.
pub open spec fn is_first_offer(procedures: Seq<StaticOfficeProcedure>, id: u32, index: int)
    -> bool {
    &&& 0 <= index < procedures.len()
    &&& procedures[index].procedure_id.0 == id
    &&& forall|j: int| 0 <= j < index ==> (#[trigger] procedures[j]).procedure_id.0 != id
}

/// Whether `procedure` is the entry under which an office offers the
/// procedure with the given identifier: the first one of the office's
/// entries that carries it.
pub open spec fn is_offer_of(
    office: &StaticOffice,
    id: u32,
    procedure: &StaticOfficeProcedure,
) -> bool {
    exists|index: int|
        is_first_offer(office.procedures@, id, index) && office.procedures@[index] == *procedure
}

/// The offices that pass the filters.
pub open spec fn matching(office_id: Option<u32>, group: Option<Seq<char>>) -> spec_fn(
    &'static StaticOffice,
) -> bool {
    |office: &'static StaticOffice| office_matches(office, office_id, group)
}

/// The offices that offer a procedure.
pub open spec fn offering(id: u32) -> spec_fn(&'static StaticOffice) -> bool {
    |office: &'static StaticOffice| offers(office, id)
}

/// The office of an office and its entry for a procedure.
pub open spec fn office_of() -> spec_fn(
    (&'static StaticOffice, &'static StaticOfficeProcedure),
) -> &'static StaticOffice {
    |pair: (&'static StaticOffice, &'static StaticOfficeProcedure)| pair.0
}

/// Whether an office offers a procedure.
pub open spec fn offers(office: &StaticOffice, id: u32) -> bool {
    exists|index: int|
        0 <= index < office.procedures@.len() && (#[trigger] office.procedures@[index]).procedure_id.0
            == id
}

/// The entry under which an office offers a procedure, if it offers it.
/// Where several entries carry the identifier, the first one counts.
pub fn find_offer(office: &'static StaticOffice, id: u32) -> (found: Option<
    &'static StaticOfficeProcedure,
>)
    ensures
        found is Some <==> offers(office, id),
        found matches Some(procedure) ==> is_offer_of(office, id, procedure),
{
    let procedures = office.procedures;
    let mut i: usize = 0;
    while i < procedures.len()
        invariant
            i <= procedures.len(),
            procedures@ == office.procedures@,
            forall|j: int| 0 <= j < i ==> (#[trigger] procedures@[j]).procedure_id.0 != id,
        decreases procedures.len() - i,
    {
        if procedures[i].procedure_id.0 == id {
            assert(is_first_offer(office.procedures@, id, i as int));
            return Some(&procedures[i]);
        }
        i = i + 1;
    }
    None
}

/// Keeps the offices that offer a procedure, in their order, each with the
/// entry under which it offers the procedure.
pub fn offices_with_procedure(offices: Vec<&'static StaticOffice>, procedure_id: u32) -> (found:
    Vec<(&'static StaticOffice, &'static StaticOfficeProcedure)>)
    ensures
        found@.map_values(office_of()) == offices@.filter(offering(procedure_id)),
        forall|k: int|
            0 <= k < found@.len() ==> is_offer_of(
                (#[trigger] found@[k]).0,
                procedure_id,
                found@[k].1,
            ),
{
    let ghost pred = offering(procedure_id);
    let mut found: Vec<(&'static StaticOffice, &'static StaticOfficeProcedure)> = Vec::new();
    let mut i: usize = 0;
    proof {
        lemma_filter_none(offices@, pred);
        assert(found@.map_values(office_of()) =~= offices@.take(0).filter(pred));
    }
    while i < offices.len()
        invariant
            i <= offices.len(),
            pred == offering(procedure_id),
            found@.map_values(office_of()) == offices@.take(i as int).filter(pred),
            forall|k: int|
                0 <= k < found@.len() ==> is_offer_of(
                    (#[trigger] found@[k]).0,
                    procedure_id,
                    found@[k].1,
                ),
        decreases offices.len() - i,
    {
        let office = offices[i];
        proof {
            lemma_filter_next(offices@, pred, i as int);
        }
        match find_offer(office, procedure_id) {
            Some(procedure) => {
                let ghost before = found@;
                found.push((office, procedure));
                assert(found@.map_values(office_of()) =~= before.map_values(office_of()).push(
                    office,
                ));
                assert forall|k: int| 0 <= k < found@.len() implies is_offer_of(
                    (#[trigger] found@[k]).0,
                    procedure_id,
                    found@[k].1,
                ) by {
                    if k < before.len() {
                        assert(found@[k] == before[k]);
                    }
                }
            },
            None => {},
        }
        i = i + 1;
    }
    assert(offices@.take(offices.len() as int) =~= offices@);
    found
}

/// Chooses the offices that the command asks: those that pass the filters of
/// the arguments and offer the procedure, each with the entry under which it
/// offers the procedure.  Where there is none, the command ends as a fault
/// of the arguments.
pub fn select_offices(args: &Args, offices: Vec<&'static StaticOffice>) -> (selected: Result<
    Vec<(&'static StaticOffice, &'static StaticOfficeProcedure)>,
    ExitCode,
>)
    ensures
        match selected {
            Ok(found) => {
                &&& found@.len() > 0
                &&& found@.map_values(office_of()) == offices@.filter(
                    matching(args.office_id, args.office_group.deep_view()),
                ).filter(offering(args.procedure_id))
                &&& forall|k: int|
                    0 <= k < found@.len() ==> is_offer_of(
                        (#[trigger] found@[k]).0,
                        args.procedure_id,
                        found@[k].1,
                    )
            },
            Err(code) => {
                &&& code == ExitCode::FaultOrArgsError
                &&& offices@.filter(
                    matching(args.office_id, args.office_group.deep_view()),
                ).filter(offering(args.procedure_id)).len() == 0
            },
        },
{
    let group = match &args.office_group {
        Some(group) => Some(group.clone()),
        None => None,
    };
    let filtered = filter_offices(offices, args.office_id, group);
    let found = offices_with_procedure(filtered, args.procedure_id);
    if found.len() == 0 {
        assert(found@.map_values(office_of()).len() == 0);
        Err(ExitCode::FaultOrArgsError)
    } else {
        assert(found@.map_values(office_of()).len() > 0);
        Ok(found)
    }
}

/// The timestamps of a run of slots.
pub open spec fn timestamps(slots: Seq<Instant>) -> Seq<i64> {
    slots.map_values(|slot: Instant| slot.timestamp as i64)
}

/// How a day is reported when its slots were not asked for.
pub open spec fn reported_day(day: Date) -> ReportedDay {
    ReportedDay { day: year_month_day(day), slots: None }
}

/// How a day is reported with its slots.
pub open spec fn reported_day_with_slots(day: Date, slots: Seq<Instant>) -> ReportedDay {
    ReportedDay { day: year_month_day(day), slots: Some(timestamps(slots)) }
}

/// Reports a day whose slots were not asked for.
pub fn day_without_slots(day: &AppointmentDay) -> (reported: DayWithAppointments)
    ensures
        reported@ == reported_day(day@),
{
    DayWithAppointments { day: day.iso_text(), slots: None }
}

/// Reports a day with the timestamps of its slots.
pub fn day_with_slots(day: &AppointmentDay, slots: &Vec<AppointmentSlot>) -> (reported:
    DayWithAppointments)
    ensures
        reported@ == reported_day_with_slots(day@, slots.deep_view()),
{
    let mut stamps: Vec<i64> = Vec::new();
    let mut i: usize = 0;
    while i < slots.len()
        invariant
            i <= slots.len(),
            stamps@.len() == i,
            forall|k: int| 0 <= k < i ==> (#[trigger] stamps@[k]) == slots[k]@.timestamp,
        decreases slots.len() - i,
    {
        stamps.push(slots[i].timestamp());
        i = i + 1;
    }
    assert(stamps@ =~= timestamps(slots.deep_view()));
    DayWithAppointments { day: day.iso_text(), slots: Some(stamps) }
}

/// The days of an office as they are reported when slots were not asked
/// for: every day, in order.
pub fn days_without_slots(days: &Vec<AppointmentDay>) -> (reported: Vec<DayWithAppointments>)
    ensures
        reported.deep_view() == days.deep_view().map_values(|day: Date| reported_day(day)),
{
    let mut reported: Vec<DayWithAppointments> = Vec::new();
    let mut i: usize = 0;
    while i < days.len()
        invariant
            i <= days.len(),
            reported.len() == i,
            forall|k: int| 0 <= k < i ==> (#[trigger] reported[k])@ == reported_day(days[k]@),
        decreases days.len() - i,
    {
        reported.push(day_without_slots(&days[i]));
        i = i + 1;
    }
    assert(reported.deep_view() =~= days.deep_view().map_values(|day: Date| reported_day(day)));
    reported
}

/// The days of an office as they are reported with their slots: a day stands
/// only where at least one slot was found on it.
pub open spec fn reported_days_with_slots(days: Seq<(Date, Seq<Instant>)>) -> Seq<ReportedDay>
    decreases days.len(),
{
    if days.len() == 0 {
        Seq::empty()
    } else if days.last().1.len() > 0 {
        reported_days_with_slots(days.drop_last()).push(
            reported_day_with_slots(days.last().0, days.last().1),
        )
    } else {
        reported_days_with_slots(days.drop_last())
    }
}

/// Reports the days of an office with their slots, leaving out the days on
/// which no slot was found.
pub fn days_with_slots(days: &Vec<(AppointmentDay, Vec<AppointmentSlot>)>) -> (reported: Vec<
    DayWithAppointments,
>)
    ensures
        reported.deep_view() == reported_days_with_slots(days.deep_view()),
{
    let ghost all = days.deep_view();
    let mut reported: Vec<DayWithAppointments> = Vec::new();
    let mut i: usize = 0;
    assert(reported.deep_view() =~= reported_days_with_slots(all.take(0)));
    while i < days.len()
        invariant
            i <= days.len(),
            all == days.deep_view(),
            reported.deep_view() == reported_days_with_slots(all.take(i as int)),
        decreases days.len() - i,
    {
        proof {
            assert(all.take(i + 1).drop_last() =~= all.take(i as int));
            assert(all.take(i + 1).last() == (days[i as int].0@, days[i as int].1.deep_view()));
        }
        if days[i].1.len() > 0 {
            let ghost before = reported.deep_view();
            let day = day_with_slots(&days[i].0, &days[i].1);
            reported.push(day);
            assert(reported.deep_view() =~= before.push(
                reported_day_with_slots(days[i as int].0@, days[i as int].1.deep_view()),
            ));
        }
        i = i + 1;
    }
    assert(all.take(days.len() as int) =~= all);
    reported
}

/// The days on which at least one slot was found.
pub open spec fn has_slots() -> spec_fn((Date, Seq<Instant>)) -> bool {
    |day: (Date, Seq<Instant>)| day.1.len() > 0
}

/// Keeps the days on which at least one slot was found, each with its slots,
/// in their order.
pub fn days_having_slots(days: Vec<(AppointmentDay, Vec<AppointmentSlot>)>) -> (kept: Vec<
    (AppointmentDay, Vec<AppointmentSlot>),
>)
    ensures
        kept.deep_view() == days.deep_view().filter(has_slots()),
{
    let ghost all = days.deep_view();
    let mut kept: Vec<(AppointmentDay, Vec<AppointmentSlot>)> = Vec::new();
    proof {
        lemma_filter_none(all, has_slots());
        assert(kept.deep_view() =~= all.take(0).filter(has_slots()));
    }
    for day in it: days
        invariant
            all.len() == it.seq().len(),
            forall|k: int|
                0 <= k < it.seq().len() ==> all[k] == (
                    (#[trigger] it.seq()[k]).0@,
                    it.seq()[k].1.deep_view(),
                ),
            kept.deep_view() == all.take(it.index() as int).filter(has_slots()),
    {
        proof {
            lemma_filter_next(all, has_slots(), it.index() as int);
        }
        if day.1.len() > 0 {
            let ghost before = kept.deep_view();
            kept.push(day);
            assert(kept.deep_view() =~= before.push(all[it.index() as int]));
        }
    }
    assert(all.take(all.len() as int) =~= all);
    kept
}

/// Puts the days of one office under the office's identifier and name.
pub fn office_appointments(office: &StaticOffice, appointments: Vec<DayWithAppointments>) -> (info:
    OfficeAppoinmentsInfo)
    ensures
        info@ == (ReportedOffice {
            office_id: office.id.0,
            office_name: office.name@,
            appointments: appointments.deep_view(),
        }),
{
    OfficeAppoinmentsInfo { office: basic_office_info_from_static(office), appointments }
}

/// Whether any office reports a day.
pub open spec fn any_appointments(offices: Seq<ReportedOffice>) -> bool {
    exists|k: int| 0 <= k < offices.len() && (#[trigger] offices[k]).appointments.len() > 0
}

/// Whether any of the offices that were asked reports a day.
pub fn found_appointments(report: &ProcudureAppointments) -> (found: bool)
    ensures
        found == any_appointments(report.appointments_by_office.deep_view()),
{
    let ghost reported = report.appointments_by_office.deep_view();
    let mut i: usize = 0;
    while i < report.appointments_by_office.len()
        invariant
            i <= report.appointments_by_office.len(),
            reported == report.appointments_by_office.deep_view(),
            forall|k: int| 0 <= k < i ==> (#[trigger] reported[k]).appointments.len() == 0,
        decreases report.appointments_by_office.len() - i,
    {
        if report.appointments_by_office[i].appointments.len() > 0 {
            assert(reported[i as int].appointments.len() > 0);
            return true;
        }
        i = i + 1;
    }
    false
}

/// How the command ends: well where an appointment was found in any office,
/// and as unsatisfied where none was.
pub fn conclude(report: &ProcudureAppointments) -> (code: ExitCode)
    ensures
        code == if any_appointments(report.appointments_by_office.deep_view()) {
            ExitCode::Success
        } else {
            ExitCode::RequestUnsatisfied
        },
{
    if found_appointments(report) {
        ExitCode::Success
    } else {
        ExitCode::RequestUnsatisfied
    }
}

} // verus!
