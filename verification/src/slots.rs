//! The bookable slots of one day.
//!
//! The service groups the slots of a day by hour and, within an hour, by
//! minute.  Each slot carries its time of day as a text and a flag that tells
//! whether it can still be booked.

use vstd::prelude::*;
use crate::calendar::{
    clock_time, instant_at, parse_clock_time, AppointmentDay, AppointmentSlot, Date, Instant,
};
use crate::error::ParseError;
use crate::json::{
    json_bool, json_document, json_field, json_items, json_text, parse_document, Json,
    JsonValue,
};

verus! {

/// One slot as the service writes it.
#[derive(Debug)]
pub struct NetAppointmentSlot {
    pub raw_time: String,
    pub available: bool,
}

/// The slots that start in the same minute.
#[derive(Debug)]
pub struct NetAppointmentSlotSet {
    pub slots: Vec<NetAppointmentSlot>,
}

/// The slots that start in the same hour, minute by minute.
#[derive(Debug)]
pub struct NetAppointmentHourlySlots {
    pub slot_sets: Vec<NetAppointmentSlotSet>,
}

/// What a [`NetAppointmentSlot`] holds.
pub struct Slot {
    pub raw_time: Seq<char>,
    pub available: bool,
}

/// What a [`NetAppointmentSlotSet`] holds.
pub struct SlotSet {
    pub slots: Seq<Slot>,
}

/// What a [`NetAppointmentHourlySlots`] holds.
pub struct HourlySlots {
    pub slot_sets: Seq<SlotSet>,
}

impl View for NetAppointmentSlot {
    type V = Slot;

    open spec fn view(&self) -> Slot {
        Slot { raw_time: self.raw_time@, available: self.available }
    }
}

impl DeepView for NetAppointmentSlot {
    type V = Slot;

    open spec fn deep_view(&self) -> Slot {
        self@
    }
}

impl View for NetAppointmentSlotSet {
    type V = SlotSet;

    open spec fn view(&self) -> SlotSet {
        SlotSet { slots: self.slots.deep_view() }
    }
}

impl DeepView for NetAppointmentSlotSet {
    type V = SlotSet;

    open spec fn deep_view(&self) -> SlotSet {
        self@
    }
}

impl View for NetAppointmentHourlySlots {
    type V = HourlySlots;

    open spec fn view(&self) -> HourlySlots {
        HourlySlots { slot_sets: self.slot_sets.deep_view() }
    }
}

impl DeepView for NetAppointmentHourlySlots {
    type V = HourlySlots;

    open spec fn deep_view(&self) -> HourlySlots {
        self@
    }
}

/// The slot that a document describes: a record of the two fields `hora`, a
/// text, and `disponible`, a boolean.
pub open spec fn slot_record(json: Json) -> Option<Slot> {
    let raw_time = match json_field(json, 2, 0, "hora"@) {
        Some(field) => json_text(field),
        None => None,
    };
    let available = match json_field(json, 2, 1, "disponible"@) {
        Some(field) => json_bool(field),
        None => None,
    };
    if raw_time is Some && available is Some {
        Some(Slot { raw_time: raw_time->0, available: available->0 })
    } else {
        None
    }
}

/// The slots that the items of an array describe, if each item describes
/// one.
pub open spec fn slot_records(items: Seq<Json>) -> Option<Seq<Slot>> {
    if forall|i: int| 0 <= i < items.len() ==> (#[trigger] slot_record(items[i])) is Some {
        Some(Seq::new(items.len(), |i: int| slot_record(items[i])->0))
    } else {
        None
    }
}

/// The slots of a minute that a document describes: a record of the one
/// field `huecos`, an array of slots.
pub open spec fn slot_set_record(json: Json) -> Option<SlotSet> {
    match json_field(json, 1, 0, "huecos"@) {
        Some(field) => match json_items(field) {
            Some(items) => match slot_records(items) {
                Some(slots) => Some(SlotSet { slots }),
                None => None,
            },
            None => None,
        },
        None => None,
    }
}

/// The minutes that the items of an array describe, if each item describes
/// one.
pub open spec fn slot_set_records(items: Seq<Json>) -> Option<Seq<SlotSet>> {
    if forall|i: int| 0 <= i < items.len() ==> (#[trigger] slot_set_record(items[i])) is Some {
        Some(Seq::new(items.len(), |i: int| slot_set_record(items[i])->0))
    } else {
        None
    }
}

/// The slots of an hour that a document describes: a record of the one field
/// `franjasMinuto`, an array of minutes.
pub open spec fn hourly_record(json: Json) -> Option<HourlySlots> {
    match json_field(json, 1, 0, "franjasMinuto"@) {
        Some(field) => match json_items(field) {
            Some(items) => match slot_set_records(items) {
                Some(slot_sets) => Some(HourlySlots { slot_sets }),
                None => None,
            },
            None => None,
        },
        None => None,
    }
}

/// The hours that the items of an array describe, if each item describes
/// one.
pub open spec fn hourly_records(items: Seq<Json>) -> Option<Seq<HourlySlots>> {
    if forall|i: int| 0 <= i < items.len() ==> (#[trigger] hourly_record(items[i])) is Some {
        Some(Seq::new(items.len(), |i: int| hourly_record(items[i])->0))
    } else {
        None
    }
}

/// The hours that a parsed document lists.  The document must be an array of
/// hour records.
pub open spec fn hours_of_document(document: Option<Json>) -> Result<Seq<HourlySlots>, ParseError> {
    match document {
        Some(Json::Array(items)) => match hourly_records(items) {
            Some(hours) => Ok(hours),
            None => Err(ParseError::Record),
        },
        _ => Err(ParseError::Json),
    }
}

/// The times of the slots of one minute that can still be booked, in order.
pub open spec fn open_times_of_set(slots: Seq<Slot>) -> Seq<Seq<char>>
    decreases slots.len(),
{
    if slots.len() == 0 {
        Seq::empty()
    } else if slots.last().available {
        open_times_of_set(slots.drop_last()).push(slots.last().raw_time)
    } else {
        open_times_of_set(slots.drop_last())
    }
}

/// The times of the slots of one hour that can still be booked, in order.
pub open spec fn open_times_of_hour(slot_sets: Seq<SlotSet>) -> Seq<Seq<char>>
    decreases slot_sets.len(),
{
    if slot_sets.len() == 0 {
        Seq::empty()
    } else {
        open_times_of_hour(slot_sets.drop_last()) + open_times_of_set(slot_sets.last().slots)
    }
}

/// The times of all slots that can still be booked, in order: the groupings
/// by hour and by minute are flattened, and the slots that are not available
/// are left out.
pub open spec fn open_times(hours: Seq<HourlySlots>) -> Seq<Seq<char>>
    decreases hours.len(),
{
    if hours.len() == 0 {
        Seq::empty()
    } else {
        open_times(hours.drop_last()) + open_times_of_hour(hours.last().slot_sets)
    }
}

/// The instant of a day at the time that a text writes.
pub open spec fn instant_of(day: Date, time: Seq<char>) -> Result<Instant, ParseError> {
    match clock_time(time) {
        Some((hour, minute)) => match instant_at(day, hour as int, minute as int) {
            Some(instant) => Ok(instant),
            None => Err(ParseError::NoLocalInstant),
        },
        None => Err(ParseError::InvalidTime),
    }
}

/// A run of slots: the instants that were produced, and the failure that
/// ended the run if one did.
pub struct SlotRun {
    pub slots: Seq<Instant>,
    pub failure: Option<ParseError>,
}

/// The run of slots of a day at the given times.  The slots come in the
/// order of the times; the first time that names no instant ends the run
/// with its failure.
pub open spec fn slot_run(day: Date, times: Seq<Seq<char>>) -> SlotRun
    decreases times.len(),
{
    if times.len() == 0 {
        SlotRun { slots: Seq::empty(), failure: None }
    } else {
        let before = slot_run(day, times.drop_last());
        if before.failure is Some {
            before
        } else {
            match instant_of(day, times.last()) {
                Ok(instant) => SlotRun { slots: before.slots.push(instant), failure: None },
                Err(e) => SlotRun { slots: before.slots, failure: Some(e) },
            }
        }
    }
}

/// The slots of a day that a response body reports.
pub open spec fn slots_of_body(body: Seq<char>, day: Date) -> Result<SlotRun, ParseError> {
    match hours_of_document(json_document(body)) {
        Ok(hours) => Ok(slot_run(day, open_times(hours))),
        Err(e) => Err(e),
    }
}

/// The bookable slots of a day in the order in which the service lists them.
/// Where a slot's time names no instant, the sequence ends there and
/// `failure` tells why; the slots before it stand.
#[derive(Debug)]
pub struct SlotSequence {
    pub slots: Vec<AppointmentSlot>,
    pub failure: Option<ParseError>,
}

impl View for SlotSequence {
    type V = SlotRun;

    open spec fn view(&self) -> SlotRun {
        SlotRun { slots: self.slots.deep_view(), failure: self.failure }
    }
}

impl DeepView for SlotSequence {
    type V = SlotRun;

    open spec fn deep_view(&self) -> SlotRun {
        self@
    }
}

/// The view of a sequence of slots or of the failure to read one.
pub open spec fn slots_view(outcome: Result<SlotSequence, ParseError>) -> Result<
    SlotRun,
    ParseError,
> {
    match outcome {
        Ok(sequence) => Ok(sequence@),
        Err(e) => Err(e),
    }
}

/// The view of a list of hours or of the failure to read one.
pub open spec fn hours_view(outcome: Result<Vec<NetAppointmentHourlySlots>, ParseError>) -> Result<
    Seq<HourlySlots>,
    ParseError,
> {
    match outcome {
        Ok(hours) => Ok(hours.deep_view()),
        Err(e) => Err(e),
    }
}

/// Decodes one slot record.
pub fn read_slot(value: &JsonValue) -> (slot: Option<NetAppointmentSlot>)
    ensures
        slot.deep_view() == slot_record(value@),
{
    let raw_time = match value.field(2, 0, "hora") {
        Some(field) => field.text(),
        None => None,
    };
    let available = match value.field(2, 1, "disponible") {
        Some(field) => field.as_bool(),
        None => None,
    };
    match (raw_time, available) {
        (Some(raw_time), Some(available)) => Some(NetAppointmentSlot { raw_time, available }),
        _ => None,
    }
}

fn read_slots(items: &Vec<JsonValue>) -> (slots: Option<Vec<NetAppointmentSlot>>)
    ensures
        slots.deep_view() == slot_records(items.deep_view()),
{
    let mut out: Vec<NetAppointmentSlot> = Vec::new();
    let mut i: usize = 0;
    while i < items.len()
        invariant
            i <= items.len(),
            out.len() == i,
            forall|k: int|
                0 <= k < i ==> (#[trigger] slot_record(items.deep_view()[k])) == Some(out[k]@),
        decreases items.len() - i,
    {
        match read_slot(&items[i]) {
            Some(slot) => {
                out.push(slot);
            },
            None => {
                assert(slot_record(items.deep_view()[i as int]) is None);
                return None;
            },
        }
        i = i + 1;
    }
    assert(out.deep_view() =~= slot_records(items.deep_view())->0);
    Some(out)
}

/// Decodes the slots of one minute.
pub fn read_slot_set(value: &JsonValue) -> (set: Option<NetAppointmentSlotSet>)
    ensures
        set.deep_view() == slot_set_record(value@),
{
    let field = match value.field(1, 0, "huecos") {
        Some(field) => field,
        None => {
            return None;
        },
    };
    let items = match field.items() {
        Some(items) => items,
        None => {
            return None;
        },
    };
    match read_slots(items) {
        Some(slots) => Some(NetAppointmentSlotSet { slots }),
        None => None,
    }
}

fn read_slot_sets(items: &Vec<JsonValue>) -> (sets: Option<Vec<NetAppointmentSlotSet>>)
    ensures
        sets.deep_view() == slot_set_records(items.deep_view()),
{
    let mut out: Vec<NetAppointmentSlotSet> = Vec::new();
    let mut i: usize = 0;
    while i < items.len()
        invariant
            i <= items.len(),
            out.len() == i,
            forall|k: int|
                0 <= k < i ==> (#[trigger] slot_set_record(items.deep_view()[k])) == Some(out[k]@),
        decreases items.len() - i,
    {
        match read_slot_set(&items[i]) {
            Some(set) => {
                out.push(set);
            },
            None => {
                assert(slot_set_record(items.deep_view()[i as int]) is None);
                return None;
            },
        }
        i = i + 1;
    }
    assert(out.deep_view() =~= slot_set_records(items.deep_view())->0);
    Some(out)
}

/// Decodes the slots of one hour.
pub fn read_hourly_slots(value: &JsonValue) -> (hour: Option<NetAppointmentHourlySlots>)
    ensures
        hour.deep_view() == hourly_record(value@),
{
    let field = match value.field(1, 0, "franjasMinuto") {
        Some(field) => field,
        None => {
            return None;
        },
    };
    let items = match field.items() {
        Some(items) => items,
        None => {
            return None;
        },
    };
    match read_slot_sets(items) {
        Some(slot_sets) => Some(NetAppointmentHourlySlots { slot_sets }),
        None => None,
    }
}

fn read_hours(items: &Vec<JsonValue>) -> (hours: Option<Vec<NetAppointmentHourlySlots>>)
    ensures
        hours.deep_view() == hourly_records(items.deep_view()),
{
    let mut out: Vec<NetAppointmentHourlySlots> = Vec::new();
    let mut i: usize = 0;
    while i < items.len()
        invariant
            i <= items.len(),
            out.len() == i,
            forall|k: int|
                0 <= k < i ==> (#[trigger] hourly_record(items.deep_view()[k])) == Some(out[k]@),
        decreases items.len() - i,
    {
        match read_hourly_slots(&items[i]) {
            Some(hour) => {
                out.push(hour);
            },
            None => {
                assert(hourly_record(items.deep_view()[i as int]) is None);
                return None;
            },
        }
        i = i + 1;
    }
    assert(out.deep_view() =~= hourly_records(items.deep_view())->0);
    Some(out)
}

/// Reads the hours that a parsed document lists.
pub fn read_hours_document(document: Option<&JsonValue>) -> (outcome: Result<
    Vec<NetAppointmentHourlySlots>,
    ParseError,
>)
    ensures
        hours_view(outcome) == hours_of_document(
            document.deep_view(),
        ),
{
    let value = match document {
        Some(value) => value,
        None => {
            return Err(ParseError::Json);
        },
    };
    let items = match value.items() {
        Some(items) => items,
        None => {
            return Err(ParseError::Json);
        },
    };
    match read_hours(items) {
        Some(hours) => Ok(hours),
        None => Err(ParseError::Record),
    }
}

fn push_open_times_of_set(slots: &Vec<NetAppointmentSlot>, out: &mut Vec<String>)
    ensures
        final(out).deep_view() == old(out).deep_view() + open_times_of_set(slots.deep_view()),
{
    let ghost base = out.deep_view();
    let ghost all = slots.deep_view();
    let mut i: usize = 0;
    assert(out.deep_view() =~= base + open_times_of_set(all.take(0)));
    while i < slots.len()
        invariant
            i <= slots.len(),
            all == slots.deep_view(),
            out.deep_view() == base + open_times_of_set(all.take(i as int)),
        decreases slots.len() - i,
    {
        proof {
            assert(all.take(i + 1).drop_last() =~= all.take(i as int));
            assert(all.take(i + 1).last() == slots[i as int]@);
        }
        if slots[i].available {
            let ghost before = out.deep_view();
            out.push(slots[i].raw_time.clone());
            assert(out.deep_view() =~= before.push(slots[i as int].raw_time@));
        }
        i = i + 1;
    }
    assert(all.take(slots.len() as int) =~= all);
}

fn push_open_times_of_hour(slot_sets: &Vec<NetAppointmentSlotSet>, out: &mut Vec<String>)
    ensures
        final(out).deep_view() == old(out).deep_view() + open_times_of_hour(
            slot_sets.deep_view(),
        ),
{
    let ghost base = out.deep_view();
    let ghost all = slot_sets.deep_view();
    let mut i: usize = 0;
    assert(out.deep_view() =~= base + open_times_of_hour(all.take(0)));
    while i < slot_sets.len()
        invariant
            i <= slot_sets.len(),
            all == slot_sets.deep_view(),
            out.deep_view() == base + open_times_of_hour(all.take(i as int)),
        decreases slot_sets.len() - i,
    {
        proof {
            assert(all.take(i + 1).drop_last() =~= all.take(i as int));
            assert(all.take(i + 1).last() == slot_sets[i as int]@);
        }
        let ghost before = out.deep_view();
        push_open_times_of_set(&slot_sets[i].slots, out);
        assert(out.deep_view() =~= base + open_times_of_hour(all.take(i + 1)));
        i = i + 1;
    }
    assert(all.take(slot_sets.len() as int) =~= all);
}

/// Lists the times of all slots that can still be booked, in the order in
/// which the service lists them.
pub fn available_times(hours: &Vec<NetAppointmentHourlySlots>) -> (times: Vec<String>)
    ensures
        times.deep_view() == open_times(hours.deep_view()),
{
    let mut out: Vec<String> = Vec::new();
    let ghost all = hours.deep_view();
    let mut i: usize = 0;
    assert(out.deep_view() =~= open_times(all.take(0)));
    while i < hours.len()
        invariant
            i <= hours.len(),
            all == hours.deep_view(),
            out.deep_view() == open_times(all.take(i as int)),
        decreases hours.len() - i,
    {
        proof {
            assert(all.take(i + 1).drop_last() =~= all.take(i as int));
            assert(all.take(i + 1).last() == hours[i as int]@);
        }
        push_open_times_of_hour(&hours[i].slot_sets, &mut out);
        i = i + 1;
    }
    assert(all.take(hours.len() as int) =~= all);
    out
}

/// Once a run has failed, further times do not change it.
proof fn lemma_failed_run_stands(day: Date, times: Seq<Seq<char>>, k: int)
    requires
        0 <= k <= times.len(),
        slot_run(day, times.take(k)).failure is Some,
    ensures
        slot_run(day, times) == slot_run(day, times.take(k)),
    decreases times.len() - k,
{
    if k == times.len() {
        assert(times.take(k) =~= times);
    } else {
        assert(times.take(k + 1).drop_last() =~= times.take(k));
        lemma_failed_run_stands(day, times, k + 1);
    }
}

/// Produces the slot of a day at the time that a text writes.
pub fn slot_at(day: AppointmentDay, time: &str) -> (slot: Result<AppointmentSlot, ParseError>)
    ensures
        match slot {
            Ok(s) => instant_of(day@, time@) == Ok::<Instant, ParseError>(s@),
            Err(e) => instant_of(day@, time@) == Err::<Instant, ParseError>(e),
        },
{
    match parse_clock_time(time) {
        Some((hour, minute)) => match AppointmentSlot::at(day, hour, minute) {
            Some(slot) => Ok(slot),
            None => Err(ParseError::NoLocalInstant),
        },
        None => Err(ParseError::InvalidTime),
    }
}

/// Produces the slots of a day at the given times, in order, up to the first
/// time that names no instant.
pub fn slots_at(day: AppointmentDay, times: &Vec<String>) -> (sequence: SlotSequence)
    ensures
        sequence@ == slot_run(day@, times.deep_view()),
{
    let ghost all = times.deep_view();
    let mut slots: Vec<AppointmentSlot> = Vec::new();
    let mut i: usize = 0;
    assert(slots.deep_view() =~= slot_run(day@, all.take(0)).slots);
    while i < times.len()
        invariant
            i <= times.len(),
            all == times.deep_view(),
            slot_run(day@, all.take(i as int)).failure is None,
            slots.deep_view() == slot_run(day@, all.take(i as int)).slots,
        decreases times.len() - i,
    {
        proof {
            assert(all.take(i + 1).drop_last() =~= all.take(i as int));
            assert(all.take(i + 1).last() == times[i as int]@);
        }
        match slot_at(day, times[i].as_str()) {
            Ok(slot) => {
                let ghost before = slots.deep_view();
                slots.push(slot);
                assert(slots.deep_view() =~= before.push(slot@));
            },
            Err(e) => {
                proof {
                    lemma_failed_run_stands(day@, all, i + 1);
                }
                return SlotSequence { slots, failure: Some(e) };
            },
        }
        i = i + 1;
    }
    assert(all.take(times.len() as int) =~= all);
    SlotSequence { slots, failure: None }
}

/// Reads the bookable slots of a day from the body that the service answers
/// with.
///
/// The groupings by hour and by minute are flattened in their order, the
/// slots that are not available are left out, and each remaining slot stands
/// at the requested day and at the time of day that its text writes, on the
/// civil clock of Europe/Madrid.
pub fn read_day_slots(body: &str, day: AppointmentDay) -> (outcome: Result<
    SlotSequence,
    ParseError,
>)
    ensures
        slots_view(outcome) == slots_of_body(body@, day@),
{
    let parsed = parse_document(body);
    match read_hours_document(parsed.as_ref()) {
        Ok(hours) => {
            let times = available_times(&hours);
            Ok(slots_at(day, &times))
        },
        Err(e) => Err(e),
    }
}

/// Law: the open times of one minute are the times of exactly those of its
/// slots whose availability flag is set, in their order.
pub proof fn lemma_open_times_of_set_filter_by_flag(slots: Seq<Slot>)
    ensures
        open_times_of_set(slots) == slots.filter(|slot: Slot| slot.available).map_values(
            |slot: Slot| slot.raw_time,
        ),
    decreases slots.len(),
{
    reveal(Seq::filter);
    let flagged = |slot: Slot| slot.available;
    let time = |slot: Slot| slot.raw_time;
    if slots.len() == 0 {
        assert(open_times_of_set(slots) =~= slots.filter(flagged).map_values(time));
    } else {
        lemma_open_times_of_set_filter_by_flag(slots.drop_last());
        assert(open_times_of_set(slots) =~= slots.filter(flagged).map_values(time));
    }
}

/// Whether a time is the time of a slot that can still be booked.
pub open spec fn is_open_time(hours: Seq<HourlySlots>, time: Seq<char>) -> bool {
    exists|h: int, m: int, s: int|
        0 <= h < hours.len() && 0 <= m < hours[h].slot_sets.len() && 0 <= s
            < hours[h].slot_sets[m].slots.len() && (#[trigger] hours[h].slot_sets[m].slots[s])
            == (Slot { raw_time: time, available: true })
}

proof fn lemma_open_times_of_set_are_available(slots: Seq<Slot>, k: int)
    requires
        0 <= k < open_times_of_set(slots).len(),
    ensures
        exists|s: int|
            0 <= s < slots.len() && (#[trigger] slots[s]) == (Slot {
                raw_time: open_times_of_set(slots)[k],
                available: true,
            }),
    decreases slots.len(),
{
    let before = open_times_of_set(slots.drop_last());
    if slots.last().available && k == before.len() {
        assert(slots[slots.len() - 1] == (Slot {
            raw_time: open_times_of_set(slots)[k],
            available: true,
        }));
    } else {
        lemma_open_times_of_set_are_available(slots.drop_last(), k);
        let s = choose|s: int|
            0 <= s < slots.drop_last().len() && (#[trigger] slots.drop_last()[s]) == (Slot {
                raw_time: before[k],
                available: true,
            });
        assert(slots[s] == slots.drop_last()[s]);
    }
}

proof fn lemma_open_times_of_hour_are_available(slot_sets: Seq<SlotSet>, k: int)
    requires
        0 <= k < open_times_of_hour(slot_sets).len(),
    ensures
        exists|m: int, s: int|
            0 <= m < slot_sets.len() && 0 <= s < slot_sets[m].slots.len() && (
            #[trigger] slot_sets[m].slots[s]) == (Slot {
                raw_time: open_times_of_hour(slot_sets)[k],
                available: true,
            }),
    decreases slot_sets.len(),
{
    let before = open_times_of_hour(slot_sets.drop_last());
    if k < before.len() {
        lemma_open_times_of_hour_are_available(slot_sets.drop_last(), k);
        let (m, s) = choose|m: int, s: int|
            0 <= m < slot_sets.drop_last().len() && 0 <= s < slot_sets.drop_last()[m].slots.len()
                && (#[trigger] slot_sets.drop_last()[m].slots[s]) == (Slot {
                raw_time: before[k],
                available: true,
            });
        assert(slot_sets[m].slots[s] == slot_sets.drop_last()[m].slots[s]);
    } else {
        let last = slot_sets.len() - 1;
        lemma_open_times_of_set_are_available(slot_sets.last().slots, k - before.len());
        let s = choose|s: int|
            0 <= s < slot_sets.last().slots.len() && (#[trigger] slot_sets.last().slots[s]) == (
            Slot {
                raw_time: open_times_of_set(slot_sets.last().slots)[k - before.len()],
                available: true,
            });
        assert(slot_sets[last].slots[s] == slot_sets.last().slots[s]);
    }
}

/// Law: every time among the open times is the time of a slot whose
/// availability flag is set; a slot whose flag is not set contributes
/// nothing.
pub proof fn lemma_open_times_are_available(hours: Seq<HourlySlots>, k: int)
    requires
        0 <= k < open_times(hours).len(),
    ensures
        is_open_time(hours, open_times(hours)[k]),
    decreases hours.len(),
{
    let before = open_times(hours.drop_last());
    if k < before.len() {
        lemma_open_times_are_available(hours.drop_last(), k);
        let (h, m, s) = choose|h: int, m: int, s: int|
            0 <= h < hours.drop_last().len() && 0 <= m < hours.drop_last()[h].slot_sets.len() && 0
                <= s < hours.drop_last()[h].slot_sets[m].slots.len() && (
            #[trigger] hours.drop_last()[h].slot_sets[m].slots[s]) == (Slot {
                raw_time: before[k],
                available: true,
            });
        assert(hours[h].slot_sets[m].slots[s] == hours.drop_last()[h].slot_sets[m].slots[s]);
    } else {
        let last = hours.len() - 1;
        lemma_open_times_of_hour_are_available(hours.last().slot_sets, k - before.len());
        let (m, s) = choose|m: int, s: int|
            0 <= m < hours.last().slot_sets.len() && 0 <= s < hours.last().slot_sets[m].slots.len()
                && (#[trigger] hours.last().slot_sets[m].slots[s]) == (Slot {
                raw_time: open_times_of_hour(hours.last().slot_sets)[k - before.len()],
                available: true,
            });
        assert(hours[last].slot_sets[m].slots[s] == hours.last().slot_sets[m].slots[s]);
    }
}

/// Law: the slots of a run stand, one by one and in order, at the times that
/// the run was given: the `k`-th slot lies on the requested day, at the hour
/// and the minute that the `k`-th time writes, and is the instant that this
/// civil time names in Europe/Madrid.
pub proof fn lemma_slots_stand_at_their_times(day: Date, times: Seq<Seq<char>>, k: int)
    requires
        0 <= k < slot_run(day, times).slots.len(),
    ensures
        k < times.len(),
        instant_of(day, times[k]) == Ok::<Instant, ParseError>(slot_run(day, times).slots[k]),
        slot_run(day, times).slots[k].date == day,
        clock_time(times[k]) == Some(
            (
                slot_run(day, times).slots[k].hour as u8,
                slot_run(day, times).slots[k].minute as u8,
            ),
        ),
    decreases times.len(),
{
    let before = slot_run(day, times.drop_last());
    if k < before.slots.len() {
        lemma_slots_stand_at_their_times(day, times.drop_last(), k);
    } else {
        lemma_run_is_no_longer_than_its_times(day, times.drop_last());
    }
}

/// A run holds no more slots than it was given times, and exactly as many
/// where it did not fail.
proof fn lemma_run_is_no_longer_than_its_times(day: Date, times: Seq<Seq<char>>)
    ensures
        slot_run(day, times).slots.len() <= times.len(),
        slot_run(day, times).failure is None ==> slot_run(day, times).slots.len() == times.len(),
    decreases times.len(),
{
    if times.len() > 0 {
        lemma_run_is_no_longer_than_its_times(day, times.drop_last());
    }
}

} // verus!
