//! What the catalogue knows about one office.

use vstd::prelude::*;
use crate::commands::fetch_closest_appointment_office::{find_procedure, is_first_procedure};
use crate::model::{StaticOffice, StaticProcedure};

verus! {

/// The arguments of the command.
#[derive(Debug)]
pub struct Args {
    /// Office ID to get information about
    pub office_id: u32,
}

/// Whether `index` is the place of the first office of a catalogue with the
/// given identifier.
pub open spec fn is_first_office(offices: Seq<&'static StaticOffice>, id: u32, index: int)
    -> bool {
    &&& 0 <= index < offices.len()
    &&& offices[index].id.0 == id
    &&& forall|j: int| 0 <= j < index ==> (#[trigger] offices[j]).id.0 != id
}

/// Looks an office up in the catalogue by its identifier.  Where several
/// entries carry the identifier, the first one counts.
pub fn find_office(offices: &[&'static StaticOffice], id: u32) -> (found: Option<
    &'static StaticOffice,
>)
    ensures
        match found {
            Some(office) => exists|index: int|
                is_first_office(offices@, id, index) && offices@[index] == office,
            None => forall|j: int| 0 <= j < offices@.len() ==> (#[trigger] offices@[j]).id.0 != id,
        },
{
    let mut i: usize = 0;
    while i < offices.len()
        invariant
            i <= offices.len(),
            forall|j: int| 0 <= j < i ==> (#[trigger] offices@[j]).id.0 != id,
        decreases offices.len() - i,
    {
        if offices[i].id.0 == id {
            assert(is_first_office(offices@, id, i as int));
            return Some(offices[i]);
        }
        i = i + 1;
    }
    None
}

/// Chooses the office that the command describes.
pub fn select_office(args: &Args, offices: &[&'static StaticOffice]) -> (found: Option<
    &'static StaticOffice,
>)
    ensures
        match found {
            Some(office) => exists|index: int|
                is_first_office(offices@, args.office_id, index) && offices@[index] == office,
            None => forall|j: int|
                0 <= j < offices@.len() ==> (#[trigger] offices@[j]).id.0 != args.office_id,
        },
{
    find_office(offices, args.office_id)
}

/// Whether the catalogue of procedures knows a procedure.
pub open spec fn knows_procedure(procedures: Seq<&'static StaticProcedure>, id: u32) -> bool {
    exists|j: int| 0 <= j < procedures.len() && (#[trigger] procedures[j]).procedure_id.0 == id
}

/// Whether `described` is how the catalogue of procedures describes the
/// procedure with the given identifier: `None` where the catalogue does not
/// know it, and otherwise its first entry with that identifier.
pub open spec fn describes(
    procedures: Seq<&'static StaticProcedure>,
    id: u32,
    described: Option<&'static StaticProcedure>,
) -> bool {
    match described {
        Some(procedure) => exists|index: int|
            is_first_procedure(procedures, id, index) && procedures[index] == procedure,
        None => !knows_procedure(procedures, id),
    }
}

/// Looks up each procedure that an office offers in the catalogue of
/// procedures, in the order of the office's entries.
pub fn describe_procedures(office: &'static StaticOffice, procedures: &[&'static StaticProcedure])
    -> (described: Vec<Option<&'static StaticProcedure>>)
    ensures
        described@.len() == office.procedures@.len(),
        forall|k: int|
            0 <= k < described@.len() ==> describes(
                procedures@,
                office.procedures@[k].procedure_id.0,
                #[trigger] described@[k],
            ),
{
    let offered = office.procedures;
    let mut described: Vec<Option<&'static StaticProcedure>> = Vec::new();
    let mut i: usize = 0;
    while i < offered.len()
        invariant
            i <= offered.len(),
            offered@ == office.procedures@,
            described@.len() == i,
            forall|k: int|
                0 <= k < i ==> describes(
                    procedures@,
                    office.procedures@[k].procedure_id.0,
                    #[trigger] described@[k],
                ),
        decreases offered.len() - i,
    {
        let found = find_procedure(procedures, offered[i].procedure_id.0);
        described.push(found);
        i = i + 1;
    }
    described
}

} // verus!
