//! Which office has the closest appointment for a procedure.

use vstd::prelude::*;
use crate::commands::ExitCode;
use crate::model::StaticProcedure;
use crate::office::NetOfficeModel;

verus! {

/// The arguments of the command.
#[derive(Debug)]
pub struct Args {
    /// Procedure ID to find appointments for
    pub procedure_id: u32,
}

/// Whether `index` is the place of the first procedure of a catalogue with
/// the given identifier.
pub open spec fn is_first_procedure(
    procedures: Seq<&'static StaticProcedure>,
    id: u32,
    index: int,
) -> bool {
    &&& 0 <= index < procedures.len()
    &&& procedures[index].procedure_id.0 == id
    &&& forall|j: int| 0 <= j < index ==> (#[trigger] procedures[j]).procedure_id.0 != id
}

/// Looks a procedure up in the catalogue by its identifier.  Where several
/// entries carry the identifier, the first one counts.
pub fn find_procedure(procedures: &[&'static StaticProcedure], id: u32) -> (found: Option<
    &'static StaticProcedure,
>)
    ensures
        match found {
            Some(procedure) => exists|index: int|
                is_first_procedure(procedures@, id, index) && procedures@[index] == procedure,
            None => forall|j: int|
                0 <= j < procedures@.len() ==> (#[trigger] procedures@[j]).procedure_id.0 != id,
        },
{
    let mut i: usize = 0;
    while i < procedures.len()
        invariant
            i <= procedures.len(),
            forall|j: int| 0 <= j < i ==> (#[trigger] procedures@[j]).procedure_id.0 != id,
        decreases procedures.len() - i,
    {
        if procedures[i].procedure_id.0 == id {
            assert(is_first_procedure(procedures@, id, i as int));
            return Some(procedures[i]);
        }
        i = i + 1;
    }
    None
}

/// Chooses the procedure that the command asks about.  An identifier that
/// the catalogue does not know ends the command as a fault of the arguments.
pub fn select_procedure(args: &Args, procedures: &[&'static StaticProcedure]) -> (selected: Result<
    &'static StaticProcedure,
    ExitCode,
>)
    ensures
        match selected {
            Ok(procedure) => exists|index: int|
                is_first_procedure(procedures@, args.procedure_id, index) && procedures@[index]
                    == procedure,
            Err(code) => code == ExitCode::FaultOrArgsError && forall|j: int|
                0 <= j < procedures@.len() ==> (#[trigger] procedures@[j]).procedure_id.0
                    != args.procedure_id,
        },
{
    match find_procedure(procedures, args.procedure_id) {
        Some(procedure) => Ok(procedure),
        None => Err(ExitCode::FaultOrArgsError),
    }
}

/// How the command ends once the service has answered: well where it names
/// an office, and as unsatisfied where it names none.
pub fn conclude(office: &Option<NetOfficeModel>) -> (code: ExitCode)
    ensures
        code == if office is Some {
            ExitCode::Success
        } else {
            ExitCode::RequestUnsatisfied
        },
{
    match office {
        Some(_) => ExitCode::Success,
        None => ExitCode::RequestUnsatisfied,
    }
}

} // verus!
