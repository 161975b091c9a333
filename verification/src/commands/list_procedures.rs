//! The procedures of the catalogue.

use vstd::prelude::*;
use crate::model::StaticProcedure;
use crate::seqs::{lemma_filter_next, lemma_filter_none};
use crate::text::{lowercase, to_lowercase};

verus! {

/// The arguments of the command.
#[derive(Debug)]
pub struct Args {
    /// Filter procedures by category
    pub category: Option<String>,
}

/// The procedures of a category, or all procedures where none is asked for.
/// Categories are compared in lower case.
pub open spec fn in_category(category: Option<Seq<char>>) -> spec_fn(&'static StaticProcedure)
    -> bool {
    |procedure: &'static StaticProcedure|
        category matches Some(c) ==> lowercase(procedure.procedure_category@) == lowercase(c)
}

/// Chooses the procedures that the command lists: those of the category in
/// the arguments, or all where the arguments name none; in the catalogue's
/// order.
pub fn select_procedures(args: &Args, procedures: &[&'static StaticProcedure]) -> (selected: Vec<
    &'static StaticProcedure,
>)
    ensures
        selected@ == procedures@.filter(in_category(args.category.deep_view())),
{
    let ghost pred = in_category(args.category.deep_view());
    let filter_category: Option<String> = match &args.category {
        Some(category) => Some(to_lowercase(category.as_str())),
        None => None,
    };
    let mut selected: Vec<&'static StaticProcedure> = Vec::new();
    let mut i: usize = 0;
    proof {
        lemma_filter_none(procedures@, pred);
    }
    while i < procedures.len()
        invariant
            i <= procedures.len(),
            pred == in_category(args.category.deep_view()),
            filter_category.deep_view() == match args.category.deep_view() {
                Some(c) => Some(lowercase(c)),
                None => None,
            },
            selected@ == procedures@.take(i as int).filter(pred),
        decreases procedures.len() - i,
    {
        let procedure = procedures[i];
        let keep = match &filter_category {
            Some(category) => {
                let lower = to_lowercase(procedure.procedure_category);
                lower == *category
            },
            None => true,
        };
        proof {
            lemma_filter_next(procedures@, pred, i as int);
        }
        if keep {
            selected.push(procedure);
        }
        i = i + 1;
    }
    assert(procedures@.take(procedures.len() as int) =~= procedures@);
    selected
}

} // verus!
