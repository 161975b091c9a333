//! The offices of the catalogue.

use vstd::prelude::*;
use crate::commands::fetch_procedure_appointments::{find_offer, offers};
use crate::model::StaticOffice;
use crate::seqs::{lemma_filter_next, lemma_filter_none};
use crate::text::{
    lemma_text_le_antisymmetric, lemma_text_le_total, lemma_text_le_transitive, lowercase,
    same_text, text_le, text_precedes, to_lowercase,
};

verus! {

/// The arguments of the command.
#[derive(Debug)]
pub struct Args {
    /// Filter offices by group name
    pub group: Option<String>,
    /// Filter offices by those that can handle the given procedure
    pub procedure: Option<u32>,
}

/// The offices of a group that handle a procedure; each of the two
/// conditions holds of every office where the arguments leave it open.
/// Groups are compared in lower case.
pub open spec fn listed(group: Option<Seq<char>>, procedure: Option<u32>) -> spec_fn(
    &'static StaticOffice,
) -> bool {
    |office: &'static StaticOffice|
        {
            &&& group matches Some(g) ==> lowercase(office.group@) == lowercase(g)
            &&& procedure matches Some(p) ==> offers(office, p)
        }
}

/// Keeps the offices of a group that handle a procedure, in their order.
pub fn filter_offices(
    offices: Vec<&'static StaticOffice>,
    filter_by_group: &Option<String>,
    filter_by_procedure: Option<u32>,
) -> (kept: Vec<&'static StaticOffice>)
    ensures
        kept@ == offices@.filter(listed(filter_by_group.deep_view(), filter_by_procedure)),
{
    let ghost pred = listed(filter_by_group.deep_view(), filter_by_procedure);
    let search_group: Option<String> = match filter_by_group {
        Some(group) => Some(to_lowercase(group.as_str())),
        None => None,
    };
    let mut kept: Vec<&'static StaticOffice> = Vec::new();
    let mut i: usize = 0;
    proof {
        lemma_filter_none(offices@, pred);
    }
    while i < offices.len()
        invariant
            i <= offices.len(),
            pred == listed(filter_by_group.deep_view(), filter_by_procedure),
            search_group.deep_view() == match filter_by_group.deep_view() {
                Some(g) => Some(lowercase(g)),
                None => None,
            },
            kept@ == offices@.take(i as int).filter(pred),
        decreases offices.len() - i,
    {
        let office = offices[i];
        let group_matches = match &search_group {
            Some(group) => {
                let lower = to_lowercase(office.group);
                lower == *group
            },
            None => true,
        };
        let procedure_matches = match filter_by_procedure {
            Some(procedure) => find_offer(office, procedure).is_some(),
            None => true,
        };
        proof {
            lemma_filter_next(offices@, pred, i as int);
        }
        if group_matches && procedure_matches {
            kept.push(office);
        }
        i = i + 1;
    }
    assert(offices@.take(offices.len() as int) =~= offices@);
    kept
}

/// Whether `a` may stand before `b` in the listing: offices are ordered by
/// their group, and by their name within a group.
pub open spec fn may_precede(a: &StaticOffice, b: &StaticOffice) -> bool {
    if a.group@ == b.group@ {
        text_le(a.name@, b.name@)
    } else {
        text_le(a.group@, b.group@)
    }
}

/// Whether a run of offices stands in the order of the listing.
pub open spec fn in_order(offices: Seq<&'static StaticOffice>) -> bool {
    forall|i: int, j: int|
        0 <= i <= j < offices.len() ==> may_precede(#[trigger] offices[i], #[trigger] offices[j])
}

/// An ordered run with one more office: the office goes behind the last
/// office that may stand before it, and so behind every office that it ties
/// with.
pub open spec fn placed(run: Seq<&'static StaticOffice>, office: &'static StaticOffice) -> Seq<
    &'static StaticOffice,
>
    decreases run.len(),
{
    if run.len() == 0 {
        seq![office]
    } else if may_precede(run.last(), office) {
        run.push(office)
    } else {
        placed(run.drop_last(), office).push(run.last())
    }
}

/// The offices in the order of the listing.  Offices that tie keep the order
/// in which they came.
pub open spec fn ordered(offices: Seq<&'static StaticOffice>) -> Seq<&'static StaticOffice>
    decreases offices.len(),
{
    if offices.len() == 0 {
        Seq::empty()
    } else {
        placed(ordered(offices.drop_last()), offices.last())
    }
}

fn precedes(a: &StaticOffice, b: &StaticOffice) -> (precedes: bool)
    ensures
        precedes == may_precede(a, b),
{
    if same_text(a.group, b.group) {
        text_precedes(a.name, b.name)
    } else {
        text_precedes(a.group, b.group)
    }
}

/// Placing an office is inserting it at the place behind the last office
/// that may stand before it.
proof fn lemma_placed_is_insert(
    run: Seq<&'static StaticOffice>,
    office: &'static StaticOffice,
    at: int,
)
    requires
        0 <= at <= run.len(),
        forall|k: int| at <= k < run.len() ==> !may_precede(#[trigger] run[k], office),
        at > 0 ==> may_precede(run[at - 1], office),
    ensures
        placed(run, office) == run.insert(at, office),
    decreases run.len(),
{
    if run.len() == 0 {
        assert(run.insert(at, office) =~= seq![office]);
    } else if at == run.len() {
        assert(run.insert(at, office) =~= run.push(office));
    } else {
        assert(!may_precede(run[run.len() - 1], office));
        assert forall|k: int| at <= k < run.drop_last().len() implies !may_precede(
            #[trigger] run.drop_last()[k],
            office,
        ) by {
            assert(run.drop_last()[k] == run[k]);
        }
        lemma_placed_is_insert(run.drop_last(), office, at);
        assert(run.insert(at, office) =~= run.drop_last().insert(at, office).push(run.last()));
    }
}

fn place(run: &mut Vec<&'static StaticOffice>, office: &'static StaticOffice)
    ensures
        final(run)@ == placed(old(run)@, office),
{
    let mut at: usize = run.len();
    let mut found = false;
    while !found && at > 0
        invariant
            at <= run.len(),
            run@ == old(run)@,
            forall|k: int| at <= k < run.len() ==> !may_precede(#[trigger] run@[k], office),
            found ==> at > 0 && may_precede(run@[at - 1], office),
        decreases at + (if found {
                0int
            } else {
                1int
            }),
    {
        if precedes(run[at - 1], office) {
            found = true;
        } else {
            at = at - 1;
        }
    }
    proof {
        lemma_placed_is_insert(run@, office, at as int);
    }
    run.insert(at, office);
}

/// Puts offices in the order of the listing: by group, and by name within a
/// group; offices that tie keep the order in which they came.
pub fn sort_offices(offices: &Vec<&'static StaticOffice>) -> (sorted: Vec<&'static StaticOffice>)
    ensures
        sorted@ == ordered(offices@),
{
    let mut sorted: Vec<&'static StaticOffice> = Vec::new();
    let mut i: usize = 0;
    assert(offices@.take(0) =~= Seq::<&'static StaticOffice>::empty());
    while i < offices.len()
        invariant
            i <= offices.len(),
            sorted@ == ordered(offices@.take(i as int)),
        decreases offices.len() - i,
    {
        assert(offices@.take(i + 1).drop_last() =~= offices@.take(i as int));
        place(&mut sorted, offices[i]);
        i = i + 1;
    }
    assert(offices@.take(offices.len() as int) =~= offices@);
    sorted
}

/// Chooses the offices that the command lists and puts them in the order of
/// the listing.
pub fn select_offices(args: &Args, offices: Vec<&'static StaticOffice>) -> (selected: Vec<
    &'static StaticOffice,
>)
    ensures
        selected@ == ordered(offices@.filter(listed(args.group.deep_view(), args.procedure))),
{
    let kept = filter_offices(offices, &args.group, args.procedure);
    sort_offices(&kept)
}

/// Of any two offices, one may stand before the other.
pub proof fn lemma_may_precede_total(a: &StaticOffice, b: &StaticOffice)
    ensures
        may_precede(a, b) || may_precede(b, a),
{
    lemma_text_le_total(a.name@, b.name@);
    lemma_text_le_total(a.group@, b.group@);
}

/// The order of the listing is transitive.
pub proof fn lemma_may_precede_transitive(a: &StaticOffice, b: &StaticOffice, c: &StaticOffice)
    requires
        may_precede(a, b),
        may_precede(b, c),
    ensures
        may_precede(a, c),
{
    if a.group@ == b.group@ && b.group@ == c.group@ {
        lemma_text_le_transitive(a.name@, b.name@, c.name@);
    } else if a.group@ == c.group@ {
        lemma_text_le_antisymmetric(a.group@, b.group@);
    } else if a.group@ != b.group@ && b.group@ != c.group@ {
        lemma_text_le_transitive(a.group@, b.group@, c.group@);
    }
}

proof fn lemma_placed_keeps_order(run: Seq<&'static StaticOffice>, office: &'static StaticOffice)
    requires
        in_order(run),
    ensures
        in_order(placed(run, office)),
        placed(run, office).len() == run.len() + 1,
        placed(run, office).to_multiset() == run.to_multiset().insert(office),
        forall|k: int|
            0 <= k < placed(run, office).len() ==> (#[trigger] placed(run, office)[k]) == office
                || run.contains(placed(run, office)[k]),
    decreases run.len(),
{
    broadcast use vstd::seq_lib::group_to_multiset_ensures;

    let result = placed(run, office);
    if run.len() == 0 {
        assert(result =~= Seq::<&'static StaticOffice>::empty().push(office));
        lemma_may_precede_total(office, office);
    } else if may_precede(run.last(), office) {
        assert forall|i: int, j: int| 0 <= i <= j < result.len() implies may_precede(
            #[trigger] result[i],
            #[trigger] result[j],
        ) by {
            if j == run.len() {
                if i < run.len() {
                    assert(may_precede(run[i], run[run.len() - 1]));
                    lemma_may_precede_transitive(run[i], run.last(), office);
                } else {
                    lemma_may_precede_total(office, office);
                }
            } else {
                assert(may_precede(run[i], run[j]));
            }
        }
        assert forall|k: int| 0 <= k < result.len() implies (#[trigger] result[k]) == office
            || run.contains(result[k]) by {
            if k < run.len() {
                assert(run[k] == result[k]);
            }
        }
    } else {
        let shorter = run.drop_last();
        assert forall|i: int, j: int| 0 <= i <= j < shorter.len() implies may_precede(
            #[trigger] shorter[i],
            #[trigger] shorter[j],
        ) by {
            assert(may_precede(run[i], run[j]));
        }
        lemma_placed_keeps_order(shorter, office);
        let inner = placed(shorter, office);
        lemma_may_precede_total(run.last(), office);
        assert forall|i: int, j: int| 0 <= i <= j < result.len() implies may_precede(
            #[trigger] result[i],
            #[trigger] result[j],
        ) by {
            if j < inner.len() {
                assert(may_precede(inner[i], inner[j]));
            } else if i == j {
                lemma_may_precede_total(run.last(), run.last());
            } else {
                if inner[i] == office {
                } else {
                    assert(shorter.contains(inner[i]));
                    let at = choose|at: int| 0 <= at < shorter.len() && shorter[at] == inner[i];
                    assert(may_precede(run[at], run[run.len() - 1]));
                }
            }
        }
        assert(run =~= shorter.push(run.last()));
        assert(result.to_multiset() =~= run.to_multiset().insert(office));
        assert forall|k: int| 0 <= k < result.len() implies (#[trigger] result[k]) == office
            || run.contains(result[k]) by {
            if k < inner.len() {
                if inner[k] != office {
                    assert(shorter.contains(inner[k]));
                    let at = choose|at: int| 0 <= at < shorter.len() && shorter[at] == inner[k];
                    assert(run[at] == inner[k]);
                }
            } else {
                assert(run[run.len() - 1] == result[k]);
            }
        }
    }
}

/// Whether two offices tie in the order of the listing.
pub open spec fn ties(a: &StaticOffice, b: &StaticOffice) -> bool {
    may_precede(a, b) && may_precede(b, a)
}

/// Whether a predicate picks only offices that tie with each other.
pub open spec fn picks_ties(pick: spec_fn(&'static StaticOffice) -> bool) -> bool {
    forall|a: &'static StaticOffice, b: &'static StaticOffice|
        pick(a) && pick(b) ==> #[trigger] ties(a, b)
}

proof fn lemma_placed_keeps_ties(
    run: Seq<&'static StaticOffice>,
    office: &'static StaticOffice,
    pick: spec_fn(&'static StaticOffice) -> bool,
)
    requires
        picks_ties(pick),
    ensures
        placed(run, office).filter(pick) == if pick(office) {
            run.filter(pick).push(office)
        } else {
            run.filter(pick)
        },
    decreases run.len(),
{
    reveal(Seq::filter);
    if run.len() == 0 {
        assert(seq![office].drop_last() =~= run);
    } else if may_precede(run.last(), office) {
        assert(run.push(office).drop_last() =~= run);
    } else {
        lemma_placed_keeps_ties(run.drop_last(), office, pick);
        let inner = placed(run.drop_last(), office);
        assert(inner.push(run.last()).drop_last() =~= inner);
        if pick(office) && pick(run.last()) {
            assert(ties(run.last(), office));
        }
    }
}

/// Law: offices that tie keep the order in which they came.  Whatever picks
/// only offices that tie with each other picks them from the ordered
/// offices in the same order as from the offices as they came.
pub proof fn lemma_ordered_keeps_ties(
    offices: Seq<&'static StaticOffice>,
    pick: spec_fn(&'static StaticOffice) -> bool,
)
    requires
        picks_ties(pick),
    ensures
        ordered(offices).filter(pick) == offices.filter(pick),
    decreases offices.len(),
{
    reveal(Seq::filter);
    if offices.len() > 0 {
        lemma_ordered_keeps_ties(offices.drop_last(), pick);
        lemma_placed_keeps_ties(ordered(offices.drop_last()), offices.last(), pick);
    }
}

/// Law: the ordered offices stand in the order of the listing, by group and
/// then by name, and they are the same offices as before, each as often as
/// before.
pub proof fn lemma_ordered_is_a_sorted_rearrangement(offices: Seq<&'static StaticOffice>)
    ensures
        in_order(ordered(offices)),
        ordered(offices).len() == offices.len(),
        ordered(offices).to_multiset() == offices.to_multiset(),
    decreases offices.len(),
{
    broadcast use vstd::seq_lib::group_to_multiset_ensures;

    if offices.len() == 0 {
    } else {
        lemma_ordered_is_a_sorted_rearrangement(offices.drop_last());
        lemma_placed_keeps_order(ordered(offices.drop_last()), offices.last());
        assert(offices =~= offices.drop_last().push(offices.last()));
    }
}

} // verus!
