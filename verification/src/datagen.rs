//! The making of a catalogue snapshot from what the service lists.

use vstd::prelude::*;
use crate::listing::{ListedOffice, ListedProcedure, NetOfficeBasicInfoModel, NetProcedureModel};
use crate::model::{
    CatalogueEntry, DataGenModel, DataGenOffice, DataGenOfficeProcedure, DataGenProcedure,
    OfficeEntry, OfficeProcedureEntry, ProcedureEntry,
};
use crate::office::{NetOfficeModel, NetOfficeProcedureModel, Office, OfficeProcedure};
use crate::seqs::{lemma_filter_next, lemma_filter_none};
use crate::text::{contains, lowercase, occurs_in, to_lowercase};

verus! {

/// The offices that are relevant: those of the group that is asked for, if
/// one is, whose name holds the text that is asked for, if one is.  Groups
/// and names are compared in lower case.
pub open spec fn relevant(group: Option<Seq<char>>, name: Option<Seq<char>>) -> spec_fn(
    ListedOffice,
) -> bool {
    |office: ListedOffice|
        {
            &&& group matches Some(g) ==> lowercase(office.group) == lowercase(g)
            &&& name matches Some(n) ==> occurs_in(lowercase(n), lowercase(office.name))
        }
}

/// Drops the offices that are not relevant, and keeps the others in their
/// order.
pub fn filter_relevant_offices(
    offices: &mut Vec<NetOfficeBasicInfoModel>,
    group_filter: Option<String>,
    name_filter: Option<String>,
)
    ensures
        final(offices).deep_view() == old(offices).deep_view().filter(
            relevant(group_filter.deep_view(), name_filter.deep_view()),
        ),
{
    let ghost pred = relevant(group_filter.deep_view(), name_filter.deep_view());
    let ghost all = offices.deep_view();
    let group: Option<String> = match &group_filter {
        Some(group) => Some(to_lowercase(group.as_str())),
        None => None,
    };
    let name: Option<String> = match &name_filter {
        Some(name) => Some(to_lowercase(name.as_str())),
        None => None,
    };
    let mut kept: Vec<NetOfficeBasicInfoModel> = Vec::new();
    let mut i: usize = 0;
    proof {
        lemma_filter_none(all, pred);
        assert(kept.deep_view() =~= all.take(0).filter(pred));
    }
    while i < offices.len()
        invariant
            i <= offices.len(),
            all == offices.deep_view(),
            pred == relevant(group_filter.deep_view(), name_filter.deep_view()),
            group.deep_view() == match group_filter.deep_view() {
                Some(g) => Some(lowercase(g)),
                None => None,
            },
            name.deep_view() == match name_filter.deep_view() {
                Some(n) => Some(lowercase(n)),
                None => None,
            },
            kept.deep_view() == all.take(i as int).filter(pred),
        decreases offices.len() - i,
    {
        let group_matches = match &group {
            Some(group) => {
                let lower = to_lowercase(offices[i].group.as_str());
                lower == *group
            },
            None => true,
        };
        let name_matches = match &name {
            Some(name) => {
                let lower = to_lowercase(offices[i].name.as_str());
                contains(lower.as_str(), name.as_str())
            },
            None => true,
        };
        proof {
            lemma_filter_next(all, pred, i as int);
        }
        if group_matches && name_matches {
            let ghost before = kept.deep_view();
            let office = NetOfficeBasicInfoModel {
                name: offices[i].name.clone(),
                group: offices[i].group.clone(),
                id: offices[i].id,
            };
            kept.push(office);
            assert(kept.deep_view() =~= before.push(all[i as int]));
        }
        i = i + 1;
    }
    assert(all.take(offices.len() as int) =~= all);
    *offices = kept;
}

/// The catalogue entry of a procedure that an office offers.
pub open spec fn office_procedure_entry(procedure: OfficeProcedure) -> OfficeProcedureEntry {
    OfficeProcedureEntry {
        name: procedure.name,
        category: procedure.category,
        procedure_office_id: procedure.office_procedure_id,
        procedure_id: procedure.procedure_id,
    }
}

/// The catalogue entry of an office: its name and its procedures come from
/// its full record, its group and its identifier from the listing.
pub open spec fn office_entry(listed: ListedOffice, office: Office) -> OfficeEntry {
    OfficeEntry {
        name: office.name,
        group: listed.group,
        id: listed.id,
        procedures: office.procedures.map_values(|p: OfficeProcedure| office_procedure_entry(p)),
    }
}

/// The catalogue entry of a procedure family.
pub open spec fn procedure_entry(procedure: ListedProcedure) -> ProcedureEntry {
    ProcedureEntry {
        category: procedure.procedure_category,
        name: procedure.procedure_name,
        procedure_id: procedure.procedure_id,
    }
}

/// The catalogue that the offices with their full records and the
/// procedures make up.
pub open spec fn catalogue(offices: Seq<(ListedOffice, Office)>, procedures: Seq<ListedProcedure>)
    -> CatalogueEntry {
    CatalogueEntry {
        offices: offices.map_values(|pair: (ListedOffice, Office)| office_entry(pair.0, pair.1)),
        procedures: procedures.map_values(|p: ListedProcedure| procedure_entry(p)),
    }
}

fn build_office_procedures(procedures: Vec<NetOfficeProcedureModel>) -> (entries: Vec<
    DataGenOfficeProcedure,
>)
    ensures
        entries.deep_view() == procedures.deep_view().map_values(
            |p: OfficeProcedure| office_procedure_entry(p),
        ),
{
    let ghost all = procedures.deep_view();
    let mut entries: Vec<DataGenOfficeProcedure> = Vec::new();
    for procedure in it: procedures
        invariant
            all.len() == it.seq().len(),
            forall|k: int| 0 <= k < it.seq().len() ==> all[k] == (#[trigger] it.seq()[k])@,
            entries.len() == it.index(),
            forall|k: int|
                0 <= k < it.index() ==> (#[trigger] entries[k])@ == office_procedure_entry(all[k]),
    {
        entries.push(
            DataGenOfficeProcedure {
                procedure_name: procedure.name,
                procedure_category: procedure.category,
                procedure_office_id: procedure.office_procedure_id,
                procedure_id: procedure.procedure_id,
            },
        );
    }
    assert(entries.deep_view() =~= all.map_values(|p: OfficeProcedure| office_procedure_entry(p)));
    entries
}

/// Makes the catalogue entry of one office.
pub fn build_office(listed: NetOfficeBasicInfoModel, office: NetOfficeModel) -> (entry:
    DataGenOffice)
    ensures
        entry@ == office_entry(listed@, office@),
{
    DataGenOffice {
        name: office.name,
        group: listed.group,
        id: listed.id,
        procedures: build_office_procedures(office.procedures),
    }
}

/// Makes the catalogue entry of one procedure family.
pub fn build_procedure(procedure: NetProcedureModel) -> (entry: DataGenProcedure)
    ensures
        entry@ == procedure_entry(procedure@),
{
    DataGenProcedure {
        procedure_category: procedure.procedure_category,
        procedure_name: procedure.procedure_name,
        procedure_id: procedure.procedure_id,
    }
}

/// Makes the catalogue snapshot: one entry for each office, in order, and
/// one for each procedure family, in order.
pub fn build_model(
    office_data: Vec<(NetOfficeBasicInfoModel, NetOfficeModel)>,
    procedures: Vec<NetProcedureModel>,
) -> (model: DataGenModel)
    ensures
        model@ == catalogue(office_data.deep_view(), procedures.deep_view()),
{
    let ghost all_offices = office_data.deep_view();
    let ghost all_procedures = procedures.deep_view();
    let mut offices: Vec<DataGenOffice> = Vec::new();
    for pair in it: office_data
        invariant
            all_offices.len() == it.seq().len(),
            forall|k: int|
                0 <= k < it.seq().len() ==> all_offices[k] == (
                    (#[trigger] it.seq()[k]).0@,
                    it.seq()[k].1@,
                ),
            offices.len() == it.index(),
            forall|k: int|
                0 <= k < it.index() ==> (#[trigger] offices[k])@ == office_entry(
                    all_offices[k].0,
                    all_offices[k].1,
                ),
    {
        let (listed, office) = pair;
        offices.push(build_office(listed, office));
    }
    let mut entries: Vec<DataGenProcedure> = Vec::new();
    for procedure in it: procedures
        invariant
            all_procedures.len() == it.seq().len(),
            forall|k: int|
                0 <= k < it.seq().len() ==> all_procedures[k] == (#[trigger] it.seq()[k])@,
            entries.len() == it.index(),
            forall|k: int|
                0 <= k < it.index() ==> (#[trigger] entries[k])@ == procedure_entry(
                    all_procedures[k],
                ),
    {
        entries.push(build_procedure(procedure));
    }
    let model = DataGenModel { offices, procedures: entries };
    assert(model@.offices =~= catalogue(all_offices, all_procedures).offices);
    assert(model@.procedures =~= catalogue(all_offices, all_procedures).procedures);
    model
}

} // verus!
