//! Identifier types and catalogue records.
//!
//! Three identifier namespaces are kept apart by the type system, and two
//! families of records describe the catalogue of offices and procedures: the
//! owned `DataGen*` records of a catalogue snapshot, and the borrowed
//! `Static*` records of a catalogue that lives for the whole process.

use vstd::prelude::*;

verus! {

/// The unique numeric ID of an office.
#[derive(Debug, Clone, Copy, PartialEq, Eq, Structural)]
pub struct OfficeId(pub u32);

/// The unique numeric ID of a procedure family, shared by all offices.
#[derive(Debug, Clone, Copy, PartialEq, Eq, Structural)]
pub struct ProcedureId(pub u32);

/// The ID under which one office offers a procedure.  It is local to that
/// office's catalogue and must not be confused with a [`ProcedureId`].
#[derive(Debug, Clone, Copy, PartialEq, Eq, Structural)]
pub struct ProcedureOfficeId(pub u32);

/// A snapshot of the whole catalogue.
#[derive(Debug)]
pub struct DataGenModel {
    pub offices: Vec<DataGenOffice>,
    pub procedures: Vec<DataGenProcedure>,
}

/// One office of a catalogue snapshot.
#[derive(Debug)]
pub struct DataGenOffice {
    pub name: String,
    pub group: String,
    pub id: OfficeId,
    pub procedures: Vec<DataGenOfficeProcedure>,
}

/// One procedure as offered by one office of a catalogue snapshot.
#[derive(Debug)]
pub struct DataGenOfficeProcedure {
    pub procedure_name: String,
    pub procedure_category: String,
    pub procedure_office_id: ProcedureOfficeId,
    pub procedure_id: ProcedureId,
}

/// One procedure family of a catalogue snapshot.
#[derive(Debug)]
pub struct DataGenProcedure {
    pub procedure_category: String,
    pub procedure_name: String,
    pub procedure_id: ProcedureId,
}

/// One office of the process-wide catalogue.
#[derive(Debug)]
pub struct StaticOffice {
    pub name: &'static str,
    pub group: &'static str,
    pub id: OfficeId,
    pub procedures: &'static [StaticOfficeProcedure],
}

/// One procedure as offered by one office of the process-wide catalogue.
#[derive(Debug)]
pub struct StaticOfficeProcedure {
    pub procedure_name: &'static str,
    pub procedure_category: &'static str,
    pub procedure_office_id: ProcedureOfficeId,
    pub procedure_id: ProcedureId,
}

/// One procedure family of the process-wide catalogue.
#[derive(Debug)]
pub struct StaticProcedure {
    pub procedure_category: &'static str,
    pub procedure_name: &'static str,
    pub procedure_id: ProcedureId,
}

/// What a procedure entry of an office holds, whatever record carries it.
pub struct OfficeProcedureEntry {
    pub name: Seq<char>,
    pub category: Seq<char>,
    pub procedure_office_id: ProcedureOfficeId,
    pub procedure_id: ProcedureId,
}

/// What a procedure family holds, whatever record carries it.
pub struct ProcedureEntry {
    pub category: Seq<char>,
    pub name: Seq<char>,
    pub procedure_id: ProcedureId,
}

/// What a catalogue office holds, whatever record carries it.
pub struct OfficeEntry {
    pub name: Seq<char>,
    pub group: Seq<char>,
    pub id: OfficeId,
    pub procedures: Seq<OfficeProcedureEntry>,
}

/// What a catalogue snapshot holds.
pub struct CatalogueEntry {
    pub offices: Seq<OfficeEntry>,
    pub procedures: Seq<ProcedureEntry>,
}

impl View for DataGenOfficeProcedure {
    type V = OfficeProcedureEntry;

    open spec fn view(&self) -> OfficeProcedureEntry {
        OfficeProcedureEntry {
            name: self.procedure_name@,
            category: self.procedure_category@,
            procedure_office_id: self.procedure_office_id,
            procedure_id: self.procedure_id,
        }
    }
}

impl DeepView for DataGenOfficeProcedure {
    type V = OfficeProcedureEntry;

    open spec fn deep_view(&self) -> OfficeProcedureEntry {
        self@
    }
}

impl View for DataGenProcedure {
    type V = ProcedureEntry;

    open spec fn view(&self) -> ProcedureEntry {
        ProcedureEntry {
            category: self.procedure_category@,
            name: self.procedure_name@,
            procedure_id: self.procedure_id,
        }
    }
}

impl DeepView for DataGenProcedure {
    type V = ProcedureEntry;

    open spec fn deep_view(&self) -> ProcedureEntry {
        self@
    }
}

impl View for DataGenOffice {
    type V = OfficeEntry;

    open spec fn view(&self) -> OfficeEntry {
        OfficeEntry {
            name: self.name@,
            group: self.group@,
            id: self.id,
            procedures: self.procedures.deep_view(),
        }
    }
}

impl DeepView for DataGenOffice {
    type V = OfficeEntry;

    open spec fn deep_view(&self) -> OfficeEntry {
        self@
    }
}

impl View for DataGenModel {
    type V = CatalogueEntry;

    open spec fn view(&self) -> CatalogueEntry {
        CatalogueEntry {
            offices: self.offices.deep_view(),
            procedures: self.procedures.deep_view(),
        }
    }
}

impl View for StaticOfficeProcedure {
    type V = OfficeProcedureEntry;

    open spec fn view(&self) -> OfficeProcedureEntry {
        OfficeProcedureEntry {
            name: self.procedure_name@,
            category: self.procedure_category@,
            procedure_office_id: self.procedure_office_id,
            procedure_id: self.procedure_id,
        }
    }
}

impl DeepView for StaticOfficeProcedure {
    type V = OfficeProcedureEntry;

    open spec fn deep_view(&self) -> OfficeProcedureEntry {
        self@
    }
}

impl View for StaticProcedure {
    type V = ProcedureEntry;

    open spec fn view(&self) -> ProcedureEntry {
        ProcedureEntry {
            category: self.procedure_category@,
            name: self.procedure_name@,
            procedure_id: self.procedure_id,
        }
    }
}

impl DeepView for StaticProcedure {
    type V = ProcedureEntry;

    open spec fn deep_view(&self) -> ProcedureEntry {
        self@
    }
}

impl View for StaticOffice {
    type V = OfficeEntry;

    open spec fn view(&self) -> OfficeEntry {
        OfficeEntry {
            name: self.name@,
            group: self.group@,
            id: self.id,
            procedures: self.procedures.deep_view(),
        }
    }
}

impl DeepView for StaticOffice {
    type V = OfficeEntry;

    open spec fn deep_view(&self) -> OfficeEntry {
        self@
    }
}

} // verus!
