//! Office records and the optional-entity envelope.
//!
//! The service answers a request for one office with a JSON object.  An
//! office identifier of `0` in that object is the service's way of saying
//! "no such office"; any other identifier announces a full office record.

use vstd::prelude::*;
use crate::error::ParseError;
use crate::json::{
    json_document, json_field, json_items, json_member, json_number, json_optional_text,
    json_text, json_u32, json_u64, parse_document, Json, JsonNumber, JsonValue,
};
use crate::model::{ProcedureId, ProcedureOfficeId};

verus! {

/// A procedure as one office offers it.
#[derive(Debug)]
pub struct NetOfficeProcedureModel {
    pub category: String,
    pub name: String,
    pub office_procedure_id: ProcedureOfficeId,
    pub procedure_id: ProcedureId,
}

/// The full record of an office.  The coordinates are the JSON numbers as
/// the service wrote them.
#[derive(Debug)]
pub struct NetOfficeModel {
    pub office_id: u32,
    pub office_code: Option<String>,
    pub latitude: JsonNumber,
    pub longitude: JsonNumber,
    pub name: String,
    pub address: String,
    pub district_code: String,
    pub district_name: String,
    pub url: String,
    pub procedures: Vec<NetOfficeProcedureModel>,
}

/// What a [`NetOfficeProcedureModel`] holds.
pub struct OfficeProcedure {
    pub category: Seq<char>,
    pub name: Seq<char>,
    pub office_procedure_id: ProcedureOfficeId,
    pub procedure_id: ProcedureId,
}

/// What a [`NetOfficeModel`] holds.
pub struct Office {
    pub office_id: u32,
    pub office_code: Option<Seq<char>>,
    pub latitude: JsonNumber,
    pub longitude: JsonNumber,
    pub name: Seq<char>,
    pub address: Seq<char>,
    pub district_code: Seq<char>,
    pub district_name: Seq<char>,
    pub url: Seq<char>,
    pub procedures: Seq<OfficeProcedure>,
}

impl View for NetOfficeProcedureModel {
    type V = OfficeProcedure;

    open spec fn view(&self) -> OfficeProcedure {
        OfficeProcedure {
            category: self.category@,
            name: self.name@,
            office_procedure_id: self.office_procedure_id,
            procedure_id: self.procedure_id,
        }
    }
}

impl DeepView for NetOfficeProcedureModel {
    type V = OfficeProcedure;

    open spec fn deep_view(&self) -> OfficeProcedure {
        self@
    }
}

impl View for NetOfficeModel {
    type V = Office;

    open spec fn view(&self) -> Office {
        Office {
            office_id: self.office_id,
            office_code: self.office_code.deep_view(),
            latitude: self.latitude,
            longitude: self.longitude,
            name: self.name@,
            address: self.address@,
            district_code: self.district_code@,
            district_name: self.district_name@,
            url: self.url@,
            procedures: self.procedures.deep_view(),
        }
    }
}

impl DeepView for NetOfficeModel {
    type V = Office;

    open spec fn deep_view(&self) -> Office {
        self@
    }
}

/// The text in one field of a record.
pub open spec fn field_text(json: Json, arity: nat, index: nat, name: Seq<char>) -> Option<
    Seq<char>,
> {
    match json_field(json, arity, index, name) {
        Some(field) => json_text(field),
        None => None,
    }
}

/// The 32-bit unsigned integer in one field of a record.
pub open spec fn field_u32(json: Json, arity: nat, index: nat, name: Seq<char>) -> Option<u32> {
    match json_field(json, arity, index, name) {
        Some(field) => json_u32(field),
        None => None,
    }
}

/// The procedure that a document describes: a record of the four fields
/// `categoria`, `nombreTramite`, `idTramite` and `idFamiliaCita`, two texts
/// and two identifiers.  Other members of the object are ignored.
pub open spec fn office_procedure(json: Json) -> Option<OfficeProcedure> {
    let category = field_text(json, 4, 0, "categoria"@);
    let name = field_text(json, 4, 1, "nombreTramite"@);
    let local = field_u32(json, 4, 2, "idTramite"@);
    let family = field_u32(json, 4, 3, "idFamiliaCita"@);
    if category is Some && name is Some && local is Some && family is Some {
        Some(
            OfficeProcedure {
                category: category->0,
                name: name->0,
                office_procedure_id: ProcedureOfficeId(local->0),
                procedure_id: ProcedureId(family->0),
            },
        )
    } else {
        None
    }
}

/// The procedures that the items of an array describe, if each item
/// describes one.
pub open spec fn office_procedures(items: Seq<Json>) -> Option<Seq<OfficeProcedure>> {
    if forall|i: int| 0 <= i < items.len() ==> (#[trigger] office_procedure(items[i])) is Some {
        Some(Seq::new(items.len(), |i: int| office_procedure(items[i])->0))
    } else {
        None
    }
}

/// The text of a member of an object.
pub open spec fn member_text(json: Json, key: Seq<char>) -> Option<Seq<char>> {
    match json_member(json, key) {
        Some(member) => json_text(member),
        None => None,
    }
}

/// The number of a member of an object.
pub open spec fn member_number(json: Json, key: Seq<char>) -> Option<JsonNumber> {
    match json_member(json, key) {
        Some(member) => json_number(member),
        None => None,
    }
}

/// The text of a member that may be absent or `null`: `Some(None)` in both
/// of those cases, `None` where the member holds anything but a string.
pub open spec fn member_optional_text(json: Json, key: Seq<char>) -> Option<Option<Seq<char>>> {
    match json_member(json, key) {
        Some(member) => json_optional_text(member),
        None => Some(None),
    }
}

/// The procedures listed under `tramites`.
pub open spec fn member_procedures(json: Json) -> Option<Seq<OfficeProcedure>> {
    match json_member(json, "tramites"@) {
        Some(member) => match json_items(member) {
            Some(items) => office_procedures(items),
            None => None,
        },
        None => None,
    }
}

/// The office that a JSON object describes.  Every field but the optional
/// `codIntegracion` must be present and of its kind; other members of the
/// object are ignored.
pub open spec fn office_record(json: Json) -> Option<Office> {
    let office_id = match json_member(json, "idOficina"@) {
        Some(member) => json_u32(member),
        None => None,
    };
    let office_code = member_optional_text(json, "codIntegracion"@);
    let latitude = member_number(json, "latitud"@);
    let longitude = member_number(json, "longitud"@);
    let name = member_text(json, "nombreOficina"@);
    let address = member_text(json, "direccion"@);
    let district_code = member_text(json, "codigoDistrito"@);
    let district_name = member_text(json, "nombreDistrito"@);
    let url = member_text(json, "urlInformacion"@);
    let procedures = member_procedures(json);
    if office_id is Some && office_code is Some && latitude is Some && longitude is Some
        && name is Some && address is Some && district_code is Some && district_name is Some
        && url is Some && procedures is Some {
        Some(
            Office {
                office_id: office_id->0,
                office_code: office_code->0,
                latitude: latitude->0,
                longitude: longitude->0,
                name: name->0,
                address: address->0,
                district_code: district_code->0,
                district_name: district_name->0,
                url: url->0,
                procedures: procedures->0,
            },
        )
    } else {
        None
    }
}

/// What the envelope around an office says.  The document must be an object
/// with an office identifier that is a non-negative integer.  The identifier
/// `0` stands for "no office"; with any other identifier the object must be
/// a full office record.
pub open spec fn office_envelope(document: Option<Json>) -> Result<Option<Office>, ParseError> {
    match document {
        Some(Json::Object(members)) => {
            let json = Json::Object(members);
            match json_member(json, "idOficina"@) {
                None => Err(ParseError::MissingOfficeId),
                Some(id) => match json_u64(id) {
                    None => Err(ParseError::InvalidOfficeId),
                    Some(n) => if n == 0 {
                        Ok(None)
                    } else {
                        match office_record(json) {
                            Some(office) => Ok(Some(office)),
                            None => Err(ParseError::Record),
                        }
                    },
                },
            }
        },
        _ => Err(ParseError::Json),
    }
}

/// The view of the outcome of an envelope.
pub open spec fn envelope_view(outcome: Result<Option<NetOfficeModel>, ParseError>) -> Result<
    Option<Office>,
    ParseError,
> {
    match outcome {
        Ok(office) => Ok(office.deep_view()),
        Err(e) => Err(e),
    }
}

fn read_field_text(value: &JsonValue, arity: usize, index: usize, name: &str) -> (text:
    Option<String>)
    ensures
        text.deep_view() == field_text(value@, arity as nat, index as nat, name@),
{
    match value.field(arity, index, name) {
        Some(field) => field.text(),
        None => None,
    }
}

fn read_field_u32(value: &JsonValue, arity: usize, index: usize, name: &str) -> (n: Option<
    u32,
>)
    ensures
        n == field_u32(value@, arity as nat, index as nat, name@),
{
    match value.field(arity, index, name) {
        Some(field) => field.as_u32(),
        None => None,
    }
}

/// Decodes one procedure of an office.
pub fn read_office_procedure(value: &JsonValue) -> (procedure: Option<
    NetOfficeProcedureModel,
>)
    ensures
        procedure.deep_view() == office_procedure(value@),
{
    let category = read_field_text(value, 4, 0, "categoria");
    let name = read_field_text(value, 4, 1, "nombreTramite");
    let local = read_field_u32(value, 4, 2, "idTramite");
    let family = read_field_u32(value, 4, 3, "idFamiliaCita");
    match (category, name, local, family) {
        (Some(category), Some(name), Some(local), Some(family)) => Some(
            NetOfficeProcedureModel {
                category,
                name,
                office_procedure_id: ProcedureOfficeId(local),
                procedure_id: ProcedureId(family),
            },
        ),
        _ => None,
    }
}

fn read_office_procedures(items: &Vec<JsonValue>) -> (procedures: Option<
    Vec<NetOfficeProcedureModel>,
>)
    ensures
        procedures.deep_view() == office_procedures(items.deep_view()),
{
    let mut out: Vec<NetOfficeProcedureModel> = Vec::new();
    let mut i: usize = 0;
    while i < items.len()
        invariant
            i <= items.len(),
            out.len() == i,
            forall|k: int|
                0 <= k < i ==> (#[trigger] office_procedure(items.deep_view()[k])) == Some(out[k]@),
        decreases items.len() - i,
    {
        match read_office_procedure(&items[i]) {
            Some(procedure) => {
                out.push(procedure);
            },
            None => {
                assert(office_procedure(items.deep_view()[i as int]) is None);
                return None;
            },
        }
        i = i + 1;
    }
    assert(out.deep_view() =~= office_procedures(items.deep_view())->0);
    Some(out)
}

fn read_member_text(value: &JsonValue, key: &str) -> (text: Option<String>)
    ensures
        text.deep_view() == member_text(value@, key@),
{
    match value.member(key) {
        Some(member) => member.text(),
        None => None,
    }
}

fn read_member_number(value: &JsonValue, key: &str) -> (number: Option<JsonNumber>)
    ensures
        number == member_number(value@, key@),
{
    match value.member(key) {
        Some(member) => member.number(),
        None => None,
    }
}

fn read_member_optional_text(value: &JsonValue, key: &str) -> (text: Option<
    Option<String>,
>)
    ensures
        text.deep_view() == member_optional_text(value@, key@),
{
    match value.member(key) {
        Some(member) => member.optional_text(),
        None => Some(None),
    }
}

fn read_member_procedures(value: &JsonValue) -> (procedures: Option<
    Vec<NetOfficeProcedureModel>,
>)
    ensures
        procedures.deep_view() == member_procedures(value@),
{
    match value.member("tramites") {
        Some(member) => match member.items() {
            Some(items) => read_office_procedures(items),
            None => None,
        },
        None => None,
    }
}

/// Decodes a full office record from a JSON object.
pub fn read_office_record(value: &JsonValue) -> (office: Option<NetOfficeModel>)
    ensures
        office.deep_view() == office_record(value@),
{
    let office_id = match value.member("idOficina") {
        Some(member) => member.as_u32(),
        None => None,
    };
    let office_code = read_member_optional_text(value, "codIntegracion");
    let latitude = read_member_number(value, "latitud");
    let longitude = read_member_number(value, "longitud");
    let name = read_member_text(value, "nombreOficina");
    let address = read_member_text(value, "direccion");
    let district_code = read_member_text(value, "codigoDistrito");
    let district_name = read_member_text(value, "nombreDistrito");
    let url = read_member_text(value, "urlInformacion");
    let procedures = read_member_procedures(value);
    match (
        office_id,
        office_code,
        latitude,
        longitude,
        name,
        address,
        district_code,
        district_name,
        url,
        procedures,
    ) {
        (
            Some(office_id),
            Some(office_code),
            Some(latitude),
            Some(longitude),
            Some(name),
            Some(address),
            Some(district_code),
            Some(district_name),
            Some(url),
            Some(procedures),
        ) => Some(
            NetOfficeModel {
                office_id,
                office_code,
                latitude,
                longitude,
                name,
                address,
                district_code,
                district_name,
                url,
                procedures,
            },
        ),
        _ => None,
    }
}

/// Reads the envelope around an office from a parsed document.
pub fn read_office_envelope(document: Option<&JsonValue>) -> (outcome: Result<
    Option<NetOfficeModel>,
    ParseError,
>)
    ensures
        envelope_view(outcome) == office_envelope(
            document.deep_view(),
        ),
{
    let value = match document {
        Some(value) => value,
        None => {
            return Err(ParseError::Json);
        },
    };
    match value {
        JsonValue::Object(_) => {},
        _ => {
            return Err(ParseError::Json);
        },
    }
    let id = match value.member("idOficina") {
        Some(id) => id,
        None => {
            return Err(ParseError::MissingOfficeId);
        },
    };
    let number = match id.as_u64() {
        Some(number) => number,
        None => {
            return Err(ParseError::InvalidOfficeId);
        },
    };
    if number == 0 {
        Ok(None)
    } else {
        match read_office_record(value) {
            Some(office) => Ok(Some(office)),
            None => Err(ParseError::Record),
        }
    }
}

/// Reads the answer to a request for one office.
///
/// The outcome is [`office_envelope`] of the document that the body holds:
/// `Ok(None)` for the sentinel identifier `0`, `Ok(Some(..))` with the full
/// record for any other identifier, and an error for a body that is no JSON
/// object, that lacks the identifier or holds an identifier that is no
/// non-negative integer, or whose record is incomplete.
pub fn read_office_optional(body: &str) -> (outcome: Result<Option<NetOfficeModel>, ParseError>)
    ensures
        envelope_view(outcome) == office_envelope(json_document(body@)),
{
    let parsed = parse_document(body);
    read_office_envelope(parsed.as_ref())
}

/// Law: a body whose office identifier is `0` reads as "no office",
/// whatever else the object holds.
pub proof fn lemma_sentinel_reads_as_no_office(body: Seq<char>)
    requires
        json_document(body) is Some,
        json_document(body)->0 is Object,
        json_member(json_document(body)->0, "idOficina"@) == Some(
            Json::Number(JsonNumber::PosInt(0)),
        ),
    ensures
        office_envelope(json_document(body)) == Ok::<Option<Office>, ParseError>(None),
{
}

/// Law: a body whose office identifier is above `0` and whose object holds
/// every field of the record reads as that record, field for field.
pub proof fn lemma_full_record_reads_as_itself(body: Seq<char>, office: Office)
    requires
        json_document(body) is Some,
        json_document(body)->0 is Object,
        office.office_id > 0,
        json_member(json_document(body)->0, "idOficina"@) == Some(
            Json::Number(JsonNumber::PosInt(office.office_id as u64)),
        ),
        member_optional_text(json_document(body)->0, "codIntegracion"@) == Some(
            office.office_code,
        ),
        member_number(json_document(body)->0, "latitud"@) == Some(office.latitude),
        member_number(json_document(body)->0, "longitud"@) == Some(office.longitude),
        member_text(json_document(body)->0, "nombreOficina"@) == Some(office.name),
        member_text(json_document(body)->0, "direccion"@) == Some(office.address),
        member_text(json_document(body)->0, "codigoDistrito"@) == Some(office.district_code),
        member_text(json_document(body)->0, "nombreDistrito"@) == Some(office.district_name),
        member_text(json_document(body)->0, "urlInformacion"@) == Some(office.url),
        member_procedures(json_document(body)->0) == Some(office.procedures),
    ensures
        office_envelope(json_document(body)) == Ok::<Option<Office>, ParseError>(Some(office)),
{
}

} // verus!
