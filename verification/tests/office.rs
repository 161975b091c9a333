use madrid_cita_previa::error::ParseError;
use madrid_cita_previa::json::{parse_document, JsonNumber, JsonValue};
use madrid_cita_previa::model::{ProcedureId, ProcedureOfficeId};
use madrid_cita_previa::office::{read_office_envelope, read_office_optional, read_office_procedure};

const FULL_OFFICE: &str = r#"{
    "idOficina": 17,
    "codIntegracion": "OAC-17",
    "latitud": 40.4168,
    "longitud": -3,
    "nombreOficina": "OAC Centro",
    "direccion": "Calle Mayor 1",
    "codigoDistrito": "01",
    "nombreDistrito": "Centro",
    "urlInformacion": "https://example.org/oac",
    "extra": [1, 2, 3],
    "tramites": [
        {"categoria": "Padrón", "nombreTramite": "Alta", "idTramite": 101, "idFamiliaCita": 7},
        {"categoria": "Tasas", "nombreTramite": "Pago", "idTramite": 102, "idFamiliaCita": 9, "x": null}
    ]
}"#;

#[test]
fn sentinel_id_zero_is_no_office() {
    assert!(matches!(read_office_optional(r#"{"idOficina":0}"#), Ok(None)));
}

#[test]
fn sentinel_id_zero_ignores_other_members() {
    let body = r#"{"nombreOficina": 5, "idOficina": 0, "tramites": "none"}"#;
    assert!(matches!(read_office_optional(body), Ok(None)));
}

#[test]
fn full_record_is_read_field_by_field() {
    let office = read_office_optional(FULL_OFFICE).unwrap().unwrap();
    assert_eq!(office.office_id, 17);
    assert_eq!(office.office_code.as_deref(), Some("OAC-17"));
    assert_eq!(office.latitude, JsonNumber::Float(40.4168f64.to_bits()));
    assert_eq!(office.longitude, JsonNumber::NegInt(-3));
    assert_eq!(office.name, "OAC Centro");
    assert_eq!(office.address, "Calle Mayor 1");
    assert_eq!(office.district_code, "01");
    assert_eq!(office.district_name, "Centro");
    assert_eq!(office.url, "https://example.org/oac");
    assert_eq!(office.procedures.len(), 2);
    assert_eq!(office.procedures[0].category, "Padrón");
    assert_eq!(office.procedures[0].name, "Alta");
    assert_eq!(office.procedures[0].office_procedure_id, ProcedureOfficeId(101));
    assert_eq!(office.procedures[0].procedure_id, ProcedureId(7));
    assert_eq!(office.procedures[1].category, "Tasas");
    assert_eq!(office.procedures[1].name, "Pago");
    assert_eq!(office.procedures[1].office_procedure_id, ProcedureOfficeId(102));
    assert_eq!(office.procedures[1].procedure_id, ProcedureId(9));
}

#[test]
fn office_code_may_be_null_or_absent() {
    let with_null = FULL_OFFICE.replace("\"OAC-17\"", "null");
    let office = read_office_optional(&with_null).unwrap().unwrap();
    assert_eq!(office.office_code, None);
    let without = FULL_OFFICE.replace("\"codIntegracion\": \"OAC-17\",", "");
    let office = read_office_optional(&without).unwrap().unwrap();
    assert_eq!(office.office_code, None);
}

#[test]
fn office_code_of_another_kind_is_rejected() {
    let body = FULL_OFFICE.replace("\"OAC-17\"", "17");
    assert_eq!(read_office_optional(&body).unwrap_err(), ParseError::Record);
}

#[test]
fn integer_coordinates_are_kept_as_integers() {
    let body = FULL_OFFICE.replace("40.4168", "40");
    let office = read_office_optional(&body).unwrap().unwrap();
    assert_eq!(office.latitude, JsonNumber::PosInt(40));
}

#[test]
fn missing_office_id_is_an_error() {
    assert_eq!(
        read_office_optional(r#"{"nombreOficina":"x"}"#).unwrap_err(),
        ParseError::MissingOfficeId
    );
    assert_eq!(read_office_optional("{}").unwrap_err(), ParseError::MissingOfficeId);
}

#[test]
fn office_id_of_another_kind_is_an_error() {
    for id in ["\"17\"", "-1", "1.5", "null", "true", "[1]", "{}"] {
        let body = format!("{{\"idOficina\":{}}}", id);
        assert_eq!(read_office_optional(&body).unwrap_err(), ParseError::InvalidOfficeId);
    }
}

#[test]
fn body_that_is_no_json_object_is_an_error() {
    for body in ["", "not json", "[]", "[{\"idOficina\":0}]", "0", "null", "{\"idOficina\":0} x"] {
        assert_eq!(read_office_optional(body).unwrap_err(), ParseError::Json);
    }
}

#[test]
fn incomplete_record_is_an_error() {
    assert_eq!(read_office_optional(r#"{"idOficina":5}"#).unwrap_err(), ParseError::Record);
    for field in ["latitud", "longitud", "nombreOficina", "direccion", "codigoDistrito",
        "nombreDistrito", "urlInformacion", "tramites"] {
        let body = FULL_OFFICE.replace(&format!("\"{}\"", field), "\"renamed\"");
        assert_eq!(read_office_optional(&body).unwrap_err(), ParseError::Record);
    }
}

#[test]
fn office_id_beyond_32_bits_is_no_record() {
    let body = FULL_OFFICE.replace("\"idOficina\": 17", "\"idOficina\": 4294967296");
    assert_eq!(read_office_optional(&body).unwrap_err(), ParseError::Record);
    let body = FULL_OFFICE.replace("\"idOficina\": 17", "\"idOficina\": 4294967295");
    assert_eq!(read_office_optional(&body).unwrap().unwrap().office_id, 4294967295);
}

#[test]
fn procedure_with_a_wrong_field_fails_the_record() {
    let body = FULL_OFFICE.replace("\"idTramite\": 102", "\"idTramite\": \"102\"");
    assert_eq!(read_office_optional(&body).unwrap_err(), ParseError::Record);
    let body = FULL_OFFICE.replace("\"nombreTramite\": \"Pago\",", "");
    assert_eq!(read_office_optional(&body).unwrap_err(), ParseError::Record);
}

#[test]
fn procedure_may_be_written_as_an_array_of_its_fields() {
    let value = parse_document(r#"["Padrón", "Alta", 101, 7]"#).unwrap();
    let procedure = read_office_procedure(&value).unwrap();
    assert_eq!(procedure.category, "Padrón");
    assert_eq!(procedure.name, "Alta");
    assert_eq!(procedure.office_procedure_id, ProcedureOfficeId(101));
    assert_eq!(procedure.procedure_id, ProcedureId(7));
    let short = parse_document(r#"["Padrón", "Alta", 101]"#).unwrap();
    assert!(read_office_procedure(&short).is_none());
    let long = parse_document(r#"["Padrón", "Alta", 101, 7, 8]"#).unwrap();
    assert!(read_office_procedure(&long).is_none());
}

#[test]
fn envelope_of_no_document_is_an_error() {
    assert_eq!(read_office_envelope(None).unwrap_err(), ParseError::Json);
    let value = parse_document(r#"{"idOficina":0}"#).unwrap();
    assert!(matches!(read_office_envelope(Some(&value)), Ok(None)));
}

fn text(s: &str) -> JsonValue {
    JsonValue::Text(s.to_string())
}

fn number(n: u64) -> JsonValue {
    JsonValue::Number(JsonNumber::PosInt(n))
}

fn member(key: &str, value: JsonValue) -> (String, JsonValue) {
    (key.to_string(), value)
}

#[test]
fn envelope_is_read_from_a_document_built_by_hand() {
    let sentinel = JsonValue::Object(vec![member("other", text("x")), member("idOficina", number(0))]);
    assert!(matches!(read_office_envelope(Some(&sentinel)), Ok(None)));

    let office = JsonValue::Object(vec![
        member("idOficina", number(8)),
        member("codIntegracion", JsonValue::Null),
        member("latitud", JsonValue::Number(JsonNumber::Float(40.4168f64.to_bits()))),
        member("longitud", JsonValue::Number(JsonNumber::NegInt(-4))),
        member("nombreOficina", text("name")),
        member("direccion", text("address")),
        member("codigoDistrito", text("08")),
        member("nombreDistrito", text("district")),
        member("urlInformacion", text("url")),
        member(
            "tramites",
            JsonValue::Array(vec![JsonValue::Object(vec![
                member("idFamiliaCita", number(2)),
                member("idTramite", number(1)),
                member("nombreTramite", text("procedure")),
                member("categoria", text("category")),
            ])]),
        ),
    ]);
    let read = read_office_envelope(Some(&office)).unwrap().unwrap();
    assert_eq!(read.office_id, 8);
    assert_eq!(read.office_code, None);
    assert_eq!(read.latitude, JsonNumber::Float(40.4168f64.to_bits()));
    assert_eq!(read.longitude, JsonNumber::NegInt(-4));
    assert_eq!(read.name, "name");
    assert_eq!(read.address, "address");
    assert_eq!(read.district_code, "08");
    assert_eq!(read.district_name, "district");
    assert_eq!(read.url, "url");
    assert_eq!(read.procedures.len(), 1);
    assert_eq!(read.procedures[0].name, "procedure");
    assert_eq!(read.procedures[0].category, "category");
    assert_eq!(read.procedures[0].office_procedure_id, ProcedureOfficeId(1));
    assert_eq!(read.procedures[0].procedure_id, ProcedureId(2));

    for ( document, error) in [
        (JsonValue::Null, ParseError::Json),
        (JsonValue::Array(vec![]), ParseError::Json),
        (JsonValue::Object(vec![]), ParseError::MissingOfficeId),
        (JsonValue::Object(vec![member("idOficina", text("0"))]), ParseError::InvalidOfficeId),
        (
            JsonValue::Object(vec![member("idOficina", JsonValue::Number(JsonNumber::NegInt(-1)))]),
            ParseError::InvalidOfficeId,
        ),
        (
            JsonValue::Object(vec![member("idOficina", JsonValue::Number(JsonNumber::Float(0)))]),
            ParseError::InvalidOfficeId,
        ),
        (JsonValue::Object(vec![member("idOficina", number(1))]), ParseError::Record),
    ] {
        assert_eq!(read_office_envelope(Some(&document)).unwrap_err(), error);
    }
}

#[test]
fn last_member_with_a_key_counts() {
    let twice = JsonValue::Object(vec![member("idOficina", number(5)), member("idOficina", number(0))]);
    assert!(matches!(read_office_envelope(Some(&twice)), Ok(None)));
    assert!(matches!(read_office_optional(r#"{"idOficina":5,"idOficina":0}"#), Ok(None)));
}
