use madrid_cita_previa::calendar::AppointmentDay;
use madrid_cita_previa::http::{Endpoint, HttpRequest, HttpResponse, Method, BASE_URL, USER_AGENT};
use madrid_cita_previa::model::{OfficeId, ProcedureId, ProcedureOfficeId};

#[test]
fn endpoints_resolve_against_the_base_address() {
    assert_eq!(BASE_URL, "https://servpub.madrid.es/GNSIS_WBCIUDADANO/");
    let urls: Vec<String> = [
        Endpoint::Landing,
        Endpoint::AnonymousAuth,
        Endpoint::ClosestOffice,
        Endpoint::OfficeAppointments,
        Endpoint::OfficeLanding,
        Endpoint::ProcedureLanding,
        Endpoint::DaySlots,
        Endpoint::OfficeInfo,
    ]
    .iter()
    .map(|e| e.url())
    .collect();
    assert_eq!(
        urls,
        vec![
            "https://servpub.madrid.es/GNSIS_WBCIUDADANO/",
            "https://servpub.madrid.es/GNSIS_WBCIUDADANO/AjaxPantallaAcceso",
            "https://servpub.madrid.es/GNSIS_WBCIUDADANO/oficinaCitaProxima.do",
            "https://servpub.madrid.es/GNSIS_WBCIUDADANO/horarioOficina.do",
            "https://servpub.madrid.es/GNSIS_WBCIUDADANO/oficina.do",
            "https://servpub.madrid.es/GNSIS_WBCIUDADANO/tramite.do",
            "https://servpub.madrid.es/GNSIS_WBCIUDADANO/franjasDia.do",
            "https://servpub.madrid.es/GNSIS_WBCIUDADANO/dameOficina.do",
        ]
    );
    assert_eq!(Endpoint::DaySlots.path(), "franjasDia.do");
}

#[test]
fn every_request_identifies_the_engine() {
    let day = AppointmentDay::from_ymd(2024, 6, 5).unwrap();
    let requests = vec![
        HttpRequest::landing(),
        HttpRequest::anonymous_auth(),
        HttpRequest::closest_office(ProcedureId(1)),
        HttpRequest::office_appointments(OfficeId(1), ProcedureOfficeId(2)),
        HttpRequest::day_slots(ProcedureOfficeId(2), &day, 0),
        HttpRequest::page(Endpoint::OfficeLanding),
        HttpRequest::page(Endpoint::ProcedureLanding),
        HttpRequest::office_info(OfficeId(1)),
    ];
    for request in &requests {
        assert_eq!(request.headers[0], ("user-agent".to_string(), USER_AGENT.to_string()));
    }
    assert_eq!(
        USER_AGENT,
        "Mozilla/5.0 (X11; Linux x86_64; rv:141.0) Gecko/20100101 Firefox/141.0"
    );
}

#[test]
fn authentication_states_an_empty_body() {
    let request = HttpRequest::anonymous_auth();
    assert_eq!(request.method, Method::Post);
    assert_eq!(request.body, Some(String::new()));
    assert_eq!(request.headers[1], ("content-length".to_string(), "0".to_string()));
    assert_eq!(request.headers.len(), 2);
}

#[test]
fn identifiers_are_written_in_decimal() {
    let request = HttpRequest::office_info(OfficeId(4294967295));
    assert_eq!(request.query, vec![("idOficina".to_string(), "4294967295".to_string())]);
    let request = HttpRequest::closest_office(ProcedureId(0));
    assert_eq!(request.form, Some(vec![("idTipoTramite".to_string(), "0".to_string())]));
}

#[test]
fn day_slots_write_the_day_and_the_time_of_asking() {
    let day = AppointmentDay::from_ymd(2025, 1, 9).unwrap();
    let request = HttpRequest::day_slots(ProcedureOfficeId(8), &day, -5);
    assert_eq!(request.query[1], ("dia".to_string(), "09/01/2025".to_string()));
    assert_eq!(request.query[4], ("time".to_string(), "-5".to_string()));
    assert_eq!(request.query.len(), 6);
}

#[test]
fn failure_statuses() {
    let failed = |status| HttpResponse { status, body: String::new() }.failed();
    assert!(!failed(0));
    assert!(!failed(200));
    assert!(!failed(399));
    assert!(failed(400));
    assert!(failed(499));
    assert!(failed(500));
    assert!(failed(599));
    assert!(!failed(600));
    assert!(!failed(u16::MAX));
}
