use madrid_cita_previa::calendar::AppointmentDay;
use madrid_cita_previa::error::ParseError;
use madrid_cita_previa::http::{HttpRequest, HttpResponse, Method, BASE_URL, USER_AGENT};
use madrid_cita_previa::model::{OfficeId, ProcedureId, ProcedureOfficeId};
use madrid_cita_previa::session::{
    AppointmentSession, Cause, Event, Failure, Operation, Stage, Step,
};

struct Transport {
    landing_fetches: usize,
    auth_posts: usize,
    queries: Vec<HttpRequest>,
    landing_status: u16,
    auth_status: u16,
    answer: HttpResponse,
}

impl Transport {
    fn answering(status: u16, body: &str) -> Transport {
        Transport {
            landing_fetches: 0,
            auth_posts: 0,
            queries: Vec::new(),
            landing_status: 200,
            auth_status: 200,
            answer: HttpResponse { status, body: body.to_string() },
        }
    }

    fn send(&mut self, request: HttpRequest) -> HttpResponse {
        if request.url == BASE_URL {
            assert_eq!(request.method, Method::Get);
            self.landing_fetches += 1;
            HttpResponse { status: self.landing_status, body: "<html></html>".to_string() }
        } else if request.url.ends_with("/AjaxPantallaAcceso") {
            assert_eq!(request.method, Method::Post);
            self.auth_posts += 1;
            HttpResponse { status: self.auth_status, body: String::new() }
        } else {
            self.queries.push(request);
            HttpResponse { status: self.answer.status, body: self.answer.body.clone() }
        }
    }

    fn drive<T>(&mut self, mut operation: impl FnMut(Event) -> Step<T>) -> Result<T, Failure> {
        let mut event = Event::Begin;
        loop {
            event = match operation(event) {
                Step::Landing(request) => Event::Landing(self.send(request)),
                Step::Auth(request) => Event::Auth(self.send(request)),
                Step::Query(request) => Event::Answer(self.send(request)),
                Step::Done(result) => return Ok(result),
                Step::Failed(failure) => return Err(failure),
            };
        }
    }
}

fn pairs(list: &[(String, String)]) -> Vec<(&str, &str)> {
    list.iter().map(|(k, v)| (k.as_str(), v.as_str())).collect()
}

#[test]
fn new_session_is_not_initialised() {
    assert!(!AppointmentSession::new().is_initialized());
}

#[test]
fn opening_fetches_the_landing_page_then_authenticates() {
    let mut session = AppointmentSession::new();
    let landing = match session.ensure_init(Event::Begin) {
        Step::Landing(request) => request,
        other => panic!("{:?}", other),
    };
    assert_eq!(landing.method, Method::Get);
    assert_eq!(landing.url, "https://servpub.madrid.es/GNSIS_WBCIUDADANO/");
    assert_eq!(pairs(&landing.headers), vec![("user-agent", USER_AGENT)]);
    assert!(landing.query.is_empty());
    assert!(landing.form.is_none());
    assert!(landing.body.is_none());
    assert!(!session.is_initialized());

    let auth = match session.ensure_init(Event::Landing(HttpResponse {
        status: 200,
        body: String::new(),
    })) {
        Step::Auth(request) => request,
        other => panic!("{:?}", other),
    };
    assert_eq!(auth.method, Method::Post);
    assert_eq!(auth.url, "https://servpub.madrid.es/GNSIS_WBCIUDADANO/AjaxPantallaAcceso");
    assert_eq!(pairs(&auth.headers), vec![("user-agent", USER_AGENT), ("content-length", "0")]);
    assert_eq!(auth.body.as_deref(), Some(""));
    assert!(auth.form.is_none());
    assert!(!session.is_initialized());

    let done = session.ensure_init(Event::Auth(HttpResponse { status: 204, body: String::new() }));
    assert!(matches!(done, Step::Done(())));
    assert!(session.is_initialized());
}

#[test]
fn open_session_asks_for_nothing() {
    let mut session = AppointmentSession::new();
    let mut transport = Transport::answering(200, "");
    transport.drive(|event| session.ensure_init(event)).unwrap();
    assert!(matches!(session.ensure_init(Event::Begin), Step::Done(())));
    assert!(session.is_initialized());
}

#[test]
fn many_openings_fetch_and_authenticate_once() {
    let mut session = AppointmentSession::new();
    let mut transport = Transport::answering(200, "");
    for _ in 0..25 {
        transport.drive(|event| session.ensure_init(event)).unwrap();
    }
    assert_eq!(transport.landing_fetches, 1);
    assert_eq!(transport.auth_posts, 1);
    assert!(transport.queries.is_empty());
}

#[test]
fn many_operations_open_the_session_once() {
    let mut session = AppointmentSession::new();
    let mut transport = Transport::answering(200, r#"{"idOficina":0}"#);
    for id in 0..10 {
        let office = transport
            .drive(|event| session.get_office_closest_appointment(ProcedureId(id), event))
            .unwrap();
        assert!(office.is_none());
    }
    assert_eq!(transport.landing_fetches, 1);
    assert_eq!(transport.auth_posts, 1);
    assert_eq!(transport.queries.len(), 10);
}

#[test]
fn failing_landing_page_fails_the_opening() {
    for status in [400, 404, 500, 599] {
        let mut session = AppointmentSession::new();
        let mut transport = Transport::answering(200, "");
        transport.landing_status = status;
        let failure = transport.drive(|event| session.ensure_init(event)).unwrap_err();
        assert_eq!(
            failure,
            Failure {
                operation: Operation::EnsureInit,
                stage: Stage::Landing,
                cause: Cause::Status(status)
            }
        );
        assert!(!session.is_initialized());
        assert_eq!(transport.landing_fetches, 1);
        assert_eq!(transport.auth_posts, 0);
    }
}

#[test]
fn failing_authentication_fails_the_opening() {
    let mut session = AppointmentSession::new();
    let mut transport = Transport::answering(200, "");
    transport.auth_status = 403;
    let failure = transport.drive(|event| session.ensure_init(event)).unwrap_err();
    assert_eq!(
        failure,
        Failure { operation: Operation::EnsureInit, stage: Stage::Auth, cause: Cause::Status(403) }
    );
    assert!(!session.is_initialized());
    transport.auth_status = 200;
    transport.drive(|event| session.ensure_init(event)).unwrap();
    assert!(session.is_initialized());
    assert_eq!(transport.landing_fetches, 2);
    assert_eq!(transport.auth_posts, 2);
}

#[test]
fn statuses_below_400_and_from_600_are_no_failure() {
    for status in [100, 200, 204, 302, 399, 600] {
        let mut session = AppointmentSession::new();
        let mut transport = Transport::answering(200, "");
        transport.landing_status = status;
        transport.auth_status = status;
        transport.drive(|event| session.ensure_init(event)).unwrap();
        assert!(session.is_initialized());
    }
}

#[test]
fn transport_failure_fails_the_operation() {
    let mut session = AppointmentSession::new();
    for stage in [Stage::Landing, Stage::Auth, Stage::Query] {
        let step = session.list_offices(Event::TransportFailure(stage));
        match step {
            Step::Failed(failure) => assert_eq!(
                failure,
                Failure { operation: Operation::ListOffices, stage, cause: Cause::Transport }
            ),
            other => panic!("{:?}", other),
        }
        assert!(!session.is_initialized());
    }
    assert!(matches!(
        session.ensure_init(Event::TransportFailure(Stage::Landing)),
        Step::Failed(Failure {
            operation: Operation::EnsureInit,
            stage: Stage::Landing,
            cause: Cause::Transport
        })
    ));
}

#[test]
fn answer_to_the_opening_is_out_of_turn() {
    let mut session = AppointmentSession::new();
    let step = session.ensure_init(Event::Answer(HttpResponse { status: 200, body: String::new() }));
    assert!(matches!(
        step,
        Step::Failed(Failure {
            operation: Operation::EnsureInit,
            stage: Stage::Query,
            cause: Cause::OutOfTurn
        })
    ));
}

#[test]
fn closest_office_zero_is_no_office() {
    let mut session = AppointmentSession::new();
    let mut transport = Transport::answering(200, r#"{"idOficina":0,"nombreOficina":null}"#);
    let office = transport
        .drive(|event| session.get_office_closest_appointment(ProcedureId(42), event))
        .unwrap();
    assert!(office.is_none());
}

#[test]
fn closest_office_sends_the_procedure_as_a_form() {
    let mut session = AppointmentSession::new();
    let mut transport = Transport::answering(
        200,
        r#"{"idOficina":3,"latitud":1,"longitud":2,"nombreOficina":"N","direccion":"D",
            "codigoDistrito":"1","nombreDistrito":"X","urlInformacion":"u","tramites":[]}"#,
    );
    let office = transport
        .drive(|event| session.get_office_closest_appointment(ProcedureId(42), event))
        .unwrap()
        .unwrap();
    assert_eq!(office.office_id, 3);
    assert_eq!(office.name, "N");
    let request = &transport.queries[0];
    assert_eq!(request.method, Method::Post);
    assert_eq!(request.url, "https://servpub.madrid.es/GNSIS_WBCIUDADANO/oficinaCitaProxima.do");
    assert_eq!(
        pairs(&request.headers),
        vec![("user-agent", USER_AGENT), ("accept", "application/json")]
    );
    assert_eq!(pairs(request.form.as_ref().unwrap()), vec![("idTipoTramite", "42")]);
    assert!(request.query.is_empty());
    assert!(request.body.is_none());
}

#[test]
fn appointment_days_send_the_fixed_form() {
    let mut session = AppointmentSession::new();
    let mut transport =
        Transport::answering(200, r#"x = JSON.parse('[{"dia":5,"mes":6,"ano":2024}]')"#);
    let days = transport
        .drive(|event| {
            session.get_appointments_for_office(OfficeId(12), ProcedureOfficeId(345), event)
        })
        .unwrap();
    assert_eq!(days, vec![AppointmentDay::from_ymd(2024, 6, 5).unwrap()]);
    let request = &transport.queries[0];
    assert_eq!(request.method, Method::Post);
    assert_eq!(request.url, "https://servpub.madrid.es/GNSIS_WBCIUDADANO/horarioOficina.do");
    assert_eq!(
        pairs(request.form.as_ref().unwrap()),
        vec![
            ("valido", "true"),
            ("ruta", "oficina"),
            ("idCiudadanoCitaAnterior", ""),
            ("idOficinaEdicion", ""),
            ("idServicioEdicion", ""),
            ("usaVariablesEdicion", ""),
            ("esModificacion", ""),
            ("origen", ""),
            ("idFamiliaCita", ""),
            ("idOficina", "12"),
            ("idServicio", "345"),
            ("idTipoDocumentoUsuarioAut", ""),
            ("numeroDocumento", ""),
        ]
    );
}

#[test]
fn day_slots_send_the_day_and_the_time_of_asking() {
    let mut session = AppointmentSession::new();
    let mut transport = Transport::answering(
        200,
        r#"[{"franjasMinuto":[{"huecos":[{"hora":"09:00","disponible":true}]}]}]"#,
    );
    let day = AppointmentDay::from_ymd(2024, 6, 5).unwrap();
    let slots = transport
        .drive(|event| {
            session.get_available_appointment_slots_for_office_day(
                ProcedureOfficeId(345),
                day,
                1717000000123,
                event,
            )
        })
        .unwrap();
    assert_eq!(slots.failure, None);
    assert_eq!(slots.slots.len(), 1);
    assert_eq!(slots.slots[0].timestamp(), 1717570800);
    let request = &transport.queries[0];
    assert_eq!(request.method, Method::Get);
    assert_eq!(request.url, "https://servpub.madrid.es/GNSIS_WBCIUDADANO/franjasDia.do");
    assert_eq!(
        pairs(&request.query),
        vec![
            ("idTramite", "345"),
            ("dia", "05/06/2024"),
            ("esUltimoDiaHuecos", "false"),
            ("nh", "0"),
            ("time", "1717000000123"),
            ("idTipoAtencion", "1"),
        ]
    );
    assert!(request.form.is_none());
}

#[test]
fn listings_fetch_their_pages() {
    let page = "<select id=\"selectOficinas\"><optgroup label=\"G\"><option value=\"1\">A</option></optgroup></select>\
                <select id=\"selectTramites\"><optgroup label=\"C\"><option value=\"2\">T</option></optgroup></select>";
    let mut session = AppointmentSession::new();
    let mut transport = Transport::answering(200, page);
    let offices = transport.drive(|event| session.list_offices(event)).unwrap();
    assert_eq!(offices.len(), 1);
    assert_eq!(offices[0].id, OfficeId(1));
    let procedures = transport.drive(|event| session.list_available_procedures(event)).unwrap();
    assert_eq!(procedures.len(), 1);
    assert_eq!(procedures[0].procedure_id, ProcedureId(2));
    assert_eq!(transport.queries[0].url, "https://servpub.madrid.es/GNSIS_WBCIUDADANO/oficina.do");
    assert_eq!(transport.queries[1].url, "https://servpub.madrid.es/GNSIS_WBCIUDADANO/tramite.do");
    assert_eq!(transport.queries[0].method, Method::Get);
    assert_eq!(transport.landing_fetches, 1);
}

#[test]
fn listing_without_the_select_fails_with_the_operation_named() {
    let mut session = AppointmentSession::new();
    let mut transport = Transport::answering(200, "<html><body>login again</body></html>");
    let failure = transport.drive(|event| session.list_offices(event)).unwrap_err();
    assert_eq!(
        failure,
        Failure {
            operation: Operation::ListOffices,
            stage: Stage::Query,
            cause: Cause::Parse(ParseError::MissingSelect)
        }
    );
    let failure = transport.drive(|event| session.list_available_procedures(event)).unwrap_err();
    assert_eq!(failure.operation, Operation::ListProcedures);
    assert_eq!(failure.cause, Cause::Parse(ParseError::MissingSelect));
}

#[test]
fn office_details_open_no_session() {
    let mut session = AppointmentSession::new();
    let mut transport = Transport::answering(200, r#"{"idOficina":0}"#);
    let office =
        transport.drive(|event| session.get_office_details(OfficeId(77), event)).unwrap();
    assert!(office.is_none());
    assert_eq!(transport.landing_fetches, 0);
    assert_eq!(transport.auth_posts, 0);
    assert!(!session.is_initialized());
    let request = &transport.queries[0];
    assert_eq!(request.method, Method::Get);
    assert_eq!(request.url, "https://servpub.madrid.es/GNSIS_WBCIUDADANO/dameOficina.do");
    assert_eq!(pairs(&request.query), vec![("idOficina", "77")]);
    assert_eq!(pairs(&request.headers), vec![("user-agent", USER_AGENT)]);
}

#[test]
fn office_details_take_no_opening_events() {
    let mut session = AppointmentSession::new();
    let ok = HttpResponse { status: 200, body: String::new() };
    assert!(matches!(
        session.get_office_details(OfficeId(1), Event::Landing(ok)),
        Step::Failed(Failure {
            operation: Operation::OfficeDetails,
            stage: Stage::Landing,
            cause: Cause::OutOfTurn
        })
    ));
    let ok = HttpResponse { status: 200, body: String::new() };
    assert!(matches!(
        session.get_office_details(OfficeId(1), Event::Auth(ok)),
        Step::Failed(Failure {
            operation: Operation::OfficeDetails,
            stage: Stage::Auth,
            cause: Cause::OutOfTurn
        })
    ));
    assert!(!session.is_initialized());
}

#[test]
fn answer_that_reports_a_failure_fails_the_operation() {
    let mut session = AppointmentSession::new();
    let mut transport = Transport::answering(503, r#"{"idOficina":0}"#);
    let failure = transport
        .drive(|event| session.get_office_closest_appointment(ProcedureId(1), event))
        .unwrap_err();
    assert_eq!(
        failure,
        Failure {
            operation: Operation::ClosestOffice,
            stage: Stage::Query,
            cause: Cause::Status(503)
        }
    );
    assert!(session.is_initialized());
}

#[test]
fn answer_that_cannot_be_read_fails_with_the_operation_named() {
    let mut session = AppointmentSession::new();
    let mut transport = Transport::answering(200, "<html>session expired</html>");
    let failure = transport
        .drive(|event| session.get_office_closest_appointment(ProcedureId(1), event))
        .unwrap_err();
    assert_eq!(
        failure,
        Failure {
            operation: Operation::ClosestOffice,
            stage: Stage::Query,
            cause: Cause::Parse(ParseError::Json)
        }
    );
    let failure = transport
        .drive(|event| session.get_appointments_for_office(OfficeId(1), ProcedureOfficeId(2), event))
        .unwrap_err();
    assert_eq!(
        failure,
        Failure {
            operation: Operation::AppointmentDays,
            stage: Stage::Query,
            cause: Cause::Parse(ParseError::UnexpectedBody)
        }
    );
    let day = AppointmentDay::from_ymd(2024, 6, 5).unwrap();
    let failure = transport
        .drive(|event| {
            session.get_available_appointment_slots_for_office_day(
                ProcedureOfficeId(2),
                day,
                0,
                event,
            )
        })
        .unwrap_err();
    assert_eq!(failure.operation, Operation::DaySlots);
    assert_eq!(failure.cause, Cause::Parse(ParseError::Json));
    let failure =
        transport.drive(|event| session.get_office_details(OfficeId(1), event)).unwrap_err();
    assert_eq!(failure.operation, Operation::OfficeDetails);
    assert_eq!(failure.cause, Cause::Parse(ParseError::Json));
}

#[test]
fn sessions_are_independent() {
    let mut first = AppointmentSession::new();
    let mut second = AppointmentSession::new();
    let mut transport = Transport::answering(200, "");
    transport.drive(|event| first.ensure_init(event)).unwrap();
    assert!(first.is_initialized());
    assert!(!second.is_initialized());
    transport.drive(|event| second.ensure_init(event)).unwrap();
    assert_eq!(transport.landing_fetches, 2);
    assert_eq!(transport.auth_posts, 2);
}
