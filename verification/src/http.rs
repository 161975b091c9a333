//! The requests that the engine sends, as plain values.
//!
//! Nothing here touches the network.  A request is described by its method,
//! its address, its headers and its parameters; whoever drives the engine
//! performs it and hands the response back as a status and a body.

use vstd::prelude::*;
use vstd::string::StringExecFns;
use crate::calendar::{day_month_year, AppointmentDay, Date};
use crate::model::{OfficeId, ProcedureId, ProcedureOfficeId};
use crate::text::{decimal, decimal_text, signed_decimal, signed_decimal_text};

verus! {

/// The address that every path of the service is resolved against.
pub const BASE_URL: &'static str = "https://servpub.madrid.es/GNSIS_WBCIUDADANO/";

/// How the engine identifies itself on every request.
pub const USER_AGENT: &'static str =
    "Mozilla/5.0 (X11; Linux x86_64; rv:141.0) Gecko/20100101 Firefox/141.0";

/// The paths that the service exposes.
#[derive(Debug, Clone, Copy, PartialEq, Eq, Structural)]
pub enum Endpoint {
    Landing,
    AnonymousAuth,
    ClosestOffice,
    OfficeAppointments,
    OfficeLanding,
    ProcedureLanding,
    DaySlots,
    OfficeInfo,
}

/// The path of an endpoint below the base address.
pub open spec fn endpoint_path(endpoint: Endpoint) -> Seq<char> {
    match endpoint {
        Endpoint::Landing => ""@,
        Endpoint::AnonymousAuth => "AjaxPantallaAcceso"@,
        Endpoint::ClosestOffice => "oficinaCitaProxima.do"@,
        Endpoint::OfficeAppointments => "horarioOficina.do"@,
        Endpoint::OfficeLanding => "oficina.do"@,
        Endpoint::ProcedureLanding => "tramite.do"@,
        Endpoint::DaySlots => "franjasDia.do"@,
        Endpoint::OfficeInfo => "dameOficina.do"@,
    }
}

/// The address of an endpoint.
pub open spec fn endpoint_url(endpoint: Endpoint) -> Seq<char> {
    BASE_URL@ + endpoint_path(endpoint)
}

impl Endpoint {
    /// The path of the endpoint below the base address.
    pub fn path(&self) -> (path: &'static str)
        ensures
            path@ == endpoint_path(*self),
    {
        match self {
            Endpoint::Landing => "",
            Endpoint::AnonymousAuth => "AjaxPantallaAcceso",
            Endpoint::ClosestOffice => "oficinaCitaProxima.do",
            Endpoint::OfficeAppointments => "horarioOficina.do",
            Endpoint::OfficeLanding => "oficina.do",
            Endpoint::ProcedureLanding => "tramite.do",
            Endpoint::DaySlots => "franjasDia.do",
            Endpoint::OfficeInfo => "dameOficina.do",
        }
    }

    /// The address of the endpoint.
    pub fn url(&self) -> (url: String)
        ensures
            url@ == endpoint_url(*self),
    {
        let mut url = BASE_URL.to_owned();
        url.append(self.path());
        url
    }
}

/// The method of a request.
#[derive(Debug, Clone, Copy, PartialEq, Eq, Structural)]
pub enum Method {
    Get,
    Post,
}

/// A request as the engine asks for it.  `query` goes into the address,
/// `form` is sent URL-encoded as the body, and `body` is sent as it stands.
#[derive(Debug)]
pub struct HttpRequest {
    pub method: Method,
    pub url: String,
    pub headers: Vec<(String, String)>,
    pub query: Vec<(String, String)>,
    pub form: Option<Vec<(String, String)>>,
    pub body: Option<String>,
}

/// What an [`HttpRequest`] holds.
pub struct Request {
    pub method: Method,
    pub url: Seq<char>,
    pub headers: Seq<(Seq<char>, Seq<char>)>,
    pub query: Seq<(Seq<char>, Seq<char>)>,
    pub form: Option<Seq<(Seq<char>, Seq<char>)>>,
    pub body: Option<Seq<char>>,
}

impl View for HttpRequest {
    type V = Request;

    open spec fn view(&self) -> Request {
        Request {
            method: self.method,
            url: self.url@,
            headers: self.headers.deep_view(),
            query: self.query.deep_view(),
            form: self.form.deep_view(),
            body: self.body.deep_view(),
        }
    }
}

impl DeepView for HttpRequest {
    type V = Request;

    open spec fn deep_view(&self) -> Request {
        self@
    }
}

/// A response as the driver hands it back.
#[derive(Debug)]
pub struct HttpResponse {
    pub status: u16,
    pub body: String,
}

/// What an [`HttpResponse`] holds.
pub struct Response {
    pub status: u16,
    pub body: Seq<char>,
}

impl View for HttpResponse {
    type V = Response;

    open spec fn view(&self) -> Response {
        Response { status: self.status, body: self.body@ }
    }
}

impl DeepView for HttpResponse {
    type V = Response;

    open spec fn deep_view(&self) -> Response {
        self@
    }
}

/// Whether a status reports a failure: a client error or a server error.
pub open spec fn is_failure_status(status: u16) -> bool {
    400 <= status < 600
}

impl HttpResponse {
    /// Whether the status reports a failure.
    pub fn failed(&self) -> (failed: bool)
        ensures
            failed == is_failure_status(self.status),
    {
        400 <= self.status && self.status < 600
    }
}

/// The header that identifies the engine.
pub open spec fn user_agent_header() -> (Seq<char>, Seq<char>) {
    ("user-agent"@, USER_AGENT@)
}

/// The plain fetch of the landing page, which opens the server-side session.
pub open spec fn landing_request() -> Request {
    Request {
        method: Method::Get,
        url: endpoint_url(Endpoint::Landing),
        headers: seq![user_agent_header()],
        query: Seq::empty(),
        form: None,
        body: None,
    }
}

/// The anonymous authentication: a POST whose body is empty and whose
/// content length is stated as zero.
pub open spec fn auth_request() -> Request {
    Request {
        method: Method::Post,
        url: endpoint_url(Endpoint::AnonymousAuth),
        headers: seq![user_agent_header(), ("content-length"@, "0"@)],
        query: Seq::empty(),
        form: None,
        body: Some(Seq::empty()),
    }
}

/// The question for the office with the closest appointment for a
/// procedure: a form with the procedure's identifier, asking for JSON.
pub open spec fn closest_office_request(procedure: ProcedureId) -> Request {
    Request {
        method: Method::Post,
        url: endpoint_url(Endpoint::ClosestOffice),
        headers: seq![user_agent_header(), ("accept"@, "application/json"@)],
        query: Seq::empty(),
        form: Some(seq![("idTipoTramite"@, decimal(procedure.0 as nat))]),
        body: None,
    }
}

/// The form that asks for the days of an office: most fields are blank, the
/// office and the identifier of the procedure at that office are filled in.
pub open spec fn office_appointments_form(office: OfficeId, procedure: ProcedureOfficeId) -> Seq<
    (Seq<char>, Seq<char>),
> {
    seq![
        ("valido"@, "true"@),
        ("ruta"@, "oficina"@),
        ("idCiudadanoCitaAnterior"@, ""@),
        ("idOficinaEdicion"@, ""@),
        ("idServicioEdicion"@, ""@),
        ("usaVariablesEdicion"@, ""@),
        ("esModificacion"@, ""@),
        ("origen"@, ""@),
        ("idFamiliaCita"@, ""@),
        ("idOficina"@, decimal(office.0 as nat)),
        ("idServicio"@, decimal(procedure.0 as nat)),
        ("idTipoDocumentoUsuarioAut"@, ""@),
        ("numeroDocumento"@, ""@),
    ]
}

/// The question for the days on which an office has openings.
pub open spec fn office_appointments_request(office: OfficeId, procedure: ProcedureOfficeId)
    -> Request {
    Request {
        method: Method::Post,
        url: endpoint_url(Endpoint::OfficeAppointments),
        headers: seq![user_agent_header()],
        query: Seq::empty(),
        form: Some(office_appointments_form(office, procedure)),
        body: None,
    }
}

/// The parameters that ask for the slots of a day: the procedure at the
/// office, the day as `DD/MM/YYYY`, and the time of asking in milliseconds,
/// which keeps caches from answering.
pub open spec fn day_slots_query(procedure: ProcedureOfficeId, day: Date, now_millis: int) -> Seq<
    (Seq<char>, Seq<char>),
> {
    seq![
        ("idTramite"@, decimal(procedure.0 as nat)),
        ("dia"@, day_month_year(day)),
        ("esUltimoDiaHuecos"@, "false"@),
        ("nh"@, "0"@),
        ("time"@, signed_decimal(now_millis)),
        ("idTipoAtencion"@, "1"@),
    ]
}

/// The question for the slots of a day.
pub open spec fn day_slots_request(procedure: ProcedureOfficeId, day: Date, now_millis: int)
    -> Request {
    Request {
        method: Method::Get,
        url: endpoint_url(Endpoint::DaySlots),
        headers: seq![user_agent_header()],
        query: day_slots_query(procedure, day, now_millis),
        form: None,
        body: None,
    }
}

/// The plain fetch of a page.
pub open spec fn page_request(endpoint: Endpoint) -> Request {
    Request {
        method: Method::Get,
        url: endpoint_url(endpoint),
        headers: seq![user_agent_header()],
        query: Seq::empty(),
        form: None,
        body: None,
    }
}

/// The question for the record of one office.
pub open spec fn office_info_request(office: OfficeId) -> Request {
    Request {
        method: Method::Get,
        url: endpoint_url(Endpoint::OfficeInfo),
        headers: seq![user_agent_header()],
        query: seq![("idOficina"@, decimal(office.0 as nat))],
        form: None,
        body: None,
    }
}

/// Whether a request carries the header that identifies the engine.
pub open spec fn identifies_engine(request: Request) -> bool {
    request.headers.len() > 0 && request.headers[0] == user_agent_header()
}

/// Law: every request that the engine asks for identifies the engine.
pub proof fn lemma_every_request_identifies_the_engine(
    procedure: ProcedureId,
    office: OfficeId,
    local: ProcedureOfficeId,
    day: Date,
    now_millis: int,
    endpoint: Endpoint,
)
    ensures
        identifies_engine(landing_request()),
        identifies_engine(auth_request()),
        identifies_engine(closest_office_request(procedure)),
        identifies_engine(office_appointments_request(office, local)),
        identifies_engine(day_slots_request(local, day, now_millis)),
        identifies_engine(page_request(endpoint)),
        identifies_engine(office_info_request(office)),
{
}

fn pair(name: &str, value: &str) -> (pair: (String, String))
    ensures
        pair.deep_view() == (name@, value@),
{
    (name.to_owned(), value.to_owned())
}

fn identified() -> (headers: Vec<(String, String)>)
    ensures
        headers.deep_view() == seq![user_agent_header()],
{
    let mut headers: Vec<(String, String)> = Vec::new();
    headers.push(pair("user-agent", USER_AGENT));
    assert(headers.deep_view() =~= seq![user_agent_header()]);
    headers
}

fn no_parameters() -> (parameters: Vec<(String, String)>)
    ensures
        parameters.deep_view() == Seq::<(Seq<char>, Seq<char>)>::empty(),
{
    let parameters: Vec<(String, String)> = Vec::new();
    assert(parameters.deep_view() =~= Seq::<(Seq<char>, Seq<char>)>::empty());
    parameters
}

impl HttpRequest {
    /// Builds the fetch of the landing page.
    pub fn landing() -> (request: HttpRequest)
        ensures
            request@ == landing_request(),
    {
        HttpRequest {
            method: Method::Get,
            url: Endpoint::Landing.url(),
            headers: identified(),
            query: no_parameters(),
            form: None,
            body: None,
        }
    }

    /// Builds the anonymous authentication.
    pub fn anonymous_auth() -> (request: HttpRequest)
        ensures
            request@ == auth_request(),
    {
        let mut headers = identified();
        let ghost before = headers.deep_view();
        headers.push(pair("content-length", "0"));
        assert(headers.deep_view() =~= before.push(("content-length"@, "0"@)));
        let body = String::new();
        let request = HttpRequest {
            method: Method::Post,
            url: Endpoint::AnonymousAuth.url(),
            headers,
            query: no_parameters(),
            form: None,
            body: Some(body),
        };
        assert(request@.headers =~= auth_request().headers);
        request
    }

    /// Builds the question for the office with the closest appointment.
    pub fn closest_office(procedure: ProcedureId) -> (request: HttpRequest)
        ensures
            request@ == closest_office_request(procedure),
    {
        let mut headers = identified();
        let ghost before = headers.deep_view();
        headers.push(pair("accept", "application/json"));
        assert(headers.deep_view() =~= before.push(("accept"@, "application/json"@)));
        let id = decimal_text(procedure.0 as u64);
        let mut form: Vec<(String, String)> = Vec::new();
        form.push(pair("idTipoTramite", id.as_str()));
        assert(form.deep_view() =~= seq![("idTipoTramite"@, decimal(procedure.0 as nat))]);
        let request = HttpRequest {
            method: Method::Post,
            url: Endpoint::ClosestOffice.url(),
            headers,
            query: no_parameters(),
            form: Some(form),
            body: None,
        };
        assert(request@.headers =~= closest_office_request(procedure).headers);
        request
    }

    /// Builds the question for the days on which an office has openings.
    pub fn office_appointments(office: OfficeId, procedure: ProcedureOfficeId) -> (request:
        HttpRequest)
        ensures
            request@ == office_appointments_request(office, procedure),
    {
        let id_office = decimal_text(office.0 as u64);
        let id_procedure = decimal_text(procedure.0 as u64);
        let mut form: Vec<(String, String)> = Vec::new();
        form.push(pair("valido", "true"));
        form.push(pair("ruta", "oficina"));
        form.push(pair("idCiudadanoCitaAnterior", ""));
        form.push(pair("idOficinaEdicion", ""));
        form.push(pair("idServicioEdicion", ""));
        form.push(pair("usaVariablesEdicion", ""));
        form.push(pair("esModificacion", ""));
        form.push(pair("origen", ""));
        form.push(pair("idFamiliaCita", ""));
        form.push(pair("idOficina", id_office.as_str()));
        form.push(pair("idServicio", id_procedure.as_str()));
        form.push(pair("idTipoDocumentoUsuarioAut", ""));
        form.push(pair("numeroDocumento", ""));
        assert(form.deep_view() =~= office_appointments_form(office, procedure));
        HttpRequest {
            method: Method::Post,
            url: Endpoint::OfficeAppointments.url(),
            headers: identified(),
            query: no_parameters(),
            form: Some(form),
            body: None,
        }
    }

    /// Builds the question for the slots of a day.  `now_millis` is the time
    /// of asking, in milliseconds since the Unix epoch.
    pub fn day_slots(procedure: ProcedureOfficeId, day: &AppointmentDay, now_millis: i64) -> (request:
        HttpRequest)
        ensures
            request@ == day_slots_request(procedure, day@, now_millis as int),
    {
        let id_procedure = decimal_text(procedure.0 as u64);
        let search_day = day.query_text();
        let current_ts = signed_decimal_text(now_millis);
        let mut query: Vec<(String, String)> = Vec::new();
        query.push(pair("idTramite", id_procedure.as_str()));
        query.push(pair("dia", search_day.as_str()));
        query.push(pair("esUltimoDiaHuecos", "false"));
        query.push(pair("nh", "0"));
        query.push(pair("time", current_ts.as_str()));
        query.push(pair("idTipoAtencion", "1"));
        assert(query.deep_view() =~= day_slots_query(procedure, day@, now_millis as int));
        HttpRequest {
            method: Method::Get,
            url: Endpoint::DaySlots.url(),
            headers: identified(),
            query,
            form: None,
            body: None,
        }
    }

    /// Builds the plain fetch of a page.
    pub fn page(endpoint: Endpoint) -> (request: HttpRequest)
        ensures
            request@ == page_request(endpoint),
    {
        HttpRequest {
            method: Method::Get,
            url: endpoint.url(),
            headers: identified(),
            query: no_parameters(),
            form: None,
            body: None,
        }
    }

    /// Builds the question for the record of one office.
    pub fn office_info(office: OfficeId) -> (request: HttpRequest)
        ensures
            request@ == office_info_request(office),
    {
        let id = decimal_text(office.0 as u64);
        let mut query: Vec<(String, String)> = Vec::new();
        query.push(pair("idOficina", id.as_str()));
        assert(query.deep_view() =~= seq![("idOficina"@, decimal(office.0 as nat))]);
        HttpRequest {
            method: Method::Get,
            url: Endpoint::OfficeInfo.url(),
            headers: identified(),
            query,
            form: None,
            body: None,
        }
    }
}

} // verus!
