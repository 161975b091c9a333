//! The session with the service, and the six queries that run over it.
//!
//! The engine never touches the network.  Each operation is a step function:
//! it takes what has just happened (an [`Event`]) and answers with what is to
//! be done next (a [`Step`]): a request to send, the operation's result, or
//! its failure.  Whoever drives the engine sends the request, wraps the
//! response in the next event, and calls the operation again with the same
//! arguments.
//!
//! The server-side session is opened once, lazily, by the first operation
//! that needs it: a plain fetch of the landing page, then the anonymous
//! authentication.  Only when both have succeeded is the session marked as
//! initialised; from then on no operation sends either request again.  An
//! operation borrows the session mutably for each step, so two
//! initialisations can never interleave; a driver that shares the session
//! among tasks keeps it behind a lock and holds that lock from `Begin` until
//! the step that asks for the operation's own request.

use vstd::prelude::*;
use crate::calendar::{AppointmentDay, Date};
use crate::days::{days_of_body, read_appointment_days};
use crate::error::ParseError;
use crate::http::{
    auth_request, closest_office_request, day_slots_request, is_failure_status, landing_request,
    office_appointments_request, office_info_request, page_request, Endpoint, HttpRequest,
    HttpResponse, Request, Response,
};
use crate::json::{json_document, json_member, Json, JsonNumber};
use crate::listing::{
    offices_of, procedures_of, read_offices, read_procedures, ListedOffice, ListedProcedure,
    NetOfficeBasicInfoModel, NetProcedureModel,
};
use crate::model::{OfficeId, ProcedureId, ProcedureOfficeId};
use crate::office::{office_envelope, read_office_optional, NetOfficeModel, Office};
use crate::slots::{read_day_slots, slots_of_body, SlotRun, SlotSequence};

verus! {

/// The operations of the engine.
#[derive(Debug, Clone, Copy, PartialEq, Eq, Structural)]
pub enum Operation {
    EnsureInit,
    ClosestOffice,
    AppointmentDays,
    DaySlots,
    ListProcedures,
    ListOffices,
    OfficeDetails,
}

/// The requests that an operation may go through, in their order.
#[derive(Debug, Clone, Copy, PartialEq, Eq, Structural)]
pub enum Stage {
    /// The fetch of the landing page.
    Landing,
    /// The anonymous authentication.
    Auth,
    /// The operation's own request.
    Query,
}

/// Why an operation failed.
#[derive(Debug, Clone, Copy, PartialEq, Eq, Structural)]
pub enum Cause {
    /// The request could not be sent, or no response came back.
    Transport,
    /// The response reports a client or a server error.
    Status(u16),
    /// The response body is not what the operation expects.
    Parse(ParseError),
    /// The event answers a request that the operation never asks for.
    OutOfTurn,
}

/// The failure of an operation: which operation it was, at which of its
/// requests it failed, and why.
#[derive(Debug, Clone, Copy, PartialEq, Eq, Structural)]
pub struct Failure {
    pub operation: Operation,
    pub stage: Stage,
    pub cause: Cause,
}

/// What has just happened, as the driver reports it to an operation.
#[derive(Debug)]
pub enum Event {
    /// The operation starts.
    Begin,
    /// The response to the fetch of the landing page.
    Landing(HttpResponse),
    /// The response to the anonymous authentication.
    Auth(HttpResponse),
    /// The response to the operation's own request.
    Answer(HttpResponse),
    /// The request of the given stage could not be performed.
    TransportFailure(Stage),
}

/// What an [`Event`] holds.
pub enum Occurrence {
    Begin,
    Landing(Response),
    Auth(Response),
    Answer(Response),
    TransportFailure(Stage),
}

impl View for Event {
    type V = Occurrence;

    open spec fn view(&self) -> Occurrence {
        match self {
            Event::Begin => Occurrence::Begin,
            Event::Landing(response) => Occurrence::Landing(response@),
            Event::Auth(response) => Occurrence::Auth(response@),
            Event::Answer(response) => Occurrence::Answer(response@),
            Event::TransportFailure(stage) => Occurrence::TransportFailure(*stage),
        }
    }
}

/// What is to be done next, as an operation tells the driver.
#[derive(Debug)]
pub enum Step<T> {
    /// Fetch the landing page, and report the response as
    /// [`Event::Landing`].
    Landing(HttpRequest),
    /// Authenticate, and report the response as [`Event::Auth`].
    Auth(HttpRequest),
    /// Send the operation's own request, and report the response as
    /// [`Event::Answer`].
    Query(HttpRequest),
    /// The operation has ended with this result.
    Done(T),
    /// The operation has failed.
    Failed(Failure),
}

/// What a [`Step`] holds.
pub enum Progress<V> {
    Landing(Request),
    Auth(Request),
    Query(Request),
    Done(V),
    Failed(Failure),
}

impl<T: DeepView> DeepView for Step<T> {
    type V = Progress<T::V>;

    open spec fn deep_view(&self) -> Progress<T::V> {
        match self {
            Step::Landing(request) => Progress::Landing(request@),
            Step::Auth(request) => Progress::Auth(request@),
            Step::Query(request) => Progress::Query(request@),
            Step::Done(result) => Progress::Done(result.deep_view()),
            Step::Failed(failure) => Progress::Failed(*failure),
        }
    }
}

/// What an operation turns to after an event, before it has looked at any
/// response body.
pub enum Turn {
    /// The session is not open: fetch the landing page.
    Landing,
    /// The landing page has come: authenticate.
    Auth,
    /// The session is open, or the operation needs none: send the
    /// operation's own request.
    Query,
    /// The answer has come: read this body.
    Read(Seq<char>),
    /// The operation fails at the given stage.
    Failed(Stage, Cause),
}

/// The state of the session after an event, and what the operation turns to.
///
/// `needs_session` tells whether the operation opens the session before its
/// own request.  The session is marked as initialised by exactly one event:
/// the response to the authentication, when its status reports no failure.
pub open spec fn next_turn(initialized: bool, needs_session: bool, event: Occurrence) -> (
    bool,
    Turn,
) {
    match event {
        Occurrence::Begin => if needs_session && !initialized {
            (initialized, Turn::Landing)
        } else {
            (initialized, Turn::Query)
        },
        Occurrence::Landing(response) => if !needs_session {
            (initialized, Turn::Failed(Stage::Landing, Cause::OutOfTurn))
        } else if is_failure_status(response.status) {
            (initialized, Turn::Failed(Stage::Landing, Cause::Status(response.status)))
        } else {
            (initialized, Turn::Auth)
        },
        Occurrence::Auth(response) => if !needs_session {
            (initialized, Turn::Failed(Stage::Auth, Cause::OutOfTurn))
        } else if is_failure_status(response.status) {
            (initialized, Turn::Failed(Stage::Auth, Cause::Status(response.status)))
        } else {
            (true, Turn::Query)
        },
        Occurrence::Answer(response) => if is_failure_status(response.status) {
            (initialized, Turn::Failed(Stage::Query, Cause::Status(response.status)))
        } else {
            (initialized, Turn::Read(response.body))
        },
        Occurrence::TransportFailure(stage) => (initialized, Turn::Failed(stage, Cause::Transport)),
    }
}

/// The step that an operation answers with, given what it turns to, the
/// request of its own, and what it reads from a body.
pub open spec fn progress<V>(
    operation: Operation,
    turn: Turn,
    query: Request,
    read: spec_fn(Seq<char>) -> Result<V, ParseError>,
) -> Progress<V> {
    match turn {
        Turn::Landing => Progress::Landing(landing_request()),
        Turn::Auth => Progress::Auth(auth_request()),
        Turn::Query => Progress::Query(query),
        Turn::Read(body) => match read(body) {
            Ok(result) => Progress::Done(result),
            Err(e) => Progress::Failed(
                Failure { operation, stage: Stage::Query, cause: Cause::Parse(e) },
            ),
        },
        Turn::Failed(stage, cause) => Progress::Failed(Failure { operation, stage, cause }),
    }
}

/// The step with which `ensure_init` answers an event.  It asks for the two
/// requests that open the session and is done when the session is open; it
/// has no request of its own, so an answer to one is out of turn.
pub open spec fn init_progress(initialized: bool, event: Occurrence) -> Progress<()> {
    match next_turn(initialized, true, event).1 {
        Turn::Landing => Progress::Landing(landing_request()),
        Turn::Auth => Progress::Auth(auth_request()),
        Turn::Query => Progress::Done(()),
        Turn::Read(_) => Progress::Failed(
            Failure {
                operation: Operation::EnsureInit,
                stage: Stage::Query,
                cause: Cause::OutOfTurn,
            },
        ),
        Turn::Failed(stage, cause) => Progress::Failed(
            Failure { operation: Operation::EnsureInit, stage, cause },
        ),
    }
}

/// The step with which the question for the closest office answers an
/// event.
pub open spec fn closest_office_progress(
    initialized: bool,
    procedure: ProcedureId,
    event: Occurrence,
) -> Progress<Option<Office>> {
    progress(
        Operation::ClosestOffice,
        next_turn(initialized, true, event).1,
        closest_office_request(procedure),
        |body: Seq<char>| office_envelope(json_document(body)),
    )
}

/// The step with which the question for the days of an office answers an
/// event.
pub open spec fn appointment_days_progress(
    initialized: bool,
    office: OfficeId,
    procedure: ProcedureOfficeId,
    event: Occurrence,
) -> Progress<Seq<Date>> {
    progress(
        Operation::AppointmentDays,
        next_turn(initialized, true, event).1,
        office_appointments_request(office, procedure),
        |body: Seq<char>| days_of_body(body),
    )
}

/// The step with which the question for the slots of a day answers an
/// event.
pub open spec fn day_slots_progress(
    initialized: bool,
    procedure: ProcedureOfficeId,
    day: Date,
    now_millis: int,
    event: Occurrence,
) -> Progress<SlotRun> {
    progress(
        Operation::DaySlots,
        next_turn(initialized, true, event).1,
        day_slots_request(procedure, day, now_millis),
        |body: Seq<char>| slots_of_body(body, day),
    )
}

/// The step with which the question for the procedures answers an event.
pub open spec fn list_procedures_progress(initialized: bool, event: Occurrence) -> Progress<
    Seq<ListedProcedure>,
> {
    progress(
        Operation::ListProcedures,
        next_turn(initialized, true, event).1,
        page_request(Endpoint::ProcedureLanding),
        |body: Seq<char>| procedures_of(body),
    )
}

/// The step with which the question for the offices answers an event.
pub open spec fn list_offices_progress(initialized: bool, event: Occurrence) -> Progress<
    Seq<ListedOffice>,
> {
    progress(
        Operation::ListOffices,
        next_turn(initialized, true, event).1,
        page_request(Endpoint::OfficeLanding),
        |body: Seq<char>| offices_of(body),
    )
}

/// The step with which the question for the record of one office answers an
/// event.  This question opens no session.
pub open spec fn office_details_progress(initialized: bool, office: OfficeId, event: Occurrence)
    -> Progress<Option<Office>> {
    progress(
        Operation::OfficeDetails,
        next_turn(initialized, false, event).1,
        office_info_request(office),
        |body: Seq<char>| office_envelope(json_document(body)),
    )
}

/// Whether the lazy opening of the session has happened.
#[derive(Debug)]
struct SessionState {
    init: bool,
}

/// The engine's side of one session with the service.
#[derive(Debug)]
pub struct AppointmentSession {
    state: SessionState,
}

/// What an operation turns to after an event, with the body to read in
/// hand.
enum Reading {
    Landing,
    Auth,
    Query,
    Read(String),
    Failed(Stage, Cause),
}

impl Reading {
    spec fn turn(self) -> Turn {
        match self {
            Reading::Landing => Turn::Landing,
            Reading::Auth => Turn::Auth,
            Reading::Query => Turn::Query,
            Reading::Read(body) => Turn::Read(body@),
            Reading::Failed(stage, cause) => Turn::Failed(stage, cause),
        }
    }
}

impl AppointmentSession {
    /// Whether the session has been opened.
    pub closed spec fn initialized(&self) -> bool {
        self.state.init
    }

    /// A session that has not been opened yet.
    pub fn new() -> (session: AppointmentSession)
        ensures
            !session.initialized(),
    {
        AppointmentSession { state: SessionState { init: false } }
    }

    /// Whether the session has been opened.
    pub fn is_initialized(&self) -> (initialized: bool)
        ensures
            initialized == self.initialized(),
    {
        self.state.init
    }

    fn turn(&mut self, needs_session: bool, event: Event) -> (reading: Reading)
        ensures
            (final(self).initialized(), reading.turn()) == next_turn(
                old(self).initialized(),
                needs_session,
                event@,
            ),
    {
        match event {
            Event::Begin => if needs_session && !self.state.init {
                Reading::Landing
            } else {
                Reading::Query
            },
            Event::Landing(response) => if !needs_session {
                Reading::Failed(Stage::Landing, Cause::OutOfTurn)
            } else if response.failed() {
                Reading::Failed(Stage::Landing, Cause::Status(response.status))
            } else {
                Reading::Auth
            },
            Event::Auth(response) => if !needs_session {
                Reading::Failed(Stage::Auth, Cause::OutOfTurn)
            } else if response.failed() {
                Reading::Failed(Stage::Auth, Cause::Status(response.status))
            } else {
                self.state.init = true;
                Reading::Query
            },
            Event::Answer(response) => if response.failed() {
                Reading::Failed(Stage::Query, Cause::Status(response.status))
            } else {
                Reading::Read(response.body)
            },
            Event::TransportFailure(stage) => Reading::Failed(stage, Cause::Transport),
        }
    }

    /// Opens the session if it is not open yet.
    ///
    /// On an open session `Begin` is answered with `Done` at once, and no
    /// request is asked for.  Otherwise the landing page is fetched, then the
    /// authentication is sent; a response of either that reports a failure
    /// fails the operation and leaves the session closed.  The session is
    /// marked as open by the response to the authentication alone.
    pub fn ensure_init(&mut self, event: Event) -> (step: Step<()>)
        ensures
            final(self).initialized() == next_turn(old(self).initialized(), true, event@).0,
            step.deep_view() == init_progress(old(self).initialized(), event@),
    {
        match self.turn(true, event) {
            Reading::Landing => Step::Landing(HttpRequest::landing()),
            Reading::Auth => Step::Auth(HttpRequest::anonymous_auth()),
            Reading::Query => Step::Done(()),
            Reading::Read(_) => Step::Failed(
                Failure {
                    operation: Operation::EnsureInit,
                    stage: Stage::Query,
                    cause: Cause::OutOfTurn,
                },
            ),
            Reading::Failed(stage, cause) => Step::Failed(
                Failure { operation: Operation::EnsureInit, stage, cause },
            ),
        }
    }

    /// Asks which office has the closest appointment for a procedure.
    ///
    /// The session is opened first.  The answer is read as the envelope
    /// around an office: `None` where the service names no office.
    pub fn get_office_closest_appointment(&mut self, procedure: ProcedureId, event: Event) -> (step:
        Step<Option<NetOfficeModel>>)
        ensures
            final(self).initialized() == next_turn(old(self).initialized(), true, event@).0,
            step.deep_view() == closest_office_progress(
                old(self).initialized(),
                procedure,
                event@,
            ),
    {
        match self.turn(true, event) {
            Reading::Landing => Step::Landing(HttpRequest::landing()),
            Reading::Auth => Step::Auth(HttpRequest::anonymous_auth()),
            Reading::Query => Step::Query(HttpRequest::closest_office(procedure)),
            Reading::Read(body) => match read_office_optional(body.as_str()) {
                Ok(office) => Step::Done(office),
                Err(e) => Step::Failed(
                    Failure {
                        operation: Operation::ClosestOffice,
                        stage: Stage::Query,
                        cause: Cause::Parse(e),
                    },
                ),
            },
            Reading::Failed(stage, cause) => Step::Failed(
                Failure { operation: Operation::ClosestOffice, stage, cause },
            ),
        }
    }

    /// Asks on which days an office has openings for a procedure.
    ///
    /// The session is opened first.  The days come in the order in which the
    /// service lists them; a page with the "recently reserved" notice yields
    /// none.
    pub fn get_appointments_for_office(
        &mut self,
        office: OfficeId,
        procedure_office_id: ProcedureOfficeId,
        event: Event,
    ) -> (step: Step<Vec<AppointmentDay>>)
        ensures
            final(self).initialized() == next_turn(old(self).initialized(), true, event@).0,
            step.deep_view() == appointment_days_progress(
                old(self).initialized(),
                office,
                procedure_office_id,
                event@,
            ),
    {
        match self.turn(true, event) {
            Reading::Landing => Step::Landing(HttpRequest::landing()),
            Reading::Auth => Step::Auth(HttpRequest::anonymous_auth()),
            Reading::Query => Step::Query(
                HttpRequest::office_appointments(office, procedure_office_id),
            ),
            Reading::Read(body) => match read_appointment_days(body.as_str()) {
                Ok(days) => Step::Done(days),
                Err(e) => Step::Failed(
                    Failure {
                        operation: Operation::AppointmentDays,
                        stage: Stage::Query,
                        cause: Cause::Parse(e),
                    },
                ),
            },
            Reading::Failed(stage, cause) => Step::Failed(
                Failure { operation: Operation::AppointmentDays, stage, cause },
            ),
        }
    }

    /// Asks for the slots of a day that can still be booked.
    ///
    /// The session is opened first.  `now_millis` is the time of asking, in
    /// milliseconds since the Unix epoch; it goes into the request and
    /// nowhere else.  Each call produces the sequence afresh.
    pub fn get_available_appointment_slots_for_office_day(
        &mut self,
        procedure_office_id: ProcedureOfficeId,
        day: AppointmentDay,
        now_millis: i64,
        event: Event,
    ) -> (step: Step<SlotSequence>)
        ensures
            final(self).initialized() == next_turn(old(self).initialized(), true, event@).0,
            step.deep_view() == day_slots_progress(
                old(self).initialized(),
                procedure_office_id,
                day@,
                now_millis as int,
                event@,
            ),
    {
        match self.turn(true, event) {
            Reading::Landing => Step::Landing(HttpRequest::landing()),
            Reading::Auth => Step::Auth(HttpRequest::anonymous_auth()),
            Reading::Query => Step::Query(
                HttpRequest::day_slots(procedure_office_id, &day, now_millis),
            ),
            Reading::Read(body) => match read_day_slots(body.as_str(), day) {
                Ok(slots) => Step::Done(slots),
                Err(e) => Step::Failed(
                    Failure {
                        operation: Operation::DaySlots,
                        stage: Stage::Query,
                        cause: Cause::Parse(e),
                    },
                ),
            },
            Reading::Failed(stage, cause) => Step::Failed(
                Failure { operation: Operation::DaySlots, stage, cause },
            ),
        }
    }

    /// Asks for the procedures that the service knows.
    ///
    /// The session is opened first.  The label of a group of the listing is
    /// the category of its procedures.
    pub fn list_available_procedures(&mut self, event: Event) -> (step: Step<
        Vec<NetProcedureModel>,
    >)
        ensures
            final(self).initialized() == next_turn(old(self).initialized(), true, event@).0,
            step.deep_view() == list_procedures_progress(old(self).initialized(), event@),
    {
        match self.turn(true, event) {
            Reading::Landing => Step::Landing(HttpRequest::landing()),
            Reading::Auth => Step::Auth(HttpRequest::anonymous_auth()),
            Reading::Query => Step::Query(HttpRequest::page(Endpoint::ProcedureLanding)),
            Reading::Read(body) => match read_procedures(body.as_str()) {
                Ok(procedures) => Step::Done(procedures),
                Err(e) => Step::Failed(
                    Failure {
                        operation: Operation::ListProcedures,
                        stage: Stage::Query,
                        cause: Cause::Parse(e),
                    },
                ),
            },
            Reading::Failed(stage, cause) => Step::Failed(
                Failure { operation: Operation::ListProcedures, stage, cause },
            ),
        }
    }

    /// Asks for the offices that the service knows.
    ///
    /// The session is opened first.  The label of a group of the listing is
    /// the group of its offices.
    pub fn list_offices(&mut self, event: Event) -> (step: Step<Vec<NetOfficeBasicInfoModel>>)
        ensures
            final(self).initialized() == next_turn(old(self).initialized(), true, event@).0,
            step.deep_view() == list_offices_progress(old(self).initialized(), event@),
    {
        match self.turn(true, event) {
            Reading::Landing => Step::Landing(HttpRequest::landing()),
            Reading::Auth => Step::Auth(HttpRequest::anonymous_auth()),
            Reading::Query => Step::Query(HttpRequest::page(Endpoint::OfficeLanding)),
            Reading::Read(body) => match read_offices(body.as_str()) {
                Ok(offices) => Step::Done(offices),
                Err(e) => Step::Failed(
                    Failure {
                        operation: Operation::ListOffices,
                        stage: Stage::Query,
                        cause: Cause::Parse(e),
                    },
                ),
            },
            Reading::Failed(stage, cause) => Step::Failed(
                Failure { operation: Operation::ListOffices, stage, cause },
            ),
        }
    }

    /// Asks for the full record of one office.
    ///
    /// Unlike the other queries this one does not open the session: its
    /// request is the first thing it asks for, whatever the session's state,
    /// and it leaves that state as it is.
    pub fn get_office_details(&mut self, office_id: OfficeId, event: Event) -> (step: Step<
        Option<NetOfficeModel>,
    >)
        ensures
            final(self).initialized() == old(self).initialized(),
            step.deep_view() == office_details_progress(
                old(self).initialized(),
                office_id,
                event@,
            ),
    {
        match self.turn(false, event) {
            Reading::Landing => Step::Landing(HttpRequest::landing()),
            Reading::Auth => Step::Auth(HttpRequest::anonymous_auth()),
            Reading::Query => Step::Query(HttpRequest::office_info(office_id)),
            Reading::Read(body) => match read_office_optional(body.as_str()) {
                Ok(office) => Step::Done(office),
                Err(e) => Step::Failed(
                    Failure {
                        operation: Operation::OfficeDetails,
                        stage: Stage::Query,
                        cause: Cause::Parse(e),
                    },
                ),
            },
            Reading::Failed(stage, cause) => Step::Failed(
                Failure { operation: Operation::OfficeDetails, stage, cause },
            ),
        }
    }
}

/// What one run of `ensure_init` comes to when a driver performs every
/// request that it asks for and reports the given responses: the state in
/// which it leaves the session, the requests that were sent, in order, and
/// the step that ended the run.
pub open spec fn init_run(initialized: bool, landing: Response, auth: Response) -> (
    bool,
    Seq<Request>,
    Progress<()>,
) {
    match init_progress(initialized, Occurrence::Begin) {
        Progress::Landing(first) => {
            let after_landing = next_turn(initialized, true, Occurrence::Landing(landing)).0;
            match init_progress(initialized, Occurrence::Landing(landing)) {
                Progress::Auth(second) => (
                    next_turn(after_landing, true, Occurrence::Auth(auth)).0,
                    seq![first, second],
                    init_progress(after_landing, Occurrence::Auth(auth)),
                ),
                other => (after_landing, seq![first], other),
            }
        },
        other => (next_turn(initialized, true, Occurrence::Begin).0, Seq::empty(), other),
    }
}

/// What `n` runs of `ensure_init` come to, one after the other on the same
/// session: the state in which they leave the session, and all requests that
/// were sent, in order.
pub open spec fn init_runs(initialized: bool, n: nat, landing: Response, auth: Response) -> (
    bool,
    Seq<Request>,
)
    decreases n,
{
    if n == 0 {
        (initialized, Seq::empty())
    } else {
        let before = init_runs(initialized, (n - 1) as nat, landing, auth);
        let last = init_run(before.0, landing, auth);
        (last.0, before.1 + last.1)
    }
}

/// Law: on an open session `ensure_init` is done at once and asks for no
/// request, and the session stays open.
pub proof fn lemma_open_session_asks_for_nothing()
    ensures
        init_progress(true, Occurrence::Begin) == Progress::Done(()),
        next_turn(true, true, Occurrence::Begin).0,
{
}

/// Law: however often `ensure_init` runs on a session, the landing page is
/// fetched exactly once and the authentication is sent exactly once, by the
/// first run, as long as the service answers both without a failure.
pub proof fn lemma_session_opens_once(n: nat, landing: Response, auth: Response)
    requires
        n >= 1,
        !is_failure_status(landing.status),
        !is_failure_status(auth.status),
    ensures
        init_runs(false, n, landing, auth) == (true, seq![landing_request(), auth_request()]),
    decreases n,
{
    if n == 1 {
        assert(init_runs(false, 0, landing, auth) == (false, Seq::<Request>::empty()));
        assert(init_run(false, landing, auth).1 =~= seq![landing_request(), auth_request()]);
        assert(Seq::<Request>::empty() + init_run(false, landing, auth).1 =~= seq![
            landing_request(),
            auth_request(),
        ]);
    } else {
        lemma_session_opens_once((n - 1) as nat, landing, auth);
        assert(init_run(true, landing, auth).1 =~= Seq::<Request>::empty());
        assert(seq![landing_request(), auth_request()] + Seq::<Request>::empty() =~= seq![
            landing_request(),
            auth_request(),
        ]);
    }
}

/// Law: nothing but the response to the authentication opens a session, and
/// that response opens it only where its status reports no failure and the
/// operation is one that opens the session.
pub proof fn lemma_only_authentication_opens(needs_session: bool, event: Occurrence)
    requires
        next_turn(false, needs_session, event).0,
    ensures
        needs_session,
        event is Auth,
        !is_failure_status(event->Auth_0.status),
{
}

/// Law: once a session is open, no event closes it.
pub proof fn lemma_open_session_stays_open(needs_session: bool, event: Occurrence)
    ensures
        next_turn(true, needs_session, event).0,
{
}

/// Law: a response that reports a failure, or a request that could not be
/// performed, fails the opening of the session and leaves the session
/// closed.
pub proof fn lemma_failed_opening_leaves_session_closed(event: Occurrence)
    requires
        match event {
            Occurrence::Landing(response) => is_failure_status(response.status),
            Occurrence::Auth(response) => is_failure_status(response.status),
            Occurrence::TransportFailure(_) => true,
            _ => false,
        },
    ensures
        init_progress(false, event) is Failed,
        !next_turn(false, true, event).0,
{
}

/// Law: where the service names the office `0`, the question for the closest
/// office ends with no office, and not with a failure.
pub proof fn lemma_office_zero_is_no_office(
    initialized: bool,
    procedure: ProcedureId,
    response: Response,
)
    requires
        !is_failure_status(response.status),
        json_document(response.body) is Some,
        json_document(response.body)->0 is Object,
        json_member(json_document(response.body)->0, "idOficina"@) == Some(
            Json::Number(JsonNumber::PosInt(0)),
        ),
    ensures
        closest_office_progress(initialized, procedure, Occurrence::Answer(response))
            == Progress::<Option<Office>>::Done(None),
{
}

/// Law: the question for the record of one office never asks for the
/// requests that open a session.
pub proof fn lemma_office_details_open_no_session(
    initialized: bool,
    office: OfficeId,
    event: Occurrence,
)
    ensures
        !(office_details_progress(initialized, office, event) is Landing),
        !(office_details_progress(initialized, office, event) is Auth),
{
}

} // verus!
