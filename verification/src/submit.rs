//! The decisions of one submission.
//!
//! Sending a request and reading a response are the caller's work. What to do
//! next is decided here: [`step`] takes the state of the submission and what
//! just happened, and answers with the next state and the action to perform.
//! A submission sends one request, reports the status and then the body of
//! whatever response comes, and gives up on the first failure.

use crate::auth::{authorization_value, basic_authorization, encodable, is_header_text};
use vstd::prelude::*;

verus! {

/// Where transfers are posted.
pub const API_URL: &'static str = "https://cloud.fastbound.com/api/transfers";

/// The media type of the request's body.
pub const CONTENT_TYPE_JSON: &'static str = "application/json";

/// An HTTP POST request, ready to be sent.
#[derive(Debug, PartialEq, Eq)]
pub struct Request {
    /// Where to post.
    pub url: String,
    /// The value of the `Authorization` header.
    pub authorization: String,
    /// The value of the `Content-Type` header.
    pub content_type: String,
    /// The body: the payload in JSON, as it was given.
    pub body: String,
}

/// Why a submission was given up.
#[derive(Debug, PartialEq, Eq)]
pub enum SubmitError {
    /// The `Authorization` header could not be built.
    Header,
    /// The request could not be sent, or no response came back.
    Transport(String),
    /// The body of the response could not be read.
    Body(String),
    /// Something happened that the submission was not waiting for.
    OutOfTurn,
}

/// How far a submission has come.
#[derive(Clone, Copy, PartialEq, Eq, Structural, Debug)]
pub enum State {
    /// Nothing has been sent.
    Idle,
    /// The request is with the transport.
    AwaitingResponse,
    /// A response with this status has come and its body is being read.
    AwaitingBody { status: u16 },
    /// Status and body have been reported.
    Done,
    /// The submission was given up.
    Failed,
}

/// What the caller tells the submission.
#[derive(Debug, PartialEq, Eq)]
pub enum Event {
    /// A payload in JSON is to be sent with these credentials.
    Submit { json_payload: String, username: String, password: String },
    /// A response with this status has come.
    Responded { status: u16 },
    /// The body of the response has been read.
    BodyRead { body: String },
    /// Sending failed.
    TransportFailed { reason: String },
    /// Reading the body failed.
    BodyFailed { reason: String },
}

/// What the submission asks of the caller.
#[derive(Debug, PartialEq, Eq)]
pub enum Action {
    /// Send this request and tell how it went.
    Send(Request),
    /// Report the status, then read the body and tell how it went.
    ReportStatus { status: u16 },
    /// Report the body; the submission has succeeded.
    ReportBody { body: String },
    /// Stop with this error.
    Abort(SubmitError),
}

/// What a [`Request`] holds.
pub struct RequestView {
    pub url: Seq<char>,
    pub authorization: Seq<char>,
    pub content_type: Seq<char>,
    pub body: Seq<char>,
}

/// What a [`SubmitError`] holds.
pub enum SubmitErrorView {
    Header,
    Transport(Seq<char>),
    Body(Seq<char>),
    OutOfTurn,
}

/// What an [`Event`] holds.
pub enum EventView {
    Submit { json_payload: Seq<char>, username: Seq<char>, password: Seq<char> },
    Responded { status: u16 },
    BodyRead { body: Seq<char> },
    TransportFailed { reason: Seq<char> },
    BodyFailed { reason: Seq<char> },
}

/// What an [`Action`] holds.
pub enum ActionView {
    Send(RequestView),
    ReportStatus { status: u16 },
    ReportBody { body: Seq<char> },
    Abort(SubmitErrorView),
}

impl View for Request {
    type V = RequestView;

    open spec fn view(&self) -> RequestView {
        RequestView {
            url: self.url@,
            authorization: self.authorization@,
            content_type: self.content_type@,
            body: self.body@,
        }
    }
}

impl View for SubmitError {
    type V = SubmitErrorView;

    open spec fn view(&self) -> SubmitErrorView {
        match self {
            SubmitError::Header => SubmitErrorView::Header,
            SubmitError::Transport(reason) => SubmitErrorView::Transport(reason@),
            SubmitError::Body(reason) => SubmitErrorView::Body(reason@),
            SubmitError::OutOfTurn => SubmitErrorView::OutOfTurn,
        }
    }
}

impl View for Event {
    type V = EventView;

    open spec fn view(&self) -> EventView {
        match self {
            Event::Submit { json_payload, username, password } => EventView::Submit {
                json_payload: json_payload@,
                username: username@,
                password: password@,
            },
            Event::Responded { status } => EventView::Responded { status: *status },
            Event::BodyRead { body } => EventView::BodyRead { body: body@ },
            Event::TransportFailed { reason } => EventView::TransportFailed { reason: reason@ },
            Event::BodyFailed { reason } => EventView::BodyFailed { reason: reason@ },
        }
    }
}

impl View for Action {
    type V = ActionView;

    open spec fn view(&self) -> ActionView {
        match self {
            Action::Send(request) => ActionView::Send(request@),
            Action::ReportStatus { status } => ActionView::ReportStatus { status: *status },
            Action::ReportBody { body } => ActionView::ReportBody { body: body@ },
            Action::Abort(error) => ActionView::Abort(error@),
        }
    }
}

/// The request that submits `json_payload` with the given credentials: a POST
/// to the API's address, with Basic authentication, the JSON media type and
/// the payload as the body, unchanged.
pub open spec fn request_for(json_payload: Seq<char>, username: Seq<char>, password: Seq<char>) -> RequestView {
    RequestView {
        url: API_URL@,
        authorization: basic_authorization(username, password),
        content_type: CONTENT_TYPE_JSON@,
        body: json_payload,
    }
}

/// Whether a submission in `state` is over.
pub open spec fn is_over(state: State) -> bool {
    state == State::Done || state == State::Failed
}

/// The next state and the action for `event` in `state`.
///
/// An idle submission sends the request. The status of the response decides
/// nothing: whatever it is, it is reported and the body is read. A failure to
/// build the header, to send or to read the body ends the submission, and so
/// does an event that the state was not waiting for. A submission that is
/// over stays as it is.
pub open spec fn transition(state: State, event: EventView) -> (State, ActionView) {
    match (state, event) {
        (State::Idle, EventView::Submit { json_payload, username, password }) => {
            if encodable(username, password) {
                (State::AwaitingResponse, ActionView::Send(request_for(json_payload, username, password)))
            } else {
                (State::Failed, ActionView::Abort(SubmitErrorView::Header))
            }
        },
        (State::AwaitingResponse, EventView::Responded { status }) => (
            State::AwaitingBody { status },
            ActionView::ReportStatus { status },
        ),
        (State::AwaitingResponse, EventView::TransportFailed { reason }) => (
            State::Failed,
            ActionView::Abort(SubmitErrorView::Transport(reason)),
        ),
        (State::AwaitingBody { status }, EventView::BodyRead { body }) => (
            State::Done,
            ActionView::ReportBody { body },
        ),
        (State::AwaitingBody { status }, EventView::BodyFailed { reason }) => (
            State::Failed,
            ActionView::Abort(SubmitErrorView::Body(reason)),
        ),
        _ => (
            if is_over(state) {
                state
            } else {
                State::Failed
            },
            ActionView::Abort(SubmitErrorView::OutOfTurn),
        ),
    }
}

/// The state after a sequence of events, starting idle, and the actions that
/// were asked for, in order.
pub open spec fn run(events: Seq<EventView>) -> (State, Seq<ActionView>)
    decreases events.len(),
{
    if events.len() == 0 {
        (State::Idle, Seq::empty())
    } else {
        let before = run(events.drop_last());
        let next = transition(before.0, events.last());
        (next.0, before.1.push(next.1))
    }
}

/// A submission whose request is answered reports the status and the body of
/// the response and is done, whatever the status: a status that tells of a
/// failure is reported like any other and is no error.
pub proof fn lemma_response_is_reported(
    json_payload: Seq<char>,
    username: Seq<char>,
    password: Seq<char>,
    status: u16,
    body: Seq<char>,
)
    requires
        encodable(username, password),
    ensures
        run(
            seq![
                EventView::Submit { json_payload, username, password },
                EventView::Responded { status },
                EventView::BodyRead { body },
            ],
        ) == (
            State::Done,
            seq![
                ActionView::Send(request_for(json_payload, username, password)),
                ActionView::ReportStatus { status },
                ActionView::ReportBody { body },
            ],
        ),
{
    let submit = EventView::Submit { json_payload, username, password };
    let responded = EventView::Responded { status };
    let read = EventView::BodyRead { body };
    let three = seq![submit, responded, read];
    let two = seq![submit, responded];
    let one = seq![submit];
    reveal_with_fuel(run, 4);
    assert(run(two).1 =~= seq![
        ActionView::Send(request_for(json_payload, username, password)),
        ActionView::ReportStatus { status },
    ]);
    assert(run(three).1 =~= seq![
        ActionView::Send(request_for(json_payload, username, password)),
        ActionView::ReportStatus { status },
        ActionView::ReportBody { body },
    ]);
}

/// A submission that is over stays as it is, whatever happens.
pub proof fn lemma_over_stays_over(state: State, event: EventView)
    requires
        is_over(state),
    ensures
        transition(state, event).0 == state,
        transition(state, event).1 == ActionView::Abort(SubmitErrorView::OutOfTurn),
{
}

/// Whatever happens, a submission sends at most one request, and only as its
/// first action: it never sends again after a failure.
pub proof fn lemma_sends_once(events: Seq<EventView>)
    ensures
        run(events).1.len() == events.len(),
        events.len() > 0 ==> run(events).0 != State::Idle,
        forall|i: int| 0 < i < events.len() ==> !(#[trigger] run(events).1[i] is Send),
    decreases events.len(),
{
    if events.len() > 0 {
        lemma_sends_once(events.drop_last());
    }
}

/// Builds the request that submits `json_payload` with the given credentials.
///
/// Returns `None` only where no `Authorization` header can be built.
pub fn build_request(json_payload: String, username: &str, password: &str) -> (request: Option<Request>)
    ensures
        request is Some <==> encodable(username@, password@),
        request matches Some(r) ==> r@ == request_for(json_payload@, username@, password@)
            && is_header_text(r.authorization@),
{
    match authorization_value(username, password) {
        Some(authorization) => Some(
            Request {
                url: API_URL.to_owned(),
                authorization,
                content_type: CONTENT_TYPE_JSON.to_owned(),
                body: json_payload,
            },
        ),
        None => None,
    }
}

/// What to do for an event that the state was not waiting for.
fn out_of_turn(state: State) -> (next: (State, Action))
    ensures
        next.0 == (if is_over(state) {
            state
        } else {
            State::Failed
        }),
        next.1@ == ActionView::Abort(SubmitErrorView::OutOfTurn),
{
    let next_state = match state {
        State::Done => State::Done,
        _ => State::Failed,
    };
    (next_state, Action::Abort(SubmitError::OutOfTurn))
}

/// Decides what follows `event` in `state`.
pub fn step(state: State, event: Event) -> (next: (State, Action))
    ensures
        next.0 == transition(state, event@).0,
        next.1@ == transition(state, event@).1,
        next.1 matches Action::Send(request) ==> is_header_text(request.authorization@),
{
    match state {
        State::Idle => match event {
            Event::Submit { json_payload, username, password } => {
                match build_request(json_payload, username.as_str(), password.as_str()) {
                    Some(request) => (State::AwaitingResponse, Action::Send(request)),
                    None => (State::Failed, Action::Abort(SubmitError::Header)),
                }
            },
            _ => out_of_turn(state),
        },
        State::AwaitingResponse => match event {
            Event::Responded { status } => (State::AwaitingBody { status }, Action::ReportStatus { status }),
            Event::TransportFailed { reason } => (State::Failed, Action::Abort(SubmitError::Transport(reason))),
            _ => out_of_turn(state),
        },
        State::AwaitingBody { status } => match event {
            Event::BodyRead { body } => (State::Done, Action::ReportBody { body }),
            Event::BodyFailed { reason } => (State::Failed, Action::Abort(SubmitError::Body(reason))),
            _ => out_of_turn(state),
        },
        _ => out_of_turn(state),
    }
}

} // verus!
