//! The relay as a machine without I/O. `start` reads the call and names the
//! first action; the caller performs each action and reports what happened
//! to `step`, until the action is `Finish`.

use std::collections::HashMap;
use vstd::prelude::*;
use vstd::string::StringExecFns;

use crate::method::{method_of, Method};
use crate::status::Status;

verus! {

/// The one request that a relay sends.
#[derive(Debug, PartialEq)]
pub struct Request {
    pub method: Method,
    pub url: String,
    /// The custom headers, by name; `None` where the call gave none.
    pub headers: Option<HashMap<String, String>>,
    /// The payload; `None` where the call gave none.
    pub body: Option<String>,
    /// The bound on the whole round trip, in milliseconds; `None` leaves the
    /// transport's own default in force.
    pub timeout_ms: Option<u64>,
}

/// What a relay is waiting for.
#[derive(Clone, Copy, Debug, PartialEq, Eq, Structural)]
pub enum Phase {
    /// The request is out; the status of the response is awaited.
    Sending,
    /// The status signalled success; the body is awaited.
    Reading,
    /// The result has been handed out.
    Done,
}

/// What the caller reports back.
#[derive(Debug, PartialEq)]
pub enum Event {
    /// The transport failed, while sending or while reading, with its description.
    Failed(String),
    /// A response arrived with this status.
    Responded(Status),
    /// The body was read in full.
    Body(Vec<u8>),
}

/// What the caller is to do next.
#[derive(Debug, PartialEq)]
pub enum Action {
    /// Send this request and report `Responded` or `Failed`.
    Send(Request),
    /// Read the body of the response and report `Body` or `Failed`.
    ReadBody,
    /// Stop: this is the result of the relay.
    Finish(Result<Vec<u8>, String>),
}

/// A request as plain values.
pub struct RequestView {
    pub method: Method,
    pub url: Seq<char>,
    pub headers: Option<Map<String, String>>,
    pub body: Option<Seq<char>>,
    pub timeout_ms: Option<u64>,
}

/// An event as plain values.
pub enum EventView {
    Failed(Seq<char>),
    Responded(Status),
    Body(Seq<u8>),
}

/// An action as plain values.
pub enum ActionView {
    Send(RequestView),
    ReadBody,
    Finish(Result<Seq<u8>, Seq<char>>),
}

/// The mapping that a header argument stands for.
pub open spec fn headers_view(headers: Option<HashMap<String, String>>) -> Option<
    Map<String, String>,
> {
    match headers {
        Some(h) => Some(h@),
        None => None,
    }
}

/// The characters of an optional string.
pub open spec fn text_view(text: Option<String>) -> Option<Seq<char>> {
    match text {
        Some(t) => Some(t@),
        None => None,
    }
}

/// The plain value of a result.
pub open spec fn result_view(result: Result<Vec<u8>, String>) -> Result<Seq<u8>, Seq<char>> {
    match result {
        Ok(bytes) => Ok(bytes@),
        Err(message) => Err(message@),
    }
}

impl View for Request {
    type V = RequestView;

    open spec fn view(&self) -> RequestView {
        RequestView {
            method: self.method,
            url: self.url@,
            headers: headers_view(self.headers),
            body: text_view(self.body),
            timeout_ms: self.timeout_ms,
        }
    }
}

impl View for Event {
    type V = EventView;

    open spec fn view(&self) -> EventView {
        match self {
            Event::Failed(description) => EventView::Failed(description@),
            Event::Responded(status) => EventView::Responded(*status),
            Event::Body(bytes) => EventView::Body(bytes@),
        }
    }
}

impl View for Action {
    type V = ActionView;

    open spec fn view(&self) -> ActionView {
        match self {
            Action::Send(request) => ActionView::Send(request@),
            Action::ReadBody => ActionView::ReadBody,
            Action::Finish(result) => ActionView::Finish(result_view(*result)),
        }
    }
}

/// The message for a method name that is not supported: the name as given.
pub open spec fn unsupported_method_message(method: Seq<char>) -> Seq<char> {
    "Unsupported method: "@ + method
}

/// The message for a response whose status does not signal success, over
/// the text that stands for the status.
pub open spec fn failed_status_message(line: Seq<char>) -> Seq<char> {
    "Request failed with status: "@ + line
}

/// How a relay begins. A supported method, in any letter case, gives the one
/// request, with every other argument unchanged. Any other method name ends
/// the relay at once: nothing is sent.
pub open spec fn first_step(
    url: Seq<char>,
    method: Seq<char>,
    headers: Option<Map<String, String>>,
    body: Option<Seq<char>>,
    timeout_ms: Option<u64>,
) -> (Phase, ActionView) {
    match method_of(method) {
        Some(m) => (
            Phase::Sending,
            ActionView::Send(RequestView { method: m, url, headers, body, timeout_ms }),
        ),
        None => (Phase::Done, ActionView::Finish(Err(unsupported_method_message(method)))),
    }
}

/// How a relay goes on. `None` where the event is not one that the phase
/// waits for.
pub open spec fn next_step(phase: Phase, event: EventView) -> Option<(Phase, ActionView)> {
    match (phase, event) {
        (Phase::Sending, EventView::Failed(description)) => Some(
            (Phase::Done, ActionView::Finish(Err(description))),
        ),
        (Phase::Sending, EventView::Responded(status)) => if status.success() {
            Some((Phase::Reading, ActionView::ReadBody))
        } else {
            Some((Phase::Done, ActionView::Finish(Err(failed_status_message(status.line())))))
        },
        (Phase::Reading, EventView::Failed(description)) => Some(
            (Phase::Done, ActionView::Finish(Err(description))),
        ),
        (Phase::Reading, EventView::Body(bytes)) => Some(
            (Phase::Done, ActionView::Finish(Ok(bytes))),
        ),
        _ => None,
    }
}

/// The message for a method name that is not supported.
pub fn unsupported_method(method: &str) -> (message: String)
    ensures
        message@ == unsupported_method_message(method@),
{
    let mut message = String::from_str("Unsupported method: ");
    message.append(method);
    message
}

/// The message for a failed status, over the text that stands for the status.
pub fn failed_status(line: &str) -> (message: String)
    ensures
        message@ == failed_status_message(line@),
{
    let mut message = String::from_str("Request failed with status: ");
    message.append(line);
    message
}

/// Begins a relay: reads the method name and names the first action.
pub fn start(
    url: String,
    method: String,
    headers: Option<HashMap<String, String>>,
    body: Option<String>,
    timeout_ms: Option<u64>,
) -> (first: (Phase, Action))
    ensures
        (first.0, first.1@) == first_step(
            url@,
            method@,
            headers_view(headers),
            text_view(body),
            timeout_ms,
        ),
{
    match Method::parse(method.as_str()) {
        Some(m) => (
            Phase::Sending,
            Action::Send(Request { method: m, url, headers, body, timeout_ms }),
        ),
        None => (Phase::Done, Action::Finish(Err(unsupported_method(method.as_str())))),
    }
}

/// Takes a relay one step on: from the phase and what the caller reports to
/// the next phase and action. An event that the phase does not wait for is
/// refused with `None`.
pub fn step(phase: Phase, event: Event) -> (next: Option<(Phase, Action)>)
    ensures
        match next {
            Some((p, a)) => next_step(phase, event@) == Some((p, a@)),
            None => next_step(phase, event@) is None,
        },
{
    match (phase, event) {
        (Phase::Sending, Event::Failed(description)) => Some(
            (Phase::Done, Action::Finish(Err(description))),
        ),
        (Phase::Sending, Event::Responded(status)) => {
            if status.is_success() {
                Some((Phase::Reading, Action::ReadBody))
            } else {
                let line = status.text();
                Some((Phase::Done, Action::Finish(Err(failed_status(line.as_str())))))
            }
        },
        (Phase::Reading, Event::Failed(description)) => Some(
            (Phase::Done, Action::Finish(Err(description))),
        ),
        (Phase::Reading, Event::Body(bytes)) => Some((Phase::Done, Action::Finish(Ok(bytes)))),
        _ => None,
    }
}

} // verus!
