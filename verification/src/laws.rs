//! What holds of every relay, stated over a model of the network's part:
//! how sending ends, and how reading the body would end.

use vstd::prelude::*;

use crate::method::method_of;
use crate::relay::{
    failed_status_message, first_step, next_step, unsupported_method_message, ActionView,
    EventView, Phase,
};
use crate::status::{code_prefix, status_line, Status};

verus! {

/// The network's part in one relay.
pub struct Exchange {
    /// How sending ends: with the status of a response, or with a failure.
    pub sent: Result<Status, Seq<char>>,
    /// How reading the body ends, if it is read: with the bytes, or with a failure.
    pub read: Result<Seq<u8>, Seq<char>>,
}

/// The event that reports how sending ended.
pub open spec fn sent_event(sent: Result<Status, Seq<char>>) -> EventView {
    match sent {
        Ok(status) => EventView::Responded(status),
        Err(description) => EventView::Failed(description),
    }
}

/// The event that reports how reading ended.
pub open spec fn read_event(read: Result<Seq<u8>, Seq<char>>) -> EventView {
    match read {
        Ok(bytes) => EventView::Body(bytes),
        Err(description) => EventView::Failed(description),
    }
}

/// The event that answers `action` in this exchange; `None` for `Finish`,
/// which asks for nothing.
pub open spec fn answer(action: ActionView, exchange: Exchange) -> Option<EventView> {
    match action {
        ActionView::Send(_) => Some(sent_event(exchange.sent)),
        ActionView::ReadBody => Some(read_event(exchange.read)),
        ActionView::Finish(_) => None,
    }
}

/// The result of a relay that is at `(phase, action)` and is driven through
/// `exchange` for at most `fuel` more actions. `None` where it does not
/// finish: where the fuel runs out, or the machine refuses an event.
pub open spec fn drive(phase: Phase, action: ActionView, exchange: Exchange, fuel: nat) -> Option<
    Result<Seq<u8>, Seq<char>>,
>
    decreases fuel,
{
    match action {
        ActionView::Finish(result) => Some(result),
        _ => if fuel == 0 {
            None
        } else {
            match next_step(phase, answer(action, exchange).unwrap()) {
                Some((p, a)) => drive(p, a, exchange, (fuel - 1) as nat),
                None => None,
            }
        },
    }
}

/// The result of the whole relay of a call through `exchange`.
pub open spec fn relay(
    url: Seq<char>,
    method: Seq<char>,
    headers: Option<Map<String, String>>,
    body: Option<Seq<char>>,
    timeout_ms: Option<u64>,
    exchange: Exchange,
) -> Option<Result<Seq<u8>, Seq<char>>> {
    let first = first_step(url, method, headers, body, timeout_ms);
    drive(first.0, first.1, exchange, 2)
}

/// The number of `Send` actions among this action and those that follow it.
pub open spec fn sends(phase: Phase, action: ActionView, exchange: Exchange, fuel: nat) -> nat
    decreases fuel,
{
    let here: nat = if action is Send {
        1
    } else {
        0
    };
    match action {
        ActionView::Finish(_) => here,
        _ => if fuel == 0 {
            here
        } else {
            match next_step(phase, answer(action, exchange).unwrap()) {
                Some((p, a)) => here + sends(p, a, exchange, (fuel - 1) as nat),
                None => here,
            }
        },
    }
}

/// Every relay finishes, after at most two actions, with a result: each
/// failure is a result like any other.
pub proof fn lemma_relay_finishes(
    url: Seq<char>,
    method: Seq<char>,
    headers: Option<Map<String, String>>,
    body: Option<Seq<char>>,
    timeout_ms: Option<u64>,
    exchange: Exchange,
)
    ensures
        relay(url, method, headers, body, timeout_ms, exchange) is Some,
{
    reveal_with_fuel(drive, 3);
}

/// A method name is accepted exactly when, letter case ignored, it is one of
/// the seven supported names: then the first action is the one request, with
/// the call's URL, headers, body and timeout unchanged. Any other name ends
/// the relay with the error that names it, before anything is sent and
/// whatever the network would have done.
pub proof fn lemma_method_decides(
    url: Seq<char>,
    method: Seq<char>,
    headers: Option<Map<String, String>>,
    body: Option<Seq<char>>,
    timeout_ms: Option<u64>,
    exchange: Exchange,
)
    ensures
        first_step(url, method, headers, body, timeout_ms).1 is Send <==> method_of(method) is Some,
        first_step(url, method, headers, body, timeout_ms).1 matches ActionView::Send(request)
            ==> Some(request.method) == method_of(method) && request.url == url && request.headers
            == headers && request.body == body && request.timeout_ms == timeout_ms,
        method_of(method) is None ==> first_step(url, method, headers, body, timeout_ms) == (
            Phase::Done,
            ActionView::Finish(Err(unsupported_method_message(method))),
        ),
        method_of(method) is None ==> relay(url, method, headers, body, timeout_ms, exchange)
            == Some(Err::<Seq<u8>, Seq<char>>(unsupported_method_message(method))),
        method_of(method) is None ==> sends(
            first_step(url, method, headers, body, timeout_ms).0,
            first_step(url, method, headers, body, timeout_ms).1,
            exchange,
            2,
        ) == 0,
{
    reveal_with_fuel(drive, 3);
    reveal_with_fuel(sends, 3);
}

/// Where the response signals success and its body is read as `bytes`, the
/// relay returns exactly `bytes`, whatever they are.
pub proof fn lemma_success_returns_body(
    url: Seq<char>,
    method: Seq<char>,
    headers: Option<Map<String, String>>,
    body: Option<Seq<char>>,
    timeout_ms: Option<u64>,
    status: Status,
    bytes: Seq<u8>,
)
    requires
        method_of(method) is Some,
        status.success(),
    ensures
        relay(
            url,
            method,
            headers,
            body,
            timeout_ms,
            Exchange { sent: Ok(status), read: Ok(bytes) },
        ) == Some(Ok::<Seq<u8>, Seq<char>>(bytes)),
{
    reveal_with_fuel(drive, 3);
}

/// Where the response does not signal success, the relay returns the error
/// that names the status, and the body has no part in it: the body is never
/// asked for, and the result is the same whatever reading it would have given.
pub proof fn lemma_failure_status_hides_body(
    url: Seq<char>,
    method: Seq<char>,
    headers: Option<Map<String, String>>,
    body: Option<Seq<char>>,
    timeout_ms: Option<u64>,
    status: Status,
    read: Result<Seq<u8>, Seq<char>>,
)
    requires
        method_of(method) is Some,
        !status.success(),
    ensures
        relay(url, method, headers, body, timeout_ms, Exchange { sent: Ok(status), read }) == Some(
            Err::<Seq<u8>, Seq<char>>(failed_status_message(status_line(status.code()))),
        ),
        next_step(Phase::Sending, EventView::Responded(status)) matches Some((phase, action))
            && phase == Phase::Done && action is Finish,
{
    reveal_with_fuel(drive, 3);
}

/// The error for a failed status mentions the status code: after the fixed
/// opening come the three digits of the code.
pub proof fn lemma_failure_message_names_code(status: Status, line: Seq<char>)
    requires
        code_prefix(status.code()).is_prefix_of(line),
    ensures
        ("Request failed with status: "@ + code_prefix(status.code())).is_prefix_of(
            failed_status_message(line),
        ),
{
}

/// Where sending fails (the host cannot be reached, the URL is refused, the
/// time runs out), the relay returns the transport's description of the
/// failure as the error, unchanged, and no body has a part in it.
pub proof fn lemma_send_failure_is_reported(
    url: Seq<char>,
    method: Seq<char>,
    headers: Option<Map<String, String>>,
    body: Option<Seq<char>>,
    timeout_ms: Option<u64>,
    description: Seq<char>,
    read: Result<Seq<u8>, Seq<char>>,
)
    requires
        method_of(method) is Some,
    ensures
        relay(url, method, headers, body, timeout_ms, Exchange { sent: Err(description), read })
            == Some(Err::<Seq<u8>, Seq<char>>(description)),
{
    reveal_with_fuel(drive, 3);
}

/// Where the response signals success but reading its body fails, the relay
/// returns the transport's description of that failure as the error.
pub proof fn lemma_read_failure_is_reported(
    url: Seq<char>,
    method: Seq<char>,
    headers: Option<Map<String, String>>,
    body: Option<Seq<char>>,
    timeout_ms: Option<u64>,
    status: Status,
    description: Seq<char>,
)
    requires
        method_of(method) is Some,
        status.success(),
    ensures
        relay(
            url,
            method,
            headers,
            body,
            timeout_ms,
            Exchange { sent: Ok(status), read: Err(description) },
        ) == Some(Err::<Seq<u8>, Seq<char>>(description)),
{
    reveal_with_fuel(drive, 3);
}

/// A relay sends at most one request: exactly one where the method is
/// supported, and no step ever asks for another.
pub proof fn lemma_one_request(
    url: Seq<char>,
    method: Seq<char>,
    headers: Option<Map<String, String>>,
    body: Option<Seq<char>>,
    timeout_ms: Option<u64>,
    exchange: Exchange,
)
    ensures
        forall|phase: Phase, event: EventView| #[trigger]
            next_step(phase, event) matches Some((_, action)) ==> !(action is Send),
        sends(
            first_step(url, method, headers, body, timeout_ms).0,
            first_step(url, method, headers, body, timeout_ms).1,
            exchange,
            2,
        ) == (if method_of(method) is Some {
            1nat
        } else {
            0nat
        }),
{
    reveal_with_fuel(sends, 3);
}

/// Once a relay is done, no event moves it.
pub proof fn lemma_done_is_final(event: EventView)
    ensures
        next_step(Phase::Done, event) is None,
{
}

} // verus!
