//! One exchange as a machine: from a state and an event to the next state and
//! the action to take.
//!
//! The machine does no work of its own. Its driver performs each action (asks
//! the registry, reads the body, runs the handler, delivers the response or
//! raises the error) and hands back what came of it as the next event.

use vstd::prelude::*;
use crate::exchange::{
    after_handler, after_lookup, canonical_request_of, exchange_outcome, lookup_step_of,
    outcome_of, outcome_view, try_canonical_request, HandlerResultView, LookupStep,
    LookupStepView, OutcomeView,
};
use crate::key::{route_key, route_key_of};
use crate::message::{
    AdapterError, CanonicalRequest, CanonicalRequestView, CanonicalResponse, OutboundResponse,
    OutboundResponseView, RequestHead, RequestHeadView, not_found_view,
};
use crate::uri::uri_parses;

verus! {

/// Where an exchange stands.
#[derive(Clone, Debug, PartialEq, Eq)]
pub enum State {
    /// The registry has been asked for the key of this request.
    AwaitingLookup(RequestHead),
    /// A handler is registered, and the body of this request is being read.
    AwaitingBody(RequestHead),
    /// The handler is running.
    Invoking,
    /// The exchange is over.
    Finished,
}

/// The model of a [`State`].
pub enum StateView {
    AwaitingLookup(RequestHeadView),
    AwaitingBody(RequestHeadView),
    Invoking,
    Finished,
}

impl View for State {
    type V = StateView;

    open spec fn view(&self) -> StateView {
        match self {
            State::AwaitingLookup(head) => StateView::AwaitingLookup(head@),
            State::AwaitingBody(head) => StateView::AwaitingBody(head@),
            State::Invoking => StateView::Invoking,
            State::Finished => StateView::Finished,
        }
    }
}

/// What the driver reports back.
#[derive(Clone, Debug, PartialEq, Eq)]
pub enum Event {
    /// The registry has answered: a handler is registered under the key, or
    /// none is.
    LookedUp(bool),
    /// The body has been read in full.
    BodyRead(Vec<u8>),
    /// The handler has returned this response.
    HandlerReturned(CanonicalResponse),
    /// The handler has failed with an error of this text.
    HandlerFailed(String),
}

/// The model of an [`Event`].
pub enum EventView {
    LookedUp(bool),
    BodyRead(Seq<u8>),
    HandlerDone(HandlerResultView),
}

impl View for Event {
    type V = EventView;

    open spec fn view(&self) -> EventView {
        match self {
            Event::LookedUp(found) => EventView::LookedUp(*found),
            Event::BodyRead(body) => EventView::BodyRead(body@),
            Event::HandlerReturned(response) => EventView::HandlerDone(Ok(response@)),
            Event::HandlerFailed(message) => EventView::HandlerDone(Err(message@)),
        }
    }
}

/// What the driver is to do next.
#[derive(Clone, Debug, PartialEq, Eq)]
pub enum Action {
    /// Ask the registry for the handler under this key.
    Lookup(String),
    /// Read the body of the request.
    ReadBody,
    /// Run the handler that was found on this request.
    Invoke(CanonicalRequest),
    /// Deliver this response: the exchange is over.
    Respond(OutboundResponse),
    /// Raise this error: the exchange is over, and nothing is delivered.
    Fail(AdapterError),
}

/// The model of an [`Action`].
pub enum ActionView {
    Lookup(Seq<char>),
    ReadBody,
    Invoke(CanonicalRequestView),
    Respond(OutboundResponseView),
    Fail(Seq<char>),
}

impl View for Action {
    type V = ActionView;

    open spec fn view(&self) -> ActionView {
        match self {
            Action::Lookup(key) => ActionView::Lookup(key@),
            Action::ReadBody => ActionView::ReadBody,
            Action::Invoke(request) => ActionView::Invoke(request@),
            Action::Respond(response) => ActionView::Respond(response@),
            Action::Fail(error) => ActionView::Fail(error@),
        }
    }
}

/// The model of what a step gave.
pub open spec fn step_view(next: Option<(State, Action)>) -> Option<(StateView, ActionView)> {
    match next {
        Some((state, action)) => Some((state@, action@)),
        None => None,
    }
}

/// The action that ends an exchange with a given outcome.
pub open spec fn closing_action(outcome: OutcomeView) -> ActionView {
    match outcome {
        Ok(response) => ActionView::Respond(response),
        Err(message) => ActionView::Fail(message),
    }
}

/// The first move of an exchange: the registry is to be asked for the key of
/// the inbound path.
pub open spec fn begin_of(prefix: Seq<char>, head: RequestHeadView) -> (StateView, ActionView) {
    (StateView::AwaitingLookup(head), ActionView::Lookup(route_key_of(prefix, head.path)))
}

/// The move that an event causes in a state, or `None` where there is none:
/// where the state does not await that event, or where a body arrives for a
/// path that cannot stand as the URI of a canonical request.
pub open spec fn step_of(state: StateView, event: EventView) -> Option<(StateView, ActionView)> {
    match (state, event) {
        (StateView::AwaitingLookup(head), EventView::LookedUp(found)) => match lookup_step_of(
            found,
        ) {
            LookupStepView::Respond(response) => Some(
                (StateView::Finished, ActionView::Respond(response)),
            ),
            LookupStepView::ReadBody => Some((StateView::AwaitingBody(head), ActionView::ReadBody)),
        },
        (StateView::AwaitingBody(head), EventView::BodyRead(body)) => if uri_parses(head.path) {
            Some((StateView::Invoking, ActionView::Invoke(canonical_request_of(head, body))))
        } else {
            None
        },
        (StateView::Invoking, EventView::HandlerDone(result)) => Some(
            (StateView::Finished, closing_action(outcome_of(result))),
        ),
        _ => None,
    }
}

/// The action that ends an exchange with `outcome`.
fn closing(outcome: Result<OutboundResponse, AdapterError>) -> (action: Action)
    ensures
        action@ == closing_action(outcome_view(outcome)),
{
    match outcome {
        Ok(response) => Action::Respond(response),
        Err(error) => Action::Fail(error),
    }
}

/// Opens an exchange on an inbound request under the route prefix `prefix`.
pub fn begin(prefix: &str, head: RequestHead) -> (first: (State, Action))
    ensures
        (first.0@, first.1@) == begin_of(prefix@, head@),
{
    let key = route_key(prefix, head.path.as_str());
    (State::AwaitingLookup(head), Action::Lookup(key))
}

/// Takes one step of an exchange.
///
/// A miss ends the exchange with the not-found response; a hit asks for the
/// body; the body calls for the handler, on the request as it came; the
/// handler's result ends the exchange with its response or with its error.
pub fn step(state: State, event: Event) -> (next: Option<(State, Action)>)
    ensures
        step_view(next) == step_of(state@, event@),
{
    match state {
        State::AwaitingLookup(head) => match event {
            Event::LookedUp(found) => match after_lookup(found) {
                LookupStep::Respond(response) => Some((State::Finished, Action::Respond(response))),
                LookupStep::ReadBody => Some((State::AwaitingBody(head), Action::ReadBody)),
            },
            _ => None,
        },
        State::AwaitingBody(head) => match event {
            Event::BodyRead(body) => match try_canonical_request(head, body) {
                Some(request) => Some((State::Invoking, Action::Invoke(request))),
                None => None,
            },
            _ => None,
        },
        State::Invoking => match event {
            Event::HandlerReturned(response) => Some(
                (State::Finished, closing(after_handler(Ok(response)))),
            ),
            Event::HandlerFailed(message) => Some(
                (State::Finished, closing(after_handler(Err(message)))),
            ),
            _ => None,
        },
        State::Finished => None,
    }
}

/// The action on which the machine ends when it is driven from its first state
/// with the registry's answer `found`, the body `body` and, on a hit, the
/// handler's result `result`; `None` where it does not get that far.
pub open spec fn last_action(
    head: RequestHeadView,
    found: bool,
    body: Seq<u8>,
    result: HandlerResultView,
) -> Option<ActionView> {
    match step_of(StateView::AwaitingLookup(head), EventView::LookedUp(found)) {
        Some((StateView::Finished, action)) => Some(action),
        Some((awaiting_body, _)) => match step_of(awaiting_body, EventView::BodyRead(body)) {
            Some((invoking, _)) => match step_of(invoking, EventView::HandlerDone(result)) {
                Some((_, action)) => Some(action),
                None => None,
            },
            None => None,
        },
        None => None,
    }
}

/// A finished exchange takes no further step, whatever is reported to it.
pub proof fn lemma_finished_is_final(event: EventView)
    ensures
        step_of(StateView::Finished, event) is None,
{
}

/// A step that ends an exchange delivers a response or raises an error, and
/// only such a step does.
pub proof fn lemma_exchange_ends_with_outcome(state: StateView, event: EventView)
    requires
        step_of(state, event) is Some,
    ensures
        step_of(state, event)->Some_0.0 is Finished <==> (step_of(state, event)->Some_0.1 is Respond
            || step_of(state, event)->Some_0.1 is Fail),
{
}

/// A miss ends the exchange at once with the not-found response: the body is
/// not read and no handler runs, whatever the request holds.
pub proof fn lemma_miss_ends_at_once(head: RequestHeadView)
    ensures
        step_of(StateView::AwaitingLookup(head), EventView::LookedUp(false)) == Some(
            (StateView::Finished, ActionView::Respond(not_found_view())),
        ),
{
}

/// Driven to its end, the machine closes with the outcome of the exchange: on a
/// miss always, on a hit where the inbound path can stand as a URI. On a hit
/// with another path it stops when the body arrives.
pub proof fn lemma_machine_reaches_outcome(
    head: RequestHeadView,
    found: bool,
    body: Seq<u8>,
    result: HandlerResultView,
)
    ensures
        !found || uri_parses(head.path) ==> last_action(head, found, body, result) == Some(
            closing_action(exchange_outcome(found, result)),
        ),
        found && !uri_parses(head.path) ==> last_action(head, found, body, result) is None,
{
}

} // verus!
