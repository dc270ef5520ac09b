//! One exchange, decision by decision.
//!
//! An exchange begins with the lookup key of the inbound path. Once the
//! registry has answered, [`after_lookup`] says whether the exchange ends with
//! the fixed not-found response or goes on to read the body. With the body
//! read, [`try_canonical_request`] shapes the request for the handler, and
//! [`after_handler`] turns what the handler returned into the outcome of the
//! exchange.

use vstd::prelude::*;
use crate::message::{
    AdapterError, BodyKind, CanonicalRequest, CanonicalRequestView, CanonicalResponse,
    CanonicalResponseView, OutboundResponse, OutboundResponseView, RequestHead, RequestHeadView,
    not_found_view,
};
use crate::uri::{parses_as_uri, uri_parses};

verus! {

/// What follows the registry's answer.
#[derive(Clone, Debug, PartialEq, Eq)]
pub enum LookupStep {
    /// No handler is registered: the exchange ends with this response.
    Respond(OutboundResponse),
    /// A handler is registered: the body is to be read next.
    ReadBody,
}

/// The model of a [`LookupStep`].
pub enum LookupStepView {
    Respond(OutboundResponseView),
    ReadBody,
}

impl View for LookupStep {
    type V = LookupStepView;

    open spec fn view(&self) -> LookupStepView {
        match self {
            LookupStep::Respond(response) => LookupStepView::Respond(response@),
            LookupStep::ReadBody => LookupStepView::ReadBody,
        }
    }
}

/// The step that follows the registry's answer: the not-found response on a
/// miss, reading the body on a hit.
pub open spec fn lookup_step_of(found: bool) -> LookupStepView {
    if found {
        LookupStepView::ReadBody
    } else {
        LookupStepView::Respond(not_found_view())
    }
}

/// Decides what follows the registry's answer. A miss is a normal outcome: it
/// ends the exchange with the not-found response, whatever the request held.
pub fn after_lookup(found: bool) -> (step: LookupStep)
    ensures
        step@ == lookup_step_of(found),
{
    if found {
        LookupStep::ReadBody
    } else {
        LookupStep::Respond(OutboundResponse::not_found())
    }
}

/// The request handed to the handler: the inbound method, the inbound path as
/// it came (not the lookup key), and the body.
pub open spec fn canonical_request_of(head: RequestHeadView, body: Seq<u8>) -> CanonicalRequestView {
    CanonicalRequestView { method: head.method, uri: head.path, body }
}

/// Shapes the request for the handler, for a path that can stand as a URI.
pub fn canonical_request(head: RequestHead, body: Vec<u8>) -> (request: CanonicalRequest)
    requires
        uri_parses(head.path@),
    ensures
        request@ == canonical_request_of(head@, body@),
{
    CanonicalRequest { method: head.method, uri: head.path, body }
}

/// Shapes the request for the handler, or gives `None` where the inbound path
/// cannot stand as a URI.
pub fn try_canonical_request(head: RequestHead, body: Vec<u8>) -> (request: Option<CanonicalRequest>)
    ensures
        request is Some <==> uri_parses(head.path@),
        request is Some ==> request->Some_0@ == canonical_request_of(head@, body@),
{
    if parses_as_uri(head.path.as_str()) {
        Some(canonical_request(head, body))
    } else {
        None
    }
}

/// What a handler returned: a response, or the text of its error.
pub type HandlerResultView = Result<CanonicalResponseView, Seq<char>>;

/// How an exchange ended: with a response, or with the text of an error for
/// the worker's runtime.
pub type OutcomeView = Result<OutboundResponseView, Seq<char>>;

/// The model of what a handler returned.
pub open spec fn handler_result_view(result: Result<CanonicalResponse, String>) -> HandlerResultView {
    match result {
        Ok(response) => Ok(response@),
        Err(message) => Err(message@),
    }
}

/// The model of how an exchange ended.
pub open spec fn outcome_view(outcome: Result<OutboundResponse, AdapterError>) -> OutcomeView {
    match outcome {
        Ok(response) => Ok(response@),
        Err(error) => Err(error@),
    }
}

/// The outcome of an exchange whose handler returned `result`: its status and
/// its body, unchanged, or its error text, unchanged.
pub open spec fn outcome_of(result: HandlerResultView) -> OutcomeView {
    match result {
        Ok(response) => Ok(
            OutboundResponseView {
                status: response.status,
                kind: BodyKind::Bytes,
                body: response.body,
            },
        ),
        Err(message) => Err(message),
    }
}

/// Turns what the handler returned into the outcome of the exchange. A
/// handler's response keeps its status and its body; a handler's error becomes
/// an error of the adapter with the same text, and no response.
pub fn after_handler(result: Result<CanonicalResponse, String>) -> (outcome: Result<
    OutboundResponse,
    AdapterError,
>)
    ensures
        outcome_view(outcome) == outcome_of(handler_result_view(result)),
{
    match result {
        Ok(response) => Ok(
            OutboundResponse { status: response.status, kind: BodyKind::Bytes, body: response.body },
        ),
        Err(message) => Err(AdapterError { message }),
    }
}

/// The outcome of an exchange, given what the registry answered and what the
/// handler returned. On a miss the handler's result plays no part.
pub open spec fn exchange_outcome(found: bool, result: HandlerResultView) -> OutcomeView {
    match lookup_step_of(found) {
        LookupStepView::Respond(response) => Ok(response),
        LookupStepView::ReadBody => outcome_of(result),
    }
}

} // verus!
