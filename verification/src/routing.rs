//! What routing comes to, stated against a registry.
//!
//! Here a registry is a table from lookup keys to handlers, and a handler a
//! function from the request it is given to what it returns. The machine of
//! this library never sees such a table: its driver asks the registry and runs
//! the handler. This module says what an exchange comes to when the driver's
//! answers are those of one table.

use vstd::prelude::*;
use crate::exchange::{canonical_request_of, outcome_of, HandlerResultView, OutcomeView};
use crate::key::route_key_of;
use crate::machine::{closing_action, last_action, ActionView};
use crate::message::{
    CanonicalRequestView, CanonicalResponseView, OutboundResponseView, RequestHeadView,
    not_found_text, not_found_view,
};
use crate::uri::uri_parses;

verus! {

/// A handler, taken as a function from the request it is given to what it
/// returns.
pub type HandlerModel = spec_fn(CanonicalRequestView) -> HandlerResultView;

/// A registry, taken as a table from lookup keys to handlers.
pub type RegistryModel = Map<Seq<char>, HandlerModel>;

/// The outcome of routing one request against a registry: the not-found
/// response where the registry holds nothing under the path's key, else what
/// the handler under that key makes of the canonical request. There is no
/// outcome where a handler is registered and the inbound path cannot stand as
/// the URI of a canonical request.
pub open spec fn routed(
    prefix: Seq<char>,
    head: RequestHeadView,
    body: Seq<u8>,
    registry: RegistryModel,
) -> Option<OutcomeView> {
    let key = route_key_of(prefix, head.path);
    if !registry.contains_key(key) {
        Some(Ok(not_found_view()))
    } else if uri_parses(head.path) {
        Some(outcome_of(registry[key](canonical_request_of(head, body))))
    } else {
        None
    }
}

/// The registry's answer `found` and the handler's result `result` are those
/// that `registry` gives for this request. On a miss no handler runs, and
/// `result` is left open.
pub open spec fn answers_come_from(
    registry: RegistryModel,
    prefix: Seq<char>,
    head: RequestHeadView,
    body: Seq<u8>,
    found: bool,
    result: HandlerResultView,
) -> bool {
    let key = route_key_of(prefix, head.path);
    &&& found == registry.contains_key(key)
    &&& found ==> result == registry[key](canonical_request_of(head, body))
}

/// The action that ends an exchange with a given outcome, where there is one.
pub open spec fn closing_of(outcome: Option<OutcomeView>) -> Option<ActionView> {
    match outcome {
        Some(outcome) => Some(closing_action(outcome)),
        None => None,
    }
}

/// Driven with the answers of a registry, the machine ends on the outcome that
/// `routed` gives, and gets to no end where `routed` gives none.
pub proof fn lemma_machine_follows_registry(
    prefix: Seq<char>,
    head: RequestHeadView,
    body: Seq<u8>,
    registry: RegistryModel,
    found: bool,
    result: HandlerResultView,
)
    requires
        answers_come_from(registry, prefix, head, body, found, result),
    ensures
        last_action(head, found, body, result) == closing_of(
            routed(prefix, head, body, registry),
        ),
{
}

/// Where the registry holds nothing under the path's key, the exchange ends
/// with status 404 and the text `Not found`, whatever the method and the body.
pub proof fn lemma_miss_is_not_found(
    prefix: Seq<char>,
    head: RequestHeadView,
    body: Seq<u8>,
    registry: RegistryModel,
)
    requires
        !registry.contains_key(route_key_of(prefix, head.path)),
    ensures
        routed(prefix, head, body, registry) == Some(
            Ok::<OutboundResponseView, Seq<char>>(not_found_view()),
        ),
        not_found_view().status == 404,
        not_found_view().body == not_found_text(),
{
}

/// Where the registry holds a handler under the path's key and that handler
/// returns a response, the exchange ends with a response of the same status
/// and the same body, byte for byte. It has no end only where the inbound path
/// cannot stand as a URI.
pub proof fn lemma_hit_keeps_status_and_body(
    prefix: Seq<char>,
    head: RequestHeadView,
    body: Seq<u8>,
    registry: RegistryModel,
    response: CanonicalResponseView,
)
    requires
        registry.contains_key(route_key_of(prefix, head.path)),
        registry[route_key_of(prefix, head.path)](canonical_request_of(head, body)) == Ok::<
            CanonicalResponseView,
            Seq<char>,
        >(response),
    ensures
        routed(prefix, head, body, registry) is Some <==> uri_parses(head.path),
        routed(prefix, head, body, registry) matches Some(outcome) ==> {
            &&& outcome is Ok
            &&& outcome->Ok_0.status == response.status
            &&& outcome->Ok_0.body == response.body
        },
{
}

/// Where the handler under the path's key fails, the exchange ends with an
/// error that carries the handler's text, and with no response. It has no end
/// only where the inbound path cannot stand as a URI.
pub proof fn lemma_hit_surfaces_handler_error(
    prefix: Seq<char>,
    head: RequestHeadView,
    body: Seq<u8>,
    registry: RegistryModel,
    message: Seq<char>,
)
    requires
        registry.contains_key(route_key_of(prefix, head.path)),
        registry[route_key_of(prefix, head.path)](canonical_request_of(head, body)) == Err::<
            CanonicalResponseView,
            Seq<char>,
        >(message),
    ensures
        routed(prefix, head, body, registry) is Some <==> uri_parses(head.path),
        routed(prefix, head, body, registry) matches Some(outcome) ==> outcome == Err::<
            OutboundResponseView,
            Seq<char>,
        >(message),
{
}

/// Routing the same request twice against the same registry ends the same
/// way twice: an exchange leaves nothing behind that a later one could read.
pub proof fn lemma_routing_repeats(
    prefix: Seq<char>,
    head: RequestHeadView,
    body: Seq<u8>,
    registry: RegistryModel,
    first_found: bool,
    first_result: HandlerResultView,
    second_found: bool,
    second_result: HandlerResultView,
)
    requires
        answers_come_from(registry, prefix, head, body, first_found, first_result),
        answers_come_from(registry, prefix, head, body, second_found, second_result),
    ensures
        last_action(head, first_found, body, first_result) == last_action(
            head,
            second_found,
            body,
            second_result,
        ),
{
}

} // verus!
