use edge_router::machine::{begin, step, Action, Event, State};
use edge_router::message::{
    AdapterError, BodyKind, CanonicalRequest, CanonicalResponse, Method, OutboundResponse,
    RequestHead,
};

fn head(method: Method, path: &str) -> RequestHead {
    RequestHead { method, path: path.to_string() }
}

fn events() -> Vec<Event> {
    vec![
        Event::LookedUp(false),
        Event::LookedUp(true),
        Event::BodyRead(vec![1, 2]),
        Event::HandlerReturned(CanonicalResponse { status: 200, body: vec![3] }),
        Event::HandlerFailed("boom".to_string()),
    ]
}

#[test]
fn begin_asks_for_the_key() {
    let (state, action) = begin("/api", head(Method::Get, "/api/hello"));
    assert_eq!(state, State::AwaitingLookup(head(Method::Get, "/api/hello")));
    assert_eq!(action, Action::Lookup("/hello".to_string()));
}

#[test]
fn begin_asks_for_the_path_without_the_prefix() {
    let (state, action) = begin("/api", head(Method::Delete, "/other"));
    assert_eq!(state, State::AwaitingLookup(head(Method::Delete, "/other")));
    assert_eq!(action, Action::Lookup("/other".to_string()));
}

#[test]
fn miss_finishes_with_not_found() {
    let next = step(State::AwaitingLookup(head(Method::Post, "/api/x")), Event::LookedUp(false));
    assert_eq!(
        next,
        Some((
            State::Finished,
            Action::Respond(OutboundResponse {
                status: 404,
                kind: BodyKind::Html,
                body: b"Not found".to_vec()
            })
        ))
    );
}

#[test]
fn hit_asks_for_the_body() {
    let next = step(State::AwaitingLookup(head(Method::Post, "/api/x")), Event::LookedUp(true));
    assert_eq!(next, Some((State::AwaitingBody(head(Method::Post, "/api/x")), Action::ReadBody)));
}

#[test]
fn body_calls_for_the_handler() {
    let next = step(State::AwaitingBody(head(Method::Post, "/api/x")), Event::BodyRead(vec![5, 6]));
    assert_eq!(
        next,
        Some((
            State::Invoking,
            Action::Invoke(CanonicalRequest {
                method: Method::Post,
                uri: "/api/x".to_string(),
                body: vec![5, 6]
            })
        ))
    );
}

#[test]
fn body_for_a_path_that_is_no_uri_stops_the_machine() {
    assert_eq!(step(State::AwaitingBody(head(Method::Get, "/a b")), Event::BodyRead(vec![])), None);
    assert_eq!(step(State::AwaitingBody(head(Method::Get, "")), Event::BodyRead(vec![1])), None);
}

#[test]
fn handler_response_finishes_the_exchange() {
    let event = Event::HandlerReturned(CanonicalResponse { status: 503, body: b"down".to_vec() });
    assert_eq!(
        step(State::Invoking, event),
        Some((
            State::Finished,
            Action::Respond(OutboundResponse {
                status: 503,
                kind: BodyKind::Bytes,
                body: b"down".to_vec()
            })
        ))
    );
}

#[test]
fn handler_error_finishes_the_exchange() {
    assert_eq!(
        step(State::Invoking, Event::HandlerFailed("boom".to_string())),
        Some((State::Finished, Action::Fail(AdapterError { message: "boom".to_string() })))
    );
}

#[test]
fn finished_takes_no_step() {
    for event in events() {
        assert_eq!(step(State::Finished, event), None);
    }
}

#[test]
fn events_out_of_turn_give_no_step() {
    for (index, event) in events().into_iter().enumerate() {
        let fits_lookup = index < 2;
        let fits_body = index == 2;
        let fits_invoking = index > 2;
        let lookup = step(State::AwaitingLookup(head(Method::Get, "/x")), event.clone());
        assert_eq!(lookup.is_some(), fits_lookup);
        let body = step(State::AwaitingBody(head(Method::Get, "/x")), event.clone());
        assert_eq!(body.is_some(), fits_body);
        let invoking = step(State::Invoking, event);
        assert_eq!(invoking.is_some(), fits_invoking);
    }
}
