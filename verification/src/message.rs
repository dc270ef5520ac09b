//! The values that pass through one exchange: the inbound request's head, the
//! request and response in the shape a handler works with, and the response or
//! error that leaves the worker.

use vstd::prelude::*;

verus! {

/// The verb of an inbound request.
#[derive(Clone, Copy, Debug, PartialEq, Eq, Structural)]
pub enum Method {
    Head,
    Get,
    Post,
    Put,
    Patch,
    Delete,
    Options,
    Connect,
    Trace,
    Report,
}

impl Method {
    /// The verb as it is written on the wire.
    pub open spec fn name(self) -> Seq<char> {
        match self {
            Method::Head => "HEAD"@,
            Method::Get => "GET"@,
            Method::Post => "POST"@,
            Method::Put => "PUT"@,
            Method::Patch => "PATCH"@,
            Method::Delete => "DELETE"@,
            Method::Options => "OPTIONS"@,
            Method::Connect => "CONNECT"@,
            Method::Trace => "TRACE"@,
            Method::Report => "REPORT"@,
        }
    }

    /// Writes the verb as a handler expects to read it.
    pub fn as_str(&self) -> (s: &'static str)
        ensures
            s@ == self.name(),
    {
        match self {
            Method::Head => "HEAD",
            Method::Get => "GET",
            Method::Post => "POST",
            Method::Put => "PUT",
            Method::Patch => "PATCH",
            Method::Delete => "DELETE",
            Method::Options => "OPTIONS",
            Method::Connect => "CONNECT",
            Method::Trace => "TRACE",
            Method::Report => "REPORT",
        }
    }
}

/// What is known of an inbound request before its body is read.
#[derive(Clone, Debug, PartialEq, Eq)]
pub struct RequestHead {
    pub method: Method,
    pub path: String,
}

/// The model of a [`RequestHead`].
pub struct RequestHeadView {
    pub method: Method,
    pub path: Seq<char>,
}

impl View for RequestHead {
    type V = RequestHeadView;

    open spec fn view(&self) -> RequestHeadView {
        RequestHeadView { method: self.method, path: self.path@ }
    }
}

/// The request in the shape a handler takes it.
#[derive(Clone, Debug, PartialEq, Eq)]
pub struct CanonicalRequest {
    pub method: Method,
    pub uri: String,
    pub body: Vec<u8>,
}

/// The model of a [`CanonicalRequest`].
pub struct CanonicalRequestView {
    pub method: Method,
    pub uri: Seq<char>,
    pub body: Seq<u8>,
}

impl View for CanonicalRequest {
    type V = CanonicalRequestView;

    open spec fn view(&self) -> CanonicalRequestView {
        CanonicalRequestView { method: self.method, uri: self.uri@, body: self.body@ }
    }
}

/// What a handler hands back when it succeeds, its body fully buffered.
#[derive(Clone, Debug, PartialEq, Eq)]
pub struct CanonicalResponse {
    pub status: u16,
    pub body: Vec<u8>,
}

/// The model of a [`CanonicalResponse`].
pub struct CanonicalResponseView {
    pub status: u16,
    pub body: Seq<u8>,
}

impl View for CanonicalResponse {
    type V = CanonicalResponseView;

    open spec fn view(&self) -> CanonicalResponseView {
        CanonicalResponseView { status: self.status, body: self.body@ }
    }
}

/// How the body of an outbound response is to be labelled.
#[derive(Clone, Copy, Debug, PartialEq, Eq, Structural)]
pub enum BodyKind {
    /// A page of HTML text.
    Html,
    /// Bytes of no stated kind.
    Bytes,
}

/// The response that leaves the worker.
#[derive(Clone, Debug, PartialEq, Eq)]
pub struct OutboundResponse {
    pub status: u16,
    pub kind: BodyKind,
    pub body: Vec<u8>,
}

/// The model of an [`OutboundResponse`].
pub struct OutboundResponseView {
    pub status: u16,
    pub kind: BodyKind,
    pub body: Seq<u8>,
}

impl View for OutboundResponse {
    type V = OutboundResponseView;

    open spec fn view(&self) -> OutboundResponseView {
        OutboundResponseView { status: self.status, kind: self.kind, body: self.body@ }
    }
}

/// The failure of a handler, as the worker's runtime gets to see it.
#[derive(Clone, Debug, PartialEq, Eq)]
pub struct AdapterError {
    pub message: String,
}

impl View for AdapterError {
    type V = Seq<char>;

    open spec fn view(&self) -> Seq<char> {
        self.message@
    }
}

/// The status of the response to a request that no handler is registered for.
pub const NOT_FOUND_STATUS: u16 = 404;

/// The bytes of the text `Not found`.
pub open spec fn not_found_text() -> Seq<u8> {
    seq![78u8, 111u8, 116u8, 32u8, 102u8, 111u8, 117u8, 110u8, 100u8]
}

/// The model of the response to a request that no handler is registered for.
pub open spec fn not_found_view() -> OutboundResponseView {
    OutboundResponseView { status: NOT_FOUND_STATUS, kind: BodyKind::Html, body: not_found_text() }
}

impl OutboundResponse {
    /// The response to a request that no handler is registered for: status
    /// 404 and the text `Not found`, as a page of HTML.
    pub fn not_found() -> (response: OutboundResponse)
        ensures
            response@ == not_found_view(),
    {
        let mut body: Vec<u8> = Vec::new();
        body.push(78u8);
        body.push(111u8);
        body.push(116u8);
        body.push(32u8);
        body.push(102u8);
        body.push(111u8);
        body.push(117u8);
        body.push(110u8);
        body.push(100u8);
        assert(body@ =~= not_found_text());
        OutboundResponse { status: NOT_FOUND_STATUS, kind: BodyKind::Html, body }
    }
}

} // verus!
