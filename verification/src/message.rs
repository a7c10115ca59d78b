//! Requests and responses as the host keeps them, and the one-shot channel
//! that carries trailers from a sender to a receiver.

use futures::channel::oneshot::{Canceled, Receiver, Sender};
use vstd::prelude::*;
use wasmtime_wasi::InputStream;

use crate::fields::{Entries, Fields};
use crate::options::RequestOptions;

verus! {

#[verifier::external_type_specification]
#[verifier::external_body]
pub struct ExInputStream(InputStream);

#[verifier::external_type_specification]
#[verifier::external_body]
#[verifier::reject_recursive_types(T)]
pub struct ExSender<T>(Sender<T>);

#[verifier::external_type_specification]
#[verifier::external_body]
#[verifier::reject_recursive_types(T)]
pub struct ExReceiver<T>(Receiver<T>);

/// Declared because the receiving end's `Future` implementation names it.
#[verifier::external_type_specification]
#[verifier::external_body]
pub struct ExCanceled(Canceled);

/// An HTTP method.
#[derive(Clone, Debug)]
pub enum Method {
    Get,
    Head,
    Post,
    Put,
    Delete,
    Connect,
    Options,
    Trace,
    Patch,
    Other(String),
}

/// The abstract value of a `Method`.
pub enum MethodView {
    Get,
    Head,
    Post,
    Put,
    Delete,
    Connect,
    Options,
    Trace,
    Patch,
    Other(Seq<char>),
}

impl View for Method {
    type V = MethodView;

    open spec fn view(&self) -> MethodView {
        match self {
            Method::Get => MethodView::Get,
            Method::Head => MethodView::Head,
            Method::Post => MethodView::Post,
            Method::Put => MethodView::Put,
            Method::Delete => MethodView::Delete,
            Method::Connect => MethodView::Connect,
            Method::Options => MethodView::Options,
            Method::Trace => MethodView::Trace,
            Method::Patch => MethodView::Patch,
            Method::Other(name) => MethodView::Other(name@),
        }
    }
}

impl Method {
    /// A copy of this method.
    pub fn copied(&self) -> (copy: Method)
        ensures
            copy@ == self@,
    {
        match self {
            Method::Get => Method::Get,
            Method::Head => Method::Head,
            Method::Post => Method::Post,
            Method::Put => Method::Put,
            Method::Delete => Method::Delete,
            Method::Connect => Method::Connect,
            Method::Options => Method::Options,
            Method::Trace => Method::Trace,
            Method::Patch => Method::Patch,
            Method::Other(name) => Method::Other(name.clone()),
        }
    }
}

/// A URI scheme.
#[derive(Clone, Debug)]
pub enum Scheme {
    Http,
    Https,
    Other(String),
}

/// The abstract value of a `Scheme`.
pub enum SchemeView {
    Http,
    Https,
    Other(Seq<char>),
}

impl View for Scheme {
    type V = SchemeView;

    open spec fn view(&self) -> SchemeView {
        match self {
            Scheme::Http => SchemeView::Http,
            Scheme::Https => SchemeView::Https,
            Scheme::Other(name) => SchemeView::Other(name@),
        }
    }
}

impl Scheme {
    /// A copy of this scheme.
    pub fn copied(&self) -> (copy: Scheme)
        ensures
            copy@ == self@,
    {
        match self {
            Scheme::Http => Scheme::Http,
            Scheme::Https => Scheme::Https,
            Scheme::Other(name) => Scheme::Other(name.clone()),
        }
    }
}

/// An optional scheme taken by its view.
pub open spec fn scheme_view(scheme: Option<Scheme>) -> Option<SchemeView> {
    match scheme {
        Some(s) => Some(s@),
        None => None,
    }
}

/// An optional string taken by its view.
pub open spec fn text_view(text: Option<String>) -> Option<Seq<char>> {
    match text {
        Some(s) => Some(s@),
        None => None,
    }
}

/// A copy of an optional scheme.
pub fn copy_scheme(scheme: &Option<Scheme>) -> (copy: Option<Scheme>)
    ensures
        scheme_view(copy) == scheme_view(*scheme),
{
    match scheme {
        Some(s) => Some(s.copied()),
        None => None,
    }
}

/// A copy of an optional string.
pub fn copy_text(text: &Option<String>) -> (copy: Option<String>)
    ensures
        text_view(copy) == text_view(*text),
{
    match text {
        Some(s) => Some(s.clone()),
        None => None,
    }
}

/// The sending end of a channel that carries one set of trailers, with the
/// identity of its channel, which only `open_trailer_channel` gives.
pub struct FieldsSender(pub Sender<Fields>, Ghost<int>);

/// The receiving end of a channel that carries one set of trailers, with the
/// identity of its channel, which only `open_trailer_channel` gives.
pub struct FieldsReceiver(pub Receiver<Fields>, Ghost<int>);

impl FieldsSender {
    /// The identity of the channel this end belongs to.
    pub closed spec fn channel(&self) -> int {
        self.1@
    }
}

impl FieldsReceiver {
    /// The identity of the channel this end belongs to.
    pub closed spec fn channel(&self) -> int {
        self.1@
    }
}

/// The channel identity of an optional receiver.
pub open spec fn channel_of(receiver: Option<FieldsReceiver>) -> Option<int> {
    match receiver {
        Some(r) => Some(r.channel()),
        None => None,
    }
}

/// Opens a channel for one set of trailers.
///
/// Trusted: calls `futures::channel::oneshot::channel`, whose two ends share
/// one inner state; both ends are given the same channel identity. Nothing
/// else is stated of them.
#[verifier::external_body]
pub(crate) fn open_trailer_channel() -> (ends: (FieldsSender, FieldsReceiver))
    ensures
        ends.0.channel() == ends.1.channel(),
{
    let (sender, receiver) = futures::channel::oneshot::channel();
    let channel = Ghost(0int);
    (FieldsSender(sender, channel), FieldsReceiver(receiver, channel))
}

/// Hands `fields` to the receiving end of `sender`'s channel.
///
/// Trusted: calls `futures::channel::oneshot::Sender::send` and discards its
/// result, which only says whether the receiving end was still there; nothing
/// is stated of the channel.
#[verifier::external_body]
pub(crate) fn deliver_trailers(sender: FieldsSender, fields: Fields) {
    let _ = sender.0.send(fields);
}

/// An incoming or outgoing request as the host keeps it.
pub struct Request {
    pub method: Method,
    pub scheme: Option<Scheme>,
    pub path_with_query: Option<String>,
    pub authority: Option<String>,
    pub headers: Fields,
    pub body: Option<InputStream>,
    pub trailers: Option<FieldsReceiver>,
    pub options: Option<RequestOptions>,
}

/// The abstract value of a `Request`: the body stream is kept as the opaque
/// value it is; of the trailer receiver its channel identity is kept.
pub struct RequestView {
    pub method: MethodView,
    pub scheme: Option<SchemeView>,
    pub path_with_query: Option<Seq<char>>,
    pub authority: Option<Seq<char>>,
    pub headers: Entries,
    pub body: Option<InputStream>,
    pub trailers: Option<int>,
    pub options: Option<RequestOptions>,
}

impl View for Request {
    type V = RequestView;

    open spec fn view(&self) -> RequestView {
        RequestView {
            method: self.method@,
            scheme: scheme_view(self.scheme),
            path_with_query: text_view(self.path_with_query),
            authority: text_view(self.authority),
            headers: self.headers@,
            body: self.body,
            trailers: channel_of(self.trailers),
            options: self.options,
        }
    }
}

/// A request as it is first made: method GET, no scheme, path or authority,
/// the given headers, body, trailer channel and options.
pub open spec fn fresh_request(
    headers: Entries,
    body: InputStream,
    trailers: Option<int>,
    options: Option<RequestOptions>,
) -> RequestView {
    RequestView {
        method: MethodView::Get,
        scheme: None,
        path_with_query: None,
        authority: None,
        headers,
        body: Some(body),
        trailers,
        options,
    }
}

impl Request {
    /// A request with method GET, no scheme, path or authority, and the given
    /// headers, body, trailers and options.
    pub fn new(
        headers: Fields,
        body: InputStream,
        trailers: Option<FieldsReceiver>,
        options: Option<RequestOptions>,
    ) -> (request: Request)
        ensures
            request@ == fresh_request(headers@, body, channel_of(trailers), options),
    {
        Request {
            method: Method::Get,
            scheme: None,
            path_with_query: None,
            authority: None,
            headers,
            body: Some(body),
            trailers,
            options,
        }
    }
}

/// An incoming or outgoing response as the host keeps it.
pub struct Response {
    pub status_code: u16,
    pub headers: Fields,
    pub body: Option<InputStream>,
    pub trailers: Option<FieldsReceiver>,
}

/// The abstract value of a `Response`: the body stream is kept as the opaque
/// value it is; of the trailer receiver its channel identity is kept.
pub struct ResponseView {
    pub status_code: u16,
    pub headers: Entries,
    pub body: Option<InputStream>,
    pub trailers: Option<int>,
}

impl View for Response {
    type V = ResponseView;

    open spec fn view(&self) -> ResponseView {
        ResponseView {
            status_code: self.status_code,
            headers: self.headers@,
            body: self.body,
            trailers: channel_of(self.trailers),
        }
    }
}

/// A response as it is first made: status 200, and the given headers, body
/// and trailer channel.
pub open spec fn fresh_response(headers: Entries, body: InputStream, trailers: Option<int>) -> ResponseView {
    ResponseView { status_code: 200, headers, body: Some(body), trailers }
}

impl Response {
    /// A response with status 200 and the given headers, body and trailers.
    pub fn new(headers: Fields, body: InputStream, trailers: Option<FieldsReceiver>) -> (response:
        Response)
        ensures
            response@ == fresh_response(headers@, body, channel_of(trailers)),
    {
        Response { status_code: 200, headers, body: Some(body), trailers }
    }
}

} // verus!
