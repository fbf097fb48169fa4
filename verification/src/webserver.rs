//! Routes, the application, and the request-dispatch pipeline.
//!
//! The pipeline for one request: parse the request line, scan the route
//! table for the first `(method, path)` match in registration order, run
//! the matched route's handler, and encode the reply. A handler failure
//! escalates to the error route, a missing file to the not-found route,
//! and a fallback route that itself fails degrades to a built-in
//! zero-length reply — never to another fallback lookup, so failover is
//! bounded to one level.
//!
//! The dispatcher owns no socket and no file: it hands back an [`Outcome`]
//! that either carries the exact reply bytes, names a file the serving
//! loop must read first, or says to drop the connection unanswered.

use vstd::prelude::*;
use vstd::string::StringSliceAdditionalSpecFns;
use crate::request::RequestType;
use crate::request::parse_request_line;
use crate::request::spec_method;
use crate::request::spec_parse;
use crate::request::tokens;
use crate::request::bytes_equal;
use crate::response::StatusCode;
use crate::response::encode_empty;
use crate::response::encode_page;
use crate::response::encode_redirect;
use crate::response::lemma_built_in_reply_bytes;
use crate::response::spec_decimal;
use crate::response::spec_empty_reply;
use crate::response::spec_page_reply;
use crate::response::spec_redirect_reply;
use crate::response::spec_status_line;

verus! {

/// How a route's resource is served: as page text, as raw bytes, or as
/// a redirect to the locator.
#[derive(Clone, Copy, PartialEq, Eq, Structural, Debug)]
pub enum ResourceType {
    HTML,
    IMAGE,
    REDIRECT,
}

/// What a route's handler does when the route is hit: produce a response
/// descriptor, or fail with a message and escalate to the error path.
#[derive(Clone, Copy)]
pub enum Handler {
    Respond(StatusCode, &'static str),
    Fail(&'static str),
}

/// A response descriptor: the status to send and the resource locator —
/// a file path for page and binary kinds, a target for redirects. The
/// locator carries no promise that the file exists; that is found out
/// only when the file is read at serve time.
#[derive(Clone, Copy)]
pub struct Response {
    pub status_code: StatusCode,
    pub path: &'static str,
}

impl Response {
    pub fn new(status_code: StatusCode, path: &'static str) -> (r: Response)
        ensures
            r == (Response { status_code, path }),
    {
        Response { status_code, path }
    }
}

/// The result a handler produces, at the specification level.
pub open spec fn spec_handler_result(h: Handler) -> Result<Response, Seq<char>> {
    match h {
        Handler::Respond(code, path) => Ok(Response { status_code: code, path }),
        Handler::Fail(msg) => Err(msg@),
    }
}

/// A registered route: the method and path it matches, the kind of
/// resource it serves, and its handler.
#[derive(Clone, Copy)]
pub struct Resource {
    pub request_type: RequestType,
    pub path: &'static str,
    pub resource_type: ResourceType,
    pub handler: Handler,
}

impl Resource {
    pub fn new(
        request_type: RequestType,
        path: &'static str,
        resource_type: ResourceType,
        handler: Handler,
    ) -> (r: Resource)
        ensures
            r == (Resource { request_type, path, resource_type, handler }),
    {
        Resource { request_type, path, resource_type, handler }
    }

    /// Runs the handler: a response descriptor, or a failure message.
    pub fn handle(&self) -> (r: Result<Response, String>)
        ensures
            (match r {
                Ok(resp) => spec_handler_result(self.handler) == Ok::<Response, Seq<char>>(resp),
                Err(e) => spec_handler_result(self.handler) == Err::<Response, Seq<char>>(e@),
            }),
    {
        match self.handler {
            Handler::Respond(code, path) => Ok(Response::new(code, path)),
            Handler::Fail(msg) => Err(msg.to_owned()),
        }
    }
}

/// Whether a route answers to `(m, p)`.
pub open spec fn route_matches(r: Resource, m: RequestType, p: Seq<u8>) -> bool {
    r.request_type == m && r.path.spec_bytes() == p
}

/// The index of the first route at or after `i` matching `(m, p)`.
pub open spec fn first_match_from(rs: Seq<Resource>, m: RequestType, p: Seq<u8>, i: int) -> Option<
    int,
>
    decreases rs.len() - i when 0 <= i <= rs.len()
{
    if i == rs.len() {
        None
    } else if route_matches(rs[i], m, p) {
        Some(i)
    } else {
        first_match_from(rs, m, p, i + 1)
    }
}

/// The index of the first registered route matching `(m, p)`: lookup is
/// a linear scan in registration order, so route order is observable.
pub open spec fn first_match(rs: Seq<Resource>, m: RequestType, p: Seq<u8>) -> Option<int> {
    first_match_from(rs, m, p, 0)
}

/// Configuration supplied once at construction: the listen address as
/// plain values, the worker count, and the read timeout in seconds.
#[derive(Clone, Copy)]
pub struct AppConfig {
    pub ip: &'static str,
    pub port: u16,
    pub num_threads: usize,
    pub read_timeout: u64,
}

impl AppConfig {
    pub fn new(ip: &'static str, port: u16, num_threads: usize, read_timeout: u64) -> (r:
        AppConfig)
        ensures
            r == (AppConfig { ip, port, num_threads, read_timeout }),
    {
        AppConfig { ip, port, num_threads, read_timeout }
    }
}

/// Where a missing file escalates to: the not-found route (from a normal
/// route), or straight to a built-in reply (from a fallback route, so
/// that failover never recurses further).
#[derive(Clone, Copy, PartialEq, Eq, Structural, Debug)]
pub enum Escalation {
    NotFoundRoute,
    BuiltInNotFound,
    BuiltInError,
}

/// A file the serving loop must read before the reply can be encoded.
/// `kind` says which read the file-system collaborator owes: a text read
/// for `HTML`, a byte read for `IMAGE`.
#[derive(Clone, Copy)]
pub struct FileRequest {
    pub kind: ResourceType,
    pub status: StatusCode,
    pub path: &'static str,
    pub on_missing: Escalation,
}

/// The dispatcher's decision for one request.
pub enum Outcome {
    /// Close the connection without writing anything.
    Dropped,
    /// Write exactly these bytes, then close.
    Reply(Vec<u8>),
    /// Read the named file, then resume with the result.
    NeedFile(FileRequest),
}

/// The specification-level mirror of [`Outcome`].
pub enum Step {
    Dropped,
    Send(Seq<u8>),
    Read(ResourceType, StatusCode, Seq<char>, Escalation),
}

impl View for Outcome {
    type V = Step;

    open spec fn view(&self) -> Step {
        match self {
            Outcome::Dropped => Step::Dropped,
            Outcome::Reply(bytes) => Step::Send(bytes@),
            Outcome::NeedFile(f) => Step::Read(f.kind, f.status, f.path@, f.on_missing),
        }
    }
}

/// The step for a handler's response on a route of kind `kind`:
/// redirects are encoded at once; page and binary kinds need the file.
pub open spec fn spec_respond(kind: ResourceType, resp: Response, on_missing: Escalation) -> Step {
    match kind {
        ResourceType::REDIRECT => Step::Send(spec_redirect_reply(resp.status_code, resp.path@)),
        _ => Step::Read(kind, resp.status_code, resp.path@, on_missing),
    }
}

/// The application: its configuration, the route table in registration
/// order, and the two optional fallback routes. Routes are registered
/// before serving starts and never change while requests are handled.
pub struct App {
    pub config: AppConfig,
    pub resources: Vec<Resource>,
    pub resource_404: Option<Resource>,
    pub resource_500: Option<Resource>,
}

impl App {
    /// The step for a request that matched no route: the not-found route
    /// if one is registered, else the built-in 404 reply. A failing
    /// not-found handler degrades to the built-in 404, and a missing
    /// file under it will as well.
    pub open spec fn spec_not_found(self) -> Step {
        match self.resource_404 {
            None => Step::Send(spec_empty_reply(StatusCode::NotFound)),
            Some(route) => match spec_handler_result(route.handler) {
                Ok(resp) => spec_respond(
                    route.resource_type,
                    resp,
                    Escalation::BuiltInNotFound,
                ),
                Err(_) => Step::Send(spec_empty_reply(StatusCode::NotFound)),
            },
        }
    }

    /// The step for a failed handler: the error route if one is
    /// registered, else the built-in 500 reply. A failing error handler
    /// degrades to the built-in 500, and a missing file under it will
    /// as well.
    pub open spec fn spec_error(self) -> Step {
        match self.resource_500 {
            None => Step::Send(spec_empty_reply(StatusCode::InternalServerError)),
            Some(route) => match spec_handler_result(route.handler) {
                Ok(resp) => spec_respond(route.resource_type, resp, Escalation::BuiltInError),
                Err(_) => Step::Send(spec_empty_reply(StatusCode::InternalServerError)),
            },
        }
    }

    /// The step for a matched route: run its handler; a failure
    /// escalates to the error path.
    pub open spec fn spec_route(self, route: Resource) -> Step {
        match spec_handler_result(route.handler) {
            Ok(resp) => spec_respond(route.resource_type, resp, Escalation::NotFoundRoute),
            Err(_) => self.spec_error(),
        }
    }

    /// The dispatcher's decision for a raw request line.
    pub open spec fn spec_handle(self, line: Seq<u8>) -> Step {
        match spec_parse(line) {
            None => Step::Dropped,
            Some(req) => match first_match(self.resources@, req.0, req.1) {
                None => self.spec_not_found(),
                Some(i) => self.spec_route(self.resources@[i]),
            },
        }
    }

    /// The decision after a file read: content becomes the reply; a
    /// missing file escalates as the pending request says.
    pub open spec fn spec_resume(
        self,
        status: StatusCode,
        on_missing: Escalation,
        file: Option<Seq<u8>>,
    ) -> Step {
        match file {
            Some(bytes) => Step::Send(spec_page_reply(status, bytes)),
            None => match on_missing {
                Escalation::NotFoundRoute => self.spec_not_found(),
                Escalation::BuiltInNotFound => Step::Send(spec_empty_reply(StatusCode::NotFound)),
                Escalation::BuiltInError => Step::Send(
                    spec_empty_reply(StatusCode::InternalServerError),
                ),
            },
        }
    }

    pub fn new(config: AppConfig) -> (r: App)
        ensures
            r.config == config,
            r.resources@.len() == 0,
            r.resource_404 is None,
            r.resource_500 is None,
    {
        App { config, resources: Vec::new(), resource_404: None, resource_500: None }
    }

    /// Appends a route to the table; later routes never shadow earlier
    /// ones. Returns whether the route is fresh: `false` flags a
    /// duplicate `(method, path)` registration, which can never win
    /// lookup and is a caller error worth reporting.
    pub fn register_resource(&mut self, resource: Resource) -> (fresh: bool)
        ensures
            final(self).resources@ == old(self).resources@.push(resource),
            final(self).config == old(self).config,
            final(self).resource_404 == old(self).resource_404,
            final(self).resource_500 == old(self).resource_500,
            fresh == (first_match(
                old(self).resources@,
                resource.request_type,
                resource.path.spec_bytes(),
            ) is None),
    {
        let fresh = self.get_resource(resource.request_type, resource.path.as_bytes()).is_none();
        self.resources.push(resource);
        fresh
    }

    /// Registers the route dispatched when no route matches.
    pub fn register_resource_404(&mut self, resource: Resource)
        ensures
            final(self).resource_404 == Some(resource),
            final(self).config == old(self).config,
            final(self).resources@ == old(self).resources@,
            final(self).resource_500 == old(self).resource_500,
    {
        self.resource_404 = Some(resource);
    }

    /// Registers the route dispatched when a handler fails.
    pub fn register_resource_500(&mut self, resource: Resource)
        ensures
            final(self).resource_500 == Some(resource),
            final(self).config == old(self).config,
            final(self).resources@ == old(self).resources@,
            final(self).resource_404 == old(self).resource_404,
    {
        self.resource_500 = Some(resource);
    }

    /// The first registered route matching `(request_type, path)`.
    pub fn get_resource(&self, request_type: RequestType, path: &[u8]) -> (r: Option<&Resource>)
        ensures
            (match (r, first_match(self.resources@, request_type, path@)) {
                (Some(route), Some(i)) => *route == self.resources@[i],
                (None, None) => true,
                _ => false,
            }),
    {
        let mut i: usize = 0;
        while i < self.resources.len()
            invariant
                i <= self.resources@.len(),
                first_match(self.resources@, request_type, path@) == first_match_from(
                    self.resources@,
                    request_type,
                    path@,
                    i as int,
                ),
            decreases self.resources@.len() - i,
        {
            let route = &self.resources[i];
            if route.request_type == request_type && bytes_equal(route.path.as_bytes(), path) {
                return Some(route);
            }
            i = i + 1;
        }
        None
    }

    /// Encodes a redirect at once; page and binary kinds ask the serving
    /// loop for the file first.
    fn respond(kind: ResourceType, resp: Response, on_missing: Escalation) -> (r: Outcome)
        ensures
            r@ == spec_respond(kind, resp, on_missing),
    {
        match kind {
            ResourceType::REDIRECT => Outcome::Reply(
                encode_redirect(resp.status_code, resp.path),
            ),
            _ => Outcome::NeedFile(
                FileRequest { kind, status: resp.status_code, path: resp.path, on_missing },
            ),
        }
    }

    /// Dispatches a fallback route: its handler's failure degrades to
    /// the built-in reply for `fallback_status`, and a missing file
    /// under it will degrade there too.
    fn dispatch_fallback(
        route: &Resource,
        fallback_status: StatusCode,
        on_missing: Escalation,
    ) -> (r: Outcome)
        ensures
            r@ == match spec_handler_result(route.handler) {
                Ok(resp) => spec_respond(route.resource_type, resp, on_missing),
                Err(_) => Step::Send(spec_empty_reply(fallback_status)),
            },
    {
        match route.handle() {
            Ok(resp) => Self::respond(route.resource_type, resp, on_missing),
            Err(_) => Outcome::Reply(encode_empty(fallback_status)),
        }
    }

    /// The outcome for a request that matched no route.
    pub fn handle_not_found(&self) -> (r: Outcome)
        ensures
            r@ == self.spec_not_found(),
    {
        match &self.resource_404 {
            Some(route) => Self::dispatch_fallback(
                route,
                StatusCode::NotFound,
                Escalation::BuiltInNotFound,
            ),
            None => Outcome::Reply(encode_empty(StatusCode::NotFound)),
        }
    }

    /// The outcome for a request whose handler failed.
    pub fn handle_error(&self) -> (r: Outcome)
        ensures
            r@ == self.spec_error(),
    {
        match &self.resource_500 {
            Some(route) => Self::dispatch_fallback(
                route,
                StatusCode::InternalServerError,
                Escalation::BuiltInError,
            ),
            None => Outcome::Reply(encode_empty(StatusCode::InternalServerError)),
        }
    }

    /// The dispatcher: parse the request line, look the route up, run
    /// its handler, escalate failures, and decide what happens next.
    pub fn handle_request_line(&self, line: &[u8]) -> (r: Outcome)
        ensures
            r@ == self.spec_handle(line@),
    {
        match parse_request_line(line) {
            None => Outcome::Dropped,
            Some((m, path)) => match self.get_resource(m, path.as_slice()) {
                Some(route) => {
                    let route = *route;
                    match route.handle() {
                        Ok(resp) => Self::respond(
                            route.resource_type,
                            resp,
                            Escalation::NotFoundRoute,
                        ),
                        Err(_) => self.handle_error(),
                    }
                },
                None => self.handle_not_found(),
            },
        }
    }

    /// Continues after the serving loop has read — or failed to read —
    /// the file named by a pending request. The escalation carried in a
    /// pending request produced here is never `NotFoundRoute`, so one
    /// request causes at most two file reads.
    pub fn resume_with_file(&self, pending: &FileRequest, file: Option<Vec<u8>>) -> (r: Outcome)
        ensures
            r@ == self.spec_resume(pending.status, pending.on_missing, file.deep_view()),
            (match r@ {
                Step::Read(_, _, _, esc) => esc != Escalation::NotFoundRoute,
                _ => true,
            }),
    {
        match file {
            Some(bytes) => {
                proof {
                    assert(bytes.deep_view() =~= bytes@);
                }
                Outcome::Reply(encode_page(pending.status, bytes.as_slice()))
            },
            None => match pending.on_missing {
                Escalation::NotFoundRoute => self.handle_not_found(),
                Escalation::BuiltInNotFound => Outcome::Reply(
                    encode_empty(StatusCode::NotFound),
                ),
                Escalation::BuiltInError => Outcome::Reply(
                    encode_empty(StatusCode::InternalServerError),
                ),
            },
        }
    }
}

proof fn lemma_first_match_from_characterizes(
    rs: Seq<Resource>,
    m: RequestType,
    p: Seq<u8>,
    i: int,
)
    requires
        0 <= i <= rs.len(),
    ensures
        (match first_match_from(rs, m, p, i) {
            Some(k) => i <= k < rs.len() && route_matches(rs[k], m, p) && forall|j: int|
                i <= j < k ==> !route_matches(rs[j], m, p),
            None => forall|j: int| i <= j < rs.len() ==> !route_matches(rs[j], m, p),
        }),
    decreases rs.len() - i,
{
    if i < rs.len() && !route_matches(rs[i], m, p) {
        lemma_first_match_from_characterizes(rs, m, p, i + 1);
    }
}

/// Lookup is the linear scan in registration order: a found route
/// matches and nothing registered before it does; a missed lookup means
/// no registered route matches at all.
pub proof fn lemma_first_match_characterizes(rs: Seq<Resource>, m: RequestType, p: Seq<u8>)
    ensures
        (match first_match(rs, m, p) {
            Some(k) => 0 <= k < rs.len() && route_matches(rs[k], m, p) && forall|j: int|
                0 <= j < k ==> !route_matches(rs[j], m, p),
            None => forall|j: int| 0 <= j < rs.len() ==> !route_matches(rs[j], m, p),
        }),
{
    lemma_first_match_from_characterizes(rs, m, p, 0);
}

/// The first registration wins: when two routes answering to the same
/// `(method, path)` stand in the table, lookup never yields the later
/// one — whatever else the table holds.
pub proof fn lemma_first_registered_wins(
    rs: Seq<Resource>,
    m: RequestType,
    p: Seq<u8>,
    i: int,
    j: int,
)
    requires
        0 <= i < j < rs.len(),
        route_matches(rs[i], m, p),
        route_matches(rs[j], m, p),
    ensures
        (match first_match(rs, m, p) {
            Some(k) => k <= i,
            None => false,
        }),
{
    lemma_first_match_characterizes(rs, m, p);
}

/// A request line with fewer than two whitespace-separated tokens is
/// dropped: no bytes are written on the connection.
pub proof fn lemma_short_request_dropped(app: App, line: Seq<u8>)
    requires
        tokens(line).len() < 2,
    ensures
        app.spec_handle(line) == Step::Dropped,
{
}

/// A request line whose method token is not one this server understands
/// is dropped, never reinterpreted as another method.
pub proof fn lemma_unknown_method_dropped(app: App, line: Seq<u8>)
    requires
        tokens(line).len() >= 2,
        spec_method(tokens(line)[0]) is None,
    ensures
        app.spec_handle(line) == Step::Dropped,
{
}

/// A parsed request that matches no route, with no not-found route
/// registered, is answered with exactly the built-in 404 reply.
pub proof fn lemma_unmatched_built_in_404(app: App, line: Seq<u8>)
    requires
        spec_parse(line) is Some,
        ({
            let req = spec_parse(line).unwrap();
            first_match(app.resources@, req.0, req.1) is None
        }),
        app.resource_404 is None,
    ensures
        app.spec_handle(line) == Step::Send(
            "HTTP/1.1 404 NOT FOUND\r\nContent-Length: 0\r\n\r\n".spec_bytes(),
        ),
{
    lemma_built_in_reply_bytes();
}

/// A matched route whose handler fails, with no error route registered,
/// is answered with exactly the built-in 500 reply.
pub proof fn lemma_failed_handler_built_in_500(app: App, line: Seq<u8>, i: int)
    requires
        spec_parse(line) is Some,
        ({
            let req = spec_parse(line).unwrap();
            first_match(app.resources@, req.0, req.1) == Some(i)
        }),
        spec_handler_result(app.resources@[i].handler) is Err,
        app.resource_500 is None,
    ensures
        app.spec_handle(line) == Step::Send(
            "HTTP/1.1 500 INTERNAL SERVER ERROR\r\nContent-Length: 0\r\n\r\n".spec_bytes(),
        ),
{
    lemma_built_in_reply_bytes();
}

/// A matched page or binary route whose handler responds, and whose file
/// the collaborator then finds, is answered with the handler's status, a
/// `Content-Length` equal to the file's byte length, and the file's
/// bytes — and nothing else — as the body.
pub proof fn lemma_existing_file_served(
    app: App,
    line: Seq<u8>,
    i: int,
    resp: Response,
    bytes: Seq<u8>,
)
    requires
        spec_parse(line) is Some,
        ({
            let req = spec_parse(line).unwrap();
            first_match(app.resources@, req.0, req.1) == Some(i)
        }),
        0 <= i < app.resources@.len(),
        spec_handler_result(app.resources@[i].handler) == Ok::<Response, Seq<char>>(resp),
        app.resources@[i].resource_type != ResourceType::REDIRECT,
    ensures
        app.spec_handle(line) == Step::Read(
            app.resources@[i].resource_type,
            resp.status_code,
            resp.path@,
            Escalation::NotFoundRoute,
        ),
        app.spec_resume(resp.status_code, Escalation::NotFoundRoute, Some(bytes)) == Step::Send(
            spec_status_line(resp.status_code) + "\r\nContent-Length: ".spec_bytes()
                + spec_decimal(bytes.len()) + "\r\n\r\n".spec_bytes() + bytes,
        ),
{
}

/// A matched redirect route whose handler responds is answered at once
/// with a `Location` header naming the handler's locator and no body.
pub proof fn lemma_redirect_served(app: App, line: Seq<u8>, i: int, resp: Response)
    requires
        spec_parse(line) is Some,
        ({
            let req = spec_parse(line).unwrap();
            first_match(app.resources@, req.0, req.1) == Some(i)
        }),
        0 <= i < app.resources@.len(),
        spec_handler_result(app.resources@[i].handler) == Ok::<Response, Seq<char>>(resp),
        app.resources@[i].resource_type == ResourceType::REDIRECT,
    ensures
        app.spec_handle(line) == Step::Send(
            spec_redirect_reply(resp.status_code, resp.path@),
        ),
{
}

/// Builds an application from its configuration.
pub fn create_app(config: AppConfig) -> (r: App)
    ensures
        r.config == config,
        r.resources@.len() == 0,
        r.resource_404 is None,
        r.resource_500 is None,
{
    App::new(config)
}

} // verus!
