//! One server: its store, its configuration, the routes it has mounted, and
//! how it answers a request.
//!
//! `dispatch` is the whole HTTP surface as a function. A request is a method,
//! a path and the key it presents, if any; the answer is a status, a body
//! and headers. The mutating routes exist only on a server whose admin
//! interface is on, and serve only a request that presents the server's key.

use vstd::prelude::*;
use crate::config::{ApiKey, Publish, SpaceConfig, StatusDisplayTypes};
use crate::routes::{
    admitted, close_space, get_status_html, get_status_text, get_status_v14, index, index_page,
    keep_open, keep_open_response, open_space, options_catch_all, ApiVersion, ContentType, Cors,
    Header, HttpStatus, KeepOpenResponse, StatusReport,
};
use crate::state::{Scheduler, SpaceGuard, SpaceState};
use crate::time::{Timestamp, MAX_NANOS, NANOS_PER_SEC};

verus! {

/// The method of a request.
#[derive(Clone, Copy, Debug, PartialEq, Eq, Structural)]
pub enum Method {
    Get,
    Post,
    Options,
    /// Any other method; no route takes it.
    Other,
}

/// The routes a server can have.
#[derive(Clone, Copy, Debug, PartialEq, Eq, Structural)]
pub enum Route {
    /// `GET /`
    Index,
    /// `GET /spaceapi/v14`
    StatusV14,
    /// `GET /status/text`
    StatusText,
    /// `GET /status/html`
    StatusHtml,
    /// `POST /admin/publish/space-open`
    OpenSpace,
    /// `POST /admin/publish/space-close`
    CloseSpace,
    /// `POST /admin/publish/space-keep-open`
    KeepOpen,
    /// `OPTIONS` on any path
    OptionsCatchAll,
}

impl Route {
    /// Whether the route changes the store, and therefore asks for the key.
    pub open spec fn is_admin(self) -> bool {
        self == Route::OpenSpace || self == Route::CloseSpace || self == Route::KeepOpen
    }

    /// The route that takes a request of the given method and path, if any.
    pub open spec fn for_request(method: Method, path: Seq<char>) -> Option<Route> {
        match method {
            Method::Options => Some(Route::OptionsCatchAll),
            Method::Get => if path == "/"@ {
                Some(Route::Index)
            } else if path == "/spaceapi/v14"@ {
                Some(Route::StatusV14)
            } else if path == "/status/text"@ {
                Some(Route::StatusText)
            } else if path == "/status/html"@ {
                Some(Route::StatusHtml)
            } else {
                None
            },
            Method::Post => if path == "/admin/publish/space-open"@ {
                Some(Route::OpenSpace)
            } else if path == "/admin/publish/space-close"@ {
                Some(Route::CloseSpace)
            } else if path == "/admin/publish/space-keep-open"@ {
                Some(Route::KeepOpen)
            } else {
                None
            },
            Method::Other => None,
        }
    }

    /// The routes a server mounts: the reading ones and the preflight route
    /// always, the mutating ones only with the admin interface on.
    pub open spec fn mounted(admin_enabled: bool) -> Seq<Route> {
        let base = seq![
            Route::StatusV14,
            Route::StatusHtml,
            Route::StatusText,
            Route::Index,
            Route::OptionsCatchAll,
        ];
        if admin_enabled {
            base + seq![Route::OpenSpace, Route::CloseSpace, Route::KeepOpen]
        } else {
            base
        }
    }

    /// Whether the route changes the store, and therefore asks for the key.
    pub fn needs_key(&self) -> (admin: bool)
        ensures
            admin == self.is_admin(),
    {
        match self {
            Route::OpenSpace | Route::CloseSpace | Route::KeepOpen => true,
            _ => false,
        }
    }

    /// The route that takes a request of the given method and path, if any.
    pub fn find(method: Method, path: &str) -> (route: Option<Route>)
        ensures
            route == Route::for_request(method, path@),
    {
        match method {
            Method::Options => Some(Route::OptionsCatchAll),
            Method::Get => {
                if same_text(path, "/") {
                    Some(Route::Index)
                } else if same_text(path, "/spaceapi/v14") {
                    Some(Route::StatusV14)
                } else if same_text(path, "/status/text") {
                    Some(Route::StatusText)
                } else if same_text(path, "/status/html") {
                    Some(Route::StatusHtml)
                } else {
                    None
                }
            },
            Method::Post => {
                if same_text(path, "/admin/publish/space-open") {
                    Some(Route::OpenSpace)
                } else if same_text(path, "/admin/publish/space-close") {
                    Some(Route::CloseSpace)
                } else if same_text(path, "/admin/publish/space-keep-open") {
                    Some(Route::KeepOpen)
                } else {
                    None
                }
            },
            Method::Other => None,
        }
    }
}

/// Whether two texts are the same, character for character.
fn same_text(a: &str, b: &str) -> (same: bool)
    ensures
        same == (a@ == b@),
{
    a.to_owned() == b.to_owned()
}

/// A request, as far as the server reads it.
#[derive(Clone, Debug)]
pub struct Request {
    pub method: Method,
    /// The path, without a query.
    pub path: String,
    /// The value of the key header, where the request has one.
    pub api_key: Option<String>,
}

impl Request {
    /// The key that the request presents, as text.
    pub open spec fn presented(self) -> Option<Seq<char>> {
        match self.api_key {
            Some(key) => Some(key@),
            None => None,
        }
    }

    /// The route that takes the request, if any.
    pub open spec fn route(self) -> Option<Route> {
        Route::for_request(self.method, self.path@)
    }
}

/// The body of a response.
#[derive(Clone, Debug)]
pub enum Body {
    /// Nothing.
    Empty,
    /// A page or a fragment of one, as text.
    Page(String),
    /// The answer to a keep-open request, to be written as JSON.
    KeepOpen(KeepOpenResponse),
    /// The server's part of the status document, to be written as JSON
    /// together with the published description of the space.
    Status(StatusReport),
}

/// What a [`Body`] holds.
pub enum BodyView {
    Empty,
    Page(Seq<char>),
    KeepOpen(KeepOpenResponse),
    Status(StatusReport),
}

impl View for Body {
    type V = BodyView;

    open spec fn view(&self) -> BodyView {
        match *self {
            Body::Empty => BodyView::Empty,
            Body::Page(text) => BodyView::Page(text@),
            Body::KeepOpen(response) => BodyView::KeepOpen(response),
            Body::Status(report) => BodyView::Status(report),
        }
    }
}

/// The answer to a request.
#[derive(Clone, Debug)]
pub struct Response {
    pub status: HttpStatus,
    /// What kind of text the body is; `None` with an empty body.
    pub content_type: Option<ContentType>,
    pub body: Body,
    pub headers: Vec<Header>,
}

/// One server.
#[derive(Debug)]
pub struct Server {
    /// The store.
    pub space: SpaceGuard,
    /// The expiry scheduler of the store.
    pub scheduler: Scheduler,
    /// The name and the logo of the space.
    pub publish: Publish,
    /// The texts for "open" and "closed".
    pub status_display: StatusDisplayTypes,
    /// The key that admits to the mutating routes, where the server has one.
    pub api_key: Option<ApiKey>,
    /// The routes that are mounted.
    pub routes: Vec<Route>,
}

impl Server {
    /// The key of the server, as text.
    pub open spec fn key(self) -> Option<Seq<char>> {
        match self.api_key {
            Some(key) => Some(key@),
            None => None,
        }
    }

    /// Whether `route` is mounted.
    pub open spec fn mounts(self, route: Route) -> bool {
        self.routes@.contains(route)
    }

    /// The mounted route that takes `request`, if any.
    pub open spec fn route_of(self, request: Request) -> Option<Route> {
        match request.route() {
            Some(route) => if self.mounts(route) {
                Some(route)
            } else {
                None
            },
            None => None,
        }
    }

    /// The status that `request` is answered with: not found without a
    /// mounted route for it, unauthorized on a mutating route unless it
    /// presents the server's key, success otherwise.
    pub open spec fn status_for(self, request: Request) -> HttpStatus {
        match self.route_of(request) {
            None => HttpStatus::NotFound,
            Some(route) => if route.is_admin() && !admitted(request.presented(), self.key()) {
                HttpStatus::Unauthorized
            } else {
                HttpStatus::Success
            },
        }
    }

    /// The route whose handler runs for `request`, if any does.
    pub open spec fn served(self, request: Request) -> Option<Route> {
        if self.status_for(request) == HttpStatus::Success {
            self.route_of(request)
        } else {
            None
        }
    }

    /// What the store holds after `request` at `now`. Only a mutating route
    /// that serves the request changes it.
    pub open spec fn space_after(self, request: Request, now: Timestamp) -> SpaceState {
        match self.served(request) {
            Some(Route::OpenSpace) => self.space@.opened(),
            Some(Route::CloseSpace) => self.space@.closed(),
            Some(Route::KeepOpen) => self.space@.kept_open(now),
            _ => self.space@,
        }
    }

    /// The body that `request` at `now` is answered with.
    pub open spec fn body_for(self, request: Request, now: Timestamp) -> BodyView {
        match self.served(request) {
            Some(Route::Index) => BodyView::Page(
                index_page(
                    self.publish.logo@,
                    self.publish.space@,
                    self.status_display.text.text_for(self.space@.open),
                ),
            ),
            Some(Route::StatusV14) => BodyView::Status(
                StatusReport {
                    api_compatibility: ApiVersion::V14,
                    open: self.space@.open,
                    lastchange: (now@ / (NANOS_PER_SEC as nat)) as u64,
                },
            ),
            Some(Route::StatusText) => BodyView::Page(
                self.status_display.text.text_for(self.space@.open),
            ),
            Some(Route::StatusHtml) => BodyView::Page(
                self.status_display.html.text_for(self.space@.open),
            ),
            Some(Route::KeepOpen) => BodyView::KeepOpen(keep_open_response(self.space@, now)),
            _ => BodyView::Empty,
        }
    }

    /// What kind of text the body of the answer to `request` is.
    pub open spec fn content_type_for(self, request: Request) -> Option<ContentType> {
        match self.served(request) {
            Some(Route::Index) => Some(ContentType::HTML),
            Some(Route::StatusV14) => Some(ContentType::JSON),
            Some(Route::StatusText) => Some(ContentType::Text),
            Some(Route::StatusHtml) => Some(ContentType::HTML),
            Some(Route::KeepOpen) => Some(ContentType::JSON),
            _ => None,
        }
    }

    /// Whether answering `request` computes a keep-open deadline.
    pub open spec fn sets_deadline(self, request: Request) -> bool {
        self.served(request) == Some(Route::KeepOpen)
    }

    /// Whether `other` is this server but for what its store holds.
    pub open spec fn same_setup(self, other: Server) -> bool {
        &&& self.scheduler == other.scheduler
        &&& self.publish == other.publish
        &&& self.status_display == other.status_display
        &&& self.api_key == other.api_key
        &&& self.routes == other.routes
        &&& self.space@.keep_open_interval == other.space@.keep_open_interval
    }

    /// Whether this is a server as it starts from `config`: the store closed,
    /// the routes mounted as the admin switch says, no key with the admin
    /// interface off, and the configured key, where there is one, with the
    /// admin interface on.
    pub open spec fn serves(self, config: SpaceConfig) -> bool {
        &&& self.space@ == SpaceState::initial(config.admin.keep_open_interval)
        &&& self.scheduler.tick_interval == config.admin.tick_interval
        &&& self.publish == config.publish
        &&& self.status_display == config.status_display
        &&& self.routes@ == Route::mounted(config.admin.enabled)
        &&& !config.admin.enabled ==> self.api_key is None
        &&& config.admin.enabled && config.admin.api_key is Some ==> self.api_key
            == config.admin.api_key
    }

    /// Whether `route` is mounted.
    pub fn has_route(&self, route: Route) -> (mounted: bool)
        ensures
            mounted == self.mounts(route),
    {
        let mut at: usize = 0;
        while at < self.routes.len()
            invariant
                at <= self.routes@.len(),
                forall|i: int| 0 <= i < at ==> self.routes@[i] != route,
            decreases self.routes@.len() - at,
        {
            if self.routes[at] == route {
                return true;
            }
            at = at + 1;
        }
        false
    }

    /// Finds the mounted route that serves `request`, and the key that the
    /// request passed the credential check with where the route asks for
    /// one; or the status that the request is refused with.
    fn screen(&self, request: &Request) -> (screened: Result<(Route, Option<ApiKey>), HttpStatus>)
        ensures
            match screened {
                Ok((route, key)) => self.served(*request) == Some(route) && (route.is_admin()
                    <==> key is Some),
                Err(status) => status == self.status_for(*request) && status != HttpStatus::Success,
            },
    {
        let route = match Route::find(request.method, request.path.as_str()) {
            Some(route) => route,
            None => {
                return Err(HttpStatus::NotFound);
            },
        };
        if !self.has_route(route) {
            return Err(HttpStatus::NotFound);
        }
        if !route.needs_key() {
            return Ok((route, None));
        }
        let presented = match &request.api_key {
            Some(text) => Some(text.as_str()),
            None => None,
        };
        match ApiKey::from_request(presented, self.api_key.as_ref()) {
            Ok(api_key) => Ok((route, Some(api_key))),
            Err(failure) => Err(failure.0),
        }
    }

    /// Runs the handler of a route that only reads the store.
    fn handle_reading(&self, route: Route, now: Timestamp) -> (answer: (Option<ContentType>, Body))
        requires
            !route.is_admin(),
        ensures
            answer.0 == match route {
                Route::Index => Some(ContentType::HTML),
                Route::StatusV14 => Some(ContentType::JSON),
                Route::StatusText => Some(ContentType::Text),
                Route::StatusHtml => Some(ContentType::HTML),
                _ => None,
            },
            answer.1@ == match route {
                Route::Index => BodyView::Page(
                    index_page(
                        self.publish.logo@,
                        self.publish.space@,
                        self.status_display.text.text_for(self.space@.open),
                    ),
                ),
                Route::StatusV14 => BodyView::Status(
                    StatusReport {
                        api_compatibility: ApiVersion::V14,
                        open: self.space@.open,
                        lastchange: (now@ / (NANOS_PER_SEC as nat)) as u64,
                    },
                ),
                Route::StatusText => BodyView::Page(
                    self.status_display.text.text_for(self.space@.open),
                ),
                Route::StatusHtml => BodyView::Page(
                    self.status_display.html.text_for(self.space@.open),
                ),
                _ => BodyView::Empty,
            },
    {
        match route {
            Route::Index => {
                let (kind, page) = index(&self.space, &self.status_display, &self.publish);
                (Some(kind), Body::Page(page))
            },
            Route::StatusV14 => {
                let report = get_status_v14(&self.space, now);
                (Some(ContentType::JSON), Body::Status(report))
            },
            Route::StatusText => {
                let (kind, page) = get_status_text(&self.space, &self.status_display);
                (Some(kind), Body::Page(page))
            },
            Route::StatusHtml => {
                let (kind, page) = get_status_html(&self.space, &self.status_display);
                (Some(kind), Body::Page(page))
            },
            _ => {
                options_catch_all();
                (None, Body::Empty)
            },
        }
    }

    /// Runs the handler of a mutating route for a request that passed the
    /// credential check with `api_key`.
    fn handle_mutating(&mut self, route: Route, api_key: ApiKey, now: Timestamp) -> (answer: (
        Option<ContentType>,
        Body,
    ))
        requires
            route.is_admin(),
            route == Route::KeepOpen ==> now@ + old(self).space@.keep_open_interval@ <= MAX_NANOS,
        ensures
            final(self).same_setup(*old(self)),
            final(self).space@ == match route {
                Route::OpenSpace => old(self).space@.opened(),
                Route::CloseSpace => old(self).space@.closed(),
                _ => old(self).space@.kept_open(now),
            },
            answer.0 == if route == Route::KeepOpen {
                Some(ContentType::JSON)
            } else {
                None
            },
            answer.1@ == if route == Route::KeepOpen {
                BodyView::KeepOpen(keep_open_response(old(self).space@, now))
            } else {
                BodyView::Empty
            },
    {
        match route {
            Route::OpenSpace => {
                open_space(api_key, &mut self.space);
                (None, Body::Empty)
            },
            Route::CloseSpace => {
                close_space(api_key, &mut self.space);
                (None, Body::Empty)
            },
            _ => {
                let response = keep_open(api_key, &mut self.space, now);
                (Some(ContentType::JSON), Body::KeepOpen(response))
            },
        }
    }

    /// Whether `response` is the answer to `request` at `now`: the status,
    /// the kind of body and the body that the request is owed, and the CORS
    /// headers, which every answer carries, and no others.
    pub open spec fn answers(self, request: Request, now: Timestamp, response: Response) -> bool {
        &&& response.status == self.status_for(request)
        &&& response.content_type == self.content_type_for(request)
        &&& response.body@ == self.body_for(request, now)
        &&& response.headers@.map_values(|h: Header| h@) == Cors::header_views()
    }

    /// Whether serving `request` changes the store, so that the request
    /// needs the server to itself.
    pub open spec fn is_mutating(self, request: Request) -> bool {
        self.served(request) matches Some(route) && route.is_admin()
    }

    /// Answers `request` at `now` if that takes no change to the store, and
    /// returns `None` if it does; such a request goes to `dispatch`.
    ///
    /// This is the whole of `dispatch` for every request that is refused, and
    /// for every request to a route that only reads. Where several tasks
    /// share a server, it needs shared access only.
    pub fn read(&self, request: &Request, now: Timestamp) -> (response: Option<Response>)
        ensures
            response is None <==> self.is_mutating(*request),
            response matches Some(answer) ==> self.answers(*request, now, answer),
    {
        let (status, content_type, body) = match self.screen(request) {
            Err(status) => (status, None, Body::Empty),
            Ok((route, _)) => {
                if route.needs_key() {
                    return None;
                }
                let (content_type, body) = self.handle_reading(route, now);
                (HttpStatus::Success, content_type, body)
            },
        };
        let mut response = Response { status, content_type, body, headers: Vec::new() };
        Cors.on_response(&mut response);
        assert(response.headers@.skip(0) == response.headers@);
        Some(response)
    }

    /// Answers `request` at `now`.
    ///
    /// A request that no mounted route takes is not found. A request to a
    /// mutating route that does not present the server's key is
    /// unauthorized. Neither changes anything. Every other request is served
    /// by the handler of its route, and only a mutating route changes the
    /// store. Every answer carries the CORS headers, and no others.
    ///
    /// A keep-open request that is served computes its deadline, which has to
    /// lie within what a [`Timestamp`] holds.
    pub fn dispatch(&mut self, request: &Request, now: Timestamp) -> (response: Response)
        requires
            old(self).sets_deadline(*request) ==> now@ + old(self).space@.keep_open_interval@
                <= MAX_NANOS,
        ensures
            old(self).answers(*request, now, response),
            final(self).space@ == old(self).space_after(*request, now),
            final(self).same_setup(*old(self)),
            !old(self).is_mutating(*request) ==> *final(self) == *old(self),
    {
        let (status, content_type, body) = match self.screen(request) {
            Err(status) => (status, None, Body::Empty),
            Ok((route, key)) => {
                let (content_type, body) = match key {
                    Some(api_key) => self.handle_mutating(route, api_key, now),
                    None => self.handle_reading(route, now),
                };
                (HttpStatus::Success, content_type, body)
            },
        };
        let mut response = Response { status, content_type, body, headers: Vec::new() };
        Cors.on_response(&mut response);
        assert(response.headers@.skip(0) == response.headers@);
        response
    }
}

impl Server {
    /// The server that starts from `config`, with `fallback` as its key
    /// where the admin interface is on and `config` names no key.
    pub fn with_key(config: SpaceConfig, fallback: Option<ApiKey>) -> (server: Server)
        ensures
            server.serves(config),
            config.admin.enabled && config.admin.api_key is None ==> server.api_key == fallback,
    {
        let SpaceConfig { publish, admin, status_display } = config;
        let space = SpaceGuard::new(admin.keep_open_interval);
        let scheduler = space.start_scheduler(admin.tick_interval);
        let mut routes: Vec<Route> = Vec::new();
        routes.push(Route::StatusV14);
        routes.push(Route::StatusHtml);
        routes.push(Route::StatusText);
        routes.push(Route::Index);
        routes.push(Route::OptionsCatchAll);
        if admin.enabled {
            routes.push(Route::OpenSpace);
            routes.push(Route::CloseSpace);
            routes.push(Route::KeepOpen);
        }
        assert(routes@ == Route::mounted(admin.enabled));
        let api_key = if admin.enabled {
            match admin.api_key {
                Some(configured) => Some(configured),
                None => fallback,
            }
        } else {
            None
        };
        Server { space, scheduler, publish, status_display, api_key, routes }
    }
}

/// A request to a mutating route that presents no key, or another key than
/// the server's, is unauthorized and leaves the server as it was, whatever
/// the store held.
pub proof fn law_wrong_key_changes_nothing(server: Server, request: Request, now: Timestamp)
    requires
        request.route() matches Some(route) && route.is_admin() && server.mounts(route),
        request.presented() != server.key() || request.presented() is None,
    ensures
        server.status_for(request) == HttpStatus::Unauthorized,
        server.space_after(request, now) == server.space@,
        server.space_after(request, now).open == server.space@.open,
        server.body_for(request, now) == BodyView::Empty,
{
}

/// On a server that started with the admin interface off, a request to a
/// mutating route is not found, whatever key it presents, and leaves the
/// server as it was.
pub proof fn law_admin_off_not_found(
    config: SpaceConfig,
    server: Server,
    request: Request,
    now: Timestamp,
)
    requires
        !config.admin.enabled,
        server.serves(config),
        request.route() matches Some(route) && route.is_admin(),
    ensures
        server.status_for(request) == HttpStatus::NotFound,
        server.space_after(request, now) == server.space@,
{
    let route = request.route()->0;
    let mounted = Route::mounted(false);
    assert(!mounted.contains(route)) by {
        assert forall|i: int| 0 <= i < mounted.len() implies mounted[i] != route by {}
    }
}

/// On a server that started with the admin interface on, a request to a
/// mutating route that presents the server's key is served, and the store
/// then holds what the route's operation leaves.
pub proof fn law_right_key_is_served(
    config: SpaceConfig,
    server: Server,
    request: Request,
    now: Timestamp,
)
    requires
        config.admin.enabled,
        server.serves(config),
        request.route() matches Some(route) && route.is_admin(),
        request.presented() is Some,
        request.presented() == server.key(),
    ensures
        server.status_for(request) == HttpStatus::Success,
        request.route() == Some(Route::OpenSpace) ==> server.space_after(request, now)
            == server.space@.opened(),
        request.route() == Some(Route::CloseSpace) ==> server.space_after(request, now)
            == server.space@.closed(),
        request.route() == Some(Route::KeepOpen) ==> server.space_after(request, now)
            == server.space@.kept_open(now),
{
    let route = request.route()->0;
    let mounted = Route::mounted(true);
    assert(mounted[5] == Route::OpenSpace);
    assert(mounted[6] == Route::CloseSpace);
    assert(mounted[7] == Route::KeepOpen);
}

/// A request to a reading route is served by every server that started from
/// a configuration, with or without a key, and changes nothing; the text
/// pages show the configured text for what the store holds.
pub proof fn law_reading_is_open_to_all(
    config: SpaceConfig,
    server: Server,
    request: Request,
    now: Timestamp,
)
    requires
        server.serves(config),
        request.route() matches Some(route) && !route.is_admin(),
    ensures
        server.status_for(request) == HttpStatus::Success,
        server.space_after(request, now) == server.space@,
        request.route() == Some(Route::StatusText) ==> server.body_for(request, now)
            == BodyView::Page(server.status_display.text.text_for(server.space@.open)),
        request.route() == Some(Route::StatusHtml) ==> server.body_for(request, now)
            == BodyView::Page(server.status_display.html.text_for(server.space@.open)),
{
    let route = request.route()->0;
    let mounted = Route::mounted(config.admin.enabled);
    assert(mounted[0] == Route::StatusV14);
    assert(mounted[1] == Route::StatusHtml);
    assert(mounted[2] == Route::StatusText);
    assert(mounted[3] == Route::Index);
    assert(mounted[4] == Route::OptionsCatchAll);
}

} // verus!
