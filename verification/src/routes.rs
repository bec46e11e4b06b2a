//! The handlers behind the routes, the credential check in front of the
//! mutating ones, and the headers that every response carries.
//!
//! A handler works on plain values: the store, the configured texts, the
//! current instant. What it returns is what the response holds; putting it
//! on the wire is the caller's part.

use vstd::prelude::*;
use crate::config::{ApiKey, Publish, StatusDisplayTypes};
use crate::server::Response;
use crate::state::{SpaceGuard, SpaceState};
use crate::time::{Timestamp, MAX_NANOS, NANOS_PER_SEC};

verus! {

/// The name of the software, as the index page shows it.
pub const SOFTWARE: &'static str = "spaceapi-dezentrale-server";

/// The version of the software, as the index page shows it.
pub const VERSION: &'static str = "0.1.0";

/// The name of the request header that carries the key.
pub const API_KEY_HEADER: &'static str = "X-API-Key";

/// The outcome of a request, as an HTTP status.
#[derive(Clone, Copy, Debug, PartialEq, Eq)]
pub enum HttpStatus {
    /// 200: the request was served.
    Success,
    /// 401: the request needs the key and came without it, or with another.
    Unauthorized,
    /// 404: no route of this server takes the request.
    NotFound,
}

impl HttpStatus {
    /// The status as a number.
    pub fn code(&self) -> (code: u16)
        ensures
            code == match *self {
                HttpStatus::Success => 200u16,
                HttpStatus::Unauthorized => 401u16,
                HttpStatus::NotFound => 404u16,
            },
    {
        match self {
            HttpStatus::Success => 200,
            HttpStatus::Unauthorized => 401,
            HttpStatus::NotFound => 404,
        }
    }
}

/// What kind of text a response body is.
#[derive(Clone, Copy, Debug, PartialEq, Eq)]
pub enum ContentType {
    Text,
    HTML,
    JSON,
}

/// Whether a request that presents `presented` is let through by a server
/// whose key is `configured`: a key is presented, one is configured, and the
/// two are the same text.
pub open spec fn admitted(presented: Option<Seq<char>>, configured: Option<Seq<char>>) -> bool {
    presented matches Some(offered) && configured matches Some(key) && offered == key
}

/// The view of an optional text.
pub open spec fn text_of(text: Option<&str>) -> Option<Seq<char>> {
    match text {
        Some(t) => Some(t@),
        None => None,
    }
}

/// The view of an optional key.
pub open spec fn key_of(key: Option<&ApiKey>) -> Option<Seq<char>> {
    match key {
        Some(k) => Some(k@),
        None => None,
    }
}

impl ApiKey {
    /// Whether `presented` is this key, character for character. The
    /// comparison is a plain one: how long it takes may depend on the texts.
    pub fn matches(&self, presented: &str) -> (same: bool)
        ensures
            same == (self@ == presented@),
    {
        presented.to_owned() == self.0
    }

    /// The credential check in front of the mutating routes. `presented` is
    /// what the request carries in its [`API_KEY_HEADER`], if anything, and
    /// `configured` the key of the server, if it has one. The request passes
    /// exactly if it presents the configured key; it then gets that key
    /// back. Every other request is unauthorized.
    pub fn from_request(presented: Option<&str>, configured: Option<&ApiKey>) -> (outcome: Result<
        ApiKey,
        (HttpStatus, &'static str),
    >)
        ensures
            admitted(text_of(presented), key_of(configured)) ==> (outcome matches Ok(key) && Some(
                key@,
            ) == text_of(presented)),
            !admitted(text_of(presented), key_of(configured)) ==> (outcome matches Err(failure)
                && failure.0 == HttpStatus::Unauthorized && failure.1@ == "Api key missing"@),
    {
        if let Some(api_key) = presented {
            if let Some(api_key_config) = configured {
                if api_key_config.matches(api_key) {
                    return Ok(ApiKey(api_key.to_owned()));
                }
            }
        }
        Err((HttpStatus::Unauthorized, "Api key missing"))
    }
}

/// One header of a response.
#[derive(Clone, Debug, PartialEq, Eq)]
pub struct Header {
    pub name: String,
    pub value: String,
}

impl View for Header {
    type V = (Seq<char>, Seq<char>);

    open spec fn view(&self) -> (Seq<char>, Seq<char>) {
        (self.name@, self.value@)
    }
}

/// The headers that let pages of other origins read the status and use the
/// admin interface.
#[derive(Clone, Copy, Debug)]
pub struct Cors;

impl Cors {
    /// The three headers, by name and value: the key header is allowed,
    /// `POST` and `GET` are allowed, and every origin is.
    pub open spec fn header_views() -> Seq<(Seq<char>, Seq<char>)> {
        seq![
            ("access-control-allow-headers"@, API_KEY_HEADER@),
            ("access-control-allow-methods"@, "POST,GET"@),
            ("access-control-allow-origin"@, "*"@),
        ]
    }

    /// Adds the three headers at the end of the headers of `response`, and
    /// leaves the rest of it as it is.
    pub fn on_response(&self, response: &mut Response)
        ensures
            final(response).status == old(response).status,
            final(response).content_type == old(response).content_type,
            final(response).body == old(response).body,
            final(response).headers@.len() == old(response).headers@.len() + 3,
            final(response).headers@.take(old(response).headers@.len() as int) == old(
                response,
            ).headers@,
            final(response).headers@.skip(old(response).headers@.len() as int).map_values(
                |h: Header| h@,
            ) == Self::header_views(),
    {
        response.headers.push(
            Header {
                name: "access-control-allow-headers".to_owned(),
                value: API_KEY_HEADER.to_owned(),
            },
        );
        response.headers.push(
            Header { name: "access-control-allow-methods".to_owned(), value: "POST,GET".to_owned() },
        );
        response.headers.push(
            Header { name: "access-control-allow-origin".to_owned(), value: "*".to_owned() },
        );
    }
}

/// Opens the space for good. Only a request that passed the credential
/// check has a key to call this with.
pub fn open_space(_api_key: ApiKey, space: &mut SpaceGuard)
    ensures
        final(space)@ == old(space)@.opened(),
{
    space.open();
}

/// Closes the space. Only a request that passed the credential check has a
/// key to call this with.
pub fn close_space(_api_key: ApiKey, space: &mut SpaceGuard)
    ensures
        final(space)@ == old(space)@.closed(),
{
    space.close();
}

/// What a keep-open request is answered with.
#[derive(Clone, Copy, Debug, PartialEq, Eq)]
pub struct KeepOpenResponse {
    /// The instant up to which the space stays open, in whole seconds since
    /// the Unix epoch.
    pub open_till: u64,
}

/// The answer to a keep-open request at `now` on a store in `state`.
pub open spec fn keep_open_response(state: SpaceState, now: Timestamp) -> KeepOpenResponse {
    KeepOpenResponse { open_till: (state.deadline(now)@ / (NANOS_PER_SEC as nat)) as u64 }
}

/// Opens the space for one keep-open interval from `now` and reports the
/// end of that interval. Only a request that passed the credential check
/// has a key to call this with.
pub fn keep_open(_api_key: ApiKey, space: &mut SpaceGuard, now: Timestamp) -> (response:
    KeepOpenResponse)
    requires
        now@ + old(space)@.keep_open_interval@ <= MAX_NANOS,
    ensures
        final(space)@ == old(space)@.kept_open(now),
        response == keep_open_response(old(space)@, now),
        response.open_till == (now@ + old(space)@.keep_open_interval@) / (NANOS_PER_SEC as nat),
{
    let till = space.keep_open(now);
    KeepOpenResponse { open_till: till.as_secs() }
}

/// The index page for a space of the given name and logo that shows
/// `status`. The three are put into the page as they are.
pub open spec fn index_page(logo: Seq<char>, name: Seq<char>, status: Seq<char>) -> Seq<char> {
    "<html>\n        <body>\n            <center>\n                <img src=\""@ + logo
        + "\" alt=\""@ + name + "\"></img>\n                <div>"@ + status
        + "</div>\n                <div><a href=\"https://github.com/dezentrale/spaceapi-rs\">"@
        + SOFTWARE@ + " v"@ + VERSION@
        + "</a></div>\n            </center>\n        </body>\n    </html>\n    "@
}

/// The index page: the logo of the space and the text that stands for its
/// current state on the plain-text page.
pub fn index(space: &SpaceGuard, displays: &StatusDisplayTypes, template: &Publish) -> (page: (
    ContentType,
    String,
))
    ensures
        page.0 == ContentType::HTML,
        page.1@ == index_page(template.logo@, template.space@, displays.text.text_for(space@.open)),
{
    let status = if space.is_open() {
        &displays.text.open
    } else {
        &displays.text.closed
    };
    let mut html = String::from_str(
        "<html>\n        <body>\n            <center>\n                <img src=\"",
    );
    html.append(template.logo.as_str());
    html.append("\" alt=\"");
    html.append(template.space.as_str());
    html.append("\"></img>\n                <div>");
    html.append(status.as_str());
    html.append(
        "</div>\n                <div><a href=\"https://github.com/dezentrale/spaceapi-rs\">",
    );
    html.append(SOFTWARE);
    html.append(" v");
    html.append(VERSION);
    html.append("</a></div>\n            </center>\n        </body>\n    </html>\n    ");
    (ContentType::HTML, html)
}

/// A version of the SpaceAPI.
#[derive(Clone, Copy, Debug, PartialEq, Eq)]
pub enum ApiVersion {
    V14,
}

impl ApiVersion {
    /// The version as the status document names it.
    pub fn as_str(&self) -> (name: &'static str)
        ensures
            name@ == "14"@,
    {
        "14"
    }
}

/// What the server itself puts into the status document; the rest of the
/// document is the published description of the space.
#[derive(Clone, Copy, Debug, PartialEq, Eq)]
pub struct StatusReport {
    /// The version that the document complies with.
    pub api_compatibility: ApiVersion,
    /// Whether the space is open.
    pub open: bool,
    /// The instant of the report, in whole seconds since the Unix epoch.
    pub lastchange: u64,
}

/// The whole seconds since the Unix epoch at `now`.
pub fn unix_timestamp(now: Timestamp) -> (secs: u64)
    ensures
        secs == now@ / (NANOS_PER_SEC as nat),
{
    now.as_secs()
}

/// The server's part of the status document at `now`.
pub fn get_status_v14(space: &SpaceGuard, now: Timestamp) -> (report: StatusReport)
    ensures
        report.api_compatibility == ApiVersion::V14,
        report.open == space@.open,
        report.lastchange == now@ / (NANOS_PER_SEC as nat),
{
    StatusReport {
        api_compatibility: ApiVersion::V14,
        open: space.is_open(),
        lastchange: unix_timestamp(now),
    }
}

/// The plain-text status page: the configured text for the current state.
pub fn get_status_text(space: &SpaceGuard, displays: &StatusDisplayTypes) -> (page: (
    ContentType,
    String,
))
    ensures
        page.0 == ContentType::Text,
        page.1@ == displays.text.text_for(space@.open),
{
    let status = if space.is_open() {
        displays.text.open.clone()
    } else {
        displays.text.closed.clone()
    };
    (ContentType::Text, status)
}

/// The HTML status fragment: the configured text for the current state.
pub fn get_status_html(space: &SpaceGuard, displays: &StatusDisplayTypes) -> (page: (
    ContentType,
    String,
))
    ensures
        page.0 == ContentType::HTML,
        page.1@ == displays.html.text_for(space@.open),
{
    let status = if space.is_open() {
        displays.html.open.clone()
    } else {
        displays.html.closed.clone()
    };
    (ContentType::HTML, status)
}

/// Answers a preflight request, on any path: there is nothing to do, and
/// the response is empty.
pub fn options_catch_all() {
}

} // verus!
