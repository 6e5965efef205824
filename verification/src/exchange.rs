use vstd::prelude::*;

use rand::Rng;

use crate::agents::{fallback_agent, fallback_user_agent, pick_user_agent};
use crate::headers::{
    add_cookie, bakcell_header_table, bakcell_headers, cookie_header, cookie_line, copy_headers,
    headers_view, nar_header_table, nar_headers, with_cookie_view,
};
use crate::json::{Json, JsonView};
use crate::params::{BakcellParams, NarParams, pairs_view};
use crate::stock::{rewrite_stock_page, rewritten_page};

verus! {

/// Who asked for the lookup: the HTTP endpoints of the proxy server, or a
/// program that embeds the library through its C interface.
#[derive(Debug, PartialEq, Eq, Structural, Clone, Copy)]
pub enum Frontend {
    Server,
    Embedded,
}

/// The parameters of one stock lookup, at one of the two operators.
pub enum StockParams {
    Nar(NarParams),
    Bakcell(BakcellParams),
}

/// Where a lookup stands.
#[derive(Debug, PartialEq, Eq, Structural, Clone, Copy)]
pub enum Phase {
    /// Nothing has happened yet.
    Ready,
    /// Waiting out the random pause.
    RandomPause,
    /// Waiting out the pause the query asked for.
    RequestedPause,
    /// Waiting for the HTTP client.
    AwaitClient,
    /// Waiting for the operator's site to hand out cookies.
    AwaitCookies,
    /// Waiting for the stock service to answer.
    AwaitResponse,
    /// Waiting for the body of a successful answer, as JSON.
    AwaitJson,
    /// Waiting for the body of a failed answer with this status, as text.
    AwaitText(u16),
    /// The answer has been given.
    Done,
}

/// What happened outside since the last step.
#[derive(Debug, PartialEq, Eq)]
pub enum Event {
    Begin,
    Paused,
    ClientReady,
    ClientFailed(String),
    /// The raw values of the `Set-Cookie` headers the site answered with.
    CookiesReceived(Vec<Vec<u8>>),
    CookiesFailed(String),
    /// The stock service answered with this status; `status_line` is the
    /// status as the HTTP library displays it (code and reason).
    Received { status: u16, status_line: String },
    SendFailed(String),
    JsonBody(Json),
    JsonFailed(String),
    TextBody(String),
    TextFailed(String),
}

/// The answer given to whoever asked.
#[derive(Debug, PartialEq, Eq)]
pub enum Response {
    /// The narrowed stock page (HTTP status 200 for the server).
    Page(Json),
    /// A failure, with the HTTP status the server answers with (none for an
    /// embedding program) and the message.
    Failure { status: Option<u16>, message: String },
}

/// What to do next.
#[derive(Debug, PartialEq, Eq)]
pub enum Action {
    /// Sleep this many milliseconds, then report `Paused`.
    Pause(u64),
    /// Build the HTTP client, then report `ClientReady` or `ClientFailed`.
    CreateClient,
    /// GET `url` with these headers and report the `Set-Cookie` values.
    FetchCookies { url: String, headers: Vec<(&'static str, String)> },
    /// GET `url` with these headers and query, and report the status.
    Send { url: String, headers: Vec<(&'static str, String)>, query: Vec<(String, String)> },
    /// Read the answer's body as JSON.
    ReadJson,
    /// Read the answer's body as text.
    ReadText,
    /// Give this answer; the lookup is over.
    Respond(Response),
}

pub enum EventView {
    Begin,
    Paused,
    ClientReady,
    ClientFailed(Seq<char>),
    CookiesReceived(Seq<Seq<u8>>),
    CookiesFailed(Seq<char>),
    Received { status: u16, status_line: Seq<char> },
    SendFailed(Seq<char>),
    JsonBody(JsonView),
    JsonFailed(Seq<char>),
    TextBody(Seq<char>),
    TextFailed(Seq<char>),
}

pub enum ResponseView {
    Page(JsonView),
    Failure { status: Option<u16>, message: Seq<char> },
}

pub enum ActionView {
    Pause(u64),
    CreateClient,
    FetchCookies { url: Seq<char>, headers: Seq<(Seq<char>, Seq<char>)> },
    Send {
        url: Seq<char>,
        headers: Seq<(Seq<char>, Seq<char>)>,
        query: Seq<(Seq<char>, Seq<char>)>,
    },
    ReadJson,
    ReadText,
    Respond(ResponseView),
}

impl View for Event {
    type V = EventView;

    open spec fn view(&self) -> EventView {
        match self {
            Event::Begin => EventView::Begin,
            Event::Paused => EventView::Paused,
            Event::ClientReady => EventView::ClientReady,
            Event::ClientFailed(m) => EventView::ClientFailed(m@),
            Event::CookiesReceived(v) => EventView::CookiesReceived(
                v@.map_values(|b: Vec<u8>| b@),
            ),
            Event::CookiesFailed(m) => EventView::CookiesFailed(m@),
            Event::Received { status, status_line } => EventView::Received {
                status: *status,
                status_line: status_line@,
            },
            Event::SendFailed(m) => EventView::SendFailed(m@),
            Event::JsonBody(j) => EventView::JsonBody(j@),
            Event::JsonFailed(m) => EventView::JsonFailed(m@),
            Event::TextBody(t) => EventView::TextBody(t@),
            Event::TextFailed(m) => EventView::TextFailed(m@),
        }
    }
}

impl View for Response {
    type V = ResponseView;

    open spec fn view(&self) -> ResponseView {
        match self {
            Response::Page(j) => ResponseView::Page(j@),
            Response::Failure { status, message } => ResponseView::Failure {
                status: *status,
                message: message@,
            },
        }
    }
}

impl View for Action {
    type V = ActionView;

    open spec fn view(&self) -> ActionView {
        match self {
            Action::Pause(ms) => ActionView::Pause(*ms),
            Action::CreateClient => ActionView::CreateClient,
            Action::FetchCookies { url, headers } => ActionView::FetchCookies {
                url: url@,
                headers: headers_view(headers@),
            },
            Action::Send { url, headers, query } => ActionView::Send {
                url: url@,
                headers: headers_view(headers@),
                query: pairs_view(query@),
            },
            Action::ReadJson => ActionView::ReadJson,
            Action::ReadText => ActionView::ReadText,
            Action::Respond(r) => ActionView::Respond(r@),
        }
    }
}

impl StockParams {
    pub open spec fn is_nar(&self) -> bool {
        self is Nar
    }

    pub open spec fn prefix_view(&self) -> Seq<char> {
        match self {
            StockParams::Nar(p) => p.prefix@,
            StockParams::Bakcell(p) => p.prefix@,
        }
    }

    pub open spec fn size_view(&self) -> i32 {
        match self {
            StockParams::Nar(p) => p.size,
            StockParams::Bakcell(p) => p.size,
        }
    }

    pub open spec fn time_view(&self) -> u64 {
        match self {
            StockParams::Nar(p) => p.time,
            StockParams::Bakcell(p) => p.time,
        }
    }

    pub open spec fn query_view(&self) -> Seq<(Seq<char>, Seq<char>)> {
        match self {
            StockParams::Nar(p) => p.query_view(),
            StockParams::Bakcell(p) => p.query_view(),
        }
    }

    /// The headers the operator's services expect, with `agent` as User-Agent.
    pub open spec fn header_table(&self, agent: Seq<char>) -> Seq<(Seq<char>, Seq<char>)> {
        match self {
            StockParams::Nar(_) => nar_header_table(agent),
            StockParams::Bakcell(_) => bakcell_header_table(agent),
        }
    }

    /// The operator's site, which hands out the session cookies.
    pub open spec fn site_url_view(&self) -> Seq<char> {
        match self {
            StockParams::Nar(_) => "https://esim.nar.az"@,
            StockParams::Bakcell(_) => "https://esim.bakcell.com"@,
        }
    }

    /// The operator's stock service.
    pub open spec fn api_url_view(&self) -> Seq<char> {
        match self {
            StockParams::Nar(_) => "https://esim.nar.az/api/number-discovery/stock"@,
            StockParams::Bakcell(_) =>
                "https://esim.bakcell.com/api/number-discovery/stock/msisdn/level/organization"@,
        }
    }

    pub fn prefix(&self) -> (p: &String)
        ensures
            p@ == self.prefix_view(),
    {
        match self {
            StockParams::Nar(p) => &p.prefix,
            StockParams::Bakcell(p) => &p.prefix,
        }
    }

    pub fn size(&self) -> (n: i32)
        ensures
            n == self.size_view(),
    {
        match self {
            StockParams::Nar(p) => p.size,
            StockParams::Bakcell(p) => p.size,
        }
    }

    pub fn time(&self) -> (n: u64)
        ensures
            n == self.time_view(),
    {
        match self {
            StockParams::Nar(p) => p.time,
            StockParams::Bakcell(p) => p.time,
        }
    }

    pub fn query(&self) -> (q: Vec<(String, String)>)
        ensures
            pairs_view(q@) == self.query_view(),
    {
        match self {
            StockParams::Nar(p) => p.query(),
            StockParams::Bakcell(p) => p.query(),
        }
    }

    pub fn headers(&self, agent: &str) -> (h: Vec<(&'static str, String)>)
        ensures
            headers_view(h@) == self.header_table(agent@),
    {
        match self {
            StockParams::Nar(_) => nar_headers(agent),
            StockParams::Bakcell(_) => bakcell_headers(agent),
        }
    }

    pub fn site_url(&self) -> (u: String)
        ensures
            u@ == self.site_url_view(),
    {
        match self {
            StockParams::Nar(_) => "https://esim.nar.az".to_string(),
            StockParams::Bakcell(_) => "https://esim.bakcell.com".to_string(),
        }
    }

    pub fn api_url(&self) -> (u: String)
        ensures
            u@ == self.api_url_view(),
    {
        match self {
            StockParams::Nar(_) => "https://esim.nar.az/api/number-discovery/stock".to_string(),
            StockParams::Bakcell(_) =>
                "https://esim.bakcell.com/api/number-discovery/stock/msisdn/level/organization".to_string(),
        }
    }
}

/// A successful HTTP status (2xx).
pub open spec fn is_success(status: u16) -> bool {
    200 <= status && status < 300
}

/// The status the server answers with after a failed upstream answer: the
/// upstream status where it is a valid HTTP status (100 to 999), else 502.
pub open spec fn upstream_status(code: u16) -> u16 {
    if 100 <= code && code < 1000 {
        code
    } else {
        502
    }
}

pub open spec fn client_failure_text(frontend: Frontend) -> Seq<char> {
    match frontend {
        Frontend::Server => "Müştəri yaradılmadı: "@,
        Frontend::Embedded => "Client oluşturulamadı: "@,
    }
}

pub open spec fn json_failure_text(frontend: Frontend) -> Seq<char> {
    match frontend {
        Frontend::Server => "JSON parse xətası: "@,
        Frontend::Embedded => "JSON parse hatası: "@,
    }
}

pub open spec fn send_failure_text(frontend: Frontend, nar: bool) -> Seq<char> {
    match (frontend, nar) {
        (Frontend::Server, true) => "Nar API giriş xətası: "@,
        (Frontend::Server, false) => "Bakcell API giriş xətası: "@,
        (Frontend::Embedded, true) => "Nar API erişim hatası: "@,
        (Frontend::Embedded, false) => "Bakcell API erişim hatası: "@,
    }
}

/// Lead of the message that carries a failed answer's body (server).
pub open spec fn upstream_failure_text(nar: bool) -> Seq<char> {
    if nar {
        "Nar API xətası: "@
    } else {
        "Bakcell API xətası: "@
    }
}

/// Lead of the message when a failed answer's body cannot be read (server).
pub open spec fn unreadable_failure_text(nar: bool) -> Seq<char> {
    if nar {
        "Nar API xətası (mətn oxuma uğursuz): "@
    } else {
        "Bakcell API xətası (mətn oxuma uğursuz): "@
    }
}

/// Lead of the message that reports a failed answer's status (embedded).
pub open spec fn status_failure_text(nar: bool) -> Seq<char> {
    if nar {
        "Nar API hatası: Status "@
    } else {
        "Bakcell API hatası: Status "@
    }
}

/// A failure: the server answers it with `status`, an embedding program
/// gets the message alone.
pub open spec fn failure(frontend: Frontend, status: u16, message: Seq<char>) -> ResponseView {
    ResponseView::Failure {
        status: if frontend == Frontend::Server {
            Some(status)
        } else {
            None
        },
        message,
    }
}

/// `agent` is a User-Agent that a random pick from `agents` can give.
pub open spec fn agent_drawn(agents: Seq<String>, agent: Seq<char>) -> bool {
    if agents.len() == 0 {
        agent == fallback_agent()
    } else {
        exists|i: int| 0 <= i < agents.len() && agents[i]@ == agent
    }
}

/// One stock lookup, from the first pause to the answer. Its steps take what
/// happened outside and tell what to do next.
pub struct Exchange {
    pub frontend: Frontend,
    pub params: StockParams,
    /// The User-Agents to pick from.
    pub agents: Vec<String>,
    /// The longest random pause before a lookup, in milliseconds (0: none).
    pub max_delay: u64,
    pub phase: Phase,
    /// The headers chosen for the operator's services.
    pub headers: Vec<(&'static str, String)>,
}

impl Exchange {
    /// Which event each phase waits for.
    pub open spec fn expects(&self, event: EventView) -> bool {
        match (self.phase, event) {
            (Phase::Ready, EventView::Begin) => true,
            (Phase::RandomPause, EventView::Paused) => true,
            (Phase::RequestedPause, EventView::Paused) => true,
            (Phase::AwaitClient, EventView::ClientReady) => true,
            (Phase::AwaitClient, EventView::ClientFailed(_)) => true,
            (Phase::AwaitCookies, EventView::CookiesReceived(_)) => true,
            (Phase::AwaitCookies, EventView::CookiesFailed(_)) => true,
            (Phase::AwaitResponse, EventView::Received { .. }) => true,
            (Phase::AwaitResponse, EventView::SendFailed(_)) => true,
            (Phase::AwaitJson, EventView::JsonBody(_)) => true,
            (Phase::AwaitJson, EventView::JsonFailed(_)) => true,
            (Phase::AwaitText(_), EventView::TextBody(_)) => true,
            (Phase::AwaitText(_), EventView::TextFailed(_)) => true,
            _ => false,
        }
    }

    /// After the random pause: the pause the query asked for, if any, then the client.
    pub open spec fn after_random_pause(&self) -> (Phase, ActionView) {
        if self.params.time_view() > 0 {
            (Phase::RequestedPause, ActionView::Pause(self.params.time_view()))
        } else {
            (Phase::AwaitClient, ActionView::CreateClient)
        }
    }

    /// The request to the stock service, with these headers.
    pub open spec fn lookup_request(&self, headers: Seq<(Seq<char>, Seq<char>)>) -> ActionView {
        ActionView::Send {
            url: self.params.api_url_view(),
            headers,
            query: self.params.query_view(),
        }
    }

    /// The next phase, the headers kept, and the action, for `event`;
    /// `delay` is the random pause drawn and `agent` the User-Agent picked.
    pub open spec fn next(&self, event: EventView, delay: u64, agent: Seq<char>) -> (
        Phase,
        Seq<(Seq<char>, Seq<char>)>,
        ActionView,
    ) {
        let kept = headers_view(self.headers@);
        let nar = self.params.is_nar();
        match event {
            EventView::Begin => if self.max_delay > 0 {
                (Phase::RandomPause, kept, ActionView::Pause(delay))
            } else {
                (self.after_random_pause().0, kept, self.after_random_pause().1)
            },
            EventView::Paused => if self.phase == Phase::RandomPause {
                (self.after_random_pause().0, kept, self.after_random_pause().1)
            } else {
                (Phase::AwaitClient, kept, ActionView::CreateClient)
            },
            EventView::ClientReady => {
                let chosen = self.params.header_table(agent);
                (
                    Phase::AwaitCookies,
                    chosen,
                    ActionView::FetchCookies { url: self.params.site_url_view(), headers: chosen },
                )
            },
            EventView::ClientFailed(detail) => (
                Phase::Done,
                kept,
                ActionView::Respond(
                    failure(self.frontend, 500, client_failure_text(self.frontend) + detail),
                ),
            ),
            EventView::CookiesReceived(set_cookies) => {
                let with = with_cookie_view(kept, cookie_line(set_cookies));
                (Phase::AwaitResponse, with, self.lookup_request(with))
            },
            EventView::CookiesFailed(_) => (Phase::AwaitResponse, kept, self.lookup_request(kept)),
            EventView::Received { status, status_line } => if is_success(status) {
                (Phase::AwaitJson, kept, ActionView::ReadJson)
            } else if self.frontend == Frontend::Server {
                (Phase::AwaitText(status), kept, ActionView::ReadText)
            } else {
                (
                    Phase::Done,
                    kept,
                    ActionView::Respond(
                        ResponseView::Failure {
                            status: None,
                            message: status_failure_text(nar) + status_line,
                        },
                    ),
                )
            },
            EventView::SendFailed(detail) => (
                Phase::Done,
                kept,
                ActionView::Respond(
                    failure(self.frontend, 500, send_failure_text(self.frontend, nar) + detail),
                ),
            ),
            EventView::JsonBody(page) => (
                Phase::Done,
                kept,
                ActionView::Respond(
                    ResponseView::Page(
                        rewritten_page(
                            page,
                            self.params.prefix_view(),
                            self.params.size_view() as int,
                        ),
                    ),
                ),
            ),
            EventView::JsonFailed(detail) => (
                Phase::Done,
                kept,
                ActionView::Respond(
                    failure(self.frontend, 500, json_failure_text(self.frontend) + detail),
                ),
            ),
            EventView::TextBody(text) => (
                Phase::Done,
                kept,
                ActionView::Respond(
                    ResponseView::Failure {
                        status: Some(upstream_status(self.phase->AwaitText_0)),
                        message: upstream_failure_text(nar) + text,
                    },
                ),
            ),
            EventView::TextFailed(detail) => (
                Phase::Done,
                kept,
                ActionView::Respond(
                    ResponseView::Failure {
                        status: Some(upstream_status(self.phase->AwaitText_0)),
                        message: unreadable_failure_text(nar) + detail,
                    },
                ),
            ),
        }
    }
}

/// rand's `Rng::gen_range(0..=max)` on the thread-local generator: a number
/// from 0 to `max`, drawn at random.
#[verifier::external_body]
fn random_up_to(max: u64) -> (n: u64)
    ensures
        n <= max,
{
    rand::thread_rng().gen_range(0..=max)
}

/// Whether an HTTP status is a success (`StatusCode::is_success`).
pub fn success(status: u16) -> (ok: bool)
    ensures
        ok == is_success(status),
{
    200 <= status && status < 300
}

/// The status to answer with after a failed upstream answer
/// (`StatusCode::from_u16(code).unwrap_or(BAD_GATEWAY)`).
pub fn answer_status(code: u16) -> (status: u16)
    ensures
        status == upstream_status(code),
{
    if 100 <= code && code < 1000 {
        code
    } else {
        502
    }
}

/// `lead` followed by `detail`.
fn with_detail(lead: &str, detail: String) -> (message: String)
    ensures
        message@ == lead@ + detail@,
{
    let mut message = lead.to_string();
    message.append(detail.as_str());
    message
}

fn client_failure_lead(frontend: Frontend) -> (lead: &'static str)
    ensures
        lead@ == client_failure_text(frontend),
{
    match frontend {
        Frontend::Server => "Müştəri yaradılmadı: ",
        Frontend::Embedded => "Client oluşturulamadı: ",
    }
}

fn json_failure_lead(frontend: Frontend) -> (lead: &'static str)
    ensures
        lead@ == json_failure_text(frontend),
{
    match frontend {
        Frontend::Server => "JSON parse xətası: ",
        Frontend::Embedded => "JSON parse hatası: ",
    }
}

fn send_failure_lead(frontend: Frontend, nar: bool) -> (lead: &'static str)
    ensures
        lead@ == send_failure_text(frontend, nar),
{
    match (frontend, nar) {
        (Frontend::Server, true) => "Nar API giriş xətası: ",
        (Frontend::Server, false) => "Bakcell API giriş xətası: ",
        (Frontend::Embedded, true) => "Nar API erişim hatası: ",
        (Frontend::Embedded, false) => "Bakcell API erişim hatası: ",
    }
}

fn upstream_failure_lead(nar: bool) -> (lead: &'static str)
    ensures
        lead@ == upstream_failure_text(nar),
{
    if nar {
        "Nar API xətası: "
    } else {
        "Bakcell API xətası: "
    }
}

fn unreadable_failure_lead(nar: bool) -> (lead: &'static str)
    ensures
        lead@ == unreadable_failure_text(nar),
{
    if nar {
        "Nar API xətası (mətn oxuma uğursuz): "
    } else {
        "Bakcell API xətası (mətn oxuma uğursuz): "
    }
}

fn status_failure_lead(nar: bool) -> (lead: &'static str)
    ensures
        lead@ == status_failure_text(nar),
{
    if nar {
        "Nar API hatası: Status "
    } else {
        "Bakcell API hatası: Status "
    }
}

impl StockParams {
    pub fn nar(&self) -> (nar: bool)
        ensures
            nar == self.is_nar(),
    {
        match self {
            StockParams::Nar(_) => true,
            StockParams::Bakcell(_) => false,
        }
    }
}

impl Exchange {
    /// A lookup that has not started yet.
    pub fn new(frontend: Frontend, params: StockParams, agents: Vec<String>, max_delay: u64) -> (ex: Exchange)
        ensures
            ex.frontend == frontend,
            ex.params == params,
            ex.agents == agents,
            ex.max_delay == max_delay,
            ex.phase == Phase::Ready,
            ex.headers@.len() == 0,
    {
        Exchange { frontend, params, agents, max_delay, phase: Phase::Ready, headers: Vec::new() }
    }

    fn failure(&self, status: u16, message: String) -> (r: Response)
        ensures
            r@ == failure(self.frontend, status, message@),
    {
        match self.frontend {
            Frontend::Server => Response::Failure { status: Some(status), message },
            Frontend::Embedded => Response::Failure { status: None, message },
        }
    }

    fn continue_after_random_pause(&mut self) -> (action: Action)
        ensures
            (final(self).phase, action@) == old(self).after_random_pause(),
            final(self).frontend == old(self).frontend,
            final(self).params == old(self).params,
            final(self).agents == old(self).agents,
            final(self).max_delay == old(self).max_delay,
            final(self).headers == old(self).headers,
    {
        let time = self.params.time();
        if time > 0 {
            self.phase = Phase::RequestedPause;
            Action::Pause(time)
        } else {
            self.phase = Phase::AwaitClient;
            Action::CreateClient
        }
    }

    fn request_stock(&self) -> (action: Action)
        ensures
            action@ == self.lookup_request(headers_view(self.headers@)),
    {
        Action::Send {
            url: self.params.api_url(),
            headers: copy_headers(&self.headers),
            query: self.params.query(),
        }
    }

    /// Takes the next step for `event`, with `delay` as the random pause and
    /// `agent` as the User-Agent where the step needs them.
    pub fn apply(&mut self, event: Event, delay: u64, agent: String) -> (action: Action)
        requires
            old(self).expects(event@),
        ensures
            (final(self).phase, headers_view(final(self).headers@), action@) == old(self).next(
                event@,
                delay,
                agent@,
            ),
            final(self).frontend == old(self).frontend,
            final(self).params == old(self).params,
            final(self).agents == old(self).agents,
            final(self).max_delay == old(self).max_delay,
    {
        let nar = self.params.nar();
        match event {
            Event::Begin => {
                if self.max_delay > 0 {
                    self.phase = Phase::RandomPause;
                    Action::Pause(delay)
                } else {
                    self.continue_after_random_pause()
                }
            },
            Event::Paused => {
                if self.phase == Phase::RandomPause {
                    self.continue_after_random_pause()
                } else {
                    self.phase = Phase::AwaitClient;
                    Action::CreateClient
                }
            },
            Event::ClientReady => {
                let chosen = self.params.headers(agent.as_str());
                let url = self.params.site_url();
                let sent = copy_headers(&chosen);
                self.headers = chosen;
                self.phase = Phase::AwaitCookies;
                Action::FetchCookies { url, headers: sent }
            },
            Event::ClientFailed(detail) => {
                self.phase = Phase::Done;
                let message = with_detail(client_failure_lead(self.frontend), detail);
                Action::Respond(self.failure(500, message))
            },
            Event::CookiesReceived(set_cookies) => {
                let line = cookie_header(&set_cookies);
                add_cookie(&mut self.headers, line);
                self.phase = Phase::AwaitResponse;
                self.request_stock()
            },
            Event::CookiesFailed(_) => {
                self.phase = Phase::AwaitResponse;
                self.request_stock()
            },
            Event::Received { status, status_line } => {
                if success(status) {
                    self.phase = Phase::AwaitJson;
                    Action::ReadJson
                } else {
                    match self.frontend {
                        Frontend::Server => {
                            self.phase = Phase::AwaitText(status);
                            Action::ReadText
                        },
                        Frontend::Embedded => {
                            self.phase = Phase::Done;
                            let message = with_detail(status_failure_lead(nar), status_line);
                            Action::Respond(Response::Failure { status: None, message })
                        },
                    }
                }
            },
            Event::SendFailed(detail) => {
                self.phase = Phase::Done;
                let message = with_detail(send_failure_lead(self.frontend, nar), detail);
                Action::Respond(self.failure(500, message))
            },
            Event::JsonBody(page) => {
                self.phase = Phase::Done;
                let page = rewrite_stock_page(page, self.params.prefix(), self.params.size());
                Action::Respond(Response::Page(page))
            },
            Event::JsonFailed(detail) => {
                self.phase = Phase::Done;
                let message = with_detail(json_failure_lead(self.frontend), detail);
                Action::Respond(self.failure(500, message))
            },
            Event::TextBody(text) => {
                let code = match self.phase {
                    Phase::AwaitText(code) => code,
                    _ => 0,
                };
                self.phase = Phase::Done;
                let message = with_detail(upstream_failure_lead(nar), text);
                Action::Respond(Response::Failure { status: Some(answer_status(code)), message })
            },
            Event::TextFailed(detail) => {
                let code = match self.phase {
                    Phase::AwaitText(code) => code,
                    _ => 0,
                };
                self.phase = Phase::Done;
                let message = with_detail(unreadable_failure_lead(nar), detail);
                Action::Respond(Response::Failure { status: Some(answer_status(code)), message })
            },
        }
    }
}

impl Exchange {
    /// Takes the next step for `event`, drawing the random pause (up to
    /// `max_delay`) and the User-Agent (from `agents`) where the step needs them.
    pub fn step(&mut self, event: Event) -> (action: Action)
        requires
            old(self).expects(event@),
        ensures
            exists|delay: u64, agent: Seq<char>|
                delay <= old(self).max_delay && agent_drawn(old(self).agents@, agent) && (
                    final(self).phase,
                    headers_view(final(self).headers@),
                    action@,
                ) == #[trigger] old(self).next(event@, delay, agent),
            final(self).frontend == old(self).frontend,
            final(self).params == old(self).params,
            final(self).agents == old(self).agents,
            final(self).max_delay == old(self).max_delay,
    {
        let ghost before = *self;
        let delay = if self.phase == Phase::Ready && self.max_delay > 0 {
            random_up_to(self.max_delay)
        } else {
            0
        };
        let agent = if self.phase == Phase::AwaitClient {
            pick_user_agent(&self.agents)
        } else {
            fallback_user_agent()
        };
        let ghost agent_view = agent@;
        let ghost event_view = event@;
        proof {
            if before.agents@.len() > 0 && before.phase != Phase::AwaitClient {
                let witness = before.agents@[0]@;
                assert(agent_drawn(before.agents@, witness));
                assert(before.next(event_view, delay, agent_view) == before.next(event_view, delay, witness));
            }
        }
        let action = self.apply(event, delay, agent);
        proof {
            if before.agents@.len() > 0 && before.phase != Phase::AwaitClient {
                let witness = before.agents@[0]@;
                assert(agent_drawn(before.agents@, witness) && (
                    self.phase,
                    headers_view(self.headers@),
                    action@,
                ) == before.next(event_view, delay, witness));
            } else {
                assert(agent_drawn(before.agents@, agent_view));
            }
        }
        action
    }
}

/// How far a lookup has come.
pub open spec fn progress(phase: Phase) -> nat {
    match phase {
        Phase::Ready => 0,
        Phase::RandomPause => 1,
        Phase::RequestedPause => 2,
        Phase::AwaitClient => 3,
        Phase::AwaitCookies => 4,
        Phase::AwaitResponse => 5,
        Phase::AwaitJson => 6,
        Phase::AwaitText(_) => 6,
        Phase::Done => 7,
    }
}

/// Every step moves a lookup forward, so it answers within seven steps; it
/// answers exactly when it is done, and a finished lookup expects nothing more.
pub proof fn lemma_step_moves_forward(ex: Exchange, event: EventView, delay: u64, agent: Seq<char>)
    requires
        ex.expects(event),
    ensures
        progress(ex.next(event, delay, agent).0) > progress(ex.phase),
        (ex.next(event, delay, agent).2 is Respond) <==> ex.next(event, delay, agent).0 == Phase::Done,
        forall|e: EventView| !(Exchange { phase: Phase::Done, ..ex }).expects(e),
{
}

/// A lookup for an embedding program never pauses: it starts by building the
/// HTTP client.
pub proof fn lemma_embedded_starts_with_client(ex: Exchange, delay: u64, agent: Seq<char>)
    requires
        ex.phase == Phase::Ready,
        ex.max_delay == 0,
        ex.params.time_view() == 0,
    ensures
        ex.next(EventView::Begin, delay, agent) == (
            Phase::AwaitClient,
            headers_view(ex.headers@),
            ActionView::CreateClient,
        ),
{
}

/// A server lookup with a random pause draws it before anything else, and a
/// lookup asking for a pause of its own waits it out before building the client.
pub proof fn lemma_pauses_come_first(ex: Exchange, delay: u64, agent: Seq<char>)
    requires
        ex.phase == Phase::Ready,
        ex.params.time_view() > 0,
    ensures
        ex.max_delay > 0 ==> ex.next(EventView::Begin, delay, agent).2 == ActionView::Pause(delay),
        ex.max_delay > 0 ==> (Exchange { phase: Phase::RandomPause, ..ex }).next(
            EventView::Paused,
            delay,
            agent,
        ).2 == ActionView::Pause(ex.params.time_view()),
        ex.max_delay == 0 ==> ex.next(EventView::Begin, delay, agent).2 == ActionView::Pause(
            ex.params.time_view(),
        ),
{
}

impl Exchange {
    /// Whether the lookup waits for `event` now.
    pub fn expects_event(&self, event: &Event) -> (ok: bool)
        ensures
            ok == self.expects(event@),
    {
        match (self.phase, event) {
            (Phase::Ready, Event::Begin) => true,
            (Phase::RandomPause, Event::Paused) => true,
            (Phase::RequestedPause, Event::Paused) => true,
            (Phase::AwaitClient, Event::ClientReady) => true,
            (Phase::AwaitClient, Event::ClientFailed(_)) => true,
            (Phase::AwaitCookies, Event::CookiesReceived(_)) => true,
            (Phase::AwaitCookies, Event::CookiesFailed(_)) => true,
            (Phase::AwaitResponse, Event::Received { .. }) => true,
            (Phase::AwaitResponse, Event::SendFailed(_)) => true,
            (Phase::AwaitJson, Event::JsonBody(_)) => true,
            (Phase::AwaitJson, Event::JsonFailed(_)) => true,
            (Phase::AwaitText(_), Event::TextBody(_)) => true,
            (Phase::AwaitText(_), Event::TextFailed(_)) => true,
            _ => false,
        }
    }
}

/// Whatever the operator and the frontend, a lookup answers a successful
/// JSON body with that body narrowed to the prefix and page size of the
/// lookup's own parameters.
pub proof fn lemma_answer_is_own_page(ex: Exchange, body: JsonView, delay: u64, agent: Seq<char>)
    requires
        ex.phase == Phase::AwaitJson,
    ensures
        ex.next(EventView::JsonBody(body), delay, agent).0 == Phase::Done,
        ex.next(EventView::JsonBody(body), delay, agent).2 == ActionView::Respond(
            ResponseView::Page(
                match ex.params {
                    StockParams::Nar(p) => rewritten_page(body, p.prefix@, p.size as int),
                    StockParams::Bakcell(p) => rewritten_page(body, p.prefix@, p.size as int),
                },
            ),
        ),
{
}

/// Whatever the frontend, the stock request goes to the operator's service
/// with the lookup's own query, and carries the headers chosen for the
/// operator followed by one `Cookie` header with the cookies the site handed
/// out, when there are any; without cookies, or when fetching them failed,
/// the headers are sent as they were chosen.
pub proof fn lemma_stock_request_carries_cookies(
    ex: Exchange,
    set_cookies: Seq<Seq<u8>>,
    failure: Seq<char>,
    delay: u64,
    agent: Seq<char>,
)
    requires
        ex.phase == Phase::AwaitCookies,
    ensures
        ({
            let chosen = headers_view(ex.headers@);
            let line = cookie_line(set_cookies);
            let url = match ex.params {
                StockParams::Nar(_) => "https://esim.nar.az/api/number-discovery/stock"@,
                StockParams::Bakcell(_) =>
                    "https://esim.bakcell.com/api/number-discovery/stock/msisdn/level/organization"@,
            };
            let query = match ex.params {
                StockParams::Nar(p) => p.query_view(),
                StockParams::Bakcell(p) => p.query_view(),
            };
            &&& ex.next(EventView::CookiesReceived(set_cookies), delay, agent).2 == ActionView::Send {
                url,
                headers: if line.len() > 0 {
                    chosen.push(("Cookie"@, line))
                } else {
                    chosen
                },
                query,
            }
            &&& ex.next(EventView::CookiesFailed(failure), delay, agent).2 == ActionView::Send {
                url,
                headers: chosen,
                query,
            }
        }),
{
}

/// The headers chosen when the client is ready are the operator's headers
/// with the picked User-Agent; they go to the site for the cookies, and
/// after any cookies arrive, on to the stock service with the `Cookie` header
/// last, for either frontend.
pub proof fn lemma_headers_from_client_to_request(
    ex: Exchange,
    after: Exchange,
    set_cookies: Seq<Seq<u8>>,
    delay: u64,
    agent: Seq<char>,
)
    requires
        ex.phase == Phase::AwaitClient,
        after.frontend == ex.frontend,
        after.params == ex.params,
        after.phase == ex.next(EventView::ClientReady, delay, agent).0,
        headers_view(after.headers@) == ex.next(EventView::ClientReady, delay, agent).1,
    ensures
        ({
            let table = match ex.params {
                StockParams::Nar(_) => nar_header_table(agent),
                StockParams::Bakcell(_) => bakcell_header_table(agent),
            };
            let line = cookie_line(set_cookies);
            &&& ex.next(EventView::ClientReady, delay, agent).2 matches ActionView::FetchCookies {
                headers,
                ..
            } && headers == table
            &&& after.next(EventView::CookiesReceived(set_cookies), delay, agent).2 matches ActionView::Send {
                headers,
                ..
            } && headers == if line.len() > 0 {
                table.push(("Cookie"@, line))
            } else {
                table
            }
        }),
{
}

} // verus!
