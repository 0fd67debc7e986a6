//! The decisions of the maimai website session.
//!
//! The site reports failure only through where a followed redirect chain
//! ends, never through a status code. A [`Flow`] holds one operation
//! (credential login, session-id login, logout, navigation): it says which
//! request to send next, and reads each landing page to decide whether to go
//! on, hand back the page, or fail. The caller owns the HTTP client, with its
//! cookie jar, and performs the requests.

use vstd::prelude::*;

verus! {

/// The authorization gateway's login address.
pub const AUTH_URL: &'static str = "https://lng-tgk-aime-gw.am-all.net/common_auth/login";

/// The site's index page.
pub const HOME_URL: &'static str = "https://maimaidx-eng.com/maimai-mobile";

/// The host of the authorization gateway: landing there means the session is
/// not (or no longer) authenticated.
pub const AUTH_HOST: &'static str = "lng-tgk-aime-gw.am-all.net";

/// The page the site sends a request to when it refuses the session.
pub const ERROR_PAGE_URL: &'static str = "https://maimaidx-eng.com/maimai-mobile/error/";

/// The page the gateway returns to when the user backs out of a login.
pub const BACK_URL: &'static str = "https://maimai.sega.com/";

/// The site identifier the gateway expects.
pub const SITE_ID: &'static str = "maimaidxex";

/// The authorization gateway's login address.
pub fn get_auth_url() -> (r: &'static str)
    ensures
        r@ == AUTH_URL@,
{
    AUTH_URL
}

/// The site's index page.
pub fn get_home_url() -> (r: &'static str)
    ensures
        r@ == HOME_URL@,
{
    HOME_URL
}

/// An HTTP method.
#[derive(Clone, Copy, Debug, PartialEq, Eq, Structural)]
pub enum Method {
    Get,
    /// A POST whose body is the form, URL-encoded.
    Post,
}

/// A request for the caller to send through the session's client.
#[derive(Clone, Debug)]
pub struct Request {
    pub method: Method,
    /// The absolute address, before the query.
    pub url: String,
    /// Query parameters, in order.
    pub query: Vec<(String, String)>,
    /// Form fields of the body, in order; empty for a GET.
    pub form: Vec<(String, String)>,
}

/// Name-value pairs seen as character sequences.
pub open spec fn pairs_view(v: Seq<(String, String)>) -> Seq<(Seq<char>, Seq<char>)> {
    v.map_values(|p: (String, String)| (p.0@, p.1@))
}

/// A request seen as plain values.
pub struct RequestView {
    pub method: Method,
    pub url: Seq<char>,
    pub query: Seq<(Seq<char>, Seq<char>)>,
    pub form: Seq<(Seq<char>, Seq<char>)>,
}

impl View for Request {
    type V = RequestView;

    open spec fn view(&self) -> RequestView {
        RequestView {
            method: self.method,
            url: self.url@,
            query: pairs_view(self.query@),
            form: pairs_view(self.form@),
        }
    }
}

/// What came of a request, as the caller observed it.
#[derive(Clone, Debug)]
pub enum Reply {
    /// The request could not be sent, or no response came back.
    Unreachable,
    /// A response arrived after all redirects were followed.
    Landed {
        /// The final address, after redirects.
        final_url: String,
        /// The host of the final address, if it has one.
        host: Option<String>,
        /// The body as text; `None` when it could not be decoded.
        body: Option<String>,
    },
}

/// Why an authentication attempt was refused.
#[derive(Clone, Copy, Debug, PartialEq, Eq, Structural)]
pub enum AuthFailure {
    /// The username or password was not accepted.
    InvalidCredentials,
    /// The session id is unknown or was revoked.
    InvalidSessionId,
}

/// Why a session operation failed.
#[derive(Clone, Copy, Debug, PartialEq, Eq, Structural)]
pub enum SessionError {
    /// A request could not be sent, or no response came back.
    Unreachable,
    /// The handshake ended on a known failure page.
    Authentication(AuthFailure),
    /// An operation that needs a logged-in session was tried without one.
    NotAuthenticated,
    /// A response body could not be read as text.
    EmptyResponse,
}

/// The sentence that describes a failure.
pub open spec fn message_of(e: SessionError) -> Seq<char> {
    match e {
        SessionError::Unreachable => "unable to reach the site"@,
        SessionError::Authentication(AuthFailure::InvalidCredentials) => "invalid credentials"@,
        SessionError::Authentication(AuthFailure::InvalidSessionId) => "invalid or revoked session id"@,
        SessionError::NotAuthenticated => "the session is not logged in"@,
        SessionError::EmptyResponse => "no data present"@,
    }
}

impl SessionError {
    /// A sentence that describes the failure.
    pub fn message(&self) -> (r: String)
        ensures
            r@ == message_of(*self),
    {
        let s = match self {
            SessionError::Unreachable => "unable to reach the site",
            SessionError::Authentication(AuthFailure::InvalidCredentials) => "invalid credentials",
            SessionError::Authentication(AuthFailure::InvalidSessionId) => "invalid or revoked session id",
            SessionError::NotAuthenticated => "the session is not logged in",
            SessionError::EmptyResponse => "no data present",
        };
        String::from_str(s)
    }
}

/// A session operation.
#[derive(Clone, Debug)]
pub enum Operation {
    /// Log in with a SEGA ID username and password.
    LoginWithCredentials { username: String, password: String },
    /// Log in with the id of an already authenticated session.
    LoginWithSsid { ssid: String },
    /// Log out; a session id used to log in is revoked with it.
    Logout,
    /// Fetch a page with the session's cookies.
    JumpTo { place: String },
}

/// What the caller does next.
#[derive(Clone, Debug)]
pub enum Step {
    /// Send this request and hand its reply to `Flow::advance`.
    Send(Request),
    /// The operation succeeded with this page.
    Page(String),
    /// The logout went through.
    LoggedOut,
    /// The operation failed.
    Failed(SessionError),
}

/// A step seen as plain values.
pub enum StepView {
    Send(RequestView),
    Page(Seq<char>),
    LoggedOut,
    Failed(SessionError),
}

impl View for Step {
    type V = StepView;

    open spec fn view(&self) -> StepView {
        match self {
            Step::Send(req) => StepView::Send(req@),
            Step::Page(p) => StepView::Page(p@),
            Step::LoggedOut => StepView::LoggedOut,
            Step::Failed(e) => StepView::Failed(*e),
        }
    }
}

/// A GET of `url` with the given query.
pub open spec fn get_view(url: Seq<char>, query: Seq<(Seq<char>, Seq<char>)>) -> RequestView {
    RequestView { method: Method::Get, url, query, form: seq![] }
}

/// The request that fetches the gateway's login page, for its cookies.
pub open spec fn gateway_visit() -> RequestView {
    get_view(
        AUTH_URL@,
        seq![
            ("site_id"@, SITE_ID@),
            ("redirect_url"@, HOME_URL@),
            ("back_url"@, BACK_URL@),
        ],
    )
}

/// The request that posts the credentials to the gateway.
pub open spec fn credentials_post(username: Seq<char>, password: Seq<char>) -> RequestView {
    RequestView {
        method: Method::Post,
        url: AUTH_URL@ + "/sid"@,
        query: seq![],
        form: seq![("retention"@, "1"@), ("sid"@, username), ("password"@, password)],
    }
}

/// The n-th request of an operation.
pub open spec fn request_at(op: Operation, stage: nat) -> RequestView {
    match op {
        Operation::LoginWithCredentials { username, password } => if stage == 0 {
            gateway_visit()
        } else {
            credentials_post(username@, password@)
        },
        Operation::LoginWithSsid { ssid } => get_view(HOME_URL@, seq![("ssid"@, ssid@)]),
        Operation::Logout => if stage == 0 {
            get_view(HOME_URL@ + "/home/userOption"@, seq![])
        } else {
            get_view(HOME_URL@ + "/home/userOption/logout"@, seq![])
        },
        Operation::JumpTo { place } => get_view(place@, seq![]),
    }
}

/// The index of an operation's last request.
pub open spec fn last_stage(op: Operation) -> nat {
    match op {
        Operation::LoginWithCredentials { .. } => 1,
        Operation::Logout => 1,
        _ => 0,
    }
}

/// Whether a reply landed on a host that is the authorization gateway.
pub open spec fn on_gateway(host: Option<String>) -> bool {
    host is Some && host->0@ == AUTH_HOST@
}

/// The page of a landed reply, or the failure to read it.
pub open spec fn page_of(body: Option<String>) -> StepView {
    match body {
        Some(b) => StepView::Page(b@),
        None => StepView::Failed(SessionError::EmptyResponse),
    }
}

/// What follows the reply to the n-th request of an operation.
pub open spec fn after_reply(op: Operation, stage: nat, reply: Reply) -> StepView {
    match reply {
        Reply::Unreachable => StepView::Failed(SessionError::Unreachable),
        Reply::Landed { final_url, host, body } => match op {
            Operation::LoginWithCredentials { .. } => if stage == 0 {
                StepView::Send(request_at(op, 1))
            } else if on_gateway(host) {
                StepView::Failed(SessionError::Authentication(AuthFailure::InvalidCredentials))
            } else {
                page_of(body)
            },
            Operation::LoginWithSsid { .. } => if final_url@ == ERROR_PAGE_URL@ {
                StepView::Failed(SessionError::Authentication(AuthFailure::InvalidSessionId))
            } else {
                page_of(body)
            },
            Operation::Logout => if stage == 0 {
                if final_url@ == ERROR_PAGE_URL@ {
                    StepView::Failed(SessionError::NotAuthenticated)
                } else {
                    StepView::Send(request_at(op, 1))
                }
            } else {
                StepView::LoggedOut
            },
            Operation::JumpTo { .. } => if on_gateway(host) {
                StepView::Failed(SessionError::NotAuthenticated)
            } else {
                page_of(body)
            },
        },
    }
}

/// What an operation comes to when its requests receive `replies` in turn,
/// from the request at `stage` on: the step that follows the last reply it
/// reads. Replies past the end of the operation are not read.
pub open spec fn run_from(op: Operation, stage: nat, replies: Seq<Reply>) -> StepView
    decreases replies.len(),
{
    if replies.len() == 0 {
        StepView::Send(request_at(op, stage))
    } else {
        let next = after_reply(op, stage, replies[0]);
        if next is Send && replies.len() > 1 {
            run_from(op, stage + 1, replies.drop_first())
        } else {
            next
        }
    }
}

/// What an operation comes to when its requests receive `replies` in turn.
pub open spec fn run(op: Operation, replies: Seq<Reply>) -> StepView {
    run_from(op, 0, replies)
}

/// Whether a reply arrived.
pub open spec fn landed(reply: Reply) -> bool {
    reply is Landed
}

/// A credential login that reaches the gateway, and whose posted form lands
/// anywhere but on the gateway host with a readable body, hands back that
/// body as the page.
pub proof fn law_accepted_credentials_give_page(
    username: String,
    password: String,
    visit: Reply,
    final_url: String,
    host: Option<String>,
    body: String,
)
    requires
        landed(visit),
        !on_gateway(host),
    ensures
        ({
            let op = Operation::LoginWithCredentials { username, password };
            let post = Reply::Landed { final_url, host, body: Some(body) };
            &&& run(op, seq![visit]) == StepView::Send(credentials_post(username@, password@))
            &&& run(op, seq![visit, post]) == StepView::Page(body@)
        }),
{
    let op = Operation::LoginWithCredentials { username, password };
    let post = Reply::Landed { final_url, host, body: Some(body) };
    assert(seq![visit, post].drop_first() =~= seq![post]);
    reveal_with_fuel(run_from, 3);
}

/// A credential login whose posted form lands back on the gateway host fails
/// as an authentication error, whatever the username, password or page.
pub proof fn law_rejected_credentials_fail(
    username: String,
    password: String,
    visit: Reply,
    final_url: String,
    host: Option<String>,
    body: Option<String>,
)
    requires
        landed(visit),
        on_gateway(host),
    ensures
        run(
            Operation::LoginWithCredentials { username, password },
            seq![visit, Reply::Landed { final_url, host, body }],
        ) == StepView::Failed(SessionError::Authentication(AuthFailure::InvalidCredentials)),
{
    let post = Reply::Landed { final_url, host, body };
    assert(seq![visit, post].drop_first() =~= seq![post]);
    reveal_with_fuel(run_from, 3);
}

/// A session-id login that lands on the site's refusal page fails as an
/// authentication error; one that lands anywhere else with a readable body
/// hands back that body.
pub proof fn law_session_id_login(ssid: String, final_url: String, host: Option<String>, body: String)
    ensures
        ({
            let op = Operation::LoginWithSsid { ssid };
            let r = run(op, seq![Reply::Landed { final_url, host, body: Some(body) }]);
            &&& final_url@ == ERROR_PAGE_URL@ ==> r == StepView::Failed(
                SessionError::Authentication(AuthFailure::InvalidSessionId),
            )
            &&& final_url@ != ERROR_PAGE_URL@ ==> r == StepView::Page(body@)
        }),
{
    reveal_with_fuel(run_from, 2);
}

/// A logout whose option page lands on the refusal page fails: the session
/// was never logged in. One whose option page lands elsewhere sends the
/// logout request next, and succeeds once that request is answered.
pub proof fn law_logout(option_page: String, host: Option<String>, body: Option<String>, answer: Reply)
    requires
        landed(answer),
    ensures
        ({
            let first = Reply::Landed { final_url: option_page, host, body };
            &&& option_page@ == ERROR_PAGE_URL@ ==> run(Operation::Logout, seq![first])
                == StepView::Failed(SessionError::NotAuthenticated)
            &&& option_page@ != ERROR_PAGE_URL@ ==> run(Operation::Logout, seq![first])
                == StepView::Send(get_view(HOME_URL@ + "/home/userOption/logout"@, seq![]))
            &&& option_page@ != ERROR_PAGE_URL@ ==> run(Operation::Logout, seq![first, answer])
                == StepView::LoggedOut
        }),
{
    let first = Reply::Landed { final_url: option_page, host, body };
    assert(seq![first, answer].drop_first() =~= seq![answer]);
    reveal_with_fuel(run_from, 3);
}

/// Navigation fails as unauthenticated exactly when the request lands on the
/// gateway host; otherwise a readable page is handed back as it came.
pub proof fn law_navigation(place: String, reply: Reply)
    ensures
        ({
            let r = run(Operation::JumpTo { place }, seq![reply]);
            &&& (r == StepView::Failed(SessionError::NotAuthenticated)) <==> (landed(reply)
                && on_gateway(reply->host))
            &&& (landed(reply) && !on_gateway(reply->host) && reply->body is Some) ==> r
                == StepView::Page(reply->body->0@)
        }),
{
    reveal_with_fuel(run_from, 2);
}

fn text_pair(name: &str, value: &str) -> (r: (String, String))
    ensures
        r.0@ == name@,
        r.1@ == value@,
{
    (String::from_str(name), String::from_str(value))
}

fn get_request(url: String, query: Vec<(String, String)>) -> (r: Request)
    ensures
        r@ == get_view(url@, pairs_view(query@)),
{
    let r = Request { method: Method::Get, url, query, form: Vec::new() };
    assert(pairs_view(r.form@) =~= seq![]);
    r
}

/// Builds the n-th request of an operation.
fn build_request(op: &Operation, stage: usize) -> (r: Request)
    requires
        stage <= last_stage(*op),
    ensures
        r@ == request_at(*op, stage as nat),
{
    match op {
        Operation::LoginWithCredentials { username, password } => {
            if stage == 0 {
                let mut query: Vec<(String, String)> = Vec::new();
                query.push(text_pair("site_id", SITE_ID));
                query.push(text_pair("redirect_url", HOME_URL));
                query.push(text_pair("back_url", BACK_URL));
                let r = get_request(String::from_str(AUTH_URL), query);
                assert(r@.query =~= gateway_visit().query);
                r
            } else {
                let mut form: Vec<(String, String)> = Vec::new();
                form.push(text_pair("retention", "1"));
                form.push(text_pair("sid", username.as_str()));
                form.push(text_pair("password", password.as_str()));
                let r = Request {
                    method: Method::Post,
                    url: String::from_str(AUTH_URL).concat("/sid"),
                    query: Vec::new(),
                    form,
                };
                assert(r@.query =~= seq![]);
                assert(r@.form =~= credentials_post(username@, password@).form);
                r
            }
        },
        Operation::LoginWithSsid { ssid } => {
            let mut query: Vec<(String, String)> = Vec::new();
            query.push(text_pair("ssid", ssid.as_str()));
            let r = get_request(String::from_str(HOME_URL), query);
            assert(r@.query =~= seq![("ssid"@, ssid@)]);
            r
        },
        Operation::Logout => {
            let url = if stage == 0 {
                String::from_str(HOME_URL).concat("/home/userOption")
            } else {
                String::from_str(HOME_URL).concat("/home/userOption/logout")
            };
            let r = get_request(url, Vec::new());
            assert(r@.query =~= seq![]);
            r
        },
        Operation::JumpTo { place } => {
            let r = get_request(place.clone(), Vec::new());
            assert(r@.query =~= seq![]);
            r
        },
    }
}

/// Whether a final address is the site's refusal page.
fn is_error_page(url: &String) -> (r: bool)
    ensures
        r == (url@ == ERROR_PAGE_URL@),
{
    let error_page = String::from_str(ERROR_PAGE_URL);
    *url == error_page
}

/// Whether a final host is the authorization gateway.
fn is_gateway(host: &Option<String>) -> (r: bool)
    ensures
        r == on_gateway(*host),
{
    match host {
        Some(h) => {
            let gateway = String::from_str(AUTH_HOST);
            *h == gateway
        },
        None => false,
    }
}

/// The page of a landed reply, or the failure to read it.
fn page_step(body: Option<String>) -> (r: Step)
    ensures
        r@ == page_of(body),
{
    match body {
        Some(b) => Step::Page(b),
        None => Step::Failed(SessionError::EmptyResponse),
    }
}

/// One session operation in progress: the requests sent so far and the
/// decision on each reply.
pub struct Flow {
    op: Operation,
    stage: usize,
    finished: bool,
}

impl Flow {
    /// The operation this flow carries out.
    pub closed spec fn operation(&self) -> Operation {
        self.op
    }

    /// The index of the request whose reply is awaited.
    pub closed spec fn stage(&self) -> nat {
        self.stage as nat
    }

    /// Whether the operation has come to an end.
    pub closed spec fn done(&self) -> bool {
        self.finished
    }

    /// The awaited request is one of the operation's.
    pub closed spec fn wf(&self) -> bool {
        self.stage <= last_stage(self.op)
    }

    /// Starts an operation: the flow, and the first request to send.
    pub fn start(op: Operation) -> (r: (Flow, Request))
        ensures
            r.0.wf(),
            r.0.operation() == op,
            r.0.stage() == 0,
            !r.0.done(),
            r.1@ == request_at(op, 0),
    {
        let req = build_request(&op, 0);
        (Flow { op, stage: 0, finished: false }, req)
    }

    /// Whether the operation has come to an end.
    pub fn is_finished(&self) -> (r: bool)
        ensures
            r == self.done(),
    {
        self.finished
    }

    /// Reads the reply to the awaited request and decides what follows: the
    /// next request, the resulting page, or a failure.
    pub fn advance(&mut self, reply: Reply) -> (r: Step)
        requires
            old(self).wf(),
            !old(self).done(),
        ensures
            final(self).wf(),
            final(self).operation() == old(self).operation(),
            r@ == after_reply(old(self).operation(), old(self).stage(), reply),
            r is Send ==> final(self).stage() == old(self).stage() + 1 && !final(self).done(),
            !(r is Send) ==> final(self).stage() == old(self).stage() && final(self).done(),
    {
        let ghost reply0 = reply;
        let (final_url, host, body) = match reply {
            Reply::Unreachable => {
                self.finished = true;
                return Step::Failed(SessionError::Unreachable);
            },
            Reply::Landed { final_url, host, body } => (final_url, host, body),
        };
        let step = match &self.op {
            Operation::LoginWithCredentials { .. } => {
                if self.stage == 0 {
                    Step::Send(build_request(&self.op, 1))
                } else if is_gateway(&host) {
                    Step::Failed(SessionError::Authentication(AuthFailure::InvalidCredentials))
                } else {
                    page_step(body)
                }
            },
            Operation::LoginWithSsid { .. } => {
                if is_error_page(&final_url) {
                    Step::Failed(SessionError::Authentication(AuthFailure::InvalidSessionId))
                } else {
                    page_step(body)
                }
            },
            Operation::Logout => {
                if self.stage == 0 {
                    if is_error_page(&final_url) {
                        Step::Failed(SessionError::NotAuthenticated)
                    } else {
                        Step::Send(build_request(&self.op, 1))
                    }
                } else {
                    Step::LoggedOut
                }
            },
            Operation::JumpTo { .. } => {
                if is_gateway(&host) {
                    Step::Failed(SessionError::NotAuthenticated)
                } else {
                    page_step(body)
                }
            },
        };
        if let Step::Send(_) = &step {
            self.stage = self.stage + 1;
        } else {
            self.finished = true;
        }
        step
    }
}

} // verus!
