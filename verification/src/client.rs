//! The session client as a state machine without I/O.
//!
//! The client decides; a transport performs. `login` and `get_courses` each
//! open an exchange and return its first request. The transport sends a
//! request with the session's headers and cookies and hands the response body
//! to `receive`, which answers with the next request or with the outcome.
//! Nothing is retried: where the transport fails it tells the client to
//! `abandon` the exchange, and its caller gets the transport's error.

use vstd::prelude::*;
use crate::digest::{credential_digest_of, username_digest_of};
use crate::form::{
    code_fields,
    code_form,
    field,
    lemma_login_fields_by_key,
    login_fields,
    login_form,
};
use crate::identifier::{generate_random_web_finger, is_web_finger, lemma_web_finger_exists};
use crate::request::{get_of, post_of, Request, RequestView};
use crate::scrape::{
    extract_schedule,
    extract_token,
    schedule_in,
    token_in,
    ExtractionError,
};

verus! {

/// The landing page, which carries the anti-forgery token.
pub const INDEX_URL: &'static str = "http://sso.jwc.whut.edu.cn/Certification//toIndex.do";

/// The endpoint that answers a session identifier with a verification code.
pub const CODE_URL: &'static str = "http://sso.jwc.whut.edu.cn/Certification//getCode.do";

/// The endpoint that takes the login form.
pub const LOGIN_URL: &'static str = "http://sso.jwc.whut.edu.cn/Certification//login.do";

/// The page that sets up the course module's session context.
pub const COURSE_URL: &'static str = "http://218.197.102.183/Course";

/// The page that lists the personal schedule.
pub const COURSE_LIST_URL: &'static str = "http://218.197.102.183/Course/grkbList.do";

/// Where an exchange stands: which response the client waits for, and what it
/// has gathered for the requests still to come.
pub enum Stage {
    /// No response is awaited.
    Idle,
    /// The landing page was asked for.
    AwaitingIndex { username: Seq<char>, password: Seq<char> },
    /// The verification code was asked for.
    AwaitingCode { username: Seq<char>, password: Seq<char>, token: Seq<char>, webfinger: Seq<char> },
    /// The login form was submitted.
    AwaitingLogin,
    /// The course module's entry page was asked for.
    AwaitingCourseContext,
    /// The schedule listing was asked for.
    AwaitingCourseList,
}

/// The client as plain values.
pub struct State {
    /// Whether `login` has been called on this client.
    pub login_begun: bool,
    pub stage: Stage,
}

/// What the client answers a response with, as plain values.
pub enum ReplyView {
    Send(RequestView),
    LoggedIn,
    Courses(Seq<char>),
    Failed(ExtractionError),
    Ignored,
}

/// A client that has not spoken to the portal yet.
pub open spec fn fresh() -> State {
    State { login_begun: false, stage: Stage::Idle }
}

/// Opening the login handshake: the landing page is asked for.
pub open spec fn begin_login(username: Seq<char>, password: Seq<char>) -> (State, RequestView) {
    (
        State { login_begun: true, stage: Stage::AwaitingIndex { username, password } },
        get_of(INDEX_URL@, true),
    )
}

/// Giving up whatever exchange is under way.
pub open spec fn abandoned(state: State) -> State {
    State { login_begun: state.login_begun, stage: Stage::Idle }
}

/// Opening the schedule fetch: the course module's entry page is asked for.
pub open spec fn begin_courses(state: State) -> (State, RequestView) {
    (
        State { login_begun: state.login_begun, stage: Stage::AwaitingCourseContext },
        get_of(COURSE_URL@, false),
    )
}

/// One step of an exchange: the response `body` has arrived; `webfinger` is
/// the session identifier to use where the step needs a new one.
///
/// The login handshake, in order: the landing page yields the token, or the
/// handshake fails; the identifier is sent to the verification-code endpoint;
/// its answer, whole, is the code; the login form is submitted; the answer to
/// that is not looked at. The schedule fetch: the entry page's answer is not
/// looked at; the listing yields the weekly table, or the fetch fails.
pub open spec fn step(state: State, body: Seq<char>, webfinger: Seq<char>) -> (State, ReplyView) {
    let idle = abandoned(state);
    match state.stage {
        Stage::Idle => (state, ReplyView::Ignored),
        Stage::AwaitingIndex { username, password } => match token_in(body) {
            Ok(token) => (
                State {
                    login_begun: state.login_begun,
                    stage: Stage::AwaitingCode { username, password, token, webfinger },
                },
                ReplyView::Send(post_of(CODE_URL@, code_fields(webfinger), true)),
            ),
            Err(e) => (idle, ReplyView::Failed(e)),
        },
        Stage::AwaitingCode { username, password, token, webfinger: sent } => (
            State { login_begun: state.login_begun, stage: Stage::AwaitingLogin },
            ReplyView::Send(
                post_of(LOGIN_URL@, login_fields(username, password, sent, token, body), false),
            ),
        ),
        Stage::AwaitingLogin => (idle, ReplyView::LoggedIn),
        Stage::AwaitingCourseContext => (
            State { login_begun: state.login_begun, stage: Stage::AwaitingCourseList },
            ReplyView::Send(get_of(COURSE_LIST_URL@, true)),
        ),
        Stage::AwaitingCourseList => match schedule_in(body) {
            Ok(table) => (idle, ReplyView::Courses(table)),
            Err(e) => (idle, ReplyView::Failed(e)),
        },
    }
}

/// The form that a reply asks to be sent; empty where it asks for none.
pub open spec fn form_sent(reply: ReplyView) -> Seq<(Seq<char>, Seq<char>)> {
    match reply {
        ReplyView::Send(request) => request.form,
        _ => Seq::empty(),
    }
}

/// The handshake from end to end. The landing page is asked for. Where it
/// carries a token, the identifier is posted to the verification-code
/// endpoint; the login form is posted with the credentials, that identifier,
/// the token and the code; whatever the portal answers, the client then
/// reports the login as done. Where it carries none, the handshake ends at
/// once with the error that says what was missing, and nothing more is sent.
/// Either way the client ends up awaiting nothing.
pub proof fn lemma_handshake_run(
    username: Seq<char>,
    password: Seq<char>,
    index_page: Seq<char>,
    webfinger: Seq<char>,
    code: Seq<char>,
    answer: Seq<char>,
    second: Seq<char>,
    third: Seq<char>,
)
    ensures
        ({
            let (s1, r1) = begin_login(username, password);
            let (s2, r2) = step(s1, index_page, webfinger);
            let (s3, r3) = step(s2, code, second);
            let (s4, r4) = step(s3, answer, third);
            let idle = State { login_begun: true, stage: Stage::Idle };
            &&& r1 == get_of(INDEX_URL@, true)
            &&& match token_in(index_page) {
                Ok(token) => {
                    &&& r2 == ReplyView::Send(post_of(CODE_URL@, code_fields(webfinger), true))
                    &&& r3 == ReplyView::Send(
                        post_of(
                            LOGIN_URL@,
                            login_fields(username, password, webfinger, token, code),
                            false,
                        ),
                    )
                    &&& r4 == ReplyView::LoggedIn
                    &&& s4 == idle
                },
                Err(e) => {
                    &&& r2 == ReplyView::Failed(e)
                    &&& s2 == idle
                },
            }
        }),
{
}

/// One handshake, one identifier: the login form carries the identifier that
/// the verification-code request carried, whatever identifier is on offer
/// when the later step is taken. It carries, as its code, the whole answer of
/// the verification-code endpoint, as its token what the landing page held,
/// and the credentials with their digests.
pub proof fn lemma_handshake_submits_what_it_gathered(
    username: Seq<char>,
    password: Seq<char>,
    index_page: Seq<char>,
    webfinger: Seq<char>,
    code: Seq<char>,
    second: Seq<char>,
)
    ensures
        ({
            let (s1, r1) = begin_login(username, password);
            let (s2, r2) = step(s1, index_page, webfinger);
            let (s3, r3) = step(s2, code, second);
            token_in(index_page) matches Ok(token) ==> {
                &&& field(form_sent(r2), "webfinger"@) == Some(webfinger)
                &&& field(form_sent(r3), "webfinger"@) == Some(webfinger)
                &&& field(form_sent(r3), "code"@) == Some(code)
                &&& field(form_sent(r3), "rnd"@) == Some(token)
                &&& field(form_sent(r3), "userName"@) == Some(username)
                &&& field(form_sent(r3), "password"@) == Some(password)
                &&& field(form_sent(r3), "userName1"@) == Some(username_digest_of(username))
                &&& field(form_sent(r3), "password1"@) == Some(
                    credential_digest_of(username, password),
                )
            }
        }),
{
    match token_in(index_page) {
        Ok(token) => {
            lemma_login_fields_by_key(username, password, webfinger, token, code);
            assert(code_fields(webfinger)[0].0 == "webfinger"@);
        },
        Err(_) => {},
    }
}

/// The schedule fetch from end to end: the entry page is asked for and its
/// answer dropped; the listing is asked for; its weekly table is the outcome,
/// or the error that says what was missing. Either way the client then awaits
/// nothing and is otherwise as it was.
pub proof fn lemma_course_fetch_run(
    state: State,
    entry_page: Seq<char>,
    listing: Seq<char>,
    first: Seq<char>,
    second: Seq<char>,
)
    ensures
        ({
            let (s1, r1) = begin_courses(state);
            let (s2, r2) = step(s1, entry_page, first);
            let (s3, r3) = step(s2, listing, second);
            &&& r1 == get_of(COURSE_URL@, false)
            &&& r2 == ReplyView::Send(get_of(COURSE_LIST_URL@, true))
            &&& r3 == match schedule_in(listing) {
                Ok(table) => ReplyView::Courses(table),
                Err(e) => ReplyView::Failed(e),
            }
            &&& s3 == State { login_begun: state.login_begun, stage: Stage::Idle }
        }),
{
}

/// A body that is not wanted is not read: after a request that says so, the
/// next step is the same whatever text is handed in.
pub proof fn lemma_unwanted_body_is_not_read(
    state: State,
    body: Seq<char>,
    webfinger: Seq<char>,
    one: Seq<char>,
    other: Seq<char>,
    next: Seq<char>,
)
    ensures
        ({
            let (after, reply) = step(state, body, webfinger);
            reply matches ReplyView::Send(request) && !request.wants_body ==> step(
                after,
                one,
                next,
            ) == step(after, other, next)
        }),
        ({
            let (after, request) = begin_courses(state);
            !request.wants_body && step(after, one, next) == step(after, other, next)
        }),
{
}

/// What the client answers a response with.
#[derive(Debug)]
pub enum Reply {
    /// Perform this request next and hand its response body to `receive`.
    Send(Request),
    /// The login form went through the transport. Whether the portal accepted
    /// the credentials is not known: its answer is not inspected.
    LoggedIn,
    /// The weekly table of the schedule page, as HTML.
    Courses(String),
    /// The page did not hold what was looked for; the exchange is over.
    Failed(ExtractionError),
    /// No response was awaited; the body was dropped.
    Ignored,
}

impl View for Reply {
    type V = ReplyView;

    open spec fn view(&self) -> ReplyView {
        match self {
            Reply::Send(request) => ReplyView::Send(request@),
            Reply::LoggedIn => ReplyView::LoggedIn,
            Reply::Courses(table) => ReplyView::Courses(table@),
            Reply::Failed(e) => ReplyView::Failed(*e),
            Reply::Ignored => ReplyView::Ignored,
        }
    }
}

/// Which response is awaited.
#[derive(Clone, Copy, Debug, PartialEq, Eq, Structural)]
enum Pending {
    Nothing,
    Index,
    Code,
    Login,
    CourseContext,
    CourseList,
}

/// The session client.
pub struct Client {
    login_begun: bool,
    pending: Pending,
    username: String,
    password: String,
    token: String,
    webfinger: String,
}

impl View for Client {
    type V = State;

    closed spec fn view(&self) -> State {
        State {
            login_begun: self.login_begun,
            stage: match self.pending {
                Pending::Nothing => Stage::Idle,
                Pending::Index => Stage::AwaitingIndex {
                    username: self.username@,
                    password: self.password@,
                },
                Pending::Code => Stage::AwaitingCode {
                    username: self.username@,
                    password: self.password@,
                    token: self.token@,
                    webfinger: self.webfinger@,
                },
                Pending::Login => Stage::AwaitingLogin,
                Pending::CourseContext => Stage::AwaitingCourseContext,
                Pending::CourseList => Stage::AwaitingCourseList,
            },
        }
    }
}

impl Client {
    /// A client that has not spoken to the portal yet.
    pub fn new() -> (client: Client)
        ensures
            client@ == fresh(),
    {
        Client {
            login_begun: false,
            pending: Pending::Nothing,
            username: String::new(),
            password: String::new(),
            token: String::new(),
            webfinger: String::new(),
        }
    }

    /// Whether `login` has been called on this client.
    pub fn login_begun(&self) -> (begun: bool)
        ensures
            begun == self@.login_begun,
    {
        self.login_begun
    }

    /// Opens the login handshake and returns its first request. To be called
    /// once in the life of a client, and no more.
    pub fn login(&mut self, username: &str, password: &str) -> (request: Request)
        requires
            !old(self)@.login_begun,
        ensures
            (final(self)@, request@) == begin_login(username@, password@),
    {
        self.login_begun = true;
        self.pending = Pending::Index;
        self.username = username.to_owned();
        self.password = password.to_owned();
        Request::get(INDEX_URL, true)
    }

    /// Opens the schedule fetch and returns its first request. An exchange
    /// left half way is given up.
    pub fn get_courses(&mut self) -> (request: Request)
        ensures
            (final(self)@, request@) == begin_courses(old(self)@),
    {
        self.abandon();
        self.pending = Pending::CourseContext;
        Request::get(COURSE_URL, false)
    }

    /// Gives up the exchange under way, if there is one: the credentials and
    /// what the handshake gathered are dropped, and no response is awaited.
    pub fn abandon(&mut self)
        ensures
            final(self)@ == abandoned(old(self)@),
    {
        self.pending = Pending::Nothing;
        self.username = String::new();
        self.password = String::new();
        self.token = String::new();
        self.webfinger = String::new();
    }

    /// Takes the response to the request sent last and answers with the next
    /// request or with the outcome, using `webfinger` wherever the step calls
    /// for a new session identifier.
    pub fn receive_with(&mut self, body: &str, webfinger: String) -> (reply: Reply)
        ensures
            (final(self)@, reply@) == step(old(self)@, body@, webfinger@),
    {
        match self.pending {
            Pending::Nothing => Reply::Ignored,
            Pending::Index => match extract_token(body) {
                Ok(token) => self.ask_for_code(token, webfinger),
                Err(e) => {
                    self.abandon();
                    Reply::Failed(e)
                },
            },
            Pending::Code => {
                let form = login_form(
                    self.username.as_str(),
                    self.password.as_str(),
                    self.webfinger.as_str(),
                    self.token.as_str(),
                    body,
                );
                self.abandon();
                self.pending = Pending::Login;
                Reply::Send(Request::post(LOGIN_URL, form, false))
            },
            Pending::Login => {
                self.pending = Pending::Nothing;
                Reply::LoggedIn
            },
            Pending::CourseContext => {
                self.pending = Pending::CourseList;
                Reply::Send(Request::get(COURSE_LIST_URL, true))
            },
            Pending::CourseList => {
                self.pending = Pending::Nothing;
                match extract_schedule(body) {
                    Ok(table) => Reply::Courses(table),
                    Err(e) => Reply::Failed(e),
                }
            },
        }
    }

    /// Takes the response to the request sent last and answers with the next
    /// request or with the outcome. A fresh random session identifier is
    /// drawn where the step calls for one, that is once the landing page has
    /// yielded its token, and nowhere else.
    pub fn receive(&mut self, body: &str) -> (reply: Reply)
        ensures
            exists|webfinger: Seq<char>|
                is_web_finger(webfinger) && (final(self)@, reply@) == #[trigger] step(
                    old(self)@,
                    body@,
                    webfinger,
                ),
    {
        match self.pending {
            Pending::Index => match extract_token(body) {
                Ok(token) => {
                    let webfinger = generate_random_web_finger();
                    let reply = self.ask_for_code(token, webfinger);
                    assert((self@, reply@) == step(old(self)@, body@, webfinger@));
                    reply
                },
                Err(e) => {
                    self.abandon();
                    let reply = Reply::Failed(e);
                    proof {
                        let unused = lemma_web_finger_exists();
                        assert((self@, reply@) == step(old(self)@, body@, unused));
                    }
                    reply
                },
            },
            _ => {
                let reply = self.receive_with(body, String::new());
                proof {
                    let unused = lemma_web_finger_exists();
                    assert((self@, reply@) == step(old(self)@, body@, unused));
                }
                reply
            },
        }
    }

    /// Keeps the token and the identifier, and asks for the verification
    /// code that belongs to the identifier.
    fn ask_for_code(&mut self, token: String, webfinger: String) -> (reply: Reply)
        requires
            old(self).pending == Pending::Index,
        ensures
            final(self)@ == (State {
                login_begun: old(self)@.login_begun,
                stage: Stage::AwaitingCode {
                    username: old(self).username@,
                    password: old(self).password@,
                    token: token@,
                    webfinger: webfinger@,
                },
            }),
            reply@ == ReplyView::Send(post_of(CODE_URL@, code_fields(webfinger@), true)),
    {
        let form = code_form(webfinger.as_str());
        self.token = token;
        self.webfinger = webfinger;
        self.pending = Pending::Code;
        Reply::Send(Request::post(CODE_URL, form, true))
    }
}

} // verus!
