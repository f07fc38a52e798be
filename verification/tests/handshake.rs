use wut_jwc::client::{
    Client, Reply, CODE_URL, COURSE_LIST_URL, COURSE_URL, INDEX_URL, LOGIN_URL,
};
use wut_jwc::request::{Method, Request};
use wut_jwc::scrape::{Cause, ExtractionError, Target};

const INDEX_PAGE: &str = "<html><body><form><input name=\"rnd\" value=\"abc123\"></form></body></html>";

fn sent(reply: Reply) -> Request {
    match reply {
        Reply::Send(request) => request,
        other => panic!("expected a request, got {:?}", other),
    }
}

fn value<'a>(form: &'a [(String, String)], key: &str) -> &'a str {
    let mut hits = form.iter().filter(|(k, _)| k == key);
    let hit = hits.next().expect("the key is there");
    assert!(hits.next().is_none());
    &hit.1
}

/// A portal that answers in memory: the landing page carries a token, and the
/// verification-code endpoint echoes the identifier behind `code-`.
fn serve(request: &Request) -> String {
    if request.url == INDEX_URL {
        assert_eq!(request.method, Method::Get);
        String::from(INDEX_PAGE)
    } else if request.url == CODE_URL {
        assert_eq!(request.method, Method::Post);
        format!("code-{}", value(&request.form, "webfinger"))
    } else if request.url == LOGIN_URL {
        assert_eq!(request.method, Method::Post);
        String::from("<html>welcome</html>")
    } else if request.url == COURSE_URL {
        String::from("<html>courses</html>")
    } else if request.url == COURSE_LIST_URL {
        String::from("<html><body><div id=\"weekTable\"><p>Mon</p></div></body></html>")
    } else {
        panic!("unknown endpoint {}", request.url)
    }
}

#[test]
fn endpoints_are_the_portals() {
    assert_eq!(INDEX_URL, "http://sso.jwc.whut.edu.cn/Certification//toIndex.do");
    assert_eq!(CODE_URL, "http://sso.jwc.whut.edu.cn/Certification//getCode.do");
    assert_eq!(LOGIN_URL, "http://sso.jwc.whut.edu.cn/Certification//login.do");
    assert_eq!(COURSE_URL, "http://218.197.102.183/Course");
    assert_eq!(COURSE_LIST_URL, "http://218.197.102.183/Course/grkbList.do");
}

#[test]
fn requests_are_built_as_asked() {
    let get = Request::get("http://example.invalid/a", true);
    assert_eq!(get.method, Method::Get);
    assert_eq!(get.url, "http://example.invalid/a");
    assert!(get.form.is_empty());
    assert!(get.wants_body);
    let form = vec![(String::from("k"), String::from("v"))];
    let post = Request::post("http://example.invalid/b", form.clone(), false);
    assert_eq!(post.method, Method::Post);
    assert_eq!(post.url, "http://example.invalid/b");
    assert_eq!(post.form, form);
    assert!(!post.wants_body);
}

#[test]
fn a_new_client_has_not_begun_to_log_in() {
    let client = Client::new();
    assert!(!client.login_begun());
}

#[test]
fn a_response_that_nothing_awaits_is_ignored() {
    let mut client = Client::new();
    assert!(matches!(client.receive("<html></html>"), Reply::Ignored));
    assert!(matches!(client.receive_with("x", String::from("1")), Reply::Ignored));
    assert!(!client.login_begun());
}

#[test]
fn handshake_with_a_given_identifier() {
    let mut client = Client::new();
    let first = client.login("admin", "secret");
    assert!(client.login_begun());
    assert_eq!(first.method, Method::Get);
    assert_eq!(first.url, INDEX_URL);
    assert!(first.form.is_empty());
    assert!(first.wants_body);

    let second = sent(client.receive_with(&serve(&first), String::from("1f2e3d")));
    assert_eq!(second.method, Method::Post);
    assert_eq!(second.url, CODE_URL);
    assert_eq!(second.form, vec![(String::from("webfinger"), String::from("1f2e3d"))]);
    assert!(second.wants_body);

    let third = sent(client.receive_with(&serve(&second), String::from("ffff")));
    assert_eq!(third.method, Method::Post);
    assert_eq!(third.url, LOGIN_URL);
    let expected: Vec<(String, String)> = [
        ("MsgID", ""),
        ("KeyID", ""),
        ("UserName", ""),
        ("Password", ""),
        ("return_EncData", ""),
        ("type", "xs"),
        ("userName", "admin"),
        ("password", "secret"),
        ("webfinger", "1f2e3d"),
        ("rnd", "abc123"),
        ("code", "code-1f2e3d"),
        ("userName1", "21232f297a57a5a743894a0e4a801fc3"),
        ("password1", "69590c5075137e4e42658c15f8f73d982e76b056"),
    ]
    .iter()
    .map(|(k, v)| (k.to_string(), v.to_string()))
    .collect();
    assert_eq!(third.form, expected);
    assert!(!third.wants_body);

    assert!(matches!(client.receive_with(&serve(&third), String::from("0")), Reply::LoggedIn));
    assert!(matches!(client.receive("late"), Reply::Ignored));
    assert!(client.login_begun());
}

#[test]
fn handshake_submits_the_identifier_it_asked_the_code_for() {
    let mut client = Client::new();
    let first = client.login("admin", "secret");
    let second = sent(client.receive(&serve(&first)));
    let webfinger = value(&second.form, "webfinger").to_string();
    assert!(!webfinger.is_empty() && webfinger.len() <= 32);
    assert!(webfinger.chars().all(|c| matches!(c, '0'..='9' | 'a'..='f')));
    assert_eq!(second.form.len(), 1);

    let third = sent(client.receive(&serve(&second)));
    assert_eq!(value(&third.form, "webfinger"), webfinger);
    assert_eq!(value(&third.form, "code"), format!("code-{}", webfinger));
    assert_eq!(value(&third.form, "rnd"), "abc123");
    assert_eq!(third.form.len(), 13);

    assert!(matches!(client.receive(&serve(&third)), Reply::LoggedIn));
}

#[test]
fn handshake_takes_the_code_as_it_comes() {
    let mut client = Client::new();
    let _ = client.login("u", "p");
    let _ = sent(client.receive_with(INDEX_PAGE, String::from("a")));
    let third = sent(client.receive_with("  \n<b>42</b>\n", String::from("b")));
    assert_eq!(value(&third.form, "code"), "  \n<b>42</b>\n");
}

#[test]
fn handshake_does_not_read_the_answer_to_the_login() {
    for answer in ["", "wrong password", "<html>ok</html>"] {
        let mut client = Client::new();
        let first = client.login("admin", "bad");
        let second = sent(client.receive_with(&serve(&first), String::from("1")));
        let _ = sent(client.receive_with(&serve(&second), String::from("2")));
        assert!(matches!(client.receive_with(answer, String::from("3")), Reply::LoggedIn));
    }
}

#[test]
fn handshake_fails_on_a_page_without_a_token() {
    let mut client = Client::new();
    let _ = client.login("admin", "secret");
    let reply = client.receive("<html><body>down for maintenance</body></html>");
    match reply {
        Reply::Failed(e) => {
            assert_eq!(e, ExtractionError { target: Target::Token, cause: Cause::Element })
        }
        other => panic!("expected a failure, got {:?}", other),
    }
    assert!(matches!(client.receive("anything"), Reply::Ignored));
    assert!(client.login_begun());
}

#[test]
fn handshake_fails_on_a_token_field_without_a_value() {
    let mut client = Client::new();
    let _ = client.login("admin", "secret");
    match client.receive_with("<input name=\"rnd\">", String::from("1")) {
        Reply::Failed(e) => {
            assert_eq!(e, ExtractionError { target: Target::Token, cause: Cause::Attribute })
        }
        other => panic!("expected a failure, got {:?}", other),
    }
}

#[test]
fn course_fetch_returns_the_week_table() {
    let mut client = Client::new();
    let first = client.get_courses();
    assert_eq!(first.method, Method::Get);
    assert_eq!(first.url, COURSE_URL);
    assert!(first.form.is_empty());
    assert!(!first.wants_body);
    let second = sent(client.receive(&serve(&first)));
    assert_eq!(second.method, Method::Get);
    assert_eq!(second.url, COURSE_LIST_URL);
    assert!(second.form.is_empty());
    assert!(second.wants_body);
    match client.receive(&serve(&second)) {
        Reply::Courses(table) => assert_eq!(table, "<div id=\"weekTable\"><p>Mon</p></div>"),
        other => panic!("expected the table, got {:?}", other),
    }
    assert!(matches!(client.receive("late"), Reply::Ignored));
    assert!(!client.login_begun());
}

#[test]
fn course_fetch_fails_without_the_week_table() {
    let mut client = Client::new();
    let first = client.get_courses();
    let _ = sent(client.receive(&serve(&first)));
    match client.receive("<html><body>please log in</body></html>") {
        Reply::Failed(e) => {
            assert_eq!(e, ExtractionError { target: Target::Schedule, cause: Cause::Element })
        }
        other => panic!("expected a failure, got {:?}", other),
    }
}

#[test]
fn course_fetch_can_follow_a_login_and_repeat() {
    let mut client = Client::new();
    let mut request = client.login("admin", "secret");
    loop {
        match client.receive(&serve(&request)) {
            Reply::Send(next) => request = next,
            Reply::LoggedIn => break,
            other => panic!("unexpected {:?}", other),
        }
    }
    for _ in 0..2 {
        let mut request = client.get_courses();
        let table = loop {
            match client.receive(&serve(&request)) {
                Reply::Send(next) => request = next,
                Reply::Courses(table) => break table,
                other => panic!("unexpected {:?}", other),
            }
        };
        assert_eq!(table, "<div id=\"weekTable\"><p>Mon</p></div>");
    }
    assert!(client.login_begun());
}

#[test]
fn a_body_that_is_not_wanted_is_not_read() {
    let mut one = Client::new();
    let mut other = Client::new();
    let _ = one.get_courses();
    let _ = other.get_courses();
    let a = sent(one.receive(""));
    let b = sent(other.receive("<div id=\"weekTable\"></div>"));
    assert_eq!(a.url, b.url);
    assert_eq!(a.method, b.method);
    assert_eq!(a.form, b.form);
}

#[test]
fn an_abandoned_exchange_awaits_nothing() {
    let mut client = Client::new();
    let first = client.login("admin", "secret");
    let _ = sent(client.receive(&serve(&first)));
    client.abandon();
    assert!(matches!(client.receive("code-1"), Reply::Ignored));
    assert!(client.login_begun());
    client.abandon();
    assert!(matches!(client.receive("code-1"), Reply::Ignored));
}

#[test]
fn opening_a_fetch_drops_a_handshake_left_half_way() {
    let mut client = Client::new();
    let first = client.login("admin", "secret");
    let _ = sent(client.receive(&serve(&first)));
    let request = client.get_courses();
    assert_eq!(request.url, COURSE_URL);
    let next = sent(client.receive("whatever"));
    assert_eq!(next.url, COURSE_LIST_URL);
}
