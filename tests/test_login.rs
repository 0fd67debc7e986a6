use crusty_maimai::session::{
    get_auth_url, get_home_url, AuthFailure, Flow, Method, Operation, Reply, SessionError, Step,
};

fn landed(url: &str, host: Option<&str>, body: Option<&str>) -> Reply {
    Reply::Landed {
        final_url: String::from(url),
        host: host.map(String::from),
        body: body.map(String::from),
    }
}

fn pairs(v: &[(String, String)]) -> Vec<(&str, &str)> {
    v.iter().map(|(a, b)| (a.as_str(), b.as_str())).collect()
}

fn credentials() -> Operation {
    Operation::LoginWithCredentials { username: String::from("123"), password: String::from("456") }
}

#[test]
fn urls() {
    assert_eq!(get_auth_url(), "https://lng-tgk-aime-gw.am-all.net/common_auth/login");
    assert_eq!(get_home_url(), "https://maimaidx-eng.com/maimai-mobile");
}

#[test]
fn credentials_login_requests() {
    let (mut flow, first) = Flow::start(credentials());
    assert_eq!(first.method, Method::Get);
    assert_eq!(first.url, "https://lng-tgk-aime-gw.am-all.net/common_auth/login");
    assert_eq!(
        pairs(&first.query),
        vec![
            ("site_id", "maimaidxex"),
            ("redirect_url", "https://maimaidx-eng.com/maimai-mobile"),
            ("back_url", "https://maimai.sega.com/"),
        ]
    );
    assert!(first.form.is_empty());
    let step = flow.advance(landed(
        "https://lng-tgk-aime-gw.am-all.net/common_auth/login",
        Some("lng-tgk-aime-gw.am-all.net"),
        Some("<html>gate</html>"),
    ));
    match step {
        Step::Send(post) => {
            assert_eq!(post.method, Method::Post);
            assert_eq!(post.url, "https://lng-tgk-aime-gw.am-all.net/common_auth/login/sid");
            assert!(post.query.is_empty());
            assert_eq!(pairs(&post.form), vec![("retention", "1"), ("sid", "123"), ("password", "456")]);
        }
        _ => panic!("expected the credentials post"),
    }
    assert!(!flow.is_finished());
}

#[test]
fn credentials_login_success() {
    let (mut flow, _) = Flow::start(credentials());
    flow.advance(landed("https://lng-tgk-aime-gw.am-all.net/common_auth/login", Some("lng-tgk-aime-gw.am-all.net"), None));
    let step = flow.advance(landed(
        "https://maimaidx-eng.com/maimai-mobile/home/",
        Some("maimaidx-eng.com"),
        Some("<html>home</html>"),
    ));
    assert!(matches!(step, Step::Page(ref p) if p == "<html>home</html>"));
    assert!(flow.is_finished());
}

#[test]
fn credentials_login_rejected() {
    let (mut flow, _) = Flow::start(credentials());
    flow.advance(landed("https://lng-tgk-aime-gw.am-all.net/common_auth/login", Some("lng-tgk-aime-gw.am-all.net"), None));
    let step = flow.advance(landed(
        "https://lng-tgk-aime-gw.am-all.net/common_auth/login?error=1",
        Some("lng-tgk-aime-gw.am-all.net"),
        Some("<html>try again</html>"),
    ));
    assert!(matches!(step, Step::Failed(SessionError::Authentication(AuthFailure::InvalidCredentials))));
}

#[test]
fn credentials_login_unreachable() {
    let (mut flow, _) = Flow::start(credentials());
    assert!(matches!(flow.advance(Reply::Unreachable), Step::Failed(SessionError::Unreachable)));
    assert!(flow.is_finished());
}

#[test]
fn credentials_login_undecodable() {
    let (mut flow, _) = Flow::start(credentials());
    flow.advance(landed("https://lng-tgk-aime-gw.am-all.net/common_auth/login", Some("lng-tgk-aime-gw.am-all.net"), None));
    let step = flow.advance(landed("https://maimaidx-eng.com/maimai-mobile/home/", Some("maimaidx-eng.com"), None));
    assert!(matches!(step, Step::Failed(SessionError::EmptyResponse)));
}

#[test]
fn ssid_login() {
    let (mut flow, first) = Flow::start(Operation::LoginWithSsid { ssid: String::from("abc") });
    assert_eq!(first.method, Method::Get);
    assert_eq!(first.url, "https://maimaidx-eng.com/maimai-mobile");
    assert_eq!(pairs(&first.query), vec![("ssid", "abc")]);
    let step = flow.advance(landed(
        "https://maimaidx-eng.com/maimai-mobile/home/",
        Some("maimaidx-eng.com"),
        Some("<p>hi</p>"),
    ));
    assert!(matches!(step, Step::Page(ref p) if p == "<p>hi</p>"));
}

#[test]
fn ssid_login_rejected() {
    let (mut flow, _) = Flow::start(Operation::LoginWithSsid { ssid: String::from("abc") });
    let step = flow.advance(landed(
        "https://maimaidx-eng.com/maimai-mobile/error/",
        Some("maimaidx-eng.com"),
        Some("<p>error</p>"),
    ));
    assert!(matches!(step, Step::Failed(SessionError::Authentication(AuthFailure::InvalidSessionId))));
}

#[test]
fn logout_when_not_logged_in() {
    let (mut flow, first) = Flow::start(Operation::Logout);
    assert_eq!(first.url, "https://maimaidx-eng.com/maimai-mobile/home/userOption");
    let step = flow.advance(landed("https://maimaidx-eng.com/maimai-mobile/error/", Some("maimaidx-eng.com"), None));
    assert!(matches!(step, Step::Failed(SessionError::NotAuthenticated)));
}

#[test]
fn logout_when_logged_in() {
    let (mut flow, _) = Flow::start(Operation::Logout);
    let step = flow.advance(landed(
        "https://maimaidx-eng.com/maimai-mobile/home/userOption/",
        Some("maimaidx-eng.com"),
        Some("options"),
    ));
    match step {
        Step::Send(req) => {
            assert_eq!(req.method, Method::Get);
            assert_eq!(req.url, "https://maimaidx-eng.com/maimai-mobile/home/userOption/logout");
        }
        _ => panic!("expected the logout request"),
    }
    let step = flow.advance(landed("https://maimai.sega.com/", Some("maimai.sega.com"), None));
    assert!(matches!(step, Step::LoggedOut));
    assert!(flow.is_finished());
}

#[test]
fn jump_to_page() {
    let place = "https://maimaidx-eng.com/maimai-mobile/playerData/";
    let (mut flow, first) = Flow::start(Operation::JumpTo { place: String::from(place) });
    assert_eq!(first.url, place);
    assert!(first.query.is_empty());
    let step = flow.advance(landed(place, Some("maimaidx-eng.com"), Some("data")));
    assert!(matches!(step, Step::Page(ref p) if p == "data"));
}

#[test]
fn jump_to_without_session() {
    let (mut flow, _) = Flow::start(Operation::JumpTo {
        place: String::from("https://maimaidx-eng.com/maimai-mobile/playerData/"),
    });
    let step = flow.advance(landed(
        "https://lng-tgk-aime-gw.am-all.net/common_auth/login",
        Some("lng-tgk-aime-gw.am-all.net"),
        Some("login"),
    ));
    assert!(matches!(step, Step::Failed(SessionError::NotAuthenticated)));
}

#[test]
fn jump_to_without_host() {
    let (mut flow, _) = Flow::start(Operation::JumpTo { place: String::from("data:text/plain,x") });
    let step = flow.advance(landed("data:text/plain,x", None, Some("x")));
    assert!(matches!(step, Step::Page(ref p) if p == "x"));
}

#[test]
fn error_messages() {
    assert_eq!(
        SessionError::Authentication(AuthFailure::InvalidCredentials).message(),
        "invalid credentials"
    );
    assert_eq!(
        SessionError::Authentication(AuthFailure::InvalidSessionId).message(),
        "invalid or revoked session id"
    );
    assert!(!SessionError::NotAuthenticated.message().is_empty());
}

#[test]
fn logout_fails() {
    let (mut flow, first) = Flow::start(Operation::Logout);
    assert_eq!(first.url, "https://maimaidx-eng.com/maimai-mobile/home/userOption");
    let step = flow.advance(landed("https://maimaidx-eng.com/maimai-mobile/error/", Some("maimaidx-eng.com"), None));
    assert!(matches!(step, Step::Failed(SessionError::NotAuthenticated)));
    assert!(flow.is_finished());
}
