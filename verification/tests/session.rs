use quantel_connect::config::QBuilder;
use quantel_connect::config::Values;
use quantel_connect::portal::exit_code;
use quantel_connect::portal::form_fields;
use quantel_connect::portal::post_headers;
use quantel_connect::portal::Action;
use quantel_connect::portal::ConnectionResult;
use quantel_connect::portal::Event;
use quantel_connect::portal::Phase;
use quantel_connect::portal::Session;
use quantel_connect::portal::QUANTIC_ACCOUNT;
use quantel_connect::portal::QUANTIC_PORTAL;

fn creds(force: bool) -> Values {
    QBuilder::new()
        .set_user(Some("alice"))
        .set_pass(Some("secret"))
        .set_force(force)
        .build()
        .unwrap()
}

fn pairs(v: &[(&str, &str)]) -> Vec<(String, String)> {
    v.iter().map(|(a, b)| (a.to_string(), b.to_string())).collect()
}

const LOGIN_PAGE: &str =
    "<html><form><input name=\"email\"><input name=\"_token\" value=\"T1\"></form></html>";

#[test]
fn force_true_maps_to_on() {
    let fields = form_fields("T1", &creds(true));
    assert_eq!(fields[3], ("confirm_other_connections".to_string(), "on".to_string()));
}

#[test]
fn force_false_maps_to_off() {
    let fields = form_fields("T1", &creds(false));
    assert_eq!(fields[3], ("confirm_other_connections".to_string(), "off".to_string()));
}

#[test]
fn form_fields_exact_order() {
    let fields = form_fields("T1", &creds(false));
    assert_eq!(
        fields,
        pairs(&[
            ("_token", "T1"),
            ("email", "alice"),
            ("password", "secret"),
            ("confirm_other_connections", "off"),
        ])
    );
}

#[test]
fn post_headers_exact() {
    assert_eq!(
        post_headers(),
        pairs(&[
            ("Connection", "close"),
            ("Referer", "https://www.quantic-telecom.net/connexion-reseau"),
            ("Origin", "https://www.quantic-telecom.net"),
            ("Filename", "/connexion-reseau"),
        ])
    );
}

#[test]
fn full_run_success() {
    let (mut session, first) = Session::start(creds(false));
    assert_eq!(first, Action::Get(QUANTIC_PORTAL.to_string()));

    let post = session.step(Event::Fetched(LOGIN_PAGE.to_string()));
    match post {
        Action::Post(url, fields, headers) => {
            assert_eq!(url, QUANTIC_PORTAL);
            assert_eq!(
                fields,
                pairs(&[
                    ("_token", "T1"),
                    ("email", "alice"),
                    ("password", "secret"),
                    ("confirm_other_connections", "off"),
                ])
            );
            assert_eq!(headers, post_headers());
        },
        other => panic!("expected a POST, got {:?}", other),
    }

    let verify = session.step(Event::PostDone(200));
    assert_eq!(verify, Action::Get(QUANTIC_ACCOUNT.to_string()));

    let body = "<html>menu<!-- Static sidebar for desktop -->rest</html>";
    let done = session.step(Event::Fetched(body.to_string()));
    assert_eq!(done, Action::Finish(ConnectionResult::Success));
    assert_eq!(session.phase, Phase::Done);
    assert_eq!(exit_code(&ConnectionResult::Success), 0);
}

#[test]
fn run_without_marker_is_rejected() {
    let (mut session, _) = Session::start(creds(false));
    session.step(Event::Fetched(LOGIN_PAGE.to_string()));
    session.step(Event::PostDone(302));
    let done = session.step(Event::Fetched("<html>please log in</html>".to_string()));
    assert_eq!(done, Action::Finish(ConnectionResult::Rejected));
    assert_eq!(exit_code(&ConnectionResult::Rejected), 1);
}

#[test]
fn network_error_on_login_page_fetch_is_terminal() {
    let (mut session, _) = Session::start(creds(false));
    let done = session.step(Event::Failed("connection refused".to_string()));
    assert_eq!(
        done,
        Action::Finish(ConnectionResult::TransportError("connection refused".to_string()))
    );
    assert_eq!(session.phase, Phase::Done);
    assert_eq!(
        exit_code(&ConnectionResult::TransportError("connection refused".to_string())),
        1
    );
}

#[test]
fn network_error_during_post_is_terminal() {
    let (mut session, _) = Session::start(creds(false));
    session.step(Event::Fetched(LOGIN_PAGE.to_string()));
    let done = session.step(Event::Failed("broken pipe".to_string()));
    assert_eq!(
        done,
        Action::Finish(ConnectionResult::TransportError("broken pipe".to_string()))
    );
}

#[test]
fn page_without_token_stops_before_post() {
    let (mut session, _) = Session::start(creds(false));
    let done = session.step(Event::Fetched("<html><input name=\"x\"></html>".to_string()));
    assert_eq!(done, Action::Finish(ConnectionResult::TokenNotFound));
    assert_eq!(session.phase, Phase::Done);
    assert_eq!(exit_code(&ConnectionResult::TokenNotFound), 1);
}

#[test]
fn empty_token_stops_before_post() {
    let (mut session, _) = Session::start(creds(false));
    let page = "<html><input name=\"_token\" value=\"\"></html>";
    let done = session.step(Event::Fetched(page.to_string()));
    assert_eq!(done, Action::Finish(ConnectionResult::TokenNotFound));
}

#[test]
fn post_status_is_not_validated() {
    let (mut session, _) = Session::start(creds(false));
    session.step(Event::Fetched(LOGIN_PAGE.to_string()));
    let next = session.step(Event::PostDone(500));
    assert_eq!(next, Action::Get(QUANTIC_ACCOUNT.to_string()));
}

#[test]
fn forced_run_posts_on() {
    let (mut session, _) = Session::start(creds(true));
    let post = session.step(Event::Fetched(LOGIN_PAGE.to_string()));
    match post {
        Action::Post(_, fields, _) => {
            assert_eq!(
                fields[3],
                ("confirm_other_connections".to_string(), "on".to_string())
            );
        },
        other => panic!("expected a POST, got {:?}", other),
    }
}
