use njupt_wifi::account::{Credential, IspType};
use njupt_wifi::orchestrator::{HttpEvent, LoginAction, LoginAttempt, LoginError};

fn cred() -> Credential {
    Credential {
        userid: "u1".to_string(),
        password: "p".to_string(),
        isp: IspType::EDU,
    }
}

fn body(s: &str) -> HttpEvent {
    HttpEvent::Body(s.to_string())
}

const PAGE: &str = "<script>ss5=\"1.2.3.4\";</script>";
const STATUS_OFFLINE: &str = "ac{\"result\":\"0\",\"msg\":\"ok\"}x";
const STATUS_ONLINE_U1: &str = "ac{\"result\":\"1\",\"msg\":\"ok\",\"account\":\"u1\"}x";
const STATUS_ONLINE_OTHER: &str = "ac{\"result\":\"1\",\"msg\":\"ok\",\"account\":\"u2\"}x";

#[test]
fn already_online_skips_submission_and_succeeds() {
    let (mut m, act) = LoginAttempt::start(&cred());
    match act {
        LoginAction::Get { url, legacy_charset } => {
            assert_eq!(url, "http://10.10.244.11/");
            assert!(legacy_charset);
        }
        _ => panic!("expected the landing-page GET"),
    }
    let act = m.step(body(PAGE));
    match act {
        LoginAction::Get { url, legacy_charset } => {
            assert_eq!(
                url,
                "http://10.10.244.11:801/eportal/?c=ACSetting&a=checkScanIP&wlanuserip=1.2.3.4"
            );
            assert!(!legacy_charset);
        }
        _ => panic!("expected the status GET"),
    }
    let act = m.step(body(STATUS_ONLINE_U1));
    assert!(matches!(act, LoginAction::Done(Ok(()))));
}

#[test]
fn session_of_another_account_also_skips_submission() {
    let (mut m, _) = LoginAttempt::start(&cred());
    let _ = m.step(body(PAGE));
    let act = m.step(body(STATUS_ONLINE_OTHER));
    assert!(matches!(act, LoginAction::Done(Ok(()))));
}

#[test]
fn still_offline_after_submission_is_an_authentication_failure() {
    let (mut m, _) = LoginAttempt::start(&cred());
    let _ = m.step(body(PAGE));
    let mut posts = 0;
    let act = m.step(body(STATUS_OFFLINE));
    match act {
        LoginAction::PostForm { url, account, password } => {
            posts += 1;
            assert_eq!(
                url,
                "http://10.10.244.11:801/eportal/?c=ACSetting&a=Login&wlanuserip=1.2.3.4&wlanacip=10.255.252.150"
            );
            assert_eq!(account, "u1");
            assert_eq!(password, "p");
        }
        _ => panic!("expected the credential submission"),
    }
    let act = m.step(body(""));
    assert!(matches!(act, LoginAction::Get { .. }));
    let act = m.step(body(STATUS_OFFLINE));
    assert!(matches!(
        act,
        LoginAction::Done(Err(LoginError::AuthenticationFailed))
    ));
    assert_eq!(posts, 1);
}

#[test]
fn end_to_end_successful_login() {
    let (mut m, act) = LoginAttempt::start(&cred());
    let mut page_gets = 0;
    let mut status_gets = 0;
    let mut posts = 0;
    match &act {
        LoginAction::Get { legacy_charset: true, .. } => page_gets += 1,
        _ => panic!("expected the landing-page GET"),
    }
    let act = m.step(body(PAGE));
    match &act {
        LoginAction::Get { legacy_charset: false, .. } => status_gets += 1,
        _ => panic!("expected the first status GET"),
    }
    let act = m.step(body(STATUS_OFFLINE));
    match &act {
        LoginAction::PostForm { .. } => posts += 1,
        _ => panic!("expected the credential submission"),
    }
    let act = m.step(body("login response, ignored"));
    match &act {
        LoginAction::Get { legacy_charset: false, .. } => status_gets += 1,
        _ => panic!("expected the confirmation status GET"),
    }
    let act = m.step(body(STATUS_ONLINE_U1));
    assert!(matches!(act, LoginAction::Done(Ok(()))));
    assert_eq!(page_gets, 1);
    assert_eq!(status_gets, 2);
    assert_eq!(posts, 1);
}

#[test]
fn page_without_marker_fails_as_address_unavailable() {
    let (mut m, _) = LoginAttempt::start(&cred());
    let act = m.step(body("<html>no marker anywhere</html>"));
    assert!(matches!(
        act,
        LoginAction::Done(Err(LoginError::AddressUnavailable))
    ));
}

#[test]
fn transport_failure_fails_the_attempt() {
    let (mut m, _) = LoginAttempt::start(&cred());
    let act = m.step(HttpEvent::TransportFailed);
    assert!(matches!(
        act,
        LoginAction::Done(Err(LoginError::TransportError))
    ));
}

#[test]
fn malformed_status_body_fails_the_attempt() {
    let (mut m, _) = LoginAttempt::start(&cred());
    let _ = m.step(body(PAGE));
    let act = m.step(body("garbage"));
    assert!(matches!(
        act,
        LoginAction::Done(Err(LoginError::MalformedResponse))
    ));
}

#[test]
fn cmcc_credential_submits_the_derived_account() {
    let c = Credential {
        userid: "u1".to_string(),
        password: "p".to_string(),
        isp: IspType::CMCC,
    };
    let (mut m, _) = LoginAttempt::start(&c);
    let _ = m.step(body(PAGE));
    let act = m.step(body(STATUS_OFFLINE));
    match act {
        LoginAction::PostForm { account, .. } => assert_eq!(account, "u1@cmcc"),
        _ => panic!("expected the credential submission"),
    }
}
