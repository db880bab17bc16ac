use njupt_wifi::status::{check_status_body, classify_status, parse_status, SessionState, StatusBody};

#[test]
fn envelope_stripping_reads_the_wrapped_record() {
    let raw = "ac{\"result\":\"1\",\"msg\":\"ok\",\"account\":\"u1\"}x";
    let b = parse_status(raw).expect("two leading and one trailing character wrap valid JSON");
    assert_eq!(b.result, "1");
    assert_eq!(b.msg, "ok");
    assert_eq!(b.account, Some("u1".to_string()));
}

#[test]
fn envelope_is_stripped_and_matching_account_is_online() {
    let raw = "ac{\"result\":\"1\",\"msg\":\"ok\",\"account\":\"u1\"}x";
    assert_eq!(
        check_status_body(raw, &"u1".to_string()),
        Some(SessionState::Online)
    );
}

#[test]
fn other_account_on_record_is_online_as_other() {
    let raw = "ac{\"result\":\"1\",\"msg\":\"ok\",\"account\":\"someone_else\"}x";
    assert_eq!(
        check_status_body(raw, &"u1".to_string()),
        Some(SessionState::OnlineAsOther)
    );
}

#[test]
fn absent_account_is_offline() {
    let raw = "ac{\"result\":\"0\",\"msg\":\"ok\"}x";
    assert_eq!(
        check_status_body(raw, &"u1".to_string()),
        Some(SessionState::Offline)
    );
}

#[test]
fn classification_is_exhaustive_and_exclusive() {
    let account = "u1".to_string();
    let bodies = [
        StatusBody { result: "1".to_string(), msg: "ok".to_string(), account: None },
        StatusBody { result: "1".to_string(), msg: "ok".to_string(), account: Some("u1".to_string()) },
        StatusBody { result: "1".to_string(), msg: "ok".to_string(), account: Some("u2".to_string()) },
    ];
    let states: Vec<SessionState> = bodies.iter().map(|b| classify_status(b, &account)).collect();
    assert_eq!(states[0], SessionState::Offline);
    assert_eq!(states[1], SessionState::Online);
    assert_eq!(states[2], SessionState::OnlineAsOther);
    for (i, a) in states.iter().enumerate() {
        let variants = [
            matches!(a, SessionState::Online),
            matches!(a, SessionState::OnlineAsOther),
            matches!(a, SessionState::Offline),
        ];
        assert_eq!(variants.iter().filter(|v| **v).count(), 1, "body {} produced more or fewer than one variant", i);
    }
}

#[test]
fn body_that_is_not_json_after_stripping_is_malformed() {
    assert_eq!(check_status_body("acnot-json-x", &"u1".to_string()), None);
    assert_eq!(check_status_body("ac{\"result\":\"1\"}x", &"u1".to_string()), None);
}

#[test]
fn body_too_short_for_the_envelope_is_malformed() {
    assert_eq!(check_status_body("", &"u1".to_string()), None);
    assert_eq!(check_status_body("ac", &"u1".to_string()), None);
}

#[test]
fn null_account_is_offline() {
    let raw = "ac{\"result\":\"0\",\"msg\":\"ok\",\"account\":null}x";
    assert_eq!(
        check_status_body(raw, &"u1".to_string()),
        Some(SessionState::Offline)
    );
}
