//! Session-status classification. The status endpoint answers with JSON
//! wrapped in a legacy envelope: two extraneous leading characters and one
//! trailing character. The envelope is stripped here, the JSON record is
//! read through `serde_json`, and the optional account-on-record field is
//! classified against the derived account.

use vstd::prelude::*;

verus! {

/// The three session outcomes the status endpoint can report.
#[derive(Clone, Copy, PartialEq, Eq, Structural, Debug)]
pub enum SessionState {
    /// The account on record matches the derived account.
    Online,
    /// An account is on record but differs from the derived account.
    OnlineAsOther,
    /// No account is on record.
    Offline,
}

/// The status record: a result code, a message, and the optional
/// account-on-record field.
pub struct StatusBody {
    pub result: String,
    pub msg: String,
    pub account: Option<String>,
}

/// The status record at the specification level.
pub struct StatusView {
    pub result: Seq<char>,
    pub msg: Seq<char>,
    pub account: Option<Seq<char>>,
}

impl View for StatusBody {
    type V = StatusView;

    open spec fn view(&self) -> StatusView {
        StatusView {
            result: self.result@,
            msg: self.msg@,
            account: match self.account {
                Some(a) => Some(a@),
                None => None,
            },
        }
    }
}

/// What `serde_json` reads out of a stripped status body: `Some` exactly
/// when the text is a JSON object whose `result` and `msg` fields are
/// strings and whose `account` field, if present and non-null, is a string.
/// The result depends on the characters alone.
pub uninterp spec fn json_status_of(s: Seq<char>) -> Option<StatusView>;

/// Relies on `serde_json::from_str`: parses the stripped status body as a
/// JSON object and moves its `result`, `msg` and optional `account` string
/// fields into plain values.
#[verifier::external_body]
fn parse_status_body(s: &str) -> (r: Option<StatusBody>)
    ensures
        r matches Some(b) ==> json_status_of(s@) == Some(b@),
        r is None ==> json_status_of(s@) is None,
{
    let v: serde_json::Value = match serde_json::from_str(s) {
        Ok(v) => v,
        Err(_) => { return None; },
    };
    let result = v.get("result")?.as_str()?.to_string();
    let msg = v.get("msg")?.as_str()?.to_string();
    let account = match v.get("account") {
        None => None,
        Some(serde_json::Value::Null) => None,
        Some(a) => Some(a.as_str()?.to_string()),
    };
    Some(StatusBody { result, msg, account })
}

/// The classification of a status record against the derived account.
pub open spec fn classify_spec(b: StatusView, account: Seq<char>) -> SessionState {
    match b.account {
        Some(a) => if a == account {
            SessionState::Online
        } else {
            SessionState::OnlineAsOther
        },
        None => SessionState::Offline,
    }
}

/// The raw response body with the envelope stripped: everything between the
/// two leading and the one trailing extraneous characters.
pub open spec fn stripped(s: Seq<char>) -> Seq<char> {
    s.subrange(2, s.len() - 1)
}

/// What a raw status response means: `None` for a body that violates the
/// envelope or JSON contract, otherwise the classified session state.
pub open spec fn status_spec(raw: Seq<char>, account: Seq<char>) -> Option<SessionState> {
    if raw.len() >= 3 {
        match json_status_of(stripped(raw)) {
            Some(b) => Some(classify_spec(b, account)),
            None => None,
        }
    } else {
        None
    }
}

/// Classification is exhaustive and exclusive: every status record yields
/// exactly one of the three session states, and which one is decided by
/// the optional account on record alone.
pub proof fn lemma_classification_exhaustive_exclusive(b: StatusView, account: Seq<char>)
    ensures
        (b.account is None) <==> classify_spec(b, account) == SessionState::Offline,
        (b.account matches Some(a) && a == account) <==> classify_spec(b, account)
            == SessionState::Online,
        (b.account matches Some(a) && a != account) <==> classify_spec(b, account)
            == SessionState::OnlineAsOther,
{
}

/// Parses a raw status response body: strips the envelope and reads the
/// JSON record; `None` exactly when the body violates the envelope or
/// JSON contract.
pub fn parse_status(raw: &str) -> (r: Option<StatusBody>)
    ensures
        match r {
            Some(b) => raw@.len() >= 3 && json_status_of(stripped(raw@)) == Some(b@),
            None => raw@.len() < 3 || json_status_of(stripped(raw@)) is None,
        },
{
    let n = raw.unicode_len();
    if n < 3 {
        return None;
    }
    let inner = raw.substring_char(2, n - 1);
    parse_status_body(inner)
}

/// Classifies a status record against the derived account: `Online` when
/// the account on record equals it, `OnlineAsOther` when one is on record
/// but differs, `Offline` when none is on record.
pub fn classify_status(b: &StatusBody, account: &String) -> (r: SessionState)
    ensures
        r == classify_spec(b@, account@),
{
    match &b.account {
        Some(a) => if *a == *account {
            SessionState::Online
        } else {
            SessionState::OnlineAsOther
        },
        None => SessionState::Offline,
    }
}

/// Interprets a raw status response body: strips the two leading and one
/// trailing envelope characters, parses the JSON record, and classifies it
/// against the derived account. `None` exactly when the body violates the
/// envelope or JSON contract.
pub fn check_status_body(raw: &str, account: &String) -> (r: Option<SessionState>)
    ensures
        r == status_spec(raw@, account@),
{
    match parse_status(raw) {
        Some(b) => Some(classify_status(&b, account)),
        None => None,
    }
}

} // verus!
