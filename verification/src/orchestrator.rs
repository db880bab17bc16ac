//! The login orchestrator. One attempt is a small state machine: fetch the
//! client address, probe the session status, submit credentials only when no
//! session is active at the address, and probe once more to confirm. The
//! machine consumes the outcome of each HTTP exchange and answers with the
//! next request the driver must perform; the driver does the I/O and nothing
//! else.

use vstd::prelude::*;
use crate::account::{Credential, derive_account, derived_chars};
use crate::net::Ipv4Addr;
use crate::page::{extract_address, extract_spec};
use crate::status::{SessionState, check_status_body, status_spec};
use crate::urls::{
    check_status_url, check_status_url_chars, fetch_ip_url, fetch_ip_url_chars, login_url,
    login_url_chars,
};

verus! {

/// Why one login attempt failed. No kind is fatal beyond the attempt.
#[derive(Clone, Copy, PartialEq, Eq, Structural, Debug)]
pub enum LoginError {
    /// The landing page held no parsable client address.
    AddressUnavailable,
    /// A network-layer failure: connection, timeout, or non-2xx answer.
    TransportError,
    /// The status body violated the envelope or JSON contract.
    MalformedResponse,
    /// Credentials were submitted but the session stayed offline.
    AuthenticationFailed,
}

/// The outcome of one HTTP exchange, as the orchestrator sees it.
pub enum HttpEvent {
    /// The decoded response body.
    Body(String),
    /// The exchange failed at the transport layer.
    TransportFailed,
}

/// `HttpEvent` at the specification level.
pub enum EventView {
    Body(Seq<char>),
    TransportFailed,
}

impl View for HttpEvent {
    type V = EventView;

    open spec fn view(&self) -> EventView {
        match self {
            HttpEvent::Body(s) => EventView::Body(s@),
            HttpEvent::TransportFailed => EventView::TransportFailed,
        }
    }
}

/// What the driver must do next.
pub enum LoginAction {
    /// Perform a GET; decode the body with the portal's legacy East-Asian
    /// charset when the flag is set, as UTF-8 otherwise.
    Get { url: String, legacy_charset: bool },
    /// POST the login form: the account and password as the two fixed
    /// form fields.
    PostForm { url: String, account: String, password: String },
    /// The attempt is over, with its outcome.
    Done(Result<(), LoginError>),
}

/// `LoginAction` at the specification level.
pub enum ActionView {
    Get { url: Seq<char>, legacy_charset: bool },
    PostForm { url: Seq<char>, account: Seq<char>, password: Seq<char> },
    Done(Result<(), LoginError>),
}

impl View for LoginAction {
    type V = ActionView;

    open spec fn view(&self) -> ActionView {
        match self {
            LoginAction::Get { url, legacy_charset } => (ActionView::Get {
                url: url@,
                legacy_charset: *legacy_charset,
            }),
            LoginAction::PostForm { url, account, password } => (ActionView::PostForm {
                url: url@,
                account: account@,
                password: password@,
            }),
            LoginAction::Done(r) => ActionView::Done(*r),
        }
    }
}

/// Where one attempt stands.
#[derive(Clone, Copy, Debug)]
pub enum Phase {
    /// Waiting for the landing page.
    FetchingAddress,
    /// Waiting for the pre-submission status probe.
    ProbingBefore(Ipv4Addr),
    /// Waiting for the answer to the credential submission.
    Submitting(Ipv4Addr),
    /// Waiting for the post-submission confirmation probe.
    ProbingAfter(Ipv4Addr),
    /// The attempt is over.
    Finished(Result<(), LoginError>),
}

pub open spec fn step_fail(e: LoginError) -> (Phase, ActionView) {
    (Phase::Finished(Err(e)), ActionView::Done(Err(e)))
}

pub open spec fn step_done_ok() -> (Phase, ActionView) {
    (Phase::Finished(Ok(())), ActionView::Done(Ok(())))
}

/// One transition of the attempt: what the event means in the current
/// phase, and what the driver must do next.
///
/// The idempotence policy sits in `ProbingBefore`: any active session at
/// the probed address, even one of another account, ends the attempt
/// successfully and no submission happens. The confirmation requirement
/// sits in `ProbingAfter`: a session still offline after submission is an
/// authentication failure.
pub open spec fn spec_step(
    phase: Phase,
    account: Seq<char>,
    password: Seq<char>,
    ev: EventView,
) -> (Phase, ActionView) {
    match phase {
        Phase::FetchingAddress => match ev {
            EventView::TransportFailed => step_fail(LoginError::TransportError),
            EventView::Body(text) => match extract_spec(text) {
                Some(ip) => (
                    Phase::ProbingBefore(ip),
                    (ActionView::Get { url: check_status_url_chars(ip), legacy_charset: false }),
                ),
                None => step_fail(LoginError::AddressUnavailable),
            },
        },
        Phase::ProbingBefore(ip) => match ev {
            EventView::TransportFailed => step_fail(LoginError::TransportError),
            EventView::Body(text) => match status_spec(text, account) {
                Some(st) => if st == SessionState::Offline {
                    (
                        Phase::Submitting(ip),
                        (ActionView::PostForm { url: login_url_chars(ip), account, password }),
                    )
                } else {
                    step_done_ok()
                },
                None => step_fail(LoginError::MalformedResponse),
            },
        },
        Phase::Submitting(ip) => match ev {
            EventView::TransportFailed => step_fail(LoginError::TransportError),
            // The body of the submission response is ignored.
            EventView::Body(_) => (
                Phase::ProbingAfter(ip),
                (ActionView::Get { url: check_status_url_chars(ip), legacy_charset: false }),
            ),
        },
        Phase::ProbingAfter(ip) => match ev {
            EventView::TransportFailed => step_fail(LoginError::TransportError),
            EventView::Body(text) => match status_spec(text, account) {
                Some(st) => if st == SessionState::Offline {
                    step_fail(LoginError::AuthenticationFailed)
                } else {
                    step_done_ok()
                },
                None => step_fail(LoginError::MalformedResponse),
            },
        },
        Phase::Finished(r) => (Phase::Finished(r), ActionView::Done(r)),
    }
}

/// A whole run of one attempt: the machine folded over a sequence of
/// events, yielding the final phase and the actions issued, in order.
pub open spec fn spec_run(
    phase: Phase,
    account: Seq<char>,
    password: Seq<char>,
    evs: Seq<EventView>,
) -> (Phase, Seq<ActionView>)
    decreases evs.len(),
{
    if evs.len() == 0 {
        (phase, Seq::empty())
    } else {
        let first = spec_step(phase, account, password, evs[0]);
        let rest = spec_run(first.0, account, password, evs.subrange(1, evs.len() as int));
        (rest.0, seq![first.1] + rest.1)
    }
}

/// How many submissions a run issued.
pub open spec fn count_posts(acts: Seq<ActionView>) -> int
    decreases acts.len(),
{
    if acts.len() == 0 {
        0
    } else {
        (if acts[0] is PostForm {
            1int
        } else {
            0int
        }) + count_posts(acts.subrange(1, acts.len() as int))
    }
}

proof fn lemma_count_posts_cons(a: ActionView, rest: Seq<ActionView>)
    ensures
        count_posts(seq![a] + rest) == (if a is PostForm {
            1int
        } else {
            0int
        }) + count_posts(rest),
{
    let s = seq![a] + rest;
    assert(s[0] == a);
    assert(s.subrange(1, s.len() as int) =~= rest);
}

/// A finished attempt stays finished and issues no further submission,
/// whatever events are still delivered.
proof fn lemma_run_after_finish(
    r: Result<(), LoginError>,
    account: Seq<char>,
    password: Seq<char>,
    evs: Seq<EventView>,
)
    ensures
        spec_run(Phase::Finished(r), account, password, evs).0 == Phase::Finished(r),
        count_posts(spec_run(Phase::Finished(r), account, password, evs).1) == 0,
    decreases evs.len(),
{
    if evs.len() > 0 {
        let tail = evs.subrange(1, evs.len() as int);
        lemma_run_after_finish(r, account, password, tail);
        lemma_count_posts_cons(ActionView::Done(r), spec_run(Phase::Finished(r), account, password, tail).1);
    }
}

/// One unfolding of a run: the final phase is that of the rest of the
/// run, and the submission count adds the first action's contribution.
proof fn lemma_run_step(phase: Phase, account: Seq<char>, password: Seq<char>, evs: Seq<EventView>)
    requires
        evs.len() > 0,
    ensures
        ({
            let first = spec_step(phase, account, password, evs[0]);
            let rest = spec_run(first.0, account, password, evs.subrange(1, evs.len() as int));
            spec_run(phase, account, password, evs).0 == rest.0 && count_posts(
                spec_run(phase, account, password, evs).1,
            ) == (if first.1 is PostForm {
                1int
            } else {
                0int
            }) + count_posts(rest.1)
        }),
{
    let first = spec_step(phase, account, password, evs[0]);
    let rest = spec_run(first.0, account, password, evs.subrange(1, evs.len() as int));
    lemma_count_posts_cons(first.1, rest.1);
}

/// Idempotence of the login attempt: if the pre-submission status probe
/// reports any active session at the address — the derived account's own
/// or another's — the attempt succeeds at once and no submission is ever
/// issued, whatever events follow.
#[verifier::rlimit(100)]
pub proof fn lemma_no_submit_when_session_active(
    account: Seq<char>,
    password: Seq<char>,
    evs: Seq<EventView>,
)
    requires
        evs.len() >= 2,
        evs[0] matches EventView::Body(page) && extract_spec(page) is Some,
        evs[1] matches EventView::Body(body) && (status_spec(body, account) matches Some(st)
            && st != SessionState::Offline),
    ensures
        spec_run(Phase::FetchingAddress, account, password, evs).0 == Phase::Finished(Ok(())),
        count_posts(spec_run(Phase::FetchingAddress, account, password, evs).1) == 0,
{
    let evs1 = evs.subrange(1, evs.len() as int);
    let evs2 = evs1.subrange(1, evs1.len() as int);
    assert(evs1[0] == evs[1]);
    let first = spec_step(Phase::FetchingAddress, account, password, evs[0]);
    let second = spec_step(first.0, account, password, evs1[0]);
    assert(second == step_done_ok());
    lemma_run_step(Phase::FetchingAddress, account, password, evs);
    lemma_run_step(first.0, account, password, evs1);
    lemma_run_after_finish(Ok(()), account, password, evs2);
}

/// The confirmation requirement: if the pre-submission probe reports no
/// session and the probe after the submission still reports none, the
/// attempt fails as an authentication failure — and exactly one
/// submission was issued.
#[verifier::rlimit(100)]
pub proof fn lemma_confirmation_required(
    account: Seq<char>,
    password: Seq<char>,
    evs: Seq<EventView>,
)
    requires
        evs.len() >= 4,
        evs[0] matches EventView::Body(page) && extract_spec(page) is Some,
        evs[1] matches EventView::Body(b1) && status_spec(b1, account) == Some(
            SessionState::Offline,
        ),
        evs[2] is Body,
        evs[3] matches EventView::Body(b2) && status_spec(b2, account) == Some(
            SessionState::Offline,
        ),
    ensures
        spec_run(Phase::FetchingAddress, account, password, evs).0 == Phase::Finished(
            Err(LoginError::AuthenticationFailed),
        ),
        count_posts(spec_run(Phase::FetchingAddress, account, password, evs).1) == 1,
{
    let err = LoginError::AuthenticationFailed;
    let evs1 = evs.subrange(1, evs.len() as int);
    let evs2 = evs1.subrange(1, evs1.len() as int);
    let evs3 = evs2.subrange(1, evs2.len() as int);
    let evs4 = evs3.subrange(1, evs3.len() as int);
    assert(evs1[0] == evs[1]);
    assert(evs2[0] == evs[2]);
    assert(evs3[0] == evs[3]);
    let first = spec_step(Phase::FetchingAddress, account, password, evs[0]);
    let second = spec_step(first.0, account, password, evs1[0]);
    let third = spec_step(second.0, account, password, evs2[0]);
    let fourth = spec_step(third.0, account, password, evs3[0]);
    assert(second.1 is PostForm);
    assert(fourth == step_fail(err));
    lemma_run_step(Phase::FetchingAddress, account, password, evs);
    lemma_run_step(first.0, account, password, evs1);
    lemma_run_step(second.0, account, password, evs2);
    lemma_run_step(third.0, account, password, evs3);
    lemma_run_after_finish(Err(err), account, password, evs4);
}

/// One login attempt: the derived account, the password, and the phase.
pub struct LoginAttempt {
    pub account: String,
    pub password: String,
    pub phase: Phase,
}

impl LoginAttempt {
    /// Starts one attempt for the credential: derives the portal account
    /// and asks the driver for the landing page, which the portal serves
    /// in its legacy charset.
    pub fn start(credential: &Credential) -> (r: (LoginAttempt, LoginAction))
        ensures
            r.0.account@ == derived_chars(credential.userid@, credential.isp),
            r.0.password@ == credential.password@,
            r.0.phase is FetchingAddress,
            r.1@ == (ActionView::Get { url: fetch_ip_url_chars(), legacy_charset: true }),
    {
        let account = derive_account(&credential.userid, credential.isp);
        let password = credential.password.clone();
        (
            LoginAttempt { account, password, phase: Phase::FetchingAddress },
            LoginAction::Get { url: fetch_ip_url(), legacy_charset: true },
        )
    }

    /// Feeds the outcome of the pending exchange to the attempt and
    /// returns what the driver must do next.
    pub fn step(&mut self, ev: HttpEvent) -> (act: LoginAction)
        ensures
            final(self).account == old(self).account,
            final(self).password == old(self).password,
            (final(self).phase, act@) == spec_step(
                old(self).phase,
                old(self).account@,
                old(self).password@,
                ev@,
            ),
    {
        let phase = self.phase;
        match phase {
            Phase::FetchingAddress => match ev {
                HttpEvent::TransportFailed => self.fail(LoginError::TransportError),
                HttpEvent::Body(text) => match extract_address(text.as_str()) {
                    Some(ip) => {
                        self.phase = Phase::ProbingBefore(ip);
                        LoginAction::Get { url: check_status_url(&ip), legacy_charset: false }
                    },
                    None => self.fail(LoginError::AddressUnavailable),
                },
            },
            Phase::ProbingBefore(ip) => match ev {
                HttpEvent::TransportFailed => self.fail(LoginError::TransportError),
                HttpEvent::Body(text) => match check_status_body(text.as_str(), &self.account) {
                    Some(SessionState::Offline) => {
                        self.phase = Phase::Submitting(ip);
                        LoginAction::PostForm {
                            url: login_url(&ip),
                            account: self.account.clone(),
                            password: self.password.clone(),
                        }
                    },
                    Some(_) => self.finish_ok(),
                    None => self.fail(LoginError::MalformedResponse),
                },
            },
            Phase::Submitting(ip) => match ev {
                HttpEvent::TransportFailed => self.fail(LoginError::TransportError),
                HttpEvent::Body(_) => {
                    self.phase = Phase::ProbingAfter(ip);
                    LoginAction::Get { url: check_status_url(&ip), legacy_charset: false }
                },
            },
            Phase::ProbingAfter(ip) => match ev {
                HttpEvent::TransportFailed => self.fail(LoginError::TransportError),
                HttpEvent::Body(text) => match check_status_body(text.as_str(), &self.account) {
                    Some(SessionState::Offline) => self.fail(LoginError::AuthenticationFailed),
                    Some(_) => self.finish_ok(),
                    None => self.fail(LoginError::MalformedResponse),
                },
            },
            Phase::Finished(r) => {
                self.phase = Phase::Finished(r);
                LoginAction::Done(r)
            },
        }
    }

    fn fail(&mut self, e: LoginError) -> (act: LoginAction)
        ensures
            final(self).account == old(self).account,
            final(self).password == old(self).password,
            (final(self).phase, act@) == step_fail(e),
    {
        self.phase = Phase::Finished(Err(e));
        LoginAction::Done(Err(e))
    }

    fn finish_ok(&mut self) -> (act: LoginAction)
        ensures
            final(self).account == old(self).account,
            final(self).password == old(self).password,
            (final(self).phase, act@) == step_done_ok(),
    {
        self.phase = Phase::Finished(Ok(()));
        LoginAction::Done(Ok(()))
    }
}

} // verus!
