//! The reporter: pings the health-check service over HTTP.
//!
//! A run signals "start" with a GET before the child is spawned and exactly
//! one terminal "success" or "failure" POST when it ends.  Every attempt is
//! classified into a next step: done, retry once after a two-second delay
//! (transport errors and 5xx responses), or give up (anything else, and any
//! error on the second attempt).  The caller performs the delay and the
//! process exit; the classification and the URLs are verified here.

use crate::num::dec_digits;
use crate::uuid::Uuid;
use vstd::prelude::*;
use vstd::slice::slice_to_vec;
use vstd::string::StringExecFns;
use vstd::string::StringSliceAdditionalSpecFns;
use std::time::Duration;

verus! {

/// What an HTTP attempt came back with when it did not succeed.
#[derive(Debug, PartialEq)]
pub enum PingError {
    /// The service answered with this non-success HTTP status.
    Status(u16),
    /// The request did not complete; the text describes the failure.
    Transport(String),
}

/// An attempt that failed this way is worth one retry: any transport error,
/// and any response status of 500 or above.  Client errors (4xx) are not.
pub open spec fn spec_is_retryable(e: PingError) -> bool {
    match e {
        PingError::Status(code) => code >= 500,
        PingError::Transport(_) => true,
    }
}

/// Reports whether a failed attempt is worth one retry.
pub fn is_retryable(err: &PingError) -> (r: bool)
    ensures
        r == spec_is_retryable(*err),
{
    match err {
        PingError::Status(code) => *code >= 500,
        PingError::Transport(_) => true,
    }
}

/// A one-line account of the error, for the caller's diagnostics.
pub open spec fn spec_describe(e: PingError) -> Seq<u8> {
    match e {
        PingError::Status(code) => "http status: ".spec_bytes() + dec_digits(code as nat),
        PingError::Transport(msg) => vstd::utf8::encode_utf8(msg@),
    }
}

impl PingError {
    /// Renders the one-line account.
    pub fn describe(&self) -> (r: Vec<u8>)
        ensures
            r@ == spec_describe(*self),
    {
        match self {
            PingError::Status(code) => {
                let mut out = slice_to_vec("http status: ".as_bytes());
                let mut digits = crate::num::u64_to_dec(*code as u64);
                out.append(&mut digits);
                out
            },
            PingError::Transport(msg) => slice_to_vec(msg.as_str().as_bytes()),
        }
    }
}

/// What the caller does after an attempt.
#[derive(Debug, Clone, Copy, PartialEq, Eq, Structural)]
pub enum PingStep {
    /// The ping went through.
    Done,
    /// Wait this many seconds, then attempt once more.
    RetryAfterSecs(u64),
    /// Give up: the run exits with the HTTP sentinel code.
    GiveUp,
}

/// The retry policy: a success is done; a retryable failure of the first
/// attempt earns one retry after two seconds; everything else gives up.
pub open spec fn spec_decision(first_attempt: bool, r: Result<(), PingError>) -> PingStep {
    match r {
        Ok(_) => PingStep::Done,
        Err(e) => if first_attempt && spec_is_retryable(e) {
            PingStep::RetryAfterSecs(2)
        } else {
            PingStep::GiveUp
        },
    }
}

/// Classifies the outcome of an attempt under the retry policy.
pub fn decide(first_attempt: bool, r: &Result<(), PingError>) -> (d: PingStep)
    ensures
        d == spec_decision(first_attempt, *r),
{
    match r {
        Ok(_) => PingStep::Done,
        Err(e) => if first_attempt && is_retryable(e) {
            PingStep::RetryAfterSecs(2)
        } else {
            PingStep::GiveUp
        },
    }
}

/// Whether the two-attempt protocol ends in success: either the first attempt
/// goes through, or it earns a retry and the second attempt goes through.
pub open spec fn protocol_succeeds(o1: Result<(), PingError>, o2: Result<(), PingError>) -> bool {
    ||| spec_decision(true, o1) is Done
    ||| (spec_decision(true, o1) matches PingStep::RetryAfterSecs(_) && spec_decision(false, o2)
        is Done)
}

/// Law: against a transport that fails retryably `n` times and then succeeds,
/// the reporter goes through exactly when `n <= 1`; and whenever the policy
/// asks for a delay at all, the delay is two seconds.
pub proof fn lemma_retry_policy(outcomes: Seq<Result<(), PingError>>, n: nat)
    requires
        n < outcomes.len(),
        forall|i: int|
            0 <= i < n ==> ((#[trigger] outcomes[i]) matches Err(e) && spec_is_retryable(e)),
        outcomes[n as int] is Ok,
    ensures
        n == 0 ==> protocol_succeeds(outcomes[0], outcomes[0]),
        n == 1 ==> protocol_succeeds(outcomes[0], outcomes[1]),
        n > 1 ==> !protocol_succeeds(outcomes[0], outcomes[1]),
        forall|first: bool, o: Result<(), PingError>|
            #[trigger] spec_decision(first, o) matches PingStep::RetryAfterSecs(d) ==> d == 2,
{
    if n >= 1 {
        assert(outcomes[0] matches Err(e) && spec_is_retryable(e));
    }
    if n >= 2 {
        assert(outcomes[1] matches Err(e) && spec_is_retryable(e));
    }
}

/// Law: a client error (an HTTP status below 500) is never retried; on either
/// attempt the policy gives up at once.
pub proof fn lemma_no_retry_on_client_error(first_attempt: bool, code: u16)
    requires
        code < 500,
    ensures
        spec_decision(first_attempt, Err(PingError::Status(code))) is GiveUp,
{
}

/// `ureq::Agent` is held as a field of the reporter; declaring the type lets
/// verified code own and pass it. Its values stay opaque to the verifier.
#[verifier::external_type_specification]
#[verifier::external_body]
pub struct ExAgent(ureq::Agent);

/// Relies on `ureq::Agent::config_builder` and `ConfigBuilder::build` /
/// `new_agent`: builds an agent whose connect, send-body and receive-body
/// timeouts are each ten seconds.
#[verifier::external_body]
fn make_agent() -> ureq::Agent {
    ureq::Agent::config_builder()
        .timeout_connect(Some(Duration::from_secs(10)))
        .timeout_recv_body(Some(Duration::from_secs(10)))
        .timeout_send_body(Some(Duration::from_secs(10)))
        .build()
        .new_agent()
}

/// Relies on ureq: `RequestBuilder::call` performs a GET on `url`; ureq hands
/// a non-success response status back as `Error::StatusCode` and any
/// transport failure as another `Error` variant, rendered here as text.  The
/// network decides the outcome, so nothing is promised of it.
#[verifier::external_body]
fn http_get(agent: &ureq::Agent, url: &str) -> Result<(), PingError> {
    match agent.get(url).call() {
        Ok(_) => Ok(()),
        Err(ureq::Error::StatusCode(code)) => Err(PingError::Status(code)),
        Err(e) => Err(PingError::Transport(format!("{}", e))),
    }
}

/// Relies on ureq: `RequestBuilder::send` performs a POST of `body` to `url`;
/// errors come back as in the GET wrapper.  The network decides the outcome,
/// so nothing is promised of it.
#[verifier::external_body]
fn http_post(agent: &ureq::Agent, url: &str, body: &[u8]) -> Result<(), PingError> {
    match agent.post(url).send(body) {
        Ok(_) => Ok(()),
        Err(ureq::Error::StatusCode(code)) => Err(PingError::Status(code)),
        Err(e) => Err(PingError::Transport(format!("{}", e))),
    }
}

/// The reporter: a validated job identifier together with the HTTP agent
/// that carries its pings.
pub struct HealthCheck {
    uuid: Uuid,
    agent: ureq::Agent,
}

impl View for HealthCheck {
    type V = Seq<char>;

    closed spec fn view(&self) -> Seq<char> {
        self.uuid@
    }
}

impl HealthCheck {
    pub closed spec fn wf(&self) -> bool {
        self.uuid.wf()
    }

    /// Validates the identifier and builds the reporter around it.  Succeeds
    /// exactly on well-formed tokens.
    pub fn from_str(s: &str) -> (r: Option<HealthCheck>)
        ensures
            r is Some <==> crate::uuid::valid_token(s.spec_bytes()),
            r matches Some(hc) ==> hc@ == s@ && hc.wf(),
    {
        match Uuid::from_str(s) {
            Some(uuid) => Some(HealthCheck { uuid, agent: make_agent() }),
            None => None,
        }
    }

    /// The service URL of this job: the fixed base followed by the token.
    pub fn base_url(&self) -> (r: String)
        ensures
            r@ == "https://hc-ping.com/"@ + self@,
    {
        let mut url = "https://hc-ping.com/".to_owned();
        url.append(self.uuid.as_str());
        url
    }

    /// Where the start ping goes.
    pub fn start_url(&self) -> (r: String)
        ensures
            r@ == "https://hc-ping.com/"@ + self@ + "/start"@,
    {
        let mut url = self.base_url();
        url.append("/start");
        url
    }

    /// Where the terminal success ping goes.
    pub fn finish_url(&self) -> (r: String)
        ensures
            r@ == "https://hc-ping.com/"@ + self@,
    {
        self.base_url()
    }

    /// Where the terminal failure ping goes.
    pub fn fail_url(&self) -> (r: String)
        ensures
            r@ == "https://hc-ping.com/"@ + self@ + "/fail"@,
    {
        let mut url = self.base_url();
        url.append("/fail");
        url
    }

    /// The URL of the terminal ping: success when the final code is zero,
    /// failure otherwise.
    pub fn terminal_url(&self, code: i32) -> (r: String)
        ensures
            code == 0 ==> r@ == "https://hc-ping.com/"@ + self@,
            code != 0 ==> r@ == "https://hc-ping.com/"@ + self@ + "/fail"@,
    {
        if code == 0 {
            self.finish_url()
        } else {
            self.fail_url()
        }
    }

    /// One attempt of the start ping: a GET to the start URL, classified
    /// under the retry policy.  The network decides the outcome; whatever
    /// comes back, the returned step is the policy's answer to it.
    pub fn start(&self, first_attempt: bool) -> (r: (Result<(), PingError>, PingStep))
        ensures
            r.1 == spec_decision(first_attempt, r.0),
    {
        let url = self.start_url();
        let res = http_get(&self.agent, url.as_str());
        let step = decide(first_attempt, &res);
        (res, step)
    }

    /// One attempt of the terminal ping: POSTs `body` to the success URL when
    /// `code` is zero and to the failure URL otherwise, classified under the
    /// retry policy.
    pub fn finish(&self, body: &[u8], code: i32, first_attempt: bool) -> (r: (
        Result<(), PingError>,
        PingStep,
    ))
        ensures
            r.1 == spec_decision(first_attempt, r.0),
    {
        let url = self.terminal_url(code);
        let res = http_post(&self.agent, url.as_str(), body);
        let step = decide(first_attempt, &res);
        (res, step)
    }
}

} // verus!
