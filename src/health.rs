//! Readiness polling: one probe of the health endpoint at a time, a fixed
//! interval between probes, and a bounded number of probes.
use vstd::prelude::*;
use crate::error::StartError;
use crate::paths::LocalPath;
use crate::text::{decimal, push_decimal};

verus! {

/// How many probes are made before the backend is given up on.
pub const MAX_ATTEMPTS: u32 = 30;

/// The pause between two probes, in milliseconds.
pub const POLL_INTERVAL_MS: u64 = 500;

/// What one probe of the health endpoint saw.
#[derive(PartialEq, Eq, Structural, Clone, Copy, Debug)]
pub enum HealthCheckOutcome {
    Success,
    Unreachable,
    HttpError(u16),
}

/// Whether a status code is in the success class.
pub open spec fn is_success_status(code: u16) -> bool {
    200 <= code < 300
}

/// The outcome of a probe that got the status code `status`, or no response.
pub open spec fn outcome_of(status: Option<u16>) -> HealthCheckOutcome {
    match status {
        Some(c) => if is_success_status(c) {
            HealthCheckOutcome::Success
        } else {
            HealthCheckOutcome::HttpError(c)
        },
        None => HealthCheckOutcome::Unreachable,
    }
}

/// Classifies the response of a probe: any 2xx status is success.
pub fn classify(status: Option<u16>) -> (r: HealthCheckOutcome)
    ensures
        r == outcome_of(status),
{
    match status {
        Some(c) => if 200 <= c && c < 300 {
            HealthCheckOutcome::Success
        } else {
            HealthCheckOutcome::HttpError(c)
        },
        None => HealthCheckOutcome::Unreachable,
    }
}

/// The health endpoint of a backend on `port`.
pub open spec fn health_url_of(port: u16) -> Seq<char> {
    "http://127.0.0.1:"@ + decimal(port as nat) + "/health"@
}

/// The health endpoint of a backend listening on `port` of the loopback address.
pub fn health_url(port: u16) -> (r: String)
    ensures
        r@ == health_url_of(port),
{
    let mut url = String::from_str("http://127.0.0.1:");
    push_decimal(&mut url, port);
    url.append("/health");
    url
}

/// Relies on reqwest::blocking::get: one GET request to `url`, giving the
/// response's status code, or nothing where no response came (refused, timed
/// out, malformed). Its status codes lie between 100 and 999, as http's
/// `StatusCode` admits no others.
#[verifier::external_body]
fn fetch_status(url: &str) -> (r: Option<u16>)
    ensures
        r matches Some(c) ==> 100 <= c < 1000,
{
    reqwest::blocking::get(url).ok().map(|resp| resp.status().as_u16())
}

/// Probes the health endpoint once. The outcome is whatever the network gave,
/// classified by its status code.
pub fn probe(url: &str) -> (r: HealthCheckOutcome)
    ensures
        r is Unreachable || r is Success || (r matches HealthCheckOutcome::HttpError(c) && 100
            <= c < 1000 && !is_success_status(c)),
{
    classify(fetch_status(url))
}

/// What the poller asks of its driver after a probe.
#[derive(PartialEq, Eq, Structural, Clone, Copy, Debug)]
pub enum PollAction {
    /// The backend answered: stop polling.
    Ready,
    /// Wait this many milliseconds, then probe again.
    RetryAfter(u64),
    /// The probes are used up: give up.
    TimedOut,
}

/// The poller's state: probes made so far, and how polling ended, if it has
/// (`true` for ready, `false` for timed out).
pub type MonitorView = (nat, Option<bool>);

/// One probe's effect on the poller.
pub open spec fn step(m: MonitorView, healthy: bool) -> (MonitorView, PollAction) {
    match m.1 {
        Some(true) => (m, PollAction::Ready),
        Some(false) => (m, PollAction::TimedOut),
        None => if healthy {
            ((m.0 + 1, Some(true)), PollAction::Ready)
        } else if m.0 + 1 >= MAX_ATTEMPTS {
            ((m.0 + 1, Some(false)), PollAction::TimedOut)
        } else {
            ((m.0 + 1, None), PollAction::RetryAfter(POLL_INTERVAL_MS))
        },
    }
}

/// Polling driven by a run of probe results (`true` for healthy): the probes
/// made, the action that ended polling (none if the run ran out first), and
/// the milliseconds waited in between.
pub open spec fn drive(m: MonitorView, healthy: Seq<bool>) -> (nat, Option<PollAction>, nat)
    decreases healthy.len(),
{
    if healthy.len() == 0 {
        (0, None, 0)
    } else {
        let (m2, a) = step(m, healthy[0]);
        match a {
            PollAction::RetryAfter(ms) => {
                let r = drive(m2, healthy.skip(1));
                (r.0 + 1, r.1, r.2 + ms as nat)
            },
            _ => (1, Some(a), 0),
        }
    }
}

/// Bounded, fixed-interval polling of the health endpoint.
pub struct HealthMonitor {
    attempts: u32,
    finished: Option<bool>,
}

impl View for HealthMonitor {
    type V = MonitorView;

    closed spec fn view(&self) -> MonitorView {
        (self.attempts as nat, self.finished)
    }
}

impl HealthMonitor {
    /// The poller's invariant: it never counts past its bound, and it stops
    /// short of the bound only on success.
    pub closed spec fn wf(&self) -> bool {
        &&& self.attempts <= MAX_ATTEMPTS
        &&& self.finished is None ==> self.attempts < MAX_ATTEMPTS
    }

    /// A poller that has made no probe.
    pub fn new() -> (r: HealthMonitor)
        ensures
            r@ == (0nat, None::<bool>),
            r.wf(),
    {
        HealthMonitor { attempts: 0, finished: None }
    }

    /// The probes made so far.
    pub fn attempts(&self) -> (r: u32)
        ensures
            r as nat == self@.0,
    {
        self.attempts
    }

    /// Takes in the outcome of one probe and says what to do next.
    pub fn record(&mut self, outcome: &HealthCheckOutcome) -> (r: PollAction)
        requires
            old(self).wf(),
        ensures
            final(self).wf(),
            (final(self)@, r) == step(old(self)@, outcome is Success),
    {
        match self.finished {
            Some(true) => PollAction::Ready,
            Some(false) => PollAction::TimedOut,
            None => {
                self.attempts = self.attempts + 1;
                if let HealthCheckOutcome::Success = outcome {
                    self.finished = Some(true);
                    PollAction::Ready
                } else if self.attempts >= MAX_ATTEMPTS {
                    self.finished = Some(false);
                    PollAction::TimedOut
                } else {
                    PollAction::RetryAfter(POLL_INTERVAL_MS)
                }
            },
        }
    }

    /// Probes `url` once and says what to do next.
    pub fn poll_once(&mut self, url: &str) -> (r: PollAction)
        requires
            old(self).wf(),
        ensures
            final(self).wf(),
            exists|healthy: bool| (final(self)@, r) == #[trigger] step(old(self)@, healthy),
    {
        let outcome = probe(url);
        self.record(&outcome)
    }

    /// The error that reports polling given up for a backend on `port` whose
    /// output goes to `log_file`: the probes made, and the polling time they
    /// stand for.
    pub fn timeout_error(&self, port: u16, log_file: LocalPath) -> (r: StartError)
        requires
            self.wf(),
        ensures
            r matches StartError::HealthCheckTimeout { attempts, elapsed_ms, port: p, log_file: f }
                && attempts as nat == self@.0 && elapsed_ms == self@.0 * POLL_INTERVAL_MS
                && p == port && f == log_file,
    {
        StartError::HealthCheckTimeout {
            attempts: self.attempts,
            elapsed_ms: self.attempts as u64 * POLL_INTERVAL_MS,
            port,
            log_file,
        }
    }
}

/// A backend that first answers healthy at probe `k` of a fresh poller, for
/// `k` up to the bound, is reported ready after exactly `k` probes, with
/// `k - 1` intervals waited.
pub proof fn lemma_ready_after_k_probes(healthy: Seq<bool>, k: nat)
    requires
        1 <= k <= MAX_ATTEMPTS,
        k <= healthy.len(),
        healthy[k - 1],
        forall|j: int| 0 <= j < k - 1 ==> !healthy[j],
    ensures
        drive((0nat, None::<bool>), healthy) == (k, Some(PollAction::Ready), ((k - 1)
            * POLL_INTERVAL_MS) as nat),
{
    lemma_ready_from(0, healthy, k);
}

proof fn lemma_ready_from(p: nat, healthy: Seq<bool>, k: nat)
    requires
        1 <= k,
        p + k <= MAX_ATTEMPTS,
        k <= healthy.len(),
        healthy[k - 1],
        forall|j: int| 0 <= j < k - 1 ==> !healthy[j],
    ensures
        drive((p, None::<bool>), healthy) == (k, Some(PollAction::Ready), ((k - 1)
            * POLL_INTERVAL_MS) as nat),
    decreases k,
{
    if k > 1 {
        assert(!healthy[0]);
        let rest = healthy.skip(1);
        assert forall|j: int| 0 <= j < k - 2 implies !rest[j] by {
            assert(rest[j] == healthy[j + 1]);
        }
        lemma_ready_from(p + 1, rest, (k - 1) as nat);
        assert((k - 1) * POLL_INTERVAL_MS == (k - 2) * POLL_INTERVAL_MS + POLL_INTERVAL_MS)
            by (nonlinear_arith);
    }
}

/// A backend that never answers healthy is given up on after exactly the bound
/// of probes, with one interval waited between each two of them.
pub proof fn lemma_timeout_after_bound(healthy: Seq<bool>)
    requires
        MAX_ATTEMPTS <= healthy.len(),
        forall|j: int| 0 <= j < MAX_ATTEMPTS ==> !healthy[j],
    ensures
        drive((0nat, None::<bool>), healthy) == (MAX_ATTEMPTS as nat, Some(PollAction::TimedOut), (
        (MAX_ATTEMPTS - 1) * POLL_INTERVAL_MS) as nat),
{
    lemma_timeout_from(0, healthy);
}

proof fn lemma_timeout_from(p: nat, healthy: Seq<bool>)
    requires
        p < MAX_ATTEMPTS,
        MAX_ATTEMPTS - p <= healthy.len(),
        forall|j: int| 0 <= j < MAX_ATTEMPTS - p ==> !healthy[j],
    ensures
        drive((p, None::<bool>), healthy) == ((MAX_ATTEMPTS - p) as nat, Some(PollAction::TimedOut), (
        (MAX_ATTEMPTS - p - 1) * POLL_INTERVAL_MS) as nat),
    decreases MAX_ATTEMPTS - p,
{
    assert(!healthy[0]);
    if p + 1 < MAX_ATTEMPTS {
        let rest = healthy.skip(1);
        assert forall|j: int| 0 <= j < MAX_ATTEMPTS - (p + 1) implies !rest[j] by {
            assert(rest[j] == healthy[j + 1]);
        }
        lemma_timeout_from(p + 1, rest);
    }
}

} // verus!
