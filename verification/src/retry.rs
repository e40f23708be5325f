use vstd::prelude::*;

verus! {

/// Fixed backoff slept between failed probe attempts during connect, in
/// milliseconds.
pub const RETRY_BACKOFF_MS: u64 = 1000;

/// What the connect protocol does after a probe has been recorded.
#[derive(Debug, Clone, Copy, PartialEq, Eq, Structural)]
pub enum RetryVerdict {
    /// The probe succeeded: stop probing and register the connection.
    Accept,
    /// The probe failed and attempts remain: sleep the fixed backoff, then
    /// probe again.
    Backoff,
    /// The final allowed probe failed: discard the connection; it is never
    /// registered.
    GiveUp,
}

/// The bounded-retry protocol run after a successful establish: up to
/// `retries` liveness probes, a fixed backoff between failed attempts, and
/// registration on the first success. With `retries` zero no probe runs at
/// all and the connection is registered unconfirmed.
pub struct ConnectRetry {
    /// Caller-supplied bound on the number of probe attempts.
    pub retries: u32,
    /// Probe attempts recorded so far.
    pub attempts: u32,
}

impl ConnectRetry {
    /// Starts a retry run that allows up to `retries` probe attempts.
    pub fn new(retries: u32) -> (r: Self)
        ensures
            r.retries == retries,
            r.attempts == 0,
    {
        ConnectRetry { retries, attempts: 0 }
    }

    /// Whether another probe must be issued. With `retries` zero this is
    /// false from the start, so the connection is registered without any
    /// liveness confirmation.
    pub fn probe_needed(&self) -> (r: bool)
        ensures
            r == (self.attempts < self.retries),
    {
        self.attempts < self.retries
    }

    /// Records the outcome of one probe and decides what follows: a success
    /// accepts the connection; a failure backs off and retries while attempts
    /// remain, and gives up exactly when the failed probe was the last one
    /// allowed.
    pub fn record_probe(&mut self, ok: bool) -> (v: RetryVerdict)
        requires
            old(self).attempts < old(self).retries,
        ensures
            final(self).retries == old(self).retries,
            final(self).attempts == old(self).attempts + 1,
            ok ==> v == RetryVerdict::Accept,
            !ok && final(self).attempts < final(self).retries ==> v == RetryVerdict::Backoff,
            !ok && final(self).attempts == final(self).retries ==> v == RetryVerdict::GiveUp,
    {
        self.attempts = self.attempts + 1;
        if ok {
            RetryVerdict::Accept
        } else if self.attempts < self.retries {
            RetryVerdict::Backoff
        } else {
            RetryVerdict::GiveUp
        }
    }
}

/// How many probes a retry run issues, given the outcome each probe would
/// have: it probes from position `i` up to the bound, stopping at the first
/// success.
pub open spec fn probes_used_from(outcomes: Seq<bool>, i: int, retries: int) -> int
    decreases retries - i,
{
    if i < 0 || i >= retries {
        i
    } else if outcomes[i] {
        i + 1
    } else {
        probes_used_from(outcomes, i + 1, retries)
    }
}

/// How many probes a whole retry run with bound `retries` issues.
pub open spec fn probes_used(retries: int, outcomes: Seq<bool>) -> int {
    probes_used_from(outcomes, 0, retries)
}

/// Whether a retry run from position `i` ends with a successful probe.
pub open spec fn probe_succeeds_from(outcomes: Seq<bool>, i: int, retries: int) -> bool
    decreases retries - i,
{
    if i < 0 || i >= retries {
        false
    } else if outcomes[i] {
        true
    } else {
        probe_succeeds_from(outcomes, i + 1, retries)
    }
}

/// Whether a connect with bound `retries` registers its connection: with no
/// probes required it always does, otherwise exactly when some allowed probe
/// succeeds.
pub open spec fn connect_registers(retries: int, outcomes: Seq<bool>) -> bool {
    retries == 0 || probe_succeeds_from(outcomes, 0, retries)
}

/// How many backoff sleeps a retry run from position `i` performs: one after
/// every failed probe except the final allowed one.
pub open spec fn backoffs_used_from(outcomes: Seq<bool>, i: int, retries: int) -> int
    decreases retries - i,
{
    if i < 0 || i >= retries {
        0
    } else if outcomes[i] {
        0
    } else if i + 1 == retries {
        0
    } else {
        1 + backoffs_used_from(outcomes, i + 1, retries)
    }
}

/// How many backoff sleeps a whole retry run with bound `retries` performs.
pub open spec fn backoffs_used(retries: int, outcomes: Seq<bool>) -> int {
    backoffs_used_from(outcomes, 0, retries)
}

/// Runs the connect-with-retry protocol against a fixed schedule of probe
/// outcomes, exactly as the application runs it against live probes, and
/// reports how many probes were issued, how many backoffs were slept, and
/// whether the connection would be registered.
pub fn run_retry_schedule(retries: u32, outcomes: &Vec<bool>) -> (r: (u32, u32, bool))
    requires
        outcomes@.len() >= retries,
    ensures
        r.0 == probes_used(retries as int, outcomes@),
        r.1 == backoffs_used(retries as int, outcomes@),
        r.2 == connect_registers(retries as int, outcomes@),
{
    let mut run = ConnectRetry::new(retries);
    let mut backoffs: u32 = 0;
    let mut accepted: bool = false;
    while run.probe_needed()
        invariant_except_break
            !accepted,
            probes_used_from(outcomes@, run.attempts as int, retries as int) == probes_used(
                retries as int,
                outcomes@,
            ),
            probe_succeeds_from(outcomes@, run.attempts as int, retries as int)
                == probe_succeeds_from(outcomes@, 0, retries as int),
            backoffs + backoffs_used_from(outcomes@, run.attempts as int, retries as int)
                == backoffs_used(retries as int, outcomes@),
        invariant
            run.retries == retries,
            outcomes@.len() >= retries,
            run.attempts <= retries,
            backoffs <= run.attempts,
        ensures
            run.attempts == probes_used(retries as int, outcomes@),
            backoffs == backoffs_used(retries as int, outcomes@),
            accepted == probe_succeeds_from(outcomes@, 0, retries as int),
        decreases retries - run.attempts,
    {
        let ghost a = run.attempts as int;
        let ok = outcomes[run.attempts as usize];
        match run.record_probe(ok) {
            RetryVerdict::Accept => {
                proof {
                    assert(probes_used_from(outcomes@, a, retries as int) == a + 1);
                    assert(probe_succeeds_from(outcomes@, a, retries as int));
                    assert(backoffs_used_from(outcomes@, a, retries as int) == 0);
                }
                accepted = true;
                break ;
            },
            RetryVerdict::Backoff => {
                backoffs = backoffs + 1;
            },
            RetryVerdict::GiveUp => {
                proof {
                    assert(probes_used_from(outcomes@, a + 1, retries as int) == a + 1);
                    assert(probes_used_from(outcomes@, a, retries as int) == a + 1);
                    assert(!probe_succeeds_from(outcomes@, a + 1, retries as int));
                    assert(!probe_succeeds_from(outcomes@, a, retries as int));
                    assert(backoffs_used_from(outcomes@, a, retries as int) == 0);
                }
                break ;
            },
        }
    }
    if retries == 0 {
        accepted = true;
    }
    (run.attempts, backoffs, accepted)
}

/// Retry bound law: against probes that always fail, a connect with a
/// positive bound issues exactly `retries` probes, sleeps the backoff after
/// every failure but the final one, and is never registered; with a bound of
/// zero it issues no probe at all and is registered immediately.
pub proof fn lemma_retry_bound(retries: int, outcomes: Seq<bool>)
    requires
        0 <= retries <= outcomes.len(),
        forall|i: int| 0 <= i < outcomes.len() ==> !outcomes[i],
    ensures
        retries > 0 ==> probes_used(retries, outcomes) == retries,
        retries > 0 ==> backoffs_used(retries, outcomes) == retries - 1,
        retries > 0 ==> !connect_registers(retries, outcomes),
        retries == 0 ==> probes_used(retries, outcomes) == 0,
        retries == 0 ==> backoffs_used(retries, outcomes) == 0,
        retries == 0 ==> connect_registers(retries, outcomes),
{
    lemma_all_failures_from(outcomes, 0, retries);
}

proof fn lemma_all_failures_from(outcomes: Seq<bool>, i: int, retries: int)
    requires
        0 <= i <= retries <= outcomes.len(),
        forall|j: int| 0 <= j < outcomes.len() ==> !outcomes[j],
    ensures
        probes_used_from(outcomes, i, retries) == retries,
        !probe_succeeds_from(outcomes, i, retries),
        backoffs_used_from(outcomes, i, retries) == if i < retries {
            retries - i - 1
        } else {
            0
        },
    decreases retries - i,
{
    if i < retries {
        lemma_all_failures_from(outcomes, i + 1, retries);
    }
}

} // verus!
