//! The policy of a batch of rule requests: adding stops at the first
//! failure, deleting tries every rule and reports each failure.
use vstd::prelude::*;

verus! {

#[derive(Clone, Copy, Debug, PartialEq, Eq, Structural)]
pub enum BatchPolicy {
    /// Stop at the first failed request; earlier ones stay applied.
    FailFast,
    /// Send every request, whatever failed before.
    BestEffort,
}

/// The state of a batch: how many requests were sent, and which failed
/// with what error, in the order they were sent.
pub struct BatchState {
    pub policy: BatchPolicy,
    pub total: nat,
    pub attempted: nat,
    pub failures: Seq<(usize, String)>,
}

/// The requests of a batch, sent one at a time in input order.
pub struct RuleBatch {
    policy: BatchPolicy,
    total: usize,
    attempted: usize,
    failures: Vec<(usize, String)>,
}

impl View for RuleBatch {
    type V = BatchState;

    closed spec fn view(&self) -> BatchState {
        BatchState {
            policy: self.policy,
            total: self.total as nat,
            attempted: self.attempted as nat,
            failures: self.failures@,
        }
    }
}

/// Failures name attempted requests, in increasing order; a batch that
/// stops at a failure holds at most one, the last request sent.
pub open spec fn batch_wf(s: BatchState) -> bool {
    &&& s.attempted <= s.total
    &&& forall|i: int| 0 <= i < s.failures.len() ==> (#[trigger] s.failures[i]).0 < s.attempted
    &&& forall|i: int, j: int|
        0 <= i < j < s.failures.len() ==> (#[trigger] s.failures[i]).0 < (#[trigger] s.failures[j]).0
    &&& s.policy == BatchPolicy::FailFast ==> s.failures.len() <= 1
    &&& s.policy == BatchPolicy::FailFast && s.failures.len() == 1 ==> s.failures[0].0 + 1
        == s.attempted
}

/// No request is left to send.
pub open spec fn finished(s: BatchState) -> bool {
    s.attempted == s.total || (s.policy == BatchPolicy::FailFast && s.failures.len() > 0)
}

impl RuleBatch {
    /// A batch of `total` requests, none sent yet.
    pub fn new(policy: BatchPolicy, total: usize) -> (b: RuleBatch)
        ensures
            b@ == (BatchState { policy, total: total as nat, attempted: 0, failures: Seq::empty() }),
            batch_wf(b@),
    {
        RuleBatch { policy, total, attempted: 0, failures: Vec::new() }
    }

    /// The index of the next request to send, none once the batch is over.
    pub fn next_rule(&self) -> (r: Option<usize>)
        requires
            batch_wf(self@),
        ensures
            r == (if finished(self@) {
                None
            } else {
                Some(self@.attempted as usize)
            }),
    {
        if self.attempted == self.total {
            None
        } else {
            match self.policy {
                BatchPolicy::FailFast => if self.failures.len() > 0 {
                    None
                } else {
                    Some(self.attempted)
                },
                BatchPolicy::BestEffort => Some(self.attempted),
            }
        }
    }

    /// Records the outcome of the request that `next_rule` named.
    pub fn record(&mut self, outcome: Result<(), String>)
        requires
            batch_wf(old(self)@),
            !finished(old(self)@),
        ensures
            batch_wf(final(self)@),
            final(self)@ == (BatchState {
                attempted: old(self)@.attempted + 1,
                failures: match outcome {
                    Ok(_) => old(self)@.failures,
                    Err(e) => old(self)@.failures.push((old(self)@.attempted as usize, e)),
                },
                ..old(self)@
            }),
    {
        let i = self.attempted;
        match outcome {
            Ok(_) => {},
            Err(e) => {
                self.failures.push((i, e));
            },
        }
        self.attempted = i + 1;
    }

    /// The outcome of the whole batch: success when no request failed, else
    /// every failure with the index of its request.
    pub fn into_result(self) -> (r: Result<(), Vec<(usize, String)>>)
        ensures
            match r {
                Ok(_) => self@.failures.len() == 0,
                Err(v) => self@.failures.len() > 0 && v@ == self@.failures,
            },
    {
        if self.failures.len() == 0 {
            Ok(())
        } else {
            Err(self.failures)
        }
    }
}

/// A batch that stops at the first failure sends nothing after the
/// request that failed: that request is the last one sent.
pub proof fn lemma_fail_fast_stops(s: BatchState)
    requires
        batch_wf(s),
        s.policy == BatchPolicy::FailFast,
        s.failures.len() > 0,
    ensures
        finished(s),
        s.failures.len() == 1,
        s.attempted == s.failures[0].0 + 1,
{
}

/// A best-effort batch is over only once every request was sent, whatever
/// failed on the way, and keeps every failure it recorded.
pub proof fn lemma_best_effort_sends_all(s: BatchState, outcome: Result<(), String>)
    requires
        batch_wf(s),
        s.policy == BatchPolicy::BestEffort,
    ensures
        finished(s) <==> s.attempted == s.total,
        s.attempted < s.total ==> ({
            let t = BatchState {
                attempted: s.attempted + 1,
                failures: match outcome {
                    Ok(_) => s.failures,
                    Err(e) => s.failures.push((s.attempted as usize, e)),
                },
                ..s
            };
            &&& s.failures.is_prefix_of(t.failures)
            &&& (outcome is Err ==> t.failures.len() == s.failures.len() + 1)
        }),
{
    if s.attempted < s.total {
        match outcome {
            Ok(_) => {},
            Err(e) => {
                assert(s.failures.is_prefix_of(s.failures.push((s.attempted as usize, e))));
            },
        }
    }
}

} // verus!
