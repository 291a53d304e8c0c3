//! The connect lifecycle: pair if needed, trust if the policy asks for it,
//! then connect, all under one deadline. The steps themselves are calls into
//! the Bluetooth service; this module decides which come and in what order,
//! and what the outcome is.
use vstd::prelude::*;
use crate::text::{concat_str, decimal, decimal_string, contains_seq, push_char};
use vstd::string::StringExecFns;

verus! {

#[derive(Clone, Copy, Debug, PartialEq, Eq, Structural)]
pub enum LifecycleStep {
    Pair,
    Trust,
    Connect,
}

/// The steps for a device in the given state: pairing unless already paired,
/// trusting only when the policy is on and the device is not trusted yet,
/// connecting always, in that order.
pub open spec fn lifecycle_steps(paired: bool, trusted: bool, auto_trust: bool) -> Seq<LifecycleStep> {
    (if paired {
        Seq::<LifecycleStep>::empty()
    } else {
        seq![LifecycleStep::Pair]
    }) + (if auto_trust && !trusted {
        seq![LifecycleStep::Trust]
    } else {
        Seq::<LifecycleStep>::empty()
    }) + seq![LifecycleStep::Connect]
}

/// How a lifecycle ended.
#[derive(Debug)]
pub enum ConnectOutcome {
    Connected,
    /// A step failed; the text is the service's error.
    Failed(String),
    /// The deadline passed first.
    TimedOut,
}

/// What the worker does next.
#[derive(Debug)]
pub enum LifecycleAction {
    Run(LifecycleStep),
    Finish(ConnectOutcome),
}

/// A lifecycle in progress.
pub struct ConnectLifecycle {
    pub steps: Vec<LifecycleStep>,
    /// Number of steps that have succeeded.
    pub done: usize,
    /// Set once a step failed or the deadline passed.
    pub outcome: Option<ConnectOutcome>,
}

impl ConnectLifecycle {
    pub open spec fn wf(&self) -> bool {
        self.done <= self.steps@.len()
    }

    /// Plans the steps for a device in the given state.
    pub fn new(paired: bool, trusted: bool, auto_trust: bool) -> (r: ConnectLifecycle)
        ensures
            r.wf(),
            r.steps@ == lifecycle_steps(paired, trusted, auto_trust),
            r.done == 0,
            r.outcome is None,
    {
        let mut steps: Vec<LifecycleStep> = Vec::new();
        if !paired {
            steps.push(LifecycleStep::Pair);
        }
        if auto_trust && !trusted {
            steps.push(LifecycleStep::Trust);
        }
        steps.push(LifecycleStep::Connect);
        assert(steps@ =~= lifecycle_steps(paired, trusted, auto_trust));
        ConnectLifecycle { steps, done: 0, outcome: None }
    }

    /// The next step, or the end: success once every step has succeeded,
    /// the recorded failure otherwise.
    pub fn next_action(&self) -> (r: LifecycleAction)
        requires
            self.wf(),
        ensures
            self.outcome is None && self.done < self.steps@.len() ==> r == LifecycleAction::Run(
                self.steps@[self.done as int],
            ),
            self.outcome is None && self.done == self.steps@.len() ==> r
                == LifecycleAction::Finish(ConnectOutcome::Connected),
            self.outcome matches Some(ConnectOutcome::Failed(e)) ==> r matches LifecycleAction::Finish(
                ConnectOutcome::Failed(f),
            ) && f@ == e@,
            self.outcome matches Some(ConnectOutcome::TimedOut) ==> r matches LifecycleAction::Finish(
                ConnectOutcome::TimedOut,
            ),
            self.outcome matches Some(ConnectOutcome::Connected) ==> r matches LifecycleAction::Finish(
                ConnectOutcome::Connected,
            ),
    {
        match &self.outcome {
            Some(ConnectOutcome::Failed(e)) => LifecycleAction::Finish(ConnectOutcome::Failed(e.clone())),
            Some(ConnectOutcome::TimedOut) => LifecycleAction::Finish(ConnectOutcome::TimedOut),
            Some(ConnectOutcome::Connected) => LifecycleAction::Finish(ConnectOutcome::Connected),
            None => {
                if self.done < self.steps.len() {
                    LifecycleAction::Run(self.steps[self.done])
                } else {
                    LifecycleAction::Finish(ConnectOutcome::Connected)
                }
            },
        }
    }

    /// Records the result of the step just run; a failure ends the lifecycle
    /// and the remaining steps are skipped.
    pub fn step_finished(&mut self, result: Result<(), String>)
        requires
            old(self).wf(),
            old(self).outcome is None,
            old(self).done < old(self).steps@.len(),
        ensures
            final(self).wf(),
            final(self).steps == old(self).steps,
            result is Ok ==> final(self).done == old(self).done + 1 && final(self).outcome is None,
            result matches Err(e) ==> final(self).done == old(self).done && final(self).outcome
                == Some(ConnectOutcome::Failed(e)),
    {
        match result {
            Ok(()) => {
                let n = self.steps.len();
                assert(self.done < n);
                self.done = self.done + 1;
            },
            Err(e) => {
                self.outcome = Some(ConnectOutcome::Failed(e));
            },
        }
    }

    /// The deadline passed before the lifecycle ended.
    pub fn deadline_passed(&mut self)
        ensures
            final(self).steps == old(self).steps,
            final(self).done == old(self).done,
            old(self).outcome is None ==> final(self).outcome == Some(ConnectOutcome::TimedOut),
            old(self).outcome is Some ==> final(self).outcome == old(self).outcome,
    {
        if self.outcome.is_none() {
            self.outcome = Some(ConnectOutcome::TimedOut);
        }
    }
}

/// The error text of a lifecycle that ran out of time.
pub open spec fn timeout_text(secs: u64) -> Seq<char> {
    "Connection timed out after "@ + decimal(secs as nat) + seq!['s']
}

/// `Connection timed out after {secs}s`.
pub fn timeout_message(secs: u64) -> (r: String)
    ensures
        r@ == timeout_text(secs),
{
    let n = decimal_string(secs);
    let mut r = concat_str("Connection timed out after ", n.as_str());
    push_char(&mut r, 's');
    r
}

/// The timeout text says that the operation timed out, which no service error
/// of this worker is made to say.
pub proof fn lemma_timeout_text_says_timed_out(secs: u64)
    ensures
        contains_seq(timeout_text(secs), "timed out"@),
{
    reveal_strlit("Connection timed out after ");
    reveal_strlit("timed out");
    let t = timeout_text(secs);
    assert(t.subrange(11, 11 + "timed out"@.len() as int) =~= "timed out"@);
}

/// Applying the plan of an unpaired, untrusted device with the trust policy on
/// runs pair, then trust, then connect; with the policy off trust never runs.
pub proof fn lemma_lifecycle_order(paired: bool, trusted: bool)
    ensures
        lifecycle_steps(false, false, true) == seq![
            LifecycleStep::Pair,
            LifecycleStep::Trust,
            LifecycleStep::Connect,
        ],
        !lifecycle_steps(paired, trusted, false).contains(LifecycleStep::Trust),
        lifecycle_steps(paired, trusted, false).last() == LifecycleStep::Connect,
{
    assert(lifecycle_steps(false, false, true) =~= seq![
        LifecycleStep::Pair,
        LifecycleStep::Trust,
        LifecycleStep::Connect,
    ]);
    let s = lifecycle_steps(paired, trusted, false);
    if paired {
        assert(s =~= seq![LifecycleStep::Connect]);
    } else {
        assert(s =~= seq![LifecycleStep::Pair, LifecycleStep::Connect]);
    }
    assert(!s.contains(LifecycleStep::Trust)) by {
        if s.contains(LifecycleStep::Trust) {
            let i = choose|i: int| 0 <= i < s.len() && s[i] == LifecycleStep::Trust;
        }
    }
}

} // verus!
