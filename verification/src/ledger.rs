//! The calls an operation asks of the token ledger, and the rule by which
//! they are carried out: in order, all or nothing.

use crate::address::Address;
use crate::errors::ErrorCode;
use crate::events::Event;
use vstd::prelude::*;

verus! {

/// One call into the token ledger.
#[derive(Clone, Copy, Debug, PartialEq, Eq)]
pub enum LedgerCall {
    /// Move `amount` from one token account to another, signed by `authority`.
    Transfer { from: Address, to: Address, authority: Address, amount: u64 },
    /// Mint `amount` of `mint` into the token account `to`, signed by the
    /// minting authority.
    MintTo { mint: Address, to: Address, authority: Address, amount: u64 },
    /// Make `mint` an asset with the given decimals and minting authority, and
    /// no freeze authority.
    InitializeMint { mint: Address, decimals: u8, authority: Address },
    /// Hand the minting rights of `mint` from `current_authority`, who signs,
    /// to `new_authority`.
    SetMintAuthority { mint: Address, current_authority: Address, new_authority: Address },
}

/// What a successful operation asks for: the ledger calls to issue, in this
/// order, and the event to append once every one of them has gone through.
#[derive(Debug, PartialEq, Eq)]
pub struct Plan {
    pub calls: Vec<LedgerCall>,
    pub event: Event,
}

/// The mathematical content of a plan.
pub struct PlanView {
    pub calls: Seq<LedgerCall>,
    pub event: Event,
}

impl View for Plan {
    type V = PlanView;

    open spec fn view(&self) -> PlanView {
        PlanView { calls: self.calls@, event: self.event }
    }
}

/// The result of an operation, with the plan taken by its content.
pub open spec fn outcome(result: Result<Plan, ErrorCode>) -> Result<PlanView, ErrorCode> {
    match result {
        Ok(plan) => Ok(plan@),
        Err(e) => Err(e),
    }
}

/// What to do next while a plan is carried out.
#[derive(Clone, Copy, Debug, PartialEq, Eq)]
pub enum Step {
    /// Issue this call and report how it ended.
    Invoke(LedgerCall),
    /// Every call went through: keep the new state and append this event.
    Commit(Event),
    /// A call was refused: drop everything the operation did.
    Abort(ErrorCode),
}

/// A plan being carried out: how many of its calls have gone through, and
/// whether one was refused.
#[derive(Debug)]
pub struct Execution {
    plan: Plan,
    done: usize,
    failed: bool,
}

/// The mathematical state of an execution.
pub struct ExecutionView {
    pub calls: Seq<LedgerCall>,
    pub event: Event,
    pub done: nat,
    pub failed: bool,
}

impl ExecutionView {
    /// The step that is due in this state.
    pub open spec fn pending(self) -> Step {
        if self.failed {
            Step::Abort(ErrorCode::LedgerServiceError)
        } else if self.done < self.calls.len() {
            Step::Invoke(self.calls[self.done as int])
        } else {
            Step::Commit(self.event)
        }
    }

    /// The state after the ledger has answered the call that was due: one
    /// further call done where it went through, failure where it did not. An
    /// answer that comes while no call is due changes nothing.
    pub open spec fn record(self, went_through: bool) -> ExecutionView {
        if self.pending() is Invoke {
            if went_through {
                ExecutionView { done: self.done + 1, ..self }
            } else {
                ExecutionView { failed: true, ..self }
            }
        } else {
            self
        }
    }

    /// The state after a run of answers, taken in order.
    pub open spec fn replay(self, answers: Seq<bool>) -> ExecutionView
        decreases answers.len(),
    {
        if answers.len() == 0 {
            self
        } else {
            self.record(answers[0]).replay(answers.drop_first())
        }
    }

    /// Once a call has been refused the execution stays aborted, whatever is
    /// reported afterwards: no later call of the plan is ever due.
    pub proof fn lemma_abort_is_final(self, answers: Seq<bool>)
        requires
            self.failed,
        ensures
            self.replay(answers) == self,
            self.replay(answers).pending() == Step::Abort(ErrorCode::LedgerServiceError),
        decreases answers.len(),
    {
        if answers.len() > 0 {
            self.record(answers[0]).lemma_abort_is_final(answers.drop_first());
        }
    }

    /// A fresh execution commits after exactly as many good answers as the
    /// plan has calls, and has asked for the calls one by one in their order.
    pub proof fn lemma_all_good_commits(self, answers: Seq<bool>)
        requires
            !self.failed,
            self.done <= self.calls.len(),
            answers.len() == self.calls.len() - self.done,
            forall|i: int| 0 <= i < answers.len() ==> answers[i],
        ensures
            self.replay(answers).pending() == Step::Commit(self.event),
            forall|k: int|
                0 <= k < answers.len() ==> #[trigger] self.replay(answers.take(k)).pending()
                    == Step::Invoke(self.calls[self.done + k]),
        decreases answers.len(),
    {
        if answers.len() > 0 {
            let next = self.record(answers[0]);
            let rest = answers.drop_first();
            next.lemma_all_good_commits(rest);
            assert forall|k: int| 0 <= k < answers.len() implies #[trigger] self.replay(
                answers.take(k),
            ).pending() == Step::Invoke(self.calls[self.done + k]) by {
                if k > 0 {
                    assert(answers.take(k).drop_first() == rest.take(k - 1));
                    assert(answers.take(k)[0] == answers[0]);
                    assert(next.replay(rest.take(k - 1)).pending() == Step::Invoke(
                        next.calls[next.done + (k - 1)],
                    ));
                }
            }
        }
    }

    /// The first refused call aborts the execution: if the answers are good up
    /// to some call of the plan and bad at it, the outcome is an abort.
    pub proof fn lemma_first_refusal_aborts(self, answers: Seq<bool>, at: int)
        requires
            !self.failed,
            self.done <= self.calls.len(),
            0 <= at < answers.len(),
            at < self.calls.len() - self.done,
            forall|i: int| 0 <= i < at ==> answers[i],
            !answers[at],
        ensures
            self.replay(answers).pending() == Step::Abort(ErrorCode::LedgerServiceError),
            self.replay(answers).done == self.done + at,
        decreases answers.len(),
    {
        let next = self.record(answers[0]);
        let rest = answers.drop_first();
        if at == 0 {
            next.lemma_abort_is_final(rest);
        } else {
            next.lemma_first_refusal_aborts(rest, at - 1);
        }
    }
}

impl View for Execution {
    type V = ExecutionView;

    closed spec fn view(&self) -> ExecutionView {
        ExecutionView {
            calls: self.plan.calls@,
            event: self.plan.event,
            done: self.done as nat,
            failed: self.failed,
        }
    }
}

impl Execution {
    #[verifier::type_invariant]
    spec fn in_range(self) -> bool {
        self.done <= self.plan.calls@.len()
    }

    /// Starts carrying out `plan`: nothing done, nothing refused.
    pub fn begin(plan: Plan) -> (execution: Execution)
        ensures
            execution@ == (ExecutionView {
                calls: plan.calls@,
                event: plan.event,
                done: 0,
                failed: false,
            }),
    {
        Execution { plan, done: 0, failed: false }
    }

    /// The step that is due now.
    pub fn pending(&self) -> (step: Step)
        ensures
            step == self@.pending(),
            self@.done <= self@.calls.len(),
    {
        proof {
            use_type_invariant(self);
        }
        if self.failed {
            Step::Abort(ErrorCode::LedgerServiceError)
        } else if self.done < self.plan.calls.len() {
            Step::Invoke(self.plan.calls[self.done])
        } else {
            Step::Commit(self.plan.event)
        }
    }

    /// Takes the ledger's answer to the call that was due.
    pub fn record(&mut self, went_through: bool)
        ensures
            final(self)@ == old(self)@.record(went_through),
    {
        proof {
            use_type_invariant(&*self);
        }
        if !self.failed && self.done < self.plan.calls.len() {
            if went_through {
                self.done = self.done + 1;
            } else {
                self.failed = true;
            }
        }
    }
}

} // verus!
