//! What an operation asks of its surroundings. The distributor computes; it
//! neither talks to other programs nor writes to accounts. An operation
//! therefore ends in a plan: the steps to carry out, in order, and the
//! result to report once they are done.
//!
//! Whoever carries a plan out takes the steps one by one. Where a
//! collaborator fails at a step, the operation fails with that
//! collaborator's failure and the remaining steps are dropped. After the
//! last step the operation ends with the plan's outcome. A failed
//! operation leaves nothing behind. The plans of the two operations hold
//! steps only where their outcome is success.

use vstd::prelude::*;
use crate::address::Address;
use crate::authority::seed_bytes;
use crate::error::Failure;
use crate::instruction::{Instruction, InstructionView};

verus! {

/// One step of a plan.
#[derive(Clone, Debug, PartialEq, Eq)]
pub enum Action {
    /// Hand a request to the program it names, together with the accounts
    /// at the given addresses. With seeds, the distributor signs for the
    /// address derived from them; without, nobody signs but the caller.
    Invoke { instruction: Instruction, accounts: Vec<Address>, signer_seeds: Vec<Vec<u8>> },
    /// Put `data` in place of the bytes stored in the account.
    Store { account: Address, data: Vec<u8> },
}

/// A step as mathematical values.
pub enum ActionView {
    Invoke { instruction: InstructionView, accounts: Seq<Address>, signer_seeds: Seq<Seq<u8>> },
    Store { account: Address, data: Seq<u8> },
}

impl View for Action {
    type V = ActionView;

    open spec fn view(&self) -> ActionView {
        match self {
            Action::Invoke { instruction, accounts, signer_seeds } => ActionView::Invoke {
                instruction: instruction@,
                accounts: accounts@,
                signer_seeds: seed_bytes(signer_seeds@),
            },
            Action::Store { account, data } => ActionView::Store { account: *account, data: data@ },
        }
    }
}

/// Steps as mathematical values.
pub open spec fn actions_view(actions: Seq<Action>) -> Seq<ActionView> {
    actions.map_values(|action: Action| action@)
}

/// The steps of an operation and the result to report after them.
#[derive(Debug, PartialEq, Eq)]
pub struct Plan {
    pub actions: Vec<Action>,
    pub outcome: Result<(), Failure>,
}

/// A plan as mathematical values.
pub struct PlanView {
    pub actions: Seq<ActionView>,
    pub outcome: Result<(), Failure>,
}

impl View for Plan {
    type V = PlanView;

    open spec fn view(&self) -> PlanView {
        PlanView { actions: actions_view(self.actions@), outcome: self.outcome }
    }
}

impl PlanView {
    /// The plan of an operation that is abandoned before anything is asked
    /// of anyone.
    pub open spec fn rejected(failure: Failure) -> PlanView {
        PlanView { actions: Seq::empty(), outcome: Err(failure) }
    }

    /// Whether the plan asks nothing of anyone.
    pub open spec fn is_idle(self) -> bool {
        self.actions.len() == 0
    }
}

impl Plan {
    /// The plan of an operation that is abandoned before anything is asked
    /// of anyone.
    pub fn rejected(failure: Failure) -> (plan: Plan)
        ensures
            plan@ == PlanView::rejected(failure),
    {
        let plan = Plan { actions: Vec::new(), outcome: Err(failure) };
        assert(plan@.actions =~= Seq::empty());
        plan
    }
}

} // verus!
