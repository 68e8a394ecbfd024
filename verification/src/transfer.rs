//! Transfers asked of the custody layer, and the order in which the two
//! legs of a settlement are carried out.

use vstd::prelude::*;
use crate::address::Address;
use crate::error::{SwapError, TransferError};

verus! {

/// One transfer for the custody layer to perform.
#[derive(Debug, Clone, PartialEq, Eq)]
pub struct Transfer {
    /// The account that is debited.
    pub from: Address,
    /// The account that is credited.
    pub to: Address,
    /// The account that authorises the debit.
    pub authority: Address,
    /// The amount to move.
    pub amount: u64,
    /// The seeds that stand for the authority where it holds no key of its
    /// own; empty where the authority signs the request itself.
    pub signer_seeds: Vec<Vec<u8>>,
}

/// A transfer as a plain value, with its seeds as sequences.
pub struct TransferView {
    pub from: Address,
    pub to: Address,
    pub authority: Address,
    pub amount: u64,
    pub signer_seeds: Seq<Seq<u8>>,
}

impl View for Transfer {
    type V = TransferView;

    open spec fn view(&self) -> TransferView {
        TransferView {
            from: self.from,
            to: self.to,
            authority: self.authority,
            amount: self.amount,
            signer_seeds: self.signer_seeds.deep_view(),
        }
    }
}

/// How far a settlement has come.
#[derive(Debug, Clone, Copy, PartialEq, Eq, Structural)]
pub enum Stage {
    /// Nothing was transferred yet: the first leg is due.
    First,
    /// The first leg went through: the second leg is due.
    Second,
    /// Both legs went through.
    Settled,
    /// A leg was refused: nothing more is due.
    Failed(TransferError),
}

impl Stage {
    /// The stage that follows once the custody layer has answered the leg
    /// that was due. A finished settlement stays as it is.
    pub open spec fn after(self, outcome: Result<(), TransferError>) -> Stage {
        match (self, outcome) {
            (Stage::First, Ok(_)) => Stage::Second,
            (Stage::Second, Ok(_)) => Stage::Settled,
            (Stage::First, Err(error)) => Stage::Failed(error),
            (Stage::Second, Err(error)) => Stage::Failed(error),
            (Stage::Settled, _) => Stage::Settled,
            (Stage::Failed(error), _) => Stage::Failed(error),
        }
    }

    /// The stage reached from this one after the custody layer has given
    /// `outcomes`, one after the other.
    pub open spec fn after_all(self, outcomes: Seq<Result<(), TransferError>>) -> Stage
        decreases outcomes.len(),
    {
        if outcomes.len() == 0 {
            self
        } else {
            self.after(outcomes[0]).after_all(outcomes.skip(1))
        }
    }

    /// The result of the request where the settlement is finished: success
    /// after both legs, or the failure of the leg that was refused.
    pub open spec fn result(self) -> Option<Result<(), SwapError>> {
        match self {
            Stage::First => None,
            Stage::Second => None,
            Stage::Settled => Some(Ok(())),
            Stage::Failed(error) => Some(Err(SwapError::Transfer(error))),
        }
    }
}

/// The two transfers that settle a request, and how far they have come.
///
/// The legs are carried out in order by whoever can reach the custody layer:
/// ask which leg is [`due`](Settlement::due), perform it, and
/// [`record`](Settlement::record) what the custody layer answered, until
/// there is a [`result`](Settlement::result).
#[derive(Debug, Clone, PartialEq, Eq)]
pub struct Settlement {
    /// The leg to carry out first.
    pub first: Transfer,
    /// The leg to carry out once the first went through.
    pub second: Transfer,
    /// How far the settlement has come.
    pub stage: Stage,
}

impl Settlement {
    /// The leg that is due, if any.
    pub open spec fn due_spec(self) -> Option<Transfer> {
        match self.stage {
            Stage::First => Some(self.first),
            Stage::Second => Some(self.second),
            Stage::Settled => None,
            Stage::Failed(_) => None,
        }
    }

    /// A settlement of two legs, of which none was carried out yet.
    pub fn new(first: Transfer, second: Transfer) -> (settlement: Settlement)
        ensures
            settlement.first == first,
            settlement.second == second,
            settlement.stage == Stage::First,
    {
        Settlement { first, second, stage: Stage::First }
    }

    /// The leg to carry out now: the first leg at the start, the second once
    /// the first went through, and none once the settlement is finished.
    pub fn due(&self) -> (leg: Option<&Transfer>)
        ensures
            match leg {
                Some(transfer) => self.due_spec() == Some(*transfer),
                None => self.due_spec() is None,
            },
    {
        match self.stage {
            Stage::First => Some(&self.first),
            Stage::Second => Some(&self.second),
            Stage::Settled => None,
            Stage::Failed(_) => None,
        }
    }

    /// Records what the custody layer answered for the leg that was due.
    /// Success moves on to the next leg, a failure ends the settlement with
    /// that failure, and a finished settlement is left as it is.
    pub fn record(&mut self, outcome: Result<(), TransferError>)
        ensures
            final(self).stage == old(self).stage.after(outcome),
            final(self).first == old(self).first,
            final(self).second == old(self).second,
    {
        let next = match (self.stage, outcome) {
            (Stage::First, Ok(_)) => Stage::Second,
            (Stage::Second, Ok(_)) => Stage::Settled,
            (Stage::First, Err(error)) => Stage::Failed(error),
            (Stage::Second, Err(error)) => Stage::Failed(error),
            (Stage::Settled, _) => Stage::Settled,
            (Stage::Failed(error), _) => Stage::Failed(error),
        };
        self.stage = next;
    }

    /// The result of the request: none while a leg is due, success once
    /// both legs went through, and the custody layer's failure, as it was
    /// given, once a leg was refused.
    pub fn result(&self) -> (result: Option<Result<(), SwapError>>)
        ensures
            result == self.stage.result(),
            result is None <==> self.due_spec() is Some,
    {
        match self.stage {
            Stage::First => None,
            Stage::Second => None,
            Stage::Settled => Some(Ok(())),
            Stage::Failed(error) => Some(Err(SwapError::Transfer(error))),
        }
    }
}

/// A finished settlement stays finished: whatever is recorded afterwards,
/// its result is the same.
pub proof fn lemma_finished_stays(stage: Stage, outcomes: Seq<Result<(), TransferError>>)
    requires
        stage.result() is Some,
    ensures
        stage.after_all(outcomes) == stage,
    decreases outcomes.len(),
{
    if outcomes.len() != 0 {
        lemma_finished_stays(stage, outcomes.skip(1));
    }
}

/// A settlement succeeds only by two successes in a row.
///
/// Starting with the first leg due, the settlement is settled after a run of
/// answers exactly where the first two answers are successes; where the
/// first failure comes before that, the result is that failure.
pub proof fn lemma_settles_by_two_successes(outcomes: Seq<Result<(), TransferError>>)
    ensures
        Stage::First.after_all(outcomes) == Stage::Settled <==> outcomes.len() >= 2
            && outcomes[0] is Ok && outcomes[1] is Ok,
        outcomes.len() >= 1 && outcomes[0] is Err ==> Stage::First.after_all(outcomes)
            == Stage::Failed(outcomes[0]->Err_0),
        outcomes.len() >= 2 && outcomes[0] is Ok && outcomes[1] is Err ==> Stage::First.after_all(
            outcomes,
        ) == Stage::Failed(outcomes[1]->Err_0),
{
    reveal_with_fuel(Stage::after_all, 3);
    if outcomes.len() >= 1 {
        let rest = outcomes.skip(1);
        if outcomes[0] is Err {
            lemma_finished_stays(Stage::Failed(outcomes[0]->Err_0), rest);
        } else if rest.len() >= 1 {
            assert(rest[0] == outcomes[1]);
            lemma_finished_stays(Stage::Second.after(rest[0]), rest.skip(1));
        }
    }
}

} // verus!
