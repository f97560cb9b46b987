use vstd::prelude::*;
use crate::account::AccountId;
use crate::{Balance, BlockNumber};

verus! {

/// Phase of an auction at one step of the timeline.
#[derive(Clone, Copy, Debug, PartialEq, Eq, Structural)]
pub enum Status {
    /// The step lies before the first step of the opening period.
    NotStarted,
    /// The step lies in the opening period: bids compete freely.
    Started,
    /// The step is a step of the ending period. The number is the index of
    /// the checkpoint slot that this step resolves, counted from zero at the
    /// first step after the opening period.
    Checkpoint(BlockNumber),
    /// The step lies after the last step of the ending period.
    Ended,
}

/// What is fixed when an auction is created and never changes afterwards.
#[derive(Clone, Copy, Debug, PartialEq, Eq)]
pub struct Config {
    /// Who sells.
    pub seller: AccountId,
    /// Address of the collection that holds the auctioned item.
    pub nft_contract: AccountId,
    /// Number of the auctioned item within its collection.
    pub nft_id: u32,
    /// Least amount that the first bid must offer.
    pub min_bid: Balance,
    /// First step of the opening period.
    pub start_block: BlockNumber,
    /// Number of steps of the opening period.
    pub opening_length: BlockNumber,
    /// Number of steps of the ending period, one checkpoint slot each.
    pub ending_length: BlockNumber,
}

impl Config {
    /// Last step of the opening period. With an opening period of no steps
    /// this is the step before `start_block`.
    pub open spec fn opening_last(self) -> int {
        self.start_block + self.opening_length - 1
    }

    /// Last step of the ending period.
    pub open spec fn ending_last(self) -> int {
        self.opening_last() + self.ending_length
    }

    /// The phase at `step`. The opening period is the closed range from
    /// `start_block` to `opening_last()`; the step after it resolves slot 0,
    /// the one after that slot 1, and so on through `ending_last()`.
    pub open spec fn phase(self, step: int) -> Status {
        if step < self.start_block {
            Status::NotStarted
        } else if step <= self.opening_last() {
            Status::Started
        } else if step <= self.ending_last() {
            Status::Checkpoint((step - self.opening_last() - 1) as BlockNumber)
        } else {
            Status::Ended
        }
    }

    /// Whether bids are admitted at `step`, as far as the timeline decides.
    pub open spec fn accepts_bids_at(self, step: int) -> bool {
        self.start_block <= step <= self.ending_last()
    }

    /// Classifies `block` into its phase. The result depends on the
    /// configuration and on `block` alone.
    pub fn status(&self, block: BlockNumber) -> (phase: Status)
        ensures
            phase == self.phase(block as int),
    {
        let step: u64 = block as u64;
        let start: u64 = self.start_block as u64;
        let after_opening: u64 = start + self.opening_length as u64;
        let after_ending: u64 = after_opening + self.ending_length as u64;
        if step < start {
            Status::NotStarted
        } else if step < after_opening {
            Status::Started
        } else if step < after_ending {
            Status::Checkpoint((step - after_opening) as BlockNumber)
        } else {
            Status::Ended
        }
    }
}

/// Every step is in exactly one phase: the four ranges of the timeline do
/// not overlap and leave no step out, and `phase` names the range that
/// holds the step.
pub proof fn lemma_phases_partition(config: Config, step: int)
    ensures
        config.phase(step) == Status::NotStarted <==> step < config.start_block,
        config.phase(step) == Status::Started <==> config.start_block <= step
            <= config.opening_last(),
        config.phase(step) is Checkpoint <==> config.opening_last() < step
            <= config.ending_last(),
        config.phase(step) == Status::Ended <==> config.ending_last() < step,
        config.phase(step) matches Status::Checkpoint(slot) ==> slot == step
            - config.opening_last() - 1 && slot < config.ending_length,
        config.accepts_bids_at(step) <==> config.phase(step) == Status::Started
            || config.phase(step) is Checkpoint,
{
}

} // verus!
