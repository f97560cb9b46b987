use vstd::prelude::*;
use crate::account::AccountId;
use crate::auction::{amount_in, leads, AuctionView, Error};
use crate::config::Status;
use crate::{Balance, BlockNumber};

verus! {

/// A bid strictly below the comparator is never accepted: where the
/// auction takes bids at all, it is refused as insufficient, with the amount
/// offered and the comparator.
pub proof fn lemma_low_bid_is_rejected(
    auction: AuctionView,
    bidder: AccountId,
    amount: Balance,
    step: BlockNumber,
)
    requires
        amount < auction.comparator(),
    ensures
        auction.bid_rejection(bidder, amount, step) == Some(Error::AuctionNotActive)
            || auction.bid_rejection(bidder, amount, step) == Some(
            Error::InsufficientBid(amount, auction.comparator()),
        ),
{
}

/// An accepted bid leaves every filled checkpoint slot as it was.
pub proof fn lemma_filled_slot_is_kept(
    auction: AuctionView,
    bidder: AccountId,
    amount: Balance,
    step: BlockNumber,
    slot: int,
)
    requires
        auction.wf(),
        auction.bid_rejection(bidder, amount, step) is None,
        0 <= slot < auction.checkpoints.len(),
        auction.checkpoints[slot] is Some,
    ensures
        auction.after_bid(bidder, amount, step).checkpoints[slot] == auction.checkpoints[slot],
{
}

/// A checkpoint slot is written once: the bid accepted at a step of the
/// ending period fills the step's slot, and every further bid at that step
/// is refused. The reason is that the slot is resolved exactly when the
/// further bid passes the validations that come before that one.
pub proof fn lemma_checkpoint_resolves_once(
    auction: AuctionView,
    first_bidder: AccountId,
    first_amount: Balance,
    later_bidder: AccountId,
    later_amount: Balance,
    step: BlockNumber,
)
    requires
        auction.wf(),
        auction.config.phase(step as int) is Checkpoint,
        auction.bid_rejection(first_bidder, first_amount, step) is None,
    ensures
        ({
            let slot = auction.config.phase(step as int)->Checkpoint_0 as int;
            let resolved = auction.after_bid(first_bidder, first_amount, step);
            &&& 0 <= slot < auction.checkpoints.len()
            &&& auction.checkpoints[slot] is None
            &&& resolved.checkpoints[slot] == Some((first_bidder, first_amount))
            &&& resolved.bid_rejection(later_bidder, later_amount, step) is Some
            &&& resolved.bid_rejection(later_bidder, later_amount, step) == Some(
                Error::CheckpointAlreadyResolved,
            ) <==> later_amount > first_amount && !(resolved.balances.contains_key(later_bidder)
                && later_amount <= resolved.balances[later_bidder])
        }),
{
}

/// An accepted bid lowers nobody's balance and removes nobody's: the
/// bidder's balance rises to the amount, and every other balance stays.
pub proof fn lemma_balances_only_grow(
    auction: AuctionView,
    bidder: AccountId,
    amount: Balance,
    step: BlockNumber,
    who: AccountId,
)
    requires
        auction.bid_rejection(bidder, amount, step) is None,
        auction.balances.contains_key(who),
    ensures
        auction.after_bid(bidder, amount, step).balances.contains_key(who),
        auction.after_bid(bidder, amount, step).balances[who] >= auction.balances[who],
        who == bidder ==> auction.after_bid(bidder, amount, step).balances[who]
            > auction.balances[who],
        who != bidder ==> auction.after_bid(bidder, amount, step).balances[who]
            == auction.balances[who],
{
}

/// Where the leader holds the highest balance, an accepted bid keeps it
/// so, and the amount that leads has strictly risen.
pub proof fn lemma_leader_stays_highest(
    auction: AuctionView,
    bidder: AccountId,
    amount: Balance,
    step: BlockNumber,
)
    requires
        auction.leader_is_highest(),
        auction.bid_rejection(bidder, amount, step) is None,
    ensures
        auction.after_bid(bidder, amount, step).leader_is_highest(),
        auction.leader is Some ==> amount > auction.comparator(),
{
}

/// Where the leader holds the highest balance, a bid that beats the
/// comparator also exceeds the bidder's own balance.
pub proof fn lemma_outbidding_raises_own_balance(
    auction: AuctionView,
    bidder: AccountId,
    amount: Balance,
    step: BlockNumber,
)
    requires
        auction.leader_is_highest(),
    ensures
        auction.bid_rejection(bidder, amount, step) != Some(Error::NonIncreasingBid),
{
}

/// Finalization happens once: after it went through, it is refused as
/// already done at every step past the ending period, and no bid is taken at
/// any step.
pub proof fn lemma_finalize_once(
    auction: AuctionView,
    first: BlockNumber,
    second: BlockNumber,
    bidder: AccountId,
    amount: Balance,
)
    requires
        auction.finalize_rejection(first) is None,
    ensures
        auction.after_finalize().finalized,
        auction.config.phase(second as int) == Status::Ended
            ==> auction.after_finalize().finalize_rejection(second) == Some(
            Error::AlreadyFinalized,
        ),
        second >= first ==> auction.after_finalize().finalize_rejection(second) == Some(
            Error::AlreadyFinalized,
        ),
        auction.after_finalize().bid_rejection(bidder, amount, second) == Some(
            Error::AuctionNotActive,
        ),
{
}

/// Neither a bid nor a finalization takes the mark of finalization away.
pub proof fn lemma_finalized_is_final(
    auction: AuctionView,
    bidder: AccountId,
    amount: Balance,
    step: BlockNumber,
)
    requires
        auction.finalized,
    ensures
        auction.bid_rejection(bidder, amount, step) is Some,
        auction.finalize_rejection(step) is Some,
{
}

/// At most one slot leads.
pub proof fn lemma_leading_slot_is_unique(
    slots: Seq<Option<(AccountId, Balance)>>,
    i: int,
    j: int,
)
    requires
        leads(slots, i),
        leads(slots, j),
    ensures
        i == j,
{
    if i < j {
        assert(amount_in(slots[i]) < amount_in(slots[j]));
        assert(amount_in(slots[j]) <= amount_in(slots[i]));
    } else if j < i {
        assert(amount_in(slots[j]) < amount_in(slots[i]));
        assert(amount_in(slots[i]) <= amount_in(slots[j]));
    }
}

/// An auction has one overall winner: two answers that both meet the
/// definition are the same.
pub proof fn lemma_winner_is_unique(
    auction: AuctionView,
    one: Option<(AccountId, Balance)>,
    other: Option<(AccountId, Balance)>,
)
    requires
        auction.is_winner(one),
        auction.is_winner(other),
    ensures
        one == other,
{
    if auction.checkpoints.len() > 0 {
        if one is Some && other is Some {
            let i = choose|i: int|
                leads(auction.checkpoints, i) && auction.checkpoints[i] == Some(one->0);
            let j = choose|j: int|
                leads(auction.checkpoints, j) && auction.checkpoints[j] == Some(other->0);
            lemma_leading_slot_is_unique(auction.checkpoints, i, j);
        } else if one is Some {
            let i = choose|i: int|
                leads(auction.checkpoints, i) && auction.checkpoints[i] == Some(one->0);
            assert(auction.checkpoints[i] is None);
        } else if other is Some {
            let j = choose|j: int|
                leads(auction.checkpoints, j) && auction.checkpoints[j] == Some(other->0);
            assert(auction.checkpoints[j] is None);
        }
    }
}

} // verus!
