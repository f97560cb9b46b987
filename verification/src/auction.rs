use vstd::prelude::*;
use crate::account::AccountId;
use crate::balances::Balances;
use crate::config::{Config, Status};
use crate::{Balance, BlockNumber};

verus! {

/// Why a bid or a finalization was refused.
#[derive(Clone, Copy, Debug, PartialEq, Eq, Structural)]
pub enum Error {
    /// The bid came at a step outside the opening and ending periods, or
    /// after the auction was finalized.
    AuctionNotActive,
    /// The bid does not beat what it is measured against. The first number
    /// is the amount offered, the second the amount it is measured against.
    InsufficientBid(Balance, Balance),
    /// The bidder offered no more than their own standing balance.
    NonIncreasingBid,
    /// The bid came at a step whose checkpoint slot is already filled.
    CheckpointAlreadyResolved,
    /// Finalization was asked for before the ending period was over.
    TooEarly,
    /// Finalization was asked for a second time.
    AlreadyFinalized,
}

/// Notice of an accepted bid, for whoever keeps observers informed.
#[derive(Clone, Copy, Debug, PartialEq, Eq)]
pub struct Bid {
    /// Who placed the bid.
    pub bidder: AccountId,
    /// The amount offered.
    pub amount: Balance,
    /// The step at which the bid was accepted.
    pub step: BlockNumber,
}

/// What finalization decides.
#[derive(Clone, Copy, Debug, PartialEq, Eq)]
pub struct FinalResult {
    /// The overall winner with the winning amount, if there is one.
    pub winner: Option<(AccountId, Balance)>,
}

/// The amount that a slot holds; zero for an empty slot.
pub open spec fn amount_in(slot: Option<(AccountId, Balance)>) -> Balance {
    match slot {
        Some((_, amount)) => amount,
        None => 0,
    }
}

/// Slot `i` of `slots` is filled, no filled slot holds a higher amount, and
/// every filled slot before it holds a lower one.
pub open spec fn leads(slots: Seq<Option<(AccountId, Balance)>>, i: int) -> bool {
    &&& 0 <= i < slots.len()
    &&& slots[i] is Some
    &&& forall|j: int|
        0 <= j < slots.len() && slots[j] is Some ==> {
            &&& amount_in(#[trigger] slots[j]) <= amount_in(slots[i])
            &&& j < i ==> amount_in(slots[j]) < amount_in(slots[i])
        }
}

/// The mathematical value of an auction.
pub struct AuctionView {
    pub config: Config,
    /// Standing balance of every bidder who has had a bid accepted.
    pub balances: Map<AccountId, Balance>,
    /// The last accepted bid, which is the highest so far.
    pub leader: Option<(AccountId, Balance)>,
    /// One slot for each step of the ending period.
    pub checkpoints: Seq<Option<(AccountId, Balance)>>,
    pub finalized: bool,
}

impl AuctionView {
    /// There is one checkpoint slot for each step of the ending period.
    pub open spec fn wf(self) -> bool {
        self.checkpoints.len() == self.config.ending_length
    }

    /// The amount that a bid is measured against: the leader's amount, or
    /// the minimum bid while nobody leads.
    pub open spec fn comparator(self) -> Balance {
        match self.leader {
            Some((_, top)) => top,
            None => self.config.min_bid,
        }
    }

    /// `amount` beats the comparator: it exceeds the leader's amount, or it
    /// reaches the minimum bid while nobody leads.
    pub open spec fn outbids(self, amount: Balance) -> bool {
        match self.leader {
            Some((_, top)) => amount > top,
            None => amount >= self.config.min_bid,
        }
    }

    /// `step` is a step of the ending period whose slot is already filled.
    pub open spec fn slot_filled_at(self, step: int) -> bool {
        self.config.phase(step) matches Status::Checkpoint(slot) && self.checkpoints[slot as int]
            is Some
    }

    /// The first reason, in the order of validation, for which the bid is
    /// refused; `None` where it is accepted.
    pub open spec fn bid_rejection(
        self,
        bidder: AccountId,
        amount: Balance,
        step: BlockNumber,
    ) -> Option<Error> {
        if self.finalized || !self.config.accepts_bids_at(step as int) {
            Some(Error::AuctionNotActive)
        } else if !self.outbids(amount) {
            Some(Error::InsufficientBid(amount, self.comparator()))
        } else if self.balances.contains_key(bidder) && amount <= self.balances[bidder] {
            Some(Error::NonIncreasingBid)
        } else if self.slot_filled_at(step as int) {
            Some(Error::CheckpointAlreadyResolved)
        } else {
            None
        }
    }

    /// The auction after the bid was accepted: the bidder's balance is the
    /// amount, the bidder leads, and at a step of the ending period the
    /// step's slot holds the bid.
    pub open spec fn after_bid(
        self,
        bidder: AccountId,
        amount: Balance,
        step: BlockNumber,
    ) -> AuctionView {
        AuctionView {
            balances: self.balances.insert(bidder, amount),
            leader: Some((bidder, amount)),
            checkpoints: match self.config.phase(step as int) {
                Status::Checkpoint(slot) => self.checkpoints.update(
                    slot as int,
                    Some((bidder, amount)),
                ),
                _ => self.checkpoints,
            },
            ..self
        }
    }

    /// The leader holds the highest balance: the leader's amount is the
    /// leader's balance and no balance exceeds it; while nobody leads, no
    /// balance is recorded.
    pub open spec fn leader_is_highest(self) -> bool {
        match self.leader {
            Some((who, top)) => {
                &&& self.balances.contains_key(who)
                &&& self.balances[who] == top
                &&& forall|other: AccountId| #[trigger]
                    self.balances.contains_key(other) ==> self.balances[other] <= top
            },
            None => forall|other: AccountId| !self.balances.contains_key(other),
        }
    }

    /// The reason for which finalization at `step` is refused; `None`
    /// where it goes through.
    pub open spec fn finalize_rejection(self, step: BlockNumber) -> Option<Error> {
        if self.config.phase(step as int) != Status::Ended {
            Some(Error::TooEarly)
        } else if self.finalized {
            Some(Error::AlreadyFinalized)
        } else {
            None
        }
    }

    /// The auction after finalization.
    pub open spec fn after_finalize(self) -> AuctionView {
        AuctionView { finalized: true, ..self }
    }

    /// `winner` is the overall winner. Without checkpoint slots that is the
    /// leader. With slots it is the bid of the filled slot with the highest
    /// amount, the earliest such slot where several hold that amount, and
    /// nobody where every slot is empty.
    pub open spec fn is_winner(self, winner: Option<(AccountId, Balance)>) -> bool {
        if self.checkpoints.len() == 0 {
            winner == self.leader
        } else {
            match winner {
                Some(bid) => exists|i: int| leads(self.checkpoints, i) && self.checkpoints[i]
                    == Some(bid),
                None => forall|i: int|
                    0 <= i < self.checkpoints.len() ==> self.checkpoints[i] is None,
            }
        }
    }
}

/// A competitive-bidding engine over a timeline of discrete steps.
pub struct Auction {
    config: Config,
    balances: Balances,
    leader: Option<(AccountId, Balance)>,
    checkpoints: Vec<Option<(AccountId, Balance)>>,
    finalized: bool,
}

impl View for Auction {
    type V = AuctionView;

    closed spec fn view(&self) -> AuctionView {
        AuctionView {
            config: self.config,
            balances: self.balances@,
            leader: self.leader,
            checkpoints: self.checkpoints@,
            finalized: self.finalized,
        }
    }
}

/// The step at which an auction created at `current_block` starts: the
/// step asked for, or the step after `current_block`.
pub open spec fn start_step(start_block: Option<BlockNumber>, current_block: BlockNumber) -> int {
    match start_block {
        Some(step) => step as int,
        None => current_block + 1,
    }
}

impl Auction {
    /// The representation is sound and stands for a well-formed value.
    pub closed spec fn wf(&self) -> bool {
        &&& self.balances.wf()
        &&& self.checkpoints@.len() == self.config.ending_length
    }

    /// Creates an auction on behalf of `seller` at step `current_block`.
    /// It starts at `start_block`, or at the next step where none is given,
    /// and in either case strictly after `current_block`. Nobody leads, no
    /// balance is recorded and every checkpoint slot is empty.
    pub fn new(
        seller: AccountId,
        current_block: BlockNumber,
        nft_contract: AccountId,
        nft_id: u32,
        min_bid: Balance,
        start_block: Option<BlockNumber>,
        opening_length: BlockNumber,
        ending_length: BlockNumber,
    ) -> (auction: Auction)
        requires
            current_block < start_step(start_block, current_block) <= BlockNumber::MAX,
        ensures
            auction.wf(),
            auction@.wf(),
            auction@.leader_is_highest(),
            auction@ == (AuctionView {
                config: Config {
                    seller,
                    nft_contract,
                    nft_id,
                    min_bid,
                    start_block: start_step(start_block, current_block) as BlockNumber,
                    opening_length,
                    ending_length,
                },
                balances: Map::empty(),
                leader: None,
                checkpoints: Seq::new(ending_length as nat, |i: int| None),
                finalized: false,
            }),
    {
        let start: BlockNumber = match start_block {
            Some(step) => step,
            None => current_block + 1,
        };
        let mut checkpoints: Vec<Option<(AccountId, Balance)>> = Vec::new();
        let mut filled: BlockNumber = 0;
        while filled < ending_length
            invariant
                filled <= ending_length,
                checkpoints@.len() == filled,
                forall|i: int| 0 <= i < filled ==> checkpoints@[i] is None,
            decreases ending_length - filled,
        {
            checkpoints.push(None);
            filled += 1;
        }
        let auction = Auction {
            config: Config {
                seller,
                nft_contract,
                nft_id,
                min_bid,
                start_block: start,
                opening_length,
                ending_length,
            },
            balances: Balances::new(),
            leader: None,
            checkpoints,
            finalized: false,
        };
        assert(auction@.checkpoints =~= Seq::new(ending_length as nat, |i: int| None));
        auction
    }

    /// Puts an auction together from its parts, as they were read out of
    /// one before. The parts fit exactly when there is one checkpoint slot
    /// for each step of the ending period.
    pub fn from_parts(
        config: Config,
        balances: Balances,
        leader: Option<(AccountId, Balance)>,
        checkpoints: Vec<Option<(AccountId, Balance)>>,
        finalized: bool,
    ) -> (auction: Option<Auction>)
        requires
            balances.wf(),
        ensures
            auction is Some <==> checkpoints@.len() == config.ending_length,
            auction matches Some(a) ==> a.wf() && a@.wf() && a@ == (AuctionView {
                config,
                balances: balances@,
                leader,
                checkpoints: checkpoints@,
                finalized,
            }),
    {
        if checkpoints.len() as u64 != config.ending_length as u64 {
            return None;
        }
        Some(Auction { config, balances, leader, checkpoints, finalized })
    }

    /// The configuration.
    pub fn config(&self) -> (config: Config)
        ensures
            config == self@.config,
    {
        self.config
    }

    /// The standing balances.
    pub fn balances(&self) -> (balances: &Balances)
        ensures
            balances@ == self@.balances,
            self.wf() ==> balances.wf(),
    {
        &self.balances
    }

    /// The standing balance of `who`, if `who` has had a bid accepted.
    pub fn balance_of(&self, who: &AccountId) -> (amount: Option<Balance>)
        requires
            self.wf(),
        ensures
            amount == (if self@.balances.contains_key(*who) {
                Some(self@.balances[*who])
            } else {
                None
            }),
    {
        self.balances.get(who)
    }

    /// The leading bidder with the leading amount, if anybody leads.
    pub fn leader(&self) -> (leader: Option<(AccountId, Balance)>)
        ensures
            leader == self@.leader,
    {
        self.leader
    }

    /// The checkpoint slots, in the order of the steps of the ending period.
    pub fn checkpoints(&self) -> (slots: &Vec<Option<(AccountId, Balance)>>)
        ensures
            slots@ == self@.checkpoints,
    {
        &self.checkpoints
    }

    /// Whether the auction was finalized.
    pub fn is_finalized(&self) -> (finalized: bool)
        ensures
            finalized == self@.finalized,
    {
        self.finalized
    }

    /// The phase of the auction at `block`. It depends on the configuration
    /// and on `block` alone, not on the bids that came in.
    pub fn status(&self, block: BlockNumber) -> (phase: Status)
        ensures
            phase == self@.config.phase(block as int),
    {
        self.config.status(block)
    }

    /// Takes a bid of `bid` by `bidder` at step `current_block`.
    ///
    /// The bid is refused, and nothing changes, for the first of these
    /// reasons that holds: the auction is finalized or the step lies outside
    /// the opening and ending periods; the amount does not beat the
    /// comparator; the amount does not exceed the bidder's own balance; the
    /// step's checkpoint slot is already filled. Otherwise the bid is
    /// recorded and the notice to send out is returned.
    pub fn place_bid(&mut self, bidder: AccountId, bid: Balance, current_block: BlockNumber) -> (outcome:
        Result<Bid, Error>)
        requires
            old(self).wf(),
        ensures
            final(self).wf(),
            final(self)@.wf(),
            match outcome {
                Ok(notice) => {
                    &&& old(self)@.bid_rejection(bidder, bid, current_block) is None
                    &&& final(self)@ == old(self)@.after_bid(bidder, bid, current_block)
                    &&& notice == (Bid { bidder, amount: bid, step: current_block })
                },
                Err(reason) => {
                    &&& old(self)@.bid_rejection(bidder, bid, current_block) == Some(reason)
                    &&& *final(self) == *old(self)
                },
            },
            bid < old(self)@.comparator() ==> outcome is Err,
            forall|slot: int|
                0 <= slot < old(self)@.checkpoints.len() && old(self)@.checkpoints[slot] is Some
                    ==> final(self)@.checkpoints[slot] == old(self)@.checkpoints[slot],
            old(self)@.slot_filled_at(current_block as int) ==> outcome is Err,
            old(self)@.leader_is_highest() ==> final(self)@.leader_is_highest(),
            final(self)@.config == old(self)@.config,
            final(self)@.finalized == old(self)@.finalized,
    {
        let phase = self.config.status(current_block);
        if self.finalized {
            return Err(Error::AuctionNotActive);
        }
        let slot: Option<BlockNumber> = match phase {
            Status::Started => None,
            Status::Checkpoint(index) => Some(index),
            _ => {
                return Err(Error::AuctionNotActive);
            },
        };
        match self.leader {
            Some((_, top)) => {
                if bid <= top {
                    return Err(Error::InsufficientBid(bid, top));
                }
            },
            None => {
                if bid < self.config.min_bid {
                    return Err(Error::InsufficientBid(bid, self.config.min_bid));
                }
            },
        }
        match self.balances.get(&bidder) {
            Some(standing) => {
                if bid <= standing {
                    return Err(Error::NonIncreasingBid);
                }
            },
            None => {},
        }
        match slot {
            Some(index) => {
                if self.checkpoints[index as usize].is_some() {
                    return Err(Error::CheckpointAlreadyResolved);
                }
                self.checkpoints[index as usize] = Some((bidder, bid));
            },
            None => {},
        }
        self.balances.insert(bidder, bid);
        self.leader = Some((bidder, bid));
        assert(self@.checkpoints =~= old(self)@.after_bid(bidder, bid, current_block).checkpoints);
        Ok(Bid { bidder, amount: bid, step: current_block })
    }

    /// Closes the auction at step `current_step` and names the overall
    /// winner.
    ///
    /// It is refused with `TooEarly` at any step that is not past the ending
    /// period, and otherwise with `AlreadyFinalized` where the auction was
    /// finalized before; a refusal changes nothing. Where it goes through,
    /// the auction is finalized and nothing else changes.
    pub fn finalize(&mut self, current_step: BlockNumber) -> (outcome: Result<FinalResult, Error>)
        requires
            old(self).wf(),
        ensures
            final(self).wf(),
            final(self)@.wf(),
            match outcome {
                Ok(result) => {
                    &&& old(self)@.finalize_rejection(current_step) is None
                    &&& final(self)@ == old(self)@.after_finalize()
                    &&& old(self)@.is_winner(result.winner)
                },
                Err(reason) => {
                    &&& old(self)@.finalize_rejection(current_step) == Some(reason)
                    &&& *final(self) == *old(self)
                },
            },
            old(self)@.config.phase(current_step as int) != Status::Ended ==> outcome == Err::<
                FinalResult,
                Error,
            >(Error::TooEarly),
            old(self)@.config.phase(current_step as int) == Status::Ended && old(self)@.finalized
                ==> outcome == Err::<FinalResult, Error>(Error::AlreadyFinalized),
            outcome is Ok ==> final(self)@.finalized,
            old(self)@.finalized ==> final(self)@.finalized,
            final(self)@.config == old(self)@.config,
    {
        match self.config.status(current_step) {
            Status::Ended => {},
            _ => {
                return Err(Error::TooEarly);
            },
        }
        if self.finalized {
            return Err(Error::AlreadyFinalized);
        }
        let winner = if self.checkpoints.len() == 0 {
            self.leader
        } else {
            highest_slot(&self.checkpoints)
        };
        self.finalized = true;
        Ok(FinalResult { winner })
    }
}

/// The bid of the slot that leads among `slots`, or `None` where every slot
/// is empty.
pub fn highest_slot(slots: &Vec<Option<(AccountId, Balance)>>) -> (best: Option<(AccountId, Balance)>)
    ensures
        match best {
            Some(bid) => exists|i: int| leads(slots@, i) && slots@[i] == Some(bid),
            None => forall|i: int| 0 <= i < slots@.len() ==> slots@[i] is None,
        },
{
    let mut best: Option<(AccountId, Balance)> = None;
    let ghost mut at: int = 0;
    let mut next: usize = 0;
    while next < slots.len()
        invariant
            next <= slots.len(),
            match best {
                Some(bid) => {
                    &&& 0 <= at < next
                    &&& slots@[at] == Some(bid)
                    &&& forall|j: int|
                        0 <= j < next && slots@[j] is Some ==> {
                            &&& amount_in(#[trigger] slots@[j]) <= bid.1
                            &&& j < at ==> amount_in(slots@[j]) < bid.1
                        }
                },
                None => forall|j: int| 0 <= j < next ==> slots@[j] is None,
            },
        decreases slots.len() - next,
    {
        match slots[next] {
            Some(candidate) => {
                let better = match best {
                    Some(bid) => candidate.1 > bid.1,
                    None => true,
                };
                if better {
                    best = Some(candidate);
                    proof {
                        at = next as int;
                    }
                }
            },
            None => {},
        }
        next += 1;
    }
    proof {
        if best is Some {
            assert(leads(slots@, at));
        }
    }
    best
}

} // verus!
