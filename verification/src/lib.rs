pub mod account;
pub mod auction;
pub mod balances;
pub mod config;
pub mod laws;

pub use account::AccountId;
pub use auction::{Auction, AuctionView, Bid, Error, FinalResult};
pub use balances::Balances;
pub use config::{Config, Status};

use vstd::prelude::*;

verus! {

/// Amount of currency offered in a bid.
pub type Balance = u128;

/// Index of a discrete step of the timeline.
pub type BlockNumber = u32;

} // verus!
