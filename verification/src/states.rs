//! The persistent records of the market.

use crate::errors::MyErrorCode;
use vstd::prelude::*;

verus! {

/// One participant's stakes in one round.
#[derive(Clone, Copy, Debug, PartialEq, Eq)]
pub struct UserRoundAccount {
    pub user: [u8; 32],
    pub round_id: u64,
    /// Post-fee amount staked on "up".
    pub up: u64,
    /// Post-fee amount staked on "down".
    pub down: u64,
    pub settled: bool,
}

/// The aggregate stakes of one round and, once the oracle has spoken, its
/// price pair.
#[derive(Clone, Copy, Debug, PartialEq, Eq)]
pub struct RoundAccount {
    pub round_id: u64,
    pub up: u64,
    pub down: u64,
    pub open_price: Option<u64>,
    pub close_price: Option<u64>,
}

/// The administrative singleton: who administers, which key the oracle
/// signs with, and the protocol fee collected so far.
#[derive(Clone, Copy, Debug, PartialEq, Eq)]
pub struct AdminAccount {
    pub authority: [u8; 32],
    pub oracle_authority: [u8; 32],
    pub fee: u64,
}

impl UserRoundAccount {
    /// A record as it is first allocated: no owner yet, nothing staked,
    /// not settled.
    pub fn new() -> (account: Self)
        ensures
            account.user@ == Seq::new(32, |i: int| 0u8),
            account.round_id == 0,
            account.up == 0,
            account.down == 0,
            !account.settled,
    {
        let account = UserRoundAccount { user: [0u8; 32], round_id: 0, up: 0, down: 0, settled: false };
        assert(account.user@ =~= Seq::new(32, |i: int| 0u8));
        account
    }
}

impl RoundAccount {
    /// The prices are either both absent or both present.
    pub open spec fn wf(&self) -> bool {
        self.open_price.is_some() == self.close_price.is_some()
    }

    /// Whether the oracle's price pair has been written.
    pub open spec fn is_settled(&self) -> bool {
        self.open_price.is_some()
    }

    /// Refuses a round that already has its prices.
    pub fn ensure_unsettled(&self) -> (res: Result<(), MyErrorCode>)
        ensures
            res.is_ok() <==> !self.is_settled(),
            res.is_err() ==> res == Err::<(), MyErrorCode>(MyErrorCode::AlreadySettled),
    {
        if self.open_price.is_some() {
            Err(MyErrorCode::AlreadySettled)
        } else {
            Ok(())
        }
    }

    /// A record as it is first allocated: nothing staked, no prices.
    pub fn new() -> (account: Self)
        ensures
            account.round_id == 0,
            account.up == 0,
            account.down == 0,
            account.open_price.is_none(),
            account.close_price.is_none(),
            account.wf(),
    {
        RoundAccount { round_id: 0, up: 0, down: 0, open_price: None, close_price: None }
    }
}

} // verus!
