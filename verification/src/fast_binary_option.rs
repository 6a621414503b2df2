//! The entry points of the market, one per operation. Each hands its
//! accounts bundle to the operation and reports the outcome unchanged.

use crate::errors::MyErrorCode;
use crate::instructions::admin::{
    DeleteAdmin, InitializeAdmin, SetAdminAuthority, SetOracleAuthority, WithdrawFee,
};
use crate::instructions::bet::{
    BetPlaced, BetSettled, PlaceBet, RoundSettled, SettleBet, SettleRound,
};
use vstd::prelude::*;

verus! {

/// Creates the administrative record: the caller becomes the authority,
/// the oracle's key is recorded, the fee balance starts at zero.
pub fn initialize_admin(ctx: &mut InitializeAdmin, oracle_authority: [u8; 32]) -> (res: Result<
    (),
    MyErrorCode,
>)
    ensures
        res.is_ok(),
        final(ctx).user == old(ctx).user,
        final(ctx).admin_account.authority == old(ctx).user,
        final(ctx).admin_account.oracle_authority == oracle_authority,
        final(ctx).admin_account.fee == 0,
{
    ctx.process(oracle_authority)
}

/// Replaces the oracle's key; `Unauthorized` for anyone but the authority.
pub fn set_oracle_authority(ctx: &mut SetOracleAuthority, oracle_authority: [u8; 32]) -> (res:
    Result<(), MyErrorCode>)
    ensures
        final(ctx).authority == old(ctx).authority,
        final(ctx).admin_account.authority == old(ctx).admin_account.authority,
        final(ctx).admin_account.fee == old(ctx).admin_account.fee,
        res.is_ok() <==> old(ctx).authority@ == old(ctx).admin_account.authority@,
        match res {
            Ok(_) => final(ctx).admin_account.oracle_authority == oracle_authority,
            Err(e) => e == MyErrorCode::Unauthorized && *final(ctx) == *old(ctx),
        },
{
    ctx.process(oracle_authority)
}

/// Names a new authority; `Unauthorized` for anyone but the current one.
pub fn set_admin_authority(ctx: &mut SetAdminAuthority, authority: [u8; 32]) -> (res: Result<
    (),
    MyErrorCode,
>)
    ensures
        final(ctx).authority == old(ctx).authority,
        final(ctx).admin_account.oracle_authority == old(ctx).admin_account.oracle_authority,
        final(ctx).admin_account.fee == old(ctx).admin_account.fee,
        res.is_ok() <==> old(ctx).authority@ == old(ctx).admin_account.authority@,
        match res {
            Ok(_) => final(ctx).admin_account.authority == authority,
            Err(e) => e == MyErrorCode::Unauthorized && *final(ctx) == *old(ctx),
        },
{
    ctx.process(authority)
}

/// Empties the fee balance and returns the amount that is to leave the
/// pool; `Unauthorized` for anyone but the authority, `NoFeeToWithdraw`
/// when the balance is zero.
pub fn withdraw_fee(ctx: &mut WithdrawFee) -> (res: Result<u64, MyErrorCode>)
    ensures
        match res {
            Ok(amount) => {
                &&& old(ctx).refusal().is_none()
                &&& amount == old(ctx).admin_account.fee
                &&& amount > 0
                &&& final(ctx).admin_account.fee == 0
                &&& final(ctx).admin_account.authority == old(ctx).admin_account.authority
                &&& final(ctx).admin_account.oracle_authority
                    == old(ctx).admin_account.oracle_authority
                &&& final(ctx).authority == old(ctx).authority
            },
            Err(e) => {
                &&& old(ctx).refusal() == Some(e)
                &&& *final(ctx) == *old(ctx)
            },
        },
{
    ctx.process()
}

/// Allows the release of the administrative record; `Unauthorized` for
/// anyone but the authority.
pub fn delete_admin(ctx: &mut DeleteAdmin) -> (res: Result<(), MyErrorCode>)
    ensures
        *final(ctx) == *old(ctx),
        res.is_ok() <==> old(ctx).authority@ == old(ctx).admin_account.authority@,
        res.is_err() ==> res == Err::<(), MyErrorCode>(MyErrorCode::Unauthorized),
{
    ctx.process()
}

/// Places `amount` on one side of round `round_id` at time
/// `current_timestamp`.
pub fn place_bet(
    ctx: &mut PlaceBet,
    round_id: u64,
    amount: u64,
    is_up: bool,
    current_timestamp: u64,
) -> (res: Result<BetPlaced, MyErrorCode>)
    ensures
        match res {
            Ok(event) => {
                &&& old(ctx).refusal(round_id, amount, is_up, current_timestamp).is_none()
                &&& *final(ctx) == old(ctx).after(round_id, amount, is_up)
                &&& event == old(ctx).event(round_id, amount, is_up)
            },
            Err(e) => {
                &&& old(ctx).refusal(round_id, amount, is_up, current_timestamp) == Some(e)
                &&& *final(ctx) == *old(ctx)
            },
        },
{
    ctx.process(round_id, amount, is_up, current_timestamp)
}

/// Closes the caller's wager on a settled round and names the reward.
pub fn settle_bet(ctx: &mut SettleBet, round_id: u64) -> (res: Result<BetSettled, MyErrorCode>)
    ensures
        match res {
            Ok(event) => {
                &&& old(ctx).refusal().is_none()
                &&& *final(ctx) == old(ctx).after()
                &&& event == old(ctx).event(round_id)
                &&& event.reward == old(ctx).reward()
                &&& old(ctx).stakes_within_totals() ==> event.reward <= old(ctx).total_pool()
            },
            Err(e) => {
                &&& old(ctx).refusal() == Some(e)
                &&& *final(ctx) == *old(ctx)
            },
        },
{
    ctx.process(round_id)
}

/// Writes the price pair of a round, once, on the oracle's attestation.
pub fn settle_round(
    ctx: &mut SettleRound,
    round_id: u64,
    start_price: u64,
    end_price: u64,
    sig: [u8; 64],
) -> (res: Result<RoundSettled, MyErrorCode>)
    ensures
        match res {
            Ok(event) => {
                &&& old(ctx).refusal(round_id, start_price, end_price, sig@).is_none()
                &&& *final(ctx) == old(ctx).after(start_price, end_price)
                &&& event == (RoundSettled {
                    round_id,
                    open_price: start_price,
                    close_price: end_price,
                })
            },
            Err(e) => {
                &&& old(ctx).refusal(round_id, start_price, end_price, sig@) == Some(e)
                &&& *final(ctx) == *old(ctx)
            },
        },
{
    ctx.process(round_id, start_price, end_price, sig)
}

} // verus!
