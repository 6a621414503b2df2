//! What holds of the market across operations: stakes and fees are
//! conserved, settlement happens once, rewards stay within the pool, and a
//! tampered attestation is refused by name.

use crate::encoding::{lemma_u64_le_injective, lemma_u64_le_len, u64_le};
use crate::errors::MyErrorCode;
use crate::instructions::bet::{
    canonical_message, fee_of, lemma_reward_within_pool, reward_of, stake_of, InstructionsAccount,
    PlaceBet, SettleBet, SettleRound,
};
use crate::states::{RoundAccount, UserRoundAccount};
use vstd::prelude::*;

verus! {

/// The arguments of one placement.
pub struct Placement {
    pub round_id: u64,
    pub amount: u64,
    pub is_up: bool,
    pub now: u64,
}

/// `before[i]` holds the records that placement `i` found, every placement
/// was accepted, and each found the round and the administrative record as
/// the one before it left them. The wager records may belong to different
/// callers.
pub open spec fn accepted_in_turn(before: Seq<PlaceBet>, bets: Seq<Placement>) -> bool {
    &&& before.len() == bets.len() + 1
    &&& forall|i: int|
        #![trigger bets[i]]
        0 <= i < bets.len() ==> {
            let b = bets[i];
            let next = before[i].after(b.round_id, b.amount, b.is_up);
            &&& before[i].refusal(b.round_id, b.amount, b.is_up, b.now).is_none()
            &&& before[i + 1].round_account == next.round_account
            &&& before[i + 1].admin_account == next.admin_account
        }
}

/// The sum of the post-fee stakes that `bets` put on one side.
pub open spec fn stakes_on(bets: Seq<Placement>, is_up: bool) -> int
    decreases bets.len(),
{
    if bets.len() == 0 {
        0
    } else {
        stakes_on(bets.drop_last(), is_up) + if bets.last().is_up == is_up {
            stake_of(bets.last().amount)
        } else {
            0
        }
    }
}

/// The sum of the fees taken from `bets`.
pub open spec fn fees_on(bets: Seq<Placement>) -> int
    decreases bets.len(),
{
    if bets.len() == 0 {
        0
    } else {
        fees_on(bets.drop_last()) + fee_of(bets.last().amount)
    }
}

/// Over any run of accepted placements on one round, each side's total
/// grows by exactly the post-fee stakes put on that side, so the pool grows
/// by the sum of all post-fee stakes, and the fee balance grows by exactly
/// the fees taken.
pub proof fn lemma_placements_conserve(before: Seq<PlaceBet>, bets: Seq<Placement>)
    requires
        accepted_in_turn(before, bets),
    ensures
        before.last().round_account.up == before[0].round_account.up + stakes_on(bets, true),
        before.last().round_account.down == before[0].round_account.down + stakes_on(bets, false),
        before.last().round_account.up + before.last().round_account.down
            == before[0].round_account.up + before[0].round_account.down + stakes_on(bets, true)
            + stakes_on(bets, false),
        before.last().admin_account.fee == before[0].admin_account.fee + fees_on(bets),
    decreases bets.len(),
{
    if bets.len() > 0 {
        let n = bets.len() - 1;
        let shorter = before.drop_last();
        let earlier = bets.drop_last();
        assert forall|i: int| #![trigger earlier[i]] 0 <= i < earlier.len() implies {
            let b = earlier[i];
            let next = shorter[i].after(b.round_id, b.amount, b.is_up);
            &&& shorter[i].refusal(b.round_id, b.amount, b.is_up, b.now).is_none()
            &&& shorter[i + 1].round_account == next.round_account
            &&& shorter[i + 1].admin_account == next.admin_account
        } by {
            assert(earlier[i] == bets[i]);
        }
        lemma_placements_conserve(shorter, earlier);
        assert(shorter.last() == before[n]);
        assert(shorter[0] == before[0]);
        let b = bets[n];
        assert(b == bets.last());
        assert(before[n].refusal(b.round_id, b.amount, b.is_up, b.now).is_none());
        assert(before.last() == before[n + 1]);
    }
}

/// One accepted placement adds the same stake to the round's side and to
/// the caller's wager on that side, and leaves the other side of both
/// alone: a round's totals stay the sums of its wagers.
pub proof fn lemma_placement_moves_round_and_wager_alike(
    ctx: PlaceBet,
    round_id: u64,
    amount: u64,
    is_up: bool,
    now: u64,
)
    requires
        ctx.refusal(round_id, amount, is_up, now).is_none(),
    ensures
        ({
            let next = ctx.after(round_id, amount, is_up);
            &&& next.round_account.up - ctx.round_account.up == next.user_round_account.up
                - ctx.user_round_account.up
            &&& next.round_account.down - ctx.round_account.down == next.user_round_account.down
                - ctx.user_round_account.down
            &&& next.round_account.up + next.round_account.down + next.admin_account.fee
                == ctx.round_account.up + ctx.round_account.down + ctx.admin_account.fee + amount
            &&& next.user_round_account.settled == ctx.user_round_account.settled
        }),
{
}

/// What `wager` holds on one side.
pub open spec fn side_of(wager: UserRoundAccount, is_up: bool) -> int {
    if is_up {
        wager.up as int
    } else {
        wager.down as int
    }
}

/// The sum of what `wagers` hold on one side.
pub open spec fn staked_on(wagers: Seq<UserRoundAccount>, is_up: bool) -> int
    decreases wagers.len(),
{
    if wagers.len() == 0 {
        0
    } else {
        staked_on(wagers.drop_last(), is_up) + side_of(wagers.last(), is_up)
    }
}

/// The round's totals are the sums of its wagers, side by side. `wagers`
/// holds the wager of each participant of the round, one each.
pub open spec fn balanced(round: RoundAccount, wagers: Seq<UserRoundAccount>) -> bool {
    &&& round.up == staked_on(wagers, true)
    &&& round.down == staked_on(wagers, false)
}

/// Replacing one wager changes a side's sum by the change of that wager.
pub proof fn lemma_staked_on_update(
    wagers: Seq<UserRoundAccount>,
    who: int,
    wager: UserRoundAccount,
    is_up: bool,
)
    requires
        0 <= who < wagers.len(),
    ensures
        staked_on(wagers.update(who, wager), is_up) == staked_on(wagers, is_up) - side_of(
            wagers[who],
            is_up,
        ) + side_of(wager, is_up),
    decreases wagers.len(),
{
    let updated = wagers.update(who, wager);
    if who == wagers.len() - 1 {
        assert(updated.drop_last() =~= wagers.drop_last());
    } else {
        assert(updated.drop_last() =~= wagers.drop_last().update(who, wager));
        lemma_staked_on_update(wagers.drop_last(), who, wager, is_up);
    }
}

/// A sum of stakes is never negative.
pub proof fn lemma_staked_on_nonnegative(wagers: Seq<UserRoundAccount>, is_up: bool)
    ensures
        0 <= staked_on(wagers, is_up),
    decreases wagers.len(),
{
    if wagers.len() > 0 {
        lemma_staked_on_nonnegative(wagers.drop_last(), is_up);
    }
}

/// No wager holds more on a side than all wagers together.
pub proof fn lemma_wager_within_sum(wagers: Seq<UserRoundAccount>, who: int, is_up: bool)
    requires
        0 <= who < wagers.len(),
    ensures
        0 <= side_of(wagers[who], is_up) <= staked_on(wagers, is_up),
    decreases wagers.len(),
{
    lemma_staked_on_nonnegative(wagers.drop_last(), is_up);
    if who < wagers.len() - 1 {
        lemma_wager_within_sum(wagers.drop_last(), who, is_up);
    }
}

/// A round that nobody staked on yet is balanced, and a participant who
/// joins with an empty wager leaves it balanced.
pub proof fn lemma_joining_keeps_balance(
    round: RoundAccount,
    wagers: Seq<UserRoundAccount>,
    fresh: UserRoundAccount,
)
    requires
        balanced(round, wagers),
        fresh.up == 0,
        fresh.down == 0,
    ensures
        round.up == 0 && round.down == 0 ==> balanced(round, Seq::empty()),
        balanced(round, wagers.push(fresh)),
{
    assert(wagers.push(fresh).drop_last() =~= wagers);
}

/// An accepted placement by any participant of a balanced round leaves the
/// round balanced: its totals remain the sums of its wagers.
pub proof fn lemma_placement_keeps_balance(
    wagers: Seq<UserRoundAccount>,
    who: int,
    ctx: PlaceBet,
    round_id: u64,
    amount: u64,
    is_up: bool,
    now: u64,
)
    requires
        0 <= who < wagers.len(),
        ctx.user_round_account == wagers[who],
        balanced(ctx.round_account, wagers),
        ctx.refusal(round_id, amount, is_up, now).is_none(),
    ensures
        ({
            let next = ctx.after(round_id, amount, is_up);
            balanced(next.round_account, wagers.update(who, next.user_round_account))
        }),
{
    let next = ctx.after(round_id, amount, is_up);
    lemma_staked_on_update(wagers, who, next.user_round_account, true);
    lemma_staked_on_update(wagers, who, next.user_round_account, false);
}

/// Once a round has its prices, every further settlement of it is refused
/// as already settled, whatever prices and attestation it brings; and a
/// refused settlement changes nothing, so the prices stay as they were.
pub proof fn lemma_round_settles_once(
    ctx: SettleRound,
    round_id: u64,
    open_price: u64,
    close_price: u64,
    sig: Seq<u8>,
    again: SettleRound,
    round_id2: u64,
    open_price2: u64,
    close_price2: u64,
    sig2: Seq<u8>,
)
    requires
        ctx.refusal(round_id, open_price, close_price, sig).is_none(),
        again.round_account == ctx.after(open_price, close_price).round_account,
    ensures
        ctx.after(open_price, close_price).round_account.wf(),
        again.refusal(round_id2, open_price2, close_price2, sig2) == Some(
            MyErrorCode::AlreadySettled,
        ),
{
}

/// No operation changes the prices of a round that has them: a placement
/// and the closing of a wager carry them over, and a settlement is refused.
pub proof fn lemma_set_prices_are_kept(
    placing: PlaceBet,
    amount: u64,
    is_up: bool,
    closing: SettleBet,
    settling: SettleRound,
    round_id: u64,
    open_price: u64,
    close_price: u64,
    sig: Seq<u8>,
)
    requires
        settling.round_account.is_settled(),
    ensures
        placing.after(round_id, amount, is_up).round_account.open_price
            == placing.round_account.open_price,
        placing.after(round_id, amount, is_up).round_account.close_price
            == placing.round_account.close_price,
        closing.after().round_account == closing.round_account,
        settling.refusal(round_id, open_price, close_price, sig) == Some(
            MyErrorCode::AlreadySettled,
        ),
{
}

/// The settled flag of a wager only ever goes from unset to set: a
/// placement carries it over, and closing the wager sets it.
pub proof fn lemma_settled_flag_never_resets(
    placing: PlaceBet,
    round_id: u64,
    amount: u64,
    is_up: bool,
    closing: SettleBet,
)
    ensures
        placing.after(round_id, amount, is_up).user_round_account.settled
            == placing.user_round_account.settled,
        closing.after().user_round_account.settled,
        closing.user_round_account.settled ==> closing.refusal() == Some(
            MyErrorCode::AlreadySettled,
        ),
{
}

/// A wager is closed at most once: after it was closed, closing it again is
/// refused as already settled, whatever the round holds by then.
pub proof fn lemma_wager_settles_once(ctx: SettleBet, again: SettleBet)
    requires
        ctx.refusal().is_none(),
        again.user_round_account == ctx.after().user_round_account,
    ensures
        ctx.after().user_round_account.settled,
        again.refusal() == Some(MyErrorCode::AlreadySettled),
{
}

/// For a wager whose stakes are part of the round's totals, the reward is
/// at most the pool, and it is zero when the caller staked nothing on the
/// side that won: nothing at all, or only on the side that lost.
pub proof fn lemma_settlement_reward_within_pool(ctx: SettleBet)
    requires
        ctx.round_settled(),
        ctx.stakes_within_totals(),
    ensures
        0 <= ctx.reward() <= ctx.total_pool(),
        ctx.caller_stake() == 0 ==> ctx.reward() == 0,
        ctx.is_up() && ctx.user_round_account.up == 0 ==> ctx.reward() == 0,
        !ctx.is_up() && ctx.user_round_account.down == 0 ==> ctx.reward() == 0,
{
    lemma_reward_within_pool(ctx.caller_stake(), ctx.winning_pool(), ctx.total_pool());
}

/// In a balanced round every wager's reward is at most the pool, and it is
/// zero for a participant with nothing on the side that won.
pub proof fn lemma_balanced_reward_within_pool(
    wagers: Seq<UserRoundAccount>,
    who: int,
    ctx: SettleBet,
)
    requires
        0 <= who < wagers.len(),
        ctx.user_round_account == wagers[who],
        balanced(ctx.round_account, wagers),
        ctx.round_settled(),
    ensures
        0 <= ctx.reward() <= ctx.total_pool(),
        ctx.caller_stake() == 0 ==> ctx.reward() == 0,
{
    lemma_wager_within_sum(wagers, who, true);
    lemma_wager_within_sum(wagers, who, false);
    lemma_settlement_reward_within_pool(ctx);
}

/// What closing `wager` pays when the side `is_up` won.
pub open spec fn reward_for(
    wager: UserRoundAccount,
    is_up: bool,
    winning_pool: u64,
    total_pool: int,
) -> int {
    reward_of(if is_up { wager.up } else { wager.down }, winning_pool, total_pool)
}

/// The sum of what closing each of `wagers` pays.
pub open spec fn rewards_sum(
    wagers: Seq<UserRoundAccount>,
    is_up: bool,
    winning_pool: u64,
    total_pool: int,
) -> int
    decreases wagers.len(),
{
    if wagers.len() == 0 {
        0
    } else {
        rewards_sum(wagers.drop_last(), is_up, winning_pool, total_pool) + reward_for(
            wagers.last(),
            is_up,
            winning_pool,
            total_pool,
        )
    }
}

/// How many of `wagers` hold something on one side.
pub open spec fn stakers_on(wagers: Seq<UserRoundAccount>, is_up: bool) -> int
    decreases wagers.len(),
{
    if wagers.len() == 0 {
        0
    } else {
        stakers_on(wagers.drop_last(), is_up) + if side_of(wagers.last(), is_up) > 0 {
            1int
        } else {
            0int
        }
    }
}

/// Rounding down costs one wager less than one unit of the pool: the
/// stake's exact share, scaled by the winning pool, exceeds the scaled
/// reward by less than the winning pool, and by nothing for no stake.
proof fn lemma_reward_remainder(stake: u64, winning_pool: u64, total_pool: int)
    requires
        winning_pool > 0,
        0 <= total_pool,
    ensures
        0 <= stake * total_pool - winning_pool * reward_of(stake, winning_pool, total_pool)
            <= winning_pool - 1,
        stake == 0 ==> stake * total_pool - winning_pool * reward_of(
            stake,
            winning_pool,
            total_pool,
        ) == 0,
{
    let s = stake as int;
    let w = winning_pool as int;
    if stake > 0 {
        let x = s * total_pool;
        assert(0 <= x - w * (x / w) <= w - 1) by (nonlinear_arith)
            requires
                0 < w,
                0 <= x,
        ;
    } else {
        assert(s * total_pool == 0) by (nonlinear_arith)
            requires
                s == 0,
        ;
        assert(w * 0 == 0);
    }
}

/// Over any wagers, the exact shares, scaled by the winning pool, exceed
/// the scaled rewards by less than the winning pool for each wager that
/// holds a stake on the side.
proof fn lemma_rewards_remainder(
    wagers: Seq<UserRoundAccount>,
    is_up: bool,
    winning_pool: u64,
    total_pool: int,
)
    requires
        winning_pool > 0,
        0 <= total_pool,
    ensures
        0 <= stakers_on(wagers, is_up) <= wagers.len(),
        stakers_on(wagers, is_up) == 0 ==> staked_on(wagers, is_up) == 0,
        0 <= staked_on(wagers, is_up) * total_pool - winning_pool * rewards_sum(
            wagers,
            is_up,
            winning_pool,
            total_pool,
        ) <= (winning_pool - 1) * stakers_on(wagers, is_up),
    decreases wagers.len(),
{
    let w = winning_pool as int;
    if wagers.len() == 0 {
        assert(0 * total_pool - w * 0 == 0) by (nonlinear_arith);
        assert((w - 1) * 0 == 0) by (nonlinear_arith);
    } else {
        let rest = wagers.drop_last();
        let last = wagers.last();
        lemma_rewards_remainder(rest, is_up, winning_pool, total_pool);
        lemma_staked_on_nonnegative(rest, is_up);
        let stake: u64 = if is_up { last.up } else { last.down };
        lemma_reward_remainder(stake, winning_pool, total_pool);
        let s = stake as int;
        let r = reward_of(stake, winning_pool, total_pool);
        let st = staked_on(rest, is_up);
        let rs = rewards_sum(rest, is_up, winning_pool, total_pool);
        let k = stakers_on(rest, is_up);
        assert(side_of(last, is_up) == s);
        assert(reward_for(last, is_up, winning_pool, total_pool) == r);
        assert((st + s) * total_pool - w * (rs + r) == (st * total_pool - w * rs) + (s
            * total_pool - w * r)) by (nonlinear_arith);
        assert((w - 1) * (k + 1) == (w - 1) * k + (w - 1)) by (nonlinear_arith);
    }
}

/// The rewards of a balanced round share the pool without creating or
/// losing more than rounding takes: where somebody staked on the side that
/// won, the rewards of all wagers together are at most the pool, and fall
/// short of it by less than the number of wagers that hold a stake on that
/// side.
pub proof fn lemma_rewards_share_the_pool(
    round: RoundAccount,
    wagers: Seq<UserRoundAccount>,
    is_up: bool,
)
    requires
        balanced(round, wagers),
        (if is_up { round.up } else { round.down }) > 0,
    ensures
        ({
            let winning_pool = if is_up { round.up } else { round.down };
            let total_pool = round.up + round.down;
            let paid = rewards_sum(wagers, is_up, winning_pool, total_pool);
            &&& paid <= total_pool
            &&& total_pool - paid < stakers_on(wagers, is_up)
            &&& stakers_on(wagers, is_up) <= wagers.len()
        }),
{
    let winning_pool = if is_up { round.up } else { round.down };
    let total_pool = round.up + round.down;
    let paid = rewards_sum(wagers, is_up, winning_pool, total_pool);
    let k = stakers_on(wagers, is_up);
    let w = winning_pool as int;
    lemma_rewards_remainder(wagers, is_up, winning_pool, total_pool);
    assert(staked_on(wagers, is_up) == w);
    assert(k > 0);
    assert(paid <= total_pool && total_pool - paid < k) by (nonlinear_arith)
        requires
            0 < w,
            0 < k,
            0 <= w * total_pool - w * paid <= (w - 1) * k,
    ;
}

/// An instruction record is accepted for exactly the signature, message and
/// key that it attests.
pub proof fn lemma_accepted_iff_attested(
    ix: InstructionsAccount,
    signature: Seq<u8>,
    message: Seq<u8>,
    public_key: Seq<u8>,
)
    ensures
        ix.refusal(signature, message, public_key).is_none() <==> ix.attests(
            signature,
            message,
            public_key,
        ),
{
}

/// Where a record attests a signature, a message and a key, replacing any
/// one of the three by something else, the other two held fixed, is refused
/// with the error that names the part replaced.
pub proof fn lemma_tampering_is_named(
    ix: InstructionsAccount,
    signature: Seq<u8>,
    message: Seq<u8>,
    public_key: Seq<u8>,
    other: Seq<u8>,
)
    requires
        ix.attests(signature, message, public_key),
    ensures
        other != signature ==> ix.refusal(other, message, public_key) == Some(
            MyErrorCode::SignatureVerificationFailed,
        ),
        other != message ==> ix.refusal(signature, other, public_key) == Some(
            MyErrorCode::MessageVerificationFailed,
        ),
        other != public_key ==> ix.refusal(signature, message, other) == Some(
            MyErrorCode::PubkeyVerificationFailed,
        ),
{
}

/// The signed message binds the round and both prices: two messages are
/// the same only for the same round, open price and close price.
pub proof fn lemma_message_binds_round_and_prices(
    round_id: u64,
    open_price: u64,
    close_price: u64,
    round_id2: u64,
    open_price2: u64,
    close_price2: u64,
)
    requires
        canonical_message(round_id, open_price, close_price) == canonical_message(
            round_id2,
            open_price2,
            close_price2,
        ),
    ensures
        round_id == round_id2,
        open_price == open_price2,
        close_price == close_price2,
{
    lemma_u64_le_len(round_id);
    lemma_u64_le_len(round_id2);
    lemma_u64_le_len(open_price);
    lemma_u64_le_len(open_price2);
    lemma_u64_le_len(close_price);
    lemma_u64_le_len(close_price2);
    lemma_equal_parts(
        u64_le(round_id),
        u64_le(open_price),
        u64_le(close_price),
        u64_le(round_id2),
        u64_le(open_price2),
        u64_le(close_price2),
    );
    lemma_u64_le_injective(round_id, round_id2);
    lemma_u64_le_injective(open_price, open_price2);
    lemma_u64_le_injective(close_price, close_price2);
}

/// Two concatenations of three parts, part by part of the same length,
/// are the same only if the parts are.
proof fn lemma_equal_parts(
    a: Seq<u8>,
    b: Seq<u8>,
    c: Seq<u8>,
    a2: Seq<u8>,
    b2: Seq<u8>,
    c2: Seq<u8>,
)
    requires
        a.len() == a2.len(),
        b.len() == b2.len(),
        c.len() == c2.len(),
        a + b + c == a2 + b2 + c2,
    ensures
        a == a2,
        b == b2,
        c == c2,
{
    let m = a + b + c;
    let m2 = a2 + b2 + c2;
    let la = a.len() as int;
    let lb = b.len() as int;
    assert(a =~= m.subrange(0, la));
    assert(a2 =~= m2.subrange(0, la));
    assert(b =~= m.subrange(la, la + lb));
    assert(b2 =~= m2.subrange(la, la + lb));
    assert(c =~= m.subrange(la + lb, m.len() as int));
    assert(c2 =~= m2.subrange(la + lb, m2.len() as int));
}

/// An attestation settles only the round and prices it was made for:
/// where a settlement is accepted, the same records refuse every other
/// round or price pair, because the message no longer matches.
pub proof fn lemma_attestation_settles_one_outcome(
    ctx: SettleRound,
    round_id: u64,
    open_price: u64,
    close_price: u64,
    sig: Seq<u8>,
    round_id2: u64,
    open_price2: u64,
    close_price2: u64,
)
    requires
        ctx.refusal(round_id, open_price, close_price, sig).is_none(),
        round_id2 != round_id || open_price2 != open_price || close_price2 != close_price,
    ensures
        ctx.refusal(round_id2, open_price2, close_price2, sig) == Some(
            MyErrorCode::MessageVerificationFailed,
        ),
{
    if canonical_message(round_id, open_price, close_price) == canonical_message(
        round_id2,
        open_price2,
        close_price2,
    ) {
        lemma_message_binds_round_and_prices(
            round_id,
            open_price,
            close_price,
            round_id2,
            open_price2,
            close_price2,
        );
    }
}

} // verus!
