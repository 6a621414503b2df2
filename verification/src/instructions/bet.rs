//! Placing stakes, settling rounds and paying out.

use crate::encoding::{bytes_equal, push_u64_le, read_u16_le, region_equals, u16_of_le, u64_le};
use crate::errors::MyErrorCode;
use crate::states::{AdminAccount, RoundAccount, UserRoundAccount};
use vstd::prelude::*;

verus! {

/// Rounds start on the multiples of this many seconds.
pub const ROUND_PERIOD: u64 = 300;

/// The protocol keeps this many hundredths of every amount staked.
pub const FEE_PERCENT: u64 = 5;

/// Length of an Ed25519 signature.
pub const SIGNATURE_LEN: usize = 64;

/// Length of an Ed25519 public key.
pub const PUBKEY_LEN: usize = 32;

/// Audit record of a stake that was accepted.
#[derive(Clone, Copy, Debug, PartialEq, Eq)]
pub struct BetPlaced {
    pub user: [u8; 32],
    pub round_id: u64,
    pub amount: u64,
    pub is_up: bool,
}

/// Audit record of a round whose prices were written.
#[derive(Clone, Copy, Debug, PartialEq, Eq)]
pub struct RoundSettled {
    pub round_id: u64,
    pub open_price: u64,
    pub close_price: u64,
}

/// Audit record of a wager that was closed. `reward` is what the pool owes
/// the caller; `amount` is the caller's stake on the side that won.
#[derive(Clone, Copy, Debug, PartialEq, Eq)]
pub struct BetSettled {
    pub user: [u8; 32],
    pub round_id: u64,
    pub amount: u64,
    pub is_up: bool,
    pub reward: u64,
}

/// The protocol fee on `amount`.
pub open spec fn fee_of(amount: u64) -> int {
    amount * FEE_PERCENT / 100
}

/// What remains of `amount` as stake once the fee is taken.
pub open spec fn stake_of(amount: u64) -> int {
    amount - fee_of(amount)
}

/// A round takes stakes only before it starts, and only if its identifier
/// is aligned to the period.
pub open spec fn accepts_bets(round_id: u64, now: u64) -> bool {
    now < round_id && round_id % ROUND_PERIOD == 0
}

/// Splits `amount` into the fee and the stake.
pub fn split_amount(amount: u64) -> (parts: (u64, u64))
    ensures
        parts.0 == fee_of(amount),
        parts.1 == stake_of(amount),
        parts.0 + parts.1 == amount,
{
    let wide: u128 = amount as u128 * FEE_PERCENT as u128 / 100;
    assert(wide == fee_of(amount));
    assert(wide <= amount);
    let fee: u64 = wide as u64;
    (fee, amount - fee)
}

/// The records that placing a stake touches.
#[derive(Clone, Copy, Debug, PartialEq, Eq)]
pub struct PlaceBet {
    pub user: [u8; 32],
    pub user_round_account: UserRoundAccount,
    pub round_account: RoundAccount,
    pub admin_account: AdminAccount,
}

impl PlaceBet {
    /// Whether the fee balance and the chosen side's totals can take the
    /// parts of `amount` without leaving the range of the records.
    pub open spec fn has_room(&self, amount: u64, is_up: bool) -> bool {
        &&& self.admin_account.fee + fee_of(amount) <= u64::MAX
        &&& is_up ==> self.round_account.up + stake_of(amount) <= u64::MAX
        &&& is_up ==> self.user_round_account.up + stake_of(amount) <= u64::MAX
        &&& !is_up ==> self.round_account.down + stake_of(amount) <= u64::MAX
        &&& !is_up ==> self.user_round_account.down + stake_of(amount) <= u64::MAX
    }

    /// Why a placement is refused, if it is.
    pub open spec fn refusal(&self, round_id: u64, amount: u64, is_up: bool, now: u64) -> Option<
        MyErrorCode,
    > {
        if !accepts_bets(round_id, now) {
            Some(MyErrorCode::InvalidRoundId)
        } else if amount == 0 {
            Some(MyErrorCode::ZeroAmount)
        } else if !self.has_room(amount, is_up) {
            Some(MyErrorCode::Overflow)
        } else {
            None
        }
    }

    /// The records after an accepted placement: the stake is added to the
    /// chosen side of the round and of the caller's wager, the fee to the
    /// fee balance, and both records are stamped with the round and caller.
    pub open spec fn after(&self, round_id: u64, amount: u64, is_up: bool) -> PlaceBet {
        let up = if is_up { stake_of(amount) } else { 0 };
        let down = if is_up { 0 } else { stake_of(amount) };
        PlaceBet {
            user: self.user,
            user_round_account: UserRoundAccount {
                user: self.user,
                round_id,
                up: (self.user_round_account.up + up) as u64,
                down: (self.user_round_account.down + down) as u64,
                settled: self.user_round_account.settled,
            },
            round_account: RoundAccount {
                round_id,
                up: (self.round_account.up + up) as u64,
                down: (self.round_account.down + down) as u64,
                open_price: self.round_account.open_price,
                close_price: self.round_account.close_price,
            },
            admin_account: AdminAccount {
                authority: self.admin_account.authority,
                oracle_authority: self.admin_account.oracle_authority,
                fee: (self.admin_account.fee + fee_of(amount)) as u64,
            },
        }
    }

    /// The audit record of an accepted placement.
    pub open spec fn event(&self, round_id: u64, amount: u64, is_up: bool) -> BetPlaced {
        BetPlaced { user: self.user, round_id, amount, is_up }
    }

    /// Places `amount` on one side of round `round_id` at time
    /// `current_timestamp`. On success the caller owes the pool `amount`,
    /// which the returned record names; on refusal nothing has changed.
    pub fn process(&mut self, round_id: u64, amount: u64, is_up: bool, current_timestamp: u64) -> (res:
        Result<BetPlaced, MyErrorCode>)
        ensures
            match res {
                Ok(event) => {
                    &&& old(self).refusal(round_id, amount, is_up, current_timestamp).is_none()
                    &&& *final(self) == old(self).after(round_id, amount, is_up)
                    &&& event == old(self).event(round_id, amount, is_up)
                },
                Err(e) => {
                    &&& old(self).refusal(round_id, amount, is_up, current_timestamp) == Some(e)
                    &&& *final(self) == *old(self)
                },
            },
    {
        if current_timestamp >= round_id || round_id % ROUND_PERIOD != 0 {
            return Err(MyErrorCode::InvalidRoundId);
        }
        if amount == 0 {
            return Err(MyErrorCode::ZeroAmount);
        }
        let (fee, bet_amount) = split_amount(amount);
        if fee > u64::MAX - self.admin_account.fee {
            return Err(MyErrorCode::Overflow);
        }
        if is_up {
            if bet_amount > u64::MAX - self.round_account.up || bet_amount > u64::MAX
                - self.user_round_account.up {
                return Err(MyErrorCode::Overflow);
            }
            self.round_account.up += bet_amount;
            self.user_round_account.up += bet_amount;
        } else {
            if bet_amount > u64::MAX - self.round_account.down || bet_amount > u64::MAX
                - self.user_round_account.down {
                return Err(MyErrorCode::Overflow);
            }
            self.round_account.down += bet_amount;
            self.user_round_account.down += bet_amount;
        }
        self.round_account.round_id = round_id;
        self.user_round_account.round_id = round_id;
        self.user_round_account.user = self.user;
        self.admin_account.fee += fee;
        Ok(BetPlaced { user: self.user, round_id, amount, is_up })
    }
}

/// "Up" wins only when the price closed strictly above where it opened;
/// a tie goes to "down".
pub open spec fn up_wins(open_price: u64, close_price: u64) -> bool {
    open_price < close_price
}

/// The share of `total_pool` that a stake of `caller_stake` earns when the
/// winning side holds `winning_pool`: proportional, rounded down, and
/// nothing where the caller or the side staked nothing.
pub open spec fn reward_of(caller_stake: u64, winning_pool: u64, total_pool: int) -> int {
    if caller_stake > 0 && winning_pool > 0 {
        caller_stake * total_pool / (winning_pool as int)
    } else {
        0
    }
}

/// A product that leaves 128 bits has a quotient that leaves 64 bits,
/// whatever 64-bit divisor it is divided by.
proof fn lemma_large_product_large_quotient(product: int, divisor: int)
    requires
        product > u128::MAX,
        0 < divisor <= u64::MAX,
    ensures
        product / divisor > u64::MAX,
{
    assert(product >= divisor * 0x1_0000_0000_0000_0000) by (nonlinear_arith)
        requires
            product >= 0x1_0000_0000_0000_0000_0000_0000_0000_0000,
            0 < divisor <= 0xffff_ffff_ffff_ffff,
    ;
    assert(product / divisor >= 0x1_0000_0000_0000_0000) by (nonlinear_arith)
        requires
            product >= divisor * 0x1_0000_0000_0000_0000,
            0 < divisor,
    ;
}

/// A stake that is part of the winning side's total earns at most the whole
/// pool, and a caller with nothing on the winning side earns nothing.
pub proof fn lemma_reward_within_pool(caller_stake: u64, winning_pool: u64, total_pool: int)
    requires
        caller_stake <= winning_pool,
        0 <= total_pool,
    ensures
        0 <= reward_of(caller_stake, winning_pool, total_pool) <= total_pool,
        caller_stake == 0 ==> reward_of(caller_stake, winning_pool, total_pool) == 0,
{
    if caller_stake > 0 && winning_pool > 0 {
        let s = caller_stake as int;
        let w = winning_pool as int;
        assert(0 <= s * total_pool / w <= total_pool) by (nonlinear_arith)
            requires
                0 < s <= w,
                0 <= total_pool,
        ;
    }
}

/// Computes the reward of a stake, in 128 bits. Refuses with `Overflow`
/// exactly when the reward does not fit the 64 bits of a balance.
pub fn compute_reward(caller_stake: u64, winning_pool: u64, total_pool: u128) -> (res: Result<
    u64,
    MyErrorCode,
>)
    ensures
        match res {
            Ok(reward) => reward == reward_of(caller_stake, winning_pool, total_pool as int),
            Err(e) => {
                &&& e == MyErrorCode::Overflow
                &&& reward_of(caller_stake, winning_pool, total_pool as int) > u64::MAX
            },
        },
{
    if caller_stake > 0 && winning_pool > 0 {
        match (caller_stake as u128).checked_mul(total_pool) {
            None => {
                proof {
                    lemma_large_product_large_quotient(
                        caller_stake * total_pool,
                        winning_pool as int,
                    );
                }
                Err(MyErrorCode::Overflow)
            },
            Some(product) => {
                let quotient: u128 = product / winning_pool as u128;
                if quotient > u64::MAX as u128 {
                    Err(MyErrorCode::Overflow)
                } else {
                    Ok(quotient as u64)
                }
            },
        }
    } else {
        Ok(0)
    }
}

/// The records that closing a wager touches.
#[derive(Clone, Copy, Debug, PartialEq, Eq)]
pub struct SettleBet {
    pub user: [u8; 32],
    pub user_round_account: UserRoundAccount,
    pub round_account: RoundAccount,
    pub admin_account: AdminAccount,
}

impl SettleBet {
    /// Whether the round's price pair has been written.
    pub open spec fn round_settled(&self) -> bool {
        self.round_account.open_price.is_some() && self.round_account.close_price.is_some()
    }

    /// Whether "up" won the round.
    pub open spec fn is_up(&self) -> bool {
        up_wins(self.round_account.open_price.unwrap(), self.round_account.close_price.unwrap())
    }

    /// The caller's stake on the side that won.
    pub open spec fn caller_stake(&self) -> u64 {
        if self.is_up() {
            self.user_round_account.up
        } else {
            self.user_round_account.down
        }
    }

    /// All that was staked on the side that won.
    pub open spec fn winning_pool(&self) -> u64 {
        if self.is_up() {
            self.round_account.up
        } else {
            self.round_account.down
        }
    }

    /// All that was staked on the round.
    pub open spec fn total_pool(&self) -> int {
        self.round_account.up + self.round_account.down
    }

    /// What the pool owes the caller.
    pub open spec fn reward(&self) -> int {
        reward_of(self.caller_stake(), self.winning_pool(), self.total_pool())
    }

    /// The caller's stakes are part of the round's totals, as they are
    /// when every stake reached both records through a placement.
    pub open spec fn stakes_within_totals(&self) -> bool {
        &&& self.user_round_account.up <= self.round_account.up
        &&& self.user_round_account.down <= self.round_account.down
    }

    /// Why closing the wager is refused, if it is.
    pub open spec fn refusal(&self) -> Option<MyErrorCode> {
        if self.user_round_account.settled {
            Some(MyErrorCode::AlreadySettled)
        } else if !self.round_settled() {
            Some(MyErrorCode::RoundNotSettled)
        } else if self.reward() > u64::MAX {
            Some(MyErrorCode::Overflow)
        } else {
            None
        }
    }

    /// The records after the wager was closed: it is marked settled, and
    /// nothing else has changed.
    pub open spec fn after(&self) -> SettleBet {
        SettleBet {
            user: self.user,
            user_round_account: UserRoundAccount {
                user: self.user_round_account.user,
                round_id: self.user_round_account.round_id,
                up: self.user_round_account.up,
                down: self.user_round_account.down,
                settled: true,
            },
            round_account: self.round_account,
            admin_account: self.admin_account,
        }
    }

    /// The audit record of a closed wager.
    pub open spec fn event(&self, round_id: u64) -> BetSettled {
        BetSettled {
            user: self.user,
            round_id,
            amount: self.caller_stake(),
            is_up: self.is_up(),
            reward: self.reward() as u64,
        }
    }

    /// Closes the caller's wager on a settled round. On success the wager
    /// is marked settled, nothing else changes, and the returned record
    /// names the reward that the pool owes the caller (zero for a stake on
    /// the losing side or no stake at all). On refusal nothing has changed.
    pub fn process(&mut self, round_id: u64) -> (res: Result<BetSettled, MyErrorCode>)
        ensures
            match res {
                Ok(event) => {
                    &&& old(self).refusal().is_none()
                    &&& *final(self) == old(self).after()
                    &&& event == old(self).event(round_id)
                    &&& event.reward == old(self).reward()
                    &&& old(self).stakes_within_totals() ==> event.reward <= old(self).total_pool()
                },
                Err(e) => {
                    &&& old(self).refusal() == Some(e)
                    &&& *final(self) == *old(self)
                },
            },
    {
        if self.user_round_account.settled {
            return Err(MyErrorCode::AlreadySettled);
        }
        let (open_price, close_price) = match (
            self.round_account.open_price,
            self.round_account.close_price,
        ) {
            (Some(open_price), Some(close_price)) => (open_price, close_price),
            _ => {
                return Err(MyErrorCode::RoundNotSettled);
            },
        };
        let is_up = open_price < close_price;
        let total_bets: u128 = self.round_account.up as u128 + self.round_account.down as u128;
        let bet_amount = if is_up {
            self.user_round_account.up
        } else {
            self.user_round_account.down
        };
        let winning_bets = if is_up {
            self.round_account.up
        } else {
            self.round_account.down
        };
        let reward = match compute_reward(bet_amount, winning_bets, total_bets) {
            Ok(reward) => reward,
            Err(e) => {
                return Err(e);
            },
        };
        proof {
            if self.stakes_within_totals() {
                lemma_reward_within_pool(bet_amount, winning_bets, total_bets as int);
            }
        }
        self.user_round_account.settled = true;
        Ok(BetSettled { user: self.user, round_id, amount: bet_amount, is_up, reward })
    }
}

/// The bytes of the address of the native Ed25519 signature-verification
/// program.
pub open spec fn ed25519_program_bytes() -> Seq<u8> {
    seq![
        3u8, 125, 70, 214, 124, 147, 251, 190, 18, 249, 66, 143, 131, 141, 64, 255,
        5, 112, 116, 73, 39, 244, 138, 100, 252, 202, 112, 68, 128, 0, 0, 0,
    ]
}

/// Calls `anchor_lang::solana_program::ed25519_program::ID.to_bytes()`.
/// Trusted: the constant decodes from
/// `Ed25519SigVerify111111111111111111111111111` to the thirty-two bytes
/// that `ed25519_program_bytes` lists.
#[verifier::external_body]
fn ed25519_program_id() -> (id: [u8; 32])
    ensures
        id@ == ed25519_program_bytes(),
{
    anchor_lang::solana_program::ed25519_program::ID.to_bytes()
}

/// Whether `program_id` is the Ed25519 signature-verification program.
pub fn is_ed25519_program(program_id: &[u8; 32]) -> (yes: bool)
    ensures
        yes == (program_id@ == ed25519_program_bytes()),
{
    let id = ed25519_program_id();
    bytes_equal(program_id.as_slice(), id.as_slice())
}

/// Where, inside the data of an Ed25519 verification instruction, the
/// signature, the public key and the message of its first entry lie.
#[derive(Clone, Copy, Debug, PartialEq, Eq)]
pub struct Ed25519SignatureOffsets {
    pub signature_offset: u16,
    pub signature_instruction_index: u16,
    pub public_key_offset: u16,
    pub public_key_instruction_index: u16,
    pub message_data_offset: u16,
    pub message_data_size: u16,
    pub message_instruction_index: u16,
}

/// End of the first entry's offsets block: a count byte, a padding byte
/// and seven 16-bit fields.
pub const OFFSETS_END: usize = 16;

/// The instruction index by which an offsets block names the instruction
/// that holds it.
pub const THIS_INSTRUCTION: u16 = 0xffff;

/// Whether `index` names the first instruction of the transaction: as the
/// instruction that holds the offsets, or by its position.
pub open spec fn names_first_instruction(index: u16) -> bool {
    index == THIS_INSTRUCTION || index == 0
}

impl Ed25519SignatureOffsets {
    /// Signature, key and message are all taken from the first
    /// instruction, so the bytes that the offsets point at there are the
    /// bytes that the verification program checked.
    pub open spec fn within_first_instruction(&self) -> bool {
        &&& names_first_instruction(self.signature_instruction_index)
        &&& names_first_instruction(self.public_key_instruction_index)
        &&& names_first_instruction(self.message_instruction_index)
    }

    /// Whether signature, key and message are all taken from the first
    /// instruction.
    pub fn stays_within_first_instruction(&self) -> (yes: bool)
        ensures
            yes == self.within_first_instruction(),
    {
        (self.signature_instruction_index == THIS_INSTRUCTION || self.signature_instruction_index
            == 0) && (self.public_key_instruction_index == THIS_INSTRUCTION
            || self.public_key_instruction_index == 0) && (self.message_instruction_index
            == THIS_INSTRUCTION || self.message_instruction_index == 0)
    }
}

/// The offsets block that `data` holds in its bytes 2 to 15, each field
/// little-endian, in the order of the fields.
pub open spec fn offsets_of(data: Seq<u8>) -> Ed25519SignatureOffsets
    recommends
        data.len() >= OFFSETS_END,
{
    Ed25519SignatureOffsets {
        signature_offset: u16_of_le(data[2], data[3]) as u16,
        signature_instruction_index: u16_of_le(data[4], data[5]) as u16,
        public_key_offset: u16_of_le(data[6], data[7]) as u16,
        public_key_instruction_index: u16_of_le(data[8], data[9]) as u16,
        message_data_offset: u16_of_le(data[10], data[11]) as u16,
        message_data_size: u16_of_le(data[12], data[13]) as u16,
        message_instruction_index: u16_of_le(data[14], data[15]) as u16,
    }
}

/// Reads the offsets block of the first entry, if `data` is long enough to
/// hold one.
pub fn parse_offsets(data: &[u8]) -> (res: Option<Ed25519SignatureOffsets>)
    ensures
        res == if data@.len() >= OFFSETS_END {
            Some(offsets_of(data@))
        } else {
            None
        },
{
    if data.len() < OFFSETS_END {
        return None;
    }
    Some(
        Ed25519SignatureOffsets {
            signature_offset: read_u16_le(data, 2),
            signature_instruction_index: read_u16_le(data, 4),
            public_key_offset: read_u16_le(data, 6),
            public_key_instruction_index: read_u16_le(data, 8),
            message_data_offset: read_u16_le(data, 10),
            message_data_size: read_u16_le(data, 12),
            message_instruction_index: read_u16_le(data, 14),
        },
    )
}

/// What the transaction's instruction record shows to a settlement: the
/// position of the running instruction, and the program and data of the
/// transaction's first instruction.
#[derive(Clone, Debug, PartialEq, Eq)]
pub struct InstructionsAccount {
    pub current_index: u16,
    pub program_id: [u8; 32],
    pub data: Vec<u8>,
}

/// Whether `len` bytes starting at `start` lie inside `data`.
pub open spec fn in_bounds(data: Seq<u8>, start: int, len: int) -> bool {
    start + len <= data.len()
}

impl InstructionsAccount {
    /// The first instruction precedes the running one and was addressed to
    /// the Ed25519 verification program.
    pub open spec fn from_verifier(&self) -> bool {
        self.current_index != 0 && self.program_id@ == ed25519_program_bytes()
    }

    /// The data is long enough for one entry and announces exactly one.
    pub open spec fn single_entry(&self) -> bool {
        self.data@.len() >= OFFSETS_END && self.data@[0] == 1
    }

    /// The offsets of the first entry.
    pub open spec fn offsets(&self) -> Ed25519SignatureOffsets {
        offsets_of(self.data@)
    }

    /// The signature that the entry points at.
    pub open spec fn signature(&self) -> Seq<u8> {
        let start = self.offsets().signature_offset as int;
        self.data@.subrange(start, start + SIGNATURE_LEN)
    }

    /// The message that the entry points at.
    pub open spec fn message(&self) -> Seq<u8> {
        let start = self.offsets().message_data_offset as int;
        self.data@.subrange(start, start + self.offsets().message_data_size)
    }

    /// The public key that the entry points at.
    pub open spec fn public_key(&self) -> Seq<u8> {
        let start = self.offsets().public_key_offset as int;
        self.data@.subrange(start, start + PUBKEY_LEN)
    }

    /// The record carries exactly one attestation, made by the Ed25519
    /// verification program over bytes of its own instruction, whose three
    /// parts lie inside the data.
    pub open spec fn well_formed(&self) -> bool {
        let o = self.offsets();
        &&& self.from_verifier()
        &&& self.single_entry()
        &&& o.within_first_instruction()
        &&& in_bounds(self.data@, o.signature_offset as int, SIGNATURE_LEN as int)
        &&& in_bounds(self.data@, o.message_data_offset as int, o.message_data_size as int)
        &&& in_bounds(self.data@, o.public_key_offset as int, PUBKEY_LEN as int)
    }

    /// The record attests exactly this signature, message and key.
    pub open spec fn attests(&self, signature: Seq<u8>, message: Seq<u8>, public_key: Seq<u8>) -> bool {
        &&& self.well_formed()
        &&& self.signature() == signature
        &&& self.message() == message
        &&& self.public_key() == public_key
    }

    /// Why the record is refused as an attestation of the three values, if
    /// it is. A record that is not one attestation by the verification
    /// program over its own bytes is an invalid instruction. Then the parts
    /// are examined in the order signature, message, key: the first that
    /// lies outside the data makes the instruction invalid, the first that
    /// differs is named.
    pub open spec fn refusal(&self, signature: Seq<u8>, message: Seq<u8>, public_key: Seq<u8>) -> Option<
        MyErrorCode,
    > {
        let o = self.offsets();
        if !self.from_verifier() {
            Some(MyErrorCode::InvalidInstruction)
        } else if !self.single_entry() {
            Some(MyErrorCode::InvalidInstruction)
        } else if !o.within_first_instruction() {
            Some(MyErrorCode::InvalidInstruction)
        } else if !in_bounds(self.data@, o.signature_offset as int, SIGNATURE_LEN as int) {
            Some(MyErrorCode::InvalidInstruction)
        } else if self.signature() != signature {
            Some(MyErrorCode::SignatureVerificationFailed)
        } else if !in_bounds(self.data@, o.message_data_offset as int, o.message_data_size as int) {
            Some(MyErrorCode::InvalidInstruction)
        } else if self.message() != message {
            Some(MyErrorCode::MessageVerificationFailed)
        } else if !in_bounds(self.data@, o.public_key_offset as int, PUBKEY_LEN as int) {
            Some(MyErrorCode::InvalidInstruction)
        } else if self.public_key() != public_key {
            Some(MyErrorCode::PubkeyVerificationFailed)
        } else {
            None
        }
    }
}

/// Checks that the instruction record attests `signature` over `message`
/// under `public_key`. Succeeds exactly when it does; otherwise names the
/// first thing that is wrong.
pub fn verify_ed25519_signature(
    ix_account: &InstructionsAccount,
    signature: &[u8],
    message: &[u8],
    public_key: &[u8],
) -> (res: Result<(), MyErrorCode>)
    ensures
        res.is_ok() <==> ix_account.attests(signature@, message@, public_key@),
        match res {
            Ok(_) => ix_account.refusal(signature@, message@, public_key@).is_none(),
            Err(e) => ix_account.refusal(signature@, message@, public_key@) == Some(e),
        },
{
    if ix_account.current_index == 0 {
        return Err(MyErrorCode::InvalidInstruction);
    }
    if !is_ed25519_program(&ix_account.program_id) {
        return Err(MyErrorCode::InvalidInstruction);
    }
    let data = ix_account.data.as_slice();
    let offsets = match parse_offsets(data) {
        Some(offsets) => offsets,
        None => {
            return Err(MyErrorCode::InvalidInstruction);
        },
    };
    if data[0] != 1 {
        return Err(MyErrorCode::InvalidInstruction);
    }
    if !offsets.stays_within_first_instruction() {
        return Err(MyErrorCode::InvalidInstruction);
    }
    let sig_start = offsets.signature_offset as usize;
    if sig_start + SIGNATURE_LEN > data.len() {
        return Err(MyErrorCode::InvalidInstruction);
    }
    if !region_equals(data, sig_start, SIGNATURE_LEN, signature) {
        return Err(MyErrorCode::SignatureVerificationFailed);
    }
    let msg_start = offsets.message_data_offset as usize;
    let msg_len = offsets.message_data_size as usize;
    if msg_start + msg_len > data.len() {
        return Err(MyErrorCode::InvalidInstruction);
    }
    if !region_equals(data, msg_start, msg_len, message) {
        return Err(MyErrorCode::MessageVerificationFailed);
    }
    let pk_start = offsets.public_key_offset as usize;
    if pk_start + PUBKEY_LEN > data.len() {
        return Err(MyErrorCode::InvalidInstruction);
    }
    if !region_equals(data, pk_start, PUBKEY_LEN, public_key) {
        return Err(MyErrorCode::PubkeyVerificationFailed);
    }
    Ok(())
}

/// The message that the oracle signs for a round: the round identifier,
/// the open price and the close price, eight little-endian bytes each.
pub open spec fn canonical_message(round_id: u64, open_price: u64, close_price: u64) -> Seq<u8> {
    u64_le(round_id) + u64_le(open_price) + u64_le(close_price)
}

/// Builds the message that the oracle signs for a round.
pub fn build_message(round_id: u64, open_price: u64, close_price: u64) -> (msg: Vec<u8>)
    ensures
        msg@ == canonical_message(round_id, open_price, close_price),
{
    let mut msg: Vec<u8> = Vec::new();
    push_u64_le(&mut msg, round_id);
    push_u64_le(&mut msg, open_price);
    push_u64_le(&mut msg, close_price);
    assert(msg@ =~= canonical_message(round_id, open_price, close_price));
    msg
}

/// The records that settling a round touches.
#[derive(Clone, Debug, PartialEq, Eq)]
pub struct SettleRound {
    pub user: [u8; 32],
    pub round_account: RoundAccount,
    pub ix_account: InstructionsAccount,
    pub admin_account: AdminAccount,
}

impl SettleRound {
    /// Why settling the round with these prices and this signature is
    /// refused, if it is: the round already has prices, or the instruction
    /// record does not attest the signature over the canonical message
    /// under the oracle's key.
    pub open spec fn refusal(&self, round_id: u64, open_price: u64, close_price: u64, sig: Seq<u8>) -> Option<
        MyErrorCode,
    > {
        if self.round_account.open_price.is_some() {
            Some(MyErrorCode::AlreadySettled)
        } else {
            self.ix_account.refusal(
                sig,
                canonical_message(round_id, open_price, close_price),
                self.admin_account.oracle_authority@,
            )
        }
    }

    /// The records after the round was settled: both prices are set, and
    /// nothing else has changed.
    pub open spec fn after(&self, open_price: u64, close_price: u64) -> SettleRound {
        SettleRound {
            user: self.user,
            round_account: RoundAccount {
                round_id: self.round_account.round_id,
                up: self.round_account.up,
                down: self.round_account.down,
                open_price: Some(open_price),
                close_price: Some(close_price),
            },
            ix_account: self.ix_account,
            admin_account: self.admin_account,
        }
    }

    /// Writes the price pair of a round, once, on the oracle's attestation.
    /// On success both prices are set and nothing else changes; on refusal
    /// nothing has changed.
    pub fn process(&mut self, round_id: u64, open_price: u64, close_price: u64, sig: [u8; 64]) -> (res:
        Result<RoundSettled, MyErrorCode>)
        ensures
            match res {
                Ok(event) => {
                    &&& old(self).refusal(round_id, open_price, close_price, sig@).is_none()
                    &&& *final(self) == old(self).after(open_price, close_price)
                    &&& event == (RoundSettled { round_id, open_price, close_price })
                },
                Err(e) => {
                    &&& old(self).refusal(round_id, open_price, close_price, sig@) == Some(e)
                    &&& *final(self) == *old(self)
                },
            },
    {
        match self.round_account.ensure_unsettled() {
            Ok(_) => {},
            Err(e) => {
                return Err(e);
            },
        }
        let msg = build_message(round_id, open_price, close_price);
        match verify_ed25519_signature(
            &self.ix_account,
            sig.as_slice(),
            msg.as_slice(),
            self.admin_account.oracle_authority.as_slice(),
        ) {
            Ok(_) => {},
            Err(e) => {
                return Err(e);
            },
        }
        self.round_account.open_price = Some(open_price);
        self.round_account.close_price = Some(close_price);
        Ok(RoundSettled { round_id, open_price, close_price })
    }
}

} // verus!
