use vstd::prelude::*;

use crate::codec::{
    extend_from, le_value, lemma_i64_round_trip, lemma_le_bytes_len, lemma_le_round_trip,
    lemma_pow256_facts, push_i64_le, push_u64_le, read_i64_le, read_u64_le, spec_i64_from_le,
    spec_i64_le, spec_u64_le,
};
use crate::pool::StakePool;
use crate::typedefs::{AccountType, Fee, FutureEpoch, Lockup};
use crate::validator_list::DecodeError;

verus! {

// Byte layout of a stake pool account: fields in declaration order,
// integers little-endian, enums and options as a tag byte followed by the
// payload of the variant, if any.

/// Bytes before `next_epoch_fee`, whose offsets are fixed.
pub const POOL_FIXED_HEAD_LEN: usize = 346;

pub open spec fn enc_fee(f: Fee) -> Seq<u8> {
    spec_u64_le(f.denominator) + spec_u64_le(f.numerator)
}

pub open spec fn enc_future_fee(f: FutureEpoch<Fee>) -> Seq<u8> {
    match f {
        FutureEpoch::Unset => seq![0u8],
        FutureEpoch::One(x) => seq![1u8] + enc_fee(x),
        FutureEpoch::Two(x) => seq![2u8] + enc_fee(x),
    }
}

pub open spec fn enc_opt_key(k: Option<[u8; 32]>) -> Seq<u8> {
    match k {
        None => seq![0u8],
        Some(key) => seq![1u8] + key@,
    }
}

pub open spec fn enc_lockup(l: Lockup) -> Seq<u8> {
    spec_i64_le(l.unix_timestamp) + spec_u64_le(l.epoch) + l.custodian@
}

/// The fields up to and including `epoch_fee`.
pub open spec fn enc_pool_head(p: StakePool) -> Seq<u8> {
    seq![p.account_type.spec_tag()] + p.manager@ + p.staker@ + p.stake_deposit_authority@
        + seq![p.stake_withdraw_bump_seed] + p.validator_list@ + p.reserve_stake@ + p.pool_mint@
        + p.manager_fee_account@ + p.token_program_id@ + spec_u64_le(p.total_lamports)
        + spec_u64_le(p.pool_token_supply) + spec_u64_le(p.last_update_epoch) + enc_lockup(p.lockup)
        + enc_fee(p.epoch_fee)
}

/// The bytes of a stake pool account.
pub open spec fn spec_encode_pool(p: StakePool) -> Seq<u8> {
    enc_pool_head(p) + enc_pool_tail(p)
}

/// The fields after `epoch_fee`.
pub open spec fn enc_pool_tail(p: StakePool) -> Seq<u8> {
    enc_future_fee(p.next_epoch_fee) + enc_opt_key(
        p.preferred_deposit_validator_vote_address,
    ) + enc_opt_key(p.preferred_withdraw_validator_vote_address) + enc_fee(p.stake_deposit_fee)
        + enc_fee(p.stake_withdrawal_fee) + enc_future_fee(p.next_stake_withdrawal_fee) + seq![
        p.stake_referral_fee,
    ] + enc_opt_key(p.sol_deposit_authority) + enc_fee(p.sol_deposit_fee) + seq![
        p.sol_referral_fee,
    ] + enc_opt_key(p.sol_withdraw_authority) + enc_fee(p.sol_withdrawal_fee) + enc_future_fee(
        p.next_sol_withdrawal_fee,
    ) + spec_u64_le(p.last_epoch_pool_token_supply) + spec_u64_le(p.last_epoch_total_lamports)
}

pub open spec fn key_at(s: Seq<u8>, off: int) -> [u8; 32] {
    choose|a: [u8; 32]| a@ == s.subrange(off, off + 32)
}

pub open spec fn u64_at(s: Seq<u8>, off: int) -> u64 {
    le_value(s.subrange(off, off + 8)) as u64
}

pub open spec fn fee_at(s: Seq<u8>, off: int) -> Fee {
    Fee { denominator: u64_at(s, off), numerator: u64_at(s, off + 8) }
}

pub open spec fn rd_u8(s: Seq<u8>, pos: int) -> Option<u8> {
    if 0 <= pos < s.len() {
        Some(s[pos])
    } else {
        None
    }
}

pub open spec fn rd_u64(s: Seq<u8>, pos: int) -> Option<u64> {
    if 0 <= pos && pos + 8 <= s.len() {
        Some(u64_at(s, pos))
    } else {
        None
    }
}

pub open spec fn rd_fee(s: Seq<u8>, pos: int) -> Option<Fee> {
    if 0 <= pos && pos + 16 <= s.len() {
        Some(fee_at(s, pos))
    } else {
        None
    }
}

pub open spec fn rd_future_fee(s: Seq<u8>, pos: int) -> Option<FutureEpoch<Fee>> {
    if !(0 <= pos < s.len()) {
        None
    } else if s[pos] == 0 {
        Some(FutureEpoch::Unset)
    } else if s[pos] == 1 && pos + 17 <= s.len() {
        Some(FutureEpoch::One(fee_at(s, pos + 1)))
    } else if s[pos] == 2 && pos + 17 <= s.len() {
        Some(FutureEpoch::Two(fee_at(s, pos + 1)))
    } else {
        None
    }
}

pub open spec fn rd_opt_key(s: Seq<u8>, pos: int) -> Option<Option<[u8; 32]>> {
    if !(0 <= pos < s.len()) {
        None
    } else if s[pos] == 0 {
        Some(None)
    } else if s[pos] == 1 && pos + 33 <= s.len() {
        Some(Some(key_at(s, pos + 1)))
    } else {
        None
    }
}

pub open spec fn future_len(f: FutureEpoch<Fee>) -> int {
    match f {
        FutureEpoch::Unset => 1,
        _ => 17,
    }
}

pub open spec fn opt_key_len(k: Option<[u8; 32]>) -> int {
    match k {
        None => 1,
        Some(_) => 33,
    }
}

/// The fields between `epoch_fee` and `stake_referral_fee`.
pub struct PoolTailA {
    pub next_epoch_fee: FutureEpoch<Fee>,
    pub preferred_deposit_validator_vote_address: Option<[u8; 32]>,
    pub preferred_withdraw_validator_vote_address: Option<[u8; 32]>,
    pub stake_deposit_fee: Fee,
    pub stake_withdrawal_fee: Fee,
    pub next_stake_withdrawal_fee: FutureEpoch<Fee>,
}

/// The fields from `stake_referral_fee` to the end.
pub struct PoolTailB {
    pub stake_referral_fee: u8,
    pub sol_deposit_authority: Option<[u8; 32]>,
    pub sol_deposit_fee: Fee,
    pub sol_referral_fee: u8,
    pub sol_withdraw_authority: Option<[u8; 32]>,
    pub sol_withdrawal_fee: Fee,
    pub next_sol_withdrawal_fee: FutureEpoch<Fee>,
    pub last_epoch_pool_token_supply: u64,
    pub last_epoch_total_lamports: u64,
}

/// The first tail segment, read from its fixed start, with where it ends.
pub open spec fn spec_decode_tail_a(s: Seq<u8>) -> Option<(PoolTailA, int)> {
    match rd_future_fee(s, 346) {
        None => None,
        Some(next_epoch_fee) => {
            let o1 = 346 + future_len(next_epoch_fee);
            match rd_opt_key(s, o1) {
                None => None,
                Some(pref_deposit) => {
                    let o2 = o1 + opt_key_len(pref_deposit);
                    match rd_opt_key(s, o2) {
                        None => None,
                        Some(pref_withdraw) => {
                            let o3 = o2 + opt_key_len(pref_withdraw);
                            match (rd_fee(s, o3), rd_fee(s, o3 + 16), rd_future_fee(s, o3 + 32)) {
                                (Some(sdf), Some(swf), Some(nswf)) => Some(
                                    (
                                        PoolTailA {
                                            next_epoch_fee,
                                            preferred_deposit_validator_vote_address: pref_deposit,
                                            preferred_withdraw_validator_vote_address:
                                                pref_withdraw,
                                            stake_deposit_fee: sdf,
                                            stake_withdrawal_fee: swf,
                                            next_stake_withdrawal_fee: nswf,
                                        },
                                        o3 + 32 + future_len(nswf),
                                    ),
                                ),
                                _ => None,
                            }
                        },
                    }
                },
            }
        },
    }
}

/// The second tail segment, read from `o4`.
pub open spec fn spec_decode_tail_b(s: Seq<u8>, o4: int) -> Option<PoolTailB> {
    match (rd_u8(s, o4), rd_opt_key(s, o4 + 1)) {
        (Some(srf), Some(sda)) => {
            let o5 = o4 + 1 + opt_key_len(sda);
            match (rd_fee(s, o5), rd_u8(s, o5 + 16), rd_opt_key(s, o5 + 17)) {
                (Some(sdf), Some(solrf), Some(swa)) => {
                    let o6 = o5 + 17 + opt_key_len(swa);
                    match (rd_fee(s, o6), rd_future_fee(s, o6 + 16)) {
                        (Some(swf), Some(nswf)) => {
                            let o7 = o6 + 16 + future_len(nswf);
                            match (rd_u64(s, o7), rd_u64(s, o7 + 8)) {
                                (Some(last_supply), Some(last_total)) => Some(
                                    PoolTailB {
                                        stake_referral_fee: srf,
                                        sol_deposit_authority: sda,
                                        sol_deposit_fee: sdf,
                                        sol_referral_fee: solrf,
                                        sol_withdraw_authority: swa,
                                        sol_withdrawal_fee: swf,
                                        next_sol_withdrawal_fee: nswf,
                                        last_epoch_pool_token_supply: last_supply,
                                        last_epoch_total_lamports: last_total,
                                    },
                                ),
                                _ => None,
                            }
                        },
                        _ => None,
                    }
                },
                _ => None,
            }
        },
        _ => None,
    }
}

/// The pool with the fixed head read from `s` and the given tail segments.
pub open spec fn spec_assemble_pool(
    s: Seq<u8>,
    account_type: AccountType,
    a: PoolTailA,
    b: PoolTailB,
) -> StakePool {
    StakePool {
        account_type,
        manager: key_at(s, 1),
        staker: key_at(s, 33),
        stake_deposit_authority: key_at(s, 65),
        stake_withdraw_bump_seed: s[97],
        validator_list: key_at(s, 98),
        reserve_stake: key_at(s, 130),
        pool_mint: key_at(s, 162),
        manager_fee_account: key_at(s, 194),
        token_program_id: key_at(s, 226),
        total_lamports: u64_at(s, 258),
        pool_token_supply: u64_at(s, 266),
        last_update_epoch: u64_at(s, 274),
        lockup: Lockup {
            unix_timestamp: spec_i64_from_le(s.subrange(282, 290)),
            epoch: u64_at(s, 290),
            custodian: key_at(s, 298),
        },
        epoch_fee: fee_at(s, 330),
        next_epoch_fee: a.next_epoch_fee,
        preferred_deposit_validator_vote_address: a.preferred_deposit_validator_vote_address,
        preferred_withdraw_validator_vote_address: a.preferred_withdraw_validator_vote_address,
        stake_deposit_fee: a.stake_deposit_fee,
        stake_withdrawal_fee: a.stake_withdrawal_fee,
        next_stake_withdrawal_fee: a.next_stake_withdrawal_fee,
        stake_referral_fee: b.stake_referral_fee,
        sol_deposit_authority: b.sol_deposit_authority,
        sol_deposit_fee: b.sol_deposit_fee,
        sol_referral_fee: b.sol_referral_fee,
        sol_withdraw_authority: b.sol_withdraw_authority,
        sol_withdrawal_fee: b.sol_withdrawal_fee,
        next_sol_withdrawal_fee: b.next_sol_withdrawal_fee,
        last_epoch_pool_token_supply: b.last_epoch_pool_token_supply,
        last_epoch_total_lamports: b.last_epoch_total_lamports,
    }
}

/// The pool whose bytes start `s`, if any; bytes after it are ignored.
pub open spec fn spec_decode_pool(s: Seq<u8>) -> Option<StakePool> {
    if s.len() < POOL_FIXED_HEAD_LEN {
        None
    } else {
        match (AccountType::spec_from_tag(s[0]), spec_decode_tail_a(s)) {
            (Some(account_type), Some((a, o4))) => match spec_decode_tail_b(s, o4) {
                Some(b) => Some(spec_assemble_pool(s, account_type, a, b)),
                None => None,
            },
            _ => None,
        }
    }
}

fn read_key(data: &[u8], pos: usize) -> (r: [u8; 32])
    requires
        pos + 32 <= data@.len(),
    ensures
        r == key_at(data@, pos as int),
        r@ == data@.subrange(pos as int, pos + 32),
{
    let len = data.len();
    let mut key = [0u8; 32];
    let mut k: usize = 0;
    while k < 32
        invariant
            0 <= k <= 32,
            pos + 32 <= data@.len(),
            len == data@.len(),
            forall|j: int| 0 <= j < k ==> key@[j] == data@[pos + j],
        decreases 32 - k,
    {
        key.set(k, data[pos + k]);
        k += 1;
    }
    proof {
        assert(key@ =~= data@.subrange(pos as int, pos + 32));
        let c = key_at(data@, pos as int);
        assert(c@ == data@.subrange(pos as int, pos + 32));
        assert(c@ =~= key@);
    }
    key
}

fn read_fee(data: &[u8], pos: usize) -> (r: Fee)
    requires
        pos + 16 <= data@.len(),
    ensures
        r == fee_at(data@, pos as int),
{
    let len = data.len();
    Fee { denominator: read_u64_le(data, pos), numerator: read_u64_le(data, pos + 8) }
}

fn read_future_fee(data: &[u8], pos: usize) -> (r: Result<FutureEpoch<Fee>, DecodeError>)
    requires
        pos <= data@.len(),
    ensures
        r is Ok <==> rd_future_fee(data@, pos as int) is Some,
        r matches Ok(f) ==> rd_future_fee(data@, pos as int) == Some(f),
{
    if pos >= data.len() {
        return Err(DecodeError::UnexpectedEnd);
    }
    let tag = data[pos];
    if tag == 0 {
        Ok(FutureEpoch::Unset)
    } else if tag == 1 || tag == 2 {
        if data.len() - pos < 17 {
            return Err(DecodeError::UnexpectedEnd);
        }
        let fee = read_fee(data, pos + 1);
        if tag == 1 {
            Ok(FutureEpoch::One(fee))
        } else {
            Ok(FutureEpoch::Two(fee))
        }
    } else {
        Err(DecodeError::InvalidTag)
    }
}

fn read_opt_key(data: &[u8], pos: usize) -> (r: Result<Option<[u8; 32]>, DecodeError>)
    requires
        pos <= data@.len(),
    ensures
        r is Ok <==> rd_opt_key(data@, pos as int) is Some,
        r matches Ok(k) ==> rd_opt_key(data@, pos as int) == Some(k),
{
    if pos >= data.len() {
        return Err(DecodeError::UnexpectedEnd);
    }
    let tag = data[pos];
    if tag == 0 {
        Ok(None)
    } else if tag == 1 {
        if data.len() - pos < 33 {
            return Err(DecodeError::UnexpectedEnd);
        }
        Ok(Some(read_key(data, pos + 1)))
    } else {
        Err(DecodeError::InvalidTag)
    }
}

fn opt_key_size(k: &Option<[u8; 32]>) -> (r: usize)
    ensures
        r == opt_key_len(*k),
{
    match k {
        None => 1,
        Some(_) => 33,
    }
}

fn future_size(f: &FutureEpoch<Fee>) -> (r: usize)
    ensures
        r == future_len(*f),
{
    match f {
        FutureEpoch::Unset => 1,
        _ => 17,
    }
}

fn push_key(out: &mut Vec<u8>, key: &[u8; 32])
    ensures
        final(out)@ == old(out)@ + key@,
{
    extend_from(out, key.as_slice());
}

fn push_fee(out: &mut Vec<u8>, f: &Fee)
    ensures
        final(out)@ == old(out)@ + enc_fee(*f),
{
    push_u64_le(out, f.denominator);
    push_u64_le(out, f.numerator);
    proof {
        assert(final(out)@ =~= old(out)@ + enc_fee(*f));
    }
}

fn push_future_fee(out: &mut Vec<u8>, f: &FutureEpoch<Fee>)
    ensures
        final(out)@ == old(out)@ + enc_future_fee(*f),
{
    match f {
        FutureEpoch::Unset => {
            out.push(0);
        },
        FutureEpoch::One(x) => {
            out.push(1);
            push_fee(out, x);
        },
        FutureEpoch::Two(x) => {
            out.push(2);
            push_fee(out, x);
        },
    }
    proof {
        assert(final(out)@ =~= old(out)@ + enc_future_fee(*f));
    }
}

fn push_opt_key(out: &mut Vec<u8>, k: &Option<[u8; 32]>)
    ensures
        final(out)@ == old(out)@ + enc_opt_key(*k),
{
    match k {
        None => {
            out.push(0);
        },
        Some(key) => {
            out.push(1);
            push_key(out, key);
        },
    }
    proof {
        assert(final(out)@ =~= old(out)@ + enc_opt_key(*k));
    }
}

impl StakePool {
    /// Appends the pool's bytes to `out`.
    pub fn borsh_ser(&self, out: &mut Vec<u8>)
        ensures
            final(out)@ == old(out)@ + spec_encode_pool(*self),
    {
        push_pool_head(out, self);
        push_pool_tail(out, self);
        proof {
            assert(final(out)@ =~= old(out)@ + spec_encode_pool(*self));
        }
    }

    /// Reads a pool from the start of `data`; bytes after it are ignored.
    /// Fails if the bytes end early or a tag byte names no variant.
    pub fn borsh_de(data: &[u8]) -> (r: Result<StakePool, DecodeError>)
        ensures
            r is Ok <==> spec_decode_pool(data@) is Some,
            r matches Ok(p) ==> spec_decode_pool(data@) == Some(p),
    {
        if data.len() < POOL_FIXED_HEAD_LEN {
            return Err(DecodeError::UnexpectedEnd);
        }
        let account_type = match AccountType::from_tag(data[0]) {
            Some(t) => t,
            None => {
                return Err(DecodeError::InvalidTag);
            },
        };
        let (a, o4) = read_tail_a(data)?;
        let b = read_tail_b(data, o4)?;
        Ok(assemble_pool(data, account_type, a, b))
    }
}

fn push_pool_head(out: &mut Vec<u8>, p: &StakePool)
    ensures
        final(out)@ == old(out)@ + enc_pool_head(*p),
{
    out.push(p.account_type.tag());
    push_key(out, &p.manager);
    push_key(out, &p.staker);
    push_key(out, &p.stake_deposit_authority);
    out.push(p.stake_withdraw_bump_seed);
    push_key(out, &p.validator_list);
    push_key(out, &p.reserve_stake);
    push_key(out, &p.pool_mint);
    push_key(out, &p.manager_fee_account);
    push_key(out, &p.token_program_id);
    push_u64_le(out, p.total_lamports);
    push_u64_le(out, p.pool_token_supply);
    push_u64_le(out, p.last_update_epoch);
    push_i64_le(out, p.lockup.unix_timestamp);
    push_u64_le(out, p.lockup.epoch);
    push_key(out, &p.lockup.custodian);
    push_fee(out, &p.epoch_fee);
    proof {
        assert(final(out)@ =~= old(out)@ + enc_pool_head(*p));
    }
}

fn push_pool_tail(out: &mut Vec<u8>, p: &StakePool)
    ensures
        final(out)@ == old(out)@ + enc_pool_tail(*p),
{
    push_future_fee(out, &p.next_epoch_fee);
    push_opt_key(out, &p.preferred_deposit_validator_vote_address);
    push_opt_key(out, &p.preferred_withdraw_validator_vote_address);
    push_fee(out, &p.stake_deposit_fee);
    push_fee(out, &p.stake_withdrawal_fee);
    push_future_fee(out, &p.next_stake_withdrawal_fee);
    out.push(p.stake_referral_fee);
    push_opt_key(out, &p.sol_deposit_authority);
    push_fee(out, &p.sol_deposit_fee);
    out.push(p.sol_referral_fee);
    push_opt_key(out, &p.sol_withdraw_authority);
    push_fee(out, &p.sol_withdrawal_fee);
    push_future_fee(out, &p.next_sol_withdrawal_fee);
    push_u64_le(out, p.last_epoch_pool_token_supply);
    push_u64_le(out, p.last_epoch_total_lamports);
    proof {
        assert(final(out)@ =~= old(out)@ + enc_pool_tail(*p));
    }
}

fn read_tail_a(data: &[u8]) -> (r: Result<(PoolTailA, usize), DecodeError>)
    requires
        data@.len() >= POOL_FIXED_HEAD_LEN,
    ensures
        r matches Ok(x) ==> spec_decode_tail_a(data@) == Some((x.0, x.1 as int)) && x.1
            <= data@.len(),
        r is Err ==> spec_decode_tail_a(data@) is None,
{
    let len = data.len();
    let next_epoch_fee = read_future_fee(data, 346)?;
    let o1 = 346 + future_size(&next_epoch_fee);
    let pref_deposit = read_opt_key(data, o1)?;
    let o2 = o1 + opt_key_size(&pref_deposit);
    let pref_withdraw = read_opt_key(data, o2)?;
    let o3 = o2 + opt_key_size(&pref_withdraw);
    if len - o3 < 33 {
        return Err(DecodeError::UnexpectedEnd);
    }
    let stake_deposit_fee = read_fee(data, o3);
    let stake_withdrawal_fee = read_fee(data, o3 + 16);
    let next_stake_withdrawal_fee = read_future_fee(data, o3 + 32)?;
    let o4 = o3 + 32 + future_size(&next_stake_withdrawal_fee);
    Ok(
        (
            PoolTailA {
                next_epoch_fee,
                preferred_deposit_validator_vote_address: pref_deposit,
                preferred_withdraw_validator_vote_address: pref_withdraw,
                stake_deposit_fee,
                stake_withdrawal_fee,
                next_stake_withdrawal_fee,
            },
            o4,
        ),
    )
}

fn read_tail_b(data: &[u8], o4: usize) -> (r: Result<PoolTailB, DecodeError>)
    requires
        o4 <= data@.len(),
    ensures
        r is Ok <==> spec_decode_tail_b(data@, o4 as int) is Some,
        r matches Ok(b) ==> spec_decode_tail_b(data@, o4 as int) == Some(b),
{
    let len = data.len();
    if len - o4 < 1 {
        return Err(DecodeError::UnexpectedEnd);
    }
    let stake_referral_fee = data[o4];
    let sol_deposit_authority = read_opt_key(data, o4 + 1)?;
    let o5 = o4 + 1 + opt_key_size(&sol_deposit_authority);
    if len - o5 < 18 {
        return Err(DecodeError::UnexpectedEnd);
    }
    let sol_deposit_fee = read_fee(data, o5);
    let sol_referral_fee = data[o5 + 16];
    let sol_withdraw_authority = read_opt_key(data, o5 + 17)?;
    let o6 = o5 + 17 + opt_key_size(&sol_withdraw_authority);
    if len - o6 < 17 {
        return Err(DecodeError::UnexpectedEnd);
    }
    let sol_withdrawal_fee = read_fee(data, o6);
    let next_sol_withdrawal_fee = read_future_fee(data, o6 + 16)?;
    let o7 = o6 + 16 + future_size(&next_sol_withdrawal_fee);
    if len - o7 < 16 {
        return Err(DecodeError::UnexpectedEnd);
    }
    Ok(
        PoolTailB {
            stake_referral_fee,
            sol_deposit_authority,
            sol_deposit_fee,
            sol_referral_fee,
            sol_withdraw_authority,
            sol_withdrawal_fee,
            next_sol_withdrawal_fee,
            last_epoch_pool_token_supply: read_u64_le(data, o7),
            last_epoch_total_lamports: read_u64_le(data, o7 + 8),
        },
    )
}

fn assemble_pool(data: &[u8], account_type: AccountType, a: PoolTailA, b: PoolTailB) -> (r:
    StakePool)
    requires
        data@.len() >= POOL_FIXED_HEAD_LEN,
    ensures
        r == spec_assemble_pool(data@, account_type, a, b),
{
    StakePool {
        account_type,
        manager: read_key(data, 1),
        staker: read_key(data, 33),
        stake_deposit_authority: read_key(data, 65),
        stake_withdraw_bump_seed: data[97],
        validator_list: read_key(data, 98),
        reserve_stake: read_key(data, 130),
        pool_mint: read_key(data, 162),
        manager_fee_account: read_key(data, 194),
        token_program_id: read_key(data, 226),
        total_lamports: read_u64_le(data, 258),
        pool_token_supply: read_u64_le(data, 266),
        last_update_epoch: read_u64_le(data, 274),
        lockup: Lockup {
            unix_timestamp: read_i64_le(data, 282),
            epoch: read_u64_le(data, 290),
            custodian: read_key(data, 298),
        },
        epoch_fee: read_fee(data, 330),
        next_epoch_fee: a.next_epoch_fee,
        preferred_deposit_validator_vote_address: a.preferred_deposit_validator_vote_address,
        preferred_withdraw_validator_vote_address: a.preferred_withdraw_validator_vote_address,
        stake_deposit_fee: a.stake_deposit_fee,
        stake_withdrawal_fee: a.stake_withdrawal_fee,
        next_stake_withdrawal_fee: a.next_stake_withdrawal_fee,
        stake_referral_fee: b.stake_referral_fee,
        sol_deposit_authority: b.sol_deposit_authority,
        sol_deposit_fee: b.sol_deposit_fee,
        sol_referral_fee: b.sol_referral_fee,
        sol_withdraw_authority: b.sol_withdraw_authority,
        sol_withdrawal_fee: b.sol_withdrawal_fee,
        next_sol_withdrawal_fee: b.next_sol_withdrawal_fee,
        last_epoch_pool_token_supply: b.last_epoch_pool_token_supply,
        last_epoch_total_lamports: b.last_epoch_total_lamports,
    }
}

proof fn lemma_sub_sub(s: Seq<u8>, a: int, b: int, c: int, d: int)
    requires
        0 <= a <= b <= s.len(),
        0 <= c <= d <= b - a,
    ensures
        s.subrange(a, b).subrange(c, d) == s.subrange(a + c, a + d),
{
    assert(s.subrange(a, b).subrange(c, d) =~= s.subrange(a + c, a + d));
}

proof fn lemma_key_at(s: Seq<u8>, off: int, k: [u8; 32])
    requires
        0 <= off,
        off + 32 <= s.len(),
        s.subrange(off, off + 32) == k@,
    ensures
        key_at(s, off) == k,
{
    assert(exists|a: [u8; 32]| a@ == s.subrange(off, off + 32));
    let c = key_at(s, off);
    assert(c@ =~= k@);
}

proof fn lemma_u64_at(s: Seq<u8>, off: int, v: u64)
    requires
        0 <= off,
        off + 8 <= s.len(),
        s.subrange(off, off + 8) == spec_u64_le(v),
    ensures
        u64_at(s, off) == v,
{
    lemma_pow256_facts();
    lemma_le_round_trip(v as nat, 8);
}

proof fn lemma_fee_at(s: Seq<u8>, off: int, f: Fee)
    requires
        0 <= off,
        off + 16 <= s.len(),
        s.subrange(off, off + 16) == enc_fee(f),
    ensures
        fee_at(s, off) == f,
{
    lemma_le_bytes_len(f.denominator as nat, 8);
    lemma_le_bytes_len(f.numerator as nat, 8);
    lemma_sub_sub(s, off, off + 16, 0, 8);
    lemma_sub_sub(s, off, off + 16, 8, 16);
    assert(enc_fee(f).subrange(0, 8) =~= spec_u64_le(f.denominator));
    assert(enc_fee(f).subrange(8, 16) =~= spec_u64_le(f.numerator));
    lemma_u64_at(s, off, f.denominator);
    lemma_u64_at(s, off + 8, f.numerator);
}

proof fn lemma_enc_fee_len(f: Fee)
    ensures
        enc_fee(f).len() == 16,
{
    lemma_le_bytes_len(f.denominator as nat, 8);
    lemma_le_bytes_len(f.numerator as nat, 8);
}

proof fn lemma_rd_future_fee(s: Seq<u8>, pos: int, f: FutureEpoch<Fee>)
    requires
        0 <= pos,
        pos + future_len(f) <= s.len(),
        s.subrange(pos, pos + future_len(f)) == enc_future_fee(f),
    ensures
        enc_future_fee(f).len() == future_len(f),
        rd_future_fee(s, pos) == Some(f),
{
    assert(s[pos] == s.subrange(pos, pos + future_len(f))[0]);
    match f {
        FutureEpoch::Unset => {},
        FutureEpoch::One(x) => {
            lemma_enc_fee_len(x);
            lemma_sub_sub(s, pos, pos + 17, 1, 17);
            assert(enc_future_fee(f).subrange(1, 17) =~= enc_fee(x));
            lemma_fee_at(s, pos + 1, x);
        },
        FutureEpoch::Two(x) => {
            lemma_enc_fee_len(x);
            lemma_sub_sub(s, pos, pos + 17, 1, 17);
            assert(enc_future_fee(f).subrange(1, 17) =~= enc_fee(x));
            lemma_fee_at(s, pos + 1, x);
        },
    }
}

proof fn lemma_rd_opt_key(s: Seq<u8>, pos: int, k: Option<[u8; 32]>)
    requires
        0 <= pos,
        pos + opt_key_len(k) <= s.len(),
        s.subrange(pos, pos + opt_key_len(k)) == enc_opt_key(k),
    ensures
        enc_opt_key(k).len() == opt_key_len(k),
        rd_opt_key(s, pos) == Some(k),
{
    assert(s[pos] == s.subrange(pos, pos + opt_key_len(k))[0]);
    match k {
        None => {},
        Some(key) => {
            lemma_sub_sub(s, pos, pos + 33, 1, 33);
            assert(enc_opt_key(k).subrange(1, 33) =~= key@);
            lemma_key_at(s, pos + 1, key);
        },
    }
}

proof fn lemma_future_len(f: FutureEpoch<Fee>)
    ensures
        enc_future_fee(f).len() == future_len(f),
{
    match f {
        FutureEpoch::Unset => {},
        FutureEpoch::One(x) => lemma_enc_fee_len(x),
        FutureEpoch::Two(x) => lemma_enc_fee_len(x),
    }
}

/// The fixed head reads back from any bytes that start with it.
proof fn lemma_head_reads(p: StakePool, s: Seq<u8>)
    requires
        s.len() >= POOL_FIXED_HEAD_LEN,
        s.subrange(0, 346) == enc_pool_head(p),
    ensures
        AccountType::spec_from_tag(s[0]) == Some(p.account_type),
        key_at(s, 1) == p.manager,
        key_at(s, 33) == p.staker,
        key_at(s, 65) == p.stake_deposit_authority,
        s[97] == p.stake_withdraw_bump_seed,
        key_at(s, 98) == p.validator_list,
        key_at(s, 130) == p.reserve_stake,
        key_at(s, 162) == p.pool_mint,
        key_at(s, 194) == p.manager_fee_account,
        key_at(s, 226) == p.token_program_id,
        u64_at(s, 258) == p.total_lamports,
        u64_at(s, 266) == p.pool_token_supply,
        u64_at(s, 274) == p.last_update_epoch,
        spec_i64_from_le(s.subrange(282, 290)) == p.lockup.unix_timestamp,
        u64_at(s, 290) == p.lockup.epoch,
        key_at(s, 298) == p.lockup.custodian,
        fee_at(s, 330) == p.epoch_fee,
{
    let h = enc_pool_head(p);
    lemma_le_bytes_len(p.total_lamports as nat, 8);
    lemma_le_bytes_len(p.pool_token_supply as nat, 8);
    lemma_le_bytes_len(p.last_update_epoch as nat, 8);
    lemma_le_bytes_len(p.lockup.epoch as nat, 8);
    lemma_i64_round_trip(p.lockup.unix_timestamp);
    lemma_enc_fee_len(p.epoch_fee);
    assert(s[0] == h[0]);
    match p.account_type {
        AccountType::Uninitialized => {},
        AccountType::StakePool => {},
        AccountType::ValidatorList => {},
    }
    lemma_sub_sub(s, 0, 346, 1, 33);
    assert(h.subrange(1, 33) =~= p.manager@);
    lemma_key_at(s, 1, p.manager);
    lemma_sub_sub(s, 0, 346, 33, 65);
    assert(h.subrange(33, 65) =~= p.staker@);
    lemma_key_at(s, 33, p.staker);
    lemma_sub_sub(s, 0, 346, 65, 97);
    assert(h.subrange(65, 97) =~= p.stake_deposit_authority@);
    lemma_key_at(s, 65, p.stake_deposit_authority);
    assert(s[97] == h[97]);
    lemma_sub_sub(s, 0, 346, 98, 130);
    assert(h.subrange(98, 130) =~= p.validator_list@);
    lemma_key_at(s, 98, p.validator_list);
    lemma_sub_sub(s, 0, 346, 130, 162);
    assert(h.subrange(130, 162) =~= p.reserve_stake@);
    lemma_key_at(s, 130, p.reserve_stake);
    lemma_sub_sub(s, 0, 346, 162, 194);
    assert(h.subrange(162, 194) =~= p.pool_mint@);
    lemma_key_at(s, 162, p.pool_mint);
    lemma_sub_sub(s, 0, 346, 194, 226);
    assert(h.subrange(194, 226) =~= p.manager_fee_account@);
    lemma_key_at(s, 194, p.manager_fee_account);
    lemma_sub_sub(s, 0, 346, 226, 258);
    assert(h.subrange(226, 258) =~= p.token_program_id@);
    lemma_key_at(s, 226, p.token_program_id);
    lemma_sub_sub(s, 0, 346, 258, 266);
    assert(h.subrange(258, 266) =~= spec_u64_le(p.total_lamports));
    lemma_u64_at(s, 258, p.total_lamports);
    lemma_sub_sub(s, 0, 346, 266, 274);
    assert(h.subrange(266, 274) =~= spec_u64_le(p.pool_token_supply));
    lemma_u64_at(s, 266, p.pool_token_supply);
    lemma_sub_sub(s, 0, 346, 274, 282);
    assert(h.subrange(274, 282) =~= spec_u64_le(p.last_update_epoch));
    lemma_u64_at(s, 274, p.last_update_epoch);
    lemma_sub_sub(s, 0, 346, 282, 290);
    assert(h.subrange(282, 290) =~= spec_i64_le(p.lockup.unix_timestamp));
    lemma_sub_sub(s, 0, 346, 290, 298);
    assert(h.subrange(290, 298) =~= spec_u64_le(p.lockup.epoch));
    lemma_u64_at(s, 290, p.lockup.epoch);
    lemma_sub_sub(s, 0, 346, 298, 330);
    assert(h.subrange(298, 330) =~= p.lockup.custodian@);
    lemma_key_at(s, 298, p.lockup.custodian);
    lemma_sub_sub(s, 0, 346, 330, 346);
    assert(h.subrange(330, 346) =~= enc_fee(p.epoch_fee));
    lemma_fee_at(s, 330, p.epoch_fee);
}

/// A stake pool's bytes, followed by anything, read back as that pool.
#[verifier::rlimit(100)]
pub proof fn lemma_pool_round_trip(p: StakePool, rest: Seq<u8>)
    ensures
        spec_decode_pool(spec_encode_pool(p) + rest) == Some(p),
{
    let h = enc_pool_head(p);
    let t = enc_pool_tail(p);
    let s = spec_encode_pool(p) + rest;
    lemma_le_bytes_len(p.total_lamports as nat, 8);
    lemma_le_bytes_len(p.pool_token_supply as nat, 8);
    lemma_le_bytes_len(p.last_update_epoch as nat, 8);
    lemma_le_bytes_len(p.lockup.epoch as nat, 8);
    lemma_le_bytes_len(p.last_epoch_pool_token_supply as nat, 8);
    lemma_le_bytes_len(p.last_epoch_total_lamports as nat, 8);
    lemma_i64_round_trip(p.lockup.unix_timestamp);
    lemma_enc_fee_len(p.epoch_fee);
    lemma_enc_fee_len(p.stake_deposit_fee);
    lemma_enc_fee_len(p.stake_withdrawal_fee);
    lemma_enc_fee_len(p.sol_deposit_fee);
    lemma_enc_fee_len(p.sol_withdrawal_fee);
    lemma_future_len(p.next_epoch_fee);
    lemma_future_len(p.next_stake_withdrawal_fee);
    lemma_future_len(p.next_sol_withdrawal_fee);
    match p.preferred_deposit_validator_vote_address {
        None => {},
        Some(_) => {},
    }
    match p.preferred_withdraw_validator_vote_address {
        None => {},
        Some(_) => {},
    }
    match p.sol_deposit_authority {
        None => {},
        Some(_) => {},
    }
    match p.sol_withdraw_authority {
        None => {},
        Some(_) => {},
    }
    assert(h.len() == 346);
    assert(s.subrange(0, 346) =~= h);
    lemma_head_reads(p, s);
    let u = t + rest;
    assert forall|i: int| 0 <= i < u.len() implies s[346 + i] == u[i] by {}
    assert(u.subrange(0, t.len() as int) =~= t);
    lemma_tail_reads(p, s, u);
}

/// The tail reads back from bytes `s` in which it starts at offset 346.
#[verifier::rlimit(60)]
proof fn lemma_tail_reads(p: StakePool, s: Seq<u8>, u: Seq<u8>)
    requires
        s.len() == 346 + u.len(),
        enc_pool_tail(p).len() <= u.len(),
        u.subrange(0, enc_pool_tail(p).len() as int) == enc_pool_tail(p),
        forall|i: int| 0 <= i < u.len() ==> s[346 + i] == u[i],
    ensures
        ({
            let o1 = 346 + future_len(p.next_epoch_fee);
            let o2 = o1 + opt_key_len(p.preferred_deposit_validator_vote_address);
            let o3 = o2 + opt_key_len(p.preferred_withdraw_validator_vote_address);
            let o4 = o3 + 32 + future_len(p.next_stake_withdrawal_fee);
            &&& spec_decode_tail_a(s) == Some(
                (
                    PoolTailA {
                        next_epoch_fee: p.next_epoch_fee,
                        preferred_deposit_validator_vote_address:
                            p.preferred_deposit_validator_vote_address,
                        preferred_withdraw_validator_vote_address:
                            p.preferred_withdraw_validator_vote_address,
                        stake_deposit_fee: p.stake_deposit_fee,
                        stake_withdrawal_fee: p.stake_withdrawal_fee,
                        next_stake_withdrawal_fee: p.next_stake_withdrawal_fee,
                    },
                    o4,
                ),
            )
            &&& spec_decode_tail_b(s, o4) == Some(
                PoolTailB {
                    stake_referral_fee: p.stake_referral_fee,
                    sol_deposit_authority: p.sol_deposit_authority,
                    sol_deposit_fee: p.sol_deposit_fee,
                    sol_referral_fee: p.sol_referral_fee,
                    sol_withdraw_authority: p.sol_withdraw_authority,
                    sol_withdrawal_fee: p.sol_withdrawal_fee,
                    next_sol_withdrawal_fee: p.next_sol_withdrawal_fee,
                    last_epoch_pool_token_supply: p.last_epoch_pool_token_supply,
                    last_epoch_total_lamports: p.last_epoch_total_lamports,
                },
            )
        }),
{
    let t = enc_pool_tail(p);
    lemma_le_bytes_len(p.last_epoch_pool_token_supply as nat, 8);
    lemma_le_bytes_len(p.last_epoch_total_lamports as nat, 8);
    lemma_enc_fee_len(p.stake_deposit_fee);
    lemma_enc_fee_len(p.stake_withdrawal_fee);
    lemma_enc_fee_len(p.sol_deposit_fee);
    lemma_enc_fee_len(p.sol_withdrawal_fee);
    lemma_future_len(p.next_epoch_fee);
    lemma_future_len(p.next_stake_withdrawal_fee);
    lemma_future_len(p.next_sol_withdrawal_fee);
    let k1 = opt_key_len(p.preferred_deposit_validator_vote_address);
    let k2 = opt_key_len(p.preferred_withdraw_validator_vote_address);
    let k3 = opt_key_len(p.sol_deposit_authority);
    let k4 = opt_key_len(p.sol_withdraw_authority);
    assert(enc_opt_key(p.preferred_deposit_validator_vote_address).len() == k1);
    assert(enc_opt_key(p.preferred_withdraw_validator_vote_address).len() == k2);
    assert(enc_opt_key(p.sol_deposit_authority).len() == k3);
    assert(enc_opt_key(p.sol_withdraw_authority).len() == k4);
    assert(s.subrange(346, 346 + t.len() as int) =~= t) by {
        assert forall|i: int| 0 <= i < t.len() implies s[346 + i] == t[i] by {
            assert(u[i] == u.subrange(0, t.len() as int)[i]);
        }
    }
    let o1 = 346 + future_len(p.next_epoch_fee);
    let o2 = o1 + k1;
    let o3 = o2 + k2;
    let o4 = o3 + 32 + future_len(p.next_stake_withdrawal_fee);
    let o5 = o4 + 1 + k3;
    let o6 = o5 + 17 + k4;
    let o7 = o6 + 16 + future_len(p.next_sol_withdrawal_fee);
    assert(t.len() == o7 + 16 - 346);
    lemma_sub_sub(s, 346, 346 + t.len() as int, 0, o1 - 346);
    assert(t.subrange(0, o1 - 346) =~= enc_future_fee(p.next_epoch_fee));
    lemma_rd_future_fee(s, 346, p.next_epoch_fee);
    lemma_sub_sub(s, 346, 346 + t.len() as int, o1 - 346, o2 - 346);
    assert(t.subrange(o1 - 346, o2 - 346) =~= enc_opt_key(p.preferred_deposit_validator_vote_address));
    lemma_rd_opt_key(s, o1, p.preferred_deposit_validator_vote_address);
    lemma_sub_sub(s, 346, 346 + t.len() as int, o2 - 346, o3 - 346);
    assert(t.subrange(o2 - 346, o3 - 346) =~= enc_opt_key(p.preferred_withdraw_validator_vote_address));
    lemma_rd_opt_key(s, o2, p.preferred_withdraw_validator_vote_address);
    lemma_sub_sub(s, 346, 346 + t.len() as int, o3 - 346, o3 + 16 - 346);
    assert(t.subrange(o3 - 346, o3 + 16 - 346) =~= enc_fee(p.stake_deposit_fee));
    lemma_fee_at(s, o3, p.stake_deposit_fee);
    lemma_sub_sub(s, 346, 346 + t.len() as int, o3 + 16 - 346, o3 + 32 - 346);
    assert(t.subrange(o3 + 16 - 346, o3 + 32 - 346) =~= enc_fee(p.stake_withdrawal_fee));
    lemma_fee_at(s, o3 + 16, p.stake_withdrawal_fee);
    lemma_sub_sub(s, 346, 346 + t.len() as int, o3 + 32 - 346, o4 - 346);
    assert(t.subrange(o3 + 32 - 346, o4 - 346) =~= enc_future_fee(p.next_stake_withdrawal_fee));
    lemma_rd_future_fee(s, o3 + 32, p.next_stake_withdrawal_fee);
    assert(s[o4] == t[o4 - 346]);
    lemma_sub_sub(s, 346, 346 + t.len() as int, o4 + 1 - 346, o5 - 346);
    assert(t.subrange(o4 + 1 - 346, o5 - 346) =~= enc_opt_key(p.sol_deposit_authority));
    lemma_rd_opt_key(s, o4 + 1, p.sol_deposit_authority);
    lemma_sub_sub(s, 346, 346 + t.len() as int, o5 - 346, o5 + 16 - 346);
    assert(t.subrange(o5 - 346, o5 + 16 - 346) =~= enc_fee(p.sol_deposit_fee));
    lemma_fee_at(s, o5, p.sol_deposit_fee);
    assert(s[o5 + 16] == t[o5 + 16 - 346]);
    lemma_sub_sub(s, 346, 346 + t.len() as int, o5 + 17 - 346, o6 - 346);
    assert(t.subrange(o5 + 17 - 346, o6 - 346) =~= enc_opt_key(p.sol_withdraw_authority));
    lemma_rd_opt_key(s, o5 + 17, p.sol_withdraw_authority);
    lemma_sub_sub(s, 346, 346 + t.len() as int, o6 - 346, o6 + 16 - 346);
    assert(t.subrange(o6 - 346, o6 + 16 - 346) =~= enc_fee(p.sol_withdrawal_fee));
    lemma_fee_at(s, o6, p.sol_withdrawal_fee);
    lemma_sub_sub(s, 346, 346 + t.len() as int, o6 + 16 - 346, o7 - 346);
    assert(t.subrange(o6 + 16 - 346, o7 - 346) =~= enc_future_fee(p.next_sol_withdrawal_fee));
    lemma_rd_future_fee(s, o6 + 16, p.next_sol_withdrawal_fee);
    lemma_sub_sub(s, 346, 346 + t.len() as int, o7 - 346, o7 + 8 - 346);
    assert(t.subrange(o7 - 346, o7 + 8 - 346) =~= spec_u64_le(p.last_epoch_pool_token_supply));
    lemma_u64_at(s, o7, p.last_epoch_pool_token_supply);
    lemma_sub_sub(s, 346, 346 + t.len() as int, o7 + 8 - 346, o7 + 16 - 346);
    assert(t.subrange(o7 + 8 - 346, o7 + 16 - 346) =~= spec_u64_le(p.last_epoch_total_lamports));
    lemma_u64_at(s, o7 + 8, p.last_epoch_total_lamports);
}

} // verus!
