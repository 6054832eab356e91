use vstd::prelude::*;

use crate::codec::{
    extend_from, le_value, lemma_le_bytes_len, lemma_le_round_trip, lemma_pow256_facts,
    push_u32_le, push_u64_le, read_u32_le, read_u64_le, spec_u32_le, spec_u64_le,
};
use crate::pda::{transient_stake_seeds, validator_stake_seeds, OptionalSeed};
use crate::typedefs::{AccountType, StakeStatus, ValidatorListHeader};

verus! {

/// Bytes of one validator record.
pub const VALIDATOR_RECORD_SIZE: usize = 73;

/// Bytes of the list header: account type, capacity, record count.
pub const VALIDATOR_LIST_HEADER_SIZE: usize = 9;

/// One validator's stake position, as laid out in the validator list.
#[derive(Debug, Clone, Copy, PartialEq, Eq)]
pub struct ValidatorStakeInfo {
    /// Lamports on the validator stake account, including rent
    pub active_stake_lamports: u64,
    /// Lamports of transient stake delegated to this validator
    pub transient_stake_lamports: u64,
    /// Last epoch the active and transient stake lamports were updated
    pub last_update_epoch: u64,
    /// Transient account seed suffix
    pub transient_seed_suffix: u64,
    /// Unused space
    pub unused: u32,
    /// Validator account seed suffix; zero means none
    pub validator_seed_suffix: u32,
    /// Status of the validator stake account
    pub status: StakeStatus,
    /// Validator vote account address
    pub vote_account_address: [u8; 32],
}

/// A record's bytes: little-endian integers in field order, the status
/// byte, then the vote account.
pub open spec fn spec_encode_record(v: ValidatorStakeInfo) -> Seq<u8> {
    spec_u64_le(v.active_stake_lamports) + spec_u64_le(v.transient_stake_lamports) + spec_u64_le(
        v.last_update_epoch,
    ) + spec_u64_le(v.transient_seed_suffix) + spec_u32_le(v.unused) + spec_u32_le(
        v.validator_seed_suffix,
    ) + seq![v.status.spec_as_byte()] + v.vote_account_address@
}

/// A record's bytes can be read back: its status byte names a status.
pub open spec fn spec_record_bytes_ok(s: Seq<u8>) -> bool {
    StakeStatus::spec_from_byte(s[40]) is Some
}

/// The bytes of a validator seed suffix: none for zero, else little-endian.
pub open spec fn spec_seed_suffix_bytes(suffix: u32) -> Seq<u8> {
    if suffix == 0 {
        Seq::empty()
    } else {
        spec_u32_le(suffix)
    }
}

/// `n` zero bytes.
pub open spec fn zero_bytes(n: nat) -> Seq<u8> {
    Seq::new(n, |i: int| 0u8)
}

proof fn lemma_record_len(v: ValidatorStakeInfo)
    ensures
        spec_encode_record(v).len() == VALIDATOR_RECORD_SIZE,
{
    lemma_le_bytes_len(v.active_stake_lamports as nat, 8);
    lemma_le_bytes_len(v.transient_stake_lamports as nat, 8);
    lemma_le_bytes_len(v.last_update_epoch as nat, 8);
    lemma_le_bytes_len(v.transient_seed_suffix as nat, 8);
    lemma_le_bytes_len(v.unused as nat, 4);
    lemma_le_bytes_len(v.validator_seed_suffix as nat, 4);
}

/// Records with the same bytes are the same record.
proof fn lemma_record_injective(a: ValidatorStakeInfo, b: ValidatorStakeInfo)
    requires
        spec_encode_record(a) == spec_encode_record(b),
    ensures
        a == b,
{
    lemma_record_len(a);
    lemma_record_len(b);
    lemma_record_fields(a);
    lemma_record_fields(b);
    assert(a.vote_account_address@ =~= b.vote_account_address@);
    assert(a.vote_account_address == b.vote_account_address);
    assert(StakeStatus::spec_from_byte(a.status.spec_as_byte()) == Some(a.status));
    assert(StakeStatus::spec_from_byte(b.status.spec_as_byte()) == Some(b.status));
    assert(a.status == b.status);
}

/// What each field's slice of a record's bytes reads back as.
proof fn lemma_record_fields(v: ValidatorStakeInfo)
    ensures
        ({
            let s = spec_encode_record(v);
            &&& s.len() == VALIDATOR_RECORD_SIZE
            &&& le_value(s.subrange(0, 8)) == v.active_stake_lamports
            &&& le_value(s.subrange(8, 16)) == v.transient_stake_lamports
            &&& le_value(s.subrange(16, 24)) == v.last_update_epoch
            &&& le_value(s.subrange(24, 32)) == v.transient_seed_suffix
            &&& le_value(s.subrange(32, 36)) == v.unused
            &&& le_value(s.subrange(36, 40)) == v.validator_seed_suffix
            &&& s[40] == v.status.spec_as_byte()
            &&& s.subrange(41, 73) == v.vote_account_address@
        }),
{
    lemma_record_len(v);
    lemma_pow256_facts();
    lemma_le_bytes_len(v.active_stake_lamports as nat, 8);
    lemma_le_bytes_len(v.transient_stake_lamports as nat, 8);
    lemma_le_bytes_len(v.last_update_epoch as nat, 8);
    lemma_le_bytes_len(v.transient_seed_suffix as nat, 8);
    lemma_le_bytes_len(v.unused as nat, 4);
    lemma_le_bytes_len(v.validator_seed_suffix as nat, 4);
    let s = spec_encode_record(v);
    assert(s.subrange(0, 8) =~= spec_u64_le(v.active_stake_lamports));
    assert(s.subrange(8, 16) =~= spec_u64_le(v.transient_stake_lamports));
    assert(s.subrange(16, 24) =~= spec_u64_le(v.last_update_epoch));
    assert(s.subrange(24, 32) =~= spec_u64_le(v.transient_seed_suffix));
    assert(s.subrange(32, 36) =~= spec_u32_le(v.unused));
    assert(s.subrange(36, 40) =~= spec_u32_le(v.validator_seed_suffix));
    assert(s.subrange(41, 73) =~= v.vote_account_address@);
    lemma_le_round_trip(v.active_stake_lamports as nat, 8);
    lemma_le_round_trip(v.transient_stake_lamports as nat, 8);
    lemma_le_round_trip(v.last_update_epoch as nat, 8);
    lemma_le_round_trip(v.transient_seed_suffix as nat, 8);
    lemma_le_round_trip(v.unused as nat, 4);
    lemma_le_round_trip(v.validator_seed_suffix as nat, 4);
}

impl ValidatorStakeInfo {
    /// The all-zero record, used as padding.
    pub fn zeroed() -> (r: ValidatorStakeInfo)
        ensures
            spec_encode_record(r) == zero_bytes(73),
    {
        let r = ValidatorStakeInfo {
            active_stake_lamports: 0,
            transient_stake_lamports: 0,
            last_update_epoch: 0,
            transient_seed_suffix: 0,
            unused: 0,
            validator_seed_suffix: 0,
            status: StakeStatus::Active,
            vote_account_address: [0u8; 32],
        };
        proof {
            reveal_with_fuel(crate::codec::le_bytes, 9);
            assert(spec_encode_record(r) =~= zero_bytes(73));
        }
        r
    }

    pub fn status(&self) -> (r: StakeStatus)
        ensures
            r == self.status,
    {
        self.status
    }

    pub fn active_stake_lamports(&self) -> (r: u64)
        ensures
            r == self.active_stake_lamports,
    {
        self.active_stake_lamports
    }

    pub fn transient_stake_lamports(&self) -> (r: u64)
        ensures
            r == self.transient_stake_lamports,
    {
        self.transient_stake_lamports
    }

    pub fn last_update_epoch(&self) -> (r: u64)
        ensures
            r == self.last_update_epoch,
    {
        self.last_update_epoch
    }

    pub fn transient_seed_suffix(&self) -> (r: u64)
        ensures
            r == self.transient_seed_suffix,
    {
        self.transient_seed_suffix
    }

    /// The validator seed suffix, `None` when it is zero.
    pub fn validator_seed_suffix(&self) -> (r: Option<u32>)
        ensures
            r == (if self.validator_seed_suffix == 0 {
                None
            } else {
                Some(self.validator_seed_suffix)
            }),
    {
        if self.validator_seed_suffix == 0 {
            None
        } else {
            Some(self.validator_seed_suffix)
        }
    }

    pub fn vote_account_address(&self) -> (r: &[u8; 32])
        ensures
            *r == self.vote_account_address,
    {
        &self.vote_account_address
    }

    pub fn set_status(&mut self, value: StakeStatus)
        ensures
            *final(self) == (ValidatorStakeInfo { status: value, ..*old(self) }),
    {
        self.status = value;
    }

    pub fn set_active_stake_lamports(&mut self, value: u64)
        ensures
            *final(self) == (ValidatorStakeInfo { active_stake_lamports: value, ..*old(self) }),
    {
        self.active_stake_lamports = value;
    }

    pub fn set_transient_stake_lamports(&mut self, value: u64)
        ensures
            *final(self) == (ValidatorStakeInfo { transient_stake_lamports: value, ..*old(self) }),
    {
        self.transient_stake_lamports = value;
    }

    pub fn set_last_update_epoch(&mut self, value: u64)
        ensures
            *final(self) == (ValidatorStakeInfo { last_update_epoch: value, ..*old(self) }),
    {
        self.last_update_epoch = value;
    }

    pub fn set_transient_seed_suffix(&mut self, value: u64)
        ensures
            *final(self) == (ValidatorStakeInfo { transient_seed_suffix: value, ..*old(self) }),
    {
        self.transient_seed_suffix = value;
    }

    /// Stores the suffix, `None` (or zero) as zero.
    pub fn set_validator_seed_suffix(&mut self, value: Option<u32>)
        ensures
            *final(self) == (ValidatorStakeInfo {
                validator_seed_suffix: match value {
                    Some(v) => v,
                    None => 0,
                },
                ..*old(self)
            }),
    {
        self.validator_seed_suffix = match value {
            Some(v) => v,
            None => 0,
        };
    }

    pub fn set_vote_account_address(&mut self, value: [u8; 32])
        ensures
            *final(self) == (ValidatorStakeInfo { vote_account_address: value, ..*old(self) }),
    {
        self.vote_account_address = value;
    }

    /// Appends the record's bytes to `out`.
    pub fn borsh_ser(&self, out: &mut Vec<u8>)
        ensures
            final(out)@ == old(out)@ + spec_encode_record(*self),
    {
        push_u64_le(out, self.active_stake_lamports);
        push_u64_le(out, self.transient_stake_lamports);
        push_u64_le(out, self.last_update_epoch);
        push_u64_le(out, self.transient_seed_suffix);
        push_u32_le(out, self.unused);
        push_u32_le(out, self.validator_seed_suffix);
        out.push(self.status.as_byte());
        extend_from(out, self.vote_account_address.as_slice());
        proof {
            assert(final(out)@ =~= old(out)@ + spec_encode_record(*self));
        }
    }
}

/// Reads the record at `pos`; `None` if its status byte names no status.
fn read_record(data: &[u8], pos: usize) -> (r: Option<ValidatorStakeInfo>)
    requires
        pos + VALIDATOR_RECORD_SIZE <= data@.len(),
    ensures
        r is Some <==> spec_record_bytes_ok(data@.subrange(pos as int, pos + 73)),
        r matches Some(v) ==> spec_encode_record(v) == data@.subrange(pos as int, pos + 73),
{
    let ghost s = data@.subrange(pos as int, pos + 73);
    let len = data.len();
    let status = match StakeStatus::from_byte(data[pos + 40]) {
        Some(st) => st,
        None => {
            return None;
        },
    };
    let mut vote = [0u8; 32];
    let mut k: usize = 0;
    while k < 32
        invariant
            0 <= k <= 32,
            pos + 73 <= data@.len(),
            len == data@.len(),
            forall|j: int| 0 <= j < k ==> vote@[j] == data@[pos + 41 + j],
        decreases 32 - k,
    {
        vote.set(k, data[pos + 41 + k]);
        k += 1;
    }
    let v = ValidatorStakeInfo {
        active_stake_lamports: read_u64_le(data, pos),
        transient_stake_lamports: read_u64_le(data, pos + 8),
        last_update_epoch: read_u64_le(data, pos + 16),
        transient_seed_suffix: read_u64_le(data, pos + 24),
        unused: read_u32_le(data, pos + 32),
        validator_seed_suffix: read_u32_le(data, pos + 36),
        status,
        vote_account_address: vote,
    };
    proof {
        lemma_record_fields(v);
        let e = spec_encode_record(v);
        assert(data@.subrange(pos as int, pos + 8) =~= s.subrange(0, 8));
        assert(data@.subrange(pos + 8, pos + 16) =~= s.subrange(8, 16));
        assert(data@.subrange(pos + 16, pos + 24) =~= s.subrange(16, 24));
        assert(data@.subrange(pos + 24, pos + 32) =~= s.subrange(24, 32));
        assert(data@.subrange(pos + 32, pos + 36) =~= s.subrange(32, 36));
        assert(data@.subrange(pos + 36, pos + 40) =~= s.subrange(36, 40));
        lemma_le_bytes_from_value(s.subrange(0, 8), e.subrange(0, 8));
        lemma_le_bytes_from_value(s.subrange(8, 16), e.subrange(8, 16));
        lemma_le_bytes_from_value(s.subrange(16, 24), e.subrange(16, 24));
        lemma_le_bytes_from_value(s.subrange(24, 32), e.subrange(24, 32));
        lemma_le_bytes_from_value(s.subrange(32, 36), e.subrange(32, 36));
        lemma_le_bytes_from_value(s.subrange(36, 40), e.subrange(36, 40));
        assert(e =~= s) by {
            assert forall|j: int| 0 <= j < 73 implies e[j] == s[j] by {
                if j < 8 {
                    assert(e[j] == e.subrange(0, 8)[j]);
                    assert(s[j] == s.subrange(0, 8)[j]);
                } else if j < 16 {
                    assert(e[j] == e.subrange(8, 16)[j - 8]);
                    assert(s[j] == s.subrange(8, 16)[j - 8]);
                } else if j < 24 {
                    assert(e[j] == e.subrange(16, 24)[j - 16]);
                    assert(s[j] == s.subrange(16, 24)[j - 16]);
                } else if j < 32 {
                    assert(e[j] == e.subrange(24, 32)[j - 24]);
                    assert(s[j] == s.subrange(24, 32)[j - 24]);
                } else if j < 36 {
                    assert(e[j] == e.subrange(32, 36)[j - 32]);
                    assert(s[j] == s.subrange(32, 36)[j - 32]);
                } else if j < 40 {
                    assert(e[j] == e.subrange(36, 40)[j - 36]);
                    assert(s[j] == s.subrange(36, 40)[j - 36]);
                } else if j == 40 {
                } else {
                    assert(e[j] == e.subrange(41, 73)[j - 41]);
                }
            }
        }
    }
    Some(v)
}

/// Two byte strings of one length that spell the same number are equal.
proof fn lemma_le_bytes_from_value(a: Seq<u8>, b: Seq<u8>)
    requires
        a.len() == b.len(),
        le_value(a) == le_value(b),
    ensures
        a == b,
{
    crate::codec::lemma_le_value_bytes(a);
    crate::codec::lemma_le_value_bytes(b);
}

/// Failures while reading an account's bytes.
#[derive(Debug, Clone, Copy, PartialEq, Eq, Structural)]
pub enum DecodeError {
    /// The bytes end before the value does.
    UnexpectedEnd,
    /// A tag byte names no variant.
    InvalidTag,
}

/// Failures while writing an account's bytes.
#[derive(Debug, Clone, Copy, PartialEq, Eq, Structural)]
pub enum EncodeError {
    /// More records than a 32-bit count can hold.
    TooManyRecords,
}

/// A validator list: its header and its records.
#[derive(Debug, Clone, PartialEq)]
pub struct ValidatorList {
    pub header: ValidatorListHeader,
    pub validators: Vec<ValidatorStakeInfo>,
}

/// The bytes of record `i` after the header.
pub open spec fn record_chunk(data: Seq<u8>, i: int) -> Seq<u8> {
    data.subrange(9 + 73 * i, 9 + 73 * i + 73)
}

pub open spec fn spec_record_count(data: Seq<u8>) -> nat {
    le_value(data.subrange(5, 9))
}

/// The bytes hold a list: a header with a known account type, and as many
/// readable records as its count says.
pub open spec fn spec_list_parses(data: Seq<u8>) -> bool {
    &&& data.len() >= 9
    &&& AccountType::spec_from_tag(data[0]) is Some
    &&& data.len() - 9 >= 73 * spec_record_count(data)
    &&& forall|i: int|
        0 <= i < spec_record_count(data) ==> spec_record_bytes_ok(#[trigger] record_chunk(data, i))
}

/// The bytes hold exactly this header and these records (any bytes after
/// the counted records are ignored).
pub open spec fn spec_list_parses_to(
    data: Seq<u8>,
    header: ValidatorListHeader,
    validators: Seq<ValidatorStakeInfo>,
) -> bool {
    &&& data.len() >= 9
    &&& AccountType::spec_from_tag(data[0]) == Some(header.account_type)
    &&& le_value(data.subrange(1, 5)) == header.max_validators
    &&& validators.len() == spec_record_count(data)
    &&& data.len() - 9 >= 73 * validators.len()
    &&& forall|i: int|
        0 <= i < validators.len() ==> spec_encode_record(#[trigger] validators[i]) == record_chunk(
            data,
            i,
        )
}

/// Concatenated record bytes.
pub open spec fn concat_records(vs: Seq<ValidatorStakeInfo>) -> Seq<u8>
    decreases vs.len(),
{
    if vs.len() == 0 {
        Seq::empty()
    } else {
        concat_records(vs.drop_last()) + spec_encode_record(vs.last())
    }
}

/// The serialized list: header with the record count, the records, then
/// zero records up to the capacity.
pub open spec fn spec_serialize_list(
    header: ValidatorListHeader,
    validators: Seq<ValidatorStakeInfo>,
) -> Seq<u8> {
    seq![header.account_type.spec_tag()] + spec_u32_le(header.max_validators) + spec_u32_le(
        validators.len() as u32,
    ) + concat_records(validators) + zero_bytes(
        if validators.len() < header.max_validators {
            (73 * (header.max_validators - validators.len())) as nat
        } else {
            0
        },
    )
}

proof fn lemma_concat_records(vs: Seq<ValidatorStakeInfo>)
    ensures
        concat_records(vs).len() == 73 * vs.len(),
        forall|i: int|
            0 <= i < vs.len() ==> #[trigger] concat_records(vs).subrange(73 * i, 73 * i + 73)
                == spec_encode_record(vs[i]),
    decreases vs.len(),
{
    if vs.len() > 0 {
        let init = vs.drop_last();
        lemma_concat_records(init);
        lemma_record_len(vs.last());
        let c = concat_records(vs);
        assert forall|i: int| 0 <= i < vs.len() implies #[trigger] c.subrange(73 * i, 73 * i + 73)
            == spec_encode_record(vs[i]) by {
            if i < init.len() {
                assert(c.subrange(73 * i, 73 * i + 73) =~= concat_records(init).subrange(
                    73 * i,
                    73 * i + 73,
                ));
            } else {
                assert(c.subrange(73 * i, 73 * i + 73) =~= spec_encode_record(vs.last()));
            }
        }
    }
}

proof fn lemma_concat_records_push(vs: Seq<ValidatorStakeInfo>, v: ValidatorStakeInfo)
    ensures
        concat_records(vs.push(v)) == concat_records(vs) + spec_encode_record(v),
{
    assert(vs.push(v).drop_last() =~= vs);
}

impl ValidatorList {
    /// Reads the header (account type, capacity, record count) and as many
    /// records as the count says. Fails if the bytes are too short or a tag
    /// byte names no variant.
    pub fn deserialize(data: &[u8]) -> (r: Result<ValidatorList, DecodeError>)
        ensures
            r is Ok <==> spec_list_parses(data@),
            r matches Ok(l) ==> spec_list_parses_to(data@, l.header, l.validators@),
    {
        if data.len() < VALIDATOR_LIST_HEADER_SIZE {
            return Err(DecodeError::UnexpectedEnd);
        }
        let account_type = match AccountType::from_tag(data[0]) {
            Some(t) => t,
            None => {
                return Err(DecodeError::InvalidTag);
            },
        };
        let max_validators = read_u32_le(data, 1);
        let num_validators = read_u32_le(data, 5);
        let remaining = data.len() - VALIDATOR_LIST_HEADER_SIZE;
        if (remaining as u64) / 73 < num_validators as u64 {
            proof {
                assert((remaining as int) < 73 * (num_validators as int)) by (nonlinear_arith)
                    requires
                        (remaining as int) / 73 < num_validators as int,
                        remaining >= 0,
                ;
            }
            return Err(DecodeError::UnexpectedEnd);
        }
        proof {
            assert(73 * (num_validators as int) <= remaining as int) by (nonlinear_arith)
                requires
                    (remaining as int) / 73 >= num_validators as int,
                    remaining >= 0,
            ;
        }
        let num = num_validators as usize;
        let data_len = data.len();
        let mut validators: Vec<ValidatorStakeInfo> = Vec::new();
        let mut i: usize = 0;
        while i < num
            invariant
                0 <= i <= num,
                num == spec_record_count(data@),
                data@.len() - 9 >= 73 * num,
                data_len == data@.len(),
                validators@.len() == i,
                forall|j: int| 0 <= j < i ==> spec_record_bytes_ok(#[trigger] record_chunk(data@, j)),
                forall|j: int|
                    0 <= j < i ==> spec_encode_record(#[trigger] validators@[j]) == record_chunk(
                        data@,
                        j,
                    ),
            decreases num - i,
        {
            proof {
                assert(73 * (i as int) + 73 <= 73 * (num as int)) by (nonlinear_arith)
                    requires
                        i < num,
                ;
            }
            let pos = VALIDATOR_LIST_HEADER_SIZE + 73 * i;
            match read_record(data, pos) {
                Some(v) => {
                    validators.push(v);
                },
                None => {
                    proof {
                        assert(!spec_record_bytes_ok(record_chunk(data@, i as int)));
                    }
                    return Err(DecodeError::InvalidTag);
                },
            }
            i += 1;
        }
        Ok(
            ValidatorList {
                header: ValidatorListHeader { account_type, max_validators },
                validators,
            },
        )
    }

    /// Appends the header (with the record count), each record in order,
    /// then zero records until there are `max_validators` of them. Fails if
    /// the count does not fit in 32 bits.
    pub fn borsh_ser(&self, out: &mut Vec<u8>) -> (r: Result<(), EncodeError>)
        ensures
            r is Ok <==> self.validators@.len() <= u32::MAX,
            r is Ok ==> final(out)@ == old(out)@ + spec_serialize_list(
                self.header,
                self.validators@,
            ),
            r is Err ==> final(out)@ == old(out)@,
    {
        let len = self.validators.len();
        if len > 0xffff_ffff {
            return Err(EncodeError::TooManyRecords);
        }
        let ghost start = old(out)@;
        out.push(self.header.account_type.tag());
        push_u32_le(out, self.header.max_validators);
        push_u32_le(out, len as u32);
        let ghost head = out@;
        let mut i: usize = 0;
        while i < len
            invariant
                0 <= i <= len,
                len == self.validators@.len(),
                out@ == head + concat_records(self.validators@.take(i as int)),
            decreases len - i,
        {
            self.validators[i].borsh_ser(out);
            proof {
                lemma_concat_records_push(self.validators@.take(i as int), self.validators@[i as int]);
                assert(self.validators@.take(i as int).push(self.validators@[i as int])
                    =~= self.validators@.take(i + 1));
            }
            i += 1;
        }
        proof {
            assert(self.validators@.take(i as int) =~= self.validators@);
        }
        let ghost body = out@;
        let empty_validator = ValidatorStakeInfo::zeroed();
        let max = self.header.max_validators as usize;
        let mut k: usize = len;
        while k < max
            invariant
                len < max ==> len <= k <= max,
                len >= max ==> k == len,
                spec_encode_record(empty_validator) == zero_bytes(73),
                out@ == body + zero_bytes(
                    if len < max {
                        (73 * (k - len)) as nat
                    } else {
                        0
                    },
                ),
            decreases max - k,
        {
            empty_validator.borsh_ser(out);
            proof {
                assert(73 * (k + 1 - len) == 73 * (k - len) + 73) by (nonlinear_arith)
                    requires
                        k >= len,
                ;
                assert(out@ =~= body + zero_bytes((73 * (k + 1 - len)) as nat));
            }
            k += 1;
        }
        proof {
            assert(out@ =~= start + spec_serialize_list(self.header, self.validators@));
        }
        Ok(())
    }

    /// Validator stake account seeds for each record, in order.
    pub fn validator_stake_account_seeds_itr<'a>(&'a self, stake_pool: &'a [u8; 32]) -> (r: Vec<
        (&'a [u8; 32], &'a [u8; 32], OptionalSeed<[u8; 4]>),
    >)
        ensures
            r@.len() == self.validators@.len(),
            forall|i: int|
                0 <= i < r@.len() ==> *(#[trigger] r@[i]).0
                    == self.validators@[i].vote_account_address && *r@[i].1 == *stake_pool && r@[i].2.spec_bytes() == spec_seed_suffix_bytes(
                    self.validators@[i].validator_seed_suffix,
                ),
    {
        let mut r: Vec<(&'a [u8; 32], &'a [u8; 32], OptionalSeed<[u8; 4]>)> = Vec::new();
        let mut i: usize = 0;
        while i < self.validators.len()
            invariant
                0 <= i <= self.validators@.len(),
                r@.len() == i,
                forall|j: int|
                    0 <= j < i ==> *(#[trigger] r@[j]).0 == self.validators@[j].vote_account_address
                        && *r@[j].1 == *stake_pool && r@[j].2.spec_bytes() == spec_seed_suffix_bytes(
                        self.validators@[j].validator_seed_suffix,
                    ),
            decreases self.validators.len() - i,
        {
            let v = &self.validators[i];
            r.push(
                validator_stake_seeds(
                    v.vote_account_address(),
                    stake_pool,
                    v.validator_seed_suffix(),
                ),
            );
            i += 1;
        }
        r
    }

    /// Transient stake account seeds for each record, in order.
    pub fn transient_stake_account_seeds_itr<'a>(&'a self, stake_pool: &'a [u8; 32]) -> (r: Vec<
        (&'static [u8; 9], &'a [u8; 32], &'a [u8; 32], [u8; 8]),
    >)
        ensures
            r@.len() == self.validators@.len(),
            forall|i: int|
                0 <= i < r@.len() ==> *(#[trigger] r@[i]).1
                    == self.validators@[i].vote_account_address && *r@[i].2 == *stake_pool
                    && r@[i].3@ == spec_u64_le(self.validators@[i].transient_seed_suffix),
    {
        let mut r: Vec<(&'static [u8; 9], &'a [u8; 32], &'a [u8; 32], [u8; 8])> = Vec::new();
        let mut i: usize = 0;
        while i < self.validators.len()
            invariant
                0 <= i <= self.validators@.len(),
                r@.len() == i,
                forall|j: int|
                    0 <= j < i ==> *(#[trigger] r@[j]).1 == self.validators@[j].vote_account_address
                        && *r@[j].2 == *stake_pool && r@[j].3@ == spec_u64_le(
                        self.validators@[j].transient_seed_suffix,
                    ),
            decreases self.validators.len() - i,
        {
            let v = &self.validators[i];
            r.push(
                transient_stake_seeds(v.vote_account_address(), stake_pool, v.transient_seed_suffix()),
            );
            i += 1;
        }
        r
    }
}

impl ValidatorList {
    /// For each record, in order, its validator stake account seeds paired
    /// with its transient stake account seeds.
    pub fn account_pair_seeds_itr<'a>(&'a self, stake_pool: &'a [u8; 32]) -> (r: Vec<
        (
            (&'a [u8; 32], &'a [u8; 32], OptionalSeed<[u8; 4]>),
            (&'static [u8; 9], &'a [u8; 32], &'a [u8; 32], [u8; 8]),
        ),
    >)
        ensures
            r@.len() == self.validators@.len(),
            forall|i: int|
                0 <= i < r@.len() ==> *(#[trigger] r@[i]).0.0
                    == self.validators@[i].vote_account_address && *r@[i].0.1 == *stake_pool
                    && *r@[i].1.1 == self.validators@[i].vote_account_address && *r@[i].1.2
                    == *stake_pool && r@[i].1.3@ == spec_u64_le(
                    self.validators@[i].transient_seed_suffix,
                ),
    {
        let validator_seeds = self.validator_stake_account_seeds_itr(stake_pool);
        let transient_seeds = self.transient_stake_account_seeds_itr(stake_pool);
        let mut r: Vec<
            (
                (&'a [u8; 32], &'a [u8; 32], OptionalSeed<[u8; 4]>),
                (&'static [u8; 9], &'a [u8; 32], &'a [u8; 32], [u8; 8]),
            ),
        > = Vec::new();
        let mut i: usize = 0;
        while i < validator_seeds.len()
            invariant
                0 <= i <= validator_seeds@.len(),
                validator_seeds@.len() == self.validators@.len(),
                transient_seeds@.len() == self.validators@.len(),
                r@.len() == i,
                forall|j: int|
                    0 <= j < i ==> (#[trigger] r@[j]).0 == validator_seeds@[j] && r@[j].1
                        == transient_seeds@[j],
            decreases validator_seeds.len() - i,
        {
            r.push((validator_seeds[i], transient_seeds[i]));
            i += 1;
        }
        proof {
            assert forall|j: int| 0 <= j < r@.len() implies *(#[trigger] r@[j]).0.0
                == self.validators@[j].vote_account_address && *r@[j].0.1 == *stake_pool
                && *r@[j].1.1 == self.validators@[j].vote_account_address && *r@[j].1.2
                == *stake_pool && r@[j].1.3@ == spec_u64_le(
                self.validators@[j].transient_seed_suffix,
            ) by {
                assert(r@[j].0 == validator_seeds@[j]);
                assert(r@[j].1 == transient_seeds@[j]);
            }
        }
        r
    }
}

/// Serializing a list of at most `max_validators` records gives exactly
/// `9 + 73 * max_validators` bytes, which parse back to the same header and
/// the same records, and to nothing else.
pub proof fn lemma_validator_list_round_trip(
    header: ValidatorListHeader,
    validators: Seq<ValidatorStakeInfo>,
)
    requires
        validators.len() <= header.max_validators,
    ensures
        ({
            let bytes = spec_serialize_list(header, validators);
            &&& bytes.len() == VALIDATOR_LIST_HEADER_SIZE + VALIDATOR_RECORD_SIZE
                * header.max_validators
            &&& spec_list_parses(bytes)
            &&& spec_list_parses_to(bytes, header, validators)
            &&& forall|h: ValidatorListHeader, vs: Seq<ValidatorStakeInfo>|
                spec_list_parses_to(bytes, h, vs) ==> h == header && vs == validators
        }),
{
    let k = validators.len();
    let m = header.max_validators as nat;
    let pad = zero_bytes((73 * (m - k)) as nat);
    lemma_pow256_facts();
    lemma_le_bytes_len(header.max_validators as nat, 4);
    lemma_le_bytes_len(k, 4);
    lemma_concat_records(validators);
    let bytes = spec_serialize_list(header, validators);
    assert(k as u32 == k);
    let head = seq![header.account_type.spec_tag()] + spec_u32_le(header.max_validators)
        + spec_u32_le(k as u32);
    assert(bytes == head + concat_records(validators) + pad);
    assert(bytes.len() == 9 + 73 * m) by (nonlinear_arith)
        requires
            bytes.len() == 9 + 73 * k + 73 * (m - k),
    ;
    assert(bytes.len() - 9 >= 73 * k) by (nonlinear_arith)
        requires
            bytes.len() == 9 + 73 * m,
            k <= m,
    ;
    assert(bytes.subrange(1, 5) =~= spec_u32_le(header.max_validators));
    assert(bytes.subrange(5, 9) =~= spec_u32_le(k as u32));
    lemma_le_round_trip(header.max_validators as nat, 4);
    lemma_le_round_trip(k, 4);
    assert(spec_record_count(bytes) == k);
    match header.account_type {
        AccountType::Uninitialized => {},
        AccountType::StakePool => {},
        AccountType::ValidatorList => {},
    }
    assert(AccountType::spec_from_tag(bytes[0]) == Some(header.account_type));
    assert forall|i: int| 0 <= i < k implies spec_encode_record(#[trigger] validators[i])
        == record_chunk(bytes, i) by {
        assert(record_chunk(bytes, i) =~= concat_records(validators).subrange(73 * i, 73 * i + 73));
        assert(StakeStatus::spec_from_byte(validators[i].status.spec_as_byte()) is Some);
    }
    assert forall|i: int| 0 <= i < spec_record_count(bytes) implies spec_record_bytes_ok(
        #[trigger] record_chunk(bytes, i),
    ) by {
        lemma_record_fields(validators[i]);
        assert(spec_encode_record(validators[i]) == record_chunk(bytes, i));
        assert(StakeStatus::spec_from_byte(validators[i].status.spec_as_byte()) is Some);
    }
    assert forall|h: ValidatorListHeader, vs: Seq<ValidatorStakeInfo>|
        spec_list_parses_to(bytes, h, vs) implies h == header && vs == validators by {
        assert(vs.len() == k);
        assert forall|i: int| 0 <= i < k implies vs[i] == validators[i] by {
            assert(spec_encode_record(vs[i]) == record_chunk(bytes, i));
            assert(spec_encode_record(validators[i]) == record_chunk(bytes, i));
            lemma_record_injective(vs[i], validators[i]);
        }
        assert(vs =~= validators);
        match h.account_type {
            AccountType::Uninitialized => {},
            AccountType::StakePool => {},
            AccountType::ValidatorList => {},
        }
    }
}

} // verus!
