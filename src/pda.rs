use vstd::prelude::*;

use ed25519_compact::{PublicKey, Signature};

use crate::codec::{spec_u32_le, spec_u64_le, u32_to_le_bytes, u64_to_le_bytes};

verus! {

/// A seed that may be left out of an address derivation.
#[derive(Debug, Clone, Copy, PartialEq, Eq, Hash)]
pub enum OptionalSeed<S> {
    Absent,
    Present(S),
}

impl OptionalSeed<[u8; 4]> {
    pub open spec fn spec_bytes(self) -> Seq<u8> {
        match self {
            OptionalSeed::Absent => Seq::empty(),
            OptionalSeed::Present(s) => s@,
        }
    }

    /// The seed's bytes, empty when absent.
    pub fn as_slice(&self) -> (r: &[u8])
        ensures
            r@ == self.spec_bytes(),
    {
        match self {
            OptionalSeed::Absent => {
                let empty: &[u8] = &[];
                proof {
                    assert(empty@ =~= Seq::<u8>::empty());
                }
                empty
            },
            OptionalSeed::Present(s) => s.as_slice(),
        }
    }
}

pub const AUTHORITY_WITHDRAW_SEED: [u8; 8] = [119, 105, 116, 104, 100, 114, 97, 119];

pub const AUTHORITY_DEPOSIT_SEED: [u8; 7] = [100, 101, 112, 111, 115, 105, 116];

pub const TRANSIENT_SEED: [u8; 9] = [116, 114, 97, 110, 115, 105, 101, 110, 116];

pub const EPHEMERAL_SEED: [u8; 9] = [101, 112, 104, 101, 109, 101, 114, 97, 108];

/// Seeds of the pool's withdraw authority: the pool address, then `withdraw`.
pub fn withdraw_auth_seeds(stake_pool: &[u8; 32]) -> (r: (&[u8; 32], &'static [u8; 8]))
    ensures
        *r.0 == *stake_pool,
        *r.1 == AUTHORITY_WITHDRAW_SEED,
{
    (stake_pool, &AUTHORITY_WITHDRAW_SEED)
}

/// Seeds of the pool's deposit authority: the pool address, then `deposit`.
pub fn deposit_auth_seeds(stake_pool: &[u8; 32]) -> (r: (&[u8; 32], &'static [u8; 7]))
    ensures
        *r.0 == *stake_pool,
        *r.1 == AUTHORITY_DEPOSIT_SEED,
{
    (stake_pool, &AUTHORITY_DEPOSIT_SEED)
}

/// Seeds of a validator stake account: vote account, pool, and the
/// validator seed suffix in little-endian bytes unless it is absent or zero.
pub fn validator_stake_seeds<'a>(
    vote_account: &'a [u8; 32],
    stake_pool: &'a [u8; 32],
    seed: Option<u32>,
) -> (r: (&'a [u8; 32], &'a [u8; 32], OptionalSeed<[u8; 4]>))
    ensures
        *r.0 == *vote_account,
        *r.1 == *stake_pool,
        r.2.spec_bytes() == (match seed {
            Some(s) => if s != 0 {
                spec_u32_le(s)
            } else {
                Seq::empty()
            },
            None => Seq::empty(),
        }),
{
    match seed {
        Some(s) => if s != 0 {
            (vote_account, stake_pool, OptionalSeed::Present(u32_to_le_bytes(s)))
        } else {
            (vote_account, stake_pool, OptionalSeed::Absent)
        },
        None => (vote_account, stake_pool, OptionalSeed::Absent),
    }
}

/// Seeds of a transient stake account: `transient`, vote account, pool, and
/// the transient seed suffix in little-endian bytes.
pub fn transient_stake_seeds<'a>(
    vote_account: &'a [u8; 32],
    stake_pool: &'a [u8; 32],
    seed: u64,
) -> (r: (&'static [u8; 9], &'a [u8; 32], &'a [u8; 32], [u8; 8]))
    ensures
        *r.0 == TRANSIENT_SEED,
        *r.1 == *vote_account,
        *r.2 == *stake_pool,
        r.3@ == spec_u64_le(seed),
{
    (&TRANSIENT_SEED, vote_account, stake_pool, u64_to_le_bytes(seed))
}

/// Seeds of the pool's ephemeral stake account: `ephemeral`, pool, and eight
/// zero bytes.
pub fn ephemeral_stake_seeds(stake_pool: &[u8; 32]) -> (r: (&'static [u8; 9], &[u8; 32], [u8; 8]))
    ensures
        *r.0 == EPHEMERAL_SEED,
        *r.1 == *stake_pool,
        r.2@ == spec_u64_le(0),
{
    (&EPHEMERAL_SEED, stake_pool, u64_to_le_bytes(0))
}

/// Maximum length of a single seed.
pub const MAX_SEED_LEN: usize = 32;

/// Maximum number of seeds, the bump seed included.
pub const MAX_SEEDS: usize = 16;

/// `ProgramDerivedAddress`, hashed after the seeds and the program id.
pub const PDA_MARKER: [u8; 21] = [
    80, 114, 111, 103, 114, 97, 109, 68, 101, 114, 105, 118, 101, 100, 65, 100, 100, 114, 101, 115,
    115,
];

/// What starting an ed25519 signature check said of a public key.
#[derive(Debug, Clone, Copy, PartialEq, Eq, Structural)]
pub enum KeyCheck {
    /// The key decoded to a usable curve point.
    Accepted,
    /// The key is a point of small order.
    WeakKey,
    /// The bytes are not a point of the curve.
    InvalidKey,
    /// The check failed for another reason.
    OtherFailure,
}

/// The SHA-256 digest of `data`.
pub uninterp spec fn sha256_of(data: Seq<u8>) -> Seq<u8>;

/// What `ed25519_compact` reports when it starts verifying signature `sig`
/// against public key `pk`.
pub uninterp spec fn ed25519_key_check_of(pk: Seq<u8>, sig: Seq<u8>) -> KeyCheck;

/// Relies on `hmac_sha256::Hash::hash`: the SHA-256 digest, a function of
/// the input bytes alone.
#[verifier::external_body]
fn sha256(data: &[u8]) -> (r: [u8; 32])
    ensures
        r@ == sha256_of(data@),
{
    hmac_sha256::Hash::hash(data)
}

/// Relies on `ed25519_compact::PublicKey::verify_incremental`, which decodes
/// the key (and the signature's parts) before any message is read; its
/// outcome is a function of the key and signature bytes alone.
#[verifier::external_body]
fn ed25519_key_check(pk: [u8; 32], sig: [u8; 64]) -> (r: KeyCheck)
    ensures
        r == ed25519_key_check_of(pk@, sig@),
{
    match PublicKey::new(pk).verify_incremental(&Signature::new(sig)) {
        Ok(_) => KeyCheck::Accepted,
        Err(ed25519_compact::Error::WeakPublicKey) => KeyCheck::WeakKey,
        Err(ed25519_compact::Error::InvalidPublicKey) => KeyCheck::InvalidKey,
        Err(_) => KeyCheck::OtherFailure,
    }
}

/// The seeds concatenated in order.
pub open spec fn concat_seeds(seeds: Seq<Seq<u8>>) -> Seq<u8>
    decreases seeds.len(),
{
    if seeds.len() == 0 {
        Seq::empty()
    } else {
        concat_seeds(seeds.drop_last()) + seeds.last()
    }
}

pub open spec fn seeds_view(seeds: Seq<&[u8]>) -> Seq<Seq<u8>> {
    seeds.map_values(|s: &[u8]| s@)
}

/// At most `MAX_SEEDS` seeds, none longer than `MAX_SEED_LEN`.
pub open spec fn seeds_within_limits(seeds: Seq<Seq<u8>>) -> bool {
    seeds.len() <= MAX_SEEDS && forall|i: int| 0 <= i < seeds.len() ==> seeds[i].len() <= MAX_SEED_LEN
}

pub open spec fn zero_signature() -> Seq<u8> {
    Seq::new(64, |i: int| 0u8)
}

/// The hash `create_pda` tests: seeds, then program id, then the marker.
pub open spec fn pda_hash_input(seeds: Seq<Seq<u8>>, program_id: Seq<u8>) -> Seq<u8> {
    concat_seeds(seeds) + program_id + PDA_MARKER@
}

/// The address for exactly these seeds: their hash, provided the seeds are
/// within limits and the hash is not a point of the curve (a weak key counts
/// as on the curve).
pub open spec fn spec_create_pda(seeds: Seq<Seq<u8>>, program_id: Seq<u8>) -> Option<Seq<u8>> {
    if !seeds_within_limits(seeds) {
        None
    } else {
        let h = sha256_of(pda_hash_input(seeds, program_id));
        if ed25519_key_check_of(h, zero_signature()) == KeyCheck::InvalidKey {
            Some(h)
        } else {
            None
        }
    }
}

/// The first bump from `bump` down to 1 whose address exists.
pub open spec fn spec_find_pda_from(seeds: Seq<Seq<u8>>, program_id: Seq<u8>, bump: int) -> Option<
    (Seq<u8>, u8),
>
    decreases bump,
{
    if bump < 1 {
        None
    } else {
        match spec_create_pda(seeds.push(seq![bump as u8]), program_id) {
            Some(h) => Some((h, bump as u8)),
            None => spec_find_pda_from(seeds, program_id, bump - 1),
        }
    }
}

pub open spec fn spec_find_pda(seeds: Seq<Seq<u8>>, program_id: Seq<u8>) -> Option<(Seq<u8>, u8)> {
    spec_find_pda_from(seeds, program_id, 255)
}

/// The program-derived address of `seeds` (the bump seed, if any, already
/// among them) under `program_id`; `None` when the seeds break the limits or
/// their hash lies on the curve.
pub fn create_pda(seeds: &[&[u8]], program_id: &[u8; 32]) -> (r: Option<[u8; 32]>)
    ensures
        r is Some <==> spec_create_pda(seeds_view(seeds@), program_id@) is Some,
        r matches Some(h) ==> h@ == spec_create_pda(seeds_view(seeds@), program_id@).unwrap(),
{
    let ghost sv = seeds_view(seeds@);
    if seeds.len() > MAX_SEEDS {
        proof {
            assert(sv.len() == seeds@.len());
        }
        return None;
    }
    let mut input: Vec<u8> = Vec::new();
    let mut i: usize = 0;
    while i < seeds.len()
        invariant
            0 <= i <= seeds@.len(),
            sv == seeds_view(seeds@),
            seeds@.len() <= MAX_SEEDS,
            forall|j: int| 0 <= j < i ==> sv[j].len() <= MAX_SEED_LEN,
            input@ == concat_seeds(sv.take(i as int)),
        decreases seeds.len() - i,
    {
        let seed: &[u8] = seeds[i];
        proof {
            assert(sv[i as int] == seed@);
        }
        if seed.len() > MAX_SEED_LEN {
            return None;
        }
        let mut k: usize = 0;
        let ghost before = input@;
        while k < seed.len()
            invariant
                0 <= k <= seed@.len(),
                input@ == before + seed@.take(k as int),
            decreases seed.len() - k,
        {
            input.push(seed[k]);
            k += 1;
            proof {
                assert(input@ =~= before + seed@.take(k as int));
            }
        }
        proof {
            assert(seed@.take(k as int) =~= seed@);
            assert(sv.take(i + 1).drop_last() =~= sv.take(i as int));
            assert(sv[i as int] == seed@);
        }
        i += 1;
    }
    proof {
        assert(sv.take(i as int) =~= sv);
        assert(seeds_within_limits(sv));
    }
    let ghost before = input@;
    let mut k: usize = 0;
    while k < 32
        invariant
            0 <= k <= 32,
            program_id@.len() == 32,
            input@ == before + program_id@.take(k as int),
        decreases 32 - k,
    {
        input.push(program_id[k]);
        k += 1;
        proof {
            assert(input@ =~= before + program_id@.take(k as int));
        }
    }
    let ghost before2 = input@;
    let mut k: usize = 0;
    while k < 21
        invariant
            0 <= k <= 21,
            PDA_MARKER@.len() == 21,
            input@ == before2 + PDA_MARKER@.take(k as int),
        decreases 21 - k,
    {
        input.push(PDA_MARKER[k]);
        k += 1;
        proof {
            assert(input@ =~= before2 + PDA_MARKER@.take(k as int));
        }
    }
    proof {
        assert(program_id@.take(32) =~= program_id@);
        assert(PDA_MARKER@.take(21) =~= PDA_MARKER@);
        assert(input@ =~= pda_hash_input(sv, program_id@));
    }
    let hash = sha256(input.as_slice());
    let sig: [u8; 64] = [0u8; 64];
    proof {
        assert(sig@ =~= zero_signature());
    }
    match ed25519_key_check(hash, sig) {
        KeyCheck::InvalidKey => Some(hash),
        _ => None,
    }
}

/// Searches bumps from 255 down to 1 and returns the first whose address
/// (the seeds, then the bump byte) lies off the curve, with that bump.
/// `None` when no bump works or the seeds break the limits.
pub fn find_pda(seeds: &[&[u8]], program_id: &[u8; 32]) -> (r: Option<([u8; 32], u8)>)
    ensures
        r is Some <==> spec_find_pda(seeds_view(seeds@), program_id@) is Some,
        r matches Some(found) ==> found.0@ == spec_find_pda(
            seeds_view(seeds@),
            program_id@,
        ).unwrap().0 && found.1 == spec_find_pda(seeds_view(seeds@), program_id@).unwrap().1,
{
    let ghost sv = seeds_view(seeds@);
    let mut bump: u8 = 255;
    while bump >= 1
        invariant
            sv == seeds_view(seeds@),
            spec_find_pda(sv, program_id@) == spec_find_pda_from(sv, program_id@, bump as int),
        decreases bump,
    {
        let bump_arr: [u8; 1] = [bump];
        let mut all: Vec<&[u8]> = Vec::new();
        let mut i: usize = 0;
        while i < seeds.len()
            invariant
                0 <= i <= seeds@.len(),
                all@ == seeds@.take(i as int),
            decreases seeds.len() - i,
        {
            all.push(seeds[i]);
            i += 1;
            proof {
                assert(all@ =~= seeds@.take(i as int));
            }
        }
        let bump_slice: &[u8] = bump_arr.as_slice();
        all.push(bump_slice);
        proof {
            assert(seeds@.take(i as int) =~= seeds@);
            assert(bump_slice@ =~= seq![bump]);
            assert(seeds_view(all@) =~= sv.push(seq![bump]));
        }
        if let Some(pda) = create_pda(all.as_slice(), program_id) {
            return Some((pda, bump));
        }
        bump -= 1;
    }
    None
}

/// The withdraw authority of `stake_pool` and its bump.
pub fn find_withdraw_auth_pda_internal(program_id: &[u8; 32], stake_pool_addr: &[u8; 32]) -> (r:
    Option<([u8; 32], u8)>)
    ensures
        r is Some <==> spec_find_pda(seq![stake_pool_addr@, AUTHORITY_WITHDRAW_SEED@], program_id@) is Some,
        r matches Some(found) ==> (found.0@, found.1) == spec_find_pda(
            seq![stake_pool_addr@, AUTHORITY_WITHDRAW_SEED@],
            program_id@,
        ).unwrap(),
{
    let (s1, s2) = withdraw_auth_seeds(stake_pool_addr);
    let seeds: [&[u8]; 2] = [s1.as_slice(), s2.as_slice()];
    proof {
        assert(seeds_view(seeds@) =~= seq![stake_pool_addr@, AUTHORITY_WITHDRAW_SEED@]);
    }
    find_pda(seeds.as_slice(), program_id)
}

/// The default deposit authority of `stake_pool` and its bump.
pub fn find_deposit_auth_pda_internal(program_id: &[u8; 32], stake_pool_addr: &[u8; 32]) -> (r:
    Option<([u8; 32], u8)>)
    ensures
        r is Some <==> spec_find_pda(seq![stake_pool_addr@, AUTHORITY_DEPOSIT_SEED@], program_id@) is Some,
        r matches Some(found) ==> (found.0@, found.1) == spec_find_pda(
            seq![stake_pool_addr@, AUTHORITY_DEPOSIT_SEED@],
            program_id@,
        ).unwrap(),
{
    let (s1, s2) = deposit_auth_seeds(stake_pool_addr);
    let seeds: [&[u8]; 2] = [s1.as_slice(), s2.as_slice()];
    proof {
        assert(seeds_view(seeds@) =~= seq![stake_pool_addr@, AUTHORITY_DEPOSIT_SEED@]);
    }
    find_pda(seeds.as_slice(), program_id)
}

/// The seeds of a validator stake account, as byte strings.
pub open spec fn spec_validator_stake_seeds(vote: Seq<u8>, pool: Seq<u8>, seed: Option<u32>) -> Seq<
    Seq<u8>,
> {
    seq![
        vote,
        pool,
        match seed {
            Some(s) => if s != 0 {
                spec_u32_le(s)
            } else {
                Seq::empty()
            },
            None => Seq::empty(),
        },
    ]
}

/// The stake account of the validator voting with `vote_account_addr`.
pub fn find_validator_stake_account_pda_internal(
    program_id: &[u8; 32],
    vote_account_addr: &[u8; 32],
    stake_pool_addr: &[u8; 32],
    seed: Option<u32>,
) -> (r: Option<([u8; 32], u8)>)
    ensures
        r is Some <==> spec_find_pda(
            spec_validator_stake_seeds(vote_account_addr@, stake_pool_addr@, seed),
            program_id@,
        ) is Some,
        r matches Some(found) ==> (found.0@, found.1) == spec_find_pda(
            spec_validator_stake_seeds(vote_account_addr@, stake_pool_addr@, seed),
            program_id@,
        ).unwrap(),
{
    let (s1, s2, s3) = validator_stake_seeds(vote_account_addr, stake_pool_addr, seed);
    let seeds: [&[u8]; 3] = [s1.as_slice(), s2.as_slice(), s3.as_slice()];
    proof {
        assert(seeds_view(seeds@) =~= spec_validator_stake_seeds(
            vote_account_addr@,
            stake_pool_addr@,
            seed,
        ));
    }
    find_pda(seeds.as_slice(), program_id)
}

/// The transient stake account of the validator voting with
/// `vote_account_addr`, for transient seed `seed`.
pub fn find_transient_stake_account_pda_internal(
    program_id: &[u8; 32],
    vote_account_addr: &[u8; 32],
    stake_pool_addr: &[u8; 32],
    seed: u64,
) -> (r: Option<([u8; 32], u8)>)
    ensures
        r is Some <==> spec_find_pda(
            seq![TRANSIENT_SEED@, vote_account_addr@, stake_pool_addr@, spec_u64_le(seed)],
            program_id@,
        ) is Some,
        r matches Some(found) ==> (found.0@, found.1) == spec_find_pda(
            seq![TRANSIENT_SEED@, vote_account_addr@, stake_pool_addr@, spec_u64_le(seed)],
            program_id@,
        ).unwrap(),
{
    let (s1, s2, s3, s4) = transient_stake_seeds(vote_account_addr, stake_pool_addr, seed);
    let seeds: [&[u8]; 4] = [s1.as_slice(), s2.as_slice(), s3.as_slice(), s4.as_slice()];
    proof {
        assert(seeds_view(seeds@) =~= seq![
            TRANSIENT_SEED@,
            vote_account_addr@,
            stake_pool_addr@,
            spec_u64_le(seed),
        ]);
    }
    find_pda(seeds.as_slice(), program_id)
}

/// The pool's ephemeral stake account.
pub fn find_ephemeral_stake_account_pda_internal(program_id: &[u8; 32], stake_pool_addr: &[u8; 32]) -> (r:
    Option<([u8; 32], u8)>)
    ensures
        r is Some <==> spec_find_pda(
            seq![EPHEMERAL_SEED@, stake_pool_addr@, spec_u64_le(0)],
            program_id@,
        ) is Some,
        r matches Some(found) ==> (found.0@, found.1) == spec_find_pda(
            seq![EPHEMERAL_SEED@, stake_pool_addr@, spec_u64_le(0)],
            program_id@,
        ).unwrap(),
{
    let (s1, s2, s3) = ephemeral_stake_seeds(stake_pool_addr);
    let seeds: [&[u8]; 3] = [s1.as_slice(), s2.as_slice(), s3.as_slice()];
    proof {
        assert(seeds_view(seeds@) =~= seq![EPHEMERAL_SEED@, stake_pool_addr@, spec_u64_le(0)]);
    }
    find_pda(seeds.as_slice(), program_id)
}

} // verus!
