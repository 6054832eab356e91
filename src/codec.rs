use vstd::prelude::*;

verus! {

pub open spec fn pow256(n: nat) -> nat
    decreases n,
{
    if n == 0 {
        1
    } else {
        256 * pow256((n - 1) as nat)
    }
}

/// The `n` little-endian bytes of `x` (higher bytes dropped).
pub open spec fn le_bytes(x: nat, n: nat) -> Seq<u8>
    decreases n,
{
    if n == 0 {
        Seq::empty()
    } else {
        seq![(x % 256) as u8] + le_bytes(x / 256, (n - 1) as nat)
    }
}

/// The number that little-endian bytes `s` spell.
pub open spec fn le_value(s: Seq<u8>) -> nat
    decreases s.len(),
{
    if s.len() == 0 {
        0
    } else {
        s[0] as nat + 256 * le_value(s.drop_first())
    }
}

pub open spec fn spec_u64_le(x: u64) -> Seq<u8> {
    le_bytes(x as nat, 8)
}

pub open spec fn spec_u32_le(x: u32) -> Seq<u8> {
    le_bytes(x as nat, 4)
}

/// Two's complement, little-endian.
pub open spec fn spec_i64_le(x: i64) -> Seq<u8> {
    le_bytes(
        if x >= 0 {
            x as nat
        } else {
            (x + 0x1_0000_0000_0000_0000) as nat
        },
        8,
    )
}

pub proof fn lemma_le_bytes_len(x: nat, n: nat)
    ensures
        le_bytes(x, n).len() == n,
    decreases n,
{
    if n > 0 {
        lemma_le_bytes_len(x / 256, (n - 1) as nat);
    }
}

pub proof fn lemma_le_value_bound(s: Seq<u8>)
    ensures
        le_value(s) < pow256(s.len()),
    decreases s.len(),
{
    if s.len() > 0 {
        lemma_le_value_bound(s.drop_first());
        let v = le_value(s.drop_first());
        let p = pow256(s.drop_first().len());
        assert(s[0] as nat + 256 * v < 256 * p) by (nonlinear_arith)
            requires
                v < p,
                s[0] < 256,
        ;
    }
}

/// Little-endian bytes read back give the number, when it fits.
pub proof fn lemma_le_round_trip(x: nat, n: nat)
    requires
        x < pow256(n),
    ensures
        le_value(le_bytes(x, n)) == x,
    decreases n,
{
    if n > 0 {
        let q = x / 256;
        assert(q < pow256((n - 1) as nat)) by (nonlinear_arith)
            requires
                x < 256 * pow256((n - 1) as nat),
                q == x / 256,
        ;
        lemma_le_round_trip(q, (n - 1) as nat);
        let s = le_bytes(x, n);
        assert(s.drop_first() =~= le_bytes(q, (n - 1) as nat));
        assert(x == (x % 256) + 256 * q) by (nonlinear_arith)
            requires
                q == x / 256,
        ;
    }
}

/// Bytes spell the number that, re-encoded, gives them back.
pub proof fn lemma_le_value_bytes(s: Seq<u8>)
    ensures
        le_bytes(le_value(s), s.len()) == s,
    decreases s.len(),
{
    if s.len() > 0 {
        let v = le_value(s.drop_first());
        lemma_le_value_bytes(s.drop_first());
        let x = le_value(s);
        assert(x % 256 == s[0] as nat && x / 256 == v) by (nonlinear_arith)
            requires
                x == s[0] as nat + 256 * v,
                s[0] < 256,
        ;
        assert(le_bytes(x, s.len()) =~= s);
    }
}

pub proof fn lemma_pow256_facts()
    ensures
        pow256(1) == 0x100,
        pow256(4) == 0x1_0000_0000,
        pow256(8) == 0x1_0000_0000_0000_0000,
{
    reveal_with_fuel(pow256, 9);
}

pub fn u64_to_le_bytes(x: u64) -> (r: [u8; 8])
    ensures
        r@ == spec_u64_le(x),
{
    let v1 = x / 256;
    let v2 = v1 / 256;
    let v3 = v2 / 256;
    let v4 = v3 / 256;
    let v5 = v4 / 256;
    let v6 = v5 / 256;
    let v7 = v6 / 256;
    let r = [
        (x % 256) as u8,
        (v1 % 256) as u8,
        (v2 % 256) as u8,
        (v3 % 256) as u8,
        (v4 % 256) as u8,
        (v5 % 256) as u8,
        (v6 % 256) as u8,
        (v7 % 256) as u8,
    ];
    proof {
        reveal_with_fuel(le_bytes, 9);
        assert(r@ =~= spec_u64_le(x));
    }
    r
}

pub fn u32_to_le_bytes(x: u32) -> (r: [u8; 4])
    ensures
        r@ == spec_u32_le(x),
{
    let v1 = x / 256;
    let v2 = v1 / 256;
    let v3 = v2 / 256;
    let r = [(x % 256) as u8, (v1 % 256) as u8, (v2 % 256) as u8, (v3 % 256) as u8];
    proof {
        reveal_with_fuel(le_bytes, 5);
        assert(r@ =~= spec_u32_le(x));
    }
    r
}

/// The number spelled by the `n <= 8` little-endian bytes at `pos`.
pub fn read_le(data: &[u8], pos: usize, n: usize) -> (r: u64)
    requires
        n <= 8,
        pos + n <= data@.len(),
    ensures
        r as nat == le_value(data@.subrange(pos as int, pos + n)),
{
    let ghost s = data@.subrange(pos as int, pos + n);
    let len = data.len();
    let mut acc: u64 = 0;
    let mut i: usize = n;
    proof {
        assert(s.subrange(n as int, n as int) =~= Seq::<u8>::empty());
    }
    while i > 0
        invariant
            0 <= i <= n <= 8,
            pos + n <= data@.len(),
            len == data@.len(),
            s == data@.subrange(pos as int, pos + n),
            acc as nat == le_value(s.subrange(i as int, n as int)),
            acc < pow256((n - i) as nat),
        decreases i,
    {
        let b = data[pos + i - 1];
        proof {
            let p = pow256((n - i) as nat);
            assert(pow256((n - i + 1) as nat) == 256 * p);
            assert(pow256((n - i + 1) as nat) <= pow256(8)) by {
                lemma_pow256_monotone((n - i + 1) as nat, 8);
            }
            lemma_pow256_facts();
            assert(acc * 256 + b < 256 * p) by (nonlinear_arith)
                requires
                    acc < p,
                    b < 256,
            ;
            assert(s.subrange(i - 1, n as int).drop_first() =~= s.subrange(i as int, n as int));
            assert(s[i - 1] == b);
        }
        acc = acc * 256 + b as u64;
        i -= 1;
    }
    proof {
        assert(s.subrange(0, n as int) =~= s);
    }
    acc
}

pub proof fn lemma_pow256_monotone(a: nat, b: nat)
    requires
        a <= b,
    ensures
        pow256(a) <= pow256(b),
    decreases b,
{
    if a < b {
        lemma_pow256_monotone(a, (b - 1) as nat);
    }
}

pub fn read_u64_le(data: &[u8], pos: usize) -> (r: u64)
    requires
        pos + 8 <= data@.len(),
    ensures
        r as nat == le_value(data@.subrange(pos as int, pos + 8)),
{
    read_le(data, pos, 8)
}

pub fn read_u32_le(data: &[u8], pos: usize) -> (r: u32)
    requires
        pos + 4 <= data@.len(),
    ensures
        r as nat == le_value(data@.subrange(pos as int, pos + 4)),
{
    let v = read_le(data, pos, 4);
    proof {
        lemma_le_value_bound(data@.subrange(pos as int, pos + 4));
        lemma_pow256_facts();
    }
    v as u32
}

/// The two's complement number that 8 little-endian bytes spell.
pub open spec fn spec_i64_from_le(s: Seq<u8>) -> i64 {
    if le_value(s) <= 0x7fff_ffff_ffff_ffff {
        le_value(s) as i64
    } else {
        (le_value(s) - 0x1_0000_0000_0000_0000) as i64
    }
}

pub proof fn lemma_i64_round_trip(x: i64)
    ensures
        spec_i64_le(x).len() == 8,
        spec_i64_from_le(spec_i64_le(x)) == x,
{
    lemma_pow256_facts();
    let u: nat = if x >= 0 {
        x as nat
    } else {
        (x + 0x1_0000_0000_0000_0000) as nat
    };
    lemma_le_bytes_len(u, 8);
    lemma_le_round_trip(u, 8);
}

pub fn read_i64_le(data: &[u8], pos: usize) -> (r: i64)
    requires
        pos + 8 <= data@.len(),
    ensures
        spec_i64_le(r) == data@.subrange(pos as int, pos + 8),
        r == spec_i64_from_le(data@.subrange(pos as int, pos + 8)),
{
    let u = read_le(data, pos, 8);
    proof {
        lemma_le_value_bytes(data@.subrange(pos as int, pos + 8));
    }
    if u <= 0x7fff_ffff_ffff_ffff {
        u as i64
    } else {
        ((u as i128) - 0x1_0000_0000_0000_0000i128) as i64
    }
}

/// Appends `bytes` to `out`.
pub fn extend_from(out: &mut Vec<u8>, bytes: &[u8])
    ensures
        final(out)@ == old(out)@ + bytes@,
{
    let ghost before = old(out)@;
    let mut k: usize = 0;
    while k < bytes.len()
        invariant
            0 <= k <= bytes@.len(),
            out@ == before + bytes@.take(k as int),
        decreases bytes.len() - k,
    {
        out.push(bytes[k]);
        k += 1;
        proof {
            assert(out@ =~= before + bytes@.take(k as int));
        }
    }
    proof {
        assert(bytes@.take(k as int) =~= bytes@);
    }
}

pub fn push_u64_le(out: &mut Vec<u8>, x: u64)
    ensures
        final(out)@ == old(out)@ + spec_u64_le(x),
{
    let b = u64_to_le_bytes(x);
    extend_from(out, b.as_slice());
}

pub fn push_u32_le(out: &mut Vec<u8>, x: u32)
    ensures
        final(out)@ == old(out)@ + spec_u32_le(x),
{
    let b = u32_to_le_bytes(x);
    extend_from(out, b.as_slice());
}

pub fn push_i64_le(out: &mut Vec<u8>, x: i64)
    ensures
        final(out)@ == old(out)@ + spec_i64_le(x),
{
    let u: u64 = if x >= 0 {
        x as u64
    } else {
        ((x as i128) + 0x1_0000_0000_0000_0000i128) as u64
    };
    push_u64_le(out, u);
}

} // verus!
