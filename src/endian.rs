//! Byte-order forms of 256-bit integers.

use crate::did::{limb_base, limbs_value, zero_bytes, U256, U64};
use vstd::arithmetic::div_mod::{lemma_div_denominator, lemma_mod_breakdown};
use vstd::prelude::*;

verus! {

/// 256 to the power `n`.
pub open spec fn byte_power(n: nat) -> nat
    decreases n,
{
    if n == 0 {
        1
    } else {
        256 * byte_power((n - 1) as nat)
    }
}

/// Value of bytes, least significant first.
pub open spec fn le_value(b: Seq<u8>) -> nat
    decreases b.len(),
{
    if b.len() == 0 {
        0
    } else {
        b[0] as nat + 256 * le_value(b.drop_first())
    }
}

/// Value of bytes, most significant first.
pub open spec fn be_value(b: Seq<u8>) -> nat {
    le_value(b.reverse())
}

/// The `n` low bytes of `x`, least significant first.
pub open spec fn low_bytes(x: nat, n: nat) -> Seq<u8> {
    Seq::new(n, |i: int| ((x / byte_power(i as nat)) % 256) as u8)
}

proof fn lemma_byte_power_positive(n: nat)
    ensures
        byte_power(n) >= 1,
    decreases n,
{
    if n > 0 {
        lemma_byte_power_positive((n - 1) as nat);
    }
}

proof fn lemma_byte_power_eight()
    ensures
        byte_power(8) == limb_base(),
{
    reveal_with_fuel(byte_power, 9);
}

proof fn lemma_low_bytes(x: nat, n: nat)
    ensures
        le_value(low_bytes(x, n)) == x % byte_power(n),
    decreases n,
{
    if n > 0 {
        let p = byte_power((n - 1) as nat);
        lemma_byte_power_positive((n - 1) as nat);
        lemma_low_bytes(x / 256, (n - 1) as nat);
        assert forall|i: int| 0 <= i < n - 1 implies #[trigger] low_bytes(x, n).drop_first()[i]
            == low_bytes(x / 256, (n - 1) as nat)[i] by {
            lemma_byte_power_positive(i as nat);
            lemma_div_denominator(x as int, 256, byte_power(i as nat) as int);
        }
        assert(low_bytes(x, n).drop_first() =~= low_bytes(x / 256, (n - 1) as nat));
        assert(byte_power(0) == 1);
        assert(x / 1 == x);
        assert(low_bytes(x, n)[0] as nat == x % 256);
        assert(le_value(low_bytes(x, n)) == x % 256 + 256 * le_value(low_bytes(x / 256, (n - 1) as nat)));
        lemma_mod_breakdown(x as int, 256, p as int);
        assert(byte_power(n) == 256 * p);
    }
}

proof fn lemma_le_value_concat(s: Seq<u8>, t: Seq<u8>)
    ensures
        le_value(s + t) == le_value(s) + byte_power(s.len()) * le_value(t),
    decreases s.len(),
{
    if s.len() == 0 {
        assert(s + t =~= t);
    } else {
        let p = byte_power((s.len() - 1) as nat);
        lemma_le_value_concat(s.drop_first(), t);
        assert((s + t).drop_first() =~= s.drop_first() + t);
        assert((s + t)[0] == s[0]);
        assert(le_value(s + t) == (s + t)[0] as nat + 256 * le_value((s + t).drop_first()));
        assert(byte_power(s.len()) == 256 * p);
        let (a, c) = (le_value(s.drop_first()), le_value(t));
        assert(256 * (a + p * c) == 256 * a + (256 * p) * c) by (nonlinear_arith);
    }
}

proof fn lemma_le_value_bound(s: Seq<u8>)
    ensures
        le_value(s) < byte_power(s.len()),
    decreases s.len(),
{
    if s.len() > 0 {
        lemma_le_value_bound(s.drop_first());
        let (v, p) = (le_value(s.drop_first()), byte_power((s.len() - 1) as nat));
        assert(s[0] as nat + 256 * v < 256 * p) by (nonlinear_arith)
            requires
                s[0] < 256,
                v < p,
        ;
    }
}

proof fn lemma_le_value_zeros(n: nat)
    ensures
        le_value(zero_bytes(n)) == 0,
    decreases n,
{
    if n > 0 {
        lemma_le_value_zeros((n - 1) as nat);
        assert(zero_bytes(n).drop_first() =~= zero_bytes((n - 1) as nat));
    }
}

proof fn lemma_reverse_reverse(s: Seq<u8>)
    ensures
        s.reverse().reverse() == s,
        s.reverse().len() == s.len(),
{
    if s.len() > 0 {
        assert(s.reverse().reverse() =~= s);
    }
}

/// Appends the eight bytes of `x`, least significant first.
fn push_limb(out: &mut Vec<u8>, x: u64)
    ensures
        final(out)@ == old(out)@ + low_bytes(x as nat, 8),
{
    let ghost start = out@;
    assert(byte_power(0) == 1);
    assert(x as nat / 1 == x as nat);
    assert(out@ =~= start + low_bytes(x as nat, 0));
    let mut q: u64 = x;
    let mut k: usize = 0;
    while k < 8
        invariant
            k <= 8,
            q as nat == x as nat / byte_power(k as nat),
            out@ == start + low_bytes(x as nat, k as nat),
        decreases 8 - k,
    {
        proof {
            lemma_byte_power_positive(k as nat);
            lemma_div_denominator(x as int, byte_power(k as nat) as int, 256);
        }
        out.push((q % 256) as u8);
        q = q / 256;
        k = k + 1;
        assert(out@ =~= start + low_bytes(x as nat, k as nat));
    }
}

/// The value of eight bytes, least significant first.
fn read_limb(b: &Vec<u8>, start: usize) -> (r: u64)
    requires
        start + 8 <= b@.len(),
        b@.len() <= 32,
    ensures
        r as nat == le_value(b@.subrange(start as int, start + 8)),
{
    let mut x: u64 = 0;
    let mut k: usize = 8;
    while k > 0
        invariant
            k <= 8,
            start + 8 <= b@.len(),
            b@.len() <= 32,
            x as nat == le_value(b@.subrange(start + k, start + 8)),
        decreases k,
    {
        k = k - 1;
        proof {
            let s = b@.subrange(start + k, start + 8);
            assert(s.drop_first() =~= b@.subrange(start + k + 1, start + 8));
            assert(le_value(s) == s[0] as nat + 256 * le_value(s.drop_first()));
            assert(s[0] == b@[start + k]);
            lemma_le_value_bound(s);
            assert(byte_power((8 - k) as nat) <= byte_power(8)) by {
                lemma_byte_power_monotone((8 - k) as nat, 8);
            }
            lemma_byte_power_eight();
        }
        x = b[start + k] as u64 + 256 * x;
    }
    x
}

proof fn lemma_byte_power_monotone(m: nat, n: nat)
    requires
        m <= n,
    ensures
        byte_power(m) <= byte_power(n),
    decreases n,
{
    if m < n {
        lemma_byte_power_monotone(m, (n - 1) as nat);
        lemma_byte_power_positive((n - 1) as nat);
    }
}

/// `slice` followed by zeros up to `n` bytes.
fn pad_zeros(slice: &[u8], n: usize) -> (r: Vec<u8>)
    requires
        slice@.len() <= n,
    ensures
        r@ == slice@ + zero_bytes((n - slice@.len()) as nat),
{
    let mut r: Vec<u8> = Vec::new();
    let mut i: usize = 0;
    while i < n
        invariant
            i <= n,
            slice@.len() <= n,
            r@.len() == i,
            forall|j: int| 0 <= j < i ==> #[trigger] r@[j] == if j < slice@.len() {
                slice@[j]
            } else {
                0u8
            },
        decreases n - i,
    {
        if i < slice.len() {
            r.push(slice[i]);
        } else {
            r.push(0u8);
        }
        i = i + 1;
    }
    assert(r@ =~= slice@ + zero_bytes((n - slice@.len()) as nat));
    r
}

/// `b` in reverse order.
fn reversed(b: &[u8]) -> (r: Vec<u8>)
    ensures
        r@ == b@.reverse(),
{
    let mut r: Vec<u8> = Vec::new();
    let mut i: usize = b.len();
    while i > 0
        invariant
            i <= b@.len(),
            r@.len() == b@.len() - i,
            forall|j: int| 0 <= j < b@.len() - i ==> #[trigger] r@[j] == b@[b@.len() - 1 - j],
        decreases i,
    {
        i = i - 1;
        r.push(b[i]);
    }
    assert(r@ =~= b@.reverse());
    r
}

/// Little-endian bytes of four limbs in order are the limbs' value.
proof fn lemma_limbs_bytes(x: Seq<u64>)
    requires
        x.len() == 4,
    ensures
        le_value(
            low_bytes(x[0] as nat, 8) + low_bytes(x[1] as nat, 8) + low_bytes(x[2] as nat, 8)
                + low_bytes(x[3] as nat, 8),
        ) == limbs_value(x),
{
    let (b0, b1, b2, b3) = (
        low_bytes(x[0] as nat, 8),
        low_bytes(x[1] as nat, 8),
        low_bytes(x[2] as nat, 8),
        low_bytes(x[3] as nat, 8),
    );
    lemma_byte_power_eight();
    let b = limb_base();
    lemma_low_bytes(x[0] as nat, 8);
    lemma_low_bytes(x[1] as nat, 8);
    lemma_low_bytes(x[2] as nat, 8);
    lemma_low_bytes(x[3] as nat, 8);
    assert(b0 + b1 + b2 + b3 =~= b0 + (b1 + (b2 + b3)));
    lemma_le_value_concat(b2, b3);
    lemma_le_value_concat(b1, b2 + b3);
    lemma_le_value_concat(b0, b1 + (b2 + b3));
    let (v0, v1, v2, v3) = (x[0] as nat, x[1] as nat, x[2] as nat, x[3] as nat);
    assert(v0 + b * (v1 + b * (v2 + b * v3)) == v0 + v1 * b + v2 * (b * b) + v3 * (b * b * b))
        by (nonlinear_arith);
}

impl U256 {
    /// The 32 bytes of the value, least significant first.
    pub fn to_little_endian(&self) -> (r: Vec<u8>)
        ensures
            r@.len() == 32,
            le_value(r@) == self@,
    {
        let mut r: Vec<u8> = Vec::new();
        let l = self.0;
        push_limb(&mut r, l[0]);
        push_limb(&mut r, l[1]);
        push_limb(&mut r, l[2]);
        push_limb(&mut r, l[3]);
        proof {
            assert(r@ =~= Seq::<u8>::empty() + low_bytes(l[0] as nat, 8) + low_bytes(l[1] as nat, 8)
                + low_bytes(l[2] as nat, 8) + low_bytes(l[3] as nat, 8));
            assert(Seq::<u8>::empty() + low_bytes(l[0] as nat, 8) =~= low_bytes(l[0] as nat, 8));
            lemma_limbs_bytes(l@);
        }
        r
    }

    /// The 32 bytes of the value, most significant first.
    pub fn to_big_endian(&self) -> (r: Vec<u8>)
        ensures
            r@.len() == 32,
            be_value(r@) == self@,
    {
        let le = self.to_little_endian();
        let r = reversed(le.as_slice());
        proof {
            lemma_reverse_reverse(le@);
        }
        r
    }

    /// The value of at most 32 bytes, least significant first.
    pub fn from_little_endian(slice: &[u8]) -> (r: U256)
        requires
            slice@.len() <= 32,
        ensures
            r@ == le_value(slice@),
    {
        let b = pad_zeros(slice, 32);
        let r = U256([read_limb(&b, 0), read_limb(&b, 8), read_limb(&b, 16), read_limb(&b, 24)]);
        proof {
            let zeros = zero_bytes((32 - slice@.len()) as nat);
            lemma_le_value_zeros((32 - slice@.len()) as nat);
            lemma_le_value_concat(slice@, zeros);
            let (s0, s1, s2, s3) = (
                b@.subrange(0, 8),
                b@.subrange(8, 16),
                b@.subrange(16, 24),
                b@.subrange(24, 32),
            );
            assert(b@ =~= s0 + (s1 + (s2 + s3)));
            lemma_le_value_concat(s2, s3);
            lemma_le_value_concat(s1, s2 + s3);
            lemma_le_value_concat(s0, s1 + (s2 + s3));
            lemma_byte_power_eight();
            assert(r.0@[0] as nat == le_value(s0) && r.0@[1] as nat == le_value(s1) && r.0@[2] as nat
                == le_value(s2) && r.0@[3] as nat == le_value(s3));
            let bb = limb_base();
            let (v0, v1, v2, v3) = (le_value(s0), le_value(s1), le_value(s2), le_value(s3));
            assert(v0 + bb * (v1 + bb * (v2 + bb * v3)) == v0 + v1 * bb + v2 * (bb * bb) + v3 * (bb
                * bb * bb)) by (nonlinear_arith);
        }
        r
    }

    /// The value of at most 32 bytes, most significant first.
    pub fn from_big_endian(slice: &[u8]) -> (r: U256)
        requires
            slice@.len() <= 32,
        ensures
            r@ == be_value(slice@),
    {
        let le = reversed(slice);
        U256::from_little_endian(le.as_slice())
    }
}

impl U64 {
    /// The 8 bytes of the value, least significant first.
    pub fn to_little_endian(&self) -> (r: Vec<u8>)
        ensures
            r@.len() == 8,
            le_value(r@) == self@,
    {
        let mut r: Vec<u8> = Vec::new();
        push_limb(&mut r, self.0);
        proof {
            assert(r@ =~= low_bytes(self.0 as nat, 8));
            lemma_low_bytes(self.0 as nat, 8);
            lemma_byte_power_eight();
        }
        r
    }

    /// The 8 bytes of the value, most significant first.
    pub fn to_big_endian(&self) -> (r: Vec<u8>)
        ensures
            r@.len() == 8,
            be_value(r@) == self@,
    {
        let le = self.to_little_endian();
        let r = reversed(le.as_slice());
        proof {
            lemma_reverse_reverse(le@);
        }
        r
    }

    /// The value of at most 8 bytes, least significant first.
    pub fn from_little_endian(slice: &[u8]) -> (r: U64)
        requires
            slice@.len() <= 8,
        ensures
            r@ == le_value(slice@),
    {
        let b = pad_zeros(slice, 8);
        proof {
            lemma_le_value_zeros((8 - slice@.len()) as nat);
            lemma_le_value_concat(slice@, zero_bytes((8 - slice@.len()) as nat));
            assert(b@.subrange(0, 8) =~= b@);
        }
        U64(read_limb(&b, 0))
    }

    /// The value of at most 8 bytes, most significant first.
    pub fn from_big_endian(slice: &[u8]) -> (r: U64)
        requires
            slice@.len() <= 8,
        ensures
            r@ == be_value(slice@),
    {
        let le = reversed(slice);
        U64::from_little_endian(le.as_slice())
    }
}

} // verus!
