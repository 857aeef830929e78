//! Plain-value forms of the EVM canister's hashes, integers and records.

use vstd::prelude::*;

verus! {

/// Radix of one 64-bit limb.
pub open spec fn limb_base() -> nat {
    0x1_0000_0000_0000_0000nat
}

/// Largest value of a 256-bit unsigned integer.
pub open spec fn u256_max() -> nat {
    (limb_base() * limb_base() * limb_base() * limb_base() - 1) as nat
}

/// Value of four little-endian 64-bit limbs.
pub open spec fn limbs_value(l: Seq<u64>) -> nat {
    l[0] as nat + l[1] as nat * limb_base() + l[2] as nat * (limb_base() * limb_base())
        + l[3] as nat * (limb_base() * limb_base() * limb_base())
}

/// A sequence of `n` zero bytes.
pub open spec fn zero_bytes(n: nat) -> Seq<u8> {
    Seq::new(n, |_i: int| 0u8)
}

/// Fixed-size uninterpreted hash.
#[derive(Debug, Default, Clone, Copy, PartialEq, Eq, Hash)]
pub struct Hash<T>(pub T);

/// 20-byte hash: an account or contract address.
pub type H160 = Hash<[u8; 20]>;

/// 32-byte hash: a transaction hash.
pub type H256 = Hash<[u8; 32]>;

impl<T: View> View for Hash<T> {
    type V = T::V;

    open spec fn view(&self) -> T::V {
        self.0@
    }
}

impl H160 {
    pub fn new(value: [u8; 20]) -> (r: H160)
        ensures
            r@ == value@,
    {
        Hash(value)
    }

    /// The address made of `slice`, which holds exactly 20 bytes.
    pub fn from_slice(slice: &[u8]) -> (r: H160)
        requires
            slice@.len() == 20,
        ensures
            r@ == slice@,
    {
        let mut bytes = [0u8; 20];
        let mut i: usize = 0;
        while i < 20
            invariant
                i <= 20,
                slice@.len() == 20,
                bytes@.len() == 20,
                forall|j: int| 0 <= j < i ==> bytes@[j] == slice@[j],
            decreases 20 - i,
        {
            bytes.set(i, slice[i]);
            i = i + 1;
        }
        assert(bytes@ =~= slice@);
        Hash(bytes)
    }

    pub fn zero() -> (r: H160)
        ensures
            r@ == zero_bytes(20),
    {
        let r = Hash([0u8; 20]);
        assert(r@ =~= zero_bytes(20));
        r
    }
}

impl H256 {
    pub fn new(value: [u8; 32]) -> (r: H256)
        ensures
            r@ == value@,
    {
        Hash(value)
    }

    /// The hash made of `slice`, which holds exactly 32 bytes.
    pub fn from_slice(slice: &[u8]) -> (r: H256)
        requires
            slice@.len() == 32,
        ensures
            r@ == slice@,
    {
        let mut bytes = [0u8; 32];
        let mut i: usize = 0;
        while i < 32
            invariant
                i <= 32,
                slice@.len() == 32,
                bytes@.len() == 32,
                forall|j: int| 0 <= j < i ==> bytes@[j] == slice@[j],
            decreases 32 - i,
        {
            bytes.set(i, slice[i]);
            i = i + 1;
        }
        assert(bytes@ =~= slice@);
        Hash(bytes)
    }

    pub fn zero() -> (r: H256)
        ensures
            r@ == zero_bytes(32),
    {
        let r = Hash([0u8; 32]);
        assert(r@ =~= zero_bytes(32));
        r
    }

    pub fn is_zero(&self) -> (r: bool)
        ensures
            r == (self@ == zero_bytes(32)),
    {
        let mut i: usize = 0;
        while i < 32
            invariant
                i <= 32,
                self@.len() == 32,
                forall|j: int| 0 <= j < i ==> self@[j] == 0,
            decreases 32 - i,
        {
            if self.0[i] != 0 {
                assert(self@ != zero_bytes(32) ) by {
                    assert(zero_bytes(32)[i as int] == 0);
                }
                return false;
            }
            i = i + 1;
        }
        assert(self@ =~= zero_bytes(32));
        true
    }
}

/// 256-bit unsigned integer as four little-endian 64-bit limbs.
#[derive(Debug, Default, Clone, Copy, PartialEq, Eq, Hash)]
pub struct U256(pub [u64; 4]);

impl View for U256 {
    type V = nat;

    open spec fn view(&self) -> nat {
        limbs_value(self.0@)
    }
}

proof fn lemma_carry(a: nat, b: nat)
    ensures
        (a + 1) * b == a * b + b,
{
    assert((a + 1) * b == a * b + b) by (nonlinear_arith);
}

proof fn lemma_positive_term(x: nat, w: nat)
    requires
        w >= 1,
    ensures
        x * w >= 0,
        x >= 1 ==> x * w >= 1,
{
    assert(x * w >= 0) by (nonlinear_arith);
    assert(x >= 1 ==> x * w >= 1) by (nonlinear_arith)
        requires
            w >= 1,
    ;
}

/// Four limbs have the value zero exactly when each is zero, and the largest
/// value exactly when each is `u64::MAX`.
proof fn lemma_limbs_extremes(l: Seq<u64>)
    requires
        l.len() == 4,
    ensures
        limbs_value(l) <= u256_max(),
        limbs_value(l) == 0 <==> (l[0] == 0 && l[1] == 0 && l[2] == 0 && l[3] == 0),
        limbs_value(l) == u256_max() <==> (l[0] == u64::MAX && l[1] == u64::MAX && l[2]
            == u64::MAX && l[3] == u64::MAX),
{
    let b = limb_base();
    let (x0, x1, x2, x3) = (l[0] as nat, l[1] as nat, l[2] as nat, l[3] as nat);
    let (d0, d1, d2, d3) = ((b - 1 - x0) as nat, (b - 1 - x1) as nat, (b - 1 - x2) as nat, (
    b - 1 - x3) as nat);
    assert(x0 + x1 * b + x2 * (b * b) + x3 * (b * b * b) + d0 + d1 * b + d2 * (b * b) + d3 * (b
        * b * b) == b * b * b * b - 1) by (nonlinear_arith)
        requires
            d0 == b - 1 - x0,
            d1 == b - 1 - x1,
            d2 == b - 1 - x2,
            d3 == b - 1 - x3,
            b >= 1,
    ;
    assert(b * b >= 1 && b * b * b >= 1) by (nonlinear_arith)
        requires
            b >= 1,
    ;
    lemma_positive_term(x1, b);
    lemma_positive_term(x2, b * b);
    lemma_positive_term(x3, b * b * b);
    lemma_positive_term(d1, b);
    lemma_positive_term(d2, b * b);
    lemma_positive_term(d3, b * b * b);
}

/// Four limbs computed with carries: when each limb and the carry out of it
/// make up the limb-wise sum plus the carry into it, the result limbs and the
/// last carry make up the whole sum.
proof fn lemma_limb_chain(
    x0: int,
    x1: int,
    x2: int,
    x3: int,
    r0: int,
    r1: int,
    r2: int,
    r3: int,
    c0: int,
    c1: int,
    c2: int,
    c3: int,
    b: int,
)
    requires
        r0 + c0 * b == x0,
        r1 + c1 * b == x1 + c0,
        r2 + c2 * b == x2 + c1,
        r3 + c3 * b == x3 + c2,
    ensures
        r0 + r1 * b + r2 * (b * b) + r3 * (b * b * b) + c3 * (b * b * b * b) == x0 + x1 * b + x2 * (
        b * b) + x3 * (b * b * b),
{
    assert(r1 * b + c1 * b * b == x1 * b + c0 * b) by (nonlinear_arith)
        requires
            r1 + c1 * b == x1 + c0,
    ;
    assert(r2 * (b * b) + c2 * (b * b * b) == x2 * (b * b) + c1 * (b * b)) by (nonlinear_arith)
        requires
            r2 + c2 * b == x2 + c1,
    ;
    assert(r3 * (b * b * b) + c3 * (b * b * b * b) == x3 * (b * b * b) + c2 * (b * b * b))
        by (nonlinear_arith)
        requires
            r3 + c3 * b == x3 + c2,
    ;
    assert(c1 * b * b == c1 * (b * b)) by (nonlinear_arith);
}

impl U256 {
    pub fn zero() -> (r: U256)
        ensures
            r@ == 0,
    {
        let r = U256([0u64, 0u64, 0u64, 0u64]);
        proof {
            lemma_limbs_extremes(r.0@);
        }
        r
    }

    pub fn one() -> (r: U256)
        ensures
            r@ == 1,
    {
        let r = U256([1u64, 0u64, 0u64, 0u64]);
        assert(r.0@[0] == 1 && r.0@[1] == 0 && r.0@[2] == 0 && r.0@[3] == 0);
        r
    }

    pub fn from_u64(v: u64) -> (r: U256)
        ensures
            r@ == v as nat,
    {
        let r = U256([v, 0u64, 0u64, 0u64]);
        assert(r.0@[0] == v && r.0@[1] == 0 && r.0@[2] == 0 && r.0@[3] == 0);
        r
    }

    pub fn max_value() -> (r: U256)
        ensures
            r@ == u256_max(),
    {
        let m = u64::MAX;
        let r = U256([m, m, m, m]);
        proof {
            assert(r.0@[0] == m && r.0@[1] == m && r.0@[2] == m && r.0@[3] == m);
            lemma_limbs_extremes(r.0@);
        }
        r
    }

    pub fn is_zero(&self) -> (r: bool)
        ensures
            r == (self@ == 0),
    {
        proof {
            lemma_limbs_extremes(self.0@);
        }
        let l = self.0;
        l[0] == 0 && l[1] == 0 && l[2] == 0 && l[3] == 0
    }

    /// The sum, or `None` when it would not fit in 256 bits.
    pub fn checked_add(&self, rhs: &U256) -> (r: Option<U256>)
        ensures
            self@ + rhs@ <= u256_max() ==> (r matches Some(v) && v@ == self@ + rhs@),
            self@ + rhs@ > u256_max() ==> r is None,
    {
        let a = self.0;
        let b = rhs.0;
        let base: u128 = 0x1_0000_0000_0000_0000;
        let s0: u128 = a[0] as u128 + b[0] as u128;
        let c0: u128 = if s0 >= base { 1 } else { 0 };
        let r0: u64 = (s0 - c0 * base) as u64;
        let s1: u128 = a[1] as u128 + b[1] as u128 + c0;
        let c1: u128 = if s1 >= base { 1 } else { 0 };
        let r1: u64 = (s1 - c1 * base) as u64;
        let s2: u128 = a[2] as u128 + b[2] as u128 + c1;
        let c2: u128 = if s2 >= base { 1 } else { 0 };
        let r2: u64 = (s2 - c2 * base) as u64;
        let s3: u128 = a[3] as u128 + b[3] as u128 + c2;
        let c3: u128 = if s3 >= base { 1 } else { 0 };
        let r3: u64 = (s3 - c3 * base) as u64;
        let r = U256([r0, r1, r2, r3]);
        proof {
            let bb = limb_base() as int;
            assert(r.0@[0] == r0 && r.0@[1] == r1 && r.0@[2] == r2 && r.0@[3] == r3);
            lemma_limbs_extremes(r.0@);
            lemma_limb_chain(
                a[0] as int + b[0] as int,
                a[1] as int + b[1] as int,
                a[2] as int + b[2] as int,
                a[3] as int + b[3] as int,
                r0 as int,
                r1 as int,
                r2 as int,
                r3 as int,
                c0 as int,
                c1 as int,
                c2 as int,
                c3 as int,
                bb,
            );
            assert(self@ + rhs@ == (a[0] as int + b[0] as int) + (a[1] as int + b[1] as int) * bb
                + (a[2] as int + b[2] as int) * (bb * bb) + (a[3] as int + b[3] as int) * (bb * bb
                * bb)) by (nonlinear_arith)
                requires
                    self@ == a[0] as int + a[1] as int * bb + a[2] as int * (bb * bb) + a[3] as int * (
                    bb * bb * bb),
                    rhs@ == b[0] as int + b[1] as int * bb + b[2] as int * (bb * bb) + b[3] as int * (
                    bb * bb * bb),
            ;
            assert(bb * bb * bb * bb == u256_max() + 1);
        }
        if c3 == 0 {
            Some(r)
        } else {
            None
        }
    }

    /// The difference, or `None` when `rhs` is larger.
    pub fn checked_sub(&self, rhs: &U256) -> (r: Option<U256>)
        ensures
            self@ >= rhs@ ==> (r matches Some(v) && v@ == self@ - rhs@),
            self@ < rhs@ ==> r is None,
    {
        let a = self.0;
        let b = rhs.0;
        let base: i128 = 0x1_0000_0000_0000_0000;
        let d0: i128 = a[0] as i128 - b[0] as i128;
        let c0: i128 = if d0 < 0 { -1 } else { 0 };
        let r0: u64 = (d0 - c0 * base) as u64;
        let d1: i128 = a[1] as i128 - b[1] as i128 + c0;
        let c1: i128 = if d1 < 0 { -1 } else { 0 };
        let r1: u64 = (d1 - c1 * base) as u64;
        let d2: i128 = a[2] as i128 - b[2] as i128 + c1;
        let c2: i128 = if d2 < 0 { -1 } else { 0 };
        let r2: u64 = (d2 - c2 * base) as u64;
        let d3: i128 = a[3] as i128 - b[3] as i128 + c2;
        let c3: i128 = if d3 < 0 { -1 } else { 0 };
        let r3: u64 = (d3 - c3 * base) as u64;
        let r = U256([r0, r1, r2, r3]);
        proof {
            let bb = limb_base() as int;
            assert(r.0@[0] == r0 && r.0@[1] == r1 && r.0@[2] == r2 && r.0@[3] == r3);
            lemma_limbs_extremes(r.0@);
            lemma_limb_chain(
                a[0] as int - b[0] as int,
                a[1] as int - b[1] as int,
                a[2] as int - b[2] as int,
                a[3] as int - b[3] as int,
                r0 as int,
                r1 as int,
                r2 as int,
                r3 as int,
                c0 as int,
                c1 as int,
                c2 as int,
                c3 as int,
                bb,
            );
            assert(self@ - rhs@ == (a[0] as int - b[0] as int) + (a[1] as int - b[1] as int) * bb
                + (a[2] as int - b[2] as int) * (bb * bb) + (a[3] as int - b[3] as int) * (bb * bb
                * bb)) by (nonlinear_arith)
                requires
                    self@ == a[0] as int + a[1] as int * bb + a[2] as int * (bb * bb) + a[3] as int * (
                    bb * bb * bb),
                    rhs@ == b[0] as int + b[1] as int * bb + b[2] as int * (bb * bb) + b[3] as int * (
                    bb * bb * bb),
            ;
            assert(bb * bb * bb * bb == u256_max() + 1);
        }
        if c3 == 0 {
            Some(r)
        } else {
            None
        }
    }

    /// The value plus one, or `None` when it would not fit in 256 bits.
    pub fn checked_increment(&self) -> (r: Option<U256>)
        ensures
            self@ <= u256_max(),
            r is None <==> self@ == u256_max(),
            r matches Some(v) ==> v@ == self@ + 1,
    {
        proof {
            lemma_limbs_extremes(self.0@);
        }
        let l = self.0;
        let m = u64::MAX;
        let ghost b = limb_base();
        if l[0] < m {
            let r = U256([l[0] + 1, l[1], l[2], l[3]]);
            assert(r.0@[0] == l[0] + 1 && r.0@[1] == l[1] && r.0@[2] == l[2] && r.0@[3] == l[3]);
            Some(r)
        } else if l[1] < m {
            let r = U256([0u64, l[1] + 1, l[2], l[3]]);
            proof {
                assert(r.0@[0] == 0 && r.0@[1] == l[1] + 1 && r.0@[2] == l[2] && r.0@[3] == l[3]);
                lemma_carry(l[1] as nat, b);
            }
            Some(r)
        } else if l[2] < m {
            let r = U256([0u64, 0u64, l[2] + 1, l[3]]);
            proof {
                assert(r.0@[0] == 0 && r.0@[1] == 0 && r.0@[2] == l[2] + 1 && r.0@[3] == l[3]);
                lemma_carry(l[2] as nat, b * b);
                assert((b - 1) + (b - 1) * b + 1 == b * b) by (nonlinear_arith)
                    requires
                        b >= 1,
                ;
            }
            Some(r)
        } else if l[3] < m {
            let r = U256([0u64, 0u64, 0u64, l[3] + 1]);
            proof {
                assert(r.0@[0] == 0 && r.0@[1] == 0 && r.0@[2] == 0 && r.0@[3] == l[3] + 1);
                lemma_carry(l[3] as nat, b * b * b);
                assert((b - 1) + (b - 1) * b + (b - 1) * (b * b) + 1 == b * b * b)
                    by (nonlinear_arith)
                    requires
                        b >= 1,
                ;
            }
            Some(r)
        } else {
            None
        }
    }
}

/// 64-bit unsigned integer of the EVM canister's records.
#[derive(Debug, Default, Clone, Copy, PartialEq, Eq, PartialOrd, Ord, Hash)]
pub struct U64(pub u64);

impl View for U64 {
    type V = nat;

    open spec fn view(&self) -> nat {
        self.0 as nat
    }
}

impl U64 {
    pub fn new(value: u64) -> (r: U64)
        ensures
            r@ == value,
    {
        U64(value)
    }

    pub fn max_value() -> (r: U64)
        ensures
            r@ == u64::MAX,
    {
        U64(u64::MAX)
    }

    pub fn zero() -> (r: U64)
        ensures
            r@ == 0,
    {
        U64(0)
    }

    pub fn one() -> (r: U64)
        ensures
            r@ == 1,
    {
        U64(1)
    }

    pub fn is_zero(&self) -> (r: bool)
        ensures
            r == (self@ == 0),
    {
        self.0 == 0
    }
}

/// Raw bytes, such as a transaction's input data.
#[derive(Debug, Default, Clone, PartialEq, Eq)]
pub struct Bytes(pub Vec<u8>);

impl View for Bytes {
    type V = Seq<u8>;

    open spec fn view(&self) -> Seq<u8> {
        self.0@
    }
}

/// A signed transaction as the EVM canister reports it.
#[derive(Debug, Default, Clone, PartialEq, Eq)]
pub struct Transaction {
    pub hash: H256,
    pub nonce: U256,
    /// None while pending.
    pub block_hash: Option<H256>,
    /// None while pending.
    pub block_number: Option<U64>,
    /// None while pending.
    pub transaction_index: Option<U64>,
    /// Sender.
    pub from: H160,
    /// Recipient; None for a contract creation.
    pub to: Option<H160>,
    pub value: U256,
    /// None for type 2 transactions.
    pub gas_price: Option<U256>,
    pub gas: U256,
    pub input: Bytes,
    /// ECDSA recovery id.
    pub v: U64,
    /// ECDSA signature r.
    pub r: U256,
    /// ECDSA signature s.
    pub s: U256,
    /// Some(2) for EIP-1559, Some(1) for access-list transactions, None for legacy.
    pub transaction_type: Option<U64>,
    pub access_list: Option<AccessList>,
    pub max_priority_fee_per_gas: Option<U256>,
    pub max_fee_per_gas: Option<U256>,
    pub chain_id: Option<U256>,
}

#[derive(Debug, Default, Clone, PartialEq, Eq)]
pub struct AccessListItem {
    pub address: H160,
    pub storage_keys: Vec<H256>,
}

#[derive(Debug, Default, Clone, PartialEq, Eq)]
pub struct AccessList(pub Vec<AccessListItem>);

/// The outcome of a mined transaction.
#[derive(Debug, Default, Clone, PartialEq, Eq)]
pub struct TransactionReceipt {
    pub transaction_hash: H256,
    pub transaction_index: U64,
    pub block_hash: H256,
    pub block_number: U64,
    pub from: H160,
    pub to: Option<H160>,
    pub cumulative_gas_used: U256,
    pub gas_used: Option<U256>,
    /// Address of the contract that the transaction created, if any.
    pub contract_address: Option<H160>,
    /// 1 for success, 0 for failure.
    pub status: Option<U64>,
}

#[derive(Debug, Clone, Copy, PartialEq, Eq)]
pub enum BlockNumber {
    Latest,
    Earliest,
    Pending,
    Number(U64),
}

/// Sender, value, gas and nonce stamped on an outgoing transaction.
#[derive(Debug, Default, Clone, Copy, PartialEq, Eq)]
pub struct TransactionParams {
    pub from: H160,
    pub value: U256,
    pub gas_limit: u64,
    pub gas_price: Option<U256>,
    pub nonce: U256,
}

/// Balance and nonce of an EVM account.
#[derive(Debug, Default, Clone, Copy, PartialEq, Eq)]
pub struct BasicAccount {
    pub balance: U256,
    pub nonce: U256,
}

} // verus!
