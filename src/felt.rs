//! Field elements of the Stark field and the key types built on them.
use vstd::prelude::*;

verus! {

/// 2^128, the weight of the upper half of a field element.
pub open spec fn two_pow_128() -> int {
    u128::MAX as int + 1
}

/// The Stark prime, 2^251 + 17 * 2^192 + 1.
pub open spec fn field_prime() -> int {
    PRIME_HIGH as int * two_pow_128() + 1
}

/// Upper half of the Stark prime; its lower half is 1.
pub const PRIME_HIGH: u128 = 0x0800_0000_0000_0011_0000_0000_0000_0000;

/// The zero element.
pub open spec fn zero_felt() -> Felt {
    Felt { high: 0, low: 0 }
}

/// A 252-bit field element, held as two 128-bit halves (big half first).
#[derive(Clone, Copy, Debug, PartialEq, Eq, Structural, Hash)]
pub struct Felt {
    pub high: u128,
    pub low: u128,
}

impl Felt {
    /// The integer that the element stands for.
    pub open spec fn value(self) -> nat {
        (self.high as nat) * (two_pow_128() as nat) + (self.low as nat)
    }

    /// The element is below the field's prime.
    pub open spec fn wf(self) -> bool {
        self.value() < field_prime()
    }

    /// The additive identity.
    pub fn zero() -> (r: Felt)
        ensures
            r == zero_felt(),
            r.value() == 0,
            r.wf(),
    {
        Felt { high: 0, low: 0 }
    }

    pub fn from_u64(n: u64) -> (r: Felt)
        ensures
            r.value() == n as nat,
            r.wf(),
    {
        Felt { high: 0, low: n as u128 }
    }

    /// Builds the element `high * 2^128 + low`, if it is below the prime.
    pub fn from_parts(high: u128, low: u128) -> (r: Option<Felt>)
        ensures
            r matches Some(f) ==> f.high == high && f.low == low && f.wf(),
            r is None <==> (high as nat) * (two_pow_128() as nat) + (low as nat) >= field_prime(),
    {
        if high < PRIME_HIGH || (high == PRIME_HIGH && low == 0) {
            let f = Felt { high, low };
            proof { lemma_below_prime(f); }
            Some(f)
        } else {
            proof { lemma_below_prime(Felt { high, low }); }
            None
        }
    }

    pub fn is_zero(&self) -> (r: bool)
        ensures
            r <==> self.value() == 0,
    {
        proof { lemma_value_small(*self); }
        self.high == 0 && self.low == 0
    }

    /// The element as an unsigned 64-bit counter, if it fits in one.
    pub fn to_u64(&self) -> (r: Option<u64>)
        ensures
            self.value() <= u64::MAX ==> r == Some(self.value() as u64),
            self.value() > u64::MAX ==> r is None,
    {
        proof { lemma_value_small(*self); }
        if self.high == 0 && self.low <= u64::MAX as u128 {
            Some(self.low as u64)
        } else {
            None
        }
    }
}

/// Below 2^128 exactly when the upper half is zero, and then the value is the lower half.
proof fn lemma_value_small(f: Felt)
    ensures
        f.high == 0 ==> f.value() == f.low as nat,
        f.high != 0 ==> f.value() >= two_pow_128(),
{
    if f.high != 0 {
        assert((f.high as nat) * (two_pow_128() as nat) >= two_pow_128()) by (nonlinear_arith)
            requires f.high as nat >= 1, two_pow_128() > 0;
    }
}

/// The range test on the halves agrees with the range test on the value.
proof fn lemma_below_prime(f: Felt)
    ensures
        f.wf() <==> (f.high < PRIME_HIGH || (f.high == PRIME_HIGH && f.low == 0)),
{
    let h = f.high as nat;
    let ph = PRIME_HIGH as nat;
    let t = two_pow_128() as nat;
    assert(field_prime() == ph * t + 1);
    if h < ph {
        assert(h * t + t <= ph * t) by (nonlinear_arith)
            requires h < ph, t > 0;
    } else if h > ph {
        assert(h * t >= ph * t + t) by (nonlinear_arith)
            requires h > ph, t > 0;
    }
}

/// Address of a contract.
#[derive(Clone, Copy, Debug, PartialEq, Eq, Structural, Hash)]
pub struct ContractAddress(pub Felt);

/// Key of a storage slot within a contract.
#[derive(Clone, Copy, Debug, PartialEq, Eq, Structural, Hash)]
pub struct StorageKey(pub Felt);

/// Hash that identifies a contract class.
#[derive(Clone, Copy, Debug, PartialEq, Eq, Structural, Hash)]
pub struct ClassHash(pub Felt);

/// Hash of the compiled artifact of a class.
#[derive(Clone, Copy, Debug, PartialEq, Eq, Structural, Hash)]
pub struct CompiledClassHash(pub Felt);

/// Per-address replay-protection counter.
#[derive(Clone, Copy, Debug, PartialEq, Eq, Structural, Hash)]
pub struct Nonce(pub Felt);

} // verus!
