//! A 256-bit unsigned word held as four 64-bit limbs, least significant first,
//! with its little-endian byte encoding.
use vstd::prelude::*;

verus! {

/// The weight of one limb: 2^64.
pub open spec fn limb_base() -> nat {
    0x1_0000_0000_0000_0000
}

/// 256^k.
pub open spec fn radix(k: nat) -> nat
    decreases k,
{
    if k == 0 {
        1
    } else {
        256 * radix((k - 1) as nat)
    }
}

/// The `n` low-order bytes of `v`, least significant first.
pub open spec fn le_bytes(v: nat, n: nat) -> Seq<u8>
    decreases n,
{
    if n == 0 {
        Seq::empty()
    } else {
        seq![(v % 256) as u8] + le_bytes(v / 256, (n - 1) as nat)
    }
}

pub proof fn lemma_le_bytes_len(v: nat, n: nat)
    ensures
        le_bytes(v, n).len() == n,
    decreases n,
{
    if n > 0 {
        lemma_le_bytes_len(v / 256, (n - 1) as nat);
    }
}

pub proof fn lemma_radix_8()
    ensures
        radix(8) == limb_base(),
{
    reveal_with_fuel(radix, 9);
}

/// Every `usize` fits in a word with room to spare.
pub proof fn lemma_usize_below_max(n: usize)
    ensures
        (n as nat) < U256::max_value(),
{
    let b = limb_base();
    assert(b * b * b * b - 1 > b) by (nonlinear_arith)
        requires
            b == 0x1_0000_0000_0000_0000nat,
    ;
}

/// Encoding `a + 256^k * b` on `k + m` bytes puts the `k` bytes of `a` in front of
/// the `m` bytes of `b`, when `a` fits in `k` bytes.
pub proof fn lemma_le_bytes_split(a: nat, b: nat, k: nat, m: nat)
    requires
        a < radix(k),
    ensures
        le_bytes(a + radix(k) * b, k + m) == le_bytes(a, k) + le_bytes(b, m),
    decreases k,
{
    if k == 0 {
        assert(le_bytes(a, k) =~= Seq::<u8>::empty());
        assert(le_bytes(a, k) + le_bytes(b, m) =~= le_bytes(b, m));
    } else {
        let k1 = (k - 1) as nat;
        let c = radix(k1) * b;
        let n = a + radix(k) * b;
        assert(radix(k) * b == 256 * c) by (nonlinear_arith)
            requires
                radix(k) == 256 * radix(k1),
                c == radix(k1) * b,
        ;
        assert(n % 256 == a % 256 && n / 256 == a / 256 + c) by (nonlinear_arith)
            requires
                n == a + 256 * c,
        ;
        assert(a / 256 < radix(k1)) by (nonlinear_arith)
            requires
                a < 256 * radix(k1),
        ;
        lemma_le_bytes_split(a / 256, b, k1, m);
        assert((k + m - 1) as nat == k1 + m);
        assert(le_bytes(n, k + m) =~= le_bytes(a, k) + le_bytes(b, m));
    }
}

/// Two values that fit in `n` bytes have the same encoding only if they are equal.
pub proof fn lemma_le_bytes_injective(v: nat, w: nat, n: nat)
    requires
        v < radix(n),
        w < radix(n),
        le_bytes(v, n) == le_bytes(w, n),
    ensures
        v == w,
    decreases n,
{
    if n > 0 {
        let n1 = (n - 1) as nat;
        assert(le_bytes(v, n)[0] == (v % 256) as u8);
        assert(le_bytes(w, n)[0] == (w % 256) as u8);
        assert(v % 256 == w % 256);
        assert(le_bytes(v / 256, n1) =~= le_bytes(v, n).drop_first());
        assert(le_bytes(w / 256, n1) =~= le_bytes(w, n).drop_first());
        assert(v / 256 < radix(n1) && w / 256 < radix(n1)) by (nonlinear_arith)
            requires
                v < 256 * radix(n1),
                w < 256 * radix(n1),
        ;
        lemma_le_bytes_injective(v / 256, w / 256, n1);
        assert(v == 256 * (v / 256) + v % 256) by (nonlinear_arith);
        assert(w == 256 * (w / 256) + w % 256) by (nonlinear_arith);
    }
}

/// Appends the eight little-endian bytes of `w` to `out`.
fn push_limb(out: &mut Vec<u8>, w: u64)
    ensures
        final(out)@ == old(out)@ + le_bytes(w as nat, 8),
{
    let ghost start = out@;
    let mut x: u64 = w;
    let mut i: usize = 0;
    while i < 8
        invariant
            i <= 8,
            out@ + le_bytes(x as nat, (8 - i) as nat) == start + le_bytes(w as nat, 8),
        decreases 8 - i,
    {
        let ghost rest = le_bytes((x / 256) as nat, (8 - i - 1) as nat);
        assert(le_bytes(x as nat, (8 - i) as nat) == seq![(x % 256) as u8] + rest);
        assert(out@.push((x % 256) as u8) + rest =~= out@ + (seq![(x % 256) as u8] + rest));
        out.push((x % 256) as u8);
        x = x / 256;
        i = i + 1;
    }
    assert(le_bytes(x as nat, 0) =~= Seq::<u8>::empty());
    assert(out@ + Seq::<u8>::empty() =~= out@);
}

/// An unsigned 256-bit integer.
#[derive(Clone, Copy, Debug, PartialEq, Eq, Structural)]
pub struct U256 {
    pub l0: u64,
    pub l1: u64,
    pub l2: u64,
    pub l3: u64,
}

impl U256 {
    /// The number this word stands for.
    pub open spec fn value(&self) -> nat {
        self.l0 as nat + limb_base() * (self.l1 as nat + limb_base() * (self.l2 as nat
            + limb_base() * self.l3 as nat))
    }

    /// The largest value a word holds: 2^256 - 1.
    pub open spec fn max_value() -> nat {
        (limb_base() * limb_base() * limb_base() * limb_base() - 1) as nat
    }

    /// The 32-byte little-endian encoding of this word.
    pub open spec fn le_spec(&self) -> Seq<u8> {
        le_bytes(self.value(), 32)
    }

    pub fn zero() -> (r: U256)
        ensures
            r.value() == 0,
    {
        U256 { l0: 0, l1: 0, l2: 0, l3: 0 }
    }

    pub fn from_u64(n: u64) -> (r: U256)
        ensures
            r.value() == n,
    {
        U256 { l0: n, l1: 0, l2: 0, l3: 0 }
    }

    /// Builds a word from its limbs, least significant first.
    pub fn from_limbs(limbs: [u64; 4]) -> (r: U256)
        ensures
            r.l0 == limbs[0],
            r.l1 == limbs[1],
            r.l2 == limbs[2],
            r.l3 == limbs[3],
    {
        U256 { l0: limbs[0], l1: limbs[1], l2: limbs[2], l3: limbs[3] }
    }

    /// The limbs, least significant first.
    pub fn to_limbs(&self) -> (r: [u64; 4])
        ensures
            r@ == seq![self.l0, self.l1, self.l2, self.l3],
    {
        let r = [self.l0, self.l1, self.l2, self.l3];
        assert(r@ =~= seq![self.l0, self.l1, self.l2, self.l3]);
        r
    }

    pub fn is_zero(&self) -> (r: bool)
        ensures
            r == (self.value() == 0),
    {
        self.l0 == 0 && self.l1 == 0 && self.l2 == 0 && self.l3 == 0
    }

    /// The word whose value is one more than this one's.
    pub fn add_one(&self) -> (r: U256)
        requires
            self.value() < Self::max_value(),
        ensures
            r.value() == self.value() + 1,
    {
        if self.l0 < u64::MAX {
            U256 { l0: self.l0 + 1, l1: self.l1, l2: self.l2, l3: self.l3 }
        } else if self.l1 < u64::MAX {
            U256 { l0: 0, l1: self.l1 + 1, l2: self.l2, l3: self.l3 }
        } else if self.l2 < u64::MAX {
            U256 { l0: 0, l1: 0, l2: self.l2 + 1, l3: self.l3 }
        } else {
            U256 { l0: 0, l1: 0, l2: 0, l3: self.l3 + 1 }
        }
    }

    /// The value as a `usize`, when it is at most `bound`.
    pub fn to_usize_at_most(&self, bound: usize) -> (r: Option<usize>)
        ensures
            r == (if self.value() <= bound {
                Some(self.value() as usize)
            } else {
                None::<usize>
            }),
    {
        if self.l1 == 0 && self.l2 == 0 && self.l3 == 0 && self.l0 <= bound as u64 {
            Some(self.l0 as usize)
        } else {
            None
        }
    }

    /// The 32-byte little-endian encoding of this word.
    pub fn to_le_bytes(&self) -> (r: Vec<u8>)
        ensures
            r@ == self.le_spec(),
            r@.len() == 32,
    {
        let mut out: Vec<u8> = Vec::new();
        push_limb(&mut out, self.l0);
        push_limb(&mut out, self.l1);
        push_limb(&mut out, self.l2);
        push_limb(&mut out, self.l3);
        proof {
            let b = limb_base();
            let h2 = self.l2 as nat + b * self.l3 as nat;
            let h1 = self.l1 as nat + b * h2;
            lemma_radix_8();
            lemma_le_bytes_split(self.l2 as nat, self.l3 as nat, 8, 8);
            lemma_le_bytes_split(self.l1 as nat, h2, 8, 16);
            lemma_le_bytes_split(self.l0 as nat, h1, 8, 24);
            assert(out@ =~= self.le_spec());
            lemma_le_bytes_len(self.value(), 32);
        }
        out
    }
}

} // verus!
