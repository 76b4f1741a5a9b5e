//! The deterministic placement key of an auction instance: the Keccak-256 digest of
//! a fixed-width encoding of the candidate id, the creator and the auction terms.
use vstd::prelude::*;

use crate::address::Address;
use crate::word::{
    le_bytes, lemma_le_bytes_injective, lemma_le_bytes_len, lemma_le_bytes_split, lemma_radix_8,
    limb_base, U256,
};

verus! {

/// The terms an auction instance is requested with.
#[derive(Clone, Copy, Debug)]
pub struct AuctionTerms {
    pub nft_contract: Address,
    pub token_id: U256,
    pub reserve_price: U256,
    pub commit_duration: U256,
    pub reveal_duration: U256,
    pub min_deposit: U256,
}

/// The Keccak-256 digest of a byte string.
pub uninterp spec fn keccak_of(preimage: Seq<u8>) -> Seq<u8>;

/// Relies on `stylus_sdk::crypto::keccak`, which returns the 32-byte Keccak-256
/// digest of its input and depends on the input bytes alone.
#[verifier::external_body]
fn keccak(preimage: &Vec<u8>) -> (r: [u8; 32])
    ensures
        r@ == keccak_of(preimage@),
{
    stylus_sdk::crypto::keccak(preimage.as_slice()).0
}

/// The bytes hashed into the salt: the candidate id, the creator, the NFT contract,
/// the token id, the reserve price, the commit and reveal durations and the minimum
/// deposit, in that order; words take 32 little-endian bytes, addresses their 20 bytes.
pub open spec fn salt_preimage(id: U256, creator: Address, terms: AuctionTerms) -> Seq<u8> {
    id.le_spec() + creator.bytes@ + terms.nft_contract.bytes@ + terms.token_id.le_spec()
        + terms.reserve_price.le_spec() + terms.commit_duration.le_spec()
        + terms.reveal_duration.le_spec() + terms.min_deposit.le_spec()
}

/// The salt of an auction instance.
pub open spec fn salt_of(id: U256, creator: Address, terms: AuctionTerms) -> Seq<u8> {
    keccak_of(salt_preimage(id, creator, terms))
}

fn append(out: &mut Vec<u8>, bytes: &[u8])
    ensures
        final(out)@ == old(out)@ + bytes@,
{
    let ghost start = out@;
    let mut i: usize = 0;
    while i < bytes.len()
        invariant
            i <= bytes@.len(),
            out@ == start + bytes@.subrange(0, i as int),
        decreases bytes@.len() - i,
    {
        assert(bytes@.subrange(0, i + 1) =~= bytes@.subrange(0, i as int).push(bytes@[i as int]));
        out.push(bytes[i]);
        i = i + 1;
    }
    assert(bytes@.subrange(0, i as int) =~= bytes@);
}

/// Builds the preimage of the salt.
pub fn build_salt_preimage(id: &U256, creator: &Address, terms: &AuctionTerms) -> (r: Vec<u8>)
    ensures
        r@ == salt_preimage(*id, *creator, *terms),
{
    let mut out = id.to_le_bytes();
    append(&mut out, creator.bytes.as_slice());
    append(&mut out, terms.nft_contract.bytes.as_slice());
    append(&mut out, terms.token_id.to_le_bytes().as_slice());
    append(&mut out, terms.reserve_price.to_le_bytes().as_slice());
    append(&mut out, terms.commit_duration.to_le_bytes().as_slice());
    append(&mut out, terms.reveal_duration.to_le_bytes().as_slice());
    append(&mut out, terms.min_deposit.to_le_bytes().as_slice());
    out
}

/// Derives the salt under which the instance with the given id, creator and terms
/// is placed.
pub fn derive_salt(id: &U256, creator: &Address, terms: &AuctionTerms) -> (r: [u8; 32])
    ensures
        r@ == salt_of(*id, *creator, *terms),
{
    let preimage = build_salt_preimage(id, creator, terms);
    keccak(&preimage)
}

proof fn lemma_word_le_injective(x: U256, y: U256)
    requires
        x.le_spec() == y.le_spec(),
    ensures
        x == y,
{
    let b = limb_base();
    lemma_radix_8();
    let x2 = x.l2 as nat + b * x.l3 as nat;
    let x1 = x.l1 as nat + b * x2;
    let y2 = y.l2 as nat + b * y.l3 as nat;
    let y1 = y.l1 as nat + b * y2;
    lemma_le_bytes_split(x.l0 as nat, x1, 8, 24);
    lemma_le_bytes_split(x.l1 as nat, x2, 8, 16);
    lemma_le_bytes_split(x.l2 as nat, x.l3 as nat, 8, 8);
    lemma_le_bytes_split(y.l0 as nat, y1, 8, 24);
    lemma_le_bytes_split(y.l1 as nat, y2, 8, 16);
    lemma_le_bytes_split(y.l2 as nat, y.l3 as nat, 8, 8);
    lemma_le_bytes_len(x.l0 as nat, 8);
    lemma_le_bytes_len(x.l1 as nat, 8);
    lemma_le_bytes_len(x.l2 as nat, 8);
    lemma_le_bytes_len(x.l3 as nat, 8);
    lemma_le_bytes_len(y.l0 as nat, 8);
    lemma_le_bytes_len(y.l1 as nat, 8);
    lemma_le_bytes_len(y.l2 as nat, 8);
    lemma_le_bytes_len(y.l3 as nat, 8);
    let s = x.le_spec();
    let t = y.le_spec();
    assert(s.subrange(0, 8) =~= le_bytes(x.l0 as nat, 8));
    assert(t.subrange(0, 8) =~= le_bytes(y.l0 as nat, 8));
    assert(s.subrange(8, 16) =~= le_bytes(x.l1 as nat, 8));
    assert(t.subrange(8, 16) =~= le_bytes(y.l1 as nat, 8));
    assert(s.subrange(16, 24) =~= le_bytes(x.l2 as nat, 8));
    assert(t.subrange(16, 24) =~= le_bytes(y.l2 as nat, 8));
    assert(s.subrange(24, 32) =~= le_bytes(x.l3 as nat, 8));
    assert(t.subrange(24, 32) =~= le_bytes(y.l3 as nat, 8));
    lemma_le_bytes_injective(x.l0 as nat, y.l0 as nat, 8);
    lemma_le_bytes_injective(x.l1 as nat, y.l1 as nat, 8);
    lemma_le_bytes_injective(x.l2 as nat, y.l2 as nat, 8);
    lemma_le_bytes_injective(x.l3 as nat, y.l3 as nat, 8);
}

/// Splits a concatenation whose first part has a known length.
proof fn lemma_concat_parts(a: Seq<u8>, b: Seq<u8>, c: Seq<u8>, d: Seq<u8>)
    requires
        a + b == c + d,
        a.len() == c.len(),
    ensures
        a == c,
        b == d,
{
    assert(a =~= (a + b).subrange(0, a.len() as int));
    assert(c =~= (c + d).subrange(0, c.len() as int));
    assert(b =~= (a + b).subrange(a.len() as int, (a + b).len() as int));
    assert(d =~= (c + d).subrange(c.len() as int, (c + d).len() as int));
}

/// Two deployments have the same salt preimage exactly when their candidate ids,
/// creators and terms are all equal: no field can be changed without changing
/// the bytes that are hashed.
pub proof fn lemma_salt_preimage_injective(
    id1: U256,
    creator1: Address,
    terms1: AuctionTerms,
    id2: U256,
    creator2: Address,
    terms2: AuctionTerms,
)
    ensures
        salt_preimage(id1, creator1, terms1) == salt_preimage(id2, creator2, terms2) <==> (id1
            == id2 && creator1 == creator2 && terms1 == terms2),
{
    if salt_preimage(id1, creator1, terms1) == salt_preimage(id2, creator2, terms2) {
        lemma_le_bytes_len(id1.value(), 32);
        lemma_le_bytes_len(id2.value(), 32);
        lemma_le_bytes_len(terms1.token_id.value(), 32);
        lemma_le_bytes_len(terms2.token_id.value(), 32);
        lemma_le_bytes_len(terms1.reserve_price.value(), 32);
        lemma_le_bytes_len(terms2.reserve_price.value(), 32);
        lemma_le_bytes_len(terms1.commit_duration.value(), 32);
        lemma_le_bytes_len(terms2.commit_duration.value(), 32);
        lemma_le_bytes_len(terms1.reveal_duration.value(), 32);
        lemma_le_bytes_len(terms2.reveal_duration.value(), 32);
        lemma_le_bytes_len(terms1.min_deposit.value(), 32);
        lemma_le_bytes_len(terms2.min_deposit.value(), 32);
        let p1 = id1.le_spec() + creator1.bytes@ + terms1.nft_contract.bytes@
            + terms1.token_id.le_spec() + terms1.reserve_price.le_spec()
            + terms1.commit_duration.le_spec() + terms1.reveal_duration.le_spec();
        let p2 = id2.le_spec() + creator2.bytes@ + terms2.nft_contract.bytes@
            + terms2.token_id.le_spec() + terms2.reserve_price.le_spec()
            + terms2.commit_duration.le_spec() + terms2.reveal_duration.le_spec();
        lemma_concat_parts(p1, terms1.min_deposit.le_spec(), p2, terms2.min_deposit.le_spec());
        let q1 = id1.le_spec() + creator1.bytes@ + terms1.nft_contract.bytes@
            + terms1.token_id.le_spec() + terms1.reserve_price.le_spec()
            + terms1.commit_duration.le_spec();
        let q2 = id2.le_spec() + creator2.bytes@ + terms2.nft_contract.bytes@
            + terms2.token_id.le_spec() + terms2.reserve_price.le_spec()
            + terms2.commit_duration.le_spec();
        lemma_concat_parts(q1, terms1.reveal_duration.le_spec(), q2, terms2.reveal_duration.le_spec());
        let r1 = id1.le_spec() + creator1.bytes@ + terms1.nft_contract.bytes@
            + terms1.token_id.le_spec() + terms1.reserve_price.le_spec();
        let r2 = id2.le_spec() + creator2.bytes@ + terms2.nft_contract.bytes@
            + terms2.token_id.le_spec() + terms2.reserve_price.le_spec();
        lemma_concat_parts(r1, terms1.commit_duration.le_spec(), r2, terms2.commit_duration.le_spec());
        let s1 = id1.le_spec() + creator1.bytes@ + terms1.nft_contract.bytes@
            + terms1.token_id.le_spec();
        let s2 = id2.le_spec() + creator2.bytes@ + terms2.nft_contract.bytes@
            + terms2.token_id.le_spec();
        lemma_concat_parts(s1, terms1.reserve_price.le_spec(), s2, terms2.reserve_price.le_spec());
        let t1 = id1.le_spec() + creator1.bytes@ + terms1.nft_contract.bytes@;
        let t2 = id2.le_spec() + creator2.bytes@ + terms2.nft_contract.bytes@;
        lemma_concat_parts(t1, terms1.token_id.le_spec(), t2, terms2.token_id.le_spec());
        let u1 = id1.le_spec() + creator1.bytes@;
        let u2 = id2.le_spec() + creator2.bytes@;
        lemma_concat_parts(u1, terms1.nft_contract.bytes@, u2, terms2.nft_contract.bytes@);
        lemma_concat_parts(id1.le_spec(), creator1.bytes@, id2.le_spec(), creator2.bytes@);
        lemma_word_le_injective(id1, id2);
        lemma_word_le_injective(terms1.token_id, terms2.token_id);
        lemma_word_le_injective(terms1.reserve_price, terms2.reserve_price);
        lemma_word_le_injective(terms1.commit_duration, terms2.commit_duration);
        lemma_word_le_injective(terms1.reveal_duration, terms2.reveal_duration);
        lemma_word_le_injective(terms1.min_deposit, terms2.min_deposit);
        assert(creator1.bytes =~= creator2.bytes);
        assert(terms1.nft_contract.bytes =~= terms2.nft_contract.bytes);
    }
}

/// The same candidate id, creator and terms always give the same salt.
pub proof fn lemma_salt_deterministic(
    id1: U256,
    creator1: Address,
    terms1: AuctionTerms,
    id2: U256,
    creator2: Address,
    terms2: AuctionTerms,
)
    requires
        id1 == id2,
        creator1 == creator2,
        terms1 == terms2,
    ensures
        salt_of(id1, creator1, terms1) == salt_of(id2, creator2, terms2),
{
}

} // verus!
