//! 256-bit hashes, their byte encodings and the derivations of node,
//! product and business keys.

use parity_scale_codec::Encode;
use vstd::prelude::*;

verus! {

/// A 256-bit hash value.
#[derive(Clone, Copy, Debug, Eq)]
pub struct H256(pub [u8; 32]);

impl View for H256 {
    type V = Seq<u8>;

    open spec fn view(&self) -> Seq<u8> {
        self.0@
    }
}

impl PartialEq for H256 {
    fn eq(&self, other: &H256) -> (r: bool) {
        let mut i: usize = 0;
        while i < 32
            invariant
                0 <= i <= 32,
                forall|j: int| 0 <= j < i ==> self.0@[j] == other.0@[j],
            decreases 32 - i,
        {
            if self.0[i] != other.0[i] {
                return false;
            }
            i = i + 1;
        }
        proof {
            assert(self.0@ =~= other.0@);
        }
        true
    }
}

impl vstd::std_specs::cmp::PartialEqSpecImpl for H256 {
    open spec fn obeys_eq_spec() -> bool {
        true
    }

    open spec fn eq_spec(&self, other: &H256) -> bool {
        self@ == other@
    }
}

impl H256 {
    /// The all-zero hash.
    pub fn zero() -> (r: H256)
        ensures
            r@ == Seq::new(32, |_i: int| 0u8),
    {
        let r = H256([0u8; 32]);
        proof {
            assert(r@ =~= Seq::new(32, |_i: int| 0u8));
        }
        r
    }
}

/// The first `n` little-endian bytes of `x`.
pub open spec fn le_bytes(x: nat, n: nat) -> Seq<u8>
    decreases n,
{
    if n == 0 {
        Seq::empty()
    } else {
        seq![(x % 256) as u8] + le_bytes(x / 256, (n - 1) as nat)
    }
}

/// The compact length prefix that precedes the items of an encoded
/// collection of `n` items, for `n` up to `u32::MAX`.
pub open spec fn compact_length(n: nat) -> Seq<u8> {
    if n < 64 {
        le_bytes(n * 4, 1)
    } else if n < 16384 {
        le_bytes(n * 4 + 1, 2)
    } else if n < 1073741824 {
        le_bytes(n * 4 + 2, 4)
    } else {
        seq![3u8] + le_bytes(n, 4)
    }
}

/// The unkeyed 32-byte BLAKE2b digest of `data`.
pub uninterp spec fn blake2_256_of(data: Seq<u8>) -> Seq<u8>;

/// Relies on `sp_crypto_hashing::blake2_256`: the unkeyed BLAKE2b digest of
/// length 32 of the given bytes, which depends on those bytes alone.
#[verifier::external_body]
fn blake2_256(data: &Vec<u8>) -> (r: H256)
    ensures
        r@ == blake2_256_of(data@),
{
    H256(sp_crypto_hashing::blake2_256(data))
}

/// Relies on `parity_scale_codec::Encode` for a pair of 32-byte arrays: a
/// tuple encodes its fields in order and a byte array of fixed size encodes
/// as its bytes, with no length prefix.
#[verifier::external_body]
fn encode_hash_pair(a: &H256, b: &H256) -> (r: Vec<u8>)
    ensures
        r@ == a@ + b@,
{
    (a.0, b.0).encode()
}

/// Relies on `parity_scale_codec::Encode` for a 32-byte array followed by a
/// byte vector: the array as its bytes, then the vector as its compact
/// length and its bytes. The encoder panics on more than `u32::MAX` items.
#[verifier::external_body]
fn encode_hash_and_bytes(a: &H256, b: &Vec<u8>) -> (r: Vec<u8>)
    requires
        b.len() <= u32::MAX,
    ensures
        r@ == a@ + compact_length(b.len() as nat) + b@,
{
    (a.0, b).encode()
}

/// Relies on `parity_scale_codec::Encode` for the tuple of a 32-byte array,
/// a `u64`, a 32-byte array and a `u64`: the fields in order, each array as
/// its bytes and each integer as its eight little-endian bytes.
#[verifier::external_body]
fn encode_business_seed(seed: &H256, creator: u64, owner: &H256, nonce: u64) -> (r: Vec<u8>)
    ensures
        r@ == seed@ + le_bytes(creator as nat, 8) + owner@ + le_bytes(nonce as nat, 8),
{
    (seed.0, &creator, owner.0, nonce).encode()
}

/// The key of the child of `node` under `label`.
pub open spec fn subnode_key(node: Seq<u8>, label: Seq<u8>) -> Seq<u8> {
    blake2_256_of(node + label)
}

/// The key of the product with sequence id `seq_id` within business `biz`.
pub open spec fn product_key(biz: Seq<u8>, seq_id: Seq<u8>) -> Seq<u8> {
    blake2_256_of(biz + compact_length(seq_id.len()) + seq_id)
}

/// The preimage of a business key.
pub open spec fn business_preimage(seed: Seq<u8>, creator: u64, owner: Seq<u8>, nonce: u64) -> Seq<
    u8,
> {
    seed + le_bytes(creator as nat, 8) + owner + le_bytes(nonce as nat, 8)
}

/// The key of a business created by `creator` for `owner` with the given
/// random seed and creation nonce.
pub open spec fn business_key(seed: Seq<u8>, creator: u64, owner: Seq<u8>, nonce: u64) -> Seq<u8> {
    blake2_256_of(business_preimage(seed, creator, owner, nonce))
}

/// The hash of the child of `node` under `label`: the digest of the two
/// hashes encoded one after the other.
pub fn subnode_hash(node: &H256, label: &H256) -> (r: H256)
    ensures
        r@ == subnode_key(node@, label@),
{
    let encoded = encode_hash_pair(node, label);
    blake2_256(&encoded)
}

/// The hash of a product: the digest of the business hash followed by the
/// encoded sequence id.
pub fn product_hash(biz: &H256, seq_id: &Vec<u8>) -> (r: H256)
    requires
        seq_id.len() <= u32::MAX,
    ensures
        r@ == product_key(biz@, seq_id@),
{
    let encoded = encode_hash_and_bytes(biz, seq_id);
    blake2_256(&encoded)
}

/// The hash of a business: the digest of the random seed, the creator, the
/// owner's name hash and the nonce, encoded in that order.
pub fn business_hash(seed: &H256, creator: u64, owner: &H256, nonce: u64) -> (r: H256)
    ensures
        r@ == business_key(seed@, creator, owner@, nonce),
{
    let encoded = encode_business_seed(seed, creator, owner, nonce);
    blake2_256(&encoded)
}

/// `256` to the power `n`.
pub open spec fn pow256(n: nat) -> nat
    decreases n,
{
    if n == 0 {
        1
    } else {
        256 * pow256((n - 1) as nat)
    }
}

/// Two numbers below `256^n` with the same `n` little-endian bytes are equal.
pub proof fn lemma_le_bytes_injective(x: nat, y: nat, n: nat)
    requires
        x < pow256(n),
        y < pow256(n),
        le_bytes(x, n) == le_bytes(y, n),
    ensures
        x == y,
    decreases n,
{
    if n > 0 {
        let p = pow256((n - 1) as nat);
        lemma_le_bytes_len(x / 256, (n - 1) as nat);
        lemma_le_bytes_len(y / 256, (n - 1) as nat);
        assert(le_bytes(x, n)[0] == le_bytes(y, n)[0]);
        assert(le_bytes(x / 256, (n - 1) as nat) =~= le_bytes(x, n).subrange(1, n as int));
        assert(le_bytes(y / 256, (n - 1) as nat) =~= le_bytes(y, n).subrange(1, n as int));
        assert(x / 256 < p) by (nonlinear_arith)
            requires
                x < 256 * p,
        ;
        assert(y / 256 < p) by (nonlinear_arith)
            requires
                y < 256 * p,
        ;
        lemma_le_bytes_injective(x / 256, y / 256, (n - 1) as nat);
        assert(le_bytes(x, n)[0] == (x % 256) as u8);
        assert(le_bytes(y, n)[0] == (y % 256) as u8);
        assert(x % 256 == y % 256);
        assert(x == 256 * (x / 256) + x % 256) by (nonlinear_arith);
        assert(y == 256 * (y / 256) + y % 256) by (nonlinear_arith);
    }
}

/// The length of `le_bytes(x, n)` is `n`.
pub proof fn lemma_le_bytes_len(x: nat, n: nat)
    ensures
        le_bytes(x, n).len() == n,
    decreases n,
{
    if n > 0 {
        lemma_le_bytes_len(x / 256, (n - 1) as nat);
    }
}

/// Business creations by one creator for one owner at two different nonces
/// hash two different preimages, whatever random seeds they draw.
pub proof fn lemma_business_preimages_differ(
    seed1: H256,
    seed2: H256,
    creator: u64,
    owner: H256,
    nonce1: u64,
    nonce2: u64,
)
    requires
        nonce1 != nonce2,
    ensures
        business_preimage(seed1@, creator, owner@, nonce1) != business_preimage(
            seed2@,
            creator,
            owner@,
            nonce2,
        ),
{
    let a = business_preimage(seed1@, creator, owner@, nonce1);
    let b = business_preimage(seed2@, creator, owner@, nonce2);
    lemma_le_bytes_len(creator as nat, 8);
    lemma_le_bytes_len(nonce1 as nat, 8);
    lemma_le_bytes_len(nonce2 as nat, 8);
    assert(a.len() == 80);
    assert(b.len() == 80);
    if a == b {
        assert(a.subrange(72, 80) =~= le_bytes(nonce1 as nat, 8));
        assert(b.subrange(72, 80) =~= le_bytes(nonce2 as nat, 8));
        reveal_with_fuel(pow256, 9);
        assert(pow256(8) == 18446744073709551616);
        lemma_le_bytes_injective(nonce1 as nat, nonce2 as nat, 8);
    }
}

} // verus!
