use vstd::prelude::*;

use crate::bytes::extend_bytes;
use crate::types::AccountId;

verus! {

/// The eight bytes of `x`, least significant first.
pub open spec fn le_bytes_u64(x: u64) -> Seq<u8> {
    seq![
        x as u8,
        (x >> 8u64) as u8,
        (x >> 16u64) as u8,
        (x >> 24u64) as u8,
        (x >> 32u64) as u8,
        (x >> 40u64) as u8,
        (x >> 48u64) as u8,
        (x >> 56u64) as u8,
    ]
}

/// The SCALE encoding of an account: `parity_scale_codec::Encode::encode` on a `u64`.
/// The crate encodes a fixed-width integer as its little-endian bytes (`to_le_bytes`),
/// so the contract claims that the result is those eight bytes.
#[verifier::external_body]
fn scale_encode_account(x: AccountId) -> (r: Vec<u8>)
    ensures
        r@ == le_bytes_u64(x),
{
    parity_scale_codec::Encode::encode(&x)
}

/// The seed from which an order identifier is drawn: the block hash, then the
/// encoded client, then the encoded provider.
pub open spec fn sorder_seed_spec(block_hash: Seq<u8>, client: AccountId, provider: AccountId) -> Seq<u8> {
    block_hash + le_bytes_u64(client) + le_bytes_u64(provider)
}

/// Builds the seed `[ block_hash, client, provider ]` that the runtime's randomness
/// turns into the identifier of a new storage order.
pub fn sorder_seed(block_hash: &[u8; 32], client: AccountId, provider: AccountId) -> (seed: Vec<u8>)
    ensures
        seed@ == sorder_seed_spec(block_hash@, client, provider),
{
    let mut seed: Vec<u8> = Vec::new();
    extend_bytes(&mut seed, block_hash.as_slice());
    let c = scale_encode_account(client);
    extend_bytes(&mut seed, c.as_slice());
    let p = scale_encode_account(provider);
    extend_bytes(&mut seed, p.as_slice());
    assert(seed@ =~= sorder_seed_spec(block_hash@, client, provider));
    seed
}

} // verus!
