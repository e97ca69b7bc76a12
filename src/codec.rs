use vstd::prelude::*;

use crate::envelope::{AccessListEnvelope, Action, FeeMarketEnvelope, LegacyEnvelope};
use ethereum::eip2930::TransactionSignature as Signature;
use ethereum::{EnvelopedEncodable, TransactionAction as To, TransactionV2 as V2};
use ethereum_types::{H160, H256, U256};
use sha3::Digest;

verus! {

/// The wire bytes of an envelope of the oldest generation: its RLP list, with no type byte.
pub uninterp spec fn legacy_encoding(t: LegacyEnvelope) -> Seq<u8>;

/// The wire bytes of an access-list envelope: type byte 1, then its RLP list.
pub uninterp spec fn access_list_encoding(t: AccessListEnvelope) -> Seq<u8>;

/// The wire bytes of a fee-market envelope: type byte 2, then its RLP list.
pub uninterp spec fn fee_market_encoding(t: FeeMarketEnvelope) -> Seq<u8>;

/// The Keccak-256 digest of a byte sequence.
pub uninterp spec fn keccak256_of(data: Seq<u8>) -> Seq<u8>;

/// Relies on ethereum's `EnvelopedEncodable::encode` for `LegacyTransaction`: the
/// envelope's wire bytes, which depend on its fields alone. The signature is
/// rebuilt with `TransactionSignature::new`, which accepts every well-formed one.
#[verifier::external_body]
pub(crate) fn encode_legacy(t: &LegacyEnvelope) -> (r: Vec<u8>)
    requires
        t.well_formed(),
    ensures
        r@ == legacy_encoding(*t),
{
    let w = |b: &[u8]| U256::from_big_endian(b);
    let signature = ethereum::legacy::TransactionSignature::new(t.v, H256(t.r), H256(t.s)).unwrap();
    let tx = ethereum::LegacyTransaction { nonce: w(&t.nonce), gas_price: w(&t.gas_price),
        gas_limit: w(&t.gas_limit),
        action: match t.action { Action::Call(a) => To::Call(H160(a)), _ => To::Create },
        value: w(&t.value), input: t.input.clone(), signature };
    tx.encode().to_vec()
}

/// Relies on ethereum's `EnvelopedEncodable::encode` for `TransactionV2::EIP2930`:
/// the envelope's wire bytes, which depend on its fields alone. The signature is
/// rebuilt with `TransactionSignature::new`, which accepts every well-formed one.
#[verifier::external_body]
pub(crate) fn encode_access_list(t: &AccessListEnvelope) -> (r: Vec<u8>)
    requires
        t.well_formed(),
    ensures
        r@ == access_list_encoding(*t),
        r@.len() > 0 && r@[0] == 1,
{
    let w = |b: &[u8]| U256::from_big_endian(b);
    let tx = ethereum::EIP2930Transaction { chain_id: t.chain_id, nonce: w(&t.nonce),
        gas_price: w(&t.gas_price), gas_limit: w(&t.gas_limit),
        action: match t.action { Action::Call(a) => To::Call(H160(a)), _ => To::Create },
        value: w(&t.value), input: t.input.clone(), access_list: t.access_list.clone(),
        signature: Signature::new(t.odd_y_parity, H256(t.r), H256(t.s)).unwrap() };
    V2::EIP2930(tx).encode().to_vec()
}

/// Relies on ethereum's `EnvelopedEncodable::encode` for `TransactionV2::EIP1559`:
/// the envelope's wire bytes, which depend on its fields alone. The signature is
/// rebuilt with `TransactionSignature::new`, which accepts every well-formed one.
#[verifier::external_body]
pub(crate) fn encode_fee_market(t: &FeeMarketEnvelope) -> (r: Vec<u8>)
    requires
        t.well_formed(),
    ensures
        r@ == fee_market_encoding(*t),
        r@.len() > 0 && r@[0] == 2,
{
    let w = |b: &[u8]| U256::from_big_endian(b);
    let tx = ethereum::EIP1559Transaction { chain_id: t.chain_id, nonce: w(&t.nonce),
        max_priority_fee_per_gas: w(&t.max_priority_fee_per_gas), max_fee_per_gas: w(&t.max_fee_per_gas),
        gas_limit: w(&t.gas_limit),
        action: match t.action { Action::Call(a) => To::Call(H160(a)), _ => To::Create },
        value: w(&t.value), input: t.input.clone(), access_list: t.access_list.clone(),
        signature: Signature::new(t.odd_y_parity, H256(t.r), H256(t.s)).unwrap() };
    V2::EIP1559(tx).encode().to_vec()
}

/// Relies on sha3's `Keccak256::digest`: the 32-byte Keccak-256 digest of the bytes.
#[verifier::external_body]
pub(crate) fn keccak256(data: &Vec<u8>) -> (r: [u8; 32])
    ensures
        r@ == keccak256_of(data@),
{
    sha3::Keccak256::digest(data).into()
}

} // verus!
