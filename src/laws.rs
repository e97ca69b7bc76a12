use vstd::prelude::*;

use crate::codec::keccak256_of;
use crate::status::{LocalTransactionStatus, StatusField};
use crate::transaction::{is_record_of, Envelope, Transaction};

verus! {

/// For every generation, the record's identifier is the Keccak-256 digest of
/// its raw bytes, and those bytes are the envelope's own wire encoding.
pub proof fn identifier_is_digest_of_raw(e: Envelope, r: Transaction)
    requires
        is_record_of(r, e),
    ensures
        r.hash@ == keccak256_of(r.raw@),
        r.raw@ == e.encoding(),
{
}

/// For every generation, the record's `v` is the normalized recovery id: the
/// same word as `standard_v`.
pub proof fn v_is_standard_v(e: Envelope, r: Transaction)
    requires
        is_record_of(r, e),
    ensures
        r.v@ == r.standard_v@,
{
}

/// Exactly one fee family is set: the gas price for the two older generations,
/// both maximum fees for the fee-market one.
pub proof fn fee_fields_exclusive(e: Envelope, r: Transaction)
    requires
        is_record_of(r, e),
    ensures
        !(e is FeeMarket) ==> {
            &&& r.gas_price is Some
            &&& r.max_fee_per_gas is None
            &&& r.max_priority_fee_per_gas is None
        },
        e is FeeMarket ==> {
            &&& r.gas_price is None
            &&& r.max_fee_per_gas is Some
            &&& r.max_priority_fee_per_gas is Some
        },
{
}

/// The access list is absent for the oldest generation and present (perhaps
/// empty) for the two later ones, where it is the envelope's own.
pub proof fn access_list_presence(e: Envelope, r: Transaction)
    requires
        is_record_of(r, e),
    ensures
        e is Legacy <==> r.access_list is None,
        e is AccessList ==> r.access_list == Some(e->AccessList_0.access_list),
        e is FeeMarket ==> r.access_list == Some(e->FeeMarket_0.access_list),
{
}

/// A pending status serializes to the single field `status`, holding "pending".
pub proof fn pending_serializes_to_status_alone(fs: Seq<StatusField<'_>>)
    requires
        LocalTransactionStatus::Pending.serializes_to(fs),
    ensures
        fs.len() == 1,
        fs[0].name_spec() == "status"@,
        fs[0]->Status_0@ == "pending"@,
{
}

/// A replacement serializes to exactly four fields: `status`, `transaction`,
/// `hash` and `gasPrice`, in that order, holding the tag, the record, the
/// replacement's identifier and its gas price.
pub proof fn replaced_serializes_to_four_fields(
    tx: Transaction,
    gas_price: [u8; 32],
    hash: [u8; 32],
    fs: Seq<StatusField<'_>>,
)
    requires
        LocalTransactionStatus::Replaced(tx, gas_price, hash).serializes_to(fs),
    ensures
        fs.len() == 4,
        fs.map_values(|f: StatusField<'_>| f.name_spec()) =~= seq![
            "status"@,
            "transaction"@,
            "hash"@,
            "gasPrice"@,
        ],
        fs[0]->Status_0@ == "replaced"@,
        *fs[1]->Transaction_0 == tx,
        *fs[2]->Hash_0 == hash,
        *fs[3]->GasPrice_0 == gas_price,
{
}

} // verus!
