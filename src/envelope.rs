use vstd::prelude::*;

use ethereum::AccessListItem;

verus! {

/// Where a transaction goes: a call to an account, or the creation of a contract.
#[derive(Clone, Copy, Debug, PartialEq, Eq)]
pub enum Action {
    Call([u8; 20]),
    Create,
}

/// A pre-declared storage access (an account and storage keys), carried
/// through unread.
#[verifier::external_type_specification]
#[verifier::external_body]
pub struct ExAccessListItem(AccessListItem);

/// A signed transaction of the oldest generation: a single gas price, and a
/// signature whose `v` may embed a chain id (replay protection).
/// Every 256-bit quantity is held as 32 big-endian bytes.
#[derive(Clone, Debug, PartialEq, Eq)]
pub struct LegacyEnvelope {
    pub nonce: [u8; 32],
    pub gas_price: [u8; 32],
    pub gas_limit: [u8; 32],
    pub action: Action,
    pub value: [u8; 32],
    pub input: Vec<u8>,
    pub v: u64,
    pub r: [u8; 32],
    pub s: [u8; 32],
}

/// A signed transaction of the second generation (type byte 1): a gas price,
/// an explicit chain id and an access list, signed with a parity bit.
#[derive(Clone, Debug, PartialEq, Eq)]
pub struct AccessListEnvelope {
    pub chain_id: u64,
    pub nonce: [u8; 32],
    pub gas_price: [u8; 32],
    pub gas_limit: [u8; 32],
    pub action: Action,
    pub value: [u8; 32],
    pub input: Vec<u8>,
    pub access_list: Vec<AccessListItem>,
    pub odd_y_parity: bool,
    pub r: [u8; 32],
    pub s: [u8; 32],
}

/// A signed transaction of the fee-market generation (type byte 2): a maximum
/// fee and a maximum priority fee per unit of gas instead of a gas price.
#[derive(Clone, Debug, PartialEq, Eq)]
pub struct FeeMarketEnvelope {
    pub chain_id: u64,
    pub nonce: [u8; 32],
    pub max_priority_fee_per_gas: [u8; 32],
    pub max_fee_per_gas: [u8; 32],
    pub gas_limit: [u8; 32],
    pub action: Action,
    pub value: [u8; 32],
    pub input: Vec<u8>,
    pub access_list: Vec<AccessListItem>,
    pub odd_y_parity: bool,
    pub r: [u8; 32],
    pub s: [u8; 32],
}

/// `a < b`, both read as big-endian unsigned integers of the same width: they
/// agree up to some byte, where `a`'s is the smaller.
pub open spec fn be_lt(a: Seq<u8>, b: Seq<u8>) -> bool {
    exists|k: int|
        0 <= k < a.len() && k < b.len() && a[k] < b[k] && forall|j: int|
            0 <= j < k ==> a[j] == b[j]
}

/// The order of the secp256k1 group, big-endian.
pub open spec fn curve_order() -> Seq<u8> {
    seq![
        0xffu8, 0xff, 0xff, 0xff, 0xff, 0xff, 0xff, 0xff, 0xff, 0xff, 0xff, 0xff, 0xff, 0xff,
        0xff, 0xfe, 0xba, 0xae, 0xdc, 0xe6, 0xaf, 0x48, 0xa0, 0x3b, 0xbf, 0xd2, 0x5e, 0x8c,
        0xd0, 0x36, 0x41, 0x41,
    ]
}

/// A signature component lies in `1 .. n`, `n` the curve order.
pub open spec fn scalar_in_range(x: Seq<u8>) -> bool {
    (exists|i: int| 0 <= i < x.len() && x[i] != 0) && be_lt(x, curve_order())
}

/// A recovery id that the oldest generation accepts: 27 or 28, or above 36
/// (one that carries a chain id).
pub open spec fn recovery_id_valid(v: u64) -> bool {
    v == 27 || v == 28 || v > 36
}

/// The parity (0 or 1) that a recovery id stands for; 4 for one that stands for none.
pub open spec fn standard_v_of(v: u64) -> u64 {
    if recovery_id_valid(v) {
        ((v - 1) as u64) % 2
    } else {
        4
    }
}

/// The chain id that a recovery id embeds, if any.
pub open spec fn chain_id_of(v: u64) -> Option<u64> {
    if v > 36 {
        Some(((v - 35) as u64) / 2)
    } else {
        None
    }
}

/// The order of the secp256k1 group, big-endian.
const CURVE_ORDER: [u8; 32] = [
    0xff, 0xff, 0xff, 0xff, 0xff, 0xff, 0xff, 0xff, 0xff, 0xff, 0xff, 0xff, 0xff, 0xff, 0xff, 0xfe,
    0xba, 0xae, 0xdc, 0xe6, 0xaf, 0x48, 0xa0, 0x3b, 0xbf, 0xd2, 0x5e, 0x8c, 0xd0, 0x36, 0x41, 0x41,
];

/// Whether a signature component lies in `1 .. n`, `n` the curve order.
pub fn scalar_valid(x: &[u8; 32]) -> (r: bool)
    ensures
        r == scalar_in_range(x@),
{
    let order = CURVE_ORDER;
    assert(order@ =~= curve_order());
    let mut nonzero = false;
    let mut i: usize = 0;
    while i < 32
        invariant
            i <= 32,
            nonzero <==> exists|j: int| 0 <= j < i && x@[j] != 0,
        decreases 32 - i,
    {
        if x[i] != 0 {
            nonzero = true;
        }
        i = i + 1;
    }
    let mut k: usize = 0;
    while k < 32 && x[k] == order[k]
        invariant
            k <= 32,
            order@ == curve_order(),
            forall|j: int| 0 <= j < k ==> x@[j] == order@[j],
        decreases 32 - k,
    {
        k = k + 1;
    }
    let below = k < 32 && x[k] < order[k];
    if k < 32 && !below {
        assert forall|m: int|
            0 <= m < 32 && x@[m] < curve_order()[m] implies !(forall|j: int|
                0 <= j < m ==> x@[j] == curve_order()[j]) by {
            if m < k {
            } else if m > k {
                assert(x@[k as int] != curve_order()[k as int]);
            }
        }
    }
    nonzero && below
}

impl LegacyEnvelope {
    /// The signature is one that the envelope decoder accepts.
    pub open spec fn well_formed(&self) -> bool {
        recovery_id_valid(self.v) && scalar_in_range(self.r@) && scalar_in_range(self.s@)
    }
}

impl LegacyEnvelope {
    /// Whether the signature is one that the envelope decoder accepts.
    pub fn is_well_formed(&self) -> (r: bool)
        ensures
            r == self.well_formed(),
    {
        (self.v == 27 || self.v == 28 || self.v > 36) && scalar_valid(&self.r) && scalar_valid(&self.s)
    }
}

impl AccessListEnvelope {
    /// Whether the signature is one that the envelope decoder accepts.
    pub fn is_well_formed(&self) -> (r: bool)
        ensures
            r == self.well_formed(),
    {
        scalar_valid(&self.r) && scalar_valid(&self.s)
    }
}

impl AccessListEnvelope {
    /// The signature is one that the envelope decoder accepts.
    pub open spec fn well_formed(&self) -> bool {
        scalar_in_range(self.r@) && scalar_in_range(self.s@)
    }
}

impl FeeMarketEnvelope {
    /// Whether the signature is one that the envelope decoder accepts.
    pub fn is_well_formed(&self) -> (r: bool)
        ensures
            r == self.well_formed(),
    {
        scalar_valid(&self.r) && scalar_valid(&self.s)
    }
}

impl FeeMarketEnvelope {
    /// The signature is one that the envelope decoder accepts.
    pub open spec fn well_formed(&self) -> bool {
        scalar_in_range(self.r@) && scalar_in_range(self.s@)
    }
}

/// The parity (0 or 1) that a recovery id stands for, or 4 where it stands for none.
pub fn standard_v(v: u64) -> (r: u64)
    ensures
        r == standard_v_of(v),
{
    if v == 27 || v == 28 || v > 36 {
        (v - 1) % 2
    } else {
        4
    }
}

/// The chain id that a recovery id embeds: `(v - 35) / 2` above 36, else none.
pub fn embedded_chain_id(v: u64) -> (r: Option<u64>)
    ensures
        r == chain_id_of(v),
{
    if v > 36 {
        Some((v - 35) / 2)
    } else {
        None
    }
}

} // verus!
