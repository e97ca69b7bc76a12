use vstd::prelude::*;

use crate::codec::{
    access_list_encoding, encode_access_list, encode_fee_market, encode_legacy, fee_market_encoding,
    keccak256, keccak256_of, legacy_encoding,
};
use crate::envelope::{
    chain_id_of, embedded_chain_id, standard_v, standard_v_of, AccessListEnvelope, Action,
    FeeMarketEnvelope, LegacyEnvelope,
};
use ethereum::AccessListItem;
use crate::word::{word_from_u64, word_of_u64};

verus! {

/// The canonical record of a signed transaction, whatever its generation.
/// Every 256-bit quantity is held as 32 big-endian bytes.
#[derive(Clone, Debug, PartialEq, Eq)]
pub struct Transaction {
    /// Keccak-256 digest of `raw`.
    pub hash: [u8; 32],
    pub nonce: [u8; 32],
    pub block_hash: Option<[u8; 32]>,
    pub block_number: Option<[u8; 32]>,
    pub transaction_index: Option<[u8; 32]>,
    /// Sender; all zero until signature recovery fills it.
    pub from: [u8; 20],
    /// Recipient; none for a contract creation.
    pub to: Option<[u8; 20]>,
    pub value: [u8; 32],
    /// Gas price of the generations before the fee market.
    pub gas_price: Option<[u8; 32]>,
    pub max_fee_per_gas: Option<[u8; 32]>,
    pub max_priority_fee_per_gas: Option<[u8; 32]>,
    /// Gas limit.
    pub gas: [u8; 32],
    pub input: Vec<u8>,
    /// Address of the contract created, once executed.
    pub creates: Option<[u8; 20]>,
    /// The envelope's exact wire bytes.
    pub raw: Vec<u8>,
    pub public_key: Option<[u8; 64]>,
    pub chain_id: Option<u64>,
    /// The signature's parity (0 or 1).
    pub standard_v: [u8; 32],
    pub v: [u8; 32],
    pub r: [u8; 32],
    pub s: [u8; 32],
    pub access_list: Option<Vec<AccessListItem>>,
}

/// Every word and address of `r` is zero, every byte string empty and every
/// optional field unset.
pub open spec fn is_default_record(r: Transaction) -> bool {
    &&& r.hash@ == Seq::new(32, |i: int| 0u8)
    &&& r.nonce@ == Seq::new(32, |i: int| 0u8)
    &&& r.block_hash is None
    &&& r.block_number is None
    &&& r.transaction_index is None
    &&& r.from@ == Seq::new(20, |i: int| 0u8)
    &&& r.to is None
    &&& r.value@ == Seq::new(32, |i: int| 0u8)
    &&& r.gas_price is None
    &&& r.max_fee_per_gas is None
    &&& r.max_priority_fee_per_gas is None
    &&& r.gas@ == Seq::new(32, |i: int| 0u8)
    &&& r.input@.len() == 0
    &&& r.creates is None
    &&& r.raw@.len() == 0
    &&& r.public_key is None
    &&& r.chain_id is None
    &&& r.standard_v@ == Seq::new(32, |i: int| 0u8)
    &&& r.v@ == Seq::new(32, |i: int| 0u8)
    &&& r.r@ == Seq::new(32, |i: int| 0u8)
    &&& r.s@ == Seq::new(32, |i: int| 0u8)
    &&& r.access_list is None
}

impl Default for Transaction {
    /// The record with every word and address zero, every byte string empty
    /// and every optional field unset.
    fn default() -> (r: Transaction)
        ensures
            is_default_record(r),
    {
        let r = Transaction {
            hash: [0u8; 32],
            nonce: [0u8; 32],
            block_hash: None,
            block_number: None,
            transaction_index: None,
            from: [0u8; 20],
            to: None,
            value: [0u8; 32],
            gas_price: None,
            max_fee_per_gas: None,
            max_priority_fee_per_gas: None,
            gas: [0u8; 32],
            input: Vec::new(),
            creates: None,
            raw: Vec::new(),
            public_key: None,
            chain_id: None,
            standard_v: [0u8; 32],
            v: [0u8; 32],
            r: [0u8; 32],
            s: [0u8; 32],
            access_list: None,
        };
        assert(r.hash@ =~= Seq::new(32, |i: int| 0u8));
        assert(r.from@ =~= Seq::new(20, |i: int| 0u8));
        r
    }
}

/// A signed transaction of any of the three generations.
#[derive(Clone, Debug, PartialEq, Eq)]
pub enum Envelope {
    Legacy(LegacyEnvelope),
    AccessList(AccessListEnvelope),
    FeeMarket(FeeMarketEnvelope),
}

impl Envelope {
    /// The signature is one that the envelope decoder accepts.
    pub open spec fn well_formed(&self) -> bool {
        match self {
            Envelope::Legacy(t) => t.well_formed(),
            Envelope::AccessList(t) => t.well_formed(),
            Envelope::FeeMarket(t) => t.well_formed(),
        }
    }

    /// Whether the signature is one that the envelope decoder accepts.
    pub fn is_well_formed(&self) -> (r: bool)
        ensures
            r == self.well_formed(),
    {
        match self {
            Envelope::Legacy(t) => t.is_well_formed(),
            Envelope::AccessList(t) => t.is_well_formed(),
            Envelope::FeeMarket(t) => t.is_well_formed(),
        }
    }

    /// The envelope's wire bytes.
    pub open spec fn encoding(&self) -> Seq<u8> {
        match self {
            Envelope::Legacy(t) => legacy_encoding(*t),
            Envelope::AccessList(t) => access_list_encoding(*t),
            Envelope::FeeMarket(t) => fee_market_encoding(*t),
        }
    }
}

/// The recipient that an action names: none for a contract creation.
pub open spec fn recipient_of(a: Action) -> Option<[u8; 20]> {
    match a {
        Action::Call(to) => Some(to),
        Action::Create => None,
    }
}

/// The parity bit as a 256-bit word.
pub open spec fn parity_word(odd: bool) -> Seq<u8> {
    word_of_u64(if odd { 1 } else { 0 })
}

/// What no envelope can tell: placement in a block, sender, created contract, public key.
pub open spec fn unplaced(r: Transaction) -> bool {
    &&& r.block_hash is None
    &&& r.block_number is None
    &&& r.transaction_index is None
    &&& r.from@ == Seq::new(20, |i: int| 0u8)
    &&& r.creates is None
    &&& r.public_key is None
}

/// `r` carries `raw` as its wire bytes and its digest as identifier.
pub open spec fn identified_by(r: Transaction, raw: Seq<u8>) -> bool {
    r.raw@ == raw && r.hash@ == keccak256_of(raw)
}

/// `r` is the record of `t`: the legacy gas price, the normalized recovery id
/// (the parity) as both `v` and `standard_v`, the chain id that `t.v` embeds, and
/// no access list.
pub open spec fn is_legacy_record(r: Transaction, t: LegacyEnvelope) -> bool {
    &&& identified_by(r, legacy_encoding(t))
    &&& unplaced(r)
    &&& r.nonce == t.nonce
    &&& r.to == recipient_of(t.action)
    &&& r.value == t.value
    &&& r.gas_price == Some(t.gas_price)
    &&& r.max_fee_per_gas is None
    &&& r.max_priority_fee_per_gas is None
    &&& r.gas == t.gas_limit
    &&& r.input@ == t.input@
    &&& r.chain_id == chain_id_of(t.v)
    &&& r.standard_v@ == word_of_u64(standard_v_of(t.v))
    &&& r.v@ == word_of_u64(standard_v_of(t.v))
    &&& r.r == t.r
    &&& r.s == t.s
    &&& r.access_list is None
}

/// `r` is the record of `t`: its gas price, the parity bit as both `v` and
/// `standard_v`, its explicit chain id and its access list.
pub open spec fn is_access_list_record(r: Transaction, t: AccessListEnvelope) -> bool {
    &&& identified_by(r, access_list_encoding(t))
    &&& unplaced(r)
    &&& r.nonce == t.nonce
    &&& r.to == recipient_of(t.action)
    &&& r.value == t.value
    &&& r.gas_price == Some(t.gas_price)
    &&& r.max_fee_per_gas is None
    &&& r.max_priority_fee_per_gas is None
    &&& r.gas == t.gas_limit
    &&& r.input@ == t.input@
    &&& r.chain_id == Some(t.chain_id)
    &&& r.standard_v@ == parity_word(t.odd_y_parity)
    &&& r.v@ == parity_word(t.odd_y_parity)
    &&& r.r == t.r
    &&& r.s == t.s
    &&& r.access_list == Some(t.access_list)
}

/// `r` is the record of `t`: both maximum fees and no gas price, the parity bit
/// as both `v` and `standard_v`, its explicit chain id and its access list.
pub open spec fn is_fee_market_record(r: Transaction, t: FeeMarketEnvelope) -> bool {
    &&& identified_by(r, fee_market_encoding(t))
    &&& unplaced(r)
    &&& r.nonce == t.nonce
    &&& r.to == recipient_of(t.action)
    &&& r.value == t.value
    &&& r.gas_price is None
    &&& r.max_fee_per_gas == Some(t.max_fee_per_gas)
    &&& r.max_priority_fee_per_gas == Some(t.max_priority_fee_per_gas)
    &&& r.gas == t.gas_limit
    &&& r.input@ == t.input@
    &&& r.chain_id == Some(t.chain_id)
    &&& r.standard_v@ == parity_word(t.odd_y_parity)
    &&& r.v@ == parity_word(t.odd_y_parity)
    &&& r.r == t.r
    &&& r.s == t.s
    &&& r.access_list == Some(t.access_list)
}

/// `r` is the canonical record of `e`.
pub open spec fn is_record_of(r: Transaction, e: Envelope) -> bool {
    match e {
        Envelope::Legacy(t) => is_legacy_record(r, t),
        Envelope::AccessList(t) => is_access_list_record(r, t),
        Envelope::FeeMarket(t) => is_fee_market_record(r, t),
    }
}

fn recipient(a: Action) -> (r: Option<[u8; 20]>)
    ensures
        r == recipient_of(a),
{
    match a {
        Action::Call(to) => Some(to),
        Action::Create => None,
    }
}

fn parity(odd: bool) -> (r: [u8; 32])
    ensures
        r@ == parity_word(odd),
{
    word_from_u64(if odd { 1 } else { 0 })
}

/// The fields that set one generation's record apart from another's.
struct Generation {
    gas_price: Option<[u8; 32]>,
    max_fee_per_gas: Option<[u8; 32]>,
    max_priority_fee_per_gas: Option<[u8; 32]>,
    chain_id: Option<u64>,
    standard_v: [u8; 32],
    v: [u8; 32],
    access_list: Option<Vec<AccessListItem>>,
}

/// The fields that every generation carries alike.
struct Common {
    nonce: [u8; 32],
    action: Action,
    value: [u8; 32],
    gas_limit: [u8; 32],
    input: Vec<u8>,
    r: [u8; 32],
    s: [u8; 32],
}

/// The record of an envelope whose wire bytes are `raw`.
fn assemble(raw: Vec<u8>, c: Common, g: Generation) -> (r: Transaction)
    ensures
        identified_by(r, raw@),
        unplaced(r),
        r.nonce == c.nonce,
        r.to == recipient_of(c.action),
        r.value == c.value,
        r.gas_price == g.gas_price,
        r.max_fee_per_gas == g.max_fee_per_gas,
        r.max_priority_fee_per_gas == g.max_priority_fee_per_gas,
        r.gas == c.gas_limit,
        r.input@ == c.input@,
        r.chain_id == g.chain_id,
        r.standard_v == g.standard_v,
        r.v == g.v,
        r.r == c.r,
        r.s == c.s,
        r.access_list == g.access_list,
{
    let hash = keccak256(&raw);
    let r = Transaction {
        hash,
        nonce: c.nonce,
        block_hash: None,
        block_number: None,
        transaction_index: None,
        from: [0u8; 20],
        to: recipient(c.action),
        value: c.value,
        gas_price: g.gas_price,
        max_fee_per_gas: g.max_fee_per_gas,
        max_priority_fee_per_gas: g.max_priority_fee_per_gas,
        gas: c.gas_limit,
        input: c.input,
        creates: None,
        raw,
        public_key: None,
        chain_id: g.chain_id,
        standard_v: g.standard_v,
        v: g.v,
        r: c.r,
        s: c.s,
        access_list: g.access_list,
    };
    assert(r.from@ =~= Seq::new(20, |i: int| 0u8));
    r
}

impl Transaction {
    /// The canonical record of an envelope of the oldest generation.
    pub fn from_legacy(t: LegacyEnvelope) -> (r: Transaction)
        requires
            t.well_formed(),
        ensures
            is_legacy_record(r, t),
    {
        let raw = encode_legacy(&t);
        let sv = standard_v(t.v);
        let g = Generation {
            gas_price: Some(t.gas_price),
            max_fee_per_gas: None,
            max_priority_fee_per_gas: None,
            chain_id: embedded_chain_id(t.v),
            standard_v: word_from_u64(sv),
            v: word_from_u64(sv),
            access_list: None,
        };
        let c = Common {
            nonce: t.nonce,
            action: t.action,
            value: t.value,
            gas_limit: t.gas_limit,
            input: t.input,
            r: t.r,
            s: t.s,
        };
        assemble(raw, c, g)
    }

    /// The canonical record of an access-list envelope.
    pub fn from_access_list(t: AccessListEnvelope) -> (r: Transaction)
        requires
            t.well_formed(),
        ensures
            is_access_list_record(r, t),
    {
        let raw = encode_access_list(&t);
        let g = Generation {
            gas_price: Some(t.gas_price),
            max_fee_per_gas: None,
            max_priority_fee_per_gas: None,
            chain_id: Some(t.chain_id),
            standard_v: parity(t.odd_y_parity),
            v: parity(t.odd_y_parity),
            access_list: Some(t.access_list),
        };
        let c = Common {
            nonce: t.nonce,
            action: t.action,
            value: t.value,
            gas_limit: t.gas_limit,
            input: t.input,
            r: t.r,
            s: t.s,
        };
        assemble(raw, c, g)
    }

    /// The canonical record of a fee-market envelope.
    pub fn from_fee_market(t: FeeMarketEnvelope) -> (r: Transaction)
        requires
            t.well_formed(),
        ensures
            is_fee_market_record(r, t),
    {
        let raw = encode_fee_market(&t);
        let g = Generation {
            gas_price: None,
            max_fee_per_gas: Some(t.max_fee_per_gas),
            max_priority_fee_per_gas: Some(t.max_priority_fee_per_gas),
            chain_id: Some(t.chain_id),
            standard_v: parity(t.odd_y_parity),
            v: parity(t.odd_y_parity),
            access_list: Some(t.access_list),
        };
        let c = Common {
            nonce: t.nonce,
            action: t.action,
            value: t.value,
            gas_limit: t.gas_limit,
            input: t.input,
            r: t.r,
            s: t.s,
        };
        assemble(raw, c, g)
    }

    /// The canonical record of an envelope of any generation.
    pub fn from_envelope(e: Envelope) -> (r: Transaction)
        requires
            e.well_formed(),
        ensures
            is_record_of(r, e),
    {
        match e {
            Envelope::Legacy(t) => Transaction::from_legacy(t),
            Envelope::AccessList(t) => Transaction::from_access_list(t),
            Envelope::FeeMarket(t) => Transaction::from_fee_market(t),
        }
    }
}

/// A transaction's wire bytes together with its record, as handed back to a
/// caller that asks for both.
#[derive(Clone, Debug, PartialEq, Eq)]
pub struct RichRawTransaction {
    pub raw: Vec<u8>,
    pub transaction: Transaction,
}

impl Default for RichRawTransaction {
    /// No wire bytes, and the default record.
    fn default() -> (r: RichRawTransaction)
        ensures
            r.raw@.len() == 0,
            is_default_record(r.transaction),
    {
        RichRawTransaction { raw: Vec::new(), transaction: Transaction::default() }
    }
}

/// A transaction not yet included, with the block height at which it was submitted.
#[derive(Clone, Debug, PartialEq, Eq)]
pub struct PendingTransaction {
    pub transaction: Transaction,
    pub at_block: u64,
}

impl PendingTransaction {
    /// A record submitted at block height `at_block`.
    pub fn new(transaction: Transaction, at_block: u64) -> (r: PendingTransaction)
        ensures
            r.transaction == transaction,
            r.at_block == at_block,
    {
        PendingTransaction { transaction, at_block }
    }
}

} // verus!
