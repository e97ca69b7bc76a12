use vstd::prelude::*;

use crate::transaction::Transaction;

verus! {

/// Where a transaction stands in a pending-transaction queue.
#[derive(Clone, Debug)]
pub enum LocalTransactionStatus {
    /// Waiting in the ready part of the queue.
    Pending,
    /// Waiting in the future part of the queue.
    Future,
    /// Included in a block.
    Mined(Transaction),
    /// Removed from the queue without being mined.
    Culled(Transaction),
    /// Dropped because the queue was full.
    Dropped(Transaction),
    /// Replaced by one with a higher gas price: that price, then its identifier.
    Replaced(Transaction, [u8; 32], [u8; 32]),
    /// Never let into the queue, for the reason given.
    Rejected(Transaction, String),
    /// Found invalid.
    Invalid(Transaction),
    /// Canceled.
    Canceled(Transaction),
}

/// One named field of a serialized status, borrowing its value.
#[derive(Clone, Copy, Debug)]
pub enum StatusField<'a> {
    /// `status`: the arm's tag.
    Status(&'a str),
    /// `transaction`: the record, inline.
    Transaction(&'a Transaction),
    /// `error`: the reason for a rejection.
    Error(&'a String),
    /// `hash`: the identifier of the replacement.
    Hash(&'a [u8; 32]),
    /// `gasPrice`: the gas price of the replacement.
    GasPrice(&'a [u8; 32]),
}

impl<'a> StatusField<'a> {
    /// The field's name in the serialized structure.
    pub open spec fn name_spec(&self) -> Seq<char> {
        match self {
            StatusField::Status(_) => "status"@,
            StatusField::Transaction(_) => "transaction"@,
            StatusField::Error(_) => "error"@,
            StatusField::Hash(_) => "hash"@,
            StatusField::GasPrice(_) => "gasPrice"@,
        }
    }

    /// The field's name in the serialized structure.
    pub fn name(&self) -> (r: &'static str)
        ensures
            r@ == self.name_spec(),
    {
        match self {
            StatusField::Status(_) => "status",
            StatusField::Transaction(_) => "transaction",
            StatusField::Error(_) => "error",
            StatusField::Hash(_) => "hash",
            StatusField::GasPrice(_) => "gasPrice",
        }
    }
}

impl LocalTransactionStatus {
    /// The lowercase tag that names the arm.
    pub open spec fn tag_spec(&self) -> Seq<char> {
        match self {
            LocalTransactionStatus::Pending => "pending"@,
            LocalTransactionStatus::Future => "future"@,
            LocalTransactionStatus::Mined(_) => "mined"@,
            LocalTransactionStatus::Culled(_) => "culled"@,
            LocalTransactionStatus::Dropped(_) => "dropped"@,
            LocalTransactionStatus::Replaced(..) => "replaced"@,
            LocalTransactionStatus::Rejected(..) => "rejected"@,
            LocalTransactionStatus::Invalid(_) => "invalid"@,
            LocalTransactionStatus::Canceled(_) => "canceled"@,
        }
    }

    /// How many fields the arm serializes to.
    pub open spec fn field_count_spec(&self) -> nat {
        match self {
            LocalTransactionStatus::Pending | LocalTransactionStatus::Future => 1,
            LocalTransactionStatus::Rejected(..) => 3,
            LocalTransactionStatus::Replaced(..) => 4,
            _ => 2,
        }
    }

    /// The record that the arm carries, if any.
    pub open spec fn transaction_spec(&self) -> Option<Transaction> {
        match self {
            LocalTransactionStatus::Pending | LocalTransactionStatus::Future => None,
            LocalTransactionStatus::Mined(tx) | LocalTransactionStatus::Culled(tx)
            | LocalTransactionStatus::Dropped(tx) | LocalTransactionStatus::Invalid(tx)
            | LocalTransactionStatus::Canceled(tx) | LocalTransactionStatus::Rejected(tx, _)
            | LocalTransactionStatus::Replaced(tx, _, _) => Some(*tx),
        }
    }

    /// `fs` is the arm's serialized structure: `status` with the tag; then, where
    /// the arm carries a record, `transaction`; then `error` for a rejection, or
    /// `hash` and `gasPrice` for a replacement. No other field appears.
    pub open spec fn serializes_to(&self, fs: Seq<StatusField<'_>>) -> bool {
        &&& fs.len() == self.field_count_spec()
        &&& fs[0] is Status
        &&& fs[0]->Status_0@ == self.tag_spec()
        &&& self.transaction_spec() is Some ==> fs[1] is Transaction && *fs[1]->Transaction_0
            == self.transaction_spec()->0
        &&& match self {
            LocalTransactionStatus::Rejected(_, reason) => fs[2] is Error && *fs[2]->Error_0
                == *reason,
            LocalTransactionStatus::Replaced(_, gas_price, hash) => {
                &&& fs[2] is Hash
                &&& *fs[2]->Hash_0 == *hash
                &&& fs[3] is GasPrice
                &&& *fs[3]->GasPrice_0 == *gas_price
            },
            _ => true,
        }
    }

    /// The lowercase tag that names the arm.
    pub fn tag(&self) -> (r: &'static str)
        ensures
            r@ == self.tag_spec(),
    {
        match self {
            LocalTransactionStatus::Pending => "pending",
            LocalTransactionStatus::Future => "future",
            LocalTransactionStatus::Mined(_) => "mined",
            LocalTransactionStatus::Culled(_) => "culled",
            LocalTransactionStatus::Dropped(_) => "dropped",
            LocalTransactionStatus::Replaced(..) => "replaced",
            LocalTransactionStatus::Rejected(..) => "rejected",
            LocalTransactionStatus::Invalid(_) => "invalid",
            LocalTransactionStatus::Canceled(_) => "canceled",
        }
    }

    /// How many fields the arm serializes to, declared before the first one.
    pub fn field_count(&self) -> (r: usize)
        ensures
            r == self.field_count_spec(),
    {
        match self {
            LocalTransactionStatus::Pending | LocalTransactionStatus::Future => 1,
            LocalTransactionStatus::Mined(..) | LocalTransactionStatus::Culled(..)
            | LocalTransactionStatus::Dropped(..) | LocalTransactionStatus::Invalid(..)
            | LocalTransactionStatus::Canceled(..) => 2,
            LocalTransactionStatus::Rejected(..) => 3,
            LocalTransactionStatus::Replaced(..) => 4,
        }
    }

    /// The fields of the serialized structure, in the order they are written.
    pub fn fields(&self) -> (r: Vec<StatusField<'_>>)
        ensures
            self.serializes_to(r@),
    {
        let mut r: Vec<StatusField<'_>> = Vec::new();
        r.push(StatusField::Status(self.tag()));
        match self {
            LocalTransactionStatus::Pending | LocalTransactionStatus::Future => {},
            LocalTransactionStatus::Mined(tx) | LocalTransactionStatus::Culled(tx)
            | LocalTransactionStatus::Dropped(tx) | LocalTransactionStatus::Invalid(tx)
            | LocalTransactionStatus::Canceled(tx) => {
                r.push(StatusField::Transaction(tx));
            },
            LocalTransactionStatus::Rejected(tx, reason) => {
                r.push(StatusField::Transaction(tx));
                r.push(StatusField::Error(reason));
            },
            LocalTransactionStatus::Replaced(tx, gas_price, hash) => {
                r.push(StatusField::Transaction(tx));
                r.push(StatusField::Hash(hash));
                r.push(StatusField::GasPrice(gas_price));
            },
        }
        assert(r@.len() == self.field_count_spec());
        r
    }
}

} // verus!
