//! Replication intents: what the storage router appends to the drain queue
//! for every write it made in the cache, so that the drainer can make the
//! same write in the durable store.

use crate::storage::{PaymentAttempt, PaymentAttemptNew, PaymentAttemptUpdate};
use vstd::prelude::*;
use vstd::string::StringExecFns;

verus! {

/// A record to insert.
#[derive(Debug, PartialEq)]
pub enum Insertable {
    PaymentAttempt(PaymentAttemptNew),
}

/// An update together with the row it was applied to in the cache. Carrying
/// both lets the drainer apply the update with the semantics it had in the
/// cache, rather than overwrite the row with final values.
#[derive(Debug, PartialEq)]
pub struct PaymentAttemptUpdateMems {
    pub orig: PaymentAttempt,
    pub update_data: PaymentAttemptUpdate,
}

/// A record to update.
#[derive(Debug, PartialEq)]
pub enum Updateable {
    PaymentAttemptUpdate(PaymentAttemptUpdateMems),
}

/// The operation an intent asks for.
#[derive(Debug, PartialEq)]
pub enum DBOperation {
    Insert { insertable: Insertable },
    Update { updatable: Updateable },
}

/// One replication intent.
#[derive(Debug, PartialEq)]
pub struct TypedSql {
    pub op: DBOperation,
}

impl Clone for TypedSql {
    fn clone(&self) -> (r: Self)
        ensures
            r == *self,
    {
        match &self.op {
            DBOperation::Insert { insertable: Insertable::PaymentAttempt(new) } => TypedSql {
                op: DBOperation::Insert { insertable: Insertable::PaymentAttempt(new.clone()) },
            },
            DBOperation::Update {
                updatable: Updateable::PaymentAttemptUpdate(mems),
            } => TypedSql {
                op: DBOperation::Update {
                    updatable: Updateable::PaymentAttemptUpdate(
                        PaymentAttemptUpdateMems {
                            orig: mems.orig.clone(),
                            update_data: mems.update_data.clone(),
                        },
                    ),
                },
            },
        }
    }
}

impl TypedSql {
    /// The intent that replicates the insertion of `new`.
    pub open spec fn insertion(new: PaymentAttemptNew) -> TypedSql {
        TypedSql { op: DBOperation::Insert { insertable: Insertable::PaymentAttempt(new) } }
    }

    /// The intent that replicates the update `update_data` of the row `orig`.
    pub open spec fn modification(
        orig: PaymentAttempt,
        update_data: PaymentAttemptUpdate,
    ) -> TypedSql {
        TypedSql {
            op: DBOperation::Update {
                updatable: Updateable::PaymentAttemptUpdate(
                    PaymentAttemptUpdateMems { orig, update_data },
                ),
            },
        }
    }

    /// The intent that replicates the insertion of `new`.
    pub fn insert(new: PaymentAttemptNew) -> (r: TypedSql)
        ensures
            r == TypedSql::insertion(new),
    {
        TypedSql { op: DBOperation::Insert { insertable: Insertable::PaymentAttempt(new) } }
    }

    /// The intent that replicates the update `update_data` of the row `orig`.
    pub fn update(orig: PaymentAttempt, update_data: PaymentAttemptUpdate) -> (r: TypedSql)
        ensures
            r == TypedSql::modification(orig, update_data),
    {
        TypedSql {
            op: DBOperation::Update {
                updatable: Updateable::PaymentAttemptUpdate(
                    PaymentAttemptUpdateMems { orig, update_data },
                ),
            },
        }
    }

    /// The name of the operation, as the drainer reads it.
    pub fn operation(&self) -> (r: &'static str)
        ensures
            r@ == (match self.op {
                DBOperation::Insert { .. } => "insert"@,
                DBOperation::Update { .. } => "update"@,
            }),
    {
        match &self.op {
            DBOperation::Insert { .. } => "insert",
            DBOperation::Update { .. } => "update",
        }
    }

    /// The kind of record the intent is about.
    pub fn table(&self) -> (r: &'static str)
        ensures
            r@ == "payment_attempt"@,
    {
        "payment_attempt"
    }
}

/// The partition an intent belongs to. Intents of one partition are applied
/// in the order in which they were appended.
#[derive(Debug, PartialEq)]
pub enum PartitionKey {
    MerchantIdPaymentId { merchant_id: String, payment_id: String },
}

/// A partition, as the pair of merchant and payment.
pub struct Partition {
    pub merchant_id: Seq<char>,
    pub payment_id: Seq<char>,
}

impl View for PartitionKey {
    type V = Partition;

    open spec fn view(&self) -> Partition {
        match *self {
            PartitionKey::MerchantIdPaymentId { merchant_id, payment_id } => Partition {
                merchant_id: merchant_id@,
                payment_id: payment_id@,
            },
        }
    }
}

/// The name of a partition, under which the drain queue keeps its intents
/// together: `mid_`, the merchant, `_pid_`, the payment.
pub open spec fn partition_name(partition: Partition) -> Seq<char> {
    "mid_"@ + partition.merchant_id + "_pid_"@ + partition.payment_id
}

impl PartitionKey {
    /// The name of the partition.
    pub fn to_string(&self) -> (r: String)
        ensures
            r@ == partition_name(self@),
    {
        match self {
            PartitionKey::MerchantIdPaymentId { merchant_id, payment_id } => {
                let mut name = String::from_str("mid_");
                name.append(merchant_id.as_str());
                name.append("_pid_");
                name.append(payment_id.as_str());
                assert(name@ =~= partition_name(self@));
                name
            },
        }
    }

    /// The partition of a payment of a merchant.
    pub fn of(merchant_id: &str, payment_id: &str) -> (r: PartitionKey)
        ensures
            r@ == (Partition { merchant_id: merchant_id@, payment_id: payment_id@ }),
    {
        PartitionKey::MerchantIdPaymentId {
            merchant_id: String::from_str(merchant_id),
            payment_id: String::from_str(payment_id),
        }
    }
}

} // verus!
