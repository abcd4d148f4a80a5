//! Inserting a payment attempt.
//!
//! Durable-only, the attempt goes straight to the durable store. Cache-first,
//! the router sets the attempt's field in the cache only if the field is
//! absent, which stands in for the durable store's unique constraint while
//! the record lives in the cache; then it makes the attempt findable by its
//! own identifier and appends the intent that replicates the insertion.

use crate::clock::{now, Timestamp};
use crate::convert::DataModelExt;
use crate::domain::{PaymentAttempt, PaymentAttemptNew};
use crate::enums::MerchantStorageScheme;
use crate::errors::{
    cache_failure_to_data_error, cache_error, data_error, diesel_error_to_data_error,
    StorageError, StorageErrorView,
};
use crate::kv::{Partition, PartitionKey, TypedSql};
use crate::reverse_lookup::{
    attempt_field, attempt_lookup, make_attempt_field, make_attempt_lookup, make_partition_key,
    partition_key,
};
use crate::router::protocol::{
    HsetnxReply, Step, StepView, StoreRequest, StoreRequestView, StoreResponse, StoreResponseView,
};
use crate::storage;
use vstd::prelude::*;

verus! {

/// Where an insertion stands: which answer it is waiting for.
#[derive(Debug, PartialEq)]
pub enum InsertFlow {
    /// Durable-only: the durable store was asked to insert the attempt.
    RecordInsert,
    /// Cache-first: the cache was asked to set the field if it is absent.
    CacheSet { created: PaymentAttempt, insertable: storage::PaymentAttemptNew },
    /// Cache-first: the index was asked to add the attempt's own identifier.
    LookupInsert { created: PaymentAttempt, insertable: storage::PaymentAttemptNew },
    /// Cache-first: the drain queue was asked to append the intent.
    IntentAppend { created: PaymentAttempt },
    /// The result was handed to the caller.
    Finished,
}

/// The error handed to the caller when the cache already holds the field.
pub open spec fn duplicate_attempt(key: Seq<char>) -> StorageErrorView {
    StorageErrorView::DuplicateValue { entity: "payment attempt"@, key: Some(key) }
}

/// The request that makes `created` findable by its own identifier.
pub open spec fn own_lookup_request(created: PaymentAttempt) -> StoreRequestView {
    StoreRequestView::InsertLookup {
        entry: attempt_lookup(
            partition_key(created.merchant_id@, created.payment_id@),
            created.merchant_id@,
            created.attempt_id@,
            created.attempt_id@,
        ),
    }
}

/// The request that appends `intent` to the partition of `attempt`.
pub open spec fn intent_request(attempt: PaymentAttempt, intent: TypedSql) -> StoreRequestView {
    StoreRequestView::AppendIntent {
        partition: Partition { merchant_id: attempt.merchant_id@, payment_id: attempt.payment_id@ },
        intent,
    }
}

/// Builds the request that appends `intent` to the partition of `attempt`.
pub fn make_intent_request(attempt: &PaymentAttempt, intent: TypedSql) -> (r: StoreRequest)
    ensures
        r@ == intent_request(*attempt, intent),
{
    StoreRequest::AppendIntent {
        partition: PartitionKey::of(attempt.merchant_id.as_str(), attempt.payment_id.as_str()),
        intent,
    }
}

impl InsertFlow {
    /// The first request of an insertion, and the state in which its answer
    /// is awaited.
    pub open spec fn begun(
        new: PaymentAttemptNew,
        storage_scheme: MerchantStorageScheme,
        created_now: Timestamp,
        modified_now: Timestamp,
    ) -> (InsertFlow, StoreRequestView) {
        match storage_scheme {
            MerchantStorageScheme::PostgresOnly => (
                InsertFlow::RecordInsert,
                StoreRequestView::InsertRecord { new: new.storage_model(), now: created_now },
            ),
            MerchantStorageScheme::RedisKv => {
                let created = PaymentAttempt::created_from(new, created_now, modified_now);
                (
                    InsertFlow::CacheSet { created, insertable: new.storage_model() },
                    StoreRequestView::SetFieldIfAbsent {
                        key: partition_key(new.merchant_id@, new.payment_id@),
                        field: attempt_field(new.attempt_id@),
                        value: created,
                    },
                )
            },
        }
    }

    /// What follows from an answer: the next state, and the next request or
    /// the result. An answer of a kind that the state is not waiting for
    /// ends the insertion with `UnexpectedFlow`.
    pub open spec fn resumed(self, response: StoreResponseView) -> (InsertFlow, StepView) {
        match (self, response) {
            (InsertFlow::RecordInsert, StoreResponseView::Record(Ok(row))) => (
                InsertFlow::Finished,
                StepView::Done(Ok(PaymentAttempt::domain_model(row))),
            ),
            (InsertFlow::RecordInsert, StoreResponseView::Record(Err(e))) => (
                InsertFlow::Finished,
                StepView::Done(Err(data_error(e))),
            ),
            (
                InsertFlow::CacheSet { created, insertable },
                StoreResponseView::FieldSetIfAbsent(Ok(HsetnxReply::KeySet)),
            ) => (
                InsertFlow::LookupInsert { created, insertable },
                StepView::Request(own_lookup_request(created)),
            ),
            (
                InsertFlow::CacheSet { created, .. },
                StoreResponseView::FieldSetIfAbsent(Ok(HsetnxReply::KeyNotSet)),
            ) => (
                InsertFlow::Finished,
                StepView::Done(
                    Err(
                        duplicate_attempt(
                            partition_key(created.merchant_id@, created.payment_id@),
                        ),
                    ),
                ),
            ),
            (InsertFlow::CacheSet { .. }, StoreResponseView::FieldSetIfAbsent(Err(failure))) => (
                InsertFlow::Finished,
                StepView::Done(Err(cache_error(failure))),
            ),
            (
                InsertFlow::LookupInsert { created, insertable },
                StoreResponseView::Lookup(Ok(_)),
            ) => (
                InsertFlow::IntentAppend { created },
                StepView::Request(intent_request(created, TypedSql::insertion(insertable))),
            ),
            (InsertFlow::LookupInsert { .. }, StoreResponseView::Lookup(Err(e))) => (
                InsertFlow::Finished,
                StepView::Done(Err(data_error(e))),
            ),
            (InsertFlow::IntentAppend { created }, StoreResponseView::IntentAppended(Ok(_))) => (
                InsertFlow::Finished,
                StepView::Done(Ok(created)),
            ),
            (InsertFlow::IntentAppend { .. }, StoreResponseView::IntentAppended(Err(failure))) => (
                InsertFlow::Finished,
                StepView::Done(Err(cache_error(failure))),
            ),
            _ => (InsertFlow::Finished, StepView::Done(Err(StorageErrorView::UnexpectedFlow))),
        }
    }

    /// How many more answers the insertion can wait for, at most.
    pub open spec fn remaining(self) -> nat {
        match self {
            InsertFlow::RecordInsert => 1,
            InsertFlow::CacheSet { .. } => 3,
            InsertFlow::LookupInsert { .. } => 2,
            InsertFlow::IntentAppend { .. } => 1,
            InsertFlow::Finished => 0,
        }
    }

    /// Starts an insertion.
    pub fn start(
        new: PaymentAttemptNew,
        storage_scheme: MerchantStorageScheme,
        created_now: Timestamp,
        modified_now: Timestamp,
    ) -> (r: (InsertFlow, StoreRequest))
        ensures
            r.0 == InsertFlow::begun(new, storage_scheme, created_now, modified_now).0,
            r.1@ == InsertFlow::begun(new, storage_scheme, created_now, modified_now).1,
    {
        match storage_scheme {
            MerchantStorageScheme::PostgresOnly => (
                InsertFlow::RecordInsert,
                StoreRequest::InsertRecord { new: new.to_storage_model(), now: created_now },
            ),
            MerchantStorageScheme::RedisKv => {
                let created = PaymentAttempt::create_from(&new, created_now, modified_now);
                let key = make_partition_key(new.merchant_id.as_str(), new.payment_id.as_str());
                let field = make_attempt_field(new.attempt_id.as_str());
                let value = created.clone();
                (
                    InsertFlow::CacheSet { created, insertable: new.to_storage_model() },
                    StoreRequest::SetFieldIfAbsent { key, field, value },
                )
            },
        }
    }

    /// Starts an insertion at the time the clock shows. Whatever the clock
    /// shows, the insertion starts as one at some pair of instants.
    pub fn start_now(
        payment_attempt: PaymentAttemptNew,
        storage_scheme: MerchantStorageScheme,
    ) -> (r: (InsertFlow, StoreRequest))
        ensures
            exists|created_now: Timestamp, modified_now: Timestamp|
                {
                    &&& r.0 == (#[trigger] InsertFlow::begun(
                        payment_attempt,
                        storage_scheme,
                        created_now,
                        modified_now,
                    )).0
                    &&& r.1@ == InsertFlow::begun(
                        payment_attempt,
                        storage_scheme,
                        created_now,
                        modified_now,
                    ).1
                },
    {
        let created_now = now();
        let modified_now = now();
        InsertFlow::start(payment_attempt, storage_scheme, created_now, modified_now)
    }

    /// Takes an answer and says what follows from it.
    pub fn resume(self, response: StoreResponse) -> (r: (InsertFlow, Step))
        ensures
            r.0 == self.resumed(response@).0,
            r.1@ == self.resumed(response@).1,
            r.1 is Request ==> r.0.remaining() < self.remaining(),
            r.1 is Done ==> r.0 == InsertFlow::Finished,
    {
        match (self, response) {
            (InsertFlow::RecordInsert, StoreResponse::Record(Ok(row))) => (
                InsertFlow::Finished,
                Step::Done(Ok(PaymentAttempt::from_storage_model(row))),
            ),
            (InsertFlow::RecordInsert, StoreResponse::Record(Err(e))) => (
                InsertFlow::Finished,
                Step::Done(Err(diesel_error_to_data_error(&e))),
            ),
            (
                InsertFlow::CacheSet { created, insertable },
                StoreResponse::FieldSetIfAbsent(Ok(HsetnxReply::KeySet)),
            ) => {
                let key = make_partition_key(
                    created.merchant_id.as_str(),
                    created.payment_id.as_str(),
                );
                let entry = make_attempt_lookup(
                    key.as_str(),
                    created.merchant_id.as_str(),
                    created.attempt_id.as_str(),
                    created.attempt_id.as_str(),
                );
                (
                    InsertFlow::LookupInsert { created, insertable },
                    Step::Request(StoreRequest::InsertLookup { entry }),
                )
            },
            (
                InsertFlow::CacheSet { created, .. },
                StoreResponse::FieldSetIfAbsent(Ok(HsetnxReply::KeyNotSet)),
            ) => {
                let key = make_partition_key(
                    created.merchant_id.as_str(),
                    created.payment_id.as_str(),
                );
                (
                    InsertFlow::Finished,
                    Step::Done(
                        Err(
                            StorageError::DuplicateValue {
                                entity: "payment attempt",
                                key: Some(key),
                            },
                        ),
                    ),
                )
            },
            (InsertFlow::CacheSet { .. }, StoreResponse::FieldSetIfAbsent(Err(failure))) => (
                InsertFlow::Finished,
                Step::Done(Err(cache_failure_to_data_error(failure))),
            ),
            (InsertFlow::LookupInsert { created, insertable }, StoreResponse::Lookup(Ok(_))) => {
                let request = make_intent_request(&created, TypedSql::insert(insertable));
                (InsertFlow::IntentAppend { created }, Step::Request(request))
            },
            (InsertFlow::LookupInsert { .. }, StoreResponse::Lookup(Err(e))) => (
                InsertFlow::Finished,
                Step::Done(Err(diesel_error_to_data_error(&e))),
            ),
            (InsertFlow::IntentAppend { created }, StoreResponse::IntentAppended(Ok(_))) => (
                InsertFlow::Finished,
                Step::Done(Ok(created)),
            ),
            (InsertFlow::IntentAppend { .. }, StoreResponse::IntentAppended(Err(failure))) => (
                InsertFlow::Finished,
                Step::Done(Err(cache_failure_to_data_error(failure))),
            ),
            _ => (InsertFlow::Finished, Step::Done(Err(StorageError::UnexpectedFlow))),
        }
    }
}

} // verus!
