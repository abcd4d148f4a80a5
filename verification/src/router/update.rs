//! Updating a payment attempt.
//!
//! Durable-only, the update goes straight to the durable store. Cache-first,
//! the router merges the update into the attempt it was given, overwrites
//! the attempt's field in the cache with the result (the last writer wins),
//! adds an index entry for each secondary identifier that the update
//! introduced, and appends the intent that replicates the update. Index
//! entries are only ever added: the entry of an identifier that is no longer
//! current stays as it was.

use crate::clock::{now, Timestamp};
use crate::convert::DataModelExt;
use crate::domain::{PaymentAttempt, PaymentAttemptUpdate};
use crate::enums::MerchantStorageScheme;
use crate::errors::{
    cache_failure_to_data_error, cache_error, data_error, diesel_error_to_data_error,
    StorageError, StorageErrorView,
};
use crate::kv::TypedSql;
use crate::reverse_lookup::{
    attempt_field, attempt_lookup, make_attempt_field, make_attempt_lookup, make_partition_key,
    partition_key,
};
use crate::router::insert::{intent_request, make_intent_request};
use crate::router::protocol::{
    Step, StepView, StoreRequest, StoreRequestView, StoreResponse, StoreResponseView,
};
use vstd::prelude::*;

verus! {

/// Where an update stands: which answer it is waiting for.
#[derive(Debug, PartialEq)]
pub enum UpdateFlow {
    /// Durable-only: the durable store was asked to apply the update.
    RecordUpdate,
    /// Cache-first: the cache was asked to overwrite the field.
    CacheSet { this: PaymentAttempt, update: PaymentAttemptUpdate, updated: PaymentAttempt },
    /// Cache-first: the index was asked to add the connector's transaction
    /// identifier.
    ConnectorLookup { this: PaymentAttempt, update: PaymentAttemptUpdate, updated: PaymentAttempt },
    /// Cache-first: the index was asked to add the preprocessing identifier.
    PreprocessingLookup {
        this: PaymentAttempt,
        update: PaymentAttemptUpdate,
        updated: PaymentAttempt,
    },
    /// Cache-first: the drain queue was asked to append the intent.
    IntentAppend { updated: PaymentAttempt },
    /// The result was handed to the caller.
    Finished,
}

/// Whether an update introduced a value of a secondary identifier: the
/// attempt has one now, and had none or another one before.
pub open spec fn identifier_learned(old: Option<String>, new: Option<String>) -> bool {
    match (old, new) {
        (None, Some(_)) => true,
        (Some(previous), Some(current)) => previous@ != current@,
        _ => false,
    }
}

/// The identifier that an update introduced, if it introduced one.
pub fn learned_identifier<'a>(old: &Option<String>, new: &'a Option<String>) -> (r: Option<
    &'a String,
>)
    ensures
        match r {
            Some(id) => identifier_learned(*old, *new) && *new == Some(*id),
            None => !identifier_learned(*old, *new),
        },
{
    match (old, new) {
        (None, Some(current)) => Some(current),
        (Some(previous), Some(current)) => if *previous != *current {
            Some(current)
        } else {
            None
        },
        _ => None,
    }
}

/// The attempt that results from `update` applied to `this` at `now`.
pub open spec fn merged(
    this: PaymentAttempt,
    update: PaymentAttemptUpdate,
    now: Timestamp,
) -> PaymentAttempt {
    PaymentAttempt::domain_model(update.storage_model().applied_to(this.storage_model(), now))
}

/// The request that makes the updated attempt findable by `identifier`.
pub open spec fn identifier_lookup_request(
    this: PaymentAttempt,
    updated: PaymentAttempt,
    identifier: Seq<char>,
) -> StoreRequestView {
    StoreRequestView::InsertLookup {
        entry: attempt_lookup(
            partition_key(this.merchant_id@, this.payment_id@),
            this.merchant_id@,
            updated.attempt_id@,
            identifier,
        ),
    }
}

/// The request that adds the connector's transaction identifier of an
/// attempt, cached under `key`, to the index.
pub fn add_connector_txn_id_to_reverse_lookup(
    key: &str,
    merchant_id: &str,
    updated_attempt_attempt_id: &str,
    connector_transaction_id: &str,
) -> (r: StoreRequest)
    ensures
        r@ == (StoreRequestView::InsertLookup {
            entry: attempt_lookup(
                key@,
                merchant_id@,
                updated_attempt_attempt_id@,
                connector_transaction_id@,
            ),
        }),
{
    StoreRequest::InsertLookup {
        entry: make_attempt_lookup(
            key,
            merchant_id,
            updated_attempt_attempt_id,
            connector_transaction_id,
        ),
    }
}

/// The request that adds the preprocessing identifier of an attempt, cached
/// under `key`, to the index.
pub fn add_preprocessing_id_to_reverse_lookup(
    key: &str,
    merchant_id: &str,
    updated_attempt_attempt_id: &str,
    preprocessing_id: &str,
) -> (r: StoreRequest)
    ensures
        r@ == (StoreRequestView::InsertLookup {
            entry: attempt_lookup(
                key@,
                merchant_id@,
                updated_attempt_attempt_id@,
                preprocessing_id@,
            ),
        }),
{
    StoreRequest::InsertLookup {
        entry: make_attempt_lookup(key, merchant_id, updated_attempt_attempt_id, preprocessing_id),
    }
}

impl UpdateFlow {
    /// The first request of an update, and the state in which its answer is
    /// awaited.
    pub open spec fn begun(
        this: PaymentAttempt,
        update: PaymentAttemptUpdate,
        storage_scheme: MerchantStorageScheme,
        now: Timestamp,
    ) -> (UpdateFlow, StoreRequestView) {
        match storage_scheme {
            MerchantStorageScheme::PostgresOnly => (
                UpdateFlow::RecordUpdate,
                StoreRequestView::UpdateRecord {
                    this: this.storage_model(),
                    update: update.storage_model(),
                    now,
                },
            ),
            MerchantStorageScheme::RedisKv => {
                let updated = merged(this, update, now);
                (
                    UpdateFlow::CacheSet { this, update, updated },
                    StoreRequestView::SetField {
                        key: partition_key(this.merchant_id@, this.payment_id@),
                        field: attempt_field(updated.attempt_id@),
                        value: updated,
                    },
                )
            },
        }
    }

    /// What follows once the cache holds the updated attempt.
    pub open spec fn after_cache_set(
        this: PaymentAttempt,
        update: PaymentAttemptUpdate,
        updated: PaymentAttempt,
    ) -> (UpdateFlow, StepView) {
        if identifier_learned(this.connector_transaction_id, updated.connector_transaction_id) {
            (
                UpdateFlow::ConnectorLookup { this, update, updated },
                StepView::Request(
                    identifier_lookup_request(
                        this,
                        updated,
                        updated.connector_transaction_id.unwrap()@,
                    ),
                ),
            )
        } else {
            Self::after_connector_lookup(this, update, updated)
        }
    }

    /// What follows once the connector's transaction identifier is dealt
    /// with.
    pub open spec fn after_connector_lookup(
        this: PaymentAttempt,
        update: PaymentAttemptUpdate,
        updated: PaymentAttempt,
    ) -> (UpdateFlow, StepView) {
        if identifier_learned(this.preprocessing_step_id, updated.preprocessing_step_id) {
            (
                UpdateFlow::PreprocessingLookup { this, update, updated },
                StepView::Request(
                    identifier_lookup_request(
                        this,
                        updated,
                        updated.preprocessing_step_id.unwrap()@,
                    ),
                ),
            )
        } else {
            Self::after_lookups(this, update, updated)
        }
    }

    /// What follows once the index is up to date: the intent, which carries
    /// the attempt as it was and the update, not the merged result.
    pub open spec fn after_lookups(
        this: PaymentAttempt,
        update: PaymentAttemptUpdate,
        updated: PaymentAttempt,
    ) -> (UpdateFlow, StepView) {
        (
            UpdateFlow::IntentAppend { updated },
            StepView::Request(
                intent_request(
                    updated,
                    TypedSql::modification(this.storage_model(), update.storage_model()),
                ),
            ),
        )
    }

    /// What follows from an answer: the next state, and the next request or
    /// the result. An answer of a kind that the state is not waiting for
    /// ends the update with `UnexpectedFlow`.
    pub open spec fn resumed(self, response: StoreResponseView) -> (UpdateFlow, StepView) {
        match (self, response) {
            (UpdateFlow::RecordUpdate, StoreResponseView::Record(Ok(row))) => (
                UpdateFlow::Finished,
                StepView::Done(Ok(PaymentAttempt::domain_model(row))),
            ),
            (UpdateFlow::RecordUpdate, StoreResponseView::Record(Err(e))) => (
                UpdateFlow::Finished,
                StepView::Done(Err(data_error(e))),
            ),
            (
                UpdateFlow::CacheSet { this, update, updated },
                StoreResponseView::FieldSet(Ok(_)),
            ) => Self::after_cache_set(this, update, updated),
            (UpdateFlow::CacheSet { .. }, StoreResponseView::FieldSet(Err(failure))) => (
                UpdateFlow::Finished,
                StepView::Done(Err(cache_error(failure))),
            ),
            (
                UpdateFlow::ConnectorLookup { this, update, updated },
                StoreResponseView::Lookup(Ok(_)),
            ) => Self::after_connector_lookup(this, update, updated),
            (UpdateFlow::ConnectorLookup { .. }, StoreResponseView::Lookup(Err(e))) => (
                UpdateFlow::Finished,
                StepView::Done(Err(data_error(e))),
            ),
            (
                UpdateFlow::PreprocessingLookup { this, update, updated },
                StoreResponseView::Lookup(Ok(_)),
            ) => Self::after_lookups(this, update, updated),
            (UpdateFlow::PreprocessingLookup { .. }, StoreResponseView::Lookup(Err(e))) => (
                UpdateFlow::Finished,
                StepView::Done(Err(data_error(e))),
            ),
            (UpdateFlow::IntentAppend { updated }, StoreResponseView::IntentAppended(Ok(_))) => (
                UpdateFlow::Finished,
                StepView::Done(Ok(updated)),
            ),
            (UpdateFlow::IntentAppend { .. }, StoreResponseView::IntentAppended(Err(failure))) => (
                UpdateFlow::Finished,
                StepView::Done(Err(cache_error(failure))),
            ),
            _ => (UpdateFlow::Finished, StepView::Done(Err(StorageErrorView::UnexpectedFlow))),
        }
    }

    /// How many more answers the update can wait for, at most.
    pub open spec fn remaining(self) -> nat {
        match self {
            UpdateFlow::RecordUpdate => 1,
            UpdateFlow::CacheSet { .. } => 4,
            UpdateFlow::ConnectorLookup { .. } => 3,
            UpdateFlow::PreprocessingLookup { .. } => 2,
            UpdateFlow::IntentAppend { .. } => 1,
            UpdateFlow::Finished => 0,
        }
    }

    /// Starts an update.
    pub fn start(
        this: PaymentAttempt,
        update: PaymentAttemptUpdate,
        storage_scheme: MerchantStorageScheme,
        now: Timestamp,
    ) -> (r: (UpdateFlow, StoreRequest))
        ensures
            r.0 == UpdateFlow::begun(this, update, storage_scheme, now).0,
            r.1@ == UpdateFlow::begun(this, update, storage_scheme, now).1,
    {
        match storage_scheme {
            MerchantStorageScheme::PostgresOnly => (
                UpdateFlow::RecordUpdate,
                StoreRequest::UpdateRecord {
                    this: this.to_storage_model(),
                    update: update.to_storage_model(),
                    now,
                },
            ),
            MerchantStorageScheme::RedisKv => {
                let key = make_partition_key(this.merchant_id.as_str(), this.payment_id.as_str());
                let updated = PaymentAttempt::from_storage_model(
                    update.clone().to_storage_model().apply_changeset(
                        this.clone().to_storage_model(),
                        now,
                    ),
                );
                let field = make_attempt_field(updated.attempt_id.as_str());
                let value = updated.clone();
                (
                    UpdateFlow::CacheSet { this, update, updated },
                    StoreRequest::SetField { key, field, value },
                )
            },
        }
    }

    /// Starts an update at the time the clock shows. Whatever the clock
    /// shows, the update starts as one at some instant.
    pub fn start_now(
        this: PaymentAttempt,
        update: PaymentAttemptUpdate,
        storage_scheme: MerchantStorageScheme,
    ) -> (r: (UpdateFlow, StoreRequest))
        ensures
            exists|at: Timestamp|
                {
                    &&& r.0 == (#[trigger] UpdateFlow::begun(this, update, storage_scheme, at)).0
                    &&& r.1@ == UpdateFlow::begun(this, update, storage_scheme, at).1
                },
    {
        let at = now();
        UpdateFlow::start(this, update, storage_scheme, at)
    }

    fn continue_after_cache_set(
        this: PaymentAttempt,
        update: PaymentAttemptUpdate,
        updated: PaymentAttempt,
    ) -> (r: (UpdateFlow, Step))
        ensures
            r.0 == Self::after_cache_set(this, update, updated).0,
            r.1@ == Self::after_cache_set(this, update, updated).1,
            r.1 is Request,
            r.0.remaining() <= 3,
    {
        let request = match learned_identifier(
            &this.connector_transaction_id,
            &updated.connector_transaction_id,
        ) {
            Some(connector_transaction_id) => {
                let key = make_partition_key(this.merchant_id.as_str(), this.payment_id.as_str());
                Some(
                    add_connector_txn_id_to_reverse_lookup(
                        key.as_str(),
                        this.merchant_id.as_str(),
                        updated.attempt_id.as_str(),
                        connector_transaction_id.as_str(),
                    ),
                )
            },
            None => None,
        };
        match request {
            Some(request) => (
                UpdateFlow::ConnectorLookup { this, update, updated },
                Step::Request(request),
            ),
            None => Self::continue_after_connector_lookup(this, update, updated),
        }
    }

    fn continue_after_connector_lookup(
        this: PaymentAttempt,
        update: PaymentAttemptUpdate,
        updated: PaymentAttempt,
    ) -> (r: (UpdateFlow, Step))
        ensures
            r.0 == Self::after_connector_lookup(this, update, updated).0,
            r.1@ == Self::after_connector_lookup(this, update, updated).1,
            r.1 is Request,
            r.0.remaining() <= 2,
    {
        let request = match learned_identifier(
            &this.preprocessing_step_id,
            &updated.preprocessing_step_id,
        ) {
            Some(preprocessing_id) => {
                let key = make_partition_key(this.merchant_id.as_str(), this.payment_id.as_str());
                Some(
                    add_preprocessing_id_to_reverse_lookup(
                        key.as_str(),
                        this.merchant_id.as_str(),
                        updated.attempt_id.as_str(),
                        preprocessing_id.as_str(),
                    ),
                )
            },
            None => None,
        };
        match request {
            Some(request) => (
                UpdateFlow::PreprocessingLookup { this, update, updated },
                Step::Request(request),
            ),
            None => Self::continue_after_lookups(this, update, updated),
        }
    }

    fn continue_after_lookups(
        this: PaymentAttempt,
        update: PaymentAttemptUpdate,
        updated: PaymentAttempt,
    ) -> (r: (UpdateFlow, Step))
        ensures
            r.0 == Self::after_lookups(this, update, updated).0,
            r.1@ == Self::after_lookups(this, update, updated).1,
            r.1 is Request,
            r.0.remaining() <= 1,
    {
        let intent = TypedSql::update(this.to_storage_model(), update.to_storage_model());
        let request = make_intent_request(&updated, intent);
        (UpdateFlow::IntentAppend { updated }, Step::Request(request))
    }

    /// Takes an answer and says what follows from it.
    pub fn resume(self, response: StoreResponse) -> (r: (UpdateFlow, Step))
        ensures
            r.0 == self.resumed(response@).0,
            r.1@ == self.resumed(response@).1,
            r.1 is Request ==> r.0.remaining() < self.remaining(),
            r.1 is Done ==> r.0 == UpdateFlow::Finished,
    {
        match (self, response) {
            (UpdateFlow::RecordUpdate, StoreResponse::Record(Ok(row))) => (
                UpdateFlow::Finished,
                Step::Done(Ok(PaymentAttempt::from_storage_model(row))),
            ),
            (UpdateFlow::RecordUpdate, StoreResponse::Record(Err(e))) => (
                UpdateFlow::Finished,
                Step::Done(Err(diesel_error_to_data_error(&e))),
            ),
            (UpdateFlow::CacheSet { this, update, updated }, StoreResponse::FieldSet(Ok(_))) => {
                Self::continue_after_cache_set(this, update, updated)
            },
            (UpdateFlow::CacheSet { .. }, StoreResponse::FieldSet(Err(failure))) => (
                UpdateFlow::Finished,
                Step::Done(Err(cache_failure_to_data_error(failure))),
            ),
            (
                UpdateFlow::ConnectorLookup { this, update, updated },
                StoreResponse::Lookup(Ok(_)),
            ) => Self::continue_after_connector_lookup(this, update, updated),
            (UpdateFlow::ConnectorLookup { .. }, StoreResponse::Lookup(Err(e))) => (
                UpdateFlow::Finished,
                Step::Done(Err(diesel_error_to_data_error(&e))),
            ),
            (
                UpdateFlow::PreprocessingLookup { this, update, updated },
                StoreResponse::Lookup(Ok(_)),
            ) => Self::continue_after_lookups(this, update, updated),
            (UpdateFlow::PreprocessingLookup { .. }, StoreResponse::Lookup(Err(e))) => (
                UpdateFlow::Finished,
                Step::Done(Err(diesel_error_to_data_error(&e))),
            ),
            (UpdateFlow::IntentAppend { updated }, StoreResponse::IntentAppended(Ok(_))) => (
                UpdateFlow::Finished,
                Step::Done(Ok(updated)),
            ),
            (UpdateFlow::IntentAppend { .. }, StoreResponse::IntentAppended(Err(failure))) => (
                UpdateFlow::Finished,
                Step::Done(Err(cache_failure_to_data_error(failure))),
            ),
            _ => (UpdateFlow::Finished, Step::Done(Err(StorageError::UnexpectedFlow))),
        }
    }
}

} // verus!
