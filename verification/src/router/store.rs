//! The storage router over the in-memory stores: each operation on payment
//! attempts, run to its end.
//!
//! `RouterStore` writes and reads the durable store only. `KVRouterStore`
//! follows the merchant's storage scheme: durable-only, or cache-first. The
//! contracts say what the stores hold after an operation and what the caller
//! gets, also where an operation fails half-way: a cache-first write that
//! fails after the cache took the record leaves the record in the cache.

use crate::clock::{now, Timestamp};
use crate::convert::DataModelExt;
use crate::domain::{PaymentAttempt, PaymentAttemptNew, PaymentAttemptUpdate};
use crate::enums::MerchantStorageScheme;
use crate::errors::{cache_error, data_error, DatabaseError, StorageError, StorageErrorView};
use crate::kv::{Partition, TypedSql};
use crate::memory::backend::MemoryBackend;
use crate::memory::state::{BackendState, CacheSlot, DrainEntry};
use crate::reverse_lookup::{attempt_field, attempt_lookup, partition_key};
use crate::router::find::{domain_models, hscan_pattern, is_cache_miss, FindAllFlow, FindFlow};
use crate::router::insert::{duplicate_attempt, InsertFlow};
use crate::router::protocol::{
    list_outcome, outcome, AttemptQuery, AttemptQueryView, ListStep, Step,
};
use crate::router::update::{identifier_learned, merged, UpdateFlow};
use crate::storage;
use vstd::prelude::*;
use vstd::string::StringExecFns;

verus! {

/// What the caller of an operation on one attempt gets.
pub type Outcome = Result<PaymentAttempt, StorageErrorView>;

/// The caller's view of an answer of the durable store.
pub open spec fn record_outcome(answer: Result<storage::PaymentAttempt, DatabaseError>) -> Outcome {
    match answer {
        Ok(row) => Ok(PaymentAttempt::domain_model(row)),
        Err(e) => Err(data_error(e)),
    }
}

impl BackendState {
    /// Durable-only insertion.
    pub open spec fn insert_durable(self, new: PaymentAttemptNew, now: Timestamp) -> (
        BackendState,
        Outcome,
    ) {
        let (next, answer) = self.insert_record(new.storage_model(), now);
        (next, record_outcome(answer))
    }

    /// Cache-first insertion. The cache takes the attempt only if it holds
    /// nothing under the attempt's field; then the index takes the attempt's
    /// own identifier and the drain queue the intent.
    pub open spec fn insert_cache_first(
        self,
        new: PaymentAttemptNew,
        created_now: Timestamp,
        modified_now: Timestamp,
    ) -> (BackendState, Outcome) {
        let created = PaymentAttempt::created_from(new, created_now, modified_now);
        let key = partition_key(new.merchant_id@, new.payment_id@);
        let field = attempt_field(new.attempt_id@);
        let entry = attempt_lookup(key, new.merchant_id@, new.attempt_id@, new.attempt_id@);
        if !self.cache_online {
            (self, Err(cache_error(Self::cache_outage())))
        } else if self.cached(key, field) is Some {
            (self, Err(duplicate_attempt(key)))
        } else {
            let cached = BackendState {
                cache: self.cache.push(CacheSlot { key, field, value: created }),
                ..self
            };
            if !self.database_online {
                (cached, Err(data_error(DatabaseError::DatabaseConnectionError)))
            } else if self.indexed(entry.lookup_id) is Some {
                (cached, Err(data_error(DatabaseError::UniqueViolation)))
            } else {
                (
                    BackendState {
                        lookups: self.lookups.push(entry),
                        drain: self.drain.push(
                            DrainEntry {
                                partition: Partition {
                                    merchant_id: new.merchant_id@,
                                    payment_id: new.payment_id@,
                                },
                                intent: TypedSql::insertion(new.storage_model()),
                            },
                        ),
                        ..cached
                    },
                    Ok(created),
                )
            }
        }
    }

    /// Insertion under a storage scheme.
    pub open spec fn insert(
        self,
        new: PaymentAttemptNew,
        storage_scheme: MerchantStorageScheme,
        created_now: Timestamp,
        modified_now: Timestamp,
    ) -> (BackendState, Outcome) {
        match storage_scheme {
            MerchantStorageScheme::PostgresOnly => self.insert_durable(new, created_now),
            MerchantStorageScheme::RedisKv => self.insert_cache_first(
                new,
                created_now,
                modified_now,
            ),
        }
    }

    /// Durable-only update.
    pub open spec fn update_durable(
        self,
        this: PaymentAttempt,
        update: PaymentAttemptUpdate,
        now: Timestamp,
    ) -> (BackendState, Outcome) {
        let (next, answer) = self.update_record(this.storage_model(), update.storage_model(), now);
        (next, record_outcome(answer))
    }

    /// The index after an identifier of the updated attempt was added if the
    /// update introduced it, and the error if adding it failed.
    pub open spec fn index_identifier(
        self,
        this: PaymentAttempt,
        updated: PaymentAttempt,
        old: Option<String>,
        new: Option<String>,
    ) -> (BackendState, Option<DatabaseError>) {
        if identifier_learned(old, new) {
            let (next, answer) = self.insert_lookup(
                attempt_lookup(
                    partition_key(this.merchant_id@, this.payment_id@),
                    this.merchant_id@,
                    updated.attempt_id@,
                    new.unwrap()@,
                ),
            );
            (
                next,
                match answer {
                    Ok(_) => None,
                    Err(e) => Some(e),
                },
            )
        } else {
            (self, None)
        }
    }

    /// Cache-first update. The cache takes the merged attempt whatever it
    /// held; the index takes each secondary identifier that the update
    /// introduced; the drain queue takes the intent, which carries the
    /// attempt as it was and the update.
    pub open spec fn update_cache_first(
        self,
        this: PaymentAttempt,
        update: PaymentAttemptUpdate,
        now: Timestamp,
    ) -> (BackendState, Outcome) {
        let updated = merged(this, update, now);
        let key = partition_key(this.merchant_id@, this.payment_id@);
        let field = attempt_field(updated.attempt_id@);
        if !self.cache_online {
            (self, Err(cache_error(Self::cache_outage())))
        } else {
            let cached = BackendState { cache: self.cache_with(key, field, updated), ..self };
            let (first_indexed, first_error) = cached.index_identifier(
                this,
                updated,
                this.connector_transaction_id,
                updated.connector_transaction_id,
            );
            if first_error is Some {
                (first_indexed, Err(data_error(first_error.unwrap())))
            } else {
                let (indexed, error) = first_indexed.index_identifier(
                    this,
                    updated,
                    this.preprocessing_step_id,
                    updated.preprocessing_step_id,
                );
                if error is Some {
                    (indexed, Err(data_error(error.unwrap())))
                } else {
                    (
                        BackendState {
                            drain: indexed.drain.push(
                                DrainEntry {
                                    partition: Partition {
                                        merchant_id: updated.merchant_id@,
                                        payment_id: updated.payment_id@,
                                    },
                                    intent: TypedSql::modification(
                                        this.storage_model(),
                                        update.storage_model(),
                                    ),
                                },
                            ),
                            ..indexed
                        },
                        Ok(updated),
                    )
                }
            }
        }
    }

    /// Update under a storage scheme.
    pub open spec fn update(
        self,
        this: PaymentAttempt,
        update: PaymentAttemptUpdate,
        storage_scheme: MerchantStorageScheme,
        now: Timestamp,
    ) -> (BackendState, Outcome) {
        match storage_scheme {
            MerchantStorageScheme::PostgresOnly => self.update_durable(this, update, now),
            MerchantStorageScheme::RedisKv => self.update_cache_first(this, update, now),
        }
    }

    /// What the durable store finds for a query.
    pub open spec fn find_durable(self, query: AttemptQueryView) -> Outcome {
        record_outcome(self.find_record(query))
    }

    /// What a query finds cache-first: the cached attempt at the place the
    /// index names for the identifier; what the durable store finds, where
    /// the index has no entry for the identifier or the cache holds nothing
    /// at that place.
    pub open spec fn find_cache_first(
        self,
        query: AttemptQueryView,
        lookup_id: Seq<char>,
    ) -> Outcome {
        match self.find_lookup(lookup_id) {
            Ok(entry) => match self.get_field(entry.pk_id, entry.sk_id) {
                Ok(attempt) => Ok(attempt),
                Err(failure) => if is_cache_miss(failure) {
                    self.find_durable(query)
                } else {
                    Err(cache_error(failure))
                },
            },
            Err(e) => if e == DatabaseError::NotFound {
                self.find_durable(query)
            } else {
                Err(data_error(e))
            },
        }
    }

    /// What a query finds under a storage scheme.
    pub open spec fn find(
        self,
        query: AttemptQueryView,
        storage_scheme: MerchantStorageScheme,
    ) -> Outcome {
        match (storage_scheme, query.index_key()) {
            (MerchantStorageScheme::RedisKv, Some(lookup_id)) => self.find_cache_first(
                query,
                lookup_id,
            ),
            _ => self.find_durable(query),
        }
    }

    /// The attempts of a payment in the durable store.
    pub open spec fn find_all_durable(
        self,
        merchant_id: Seq<char>,
        payment_id: Seq<char>,
    ) -> Result<Seq<PaymentAttempt>, StorageErrorView> {
        match self.find_records(merchant_id, payment_id) {
            Ok(rows) => Ok(domain_models(rows)),
            Err(e) => Err(data_error(e)),
        }
    }

    /// The attempts of a payment under a storage scheme. Cache-first, the
    /// index entry of the payment names the kind of field to scan the
    /// payment's hash for; where the index has no entry for the payment, the
    /// durable store is asked.
    pub open spec fn find_all(
        self,
        merchant_id: Seq<char>,
        payment_id: Seq<char>,
        storage_scheme: MerchantStorageScheme,
    ) -> Result<Seq<PaymentAttempt>, StorageErrorView> {
        match storage_scheme {
            MerchantStorageScheme::PostgresOnly => self.find_all_durable(merchant_id, payment_id),
            MerchantStorageScheme::RedisKv => match self.find_lookup(
                partition_key(merchant_id, payment_id),
            ) {
                Ok(entry) => match self.scan_fields(
                    partition_key(merchant_id, payment_id),
                    hscan_pattern(entry.sk_id),
                ) {
                    Ok(attempts) => Ok(attempts),
                    Err(failure) => Err(cache_error(failure)),
                },
                Err(e) => if e == DatabaseError::NotFound {
                    self.find_all_durable(merchant_id, payment_id)
                } else {
                    Err(data_error(e))
                },
            },
        }
    }
}

/// Runs an insertion on the stores to its end.
fn run_insert(
    backend: &mut MemoryBackend,
    payment_attempt: PaymentAttemptNew,
    storage_scheme: MerchantStorageScheme,
    created_now: Timestamp,
    modified_now: Timestamp,
) -> (r: Result<PaymentAttempt, StorageError>)
    ensures
        final(backend)@ == old(backend)@.insert(
            payment_attempt,
            storage_scheme,
            created_now,
            modified_now,
        ).0,
        outcome(r) == old(backend)@.insert(
            payment_attempt,
            storage_scheme,
            created_now,
            modified_now,
        ).1,
        old(backend)@.well_formed() ==> final(backend)@.well_formed(),
{
    let (flow, request) = InsertFlow::start(
        payment_attempt,
        storage_scheme,
        created_now,
        modified_now,
    );
    let response = backend.perform(request);
    let (flow, step) = flow.resume(response);
    match step {
        Step::Done(r) => r,
        Step::Request(request) => {
            let response = backend.perform(request);
            let (flow, step) = flow.resume(response);
            match step {
                Step::Done(r) => r,
                Step::Request(request) => {
                    let response = backend.perform(request);
                    let (_, step) = flow.resume(response);
                    match step {
                        Step::Done(r) => r,
                        Step::Request(_) => Err(StorageError::UnexpectedFlow),
                    }
                },
            }
        },
    }
}

/// Runs an update on the stores to its end.
fn run_update(
    backend: &mut MemoryBackend,
    this: PaymentAttempt,
    payment_attempt: PaymentAttemptUpdate,
    storage_scheme: MerchantStorageScheme,
    now: Timestamp,
) -> (r: Result<PaymentAttempt, StorageError>)
    ensures
        final(backend)@ == old(backend)@.update(this, payment_attempt, storage_scheme, now).0,
        outcome(r) == old(backend)@.update(this, payment_attempt, storage_scheme, now).1,
        old(backend)@.well_formed() ==> final(backend)@.well_formed(),
{
    let (flow, request) = UpdateFlow::start(this, payment_attempt, storage_scheme, now);
    let response = backend.perform(request);
    let (flow, step) = flow.resume(response);
    match step {
        Step::Done(r) => r,
        Step::Request(request) => {
            let response = backend.perform(request);
            let (flow, step) = flow.resume(response);
            match step {
                Step::Done(r) => r,
                Step::Request(request) => {
                    let response = backend.perform(request);
                    let (flow, step) = flow.resume(response);
                    match step {
                        Step::Done(r) => r,
                        Step::Request(request) => {
                            let response = backend.perform(request);
                            let (_, step) = flow.resume(response);
                            match step {
                                Step::Done(r) => r,
                                Step::Request(_) => Err(StorageError::UnexpectedFlow),
                            }
                        },
                    }
                },
            }
        },
    }
}

/// Runs the search for one attempt on the stores to its end.
fn run_find(
    backend: &MemoryBackend,
    query: AttemptQuery,
    storage_scheme: MerchantStorageScheme,
) -> (r: Result<PaymentAttempt, StorageError>)
    ensures
        outcome(r) == backend@.find(query@, storage_scheme),
{
    let (flow, request) = FindFlow::start(query, storage_scheme);
    let response = backend.answer(request);
    let (flow, step) = flow.resume(response);
    match step {
        Step::Done(r) => r,
        Step::Request(request) => {
            let response = backend.answer(request);
            let (flow, step) = flow.resume(response);
            match step {
                Step::Done(r) => r,
                Step::Request(request) => {
                    let response = backend.answer(request);
                    let (_, step) = flow.resume(response);
                    match step {
                        Step::Done(r) => r,
                        Step::Request(_) => Err(StorageError::UnexpectedFlow),
                    }
                },
            }
        },
    }
}

/// Runs the search for all attempts of a payment on the stores to its end.
fn run_find_all(
    backend: &MemoryBackend,
    merchant_id: &str,
    payment_id: &str,
    storage_scheme: MerchantStorageScheme,
) -> (r: Result<Vec<PaymentAttempt>, StorageError>)
    ensures
        list_outcome(r) == backend@.find_all(merchant_id@, payment_id@, storage_scheme),
{
    let (flow, request) = FindAllFlow::start(
        String::from_str(merchant_id),
        String::from_str(payment_id),
        storage_scheme,
    );
    let response = backend.answer(request);
    let (flow, step) = flow.resume(response);
    match step {
        ListStep::Done(r) => r,
        ListStep::Request(request) => {
            let response = backend.answer(request);
            let (_, step) = flow.resume(response);
            match step {
                ListStep::Done(r) => r,
                ListStep::Request(_) => Err(StorageError::UnexpectedFlow),
            }
        },
    }
}

/// The storage router that uses the durable store only, whatever the
/// merchant's storage scheme.
pub struct RouterStore {
    db_store: MemoryBackend,
}

impl View for RouterStore {
    type V = BackendState;

    closed spec fn view(&self) -> BackendState {
        self.db_store@
    }
}

impl RouterStore {
    /// A router over `db_store`.
    pub fn new(db_store: MemoryBackend) -> (r: Self)
        ensures
            r@ == db_store@,
    {
        RouterStore { db_store }
    }

    /// The stores, to look into or to disturb.
    pub fn backend(&mut self) -> (r: &mut MemoryBackend)
        ensures
            r@ == old(self)@,
            final(self)@ == final(r)@,
    {
        &mut self.db_store
    }

    /// The stores, to read.
    pub fn stores(&self) -> (r: &MemoryBackend)
        ensures
            r@ == self@,
    {
        &self.db_store
    }

    /// Inserts an attempt into the durable store, with `created_now` as the
    /// time of the insertion.
    pub fn insert_payment_attempt_at(
        &mut self,
        payment_attempt: PaymentAttemptNew,
        _storage_scheme: MerchantStorageScheme,
        created_now: Timestamp,
        modified_now: Timestamp,
    ) -> (r: Result<PaymentAttempt, StorageError>)
        ensures
            final(self)@ == old(self)@.insert(
                payment_attempt,
                MerchantStorageScheme::PostgresOnly,
                created_now,
                modified_now,
            ).0,
            outcome(r) == old(self)@.insert(
                payment_attempt,
                MerchantStorageScheme::PostgresOnly,
                created_now,
                modified_now,
            ).1,
            old(self)@.well_formed() ==> final(self)@.well_formed(),
    {
        run_insert(
            &mut self.db_store,
            payment_attempt,
            MerchantStorageScheme::PostgresOnly,
            created_now,
            modified_now,
        )
    }

    /// Inserts an attempt into the durable store at the time the clock
    /// shows. Whatever the clock shows, the stores and the result are those
    /// of an insertion at some instant.
    pub fn insert_payment_attempt(
        &mut self,
        payment_attempt: PaymentAttemptNew,
        _storage_scheme: MerchantStorageScheme,
    ) -> (r: Result<PaymentAttempt, StorageError>)
        ensures
            exists|created_now: Timestamp, modified_now: Timestamp|
                {
                    &&& final(self)@ == (#[trigger] old(self)@.insert(
                        payment_attempt,
                        MerchantStorageScheme::PostgresOnly,
                        created_now,
                        modified_now,
                    )).0
                    &&& outcome(r) == old(self)@.insert(
                        payment_attempt,
                        MerchantStorageScheme::PostgresOnly,
                        created_now,
                        modified_now,
                    ).1
                },
            old(self)@.well_formed() ==> final(self)@.well_formed(),
    {
        let created_now = now();
        let modified_now = now();
        self.insert_payment_attempt_at(payment_attempt, _storage_scheme, created_now, modified_now)
    }

    /// Updates an attempt in the durable store, with `now` as the time of
    /// the update.
    pub fn update_payment_attempt_with_attempt_id_at(
        &mut self,
        this: PaymentAttempt,
        payment_attempt: PaymentAttemptUpdate,
        _storage_scheme: MerchantStorageScheme,
        now: Timestamp,
    ) -> (r: Result<PaymentAttempt, StorageError>)
        ensures
            final(self)@ == old(self)@.update(
                this,
                payment_attempt,
                MerchantStorageScheme::PostgresOnly,
                now,
            ).0,
            outcome(r) == old(self)@.update(
                this,
                payment_attempt,
                MerchantStorageScheme::PostgresOnly,
                now,
            ).1,
            old(self)@.well_formed() ==> final(self)@.well_formed(),
    {
        run_update(
            &mut self.db_store,
            this,
            payment_attempt,
            MerchantStorageScheme::PostgresOnly,
            now,
        )
    }

    /// Updates an attempt in the durable store at the time the clock shows.
    /// Whatever the clock shows, the stores and the result are those of an
    /// update at some instant.
    pub fn update_payment_attempt_with_attempt_id(
        &mut self,
        this: PaymentAttempt,
        payment_attempt: PaymentAttemptUpdate,
        _storage_scheme: MerchantStorageScheme,
    ) -> (r: Result<PaymentAttempt, StorageError>)
        ensures
            exists|at: Timestamp|
                {
                    &&& final(self)@ == (#[trigger] old(self)@.update(
                        this,
                        payment_attempt,
                        MerchantStorageScheme::PostgresOnly,
                        at,
                    )).0
                    &&& outcome(r) == old(self)@.update(
                        this,
                        payment_attempt,
                        MerchantStorageScheme::PostgresOnly,
                        at,
                    ).1
                },
            old(self)@.well_formed() ==> final(self)@.well_formed(),
    {
        let at = now();
        self.update_payment_attempt_with_attempt_id_at(this, payment_attempt, _storage_scheme, at)
    }

    /// The attempt of a payment that a connector knows by a transaction identifier.
    pub fn find_payment_attempt_by_connector_transaction_id_payment_id_merchant_id(
        &self,
        connector_transaction_id: &str,
        payment_id: &str,
        merchant_id: &str,
        _storage_scheme: MerchantStorageScheme,
    ) -> (r: Result<PaymentAttempt, StorageError>)
        ensures
            outcome(r) == self@.find(
                AttemptQueryView::ConnectorTransactionIdPaymentIdMerchantId {
                    connector_transaction_id: connector_transaction_id@,
                    payment_id: payment_id@,
                    merchant_id: merchant_id@,
                },
                MerchantStorageScheme::PostgresOnly,
            ),
    {
        let query = AttemptQuery::ConnectorTransactionIdPaymentIdMerchantId {
            connector_transaction_id: String::from_str(connector_transaction_id),
            payment_id: String::from_str(payment_id),
            merchant_id: String::from_str(merchant_id),
        };
        run_find(&self.db_store, query, MerchantStorageScheme::PostgresOnly)
    }

    /// The charged attempt of a payment that was modified last.
    pub fn find_payment_attempt_last_successful_attempt_by_payment_id_merchant_id(
        &self,
        payment_id: &str,
        merchant_id: &str,
        _storage_scheme: MerchantStorageScheme,
    ) -> (r: Result<PaymentAttempt, StorageError>)
        ensures
            outcome(r) == self@.find(
                AttemptQueryView::LastSuccessfulAttemptByPaymentIdMerchantId {
                    payment_id: payment_id@,
                    merchant_id: merchant_id@,
                },
                MerchantStorageScheme::PostgresOnly,
            ),
    {
        let query = AttemptQuery::LastSuccessfulAttemptByPaymentIdMerchantId {
            payment_id: String::from_str(payment_id),
            merchant_id: String::from_str(merchant_id),
        };
        run_find(&self.db_store, query, MerchantStorageScheme::PostgresOnly)
    }

    /// The attempt of a merchant that a connector knows by a transaction identifier.
    pub fn find_payment_attempt_by_merchant_id_connector_txn_id(
        &self,
        merchant_id: &str,
        connector_txn_id: &str,
        _storage_scheme: MerchantStorageScheme,
    ) -> (r: Result<PaymentAttempt, StorageError>)
        ensures
            outcome(r) == self@.find(
                AttemptQueryView::MerchantIdConnectorTxnId {
                    merchant_id: merchant_id@,
                    connector_txn_id: connector_txn_id@,
                },
                MerchantStorageScheme::PostgresOnly,
            ),
    {
        let query = AttemptQuery::MerchantIdConnectorTxnId {
            merchant_id: String::from_str(merchant_id),
            connector_txn_id: String::from_str(connector_txn_id),
        };
        run_find(&self.db_store, query, MerchantStorageScheme::PostgresOnly)
    }

    /// The attempt of a payment by its own identifier.
    pub fn find_payment_attempt_by_payment_id_merchant_id_attempt_id(
        &self,
        payment_id: &str,
        merchant_id: &str,
        attempt_id: &str,
        _storage_scheme: MerchantStorageScheme,
    ) -> (r: Result<PaymentAttempt, StorageError>)
        ensures
            outcome(r) == self@.find(
                AttemptQueryView::PaymentIdMerchantIdAttemptId {
                    payment_id: payment_id@,
                    merchant_id: merchant_id@,
                    attempt_id: attempt_id@,
                },
                MerchantStorageScheme::PostgresOnly,
            ),
    {
        let query = AttemptQuery::PaymentIdMerchantIdAttemptId {
            payment_id: String::from_str(payment_id),
            merchant_id: String::from_str(merchant_id),
            attempt_id: String::from_str(attempt_id),
        };
        run_find(&self.db_store, query, MerchantStorageScheme::PostgresOnly)
    }

    /// The attempt of a merchant by its own identifier.
    pub fn find_payment_attempt_by_attempt_id_merchant_id(
        &self,
        attempt_id: &str,
        merchant_id: &str,
        _storage_scheme: MerchantStorageScheme,
    ) -> (r: Result<PaymentAttempt, StorageError>)
        ensures
            outcome(r) == self@.find(
                AttemptQueryView::AttemptIdMerchantId {
                    attempt_id: attempt_id@,
                    merchant_id: merchant_id@,
                },
                MerchantStorageScheme::PostgresOnly,
            ),
    {
        let query = AttemptQuery::AttemptIdMerchantId {
            attempt_id: String::from_str(attempt_id),
            merchant_id: String::from_str(merchant_id),
        };
        run_find(&self.db_store, query, MerchantStorageScheme::PostgresOnly)
    }

    /// The attempt of a merchant by the identifier of a preprocessing step.
    pub fn find_payment_attempt_by_preprocessing_id_merchant_id(
        &self,
        preprocessing_id: &str,
        merchant_id: &str,
        _storage_scheme: MerchantStorageScheme,
    ) -> (r: Result<PaymentAttempt, StorageError>)
        ensures
            outcome(r) == self@.find(
                AttemptQueryView::PreprocessingIdMerchantId {
                    preprocessing_id: preprocessing_id@,
                    merchant_id: merchant_id@,
                },
                MerchantStorageScheme::PostgresOnly,
            ),
    {
        let query = AttemptQuery::PreprocessingIdMerchantId {
            preprocessing_id: String::from_str(preprocessing_id),
            merchant_id: String::from_str(merchant_id),
        };
        run_find(&self.db_store, query, MerchantStorageScheme::PostgresOnly)
    }

    /// All attempts of a payment.
    pub fn find_attempts_by_merchant_id_payment_id(
        &self,
        merchant_id: &str,
        payment_id: &str,
        _storage_scheme: MerchantStorageScheme,
    ) -> (r: Result<Vec<PaymentAttempt>, StorageError>)
        ensures
            list_outcome(r) == self@.find_all(
                merchant_id@,
                payment_id@,
                MerchantStorageScheme::PostgresOnly,
            ),
    {
        run_find_all(&self.db_store, merchant_id, payment_id, MerchantStorageScheme::PostgresOnly)
    }
}

/// The storage router that follows each merchant's storage scheme.
pub struct KVRouterStore {
    router_store: RouterStore,
}

impl View for KVRouterStore {
    type V = BackendState;

    closed spec fn view(&self) -> BackendState {
        self.router_store@
    }
}

impl KVRouterStore {
    /// A router over `router_store`'s stores.
    pub fn new(router_store: RouterStore) -> (r: Self)
        ensures
            r@ == router_store@,
    {
        KVRouterStore { router_store }
    }

    /// The stores, to look into or to disturb.
    pub fn backend(&mut self) -> (r: &mut MemoryBackend)
        ensures
            r@ == old(self)@,
            final(self)@ == final(r)@,
    {
        &mut self.router_store.db_store
    }

    /// The stores, to read.
    pub fn stores(&self) -> (r: &MemoryBackend)
        ensures
            r@ == self@,
    {
        &self.router_store.db_store
    }

    /// Inserts an attempt under a storage scheme. Cache-first,
    /// `created_now` and `modified_now` are the clock readings for the two
    /// timestamps of the cached attempt; durable-only, `created_now` is the
    /// time of the insertion.
    pub fn insert_payment_attempt_at(
        &mut self,
        payment_attempt: PaymentAttemptNew,
        storage_scheme: MerchantStorageScheme,
        created_now: Timestamp,
        modified_now: Timestamp,
    ) -> (r: Result<PaymentAttempt, StorageError>)
        ensures
            final(self)@ == old(self)@.insert(
                payment_attempt,
                storage_scheme,
                created_now,
                modified_now,
            ).0,
            outcome(r) == old(self)@.insert(
                payment_attempt,
                storage_scheme,
                created_now,
                modified_now,
            ).1,
            old(self)@.well_formed() ==> final(self)@.well_formed(),
    {
        run_insert(
            &mut self.router_store.db_store,
            payment_attempt,
            storage_scheme,
            created_now,
            modified_now,
        )
    }

    /// Inserts an attempt at the time the clock shows. Whatever the clock
    /// shows, the stores and the result are those of an insertion at some
    /// pair of instants.
    pub fn insert_payment_attempt(
        &mut self,
        payment_attempt: PaymentAttemptNew,
        storage_scheme: MerchantStorageScheme,
    ) -> (r: Result<PaymentAttempt, StorageError>)
        ensures
            exists|created_now: Timestamp, modified_now: Timestamp|
                {
                    &&& final(self)@ == (#[trigger] old(self)@.insert(
                        payment_attempt,
                        storage_scheme,
                        created_now,
                        modified_now,
                    )).0
                    &&& outcome(r) == old(self)@.insert(
                        payment_attempt,
                        storage_scheme,
                        created_now,
                        modified_now,
                    ).1
                },
            old(self)@.well_formed() ==> final(self)@.well_formed(),
    {
        let created_now = now();
        let modified_now = now();
        self.insert_payment_attempt_at(payment_attempt, storage_scheme, created_now, modified_now)
    }

    /// Updates an attempt, with `now` as the time of the update.
    pub fn update_payment_attempt_with_attempt_id_at(
        &mut self,
        this: PaymentAttempt,
        payment_attempt: PaymentAttemptUpdate,
        storage_scheme: MerchantStorageScheme,
        now: Timestamp,
    ) -> (r: Result<PaymentAttempt, StorageError>)
        ensures
            final(self)@ == old(self)@.update(this, payment_attempt, storage_scheme, now).0,
            outcome(r) == old(self)@.update(this, payment_attempt, storage_scheme, now).1,
            old(self)@.well_formed() ==> final(self)@.well_formed(),
    {
        run_update(&mut self.router_store.db_store, this, payment_attempt, storage_scheme, now)
    }

    /// Updates an attempt at the time the clock shows. Whatever the clock
    /// shows, the stores and the result are those of an update at some
    /// instant.
    pub fn update_payment_attempt_with_attempt_id(
        &mut self,
        this: PaymentAttempt,
        payment_attempt: PaymentAttemptUpdate,
        storage_scheme: MerchantStorageScheme,
    ) -> (r: Result<PaymentAttempt, StorageError>)
        ensures
            exists|at: Timestamp|
                {
                    &&& final(self)@ == (#[trigger] old(self)@.update(
                        this,
                        payment_attempt,
                        storage_scheme,
                        at,
                    )).0
                    &&& outcome(r) == old(self)@.update(this, payment_attempt, storage_scheme, at).1
                },
            old(self)@.well_formed() ==> final(self)@.well_formed(),
    {
        let at = now();
        self.update_payment_attempt_with_attempt_id_at(this, payment_attempt, storage_scheme, at)
    }

    /// The attempt of a payment that a connector knows by a transaction identifier.
    pub fn find_payment_attempt_by_connector_transaction_id_payment_id_merchant_id(
        &self,
        connector_transaction_id: &str,
        payment_id: &str,
        merchant_id: &str,
        storage_scheme: MerchantStorageScheme,
    ) -> (r: Result<PaymentAttempt, StorageError>)
        ensures
            outcome(r) == self@.find(
                AttemptQueryView::ConnectorTransactionIdPaymentIdMerchantId {
                    connector_transaction_id: connector_transaction_id@,
                    payment_id: payment_id@,
                    merchant_id: merchant_id@,
                },
                storage_scheme,
            ),
    {
        let query = AttemptQuery::ConnectorTransactionIdPaymentIdMerchantId {
            connector_transaction_id: String::from_str(connector_transaction_id),
            payment_id: String::from_str(payment_id),
            merchant_id: String::from_str(merchant_id),
        };
        run_find(&self.router_store.db_store, query, storage_scheme)
    }

    /// The charged attempt of a payment that was modified last.
    /// That attempt is not indexed: the durable store is asked under either
    /// scheme.
    pub fn find_payment_attempt_last_successful_attempt_by_payment_id_merchant_id(
        &self,
        payment_id: &str,
        merchant_id: &str,
        storage_scheme: MerchantStorageScheme,
    ) -> (r: Result<PaymentAttempt, StorageError>)
        ensures
            outcome(r) == self@.find(
                AttemptQueryView::LastSuccessfulAttemptByPaymentIdMerchantId {
                    payment_id: payment_id@,
                    merchant_id: merchant_id@,
                },
                storage_scheme,
            ),
    {
        let query = AttemptQuery::LastSuccessfulAttemptByPaymentIdMerchantId {
            payment_id: String::from_str(payment_id),
            merchant_id: String::from_str(merchant_id),
        };
        run_find(&self.router_store.db_store, query, storage_scheme)
    }

    /// The attempt of a merchant that a connector knows by a transaction identifier.
    pub fn find_payment_attempt_by_merchant_id_connector_txn_id(
        &self,
        merchant_id: &str,
        connector_txn_id: &str,
        storage_scheme: MerchantStorageScheme,
    ) -> (r: Result<PaymentAttempt, StorageError>)
        ensures
            outcome(r) == self@.find(
                AttemptQueryView::MerchantIdConnectorTxnId {
                    merchant_id: merchant_id@,
                    connector_txn_id: connector_txn_id@,
                },
                storage_scheme,
            ),
    {
        let query = AttemptQuery::MerchantIdConnectorTxnId {
            merchant_id: String::from_str(merchant_id),
            connector_txn_id: String::from_str(connector_txn_id),
        };
        run_find(&self.router_store.db_store, query, storage_scheme)
    }

    /// The attempt of a payment by its own identifier.
    pub fn find_payment_attempt_by_payment_id_merchant_id_attempt_id(
        &self,
        payment_id: &str,
        merchant_id: &str,
        attempt_id: &str,
        storage_scheme: MerchantStorageScheme,
    ) -> (r: Result<PaymentAttempt, StorageError>)
        ensures
            outcome(r) == self@.find(
                AttemptQueryView::PaymentIdMerchantIdAttemptId {
                    payment_id: payment_id@,
                    merchant_id: merchant_id@,
                    attempt_id: attempt_id@,
                },
                storage_scheme,
            ),
    {
        let query = AttemptQuery::PaymentIdMerchantIdAttemptId {
            payment_id: String::from_str(payment_id),
            merchant_id: String::from_str(merchant_id),
            attempt_id: String::from_str(attempt_id),
        };
        run_find(&self.router_store.db_store, query, storage_scheme)
    }

    /// The attempt of a merchant by its own identifier.
    pub fn find_payment_attempt_by_attempt_id_merchant_id(
        &self,
        attempt_id: &str,
        merchant_id: &str,
        storage_scheme: MerchantStorageScheme,
    ) -> (r: Result<PaymentAttempt, StorageError>)
        ensures
            outcome(r) == self@.find(
                AttemptQueryView::AttemptIdMerchantId {
                    attempt_id: attempt_id@,
                    merchant_id: merchant_id@,
                },
                storage_scheme,
            ),
    {
        let query = AttemptQuery::AttemptIdMerchantId {
            attempt_id: String::from_str(attempt_id),
            merchant_id: String::from_str(merchant_id),
        };
        run_find(&self.router_store.db_store, query, storage_scheme)
    }

    /// The attempt of a merchant by the identifier of a preprocessing step.
    pub fn find_payment_attempt_by_preprocessing_id_merchant_id(
        &self,
        preprocessing_id: &str,
        merchant_id: &str,
        storage_scheme: MerchantStorageScheme,
    ) -> (r: Result<PaymentAttempt, StorageError>)
        ensures
            outcome(r) == self@.find(
                AttemptQueryView::PreprocessingIdMerchantId {
                    preprocessing_id: preprocessing_id@,
                    merchant_id: merchant_id@,
                },
                storage_scheme,
            ),
    {
        let query = AttemptQuery::PreprocessingIdMerchantId {
            preprocessing_id: String::from_str(preprocessing_id),
            merchant_id: String::from_str(merchant_id),
        };
        run_find(&self.router_store.db_store, query, storage_scheme)
    }

    /// All attempts of a payment.
    pub fn find_attempts_by_merchant_id_payment_id(
        &self,
        merchant_id: &str,
        payment_id: &str,
        storage_scheme: MerchantStorageScheme,
    ) -> (r: Result<Vec<PaymentAttempt>, StorageError>)
        ensures
            list_outcome(r) == self@.find_all(merchant_id@, payment_id@, storage_scheme),
    {
        run_find_all(&self.router_store.db_store, merchant_id, payment_id, storage_scheme)
    }
}

} // verus!
