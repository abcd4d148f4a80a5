//! Finding payment attempts.
//!
//! Durable-only, a query goes straight to the durable store. Cache-first,
//! the router resolves the identifier through the reverse-lookup index to a
//! place in the cache and reads there; when the index or the cache holds
//! nothing for it, the same query goes to the durable store. A read never
//! fills the cache: only writes do.

use crate::convert::DataModelExt;
use crate::domain::PaymentAttempt;
use crate::enums::MerchantStorageScheme;
use crate::errors::{
    cache_failure_to_data_error, cache_error, data_error, diesel_error_to_data_error,
    CacheFailure, CacheFailureView, DatabaseError, RedisError, StorageError, StorageErrorView,
};
use crate::reverse_lookup::{make_lookup_key, make_partition_key, partition_key};
use crate::router::protocol::{
    AttemptQuery, ListStep, ListStepView, Step, StepView, StoreRequest, StoreRequestView,
    StoreResponse, StoreResponseView,
};
use crate::storage;
use vstd::prelude::*;
use vstd::string::{StrSliceExecFns, StringExecFns};

verus! {

/// The position of the first underscore of `s`, or the length of `s` if it
/// has none.
pub open spec fn first_underscore(s: Seq<char>) -> nat
    decreases s.len(),
{
    if s.len() == 0 || s[0] == '_' {
        0
    } else {
        1 + first_underscore(s.drop_first())
    }
}

/// The pattern that matches every cache field of the kind of `sk`: what
/// stands before the first underscore of `sk`, an underscore, and a star.
pub open spec fn hscan_pattern(sk: Seq<char>) -> Seq<char> {
    sk.take(first_underscore(sk) as int) + "_*"@
}

proof fn lemma_first_underscore(s: Seq<char>, i: int)
    requires
        0 <= i <= s.len(),
        forall|j: int| 0 <= j < i ==> s[j] != '_',
        i == s.len() || s[i] == '_',
    ensures
        first_underscore(s) == i,
    decreases i,
{
    if i > 0 {
        let rest = s.drop_first();
        assert forall|j: int| 0 <= j < i - 1 implies rest[j] != '_' by {
            assert(rest[j] == s[j + 1]);
        }
        lemma_first_underscore(rest, i - 1);
    }
}

/// Builds the pattern that matches every cache field of the kind of `sk`.
pub fn generate_hscan_pattern_for_attempt(sk: &str) -> (r: String)
    ensures
        r@ == hscan_pattern(sk@),
{
    let n = sk.unicode_len();
    let mut i: usize = 0;
    while i < n && sk.get_char(i) != '_'
        invariant
            n == sk@.len(),
            i <= n,
            forall|j: int| 0 <= j < i ==> sk@[j] != '_',
        decreases n - i,
    {
        i += 1;
    }
    proof {
        lemma_first_underscore(sk@, i as int);
    }
    let head = sk.substring_char(0, i);
    let mut pattern = String::from_str(head);
    pattern.append("_*");
    assert(sk@.take(i as int) =~= sk@.subrange(0, i as int));
    pattern
}

impl AttemptQuery {
    /// The index key of this query, if the cache-first scheme resolves the
    /// query through the index.
    pub fn index_key(&self) -> (r: Option<String>)
        ensures
            match r {
                Some(key) => self@.index_key() == Some(key@),
                None => self@.index_key() is None,
            },
    {
        match self {
            AttemptQuery::ConnectorTransactionIdPaymentIdMerchantId {
                connector_transaction_id,
                merchant_id,
                ..
            } => Some(make_lookup_key(merchant_id.as_str(), connector_transaction_id.as_str())),
            AttemptQuery::LastSuccessfulAttemptByPaymentIdMerchantId { .. } => None,
            AttemptQuery::MerchantIdConnectorTxnId { merchant_id, connector_txn_id } => Some(
                make_lookup_key(merchant_id.as_str(), connector_txn_id.as_str()),
            ),
            AttemptQuery::PaymentIdMerchantIdAttemptId { merchant_id, attempt_id, .. } => Some(
                make_lookup_key(merchant_id.as_str(), attempt_id.as_str()),
            ),
            AttemptQuery::AttemptIdMerchantId { attempt_id, merchant_id } => Some(
                make_lookup_key(merchant_id.as_str(), attempt_id.as_str()),
            ),
            AttemptQuery::PreprocessingIdMerchantId { preprocessing_id, merchant_id } => Some(
                make_lookup_key(merchant_id.as_str(), preprocessing_id.as_str()),
            ),
        }
    }
}

/// Whether a failed read of the cache means that the cache holds nothing
/// under the field, as opposed to the cache having failed.
pub open spec fn is_cache_miss(failure: CacheFailureView) -> bool {
    failure == CacheFailureView::Operation(RedisError::NotFound)
}

/// Whether a failed read of the cache is a miss.
pub fn cache_missed(failure: &CacheFailure) -> (r: bool)
    ensures
        r == is_cache_miss(failure@),
{
    match failure {
        CacheFailure::Operation(RedisError::NotFound) => true,
        _ => false,
    }
}

/// Where the search for one attempt stands: which answer it is waiting for.
#[derive(Debug, PartialEq)]
pub enum FindFlow {
    /// Cache-first: the index was asked for the identifier.
    Lookup { query: AttemptQuery },
    /// Cache-first: the cache was asked for the field the index named.
    CacheGet { query: AttemptQuery },
    /// The durable store was asked.
    RecordFind,
    /// The result was handed to the caller.
    Finished,
}

impl FindFlow {
    /// The first request of a search, and the state in which its answer is
    /// awaited.
    pub open spec fn begun(query: AttemptQuery, storage_scheme: MerchantStorageScheme) -> (
        FindFlow,
        StoreRequestView,
    ) {
        match (storage_scheme, query@.index_key()) {
            (MerchantStorageScheme::RedisKv, Some(lookup_id)) => (
                FindFlow::Lookup { query },
                StoreRequestView::FindLookup { lookup_id },
            ),
            _ => (FindFlow::RecordFind, StoreRequestView::FindRecord { query: query@ }),
        }
    }

    /// The fall-through to the durable store, with the query unchanged.
    pub open spec fn fallen_through(query: AttemptQuery) -> (FindFlow, StepView) {
        (FindFlow::RecordFind, StepView::Request(StoreRequestView::FindRecord { query: query@ }))
    }

    /// What follows from an answer: the next state, and the next request or
    /// the result. A miss in the index or in the cache is no error: the
    /// durable store is asked instead. An answer of a kind that the state is
    /// not waiting for ends the search with `UnexpectedFlow`.
    pub open spec fn resumed(self, response: StoreResponseView) -> (FindFlow, StepView) {
        match (self, response) {
            (FindFlow::Lookup { query }, StoreResponseView::Lookup(Ok(entry))) => (
                FindFlow::CacheGet { query },
                StepView::Request(
                    StoreRequestView::GetField { key: entry.pk_id, field: entry.sk_id },
                ),
            ),
            (FindFlow::Lookup { query }, StoreResponseView::Lookup(Err(e))) => {
                if e == DatabaseError::NotFound {
                    Self::fallen_through(query)
                } else {
                    (FindFlow::Finished, StepView::Done(Err(data_error(e))))
                }
            },
            (FindFlow::CacheGet { .. }, StoreResponseView::Field(Ok(attempt))) => (
                FindFlow::Finished,
                StepView::Done(Ok(attempt)),
            ),
            (FindFlow::CacheGet { query }, StoreResponseView::Field(Err(failure))) => {
                if is_cache_miss(failure) {
                    Self::fallen_through(query)
                } else {
                    (FindFlow::Finished, StepView::Done(Err(cache_error(failure))))
                }
            },
            (FindFlow::RecordFind, StoreResponseView::Record(Ok(row))) => (
                FindFlow::Finished,
                StepView::Done(Ok(PaymentAttempt::domain_model(row))),
            ),
            (FindFlow::RecordFind, StoreResponseView::Record(Err(e))) => (
                FindFlow::Finished,
                StepView::Done(Err(data_error(e))),
            ),
            _ => (FindFlow::Finished, StepView::Done(Err(StorageErrorView::UnexpectedFlow))),
        }
    }

    /// How many more answers the search can wait for, at most.
    pub open spec fn remaining(self) -> nat {
        match self {
            FindFlow::Lookup { .. } => 3,
            FindFlow::CacheGet { .. } => 2,
            FindFlow::RecordFind => 1,
            FindFlow::Finished => 0,
        }
    }

    /// Starts the search for one attempt.
    pub fn start(query: AttemptQuery, storage_scheme: MerchantStorageScheme) -> (r: (
        FindFlow,
        StoreRequest,
    ))
        ensures
            r.0 == FindFlow::begun(query, storage_scheme).0,
            r.1@ == FindFlow::begun(query, storage_scheme).1,
    {
        match storage_scheme {
            MerchantStorageScheme::PostgresOnly => (
                FindFlow::RecordFind,
                StoreRequest::FindRecord { query },
            ),
            MerchantStorageScheme::RedisKv => match query.index_key() {
                Some(lookup_id) => (
                    FindFlow::Lookup { query },
                    StoreRequest::FindLookup { lookup_id },
                ),
                None => (FindFlow::RecordFind, StoreRequest::FindRecord { query }),
            },
        }
    }

    /// Takes an answer and says what follows from it.
    pub fn resume(self, response: StoreResponse) -> (r: (FindFlow, Step))
        ensures
            r.0 == self.resumed(response@).0,
            r.1@ == self.resumed(response@).1,
            r.1 is Request ==> r.0.remaining() < self.remaining(),
            r.1 is Done ==> r.0 == FindFlow::Finished,
    {
        match (self, response) {
            (FindFlow::Lookup { query }, StoreResponse::Lookup(Ok(entry))) => (
                FindFlow::CacheGet { query },
                Step::Request(StoreRequest::GetField { key: entry.pk_id, field: entry.sk_id }),
            ),
            (FindFlow::Lookup { query }, StoreResponse::Lookup(Err(e))) => {
                if e == DatabaseError::NotFound {
                    (FindFlow::RecordFind, Step::Request(StoreRequest::FindRecord { query }))
                } else {
                    (FindFlow::Finished, Step::Done(Err(diesel_error_to_data_error(&e))))
                }
            },
            (FindFlow::CacheGet { .. }, StoreResponse::Field(Ok(attempt))) => (
                FindFlow::Finished,
                Step::Done(Ok(attempt)),
            ),
            (FindFlow::CacheGet { query }, StoreResponse::Field(Err(failure))) => {
                if cache_missed(&failure) {
                    (FindFlow::RecordFind, Step::Request(StoreRequest::FindRecord { query }))
                } else {
                    (FindFlow::Finished, Step::Done(Err(cache_failure_to_data_error(failure))))
                }
            },
            (FindFlow::RecordFind, StoreResponse::Record(Ok(row))) => (
                FindFlow::Finished,
                Step::Done(Ok(PaymentAttempt::from_storage_model(row))),
            ),
            (FindFlow::RecordFind, StoreResponse::Record(Err(e))) => (
                FindFlow::Finished,
                Step::Done(Err(diesel_error_to_data_error(&e))),
            ),
            _ => (FindFlow::Finished, Step::Done(Err(StorageError::UnexpectedFlow))),
        }
    }
}

/// The domain-side attempts that a list of rows stands for.
pub open spec fn domain_models(rows: Seq<storage::PaymentAttempt>) -> Seq<PaymentAttempt> {
    rows.map_values(|row: storage::PaymentAttempt| PaymentAttempt::domain_model(row))
}

/// Converts a list of rows to the domain side.
pub fn from_storage_models(rows: Vec<storage::PaymentAttempt>) -> (r: Vec<PaymentAttempt>)
    ensures
        r@ == domain_models(rows@),
{
    let mut attempts: Vec<PaymentAttempt> = Vec::new();
    let mut i: usize = 0;
    while i < rows.len()
        invariant
            i <= rows.len(),
            attempts@ == domain_models(rows@.take(i as int)),
        decreases rows.len() - i,
    {
        attempts.push(PaymentAttempt::from_storage_model(rows[i].clone()));
        assert(rows@.take(i + 1) =~= rows@.take(i as int).push(rows@[i as int]));
        assert(domain_models(rows@.take(i + 1)) =~= domain_models(rows@.take(i as int)).push(
            PaymentAttempt::domain_model(rows@[i as int]),
        ));
        i += 1;
    }
    assert(rows@.take(rows.len() as int) =~= rows@);
    attempts
}

/// Where the search for all attempts of a payment stands.
#[derive(Debug, PartialEq)]
pub enum FindAllFlow {
    /// Cache-first: the index was asked for the payment.
    Lookup { merchant_id: String, payment_id: String },
    /// Cache-first: the cache was asked for the fields that hold attempts.
    CacheScan,
    /// The durable store was asked.
    RecordsFind,
    /// The result was handed to the caller.
    Finished,
}

impl FindAllFlow {
    /// The first request of a search, and the state in which its answer is
    /// awaited.
    pub open spec fn begun(
        merchant_id: String,
        payment_id: String,
        storage_scheme: MerchantStorageScheme,
    ) -> (FindAllFlow, StoreRequestView) {
        match storage_scheme {
            MerchantStorageScheme::PostgresOnly => (
                FindAllFlow::RecordsFind,
                StoreRequestView::FindRecords {
                    merchant_id: merchant_id@,
                    payment_id: payment_id@,
                },
            ),
            MerchantStorageScheme::RedisKv => (
                FindAllFlow::Lookup { merchant_id, payment_id },
                StoreRequestView::FindLookup {
                    lookup_id: partition_key(merchant_id@, payment_id@),
                },
            ),
        }
    }

    /// What follows from an answer: the next state, and the next request or
    /// the result. A miss in the index is no error: the durable store is
    /// asked instead.
    pub open spec fn resumed(self, response: StoreResponseView) -> (FindAllFlow, ListStepView) {
        match (self, response) {
            (
                FindAllFlow::Lookup { merchant_id, payment_id },
                StoreResponseView::Lookup(Ok(entry)),
            ) => (
                FindAllFlow::CacheScan,
                ListStepView::Request(
                    StoreRequestView::ScanFields {
                        key: partition_key(merchant_id@, payment_id@),
                        pattern: hscan_pattern(entry.sk_id),
                    },
                ),
            ),
            (
                FindAllFlow::Lookup { merchant_id, payment_id },
                StoreResponseView::Lookup(Err(e)),
            ) => {
                if e == DatabaseError::NotFound {
                    (
                        FindAllFlow::RecordsFind,
                        ListStepView::Request(
                            StoreRequestView::FindRecords {
                                merchant_id: merchant_id@,
                                payment_id: payment_id@,
                            },
                        ),
                    )
                } else {
                    (FindAllFlow::Finished, ListStepView::Done(Err(data_error(e))))
                }
            },
            (FindAllFlow::CacheScan, StoreResponseView::Fields(Ok(attempts))) => (
                FindAllFlow::Finished,
                ListStepView::Done(Ok(attempts)),
            ),
            (FindAllFlow::CacheScan, StoreResponseView::Fields(Err(failure))) => (
                FindAllFlow::Finished,
                ListStepView::Done(Err(cache_error(failure))),
            ),
            (FindAllFlow::RecordsFind, StoreResponseView::Records(Ok(rows))) => (
                FindAllFlow::Finished,
                ListStepView::Done(Ok(domain_models(rows))),
            ),
            (FindAllFlow::RecordsFind, StoreResponseView::Records(Err(e))) => (
                FindAllFlow::Finished,
                ListStepView::Done(Err(data_error(e))),
            ),
            _ => (
                FindAllFlow::Finished,
                ListStepView::Done(Err(StorageErrorView::UnexpectedFlow)),
            ),
        }
    }

    /// How many more answers the search can wait for, at most.
    pub open spec fn remaining(self) -> nat {
        match self {
            FindAllFlow::Lookup { .. } => 2,
            FindAllFlow::CacheScan => 1,
            FindAllFlow::RecordsFind => 1,
            FindAllFlow::Finished => 0,
        }
    }

    /// Starts the search for all attempts of a payment.
    pub fn start(
        merchant_id: String,
        payment_id: String,
        storage_scheme: MerchantStorageScheme,
    ) -> (r: (FindAllFlow, StoreRequest))
        ensures
            r.0 == FindAllFlow::begun(merchant_id, payment_id, storage_scheme).0,
            r.1@ == FindAllFlow::begun(merchant_id, payment_id, storage_scheme).1,
    {
        match storage_scheme {
            MerchantStorageScheme::PostgresOnly => (
                FindAllFlow::RecordsFind,
                StoreRequest::FindRecords { merchant_id, payment_id },
            ),
            MerchantStorageScheme::RedisKv => {
                let lookup_id = make_partition_key(merchant_id.as_str(), payment_id.as_str());
                (
                    FindAllFlow::Lookup { merchant_id, payment_id },
                    StoreRequest::FindLookup { lookup_id },
                )
            },
        }
    }

    /// Takes an answer and says what follows from it.
    pub fn resume(self, response: StoreResponse) -> (r: (FindAllFlow, ListStep))
        ensures
            r.0 == self.resumed(response@).0,
            r.1@ == self.resumed(response@).1,
            r.1 is Request ==> r.0.remaining() < self.remaining(),
            r.1 is Done ==> r.0 == FindAllFlow::Finished,
    {
        match (self, response) {
            (FindAllFlow::Lookup { merchant_id, payment_id }, StoreResponse::Lookup(Ok(entry))) => {
                let key = make_partition_key(merchant_id.as_str(), payment_id.as_str());
                let pattern = generate_hscan_pattern_for_attempt(entry.sk_id.as_str());
                (
                    FindAllFlow::CacheScan,
                    ListStep::Request(StoreRequest::ScanFields { key, pattern }),
                )
            },
            (FindAllFlow::Lookup { merchant_id, payment_id }, StoreResponse::Lookup(Err(e))) => {
                if e == DatabaseError::NotFound {
                    (
                        FindAllFlow::RecordsFind,
                        ListStep::Request(StoreRequest::FindRecords { merchant_id, payment_id }),
                    )
                } else {
                    (FindAllFlow::Finished, ListStep::Done(Err(diesel_error_to_data_error(&e))))
                }
            },
            (FindAllFlow::CacheScan, StoreResponse::Fields(Ok(attempts))) => (
                FindAllFlow::Finished,
                ListStep::Done(Ok(attempts)),
            ),
            (FindAllFlow::CacheScan, StoreResponse::Fields(Err(failure))) => (
                FindAllFlow::Finished,
                ListStep::Done(Err(cache_failure_to_data_error(failure))),
            ),
            (FindAllFlow::RecordsFind, StoreResponse::Records(Ok(rows))) => (
                FindAllFlow::Finished,
                ListStep::Done(Ok(from_storage_models(rows))),
            ),
            (FindAllFlow::RecordsFind, StoreResponse::Records(Err(e))) => (
                FindAllFlow::Finished,
                ListStep::Done(Err(diesel_error_to_data_error(&e))),
            ),
            _ => (FindAllFlow::Finished, ListStep::Done(Err(StorageError::UnexpectedFlow))),
        }
    }
}

} // verus!
