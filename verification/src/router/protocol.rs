//! What the storage router asks of the outside stores, and what they answer.

use crate::clock::Timestamp;
use crate::domain::PaymentAttempt;
use crate::errors::{CacheFailure, CacheFailureView, DatabaseError, StorageError, StorageErrorView};
use crate::kv::{Partition, PartitionKey, TypedSql};
use crate::reverse_lookup::{lookup_key, LookupEntry, ReverseLookup, ReverseLookupNew};
use crate::storage;
use vstd::prelude::*;

verus! {

/// Answer of the cache to "set this field unless it exists".
#[derive(Clone, Copy, Debug, PartialEq, Eq, Structural)]
pub enum HsetnxReply {
    KeySet,
    KeyNotSet,
}

/// The predicates by which one attempt is looked for.
#[derive(Debug, PartialEq)]
pub enum AttemptQuery {
    ConnectorTransactionIdPaymentIdMerchantId {
        connector_transaction_id: String,
        payment_id: String,
        merchant_id: String,
    },
    LastSuccessfulAttemptByPaymentIdMerchantId { payment_id: String, merchant_id: String },
    MerchantIdConnectorTxnId { merchant_id: String, connector_txn_id: String },
    PaymentIdMerchantIdAttemptId { payment_id: String, merchant_id: String, attempt_id: String },
    AttemptIdMerchantId { attempt_id: String, merchant_id: String },
    PreprocessingIdMerchantId { preprocessing_id: String, merchant_id: String },
}

/// A query, with its identifiers as sequences of characters.
pub enum AttemptQueryView {
    ConnectorTransactionIdPaymentIdMerchantId {
        connector_transaction_id: Seq<char>,
        payment_id: Seq<char>,
        merchant_id: Seq<char>,
    },
    LastSuccessfulAttemptByPaymentIdMerchantId { payment_id: Seq<char>, merchant_id: Seq<char> },
    MerchantIdConnectorTxnId { merchant_id: Seq<char>, connector_txn_id: Seq<char> },
    PaymentIdMerchantIdAttemptId {
        payment_id: Seq<char>,
        merchant_id: Seq<char>,
        attempt_id: Seq<char>,
    },
    AttemptIdMerchantId { attempt_id: Seq<char>, merchant_id: Seq<char> },
    PreprocessingIdMerchantId { preprocessing_id: Seq<char>, merchant_id: Seq<char> },
}

impl View for AttemptQuery {
    type V = AttemptQueryView;

    open spec fn view(&self) -> AttemptQueryView {
        match *self {
            AttemptQuery::ConnectorTransactionIdPaymentIdMerchantId {
                connector_transaction_id,
                payment_id,
                merchant_id,
            } => AttemptQueryView::ConnectorTransactionIdPaymentIdMerchantId {
                connector_transaction_id: connector_transaction_id@,
                payment_id: payment_id@,
                merchant_id: merchant_id@,
            },
            AttemptQuery::LastSuccessfulAttemptByPaymentIdMerchantId {
                payment_id,
                merchant_id,
            } => AttemptQueryView::LastSuccessfulAttemptByPaymentIdMerchantId {
                payment_id: payment_id@,
                merchant_id: merchant_id@,
            },
            AttemptQuery::MerchantIdConnectorTxnId {
                merchant_id,
                connector_txn_id,
            } => AttemptQueryView::MerchantIdConnectorTxnId {
                merchant_id: merchant_id@,
                connector_txn_id: connector_txn_id@,
            },
            AttemptQuery::PaymentIdMerchantIdAttemptId {
                payment_id,
                merchant_id,
                attempt_id,
            } => AttemptQueryView::PaymentIdMerchantIdAttemptId {
                payment_id: payment_id@,
                merchant_id: merchant_id@,
                attempt_id: attempt_id@,
            },
            AttemptQuery::AttemptIdMerchantId {
                attempt_id,
                merchant_id,
            } => AttemptQueryView::AttemptIdMerchantId {
                attempt_id: attempt_id@,
                merchant_id: merchant_id@,
            },
            AttemptQuery::PreprocessingIdMerchantId {
                preprocessing_id,
                merchant_id,
            } => AttemptQueryView::PreprocessingIdMerchantId {
                preprocessing_id: preprocessing_id@,
                merchant_id: merchant_id@,
            },
        }
    }
}

impl AttemptQueryView {
    /// The index key under which the cache-first scheme resolves this query,
    /// if it resolves it through the index at all. The last successful
    /// attempt of a payment is not indexed: that query always goes to the
    /// durable store.
    pub open spec fn index_key(self) -> Option<Seq<char>> {
        match self {
            AttemptQueryView::ConnectorTransactionIdPaymentIdMerchantId {
                connector_transaction_id,
                merchant_id,
                ..
            } => Some(lookup_key(merchant_id, connector_transaction_id)),
            AttemptQueryView::LastSuccessfulAttemptByPaymentIdMerchantId { .. } => None,
            AttemptQueryView::MerchantIdConnectorTxnId {
                merchant_id,
                connector_txn_id,
            } => Some(lookup_key(merchant_id, connector_txn_id)),
            AttemptQueryView::PaymentIdMerchantIdAttemptId { merchant_id, attempt_id, .. } => Some(
                lookup_key(merchant_id, attempt_id),
            ),
            AttemptQueryView::AttemptIdMerchantId { attempt_id, merchant_id } => Some(
                lookup_key(merchant_id, attempt_id),
            ),
            AttemptQueryView::PreprocessingIdMerchantId { preprocessing_id, merchant_id } => Some(
                lookup_key(merchant_id, preprocessing_id),
            ),
        }
    }

    /// Whether a row of the durable store meets the predicate. For the last
    /// successful attempt this is only the filter; which of the rows that
    /// pass is the last one is decided by the store.
    pub open spec fn admits(self, row: storage::PaymentAttempt) -> bool {
        match self {
            AttemptQueryView::ConnectorTransactionIdPaymentIdMerchantId {
                connector_transaction_id,
                payment_id,
                merchant_id,
            } => {
                &&& row.connector_transaction_id matches Some(id)
                &&& id@ == connector_transaction_id
                &&& row.payment_id@ == payment_id
                &&& row.merchant_id@ == merchant_id
            },
            AttemptQueryView::LastSuccessfulAttemptByPaymentIdMerchantId {
                payment_id,
                merchant_id,
            } => {
                &&& row.payment_id@ == payment_id
                &&& row.merchant_id@ == merchant_id
                &&& row.status == crate::enums::AttemptStatus::Charged
            },
            AttemptQueryView::MerchantIdConnectorTxnId { merchant_id, connector_txn_id } => {
                &&& row.connector_transaction_id matches Some(id)
                &&& id@ == connector_txn_id
                &&& row.merchant_id@ == merchant_id
            },
            AttemptQueryView::PaymentIdMerchantIdAttemptId {
                payment_id,
                merchant_id,
                attempt_id,
            } => {
                &&& row.payment_id@ == payment_id
                &&& row.merchant_id@ == merchant_id
                &&& row.attempt_id@ == attempt_id
            },
            AttemptQueryView::AttemptIdMerchantId { attempt_id, merchant_id } => {
                &&& row.attempt_id@ == attempt_id
                &&& row.merchant_id@ == merchant_id
            },
            AttemptQueryView::PreprocessingIdMerchantId { preprocessing_id, merchant_id } => {
                &&& row.preprocessing_step_id matches Some(id)
                &&& id@ == preprocessing_id
                &&& row.merchant_id@ == merchant_id
            },
        }
    }
}

/// One thing asked of an outside store.
#[derive(Debug, PartialEq)]
pub enum StoreRequest {
    /// Cache: store `value` under `field` of `key` unless the field exists.
    SetFieldIfAbsent { key: String, field: String, value: PaymentAttempt },
    /// Cache: store `value` under `field` of `key`, whatever was there.
    SetField { key: String, field: String, value: PaymentAttempt },
    /// Cache: read `field` of `key`.
    GetField { key: String, field: String },
    /// Cache: read every field of `key` whose name matches `pattern`.
    ScanFields { key: String, pattern: String },
    /// Index: add `entry`.
    InsertLookup { entry: ReverseLookupNew },
    /// Index: read the entry for `lookup_id`.
    FindLookup { lookup_id: String },
    /// Drain queue: append `intent` to the intents of `partition`.
    AppendIntent { partition: PartitionKey, intent: TypedSql },
    /// Durable store: insert `new`; `now` is the time of the insertion.
    InsertRecord { new: storage::PaymentAttemptNew, now: Timestamp },
    /// Durable store: apply `update` to the row of `this`; `now` is the time
    /// of the update.
    UpdateRecord {
        this: storage::PaymentAttempt,
        update: storage::PaymentAttemptUpdate,
        now: Timestamp,
    },
    /// Durable store: find one row.
    FindRecord { query: AttemptQuery },
    /// Durable store: find all attempts of a payment.
    FindRecords { merchant_id: String, payment_id: String },
}

/// A request, with its keys and identifiers as sequences of characters.
pub enum StoreRequestView {
    SetFieldIfAbsent { key: Seq<char>, field: Seq<char>, value: PaymentAttempt },
    SetField { key: Seq<char>, field: Seq<char>, value: PaymentAttempt },
    GetField { key: Seq<char>, field: Seq<char> },
    ScanFields { key: Seq<char>, pattern: Seq<char> },
    InsertLookup { entry: LookupEntry },
    FindLookup { lookup_id: Seq<char> },
    AppendIntent { partition: Partition, intent: TypedSql },
    InsertRecord { new: storage::PaymentAttemptNew, now: Timestamp },
    UpdateRecord {
        this: storage::PaymentAttempt,
        update: storage::PaymentAttemptUpdate,
        now: Timestamp,
    },
    FindRecord { query: AttemptQueryView },
    FindRecords { merchant_id: Seq<char>, payment_id: Seq<char> },
}

impl StoreRequestView {
    /// Whether the request only reads: the stores hold the same after it.
    pub open spec fn reads_only(self) -> bool {
        self is GetField || self is ScanFields || self is FindLookup || self is FindRecord
            || self is FindRecords
    }
}

impl View for StoreRequest {
    type V = StoreRequestView;

    open spec fn view(&self) -> StoreRequestView {
        match *self {
            StoreRequest::SetFieldIfAbsent { key, field, value } => {
                StoreRequestView::SetFieldIfAbsent { key: key@, field: field@, value }
            },
            StoreRequest::SetField { key, field, value } => StoreRequestView::SetField {
                key: key@,
                field: field@,
                value,
            },
            StoreRequest::GetField { key, field } => StoreRequestView::GetField {
                key: key@,
                field: field@,
            },
            StoreRequest::ScanFields { key, pattern } => StoreRequestView::ScanFields {
                key: key@,
                pattern: pattern@,
            },
            StoreRequest::InsertLookup { entry } => StoreRequestView::InsertLookup {
                entry: entry@,
            },
            StoreRequest::FindLookup { lookup_id } => StoreRequestView::FindLookup {
                lookup_id: lookup_id@,
            },
            StoreRequest::AppendIntent { partition, intent } => StoreRequestView::AppendIntent {
                partition: partition@,
                intent,
            },
            StoreRequest::InsertRecord { new, now } => StoreRequestView::InsertRecord { new, now },
            StoreRequest::UpdateRecord { this, update, now } => StoreRequestView::UpdateRecord {
                this,
                update,
                now,
            },
            StoreRequest::FindRecord { query } => StoreRequestView::FindRecord { query: query@ },
            StoreRequest::FindRecords { merchant_id, payment_id } => StoreRequestView::FindRecords {
                merchant_id: merchant_id@,
                payment_id: payment_id@,
            },
        }
    }
}

/// The answer of an outside store.
#[derive(Debug, PartialEq)]
pub enum StoreResponse {
    FieldSetIfAbsent(Result<HsetnxReply, CacheFailure>),
    FieldSet(Result<(), CacheFailure>),
    Field(Result<PaymentAttempt, CacheFailure>),
    Fields(Result<Vec<PaymentAttempt>, CacheFailure>),
    Lookup(Result<ReverseLookup, DatabaseError>),
    IntentAppended(Result<(), CacheFailure>),
    Record(Result<storage::PaymentAttempt, DatabaseError>),
    Records(Result<Vec<storage::PaymentAttempt>, DatabaseError>),
}

/// An answer, with its texts and lists as sequences.
pub enum StoreResponseView {
    FieldSetIfAbsent(Result<HsetnxReply, CacheFailureView>),
    FieldSet(Result<(), CacheFailureView>),
    Field(Result<PaymentAttempt, CacheFailureView>),
    Fields(Result<Seq<PaymentAttempt>, CacheFailureView>),
    Lookup(Result<LookupEntry, DatabaseError>),
    IntentAppended(Result<(), CacheFailureView>),
    Record(Result<storage::PaymentAttempt, DatabaseError>),
    Records(Result<Seq<storage::PaymentAttempt>, DatabaseError>),
}

impl View for StoreResponse {
    type V = StoreResponseView;

    open spec fn view(&self) -> StoreResponseView {
        match *self {
            StoreResponse::FieldSetIfAbsent(Ok(reply)) => StoreResponseView::FieldSetIfAbsent(
                Ok(reply),
            ),
            StoreResponse::FieldSetIfAbsent(Err(e)) => StoreResponseView::FieldSetIfAbsent(
                Err(e@),
            ),
            StoreResponse::FieldSet(Ok(())) => StoreResponseView::FieldSet(Ok(())),
            StoreResponse::FieldSet(Err(e)) => StoreResponseView::FieldSet(Err(e@)),
            StoreResponse::Field(Ok(value)) => StoreResponseView::Field(Ok(value)),
            StoreResponse::Field(Err(e)) => StoreResponseView::Field(Err(e@)),
            StoreResponse::Fields(Ok(values)) => StoreResponseView::Fields(Ok(values@)),
            StoreResponse::Fields(Err(e)) => StoreResponseView::Fields(Err(e@)),
            StoreResponse::Lookup(Ok(entry)) => StoreResponseView::Lookup(Ok(entry@)),
            StoreResponse::Lookup(Err(e)) => StoreResponseView::Lookup(Err(e)),
            StoreResponse::IntentAppended(Ok(())) => StoreResponseView::IntentAppended(Ok(())),
            StoreResponse::IntentAppended(Err(e)) => StoreResponseView::IntentAppended(Err(e@)),
            StoreResponse::Record(r) => StoreResponseView::Record(r),
            StoreResponse::Records(Ok(rows)) => StoreResponseView::Records(Ok(rows@)),
            StoreResponse::Records(Err(e)) => StoreResponseView::Records(Err(e)),
        }
    }
}

/// The result of an operation that yields one attempt, with the error by
/// its view.
pub open spec fn outcome(r: Result<PaymentAttempt, StorageError>) -> Result<
    PaymentAttempt,
    StorageErrorView,
> {
    match r {
        Ok(attempt) => Ok(attempt),
        Err(e) => Err(e@),
    }
}

/// The result of an operation that yields a list of attempts, with the list
/// and the error by their views.
pub open spec fn list_outcome(r: Result<Vec<PaymentAttempt>, StorageError>) -> Result<
    Seq<PaymentAttempt>,
    StorageErrorView,
> {
    match r {
        Ok(attempts) => Ok(attempts@),
        Err(e) => Err(e@),
    }
}

/// What an operation that yields one attempt does next: ask a store, or
/// hand its result to the caller.
#[derive(Debug, PartialEq)]
pub enum Step {
    Request(StoreRequest),
    Done(Result<PaymentAttempt, StorageError>),
}

/// A step, with its request or its error by their views.
pub enum StepView {
    Request(StoreRequestView),
    Done(Result<PaymentAttempt, StorageErrorView>),
}

impl View for Step {
    type V = StepView;

    open spec fn view(&self) -> StepView {
        match *self {
            Step::Request(request) => StepView::Request(request@),
            Step::Done(r) => StepView::Done(outcome(r)),
        }
    }
}

/// What an operation that yields a list of attempts does next.
#[derive(Debug, PartialEq)]
pub enum ListStep {
    Request(StoreRequest),
    Done(Result<Vec<PaymentAttempt>, StorageError>),
}

/// A step, with its request, its list or its error by their views.
pub enum ListStepView {
    Request(StoreRequestView),
    Done(Result<Seq<PaymentAttempt>, StorageErrorView>),
}

impl View for ListStep {
    type V = ListStepView;

    open spec fn view(&self) -> ListStepView {
        match *self {
            ListStep::Request(request) => ListStepView::Request(request@),
            ListStep::Done(r) => ListStepView::Done(list_outcome(r)),
        }
    }
}

} // verus!
