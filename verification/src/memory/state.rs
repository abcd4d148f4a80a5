//! What the outside stores hold, and how each request changes it.
//!
//! The cache is a sequence of slots in the order in which they were first
//! written; the index is a sequence of entries; the drain queue is the
//! sequence of intents in the order in which they were appended; the durable
//! store is a sequence of rows, each numbered by its position. A key that
//! occurs twice counts where it occurs first; no request ever writes a key a
//! second time.

use crate::clock::Timestamp;
use crate::domain::PaymentAttempt;
use crate::errors::{CacheFailureView, DatabaseError, RedisError};
use crate::kv::{
    DBOperation, Insertable, Partition, PaymentAttemptUpdateMems, TypedSql, Updateable,
};
use crate::search::{all, first, found, Criterion};
use crate::reverse_lookup::LookupEntry;
use crate::router::protocol::{
    AttemptQueryView, HsetnxReply, StoreRequestView, StoreResponseView,
};
use crate::storage;
use vstd::prelude::*;

verus! {

/// One field of one hash of the cache.
pub struct CacheSlot {
    pub key: Seq<char>,
    pub field: Seq<char>,
    pub value: PaymentAttempt,
}

/// One intent of the drain queue.
pub struct DrainEntry {
    pub partition: Partition,
    pub intent: TypedSql,
}

/// The slot of a field of a hash.
pub struct SlotAddress {
    pub key: Seq<char>,
    pub field: Seq<char>,
}

impl Criterion<CacheSlot> for SlotAddress {
    open spec fn accepts(&self, slot: CacheSlot) -> bool {
        slot.key == self.key && slot.field == self.field
    }
}

/// Whether the name of a field matches a pattern. A pattern that ends in a
/// star matches every name that begins with what stands before the star;
/// any other pattern matches the name equal to it.
pub open spec fn field_matches(pattern: Seq<char>, field: Seq<char>) -> bool {
    if pattern.len() > 0 && pattern.last() == '*' {
        let prefix = pattern.drop_last();
        prefix.len() <= field.len() && field.take(prefix.len() as int) == prefix
    } else {
        field == pattern
    }
}

/// The slots of a hash whose field names match a pattern.
pub struct FieldPattern {
    pub key: Seq<char>,
    pub pattern: Seq<char>,
}

impl Criterion<CacheSlot> for FieldPattern {
    open spec fn accepts(&self, slot: CacheSlot) -> bool {
        slot.key == self.key && field_matches(self.pattern, slot.field)
    }
}

/// The index entry of an identifier.
pub struct LookupId {
    pub lookup_id: Seq<char>,
}

impl Criterion<LookupEntry> for LookupId {
    open spec fn accepts(&self, entry: LookupEntry) -> bool {
        entry.lookup_id == self.lookup_id
    }
}

/// The row of an attempt, by what the durable store keeps unique.
pub struct RowKey {
    pub merchant_id: Seq<char>,
    pub payment_id: Seq<char>,
    pub attempt_id: Seq<char>,
}

impl Criterion<storage::PaymentAttempt> for RowKey {
    open spec fn accepts(&self, row: storage::PaymentAttempt) -> bool {
        &&& row.merchant_id@ == self.merchant_id
        &&& row.payment_id@ == self.payment_id
        &&& row.attempt_id@ == self.attempt_id
    }
}

/// The row that an update is applied to: that of the attempt of the
/// merchant.
pub struct UpdateTarget {
    pub merchant_id: Seq<char>,
    pub attempt_id: Seq<char>,
}

impl Criterion<storage::PaymentAttempt> for UpdateTarget {
    open spec fn accepts(&self, row: storage::PaymentAttempt) -> bool {
        row.merchant_id@ == self.merchant_id && row.attempt_id@ == self.attempt_id
    }
}

/// The rows of a payment.
pub struct PaymentOf {
    pub merchant_id: Seq<char>,
    pub payment_id: Seq<char>,
}

impl Criterion<storage::PaymentAttempt> for PaymentOf {
    open spec fn accepts(&self, row: storage::PaymentAttempt) -> bool {
        row.merchant_id@ == self.merchant_id && row.payment_id@ == self.payment_id
    }
}

impl Criterion<storage::PaymentAttempt> for AttemptQueryView {
    open spec fn accepts(&self, row: storage::PaymentAttempt) -> bool {
        self.admits(row)
    }
}

/// The values of a sequence of slots.
pub open spec fn values(slots: Seq<CacheSlot>) -> Seq<PaymentAttempt> {
    slots.map_values(|slot: CacheSlot| slot.value)
}

/// Among the first `upto` rows, the position of the row that `query` admits
/// and that was modified last; of several modified at the same instant, the
/// first.
pub open spec fn latest_admitted(
    rows: Seq<storage::PaymentAttempt>,
    query: AttemptQueryView,
    upto: int,
) -> Option<int>
    decreases upto,
{
    if upto <= 0 {
        None
    } else {
        let before = latest_admitted(rows, query, upto - 1);
        let i = upto - 1;
        if query.admits(rows[i]) && (before is None || rows[i].modified_at.nanos
            > rows[before.unwrap()].modified_at.nanos) {
            Some(i)
        } else {
            before
        }
    }
}

/// The reason the in-memory cache gives when it is switched off.
pub open spec fn unavailable_reason() -> Seq<char> {
    "cache is not reachable"@
}

/// The most rows the durable store holds: each row is numbered by a
/// 32-bit integer.
pub open spec fn row_capacity() -> int {
    i32::MAX as int
}

/// Everything the outside stores hold.
pub struct BackendState {
    /// Whether the cache, and the drain queue that lives in it, can be
    /// reached.
    pub cache_online: bool,
    /// Whether the durable store, and the index that lives in it, can be
    /// reached.
    pub database_online: bool,
    pub cache: Seq<CacheSlot>,
    pub lookups: Seq<LookupEntry>,
    pub drain: Seq<DrainEntry>,
    pub rows: Seq<storage::PaymentAttempt>,
}

impl BackendState {
    /// Stores that hold nothing and can be reached.
    pub open spec fn empty() -> BackendState {
        BackendState {
            cache_online: true,
            database_online: true,
            cache: Seq::empty(),
            lookups: Seq::empty(),
            drain: Seq::empty(),
            rows: Seq::empty(),
        }
    }

    /// What the cache holds under a field of a hash.
    pub open spec fn cached(self, key: Seq<char>, field: Seq<char>) -> Option<PaymentAttempt> {
        let address = SlotAddress { key, field };
        if found(self.cache, address) {
            Some(self.cache[first(self.cache, address)].value)
        } else {
            None
        }
    }

    /// What the index holds for an identifier.
    pub open spec fn indexed(self, lookup_id: Seq<char>) -> Option<LookupEntry> {
        let id = LookupId { lookup_id };
        if found(self.lookups, id) {
            Some(self.lookups[first(self.lookups, id)])
        } else {
            None
        }
    }

    /// The cache with `value` under the field, whatever was there.
    pub open spec fn cache_with(
        self,
        key: Seq<char>,
        field: Seq<char>,
        value: PaymentAttempt,
    ) -> Seq<CacheSlot> {
        let address = SlotAddress { key, field };
        let slot = CacheSlot { key, field, value };
        if found(self.cache, address) {
            self.cache.update(first(self.cache, address), slot)
        } else {
            self.cache.push(slot)
        }
    }

    /// The cache without the field.
    pub open spec fn cache_without(self, key: Seq<char>, field: Seq<char>) -> Seq<CacheSlot> {
        let address = SlotAddress { key, field };
        if found(self.cache, address) {
            self.cache.remove(first(self.cache, address))
        } else {
            self.cache
        }
    }

    /// The failure every cache request meets while the cache is off.
    pub open spec fn cache_outage() -> CacheFailureView {
        CacheFailureView::Unavailable(unavailable_reason())
    }

    /// The stores after the cache was asked to set a field unless it exists,
    /// and the answer.
    pub open spec fn set_field_if_absent(
        self,
        key: Seq<char>,
        field: Seq<char>,
        value: PaymentAttempt,
    ) -> (BackendState, Result<HsetnxReply, CacheFailureView>) {
        if !self.cache_online {
            (self, Err(Self::cache_outage()))
        } else if self.cached(key, field) is Some {
            (self, Ok(HsetnxReply::KeyNotSet))
        } else {
            (
                BackendState { cache: self.cache.push(CacheSlot { key, field, value }), ..self },
                Ok(HsetnxReply::KeySet),
            )
        }
    }

    /// The stores after the cache was asked to set a field, and the answer.
    pub open spec fn set_field(self, key: Seq<char>, field: Seq<char>, value: PaymentAttempt) -> (
        BackendState,
        Result<(), CacheFailureView>,
    ) {
        if !self.cache_online {
            (self, Err(Self::cache_outage()))
        } else {
            (BackendState { cache: self.cache_with(key, field, value), ..self }, Ok(()))
        }
    }

    /// What the cache answers when asked for a field.
    pub open spec fn get_field(self, key: Seq<char>, field: Seq<char>) -> Result<
        PaymentAttempt,
        CacheFailureView,
    > {
        if !self.cache_online {
            Err(Self::cache_outage())
        } else {
            match self.cached(key, field) {
                Some(value) => Ok(value),
                None => Err(CacheFailureView::Operation(RedisError::NotFound)),
            }
        }
    }

    /// What the cache answers when asked for the fields of a hash that match
    /// a pattern: their values, in the order in which the fields were first
    /// written.
    pub open spec fn scan_fields(self, key: Seq<char>, pattern: Seq<char>) -> Result<
        Seq<PaymentAttempt>,
        CacheFailureView,
    > {
        if !self.cache_online {
            Err(Self::cache_outage())
        } else {
            Ok(values(all(self.cache, FieldPattern { key, pattern })))
        }
    }

    /// The stores after the drain queue was asked to append an intent, and the
    /// answer.
    pub open spec fn append_intent(self, partition: Partition, intent: TypedSql) -> (
        BackendState,
        Result<(), CacheFailureView>,
    ) {
        if !self.cache_online {
            (self, Err(Self::cache_outage()))
        } else {
            (
                BackendState { drain: self.drain.push(DrainEntry { partition, intent }), ..self },
                Ok(()),
            )
        }
    }

    /// Entries are only ever added: an identifier that has an entry keeps
    /// it, and the attempt to add another one is a unique violation.
    pub open spec fn insert_lookup(self, entry: LookupEntry) -> (
        BackendState,
        Result<LookupEntry, DatabaseError>,
    ) {
        if !self.database_online {
            (self, Err(DatabaseError::DatabaseConnectionError))
        } else if self.indexed(entry.lookup_id) is Some {
            (self, Err(DatabaseError::UniqueViolation))
        } else {
            (BackendState { lookups: self.lookups.push(entry), ..self }, Ok(entry))
        }
    }

    /// What the index answers when asked for an identifier.
    pub open spec fn find_lookup(self, lookup_id: Seq<char>) -> Result<LookupEntry, DatabaseError> {
        if !self.database_online {
            Err(DatabaseError::DatabaseConnectionError)
        } else {
            match self.indexed(lookup_id) {
                Some(entry) => Ok(entry),
                None => Err(DatabaseError::NotFound),
            }
        }
    }

    /// The rows after `new` was inserted at `now`, and the answer. The same
    /// attempt of the same payment of the same merchant is inserted once.
    pub open spec fn rows_after_insert(
        rows: Seq<storage::PaymentAttempt>,
        new: storage::PaymentAttemptNew,
        now: Timestamp,
    ) -> (Seq<storage::PaymentAttempt>, Result<storage::PaymentAttempt, DatabaseError>) {
        let key = RowKey {
            merchant_id: new.merchant_id@,
            payment_id: new.payment_id@,
            attempt_id: new.attempt_id@,
        };
        if found(rows, key) {
            (rows, Err(DatabaseError::UniqueViolation))
        } else if rows.len() >= row_capacity() {
            (rows, Err(DatabaseError::Others))
        } else {
            let row = storage::PaymentAttempt::inserted(new, (rows.len() + 1) as i32, now);
            (rows.push(row), Ok(row))
        }
    }

    /// The rows after `update` was applied at `now` to the row of the
    /// attempt that `this` names, and the answer.
    pub open spec fn rows_after_update(
        rows: Seq<storage::PaymentAttempt>,
        this: storage::PaymentAttempt,
        update: storage::PaymentAttemptUpdate,
        now: Timestamp,
    ) -> (Seq<storage::PaymentAttempt>, Result<storage::PaymentAttempt, DatabaseError>) {
        let target = UpdateTarget { merchant_id: this.merchant_id@, attempt_id: this.attempt_id@ };
        if found(rows, target) {
            let at = first(rows, target);
            let row = update.applied_to(rows[at], now);
            (rows.update(at, row), Ok(row))
        } else {
            (rows, Err(DatabaseError::NotFound))
        }
    }

    /// The rows after the write that an intent describes was made at the
    /// instant `at`, as the drainer makes it.
    pub open spec fn rows_after_replay(
        rows: Seq<storage::PaymentAttempt>,
        intent: TypedSql,
        at: Timestamp,
    ) -> Seq<storage::PaymentAttempt> {
        match intent.op {
            DBOperation::Insert {
                insertable: Insertable::PaymentAttempt(new),
            } => Self::rows_after_insert(rows, new, at).0,
            DBOperation::Update {
                updatable: Updateable::PaymentAttemptUpdate(
                    PaymentAttemptUpdateMems { orig, update_data },
                ),
            } => Self::rows_after_update(rows, orig, update_data, at).0,
        }
    }

    /// The stores after an intent was replayed at the instant `at`, and
    /// what the durable store answered.
    pub open spec fn replay(self, intent: TypedSql, at: Timestamp) -> (
        BackendState,
        Result<storage::PaymentAttempt, DatabaseError>,
    ) {
        match intent.op {
            DBOperation::Insert { insertable: Insertable::PaymentAttempt(new) } => {
                self.insert_record(new, at)
            },
            DBOperation::Update {
                updatable: Updateable::PaymentAttemptUpdate(
                    PaymentAttemptUpdateMems { orig, update_data },
                ),
            } => self.update_record(orig, update_data, at),
        }
    }

    /// The stores after the durable store was asked to insert an attempt, and
    /// the answer.
    pub open spec fn insert_record(self, new: storage::PaymentAttemptNew, now: Timestamp) -> (
        BackendState,
        Result<storage::PaymentAttempt, DatabaseError>,
    ) {
        if !self.database_online {
            (self, Err(DatabaseError::DatabaseConnectionError))
        } else {
            let (rows, answer) = Self::rows_after_insert(self.rows, new, now);
            (BackendState { rows, ..self }, answer)
        }
    }

    /// The stores after the durable store was asked to update an attempt, and
    /// the answer.
    pub open spec fn update_record(
        self,
        this: storage::PaymentAttempt,
        update: storage::PaymentAttemptUpdate,
        now: Timestamp,
    ) -> (BackendState, Result<storage::PaymentAttempt, DatabaseError>) {
        if !self.database_online {
            (self, Err(DatabaseError::DatabaseConnectionError))
        } else {
            let (rows, answer) = Self::rows_after_update(self.rows, this, update, now);
            (BackendState { rows, ..self }, answer)
        }
    }

    /// The row a query finds: for the last successful attempt, the charged
    /// attempt that was modified last; for every other query, the first row
    /// that the query admits.
    pub open spec fn find_record(self, query: AttemptQueryView) -> Result<
        storage::PaymentAttempt,
        DatabaseError,
    > {
        if !self.database_online {
            Err(DatabaseError::DatabaseConnectionError)
        } else if query is LastSuccessfulAttemptByPaymentIdMerchantId {
            match latest_admitted(self.rows, query, self.rows.len() as int) {
                Some(i) => Ok(self.rows[i]),
                None => Err(DatabaseError::NotFound),
            }
        } else if found(self.rows, query) {
            Ok(self.rows[first(self.rows, query)])
        } else {
            Err(DatabaseError::NotFound)
        }
    }

    /// What the durable store answers when asked for the attempts of a
    /// payment: its rows, in the order of their insertion.
    pub open spec fn find_records(self, merchant_id: Seq<char>, payment_id: Seq<char>) -> Result<
        Seq<storage::PaymentAttempt>,
        DatabaseError,
    > {
        if !self.database_online {
            Err(DatabaseError::DatabaseConnectionError)
        } else {
            Ok(all(self.rows, PaymentOf { merchant_id, payment_id }))
        }
    }

    /// What the stores hold after a request, and what they answer.
    pub open spec fn respond(self, request: StoreRequestView) -> (BackendState, StoreResponseView) {
        match request {
            StoreRequestView::SetFieldIfAbsent { key, field, value } => {
                let (next, answer) = self.set_field_if_absent(key, field, value);
                (next, StoreResponseView::FieldSetIfAbsent(answer))
            },
            StoreRequestView::SetField { key, field, value } => {
                let (next, answer) = self.set_field(key, field, value);
                (next, StoreResponseView::FieldSet(answer))
            },
            StoreRequestView::GetField { key, field } => (
                self,
                StoreResponseView::Field(self.get_field(key, field)),
            ),
            StoreRequestView::ScanFields { key, pattern } => (
                self,
                StoreResponseView::Fields(self.scan_fields(key, pattern)),
            ),
            StoreRequestView::InsertLookup { entry } => {
                let (next, answer) = self.insert_lookup(entry);
                (next, StoreResponseView::Lookup(answer))
            },
            StoreRequestView::FindLookup { lookup_id } => (
                self,
                StoreResponseView::Lookup(self.find_lookup(lookup_id)),
            ),
            StoreRequestView::AppendIntent { partition, intent } => {
                let (next, answer) = self.append_intent(partition, intent);
                (next, StoreResponseView::IntentAppended(answer))
            },
            StoreRequestView::InsertRecord { new, now } => {
                let (next, answer) = self.insert_record(new, now);
                (next, StoreResponseView::Record(answer))
            },
            StoreRequestView::UpdateRecord { this, update, now } => {
                let (next, answer) = self.update_record(this, update, now);
                (next, StoreResponseView::Record(answer))
            },
            StoreRequestView::FindRecord { query } => (
                self,
                StoreResponseView::Record(self.find_record(query)),
            ),
            StoreRequestView::FindRecords { merchant_id, payment_id } => (
                self,
                StoreResponseView::Records(self.find_records(merchant_id, payment_id)),
            ),
        }
    }
}

} // verus!
