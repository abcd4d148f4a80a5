//! The in-memory stores, executable.

use crate::clock::Timestamp;
use crate::domain::PaymentAttempt;
use crate::errors::{CacheFailure, DatabaseError, RedisError};
use crate::kv::{
    DBOperation, Insertable, PartitionKey, PaymentAttemptUpdateMems, TypedSql, Updateable,
};
use crate::memory::facts::{lemma_evicted_is_absent, lemma_respond_keeps_well_formed};
use crate::search::{
    all, first, found, lemma_first_is, Criterion,
};
use crate::memory::state::{
    field_matches, latest_admitted, values, BackendState, CacheSlot, DrainEntry, FieldPattern,
    LookupId, PaymentOf, RowKey, SlotAddress, UpdateTarget,
};
use crate::reverse_lookup::{LookupEntry, ReverseLookup, ReverseLookupNew};
use crate::router::protocol::{
    AttemptQuery, HsetnxReply, StoreRequest, StoreResponse, StoreResponseView,
};
use crate::storage;
use vstd::prelude::*;
use vstd::string::{StrSliceExecFns, StringExecFns};

verus! {

/// One field of one hash of the cache.
pub struct CachedField {
    pub key: String,
    pub field: String,
    pub value: PaymentAttempt,
}

impl View for CachedField {
    type V = CacheSlot;

    open spec fn view(&self) -> CacheSlot {
        CacheSlot { key: self.key@, field: self.field@, value: self.value }
    }
}

/// One intent of the drain queue, with the partition it belongs to.
pub struct QueuedIntent {
    pub partition: PartitionKey,
    pub intent: TypedSql,
}

impl View for QueuedIntent {
    type V = DrainEntry;

    open spec fn view(&self) -> DrainEntry {
        DrainEntry { partition: self.partition@, intent: self.intent }
    }
}

/// The slots that a list of cached fields stands for.
pub open spec fn slots(fields: Seq<CachedField>) -> Seq<CacheSlot> {
    fields.map_values(|f: CachedField| f@)
}

/// The entries that a list of stored lookups stands for.
pub open spec fn entries(lookups: Seq<ReverseLookup>) -> Seq<LookupEntry> {
    lookups.map_values(|l: ReverseLookup| l@)
}

/// The drain entries that a list of queued intents stands for.
pub open spec fn queued(intents: Seq<QueuedIntent>) -> Seq<DrainEntry> {
    intents.map_values(|q: QueuedIntent| q@)
}

/// The in-memory stores.
pub struct MemoryBackend {
    cache_online: bool,
    database_online: bool,
    cache: Vec<CachedField>,
    lookups: Vec<ReverseLookup>,
    drain: Vec<QueuedIntent>,
    rows: Vec<storage::PaymentAttempt>,
}

impl View for MemoryBackend {
    type V = BackendState;

    closed spec fn view(&self) -> BackendState {
        BackendState {
            cache_online: self.cache_online,
            database_online: self.database_online,
            cache: slots(self.cache@),
            lookups: entries(self.lookups@),
            drain: queued(self.drain@),
            rows: self.rows@,
        }
    }
}

/// Whether the name of a field matches a pattern.
pub fn matches_pattern(pattern: &str, field: &str) -> (r: bool)
    ensures
        r == field_matches(pattern@, field@),
{
    let n = pattern.unicode_len();
    if n > 0 && pattern.get_char(n - 1) == '*' {
        let m = field.unicode_len();
        if n - 1 <= m {
            let prefix = pattern.substring_char(0, n - 1);
            let head = field.substring_char(0, n - 1);
            assert(pattern@.drop_last() =~= pattern@.subrange(0, n - 1));
            assert(field@.take(n - 1) =~= field@.subrange(0, n - 1));
            *prefix == *head
        } else {
            false
        }
    } else {
        *pattern == *field
    }
}

/// Whether a row meets the predicate of a query.
pub fn query_admits(query: &AttemptQuery, row: &storage::PaymentAttempt) -> (r: bool)
    ensures
        r == query@.admits(*row),
{
    match query {
        AttemptQuery::ConnectorTransactionIdPaymentIdMerchantId {
            connector_transaction_id,
            payment_id,
            merchant_id,
        } => match &row.connector_transaction_id {
            Some(id) => *id == *connector_transaction_id && row.payment_id == *payment_id
                && row.merchant_id == *merchant_id,
            None => false,
        },
        AttemptQuery::LastSuccessfulAttemptByPaymentIdMerchantId { payment_id, merchant_id } => {
            row.payment_id == *payment_id && row.merchant_id == *merchant_id && row.status
                == crate::enums::AttemptStatus::Charged
        },
        AttemptQuery::MerchantIdConnectorTxnId {
            merchant_id,
            connector_txn_id,
        } => match &row.connector_transaction_id {
            Some(id) => *id == *connector_txn_id && row.merchant_id == *merchant_id,
            None => false,
        },
        AttemptQuery::PaymentIdMerchantIdAttemptId { payment_id, merchant_id, attempt_id } => {
            row.payment_id == *payment_id && row.merchant_id == *merchant_id && row.attempt_id
                == *attempt_id
        },
        AttemptQuery::AttemptIdMerchantId { attempt_id, merchant_id } => {
            row.attempt_id == *attempt_id && row.merchant_id == *merchant_id
        },
        AttemptQuery::PreprocessingIdMerchantId {
            preprocessing_id,
            merchant_id,
        } => match &row.preprocessing_step_id {
            Some(id) => *id == *preprocessing_id && row.merchant_id == *merchant_id,
            None => false,
        },
    }
}

proof fn lemma_all_take_next<T, C: Criterion<T>>(s: Seq<T>, c: C, i: int)
    requires
        0 <= i < s.len(),
    ensures
        all(s.take(i + 1), c) == if c.accepts(s[i]) {
            all(s.take(i), c).push(s[i])
        } else {
            all(s.take(i), c)
        },
{
    assert(s.take(i + 1).drop_last() =~= s.take(i));
    assert(s.take(i + 1).last() == s[i]);
}

impl MemoryBackend {
    /// Stores that hold nothing and can be reached.
    pub fn new() -> (r: Self)
        ensures
            r@ == BackendState::empty(),
            r@.well_formed(),
    {
        let r = MemoryBackend {
            cache_online: true,
            database_online: true,
            cache: Vec::new(),
            lookups: Vec::new(),
            drain: Vec::new(),
            rows: Vec::new(),
        };
        assert(r@.cache =~= Seq::empty());
        assert(r@.lookups =~= Seq::empty());
        assert(r@.drain =~= Seq::empty());
        r
    }

    /// Switches the cache, and the drain queue with it, on or off.
    pub fn set_cache_online(&mut self, online: bool)
        ensures
            final(self)@ == (BackendState { cache_online: online, ..old(self)@ }),
            old(self)@.well_formed() ==> final(self)@.well_formed(),
    {
        self.cache_online = online;
    }

    /// Switches the durable store, and the index with it, on or off.
    pub fn set_database_online(&mut self, online: bool)
        ensures
            final(self)@ == (BackendState { database_online: online, ..old(self)@ }),
            old(self)@.well_formed() ==> final(self)@.well_formed(),
    {
        self.database_online = online;
    }

    fn find_slot(&self, key: &str, field: &str) -> (r: Option<usize>)
        ensures
            match r {
                Some(i) => found(self@.cache, SlotAddress { key: key@, field: field@ }) && first(
                    self@.cache,
                    SlotAddress { key: key@, field: field@ },
                ) == i && i < self.cache.len(),
                None => !found(self@.cache, SlotAddress { key: key@, field: field@ }),
            },
    {
        let ghost address = SlotAddress { key: key@, field: field@ };
        let mut i: usize = 0;
        while i < self.cache.len()
            invariant
                i <= self.cache.len(),
                address == (SlotAddress { key: key@, field: field@ }),
                forall|j: int| 0 <= j < i ==> !#[trigger] address.accepts(self@.cache[j]),
            decreases self.cache.len() - i,
        {
            if *self.cache[i].key.as_str() == *key && *self.cache[i].field.as_str() == *field {
                proof {
                    assert(address.accepts(self@.cache[i as int]));
                    lemma_first_is(self@.cache, address, i as int);
                }
                return Some(i);
            }
            i += 1;
        }
        None
    }

    fn find_entry(&self, lookup_id: &str) -> (r: Option<usize>)
        ensures
            match r {
                Some(i) => found(self@.lookups, LookupId { lookup_id: lookup_id@ }) && first(
                    self@.lookups,
                    LookupId { lookup_id: lookup_id@ },
                ) == i && i < self.lookups.len(),
                None => !found(self@.lookups, LookupId { lookup_id: lookup_id@ }),
            },
    {
        let ghost id = LookupId { lookup_id: lookup_id@ };
        let mut i: usize = 0;
        while i < self.lookups.len()
            invariant
                i <= self.lookups.len(),
                id == (LookupId { lookup_id: lookup_id@ }),
                forall|j: int| 0 <= j < i ==> !#[trigger] id.accepts(self@.lookups[j]),
            decreases self.lookups.len() - i,
        {
            if *self.lookups[i].lookup_id.as_str() == *lookup_id {
                proof {
                    assert(id.accepts(self@.lookups[i as int]));
                    lemma_first_is(self@.lookups, id, i as int);
                }
                return Some(i);
            }
            i += 1;
        }
        None
    }

    fn find_row(&self, merchant_id: &str, payment_id: &str, attempt_id: &str) -> (r: Option<usize>)
        ensures
            match r {
                Some(i) => found(
                    self@.rows,
                    RowKey {
                        merchant_id: merchant_id@,
                        payment_id: payment_id@,
                        attempt_id: attempt_id@,
                    },
                ) && i < self.rows.len(),
                None => !found(
                    self@.rows,
                    RowKey {
                        merchant_id: merchant_id@,
                        payment_id: payment_id@,
                        attempt_id: attempt_id@,
                    },
                ),
            },
    {
        let ghost key = RowKey {
            merchant_id: merchant_id@,
            payment_id: payment_id@,
            attempt_id: attempt_id@,
        };
        let mut i: usize = 0;
        while i < self.rows.len()
            invariant
                i <= self.rows.len(),
                key == (RowKey {
                    merchant_id: merchant_id@,
                    payment_id: payment_id@,
                    attempt_id: attempt_id@,
                }),
                forall|j: int| 0 <= j < i ==> !#[trigger] key.accepts(self@.rows[j]),
            decreases self.rows.len() - i,
        {
            let row = &self.rows[i];
            if *row.merchant_id.as_str() == *merchant_id && *row.payment_id.as_str() == *payment_id
                && *row.attempt_id.as_str() == *attempt_id {
                proof {
                    assert(key.accepts(self@.rows[i as int]));
                }
                return Some(i);
            }
            i += 1;
        }
        None
    }

    fn find_target(&self, merchant_id: &str, attempt_id: &str) -> (r: Option<usize>)
        ensures
            match r {
                Some(i) => found(
                    self@.rows,
                    UpdateTarget { merchant_id: merchant_id@, attempt_id: attempt_id@ },
                ) && first(
                    self@.rows,
                    UpdateTarget { merchant_id: merchant_id@, attempt_id: attempt_id@ },
                ) == i && i < self.rows.len(),
                None => !found(
                    self@.rows,
                    UpdateTarget { merchant_id: merchant_id@, attempt_id: attempt_id@ },
                ),
            },
    {
        let ghost target = UpdateTarget { merchant_id: merchant_id@, attempt_id: attempt_id@ };
        let mut i: usize = 0;
        while i < self.rows.len()
            invariant
                i <= self.rows.len(),
                target == (UpdateTarget { merchant_id: merchant_id@, attempt_id: attempt_id@ }),
                forall|j: int| 0 <= j < i ==> !#[trigger] target.accepts(self@.rows[j]),
            decreases self.rows.len() - i,
        {
            let row = &self.rows[i];
            if *row.merchant_id.as_str() == *merchant_id && *row.attempt_id.as_str()
                == *attempt_id {
                proof {
                    assert(target.accepts(self@.rows[i as int]));
                    lemma_first_is(self@.rows, target, i as int);
                }
                return Some(i);
            }
            i += 1;
        }
        None
    }

    fn find_admitted(&self, query: &AttemptQuery) -> (r: Option<usize>)
        ensures
            match r {
                Some(i) => found(self@.rows, query@) && first(self@.rows, query@) == i && i
                    < self.rows.len(),
                None => !found(self@.rows, query@),
            },
    {
        let mut i: usize = 0;
        while i < self.rows.len()
            invariant
                i <= self.rows.len(),
                forall|j: int| 0 <= j < i ==> !#[trigger] query@.accepts(self@.rows[j]),
            decreases self.rows.len() - i,
        {
            if query_admits(query, &self.rows[i]) {
                proof {
                    assert(query@.accepts(self@.rows[i as int]));
                    lemma_first_is(self@.rows, query@, i as int);
                }
                return Some(i);
            }
            i += 1;
        }
        None
    }

    fn find_latest(&self, query: &AttemptQuery) -> (r: Option<usize>)
        ensures
            match r {
                Some(i) => latest_admitted(self@.rows, query@, self@.rows.len() as int) == Some(
                    i as int,
                ) && i < self.rows.len(),
                None => latest_admitted(self@.rows, query@, self@.rows.len() as int) is None,
            },
    {
        let mut best: Option<usize> = None;
        let mut i: usize = 0;
        while i < self.rows.len()
            invariant
                i <= self.rows.len(),
                match best {
                    Some(b) => latest_admitted(self@.rows, query@, i as int) == Some(b as int) && b
                        < i,
                    None => latest_admitted(self@.rows, query@, i as int) is None,
                },
            decreases self.rows.len() - i,
        {
            if query_admits(query, &self.rows[i]) {
                let later = match best {
                    Some(b) => self.rows[i].modified_at.nanos > self.rows[b].modified_at.nanos,
                    None => true,
                };
                if later {
                    best = Some(i);
                }
            }
            i += 1;
        }
        best
    }

    fn set_field_if_absent(&mut self, key: String, field: String, value: PaymentAttempt) -> (r:
        Result<HsetnxReply, CacheFailure>)
        ensures
            final(self)@ == old(self)@.set_field_if_absent(key@, field@, value).0,
            StoreResponse::FieldSetIfAbsent(r)@ == StoreResponseView::FieldSetIfAbsent(
                old(self)@.set_field_if_absent(key@, field@, value).1,
            ),
    {
        if !self.cache_online {
            return Err(outage());
        }
        match self.find_slot(key.as_str(), field.as_str()) {
            Some(_) => Ok(HsetnxReply::KeyNotSet),
            None => {
                let entry = CachedField { key, field, value };
                self.cache.push(entry);
                assert(slots(self.cache@) =~= slots(old(self).cache@).push(entry@));
                Ok(HsetnxReply::KeySet)
            },
        }
    }

    fn set_field(&mut self, key: String, field: String, value: PaymentAttempt) -> (r: Result<
        (),
        CacheFailure,
    >)
        ensures
            final(self)@ == old(self)@.set_field(key@, field@, value).0,
            StoreResponse::FieldSet(r)@ == StoreResponseView::FieldSet(
                old(self)@.set_field(key@, field@, value).1,
            ),
    {
        if !self.cache_online {
            return Err(outage());
        }
        match self.find_slot(key.as_str(), field.as_str()) {
            Some(i) => {
                let entry = CachedField { key, field, value };
                self.cache.set(i, entry);
                assert(slots(self.cache@) =~= slots(old(self).cache@).update(i as int, entry@));
            },
            None => {
                let entry = CachedField { key, field, value };
                self.cache.push(entry);
                assert(slots(self.cache@) =~= slots(old(self).cache@).push(entry@));
            },
        }
        Ok(())
    }

    fn get_field(&self, key: &str, field: &str) -> (r: Result<PaymentAttempt, CacheFailure>)
        ensures
            StoreResponse::Field(r)@ == StoreResponseView::Field(
                self@.get_field(key@, field@),
            ),
    {
        if !self.cache_online {
            return Err(outage());
        }
        match self.find_slot(key, field) {
            Some(i) => Ok(self.cache[i].value.clone()),
            None => Err(CacheFailure::Operation(RedisError::NotFound)),
        }
    }

    fn scan_fields(&self, key: &str, pattern: &str) -> (r: Result<
        Vec<PaymentAttempt>,
        CacheFailure,
    >)
        ensures
            StoreResponse::Fields(r)@ == StoreResponseView::Fields(
                self@.scan_fields(key@, pattern@),
            ),
    {
        if !self.cache_online {
            return Err(outage());
        }
        let ghost wanted = FieldPattern { key: key@, pattern: pattern@ };
        let mut out: Vec<PaymentAttempt> = Vec::new();
        let mut i: usize = 0;
        assert(self@.cache.take(0) =~= Seq::empty());
        assert(values(all(self@.cache.take(0), wanted)) =~= Seq::empty());
        while i < self.cache.len()
            invariant
                i <= self.cache.len(),
                wanted == (FieldPattern { key: key@, pattern: pattern@ }),
                out@ == values(all(self@.cache.take(i as int), wanted)),
            decreases self.cache.len() - i,
        {
            let entry = &self.cache[i];
            proof {
                lemma_all_take_next(self@.cache, wanted, i as int);
            }
            if *entry.key.as_str() == *key && matches_pattern(pattern, entry.field.as_str()) {
                out.push(entry.value.clone());
                assert(values(all(self@.cache.take(i as int), wanted).push(self@.cache[i as int]))
                    =~= values(all(self@.cache.take(i as int), wanted)).push(
                    self@.cache[i as int].value,
                ));
            }
            i += 1;
        }
        assert(self@.cache.take(self.cache.len() as int) =~= self@.cache);
        Ok(out)
    }

    fn append_intent(&mut self, partition: PartitionKey, intent: TypedSql) -> (r: Result<
        (),
        CacheFailure,
    >)
        ensures
            final(self)@ == old(self)@.append_intent(partition@, intent).0,
            StoreResponse::IntentAppended(r)@ == StoreResponseView::IntentAppended(
                old(self)@.append_intent(partition@, intent).1,
            ),
    {
        if !self.cache_online {
            return Err(outage());
        }
        let entry = QueuedIntent { partition, intent };
        self.drain.push(entry);
        assert(queued(self.drain@) =~= queued(old(self).drain@).push(entry@));
        Ok(())
    }

    fn insert_lookup(&mut self, entry: ReverseLookupNew) -> (r: Result<
        ReverseLookup,
        DatabaseError,
    >)
        ensures
            final(self)@ == old(self)@.insert_lookup(entry@).0,
            StoreResponse::Lookup(r)@ == StoreResponseView::Lookup(
                old(self)@.insert_lookup(entry@).1,
            ),
    {
        if !self.database_online {
            return Err(DatabaseError::DatabaseConnectionError);
        }
        match self.find_entry(entry.lookup_id.as_str()) {
            Some(_) => Err(DatabaseError::UniqueViolation),
            None => {
                let stored = entry.into_stored();
                let answer = stored.clone();
                self.lookups.push(stored);
                assert(entries(self.lookups@) =~= entries(old(self).lookups@).push(stored@));
                Ok(answer)
            },
        }
    }

    fn find_lookup(&self, lookup_id: &str) -> (r: Result<ReverseLookup, DatabaseError>)
        ensures
            StoreResponse::Lookup(r)@ == StoreResponseView::Lookup(
                self@.find_lookup(lookup_id@),
            ),
    {
        if !self.database_online {
            return Err(DatabaseError::DatabaseConnectionError);
        }
        match self.find_entry(lookup_id) {
            Some(i) => Ok(self.lookups[i].clone()),
            None => Err(DatabaseError::NotFound),
        }
    }

    fn insert_record(&mut self, new: storage::PaymentAttemptNew, now: Timestamp) -> (r: Result<
        storage::PaymentAttempt,
        DatabaseError,
    >)
        ensures
            final(self)@ == old(self)@.insert_record(new, now).0,
            r == old(self)@.insert_record(new, now).1,
    {
        if !self.database_online {
            return Err(DatabaseError::DatabaseConnectionError);
        }
        match self.find_row(
            new.merchant_id.as_str(),
            new.payment_id.as_str(),
            new.attempt_id.as_str(),
        ) {
            Some(_) => Err(DatabaseError::UniqueViolation),
            None => {
                if self.rows.len() >= 0x7fff_ffff {
                    Err(DatabaseError::Others)
                } else {
                    let id = (self.rows.len() + 1) as i32;
                    let row = storage::PaymentAttempt::insert(new, id, now);
                    let answer = row.clone();
                    self.rows.push(row);
                    Ok(answer)
                }
            },
        }
    }

    fn update_record(
        &mut self,
        this: storage::PaymentAttempt,
        update: storage::PaymentAttemptUpdate,
        now: Timestamp,
    ) -> (r: Result<storage::PaymentAttempt, DatabaseError>)
        ensures
            final(self)@ == old(self)@.update_record(this, update, now).0,
            r == old(self)@.update_record(this, update, now).1,
    {
        if !self.database_online {
            return Err(DatabaseError::DatabaseConnectionError);
        }
        match self.find_target(this.merchant_id.as_str(), this.attempt_id.as_str()) {
            Some(i) => {
                let row = update.apply_changeset(self.rows[i].clone(), now);
                let answer = row.clone();
                self.rows.set(i, row);
                Ok(answer)
            },
            None => Err(DatabaseError::NotFound),
        }
    }

    fn find_record(&self, query: &AttemptQuery) -> (r: Result<
        storage::PaymentAttempt,
        DatabaseError,
    >)
        ensures
            r == self@.find_record(query@),
    {
        if !self.database_online {
            return Err(DatabaseError::DatabaseConnectionError);
        }
        let at = match query {
            AttemptQuery::LastSuccessfulAttemptByPaymentIdMerchantId { .. } => {
                self.find_latest(query)
            },
            _ => self.find_admitted(query),
        };
        match at {
            Some(i) => Ok(self.rows[i].clone()),
            None => Err(DatabaseError::NotFound),
        }
    }

    fn find_records(&self, merchant_id: &str, payment_id: &str) -> (r: Result<
        Vec<storage::PaymentAttempt>,
        DatabaseError,
    >)
        ensures
            StoreResponse::Records(r)@ == StoreResponseView::Records(
                self@.find_records(merchant_id@, payment_id@),
            ),
    {
        if !self.database_online {
            return Err(DatabaseError::DatabaseConnectionError);
        }
        let ghost wanted = PaymentOf { merchant_id: merchant_id@, payment_id: payment_id@ };
        let mut out: Vec<storage::PaymentAttempt> = Vec::new();
        let mut i: usize = 0;
        assert(self@.rows.take(0) =~= Seq::empty());
        while i < self.rows.len()
            invariant
                i <= self.rows.len(),
                wanted == (PaymentOf { merchant_id: merchant_id@, payment_id: payment_id@ }),
                out@ == all(self@.rows.take(i as int), wanted),
            decreases self.rows.len() - i,
        {
            let row = &self.rows[i];
            proof {
                lemma_all_take_next(self@.rows, wanted, i as int);
            }
            if *row.merchant_id.as_str() == *merchant_id && *row.payment_id.as_str()
                == *payment_id {
                out.push(row.clone());
            }
            i += 1;
        }
        assert(self@.rows.take(self.rows.len() as int) =~= self@.rows);
        Ok(out)
    }

    /// Does what `request` asks and answers it.
    pub fn perform(&mut self, request: StoreRequest) -> (response: StoreResponse)
        ensures
            final(self)@ == old(self)@.respond(request@).0,
            response@ == old(self)@.respond(request@).1,
            old(self)@.well_formed() ==> final(self)@.well_formed(),
    {
        proof {
            if self@.well_formed() {
                lemma_respond_keeps_well_formed(self@, request@);
            }
        }
        match request {
            StoreRequest::SetFieldIfAbsent { key, field, value } => {
                StoreResponse::FieldSetIfAbsent(self.set_field_if_absent(key, field, value))
            },
            StoreRequest::SetField { key, field, value } => StoreResponse::FieldSet(
                self.set_field(key, field, value),
            ),
            StoreRequest::GetField { key, field } => StoreResponse::Field(
                self.get_field(key.as_str(), field.as_str()),
            ),
            StoreRequest::ScanFields { key, pattern } => StoreResponse::Fields(
                self.scan_fields(key.as_str(), pattern.as_str()),
            ),
            StoreRequest::InsertLookup { entry } => StoreResponse::Lookup(
                self.insert_lookup(entry),
            ),
            StoreRequest::FindLookup { lookup_id } => StoreResponse::Lookup(
                self.find_lookup(lookup_id.as_str()),
            ),
            StoreRequest::AppendIntent { partition, intent } => StoreResponse::IntentAppended(
                self.append_intent(partition, intent),
            ),
            StoreRequest::InsertRecord { new, now } => StoreResponse::Record(
                self.insert_record(new, now),
            ),
            StoreRequest::UpdateRecord { this, update, now } => StoreResponse::Record(
                self.update_record(this, update, now),
            ),
            StoreRequest::FindRecord { query } => StoreResponse::Record(self.find_record(&query)),
            StoreRequest::FindRecords { merchant_id, payment_id } => StoreResponse::Records(
                self.find_records(merchant_id.as_str(), payment_id.as_str()),
            ),
        }
    }

    /// Makes in the durable store the write that an intent describes, at
    /// the instant `at`, as the drainer does. While the durable store can be
    /// reached, its rows are those after the replay of the intent.
    pub fn replay(&mut self, intent: TypedSql, at: Timestamp) -> (r: Result<
        storage::PaymentAttempt,
        DatabaseError,
    >)
        ensures
            final(self)@ == old(self)@.replay(intent, at).0,
            r == old(self)@.replay(intent, at).1,
            old(self)@.database_online ==> final(self)@.rows == BackendState::rows_after_replay(
                old(self)@.rows,
                intent,
                at,
            ),
            old(self)@.well_formed() ==> final(self)@.well_formed(),
    {
        match intent.op {
            DBOperation::Insert { insertable: Insertable::PaymentAttempt(new) } => {
                self.insert_record(new, at)
            },
            DBOperation::Update {
                updatable: Updateable::PaymentAttemptUpdate(
                    PaymentAttemptUpdateMems { orig, update_data },
                ),
            } => self.update_record(orig, update_data, at),
        }
    }

    /// Answers a request that only reads.
    pub(crate) fn answer(&self, request: StoreRequest) -> (response: StoreResponse)
        requires
            request@.reads_only(),
        ensures
            response@ == self@.respond(request@).1,
            self@.respond(request@).0 == self@,
    {
        match request {
            StoreRequest::GetField { key, field } => StoreResponse::Field(
                self.get_field(key.as_str(), field.as_str()),
            ),
            StoreRequest::ScanFields { key, pattern } => StoreResponse::Fields(
                self.scan_fields(key.as_str(), pattern.as_str()),
            ),
            StoreRequest::FindLookup { lookup_id } => StoreResponse::Lookup(
                self.find_lookup(lookup_id.as_str()),
            ),
            StoreRequest::FindRecord { query } => StoreResponse::Record(self.find_record(&query)),
            StoreRequest::FindRecords { merchant_id, payment_id } => StoreResponse::Records(
                self.find_records(merchant_id.as_str(), payment_id.as_str()),
            ),
            _ => vstd::pervasive::unreached(),
        }
    }

    /// Removes a field from the cache, as the cache itself does when it
    /// evicts. Says whether the field was there.
    pub fn evict(&mut self, key: &str, field: &str) -> (r: bool)
        ensures
            final(self)@ == (BackendState {
                cache: old(self)@.cache_without(key@, field@),
                ..old(self)@
            }),
            r == (old(self)@.cached(key@, field@) is Some),
            old(self)@.well_formed() ==> final(self)@.well_formed() && final(self)@.cached(
                key@,
                field@,
            ) is None,
    {
        proof {
            if self@.well_formed() {
                lemma_evicted_is_absent(self@, key@, field@);
            }
        }
        match self.find_slot(key, field) {
            Some(i) => {
                self.cache.remove(i);
                assert(slots(self.cache@) =~= slots(old(self).cache@).remove(i as int));
                true
            },
            None => false,
        }
    }

    /// What the cache holds under a field of a hash, whether or not the
    /// cache is switched on.
    pub fn cached_attempt(&self, key: &str, field: &str) -> (r: Option<PaymentAttempt>)
        ensures
            r == self@.cached(key@, field@),
    {
        match self.find_slot(key, field) {
            Some(i) => Some(self.cache[i].value.clone()),
            None => None,
        }
    }

    /// What the index holds for an identifier, whether or not the durable
    /// store is switched on.
    pub fn lookup(&self, lookup_id: &str) -> (r: Option<ReverseLookup>)
        ensures
            match r {
                Some(entry) => self@.indexed(lookup_id@) == Some(entry@),
                None => self@.indexed(lookup_id@) is None,
            },
    {
        match self.find_entry(lookup_id) {
            Some(i) => Some(self.lookups[i].clone()),
            None => None,
        }
    }

    /// Whether the durable store is switched on.
    pub fn database_online(&self) -> (r: bool)
        ensures
            r == self@.database_online,
    {
        self.database_online
    }

    /// Whether the cache is switched on.
    pub fn cache_online(&self) -> (r: bool)
        ensures
            r == self@.cache_online,
    {
        self.cache_online
    }

    /// The rows of the durable store, to read.
    pub(crate) fn stored_rows(&self) -> (r: &Vec<storage::PaymentAttempt>)
        ensures
            r@ == self@.rows,
    {
        &self.rows
    }

    /// The number of intents in the drain queue.
    pub fn drain_len(&self) -> (r: usize)
        ensures
            r == self@.drain.len(),
    {
        self.drain.len()
    }

    /// The intent at a position of the drain queue.
    pub fn intent_at(&self, position: usize) -> (r: Option<TypedSql>)
        ensures
            r == if position < self@.drain.len() {
                Some(self@.drain[position as int].intent)
            } else {
                None
            },
    {
        if position < self.drain.len() {
            Some(self.drain[position].intent.clone())
        } else {
            None
        }
    }

    /// The rows of the durable store, in the order of their insertion.
    pub fn rows(&self) -> (r: Vec<storage::PaymentAttempt>)
        ensures
            r@ == self@.rows,
    {
        let mut out: Vec<storage::PaymentAttempt> = Vec::new();
        let mut i: usize = 0;
        while i < self.rows.len()
            invariant
                i <= self.rows.len(),
                out@ == self@.rows.take(i as int),
            decreases self.rows.len() - i,
        {
            out.push(self.rows[i].clone());
            assert(self@.rows.take(i + 1) =~= self@.rows.take(i as int).push(self@.rows[i as int]));
            i += 1;
        }
        assert(self@.rows.take(self.rows.len() as int) =~= self@.rows);
        out
    }
}

fn outage() -> (r: CacheFailure)
    ensures
        r@ == BackendState::cache_outage(),
{
    CacheFailure::Unavailable(String::from_str("cache is not reachable"))
}

} // verus!
