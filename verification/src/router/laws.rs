//! What holds of the storage router whatever it is asked.

use crate::clock::Timestamp;
use crate::convert::DataModelExt;
use crate::domain::{PaymentAttempt, PaymentAttemptNew, PaymentAttemptUpdate};
use crate::enums::MerchantStorageScheme;
use crate::errors::StorageErrorView;
use crate::kv::{Partition, TypedSql};
use crate::memory::facts::{
    lemma_cached_after_push, lemma_cached_after_set, lemma_evicted_is_absent,
    lemma_indexed_after_push, lemma_respond_keeps_well_formed,
};
use crate::memory::state::{BackendState, DrainEntry};
use crate::search::{all, first, found, Criterion};
use crate::reverse_lookup::{
    attempt_field, attempt_lookup, lemma_attempt_field_injective, lemma_lookup_key_injective,
    lookup_key, partition_key, LookupEntry,
};
use crate::router::find::{FindAllFlow, FindFlow};
use crate::router::protocol::{
    AttemptQuery, ListStepView, StepView, StoreRequestView, StoreResponseView,
};
use crate::router::insert::duplicate_attempt;
use crate::router::protocol::AttemptQueryView;
use crate::router::store::Outcome;
use crate::router::update::{identifier_learned, merged};
use crate::storage;
use vstd::prelude::*;

verus! {

/// One write asked of the storage router, with the clock readings it is
/// made at.
pub enum Write {
    Insert { new: PaymentAttemptNew, created_now: Timestamp, modified_now: Timestamp },
    Update { this: PaymentAttempt, update: PaymentAttemptUpdate, now: Timestamp },
}

impl Write {
    /// The partition the write belongs to.
    pub open spec fn partition(self) -> Partition {
        match self {
            Write::Insert { new, .. } => Partition {
                merchant_id: new.merchant_id@,
                payment_id: new.payment_id@,
            },
            Write::Update { this, .. } => Partition {
                merchant_id: this.merchant_id@,
                payment_id: this.payment_id@,
            },
        }
    }

    /// The intent that replicates the write.
    pub open spec fn intent(self) -> TypedSql {
        match self {
            Write::Insert { new, .. } => TypedSql::insertion(new.storage_model()),
            Write::Update { this, update, .. } => TypedSql::modification(
                this.storage_model(),
                update.storage_model(),
            ),
        }
    }

    /// The instant at which the durable store makes the write when it
    /// receives it directly.
    pub open spec fn instant(self) -> Timestamp {
        match self {
            Write::Insert { created_now, .. } => created_now,
            Write::Update { now, .. } => now,
        }
    }

    /// The rows of the durable store after the store received the write
    /// directly at the instant `at`.
    pub open spec fn applied(self, rows: Seq<storage::PaymentAttempt>, at: Timestamp) -> Seq<
        storage::PaymentAttempt,
    > {
        match self {
            Write::Insert { new, .. } => BackendState::rows_after_insert(
                rows,
                new.storage_model(),
                at,
            ).0,
            Write::Update { this, update, .. } => BackendState::rows_after_update(
                rows,
                this.storage_model(),
                update.storage_model(),
                at,
            ).0,
        }
    }
}

/// The rows of the durable store after the intents were replayed in their
/// order, the one at position `i` at the instant `at[i]`.
pub open spec fn replayed(
    rows: Seq<storage::PaymentAttempt>,
    intents: Seq<DrainEntry>,
    at: Seq<Timestamp>,
) -> Seq<storage::PaymentAttempt>
    recommends
        at.len() == intents.len(),
    decreases intents.len(),
{
    if intents.len() == 0 {
        rows
    } else {
        BackendState::rows_after_replay(
            replayed(rows, intents.drop_last(), at.drop_last()),
            intents.last().intent,
            at.last(),
        )
    }
}

/// The rows of the durable store after the store received the writes
/// directly in their order, the one at position `i` at the instant `at[i]`.
pub open spec fn applied(
    rows: Seq<storage::PaymentAttempt>,
    writes: Seq<Write>,
    at: Seq<Timestamp>,
) -> Seq<storage::PaymentAttempt>
    recommends
        at.len() == writes.len(),
    decreases writes.len(),
{
    if writes.len() == 0 {
        rows
    } else {
        writes.last().applied(applied(rows, writes.drop_last(), at.drop_last()), at.last())
    }
}

impl BackendState {
    /// The stores after a write under a storage scheme, and what the caller
    /// gets.
    pub open spec fn write(self, w: Write, storage_scheme: MerchantStorageScheme) -> (
        BackendState,
        Outcome,
    ) {
        match w {
            Write::Insert { new, created_now, modified_now } => self.insert(
                new,
                storage_scheme,
                created_now,
                modified_now,
            ),
            Write::Update { this, update, now } => self.update(this, update, storage_scheme, now),
        }
    }

    /// The stores after a sequence of writes.
    pub open spec fn written(
        self,
        writes: Seq<Write>,
        storage_scheme: MerchantStorageScheme,
    ) -> BackendState
        decreases writes.len(),
    {
        if writes.len() == 0 {
            self
        } else {
            self.written(writes.drop_last(), storage_scheme).write(writes.last(), storage_scheme).0
        }
    }

    /// Those of a sequence of writes that succeeded, in their order.
    pub open spec fn accepted(
        self,
        writes: Seq<Write>,
        storage_scheme: MerchantStorageScheme,
    ) -> Seq<Write>
        decreases writes.len(),
    {
        if writes.len() == 0 {
            Seq::empty()
        } else {
            let before = self.written(writes.drop_last(), storage_scheme);
            let earlier = self.accepted(writes.drop_last(), storage_scheme);
            if before.write(writes.last(), storage_scheme).1 is Ok {
                earlier.push(writes.last())
            } else {
                earlier
            }
        }
    }
}

/// The intents of a sequence of writes, each with its partition.
pub open spec fn intents_of(writes: Seq<Write>) -> Seq<DrainEntry> {
    writes.map_values(|w: Write| DrainEntry { partition: w.partition(), intent: w.intent() })
}

/// Cache insert uniqueness. After a cache-first insertion succeeded, the
/// insertion of the same attempt of the same payment of the same merchant is
/// refused as a duplicate, whatever else the second one holds, and the
/// stores hold exactly what they held after the first.
pub proof fn law_duplicate_insert_is_refused(
    s: BackendState,
    first: PaymentAttemptNew,
    second: PaymentAttemptNew,
    first_created: Timestamp,
    first_modified: Timestamp,
    second_created: Timestamp,
    second_modified: Timestamp,
)
    requires
        first.merchant_id@ == second.merchant_id@,
        first.payment_id@ == second.payment_id@,
        first.attempt_id@ == second.attempt_id@,
        s.insert(first, MerchantStorageScheme::RedisKv, first_created, first_modified).1 is Ok,
    ensures
        ({
            let after = s.insert(
                first,
                MerchantStorageScheme::RedisKv,
                first_created,
                first_modified,
            ).0;
            after.insert(second, MerchantStorageScheme::RedisKv, second_created, second_modified)
                == (
                after,
                Err::<PaymentAttempt, StorageErrorView>(
                    duplicate_attempt(partition_key(first.merchant_id@, first.payment_id@)),
                ),
            )
        }),
{
    let key = partition_key(first.merchant_id@, first.payment_id@);
    let field = attempt_field(first.attempt_id@);
    let created = PaymentAttempt::created_from(first, first_created, first_modified);
    lemma_cached_after_push(s, key, field, created, key, field);
    let cached = BackendState {
        cache: s.cache.push(crate::memory::state::CacheSlot { key, field, value: created }),
        ..s
    };
    let after = s.insert(first, MerchantStorageScheme::RedisKv, first_created, first_modified).0;
    assert(after.cache == cached.cache);
    assert(after.cached(key, field) == cached.cached(key, field));
}

/// A write keeps what the cache holds under a field, unless it is the write
/// of that field; it never removes a field, and never switches a store.
pub proof fn lemma_write_keeps_cached_fields(
    s: BackendState,
    w: Write,
    storage_scheme: MerchantStorageScheme,
    key: Seq<char>,
    field: Seq<char>,
)
    requires
        s.cached(key, field) is Some,
    ensures
        s.write(w, storage_scheme).0.cached(key, field) is Some,
        s.write(w, storage_scheme).0.cache_online == s.cache_online,
        s.write(w, storage_scheme).0.database_online == s.database_online,
{
    match w {
        Write::Insert { new, created_now, modified_now } => {
            let k = partition_key(new.merchant_id@, new.payment_id@);
            let f = attempt_field(new.attempt_id@);
            let created = PaymentAttempt::created_from(new, created_now, modified_now);
            if s.cached(k, f) is None {
                lemma_cached_after_push(s, k, f, created, key, field);
            }
        },
        Write::Update { this, update, now } => {
            let updated = merged(this, update, now);
            let k = partition_key(this.merchant_id@, this.payment_id@);
            let f = attempt_field(updated.attempt_id@);
            lemma_cached_after_set(s, k, f, updated, key, field);
        },
    }
}

/// Cache insert uniqueness, over time. Once the cache holds an attempt,
/// then after any sequence of writes under any scheme the cache-first
/// insertion of that attempt is refused as a duplicate and changes nothing.
pub proof fn law_cached_attempt_is_never_inserted_again(
    s: BackendState,
    writes: Seq<Write>,
    storage_scheme: MerchantStorageScheme,
    new: PaymentAttemptNew,
    created_now: Timestamp,
    modified_now: Timestamp,
)
    requires
        s.cache_online,
        s.cached(
            partition_key(new.merchant_id@, new.payment_id@),
            attempt_field(new.attempt_id@),
        ) is Some,
    ensures
        ({
            let later = s.written(writes, storage_scheme);
            later.insert(new, MerchantStorageScheme::RedisKv, created_now, modified_now) == (
                later,
                Err::<PaymentAttempt, StorageErrorView>(
                    duplicate_attempt(partition_key(new.merchant_id@, new.payment_id@)),
                ),
            )
        }),
{
    lemma_written_keeps_cached_fields(
        s,
        writes,
        storage_scheme,
        partition_key(new.merchant_id@, new.payment_id@),
        attempt_field(new.attempt_id@),
    );
}

proof fn lemma_written_keeps_cached_fields(
    s: BackendState,
    writes: Seq<Write>,
    storage_scheme: MerchantStorageScheme,
    key: Seq<char>,
    field: Seq<char>,
)
    requires
        s.cached(key, field) is Some,
    ensures
        s.written(writes, storage_scheme).cached(key, field) is Some,
        s.written(writes, storage_scheme).cache_online == s.cache_online,
        s.written(writes, storage_scheme).database_online == s.database_online,
    decreases writes.len(),
{
    if writes.len() > 0 {
        lemma_written_keeps_cached_fields(s, writes.drop_last(), storage_scheme, key, field);
        lemma_write_keeps_cached_fields(
            s.written(writes.drop_last(), storage_scheme),
            writes.last(),
            storage_scheme,
            key,
            field,
        );
    }
}

/// Reverse-lookup completeness, for insertions. After a cache-first
/// insertion succeeded, looking the attempt up by its own identifier gives
/// the attempt that the cache holds at the attempt's place, which is the
/// attempt that was handed to the caller.
pub proof fn law_inserted_attempt_is_found(
    s: BackendState,
    new: PaymentAttemptNew,
    created_now: Timestamp,
    modified_now: Timestamp,
)
    requires
        s.insert(new, MerchantStorageScheme::RedisKv, created_now, modified_now).1 is Ok,
    ensures
        ({
            let (after, result) = s.insert(
                new,
                MerchantStorageScheme::RedisKv,
                created_now,
                modified_now,
            );
            let at_place = after.cached(
                partition_key(new.merchant_id@, new.payment_id@),
                attempt_field(new.attempt_id@),
            );
            &&& at_place is Some
            &&& result == Ok::<PaymentAttempt, StorageErrorView>(at_place.unwrap())
            &&& after.find(
                AttemptQueryView::AttemptIdMerchantId {
                    attempt_id: new.attempt_id@,
                    merchant_id: new.merchant_id@,
                },
                MerchantStorageScheme::RedisKv,
            ) == result
            &&& after.find(
                AttemptQueryView::PaymentIdMerchantIdAttemptId {
                    payment_id: new.payment_id@,
                    merchant_id: new.merchant_id@,
                    attempt_id: new.attempt_id@,
                },
                MerchantStorageScheme::RedisKv,
            ) == result
        }),
{
    let key = partition_key(new.merchant_id@, new.payment_id@);
    let field = attempt_field(new.attempt_id@);
    let created = PaymentAttempt::created_from(new, created_now, modified_now);
    let entry = attempt_lookup(key, new.merchant_id@, new.attempt_id@, new.attempt_id@);
    lemma_cached_after_push(s, key, field, created, key, field);
    lemma_indexed_after_push(s, entry, entry.lookup_id);
    let after = s.insert(new, MerchantStorageScheme::RedisKv, created_now, modified_now).0;
    let cached = BackendState {
        cache: s.cache.push(crate::memory::state::CacheSlot { key, field, value: created }),
        ..s
    };
    let indexed = BackendState { lookups: s.lookups.push(entry), ..s };
    assert(after.cache == cached.cache);
    assert(after.cached(key, field) == cached.cached(key, field));
    assert(after.lookups == indexed.lookups);
    assert(after.indexed(entry.lookup_id) == indexed.indexed(entry.lookup_id));
}

/// Cache insert uniqueness, across payments. After a cache-first insertion
/// succeeded, the cache-first insertion of an attempt with the same
/// identifier for the same merchant is refused as a duplicate, under
/// whatever payment it is made. (Under another payment the cache has taken
/// the second attempt by then: it is the index that refuses it.)
pub proof fn law_same_identifier_is_refused(
    s: BackendState,
    first: PaymentAttemptNew,
    second: PaymentAttemptNew,
    first_created: Timestamp,
    first_modified: Timestamp,
    second_created: Timestamp,
    second_modified: Timestamp,
)
    requires
        first.merchant_id@ == second.merchant_id@,
        first.attempt_id@ == second.attempt_id@,
        s.insert(first, MerchantStorageScheme::RedisKv, first_created, first_modified).1 is Ok,
    ensures
        ({
            let after = s.insert(
                first,
                MerchantStorageScheme::RedisKv,
                first_created,
                first_modified,
            ).0;
            let again = after.insert(
                second,
                MerchantStorageScheme::RedisKv,
                second_created,
                second_modified,
            ).1;
            again matches Err(e) && e.is_unique_violation()
        }),
{
    let key = partition_key(first.merchant_id@, first.payment_id@);
    let entry = attempt_lookup(key, first.merchant_id@, first.attempt_id@, first.attempt_id@);
    lemma_indexed_after_push(s, entry, entry.lookup_id);
    let after = s.insert(first, MerchantStorageScheme::RedisKv, first_created, first_modified).0;
    let indexed = BackendState { lookups: s.lookups.push(entry), ..s };
    assert(after.lookups == indexed.lookups);
    assert(after.indexed(entry.lookup_id) == indexed.indexed(entry.lookup_id));
}

/// Reverse-lookup completeness, for updates. After a cache-first update
/// succeeded, the cache holds the merged attempt at the attempt's place, and
/// looking the attempt up by an identifier that the update introduced gives
/// that attempt.
pub proof fn law_learned_identifiers_are_found(
    s: BackendState,
    this: PaymentAttempt,
    update: PaymentAttemptUpdate,
    now: Timestamp,
)
    requires
        s.update(this, update, MerchantStorageScheme::RedisKv, now).1 is Ok,
    ensures
        ({
            let (after, result) = s.update(this, update, MerchantStorageScheme::RedisKv, now);
            let updated = merged(this, update, now);
            &&& result == Ok::<PaymentAttempt, StorageErrorView>(updated)
            &&& after.cached(
                partition_key(this.merchant_id@, this.payment_id@),
                attempt_field(updated.attempt_id@),
            ) == Some(updated)
            &&& identifier_learned(this.connector_transaction_id, updated.connector_transaction_id)
                ==> {
                &&& after.find(
                    AttemptQueryView::MerchantIdConnectorTxnId {
                        merchant_id: this.merchant_id@,
                        connector_txn_id: updated.connector_transaction_id.unwrap()@,
                    },
                    MerchantStorageScheme::RedisKv,
                ) == result
                &&& after.find(
                    AttemptQueryView::ConnectorTransactionIdPaymentIdMerchantId {
                        connector_transaction_id: updated.connector_transaction_id.unwrap()@,
                        payment_id: this.payment_id@,
                        merchant_id: this.merchant_id@,
                    },
                    MerchantStorageScheme::RedisKv,
                ) == result
            }
            &&& identifier_learned(this.preprocessing_step_id, updated.preprocessing_step_id)
                ==> after.find(
                AttemptQueryView::PreprocessingIdMerchantId {
                    preprocessing_id: updated.preprocessing_step_id.unwrap()@,
                    merchant_id: this.merchant_id@,
                },
                MerchantStorageScheme::RedisKv,
            ) == result
        }),
{
    let updated = merged(this, update, now);
    let key = partition_key(this.merchant_id@, this.payment_id@);
    let field = attempt_field(updated.attempt_id@);
    let after = s.update(this, update, MerchantStorageScheme::RedisKv, now).0;
    lemma_cached_after_set(s, key, field, updated, key, field);
    let cached = BackendState { cache: s.cache_with(key, field, updated), ..s };
    let (first_indexed, first_error) = cached.index_identifier(
        this,
        updated,
        this.connector_transaction_id,
        updated.connector_transaction_id,
    );
    let (indexed, error) = first_indexed.index_identifier(
        this,
        updated,
        this.preprocessing_step_id,
        updated.preprocessing_step_id,
    );
    assert(after.cache == cached.cache);
    assert(after.cached(key, field) == cached.cached(key, field));
    assert(after.lookups == indexed.lookups);
    if identifier_learned(this.connector_transaction_id, updated.connector_transaction_id) {
        let first_entry = attempt_lookup(
            key,
            this.merchant_id@,
            updated.attempt_id@,
            updated.connector_transaction_id.unwrap()@,
        );
        lemma_indexed_after_push(cached, first_entry, first_entry.lookup_id);
        assert(first_indexed.indexed(first_entry.lookup_id) == Some(first_entry));
        if identifier_learned(this.preprocessing_step_id, updated.preprocessing_step_id) {
            let entry = attempt_lookup(
                key,
                this.merchant_id@,
                updated.attempt_id@,
                updated.preprocessing_step_id.unwrap()@,
            );
            lemma_indexed_after_push(first_indexed, entry, first_entry.lookup_id);
        }
        assert(indexed.indexed(first_entry.lookup_id) == Some(first_entry));
        assert(after.indexed(first_entry.lookup_id) == indexed.indexed(first_entry.lookup_id));
    }
    if identifier_learned(this.preprocessing_step_id, updated.preprocessing_step_id) {
        let entry = attempt_lookup(
            key,
            this.merchant_id@,
            updated.attempt_id@,
            updated.preprocessing_step_id.unwrap()@,
        );
        lemma_indexed_after_push(first_indexed, entry, entry.lookup_id);
        assert(indexed.indexed(entry.lookup_id) == Some(entry));
        assert(after.indexed(entry.lookup_id) == indexed.indexed(entry.lookup_id));
    }
}

/// Read fallback. Where the cache can be reached and holds nothing at the
/// place the index names for an identifier, or the index has no entry for
/// the identifier, a cache-first query by that identifier finds what the
/// durable store finds for the query: the first row that the query admits,
/// where the durable store can be reached and holds one.
pub proof fn law_read_falls_back_to_durable_store(
    s: BackendState,
    query: AttemptQueryView,
    lookup_id: Seq<char>,
)
    requires
        s.cache_online,
        query.index_key() == Some(lookup_id),
        match s.indexed(lookup_id) {
            Some(entry) => s.cached(entry.pk_id, entry.sk_id) is None,
            None => true,
        },
    ensures
        s.find(query, MerchantStorageScheme::RedisKv) == s.find_durable(query),
        s.find(query, MerchantStorageScheme::PostgresOnly) == s.find_durable(query),
        s.database_online && found(s.rows, query) ==> s.find(query, MerchantStorageScheme::RedisKv)
            == Ok::<PaymentAttempt, StorageErrorView>(
            PaymentAttempt::domain_model(s.rows[first(s.rows, query)]),
        ),
{
}

/// Read fallback, after an eviction. Where the cache can be reached and the
/// field that the index names for an identifier was evicted, a cache-first
/// query by that identifier finds what the durable store finds for the
/// query.
pub proof fn law_evicted_attempt_is_read_from_durable_store(
    s: BackendState,
    query: AttemptQueryView,
    lookup_id: Seq<char>,
    entry: LookupEntry,
)
    requires
        s.well_formed(),
        s.cache_online,
        query.index_key() == Some(lookup_id),
        s.indexed(lookup_id) == Some(entry),
    ensures
        ({
            let evicted = BackendState { cache: s.cache_without(entry.pk_id, entry.sk_id), ..s };
            evicted.find(query, MerchantStorageScheme::RedisKv) == s.find_durable(query)
        }),
{
    lemma_evicted_is_absent(s, entry.pk_id, entry.sk_id);
    let evicted = BackendState { cache: s.cache_without(entry.pk_id, entry.sk_id), ..s };
    assert(evicted.indexed(lookup_id) == s.indexed(lookup_id));
    assert(evicted.find_durable(query) == s.find_durable(query));
}

/// A cache-first write that succeeds appends its intent to the drain queue,
/// for its partition; one that fails appends nothing. Either way what the
/// queue held stays, in its order.
pub proof fn lemma_write_appends_its_intent(s: BackendState, w: Write)
    ensures
        ({
            let (after, result) = s.write(w, MerchantStorageScheme::RedisKv);
            after.drain == if result is Ok {
                s.drain.push(DrainEntry { partition: w.partition(), intent: w.intent() })
            } else {
                s.drain
            }
        }),
{
}

/// The drain queue is append-only and ordered: after a sequence of
/// cache-first writes it holds what it held before, followed by the intents
/// of the writes that succeeded, in the order of the writes.
pub proof fn law_drain_holds_accepted_writes_in_order(s: BackendState, writes: Seq<Write>)
    ensures
        s.written(writes, MerchantStorageScheme::RedisKv).drain == s.drain + intents_of(
            s.accepted(writes, MerchantStorageScheme::RedisKv),
        ),
    decreases writes.len(),
{
    let scheme = MerchantStorageScheme::RedisKv;
    if writes.len() == 0 {
        assert(s.drain + intents_of(Seq::<Write>::empty()) =~= s.drain);
    } else {
        let earlier = s.accepted(writes.drop_last(), scheme);
        let before = s.written(writes.drop_last(), scheme);
        law_drain_holds_accepted_writes_in_order(s, writes.drop_last());
        lemma_write_appends_its_intent(before, writes.last());
        let w = writes.last();
        if before.write(w, scheme).1 is Ok {
            assert(intents_of(earlier.push(w)) =~= intents_of(earlier).push(
                DrainEntry { partition: w.partition(), intent: w.intent() },
            ));
            assert(s.drain + intents_of(earlier.push(w)) =~= (s.drain + intents_of(earlier)).push(
                DrainEntry { partition: w.partition(), intent: w.intent() },
            ));
        }
    }
}

/// An intent describes its write exactly: replaying the intents of a
/// sequence of writes, in their order, leaves the durable store as it would
/// be had it received the writes directly, in the same order and at the
/// same instants.
pub proof fn law_replay_equals_direct_writes(
    rows: Seq<storage::PaymentAttempt>,
    writes: Seq<Write>,
    at: Seq<Timestamp>,
)
    requires
        at.len() == writes.len(),
    ensures
        replayed(rows, intents_of(writes), at) == applied(rows, writes, at),
    decreases writes.len(),
{
    if writes.len() > 0 {
        law_replay_equals_direct_writes(rows, writes.drop_last(), at.drop_last());
        assert(intents_of(writes).drop_last() =~= intents_of(writes.drop_last()));
    }
}

/// What "received directly" means: a durable-only write leaves the rows of
/// the durable store, while it can be reached, as the write applied at its
/// own instant leaves them; the cache, the index and the drain queue it
/// leaves alone.
pub proof fn law_durable_only_write_is_the_write_applied(s: BackendState, w: Write)
    requires
        s.database_online,
    ensures
        s.write(w, MerchantStorageScheme::PostgresOnly).0 == (BackendState {
            rows: w.applied(s.rows, w.instant()),
            ..s
        }),
{
}

/// Drain ordering. For every sequence of cache-first writes, the intents
/// that the writes emitted are those of the writes that succeeded, in the
/// order of the writes; replayed in that order they leave the durable store
/// as it would be had it received those writes directly and in the same
/// order.
pub proof fn law_drain_ordering(
    s: BackendState,
    writes: Seq<Write>,
    rows: Seq<storage::PaymentAttempt>,
    at: Seq<Timestamp>,
)
    requires
        at.len() == s.accepted(writes, MerchantStorageScheme::RedisKv).len(),
    ensures
        ({
            let after = s.written(writes, MerchantStorageScheme::RedisKv);
            let accepted = s.accepted(writes, MerchantStorageScheme::RedisKv);
            let emitted = after.drain.subrange(s.drain.len() as int, after.drain.len() as int);
            &&& after.drain.len() == s.drain.len() + accepted.len()
            &&& after.drain.subrange(0, s.drain.len() as int) == s.drain
            &&& emitted == intents_of(accepted)
            &&& replayed(rows, emitted, at) == applied(rows, accepted, at)
        }),
{
    let after = s.written(writes, MerchantStorageScheme::RedisKv);
    let accepted = s.accepted(writes, MerchantStorageScheme::RedisKv);
    law_drain_holds_accepted_writes_in_order(s, writes);
    law_replay_equals_direct_writes(rows, accepted, at);
    assert(after.drain.subrange(s.drain.len() as int, after.drain.len() as int) =~= intents_of(
        accepted,
    ));
    assert(after.drain.subrange(0, s.drain.len() as int) =~= s.drain);
}

/// Reverse-lookup entries are additive. Whatever is asked of the stores,
/// an identifier that has an entry keeps exactly that entry: no identifier
/// is ever bound to another place.
pub proof fn law_index_entries_are_never_overwritten(
    s: BackendState,
    request: StoreRequestView,
    lookup_id: Seq<char>,
)
    requires
        s.indexed(lookup_id) is Some,
    ensures
        s.respond(request).0.indexed(lookup_id) == s.indexed(lookup_id),
{
    match request {
        StoreRequestView::InsertLookup { entry } => {
            if s.database_online && s.indexed(entry.lookup_id) is None {
                lemma_indexed_after_push(s, entry, lookup_id);
            }
        },
        _ => {},
    }
}

/// Reverse-lookup entries are additive, over writes. After a write under
/// either scheme, successful or not, an identifier that had an entry has
/// exactly that entry: identifiers learned earlier stay resolvable when a
/// later update introduces another one.
pub proof fn law_writes_keep_index_entries(
    s: BackendState,
    w: Write,
    storage_scheme: MerchantStorageScheme,
    lookup_id: Seq<char>,
)
    requires
        s.indexed(lookup_id) is Some,
    ensures
        s.write(w, storage_scheme).0.indexed(lookup_id) == s.indexed(lookup_id),
{
    match (w, storage_scheme) {
        (Write::Insert { new, created_now, modified_now }, MerchantStorageScheme::RedisKv) => {
            let key = partition_key(new.merchant_id@, new.payment_id@);
            let entry = attempt_lookup(key, new.merchant_id@, new.attempt_id@, new.attempt_id@);
            if s.indexed(entry.lookup_id) is None {
                lemma_indexed_after_push(s, entry, lookup_id);
            }
            let after = s.write(w, storage_scheme).0;
            let indexed = BackendState { lookups: s.lookups.push(entry), ..s };
            assert(after.lookups == s.lookups || after.lookups == indexed.lookups);
            assert(after.indexed(lookup_id) == s.indexed(lookup_id));
        },
        (Write::Update { this, update, now }, MerchantStorageScheme::RedisKv) => {
            let updated = merged(this, update, now);
            let key = partition_key(this.merchant_id@, this.payment_id@);
            let field = attempt_field(updated.attempt_id@);
            let cached = BackendState { cache: s.cache_with(key, field, updated), ..s };
            assert(cached.indexed(lookup_id) == s.indexed(lookup_id));
            let request = |identifier: Seq<char>|
                StoreRequestView::InsertLookup {
                    entry: attempt_lookup(key, this.merchant_id@, updated.attempt_id@, identifier),
                };
            let (s2, _) = cached.index_identifier(
                this,
                updated,
                this.connector_transaction_id,
                updated.connector_transaction_id,
            );
            if identifier_learned(this.connector_transaction_id, updated.connector_transaction_id) {
                law_index_entries_are_never_overwritten(
                    cached,
                    request(updated.connector_transaction_id.unwrap()@),
                    lookup_id,
                );
            }
            assert(s2.indexed(lookup_id) == s.indexed(lookup_id));
            let (s3, _) = s2.index_identifier(
                this,
                updated,
                this.preprocessing_step_id,
                updated.preprocessing_step_id,
            );
            if identifier_learned(this.preprocessing_step_id, updated.preprocessing_step_id) {
                law_index_entries_are_never_overwritten(
                    s2,
                    request(updated.preprocessing_step_id.unwrap()@),
                    lookup_id,
                );
            }
            assert(s3.indexed(lookup_id) == s.indexed(lookup_id));
            let after = s.write(w, storage_scheme).0;
            assert(after.lookups == s3.lookups || after.lookups == s2.lookups || after.lookups
                == s.lookups);
        },
        _ => {},
    }
}

/// Reads do not fill the cache. Looking for attempts asks the stores only
/// to read, at every step, and a request that only reads leaves the stores
/// as they are.
pub proof fn law_finding_only_reads(
    s: BackendState,
    query: AttemptQuery,
    merchant_id: String,
    payment_id: String,
    storage_scheme: MerchantStorageScheme,
    one: FindFlow,
    many: FindAllFlow,
    response: StoreResponseView,
    request: StoreRequestView,
)
    ensures
        FindFlow::begun(query, storage_scheme).1.reads_only(),
        FindAllFlow::begun(merchant_id, payment_id, storage_scheme).1.reads_only(),
        one.resumed(response).1 matches StepView::Request(next) ==> next.reads_only(),
        many.resumed(response).1 matches ListStepView::Request(next) ==> next.reads_only(),
        request.reads_only() ==> s.respond(request).0 == s,
{
}

/// Insertions of different attempts do not get in each other's way. Where
/// the cache-first insertion of an attempt would succeed, it still succeeds
/// after the cache-first insertion of another attempt of the same merchant
/// succeeded.
pub proof fn law_different_attempts_do_not_conflict(
    s: BackendState,
    first: PaymentAttemptNew,
    second: PaymentAttemptNew,
    first_created: Timestamp,
    first_modified: Timestamp,
    second_created: Timestamp,
    second_modified: Timestamp,
)
    requires
        first.merchant_id@ == second.merchant_id@,
        first.attempt_id@ != second.attempt_id@,
        s.insert(first, MerchantStorageScheme::RedisKv, first_created, first_modified).1 is Ok,
        s.insert(second, MerchantStorageScheme::RedisKv, second_created, second_modified).1 is Ok,
    ensures
        s.insert(first, MerchantStorageScheme::RedisKv, first_created, first_modified).0.insert(
            second,
            MerchantStorageScheme::RedisKv,
            second_created,
            second_modified,
        ).1 is Ok,
{
    let key = partition_key(first.merchant_id@, first.payment_id@);
    let field = attempt_field(first.attempt_id@);
    let other_key = partition_key(second.merchant_id@, second.payment_id@);
    let other_field = attempt_field(second.attempt_id@);
    let created = PaymentAttempt::created_from(first, first_created, first_modified);
    let entry = attempt_lookup(key, first.merchant_id@, first.attempt_id@, first.attempt_id@);
    let other_id = lookup_key(second.merchant_id@, second.attempt_id@);
    lemma_attempt_field_injective(first.attempt_id@, second.attempt_id@);
    lemma_lookup_key_injective(first.merchant_id@, first.attempt_id@, second.attempt_id@);
    lemma_cached_after_push(s, key, field, created, other_key, other_field);
    lemma_indexed_after_push(s, entry, other_id);
    let after = s.insert(first, MerchantStorageScheme::RedisKv, first_created, first_modified).0;
    let cached = BackendState {
        cache: s.cache.push(crate::memory::state::CacheSlot { key, field, value: created }),
        ..s
    };
    let indexed = BackendState { lookups: s.lookups.push(entry), ..s };
    assert(after.cache == cached.cache);
    assert(after.cached(other_key, other_field) == cached.cached(other_key, other_field));
    assert(after.lookups == indexed.lookups);
    assert(after.indexed(other_id) == indexed.indexed(other_id));
}

/// Writes keep the stores well-formed: after a write under either scheme no
/// field of a hash has two slots and no identifier two entries.
pub proof fn law_writes_keep_stores_well_formed(
    s: BackendState,
    w: Write,
    storage_scheme: MerchantStorageScheme,
)
    requires
        s.well_formed(),
    ensures
        s.write(w, storage_scheme).0.well_formed(),
{
    match (w, storage_scheme) {
        (Write::Insert { new, created_now, modified_now }, MerchantStorageScheme::RedisKv) => {
            let key = partition_key(new.merchant_id@, new.payment_id@);
            let field = attempt_field(new.attempt_id@);
            let created = PaymentAttempt::created_from(new, created_now, modified_now);
            let entry = attempt_lookup(key, new.merchant_id@, new.attempt_id@, new.attempt_id@);
            let s1 = s.respond(StoreRequestView::SetFieldIfAbsent { key, field, value: created }).0;
            lemma_respond_keeps_well_formed(
                s,
                StoreRequestView::SetFieldIfAbsent { key, field, value: created },
            );
            let s2 = s1.respond(StoreRequestView::InsertLookup { entry }).0;
            lemma_respond_keeps_well_formed(s1, StoreRequestView::InsertLookup { entry });
            let after = s.write(w, storage_scheme).0;
            assert(after.cache == s1.cache || after.cache == s.cache);
            assert(after.lookups == s2.lookups || after.lookups == s.lookups);
        },
        (Write::Update { this, update, now }, MerchantStorageScheme::RedisKv) => {
            let updated = merged(this, update, now);
            let key = partition_key(this.merchant_id@, this.payment_id@);
            let field = attempt_field(updated.attempt_id@);
            let set = StoreRequestView::SetField { key, field, value: updated };
            let s1 = s.respond(set).0;
            lemma_respond_keeps_well_formed(s, set);
            let (s2, _) = s1.index_identifier(
                this,
                updated,
                this.connector_transaction_id,
                updated.connector_transaction_id,
            );
            if identifier_learned(this.connector_transaction_id, updated.connector_transaction_id) {
                let entry = attempt_lookup(
                    key,
                    this.merchant_id@,
                    updated.attempt_id@,
                    updated.connector_transaction_id.unwrap()@,
                );
                lemma_respond_keeps_well_formed(s1, StoreRequestView::InsertLookup { entry });
                assert(s2 == s1.respond(StoreRequestView::InsertLookup { entry }).0);
            }
            let (s3, _) = s2.index_identifier(
                this,
                updated,
                this.preprocessing_step_id,
                updated.preprocessing_step_id,
            );
            if identifier_learned(this.preprocessing_step_id, updated.preprocessing_step_id) {
                let entry = attempt_lookup(
                    key,
                    this.merchant_id@,
                    updated.attempt_id@,
                    updated.preprocessing_step_id.unwrap()@,
                );
                lemma_respond_keeps_well_formed(s2, StoreRequestView::InsertLookup { entry });
                assert(s3 == s2.respond(StoreRequestView::InsertLookup { entry }).0);
            }
            let after = s.write(w, storage_scheme).0;
            assert(after.cache == s1.cache || after.cache == s.cache);
            assert(after.lookups == s3.lookups || after.lookups == s2.lookups || after.lookups
                == s.lookups);
        },
        _ => {},
    }
}

/// The intents of a partition.
pub struct InPartition {
    pub partition: Partition,
}

impl Criterion<DrainEntry> for InPartition {
    open spec fn accepts(&self, entry: DrainEntry) -> bool {
        entry.partition == self.partition
    }
}

/// The writes to a partition.
pub struct WritesTo {
    pub partition: Partition,
}

impl Criterion<Write> for WritesTo {
    open spec fn accepts(&self, w: Write) -> bool {
        w.partition() == self.partition
    }
}

proof fn lemma_intents_of_a_partition(writes: Seq<Write>, partition: Partition)
    ensures
        all(intents_of(writes), InPartition { partition }) == intents_of(
            all(writes, WritesTo { partition }),
        ),
    decreases writes.len(),
{
    if writes.len() == 0 {
        assert(intents_of(Seq::<Write>::empty()) =~= Seq::empty());
        assert(intents_of(writes) =~= Seq::empty());
    } else {
        lemma_intents_of_a_partition(writes.drop_last(), partition);
        let w = writes.last();
        let kept = all(writes.drop_last(), WritesTo { partition });
        assert(intents_of(writes).drop_last() =~= intents_of(writes.drop_last()));
        assert(intents_of(writes).last() == (DrainEntry {
            partition: w.partition(),
            intent: w.intent(),
        }));
        if w.partition() == partition {
            assert(intents_of(kept.push(w)) =~= intents_of(kept).push(
                DrainEntry { partition: w.partition(), intent: w.intent() },
            ));
        }
    }
}

/// Drain ordering, within a partition. For every sequence of cache-first
/// writes and every partition, the intents that the writes emitted for the
/// partition are those of the writes to the partition that succeeded, in
/// the order of the writes.
pub proof fn law_partition_order(s: BackendState, writes: Seq<Write>, partition: Partition)
    ensures
        ({
            let after = s.written(writes, MerchantStorageScheme::RedisKv);
            let accepted = s.accepted(writes, MerchantStorageScheme::RedisKv);
            let emitted = after.drain.subrange(s.drain.len() as int, after.drain.len() as int);
            all(emitted, InPartition { partition }) == intents_of(
                all(accepted, WritesTo { partition }),
            )
        }),
{
    let after = s.written(writes, MerchantStorageScheme::RedisKv);
    let accepted = s.accepted(writes, MerchantStorageScheme::RedisKv);
    law_drain_holds_accepted_writes_in_order(s, writes);
    lemma_intents_of_a_partition(accepted, partition);
    assert(after.drain.subrange(s.drain.len() as int, after.drain.len() as int) =~= intents_of(
        accepted,
    ));
}

} // verus!
