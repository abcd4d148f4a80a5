//! Facts about what the stores hold after a request.

use crate::domain::PaymentAttempt;
use crate::search::{
    first, found, lemma_first_after_push, lemma_first_same_hits, lemma_found_has_first,
    Criterion,
};
use crate::memory::state::{BackendState, CacheSlot, LookupId, SlotAddress};
use crate::reverse_lookup::LookupEntry;
use crate::router::protocol::StoreRequestView;
use vstd::prelude::*;

verus! {

impl BackendState {
    /// No field of a hash has two slots, and no identifier two entries.
    pub open spec fn well_formed(self) -> bool {
        &&& forall|i: int, j: int|
            0 <= i < j < self.cache.len() ==> !(#[trigger] self.cache[i].key
                == #[trigger] self.cache[j].key && self.cache[i].field == self.cache[j].field)
        &&& forall|i: int, j: int|
            0 <= i < j < self.lookups.len() ==> #[trigger] self.lookups[i].lookup_id
                != #[trigger] self.lookups[j].lookup_id
    }
}

/// A field added to a cache that did not hold it is then held with the
/// value given, and every other field is held as before.
pub proof fn lemma_cached_after_push(
    s: BackendState,
    key: Seq<char>,
    field: Seq<char>,
    value: PaymentAttempt,
    other_key: Seq<char>,
    other_field: Seq<char>,
)
    requires
        s.cached(key, field) is None,
    ensures
        ({
            let next = BackendState {
                cache: s.cache.push(CacheSlot { key, field, value }),
                ..s
            };
            &&& next.cached(key, field) == Some(value)
            &&& (other_key != key || other_field != field) ==> next.cached(other_key, other_field)
                == s.cached(other_key, other_field)
        }),
{
    let slot = CacheSlot { key, field, value };
    lemma_first_after_push(s.cache, SlotAddress { key, field }, slot);
    lemma_first_after_push(s.cache, SlotAddress { key: other_key, field: other_field }, slot);
    if other_key != key || other_field != field {
        let other = SlotAddress { key: other_key, field: other_field };
        if found(s.cache, other) {
            lemma_found_has_first(s.cache, other);
        }
    }
}

/// A field set in the cache is then held with the value given, and every
/// other field is held as before.
pub proof fn lemma_cached_after_set(
    s: BackendState,
    key: Seq<char>,
    field: Seq<char>,
    value: PaymentAttempt,
    other_key: Seq<char>,
    other_field: Seq<char>,
)
    ensures
        ({
            let next = BackendState { cache: s.cache_with(key, field, value), ..s };
            &&& next.cached(key, field) == Some(value)
            &&& (other_key != key || other_field != field) ==> next.cached(other_key, other_field)
                == s.cached(other_key, other_field)
        }),
{
    let address = SlotAddress { key, field };
    let other = SlotAddress { key: other_key, field: other_field };
    let slot = CacheSlot { key, field, value };
    if found(s.cache, address) {
        lemma_found_has_first(s.cache, address);
        let at = first(s.cache, address);
        let cache = s.cache.update(at, slot);
        assert(address.accepts(s.cache[at]));
        assert(cache[at] == slot);
        assert forall|j: int| 0 <= j < cache.len() implies address.accepts(s.cache[j])
            == address.accepts(cache[j]) by {
            if j != at {
                assert(cache[j] == s.cache[j]);
            }
        }
        lemma_first_same_hits(s.cache, cache, address);
        if other_key != key || other_field != field {
            assert forall|j: int| 0 <= j < cache.len() implies other.accepts(s.cache[j])
                == other.accepts(cache[j]) by {
                if j != at {
                    assert(cache[j] == s.cache[j]);
                }
            }
            lemma_first_same_hits(s.cache, cache, other);
            if found(s.cache, other) {
                lemma_found_has_first(s.cache, other);
                let there = first(s.cache, other);
                assert(other.accepts(s.cache[there]));
                assert(there != at);
                assert(cache[there] == s.cache[there]);
            }
        }
    } else {
        lemma_cached_after_push(s, key, field, value, other_key, other_field);
    }
}

/// An entry added to an index that had none for the identifier is then the
/// entry of the identifier, and every other identifier has the entry it had.
pub proof fn lemma_indexed_after_push(s: BackendState, entry: LookupEntry, other: Seq<char>)
    requires
        s.indexed(entry.lookup_id) is None,
    ensures
        ({
            let next = BackendState { lookups: s.lookups.push(entry), ..s };
            &&& next.indexed(entry.lookup_id) == Some(entry)
            &&& other != entry.lookup_id ==> next.indexed(other) == s.indexed(other)
        }),
{
    lemma_first_after_push(s.lookups, LookupId { lookup_id: entry.lookup_id }, entry);
    lemma_first_after_push(s.lookups, LookupId { lookup_id: other }, entry);
    if other != entry.lookup_id {
        let id = LookupId { lookup_id: other };
        if found(s.lookups, id) {
            lemma_found_has_first(s.lookups, id);
        }
    }
}

/// Requests keep the stores well-formed.
pub proof fn lemma_respond_keeps_well_formed(s: BackendState, request: StoreRequestView)
    requires
        s.well_formed(),
    ensures
        s.respond(request).0.well_formed(),
{
    let next = s.respond(request).0;
    match request {
        StoreRequestView::SetFieldIfAbsent { key, field, value } => {
            if s.cache_online && s.cached(key, field) is None {
                let address = SlotAddress { key, field };
                assert forall|i: int, j: int| 0 <= i < j < next.cache.len() implies !(
                #[trigger] next.cache[i].key == #[trigger] next.cache[j].key && next.cache[i].field
                    == next.cache[j].field) by {
                    if j == s.cache.len() {
                        assert(!address.accepts(s.cache[i]));
                    }
                }
            }
        },
        StoreRequestView::SetField { key, field, value } => {
            if s.cache_online {
                let address = SlotAddress { key, field };
                if found(s.cache, address) {
                    lemma_found_has_first(s.cache, address);
                    let at = first(s.cache, address);
                    assert forall|i: int, j: int| 0 <= i < j < next.cache.len() implies !(
                    #[trigger] next.cache[i].key == #[trigger] next.cache[j].key
                        && next.cache[i].field == next.cache[j].field) by {
                        assert(s.cache[at].key == key && s.cache[at].field == field);
                        assert(next.cache[i].key == s.cache[i].key);
                        assert(next.cache[j].key == s.cache[j].key);
                        assert(next.cache[i].field == s.cache[i].field);
                        assert(next.cache[j].field == s.cache[j].field);
                    }
                } else {
                    assert forall|i: int, j: int| 0 <= i < j < next.cache.len() implies !(
                    #[trigger] next.cache[i].key == #[trigger] next.cache[j].key
                        && next.cache[i].field == next.cache[j].field) by {
                        if j == s.cache.len() {
                            assert(!address.accepts(s.cache[i]));
                        }
                    }
                }
            }
        },
        StoreRequestView::InsertLookup { entry } => {
            if s.database_online && s.indexed(entry.lookup_id) is None {
                let id = LookupId { lookup_id: entry.lookup_id };
                assert forall|i: int, j: int| 0 <= i < j < next.lookups.len() implies (
                #[trigger] next.lookups[i]).lookup_id != (#[trigger] next.lookups[j]).lookup_id by {
                    if j == s.lookups.len() {
                        assert(!id.accepts(s.lookups[i]));
                    }
                }
            }
        },
        _ => {},
    }
}

/// In well-formed stores, a field that was evicted is not held.
pub proof fn lemma_evicted_is_absent(s: BackendState, key: Seq<char>, field: Seq<char>)
    requires
        s.well_formed(),
    ensures
        ({
            let next = BackendState { cache: s.cache_without(key, field), ..s };
            &&& next.cached(key, field) is None
            &&& next.well_formed()
        }),
{
    let address = SlotAddress { key, field };
    let next = BackendState { cache: s.cache_without(key, field), ..s };
    if found(s.cache, address) {
        lemma_found_has_first(s.cache, address);
        let at = first(s.cache, address);
        assert forall|j: int| 0 <= j < next.cache.len() implies !#[trigger] address.accepts(
            next.cache[j],
        ) by {
            if j < at {
                assert(next.cache[j] == s.cache[j]);
                assert(!address.accepts(s.cache[j]));
            } else {
                assert(next.cache[j] == s.cache[j + 1]);
                assert(s.cache[at].key == key && s.cache[at].field == field);
            }
        }
        assert forall|i: int, j: int| 0 <= i < j < next.cache.len() implies !(
        #[trigger] next.cache[i].key == #[trigger] next.cache[j].key && next.cache[i].field
            == next.cache[j].field) by {
            let si = if i < at { i } else { i + 1 };
            let sj = if j < at { j } else { j + 1 };
            assert(next.cache[i] == s.cache[si]);
            assert(next.cache[j] == s.cache[sj]);
        }
    }
}

} // verus!
