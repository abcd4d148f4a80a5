//! The reverse-lookup index: from a secondary identifier to the place in
//! the cache where the record lives.

use crate::text::{join_with_underscore, joined, prefixed, with_prefix};
use vstd::prelude::*;
use vstd::string::StringExecFns;

verus! {

/// What the index holds for one identifier: the partition key and the field
/// under which the cached record is found, and the kind of record.
pub struct LookupEntry {
    pub lookup_id: Seq<char>,
    pub pk_id: Seq<char>,
    pub sk_id: Seq<char>,
    pub source: Seq<char>,
}

/// An index entry about to be written.
#[derive(Debug, PartialEq)]
pub struct ReverseLookupNew {
    pub lookup_id: String,
    pub pk_id: String,
    pub sk_id: String,
    pub source: String,
}

/// An index entry as stored.
#[derive(Debug, PartialEq)]
pub struct ReverseLookup {
    pub lookup_id: String,
    pub sk_id: String,
    pub pk_id: String,
    pub source: String,
}

impl View for ReverseLookupNew {
    type V = LookupEntry;

    open spec fn view(&self) -> LookupEntry {
        LookupEntry {
            lookup_id: self.lookup_id@,
            pk_id: self.pk_id@,
            sk_id: self.sk_id@,
            source: self.source@,
        }
    }
}

impl View for ReverseLookup {
    type V = LookupEntry;

    open spec fn view(&self) -> LookupEntry {
        LookupEntry {
            lookup_id: self.lookup_id@,
            pk_id: self.pk_id@,
            sk_id: self.sk_id@,
            source: self.source@,
        }
    }
}

impl Clone for ReverseLookup {
    fn clone(&self) -> (r: Self)
        ensures
            r == *self,
    {
        ReverseLookup {
            lookup_id: self.lookup_id.clone(),
            sk_id: self.sk_id.clone(),
            pk_id: self.pk_id.clone(),
            source: self.source.clone(),
        }
    }
}

impl ReverseLookupNew {
    /// The stored form of this entry.
    pub fn into_stored(self) -> (r: ReverseLookup)
        ensures
            r@ == self@,
    {
        ReverseLookup {
            lookup_id: self.lookup_id,
            sk_id: self.sk_id,
            pk_id: self.pk_id,
            source: self.source,
        }
    }
}

/// The cache key of a partition: the merchant and the payment it belongs to.
pub open spec fn partition_key(merchant_id: Seq<char>, payment_id: Seq<char>) -> Seq<char> {
    joined(merchant_id, payment_id)
}

/// The cache field under which an attempt is stored within its partition.
pub open spec fn attempt_field(attempt_id: Seq<char>) -> Seq<char> {
    prefixed("pa_"@, attempt_id)
}

/// The index key for an identifier of a merchant.
pub open spec fn lookup_key(merchant_id: Seq<char>, identifier: Seq<char>) -> Seq<char> {
    joined(merchant_id, identifier)
}

/// The index entry that makes the attempt `attempt_id`, cached under
/// `key`, findable by `identifier`.
pub open spec fn attempt_lookup(
    key: Seq<char>,
    merchant_id: Seq<char>,
    attempt_id: Seq<char>,
    identifier: Seq<char>,
) -> LookupEntry {
    LookupEntry {
        lookup_id: lookup_key(merchant_id, identifier),
        pk_id: key,
        sk_id: attempt_field(attempt_id),
        source: "payment_attempt"@,
    }
}

/// Builds the cache key of a partition.
pub fn make_partition_key(merchant_id: &str, payment_id: &str) -> (r: String)
    ensures
        r@ == partition_key(merchant_id@, payment_id@),
{
    join_with_underscore(merchant_id, payment_id)
}

/// Builds the cache field of an attempt.
pub fn make_attempt_field(attempt_id: &str) -> (r: String)
    ensures
        r@ == attempt_field(attempt_id@),
{
    with_prefix("pa_", attempt_id)
}

/// Builds the index key for an identifier of a merchant.
pub fn make_lookup_key(merchant_id: &str, identifier: &str) -> (r: String)
    ensures
        r@ == lookup_key(merchant_id@, identifier@),
{
    join_with_underscore(merchant_id, identifier)
}

/// Builds the index entry that makes an attempt findable by `identifier`.
pub fn make_attempt_lookup(
    key: &str,
    merchant_id: &str,
    attempt_id: &str,
    identifier: &str,
) -> (r: ReverseLookupNew)
    ensures
        r@ == attempt_lookup(key@, merchant_id@, attempt_id@, identifier@),
{
    ReverseLookupNew {
        lookup_id: make_lookup_key(merchant_id, identifier),
        pk_id: String::from_str(key),
        sk_id: make_attempt_field(attempt_id),
        source: String::from_str("payment_attempt"),
    }
}

/// Two attempts of one partition are cached under different fields exactly
/// when their identifiers differ.
pub proof fn lemma_attempt_field_injective(a: Seq<char>, b: Seq<char>)
    ensures
        attempt_field(a) == attempt_field(b) <==> a == b,
{
    crate::text::lemma_prefixed_injective("pa_"@, a, b);
}

/// For one merchant, two identifiers have the same index key exactly when
/// they are the same identifier.
pub proof fn lemma_lookup_key_injective(merchant_id: Seq<char>, a: Seq<char>, b: Seq<char>)
    ensures
        lookup_key(merchant_id, a) == lookup_key(merchant_id, b) <==> a == b,
{
    crate::text::lemma_joined_same_head(merchant_id, a, b);
}

} // verus!
