//! Looking for the first item of a sequence that meets a criterion.

use vstd::prelude::*;

verus! {

/// A criterion that items of type `T` meet or do not meet.
pub trait Criterion<T> {
    spec fn accepts(&self, item: T) -> bool;
}

/// `i` is the position of the first item of `s` that meets `c`.
pub open spec fn is_first<T, C: Criterion<T>>(s: Seq<T>, c: C, i: int) -> bool {
    &&& 0 <= i < s.len()
    &&& c.accepts(s[i])
    &&& forall|j: int| 0 <= j < i ==> !#[trigger] c.accepts(s[j])
}

/// Some item of `s` meets `c`.
pub open spec fn found<T, C: Criterion<T>>(s: Seq<T>, c: C) -> bool {
    exists|i: int| 0 <= i < s.len() && #[trigger] c.accepts(s[i])
}

/// The position of the first item of `s` that meets `c`, where there is one.
pub open spec fn first<T, C: Criterion<T>>(s: Seq<T>, c: C) -> int {
    choose|i: int| is_first(s, c, i)
}

/// The items of `s` that meet `c`, in their order.
pub open spec fn all<T, C: Criterion<T>>(s: Seq<T>, c: C) -> Seq<T>
    decreases s.len(),
{
    if s.len() == 0 {
        Seq::empty()
    } else if c.accepts(s.last()) {
        all(s.drop_last(), c).push(s.last())
    } else {
        all(s.drop_last(), c)
    }
}

/// The first item that meets the criterion is where `first` says.
pub proof fn lemma_first_is<T, C: Criterion<T>>(s: Seq<T>, c: C, i: int)
    requires
        is_first(s, c, i),
    ensures
        found(s, c),
        first(s, c) == i,
{
    let k = first(s, c);
    assert(is_first(s, c, k));
    if k < i {
        assert(!c.accepts(s[k]));
    }
    if i < k {
        assert(!c.accepts(s[i]));
    }
}

/// Where some item meets the criterion, a first one does.
pub proof fn lemma_found_has_first<T, C: Criterion<T>>(s: Seq<T>, c: C)
    requires
        found(s, c),
    ensures
        is_first(s, c, first(s, c)),
{
    let w = choose|i: int| 0 <= i < s.len() && #[trigger] c.accepts(s[i]);
    lemma_first_upto(s, c, w);
}

proof fn lemma_first_upto<T, C: Criterion<T>>(s: Seq<T>, c: C, w: int)
    requires
        0 <= w < s.len(),
        c.accepts(s[w]),
    ensures
        exists|i: int| is_first(s, c, i),
    decreases w,
{
    if exists|j: int| 0 <= j < w && #[trigger] c.accepts(s[j]) {
        let j = choose|j: int| 0 <= j < w && #[trigger] c.accepts(s[j]);
        lemma_first_upto(s, c, j);
    } else {
        assert(is_first(s, c, w));
    }
}

/// Adding an item at the end keeps the first match where it was, and makes
/// the new item the first match where there was none and it meets the
/// criterion.
pub proof fn lemma_first_after_push<T, C: Criterion<T>>(s: Seq<T>, c: C, item: T)
    ensures
        found(s, c) ==> found(s.push(item), c) && first(s.push(item), c) == first(s, c),
        !found(s, c) && c.accepts(item) ==> found(s.push(item), c) && first(s.push(item), c)
            == s.len(),
        !found(s, c) && !c.accepts(item) ==> !found(s.push(item), c),
{
    let t = s.push(item);
    if found(s, c) {
        lemma_found_has_first(s, c);
        let k = first(s, c);
        assert(t[k] == s[k]);
        assert forall|j: int| 0 <= j < k implies !#[trigger] c.accepts(t[j]) by {
            assert(t[j] == s[j]);
        }
        lemma_first_is(t, c, k);
    } else if c.accepts(item) {
        assert(t[s.len() as int] == item);
        assert forall|j: int| 0 <= j < s.len() implies !#[trigger] c.accepts(t[j]) by {
            assert(t[j] == s[j]);
        }
        lemma_first_is(t, c, s.len() as int);
    } else {
        if found(t, c) {
            let w = choose|i: int| 0 <= i < t.len() && #[trigger] c.accepts(t[i]);
            if w < s.len() {
                assert(t[w] == s[w]);
            } else {
                assert(t[w] == item);
            }
        }
    }
}

/// Two sequences whose items meet the criterion at the same positions have
/// their first match at the same position.
pub proof fn lemma_first_same_hits<T, C: Criterion<T>>(s: Seq<T>, t: Seq<T>, c: C)
    requires
        s.len() == t.len(),
        forall|j: int| 0 <= j < s.len() ==> c.accepts(s[j]) == c.accepts(t[j]),
    ensures
        found(s, c) == found(t, c),
        found(s, c) ==> first(s, c) == first(t, c),
{
    if found(s, c) {
        lemma_found_has_first(s, c);
        let k = first(s, c);
        assert(c.accepts(t[k]));
        assert forall|j: int| 0 <= j < k implies !#[trigger] c.accepts(t[j]) by {
            assert(!c.accepts(s[j]));
        }
        lemma_first_is(t, c, k);
    } else if found(t, c) {
        let w = choose|i: int| 0 <= i < t.len() && #[trigger] c.accepts(t[i]);
        assert(c.accepts(s[w]));
    }
}

} // verus!
