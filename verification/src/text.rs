//! String helpers: equality on string slices and the underscore-joined
//! identifiers used as cache keys and index keys.

use vstd::prelude::*;
use vstd::string::{StrSliceExecFns, StringExecFns};

verus! {

/// `str`'s `PartialEq::eq` compares the two slices character by character.
pub assume_specification[ <str as PartialEq>::eq ](a: &str, b: &str) -> (r: bool)
    ensures
        r == (a@ == b@),
;

/// `a`, an underscore, then `b`.
pub open spec fn joined(a: Seq<char>, b: Seq<char>) -> Seq<char> {
    a + seq!['_'] + b
}

/// `prefix` followed by `rest`.
pub open spec fn prefixed(prefix: Seq<char>, rest: Seq<char>) -> Seq<char> {
    prefix + rest
}

/// Joins two texts with an underscore.
pub fn join_with_underscore(a: &str, b: &str) -> (r: String)
    ensures
        r@ == joined(a@, b@),
{
    proof {
        reveal_strlit("_");
    }
    let mut s = String::from_str(a);
    s.append("_");
    s.append(b);
    assert("_"@ =~= seq!['_']);
    s
}

/// Puts `prefix` before `rest`.
pub fn with_prefix(prefix: &str, rest: &str) -> (r: String)
    ensures
        r@ == prefixed(prefix@, rest@),
{
    let mut s = String::from_str(prefix);
    s.append(rest);
    s
}

/// Copies an optional text.
pub fn clone_text(v: &Option<String>) -> (r: Option<String>)
    ensures
        r == *v,
{
    match v {
        Some(s) => Some(s.clone()),
        None => None,
    }
}

/// Copies an optional text that may itself be absent.
pub fn clone_nested_text(v: &Option<Option<String>>) -> (r: Option<Option<String>>)
    ensures
        r == *v,
{
    match v {
        Some(inner) => Some(clone_text(inner)),
        None => None,
    }
}

/// Two joined identifiers agree exactly when their parts agree, provided the
/// first parts have the same length. Without that proviso `("a_b", "c")` and
/// `("a", "b_c")` join to the same text.
pub proof fn lemma_joined_injective(a1: Seq<char>, b1: Seq<char>, a2: Seq<char>, b2: Seq<char>)
    requires
        a1.len() == a2.len(),
        joined(a1, b1) == joined(a2, b2),
    ensures
        a1 == a2,
        b1 == b2,
{
    let j1 = joined(a1, b1);
    let j2 = joined(a2, b2);
    assert(j1.len() == a1.len() + 1 + b1.len());
    assert(j2.len() == a2.len() + 1 + b2.len());
    assert forall|i: int| 0 <= i < a1.len() implies a1[i] == a2[i] by {
        assert(j1[i] == a1[i]);
        assert(j2[i] == a2[i]);
    }
    assert(a1 =~= a2);
    assert forall|i: int| 0 <= i < b1.len() implies b1[i] == b2[i] by {
        assert(j1[a1.len() + 1 + i] == b1[i]);
        assert(j2[a2.len() + 1 + i] == b2[i]);
    }
    assert(b1 =~= b2);
}

/// A joined identifier determines its second part once the first is fixed.
pub proof fn lemma_joined_same_head(a: Seq<char>, b1: Seq<char>, b2: Seq<char>)
    ensures
        joined(a, b1) == joined(a, b2) <==> b1 == b2,
{
    if joined(a, b1) == joined(a, b2) {
        lemma_joined_injective(a, b1, a, b2);
    }
}

/// A prefixed text determines what follows the prefix.
pub proof fn lemma_prefixed_injective(p: Seq<char>, r1: Seq<char>, r2: Seq<char>)
    ensures
        prefixed(p, r1) == prefixed(p, r2) <==> r1 == r2,
{
    if prefixed(p, r1) == prefixed(p, r2) {
        let x1 = prefixed(p, r1);
        let x2 = prefixed(p, r2);
        assert(x1.len() == p.len() + r1.len());
        assert(x2.len() == p.len() + r2.len());
        assert forall|i: int| 0 <= i < r1.len() implies r1[i] == r2[i] by {
            assert(x1[p.len() + i] == r1[i]);
            assert(x2[p.len() + i] == r2[i]);
        }
        assert(r1 =~= r2);
    }
}

/// The value of a decimal digit; nothing for any other character.
pub open spec fn digit_value(c: char) -> Option<nat> {
    if '0' <= c <= '9' {
        Some((c as int - '0' as int) as nat)
    } else {
        None
    }
}

/// The number that a text of decimal digits denotes; nothing if a character
/// is no digit. The empty text denotes zero.
pub open spec fn decimal_value(s: Seq<char>) -> Option<nat>
    decreases s.len(),
{
    if s.len() == 0 {
        Some(0)
    } else {
        match (decimal_value(s.drop_last()), digit_value(s.last())) {
            (Some(v), Some(d)) => Some(v * 10 + d),
            _ => None,
        }
    }
}

/// What a text denotes as a 16-bit unsigned number: the value of its decimal
/// digits, of which there is at least one, after an optional plus sign;
/// nothing if the text has another form or the value does not fit.
pub open spec fn parsed_u16(s: Seq<char>) -> Option<u16> {
    let digits = if s.len() > 0 && s[0] == '+' {
        s.drop_first()
    } else {
        s
    };
    if digits.len() == 0 {
        None
    } else {
        match decimal_value(digits) {
            Some(v) => if v <= u16::MAX {
                Some(v as u16)
            } else {
                None
            },
            None => None,
        }
    }
}

proof fn lemma_decimal_value_grows(s: Seq<char>, n: int)
    requires
        0 <= n <= s.len(),
    ensures
        decimal_value(s) is Some ==> decimal_value(s.take(n)) is Some && decimal_value(
            s.take(n),
        ).unwrap() <= decimal_value(s).unwrap(),
    decreases s.len() - n,
{
    if n == s.len() {
        assert(s.take(n) =~= s);
    } else {
        lemma_decimal_value_grows(s.drop_last(), n);
        assert(s.drop_last().take(n) =~= s.take(n));
    }
}

fn digit(c: char) -> (r: Option<u32>)
    ensures
        match r {
            Some(d) => digit_value(c) == Some(d as nat) && d <= 9,
            None => digit_value(c) is None,
        },
{
    match c {
        '0' => Some(0),
        '1' => Some(1),
        '2' => Some(2),
        '3' => Some(3),
        '4' => Some(4),
        '5' => Some(5),
        '6' => Some(6),
        '7' => Some(7),
        '8' => Some(8),
        '9' => Some(9),
        _ => None,
    }
}

/// Reads a text as a 16-bit unsigned decimal number.
pub fn parse_u16(s: &str) -> (r: Option<u16>)
    ensures
        r == parsed_u16(s@),
{
    let n = s.unicode_len();
    let start: usize = if n > 0 && s.get_char(0) == '+' {
        1
    } else {
        0
    };
    if start == n {
        return None;
    }
    let ghost digits = s@.subrange(start as int, n as int);
    assert(digits =~= if s@.len() > 0 && s@[0] == '+' {
        s@.drop_first()
    } else {
        s@
    });
    let mut value: u32 = 0;
    let mut i: usize = start;
    assert(digits.take(0) =~= Seq::<char>::empty());
    while i < n
        invariant
            start <= i <= n,
            n == s@.len(),
            digits.len() == n - start,
            digits.len() > 0,
            digits == (if s@.len() > 0 && s@[0] == '+' {
                s@.drop_first()
            } else {
                s@
            }),
            forall|k: int| 0 <= k < digits.len() ==> digits[k] == s@[start + k],
            decimal_value(digits.take(i - start)) == Some(value as nat),
            value <= u16::MAX,
        decreases n - i,
    {
        let c = s.get_char(i);
        proof {
            assert(digits.take(i - start + 1).drop_last() =~= digits.take(i - start));
            assert(digits.take(i - start + 1).last() == c);
            lemma_decimal_value_grows(digits, i - start + 1);
        }
        match digit(c) {
            None => {
                return None;
            },
            Some(d) => {
                let next: u32 = value * 10 + d;
                if next > 0xffff {
                    return None;
                }
                value = next;
            },
        }
        i += 1;
    }
    assert(digits.take(n - start) =~= digits);
    Some(value as u16)
}

} // verus!
