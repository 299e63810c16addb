//! Character-level helpers for the strings the gatekeeper handles.

use vstd::prelude::*;

verus! {

/// `String::push` appends exactly one character to the end of the string.
pub assume_specification[ String::push ](s: &mut String, c: char)
    ensures
        final(s)@ == old(s)@.push(c),
;

/// The characters of `s`, in order.
pub fn chars_of(s: &str) -> (v: Vec<char>)
    ensures
        v@ == s@,
{
    let mut v: Vec<char> = Vec::new();
    for c in it: s.chars()
        invariant
            it.seq() == s@,
            v@ == s@.take(it.index()),
    {
        v.push(c);
    }
    v
}

/// Whether two pieces of text hold the same characters.
pub fn same_text(a: &str, b: &str) -> (r: bool)
    ensures
        r == (a@ == b@),
{
    a.to_owned() == b.to_owned()
}

/// A list of key/value pairs by their characters.
pub open spec fn pairs_of(pairs: Seq<(String, String)>) -> Seq<(Seq<char>, Seq<char>)> {
    Seq::new(pairs.len(), |i: int| (pairs[i].0@, pairs[i].1@))
}

/// The value of the first pair whose key is `key`.
pub open spec fn first_value(pairs: Seq<(Seq<char>, Seq<char>)>, key: Seq<char>) -> Option<
    Seq<char>,
>
    decreases pairs.len(),
{
    if pairs.len() == 0 {
        None
    } else if pairs[0].0 == key {
        Some(pairs[0].1)
    } else {
        first_value(pairs.skip(1), key)
    }
}

/// Looks `key` up in a list of pairs; the first pair with that key counts.
pub fn find_value<'a>(pairs: &'a Vec<(String, String)>, key: &str) -> (r: Option<&'a String>)
    ensures
        match r {
            Some(v) => first_value(pairs_of(pairs@), key@) == Some(v@),
            None => first_value(pairs_of(pairs@), key@) is None,
        },
{
    let ghost all = pairs_of(pairs@);
    let mut i: usize = 0;
    proof {
        assert(all.skip(0) =~= all);
    }
    while i < pairs.len()
        invariant
            i <= pairs.len(),
            all == pairs_of(pairs@),
            first_value(all, key@) == first_value(all.skip(i as int), key@),
        decreases pairs.len() - i,
    {
        proof {
            assert(all.skip(i as int).skip(1) =~= all.skip(i + 1));
        }
        if same_text(pairs[i].0.as_str(), key) {
            return Some(&pairs[i].1);
        }
        i += 1;
    }
    None
}

/// Whether a list of texts holds `item`.
pub fn has_text(items: &Vec<String>, item: &str) -> (r: bool)
    ensures
        r == items.deep_view().contains(item@),
{
    let mut i: usize = 0;
    while i < items.len()
        invariant
            i <= items.len(),
            forall|j: int| 0 <= j < i ==> items.deep_view()[j] != item@,
        decreases items.len() - i,
    {
        if same_text(items[i].as_str(), item) {
            assert(items.deep_view()[i as int] == item@);
            return true;
        }
        i += 1;
    }
    false
}

/// A copy of a list of texts.
pub fn clone_texts(items: &Vec<String>) -> (copy: Vec<String>)
    ensures
        copy.deep_view() == items.deep_view(),
{
    let mut copy: Vec<String> = Vec::new();
    let mut i: usize = 0;
    while i < items.len()
        invariant
            i <= items.len(),
            copy@.len() == i,
            forall|j: int| 0 <= j < i ==> copy@[j]@ == items@[j]@,
        decreases items.len() - i,
    {
        copy.push(items[i].clone());
        i += 1;
    }
    assert(copy.deep_view() =~= items.deep_view());
    copy
}

/// Whether `c` is a decimal digit.
pub open spec fn is_digit(c: char) -> bool {
    '0' <= c && c <= '9'
}

/// Whether `s` is a run of one or more decimal digits.
pub open spec fn is_decimal(s: Seq<char>) -> bool {
    s.len() > 0 && forall|i: int| 0 <= i < s.len() ==> is_digit(#[trigger] s[i])
}

/// The number that the digits of `s` write in base ten.
pub open spec fn decimal_value(s: Seq<char>) -> int
    decreases s.len(),
{
    if s.len() == 0 {
        0
    } else {
        decimal_value(s.drop_last()) * 10 + (s.last() as int - '0' as int)
    }
}

proof fn lemma_decimal_grows(s: Seq<char>, i: int)
    requires
        forall|j: int| 0 <= j < s.len() ==> is_digit(#[trigger] s[j]),
        0 <= i <= s.len(),
    ensures
        0 <= decimal_value(s.take(i)) <= decimal_value(s),
    decreases s.len() - i,
{
    if i == s.len() {
        assert(s.take(i) =~= s);
        lemma_decimal_nonnegative(s);
    } else {
        lemma_decimal_grows(s, i + 1);
        let longer = s.take(i + 1);
        assert(longer.drop_last() =~= s.take(i));
        assert(is_digit(s[i]));
        assert(longer.last() == s[i]);
        lemma_decimal_nonnegative(s.take(i));
    }
}

proof fn lemma_decimal_nonnegative(s: Seq<char>)
    requires
        forall|j: int| 0 <= j < s.len() ==> is_digit(#[trigger] s[j]),
    ensures
        0 <= decimal_value(s),
    decreases s.len(),
{
    if s.len() > 0 {
        let shorter = s.drop_last();
        assert forall|j: int| 0 <= j < shorter.len() implies is_digit(#[trigger] shorter[j]) by {
            assert(shorter[j] == s[j]);
        }
        lemma_decimal_nonnegative(shorter);
        assert(is_digit(s[s.len() - 1]));
    }
}

/// Reads `s` as a decimal number: one or more digits and nothing else, with a
/// value that fits in 64 bits.
pub fn parse_decimal(s: &str) -> (r: Option<u64>)
    ensures
        match r {
            Some(n) => is_decimal(s@) && n == decimal_value(s@),
            None => !is_decimal(s@) || decimal_value(s@) > u64::MAX,
        },
{
    let digits = chars_of(s);
    if digits.len() == 0 {
        return None;
    }
    let mut acc: u64 = 0;
    let mut i: usize = 0;
    proof {
        assert(digits@.take(0) =~= Seq::<char>::empty());
    }
    while i < digits.len()
        invariant
            i <= digits.len(),
            digits@ == s@,
            forall|j: int| 0 <= j < i ==> is_digit(#[trigger] digits@[j]),
            acc == decimal_value(digits@.take(i as int)),
        decreases digits.len() - i,
    {
        let c = digits[i];
        if c < '0' || c > '9' {
            assert(!is_digit(s@[i as int]));
            return None;
        }
        let d: u64 = (c as u32 - '0' as u32) as u64;
        proof {
            let longer = digits@.take(i + 1);
            assert(longer.drop_last() =~= digits@.take(i as int));
            assert(longer.last() == c);
            assert(decimal_value(longer) == acc * 10 + d);
        }
        if acc > (u64::MAX - d) / 10 {
            proof {
                if is_decimal(s@) {
                    lemma_decimal_grows(s@, i + 1);
                }
            }
            return None;
        }
        acc = acc * 10 + d;
        i += 1;
    }
    proof {
        assert(digits@.take(i as int) =~= s@);
    }
    Some(acc)
}

} // verus!
