//! Small text helpers shared by the command rules: comparing texts, rendering
//! numbers and composing endpoint paths and query strings.

use vstd::prelude::*;
use vstd::string::*;

verus! {

/// View of an optional text.
pub open spec fn text_view(text: Option<String>) -> Option<Seq<char>> {
    match text {
        Some(t) => Some(t@),
        None => None,
    }
}

/// The character of a decimal digit.
pub open spec fn digit_char(digit: int) -> char {
    if digit == 0 {
        '0'
    } else if digit == 1 {
        '1'
    } else if digit == 2 {
        '2'
    } else if digit == 3 {
        '3'
    } else if digit == 4 {
        '4'
    } else if digit == 5 {
        '5'
    } else if digit == 6 {
        '6'
    } else if digit == 7 {
        '7'
    } else if digit == 8 {
        '8'
    } else {
        '9'
    }
}

/// The decimal digits of a natural number, most significant first, without
/// leading zeros; zero is the single digit `0`.
pub open spec fn decimal_digits(n: nat) -> Seq<char>
    decreases n,
{
    if n < 10 {
        seq![digit_char(n as int)]
    } else {
        decimal_digits(n / 10).push(digit_char((n % 10) as int))
    }
}

/// The decimal rendering of an integer: its digits, after a `-` when it is
/// negative.
pub open spec fn decimal(n: int) -> Seq<char> {
    if n < 0 {
        seq!['-'] + decimal_digits((-n) as nat)
    } else {
        decimal_digits(n as nat)
    }
}

/// Calls `i64::to_string`, which renders the number in decimal: a `-` for a
/// negative number, then the digits without leading zeros.
#[verifier::external_body]
pub(crate) fn i64_to_string(n: i64) -> (text: String)
    ensures
        text@ == decimal(n as int),
{
    n.to_string()
}

/// True when `pattern` occurs in `text` as a run of consecutive characters.
pub open spec fn occurs_in(pattern: Seq<char>, text: Seq<char>) -> bool {
    exists|start: int|
        0 <= start && start + pattern.len() <= text.len() && #[trigger] text.subrange(
            start,
            start + pattern.len(),
        ) == pattern
}

/// Calls `str::contains` with a text as the pattern, which tells whether the
/// pattern matches a sub-slice of the text.
#[verifier::external_body]
pub(crate) fn str_contains(text: &str, pattern: &str) -> (found: bool)
    ensures
        found == occurs_in(pattern@, text@),
{
    text.contains(pattern)
}

/// Tells whether two texts hold the same characters.
pub fn same_text(a: &str, b: &str) -> (same: bool)
    ensures
        same == (a@ == b@),
{
    let left = String::from_str(a);
    let right = String::from_str(b);
    left == right
}

/// `prefix` followed by `tail`.
pub fn prefixed(prefix: &str, tail: &str) -> (text: String)
    ensures
        text@ == prefix@ + tail@,
{
    String::from_str(prefix).concat(tail)
}

/// An endpoint path around one identifier: `prefix`, the identifier in
/// decimal, `suffix`.
pub fn path_with_id(prefix: &str, id: i64, suffix: &str) -> (path: String)
    ensures
        path@ == prefix@ + decimal(id as int) + suffix@,
{
    let number = i64_to_string(id);
    String::from_str(prefix).concat(number.as_str()).concat(suffix)
}

/// An endpoint path around two identifiers: `prefix`, the first identifier,
/// `middle`, the second identifier.
pub fn path_with_ids(prefix: &str, first: i64, middle: &str, second: i64) -> (path: String)
    ensures
        path@ == prefix@ + decimal(first as int) + middle@ + decimal(second as int),
{
    let a = i64_to_string(first);
    let b = i64_to_string(second);
    String::from_str(prefix).concat(a.as_str()).concat(middle).concat(b.as_str())
}

/// A key with its value: one pair of a query string, one member of a payload.
#[derive(Debug)]
pub struct KeyValue {
    pub key: String,
    pub value: String,
}

/// The keys and values of a list of pairs.
pub open spec fn pairs_of(params: Seq<KeyValue>) -> Seq<(Seq<char>, Seq<char>)> {
    params.map_values(|p: KeyValue| (p.key@, p.value@))
}

/// The pair for an optional text: one pair when the text is there, none otherwise.
pub open spec fn text_filter(key: Seq<char>, value: Option<String>) -> Seq<(Seq<char>, Seq<char>)> {
    match value {
        Some(v) => seq![(key, v@)],
        None => seq![],
    }
}

/// The pair for an optional identifier: one pair, with the identifier in
/// decimal, when it is there, none otherwise.
pub open spec fn id_filter(key: Seq<char>, id: Option<i32>) -> Seq<(Seq<char>, Seq<char>)> {
    match id {
        Some(n) => seq![(key, decimal(n as int))],
        None => seq![],
    }
}

/// Appends the pair for an optional text.
pub fn push_text(params: &mut Vec<KeyValue>, key: &str, value: Option<String>)
    ensures
        pairs_of(final(params)@) == pairs_of(old(params)@) + text_filter(key@, value),
{
    match value {
        Some(v) => {
            params.push(KeyValue { key: String::from_str(key), value: v });
            assert(pairs_of(params@) =~= pairs_of(old(params)@) + text_filter(key@, value));
        },
        None => {
            assert(pairs_of(params@) =~= pairs_of(old(params)@) + text_filter(key@, value));
        },
    }
}

/// Appends the pair for an optional identifier.
pub fn push_id(params: &mut Vec<KeyValue>, key: &str, id: Option<i32>)
    ensures
        pairs_of(final(params)@) == pairs_of(old(params)@) + id_filter(key@, id),
{
    match id {
        Some(n) => {
            params.push(KeyValue { key: String::from_str(key), value: i64_to_string(n as i64) });
            assert(pairs_of(params@) =~= pairs_of(old(params)@) + id_filter(key@, id));
        },
        None => {
            assert(pairs_of(params@) =~= pairs_of(old(params)@) + id_filter(key@, id));
        },
    }
}

/// The pairs joined by `&`, each as `key=value`.
pub open spec fn joined_pairs(pairs: Seq<(Seq<char>, Seq<char>)>) -> Seq<char>
    decreases pairs.len(),
{
    if pairs.len() == 0 {
        Seq::<char>::empty()
    } else if pairs.len() == 1 {
        pairs[0].0 + "="@ + pairs[0].1
    } else {
        joined_pairs(pairs.drop_last()) + "&"@ + pairs.last().0 + "="@ + pairs.last().1
    }
}

/// The query string for the pairs: empty without pairs, else `?` and the
/// joined pairs.
pub open spec fn query_string_of(pairs: Seq<(Seq<char>, Seq<char>)>) -> Seq<char> {
    if pairs.len() == 0 {
        Seq::<char>::empty()
    } else {
        "?"@ + joined_pairs(pairs)
    }
}

/// Renders the query string for the pairs, in their order.
pub fn query_string(params: &Vec<KeyValue>) -> (text: String)
    ensures
        text@ == query_string_of(pairs_of(params@)),
{
    let ghost all = pairs_of(params@);
    let mut text = String::new();
    let mut i: usize = 0;
    while i < params.len()
        invariant
            0 <= i <= params.len(),
            all == pairs_of(params@),
            text@ == query_string_of(all.take(i as int)),
        decreases params.len() - i,
    {
        let ghost before = all.take(i as int);
        let ghost after = all.take(i as int + 1);
        proof {
            assert(after.drop_last() =~= before);
            assert(after.last() == (params@[i as int].key@, params@[i as int].value@));
        }
        if i == 0 {
            text.append("?");
        } else {
            text.append("&");
        }
        text.append(params[i].key.as_str());
        text.append("=");
        text.append(params[i].value.as_str());
        proof {
            if i == 0 {
                assert(text@ =~= "?"@ + (after[0].0 + "="@ + after[0].1));
            } else {
                assert(text@ =~= "?"@ + (joined_pairs(before) + "&"@ + after.last().0 + "="@
                    + after.last().1));
            }
        }
        i = i + 1;
    }
    proof {
        assert(all.take(params.len() as int) =~= all);
    }
    text
}

} // verus!
