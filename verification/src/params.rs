//! Path parameters: the router's table of them, and the reading of a decimal
//! identifier out of one.

use vstd::prelude::*;
use vstd::string::StrSliceExecFns;

verus! {

#[verifier::external_type_specification]
#[verifier::external_body]
pub struct ExParams(router::Params);

/// The entries of a parameter table: each name with its text.
pub uninterp spec fn param_entries(params: router::Params) -> Map<Seq<char>, Seq<char>>;

/// Calls `Params::find`, which looks the key up in the table's map and hands
/// out the text stored under it, or nothing where the key is absent. The text
/// is copied into a `String`.
#[verifier::external_body]
fn find(params: &router::Params, key: &str) -> (found: Option<String>)
    ensures
        found matches Some(text) ==> param_entries(*params).contains_key(key@)
            && param_entries(*params)[key@] == text@,
        found is None ==> !param_entries(*params).contains_key(key@),
{
    params.find(key).map(|text| text.to_string())
}

/// Whether a character is a decimal digit.
pub open spec fn is_digit(c: char) -> bool {
    '0' <= c && c <= '9'
}

/// The value of a decimal digit.
pub open spec fn digit_value(c: char) -> nat {
    (c as u32 - '0' as u32) as nat
}

/// Whether a text is made of decimal digits alone.
pub open spec fn all_digits(s: Seq<char>) -> bool {
    forall|i: int| 0 <= i < s.len() ==> is_digit(#[trigger] s[i])
}

/// The number that a run of decimal digits writes.
pub open spec fn digits_value(s: Seq<char>) -> nat
    decreases s.len(),
{
    if s.len() == 0 {
        0
    } else {
        digits_value(s.drop_last()) * 10 + digit_value(s.last())
    }
}

/// A text without the plus sign that may lead it.
pub open spec fn unsigned_part(s: Seq<char>) -> Seq<char> {
    if s.len() > 0 && s[0] == '+' {
        s.subrange(1, s.len() as int)
    } else {
        s
    }
}

/// The identifier that a text writes: an optional plus sign, then one or more
/// decimal digits whose number fits in 64 bits. Any other text writes none.
pub open spec fn parsed_u64(s: Seq<char>) -> Option<u64> {
    let digits = unsigned_part(s);
    if digits.len() > 0 && all_digits(digits) && digits_value(digits) <= u64::MAX {
        Some(digits_value(digits) as u64)
    } else {
        None
    }
}

/// The text stored under a name, if any.
pub open spec fn text_entry(entries: Map<Seq<char>, Seq<char>>, key: Seq<char>) -> Option<
    Seq<char>,
> {
    if entries.contains_key(key) {
        Some(entries[key])
    } else {
        None
    }
}

/// The identifier stored under a name: none where the name is absent or its
/// text writes no identifier.
pub open spec fn numeric_entry(entries: Map<Seq<char>, Seq<char>>, key: Seq<char>) -> Option<
    u64,
> {
    match text_entry(entries, key) {
        Some(text) => parsed_u64(text),
        None => None,
    }
}

/// A run of digits is worth at least as much as any of its prefixes.
proof fn lemma_prefix_value(s: Seq<char>, n: int)
    requires
        0 <= n <= s.len(),
    ensures
        digits_value(s.subrange(0, n)) <= digits_value(s),
    decreases s.len() - n,
{
    if n == s.len() {
        assert(s.subrange(0, n) =~= s);
    } else {
        lemma_prefix_value(s.drop_last(), n);
        assert(s.drop_last().subrange(0, n) =~= s.subrange(0, n));
    }
}

/// Reads a decimal identifier from a text.
pub fn parse_u64(text: &str) -> (parsed: Option<u64>)
    ensures
        parsed == parsed_u64(text@),
{
    let len: usize = text.unicode_len();
    let mut i: usize = 0;
    if len > 0 && text.get_char(0) == '+' {
        i = 1;
    }
    let start: usize = i;
    if i == len {
        return None;
    }
    let ghost digits = unsigned_part(text@);
    let mut acc: u64 = 0;
    assert(digits.subrange(0, 0) =~= Seq::<char>::empty());
    while i < len
        invariant
            start <= i <= len,
            len == text@.len(),
            digits == unsigned_part(text@),
            digits.len() == len - start,
            forall|j: int| 0 <= j < digits.len() ==> digits[j] == text@[j + start],
            all_digits(digits.subrange(0, i - start)),
            acc == digits_value(digits.subrange(0, i - start)),
        decreases len - i,
    {
        let c: char = text.get_char(i);
        let ghost k: int = i - start;
        let ghost next = digits.subrange(0, k + 1);
        proof {
            assert(next.drop_last() =~= digits.subrange(0, k));
            assert(next.last() == c);
        }
        if !('0' <= c && c <= '9') {
            proof {
                assert(!is_digit(digits[k]));
            }
            return None;
        }
        let d: u64 = (c as u32 - '0' as u32) as u64;
        let grown: Option<u64> = match acc.checked_mul(10) {
            Some(tens) => tens.checked_add(d),
            None => None,
        };
        proof {
            lemma_prefix_value(digits, k + 1);
        }
        match grown {
            Some(value) => {
                acc = value;
            },
            None => {
                return None;
            },
        }
        i = i + 1;
        proof {
            assert forall|j: int| 0 <= j < next.len() implies is_digit(#[trigger] next[j]) by {
                if j < k {
                    assert(next[j] == digits.subrange(0, k)[j]);
                }
            }
        }
    }
    proof {
        assert(digits.subrange(0, len - start) =~= digits);
    }
    Some(acc)
}

/// The text of a path parameter, if the table holds the name.
pub fn text_param(params: &router::Params, key: &str) -> (found: Option<String>)
    ensures
        found matches Some(text) ==> text_entry(param_entries(*params), key@) == Some(text@),
        found is None ==> text_entry(param_entries(*params), key@) is None,
{
    find(params, key)
}

/// The identifier of a path parameter, if the table holds the name and its
/// text writes one.
pub fn numeric_param(params: &router::Params, key: &str) -> (found: Option<u64>)
    ensures
        found == numeric_entry(param_entries(*params), key@),
{
    match find(params, key) {
        Some(text) => parse_u64(text.as_str()),
        None => None,
    }
}

} // verus!
