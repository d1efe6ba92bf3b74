//! A plain model of the JSON documents the portal sends back.
//!
//! The portal answers every call with ad-hoc JSON.  The caller parses the
//! body with whatever JSON library it likes and rebuilds the document as a
//! `JsonValue`, a type made of nothing but plain values, so that every rule
//! about a response (field lookup, emptiness sentinels, the numeric `result`
//! code) is stated and proved here.  A number keeps its exact decimal text;
//! nothing in the client's logic ever needs it as a machine float.

use vstd::prelude::*;
use vstd::string::StrSliceExecFns;

verus! {

/// A JSON document: the object keys and field order are kept as they arrived.
#[derive(Debug, PartialEq)]
pub enum JsonValue {
    Null,
    Boolean(bool),
    /// The number's decimal text, exactly as the parser printed it.
    Number(String),
    Str(String),
    Array(Vec<JsonValue>),
    Object(Vec<(String, JsonValue)>),
}

/// The first field of `fields` named `key`, if any.
pub open spec fn spec_get(fields: Seq<(String, JsonValue)>, key: Seq<char>) -> Option<JsonValue>
    decreases fields.len(),
{
    if fields.len() == 0 {
        None
    } else if fields[0].0@ == key {
        Some(fields[0].1)
    } else {
        spec_get(fields.drop_first(), key)
    }
}

/// Field lookup: `None` unless `v` is an object with a field named `key`.
pub open spec fn json_get(v: JsonValue, key: Seq<char>) -> Option<JsonValue> {
    match v {
        JsonValue::Object(fields) => spec_get(fields@, key),
        _ => None,
    }
}

/// An object with no fields: one of the portal's "empty" sentinels.
pub open spec fn spec_is_empty_object(v: JsonValue) -> bool {
    match v {
        JsonValue::Object(fields) => fields@.len() == 0,
        _ => false,
    }
}

/// An array with no elements: the portal's "empty" sentinel for lists.
pub open spec fn spec_is_empty_array(v: JsonValue) -> bool {
    match v {
        JsonValue::Array(items) => items@.len() == 0,
        _ => false,
    }
}

/// The string payload of `v`, if `v` is a JSON string.
pub open spec fn spec_as_str(v: JsonValue) -> Option<Seq<char>> {
    match v {
        JsonValue::Str(s) => Some(s@),
        _ => None,
    }
}

/// The value of `v` as an `i64`, if `v` is a number whose text is a whole
/// number in range.
pub open spec fn spec_as_i64(v: JsonValue) -> Option<i64> {
    match v {
        JsonValue::Number(s) => spec_parse_i64(s@),
        _ => None,
    }
}

impl JsonValue {
    pub fn is_null(&self) -> (r: bool)
        ensures
            r == (self is Null),
    {
        match self {
            JsonValue::Null => true,
            _ => false,
        }
    }

    pub fn is_object(&self) -> (r: bool)
        ensures
            r == (self is Object),
    {
        match self {
            JsonValue::Object(_) => true,
            _ => false,
        }
    }

    pub fn is_array(&self) -> (r: bool)
        ensures
            r == (self is Array),
    {
        match self {
            JsonValue::Array(_) => true,
            _ => false,
        }
    }

    pub fn is_empty_object(&self) -> (r: bool)
        ensures
            r == spec_is_empty_object(*self),
    {
        match self {
            JsonValue::Object(fields) => fields.len() == 0,
            _ => false,
        }
    }

    pub fn is_empty_array(&self) -> (r: bool)
        ensures
            r == spec_is_empty_array(*self),
    {
        match self {
            JsonValue::Array(items) => items.len() == 0,
            _ => false,
        }
    }

    /// Looks a field up by name; `None` when `self` is not an object or has
    /// no field of that name.  When a name repeats, the first wins.
    pub fn get_field<'a>(&'a self, key: &String) -> (r: Option<&'a JsonValue>)
        ensures
            r is Some <==> json_get(*self, key@) is Some,
            r matches Some(j) ==> json_get(*self, key@) == Some(*j),
    {
        match self {
            JsonValue::Object(fields) => {
                let n = fields.len();
                let mut i: usize = 0;
                proof {
                    assert(fields@.skip(0) =~= fields@);
                }
                while i < n
                    invariant
                        i <= n,
                        n == fields@.len(),
                        json_get(*self, key@) == spec_get(fields@, key@),
                        spec_get(fields@, key@) == spec_get(fields@.skip(i as int), key@),
                    decreases n - i,
                {
                    let pair = &fields[i];
                    proof {
                        assert(fields@.skip(i as int)[0] == fields@[i as int]);
                    }
                    if pair.0 == *key {
                        return Some(&fields[i].1);
                    }
                    proof {
                        assert(fields@.skip(i as int).drop_first() =~= fields@.skip(
                            i as int + 1,
                        ));
                    }
                    i += 1;
                }
                proof {
                    assert(fields@.skip(n as int) =~= Seq::<(String, JsonValue)>::empty());
                }
                None
            },
            _ => None,
        }
    }

    /// The string payload, if `self` is a JSON string.
    pub fn as_str<'a>(&'a self) -> (r: Option<&'a String>)
        ensures
            r is Some <==> spec_as_str(*self) is Some,
            r matches Some(s) ==> spec_as_str(*self) == Some(s@),
    {
        match self {
            JsonValue::Str(s) => Some(s),
            _ => None,
        }
    }

    /// The value as an `i64`: `Some` exactly when `self` is a number whose
    /// text is a whole number that fits.
    pub fn as_i64(&self) -> (r: Option<i64>)
        ensures
            r == spec_as_i64(*self),
    {
        match self {
            JsonValue::Number(s) => parse_i64(s.as_str()),
            _ => None,
        }
    }
}

/// A decimal digit.
pub open spec fn is_digit(c: char) -> bool {
    48 <= c as int && c as int <= 57
}

/// The value of one digit.
pub open spec fn digit_val(c: char) -> int {
    c as int - 48
}

pub open spec fn all_digits(s: Seq<char>) -> bool {
    forall|i: int| 0 <= i < s.len() ==> is_digit(#[trigger] s[i])
}

/// The value of a string of digits, most significant first.
pub open spec fn digits_val(s: Seq<char>) -> int
    decreases s.len(),
{
    if s.len() == 0 {
        0
    } else {
        digits_val(s.drop_last()) * 10 + digit_val(s.last())
    }
}

/// Digits as a JSON number writes them: at least one, and no leading zero
/// unless the number is zero itself.
pub open spec fn is_canonical_digits(s: Seq<char>) -> bool {
    &&& s.len() >= 1
    &&& all_digits(s)
    &&& (s.len() > 1 ==> s[0] != '0')
}

/// The text of a whole JSON number: an optional minus sign, then digits.
pub open spec fn is_int_text(s: Seq<char>) -> bool {
    if s.len() >= 1 && s[0] == '-' {
        is_canonical_digits(s.skip(1))
    } else {
        is_canonical_digits(s)
    }
}

/// The mathematical value of a whole JSON number's text.
pub open spec fn int_text_val(s: Seq<char>) -> int {
    if s.len() >= 1 && s[0] == '-' {
        -digits_val(s.skip(1))
    } else {
        digits_val(s)
    }
}

/// What parsing a number's text as an `i64` gives: the value exactly when the
/// text is a whole number in range, `None` otherwise.
pub open spec fn spec_parse_i64(s: Seq<char>) -> Option<i64> {
    if is_int_text(s) && i64::MIN <= int_text_val(s) <= i64::MAX {
        Some(int_text_val(s) as i64)
    } else {
        None
    }
}

/// Ten to the `n`.
pub open spec fn pow10(n: nat) -> int
    decreases n,
{
    if n == 0 {
        1
    } else {
        10 * pow10((n - 1) as nat)
    }
}

proof fn lemma_digits_val_lower(s: Seq<char>)
    requires
        all_digits(s),
        s.len() >= 1,
        s[0] != '0',
    ensures
        digits_val(s) >= pow10((s.len() - 1) as nat),
    decreases s.len(),
{
    if s.len() == 1 {
        reveal_with_fuel(digits_val, 2);
        assert(s.drop_last().len() == 0);
        assert(is_digit(s[0]));
        assert(s.last() == s[0]);
        assert(digit_val(s[0]) >= 1) by {
            assert(s[0] as int != '0' as int);
        }
    } else {
        let t = s.drop_last();
        assert(all_digits(t)) by {
            assert(forall|i: int| 0 <= i < t.len() ==> #[trigger] t[i] == s[i]);
        }
        assert(t[0] == s[0]);
        lemma_digits_val_lower(t);
        assert(is_digit(s.last()));
    }
}

/// Parses the decimal text of a whole number: `Some` exactly when `s` is an
/// optional minus sign followed by canonical digits and the value fits an
/// `i64`.
pub fn parse_i64(s: &str) -> (r: Option<i64>)
    ensures
        r == spec_parse_i64(s@),
{
    let n = s.unicode_len();
    let neg = n >= 1 && s.get_char(0) == '-';
    let start: usize = if neg {
        1
    } else {
        0
    };
    let ghost digits = if neg {
        s@.skip(1)
    } else {
        s@
    };
    if n == start {
        // no digits at all
        return None;
    }
    // every character after the sign must be a digit
    let mut i: usize = start;
    while i < n
        invariant
            start <= i <= n,
            n == s@.len(),
            neg == (n >= 1 && s@[0] == '-'),
            start == (if neg { 1int } else { 0int }),
            digits == (if neg { s@.skip(1) } else { s@ }),
            forall|k: int| start <= k < i ==> is_digit(#[trigger] s@[k]),
        decreases n - i,
    {
        let c = s.get_char(i);
        let cv = c as u32;
        if !(48 <= cv && cv <= 57) {
            proof {
                assert(!is_digit(s@[i as int]));
                assert(digits[i - start] == s@[i as int]);
                assert(!all_digits(digits));
            }
            return None;
        }
        i += 1;
    }
    proof {
        assert(forall|k: int|
            0 <= k < digits.len() ==> #[trigger] digits[k] == s@[k + start]);
        assert(all_digits(digits));
    }
    // a leading zero is only the number zero itself
    if n - start > 1 && s.get_char(start) == '0' {
        proof {
            assert(digits[0] == s@[start as int]);
            assert(!is_canonical_digits(digits));
        }
        return None;
    }
    proof {
        assert(digits[0] == s@[start as int]);
        assert(is_canonical_digits(digits));
        assert(is_int_text(s@));
    }
    // twenty or more digits cannot fit an i64 either way
    if n - start > 19 {
        proof {
            lemma_digits_val_lower(digits);
            assert(pow10(19) == 10_000_000_000_000_000_000) by {
                reveal_with_fuel(pow10, 21);
            }
            assert(digits.len() - 1 >= 19);
            lemma_pow10_mono(19, (digits.len() - 1) as nat);
            assert(digits_val(digits) >= 10_000_000_000_000_000_000);
        }
        return None;
    }
    // accumulate the digits; at most nineteen of them, so a u64 never overflows
    let mut acc: u64 = 0;
    let mut j: usize = start;
    proof {
        assert(s@.subrange(start as int, start as int) =~= Seq::<char>::empty());
    }
    while j < n
        invariant
            start <= j <= n,
            n == s@.len(),
            n - start <= 19,
            neg == (n >= 1 && s@[0] == '-'),
            start == (if neg { 1int } else { 0int }),
            digits == (if neg { s@.skip(1) } else { s@ }),
            all_digits(digits),
            acc == digits_val(s@.subrange(start as int, j as int)),
            acc < pow10((j - start) as nat),
        decreases n - j,
    {
        let c = s.get_char(j);
        let d = (c as u32 - 48) as u64;
        let ghost prefix = s@.subrange(start as int, j as int);
        proof {
            assert(is_digit(s@[j as int])) by {
                assert(digits[j - start] == s@[j as int]);
            }
            assert(pow10((j - start) as nat) <= pow10(18)) by {
                lemma_pow10_mono((j - start) as nat, 18);
            }
            assert(pow10(18) == 1_000_000_000_000_000_000) by {
                reveal_with_fuel(pow10, 20);
            }
        }
        acc = acc * 10 + d;
        proof {
            let prefix2 = s@.subrange(start as int, j as int + 1);
            assert(prefix2.drop_last() =~= prefix);
            assert(prefix2.last() == s@[j as int]);
            assert(acc == digits_val(prefix2));
            assert(pow10(((j + 1) - start) as nat) == 10 * pow10((j - start) as nat));
        }
        j += 1;
    }
    proof {
        assert(s@.subrange(start as int, n as int) =~= digits);
    }
    if neg {
        proof {
            assert(int_text_val(s@) == -digits_val(digits));
        }
        if acc > 9_223_372_036_854_775_808u64 {
            return None;
        } else if acc == 9_223_372_036_854_775_808u64 {
            return Some(i64::MIN);
        } else {
            return Some(-(acc as i64));
        }
    } else {
        proof {
            assert(int_text_val(s@) == digits_val(digits));
        }
        if acc > 9_223_372_036_854_775_807u64 {
            return None;
        } else {
            return Some(acc as i64);
        }
    }
}

proof fn lemma_pow10_pos(n: nat)
    ensures
        pow10(n) >= 1,
    decreases n,
{
    if n > 0 {
        lemma_pow10_pos((n - 1) as nat);
    }
}

proof fn lemma_pow10_mono(a: nat, b: nat)
    requires
        a <= b,
    ensures
        1 <= pow10(a) <= pow10(b),
    decreases b,
{
    lemma_pow10_pos(a);
    if a < b {
        lemma_pow10_mono(a, (b - 1) as nat);
    }
}

} // verus!
