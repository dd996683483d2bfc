//! Column names. A record's attributes are named `@UserId`; the columns of its
//! table are named `user_id`. This module maps each to the other.

use crate::text::{
    ascii_lower, ascii_upper, char_ascii_lower, char_ascii_upper, char_is_ascii_upper, chars_of,
    is_ascii_lower, is_ascii_upper, is_digit, string_of,
};
use vstd::prelude::*;
use vstd::utf8::{encode_utf8, is_ascii_chars, is_ascii_chars_encode_utf8};

verus! {

/// The column name written by the characters `key`, where `seen_upper` says
/// whether a capital came before them. `@` is dropped. A capital becomes its
/// small letter, with `_` before it unless it is the first capital.
pub open spec fn sanitize_from(key: Seq<char>, seen_upper: bool) -> Seq<char>
    decreases key.len(),
{
    if key.len() == 0 {
        Seq::empty()
    } else if key[0] == '@' {
        sanitize_from(key.skip(1), seen_upper)
    } else if is_ascii_upper(key[0]) {
        if seen_upper {
            seq!['_', ascii_lower(key[0])] + sanitize_from(key.skip(1), true)
        } else {
            seq![ascii_lower(key[0])] + sanitize_from(key.skip(1), true)
        }
    } else {
        seq![key[0]] + sanitize_from(key.skip(1), seen_upper)
    }
}

/// The column name of the attribute `key`: `@UserId` gives `user_id`.
pub open spec fn spec_sanitize_key(key: Seq<char>) -> Seq<char> {
    sanitize_from(key, false)
}

/// The attribute name written by the bytes `b` of a column name, without its
/// leading `@`. `at_start` says whether `b` begins the column name. A `_` that
/// is not the last byte is dropped and the byte after it written as a capital;
/// the first byte is written as a capital; every other byte is written as it is.
pub open spec fn pascal_chars(b: Seq<u8>, at_start: bool) -> Seq<char>
    decreases b.len(),
{
    if b.len() == 0 {
        Seq::empty()
    } else if b[0] == 95 && b.len() > 1 {
        seq![ascii_upper(b[1] as char)] + pascal_chars(b.skip(2), false)
    } else if at_start {
        seq![ascii_upper(b[0] as char)] + pascal_chars(b.skip(1), false)
    } else {
        seq![b[0] as char] + pascal_chars(b.skip(1), false)
    }
}

/// The attribute name of the column whose name has the bytes `b`:
/// `user_id` gives `@UserId`.
pub open spec fn spec_to_pascal_case(b: Seq<u8>) -> Seq<char> {
    seq!['@'] + pascal_chars(b, true)
}

/// The column name of an attribute: `@SomeKey` gives `some_key`.
pub fn sanitize_key(key: &str) -> (r: String)
    ensures
        r@ == spec_sanitize_key(key@),
{
    let k = chars_of(key);
    let mut out: Vec<char> = Vec::new();
    let mut seen_upper = false;
    let mut i: usize = 0;
    assert(k@.skip(0) == k@);
    assert(Seq::<char>::empty() + sanitize_from(k@, false) == sanitize_from(k@, false));
    while i < k.len()
        invariant
            i <= k.len(),
            k@ == key@,
            out@ + sanitize_from(k@.skip(i as int), seen_upper) == spec_sanitize_key(key@),
        decreases k.len() - i,
    {
        let c = k[i];
        let ghost rest = k@.skip(i as int);
        assert(rest.len() > 0 && rest[0] == c);
        assert(rest.skip(1) == k@.skip(i + 1));
        let ghost before = out@;
        if c == '@' {
        } else if char_is_ascii_upper(c) {
            if seen_upper {
                out.push('_');
            }
            out.push(char_ascii_lower(c));
            assert(out@ + sanitize_from(rest.skip(1), true) == before + sanitize_from(
                rest,
                seen_upper,
            ));
            seen_upper = true;
        } else {
            out.push(c);
            assert(out@ + sanitize_from(rest.skip(1), seen_upper) == before + sanitize_from(
                rest,
                seen_upper,
            ));
        }
        i += 1;
    }
    assert(k@.skip(k.len() as int) == Seq::<char>::empty());
    assert(out@ + Seq::<char>::empty() == out@);
    string_of(&out)
}

/// The attribute name of a column: `some_key` gives `@SomeKey`.
pub fn to_pascal_case(s: &str) -> (r: String)
    ensures
        r@ == spec_to_pascal_case(encode_utf8(s@)),
{
    let slice = s.as_bytes();
    let ghost b = slice@;
    let mut out: Vec<char> = Vec::new();
    out.push('@');
    let mut i: usize = 0;
    assert(b.skip(0) == b);
    assert(out@ == seq!['@']);
    while i < slice.len()
        invariant
            i <= slice.len(),
            b == slice@,
            out@ + pascal_chars(b.skip(i as int), i == 0) == spec_to_pascal_case(b),
        decreases slice.len() - i,
    {
        let ghost rest = b.skip(i as int);
        let ghost before = out@;
        assert(rest.len() > 0 && rest[0] == slice[i as int]);
        if slice[i] == 95 && i < slice.len() - 1 {
            i += 1;
            assert(rest[1] == slice[i as int]);
            assert(rest.skip(2) == b.skip(i + 1));
            out.push(char_ascii_upper(slice[i] as char));
            assert(out@ + pascal_chars(rest.skip(2), false) == before + pascal_chars(
                rest,
                i - 1 == 0,
            ));
        } else {
            assert(rest.skip(1) == b.skip(i + 1));
            if i == 0 {
                out.push(char_ascii_upper(slice[i] as char));
            } else {
                out.push(slice[i] as char);
            }
            assert(out@ + pascal_chars(rest.skip(1), false) == before + pascal_chars(rest, i == 0));
        }
        i += 1;
    }
    assert(b.skip(slice.len() as int) == Seq::<u8>::empty());
    assert(out@ + Seq::<char>::empty() == out@);
    string_of(&out)
}

/// Whether `c` is an ASCII letter or digit.
pub open spec fn is_ascii_alnum(c: char) -> bool {
    is_ascii_upper(c) || is_ascii_lower(c) || is_digit(c)
}

/// Whether every character of `s` is an ASCII letter or digit.
pub open spec fn all_alnum(s: Seq<char>) -> bool {
    forall|i: int| 0 <= i < s.len() ==> is_ascii_alnum(#[trigger] s[i])
}

/// An attribute name in its usual form: `@`, a capital, then letters and digits.
pub open spec fn is_attribute_name(p: Seq<char>) -> bool {
    &&& p.len() >= 2
    &&& p[0] == '@'
    &&& is_ascii_upper(p[1])
    &&& all_alnum(p.skip(2))
}

/// The bytes of a text that is all ASCII: one byte for each character.
pub open spec fn ascii_bytes(s: Seq<char>) -> Seq<u8> {
    Seq::new(s.len(), |i: int| s[i] as u8)
}

/// The column name of letters and digits is all ASCII.
proof fn lemma_sanitize_ascii(t: Seq<char>, seen_upper: bool)
    requires
        all_alnum(t),
    ensures
        is_ascii_chars(sanitize_from(t, seen_upper)),
    decreases t.len(),
{
    if t.len() > 0 {
        assert(is_ascii_alnum(t[0]));
        assert forall|i: int| 0 <= i < t.skip(1).len() implies is_ascii_alnum(
            #[trigger] t.skip(1)[i],
        ) by {
            assert(t.skip(1)[i] == t[i + 1]);
        }
        lemma_sanitize_ascii(t.skip(1), true);
        lemma_sanitize_ascii(t.skip(1), seen_upper);
    }
}

/// Letters and digits that follow a capital come back unchanged from their
/// column name.
proof fn lemma_round_trip_tail(t: Seq<char>)
    requires
        all_alnum(t),
    ensures
        pascal_chars(ascii_bytes(sanitize_from(t, true)), false) == t,
    decreases t.len(),
{
    if t.len() == 0 {
        assert(ascii_bytes(sanitize_from(t, true)) == Seq::<u8>::empty());
    } else {
        let c = t[0];
        let rest = t.skip(1);
        assert(is_ascii_alnum(c));
        assert forall|i: int| 0 <= i < rest.len() implies is_ascii_alnum(#[trigger] rest[i]) by {
            assert(rest[i] == t[i + 1]);
        }
        lemma_round_trip_tail(rest);
        let tail = sanitize_from(rest, true);
        let b = ascii_bytes(sanitize_from(t, true));
        if is_ascii_upper(c) {
            assert(sanitize_from(t, true) == seq!['_', ascii_lower(c)] + tail);
            assert(b.len() > 1 && b[0] == 95);
            assert(b[1] == ascii_lower(c) as u8);
            assert(ascii_upper(b[1] as char) == c);
            assert(b.skip(2) == ascii_bytes(tail));
        } else {
            assert(sanitize_from(t, true) == seq![c] + tail);
            assert(b[0] == c as u8);
            assert(b[0] != 95);
            assert(b[0] as char == c);
            assert(b.skip(1) == ascii_bytes(tail));
        }
        assert(seq![c] + rest == t);
    }
}

/// Column-name round trip. An attribute name in its usual form (`@`, a
/// capital, then letters and digits) is found again from its column name: the
/// column name is all ASCII, and the attribute name of its bytes is the name we
/// started from. So the column name itself comes back unchanged when it is
/// turned into an attribute name and into a column name again.
pub proof fn lemma_column_name_round_trip(p: Seq<char>)
    requires
        is_attribute_name(p),
    ensures
        is_ascii_chars(spec_sanitize_key(p)),
        encode_utf8(spec_sanitize_key(p)) == ascii_bytes(spec_sanitize_key(p)),
        spec_to_pascal_case(encode_utf8(spec_sanitize_key(p))) == p,
        spec_sanitize_key(spec_to_pascal_case(encode_utf8(spec_sanitize_key(p))))
            == spec_sanitize_key(p),
{
    let first = p[1];
    let t = p.skip(2);
    let body = p.skip(1);
    assert(body[0] == first);
    assert(body.skip(1) == t);
    let tail = sanitize_from(t, true);
    let column = spec_sanitize_key(p);
    assert(column == sanitize_from(body, false));
    assert(column == seq![ascii_lower(first)] + tail);
    lemma_sanitize_ascii(t, true);
    assert(is_ascii_chars(column));
    is_ascii_chars_encode_utf8(column);
    assert(encode_utf8(column) == ascii_bytes(column));
    let b = ascii_bytes(column);
    assert(b[0] == ascii_lower(first) as u8);
    assert(b[0] != 95);
    assert(ascii_upper(b[0] as char) == first);
    assert(b.skip(1) == ascii_bytes(tail));
    lemma_round_trip_tail(t);
    assert(pascal_chars(b, true) == seq![first] + t);
    assert(seq!['@'] + (seq![first] + t) == p);
}

} // verus!
