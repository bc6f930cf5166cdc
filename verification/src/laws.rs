//! What holds of every `Str`, stated over the contracts of its functions.
//!
//! Each law takes the values that a run of the functions would produce and
//! assumes of them only what the functions' contracts promise.

use crate::encoding::{lemma_encoding_empty, lemma_encoding_injective};
use crate::text::Str;
use vstd::prelude::*;
use vstd::std_specs::cmp::PartialEqSpec;
use vstd::string::StringSliceAdditionalSpecFns;
use vstd::utf8::{encode_utf8_valid_utf8, valid_utf8};

verus! {

/// The stored bytes of every value are valid UTF-8.
pub proof fn law_bytes_are_utf8(a: Str)
    ensures
        valid_utf8(a.bytes()),
{
    encode_utf8_valid_utf8(a@);
}

/// Round trip: the text borrowed from a value made from `s` is `s`, character
/// for character and byte for byte.
pub proof fn law_round_trip(s: &str, made: Str, back: &str)
    requires
        call_ensures(Str::new, (s,), made),
        call_ensures(Str::as_str, (&made,), back),
    ensures
        back@ == s@,
        back.spec_bytes() == s.spec_bytes(),
{
}

/// The length of a value made from `s` is the number of bytes of `s`.
pub proof fn law_length_preserved(s: &str, made: Str, n: usize)
    requires
        call_ensures(Str::new, (s,), made),
        call_ensures(Str::len, (&made,), n),
    ensures
        n == s.spec_bytes().len(),
{
}

/// A clone equals the value it was made from: `==` holds between them and
/// they borrow out the same text.
pub proof fn law_clone_is_equal(a: Str, copy: Str, same: bool)
    requires
        call_ensures(Str::clone, (&a,), copy),
        call_ensures(Str::eq, (&a, &copy), same),
    ensures
        same,
        copy@ == a@,
        copy.bytes() == a.bytes(),
{
}

/// Cloning clone after clone keeps the text: the last of the line equals the
/// first.
pub proof fn law_clone_chain(first: Str, second: Str, third: Str, fourth: Str)
    requires
        call_ensures(Str::clone, (&first,), second),
        call_ensures(Str::clone, (&second,), third),
        call_ensures(Str::clone, (&third,), fourth),
    ensures
        fourth@ == first@,
        first.eq_spec(&fourth),
{
}

/// `==` between two values says whether the texts that they borrow out are
/// the same, which is to say whether their bytes are.
pub proof fn law_equal_iff_same_text(a: Str, b: Str, same: bool, ta: &str, tb: &str)
    requires
        call_ensures(Str::eq, (&a, &b), same),
        call_ensures(Str::as_str, (&a,), ta),
        call_ensures(Str::as_str, (&b,), tb),
    ensures
        same <==> ta@ == tb@,
        same <==> ta.spec_bytes() == tb.spec_bytes(),
        same <==> a.bytes() == b.bytes(),
{
    lemma_encoding_injective(a@, b@);
}

/// `==` is an equivalence: every value equals itself, equality does not
/// depend on the side, and two values equal to a third equal each other.
pub proof fn law_equality_is_equivalence(a: Str, b: Str, c: Str)
    ensures
        a.eq_spec(&a),
        a.eq_spec(&b) == b.eq_spec(&a),
        a.eq_spec(&b) && b.eq_spec(&c) ==> a.eq_spec(&c),
{
}

/// A value is empty exactly when its length is zero, and exactly when the
/// text that it borrows out has no characters.
pub proof fn law_empty_iff_zero_length(a: Str, empty: bool, n: usize, text: &str)
    requires
        call_ensures(Str::is_empty, (&a,), empty),
        call_ensures(Str::len, (&a,), n),
        call_ensures(Str::as_str, (&a,), text),
    ensures
        empty <==> n == 0,
        empty <==> text@.len() == 0,
{
    lemma_encoding_empty(a@);
}

/// A value made from a text is equal to a value made by conversion from the
/// same text.
pub proof fn law_conversion_is_construction(s: &str, made: Str, converted: Str)
    requires
        call_ensures(Str::new, (s,), made),
        call_ensures(<Str as From<&str>>::from, (s,), converted),
    ensures
        made.eq_spec(&converted),
        converted@ == s@,
{
}

} // verus!
