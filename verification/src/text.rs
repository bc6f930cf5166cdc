//! The string type: construction, read access, copying and comparison.

use crate::bytes::bytes_equal;
use crate::encoding::{lemma_encoding_empty, lemma_encoding_injective};
use vstd::prelude::*;
use vstd::std_specs::cmp::PartialEqSpecImpl;
use vstd::std_specs::convert::FromSpecImpl;
use vstd::string::StringSliceAdditionalSpecFns;
use vstd::utf8::encode_utf8;

verus! {

/// An immutable, owned run of UTF-8 text.
///
/// The value is a pointer and a length and nothing more. The buffer behind
/// the pointer is exactly as long as the text, belongs to this value alone
/// and is released with it; the empty text has no buffer at all.
///
/// The view of a `Str` is its text as a sequence of characters;
/// [`Str::bytes`] is the same text as the bytes that are stored.
#[derive(Debug, Hash)]
pub struct Str {
    data: Box<str>,
}

impl View for Str {
    type V = Seq<char>;

    closed spec fn view(&self) -> Seq<char> {
        self.data@
    }
}

/// Copies a borrowed text into a buffer of its own.
///
/// Trusted: the body is `<Box<str> as From<&str>>::from`, which the standard
/// library documents as allocating on the heap and copying `s` into the
/// allocation. The contract is not proved here; it claims that the boxed
/// copy holds the same characters as `s`, in the same order.
#[verifier::external_body]
fn boxed_copy(s: &str) -> (r: Box<str>)
    ensures
        r@ == s@,
{
    Box::from(s)
}

impl Str {
    /// The stored bytes: the UTF-8 encoding of the text.
    pub open spec fn bytes(&self) -> Seq<u8> {
        encode_utf8(self@)
    }

    /// A new value that holds a copy of `s`.
    ///
    /// The copy lives in a fresh buffer of exactly `s.len()` bytes; for the
    /// empty text nothing is allocated.
    pub fn new(s: &str) -> (r: Self)
        ensures
            r@ == s@,
            r.bytes() == s.spec_bytes(),
    {
        Str { data: boxed_copy(s) }
    }

    /// The text, borrowed for as long as `self` lives. Nothing is copied and
    /// nothing is validated again.
    pub fn as_str(&self) -> (r: &str)
        ensures
            r@ == self@,
            r.spec_bytes() == self.bytes(),
    {
        &*self.data
    }

    /// The length of the text in bytes (not in characters).
    pub fn len(&self) -> (n: usize)
        ensures
            n == self.bytes().len(),
    {
        self.as_str().as_bytes().len()
    }

    /// Whether the text has no bytes, which is to say no characters.
    pub fn is_empty(&self) -> (b: bool)
        ensures
            b == (self.bytes().len() == 0),
            b == (self@.len() == 0),
    {
        proof {
            lemma_encoding_empty(self@);
        }
        self.len() == 0
    }

    /// The text as an owned `String`, for display: the same characters,
    /// byte for byte.
    pub fn to_string(&self) -> (r: String)
        ensures
            r@ == self@,
    {
        self.as_str().to_owned()
    }
}

impl Clone for Str {
    /// An independent value with the same text, in a buffer of its own.
    fn clone(&self) -> (r: Self)
        ensures
            r@ == self@,
            r.bytes() == self.bytes(),
    {
        Str::new(self.as_str())
    }
}

impl AsRef<str> for Str {
    /// The text, as [`Str::as_str`] gives it.
    fn as_ref(&self) -> (r: &str)
        ensures
            r@ == self@,
            r.spec_bytes() == self.bytes(),
    {
        self.as_str()
    }
}

impl std::borrow::Borrow<str> for Str {
    /// The text, so that a container keyed by `Str` can be searched with a
    /// plain `&str`: the borrowed text compares and hashes as `self` does.
    fn borrow(&self) -> (r: &str)
        ensures
            ({
                let text: &str = r;
                text@ == self@ && text.spec_bytes() == self.bytes()
            }),
    {
        self.as_str()
    }
}

impl PartialEq for Str {
    /// Two values are equal when their bytes are, wherever they are stored.
    fn eq(&self, other: &Str) -> (r: bool) {
        proof {
            lemma_encoding_injective(self@, other@);
        }
        bytes_equal(self.as_str().as_bytes(), other.as_str().as_bytes())
    }
}

/// In contracts, `==` between two values means that their texts are the same.
impl PartialEqSpecImpl for Str {
    open spec fn obeys_eq_spec() -> bool {
        true
    }

    open spec fn eq_spec(&self, other: &Str) -> bool {
        self@ == other@
    }
}

impl Eq for Str {}

impl<'a> From<&'a str> for Str {
    /// The same as [`Str::new`].
    fn from(s: &'a str) -> (r: Self)
        ensures
            r@ == s@,
            r.bytes() == s.spec_bytes(),
    {
        Str::new(s)
    }
}

/// Conversion promises the text of its result and not which value it is:
/// values with one text are equal by `==` and may still be two values, so
/// `from` carries its own contract and `from_spec` only names a value with
/// the text of `s`.
impl<'a> FromSpecImpl<&'a str> for Str {
    open spec fn obeys_from_spec() -> bool {
        false
    }

    closed spec fn from_spec(s: &'a str) -> Str {
        choose|r: Str| r@ == s@
    }
}

} // verus!
