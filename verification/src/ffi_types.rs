//! Values as they cross between host and module: a sequence of items and
//! a UTF-8 string, each passed as a plain buffer.
use vstd::prelude::*;
use vstd::string::{StringExecFns, StringSliceAdditionalSpecFns};
use vstd::utf8::{decode_utf8, valid_utf8};

verus! {

broadcast use {vstd::utf8::encode_utf8_valid_utf8, vstd::utf8::encode_utf8_decode_utf8, vstd::utf8::decode_utf8_encode_utf8};

/// A sequence of items handed across the host/module boundary.
pub struct RawSlice<T> {
    items: Vec<T>,
}

impl<T> View for RawSlice<T> {
    type V = Seq<T>;

    closed spec fn view(&self) -> Seq<T> {
        self.items@
    }
}

impl<T: Copy> RawSlice<T> {
    /// Packs the items of a slice.
    pub fn from_slice(value: &[T]) -> (r: Self)
        ensures
            r@ == value@,
    {
        let mut items: Vec<T> = Vec::new();
        let mut i: usize = 0;
        while i < value.len()
            invariant
                0 <= i <= value@.len(),
                items@ == value@.take(i as int),
            decreases value@.len() - i,
        {
            items.push(value[i]);
            i = i + 1;
            assert(items@ =~= value@.take(i as int));
        }
        assert(value@.take(value@.len() as int) =~= value@);
        RawSlice { items }
    }

    /// Unpacks the items, in order.
    pub fn into_slice(self) -> (r: Vec<T>)
        ensures
            r@ == self@,
    {
        self.items
    }
}

/// Claimed of `std::str::from_utf8`: it accepts exactly the byte strings
/// that are valid UTF-8, and the text it returns has exactly those bytes.
#[verifier::external_body]
fn utf8_text(bytes: &[u8]) -> (r: Option<&str>)
    ensures
        r is Some <==> valid_utf8(bytes@),
        r matches Some(s) ==> s.spec_bytes() == bytes@,
{
    std::str::from_utf8(bytes).ok()
}

/// A string handed across the host/module boundary, as its UTF-8 bytes.
pub struct Str {
    bytes: Vec<u8>,
}

impl View for Str {
    type V = Seq<u8>;

    closed spec fn view(&self) -> Seq<u8> {
        self.bytes@
    }
}

impl Str {
    /// Packs a string.
    pub fn new(value: &str) -> (r: Str)
        ensures
            r@ == value.spec_bytes(),
    {
        let src = value.as_bytes();
        let mut bytes: Vec<u8> = Vec::new();
        let mut i: usize = 0;
        while i < src.len()
            invariant
                src@ == value.spec_bytes(),
                0 <= i <= src@.len(),
                bytes@ == src@.take(i as int),
            decreases src@.len() - i,
        {
            bytes.push(src[i]);
            i = i + 1;
            assert(bytes@ =~= src@.take(i as int));
        }
        assert(src@.take(src@.len() as int) =~= src@);
        Str { bytes }
    }

    /// Packs bytes received from the other side.
    pub fn from_bytes(bytes: Vec<u8>) -> (r: Str)
        ensures
            r@ == bytes@,
    {
        Str { bytes }
    }

    /// The bytes, as they are handed over.
    pub fn as_bytes(&self) -> (r: &[u8])
        ensures
            r@ == self@,
    {
        self.bytes.as_slice()
    }

    /// Unpacks the string; the bytes must be valid UTF-8.
    pub fn into_str(self) -> (r: String)
        requires
            valid_utf8(self@),
        ensures
            r@ == decode_utf8(self@),
    {
        match utf8_text(self.bytes.as_slice()) {
            Some(s) => String::from_str(s),
            None => String::new(),
        }
    }
}

/// Packing a string and unpacking it gives the same string back.
pub proof fn law_str_round_trip(s: Seq<char>)
    ensures
        valid_utf8(vstd::utf8::encode_utf8(s)),
        decode_utf8(vstd::utf8::encode_utf8(s)) == s,
{
}

} // verus!
