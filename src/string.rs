//! The string bridge: host text to and from the engine's string handles.
//!
//! The engine takes text as a NUL-terminated UTF-8 byte string and hands it
//! back by filling a byte buffer, again NUL-terminated. Text that holds a NUL
//! byte cannot cross in that form, and is refused rather than cut short.
use vstd::prelude::*;
use vstd::string::StringSliceAdditionalSpecFns;
use vstd::utf8::*;
use crate::handle::OpaqueJSString;
use crate::value::RefOp;

verus! {

broadcast use {encode_utf8_valid_utf8, encode_utf8_decode_utf8};

/// An engine string handle, held for the time of one exchange.
#[derive(Debug)]
pub struct JSString {
    pub inner: OpaqueJSString,
}

/// Text that holds a NUL byte, with the position of the first one.
#[derive(Clone, Copy, Debug, PartialEq, Eq, Structural)]
pub struct NulError {
    pub position: usize,
}

/// Bytes the engine handed back that are not UTF-8.
#[derive(Clone, Copy, Debug, PartialEq, Eq, Structural)]
pub struct FromUtf8Error;

/// The NUL-terminated form in which the engine takes `text`.
pub open spec fn c_string_of(text: Seq<u8>) -> Seq<u8> {
    text.push(0u8)
}

/// The index of the first NUL byte of `bytes`, if it holds one.
pub open spec fn first_nul(bytes: Seq<u8>) -> Option<int> {
    if exists|i: int| 0 <= i < bytes.len() && bytes[i] == 0u8 {
        Some(choose|i: int| 0 <= i < bytes.len() && bytes[i] == 0u8 && forall|j: int| 0 <= j < i ==> bytes[j] != 0u8)
    } else {
        None
    }
}

/// The bytes of the text in a buffer the engine filled, of which it wrote
/// `written` bytes, the terminating NUL included.
pub open spec fn text_in_buffer(buffer: Seq<u8>, written: int) -> Seq<u8> {
    if written <= 0 {
        Seq::empty()
    } else if written > buffer.len() {
        buffer
    } else {
        buffer.subrange(0, written - 1)
    }
}

/// Relies on `String::from_utf8`: it accepts exactly the well-formed UTF-8
/// byte strings and then holds the characters they encode.
#[verifier::external_body]
fn string_from_utf8(bytes: Vec<u8>) -> (r: Option<String>)
    ensures
        r is Some <==> valid_utf8(bytes@),
        r matches Some(s) ==> s@ == decode_utf8(bytes@),
{
    String::from_utf8(bytes).ok()
}

impl JSString {
    pub fn from(inner: OpaqueJSString) -> (r: JSString)
        ensures
            r.inner == inner,
    {
        JSString { inner }
    }

    /// The release that ends the exchange. The handle is used up.
    pub fn release(self) -> (r: RefOp)
        ensures
            r == RefOp::ReleaseString(self.inner),
    {
        RefOp::ReleaseString(self.inner)
    }

    /// The NUL-terminated bytes that create an engine string holding `value`,
    /// or the position of the first NUL byte in `value`, which that form cannot
    /// carry.
    pub fn from_utf8(value: &str) -> (r: Result<Vec<u8>, NulError>)
        ensures
            match first_nul(value.spec_bytes()) {
                Some(p) => r == Err::<Vec<u8>, NulError>(NulError { position: p as usize }),
                None => r matches Ok(c) && c@ == c_string_of(value.spec_bytes()),
            },
    {
        let bytes = value.as_bytes();
        let n = bytes.len();
        let mut out: Vec<u8> = Vec::new();
        let mut i: usize = 0;
        while i < n
            invariant
                n == bytes@.len(),
                bytes@ == value.spec_bytes(),
                i <= n,
                out@ == bytes@.subrange(0, i as int),
                forall|j: int| 0 <= j < i ==> bytes@[j] != 0u8,
            decreases n - i,
        {
            let b = bytes[i];
            if b == 0 {
                proof {
                    assert(bytes@[i as int] == 0u8);
                    let p = first_nul(bytes@).unwrap();
                    assert(p == i as int);
                }
                return Err(NulError { position: i });
            }
            out.push(b);
            i = i + 1;
            assert(out@ == bytes@.subrange(0, i as int));
        }
        out.push(0u8);
        assert(out@ == c_string_of(bytes@));
        Ok(out)
    }

    /// The text in a buffer the engine filled from a string, of which it wrote
    /// `written` bytes, the terminating NUL included.
    pub fn to_string_utf8(buffer: &Vec<u8>, written: usize) -> (r: Result<String, FromUtf8Error>)
        ensures
            match r {
                Ok(s) => valid_utf8(text_in_buffer(buffer@, written as int)) && s@ == decode_utf8(
                    text_in_buffer(buffer@, written as int),
                ),
                Err(_) => !valid_utf8(text_in_buffer(buffer@, written as int)),
            },
    {
        let end: usize = if written == 0 {
            0
        } else if written > buffer.len() {
            buffer.len()
        } else {
            written - 1
        };
        let mut text: Vec<u8> = Vec::with_capacity(end);
        let mut i: usize = 0;
        while i < end
            invariant
                end <= buffer@.len(),
                i <= end,
                text@ == buffer@.subrange(0, i as int),
            decreases end - i,
        {
            text.push(buffer[i]);
            i = i + 1;
            assert(text@ == buffer@.subrange(0, i as int));
        }
        assert(text@ == text_in_buffer(buffer@, written as int));
        match string_from_utf8(text) {
            Some(s) => Ok(s),
            None => Err(FromUtf8Error),
        }
    }
}

/// The UTF-8 encoding of a scalar other than NUL holds no NUL byte.
proof fn lemma_scalar_encoding_without_nul(v: u32)
    requires
        is_scalar(v),
        v != 0,
    ensures
        forall|i: int| 0 <= i < encode_scalar(v).len() ==> encode_scalar(v)[i] != 0u8,
{
    assert((0x80u8 | (v & 0x3F) as u8) != 0u8) by (bit_vector);
    if has_width_1_encoding(v) {
        assert((v & 0x7F) as u8 != 0u8) by (bit_vector)
            requires
                1 <= v <= 0x7F,
        ;
    } else if has_width_2_encoding(v) {
        assert((0xC0u8 | ((v >> 6) & 0x1F) as u8) != 0u8) by (bit_vector);
    } else if has_width_3_encoding(v) {
        assert((0xE0u8 | ((v >> 12) & 0x0F) as u8) != 0u8) by (bit_vector);
        assert((0x80u8 | ((v >> 6) & 0x3F) as u8) != 0u8) by (bit_vector);
    } else {
        assert((0xF0u8 | ((v >> 18) & 0x7) as u8) != 0u8) by (bit_vector);
        assert((0x80u8 | ((v >> 12) & 0x3F) as u8) != 0u8) by (bit_vector);
        assert((0x80u8 | ((v >> 6) & 0x3F) as u8) != 0u8) by (bit_vector);
    }
}

/// Text without a NUL character encodes to bytes without a NUL byte.
proof fn lemma_encoding_without_nul(text: Seq<char>)
    requires
        forall|i: int| 0 <= i < text.len() ==> text[i] != '\0',
    ensures
        forall|i: int| 0 <= i < encode_utf8(text).len() ==> encode_utf8(text)[i] != 0u8,
    decreases text.len(),
{
    if text.len() > 0 {
        let c = text[0];
        let rest = text.drop_first();
        lemma_encoding_without_nul(rest);
        char_is_scalar(c);
        if c as u32 == 0 {
            char_u32_cast(c, 0u32);
            char_u32_cast('\0', 0u32);
        }
        lemma_scalar_encoding_without_nul(c as u32);
        let head = encode_scalar(c as u32);
        let tail = encode_utf8(rest);
        assert(encode_utf8(text) == head + tail);
        assert forall|i: int| 0 <= i < encode_utf8(text).len() implies encode_utf8(text)[i] != 0u8 by {
            if i >= head.len() {
                assert(encode_utf8(text)[i] == tail[i - head.len()]);
            }
        }
    }
}

/// Host text without a NUL character comes back unchanged from the engine's
/// string form: the bridge accepts it, and the bytes it hands over, read back
/// as the engine writes them out, decode to the same characters.
pub proof fn lemma_string_round_trip(text: Seq<char>)
    requires
        forall|i: int| 0 <= i < text.len() ==> text[i] != '\0',
    ensures
        first_nul(encode_utf8(text)) is None,
        valid_utf8(text_in_buffer(c_string_of(encode_utf8(text)), c_string_of(encode_utf8(text)).len() as int)),
        decode_utf8(text_in_buffer(c_string_of(encode_utf8(text)), c_string_of(encode_utf8(text)).len() as int)) == text,
{
    lemma_encoding_without_nul(text);
    let c = c_string_of(encode_utf8(text));
    assert(text_in_buffer(c, c.len() as int) == encode_utf8(text));
}

} // verus!
