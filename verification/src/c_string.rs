//! Text that the runtime hands over as a C string.
//!
//! The runtime returns messages as zero-terminated buffers of bytes that the
//! caller owns. This module turns the bytes of such a buffer into a `String`;
//! taking the buffer from the runtime and giving it back is the caller's part.

use vstd::prelude::*;
use vstd::slice::slice_subrange;
use vstd::utf8::{decode_utf8, valid_utf8};

verus! {

/// Whether `len` is the length of the C string at the start of `buf`: no byte
/// before `len` is zero, and the byte at `len` is, unless `buf` ends there.
pub open spec fn is_c_str_len(buf: Seq<u8>, len: int) -> bool {
    &&& 0 <= len <= buf.len()
    &&& forall|i: int| 0 <= i < len ==> buf[i] != 0
    &&& len < buf.len() ==> buf[len] == 0
}

/// The length of the C string at the start of `buf`.
pub open spec fn spec_c_str_len(buf: Seq<u8>) -> int {
    choose|len: int| is_c_str_len(buf, len)
}

/// The bytes of the C string at the start of `buf`: those before its first
/// zero byte, or all of them where it holds none.
pub open spec fn spec_c_str_bytes(buf: Seq<u8>) -> Seq<u8> {
    buf.subrange(0, spec_c_str_len(buf))
}

/// The text that `String::from_utf8_lossy` makes of `bytes`.
pub uninterp spec fn utf8_lossy(bytes: Seq<u8>) -> Seq<char>;

/// A buffer has one C string length.
pub proof fn lemma_c_str_len_unique(buf: Seq<u8>, a: int, b: int)
    requires
        is_c_str_len(buf, a),
        is_c_str_len(buf, b),
    ensures
        a == b,
{
    if a < b {
        assert(buf[a] == 0);
    } else if b < a {
        assert(buf[b] == 0);
    }
}

/// A buffer that holds `text`, which has no zero byte, then a zero byte, then
/// anything, starts with the C string `text`.
pub proof fn lemma_c_str_bytes_of_terminated(text: Seq<u8>, rest: Seq<u8>)
    requires
        forall|i: int| 0 <= i < text.len() ==> text[i] != 0,
    ensures
        spec_c_str_len(text + seq![0u8] + rest) == text.len(),
        spec_c_str_bytes(text + seq![0u8] + rest) == text,
{
    let buf = text + seq![0u8] + rest;
    assert(is_c_str_len(buf, text.len() as int)) by {
        assert forall|i: int| 0 <= i < text.len() implies buf[i] != 0 by {
            assert(buf[i] == text[i]);
        }
        assert(buf[text.len() as int] == 0);
    }
    lemma_c_str_len_unique(buf, text.len() as int, spec_c_str_len(buf));
    assert(buf.subrange(0, text.len() as int) =~= text);
}

/// The length of the C string at the start of `buf`: the place of its first
/// zero byte, or the length of `buf` where it holds none.
pub fn c_str_len(buf: &[u8]) -> (len: usize)
    ensures
        is_c_str_len(buf@, len as int),
        len == spec_c_str_len(buf@),
{
    let mut len: usize = 0;
    while len < buf.len() && buf[len] != 0
        invariant
            len <= buf.len(),
            forall|i: int| 0 <= i < len ==> buf@[i] != 0,
        decreases buf.len() - len,
    {
        len += 1;
    }
    proof {
        assert(is_c_str_len(buf@, len as int));
        lemma_c_str_len_unique(buf@, len as int, spec_c_str_len(buf@));
    }
    len
}

/// `String::from_utf8_lossy`, made an owned `String`. The contract names the
/// text it returns, and claims of it what the documentation of std says of
/// bytes that are valid UTF-8: they are decoded as they stand. What it makes
/// of other bytes, with U+FFFD in place of what cannot be decoded, is not
/// stated here.
#[verifier::external_body]
fn from_utf8_lossy(bytes: &[u8]) -> (text: String)
    ensures
        text@ == utf8_lossy(bytes@),
        valid_utf8(bytes@) ==> text@ == decode_utf8(bytes@),
{
    String::from_utf8_lossy(bytes).into_owned()
}

/// The text of the C string at the start of `buf`, as a `String` of its own.
///
/// The bytes before the first zero byte are decoded as UTF-8; what is not
/// valid UTF-8 among them is replaced, never refused. A buffer without a zero
/// byte is decoded whole. The result shares nothing with `buf`, which may be
/// given back to the runtime once this returns.
pub fn c_str_to_string(buf: &[u8]) -> (text: String)
    ensures
        text@ == utf8_lossy(spec_c_str_bytes(buf@)),
        valid_utf8(spec_c_str_bytes(buf@)) ==> text@ == decode_utf8(spec_c_str_bytes(buf@)),
{
    let len = c_str_len(buf);
    from_utf8_lossy(slice_subrange(buf, 0, len))
}

} // verus!
