//! Option text as the NUL-terminated byte buffers that the native interface reads.
//!
//! The native side finds the end of an option by its first zero byte, so a text is
//! representable exactly when its UTF-8 form holds no zero byte of its own.

use vstd::prelude::*;
use vstd::slice::slice_subrange;
use vstd::string::*;
use vstd::utf8::*;

verus! {

/// Whether the UTF-8 form of `text` holds a zero byte, which the native side would
/// take for the end of the text.
pub open spec fn has_interior_nul(text: Seq<char>) -> bool {
    encode_utf8(text).contains(0u8)
}

/// The buffer that stands for `text` on the native side: its UTF-8 bytes and one
/// closing zero byte.
pub open spec fn nul_terminated(text: Seq<char>) -> Seq<u8> {
    encode_utf8(text).push(0u8)
}

/// Whether `bytes` ends in a zero byte and holds no other.
pub open spec fn is_nul_terminated(bytes: Seq<u8>) -> bool {
    &&& bytes.len() > 0
    &&& bytes.last() == 0u8
    &&& forall|i: int| 0 <= i < bytes.len() - 1 ==> bytes[i] != 0u8
}

/// One option in the form the native side reads: an owned buffer that ends in a zero
/// byte and holds no other.
#[derive(Debug)]
pub struct EncodedOption {
    bytes: Vec<u8>,
}

impl View for EncodedOption {
    type V = Seq<u8>;

    /// The whole buffer, closing zero byte included.
    closed spec fn view(&self) -> Seq<u8> {
        self.bytes@
    }
}

impl EncodedOption {
    #[verifier::type_invariant]
    spec fn well_formed(self) -> bool {
        is_nul_terminated(self.bytes@)
    }

    /// Encodes `text`, or gives `None` when its UTF-8 form holds a zero byte.
    pub fn new(text: &str) -> (encoded: Option<EncodedOption>)
        ensures
            encoded is Some <==> !has_interior_nul(text@),
            encoded matches Some(e) ==> e@ == nul_terminated(text@),
    {
        let mut buf = text.as_bytes_vec();
        let mut i: usize = 0;
        while i < buf.len()
            invariant
                i <= buf.len(),
                buf@ == encode_utf8(text@),
                forall|j: int| 0 <= j < i ==> buf@[j] != 0u8,
            decreases buf.len() - i,
        {
            if buf[i] == 0 {
                return None;
            }
            i += 1;
        }
        buf.push(0);
        Some(EncodedOption { bytes: buf })
    }

    /// The whole buffer, closing zero byte included.
    pub fn as_bytes_with_nul(&self) -> (bytes: &[u8])
        ensures
            bytes@ == self@,
            is_nul_terminated(bytes@),
    {
        proof {
            use_type_invariant(self);
        }
        self.bytes.as_slice()
    }

    /// The UTF-8 bytes of the text, without the closing zero byte.
    pub fn as_bytes(&self) -> (bytes: &[u8])
        ensures
            bytes@ == self@.drop_last(),
            !bytes@.contains(0u8),
    {
        proof {
            use_type_invariant(self);
        }
        let whole = self.bytes.as_slice();
        slice_subrange(whole, 0, whole.len() - 1)
    }
}

/// A scalar value's UTF-8 form holds a zero byte only if the value itself is zero.
proof fn lemma_scalar_bytes_nonzero(scalar: u32)
    by (bit_vector)
    requires
        scalar != 0,
        scalar <= 0x10FFFF,
    ensures
        scalar <= 0x7F ==> (scalar & 0x7F) as u8 != 0u8,
        0xC0u8 | ((scalar >> 6) & 0x1F) as u8 != 0u8,
        0xE0u8 | ((scalar >> 12) & 0x0F) as u8 != 0u8,
        0xF0u8 | ((scalar >> 18) & 0x7) as u8 != 0u8,
        0x80u8 | (scalar & 0x3F) as u8 != 0u8,
        0x80u8 | ((scalar >> 6) & 0x3F) as u8 != 0u8,
        0x80u8 | ((scalar >> 12) & 0x3F) as u8 != 0u8,
{
}

/// The UTF-8 form of a text holds a zero byte exactly when the text holds the
/// character NUL: no longer encoding produces a zero byte.
pub proof fn lemma_interior_nul_is_nul_char(text: Seq<char>)
    ensures
        has_interior_nul(text) <==> text.contains('\0'),
    decreases text.len(),
{
    if text.len() == 0 {
    } else {
        let head = text[0] as u32;
        let rest = text.drop_first();
        let head_bytes = encode_scalar(head);
        let rest_bytes = encode_utf8(rest);
        let bytes = encode_utf8(text);
        assert(bytes == head_bytes + rest_bytes);
        lemma_interior_nul_is_nul_char(rest);
        char_is_scalar(text[0]);
        if head == 0 {
            assert(leading_byte_width_1(head) == 0u8) by (bit_vector)
                requires
                    head == 0,
            ;
            assert(bytes[0] == 0u8);
            char_u32_cast(text[0], head);
            char_u32_cast('\0', 0u32);
            assert(text[0] == '\0');
        } else {
            lemma_scalar_bytes_nonzero(head);
            assert(forall|i: int| 0 <= i < head_bytes.len() ==> head_bytes[i] != 0u8);
            assert(text[0] != '\0');
        }
        if bytes.contains(0u8) {
            let i = choose|i: int| 0 <= i < bytes.len() && bytes[i] == 0u8;
            if i >= head_bytes.len() {
                assert(rest_bytes[i - head_bytes.len()] == 0u8);
                assert(rest_bytes.contains(0u8));
                let j = choose|j: int| 0 <= j < rest.len() && rest[j] == '\0';
                assert(text[j + 1] == '\0');
            }
        }
        if text.contains('\0') {
            let j = choose|j: int| 0 <= j < text.len() && text[j] == '\0';
            if j > 0 {
                assert(rest[j - 1] == '\0');
                assert(rest.contains('\0'));
                let i = choose|i: int| 0 <= i < rest_bytes.len() && rest_bytes[i] == 0u8;
                assert(bytes[head_bytes.len() + i] == 0u8);
            }
        }
    }
}

/// The buffer of a text without a zero byte of its own ends in its only zero byte.
pub proof fn lemma_nul_terminated_is_well_formed(text: Seq<char>)
    requires
        !has_interior_nul(text),
    ensures
        is_nul_terminated(nul_terminated(text)),
{
    let bytes = encode_utf8(text);
    assert forall|i: int| 0 <= i < bytes.len() implies nul_terminated(text)[i] != 0u8 by {
        assert(bytes[i] == nul_terminated(text)[i]);
    }
}

/// Decoding a buffer without its closing zero byte gives the text back, so two
/// texts with the same buffer are the same text.
pub proof fn lemma_nul_terminated_decodes_back(text: Seq<char>)
    ensures
        decode_utf8(nul_terminated(text).drop_last()) == text,
{
    assert(nul_terminated(text).drop_last() =~= encode_utf8(text));
    encode_utf8_decode_utf8(text);
}

} // verus!
