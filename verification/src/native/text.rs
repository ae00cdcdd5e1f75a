//! Text in the form that the native layer reads.

use vstd::prelude::*;
use vstd::string::{StrSliceExecFns, StringSliceAdditionalSpecFns};
use vstd::utf8::{decode_utf8, encode_scalar, encode_utf8, has_width_1_encoding, is_scalar};

verus! {

/// Whether a zero byte occurs among `bytes`.
pub open spec fn has_nul(bytes: Seq<u8>) -> bool {
    exists|i: int| 0 <= i < bytes.len() && bytes[i] == 0u8
}

/// `content`, followed by the zero byte that ends a text for the native layer.
pub open spec fn terminated(content: Seq<u8>) -> Seq<u8> {
    content.push(0u8)
}

/// Whether `bytes` is a text as the native layer reads it: it ends in a zero
/// byte and holds no other.
pub open spec fn is_native_text(bytes: Seq<u8>) -> bool {
    &&& bytes.len() > 0
    &&& bytes.last() == 0u8
    &&& !has_nul(bytes.drop_last())
}

/// Whether `text` can be handed to the native layer: the character zero
/// does not occur in it. The native layer would take that character for the
/// end of the text.
pub open spec fn passable(text: &str) -> bool {
    !text@.contains('\0')
}

/// The bytes by which `text` crosses the boundary: its UTF-8 encoding, then
/// a zero byte.
pub open spec fn native_form(text: &str) -> Seq<u8> {
    terminated(text.spec_bytes())
}

/// Whether `native` is what crosses the boundary for the optional `text`:
/// nothing (a null pointer) where there is no text, never an empty text in
/// its place, and else the native form of the text.
pub open spec fn is_optional_form(native: Option<NativeText>, text: Option<&str>) -> bool {
    match (native, text) {
        (None, None) => true,
        (Some(n), Some(t)) => n@ == native_form(t),
        _ => false,
    }
}

/// Bytes that are free of zero bytes, once terminated, are a text as the
/// native layer reads it.
proof fn lemma_terminated_is_native_text(content: Seq<u8>)
    requires
        !has_nul(content),
    ensures
        is_native_text(terminated(content)),
{
    assert(terminated(content).drop_last() =~= content);
}

/// A zero byte occurs in one sequence after another where it occurs in
/// either.
proof fn lemma_has_nul_concat(front: Seq<u8>, back: Seq<u8>)
    ensures
        has_nul(front + back) <==> has_nul(front) || has_nul(back),
{
    let whole = front + back;
    if has_nul(front) {
        let i: int = choose|i: int| 0 <= i < front.len() && front[i] == 0u8;
        assert(whole[i] == 0u8);
    }
    if has_nul(back) {
        let i: int = choose|i: int| 0 <= i < back.len() && back[i] == 0u8;
        assert(whole[front.len() + i] == 0u8);
    }
    if has_nul(whole) {
        let i: int = choose|i: int| 0 <= i < whole.len() && whole[i] == 0u8;
        if i < front.len() {
            assert(front[i] == 0u8);
        } else {
            assert(back[i - front.len()] == 0u8);
        }
    }
}

/// The UTF-8 encoding of a character holds a zero byte for the character
/// zero alone.
proof fn lemma_encode_scalar_nul(scalar: u32)
    requires
        is_scalar(scalar),
    ensures
        has_nul(encode_scalar(scalar)) <==> scalar == 0,
{
    let bytes = encode_scalar(scalar);
    if has_width_1_encoding(scalar) {
        assert(((scalar & 0x7F) as u8 == 0u8) <==> scalar == 0) by (bit_vector)
            requires
                scalar <= 0x7F,
        ;
        assert(bytes[0] == (scalar & 0x7F) as u8);
        if scalar == 0 {
            assert(bytes[0] == 0u8);
        }
    } else {
        assert(0xC0u8 | ((scalar >> 6) & 0x1F) as u8 != 0u8) by (bit_vector);
        assert(0xE0u8 | ((scalar >> 12) & 0x0F) as u8 != 0u8) by (bit_vector);
        assert(0xF0u8 | ((scalar >> 18) & 0x7) as u8 != 0u8) by (bit_vector);
        assert(0x80u8 | (scalar & 0x3F) as u8 != 0u8) by (bit_vector);
        assert(0x80u8 | ((scalar >> 6) & 0x3F) as u8 != 0u8) by (bit_vector);
        assert(0x80u8 | ((scalar >> 12) & 0x3F) as u8 != 0u8) by (bit_vector);
        assert(forall|i: int| 0 <= i < bytes.len() ==> bytes[i] != 0u8);
    }
}

/// The UTF-8 encoding of a sequence of characters holds a zero byte where
/// the sequence holds the character zero, and only there.
proof fn lemma_encode_utf8_nul(chars: Seq<char>)
    ensures
        has_nul(encode_utf8(chars)) <==> chars.contains('\0'),
    decreases chars.len(),
{
    if chars.len() == 0 {
    } else {
        let first = chars[0];
        let rest = chars.drop_first();
        vstd::utf8::char_is_scalar(first);
        lemma_encode_scalar_nul(first as u32);
        lemma_encode_utf8_nul(rest);
        lemma_has_nul_concat(encode_scalar(first as u32), encode_utf8(rest));
        assert((first as u32 == 0) <==> first == '\0') by {
            vstd::utf8::char_u32_cast(first, first as u32);
            vstd::utf8::char_u32_cast('\0', 0u32);
        }
        if rest.contains('\0') {
            let i: int = choose|i: int| 0 <= i < rest.len() && rest[i] == '\0';
            assert(chars[i + 1] == '\0');
        }
        if chars.contains('\0') && first != '\0' {
            let i: int = choose|i: int| 0 <= i < chars.len() && chars[i] == '\0';
            assert(rest[i - 1] == '\0');
        }
    }
}

/// A text can be handed to the native layer where its UTF-8 encoding holds
/// no zero byte, and only then.
pub proof fn lemma_passable_iff_no_nul_byte(text: &str)
    ensures
        passable(text) <==> !has_nul(text.spec_bytes()),
{
    lemma_encode_utf8_nul(text@);
}

/// The encoding of a text, with a zero byte after it, is a text as the
/// native layer reads it where the text can be handed over, and only then:
/// the native layer would read a text with the character zero in it only up
/// to that character.
pub proof fn lemma_native_form_is_well_formed(text: &str)
    ensures
        is_native_text(native_form(text)) <==> passable(text),
{
    lemma_passable_iff_no_nul_byte(text);
    assert(native_form(text).drop_last() =~= text.spec_bytes());
}

/// Nothing of a text is lost in its native form: the bytes before the final
/// zero byte are its UTF-8 encoding, and they decode to the text.
pub proof fn lemma_native_form_is_faithful(text: &str)
    ensures
        native_form(text).len() == text.spec_bytes().len() + 1,
        native_form(text).drop_last() == text.spec_bytes(),
        decode_utf8(native_form(text).drop_last()) == text@,
{
    assert(native_form(text).drop_last() =~= text.spec_bytes());
    vstd::utf8::encode_utf8_decode_utf8(text@);
}

/// Whether the character zero occurs in `text`. A text in which it occurs
/// cannot be handed to the native layer.
pub fn contains_nul(text: &str) -> (found: bool)
    ensures
        found == !passable(text),
{
    let bytes = text.as_bytes();
    let mut i: usize = 0;
    while i < bytes.len()
        invariant
            i <= bytes.len(),
            bytes@ == text.spec_bytes(),
            forall|j: int| 0 <= j < i ==> bytes@[j] != 0u8,
        decreases bytes.len() - i,
    {
        if bytes[i] == 0 {
            proof {
                lemma_passable_iff_no_nul_byte(text);
            }
            return true;
        }
        i += 1;
    }
    proof {
        lemma_passable_iff_no_nul_byte(text);
    }
    false
}

/// A text in the form in which it crosses the boundary: the bytes of its
/// UTF-8 encoding, then one zero byte. Its view is that byte sequence, the
/// zero byte included.
#[derive(PartialEq, Eq, Hash, Debug)]
pub struct NativeText {
    bytes: Vec<u8>,
}

impl View for NativeText {
    type V = Seq<u8>;

    closed spec fn view(&self) -> Seq<u8> {
        self.bytes@
    }
}

impl Clone for NativeText {
    fn clone(&self) -> (copy: NativeText)
        ensures
            copy@ == self@,
    {
        proof {
            use_type_invariant(self);
        }
        let bytes = self.bytes.clone();
        assert(bytes@ =~= self.bytes@);
        NativeText { bytes }
    }
}

impl NativeText {
    #[verifier::type_invariant]
    spec fn well_formed(self) -> bool {
        is_native_text(self.bytes@)
    }

    /// The native form of `text`.
    pub fn new(text: &str) -> (native: NativeText)
        requires
            passable(text),
        ensures
            native@ == native_form(text),
    {
        let mut bytes: Vec<u8> = text.as_bytes_vec();
        bytes.push(0);
        proof {
            lemma_passable_iff_no_nul_byte(text);
            lemma_terminated_is_native_text(text.spec_bytes());
        }
        NativeText { bytes }
    }

    /// The native form of an optional text: nothing, which crosses the
    /// boundary as a null pointer, where there is no text.
    pub fn optional(text: Option<&str>) -> (native: Option<NativeText>)
        requires
            text matches Some(t) ==> passable(t),
        ensures
            is_optional_form(native, text),
    {
        match text {
            Some(t) => Some(NativeText::new(t)),
            None => None,
        }
    }

    /// The bytes that the native layer reads, the final zero byte included.
    pub fn as_bytes_with_nul(&self) -> (bytes: &[u8])
        ensures
            bytes@ == self@,
            is_native_text(bytes@),
    {
        proof {
            use_type_invariant(self);
        }
        self.bytes.as_slice()
    }
}

} // verus!
