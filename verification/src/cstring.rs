//! Text of fixed-size, NUL-terminated character fields as the VST3 SDK fills
//! them (class names, categories, bus names).
use vstd::prelude::*;
use vstd::utf8::{
    char_u32_cast, decode_utf8, encode_scalar, encode_utf8, encode_utf8_decode_utf8,
    encode_utf8_valid_utf8, valid_utf8,
};
use crate::utf16::{
    decode_utf16_lossy, encode_utf16, lemma_decode_encode_utf16, lemma_decode_utf16_no_nul,
    lemma_encode_utf16_no_nul,
};

verus! {

/// Number of units before the first `nul` of `field`, or its whole length
/// when it holds no `nul`.
pub open spec fn text_len<T>(field: Seq<T>, nul: T) -> nat
    decreases field.len(),
{
    if field.len() == 0 || field[0] == nul {
        0
    } else {
        1 + text_len(field.drop_first(), nul)
    }
}

/// The units of `field` that precede its first `nul`.
pub open spec fn text_units<T>(field: Seq<T>, nul: T) -> Seq<T> {
    field.take(text_len(field, nul) as int)
}

/// The bytes of a C `char` field, reinterpreted as unsigned, up to its first NUL.
pub open spec fn c_text_bytes(field: Seq<i8>) -> Seq<u8> {
    text_units(field, 0i8).map_values(|b: i8| b as u8)
}

/// The code units of a UTF-16 field up to its first NUL.
pub open spec fn c_text_units16(field: Seq<u16>) -> Seq<u16> {
    text_units(field, 0u16)
}

/// What `String::from_utf8_lossy` yields for `bytes`.
pub uninterp spec fn utf8_lossy(bytes: Seq<u8>) -> Seq<char>;

/// The text of a C `char` field: its bytes before the first NUL, decoded
/// as UTF-8 with invalid sequences replaced.
pub open spec fn c_field_text(field: Seq<i8>) -> Seq<char> {
    utf8_lossy(c_text_bytes(field))
}

/// The text of a UTF-16 field: its code units before the first NUL, decoded
/// with unpaired surrogates replaced.
pub open spec fn utf16_field_text(field: Seq<u16>) -> Seq<char> {
    decode_utf16_lossy(c_text_units16(field))
}

/// `text_len` is the one index with no `nul` before it that is either the
/// end of the field or holds a `nul`.
pub proof fn lemma_text_len_is_first_nul<T>(field: Seq<T>, nul: T, n: int)
    requires
        0 <= n <= field.len(),
        forall|j: int| 0 <= j < n ==> field[j] != nul,
        n == field.len() || field[n] == nul,
    ensures
        text_len(field, nul) == n,
    decreases n,
{
    if n > 0 {
        let rest = field.drop_first();
        assert forall|j: int| 0 <= j < n - 1 implies rest[j] != nul by {
            assert(rest[j] == field[j + 1]);
        }
        if n < field.len() {
            assert(rest[n - 1] == field[n]);
        }
        lemma_text_len_is_first_nul(rest, nul, n - 1);
    }
}

/// No unit before `text_len` is `nul`.
pub proof fn lemma_text_has_no_nul<T>(field: Seq<T>, nul: T)
    ensures
        text_len(field, nul) <= field.len(),
        !text_units(field, nul).contains(nul),
    decreases field.len(),
{
    if field.len() > 0 && field[0] != nul {
        let rest = field.drop_first();
        lemma_text_has_no_nul(rest, nul);
        let units = text_units(field, nul);
        assert forall|i: int| 0 <= i < units.len() implies units[i] != nul by {
            if i > 0 {
                assert(units[i] == text_units(rest, nul)[i - 1]);
            }
        }
    }
}

/// A field whose first NUL follows `text` reads as `text`, whatever comes
/// after the NUL; a field that is `text` with no NUL at all reads the same.
pub proof fn lemma_text_ignores_tail<T>(text: Seq<T>, nul: T, tail: Seq<T>)
    requires
        !text.contains(nul),
    ensures
        text_units(text + seq![nul] + tail, nul) == text,
        text_units(text, nul) == text,
{
    let field = text + seq![nul] + tail;
    assert forall|j: int| 0 <= j < text.len() implies field[j] != nul by {
        assert(field[j] == text[j]);
    }
    assert(field[text.len() as int] == nul);
    lemma_text_len_is_first_nul(field, nul, text.len() as int);
    assert(text_units(field, nul) =~= text);
    lemma_text_len_is_first_nul(text, nul, text.len() as int);
    assert(text_units(text, nul) =~= text);
}

/// Nothing after the first NUL of a C `char` field matters: a field holding
/// `text` (with no NUL), a NUL and anything reads as `text` alone does.
pub proof fn lemma_c_field_text_ignores_tail(text: Seq<i8>, tail: Seq<i8>)
    requires
        !text.contains(0i8),
    ensures
        c_field_text(text + seq![0i8] + tail) == c_field_text(text),
{
    lemma_text_ignores_tail(text, 0i8, tail);
}

/// Nothing after the first NUL of a UTF-16 field matters: a field holding
/// `text` (with no NUL), a NUL and anything reads as `text` alone does.
pub proof fn lemma_utf16_field_text_ignores_tail(text: Seq<u16>, tail: Seq<u16>)
    requires
        !text.contains(0u16),
    ensures
        utf16_field_text(text + seq![0u16] + tail) == utf16_field_text(text),
{
    lemma_text_ignores_tail(text, 0u16, tail);
}

/// Text with no NUL character, stored in a UTF-16 field with a NUL after
/// it, or filling the field with none, is read back exactly.
pub proof fn lemma_utf16_field_round_trip(text: Seq<char>)
    requires
        !text.contains('\0'),
    ensures
        utf16_field_text(encode_utf16(text) + seq![0u16]) == text,
        utf16_field_text(encode_utf16(text)) == text,
{
    lemma_encode_utf16_no_nul(text);
    lemma_text_ignores_tail(encode_utf16(text), 0u16, Seq::empty());
    assert(encode_utf16(text) + seq![0u16] + Seq::<u16>::empty() =~= encode_utf16(text) + seq![0u16]);
    lemma_decode_encode_utf16(text);
}

/// The UTF-8 encoding of a scalar value other than zero holds no zero byte.
proof fn lemma_encode_scalar_no_zero(v: u32)
    requires
        v != 0,
    ensures
        !encode_scalar(v).contains(0u8),
{
    let e = encode_scalar(v);
    assert(1 <= v <= 0x7F ==> (v & 0x7F) as u8 != 0u8) by (bit_vector);
    assert(0xC0u8 | ((v >> 6) & 0x1F) as u8 != 0u8) by (bit_vector);
    assert(0xE0u8 | ((v >> 12) & 0x0F) as u8 != 0u8) by (bit_vector);
    assert(0xF0u8 | ((v >> 18) & 0x7) as u8 != 0u8) by (bit_vector);
    assert(0x80u8 | (v & 0x3F) as u8 != 0u8) by (bit_vector);
    assert(0x80u8 | ((v >> 6) & 0x3F) as u8 != 0u8) by (bit_vector);
    assert(0x80u8 | ((v >> 12) & 0x3F) as u8 != 0u8) by (bit_vector);
    assert forall|i: int| 0 <= i < e.len() implies e[i] != 0u8 by {}
}

/// The UTF-8 encoding of text with no NUL character holds no zero byte.
pub proof fn lemma_encode_utf8_no_zero(text: Seq<char>)
    requires
        !text.contains('\0'),
    ensures
        !encode_utf8(text).contains(0u8),
    decreases text.len(),
{
    if text.len() > 0 {
        let rest = text.drop_first();
        assert(!rest.contains('\0')) by {
            if rest.contains('\0') {
                let i = choose|i: int| 0 <= i < rest.len() && rest[i] == '\0';
                assert(text[i + 1] == '\0');
            }
        }
        lemma_encode_utf8_no_zero(rest);
        let c = text[0];
        assert(c != '\0');
        if c as u32 == 0 {
            char_u32_cast(c, c as u32);
            char_u32_cast('\0', '\0' as u32);
            assert('\0' as u32 == 0);
        }
        lemma_encode_scalar_no_zero(c as u32);
        let head = encode_scalar(c as u32);
        let whole = encode_utf8(text);
        assert(whole == head + encode_utf8(rest));
        assert forall|i: int| 0 <= i < whole.len() implies whole[i] != 0u8 by {
            if i < head.len() {
                assert(whole[i] == head[i]);
            } else {
                assert(whole[i] == encode_utf8(rest)[i - head.len()]);
            }
        }
    }
}

/// Text with no NUL character, stored in a C `char` field as its UTF-8
/// bytes followed by a NUL and anything at all, or filling the field with
/// no NUL, is read back exactly: the bytes read are valid UTF-8 and decode
/// to the text.
pub proof fn lemma_utf8_field_round_trip(text: Seq<char>, tail: Seq<i8>)
    requires
        !text.contains('\0'),
    ensures
        ({
            let bytes = encode_utf8(text).map_values(|b: u8| b as i8);
            &&& valid_utf8(c_text_bytes(bytes + seq![0i8] + tail))
            &&& decode_utf8(c_text_bytes(bytes + seq![0i8] + tail)) == text
            &&& valid_utf8(c_text_bytes(bytes))
            &&& decode_utf8(c_text_bytes(bytes)) == text
        }),
{
    let encoded = encode_utf8(text);
    let bytes = encoded.map_values(|b: u8| b as i8);
    lemma_encode_utf8_no_zero(text);
    assert(!bytes.contains(0i8)) by {
        if bytes.contains(0i8) {
            let i = choose|i: int| 0 <= i < bytes.len() && bytes[i] == 0i8;
            let b = encoded[i];
            assert(b as i8 == 0i8 ==> b == 0u8) by (bit_vector);
        }
    }
    lemma_text_ignores_tail(bytes, 0i8, tail);
    let read = bytes.map_values(|b: i8| b as u8);
    assert(read =~= encoded) by {
        assert forall|i: int| 0 <= i < encoded.len() implies #[trigger] read[i] == encoded[i] by {
            let b = encoded[i];
            assert((b as i8) as u8 == b) by (bit_vector);
        }
    }
    encode_utf8_valid_utf8(text);
    encode_utf8_decode_utf8(text);
}

/// Wraps `String::from_utf8_lossy`. Its contract names the result and adds
/// what the documentation promises: valid input is decoded unchanged, and
/// otherwise only invalid sequences are replaced (by U+FFFD), so a NUL
/// character comes only from a zero byte, its one encoding. What the
/// replacement gives for each invalid sequence is left to the name.
#[verifier::external_body]
fn decode_utf8_lossy(bytes: &[u8]) -> (text: String)
    ensures
        text@ == utf8_lossy(bytes@),
        valid_utf8(bytes@) ==> text@ == decode_utf8(bytes@),
        !bytes@.contains(0u8) ==> !text@.contains('\0'),
{
    String::from_utf8_lossy(bytes).into_owned()
}

/// Wraps `String::from_utf16_lossy`: UTF-16 decoding in which every
/// unpaired surrogate becomes U+FFFD, as `decode_utf16_lossy` states it.
#[verifier::external_body]
fn utf16_to_string_lossy(units: &[u16]) -> (text: String)
    ensures
        text@ == decode_utf16_lossy(units@),
{
    String::from_utf16_lossy(units)
}

/// Index of the first NUL in `bytes`, or its length when there is none.
fn c_text_end(bytes: &[i8]) -> (n: usize)
    ensures
        n == text_len(bytes@, 0i8),
        n <= bytes@.len(),
{
    let mut n: usize = 0;
    while n < bytes.len() && bytes[n] != 0
        invariant
            n <= bytes@.len(),
            forall|j: int| 0 <= j < n ==> bytes@[j] != 0i8,
        decreases bytes@.len() - n,
    {
        n = n + 1;
    }
    proof {
        lemma_text_len_is_first_nul(bytes@, 0i8, n as int);
    }
    n
}

/// Index of the first NUL in `units`, or its length when there is none.
fn utf16_text_end(units: &[u16]) -> (n: usize)
    ensures
        n == text_len(units@, 0u16),
        n <= units@.len(),
{
    let mut n: usize = 0;
    while n < units.len() && units[n] != 0
        invariant
            n <= units@.len(),
            forall|j: int| 0 <= j < n ==> units@[j] != 0u16,
        decreases units@.len() - n,
    {
        n = n + 1;
    }
    proof {
        lemma_text_len_is_first_nul(units@, 0u16, n as int);
    }
    n
}

/// Reads the text of a C `char` field: the bytes before the first NUL (all
/// of them when there is none), reinterpreted as unsigned and decoded as
/// UTF-8, invalid sequences replaced. The text holds no NUL character.
pub fn extract_cstring(bytes: &[i8]) -> (text: String)
    ensures
        text@ == c_field_text(bytes@),
        valid_utf8(c_text_bytes(bytes@)) ==> text@ == decode_utf8(c_text_bytes(bytes@)),
        !text@.contains('\0'),
{
    let len = c_text_end(bytes);
    let mut raw: Vec<u8> = Vec::new();
    let mut i: usize = 0;
    while i < len
        invariant
            len == text_len(bytes@, 0i8),
            len <= bytes@.len(),
            i <= len,
            raw@ == bytes@.take(i as int).map_values(|b: i8| b as u8),
        decreases len - i,
    {
        raw.push(#[verifier::truncate] (bytes[i] as u8));
        i = i + 1;
        assert(raw@ =~= bytes@.take(i as int).map_values(|b: i8| b as u8));
    }
    assert(raw@ =~= c_text_bytes(bytes@));
    proof {
        lemma_text_has_no_nul(bytes@, 0i8);
        let prefix = text_units(bytes@, 0i8);
        assert forall|j: int| 0 <= j < raw@.len() implies raw@[j] != 0u8 by {
            let b = prefix[j];
            assert(b != 0i8);
            assert(b != 0i8 ==> (b as u8) != 0u8) by (bit_vector);
        }
    }
    decode_utf8_lossy(raw.as_slice())
}

/// Reads the text of a UTF-16 field: the code units before the first NUL
/// (all of them when there is none), decoded with unpaired surrogates
/// replaced. The text holds no NUL character.
pub fn extract_cstring_utf16(bytes: &[u16]) -> (text: String)
    ensures
        text@ == utf16_field_text(bytes@),
        !text@.contains('\0'),
{
    let len = utf16_text_end(bytes);
    let mut units: Vec<u16> = Vec::new();
    let mut i: usize = 0;
    while i < len
        invariant
            len == text_len(bytes@, 0u16),
            len <= bytes@.len(),
            i <= len,
            units@ == bytes@.take(i as int),
        decreases len - i,
    {
        units.push(bytes[i]);
        i = i + 1;
        assert(units@ =~= bytes@.take(i as int));
    }
    assert(units@ =~= c_text_units16(bytes@));
    proof {
        lemma_text_has_no_nul(bytes@, 0u16);
        lemma_decode_utf16_no_nul(units@);
    }
    utf16_to_string_lossy(units.as_slice())
}

} // verus!
