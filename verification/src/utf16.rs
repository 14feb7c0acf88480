//! UTF-16 as the VST3 SDK stores text (bus names): decoding with unpaired
//! surrogates replaced, and the encoding it undoes.
use vstd::prelude::*;
use vstd::utf8::{char_is_scalar, char_u32_cast};

verus! {

/// A UTF-16 code unit that is half of a surrogate pair.
pub open spec fn is_surrogate(unit: u16) -> bool {
    0xD800 <= unit <= 0xDFFF
}

/// The first half of a surrogate pair.
pub open spec fn is_high_surrogate(unit: u16) -> bool {
    0xD800 <= unit <= 0xDBFF
}

/// The second half of a surrogate pair.
pub open spec fn is_low_surrogate(unit: u16) -> bool {
    0xDC00 <= unit <= 0xDFFF
}

/// The character a code unit outside the surrogates stands for.
pub open spec fn unit_char(unit: u16) -> char {
    unit as u32 as char
}

/// The character a surrogate pair stands for.
pub open spec fn pair_char(high: u16, low: u16) -> char {
    (0x10000 + (high - 0xD800) * 0x400 + (low - 0xDC00)) as u32 as char
}

/// UTF-16 decoding with replacement, as `String::from_utf16_lossy` does it:
/// a unit outside the surrogates is its own character, a high surrogate
/// followed by a low one is the character of the pair, and every other
/// surrogate becomes U+FFFD (a high surrogate not followed by a low one
/// leaves the next unit to be decoded on its own).
pub open spec fn decode_utf16_lossy(units: Seq<u16>) -> Seq<char>
    decreases units.len(),
{
    if units.len() == 0 {
        Seq::empty()
    } else if !is_surrogate(units[0]) {
        seq![unit_char(units[0])] + decode_utf16_lossy(units.drop_first())
    } else if units.len() >= 2 && is_high_surrogate(units[0]) && is_low_surrogate(units[1]) {
        seq![pair_char(units[0], units[1])] + decode_utf16_lossy(units.subrange(2, units.len() as int))
    } else {
        seq!['\u{FFFD}'] + decode_utf16_lossy(units.drop_first())
    }
}

/// The UTF-16 encoding of one character: one unit below U+10000, a
/// surrogate pair above.
pub open spec fn encode_char_utf16(c: char) -> Seq<u16> {
    let v = c as u32;
    if v < 0x10000 {
        seq![v as u16]
    } else {
        seq![(0xD800 + (v - 0x10000) / 0x400) as u16, (0xDC00 + (v - 0x10000) % 0x400) as u16]
    }
}

/// The UTF-16 encoding of a character sequence, as `str::encode_utf16`
/// gives it.
pub open spec fn encode_utf16(chars: Seq<char>) -> Seq<u16>
    decreases chars.len(),
{
    if chars.len() == 0 {
        Seq::empty()
    } else {
        encode_char_utf16(chars[0]) + encode_utf16(chars.drop_first())
    }
}

/// Decoding a character's encoding, followed by anything, gives the
/// character followed by the decoding of what follows.
proof fn lemma_decode_encoded_char(c: char, rest: Seq<u16>)
    ensures
        decode_utf16_lossy(encode_char_utf16(c) + rest) == seq![c] + decode_utf16_lossy(rest),
{
    char_is_scalar(c);
    let v = c as u32;
    let units = encode_char_utf16(c) + rest;
    if v < 0x10000 {
        char_u32_cast(c, v);
        assert(units[0] == v as u16);
        assert(units[0] as u32 == v);
        assert(units.drop_first() =~= rest);
    } else {
        let w = v - 0x10000;
        assert(0 <= w / 0x400 < 0x400 && 0 <= w % 0x400 < 0x400 && (w / 0x400) * 0x400 + w % 0x400 == w)
            by (nonlinear_arith)
            requires
                0 <= w <= 0xFFFFF,
        ;
        let high = (0xD800 + w / 0x400) as u16;
        let low = (0xDC00 + w % 0x400) as u16;
        assert(units[0] == high);
        assert(units[1] == low);
        assert((0x10000 + (high - 0xD800) * 0x400 + (low - 0xDC00)) as u32 == v);
        char_u32_cast(c, v);
        assert(units.subrange(2, units.len() as int) =~= rest);
    }
}

/// Decoding the UTF-16 encoding of a character sequence gives it back.
pub proof fn lemma_decode_encode_utf16(chars: Seq<char>)
    ensures
        decode_utf16_lossy(encode_utf16(chars)) == chars,
    decreases chars.len(),
{
    if chars.len() > 0 {
        lemma_decode_encode_utf16(chars.drop_first());
        lemma_decode_encoded_char(chars[0], encode_utf16(chars.drop_first()));
        assert(seq![chars[0]] + chars.drop_first() =~= chars);
    }
}

/// The encoding of text with no NUL character holds no zero unit.
pub proof fn lemma_encode_utf16_no_nul(chars: Seq<char>)
    requires
        !chars.contains('\0'),
    ensures
        !encode_utf16(chars).contains(0u16),
    decreases chars.len(),
{
    if chars.len() > 0 {
        let rest = chars.drop_first();
        assert(!rest.contains('\0')) by {
            if rest.contains('\0') {
                let i = choose|i: int| 0 <= i < rest.len() && rest[i] == '\0';
                assert(chars[i + 1] == '\0');
            }
        }
        lemma_encode_utf16_no_nul(rest);
        let c = chars[0];
        assert(c != '\0');
        char_is_scalar(c);
        let head = encode_char_utf16(c);
        let whole = encode_utf16(chars);
        assert(whole == head + encode_utf16(rest));
        assert forall|i: int| 0 <= i < whole.len() implies whole[i] != 0u16 by {
            if i < head.len() {
                if c as u32 == 0 {
                    char_u32_cast(c, c as u32);
                    char_u32_cast('\0', '\0' as u32);
                    assert('\0' as u32 == 0);
                }
            } else {
                assert(whole[i] == encode_utf16(rest)[i - head.len()]);
            }
        }
    }
}

/// Decoding units with no zero unit gives text with no NUL character.
pub proof fn lemma_decode_utf16_no_nul(units: Seq<u16>)
    requires
        !units.contains(0u16),
    ensures
        !decode_utf16_lossy(units).contains('\0'),
    decreases units.len(),
{
    if units.len() > 0 {
        let rest = if !is_surrogate(units[0]) || !(units.len() >= 2 && is_high_surrogate(units[0])
            && is_low_surrogate(units[1])) {
            units.drop_first()
        } else {
            units.subrange(2, units.len() as int)
        };
        assert(!rest.contains(0u16)) by {
            if rest.contains(0u16) {
                let i = choose|i: int| 0 <= i < rest.len() && rest[i] == 0u16;
                assert(units[i + units.len() - rest.len()] == 0u16);
            }
        }
        lemma_decode_utf16_no_nul(rest);
        let first = decode_utf16_lossy(units)[0];
        assert(units[0] != 0u16);
        if !is_surrogate(units[0]) {
            let v = units[0] as u32;
            assert(first == v as char);
            char_u32_cast(first, first as u32);
            assert(first != '\0') by {
                if first == '\0' {
                    assert(('\0' as u32) == 0);
                }
            }
        }
        let out = decode_utf16_lossy(units);
        assert(out == seq![first] + decode_utf16_lossy(rest));
        assert forall|i: int| 0 <= i < out.len() implies out[i] != '\0' by {
            if i > 0 {
                assert(out[i] == decode_utf16_lossy(rest)[i - 1]);
            }
        }
    }
}

/// Units without surrogates decode one for one, each to the character of
/// its value.
pub proof fn lemma_decode_without_surrogates(units: Seq<u16>)
    requires
        forall|i: int| 0 <= i < units.len() ==> !is_surrogate(#[trigger] units[i]),
    ensures
        decode_utf16_lossy(units) == units.map_values(|u: u16| unit_char(u)),
    decreases units.len(),
{
    if units.len() > 0 {
        let rest = units.drop_first();
        assert forall|i: int| 0 <= i < rest.len() implies !is_surrogate(#[trigger] rest[i]) by {
            assert(rest[i] == units[i + 1]);
        }
        lemma_decode_without_surrogates(rest);
        assert(units.map_values(|u: u16| unit_char(u)) =~= seq![unit_char(units[0])] + rest.map_values(
            |u: u16| unit_char(u),
        ));
    }
}

} // verus!
