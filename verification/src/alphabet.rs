//! The alphabets in which identifiers are written, and what holds of them.

use vstd::prelude::*;
use vstd::utf8::is_ascii_chars;

verus! {

/// The digits, then the lower-case letters: 36 glyphs in ascending order.
pub const BASE36: &'static str = "0123456789abcdefghijklmnopqrstuvwxyz";

/// Digits and letters without `0`, `O`, `I` and `l`, which are easily
/// mistaken for one another: 58 glyphs.
pub const BASE58: &'static str = "123456789ABCDEFGHJKLMNPQRSTUVWXYZabcdefghijkmnopqrstuvwxyz";

/// Upper-case letters, lower-case letters, digits, then punctuation: 91
/// glyphs.
pub const BASE91: &'static str =
    "ABCDEFGHIJKLMNOPQRSTUVWXYZabcdefghijklmnopqrstuvwxyz0123456789!#$%&()*+,./:;<=>?@[]^_`{|}~\"";

/// The sixteen lower-case hexadecimal digits.
pub const HEX: &'static str = "0123456789abcdef";

/// The glyphs that an alphabet given as bytes stands for, one per byte.
pub open spec fn glyphs(alphabet: Seq<u8>) -> Seq<char> {
    Seq::new(alphabet.len(), |i: int| alphabet[i] as char)
}

/// Whether every byte of the alphabet is an ASCII character, so that one
/// byte is one glyph.
pub open spec fn ascii_alphabet(alphabet: Seq<u8>) -> bool {
    forall|i: int| 0 <= i < alphabet.len() ==> alphabet[i] < 128
}

/// Whether texts in this alphabet can be read back: it has at least two
/// glyphs, and no glyph stands for two digits.
pub open spec fn legible(alphabet: Seq<char>) -> bool {
    &&& alphabet.len() >= 2
    &&& forall|i: int, j: int| 0 <= i < j < alphabet.len() ==> alphabet[i] != alphabet[j]
}

/// Whether the glyphs ascend with the digits they stand for.
pub open spec fn ascending(alphabet: Seq<char>) -> bool {
    forall|i: int, j: int| 0 <= i < j < alphabet.len() ==> alphabet[i] < alphabet[j]
}

/// `BASE36` has 36 ASCII glyphs, all different, in ascending order.
pub proof fn lemma_base36_glyphs()
    ensures
        BASE36@.len() == 36,
        is_ascii_chars(BASE36@),
        legible(BASE36@),
        ascending(BASE36@),
{
    reveal_strlit("0123456789abcdefghijklmnopqrstuvwxyz");
}

/// `BASE58` has 58 ASCII glyphs, all different, in ascending order.
pub proof fn lemma_base58_glyphs()
    ensures
        BASE58@.len() == 58,
        is_ascii_chars(BASE58@),
        legible(BASE58@),
        ascending(BASE58@),
{
    reveal_strlit("123456789ABCDEFGHJKLMNPQRSTUVWXYZabcdefghijkmnopqrstuvwxyz");
}

/// `BASE91` has 91 ASCII glyphs, all different. They do not ascend: the
/// digits come after the letters.
pub proof fn lemma_base91_glyphs()
    ensures
        BASE91@.len() == 91,
        is_ascii_chars(BASE91@),
        legible(BASE91@),
        !ascending(BASE91@),
{
    reveal_strlit(
        "ABCDEFGHIJKLMNOPQRSTUVWXYZabcdefghijklmnopqrstuvwxyz0123456789!#$%&()*+,./:;<=>?@[]^_`{|}~\"",
    );
    assert(BASE91@[51] == 'z' && BASE91@[52] == '0');
}

/// `HEX` has 16 ASCII glyphs, all different, in ascending order.
pub proof fn lemma_hex_glyphs()
    ensures
        HEX@.len() == 16,
        is_ascii_chars(HEX@),
        legible(HEX@),
        ascending(HEX@),
{
    reveal_strlit("0123456789abcdef");
}

} // verus!
