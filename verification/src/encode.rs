//! Positional notation: an unsigned integer written in a given alphabet,
//! most significant glyph first, left-padded with the alphabet's first glyph
//! up to a minimum width.

use vstd::prelude::*;
use vstd::string::StringExecFns;
use vstd::utf8::is_ascii_chars;
use vstd::utf8::is_ascii_chars_encode_utf8;
use crate::alphabet::ascii_alphabet;
use crate::alphabet::glyphs;
use crate::alphabet::lemma_base36_glyphs;
use crate::alphabet::lemma_base58_glyphs;
use crate::alphabet::lemma_base91_glyphs;
use crate::alphabet::lemma_hex_glyphs;
use crate::alphabet::BASE36;
use crate::alphabet::BASE58;
use crate::alphabet::BASE91;
use crate::alphabet::HEX;

verus! {

/// `String::push` of the standard library: the character is appended, and
/// what the string held before stays in front of it. Taken on trust from its
/// documentation.
pub assume_specification[ String::push ](text: &mut String, glyph: char)
    ensures
        final(text)@ == old(text)@.push(glyph),
;

/// `count` copies of the alphabet's first glyph, which stands for zero.
pub open spec fn zero_run(alphabet: Seq<char>, count: nat) -> Seq<char> {
    Seq::new(count, |i: int| alphabet[0])
}

/// `width` less `taken`, and zero where that would be negative.
pub open spec fn remaining(width: nat, taken: nat) -> nat {
    if width > taken {
        (width - taken) as nat
    } else {
        0
    }
}

/// The text of `n` in the base given by the alphabet's length: the glyph of
/// `n % base` comes last, before it the text of `n / base`, and zero is
/// written as `min_width` zero glyphs. The text is never shorter than
/// `min_width` and never cut: a number with more digits keeps them all.
pub open spec fn encode(n: nat, alphabet: Seq<char>, min_width: nat) -> Seq<char>
    decreases n,
    via encode_terminates
{
    if n == 0 || alphabet.len() < 2 {
        zero_run(alphabet, min_width)
    } else {
        encode(n / alphabet.len(), alphabet, remaining(min_width, 1)).push(
            alphabet[(n % alphabet.len()) as int],
        )
    }
}

/// How many digits `n` has in `base`. Zero has none: its text is padding only.
pub open spec fn digit_count(n: nat, base: nat) -> nat
    decreases n,
    via digit_count_terminates
{
    if n == 0 || base < 2 {
        0
    } else {
        1 + digit_count(n / base, base)
    }
}

/// Dividing a positive number by a base of two or more makes it smaller.
pub proof fn lemma_quotient_smaller(n: nat, base: nat)
    by (nonlinear_arith)
    requires
        n > 0,
        base >= 2,
    ensures
        n / base < n,
{
}

#[via_fn]
proof fn encode_terminates(n: nat, alphabet: Seq<char>, min_width: nat) {
    if n > 0 && alphabet.len() >= 2 {
        lemma_quotient_smaller(n, alphabet.len());
    }
}

#[via_fn]
proof fn digit_count_terminates(n: nat, base: nat) {
    if n > 0 && base >= 2 {
        lemma_quotient_smaller(n, base);
    }
}

/// The larger of two lengths.
pub open spec fn longer(a: nat, b: nat) -> nat {
    if a >= b {
        a
    } else {
        b
    }
}

/// The glyphs of digits collected least significant first, read in the
/// order in which they are written.
spec fn written(collected: Seq<u8>) -> Seq<char> {
    Seq::new(collected.len(), |i: int| collected[collected.len() - 1 - i] as char)
}

/// The length of a text is its minimum width or its digit count, whichever
/// is larger.
pub proof fn lemma_encode_len(n: nat, alphabet: Seq<char>, min_width: nat)
    ensures
        encode(n, alphabet, min_width).len() == longer(min_width, digit_count(n, alphabet.len())),
    decreases n,
{
    if n > 0 && alphabet.len() >= 2 {
        lemma_quotient_smaller(n, alphabet.len());
        lemma_encode_len(n / alphabet.len(), alphabet, remaining(min_width, 1));
    }
}

/// Writes `n` in the given base with the given alphabet, left-padded with
/// the alphabet's first glyph to at least `min_width` glyphs.
///
/// The alphabet has one ASCII glyph per digit value. Zero is written with
/// any alphabet that has a first glyph; a positive number needs a base of
/// two or more.
pub fn to_base(n: u128, base: usize, alphabet: &[u8], min_width: usize) -> (text: String)
    requires
        alphabet@.len() == base,
        base >= 1,
        n > 0 ==> base >= 2,
        ascii_alphabet(alphabet@),
    ensures
        text@ == encode(n as nat, glyphs(alphabet@), min_width as nat),
        text@.len() == longer(min_width as nat, digit_count(n as nat, base as nat)),
        n == 0 ==> text@ == zero_run(glyphs(alphabet@), min_width as nat),
{
    let ghost g = glyphs(alphabet@);
    let ghost w = min_width as nat;
    let mut collected: Vec<u8> = Vec::new();
    let mut m: u128 = n;
    let b: u128 = base as u128;
    while m > 0
        invariant
            b == base,
            base == alphabet@.len(),
            n > 0 ==> base >= 2,
            m <= n,
            g == glyphs(alphabet@),
            w == min_width as nat,
            encode(n as nat, g, w) == encode(m as nat, g, remaining(w, collected@.len()))
                + written(collected@),
        decreases m,
    {
        let d: usize = (m % b) as usize;
        let glyph: u8 = alphabet[d];
        proof {
            lemma_quotient_smaller(m as nat, base as nat);
            let rest = encode((m / b) as nat, g, remaining(remaining(w, collected@.len()), 1));
            assert(encode(m as nat, g, remaining(w, collected@.len())) == rest.push(g[d as int]));
            assert(written(collected@.push(glyph)) =~= seq![glyph as char] + written(collected@));
            assert(rest.push(g[d as int]) + written(collected@) =~= rest + written(
                collected@.push(glyph),
            ));
        }
        collected.push(glyph);
        m = m / b;
    }
    let count: usize = collected.len();
    let mut text = String::new();
    let mut i: usize = count;
    while i < min_width
        invariant
            count <= i,
            i <= min_width || i == count,
            alphabet@.len() >= 1,
            g == glyphs(alphabet@),
            text@ == zero_run(g, (i - count) as nat),
        decreases min_width - i,
    {
        text.push(alphabet[0] as char);
        i += 1;
        assert(text@ =~= zero_run(g, (i - count) as nat));
    }
    assert(text@ =~= zero_run(g, remaining(w, count as nat)));
    let ghost pad = text@;
    let mut j: usize = count;
    while j > 0
        invariant
            j <= count,
            count == collected@.len(),
            text@ == pad + written(collected@).subrange(0, count - j),
        decreases j,
    {
        j -= 1;
        text.push(collected[j] as char);
        assert(text@ =~= pad + written(collected@).subrange(0, count - j));
    }
    assert(written(collected@).subrange(0, count as int) =~= written(collected@));
    proof {
        lemma_encode_len(n as nat, g, w);
    }
    text
}

/// The text of an identifier of four limbs: the texts of the limbs, each
/// padded to `min_width`, joined in order. The limbs are written one by one,
/// not as one large number.
pub open spec fn encode_limbs(limbs: Seq<u64>, alphabet: Seq<char>, min_width: nat) -> Seq<char> {
    encode(limbs[0] as nat, alphabet, min_width) + encode(limbs[1] as nat, alphabet, min_width)
        + encode(limbs[2] as nat, alphabet, min_width) + encode(
        limbs[3] as nat,
        alphabet,
        min_width,
    )
}

/// Writes the four limbs of an identifier with `to_base`, one after the
/// other, and joins the texts.
pub fn limbs_to_base(limbs: &[u64; 4], base: usize, alphabet: &[u8], min_width: usize) -> (text:
    String)
    requires
        alphabet@.len() == base,
        base >= 2,
        ascii_alphabet(alphabet@),
    ensures
        text@ == encode_limbs(limbs@, glyphs(alphabet@), min_width as nat),
{
    let mut text = to_base(limbs[0] as u128, base, alphabet, min_width);
    let second = to_base(limbs[1] as u128, base, alphabet, min_width);
    text.append(second.as_str());
    let third = to_base(limbs[2] as u128, base, alphabet, min_width);
    text.append(third.as_str());
    let fourth = to_base(limbs[3] as u128, base, alphabet, min_width);
    text.append(fourth.as_str());
    text
}

/// The bytes of an ASCII alphabet, one per glyph.
pub(crate) fn alphabet_bytes(alphabet: &'static str) -> (bytes: &'static [u8])
    requires
        is_ascii_chars(alphabet@),
    ensures
        bytes@.len() == alphabet@.len(),
        ascii_alphabet(bytes@),
        glyphs(bytes@) == alphabet@,
{
    let bytes = alphabet.as_bytes();
    proof {
        is_ascii_chars_encode_utf8(alphabet@);
        assert(glyphs(bytes@) =~= alphabet@);
    }
    bytes
}

/// Writes `n` in base 58 with `BASE58`, padded to at least `width` glyphs.
pub fn base58(n: u128, width: usize) -> (text: String)
    ensures
        text@ == encode(n as nat, BASE58@, width as nat),
        text@.len() == longer(width as nat, digit_count(n as nat, 58)),
{
    proof {
        lemma_base58_glyphs();
    }
    to_base(n, 58, alphabet_bytes(BASE58), width)
}

/// Writes `n` in base 91 with `BASE91`, padded to at least `width` glyphs.
pub fn base91(n: u128, width: usize) -> (text: String)
    ensures
        text@ == encode(n as nat, BASE91@, width as nat),
        text@.len() == longer(width as nat, digit_count(n as nat, 91)),
{
    proof {
        lemma_base91_glyphs();
    }
    to_base(n, 91, alphabet_bytes(BASE91), width)
}

/// Writes `n` in base 36 with `BASE36`, padded to at least `width` glyphs.
pub fn base36(n: u128, width: usize) -> (text: String)
    ensures
        text@ == encode(n as nat, BASE36@, width as nat),
        text@.len() == longer(width as nat, digit_count(n as nat, 36)),
{
    proof {
        lemma_base36_glyphs();
    }
    to_base(n, 36, alphabet_bytes(BASE36), width)
}

/// Writes `n` in lower-case hexadecimal with `HEX`, zero-padded to at least
/// `width` digits: the same length and the same case as the other
/// encodings give, zero with width zero being the empty text.
pub fn hex(n: u128, width: usize) -> (text: String)
    ensures
        text@ == encode(n as nat, HEX@, width as nat),
        text@.len() == longer(width as nat, digit_count(n as nat, 16)),
{
    proof {
        lemma_hex_glyphs();
    }
    to_base(n, 16, alphabet_bytes(HEX), width)
}

} // verus!
