//! Reading a text back into the number it denotes, and the proof that
//! writing and then reading returns the number that was written.

use vstd::prelude::*;
use crate::alphabet::legible;
use crate::encode::encode;
use crate::encode::lemma_quotient_smaller;
use crate::encode::remaining;
use crate::encode::zero_run;

verus! {

/// The digit that a glyph stands for: its place in the alphabet.
pub open spec fn digit_of(alphabet: Seq<char>, glyph: char) -> nat {
    choose|d: nat| d < alphabet.len() && alphabet[d as int] == glyph
}

/// The number that a text denotes, by counting: each glyph multiplies what
/// stands before it by the base and adds its own digit.
pub open spec fn decode(text: Seq<char>, alphabet: Seq<char>) -> nat
    decreases text.len(),
{
    if text.len() == 0 {
        0
    } else {
        decode(text.drop_last(), alphabet) * alphabet.len() + digit_of(alphabet, text.last())
    }
}

/// In a legible alphabet the glyph of a digit stands for that digit alone.
pub proof fn lemma_digit_of_glyph(alphabet: Seq<char>, d: nat)
    requires
        legible(alphabet),
        d < alphabet.len(),
    ensures
        digit_of(alphabet, alphabet[d as int]) == d,
{
    let found = digit_of(alphabet, alphabet[d as int]);
    assert(found < alphabet.len() && alphabet[found as int] == alphabet[d as int]);
}

/// Padding alone denotes zero.
pub proof fn lemma_decode_zero_run(alphabet: Seq<char>, count: nat)
    requires
        legible(alphabet),
    ensures
        decode(zero_run(alphabet, count), alphabet) == 0,
    decreases count,
{
    if count > 0 {
        let run = zero_run(alphabet, count);
        assert(run.drop_last() =~= zero_run(alphabet, (count - 1) as nat));
        lemma_decode_zero_run(alphabet, (count - 1) as nat);
        lemma_digit_of_glyph(alphabet, 0);
        assert(decode(run.drop_last(), alphabet) * alphabet.len() == 0) by (nonlinear_arith)
            requires
                decode(run.drop_last(), alphabet) == 0,
        ;
    }
}

/// Round trip: reading the text of `n` against the alphabet it was written
/// in gives `n` again, whatever the minimum width.
pub proof fn lemma_decode_encode(n: nat, alphabet: Seq<char>, min_width: nat)
    requires
        legible(alphabet),
    ensures
        decode(encode(n, alphabet, min_width), alphabet) == n,
    decreases n,
{
    let base = alphabet.len();
    if n == 0 {
        lemma_decode_zero_run(alphabet, min_width);
    } else {
        lemma_quotient_smaller(n, base);
        let front = encode(n / base, alphabet, remaining(min_width, 1));
        let text = encode(n, alphabet, min_width);
        assert(text == front.push(alphabet[(n % base) as int]));
        assert(text.drop_last() =~= front);
        lemma_decode_encode(n / base, alphabet, remaining(min_width, 1));
        lemma_digit_of_glyph(alphabet, n % base);
        assert((n / base) * base + n % base == n) by (nonlinear_arith)
            requires
                base >= 2,
        ;
    }
}

/// No two numbers share a text: texts that are equal, at whatever minimum
/// widths they were written, are texts of the same number.
pub proof fn lemma_encode_injective(
    a: nat,
    b: nat,
    alphabet: Seq<char>,
    width_a: nat,
    width_b: nat,
)
    requires
        legible(alphabet),
        encode(a, alphabet, width_a) == encode(b, alphabet, width_b),
    ensures
        a == b,
{
    lemma_decode_encode(a, alphabet, width_a);
    lemma_decode_encode(b, alphabet, width_b);
}

} // verus!
