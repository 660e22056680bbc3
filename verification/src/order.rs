//! Dictionary order of texts, and the proof that fixed-width texts in an
//! ascending alphabet are ordered as the numbers they denote.

use vstd::prelude::*;
use crate::alphabet::ascending;
use crate::alphabet::lemma_base36_glyphs;
use crate::alphabet::lemma_base58_glyphs;
use crate::alphabet::lemma_base91_glyphs;
use crate::alphabet::lemma_hex_glyphs;
use crate::alphabet::BASE36;
use crate::alphabet::BASE58;
use crate::alphabet::BASE91;
use crate::alphabet::HEX;
use crate::encode::digit_count;
use crate::encode::encode;
use crate::encode::lemma_encode_len;
use crate::encode::lemma_quotient_smaller;
use crate::encode::zero_run;

verus! {

/// Whether `k` is a place at which `a` is seen to come before `b`: up to
/// `k` the two agree, and there `a` has the smaller glyph, or `a` ends and
/// `b` goes on.
pub open spec fn decided_at(a: Seq<char>, b: Seq<char>, k: int) -> bool {
    &&& 0 <= k <= a.len()
    &&& k <= b.len()
    &&& a.subrange(0, k) == b.subrange(0, k)
    &&& if k == a.len() {
        k < b.len()
    } else {
        k < b.len() && a[k] < b[k]
    }
}

/// Dictionary order: `a` comes strictly before `b` when, at the first place
/// where they differ, `a` has the smaller glyph, or `a` ends there and `b`
/// goes on.
pub open spec fn precedes(a: Seq<char>, b: Seq<char>) -> bool {
    exists|k: int| decided_at(a, b, k)
}

/// Dictionary order is a strict order: no text comes before itself, and of
/// two texts at most one comes before the other.
pub proof fn lemma_precedes_strict(a: Seq<char>, b: Seq<char>)
    ensures
        !precedes(a, a),
        precedes(a, b) ==> !precedes(b, a),
{
    if precedes(a, b) && precedes(b, a) {
        let k = choose|k: int| decided_at(a, b, k);
        let m = choose|m: int| decided_at(b, a, m);
        assert(decided_at(a, b, k) && decided_at(b, a, m));
        if k < m {
            assert(b.subrange(0, m)[k] == a.subrange(0, m)[k]);
        } else if m < k {
            assert(a.subrange(0, k)[m] == b.subrange(0, k)[m]);
        }
    }
}

/// How many numbers `width` digits in `base` can tell apart: `base` raised
/// to `width`.
pub open spec fn capacity(base: nat, width: nat) -> nat
    decreases width,
{
    if width == 0 {
        1
    } else {
        base * capacity(base, (width - 1) as nat)
    }
}

/// A number below the capacity of `width` digits has at most `width` digits.
pub proof fn lemma_digit_count_within(n: nat, base: nat, width: nat)
    requires
        base >= 2,
        n < capacity(base, width),
    ensures
        digit_count(n, base) <= width,
    decreases width,
{
    if n > 0 {
        assert(width > 0);
        let rest = capacity(base, (width - 1) as nat);
        assert(n / base < rest) by (nonlinear_arith)
            requires
                n < base * rest,
                base >= 2,
        ;
        lemma_digit_count_within(n / base, base, (width - 1) as nat);
    }
}

/// A smaller number has no more digits than a larger one.
pub proof fn lemma_digit_count_monotone(a: nat, b: nat, base: nat)
    requires
        a <= b,
    ensures
        digit_count(a, base) <= digit_count(b, base),
    decreases b,
{
    if a > 0 && base >= 2 {
        lemma_quotient_smaller(b, base);
        assert(a / base <= b / base) by (nonlinear_arith)
            requires
                a <= b,
                base >= 2,
        ;
        lemma_digit_count_monotone(a / base, b / base, base);
    }
}

/// With room for at least one glyph, every text, that of zero too, is the
/// text of the quotient followed by the glyph of the remainder.
pub proof fn lemma_encode_last(n: nat, alphabet: Seq<char>, min_width: nat)
    requires
        alphabet.len() >= 2,
        min_width >= 1,
    ensures
        encode(n, alphabet, min_width) == encode(
            n / alphabet.len(),
            alphabet,
            (min_width - 1) as nat,
        ).push(alphabet[(n % alphabet.len()) as int]),
{
    if n == 0 {
        assert(0nat / alphabet.len() == 0 && 0nat % alphabet.len() == 0) by (nonlinear_arith)
            requires
                alphabet.len() >= 2,
        ;
        assert(zero_run(alphabet, min_width) =~= zero_run(alphabet, (min_width - 1) as nat).push(
            alphabet[0],
        ));
    }
}

/// Order is kept: of two numbers that both fit in `width` digits, the smaller
/// one's text comes first in dictionary order, provided the alphabet ascends.
pub proof fn lemma_encode_ascends(a: nat, b: nat, alphabet: Seq<char>, width: nat)
    requires
        a < b,
        alphabet.len() >= 2,
        ascending(alphabet),
        digit_count(b, alphabet.len()) <= width,
    ensures
        precedes(encode(a, alphabet, width), encode(b, alphabet, width)),
    decreases b,
{
    let base = alphabet.len();
    let narrower = (width - 1) as nat;
    let (qa, ra) = (a / base, a % base);
    let (qb, rb) = (b / base, b % base);
    let text_a = encode(a, alphabet, width);
    let text_b = encode(b, alphabet, width);
    let front_a = encode(qa, alphabet, narrower);
    let front_b = encode(qb, alphabet, narrower);
    lemma_quotient_smaller(b, base);
    lemma_encode_last(a, alphabet, width);
    lemma_encode_last(b, alphabet, width);
    assert(qa <= qb && (qa == qb ==> ra < rb) && ra < base && rb < base) by (nonlinear_arith)
        requires
            a < b,
            base >= 2,
            qa == a / base,
            ra == a % base,
            qb == b / base,
            rb == b % base,
    ;
    lemma_digit_count_monotone(qa, qb, base);
    lemma_encode_len(qa, alphabet, narrower);
    lemma_encode_len(qb, alphabet, narrower);
    assert(front_a.len() == narrower && front_b.len() == narrower);
    if qa == qb {
        assert(text_a.subrange(0, narrower as int) =~= front_a);
        assert(text_b.subrange(0, narrower as int) =~= front_b);
        assert(text_a[narrower as int] < text_b[narrower as int]);
        assert(decided_at(text_a, text_b, narrower as int));
    } else {
        lemma_encode_ascends(qa, qb, alphabet, narrower);
        let k = choose|k: int| decided_at(front_a, front_b, k);
        assert(decided_at(front_a, front_b, k));
        assert(text_a.subrange(0, k) =~= front_a.subrange(0, k));
        assert(text_b.subrange(0, k) =~= front_b.subrange(0, k));
        assert(text_a[k] < text_b[k]);
        assert(decided_at(text_a, text_b, k));
    }
}

/// The widths at which identifiers are written leave no identifier short
/// of room: with 5, 5, 4 and 6 glyphs in base 36, 58, 91 and 16 every 24-bit
/// number can be told apart, with 7, 6, 5 and 8 every 32-bit number, with
/// 13, 11, 10 and 16 every 64-bit number, and with 25, 22, 20 and 32 every
/// 128-bit number.
pub proof fn lemma_widths_suffice()
    ensures
        capacity(36, 5) > 0xFF_FFFF,
        capacity(58, 5) > 0xFF_FFFF,
        capacity(91, 4) > 0xFF_FFFF,
        capacity(16, 6) > 0xFF_FFFF,
        capacity(36, 7) > u32::MAX,
        capacity(58, 6) > u32::MAX,
        capacity(91, 5) > u32::MAX,
        capacity(16, 8) > u32::MAX,
        capacity(36, 13) > u64::MAX,
        capacity(58, 11) > u64::MAX,
        capacity(91, 10) > u64::MAX,
        capacity(16, 16) > u64::MAX,
        capacity(36, 25) > u128::MAX,
        capacity(58, 22) > u128::MAX,
        capacity(91, 20) > u128::MAX,
        capacity(16, 32) > u128::MAX,
{
    reveal_with_fuel(capacity, 33);
}

/// Sequential identifiers sort as they were made: of two counter values the
/// smaller one's text comes first in dictionary order, in base 36 at 13
/// glyphs, in base 58 at 11 and in hexadecimal at 16.
pub proof fn lemma_sequential_ascends(earlier: u64, later: u64)
    requires
        earlier < later,
    ensures
        precedes(encode(earlier as nat, BASE36@, 13), encode(later as nat, BASE36@, 13)),
        precedes(encode(earlier as nat, BASE58@, 11), encode(later as nat, BASE58@, 11)),
        precedes(encode(earlier as nat, HEX@, 16), encode(later as nat, HEX@, 16)),
{
    lemma_widths_suffice();
    lemma_base36_glyphs();
    lemma_base58_glyphs();
    lemma_hex_glyphs();
    lemma_digit_count_within(later as nat, 36, 13);
    lemma_digit_count_within(later as nat, 58, 11);
    lemma_digit_count_within(later as nat, 16, 16);
    lemma_encode_ascends(earlier as nat, later as nat, BASE36@, 13);
    lemma_encode_ascends(earlier as nat, later as nat, BASE58@, 11);
    lemma_encode_ascends(earlier as nat, later as nat, HEX@, 16);
}

/// In base 91 sequential identifiers do not sort as they were made: the
/// text of 51 ends in `z`, that of 52 in `0`, and `z` comes after `0`.
pub proof fn lemma_base91_out_of_order()
    ensures
        !precedes(encode(51, BASE91@, 10), encode(52, BASE91@, 10)),
{
    lemma_base91_glyphs();
    reveal_strlit(
        "ABCDEFGHIJKLMNOPQRSTUVWXYZabcdefghijklmnopqrstuvwxyz0123456789!#$%&()*+,./:;<=>?@[]^_`{|}~\"",
    );
    reveal_with_fuel(encode, 2);
    let a = encode(51, BASE91@, 10);
    let b = encode(52, BASE91@, 10);
    assert(a =~= zero_run(BASE91@, 9).push('z'));
    assert(b =~= zero_run(BASE91@, 9).push('0'));
    assert forall|k: int| !decided_at(a, b, k) by {
        if 0 <= k < 9 {
            assert(a[k] == b[k]);
        }
    }
}

} // verus!
