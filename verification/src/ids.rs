//! Identifiers as text: one call makes one identifier with the generator of
//! node 1, shard 0, and writes it in the chosen alphabet at the width that
//! its size calls for. A batch is so many single calls, one after the other.

use vstd::prelude::*;
use vstd::utf8::is_ascii_chars;
use crate::alphabet::legible;
use crate::alphabet::lemma_base36_glyphs;
use crate::alphabet::lemma_base58_glyphs;
use crate::alphabet::lemma_base91_glyphs;
use crate::alphabet::lemma_hex_glyphs;
use crate::alphabet::BASE36;
use crate::alphabet::BASE58;
use crate::alphabet::BASE91;
use crate::alphabet::HEX;
use crate::decode::decode;
use crate::decode::lemma_decode_encode;
use crate::encode::alphabet_bytes;
use crate::encode::base36;
use crate::encode::base58;
use crate::encode::base91;
use crate::encode::encode;
use crate::encode::encode_limbs;
use crate::encode::hex;
use crate::encode::lemma_encode_len;
use crate::encode::limbs_to_base;
use crate::generator::is_id128;
use crate::generator::is_id24;
use crate::generator::is_id256;
use crate::generator::is_id32;
use crate::generator::is_id64;
use crate::generator::xgen;
use crate::generator::DEFAULT_NODE;
use crate::generator::DEFAULT_SHARD;
use crate::order::capacity;
use crate::order::lemma_digit_count_within;
use crate::order::lemma_widths_suffice;
use crate::state::SharedState;

verus! {

/// Selects 24-bit identifiers.
#[allow(non_upper_case_globals)]
pub const x24: usize = 24;

/// Selects 32-bit identifiers.
#[allow(non_upper_case_globals)]
pub const x32: usize = 32;

/// Selects 64-bit identifiers.
#[allow(non_upper_case_globals)]
pub const x64: usize = 64;

/// Selects 128-bit identifiers.
#[allow(non_upper_case_globals)]
pub const x128: usize = 128;

/// Selects 256-bit identifiers.
#[allow(non_upper_case_globals)]
pub const x256: usize = 256;

/// The entry point for identifiers of `BITS` bits: 24, 32, 64, 128 or 256.
pub struct AtomicId<const BITS: usize>;

/// Whether `text` is a 24-bit identifier written in `alphabet` at `width`.
pub open spec fn is_text24(text: Seq<char>, alphabet: Seq<char>, width: nat) -> bool {
    exists|id: u32| #[trigger] is_id24(id) && text == encode(id as nat, alphabet, width)
}

/// Whether `text` is a 32-bit identifier of this thread, written in
/// `alphabet` at `width`.
pub open spec fn is_text32(
    text: Seq<char>,
    alphabet: Seq<char>,
    width: nat,
    thread_id: u8,
) -> bool {
    exists|id: u32| #[trigger] is_id32(id, thread_id) && text == encode(id as nat, alphabet, width)
}

/// Whether `text` is a 64-bit identifier of the default generator and this
/// thread, written in `alphabet` at `width`.
pub open spec fn is_text64(
    text: Seq<char>,
    alphabet: Seq<char>,
    width: nat,
    thread_id: u8,
) -> bool {
    exists|id: u64| #[trigger]
        is_id64(id, DEFAULT_NODE, DEFAULT_SHARD, thread_id) && text == encode(
            id as nat,
            alphabet,
            width,
        )
}

/// Whether `text` is a 128-bit identifier of the default generator and this
/// thread, written in `alphabet` at `width`.
pub open spec fn is_text128(
    text: Seq<char>,
    alphabet: Seq<char>,
    width: nat,
    thread_id: u8,
) -> bool {
    exists|id: u128| #[trigger]
        is_id128(id, DEFAULT_NODE, DEFAULT_SHARD, thread_id) && text == encode(
            id as nat,
            alphabet,
            width,
        )
}

/// Whether `text` is a 256-bit identifier of the default generator and this
/// thread, each of its four limbs written in `alphabet` at `width`.
pub open spec fn is_text256(
    text: Seq<char>,
    alphabet: Seq<char>,
    width: nat,
    thread_id: u8,
) -> bool {
    exists|id: Seq<u64>| #[trigger]
        is_id256(id, DEFAULT_NODE, DEFAULT_SHARD, thread_id) && text == encode_limbs(
            id,
            alphabet,
            width,
        )
}

/// Whether `text` is a 64-bit counter value written in `alphabet` at
/// `width`.
pub open spec fn is_sequential_text(text: Seq<char>, alphabet: Seq<char>, width: nat) -> bool {
    exists|n: u64| text == #[trigger] encode(n as nat, alphabet, width)
}

/// Reading a text identifier back, against the alphabet it was written in,
/// gives the identifier that was written: a 24-bit identifier, a 32-bit one
/// of the thread, or a 64-bit or 128-bit one of the default generator and the
/// thread.
pub proof fn lemma_text_reads_back(
    text: Seq<char>,
    alphabet: Seq<char>,
    width: nat,
    thread_id: u8,
)
    requires
        legible(alphabet),
    ensures
        is_text24(text, alphabet, width) ==> decode(text, alphabet) <= u32::MAX && is_id24(
            decode(text, alphabet) as u32,
        ),
        is_text32(text, alphabet, width, thread_id) ==> decode(text, alphabet) <= u32::MAX
            && is_id32(decode(text, alphabet) as u32, thread_id),
        is_text64(text, alphabet, width, thread_id) ==> decode(text, alphabet) <= u64::MAX
            && is_id64(decode(text, alphabet) as u64, DEFAULT_NODE, DEFAULT_SHARD, thread_id),
        is_text128(text, alphabet, width, thread_id) ==> decode(text, alphabet) <= u128::MAX
            && is_id128(decode(text, alphabet) as u128, DEFAULT_NODE, DEFAULT_SHARD, thread_id),
{
    if is_text24(text, alphabet, width) {
        let id = choose|id: u32| #[trigger]
            is_id24(id) && text == encode(id as nat, alphabet, width);
        lemma_decode_encode(id as nat, alphabet, width);
    }
    if is_text32(text, alphabet, width, thread_id) {
        let id = choose|id: u32| #[trigger]
            is_id32(id, thread_id) && text == encode(id as nat, alphabet, width);
        lemma_decode_encode(id as nat, alphabet, width);
    }
    if is_text64(text, alphabet, width, thread_id) {
        let id = choose|id: u64| #[trigger]
            is_id64(id, DEFAULT_NODE, DEFAULT_SHARD, thread_id) && text == encode(
                id as nat,
                alphabet,
                width,
            );
        lemma_decode_encode(id as nat, alphabet, width);
    }
    if is_text128(text, alphabet, width, thread_id) {
        let id = choose|id: u128| #[trigger]
            is_id128(id, DEFAULT_NODE, DEFAULT_SHARD, thread_id) && text == encode(
                id as nat,
                alphabet,
                width,
            );
        lemma_decode_encode(id as nat, alphabet, width);
    }
}

/// Makes `n` identifiers, one call of `make` for each, in the order of the
/// calls.
fn batch_with<F: Fn() -> String>(n: usize, make: F) -> (ids: Vec<String>)
    requires
        call_requires(make, ()),
    ensures
        ids@.len() == n,
        forall|i: int| 0 <= i < n ==> call_ensures(make, (), #[trigger] ids@[i]),
{
    let mut ids: Vec<String> = Vec::new();
    let mut made: usize = 0;
    while made < n
        invariant
            made <= n,
            ids@.len() == made,
            call_requires(make, ()),
            forall|i: int| 0 <= i < made ==> call_ensures(make, (), #[trigger] ids@[i]),
        decreases n - made,
    {
        ids.push(make());
        made += 1;
    }
    ids
}

/// Writes the four limbs of a 256-bit identifier in an alphabet in which
/// `width` glyphs hold any 64-bit number.
fn write_limbs(limbs: &[u64; 4], base: usize, alphabet: &'static str, width: usize) -> (text:
    String)
    requires
        is_ascii_chars(alphabet@),
        alphabet@.len() == base,
        base >= 2,
        capacity(base as nat, width as nat) > u64::MAX,
    ensures
        text@ == encode_limbs(limbs@, alphabet@, width as nat),
        text@.len() == 4 * width,
{
    proof {
        lemma_digit_count_within(limbs@[0] as nat, base as nat, width as nat);
        lemma_digit_count_within(limbs@[1] as nat, base as nat, width as nat);
        lemma_digit_count_within(limbs@[2] as nat, base as nat, width as nat);
        lemma_digit_count_within(limbs@[3] as nat, base as nat, width as nat);
        lemma_encode_len(limbs@[0] as nat, alphabet@, width as nat);
        lemma_encode_len(limbs@[1] as nat, alphabet@, width as nat);
        lemma_encode_len(limbs@[2] as nat, alphabet@, width as nat);
        lemma_encode_len(limbs@[3] as nat, alphabet@, width as nat);
    }
    limbs_to_base(limbs, base, alphabet_bytes(alphabet), width)
}

impl AtomicId<24> {
    /// A new 24-bit identifier in base 36: 5 glyphs.
    pub fn new(state: &SharedState) -> (text: String)
        ensures
            is_text24(text@, BASE36@, 5),
            text@.len() == 5,
    {
        let id = xgen(state).gen24();
        proof {
            lemma_widths_suffice();
            lemma_digit_count_within(id as nat, 36, 5);
        }
        base36(id as u128, 5)
    }

    /// A new 24-bit identifier in base 58: 5 glyphs.
    pub fn base58(state: &SharedState) -> (text: String)
        ensures
            is_text24(text@, BASE58@, 5),
            text@.len() == 5,
    {
        let id = xgen(state).gen24();
        proof {
            lemma_widths_suffice();
            lemma_digit_count_within(id as nat, 58, 5);
        }
        base58(id as u128, 5)
    }

    /// A new 24-bit identifier in base 91: 4 glyphs.
    pub fn base91(state: &SharedState) -> (text: String)
        ensures
            is_text24(text@, BASE91@, 4),
            text@.len() == 4,
    {
        let id = xgen(state).gen24();
        proof {
            lemma_widths_suffice();
            lemma_digit_count_within(id as nat, 91, 4);
        }
        base91(id as u128, 4)
    }

    /// A new 24-bit identifier in base 36: 5 glyphs.
    pub fn base36(state: &SharedState) -> (text: String)
        ensures
            is_text24(text@, BASE36@, 5),
            text@.len() == 5,
    {
        let id = xgen(state).gen24();
        proof {
            lemma_widths_suffice();
            lemma_digit_count_within(id as nat, 36, 5);
        }
        base36(id as u128, 5)
    }

    /// A new 24-bit identifier in hexadecimal: 6 glyphs.
    pub fn hex(state: &SharedState) -> (text: String)
        ensures
            is_text24(text@, HEX@, 6),
            text@.len() == 6,
    {
        let id = xgen(state).gen24();
        proof {
            lemma_widths_suffice();
            lemma_digit_count_within(id as nat, 16, 6);
        }
        hex(id as u128, 6)
    }

    /// `n` new 24-bit identifiers in base 36.
    pub fn batch(state: &SharedState, n: usize) -> (ids: Vec<String>)
        ensures
            ids@.len() == n,
            forall|i: int|
                0 <= i < n ==> is_text24((#[trigger] ids@[i])@, BASE36@, 5)
                    && ids@[i]@.len() == 5,
    {
        let make = || -> (text: String)
            ensures
                is_text24(text@, BASE36@, 5),
                text@.len() == 5,
            {
                Self::new(state)
            };
        batch_with(n, make)
    }

    /// `n` new 24-bit identifiers in base 58.
    pub fn base58_batch(state: &SharedState, n: usize) -> (ids: Vec<String>)
        ensures
            ids@.len() == n,
            forall|i: int|
                0 <= i < n ==> is_text24((#[trigger] ids@[i])@, BASE58@, 5)
                    && ids@[i]@.len() == 5,
    {
        let make = || -> (text: String)
            ensures
                is_text24(text@, BASE58@, 5),
                text@.len() == 5,
            {
                Self::base58(state)
            };
        batch_with(n, make)
    }

    /// `n` new 24-bit identifiers in base 91.
    pub fn base91_batch(state: &SharedState, n: usize) -> (ids: Vec<String>)
        ensures
            ids@.len() == n,
            forall|i: int|
                0 <= i < n ==> is_text24((#[trigger] ids@[i])@, BASE91@, 4)
                    && ids@[i]@.len() == 4,
    {
        let make = || -> (text: String)
            ensures
                is_text24(text@, BASE91@, 4),
                text@.len() == 4,
            {
                Self::base91(state)
            };
        batch_with(n, make)
    }

    /// `n` new 24-bit identifiers in base 36.
    pub fn base36_batch(state: &SharedState, n: usize) -> (ids: Vec<String>)
        ensures
            ids@.len() == n,
            forall|i: int|
                0 <= i < n ==> is_text24((#[trigger] ids@[i])@, BASE36@, 5)
                    && ids@[i]@.len() == 5,
    {
        let make = || -> (text: String)
            ensures
                is_text24(text@, BASE36@, 5),
                text@.len() == 5,
            {
                Self::base36(state)
            };
        batch_with(n, make)
    }

    /// `n` new 24-bit identifiers in hexadecimal.
    pub fn hex_batch(state: &SharedState, n: usize) -> (ids: Vec<String>)
        ensures
            ids@.len() == n,
            forall|i: int|
                0 <= i < n ==> is_text24((#[trigger] ids@[i])@, HEX@, 6)
                    && ids@[i]@.len() == 6,
    {
        let make = || -> (text: String)
            ensures
                is_text24(text@, HEX@, 6),
                text@.len() == 6,
            {
                Self::hex(state)
            };
        batch_with(n, make)
    }
}

impl AtomicId<32> {
    /// A new 32-bit identifier in base 36: 7 glyphs.
    pub fn new(state: &SharedState, thread_id: u8) -> (text: String)
        ensures
            is_text32(text@, BASE36@, 7, thread_id),
            text@.len() == 7,
    {
        let id = xgen(state).gen32(thread_id);
        proof {
            lemma_widths_suffice();
            lemma_digit_count_within(id as nat, 36, 7);
        }
        base36(id as u128, 7)
    }

    /// A new 32-bit identifier in base 58: 6 glyphs.
    pub fn base58(state: &SharedState, thread_id: u8) -> (text: String)
        ensures
            is_text32(text@, BASE58@, 6, thread_id),
            text@.len() == 6,
    {
        let id = xgen(state).gen32(thread_id);
        proof {
            lemma_widths_suffice();
            lemma_digit_count_within(id as nat, 58, 6);
        }
        base58(id as u128, 6)
    }

    /// A new 32-bit identifier in base 91: 5 glyphs.
    pub fn base91(state: &SharedState, thread_id: u8) -> (text: String)
        ensures
            is_text32(text@, BASE91@, 5, thread_id),
            text@.len() == 5,
    {
        let id = xgen(state).gen32(thread_id);
        proof {
            lemma_widths_suffice();
            lemma_digit_count_within(id as nat, 91, 5);
        }
        base91(id as u128, 5)
    }

    /// A new 32-bit identifier in base 36: 7 glyphs.
    pub fn base36(state: &SharedState, thread_id: u8) -> (text: String)
        ensures
            is_text32(text@, BASE36@, 7, thread_id),
            text@.len() == 7,
    {
        let id = xgen(state).gen32(thread_id);
        proof {
            lemma_widths_suffice();
            lemma_digit_count_within(id as nat, 36, 7);
        }
        base36(id as u128, 7)
    }

    /// A new 32-bit identifier in hexadecimal: 8 glyphs.
    pub fn hex(state: &SharedState, thread_id: u8) -> (text: String)
        ensures
            is_text32(text@, HEX@, 8, thread_id),
            text@.len() == 8,
    {
        let id = xgen(state).gen32(thread_id);
        proof {
            lemma_widths_suffice();
            lemma_digit_count_within(id as nat, 16, 8);
        }
        hex(id as u128, 8)
    }

    /// `n` new 32-bit identifiers in base 36.
    pub fn batch(state: &SharedState, thread_id: u8, n: usize) -> (ids: Vec<String>)
        ensures
            ids@.len() == n,
            forall|i: int|
                0 <= i < n ==> is_text32((#[trigger] ids@[i])@, BASE36@, 7, thread_id)
                    && ids@[i]@.len() == 7,
    {
        let make = || -> (text: String)
            ensures
                is_text32(text@, BASE36@, 7, thread_id),
                text@.len() == 7,
            {
                Self::new(state, thread_id)
            };
        batch_with(n, make)
    }

    /// `n` new 32-bit identifiers in base 58.
    pub fn base58_batch(state: &SharedState, thread_id: u8, n: usize) -> (ids: Vec<String>)
        ensures
            ids@.len() == n,
            forall|i: int|
                0 <= i < n ==> is_text32((#[trigger] ids@[i])@, BASE58@, 6, thread_id)
                    && ids@[i]@.len() == 6,
    {
        let make = || -> (text: String)
            ensures
                is_text32(text@, BASE58@, 6, thread_id),
                text@.len() == 6,
            {
                Self::base58(state, thread_id)
            };
        batch_with(n, make)
    }

    /// `n` new 32-bit identifiers in base 91.
    pub fn base91_batch(state: &SharedState, thread_id: u8, n: usize) -> (ids: Vec<String>)
        ensures
            ids@.len() == n,
            forall|i: int|
                0 <= i < n ==> is_text32((#[trigger] ids@[i])@, BASE91@, 5, thread_id)
                    && ids@[i]@.len() == 5,
    {
        let make = || -> (text: String)
            ensures
                is_text32(text@, BASE91@, 5, thread_id),
                text@.len() == 5,
            {
                Self::base91(state, thread_id)
            };
        batch_with(n, make)
    }

    /// `n` new 32-bit identifiers in base 36.
    pub fn base36_batch(state: &SharedState, thread_id: u8, n: usize) -> (ids: Vec<String>)
        ensures
            ids@.len() == n,
            forall|i: int|
                0 <= i < n ==> is_text32((#[trigger] ids@[i])@, BASE36@, 7, thread_id)
                    && ids@[i]@.len() == 7,
    {
        let make = || -> (text: String)
            ensures
                is_text32(text@, BASE36@, 7, thread_id),
                text@.len() == 7,
            {
                Self::base36(state, thread_id)
            };
        batch_with(n, make)
    }

    /// `n` new 32-bit identifiers in hexadecimal.
    pub fn hex_batch(state: &SharedState, thread_id: u8, n: usize) -> (ids: Vec<String>)
        ensures
            ids@.len() == n,
            forall|i: int|
                0 <= i < n ==> is_text32((#[trigger] ids@[i])@, HEX@, 8, thread_id)
                    && ids@[i]@.len() == 8,
    {
        let make = || -> (text: String)
            ensures
                is_text32(text@, HEX@, 8, thread_id),
                text@.len() == 8,
            {
                Self::hex(state, thread_id)
            };
        batch_with(n, make)
    }
}

impl AtomicId<64> {
    /// A new 64-bit identifier in base 36: 13 glyphs.
    pub fn new(state: &SharedState, thread_id: u8) -> (text: String)
        ensures
            is_text64(text@, BASE36@, 13, thread_id),
            text@.len() == 13,
    {
        let id = xgen(state).gen64(thread_id);
        proof {
            lemma_widths_suffice();
            lemma_digit_count_within(id as nat, 36, 13);
        }
        base36(id as u128, 13)
    }

    /// A new 64-bit identifier in base 58: 11 glyphs.
    pub fn base58(state: &SharedState, thread_id: u8) -> (text: String)
        ensures
            is_text64(text@, BASE58@, 11, thread_id),
            text@.len() == 11,
    {
        let id = xgen(state).gen64(thread_id);
        proof {
            lemma_widths_suffice();
            lemma_digit_count_within(id as nat, 58, 11);
        }
        base58(id as u128, 11)
    }

    /// A new 64-bit identifier in base 91: 10 glyphs.
    pub fn base91(state: &SharedState, thread_id: u8) -> (text: String)
        ensures
            is_text64(text@, BASE91@, 10, thread_id),
            text@.len() == 10,
    {
        let id = xgen(state).gen64(thread_id);
        proof {
            lemma_widths_suffice();
            lemma_digit_count_within(id as nat, 91, 10);
        }
        base91(id as u128, 10)
    }

    /// A new 64-bit identifier in base 36: 13 glyphs.
    pub fn base36(state: &SharedState, thread_id: u8) -> (text: String)
        ensures
            is_text64(text@, BASE36@, 13, thread_id),
            text@.len() == 13,
    {
        let id = xgen(state).gen64(thread_id);
        proof {
            lemma_widths_suffice();
            lemma_digit_count_within(id as nat, 36, 13);
        }
        base36(id as u128, 13)
    }

    /// A new 64-bit identifier in hexadecimal: 16 glyphs.
    pub fn hex(state: &SharedState, thread_id: u8) -> (text: String)
        ensures
            is_text64(text@, HEX@, 16, thread_id),
            text@.len() == 16,
    {
        let id = xgen(state).gen64(thread_id);
        proof {
            lemma_widths_suffice();
            lemma_digit_count_within(id as nat, 16, 16);
        }
        hex(id as u128, 16)
    }

    /// `n` new 64-bit identifiers in base 36.
    pub fn batch(state: &SharedState, thread_id: u8, n: usize) -> (ids: Vec<String>)
        ensures
            ids@.len() == n,
            forall|i: int|
                0 <= i < n ==> is_text64((#[trigger] ids@[i])@, BASE36@, 13, thread_id)
                    && ids@[i]@.len() == 13,
    {
        let make = || -> (text: String)
            ensures
                is_text64(text@, BASE36@, 13, thread_id),
                text@.len() == 13,
            {
                Self::new(state, thread_id)
            };
        batch_with(n, make)
    }

    /// `n` new 64-bit identifiers in base 58.
    pub fn base58_batch(state: &SharedState, thread_id: u8, n: usize) -> (ids: Vec<String>)
        ensures
            ids@.len() == n,
            forall|i: int|
                0 <= i < n ==> is_text64((#[trigger] ids@[i])@, BASE58@, 11, thread_id)
                    && ids@[i]@.len() == 11,
    {
        let make = || -> (text: String)
            ensures
                is_text64(text@, BASE58@, 11, thread_id),
                text@.len() == 11,
            {
                Self::base58(state, thread_id)
            };
        batch_with(n, make)
    }

    /// `n` new 64-bit identifiers in base 91.
    pub fn base91_batch(state: &SharedState, thread_id: u8, n: usize) -> (ids: Vec<String>)
        ensures
            ids@.len() == n,
            forall|i: int|
                0 <= i < n ==> is_text64((#[trigger] ids@[i])@, BASE91@, 10, thread_id)
                    && ids@[i]@.len() == 10,
    {
        let make = || -> (text: String)
            ensures
                is_text64(text@, BASE91@, 10, thread_id),
                text@.len() == 10,
            {
                Self::base91(state, thread_id)
            };
        batch_with(n, make)
    }

    /// `n` new 64-bit identifiers in base 36.
    pub fn base36_batch(state: &SharedState, thread_id: u8, n: usize) -> (ids: Vec<String>)
        ensures
            ids@.len() == n,
            forall|i: int|
                0 <= i < n ==> is_text64((#[trigger] ids@[i])@, BASE36@, 13, thread_id)
                    && ids@[i]@.len() == 13,
    {
        let make = || -> (text: String)
            ensures
                is_text64(text@, BASE36@, 13, thread_id),
                text@.len() == 13,
            {
                Self::base36(state, thread_id)
            };
        batch_with(n, make)
    }

    /// `n` new 64-bit identifiers in hexadecimal.
    pub fn hex_batch(state: &SharedState, thread_id: u8, n: usize) -> (ids: Vec<String>)
        ensures
            ids@.len() == n,
            forall|i: int|
                0 <= i < n ==> is_text64((#[trigger] ids@[i])@, HEX@, 16, thread_id)
                    && ids@[i]@.len() == 16,
    {
        let make = || -> (text: String)
            ensures
                is_text64(text@, HEX@, 16, thread_id),
                text@.len() == 16,
            {
                Self::hex(state, thread_id)
            };
        batch_with(n, make)
    }

    /// The next value of a plain counter in base 36, 13 glyphs. The
    /// counter belongs to this function alone and carries no timestamp, node,
    /// shard or thread.
    pub fn sequential(state: &SharedState) -> (text: String)
        ensures
            is_sequential_text(text@, BASE36@, 13),
            text@.len() == 13,
    {
        let seq = state.next_sequential();
        proof {
            lemma_widths_suffice();
            lemma_digit_count_within(seq as nat, 36, 13);
        }
        base36(seq as u128, 13)
    }

    /// The next value of a plain counter in base 58, 11 glyphs. The
    /// counter belongs to this function alone and carries no timestamp, node,
    /// shard or thread.
    pub fn sequential_base58(state: &SharedState) -> (text: String)
        ensures
            is_sequential_text(text@, BASE58@, 11),
            text@.len() == 11,
    {
        let seq = state.next_sequential58();
        proof {
            lemma_widths_suffice();
            lemma_digit_count_within(seq as nat, 58, 11);
        }
        base58(seq as u128, 11)
    }

    /// The next value of a plain counter in base 91, 10 glyphs. The
    /// counter belongs to this function alone and carries no timestamp, node,
    /// shard or thread.
    pub fn sequential_base91(state: &SharedState) -> (text: String)
        ensures
            is_sequential_text(text@, BASE91@, 10),
            text@.len() == 10,
    {
        let seq = state.next_sequential91();
        proof {
            lemma_widths_suffice();
            lemma_digit_count_within(seq as nat, 91, 10);
        }
        base91(seq as u128, 10)
    }

    /// The next value of a plain counter in base 36, 13 glyphs. The
    /// counter belongs to this function alone and carries no timestamp, node,
    /// shard or thread.
    pub fn sequential_base36(state: &SharedState) -> (text: String)
        ensures
            is_sequential_text(text@, BASE36@, 13),
            text@.len() == 13,
    {
        let seq = state.next_sequential36();
        proof {
            lemma_widths_suffice();
            lemma_digit_count_within(seq as nat, 36, 13);
        }
        base36(seq as u128, 13)
    }

    /// The next value of a plain counter in hexadecimal, 16 glyphs. The
    /// counter belongs to this function alone and carries no timestamp, node,
    /// shard or thread.
    pub fn sequential_hex(state: &SharedState) -> (text: String)
        ensures
            is_sequential_text(text@, HEX@, 16),
            text@.len() == 16,
    {
        let seq = state.next_sequential16();
        proof {
            lemma_widths_suffice();
            lemma_digit_count_within(seq as nat, 16, 16);
        }
        hex(seq as u128, 16)
    }

    /// `n` values in a row of the plain counter of `sequential`, in base 36.
    pub fn sequential_batch(state: &SharedState, n: usize) -> (ids: Vec<String>)
        ensures
            ids@.len() == n,
            forall|i: int|
                0 <= i < n ==> is_sequential_text((#[trigger] ids@[i])@, BASE36@, 13)
                    && ids@[i]@.len() == 13,
    {
        let make = || -> (text: String)
            ensures
                is_sequential_text(text@, BASE36@, 13),
                text@.len() == 13,
            {
                Self::sequential(state)
            };
        batch_with(n, make)
    }

    /// `n` values in a row of the plain counter of `sequential_base58`, in base 58.
    pub fn sequential_base58_batch(state: &SharedState, n: usize) -> (ids: Vec<String>)
        ensures
            ids@.len() == n,
            forall|i: int|
                0 <= i < n ==> is_sequential_text((#[trigger] ids@[i])@, BASE58@, 11)
                    && ids@[i]@.len() == 11,
    {
        let make = || -> (text: String)
            ensures
                is_sequential_text(text@, BASE58@, 11),
                text@.len() == 11,
            {
                Self::sequential_base58(state)
            };
        batch_with(n, make)
    }

    /// `n` values in a row of the plain counter of `sequential_base91`, in base 91.
    pub fn sequential_base91_batch(state: &SharedState, n: usize) -> (ids: Vec<String>)
        ensures
            ids@.len() == n,
            forall|i: int|
                0 <= i < n ==> is_sequential_text((#[trigger] ids@[i])@, BASE91@, 10)
                    && ids@[i]@.len() == 10,
    {
        let make = || -> (text: String)
            ensures
                is_sequential_text(text@, BASE91@, 10),
                text@.len() == 10,
            {
                Self::sequential_base91(state)
            };
        batch_with(n, make)
    }

    /// `n` values in a row of the plain counter of `sequential_base36`, in base 36.
    pub fn sequential_base36_batch(state: &SharedState, n: usize) -> (ids: Vec<String>)
        ensures
            ids@.len() == n,
            forall|i: int|
                0 <= i < n ==> is_sequential_text((#[trigger] ids@[i])@, BASE36@, 13)
                    && ids@[i]@.len() == 13,
    {
        let make = || -> (text: String)
            ensures
                is_sequential_text(text@, BASE36@, 13),
                text@.len() == 13,
            {
                Self::sequential_base36(state)
            };
        batch_with(n, make)
    }

    /// `n` values in a row of the plain counter of `sequential_hex`, in hexadecimal.
    pub fn sequential_hex_batch(state: &SharedState, n: usize) -> (ids: Vec<String>)
        ensures
            ids@.len() == n,
            forall|i: int|
                0 <= i < n ==> is_sequential_text((#[trigger] ids@[i])@, HEX@, 16)
                    && ids@[i]@.len() == 16,
    {
        let make = || -> (text: String)
            ensures
                is_sequential_text(text@, HEX@, 16),
                text@.len() == 16,
            {
                Self::sequential_hex(state)
            };
        batch_with(n, make)
    }
}

impl AtomicId<128> {
    /// A new 128-bit identifier in base 36: 25 glyphs.
    pub fn new(state: &SharedState, thread_id: u8) -> (text: String)
        ensures
            is_text128(text@, BASE36@, 25, thread_id),
            text@.len() == 25,
    {
        let id = xgen(state).gen128(thread_id);
        proof {
            lemma_widths_suffice();
            lemma_digit_count_within(id as nat, 36, 25);
        }
        base36(id, 25)
    }

    /// A new 128-bit identifier in base 58: 22 glyphs.
    pub fn base58(state: &SharedState, thread_id: u8) -> (text: String)
        ensures
            is_text128(text@, BASE58@, 22, thread_id),
            text@.len() == 22,
    {
        let id = xgen(state).gen128(thread_id);
        proof {
            lemma_widths_suffice();
            lemma_digit_count_within(id as nat, 58, 22);
        }
        base58(id, 22)
    }

    /// A new 128-bit identifier in base 91: 20 glyphs.
    pub fn base91(state: &SharedState, thread_id: u8) -> (text: String)
        ensures
            is_text128(text@, BASE91@, 20, thread_id),
            text@.len() == 20,
    {
        let id = xgen(state).gen128(thread_id);
        proof {
            lemma_widths_suffice();
            lemma_digit_count_within(id as nat, 91, 20);
        }
        base91(id, 20)
    }

    /// A new 128-bit identifier in base 36: 25 glyphs.
    pub fn base36(state: &SharedState, thread_id: u8) -> (text: String)
        ensures
            is_text128(text@, BASE36@, 25, thread_id),
            text@.len() == 25,
    {
        let id = xgen(state).gen128(thread_id);
        proof {
            lemma_widths_suffice();
            lemma_digit_count_within(id as nat, 36, 25);
        }
        base36(id, 25)
    }

    /// A new 128-bit identifier in hexadecimal: 32 glyphs.
    pub fn hex(state: &SharedState, thread_id: u8) -> (text: String)
        ensures
            is_text128(text@, HEX@, 32, thread_id),
            text@.len() == 32,
    {
        let id = xgen(state).gen128(thread_id);
        proof {
            lemma_widths_suffice();
            lemma_digit_count_within(id as nat, 16, 32);
        }
        hex(id, 32)
    }

    /// `n` new 128-bit identifiers in base 36.
    pub fn batch(state: &SharedState, thread_id: u8, n: usize) -> (ids: Vec<String>)
        ensures
            ids@.len() == n,
            forall|i: int|
                0 <= i < n ==> is_text128((#[trigger] ids@[i])@, BASE36@, 25, thread_id)
                    && ids@[i]@.len() == 25,
    {
        let make = || -> (text: String)
            ensures
                is_text128(text@, BASE36@, 25, thread_id),
                text@.len() == 25,
            {
                Self::new(state, thread_id)
            };
        batch_with(n, make)
    }

    /// `n` new 128-bit identifiers in base 58.
    pub fn base58_batch(state: &SharedState, thread_id: u8, n: usize) -> (ids: Vec<String>)
        ensures
            ids@.len() == n,
            forall|i: int|
                0 <= i < n ==> is_text128((#[trigger] ids@[i])@, BASE58@, 22, thread_id)
                    && ids@[i]@.len() == 22,
    {
        let make = || -> (text: String)
            ensures
                is_text128(text@, BASE58@, 22, thread_id),
                text@.len() == 22,
            {
                Self::base58(state, thread_id)
            };
        batch_with(n, make)
    }

    /// `n` new 128-bit identifiers in base 91.
    pub fn base91_batch(state: &SharedState, thread_id: u8, n: usize) -> (ids: Vec<String>)
        ensures
            ids@.len() == n,
            forall|i: int|
                0 <= i < n ==> is_text128((#[trigger] ids@[i])@, BASE91@, 20, thread_id)
                    && ids@[i]@.len() == 20,
    {
        let make = || -> (text: String)
            ensures
                is_text128(text@, BASE91@, 20, thread_id),
                text@.len() == 20,
            {
                Self::base91(state, thread_id)
            };
        batch_with(n, make)
    }

    /// `n` new 128-bit identifiers in base 36.
    pub fn base36_batch(state: &SharedState, thread_id: u8, n: usize) -> (ids: Vec<String>)
        ensures
            ids@.len() == n,
            forall|i: int|
                0 <= i < n ==> is_text128((#[trigger] ids@[i])@, BASE36@, 25, thread_id)
                    && ids@[i]@.len() == 25,
    {
        let make = || -> (text: String)
            ensures
                is_text128(text@, BASE36@, 25, thread_id),
                text@.len() == 25,
            {
                Self::base36(state, thread_id)
            };
        batch_with(n, make)
    }

    /// `n` new 128-bit identifiers in hexadecimal.
    pub fn hex_batch(state: &SharedState, thread_id: u8, n: usize) -> (ids: Vec<String>)
        ensures
            ids@.len() == n,
            forall|i: int|
                0 <= i < n ==> is_text128((#[trigger] ids@[i])@, HEX@, 32, thread_id)
                    && ids@[i]@.len() == 32,
    {
        let make = || -> (text: String)
            ensures
                is_text128(text@, HEX@, 32, thread_id),
                text@.len() == 32,
            {
                Self::hex(state, thread_id)
            };
        batch_with(n, make)
    }
}

impl AtomicId<256> {
    /// A new 256-bit identifier in base 36, limb by limb: 52 glyphs.
    pub fn new(state: &SharedState, thread_id: u8) -> (text: String)
        ensures
            is_text256(text@, BASE36@, 13, thread_id),
            text@.len() == 52,
    {
        let parts = xgen(state).gen256(thread_id);
        proof {
            lemma_widths_suffice();
            lemma_base36_glyphs();
        }
        write_limbs(&parts, 36, BASE36, 13)
    }

    /// A new 256-bit identifier in base 58, limb by limb: 44 glyphs.
    pub fn base58(state: &SharedState, thread_id: u8) -> (text: String)
        ensures
            is_text256(text@, BASE58@, 11, thread_id),
            text@.len() == 44,
    {
        let parts = xgen(state).gen256(thread_id);
        proof {
            lemma_widths_suffice();
            lemma_base58_glyphs();
        }
        write_limbs(&parts, 58, BASE58, 11)
    }

    /// A new 256-bit identifier in base 91, limb by limb: 40 glyphs.
    pub fn base91(state: &SharedState, thread_id: u8) -> (text: String)
        ensures
            is_text256(text@, BASE91@, 10, thread_id),
            text@.len() == 40,
    {
        let parts = xgen(state).gen256(thread_id);
        proof {
            lemma_widths_suffice();
            lemma_base91_glyphs();
        }
        write_limbs(&parts, 91, BASE91, 10)
    }

    /// A new 256-bit identifier in base 36, limb by limb: 52 glyphs.
    pub fn base36(state: &SharedState, thread_id: u8) -> (text: String)
        ensures
            is_text256(text@, BASE36@, 13, thread_id),
            text@.len() == 52,
    {
        let parts = xgen(state).gen256(thread_id);
        proof {
            lemma_widths_suffice();
            lemma_base36_glyphs();
        }
        write_limbs(&parts, 36, BASE36, 13)
    }

    /// A new 256-bit identifier in hexadecimal, limb by limb: 64 glyphs.
    pub fn hex(state: &SharedState, thread_id: u8) -> (text: String)
        ensures
            is_text256(text@, HEX@, 16, thread_id),
            text@.len() == 64,
    {
        let parts = xgen(state).gen256(thread_id);
        proof {
            lemma_widths_suffice();
            lemma_hex_glyphs();
        }
        write_limbs(&parts, 16, HEX, 16)
    }

    /// `n` new 256-bit identifiers in base 36.
    pub fn batch(state: &SharedState, thread_id: u8, n: usize) -> (ids: Vec<String>)
        ensures
            ids@.len() == n,
            forall|i: int|
                0 <= i < n ==> is_text256((#[trigger] ids@[i])@, BASE36@, 13, thread_id)
                    && ids@[i]@.len() == 52,
    {
        let make = || -> (text: String)
            ensures
                is_text256(text@, BASE36@, 13, thread_id),
                text@.len() == 52,
            {
                Self::new(state, thread_id)
            };
        batch_with(n, make)
    }

    /// `n` new 256-bit identifiers in base 58.
    pub fn base58_batch(state: &SharedState, thread_id: u8, n: usize) -> (ids: Vec<String>)
        ensures
            ids@.len() == n,
            forall|i: int|
                0 <= i < n ==> is_text256((#[trigger] ids@[i])@, BASE58@, 11, thread_id)
                    && ids@[i]@.len() == 44,
    {
        let make = || -> (text: String)
            ensures
                is_text256(text@, BASE58@, 11, thread_id),
                text@.len() == 44,
            {
                Self::base58(state, thread_id)
            };
        batch_with(n, make)
    }

    /// `n` new 256-bit identifiers in base 91.
    pub fn base91_batch(state: &SharedState, thread_id: u8, n: usize) -> (ids: Vec<String>)
        ensures
            ids@.len() == n,
            forall|i: int|
                0 <= i < n ==> is_text256((#[trigger] ids@[i])@, BASE91@, 10, thread_id)
                    && ids@[i]@.len() == 40,
    {
        let make = || -> (text: String)
            ensures
                is_text256(text@, BASE91@, 10, thread_id),
                text@.len() == 40,
            {
                Self::base91(state, thread_id)
            };
        batch_with(n, make)
    }

    /// `n` new 256-bit identifiers in base 36.
    pub fn base36_batch(state: &SharedState, thread_id: u8, n: usize) -> (ids: Vec<String>)
        ensures
            ids@.len() == n,
            forall|i: int|
                0 <= i < n ==> is_text256((#[trigger] ids@[i])@, BASE36@, 13, thread_id)
                    && ids@[i]@.len() == 52,
    {
        let make = || -> (text: String)
            ensures
                is_text256(text@, BASE36@, 13, thread_id),
                text@.len() == 52,
            {
                Self::base36(state, thread_id)
            };
        batch_with(n, make)
    }

    /// `n` new 256-bit identifiers in hexadecimal.
    pub fn hex_batch(state: &SharedState, thread_id: u8, n: usize) -> (ids: Vec<String>)
        ensures
            ids@.len() == n,
            forall|i: int|
                0 <= i < n ==> is_text256((#[trigger] ids@[i])@, HEX@, 16, thread_id)
                    && ids@[i]@.len() == 64,
    {
        let make = || -> (text: String)
            ensures
                is_text256(text@, HEX@, 16, thread_id),
                text@.len() == 64,
            {
                Self::hex(state, thread_id)
            };
        batch_with(n, make)
    }
}

} // verus!
