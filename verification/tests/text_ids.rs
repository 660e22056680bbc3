use atomic_id::alphabet::BASE36;
use atomic_id::alphabet::BASE58;
use atomic_id::alphabet::BASE91;
use atomic_id::alphabet::HEX;
use atomic_id::x128;
use atomic_id::x24;
use atomic_id::x256;
use atomic_id::x32;
use atomic_id::x64;
use atomic_id::AtomicId;
use atomic_id::AtomicOption;
use atomic_id::SharedState;

fn read_back(text: &str, alphabet: &str) -> u128 {
    let base = alphabet.len() as u128;
    let mut value: u128 = 0;
    for glyph in text.chars() {
        value = value * base + alphabet.find(glyph).unwrap() as u128;
    }
    value
}

#[test]
fn width_constants() {
    assert_eq!(x24, 24);
    assert_eq!(x32, 32);
    assert_eq!(x64, 64);
    assert_eq!(x128, 128);
    assert_eq!(x256, 256);
}

#[test]
fn text24_lengths() {
    let state = SharedState::new();
    assert_eq!(AtomicId::<x24>::new(&state).len(), 5);
    assert_eq!(AtomicId::<x24>::base58(&state).len(), 5);
    assert_eq!(AtomicId::<x24>::base91(&state).len(), 4);
    assert_eq!(AtomicId::<x24>::base36(&state).len(), 5);
    assert_eq!(AtomicId::<x24>::hex(&state).len(), 6);
}

#[test]
fn text24_counts_up_across_the_encodings() {
    let state = SharedState::new();
    assert_eq!(AtomicId::<24>::new(&state), "00000");
    assert_eq!(AtomicId::<24>::base58(&state), "11112");
    assert_eq!(AtomicId::<24>::base91(&state), "AAAC");
    assert_eq!(AtomicId::<24>::base36(&state), "00003");
    assert_eq!(AtomicId::<24>::hex(&state), "000004");
}

#[test]
fn text32_lengths() {
    let state = SharedState::new();
    assert_eq!(AtomicId::<x32>::new(&state, 128).len(), 7);
    assert_eq!(AtomicId::<x32>::base58(&state, 128).len(), 6);
    assert_eq!(AtomicId::<x32>::base91(&state, 128).len(), 5);
    assert_eq!(AtomicId::<x32>::base36(&state, 128).len(), 7);
    assert_eq!(AtomicId::<x32>::hex(&state, 128).len(), 8);
}

#[test]
fn text32_exact_values() {
    let state = SharedState::new();
    assert_eq!(AtomicId::<32>::hex(&state, 0x7F), "7f000000");
    assert_eq!(AtomicId::<32>::hex(&state, 0x01), "01000001");
    assert_eq!(read_back(&AtomicId::<32>::new(&state, 3), BASE36), 0x0300_0002);
    assert_eq!(read_back(&AtomicId::<32>::base58(&state, 3), BASE58), 0x0300_0003);
    assert_eq!(read_back(&AtomicId::<32>::base91(&state, 3), BASE91), 0x0300_0004);
    assert_eq!(read_back(&AtomicId::<32>::base36(&state, 3), BASE36), 0x0300_0005);
}

#[test]
fn text64_lengths() {
    let state = SharedState::new();
    assert_eq!(AtomicId::<x64>::new(&state, 1).len(), 13);
    assert_eq!(AtomicId::<x64>::base58(&state, 1).len(), 11);
    assert_eq!(AtomicId::<x64>::base91(&state, 1).len(), 10);
    assert_eq!(AtomicId::<x64>::base36(&state, 1).len(), 13);
    assert_eq!(AtomicId::<x64>::hex(&state, 1).len(), 16);
}

#[test]
fn text64_is_made_by_node_one_shard_zero() {
    let state = SharedState::new();
    let texts = [
        (AtomicId::<64>::new(&state, 0x55), BASE36),
        (AtomicId::<64>::base58(&state, 0x55), BASE58),
        (AtomicId::<64>::base91(&state, 0x55), BASE91),
        (AtomicId::<64>::base36(&state, 0x55), BASE36),
        (AtomicId::<64>::hex(&state, 0x55), HEX),
    ];
    for (seq, (text, alphabet)) in texts.iter().enumerate() {
        let id = read_back(text, alphabet);
        assert!(id <= u64::MAX as u128);
        assert_eq!((id >> 32) & 0xFFF, 1);
        assert_eq!((id >> 24) & 0xFF, 0);
        assert_eq!((id >> 16) & 0xFF, 0x55);
        assert_eq!(id & 0xFFFF, seq as u128);
    }
}

#[test]
fn text64_with_a_future_epoch_is_exact() {
    let state = SharedState::new();
    AtomicOption::epoch(&state, u64::MAX);
    assert_eq!(AtomicId::<64>::hex(&state, 0x7F), "00000001007f0000");
    assert_eq!(AtomicId::<64>::hex(&state, 0x7F), "00000001007f0001");
    assert_eq!(read_back(&AtomicId::<64>::new(&state, 2), BASE36), 0x0000_0001_0002_0002);
    assert_eq!(read_back(&AtomicId::<64>::base58(&state, 2), BASE58), 0x0000_0001_0002_0003);
    assert_eq!(read_back(&AtomicId::<64>::base91(&state, 2), BASE91), 0x0000_0001_0002_0004);
}

#[test]
fn text128_lengths() {
    let state = SharedState::new();
    assert_eq!(AtomicId::<x128>::new(&state, 1).len(), 25);
    assert_eq!(AtomicId::<x128>::base58(&state, 1).len(), 22);
    assert_eq!(AtomicId::<x128>::base91(&state, 1).len(), 20);
    assert_eq!(AtomicId::<x128>::base36(&state, 1).len(), 25);
    assert_eq!(AtomicId::<x128>::hex(&state, 1).len(), 32);
}

#[test]
fn text128_is_made_by_node_one_shard_zero() {
    let state = SharedState::new();
    let texts = [
        (AtomicId::<128>::new(&state, 0x55), BASE36),
        (AtomicId::<128>::base58(&state, 0x55), BASE58),
        (AtomicId::<128>::base91(&state, 0x55), BASE91),
        (AtomicId::<128>::base36(&state, 0x55), BASE36),
        (AtomicId::<128>::hex(&state, 0x55), HEX),
    ];
    for (seq, (text, alphabet)) in texts.iter().enumerate() {
        let id = read_back(text, alphabet);
        assert_eq!((id >> 84) & 0xFFF, 1);
        assert_eq!((id >> 76) & 0xFF, 0);
        assert_eq!((id >> 68) & 0xFF, 0x55);
        assert_eq!((id >> 8) & 0xFF_FFFF, seq as u128);
        assert_eq!(id & 0xFF, 0x55u8.rotate_left(3) as u128);
    }
}

#[test]
fn text256_lengths() {
    let state = SharedState::new();
    assert_eq!(AtomicId::<x256>::new(&state, 1).len(), 52);
    assert_eq!(AtomicId::<x256>::base58(&state, 1).len(), 44);
    assert_eq!(AtomicId::<x256>::base91(&state, 1).len(), 40);
    assert_eq!(AtomicId::<x256>::base36(&state, 1).len(), 52);
    assert_eq!(AtomicId::<x256>::hex(&state, 1).len(), 64);
}

#[test]
fn text256_is_four_limbs_in_a_row() {
    let state = SharedState::new();
    let texts = [
        (AtomicId::<256>::new(&state, 0x55), BASE36, 13),
        (AtomicId::<256>::base58(&state, 0x55), BASE58, 11),
        (AtomicId::<256>::base91(&state, 0x55), BASE91, 10),
        (AtomicId::<256>::base36(&state, 0x55), BASE36, 13),
        (AtomicId::<256>::hex(&state, 0x55), HEX, 16),
    ];
    for (seq, (text, alphabet, width)) in texts.iter().enumerate() {
        assert_eq!(text.len(), 4 * width);
        let limbs: Vec<u128> =
            (0..4).map(|i| read_back(&text[i * width..(i + 1) * width], alphabet)).collect();
        for limb in &limbs {
            assert!(*limb <= u64::MAX as u128);
        }
        assert_eq!((limbs[0] >> 32) & 0xFFF, 1);
        assert_eq!((limbs[0] >> 24) & 0xFF, 0);
        assert_eq!((limbs[0] >> 16) & 0xFF, 0x55);
        assert_eq!(limbs[0] & 0xFFFF, seq as u128);
        assert_eq!(limbs[1] & 0xFFFF_FFFF, 0);
        assert_eq!(limbs[2], (0x5555_5555u128 << 32) | ((seq as u128) << 16));
        assert_eq!(limbs[3] >> 16, 0x0001_0010_0000);
    }
}

#[test]
fn batches_have_the_length_asked_for() {
    let state = SharedState::new();
    assert_eq!(AtomicId::<24>::batch(&state, 3).len(), 3);
    assert_eq!(AtomicId::<24>::base58_batch(&state, 4).len(), 4);
    assert_eq!(AtomicId::<24>::base91_batch(&state, 5).len(), 5);
    assert_eq!(AtomicId::<24>::base36_batch(&state, 6).len(), 6);
    assert_eq!(AtomicId::<24>::hex_batch(&state, 7).len(), 7);
    assert_eq!(AtomicId::<32>::batch(&state, 1, 3).len(), 3);
    assert_eq!(AtomicId::<32>::base58_batch(&state, 1, 4).len(), 4);
    assert_eq!(AtomicId::<32>::base91_batch(&state, 1, 5).len(), 5);
    assert_eq!(AtomicId::<32>::base36_batch(&state, 1, 6).len(), 6);
    assert_eq!(AtomicId::<32>::hex_batch(&state, 1, 7).len(), 7);
    assert_eq!(AtomicId::<64>::batch(&state, 1, 3).len(), 3);
    assert_eq!(AtomicId::<64>::base58_batch(&state, 1, 4).len(), 4);
    assert_eq!(AtomicId::<64>::base91_batch(&state, 1, 5).len(), 5);
    assert_eq!(AtomicId::<64>::base36_batch(&state, 1, 6).len(), 6);
    assert_eq!(AtomicId::<64>::hex_batch(&state, 1, 7).len(), 7);
    assert_eq!(AtomicId::<128>::batch(&state, 1, 3).len(), 3);
    assert_eq!(AtomicId::<128>::base58_batch(&state, 1, 4).len(), 4);
    assert_eq!(AtomicId::<128>::base91_batch(&state, 1, 5).len(), 5);
    assert_eq!(AtomicId::<128>::base36_batch(&state, 1, 6).len(), 6);
    assert_eq!(AtomicId::<128>::hex_batch(&state, 1, 7).len(), 7);
    assert_eq!(AtomicId::<256>::batch(&state, 1, 3).len(), 3);
    assert_eq!(AtomicId::<256>::base58_batch(&state, 1, 4).len(), 4);
    assert_eq!(AtomicId::<256>::base91_batch(&state, 1, 5).len(), 5);
    assert_eq!(AtomicId::<256>::base36_batch(&state, 1, 6).len(), 6);
    assert_eq!(AtomicId::<256>::hex_batch(&state, 1, 7).len(), 7);
}

#[test]
fn empty_batches_are_empty() {
    let state = SharedState::new();
    assert!(AtomicId::<24>::batch(&state, 0).is_empty());
    assert!(AtomicId::<64>::hex_batch(&state, 1, 0).is_empty());
    assert!(AtomicId::<256>::base91_batch(&state, 1, 0).is_empty());
    assert!(AtomicId::<64>::sequential_batch(&state, 0).is_empty());
    assert_eq!(AtomicId::<24>::new(&state), "00000");
}

#[test]
fn a_batch_is_so_many_single_calls() {
    let state = SharedState::new();
    assert_eq!(AtomicId::<24>::batch(&state, 3), vec!["00000", "00001", "00002"]);
    assert_eq!(AtomicId::<24>::new(&state), "00003");
    assert_eq!(AtomicId::<24>::hex_batch(&state, 2), vec!["000004", "000005"]);
    assert_eq!(AtomicId::<24>::base58_batch(&state, 2), vec!["11117", "11118"]);
    assert_eq!(AtomicId::<24>::base91_batch(&state, 2), vec!["AAAI", "AAAJ"]);
    assert_eq!(AtomicId::<24>::base36_batch(&state, 2), vec!["0000a", "0000b"]);
    assert_eq!(AtomicId::<32>::hex_batch(&state, 0xAB, 2), vec!["ab000000", "ab000001"]);
}

#[test]
fn batch_items_have_the_width_of_single_ones() {
    let state = SharedState::new();
    for id in AtomicId::<64>::batch(&state, 1, 20) {
        assert_eq!(id.len(), 13);
    }
    for id in AtomicId::<64>::base58_batch(&state, 1, 20) {
        assert_eq!(id.len(), 11);
    }
    for id in AtomicId::<128>::base91_batch(&state, 1, 20) {
        assert_eq!(id.len(), 20);
    }
    for id in AtomicId::<256>::hex_batch(&state, 1, 20) {
        assert_eq!(id.len(), 64);
    }
    for id in AtomicId::<64>::sequential_hex_batch(&state, 20) {
        assert_eq!(id.len(), 16);
    }
}

#[test]
fn batch64_has_no_duplicates() {
    let state = SharedState::new();
    let ids = AtomicId::<64>::batch(&state, 1, 1000);
    let distinct: std::collections::HashSet<&String> = ids.iter().collect();
    assert_eq!(distinct.len(), 1000);
}

#[test]
fn sequential_is_a_plain_counter() {
    let state = SharedState::new();
    assert_eq!(AtomicId::<64>::sequential(&state), "0000000000000");
    assert_eq!(AtomicId::<64>::sequential(&state), "0000000000001");
    assert_eq!(AtomicId::<64>::sequential_base58(&state), "11111111111");
    assert_eq!(AtomicId::<64>::sequential_base58(&state), "11111111112");
    assert_eq!(AtomicId::<64>::sequential_base91(&state), "AAAAAAAAAA");
    assert_eq!(AtomicId::<64>::sequential_base91(&state), "AAAAAAAAAB");
    assert_eq!(AtomicId::<64>::sequential_base36(&state), "0000000000000");
    assert_eq!(AtomicId::<64>::sequential_base36(&state), "0000000000001");
    assert_eq!(AtomicId::<64>::sequential_hex(&state), "0000000000000000");
    assert_eq!(AtomicId::<64>::sequential_hex(&state), "0000000000000001");
    assert_eq!(AtomicId::<64>::sequential(&state), "0000000000002");
}

#[test]
fn sequential_ids_sort_as_they_were_made() {
    let state = SharedState::new();
    let id1 = AtomicId::<64>::sequential(&state);
    let id2 = AtomicId::<64>::sequential(&state);
    assert!(id1 < id2);
    let mut previous = id2;
    for _ in 0..5000 {
        let next = AtomicId::<64>::sequential(&state);
        assert!(previous < next);
        previous = next;
    }
}

#[test]
fn sequential_batches_count_up() {
    let state = SharedState::new();
    assert_eq!(
        AtomicId::<64>::sequential_batch(&state, 3),
        vec!["0000000000000", "0000000000001", "0000000000002"]
    );
    assert_eq!(
        AtomicId::<64>::sequential_base58_batch(&state, 2),
        vec!["11111111111", "11111111112"]
    );
    assert_eq!(
        AtomicId::<64>::sequential_base91_batch(&state, 2),
        vec!["AAAAAAAAAA", "AAAAAAAAAB"]
    );
    assert_eq!(
        AtomicId::<64>::sequential_base36_batch(&state, 2),
        vec!["0000000000000", "0000000000001"]
    );
    assert_eq!(
        AtomicId::<64>::sequential_hex_batch(&state, 2),
        vec!["0000000000000000", "0000000000000001"]
    );
    let ids = AtomicId::<64>::sequential_batch(&state, 100);
    for pair in ids.windows(2) {
        assert!(pair[0] < pair[1]);
    }
}

#[test]
fn sequential_does_not_touch_the_64_bit_counter() {
    let state = SharedState::new();
    AtomicOption::epoch(&state, u64::MAX);
    AtomicId::<64>::sequential(&state);
    AtomicId::<64>::sequential(&state);
    assert_eq!(AtomicId::<64>::hex(&state, 1), "0000000100010000");
}
