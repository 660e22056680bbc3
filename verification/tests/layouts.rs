use atomic_id::layout::pack128;
use atomic_id::layout::pack24;
use atomic_id::layout::pack256;
use atomic_id::layout::pack32;
use atomic_id::layout::pack64;
use atomic_id::layout::rotate_left_64;
use atomic_id::layout::rotate_right_64;

#[test]
fn rotations_agree_with_the_standard_ones() {
    let words: [u64; 6] = [0, 1, 0x8000_0000_0000_0000, 0x0123_4567_89AB_CDEF, u64::MAX, 0x7F];
    for x in words {
        for k in 0..64u32 {
            assert_eq!(rotate_left_64(x, k), x.rotate_left(k));
            assert_eq!(rotate_right_64(x, k), x.rotate_right(k));
        }
    }
}

#[test]
fn rotation_exact_values() {
    assert_eq!(rotate_left_64(0x8000_0000_0000_0001, 1), 0x0000_0000_0000_0003);
    assert_eq!(rotate_right_64(0x0000_0000_0000_0003, 1), 0x8000_0000_0000_0001);
    assert_eq!(rotate_left_64(0x0123_4567_89AB_CDEF, 16), 0x4567_89AB_CDEF_0123);
    assert_eq!(rotate_right_64(0x0123_4567_89AB_CDEF, 8), 0xEF01_2345_6789_ABCD);
}

#[test]
fn rotation_by_zero_changes_nothing() {
    for x in [0u64, 1, 0x0123_4567_89AB_CDEF, u64::MAX] {
        assert_eq!(rotate_left_64(x, 0), x);
        assert_eq!(rotate_right_64(x, 0), x);
    }
}

#[test]
fn pack24_keeps_the_low_24_bits() {
    assert_eq!(pack24(0), 0);
    assert_eq!(pack24(1), 1);
    assert_eq!(pack24(0x0123_4567), 0x23_4567);
    assert_eq!(pack24(0xFF_FFFF), 0xFF_FFFF);
    assert_eq!(pack24(0x100_0000), 0);
    assert_eq!(pack24(u64::MAX), 0xFF_FFFF);
}

#[test]
fn pack24_wraps_after_two_to_the_24() {
    for seq in [0u64, 1, 4, 0xFF_FFFF, 0x1234_5678_9ABC, u64::MAX - 3] {
        assert_eq!(pack24(seq.wrapping_add(1 << 24)), pack24(seq));
    }
}

#[test]
fn pack32_layout() {
    assert_eq!(pack32(0xAB, 0x0123_4567), 0xAB23_4567);
    assert_eq!(pack32(0, 0), 0);
    assert_eq!(pack32(128, 1), 0x8000_0001);
    assert_eq!(pack32(0xFF, u64::MAX), 0xFFFF_FFFF);
    assert_eq!(pack32(1, 0x100_0000), 0x0100_0000);
}

#[test]
fn pack64_layout() {
    assert_eq!(pack64(0x12345, 0xABC, 0xDE, 0x7F, 0x1234), 0x1234_5ABC_DE7F_1234);
    assert_eq!(pack64(0, 0, 0, 0, 0), 0);
    assert_eq!(pack64(1, 0, 0, 0, 0), 1 << 44);
    assert_eq!(pack64(0, 1, 0, 0, 0), 1 << 32);
    assert_eq!(pack64(0, 0, 1, 0, 0), 1 << 24);
    assert_eq!(pack64(0, 0, 0, 1, 0), 1 << 16);
    assert_eq!(pack64(0, 0, 0, 0, 1), 1);
    assert_eq!(pack64(u64::MAX, u16::MAX, u8::MAX, u8::MAX, u64::MAX), u64::MAX);
}

#[test]
fn pack64_cuts_each_field_to_its_width() {
    assert_eq!(
        pack64(0xFFF1_2345, 0xFABC, 0xDE, 0x7F, 0xABCD_1234),
        0x1234_5ABC_DE7F_1234
    );
    assert_eq!(pack64(1 << 20, 0, 0, 0, 0), 0);
    assert_eq!(pack64(0, 1 << 12, 0, 0, 0), 0);
    assert_eq!(pack64(0, 0, 0, 0, 1 << 16), 0);
}

#[test]
fn pack64_fields_read_back() {
    let id = pack64(0xFFF1_2345, 0xFABC, 0xDE, 0x7F, 0xABCD_1234);
    assert_eq!(id >> 44, 0x12345);
    assert_eq!((id >> 32) & 0xFFF, 0xABC);
    assert_eq!((id >> 24) & 0xFF, 0xDE);
    assert_eq!((id >> 16) & 0xFF, 0x7F);
    assert_eq!(id & 0xFFFF, 0x1234);
}

#[test]
fn pack64_sequence_field_tells_a_burst_apart() {
    let start = u64::MAX - 100;
    let mut seen = std::collections::HashSet::new();
    for i in 0..65536u64 {
        assert!(seen.insert(pack64(77, 1, 0, 9, start.wrapping_add(i))));
    }
    assert_eq!(pack64(77, 1, 0, 9, start), pack64(77, 1, 0, 9, start.wrapping_add(65536)));
}

#[test]
fn pack128_layout() {
    assert_eq!(pack128(1, 2, 3, 4, 5, 6), 0x0000_0001_0030_4050_0000_0002_0000_0628);
    assert_eq!(
        pack128(
            0x1122_3344_5566_7788,
            0x99AA_BBCC_DDEE_FF01,
            0xFABC,
            0xDE,
            0x7F,
            0x0123_4567_89AB_CDEF
        ),
        0x5566_7788_ABCD_E7FE_DDEE_FF01_ABCD_EFFB
    );
    assert_eq!(pack128(0, 0, 0, 0, 0, 0), 0);
}

#[test]
fn pack128_fields_read_back() {
    let nanos: u64 = 0x99AA_BBCC_DDEE_FF01;
    let id = pack128(0x1122_3344_5566_7788, nanos, 0xFABC, 0xDE, 0x7F, 0x0123_4567_89AB_CDEF);
    assert_eq!(id >> 96, 0x5566_7788);
    assert_eq!((id >> 84) & 0xFFF, 0xABC);
    assert_eq!((id >> 76) & 0xFF, 0xDE);
    assert_eq!((id >> 68) & 0xFF, 0x7F);
    assert_eq!((id >> 64) & 0xF, (nanos.rotate_right(16) & 0xF) as u128);
    assert_eq!((id >> 32) & 0xFFFF_FFFF, 0xDDEE_FF01);
    assert_eq!((id >> 8) & 0xFF_FFFF, 0xAB_CDEF);
    assert_eq!(id & 0xFF, 0x7Fu8.rotate_left(3) as u128);
}

#[test]
fn pack128_thread_byte_is_rotated_by_three() {
    for thread in [0u8, 1, 0x1F, 0x20, 0x80, 0xA5, 0xFF] {
        let id = pack128(0, 0, 0, 0, thread, 0);
        assert_eq!(id & 0xFF, thread.rotate_left(3) as u128);
        assert_eq!((id >> 68) & 0xFF, thread as u128);
    }
}

#[test]
fn pack256_layout() {
    assert_eq!(
        pack256(1, 2, 3, 4, 5, 6),
        [0x0000_1003_0405_0006, 0x0000_0002_0000_0000, 0x0505_0505_0006_0000, 0x0003_0030_0410_4100]
    );
    assert_eq!(
        pack256(
            0x1122_3344_5566_7788,
            0x99AA_BBCC_DDEE_FF01,
            0xFABC,
            0xDE,
            0x7F,
            0x0123_4567_89AB_CDEF
        ),
        [0x6778_8ABC_DE7F_CDEF, 0x6622_FF01_6789_ABCD, 0x7F7F_7F7F_CDEF_0123, 0xFABF_ABC0_DF7D_F7E7]
    );
}

#[test]
fn pack256_first_limb_is_the_64_bit_layout() {
    let id = pack256(0x12345, 99, 0xABC, 0xDE, 0x7F, 0x1234);
    assert_eq!(id[0], pack64(0x12345, 0xABC, 0xDE, 0x7F, 0x1234));
    assert_eq!(id[0], 0x1234_5ABC_DE7F_1234);
}

#[test]
fn pack256_agrees_with_the_limbs_written_out() {
    let cases: [(u64, u64, u16, u8, u8, u64); 4] = [
        (0, 0, 0, 0, 0, 0),
        (1, 2, 3, 4, 5, 6),
        (u64::MAX, u64::MAX, u16::MAX, u8::MAX, u8::MAX, u64::MAX),
        (0x1122_3344_5566_7788, 0x99AA_BBCC_DDEE_FF01, 0xFABC, 0xDE, 0x7F, 0x0123_4567_89AB_CDEF),
    ];
    for (ts, nanos, node, shard, thread, seq) in cases {
        let id = pack256(ts, nanos, node, shard, thread, seq);
        let mixed = ((nanos >> 32) & 0xFFFF_FFFF).rotate_left(16) ^ (nanos & 0xFFFF_FFFF);
        assert_eq!(id[1], (mixed << 32) | (seq.rotate_right(8) & 0xFFFF_FFFF));
        let t = thread as u64;
        let expanded = (t << 56) | (t << 48) | (t << 40) | (t << 32);
        assert_eq!(id[2], expanded | (seq.rotate_left(16) & 0xFFFF_FFFF));
        assert_eq!(id[2] >> 32, t * 0x0101_0101);
        let n = node as u64;
        let s = shard as u64;
        let third = (ts.rotate_right(12) & 0xFFFF)
            | (n << 48)
            | (n.rotate_left(4) << 32)
            | (s << 24)
            | (s.rotate_left(2) << 16)
            | (s.rotate_left(4) << 8)
            | s.rotate_left(6);
        assert_eq!(id[3], third);
    }
}

#[test]
fn pack256_thread_fills_the_upper_half_of_the_third_limb() {
    let id = pack256(0, 0, 0, 0, 0xA5, 0);
    assert_eq!(id[2], 0xA5A5_A5A5_0000_0000);
    let id = pack256(0, 0, 0, 0, 0x7F, 0x0123_4567_89AB_CDEF);
    assert_eq!(id[2] >> 32, 0x7F7F_7F7F);
    assert_eq!(id[2] & 0xFFFF_FFFF, 0xCDEF_0123);
    for thread in 1..=128u8 {
        let id = pack256(0, 0, 0, 0, thread, 0);
        assert_eq!(id[2] >> 32, (thread as u64) * 0x0101_0101);
    }
}
