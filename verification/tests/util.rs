use gblite::util::{
    create_file_name, dump_name_at_time, file_name_at, file_name_at_time, is_bit_set, join_u8, set_bit, split_u16,
};

#[test]
fn test_join_u8() {
    for hib in 0..=255 {
        for lob in 0..=255 {
            println!("Hi: {}, lo: {}", hib, lob);
            assert_eq!(join_u8((lob, hib)), (hib as u16) * 0x100 + lob as u16)
        }
    }
}

#[test]
fn test_split_u16() {
    for hib in 0..=255 {
        for lob in 0..=255 {
            let joined = join_u8((lob, hib));
            assert_eq!(split_u16(joined), (lob, hib))
        }
    }
}

#[test]
fn test_bit_set() {
    let mut word: u8 = 0;

    // Set every bit to 1, and verify it is set
    for bit in 0..=7 {
        word = set_bit(word, bit, true);
        assert_eq!(is_bit_set(word, bit), true);
    }

    // Now set every bit to 0, and verify it's unset
    for bit in 0..=7 {
        word = set_bit(word, bit, false);
        assert_eq!(is_bit_set(word, bit), false);
    }
}

#[test]
fn join_is_little_endian() {
    assert_eq!(join_u8((0xFF, 0x11)), 0x11FF);
}

#[test]
fn split_is_little_endian() {
    assert_eq!(split_u16(0x32DD), (0xDD, 0x32));
}

#[test]
fn set_bit_examples() {
    assert_eq!(set_bit(0xFF, 7, false), 0x7F);
    assert_eq!(set_bit(0xF0, 4, true), 0xF0);
    assert_eq!(set_bit(0x00, 0, true), 0x01);
}

#[test]
fn is_bit_set_examples() {
    assert_eq!(is_bit_set(0xFF, 7), true);
    assert_eq!(is_bit_set(0x0F, 4), false);
}

#[test]
fn set_bit_leaves_other_bits() {
    for word in 0..=255u8 {
        for bit in 0..8u8 {
            for v in [false, true] {
                let w = set_bit(word, bit, v);
                for other in 0..8u8 {
                    if other != bit {
                        assert_eq!(is_bit_set(w, other), is_bit_set(word, other));
                    }
                }
            }
        }
    }
}

#[test]
fn file_name_pads_month_and_day() {
    assert_eq!(file_name_at(2024, 3, 7, 3600, "_mem"), "gblite_2024_03_07_3600_mem.log");
    assert_eq!(file_name_at(1999, 12, 31, 0, ""), "gblite_1999_12_31_0.log");
}

#[test]
fn file_name_of_now_has_the_shape() {
    let name = create_file_name("_trace").expect("the clock is after 1970");
    assert!(name.starts_with("gblite_"));
    assert!(name.ends_with("_trace.log"));
    let parts: Vec<&str> = name.trim_end_matches("_trace.log").split('_').collect();
    assert_eq!(parts.len(), 5);
    assert_eq!(parts[2].len(), 2);
    assert_eq!(parts[3].len(), 2);
}

#[test]
fn memory_dump_file_name() {
    assert_eq!(util_dump_name(), "gblite_mem_2021_01_05_42.log");
    let now = gblite::util::dump_file_name().expect("the clock is after 1970");
    assert!(now.starts_with("gblite_mem_") && now.ends_with(".log"));
}

fn util_dump_name() -> String {
    gblite::util::dump_name_at(2021, 1, 5, 42)
}

#[test]
fn file_names_from_timestamps() {
    assert_eq!(file_name_at_time(0, "").as_deref(), Some("gblite_1970_01_01_0.log"));
    // 2015-05-15 00:00:00 UTC, then one hour, one minute and one second on.
    assert_eq!(file_name_at_time(1431648000 + 3661, "_x").as_deref(), Some("gblite_2015_05_15_3661_x.log"));
    assert_eq!(dump_name_at_time(86400 * 31).as_deref(), Some("gblite_mem_1970_02_01_0.log"));
    assert_eq!(file_name_at_time(u64::MAX, ""), None);
}
