use radix_fmt_ng::radix;
use radix_fmt_ng::Radix;

#[test]
fn test_radix() {
    for ele in 2..=61 {
        println!("{ele}: {}", radix(100, ele).render(false))
    }
}

#[test]
fn hundred_in_every_base() {
    let expected: [(u8, &str); 60] = [
        (2, "1100100"),
        (3, "10201"),
        (4, "1210"),
        (5, "400"),
        (6, "244"),
        (7, "202"),
        (8, "144"),
        (9, "121"),
        (10, "100"),
        (11, "91"),
        (12, "84"),
        (13, "79"),
        (14, "72"),
        (15, "6a"),
        (16, "64"),
        (17, "5f"),
        (18, "5a"),
        (19, "55"),
        (20, "50"),
        (21, "4g"),
        (22, "4c"),
        (23, "48"),
        (24, "44"),
        (25, "40"),
        (26, "3m"),
        (27, "3j"),
        (28, "3g"),
        (29, "3d"),
        (30, "3a"),
        (31, "37"),
        (32, "34"),
        (33, "31"),
        (34, "2w"),
        (35, "2u"),
        (36, "2s"),
        (37, "2q"),
        (38, "2o"),
        (39, "2m"),
        (40, "2k"),
        (41, "2i"),
        (42, "2g"),
        (43, "2e"),
        (44, "2c"),
        (45, "2a"),
        (46, "28"),
        (47, "26"),
        (48, "24"),
        (49, "22"),
        (50, "20"),
        (51, "1N"),
        (52, "1M"),
        (53, "1L"),
        (54, "1K"),
        (55, "1J"),
        (56, "1I"),
        (57, "1H"),
        (58, "1G"),
        (59, "1F"),
        (60, "1E"),
        (61, "1D"),
    ];
    for (base, s) in expected {
        assert_eq!(Radix::new(100u32, base).render(false), s, "base {base}");
    }
}

#[test]
fn hundred_in_base_62() {
    assert_eq!(radix(100u8, 62).render(false), "1C");
    assert_eq!(radix(100u8, 62).render(true), "1c");
}

#[test]
fn zero_in_every_base() {
    for base in 2..=62 {
        assert_eq!(radix(0u8, base).render(false), "0", "base {base}");
        assert_eq!(radix(0u128, base).render(true), "0", "base {base}");
    }
}

#[test]
fn same_number_as_base() {
    assert_eq!(radix(9, 9).render(false), "10");
}

#[test]
fn whatever_number() {
    assert_eq!(radix(5, 9).render(false), "5");
}

#[test]
fn alternate_mode_base_28() {
    assert_eq!(radix(100u8, 28).render(true), "3G");
    assert_eq!(radix(100u8, 28).render(false), "3g");
}

#[test]
fn alternate_mode_swaps_letter_ranges() {
    // Digit 35 is 'z' in normal mode, digit 61 is 'Z'; the alternate
    // mode transposes the two letter ranges.
    assert_eq!(radix(35u8, 62).render(false), "z");
    assert_eq!(radix(35u8, 62).render(true), "Z");
    assert_eq!(radix(61u8, 62).render(false), "Z");
    assert_eq!(radix(61u8, 62).render(true), "z");
}

#[test]
fn alternate_mode_hexadecimal() {
    assert_eq!(radix(255u16, 16).render(false), "ff");
    assert_eq!(radix(255u16, 16).render(true), "FF");
    assert_eq!(radix(3054u16, 16).render(false), "bee");
    assert_eq!(radix(3054u16, 16).render(true), "BEE");
}

#[test]
fn native_bases_small_values() {
    assert_eq!(radix(255u8, 2).render(false), "11111111");
    assert_eq!(radix(255u8, 8).render(false), "377");
    assert_eq!(radix(255u8, 10).render(false), "255");
    assert_eq!(radix(255u8, 16).render(false), "ff");
}
