use radix_fmt_ng::radix;

#[test]
fn max_size_is_ok() {
    let base_3 =
        "202201102121002021012000211012011021221022212021111001022110211020010021100121010";

    assert_eq!(radix(u128::MAX, 3).render(false), base_3);
    assert_eq!(base_3.len(), 81);
}

#[test]
fn binary_fallback_is_ok() {
    let base_2: String = std::iter::repeat('1').take(128).collect();

    assert_eq!(radix(-1_i128, 2).render(false), base_2);
}

#[test]
fn max_binary_has_full_length() {
    let rendered = radix(u128::MAX, 2).render(false);
    assert_eq!(rendered.len(), 128);
    assert!(rendered.chars().all(|c| c == '1'));
}

#[test]
fn most_negative_i8_is_its_bit_pattern() {
    assert_eq!(radix(i8::MIN, 2).render(false), "10000000");
}

#[test]
fn most_negative_i16_is_its_bit_pattern() {
    let expected = format!("1{}", "0".repeat(15));
    assert_eq!(radix(i16::MIN, 2).render(false), expected);
}

#[test]
fn most_negative_i32_is_its_bit_pattern() {
    let expected = format!("1{}", "0".repeat(31));
    assert_eq!(radix(i32::MIN, 2).render(false), expected);
}

#[test]
fn most_negative_i64_is_its_bit_pattern() {
    let expected = format!("1{}", "0".repeat(63));
    assert_eq!(radix(i64::MIN, 2).render(false), expected);
}

#[test]
fn most_negative_i128_is_its_bit_pattern() {
    let expected = format!("1{}", "0".repeat(127));
    assert_eq!(radix(i128::MIN, 2).render(false), expected);
}

#[test]
fn most_negative_isize_is_its_bit_pattern() {
    let expected = format!("{:b}", isize::MIN as usize);
    assert_eq!(radix(isize::MIN, 2).render(false), expected);
}

#[test]
fn negative_one_keeps_its_width() {
    // Two's-complement policy: no minus sign, all bits set.
    assert_eq!(radix(-1_i8, 3).render(false), radix(255_u8, 3).render(false));
    assert_eq!(radix(-1_i8, 3).render(false), "100110");
}

#[test]
fn u8_is_ok() {
    let n: u8 = 100;

    assert_eq!(radix(n, 3).render(false), "10201");
}

#[test]
fn i8_is_ok() {
    let n: i8 = -100;
    let u = n as u8;

    assert_eq!(radix(n, 3).render(false), radix(u, 3).render(false));
}

#[test]
fn u16_is_ok() {
    let n: u16 = 100;

    assert_eq!(radix(n, 3).render(false), "10201");
}

#[test]
fn i16_is_ok() {
    let n: i16 = -100;
    let u = n as u16;

    assert_eq!(radix(n, 3).render(false), radix(u, 3).render(false));
}

#[test]
fn u32_is_ok() {
    let n: u32 = 100;

    assert_eq!(radix(n, 3).render(false), "10201");
}

#[test]
fn i32_is_ok() {
    let n: i32 = -100;
    let u = n as u32;

    assert_eq!(radix(n, 3).render(false), radix(u, 3).render(false));
}

#[test]
fn u64_is_ok() {
    let n: u64 = 100;

    assert_eq!(radix(n, 3).render(false), "10201");
}

#[test]
fn i64_is_ok() {
    let n: i64 = -100;
    let u = n as u64;

    assert_eq!(radix(n, 3).render(false), radix(u, 3).render(false));
}

#[test]
fn u128_is_ok() {
    let n: u128 = 100;

    assert_eq!(radix(n, 3).render(false), "10201");
}

#[test]
fn i128_is_ok() {
    let n: i128 = -100;
    let u = n as u128;

    assert_eq!(radix(n, 3).render(false), radix(u, 3).render(false));
}

#[test]
fn usize_is_ok() {
    let n: usize = 100;

    assert_eq!(radix(n, 3).render(false), "10201");
}

#[test]
fn isize_is_ok() {
    let n: isize = -100;
    let u = n as usize;

    assert_eq!(radix(n, 3).render(false), radix(u, 3).render(false));
}
