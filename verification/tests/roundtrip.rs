use radix_fmt_ng::convert;
use radix_fmt_ng::digit;
use radix_fmt_ng::radix;
use radix_fmt_ng::shortcuts::radix_28;
use radix_fmt_ng::shortcuts::radix_3;
use radix_fmt_ng::shortcuts::radix_62;

fn digit_value(c: char, alternate: bool) -> u32 {
    match c {
        '0'..='9' => c as u32 - '0' as u32,
        'a'..='z' => {
            let v = c as u32 - 'a' as u32;
            if alternate {
                v + 36
            } else {
                v + 10
            }
        }
        'A'..='Z' => {
            let v = c as u32 - 'A' as u32;
            if alternate {
                v + 10
            } else {
                v + 36
            }
        }
        _ => panic!("not a digit: {c}"),
    }
}

fn parse_back(s: &str, base: u128, alternate: bool) -> u128 {
    let mut acc: u128 = 0;
    for c in s.chars() {
        let d = digit_value(c, alternate) as u128;
        assert!(d < base, "digit out of range for base {base}");
        acc = acc * base + d;
    }
    acc
}

#[test]
fn parsing_rendered_digits_restores_the_value() {
    let values: [u128; 9] = [
        0,
        1,
        5,
        61,
        62,
        100,
        12345,
        u64::MAX as u128,
        u128::MAX,
    ];
    for &v in values.iter() {
        for base in 2..=62u8 {
            for alternate in [false, true] {
                let s = radix(v, base).render(alternate);
                assert_eq!(
                    parse_back(&s, base as u128, alternate),
                    v,
                    "value {v} base {base} alternate {alternate}"
                );
            }
        }
    }
}

#[test]
fn general_path_matches_native_formatting() {
    let values: [u128; 7] = [0, 1, 7, 100, 255, 1 << 40, u128::MAX];
    for &v in values.iter() {
        assert_eq!(convert(v, 2, false), format!("{v:b}"));
        assert_eq!(convert(v, 8, false), format!("{v:o}"));
        assert_eq!(convert(v, 10, false), format!("{v}"));
        assert_eq!(convert(v, 16, false), format!("{v:x}"));
        assert_eq!(convert(v, 16, true), format!("{v:X}"));
    }
}

#[test]
fn general_path_matches_render_dispatch() {
    for base in [2u8, 8, 10, 16] {
        for alternate in [false, true] {
            for v in [0u128, 9, 100, 4095, u128::MAX] {
                assert_eq!(
                    convert(v, base, alternate),
                    radix(v, base).render(alternate),
                    "value {v} base {base} alternate {alternate}"
                );
            }
        }
    }
}

#[test]
fn shortcuts_agree_with_the_general_constructor() {
    for alternate in [false, true] {
        assert_eq!(
            radix_3(100u8).render(alternate),
            radix(100u8, 3).render(alternate)
        );
        assert_eq!(
            radix_28(100u8).render(alternate),
            radix(100u8, 28).render(alternate)
        );
        assert_eq!(
            radix_62(u64::MAX).render(alternate),
            radix(u64::MAX, 62).render(alternate)
        );
    }
}

#[test]
fn digit_encoder_covers_the_alphabet() {
    assert_eq!(digit(0, false), '0');
    assert_eq!(digit(9, false), '9');
    assert_eq!(digit(10, false), 'a');
    assert_eq!(digit(35, false), 'z');
    assert_eq!(digit(36, false), 'A');
    assert_eq!(digit(61, false), 'Z');
    assert_eq!(digit(0, true), '0');
    assert_eq!(digit(10, true), 'A');
    assert_eq!(digit(35, true), 'Z');
    assert_eq!(digit(36, true), 'a');
    assert_eq!(digit(61, true), 'z');
}
