use shellect::color::{is_color_str, parse_color, SColor};

#[test]
fn long_form_reads_two_digits_for_each_component() {
    assert_eq!(parse_color("#FF69B4"), Some(SColor { r: 255, g: 105, b: 180 }));
    assert_eq!(parse_color("#000000"), Some(SColor { r: 0, g: 0, b: 0 }));
    assert_eq!(parse_color("#1E90FF"), Some(SColor { r: 30, g: 144, b: 255 }));
}

#[test]
fn short_form_doubles_each_digit() {
    assert_eq!(parse_color("#FF0"), Some(SColor { r: 255, g: 255, b: 0 }));
    assert_eq!(parse_color("#1a9"), Some(SColor { r: 0x11, g: 0xaa, b: 0x99 }));
}

#[test]
fn digits_are_read_in_either_case() {
    assert_eq!(parse_color("#abcdef"), parse_color("#ABCDEF"));
    assert_eq!(parse_color("#abcdef"), Some(SColor { r: 0xab, g: 0xcd, b: 0xef }));
    assert_eq!(parse_color("#aBc"), Some(SColor { r: 0xaa, g: 0xbb, b: 0xcc }));
}

#[test]
fn color_without_hash_is_refused() {
    assert_eq!(parse_color("FF69B4"), None);
    assert_eq!(parse_color("FF69B4F"), None);
    assert_eq!(parse_color("fff"), None);
}

#[test]
fn color_of_wrong_length_is_refused() {
    assert_eq!(parse_color(""), None);
    assert_eq!(parse_color("#"), None);
    assert_eq!(parse_color("#12"), None);
    assert_eq!(parse_color("#1234"), None);
    assert_eq!(parse_color("#12345"), None);
    assert_eq!(parse_color("#1234567"), None);
    assert_eq!(parse_color("#12345678"), None);
}

#[test]
fn color_with_other_characters_is_refused() {
    assert_eq!(parse_color("#GGGGGG"), None);
    assert_eq!(parse_color("#12345g"), None);
    assert_eq!(parse_color("#+f+f+f"), None);
    assert_eq!(parse_color(" #ffffff"), None);
    assert_eq!(parse_color("#ff ff"), None);
    assert_eq!(parse_color("#é0000"), None);
    assert_eq!(parse_color("#ééé"), None);
}

#[test]
fn is_color_str_agrees_with_parse_color() {
    for text in ["#fff", "#FFFFFF", "#ffff", "fff", "", "#12345z", "#0a1B2c"] {
        assert_eq!(is_color_str(text), parse_color(text).is_some());
    }
}

#[test]
fn every_short_form_is_read() {
    let digits: Vec<char> = "0123456789abcdefABCDEF".chars().collect();
    for &r in &digits {
        for &g in &digits {
            for &b in &digits {
                let text: String = ['#', r, g, b].iter().collect();
                let value = |c: char| 17 * c.to_digit(16).unwrap() as u8;
                assert_eq!(
                    parse_color(&text),
                    Some(SColor { r: value(r), g: value(g), b: value(b) }),
                    "{}",
                    text
                );
            }
        }
    }
}

#[test]
fn every_component_of_the_long_form_is_read() {
    for n in 0..=255u8 {
        for text in [format!("{:02x}", n), format!("{:02X}", n)] {
            assert_eq!(
                parse_color(&format!("#{}0000", text)),
                Some(SColor { r: n, g: 0, b: 0 })
            );
            assert_eq!(
                parse_color(&format!("#00{}00", text)),
                Some(SColor { r: 0, g: n, b: 0 })
            );
            assert_eq!(
                parse_color(&format!("#0000{}", text)),
                Some(SColor { r: 0, g: 0, b: n })
            );
        }
    }
}
