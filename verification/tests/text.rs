use semantiq::embedding::text::{is_alphanumeric, is_whitespace, to_lowercase};

fn listed_white_space(c: char) -> bool {
    let u = c as u32;
    (0x09..=0x0d).contains(&u)
        || u == 0x20
        || u == 0x85
        || u == 0xa0
        || u == 0x1680
        || (0x2000..=0x200a).contains(&u)
        || u == 0x2028
        || u == 0x2029
        || u == 0x202f
        || u == 0x205f
        || u == 0x3000
}

#[test]
fn whitespace_is_the_listed_code_points() {
    for u in 0..=0x10ffffu32 {
        if let Some(c) = char::from_u32(u) {
            assert_eq!(is_whitespace(c), listed_white_space(c), "U+{:04X}", u);
            assert_eq!(is_whitespace(c), c.is_whitespace(), "U+{:04X}", u);
        }
    }
}

#[test]
fn ascii_alphanumerics_are_digits_and_letters() {
    for u in 0..128u32 {
        let c = char::from_u32(u).unwrap();
        let expected = c.is_ascii_digit() || c.is_ascii_uppercase() || c.is_ascii_lowercase();
        assert_eq!(is_alphanumeric(c), expected, "U+{:04X}", u);
    }
    assert!(is_alphanumeric('é'));
    assert!(!is_alphanumeric('€'));
}

#[test]
fn ascii_lowercase_maps_letters_only() {
    let all: String = (0..128u32).map(|u| char::from_u32(u).unwrap()).collect();
    let expected: String = all
        .chars()
        .map(|c| if c.is_ascii_uppercase() { ((c as u8) + 32) as char } else { c })
        .collect();
    assert_eq!(to_lowercase(&all), expected);
    assert_eq!(to_lowercase("ÀÉ"), "àé");
}
