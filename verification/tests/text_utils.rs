use lenra_cli::text::{is_whitespace_char, split_on, split_whitespace, trim};

#[test]
fn whitespace_is_std_whitespace() {
    for n in 0..=0x10FFFFu32 {
        if let Some(c) = char::from_u32(n) {
            assert_eq!(is_whitespace_char(c), c.is_whitespace(), "{:?}", c);
        }
    }
}

#[test]
fn words_and_trim_like_std() {
    let samples = [
        "",
        "   ",
        "lenra logs --follow",
        "  two\twords\n",
        "\u{3000}wide\u{2003}space\u{85}",
        "a",
        " a b  c ",
    ];
    for s in samples {
        let expected: Vec<String> = s.split_whitespace().map(|w| w.to_string()).collect();
        assert_eq!(split_whitespace(s), expected);
        assert_eq!(trim(s), s.trim());
    }
}

#[test]
fn split_like_std() {
    for s in ["", ":", "a", "a:b", "widget:main:sameValue:x", "::x:"] {
        let expected: Vec<String> = s.split(':').map(|w| w.to_string()).collect();
        assert_eq!(split_on(s, ':'), expected);
    }
}
