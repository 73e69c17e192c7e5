use punktfunk_webos::text;

#[test]
fn white_space_agrees_with_std_on_every_char() {
    for u in 0..=0x10ffffu32 {
        if let Some(c) = char::from_u32(u) {
            assert_eq!(text::white_space(c), c.is_whitespace(), "U+{u:04X}");
        }
    }
}

#[test]
fn trim_agrees_with_std() {
    for s in ["", " ", "a", " a ", "\t a b \n", "\u{3000}x\u{85}", "lxvideodec1:src\n", "  \r\n  "] {
        assert_eq!(text::trim(s), s.trim());
    }
    let once = text::trim("  aa:bb  ");
    assert_eq!(once, "aa:bb");
    assert_eq!(text::trim(once), once);
}

#[test]
fn ends_with_suffix() {
    assert!(text::ends_with("video-src:src", ":src"));
    assert!(text::ends_with(":src", ":src"));
    assert!(text::ends_with("anything", ""));
    assert!(!text::ends_with("src", ":src"));
    assert!(!text::ends_with("video:srcx", ":src"));
}

#[test]
fn before_first_separator() {
    assert_eq!(text::before_first("living-room._punktfunk._udp.local.", '.'), "living-room");
    assert_eq!(text::before_first("no dot", '.'), "no dot");
    assert_eq!(text::before_first(".x", '.'), "");
    assert_eq!(text::before_first("", '.'), "");
}

#[test]
fn lists_are_split_trimmed_and_cleaned() {
    assert_eq!(text::split_list("a, b ,,c", ','), vec!["a", "b", "c"]);
    assert_eq!(text::split_list("", ','), Vec::<String>::new());
    assert_eq!(text::split_list(" , ,", ','), Vec::<String>::new());
    assert_eq!(text::split_list("über,ß", ','), vec!["über", "ß"]);
}

#[test]
fn joined_lists_give_the_items_of_both() {
    let (a, b) = ("x, y", ",z ,");
    let mut both = text::split_list(a, ',');
    both.extend(text::split_list(b, ','));
    assert_eq!(text::split_list(&format!("{a},{b}"), ','), both);
}

#[test]
fn u16_agrees_with_std() {
    for s in [
        "0", "1", "65535", "65536", "+7", "-7", "-0", "", "+", "-", " 1", "1 ", "1_0", "0000000000000000000000012",
        "99999999999999999999999", "12a", "a12", "++1", "\u{0661}", "47990",
    ] {
        assert_eq!(text::parse_u16(s), s.parse::<u16>().ok(), "{s:?}");
    }
}

#[test]
fn i32_agrees_with_std() {
    for s in [
        "0", "-0", "+5", "-5", "2147483647", "2147483648", "-2147483648", "-2147483649", "", "+", "-", "--1", "-+1",
        "1 ", "self", "00042", "-00042", "4294967296",
    ] {
        assert_eq!(text::parse_i32(s), s.parse::<i32>().ok(), "{s:?}");
    }
}
