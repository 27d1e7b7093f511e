use bsky_video_dl::text::{
    chars_of, first_segment, is_whitespace, range_is, replace_char, same_text, split_bounds,
    starts_with, trim, trim_bounds,
};

fn pieces(text: &str) -> Vec<String> {
    let chars = chars_of(text);
    split_bounds(&chars, '/')
        .iter()
        .map(|&(from, to)| chars[from..to].iter().collect::<String>())
        .collect()
}

#[test]
fn white_space_is_what_std_calls_white_space() {
    let mut n: u32 = 0;
    while n <= 0x10FFFF {
        if let Some(c) = char::from_u32(n) {
            assert_eq!(is_whitespace(c), c.is_whitespace(), "U+{:04X}", n);
        }
        n += 1;
    }
}

#[test]
fn white_space_examples() {
    assert!(is_whitespace(' '));
    assert!(is_whitespace('\t'));
    assert!(is_whitespace('\n'));
    assert!(is_whitespace('\u{A0}'));
    assert!(is_whitespace('\u{3000}'));
    assert!(!is_whitespace('/'));
    assert!(!is_whitespace('a'));
    assert!(!is_whitespace('\u{200B}'));
}

#[test]
fn chars_of_keeps_every_character() {
    assert_eq!(chars_of(""), Vec::<char>::new());
    assert_eq!(chars_of("a/b"), vec!['a', '/', 'b']);
    assert_eq!(chars_of("é日"), vec!['é', '日']);
}

#[test]
fn trim_takes_white_space_off_both_ends() {
    assert_eq!(trim("  a b \n"), "a b");
    assert_eq!(trim("a"), "a");
    assert_eq!(trim(""), "");
    assert_eq!(trim(" \t\r\n"), "");
    assert_eq!(trim("\u{3000}é \u{A0}"), "é");
}

#[test]
fn trim_agrees_with_std() {
    let samples = [
        "",
        " ",
        "x",
        " x",
        "x ",
        "  https://bsky.app/profile/a/post/b  ",
        "\n\ta b\u{2028}",
        "\u{85}\u{1680}z\u{205F}\u{202F}",
        "日本 語 ",
    ];
    for s in samples {
        assert_eq!(trim(s), s.trim());
    }
}

#[test]
fn trim_bounds_count_characters() {
    assert_eq!(trim_bounds(&chars_of(" é b ")), (1, 4));
    assert_eq!(trim_bounds(&chars_of("   ")), (3, 3));
    assert_eq!(trim_bounds(&chars_of("")), (0, 0));
}

#[test]
fn split_cuts_at_every_separator() {
    assert_eq!(pieces(""), vec![""]);
    assert_eq!(pieces("abc"), vec!["abc"]);
    assert_eq!(pieces("/"), vec!["", ""]);
    assert_eq!(pieces("a/b"), vec!["a", "b"]);
    assert_eq!(pieces("a//b/"), vec!["a", "", "b", ""]);
    assert_eq!(
        pieces("https://bsky.app/profile/x/post/y"),
        vec!["https:", "", "bsky.app", "profile", "x", "post", "y"]
    );
}

#[test]
fn split_agrees_with_std() {
    let samples = ["", "/", "//", "a", "/a", "a/", "a/b/c", "é/日/", "x//y///z"];
    for s in samples {
        let expected: Vec<String> = s.split('/').map(|p| p.to_string()).collect();
        assert_eq!(pieces(s), expected);
    }
}

#[test]
fn split_bounds_are_positions_of_characters() {
    assert_eq!(split_bounds(&chars_of("é/b"), '/'), vec![(0, 1), (2, 3)]);
    assert_eq!(split_bounds(&chars_of(""), '/'), vec![(0, 0)]);
}

#[test]
fn range_is_compares_a_range_with_a_word() {
    let chars = chars_of("a/post/b");
    assert!(range_is(&chars, 2, 6, &chars_of("post")));
    assert!(!range_is(&chars, 2, 5, &chars_of("post")));
    assert!(!range_is(&chars, 1, 5, &chars_of("post")));
    assert!(range_is(&chars, 3, 3, &chars_of("")));
}

#[test]
fn starts_with_checks_the_beginning() {
    assert!(starts_with(&chars_of("did:plc:x"), &chars_of("did:")));
    assert!(starts_with(&chars_of("did:"), &chars_of("did:")));
    assert!(!starts_with(&chars_of("did"), &chars_of("did:")));
    assert!(!starts_with(&chars_of("xdid:"), &chars_of("did:")));
    assert!(starts_with(&chars_of("x"), &chars_of("")));
}

#[test]
fn first_segment_finds_the_first_of_several() {
    let chars = chars_of("a/post/b/post/c");
    let bounds = split_bounds(&chars, '/');
    assert_eq!(first_segment(&chars, &bounds, &chars_of("post")), 1);
    assert_eq!(first_segment(&chars, &bounds, &chars_of("c")), 4);
    assert_eq!(first_segment(&chars, &bounds, &chars_of("profile")), 5);
}

#[test]
fn same_text_compares_whole_strings() {
    assert!(same_text("", ""));
    assert!(same_text("abc", "abc"));
    assert!(!same_text("abc", "abd"));
    assert!(!same_text("abc", "ab"));
    assert!(!same_text("ab", "abc"));
}

#[test]
fn replace_char_replaces_every_occurrence() {
    assert_eq!(replace_char("example.com:user:alice", ':', "/"), "example.com/user/alice");
    assert_eq!(replace_char("example.com", ':', "/"), "example.com");
    assert_eq!(replace_char("", ':', "/"), "");
    assert_eq!(replace_char("::", ':', "/"), "//");
    assert_eq!(replace_char(":é:", ':', "/"), "/é/");
}

#[test]
fn replace_char_agrees_with_std() {
    let samples = ["", ":", "a:b", "a::b:", "日:本", "none"];
    for s in samples {
        assert_eq!(replace_char(s, ':', "/"), s.replace(':', "/"));
        assert_eq!(replace_char(s, ':', ""), s.replace(':', ""));
        assert_eq!(replace_char(s, 'a', "bcd"), s.replace('a', "bcd"));
    }
}
