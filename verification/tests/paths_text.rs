use anime_game_core::paths::{ancestor, file_name, join, parent, path_components};
use anime_game_core::repairer::paths_equal;
use anime_game_core::strings::{parse_u64, parse_u8, str_contains, to_ascii_lowercase, to_chars};
use anime_game_core::text::{
    char_index_at_byte, chars_byte_len, chars_less, first_greatest, replace_chars, split_lines,
};

fn text(v: &[char]) -> String {
    v.iter().collect()
}

#[test]
fn join_puts_one_separator() {
    assert_eq!(join("/games/sr", "StarRail_Data"), "/games/sr/StarRail_Data");
    assert_eq!(join("/games/", "a"), "/games/a");
    assert_eq!(join("", "a"), "a");
    assert_eq!(join("/x", "/abs"), "/abs");
}

#[test]
fn join_matches_std() {
    for (base, seg) in [("/a/b", "c"), ("a/", "b/c"), ("", "x"), ("/", "y"), ("a", "/z")] {
        let expected = std::path::Path::new(base).join(seg);
        assert_eq!(join(base, seg), expected.to_string_lossy(), "{base} + {seg}");
    }
}

#[test]
fn file_name_matches_std() {
    for p in ["/usr/bin/", "tmp/foo.txt", "foo.txt/.", "foo.txt/.//", "foo.txt/..", "/", "", ".", "./x", "a//b", ".."] {
        let expected = std::path::Path::new(p).file_name().map(|n| n.to_string_lossy().into_owned());
        assert_eq!(file_name(p), expected, "{p}");
    }
}

#[test]
fn parent_drops_last_component() {
    assert_eq!(parent("/foo/bar"), Some(String::from("/foo")));
    assert_eq!(parent("/foo"), Some(String::from("/")));
    assert_eq!(parent("foo"), Some(String::new()));
    assert_eq!(parent("/"), None);
    assert_eq!(parent(""), None);
    assert_eq!(parent("/a//b/"), Some(String::from("/a")));
}

#[test]
fn ancestor_goes_up() {
    let p = "/g/StarRail_Data/Persistent/Audio/AudioPackage/Windows/English(US)";
    assert_eq!(ancestor(p, 6), Some(String::from("/g")));
    assert_eq!(ancestor(p, 0), Some(String::from(p)));
    assert_eq!(ancestor("/a", 2), None);
}

#[test]
fn components_skip_empty_and_current() {
    let c: Vec<String> = path_components("/a//b/./c/").iter().map(|v| text(v)).collect();
    assert_eq!(c, vec!["a", "b", "c"]);
}

#[test]
fn paths_compare_like_std() {
    for (a, b) in [("a/b", "a//b/"), ("./a", "a"), ("/a", "a"), ("a/./b", "a/b"), ("a/../b", "b"), ("", ".")] {
        let expected = std::path::Path::new(a) == std::path::Path::new(b);
        assert_eq!(paths_equal(a, b), expected, "{a} vs {b}");
    }
}

#[test]
fn lines_like_std() {
    for s in ["a\nb\r\nc", "a\n", "\n", "", "a\r", "x\r\n\r\ny", "one"] {
        let expected: Vec<String> = s.lines().map(String::from).collect();
        let chars = to_chars(s);
        let got: Vec<String> = split_lines(&chars).iter().map(|v| text(v)).collect();
        assert_eq!(got, expected, "{s:?}");
    }
}

#[test]
fn replace_like_std() {
    for (s, from, to) in [("exit; exit", "exit", "#exit"), ("aaa", "aa", "b"), ("read", "read", "#read"), ("none", "x", "y")] {
        let chars = to_chars(s);
        assert_eq!(text(&replace_chars(&chars, from, to)), s.replace(from, to));
    }
}

#[test]
fn byte_lengths_like_std() {
    let s = "héllo 日本 🎮";
    let chars = to_chars(s);
    assert_eq!(chars_byte_len(&chars), s.len());
    for b in 0..=s.len() {
        let found = char_index_at_byte(&chars, b);
        assert_eq!(found.is_some(), s.is_char_boundary(b), "byte {b}");
        if let Some(k) = found {
            assert_eq!(chars[..k].iter().collect::<String>().len(), b);
        }
    }
}

#[test]
fn greatest_name_first() {
    let names = vec![String::from("310"), String::from("330"), String::from("320")];
    assert_eq!(first_greatest(&names), Some(1));
    let ties = vec![String::from("330"), String::from("330")];
    assert_eq!(first_greatest(&ties), Some(0));
    assert_eq!(first_greatest(&[]), None);
    assert!(chars_less(&to_chars("31"), &to_chars("310")));
    assert!(!chars_less(&to_chars("4"), &to_chars("310")));
}

#[test]
fn numbers_parse_like_std() {
    for s in ["0", "42", "+7", "255", "256", "", "-1", "1a", "18446744073709551615", "18446744073709551616"] {
        assert_eq!(parse_u8(s), s.parse::<u8>().ok(), "{s}");
        assert_eq!(parse_u64(s), s.parse::<u64>().ok(), "{s}");
    }
}

#[test]
fn small_text_helpers() {
    assert_eq!(text(&to_ascii_lowercase("ZH_cn.UTF-8")), "zh_cn.utf-8");
    assert!(str_contains("Patch applied!", "applied"));
    assert!(!str_contains("", "a"));
}

#[test]
fn printable_runs_of_bytes() {
    let bytes = b"\x00\x01abc\x002.3.0_8253322\xffxyzw \x7fend!";
    assert_eq!(
        anime_game_core::file_strings::file_strings(bytes),
        vec![String::from("2.3.0_8253322"), String::from("xyzw "), String::from("end!")]
    );
    assert_eq!(anime_game_core::file_strings::file_strings(b""), Vec::<String>::new());
}
