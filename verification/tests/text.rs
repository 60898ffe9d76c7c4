use auto_launcher::host::{descend_home, join_path};
use auto_launcher::text::{
    after_prefix, chars, contains, fields_of, first_word_of, has_prefix, has_suffix,
    is_white_space, join, lines_of, same, trimmed, without_leading_space,
};

const SAMPLES: [&str; 16] = [
    "",
    " ",
    "\n",
    "\r\n",
    "a",
    "a\n",
    "a\r\nb\r",
    "\r\r\n\n",
    "  a b  c ",
    "\u{a0}x\u{3000}\u{85}y\u{2028}",
    "a,b,,c",
    ",",
    "\u{e9}\u{4e2d}\u{1f600} z",
    "# Managed by X",
    "\t# Managed\n  [Unit]\n\nEnd",
    "no such thing",
];

#[test]
fn white_space_is_that_of_char() {
    for n in 0..=0x10ffff_u32 {
        if let Some(c) = char::from_u32(n) {
            assert_eq!(is_white_space(c), c.is_whitespace(), "{:x}", n);
        }
    }
}

#[test]
fn text_functions_agree_with_str() {
    for s in SAMPLES {
        assert_eq!(chars(s), s.chars().collect::<Vec<char>>());
        assert_eq!(without_leading_space(s), s.trim_start());
        assert_eq!(trimmed(s), s.trim());
        assert_eq!(lines_of(s), s.lines().collect::<Vec<&str>>());
        assert_eq!(fields_of(s, ','), s.split(',').collect::<Vec<&str>>());
        assert_eq!(first_word_of(s).as_deref(), s.split_whitespace().next());
        for t in SAMPLES {
            assert_eq!(has_prefix(s, t), s.starts_with(t));
            assert_eq!(has_suffix(s, t), s.ends_with(t));
            assert_eq!(after_prefix(s, t), s.strip_prefix(t));
            assert_eq!(contains(s, t), s.contains(t));
            assert_eq!(same(s, t), s == t);
        }
    }
    assert!(contains("Unit x not loaded.", "not loaded"));
    assert!(!contains("Unit x not  loaded.", "not loaded"));
}

#[test]
fn joining_strings() {
    let parts = ["a".to_string(), "".to_string(), "c".to_string()];
    assert_eq!(join(&parts, ", "), parts.join(", "));
    assert_eq!(join(&parts[..1], ", "), "a");
    assert_eq!(join(&[], ", "), "");
}

#[test]
fn joining_paths_agrees_with_path() {
    for base in ["", "/", "/a", "/a/", "a", "/a//"] {
        for tail in ["", "b", "/b", "b/c", ".config", "\u{e9}"] {
            let expected = std::path::Path::new(base).join(tail);
            assert_eq!(
                join_path(base.as_bytes(), tail),
                expected.into_os_string().into_encoded_bytes(),
                "{} {}",
                base,
                tail
            );
        }
    }
}

#[test]
fn descending_from_home() {
    let home = Some(b"/h\xff".to_vec());
    assert_eq!(descend_home(&home, &["x", "y"]).unwrap(), b"/h\xff/x/y".to_vec());
    assert_eq!(descend_home(&home, &[]).unwrap(), b"/h\xff".to_vec());
    assert!(descend_home(&None, &["x"]).is_err());
}
