use llvm_toolchain::text::{
    before_first, chars_of, find, has_prefix, has_suffix, is_whitespace, occurs_at_index,
    split_whitespace, str_eq, substitute, trim, without_prefix, without_suffix,
};

fn chars(s: &str) -> Vec<char> {
    s.chars().collect()
}

#[test]
fn chars_of_keeps_every_character() {
    assert_eq!(chars_of("a-é✓"), vec!['a', '-', 'é', '✓']);
    assert_eq!(chars_of(""), Vec::<char>::new());
}

#[test]
fn str_eq_compares_contents() {
    assert!(str_eq("macos", "macos"));
    assert!(!str_eq("macos", "macOS"));
    assert!(!str_eq("arm", "arm64"));
    assert!(str_eq("", ""));
}

#[test]
fn occurrences_and_affixes() {
    let s = chars("libz.so.7.0");
    assert!(occurs_at_index(&s, &chars(".so."), 4));
    assert!(!occurs_at_index(&s, &chars(".so."), 3));
    assert!(!occurs_at_index(&s, &chars(".0"), 10));
    assert!(occurs_at_index(&s, &chars(""), 11));
    assert!(!occurs_at_index(&s, &chars(""), 12));
    assert!(has_prefix(&s, &chars("lib")));
    assert!(!has_prefix(&s, &chars("ib")));
    assert!(has_suffix(&s, &chars(".0")));
    assert!(!has_suffix(&s, &chars(".so")));
    assert!(!has_suffix(&chars("a"), &chars(".a")));
}

#[test]
fn find_gives_the_first_occurrence() {
    assert_eq!(find(&chars("a.so.b.so.c"), &chars(".so")), Some(1));
    assert_eq!(find(&chars("abc"), &chars("c")), Some(2));
    assert_eq!(find(&chars("abc"), &chars("d")), None);
    assert_eq!(find(&chars("ab"), &chars("abc")), None);
    assert_eq!(find(&chars("abc"), &chars("")), Some(0));
    assert_eq!(find(&chars(""), &chars("")), Some(0));
}

#[test]
fn indices_count_characters() {
    assert_eq!(without_prefix("éélibé", "éé"), Some("libé".to_string()));
    assert_eq!(without_suffix("libé✓.a", ".a"), Some("libé✓".to_string()));
    assert_eq!(before_first("ß✓.so.1", ".so."), Some("ß✓".to_string()));
    assert_eq!(trim("\u{3000}é \u{A0}"), "é");
    assert_eq!(split_whitespace("é\u{2003}✓✓ ß"), vec!["é", "✓✓", "ß"]);
    assert_eq!(substitute("é{os}✓{os}", "{os}", "ß"), "éß✓ß");
}

#[test]
fn stripping_affixes() {
    assert_eq!(without_prefix("libfoo", "lib"), Some("foo".to_string()));
    assert_eq!(without_prefix("foo", "lib"), None);
    assert_eq!(without_prefix("lib", "lib"), Some(String::new()));
    assert_eq!(without_suffix("foo.lib", ".lib"), Some("foo".to_string()));
    assert_eq!(without_suffix("foo.so", ".lib"), None);
    assert_eq!(before_first("z.so.7.0", ".so."), Some("z".to_string()));
    assert_eq!(before_first("a.so.b.so.c", ".so"), Some("a".to_string()));
    assert_eq!(before_first("zlib", ".so."), None);
}

#[test]
fn whitespace_is_what_unicode_says() {
    for c in ['\t', '\n', '\u{0B}', '\u{0C}', '\r', ' ', '\u{85}', '\u{A0}', '\u{1680}'] {
        assert!(is_whitespace(c));
    }
    for c in ['\u{2000}', '\u{200A}', '\u{2028}', '\u{2029}', '\u{202F}', '\u{205F}', '\u{3000}'] {
        assert!(is_whitespace(c));
    }
    for c in ['a', '-', '\u{08}', '\u{0E}', '\u{200B}', '\u{1F}', '\u{FEFF}'] {
        assert!(!is_whitespace(c));
    }
    let mut n: u32 = 0;
    while n < 0x3100 {
        if let Some(c) = char::from_u32(n) {
            assert_eq!(is_whitespace(c), c.is_whitespace());
        }
        n += 1;
    }
}

#[test]
fn split_whitespace_gives_the_words() {
    assert_eq!(split_whitespace("  -lz \t-lm\n"), vec!["-lz", "-lm"]);
    assert_eq!(split_whitespace("one"), vec!["one"]);
    assert_eq!(split_whitespace(""), Vec::<String>::new());
    assert_eq!(split_whitespace(" \n\t"), Vec::<String>::new());
    assert_eq!(split_whitespace("a\u{A0}b"), vec!["a", "b"]);
    let text = "libLLVMCore.a  libLLVMSupport.a\r\nlibLLVMDemangle.a";
    let expected: Vec<String> = text.split_whitespace().map(|s| s.to_string()).collect();
    assert_eq!(split_whitespace(text), expected);
}

#[test]
fn trim_drops_whitespace_at_both_ends() {
    assert_eq!(trim("  /opt/homebrew\n"), "/opt/homebrew");
    assert_eq!(trim("a b"), "a b");
    assert_eq!(trim(" \t "), "");
    assert_eq!(trim(""), "");
    assert_eq!(trim("x "), "x");
}

#[test]
fn substitute_replaces_every_occurrence() {
    assert_eq!(substitute("a{os}b{os}", "{os}", "linux"), "alinuxblinux");
    assert_eq!(substitute("{os}", "{os}", ""), "");
    assert_eq!(substitute("aaa", "aa", "b"), "ba");
    assert_eq!(substitute("abc", "x", "y"), "abc");
    assert_eq!(substitute("abc", "", "y"), "abc");
    assert_eq!(substitute("ab", "abc", "y"), "ab");
    assert_eq!(substitute("xx{arch}", "{arch}", "x86_64"), "xxx86_64");
    let s = "https://h/{a}/{a}{b}";
    assert_eq!(substitute(s, "{a}", "1"), s.replace("{a}", "1"));
}
