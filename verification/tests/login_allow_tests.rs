use truffle::network::login_allow::{glob_match, login_allowed, BadPattern};

fn globs(list: &[&str]) -> Vec<String> {
    list.iter().map(|s| s.to_string()).collect()
}

#[test]
fn allowed_login_matches_the_go_table() {
    let cases: &[(&str, &[&str], &str, bool)] = &[
        ("empty globs allow all", &[], "anyone@example.com", true),
        ("empty globs allow even empty login", &[], "", true),
        ("non-empty gate, empty login fails closed", &["*@corp.com"], "", false),
        ("exact match", &["alice@corp.com"], "alice@corp.com", true),
        ("exact non-match", &["alice@corp.com"], "bob@corp.com", false),
        ("domain glob matches", &["*@corp.com"], "alice@corp.com", true),
        ("domain glob rejects other domain", &["*@corp.com"], "alice@evil.com", false),
        ("case-insensitive glob vs login", &["*@CORP.com"], "Alice@corp.COM", true),
        ("case-insensitive exact", &["Alice@Corp.Com"], "alice@corp.com", true),
        ("second glob in list matches", &["*@other.com", "*@corp.com"], "bob@corp.com", true),
        ("no glob in list matches", &["*@other.com", "*@more.com"], "bob@corp.com", false),
        ("star does not cross slash", &["*@corp.com"], "a/b@corp.com", false),
        ("invalid glob does not match", &["[unterminated"], "alice@corp.com", false),
        (
            "invalid glob skipped, valid one still matches",
            &["[bad", "*@corp.com"],
            "alice@corp.com",
            true,
        ),
    ];
    for (name, list, login, want) in cases {
        assert_eq!(
            login_allowed(&globs(list), Some(login)),
            *want,
            "{name}: login_allowed({list:?}, {login:?})"
        );
    }
    assert!(!login_allowed(&globs(&["*@corp.com"]), None));
    assert!(login_allowed(&[], None));
    assert!(!login_allowed(&globs(&["*@corp.com"]), Some("tagged-devices")));
    assert!(login_allowed(&globs(&["tagged-devices"]), Some("tagged-devices")));
}

#[test]
fn glob_match_follows_path_match() {
    let ok = |p: &str, n: &str| glob_match(p, n).unwrap();
    assert!(ok("abc", "abc"));
    assert!(ok("*", "abc"));
    assert!(ok("*c", "abc"));
    assert!(!ok("a*", "a/b"));
    assert!(ok("a*", "ab"));
    assert!(!ok("a*", "abc/d"));
    assert!(ok("a*/b", "abc/b"));
    assert!(!ok("a*/b", "a/c/b"));
    assert!(ok("a*b*c*d*e*/f", "axbxcxdxe/f"));
    assert!(ok("a*b*c*d*e*/f", "axbxcxdxexxx/f"));
    assert!(!ok("a*b*c*d*e*/f", "axbxcxdxe/xxx/f"));
    assert!(!ok("a*b*c*d*e*/f", "axbxcxdxexxx/fff"));
    assert!(ok("a*b?c*x", "abxbbxdbxebxczzx"));
    assert!(!ok("a*b?c*x", "abxbbxdbxebxczzy"));
    assert!(ok("ab[c]", "abc"));
    assert!(ok("ab[b-d]", "abc"));
    assert!(!ok("ab[e-g]", "abc"));
    assert!(!ok("ab[^c]", "abc"));
    assert!(!ok("ab[^b-d]", "abc"));
    assert!(ok("ab[^e-g]", "abc"));
    assert!(ok("a\\*b", "a*b"));
    assert!(!ok("a\\*b", "ab"));
    assert!(ok("a?b", "a\u{263a}b"));
    assert!(ok("a[^a]b", "a\u{263a}b"));
    assert!(!ok("a???b", "a\u{263a}b"));
    assert!(!ok("a[^a][^a][^a]b", "a\u{263a}b"));
    assert!(ok("[a-\u{3b6}]*", "\u{3b1}"));
    assert!(!ok("*[a-\u{3b6}]", "A"));
    assert!(ok("a?b", "a/b") == false);
    assert!(ok("a*b", "a/b") == false);
    assert!(ok("[\\]a]", "]"));
    assert!(ok("[\\-]", "-"));
    assert!(ok("[x\\-]", "x"));
    assert!(ok("[x\\-]", "-"));
    assert!(!ok("[x\\-]", "z"));
    assert!(ok("[\\-x]", "x"));
    assert!(ok("[\\-x]", "-"));
    assert!(!ok("[\\-x]", "a"));
    assert!(ok("*x", "xxx"));
    assert!(!ok("", "a"));
    assert!(ok("", ""));
}

#[test]
fn glob_match_reports_bad_patterns_like_go() {
    for bad in [
        "[]a]",
        "[-]",
        "[x-]",
        "[-x]",
        "\\",
        "[a-b-c]",
        "[",
        "[^",
        "[^bc",
        "a[",
        "[unterminated",
    ] {
        assert_eq!(
            glob_match(bad, "a"),
            Err(BadPattern),
            "{bad:?} must be a bad pattern"
        );
    }
    assert_eq!(glob_match("a*[", "b"), Err(BadPattern));
}

#[test]
fn classes_may_take_a_slash() {
    assert_eq!(glob_match("*[^a]*c", "b/c"), Ok(false));
    assert_eq!(glob_match("[^a]", "/"), Ok(true));
}

#[test]
fn reversed_ranges_are_malformed() {
    assert_eq!(glob_match("[z-a]", "q"), Err(BadPattern));
    assert_eq!(glob_match("[^z-a]", "q"), Err(BadPattern));
    assert_eq!(glob_match("[a-cz-a]", "b"), Err(BadPattern));
    assert_eq!(glob_match("[a-a]", "a"), Ok(true));
    assert!(!login_allowed(&["[^z-a]".to_string()], Some("m")));
    assert!(login_allowed(&["[^z-a]".to_string(), "m".to_string()], Some("m")));
}
