use printnanny::text::{
    chars_of, decimal_text, join2, join_path, position_of, replace_text, same_text, text_of,
    text_ordered,
};

#[test]
fn decimal_text_exact_values() {
    assert_eq!(decimal_text(0), "0");
    assert_eq!(decimal_text(7), "7");
    assert_eq!(decimal_text(10), "10");
    assert_eq!(decimal_text(-1), "-1");
    assert_eq!(decimal_text(4222), "4222");
    assert_eq!(decimal_text(i64::MAX), "9223372036854775807");
    assert_eq!(decimal_text(i64::MIN), "-9223372036854775808");
}

#[test]
fn decimal_text_agrees_with_display() {
    let mut n: i64 = -1500;
    while n <= 1500 {
        assert_eq!(decimal_text(n), format!("{}", n));
        n += 1;
    }
}

#[test]
fn replace_text_replaces_every_occurrence() {
    assert_eq!(replace_text("a.b.a", "a", "xy"), "xy.b.xy");
    assert_eq!(replace_text("aaa", "aa", "b"), "ba");
    assert_eq!(replace_text("abc", "d", "x"), "abc");
    assert_eq!(replace_text("", "d", "x"), "");
    assert_eq!(replace_text("abc", "abc", ""), "");
    assert_eq!(replace_text("abc", "abcd", "x"), "abc");
}

#[test]
fn replace_text_with_the_empty_pattern() {
    assert_eq!(replace_text("abc", "", "-"), "-a-b-c-");
    assert_eq!(replace_text("", "", "-"), "-");
    assert_eq!(replace_text("abc", "", "-"), "abc".replace("", "-"));
}

#[test]
fn replace_text_agrees_with_str_replace() {
    let subjects = ["pi.localhost.x", "localhostlocalhost", "local", "héllo wörld", "aXbXc"];
    let patterns = ["localhost", "l", "X", "ö", "lo"];
    for s in subjects {
        for p in patterns {
            assert_eq!(replace_text(s, p, "{pi_id}"), s.replace(p, "{pi_id}"));
        }
    }
}

#[test]
fn same_text_compares_characters() {
    assert!(same_text("abc", "abc"));
    assert!(!same_text("abc", "abd"));
    assert!(!same_text("abc", "ab"));
    assert!(same_text("", ""));
}

#[test]
fn chars_and_back() {
    let v = chars_of("héllo");
    assert_eq!(v, vec!['h', 'é', 'l', 'l', 'o']);
    assert_eq!(text_of(&v, 1, 4), "éll");
    assert_eq!(text_of(&v, 2, 2), "");
    assert_eq!(position_of(&v, 'l', 0), 2);
    assert_eq!(position_of(&v, 'l', 3), 3);
    assert_eq!(position_of(&v, 'z', 0), 5);
    assert_eq!(join2("ab", "cd"), "abcd");
}

#[test]
fn join_path_exact_values() {
    assert_eq!(join_path("/var/lib", "data"), "/var/lib/data");
    assert_eq!(join_path("/var/lib/", "data"), "/var/lib/data");
    assert_eq!(join_path("", "data"), "data");
    assert_eq!(join_path("/var/lib", "/etc"), "/etc");
    assert_eq!(join_path("/var/lib", ""), "/var/lib/");
}

#[test]
fn join_path_agrees_with_path_join() {
    let bases = ["/var/lib", "/var/lib/", "", "rel", "/"];
    let rels = ["data", "a/b", "/abs", ""];
    for b in bases {
        for r in rels {
            let expected = std::path::Path::new(b).join(r);
            assert_eq!(join_path(b, r), expected.display().to_string());
        }
    }
}

#[test]
fn text_order_agrees_with_the_order_of_strings() {
    let texts = ["", "a", "ab", "b", "B", "é", "abc", "ab", "zz", "a0"];
    for a in texts {
        for b in texts {
            assert_eq!(text_ordered(a, b), a <= b);
        }
    }
}
