use pagetop::html::Markup;
use pagetop::text::{
    chars_of, join_words, push_decimal, split_words, string_of, trim, underscore,
};

#[test]
fn trim_cuts_both_ends() {
    assert_eq!(trim("  a b \n"), "a b");
    assert_eq!(trim("\u{a0}x\u{2003}"), "x");
}

#[test]
fn trim_of_blank_text_is_empty() {
    assert_eq!(trim(" \t\r\n"), "");
    assert_eq!(trim(""), "");
}

#[test]
fn trim_keeps_inner_whitespace() {
    assert_eq!(trim("a  \t b"), "a  \t b");
}

#[test]
fn underscore_replaces_every_space() {
    assert_eq!(underscore("a b  c"), "a_b__c");
    assert_eq!(underscore("a\tb"), "a\tb");
}

#[test]
fn chars_and_back() {
    let v = chars_of("añb");
    assert_eq!(v, vec!['a', 'ñ', 'b']);
    assert_eq!(string_of(&v, 1, 3), "ñb");
    assert_eq!(string_of(&v, 2, 2), "");
}

#[test]
fn split_words_skips_runs_of_blanks() {
    assert_eq!(
        split_words(" a  b\tc\n"),
        vec!["a".to_string(), "b".to_string(), "c".to_string()]
    );
    assert!(split_words("  \t ").is_empty());
    assert_eq!(split_words("one"), vec!["one".to_string()]);
}

#[test]
fn split_words_only_splits_at_ascii_whitespace() {
    assert_eq!(split_words("a\u{a0}b"), vec!["a\u{a0}b".to_string()]);
}

#[test]
fn join_words_puts_single_spaces() {
    assert_eq!(join_words(&vec!["a".to_string(), "b".to_string(), "c".to_string()]), "a b c");
    assert_eq!(join_words(&vec!["a".to_string()]), "a");
    assert_eq!(join_words(&Vec::new()), "");
}

#[test]
fn decimal_digits() {
    let mut s = String::from("n=");
    push_decimal(&mut s, 0);
    push_decimal(&mut s, 128);
    push_decimal(&mut s, u64::MAX);
    assert_eq!(s, "n=012818446744073709551615");
}

#[test]
fn signed_decimal_digits() {
    let mut s = String::new();
    pagetop::text::push_signed_decimal(&mut s, -99);
    s.push(' ');
    pagetop::text::push_signed_decimal(&mut s, 7);
    s.push(' ');
    pagetop::text::push_signed_decimal(&mut s, i64::MIN);
    s.push(' ');
    pagetop::text::push_signed_decimal(&mut s, 0);
    assert_eq!(s, "-99 7 -9223372036854775808 0");
}

#[test]
fn text_is_escaped() {
    assert_eq!(Markup::text("a<b> & \"c\" 'd'").into_string(), "a&lt;b&gt; &amp; &quot;c&quot; 'd'");
    assert_eq!(Markup::text("").into_string(), "");
}

#[test]
fn raw_markup_is_kept() {
    assert_eq!(Markup::raw("<b>&</b>").into_string(), "<b>&</b>");
}

#[test]
fn markup_is_assembled_from_pieces() {
    let mut m = Markup::new();
    assert!(m.is_empty());
    m.push_raw("<a");
    m.push_attr("href", "/x?a=1&b=\"2\"");
    m.push_opt_attr("id", &Some("i".to_string()));
    m.push_opt_attr("class", &None);
    m.push_raw(">");
    m.push_text("1 < 2");
    m.push(&Markup::raw("</a>"));
    assert!(!m.is_empty());
    assert_eq!(m.as_str(), "<a href=\"/x?a=1&amp;b=&quot;2&quot;\" id=\"i\">1 &lt; 2</a>");
    assert_eq!(m.duplicate().into_string(), m.into_string());
}

#[test]
fn trim_cuts_every_character_that_is_white_space_and_no_other() {
    let listed = |n: u32| {
        (0x09..=0x0d).contains(&n)
            || n == 0x20
            || n == 0x85
            || n == 0xa0
            || n == 0x1680
            || (0x2000..=0x200a).contains(&n)
            || n == 0x2028
            || n == 0x2029
            || n == 0x202f
            || n == 0x205f
            || n == 0x3000
    };
    let mut n: u32 = 0;
    while n <= 0x10ffff {
        if let Some(c) = char::from_u32(n) {
            let text = format!("{}a{}", c, c);
            let cut = trim(&text);
            if listed(n) {
                assert_eq!(cut, "a", "U+{:04X}", n);
            } else {
                assert_eq!(cut, text, "U+{:04X}", n);
            }
        }
        n += if n < 0x3100 { 1 } else { 0x101 };
    }
}
