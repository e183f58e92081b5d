use pagetop::base::component::{L10n, L10nOp};
use pagetop::html::Markup;
use pagetop::locale::Locales;

fn table() -> &'static Locales {
    let t = Locales::new()
        .with("en", "hello", "Hello & welcome")
        .with("es", "hello", "Hola")
        .with("en", "hello", "Second entry")
        .with("en", "bold", "<b>Bold</b>");
    Box::leak(Box::new(t))
}

#[test]
fn lookup_finds_the_first_entry() {
    let t = table();
    assert_eq!(t.lookup("en", "hello"), Some("Hello & welcome".to_string()));
    assert_eq!(t.lookup("es", "hello"), Some("Hola".to_string()));
    assert_eq!(t.lookup("fr", "hello"), None);
    assert_eq!(t.lookup("en", "bye"), None);
}

#[test]
fn missing_text_falls_back_to_the_key() {
    let t = table();
    assert_eq!(t.lookup_or_key("fr", "hello"), "hello");
    assert_eq!(t.lookup_or_key("es", "hello"), "Hola");
}

#[test]
fn l10n_without_text() {
    let l = L10n::new();
    assert_eq!(l.using("en"), None);
    assert_eq!(l.escaped("en").into_string(), "");
    assert!(matches!(l.op(), L10nOp::Void));
}

#[test]
fn l10n_literal_text_is_escaped_once() {
    let l = L10n::text("a < b");
    assert_eq!(l.escaped("en").into_string(), "a &lt; b");
    assert_eq!(l.using("xx"), Some("a &lt; b".to_string()));
    let n = L10n::n("x < y");
    assert_eq!(n.escaped("en").into_string(), "x &lt; y");
    assert_eq!(n.using("en"), Some("x < y".to_string()));
}

#[test]
fn l10n_markup_is_kept() {
    let l = L10n::html(Markup::raw("<i>x</i>"));
    assert_eq!(l.escaped("en").into_string(), "<i>x</i>");
}

#[test]
fn l10n_translated_text_is_escaped() {
    let l = L10n::t("hello", table());
    assert_eq!(l.escaped("en").into_string(), "Hello &amp; welcome");
    assert_eq!(l.using("en"), Some("Hello & welcome".to_string()));
    assert_eq!(l.escaped("es").into_string(), "Hola");
    assert_eq!(l.escaped("de").into_string(), "hello");
}

#[test]
fn l10n_escaped_text_is_taken_as_markup() {
    let l = L10n::e("bold", table());
    assert_eq!(l.escaped("en").into_string(), "<b>Bold</b>");
    assert_eq!(l.escaped("es").into_string(), "bold");
}

#[test]
fn l10n_arguments_replace_by_name() {
    let mut l = L10n::t("hello", table());
    l.alter_arg("a", "1".to_string()).alter_arg("b", "2".to_string()).alter_arg("a", "3".to_string());
    assert_eq!(
        l.args(),
        &vec![("a".to_string(), "3".to_string()), ("b".to_string(), "2".to_string())]
    );
    l.clear_args();
    assert!(l.args().is_empty());
    let l = l.with_arg("z", "9".to_string()).with_op(L10nOp::Void);
    assert_eq!(l.args().len(), 1);
    assert_eq!(l.using("en"), None);
}

fn args(pairs: &[(&str, &str)]) -> Vec<(String, String)> {
    pairs.iter().map(|(n, v)| (n.to_string(), v.to_string())).collect()
}

#[test]
fn arguments_are_filled_in() {
    let a = args(&[("name", "Ann"), ("n", "3"), ("name", "Bob")]);
    assert_eq!(pagetop::locale::fill("Hello {$name}, you have {$n} new", &a), "Hello Ann, you have 3 new");
    assert_eq!(pagetop::locale::fill("{$n}{$n}", &a), "33");
    assert_eq!(pagetop::locale::fill("", &a), "");
    assert_eq!(pagetop::locale::fill("plain", &a), "plain");
}

#[test]
fn what_names_no_argument_stays() {
    let a = args(&[("n", "3")]);
    assert_eq!(pagetop::locale::fill("{$m} and {n} and { $n } and ${n}", &a), "{$m} and {n} and { $n } and ${n}");
    assert_eq!(pagetop::locale::fill("open {$n", &a), "open {$n");
    assert_eq!(pagetop::locale::fill("{$", &a), "{$");
    assert_eq!(pagetop::locale::fill("{", &a), "{");
    assert_eq!(pagetop::locale::fill("{$}", &a), "{$}");
    assert_eq!(pagetop::locale::fill("{${$n}}", &a), "{${$n}}");
    assert_eq!(pagetop::locale::fill("a{$n}b", &Vec::new()), "a{$n}b");
}

#[test]
fn the_value_of_an_argument() {
    let a = args(&[("x", "1"), ("y", "2"), ("x", "3")]);
    assert_eq!(pagetop::locale::find_arg(&a, &"x".to_string()), Some(&"1".to_string()));
    assert_eq!(pagetop::locale::find_arg(&a, &"y".to_string()), Some(&"2".to_string()));
    assert_eq!(pagetop::locale::find_arg(&a, &"z".to_string()), None);
}

#[test]
fn translated_text_gets_its_arguments() {
    let t: &'static Locales = Box::leak(Box::new(
        Locales::new().with("en", "greet", "Hi <{$who}>").with("en", "raw", "<b>{$who}</b>"),
    ));
    assert_eq!(t.lookup_with_args("en", "greet", &args(&[("who", "you")])), "Hi <you>");
    assert_eq!(t.lookup_with_args("de", "gr{$who}", &args(&[("who", "x")])), "gr{$who}");
    let l = L10n::t("greet", t).with_arg("who", "A&B".to_string());
    assert_eq!(l.using("en"), Some("Hi <A&B>".to_string()));
    assert_eq!(l.escaped("en").into_string(), "Hi &lt;A&amp;B&gt;");
    let l = L10n::e("raw", t).with_arg("who", "<i>".to_string());
    assert_eq!(l.escaped("en").into_string(), "<b><i></b>");
    let l = L10n::n("{$who}").with_arg("who", "x".to_string());
    assert_eq!(l.escaped("en").into_string(), "{$who}");
}

#[test]
fn a_key_without_a_translation_is_shown_as_it_is() {
    let t: &'static Locales = Box::leak(Box::new(Locales::new().with("en", "{$a}", "<{$a}>")));
    let with = args(&[("a", "b")]);
    assert_eq!(t.lookup_with_args("en", "{$a}", &with), "<b>");
    assert_eq!(t.lookup_with_args("es", "{$a}", &with), "{$a}");
    assert_eq!(t.lookup_with_args("en", "<{$a}>", &with), "<{$a}>");
    let l = L10n::t("<{$a}>", t).with_arg("a", "b".to_string());
    assert_eq!(l.using("en"), Some("<{$a}>".to_string()));
    assert_eq!(l.escaped("en").into_string(), "&lt;{$a}&gt;");
    let l = L10n::e("<{$a}>", t).with_arg("a", "b".to_string());
    assert_eq!(l.using("en"), Some("<{$a}>".to_string()));
    assert_eq!(l.escaped("en").into_string(), "<{$a}>");
}
