use pagetop::html::{
    Classes, ClassesOp, Favicon, JavaScript, OptionId, OptionString, StyleSheet,
};

#[test]
fn classes_start_empty() {
    let c = Classes::new();
    assert_eq!(c.get(), None);
    assert!(!c.contains("a"));
}

#[test]
fn classes_add_skips_what_is_there() {
    let c = Classes::new().with_value(ClassesOp::Add, "a b").with_value(ClassesOp::Add, "b  c a");
    assert_eq!(c.get(), Some("a b c".to_string()));
    assert!(c.contains("c"));
    assert!(!c.contains("d"));
}

#[test]
fn classes_add_takes_a_repeated_word_once() {
    let c = Classes::new().with_value(ClassesOp::Add, "a a a");
    assert_eq!(c.get(), Some("a".to_string()));
}

#[test]
fn classes_remove_takes_words_out() {
    let c = Classes::new().with_value(ClassesOp::Add, "a b c").with_value(ClassesOp::Remove, "c a x");
    assert_eq!(c.get(), Some("b".to_string()));
}

#[test]
fn classes_replace_puts_new_words_at_the_end() {
    let c = Classes::new()
        .with_value(ClassesOp::Add, "form-item form-type-textfield tail")
        .with_value(ClassesOp::Replace("form-type-textfield".to_string()), "form-type-password");
    assert_eq!(c.get(), Some("form-item tail form-type-password".to_string()));
}

#[test]
fn classes_replace_of_a_missing_word_only_adds() {
    let c = Classes::new().with_value(ClassesOp::Replace("x".to_string()), "y");
    assert_eq!(c.get(), Some("y".to_string()));
}

#[test]
fn classes_reset_forgets_what_was_added() {
    let c = Classes::new_with_default("d").with_value(ClassesOp::Add, "a b").with_value(ClassesOp::Reset, "z");
    assert_eq!(c.get(), Some("d z".to_string()));
}

#[test]
fn classes_default_comes_first_and_can_be_swapped() {
    let mut c = Classes::new_with_default("container");
    c.alter_value(ClassesOp::Add, "wide").alter_value(ClassesOp::SetDefault, "box  padded");
    assert_eq!(c.get(), Some("box padded wide".to_string()));
    c.alter_value(ClassesOp::SetDefault, "");
    assert_eq!(c.get(), Some("wide".to_string()));
}

#[test]
fn class_ops_can_be_duplicated() {
    let op = ClassesOp::Replace("a".to_string());
    let c = Classes::new().with_value(ClassesOp::Add, "a").with_value(op.duplicate(), "b");
    assert_eq!(c.get(), Some("b".to_string()));
    assert!(matches!(op, ClassesOp::Replace(_)));
}

#[test]
fn option_id_is_trimmed_and_underscored() {
    assert_eq!(OptionId::new().get(), None);
    assert_eq!(OptionId::with("  main menu ").get(), Some("main_menu".to_string()));
    assert_eq!(OptionId::with("   ").get(), None);
    let mut id = OptionId::with("a");
    id.alter_value("b c");
    assert_eq!(id.get(), Some("b_c".to_string()));
    assert_eq!(id.with_value("").get(), None);
}

#[test]
fn option_string_is_trimmed() {
    assert_eq!(OptionString::new().get(), None);
    assert_eq!(OptionString::with("  two words ").get(), Some("two words".to_string()));
    assert_eq!(OptionString::with(" ").get(), None);
    let mut s = OptionString::new();
    s.alter_flag(true, "disabled");
    assert_eq!(s.get(), Some("disabled".to_string()));
    s.alter_flag(false, "disabled");
    assert_eq!(s.get(), None);
    s.alter_flag(true, "");
    assert_eq!(s.get(), None);
    assert_eq!(s.with_value("x").get(), Some("x".to_string()));
}

#[test]
fn assets_render_their_elements() {
    let s = StyleSheet::at("/a.css?x=1&y=2").with_weight(-3);
    assert_eq!(s.path(), "/a.css?x=1&y=2");
    assert_eq!(s.weight(), -3);
    assert_eq!(s.render().into_string(), "<link rel=\"stylesheet\" href=\"/a.css?x=1&amp;y=2\">");
    let j = JavaScript::at("/a.js").with_weight(4);
    assert_eq!(j.path(), "/a.js");
    assert_eq!(j.weight(), 4);
    assert_eq!(j.render().into_string(), "<script src=\"/a.js\"></script>");
    assert_eq!(Favicon::new().render().into_string(), "");
    assert_eq!(
        Favicon::new().with_icon("/f.ico").render().into_string(),
        "<link rel=\"icon\" href=\"/f.ico\">"
    );
}
