use pagetop::action::ActionsRegistry;
use pagetop::base::component::{
    Button, ButtonType, Container, ContainerType, Error404, FontSize, Form, FormMethod, Heading,
    HeadingDisplay, HeadingType, Hidden, Html, Input, InputType, L10n, Megamenu, Paragraph, Row,
};
use pagetop::base::theme::Basic;
use pagetop::component::{
    component_mut, component_ref, render_component, AnyComponent, BundleOp, ComponentTrait,
    IsRenderable, COMPONENT_BUTTON, COMPONENT_CONTAINER, COMPONENT_ERROR404, COMPONENT_FORM,
    COMPONENT_HEADING, COMPONENT_HIDDEN, COMPONENT_HTML, COMPONENT_INPUT, COMPONENT_L10N,
    COMPONENT_MEGAMENU, COMPONENT_MENU_ITEM, COMPONENT_PARAGRAPH, COMPONENT_ROW,
    COMPONENT_SUBMENU,
};
use pagetop::context::Context;
use pagetop::html::{ClassesOp, Markup};

fn show(component: AnyComponent) -> String {
    let mut c = component;
    let mut cx = Context::new("en");
    render_component(&mut c, &mut cx, &Basic, &ActionsRegistry::new()).into_string()
}

#[test]
fn html_shows_its_markup() {
    assert_eq!(show(AnyComponent::Html(Html::with(Markup::raw("<hr>")))), "<hr>");
    assert_eq!(show(AnyComponent::Html(Html::new())), "");
    let mut h = Html::new();
    h.alter_html(Markup::text("<"));
    assert_eq!(h.html().as_str(), "&lt;");
    assert_eq!(h.with_html(Markup::raw("x")).prepare().into_string(), "x");
}

#[test]
fn translate_shows_text_in_the_language() {
    assert_eq!(show(AnyComponent::Translate(L10n::n("a & b"))), "a &amp; b");
}

#[test]
fn error404_shows_its_message() {
    assert_eq!(show(AnyComponent::Error404(Error404)), "<div><h1>RESOURCE NOT FOUND</h1></div>");
}

#[test]
fn heading_of_each_type() {
    assert_eq!(show(AnyComponent::Heading(Heading::h1(L10n::n("T")))), "<h1>T</h1>");
    assert_eq!(show(AnyComponent::Heading(Heading::h2(L10n::n("T")))), "<h2>T</h2>");
    assert_eq!(show(AnyComponent::Heading(Heading::h3(L10n::n("T")))), "<h3>T</h3>");
    assert_eq!(show(AnyComponent::Heading(Heading::h4(L10n::n("T")))), "<h4>T</h4>");
    assert_eq!(show(AnyComponent::Heading(Heading::h5(L10n::n("T")))), "<h5>T</h5>");
    assert_eq!(show(AnyComponent::Heading(Heading::h6(L10n::n("T")))), "<h6>T</h6>");
}

#[test]
fn heading_with_everything() {
    let h = Heading::h2(L10n::n("Title <1>"))
        .with_id("my id")
        .with_classes(ClassesOp::Add, "big")
        .with_display(HeadingDisplay::Large)
        .with_weight(3)
        .with_template("other");
    assert_eq!(h.id().get(), Some("my_id".to_string()));
    assert_eq!(h.classes().get(), Some("display-3 big".to_string()));
    assert!(matches!(h.heading_type(), HeadingType::H2));
    assert!(matches!(h.display(), HeadingDisplay::Large));
    assert_eq!(h.text().using("en"), Some("Title <1>".to_string()));
    assert_eq!(h.template(), "other");
    assert_eq!(h.weight(), 3);
    assert_eq!(
        show(AnyComponent::Heading(h)),
        "<h2 id=\"my_id\" class=\"display-3 big\">Title &lt;1&gt;</h2>"
    );
}

#[test]
fn heading_display_sets_the_default_class() {
    let mut h = Heading::new();
    h.alter_display(HeadingDisplay::XxLarge);
    assert_eq!(h.classes().get(), Some("display-2".to_string()));
    h.alter_display(HeadingDisplay::Medium);
    assert_eq!(h.classes().get(), Some("display-4".to_string()));
    h.alter_display(HeadingDisplay::Small);
    assert_eq!(h.classes().get(), Some("display-5".to_string()));
    h.alter_display(HeadingDisplay::XxSmall);
    assert_eq!(h.classes().get(), Some("display-6".to_string()));
    h.alter_display(HeadingDisplay::Subtitle);
    assert_eq!(h.classes().get(), None);
    h.alter_heading_type(HeadingType::H4).alter_text(L10n::n("x")).alter_id("i").alter_weight(-2);
    assert_eq!(h.weight(), -2);
    assert_eq!(show(AnyComponent::Heading(h)), "<h4 id=\"i\">x</h4>");
}

#[test]
fn container_of_each_type() {
    assert_eq!(
        show(AnyComponent::Container(Container::new())),
        "<div class=\"container\"></div>"
    );
    assert_eq!(
        show(AnyComponent::Container(Container::header())),
        "<header class=\"header\"><div class=\"container\"></div></header>"
    );
    assert_eq!(
        show(AnyComponent::Container(Container::footer())),
        "<footer class=\"footer\"><div class=\"container\"></div></footer>"
    );
    assert_eq!(
        show(AnyComponent::Container(Container::main())),
        "<main class=\"main\"><div class=\"container\"></div></main>"
    );
    assert_eq!(
        show(AnyComponent::Container(Container::section())),
        "<section class=\"section\"><div class=\"container\"></div></section>"
    );
}

#[test]
fn container_holds_components() {
    let c = Container::section()
        .with_id("s 1")
        .with_classes(ClassesOp::Add, "wide")
        .with_inner_classes(ClassesOp::SetDefault, "inner")
        .with_component(AnyComponent::Heading(Heading::h1(L10n::n("A"))))
        .with_component(AnyComponent::Html(Html::with(Markup::raw("<hr>"))))
        .using_template("t");
    assert_eq!(c.id().get(), Some("s_1".to_string()));
    assert_eq!(c.classes().get(), Some("section wide".to_string()));
    assert_eq!(c.inner_classes().get(), Some("inner".to_string()));
    assert!(matches!(c.container_type(), ContainerType::Section));
    assert_eq!(c.components().len(), 2);
    assert_eq!(c.template(), "t");
    assert_eq!(
        show(AnyComponent::Container(c)),
        "<section id=\"s_1\" class=\"section wide\"><div class=\"inner\"><h1>A</h1><hr></div></section>"
    );
}

#[test]
fn container_bundle_operations() {
    let html = |s: &str| AnyComponent::Html(Html::with(Markup::raw(s)));
    let mut c = Container::new();
    c.alter_component(html("b"))
        .alter_bundle(BundleOp::Add, html("c"))
        .alter_bundle(BundleOp::AddFirst, html("a"));
    assert_eq!(c.components().len(), 3);
    let c2 = c.with_bundle(BundleOp::Reset, html("z")).with_weight(1).with_template("x");
    assert_eq!(c2.components().len(), 1);
    assert_eq!(show(AnyComponent::Container(c2)), "<div class=\"container\">z</div>");
    let mut c3 = Container::new();
    c3.alter_component(html("b"))
        .alter_bundle(BundleOp::Add, html("c"))
        .alter_bundle(BundleOp::AddFirst, html("a"))
        .alter_inner_classes(ClassesOp::Add, "unused")
        .alter_template("y")
        .alter_weight(2)
        .alter_id("k")
        .alter_classes(ClassesOp::SetDefault, "");
    assert_eq!(show(AnyComponent::Container(c3)), "<div id=\"k\">abc</div>");
}

#[test]
fn form_with_elements() {
    assert_eq!(
        show(AnyComponent::Form(Form::new())),
        "<form class=\"form\" method=\"post\" accept-charset=\"UTF-8\"><div></div></form>"
    );
    let f = Form::new()
        .with_id("login")
        .with_action("/login?a=1&b=2")
        .with_method(FormMethod::Get)
        .with_charset("ISO-8859-1")
        .with_classes(ClassesOp::Add, "narrow")
        .with_element(AnyComponent::Hidden(Hidden::set("token", "abc")))
        .with_template("t")
        .with_weight(1);
    assert_eq!(f.id().get(), Some("login".to_string()));
    assert_eq!(f.classes().get(), Some("form narrow".to_string()));
    assert_eq!(f.action().get(), Some("/login?a=1&b=2".to_string()));
    assert_eq!(f.charset().get(), Some("ISO-8859-1".to_string()));
    assert!(matches!(f.method(), FormMethod::Get));
    assert_eq!(f.elements().len(), 1);
    assert_eq!(f.template(), "t");
    assert_eq!(
        show(AnyComponent::Form(f)),
        "<form id=\"login\" class=\"form narrow\" action=\"/login?a=1&amp;b=2\" accept-charset=\"ISO-8859-1\"><div><input type=\"hidden\" id=\"value-token\" name=\"token\" value=\"abc\"></div></form>"
    );
}

#[test]
fn form_alter_in_place() {
    let mut f = Form::new();
    f.alter_id("f")
        .alter_action("/a")
        .alter_charset("")
        .alter_method(FormMethod::Post)
        .alter_classes(ClassesOp::SetDefault, "")
        .alter_element(AnyComponent::Html(Html::with(Markup::raw("x"))))
        .alter_elements(BundleOp::AddFirst, AnyComponent::Html(Html::with(Markup::raw("w"))))
        .alter_template("t")
        .alter_weight(9)
        .alter_renderable(IsRenderable::Always);
    assert_eq!(f.weight(), 9);
    assert_eq!(
        show(AnyComponent::Form(f)),
        "<form id=\"f\" action=\"/a\" method=\"post\"><div>wx</div></form>"
    );
}

#[test]
fn row_with_columns() {
    assert_eq!(show(AnyComponent::Row(Row::new())), "<div class=\"row\"></div>");
    let r = Row::new()
        .with_id("r")
        .with_classes(ClassesOp::Add, "g-2")
        .with_column(AnyComponent::Html(Html::with(Markup::raw("1"))))
        .with_columns(BundleOp::Add, AnyComponent::Html(Html::with(Markup::raw("2"))))
        .using_template("t")
        .with_weight(4);
    assert_eq!(r.id().get(), Some("r".to_string()));
    assert_eq!(r.classes().get(), Some("row g-2".to_string()));
    assert_eq!(r.columns().len(), 2);
    assert_eq!(r.template(), "t");
    assert_eq!(show(AnyComponent::Row(r)), "<div id=\"r\" class=\"row g-2\">12</div>");
    let mut r = Row::new();
    r.alter_column(AnyComponent::Html(Html::with(Markup::raw("b"))))
        .alter_columns(BundleOp::AddFirst, AnyComponent::Html(Html::with(Markup::raw("a"))))
        .alter_id("x y")
        .alter_classes(ClassesOp::Reset, "only")
        .alter_template("t")
        .alter_weight(1);
    assert_eq!(show(AnyComponent::Row(r)), "<div id=\"x_y\" class=\"row only\">ab</div>");
}

#[test]
fn paragraph_with_text() {
    assert_eq!(show(AnyComponent::Paragraph(Paragraph::new())), "<p></p>");
    let p = Paragraph::translated(L10n::n("Hi")).with_font_size(FontSize::Large);
    assert!(matches!(p.font_size(), FontSize::Large));
    assert_eq!(p.classes().get(), Some("fs__l".to_string()));
    assert_eq!(p.components().len(), 1);
    assert_eq!(show(AnyComponent::Paragraph(p)), "<p class=\"fs__l\">Hi</p>");
}

#[test]
fn paragraph_font_size_swaps_its_class() {
    let mut p = Paragraph::with(AnyComponent::Html(Html::with(Markup::raw("<b>x</b>"))));
    p.alter_classes(ClassesOp::Add, "lead").alter_font_size(FontSize::Small);
    assert_eq!(p.classes().get(), Some("lead fs__s".to_string()));
    p.alter_font_size(FontSize::ExtraLarge);
    assert_eq!(p.classes().get(), Some("lead fs__x3l".to_string()));
    p.alter_font_size(FontSize::Normal);
    assert_eq!(p.classes().get(), Some("lead".to_string()));
    p.alter_id("p 1").alter_weight(2).alter_components(
        BundleOp::Add,
        AnyComponent::Translate(L10n::n("&")),
    );
    let p = p.add_component(AnyComponent::Html(Html::with(Markup::raw("!")))).add_translated(
        L10n::n("?"),
    );
    assert_eq!(
        show(AnyComponent::Paragraph(p)),
        "<p id=\"p_1\" class=\"lead\"><b>x</b>&amp;!?</p>"
    );
}

#[test]
fn font_size_classes() {
    assert_eq!(FontSize::ExtraLarge.class(), "fs__x3l");
    assert_eq!(FontSize::XxLarge.class(), "fs__x2l");
    assert_eq!(FontSize::XLarge.class(), "fs__xl");
    assert_eq!(FontSize::Large.class(), "fs__l");
    assert_eq!(FontSize::Medium.class(), "fs__m");
    assert_eq!(FontSize::Normal.class(), "");
    assert_eq!(FontSize::Small.class(), "fs__s");
    assert_eq!(FontSize::XSmall.class(), "fs__xs");
    assert_eq!(FontSize::XxSmall.class(), "fs__x2s");
    assert_eq!(FontSize::ExtraSmall.class(), "fs__x3s");
}

#[test]
fn megamenu_with_groups() {
    assert_eq!(
        show(AnyComponent::Megamenu(Megamenu::new())),
        "<div class=\"pt-menu__groups\"></div>"
    );
    let m = Megamenu::new()
        .with_id("m")
        .with_weight(1)
        .add_group(AnyComponent::Html(Html::with(Markup::raw("g1"))))
        .with_groups(BundleOp::Add, AnyComponent::Html(Html::with(Markup::raw("g2"))));
    assert_eq!(m.groups().len(), 2);
    assert_eq!(m.id().get(), Some("m".to_string()));
    assert_eq!(
        show(AnyComponent::Megamenu(m)),
        "<div id=\"m\" class=\"pt-menu__groups\">g1g2</div>"
    );
    let mut m = Megamenu::new();
    m.alter_id("x").alter_weight(3).alter_groups(
        BundleOp::Reset,
        AnyComponent::Html(Html::with(Markup::raw("g"))),
    );
    assert_eq!(show(AnyComponent::Megamenu(m)), "<div id=\"x\" class=\"pt-menu__groups\">g</div>");
}

#[test]
fn hidden_field() {
    assert_eq!(show(AnyComponent::Hidden(Hidden::new())), "<input type=\"hidden\">");
    let h = Hidden::set("csrf token", " a\"b ").with_weight(2);
    assert_eq!(h.name().get(), Some("csrf_token".to_string()));
    assert_eq!(h.value().get(), Some("a\"b".to_string()));
    assert_eq!(h.weight(), 2);
    assert_eq!(
        show(AnyComponent::Hidden(h)),
        "<input type=\"hidden\" id=\"value-csrf_token\" name=\"csrf_token\" value=\"a&quot;b\">"
    );
    let mut h = Hidden::new();
    h.alter_name("n").alter_value("v").alter_weight(1);
    assert_eq!(
        show(AnyComponent::Hidden(h.with_name("m").with_value("w"))),
        "<input type=\"hidden\" id=\"value-m\" name=\"m\" value=\"w\">"
    );
}

#[test]
fn button_of_each_type() {
    assert_eq!(
        show(AnyComponent::Button(Button::new())),
        "<button type=\"button\" class=\"btn btn-primary form-button\"></button>"
    );
    assert_eq!(
        show(AnyComponent::Button(Button::with(L10n::n("Go")))),
        "<button type=\"button\" value=\"Go\">Go</button>"
    );
    let b = Button::submit(L10n::n("Send <it>")).with_name("go");
    assert!(matches!(b.button_type(), ButtonType::Submit));
    assert_eq!(b.name().get(), Some("go".to_string()));
    assert_eq!(b.classes().get(), Some("form-submit".to_string()));
    assert_eq!(
        show(AnyComponent::Button(b)),
        "<button type=\"submit\" id=\"edit-go\" class=\"form-submit\" name=\"go\" value=\"Send &lt;it&gt;\">Send &lt;it&gt;</button>"
    );
    let b = Button::reset(L10n::n("Clear"));
    assert!(matches!(b.button_type(), ButtonType::Reset));
    assert_eq!(
        show(AnyComponent::Button(b)),
        "<button type=\"reset\" class=\"form-reset\" value=\"Clear\">Clear</button>"
    );
}

#[test]
fn button_flags_and_attributes() {
    let mut b = Button::new();
    b.alter_autofocus(true)
        .alter_disabled(true)
        .alter_name("n")
        .alter_value(L10n::n("v"))
        .alter_classes(ClassesOp::Reset, "x")
        .alter_template("t")
        .alter_weight(5);
    assert_eq!(b.autofocus().get(), Some("autofocus".to_string()));
    assert_eq!(b.disabled().get(), Some("disabled".to_string()));
    assert_eq!(b.value().using("en"), Some("v".to_string()));
    assert_eq!(b.template(), "t");
    assert_eq!(b.weight(), 5);
    assert_eq!(
        show(AnyComponent::Button(b)),
        "<button type=\"button\" id=\"edit-n\" class=\"x\" name=\"n\" value=\"v\" autofocus=\"autofocus\" disabled=\"disabled\">v</button>"
    );
    let b = Button::new()
        .with_autofocus(true)
        .with_autofocus(false)
        .with_disabled(false)
        .with_classes(ClassesOp::Reset, "")
        .with_name("")
        .with_template("u");
    assert_eq!(show(AnyComponent::Button(b)), "<button type=\"button\"></button>");
}

#[test]
fn input_as_it_is_made() {
    assert_eq!(
        show(AnyComponent::Input(Input::new())),
        "<div class=\"form-item form-type-textfield\"><input type=\"text\" class=\"form-control\" size=\"60\" maxlength=\"128\"></input></div>"
    );
    assert_eq!(
        show(AnyComponent::Input(Input::textfield())),
        "<div><input type=\"text\" class=\"form-control\"></input></div>"
    );
}

#[test]
fn input_of_each_type() {
    let check = |i: Input, t: &str, class: &str| {
        assert_eq!(i.classes().get(), Some(class.to_string()));
        assert_eq!(
            show(AnyComponent::Input(i)),
            format!(
                "<div class=\"{}\"><input type=\"{}\" class=\"form-control\"></input></div>",
                class, t
            )
        );
    };
    check(Input::password(), "password", "form-type-password");
    check(Input::search(), "search", "form-type-search");
    check(Input::email(), "email", "form-type-email");
    check(Input::telephone(), "tel", "form-type-telephone");
    check(Input::url(), "url", "form-type-url");
    assert!(matches!(Input::email().input_type(), InputType::Email));
}

#[test]
fn input_with_label_and_help() {
    let i = Input::textfield()
        .with_name("user")
        .with_label(L10n::n("User <name>"))
        .with_required(true)
        .with_help_text(L10n::n("Your \"name\""));
    assert_eq!(
        show(AnyComponent::Input(i)),
        "<div class=\"form-item-user\"><label class=\"form-label\" for=\"edit-user\">User &lt;name&gt; <span class=\"form-required\" title=\"Este campo es obligatorio.\">*</span> </label><input type=\"text\" id=\"edit-user\" class=\"form-control\" name=\"user\" required=\"required\"></input><div class=\"form-text\">Your &quot;name&quot;</div></div>"
    );
    let i = Input::textfield().with_label(L10n::n("L"));
    assert_eq!(
        show(AnyComponent::Input(i)),
        "<div><label class=\"form-label\">L </label><input type=\"text\" class=\"form-control\"></input></div>"
    );
}

#[test]
fn input_renaming_swaps_the_class() {
    let mut i = Input::new();
    i.alter_name("first");
    assert_eq!(i.classes().get(), Some("form-item form-type-textfield form-item-first".to_string()));
    i.alter_name("second");
    assert_eq!(i.name().get(), Some("second".to_string()));
    assert_eq!(
        i.classes().get(),
        Some("form-item form-type-textfield form-item-second".to_string())
    );
}

#[test]
fn input_attributes() {
    let mut i = Input::textfield();
    i.alter_value(" v ")
        .alter_size(Some(10))
        .alter_minlength(Some(0))
        .alter_maxlength(Some(65535))
        .alter_placeholder("type here")
        .alter_autofocus(true)
        .alter_autocomplete(false)
        .alter_disabled(true)
        .alter_readonly(true)
        .alter_required(true)
        .alter_template("t")
        .alter_weight(-1)
        .alter_classes(ClassesOp::Add, "c")
        .alter_label(L10n::new())
        .alter_help_text(L10n::new());
    assert_eq!(i.value().get(), Some("v".to_string()));
    assert_eq!(i.size(), Some(10));
    assert_eq!(i.minlength(), Some(0));
    assert_eq!(i.maxlength(), Some(65535));
    assert_eq!(i.placeholder().get(), Some("type here".to_string()));
    assert_eq!(i.autofocus().get(), Some("autofocus".to_string()));
    assert_eq!(i.autocomplete().get(), Some("off".to_string()));
    assert_eq!(i.disabled().get(), Some("disabled".to_string()));
    assert_eq!(i.readonly().get(), Some("readonly".to_string()));
    assert_eq!(i.required().get(), Some("required".to_string()));
    assert_eq!(i.label().using("en"), None);
    assert_eq!(i.help_text().using("en"), None);
    assert_eq!(i.template(), "t");
    assert_eq!(i.weight(), -1);
    assert!(i.has_autofocus());
    assert!(!i.has_autocomplete());
    assert!(i.is_disabled());
    assert!(i.is_readonly());
    assert!(i.is_required());
    assert_eq!(
        show(AnyComponent::Input(i)),
        "<div class=\"c\"><input type=\"text\" class=\"form-control\" value=\"v\" size=\"10\" minlength=\"0\" maxlength=\"65535\" placeholder=\"type here\" autofocus=\"autofocus\" autocomplete=\"off\" readonly=\"readonly\" required=\"required\" disabled=\"disabled\"></input></div>"
    );
    let i = Input::textfield()
        .with_autocomplete(true)
        .with_autofocus(false)
        .with_disabled(false)
        .with_readonly(false)
        .with_size(None)
        .with_minlength(None)
        .with_maxlength(None)
        .with_placeholder("")
        .with_value("")
        .with_template("x");
    assert!(!i.has_autofocus());
    assert!(i.has_autocomplete());
    assert!(!i.is_disabled());
    assert!(!i.is_readonly());
    assert!(!i.is_required());
    assert_eq!(
        show(AnyComponent::Input(i)),
        "<div><input type=\"text\" class=\"form-control\"></input></div>"
    );
}

#[test]
fn handles_tell_the_kinds_apart() {
    let all = [
        AnyComponent::Html(Html::new()).handle(),
        AnyComponent::Translate(L10n::new()).handle(),
        AnyComponent::Container(Container::new()).handle(),
        AnyComponent::Heading(Heading::new()).handle(),
        AnyComponent::Form(Form::new()).handle(),
        AnyComponent::Row(Row::new()).handle(),
        AnyComponent::Paragraph(Paragraph::new()).handle(),
        AnyComponent::Megamenu(Megamenu::new()).handle(),
        AnyComponent::Button(Button::new()).handle(),
        AnyComponent::Hidden(Hidden::new()).handle(),
        AnyComponent::Input(Input::new()).handle(),
        AnyComponent::Error404(Error404).handle(),
        AnyComponent::Submenu(pagetop::base::component::menu::Submenu::new()).handle(),
        AnyComponent::MenuItem(pagetop::base::component::menu::Item::new()).handle(),
        AnyComponent::FlexItem(pagetop::base::component::flex::Item::new()).handle(),
    ];
    assert_eq!(
        all,
        [
            COMPONENT_HTML,
            COMPONENT_L10N,
            COMPONENT_CONTAINER,
            COMPONENT_HEADING,
            COMPONENT_FORM,
            COMPONENT_ROW,
            COMPONENT_PARAGRAPH,
            COMPONENT_MEGAMENU,
            COMPONENT_BUTTON,
            COMPONENT_HIDDEN,
            COMPONENT_INPUT,
            COMPONENT_ERROR404,
            COMPONENT_SUBMENU,
            COMPONENT_MENU_ITEM,
            pagetop::component::COMPONENT_FLEX_ITEM
        ]
    );
    for i in 0..all.len() {
        for j in 0..i {
            assert_ne!(all[i], all[j]);
        }
    }
    assert_eq!(Heading::new().handle(), COMPONENT_HEADING);
    assert_eq!(Container::new().handle(), COMPONENT_CONTAINER);
}

#[test]
fn a_component_is_recovered_as_its_kind() {
    let mut any = AnyComponent::Heading(Heading::h3(L10n::n("x")).with_weight(7));
    assert_eq!(component_ref::<Heading>(&any).weight(), 7);
    component_mut::<Heading>(&mut any).alter_weight(8);
    assert_eq!(any.weight(), 8);
    assert!(Container::from_any(&any).is_none());
    assert!(Container::from_any_mut(&mut any).is_none());
    assert!(Heading::from_any(&any).is_some());
}

#[test]
fn weight_id_and_renderability_of_any_component() {
    let cx = Context::new("en");
    let any = AnyComponent::Container(
        Container::new().with_weight(-4).with_id("c").with_renderable(IsRenderable::Never),
    );
    assert_eq!(any.weight(), -4);
    assert_eq!(any.id(), Some("c".to_string()));
    assert!(!any.is_renderable(&cx));
    let any = AnyComponent::Html(Html::new());
    assert_eq!(any.weight(), 0);
    assert_eq!(any.id(), None);
    assert!(any.is_renderable(&cx));
    let any = AnyComponent::Hidden(Hidden::set("n", "v").with_weight(2));
    assert_eq!(any.weight(), 2);
    assert_eq!(any.id(), None);
}
