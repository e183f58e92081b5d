use pagetop::action::{
    Action, ActionAfterPrepareBody, ActionBeforeRenderPage, ActionTrait, ActionsRegistry,
    PageChange, ACTION_AFTER_PREPARE_BODY, ACTION_BEFORE_RENDER_PAGE,
};
use pagetop::base::component::{
    Container, Error404, FontSize, Heading, HeadingDisplay, Html, L10n, Paragraph, Row,
};
use pagetop::base::module::admin::before_prepare_body;
use pagetop::base::module::node::before_render_page as node_before_render_page;
use pagetop::base::module::{Admin, JQuery, Node};
use pagetop::base::theme::{Aliner, AlinerTheme, Basic, Bootsier, Bulmix, MinimalTheme};
use pagetop::component::{render_component, AnyComponent, ComponentTrait};
use pagetop::context::{Context, ContextOp};
use pagetop::html::{ClassesOp, Favicon, JavaScript, Markup, StyleSheet};
use pagetop::module::ModuleTrait;
use pagetop::page::{
    before_render_page, render_page_body, render_page_head, Page, TextDirection,
};
use pagetop::theme::{ThemeLayout, ThemeTrait};

const HEAD_START: &str = "<head><meta charset=\"utf-8\"><title>";
const HEAD_FIXED: &str = "<meta name=\"viewport\" content=\"width=device-width, initial-scale=1, shrink-to-fit=no\"><meta http-equiv=\"X-UA-Compatible\" content=\"IE=edge\">";

#[test]
fn an_empty_page_is_a_document() {
    let mut page = Page::new();
    let m = page.render(&Basic, &ActionsRegistry::new());
    assert_eq!(
        m.into_string(),
        format!(
            "<!DOCTYPE html><html lang=\"en\" dir=\"ltr\">{}PageTop Application</title>{}<link rel=\"icon\" href=\"/theme/favicon.ico\"></head><body class=\"body\"></body></html>",
            HEAD_START, HEAD_FIXED
        )
    );
}

#[test]
fn a_page_as_it_is_made() {
    let page = Page::new();
    assert_eq!(page.site(), "PageTop Application");
    assert_eq!(page.language().get(), Some("en".to_string()));
    assert_eq!(page.direction().get(), Some("ltr".to_string()));
    assert_eq!(page.title().get(), None);
    assert_eq!(page.description().get(), None);
    assert!(page.favicon().is_none());
    assert_eq!(page.body_classes().get(), Some("body".to_string()));
    assert_eq!(page.template(), "default");
}

#[test]
fn a_page_with_everything() {
    let mut page = Page::new()
        .with_site("My <site>")
        .with_language("es")
        .with_direction(TextDirection::RightToLeft)
        .with_title(" Home & more ")
        .with_description("All \"about\" it")
        .with_favicon(Some(Favicon::new().with_icon("/my.ico")))
        .with_body_classes(ClassesOp::Add, "dark")
        .with_context(ContextOp::AddMetadata("theme-color".to_string(), "#fff".to_string()))
        .with_context(ContextOp::AddStyleSheet(StyleSheet::at("/late.css").with_weight(5)))
        .with_context(ContextOp::AddStyleSheet(StyleSheet::at("/early.css").with_weight(-5)))
        .with_context(ContextOp::AddStyleSheet(StyleSheet::at("/late.css").with_weight(-9)))
        .with_context(ContextOp::AddJavaScript(JavaScript::at("/a.js")))
        .with_context(ContextOp::AddJavaScript(JavaScript::at("/b.js")))
        .with_context(ContextOp::LangId("es".to_string()))
        .add_to("region-content", AnyComponent::Heading(Heading::h1(L10n::n("Hola")).with_weight(2)))
        .add_to("region-content", AnyComponent::Html(Html::with(Markup::raw("<hr>"))))
        .add_to("side-menu", AnyComponent::Html(Html::with(Markup::raw("not shown"))));
    assert_eq!(page.title().get(), Some("Home & more".to_string()));
    assert_eq!(page.direction().get(), Some("rtl".to_string()));
    let m = page.render(&Basic, &ActionsRegistry::new());
    assert_eq!(
        m.into_string(),
        format!(
            "<!DOCTYPE html><html lang=\"es\" dir=\"rtl\">{}My &lt;site&gt; | Home &amp; more</title><meta name=\"description\" content=\"All &quot;about&quot; it\">{}<link rel=\"icon\" href=\"/my.ico\"><meta name=\"theme-color\" content=\"#fff\"><link rel=\"stylesheet\" href=\"/early.css\"><link rel=\"stylesheet\" href=\"/late.css\"><script src=\"/a.js\"></script><script src=\"/b.js\"></script></head><body class=\"body dark\"><div id=\"region-content\"><hr><h1>Hola</h1></div></body></html>",
            HEAD_START, HEAD_FIXED
        )
    );
}

#[test]
fn the_admin_template_shows_three_regions() {
    let mut page = Page::new()
        .using_template("admin")
        .add_to("region-content", AnyComponent::Html(Html::with(Markup::raw("c"))))
        .add_to("top-menu", AnyComponent::Html(Html::with(Markup::raw("t"))))
        .add_to("side-menu", AnyComponent::Html(Html::with(Markup::raw("s"))))
        .add_to("elsewhere", AnyComponent::Html(Html::with(Markup::raw("e"))));
    let body = render_page_body(&mut page, &Basic, &ActionsRegistry::new());
    assert_eq!(
        body.into_string(),
        "<body class=\"body\"><div id=\"top-menu\">t</div><div id=\"side-menu\">s</div><div id=\"region-content\">c</div></body>"
    );
    assert_eq!(
        page.render_region("elsewhere", &Basic, &ActionsRegistry::new()).into_string(),
        "e"
    );
    assert_eq!(page.render_region("nowhere", &Basic, &ActionsRegistry::new()).into_string(), "");
}

#[test]
fn a_region_without_markup_is_left_out() {
    let mut page = Page::new()
        .using_template("admin")
        .add_to("top-menu", AnyComponent::Html(Html::new()))
        .add_to("region-content", AnyComponent::Html(Html::with(Markup::raw("c"))));
    let body = render_page_body(&mut page, &Basic, &ActionsRegistry::new());
    assert_eq!(body.into_string(), "<body class=\"body\"><div id=\"region-content\">c</div></body>");
}

#[test]
fn alter_changes_the_page_in_place() {
    let mut page = Page::new();
    page.alter_site("S")
        .alter_language("")
        .alter_direction(TextDirection::Auto)
        .alter_title("T")
        .alter_description("D")
        .alter_favicon(Some(Favicon::new()))
        .alter_body_classes(ClassesOp::SetDefault, "")
        .alter_template("plain")
        .alter_context(ContextOp::LangId("fr".to_string()))
        .alter_component("region-content", AnyComponent::Html(Html::with(Markup::raw("x"))));
    assert_eq!(page.language().get(), None);
    assert_eq!(page.direction().get(), Some("auto".to_string()));
    assert_eq!(page.description().get(), Some("D".to_string()));
    assert_eq!(page.template(), "plain");
    assert_eq!(page.context().langid(), "fr");
    page.context().alter(ContextOp::LangId("de".to_string()));
    assert_eq!(page.context().langid(), "de");
    page.alter_direction(TextDirection::LeftToRight);
    assert_eq!(page.direction().get(), Some("ltr".to_string()));
    let m = page.render(&MinimalTheme, &ActionsRegistry::new());
    assert_eq!(
        m.into_string(),
        format!(
            "<!DOCTYPE html><html dir=\"ltr\">{}S | T</title><meta name=\"description\" content=\"D\">{}</head><body><div id=\"region-content\">x</div></body></html>",
            HEAD_START, HEAD_FIXED
        )
    );
}

#[test]
fn head_and_preparation_of_a_theme_without_ideas() {
    let mut page = Page::new().with_title("x");
    before_render_page(&mut page);
    assert_eq!(format!("{:?}", page.favicon().as_ref().map(|f| f.render().into_string())), "Some(\"<link rel=\\\"icon\\\" href=\\\"/theme/favicon.ico\\\">\")");
    let mut page = Page::new().with_favicon(Some(Favicon::new().with_icon("/own.ico")));
    before_render_page(&mut page);
    assert_eq!(
        render_page_head(&page).into_string(),
        format!(
            "{}PageTop Application</title>{}<link rel=\"icon\" href=\"/own.ico\"></head>",
            HEAD_START, HEAD_FIXED
        )
    );
}

fn body_class(class: &str, weight: isize) -> Action {
    Action::BeforeRenderPage(
        ActionBeforeRenderPage::with(PageChange::BodyClasses(ClassesOp::Add, class.to_string()))
            .with_weight(weight),
    )
}

#[test]
fn page_actions_run_by_weight() {
    let mut registry = ActionsRegistry::new();
    registry.add(body_class("heavy", 10));
    registry.add(body_class("light", -10));
    registry.add(body_class("first", 0));
    registry.add(body_class("second", 0));
    registry.add(Action::BeforeRenderPage(
        ActionBeforeRenderPage::new().with_action(PageChange::Title("From action".to_string())),
    ));
    registry.add(Action::AfterPrepareBody(
        ActionAfterPrepareBody::with(PageChange::BodyClasses(ClassesOp::Add, "late".to_string())),
    ));
    registry.add(Action::AfterPrepareBody(
        ActionAfterPrepareBody::new()
            .with_action(PageChange::Description("Described late".to_string()))
            .with_weight(-1),
    ));
    let mut page = Page::new();
    let m = page.render(&Basic, &registry);
    // The class that is added after the body was rendered comes too late for the body,
    // the description is in time for the head.
    assert_eq!(
        m.into_string(),
        format!(
            "<!DOCTYPE html><html lang=\"en\" dir=\"ltr\">{}PageTop Application | From action</title><meta name=\"description\" content=\"Described late\">{}<link rel=\"icon\" href=\"/theme/favicon.ico\"></head><body class=\"body light first second heavy\"></body></html>",
            HEAD_START, HEAD_FIXED
        )
    );
    assert_eq!(page.body_classes().get(), Some("body light first second heavy late".to_string()));
}

#[test]
fn page_actions_one_by_one() {
    let mut page = Page::new();
    let a = ActionBeforeRenderPage::new();
    assert_eq!(a.handle(), ACTION_BEFORE_RENDER_PAGE);
    assert_eq!(a.weight(), 0);
    a.run(&mut page);
    assert_eq!(page.title().get(), None);
    let a = ActionAfterPrepareBody::new()
        .with_action(PageChange::Template("admin".to_string()))
        .with_weight(4);
    assert_eq!(a.handle(), ACTION_AFTER_PREPARE_BODY);
    assert_eq!(a.weight(), 4);
    a.run(&mut page);
    assert_eq!(page.template(), "admin");
    PageChange::Title(" t ".to_string()).duplicate().apply(&mut page);
    PageChange::Description("d".to_string()).duplicate().apply(&mut page);
    PageChange::Template("z".to_string()).duplicate().apply(&mut page);
    PageChange::BodyClasses(ClassesOp::Remove, "body".to_string()).duplicate().apply(&mut page);
    assert_eq!(page.title().get(), Some("t".to_string()));
    assert_eq!(page.description().get(), Some("d".to_string()));
    assert_eq!(page.template(), "z");
    assert_eq!(page.body_classes().get(), Some("body".to_string()));
    let mut any = AnyComponent::Html(Html::new());
    Action::BeforeRenderPage(ActionBeforeRenderPage::new()).run_on_component(&mut any);
    Action::AfterPrepareBody(a).run_on_page(&mut page);
    assert_eq!(page.template(), "admin");
}

#[test]
fn the_actions_of_the_stock_modules() {
    let mut registry = ActionsRegistry::new();
    for a in Admin.actions() {
        registry.add(a);
    }
    for a in Node.actions() {
        registry.add(a);
    }
    let mut page = Page::new();
    page.render(&Basic, &registry);
    assert_eq!(page.body_classes().get(), Some("body test-node test-admin".to_string()));
    let mut page = Page::new();
    before_prepare_body(&mut page);
    node_before_render_page(&mut page);
    assert_eq!(page.body_classes().get(), Some("body test-admin test-node".to_string()));
    let mut menu = AnyComponent::Container(Container::new());
    pagetop::base::module::admin::before_prepare_menu(&mut menu);
    assert_eq!(menu.id(), Some("admin-menu-test-altered".to_string()));
}

#[test]
fn aliner_adds_its_style_sheet() {
    let mut page = Page::new();
    let m = page.render(&Aliner, &ActionsRegistry::new());
    assert_eq!(
        m.into_string(),
        format!(
            "<!DOCTYPE html><html lang=\"en\" dir=\"ltr\">{}PageTop Application</title>{}<link rel=\"icon\" href=\"/theme/favicon.ico\"><link rel=\"stylesheet\" href=\"/aliner/css/styles.css\"></head><body class=\"body\"></body></html>",
            HEAD_START, HEAD_FIXED
        )
    );
    let mut page = Page::new();
    AlinerTheme.before_render_page(&mut page);
    assert!(page.favicon().is_none());
    assert_eq!(
        page.context().render().into_string(),
        "<link rel=\"stylesheet\" href=\"/aliner/css/styles.css\">"
    );
}

#[test]
fn bulmix_and_bootsier_prepare_the_page() {
    let mut page = Page::new();
    Bulmix.before_render_page(&mut page);
    assert_eq!(
        Bulmix.render_page_head(&page).into_string(),
        format!(
            "{}PageTop Application</title>{}<link rel=\"icon\" href=\"/theme/favicon.png\"><link rel=\"stylesheet\" href=\"/bulmix/css/bulma.min.css?ver=0.9.3\"><script src=\"/jquery/3.6.0/jquery.min.js\"></script></head>",
            HEAD_START, HEAD_FIXED
        )
    );
    let mut page = Page::new();
    Bootsier.before_render_page(&mut page);
    assert_eq!(
        page.context().render().into_string(),
        "<link rel=\"stylesheet\" href=\"/bootsier/css/bootstrap.min.css?v=5.1.3\"><script src=\"/jquery/3.6.0/jquery.min.js\"></script><script src=\"/bootsier/js/bootstrap.bundle.min.js?v=5.1.3\"></script>"
    );
    let mut cx = Context::new("en");
    JQuery::add_jquery(&mut cx);
    JQuery::add_jquery(&mut cx);
    assert_eq!(cx.render().into_string(), "<script src=\"/jquery/3.6.0/jquery.min.js\"></script>");
    assert_eq!(
        Bootsier.render_page_body(&mut page, &ActionsRegistry::new()).into_string(),
        "<body class=\"body\"></body>"
    );
}

#[test]
fn bulmix_dresses_components() {
    let show = |c: AnyComponent| {
        let mut c = c;
        let mut cx = Context::new("en");
        render_component(&mut c, &mut cx, &Bulmix, &ActionsRegistry::new()).into_string()
    };
    assert_eq!(
        show(AnyComponent::Heading(Heading::h1(L10n::n("x")).with_display(HeadingDisplay::Large))),
        "<h1 class=\"title is-2\">x</h1>"
    );
    assert_eq!(
        show(AnyComponent::Heading(Heading::h2(L10n::n("x")).with_classes(ClassesOp::Add, "own"))),
        "<h2 class=\"title own\">x</h2>"
    );
    assert_eq!(
        show(AnyComponent::Paragraph(Paragraph::translated(L10n::n("p")).with_font_size(FontSize::Medium))),
        "<p class=\"is-size-4 fs__m\">p</p>"
    );
    assert_eq!(show(AnyComponent::Paragraph(Paragraph::new())), "<p></p>");
    assert_eq!(show(AnyComponent::Row(Row::new())), "<div class=\"columns\"></div>");
    assert_eq!(
        show(AnyComponent::Container(Container::new())),
        "<div class=\"container\"></div>"
    );
}

#[test]
fn bootsier_has_its_own_page_for_what_was_not_found() {
    let show = |lang: &str| {
        let mut c = AnyComponent::Error404(Error404::new());
        let mut cx = Context::new(lang);
        render_component(&mut c, &mut cx, &Bootsier, &ActionsRegistry::new()).into_string()
    };
    assert_eq!(
        show("en"),
        "<div class=\"jumbotron\"><div class=\"media\"><img src=\"/bootsier/images/caution.png\" class=\"mr-4\" style=\"width: 20%; max-width: 188px\" alt=\"Caution!\"><div class=\"media-body\"><h1 class=\"display-4\">RESOURCE NOT FOUND</h1><p class=\"lead\">Oops! Page Not Found</p><hr class=\"my-4\"><p>Oops! Page Not Found</p><a class=\"btn btn-primary btn-lg\" href=\"/\" role=\"button\">Back to homepage</a></div></div></div>"
    );
    assert!(show("es").contains("<p class=\"lead\">¡Vaya! Página No Encontrada</p>"));
    assert!(show("es").contains(">Volver al inicio</a>"));
    assert!(show("es").contains("<hr class=\"my-4\"><p>¡Vaya! Página No Encontrada</p>"));
    assert!(show("de").contains("<p class=\"lead\">e404-description</p>"));
    assert!(show("de").contains("<hr class=\"my-4\"><p>e404-description</p>"));
    let mut other = AnyComponent::Heading(Heading::h1(L10n::n("x")));
    let mut cx = Context::new("en");
    assert_eq!(
        render_component(&mut other, &mut cx, &Bootsier, &ActionsRegistry::new()).into_string(),
        "<h1>x</h1>"
    );
    assert_eq!(Bootsier::texts().lookup("es", "back-homepage"), Some("Volver al inicio".to_string()));
}

#[test]
fn the_context_renders_its_assets_by_weight() {
    let mut cx = Context::new("en");
    cx.alter(ContextOp::AddJavaScript(JavaScript::at("/2.js").with_weight(2)))
        .alter(ContextOp::AddJavaScript(JavaScript::at("/1.js").with_weight(1)))
        .alter(ContextOp::AddJavaScript(JavaScript::at("/1b.js").with_weight(1)))
        .alter(ContextOp::AddStyleSheet(StyleSheet::at("/z.css")))
        .alter(ContextOp::AddStyleSheet(StyleSheet::at("/a.css")))
        .alter(ContextOp::AddMetadata("b".to_string(), "2".to_string()))
        .alter(ContextOp::AddMetadata("a".to_string(), "1 & 1".to_string()));
    assert_eq!(
        cx.render().into_string(),
        "<meta name=\"b\" content=\"2\"><meta name=\"a\" content=\"1 &amp; 1\"><link rel=\"stylesheet\" href=\"/z.css\"><link rel=\"stylesheet\" href=\"/a.css\"><script src=\"/1.js\"></script><script src=\"/1b.js\"></script><script src=\"/2.js\"></script>"
    );
    assert_eq!(Context::new("en").render().into_string(), "");
}

#[test]
fn a_page_for_an_application() {
    let mut s = pagetop::config::Settings::defaults();
    s.app.name = "Shop".to_string();
    s.app.language = "ES-es".to_string();
    s.app.direction = "RTL".to_string();
    let mut page = Page::for_app(&s.app);
    assert_eq!(page.site(), "Shop");
    assert_eq!(page.language().get(), Some("es".to_string()));
    assert_eq!(page.direction().get(), Some("rtl".to_string()));
    assert_eq!(page.context().langid(), "es");
    s.app.language = "".to_string();
    s.app.direction = "sideways".to_string();
    let mut page = Page::for_app(&s.app);
    assert_eq!(page.language().get(), None);
    assert_eq!(page.direction().get(), None);
    assert_eq!(page.context().langid(), "en");
    let page = Page::for_app(&pagetop::config::Settings::defaults().app);
    assert_eq!(page.site(), "PageTop Application");
    assert_eq!(page.language().get(), Some("en".to_string()));
    assert_eq!(page.direction().get(), Some("ltr".to_string()));
}
