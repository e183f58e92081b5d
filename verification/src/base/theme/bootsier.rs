//! The Bootsier theme: Bootstrap for the pages, and a page of its own for
//! what was not found.

use crate::base::module::jquery::{jquery_script, JQuery, MODULE_JQUERY};
use crate::component::COMPONENT_ERROR404;
use crate::html::markup::escaped;
use crate::locale::{translated, EntryView, Locales};
use crate::action::{Action, ActionsRegistry};
use crate::component::{AnyComponent, ComponentView};
use crate::context::{Context, ContextOp, ContextOpView, ContextView};
use crate::handle::Handle;
use crate::html::assets::{AssetView, Favicon, JavaScript, StyleSheet};
use crate::html::markup::Markup;
use crate::base::component::L10n;
use crate::module::{name_from_path, no_actions, ModuleTrait};
use crate::order::Weight;
use crate::page::{before_render_page, render_page_body, render_page_head, Page, PageView};
use crate::theme::{ThemeLayout, ThemeRef, ThemeTrait};
use vstd::prelude::*;

verus! {

/// The handle of the Bootsier theme.
pub const THEME_BOOTSIER: Handle = 0x8000_0000_0000_3004;

/// The Bootsier theme.
pub struct Bootsier;

/// The texts of the theme.
pub open spec fn bootsier_texts() -> Seq<EntryView> {
    seq![
        EntryView {
            langid: "en"@,
            key: "e404-description"@,
            text: "Oops! Page Not Found"@,
        },
        EntryView {
            langid: "en"@,
            key: "e404-message"@,
            text: "The page you are looking for may have been removed, had its name changed, or is temporarily unavailable."@,
        },
        EntryView { langid: "en"@, key: "back-homepage"@, text: "Back to homepage"@ },
        EntryView {
            langid: "es"@,
            key: "e404-description"@,
            text: "\u{a1}Vaya! P\u{e1}gina No Encontrada"@,
        },
        EntryView {
            langid: "es"@,
            key: "e404-message"@,
            text: "La p\u{e1}gina que est\u{e1} buscando puede haber sido eliminada, cambiada de nombre o no est\u{e1} disponible temporalmente."@,
        },
        EntryView { langid: "es"@, key: "back-homepage"@, text: "Volver al inicio"@ },
    ]
}

/// What the theme shows for a resource that was not found, in `langid`.
pub open spec fn bootsier_not_found(langid: Seq<char>) -> Seq<char> {
    "<div class=\"jumbotron\"><div class=\"media\"><img src=\"/bootsier/images/caution.png\" class=\"mr-4\" style=\"width: 20%; max-width: 188px\" alt=\"Caution!\"><div class=\"media-body\"><h1 class=\"display-4\">RESOURCE NOT FOUND</h1><p class=\"lead\">"@
        + escaped(translated(bootsier_texts(), langid, "e404-description"@))
        + "</p><hr class=\"my-4\"><p>"@ + escaped(
        translated(bootsier_texts(), langid, "e404-description"@),
    ) + "</p><a class=\"btn btn-primary btn-lg\" href=\"/\" role=\"button\">"@ + escaped(
        translated(bootsier_texts(), langid, "back-homepage"@),
    ) + "</a></div></div></div>"@
}

impl Bootsier {
    /// The texts of the theme.
    pub fn texts() -> (t: Locales)
        ensures
            t@ == bootsier_texts(),
    {
        let t = Locales::new().with("en", "e404-description", "Oops! Page Not Found").with(
            "en",
            "e404-message",
            "The page you are looking for may have been removed, had its name changed, or is temporarily unavailable.",
        ).with("en", "back-homepage", "Back to homepage").with(
            "es",
            "e404-description",
            "\u{a1}Vaya! P\u{e1}gina No Encontrada",
        ).with(
            "es",
            "e404-message",
            "La p\u{e1}gina que est\u{e1} buscando puede haber sido eliminada, cambiada de nombre o no est\u{e1} disponible temporalmente.",
        ).with("es", "back-homepage", "Volver al inicio");
        assert(t@ == bootsier_texts());
        t
    }
}

impl ModuleTrait for Bootsier {
    open spec fn spec_handle(&self) -> Handle {
        THEME_BOOTSIER
    }

    open spec fn spec_path(&self) -> Seq<char> {
        "pagetop_bootsier::Bootsier"@
    }

    open spec fn spec_dependencies(&self) -> Seq<Handle> {
        seq![MODULE_JQUERY]
    }

    open spec fn spec_is_theme(&self) -> bool {
        true
    }

    fn handle(&self) -> (h: Handle) {
        THEME_BOOTSIER
    }

    fn path(&self) -> (p: &'static str) {
        let p = "pagetop_bootsier::Bootsier";
        assert(p@ == self.spec_path());
        p
    }

    fn name(&self) -> (name: L10n) {
        name_from_path(self.path())
    }

    fn description(&self) -> (description: L10n) {
        L10n::new()
    }

    fn theme(&self) -> (t: Option<ThemeRef>) {
        let t: ThemeRef = &Bootsier;
        Some(t)
    }

    fn dependencies(&self) -> (d: Vec<Handle>) {
        let mut d: Vec<Handle> = Vec::new();
        d.push(MODULE_JQUERY);
        d
    }

    fn drop_modules(&self) -> (d: Vec<Handle>) {
        Vec::new()
    }

    fn actions(&self) -> (actions: Vec<Action>) {
        no_actions()
    }
}

impl ThemeTrait for Bootsier {
    /// The theme's own page in the place of the component for what was not
    /// found; no say in any other component.
    open spec fn overridden(&self, c: ComponentView, cx: ContextView) -> Option<
        (Seq<char>, ContextView),
    > {
        if c.handle() == COMPONENT_ERROR404 {
            Some((bootsier_not_found(cx.langid), cx))
        } else {
            None
        }
    }

    fn before_render_component(&self, component: &mut AnyComponent, cx: &mut Context) {
    }

    fn render_component(&self, component: &AnyComponent, cx: &mut Context) -> (r: Option<Markup>) {
        if component.handle() == COMPONENT_ERROR404 {
            let texts = Bootsier::texts();
            let mut m = Markup::raw(
                "<div class=\"jumbotron\"><div class=\"media\"><img src=\"/bootsier/images/caution.png\" class=\"mr-4\" style=\"width: 20%; max-width: 188px\" alt=\"Caution!\"><div class=\"media-body\"><h1 class=\"display-4\">RESOURCE NOT FOUND</h1><p class=\"lead\">",
            );
            m.push_text(texts.lookup_or_key(cx.langid(), "e404-description").as_str());
            m.push_raw("</p><hr class=\"my-4\"><p>");
            m.push_text(texts.lookup_or_key(cx.langid(), "e404-description").as_str());
            m.push_raw("</p><a class=\"btn btn-primary btn-lg\" href=\"/\" role=\"button\">");
            m.push_text(texts.lookup_or_key(cx.langid(), "back-homepage").as_str());
            m.push_raw("</a></div></div></div>");
            Some(m)
        } else {
            None
        }
    }
}

impl ThemeLayout for Bootsier {
    /// The page with the icon, the style sheet and the scripts of the theme.
    open spec fn page_prepared(&self, page: PageView) -> PageView {
        PageView {
            favicon: Some(Some("/theme/favicon.ico"@)),
            context: page.context.altered(
                ContextOpView::AddStyleSheet(
                    AssetView {
                        path: "/bootsier/css/bootstrap.min.css?v=5.1.3"@,
                        weight: (-99) as Weight,
                    },
                ),
            ).altered(
                ContextOpView::AddJavaScript(
                    AssetView {
                        path: "/bootsier/js/bootstrap.bundle.min.js?v=5.1.3"@,
                        weight: (-99) as Weight,
                    },
                ),
            ).altered(ContextOpView::AddJavaScript(jquery_script())),
            ..page
        }
    }

    fn before_render_page(&self, page: &mut Page) {
        page.alter_favicon(Some(Favicon::new().with_icon("/theme/favicon.ico"))).alter_context(
            ContextOp::AddStyleSheet(
                StyleSheet::at("/bootsier/css/bootstrap.min.css?v=5.1.3").with_weight(-99),
            ),
        ).alter_context(
            ContextOp::AddJavaScript(
                JavaScript::at("/bootsier/js/bootstrap.bundle.min.js?v=5.1.3").with_weight(-99),
            ),
        );
        JQuery::add_jquery(page.context());
    }

    fn render_page_body(&self, page: &mut Page, actions: &ActionsRegistry) -> (m: Markup) {
        render_page_body(page, self, actions)
    }

    fn render_page_head(&self, page: &Page) -> (m: Markup) {
        render_page_head(page)
    }
}

} // verus!
