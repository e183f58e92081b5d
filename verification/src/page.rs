//! Pages: the regions with their components, what the head of the document
//! needs, and the pipeline that renders it all.

use crate::action::{ActionsRegistry, ACTION_AFTER_PREPARE_BODY, ACTION_BEFORE_RENDER_PAGE};
use crate::component::{deepest, rendered_all, AnyComponent, ComponentView, ComponentsBundle};
use crate::config::{direction_for, language_prefix, lowercase, App};
use crate::context::{Context, ContextOp, ContextView};
use crate::handle::{lemma_position, position};
use crate::html::assets::{favicon_markup, Favicon};
use crate::module::graph::THEME_BASIC;
use crate::html::classes::{Classes, ClassesOp, ClassesOpView, ClassesView};
use crate::html::markup::{attr, escaped, opt_attr, Markup};
use crate::html::opt_id::non_empty;
use crate::html::opt_string::OptionString;
use crate::text::{lemma_trimmed_already, trimmed};
use crate::theme::{ThemeLayout, ThemeTrait};
use vstd::prelude::*;

verus! {

/// The direction in which the text of a page runs.
#[derive(Clone, Copy, Debug, PartialEq, Eq, Structural)]
pub enum TextDirection {
    Auto,
    LeftToRight,
    RightToLeft,
}

/// The value of the `dir` attribute for a direction.
pub open spec fn direction_value(dir: TextDirection) -> Seq<char> {
    match dir {
        TextDirection::Auto => "auto"@,
        TextDirection::LeftToRight => "ltr"@,
        TextDirection::RightToLeft => "rtl"@,
    }
}

/// A `Region` as a mathematical value.
pub struct RegionView {
    pub name: Seq<char>,
    pub components: Seq<ComponentView>,
}

/// A `Page` as a mathematical value.
pub struct PageView {
    pub context: ContextView,
    pub site: Seq<char>,
    pub language: Option<Seq<char>>,
    pub direction: Option<Seq<char>>,
    pub title: Option<Seq<char>>,
    pub description: Option<Seq<char>>,
    pub favicon: Option<Option<Seq<char>>>,
    pub body_classes: ClassesView,
    pub regions: Seq<RegionView>,
    pub template: Seq<char>,
}

/// The names of the regions.
pub open spec fn region_names(regions: Seq<RegionView>) -> Seq<Seq<char>> {
    regions.map_values(|r: RegionView| r.name)
}

/// The regions that the body of a page with this template shows, in order.
pub open spec fn body_regions(template: Seq<char>) -> Seq<Seq<char>> {
    if template == "admin"@ {
        seq!["top-menu"@, "side-menu"@, "region-content"@]
    } else {
        seq!["region-content"@]
    }
}

/// The block that a region is shown as: nothing if the region gave no markup.
pub open spec fn region_block(name: Seq<char>, content: Seq<char>) -> Seq<char> {
    if content.len() == 0 {
        Seq::empty()
    } else {
        "<div"@ + attr("id"@, name) + ">"@ + content + "</div>"@
    }
}

impl PageView {
    /// A page as `Page::new` makes it.
    pub open spec fn initial() -> PageView {
        PageView {
            context: ContextView {
                langid: "en"@,
                theme: THEME_BASIC,
                stylesheets: Seq::empty(),
                javascripts: Seq::empty(),
                metadata: Seq::empty(),
            },
            site: "PageTop Application"@,
            language: Some("en"@),
            direction: Some("ltr"@),
            title: None,
            description: None,
            favicon: None,
            body_classes: ClassesView::empty().altered(ClassesOpView::SetDefault, "body"@),
            regions: Seq::empty(),
            template: "default"@,
        }
    }

    /// A page as `Page::for_app` makes it from the name, the language and the
    /// direction of text that the settings of an application hold.
    pub open spec fn for_app(name: Seq<char>, language: Seq<char>, direction: Seq<char>)
        -> PageView {
        let code = lowercase(language_prefix(language));
        PageView {
            context: ContextView {
                langid: if language.len() == 0 {
                    "en"@
                } else {
                    code
                },
                ..Self::initial().context
            },
            site: name,
            language: if language.len() == 0 {
                None
            } else {
                non_empty(code)
            },
            direction: match direction_for(lowercase(direction)) {
                Some(dir) => non_empty(direction_value(dir)),
                None => None,
            },
            ..Self::initial()
        }
    }

    /// The page with `c` at the end of the region `region`; the region is
    /// made if the page has none of that name.
    pub open spec fn with_component(self, region: Seq<char>, c: ComponentView) -> PageView {
        let i = position(region_names(self.regions), region);
        if 0 <= i < self.regions.len() {
            PageView {
                regions: self.regions.update(
                    i,
                    RegionView {
                        components: self.regions[i].components.push(c),
                        ..self.regions[i]
                    },
                ),
                ..self
            }
        } else {
            PageView {
                regions: self.regions.push(RegionView { name: region, components: seq![c] }),
                ..self
            }
        }
    }

    /// The markup of the region `region`, and the page as rendering the
    /// region left it. A page without such a region gives no markup.
    pub open spec fn region_rendered<T: ThemeTrait + ?Sized>(
        self,
        theme: &T,
        actions: &ActionsRegistry,
        region: Seq<char>,
    ) -> (Seq<char>, PageView) {
        let i = position(region_names(self.regions), region);
        if 0 <= i < self.regions.len() {
            let r = rendered_all(
                theme,
                actions,
                self.regions[i].components,
                self.context,
                deepest(self.regions[i].components),
            );
            (
                r.markup,
                PageView {
                    context: r.context,
                    regions: self.regions.update(
                        i,
                        RegionView { components: r.components, ..self.regions[i] },
                    ),
                    ..self
                },
            )
        } else {
            (Seq::empty(), self)
        }
    }

    /// The blocks of the first `n` of the regions `names`, and the page as
    /// rendering them left it.
    pub open spec fn regions_rendered<T: ThemeTrait + ?Sized>(
        self,
        theme: &T,
        actions: &ActionsRegistry,
        names: Seq<Seq<char>>,
        n: int,
    ) -> (Seq<char>, PageView)
        decreases n,
    {
        if n <= 0 || n > names.len() {
            (Seq::empty(), self)
        } else {
            let sofar = self.regions_rendered(theme, actions, names, n - 1);
            let one = sofar.1.region_rendered(theme, actions, names[n - 1]);
            (sofar.0 + region_block(names[n - 1], one.0), one.1)
        }
    }

    /// The body that a theme without ideas of its own gives the page.
    pub open spec fn default_body<T: ThemeTrait + ?Sized>(
        self,
        theme: &T,
        actions: &ActionsRegistry,
    ) -> (Seq<char>, PageView) {
        let names = body_regions(self.template);
        let r = self.regions_rendered(theme, actions, names, names.len() as int);
        ("<body"@ + opt_attr("class"@, self.body_classes.value()) + ">"@ + r.0 + "</body>"@, r.1)
    }

    /// The title of the document: the name of the site, and the title of the
    /// page if it has one.
    pub open spec fn document_title(self) -> Seq<char> {
        match self.title {
            Some(t) => escaped(self.site) + " | "@ + escaped(t),
            None => escaped(self.site),
        }
    }

    /// The head that a theme without ideas of its own gives the page.
    pub open spec fn default_head(self) -> Seq<char> {
        "<head><meta charset=\"utf-8\"><title>"@ + self.document_title() + "</title>"@ + (
        match self.description {
            Some(d) => "<meta name=\"description\""@ + attr("content"@, d) + ">"@,
            None => Seq::empty(),
        }) + "<meta name=\"viewport\" content=\"width=device-width, initial-scale=1, shrink-to-fit=no\">"@
            + "<meta http-equiv=\"X-UA-Compatible\" content=\"IE=edge\">"@ + (match self.favicon {
            Some(f) => favicon_markup(f),
            None => Seq::empty(),
        }) + self.context.head_markup() + "</head>"@
    }

    /// The page as a theme without ideas of its own prepares it: with the
    /// stock icon, unless the page has an icon.
    pub open spec fn default_prepared(self) -> PageView {
        if self.favicon is None {
            PageView { favicon: Some(Some("/theme/favicon.ico"@)), ..self }
        } else {
            self
        }
    }

    /// The document around a head and a body.
    pub open spec fn document(self, head: Seq<char>, body: Seq<char>) -> Seq<char> {
        "<!DOCTYPE html><html"@ + opt_attr("lang"@, self.language) + opt_attr(
            "dir"@,
            self.direction,
        ) + ">"@ + head + body + "</html>"@
    }

    /// The document that rendering gives, and the page as rendering left it:
    /// the actions registered for "before render page" and the theme prepare
    /// the page, the theme renders the body, the actions registered for
    /// "after prepare body" have their turn, and the theme renders the head.
    pub open spec fn rendered<T: ThemeLayout + ?Sized>(self, theme: &T, actions: &ActionsRegistry)
        -> (Seq<char>, PageView) {
        let ready = theme.page_prepared(actions.page_altered(ACTION_BEFORE_RENDER_PAGE, self));
        let body = theme.page_body(actions, ready);
        let done = actions.page_altered(ACTION_AFTER_PREPARE_BODY, body.1);
        (done.document(theme.page_head(done), body.0), done)
    }
}

pub(crate) struct Region {
    pub(crate) name: String,
    pub(crate) components: ComponentsBundle,
}

impl View for Region {
    type V = RegionView;

    closed spec fn view(&self) -> RegionView {
        RegionView { name: self.name@, components: self.components@ }
    }
}

/// A page.
pub struct Page {
    context: Context,
    site: String,
    language: OptionString,
    direction: OptionString,
    title: OptionString,
    description: OptionString,
    favicon: Option<Favicon>,
    body_classes: Classes,
    regions: Vec<Region>,
    template: String,
}

pub(crate) closed spec fn region_views(regions: Seq<Region>) -> Seq<RegionView> {
    regions.map_values(|r: Region| r@)
}

impl View for Page {
    type V = PageView;

    closed spec fn view(&self) -> PageView {
        PageView {
            context: self.context@,
            site: self.site@,
            language: self.language@,
            direction: self.direction@,
            title: self.title@,
            description: self.description@,
            favicon: match self.favicon {
                Some(f) => Some(f@),
                None => None,
            },
            body_classes: self.body_classes@,
            regions: region_views(self.regions@),
            template: self.template@,
        }
    }
}

impl Page {
    /// An empty page with the default template, for the language `en` and
    /// the direction `ltr`.
    pub fn new() -> (r: Self)
        ensures
            r@ == PageView::initial(),
    {
        let r = Page {
            context: Context::new("en"),
            site: "PageTop Application".to_owned(),
            language: OptionString::with("en"),
            direction: OptionString::with("ltr"),
            title: OptionString::new(),
            description: OptionString::new(),
            favicon: None,
            body_classes: Classes::new_with_default("body"),
            regions: Vec::new(),
            template: "default".to_owned(),
        };
        proof {
            reveal_strlit("en");
            reveal_strlit("ltr");
            lemma_trimmed_already("en"@);
            lemma_trimmed_already("ltr"@);
            assert(region_views(r.regions@) == Seq::<RegionView>::empty());
        }
        r
    }

    /// An empty page for an application: in its language, with its direction
    /// of text and under its name.
    pub fn for_app(app: &App) -> (r: Self)
        ensures
            r@ == PageView::for_app(app.name@, app.language@, app.direction@),
    {
        let mut page = Page::new();
        page.site = app.name.clone();
        match app.default_language() {
            Some(language) => {
                page.language.alter_flag(true, language.as_str());
                page.context.alter(ContextOp::LangId(language));
            },
            None => {
                page.language.alter_flag(false, "");
            },
        }
        match app.default_direction().0 {
            Some(dir) => {
                page.direction.alter_flag(
                    true,
                    match dir {
                        TextDirection::Auto => "auto",
                        TextDirection::LeftToRight => "ltr",
                        TextDirection::RightToLeft => "rtl",
                    },
                );
            },
            None => {
                page.direction.alter_flag(false, "");
            },
        }
        page
    }

    pub fn alter_context(&mut self, op: ContextOp) -> (r: &mut Self)
        ensures
            r@ == (PageView { context: old(self)@.context.altered(op@), ..old(self)@ }),
            *final(self) == *final(r),
    {
        self.context.alter(op);
        self
    }

    pub fn with_context(self, op: ContextOp) -> (r: Self)
        ensures
            r@ == (PageView { context: self@.context.altered(op@), ..self@ }),
    {
        let mut p = self;
        p.alter_context(op);
        p
    }

    /// Names the site that the page belongs to.
    pub fn alter_site(&mut self, site: &str) -> (r: &mut Self)
        ensures
            r@ == (PageView { site: site@, ..old(self)@ }),
            *final(self) == *final(r),
    {
        self.site = site.to_owned();
        self
    }

    pub fn with_site(self, site: &str) -> (r: Self)
        ensures
            r@ == (PageView { site: site@, ..self@ }),
    {
        let mut p = self;
        p.alter_site(site);
        p
    }

    pub fn alter_language(&mut self, language: &str) -> (r: &mut Self)
        ensures
            r@ == (PageView { language: non_empty(trimmed(language@)), ..old(self)@ }),
            *final(self) == *final(r),
    {
        self.language.alter_value(language);
        self
    }

    pub fn with_language(self, language: &str) -> (r: Self)
        ensures
            r@ == (PageView { language: non_empty(trimmed(language@)), ..self@ }),
    {
        let mut p = self;
        p.alter_language(language);
        p
    }

    pub fn alter_direction(&mut self, dir: TextDirection) -> (r: &mut Self)
        ensures
            r@ == (PageView {
                direction: non_empty(trimmed(direction_value(dir))),
                ..old(self)@
            }),
            *final(self) == *final(r),
    {
        self.direction.alter_value(
            match dir {
                TextDirection::Auto => "auto",
                TextDirection::LeftToRight => "ltr",
                TextDirection::RightToLeft => "rtl",
            },
        );
        self
    }

    pub fn with_direction(self, dir: TextDirection) -> (r: Self)
        ensures
            r@ == (PageView { direction: non_empty(trimmed(direction_value(dir))), ..self@ }),
    {
        let mut p = self;
        p.alter_direction(dir);
        p
    }

    pub fn alter_title(&mut self, title: &str) -> (r: &mut Self)
        ensures
            r@ == (PageView { title: non_empty(trimmed(title@)), ..old(self)@ }),
            *final(self) == *final(r),
    {
        self.title.alter_value(title);
        self
    }

    pub fn with_title(self, title: &str) -> (r: Self)
        ensures
            r@ == (PageView { title: non_empty(trimmed(title@)), ..self@ }),
    {
        let mut p = self;
        p.alter_title(title);
        p
    }

    pub fn alter_description(&mut self, description: &str) -> (r: &mut Self)
        ensures
            r@ == (PageView { description: non_empty(trimmed(description@)), ..old(self)@ }),
            *final(self) == *final(r),
    {
        self.description.alter_value(description);
        self
    }

    pub fn with_description(self, description: &str) -> (r: Self)
        ensures
            r@ == (PageView { description: non_empty(trimmed(description@)), ..self@ }),
    {
        let mut p = self;
        p.alter_description(description);
        p
    }

    pub fn alter_favicon(&mut self, favicon: Option<Favicon>) -> (r: &mut Self)
        ensures
            r@ == (PageView {
                favicon: match favicon {
                    Some(f) => Some(f@),
                    None => None,
                },
                ..old(self)@
            }),
            *final(self) == *final(r),
    {
        self.favicon = favicon;
        self
    }

    pub fn with_favicon(self, favicon: Option<Favicon>) -> (r: Self)
        ensures
            r@ == (PageView {
                favicon: match favicon {
                    Some(f) => Some(f@),
                    None => None,
                },
                ..self@
            }),
    {
        let mut p = self;
        p.alter_favicon(favicon);
        p
    }

    pub fn alter_body_classes(&mut self, op: ClassesOp, classes: &str) -> (r: &mut Self)
        ensures
            r@ == (PageView {
                body_classes: old(self)@.body_classes.altered(op@, classes@),
                ..old(self)@
            }),
            *final(self) == *final(r),
    {
        self.body_classes.alter_value(op, classes);
        self
    }

    pub fn with_body_classes(self, op: ClassesOp, classes: &str) -> (r: Self)
        ensures
            r@ == (PageView {
                body_classes: self@.body_classes.altered(op@, classes@),
                ..self@
            }),
    {
        let mut p = self;
        p.alter_body_classes(op, classes);
        p
    }

    pub fn alter_template(&mut self, template: &str) -> (r: &mut Self)
        ensures
            r@ == (PageView { template: template@, ..old(self)@ }),
            *final(self) == *final(r),
    {
        self.template = template.to_owned();
        self
    }

    pub fn using_template(self, template: &str) -> (r: Self)
        ensures
            r@ == (PageView { template: template@, ..self@ }),
    {
        let mut p = self;
        p.alter_template(template);
        p
    }

    fn find_region(&self, region: &str) -> (i: usize)
        ensures
            i == position(region_names(self@.regions), region@),
            i <= self@.regions.len(),
            i <= self.regions@.len(),
    {
        let name = region.to_owned();
        let mut i: usize = 0;
        while i < self.regions.len() && !(self.regions[i].name == name)
            invariant
                i <= self.regions@.len(),
                name@ == region@,
                forall|k: int| 0 <= k < i ==> region_names(self@.regions)[k] != region@,
            decreases self.regions@.len() - i,
        {
            i = i + 1;
        }
        proof {
            lemma_position(region_names(self@.regions), region@);
            if i < self.regions@.len() {
                assert(region_names(self@.regions)[i as int] == region@);
            }
        }
        i
    }

    /// Puts `component` at the end of the region `region`.
    pub fn alter_component(&mut self, region: &'static str, component: AnyComponent) -> (r:
        &mut Self)
        ensures
            r@ == old(self)@.with_component(region@, component@),
            *final(self) == *final(r),
    {
        let i = self.find_region(region);
        let ghost before = self@;
        if i < self.regions.len() {
            self.regions[i].components.add(component);
            assert(region_views(self.regions@) == before.regions.update(
                i as int,
                RegionView {
                    components: before.regions[i as int].components.push(component@),
                    ..before.regions[i as int]
                },
            ));
        } else {
            let r = Region {
                name: region.to_owned(),
                components: ComponentsBundle::new_with(component),
            };
            assert(region_views(self.regions@.push(r)) == before.regions.push(
                RegionView { name: region@, components: seq![component@] },
            ));
            self.regions.push(r);
        }
        self
    }

    /// Puts `component` at the end of the region `region`.
    pub fn add_to(self, region: &'static str, component: AnyComponent) -> (r: Self)
        ensures
            r@ == self@.with_component(region@, component@),
    {
        let mut p = self;
        p.alter_component(region, component);
        p
    }

    /// The context of the page, to read and to change.
    pub fn context(&mut self) -> (cx: &mut Context)
        ensures
            cx@ == old(self)@.context,
            final(self)@ == (PageView { context: final(cx)@, ..old(self)@ }),
    {
        &mut self.context
    }

    pub fn site(&self) -> (r: &str)
        ensures
            r@ == self@.site,
    {
        self.site.as_str()
    }

    pub fn language(&self) -> (r: &OptionString)
        ensures
            r@ == self@.language,
    {
        &self.language
    }

    pub fn direction(&self) -> (r: &OptionString)
        ensures
            r@ == self@.direction,
    {
        &self.direction
    }

    pub fn title(&self) -> (r: &OptionString)
        ensures
            r@ == self@.title,
    {
        &self.title
    }

    pub fn description(&self) -> (r: &OptionString)
        ensures
            r@ == self@.description,
    {
        &self.description
    }

    pub fn favicon(&self) -> (r: &Option<Favicon>)
        ensures
            match *r {
                Some(f) => self@.favicon == Some(f@),
                None => self@.favicon is None,
            },
    {
        &self.favicon
    }

    pub fn body_classes(&self) -> (r: &Classes)
        ensures
            r@ == self@.body_classes,
    {
        &self.body_classes
    }

    pub fn template(&self) -> (r: &str)
        ensures
            r@ == self@.template,
    {
        self.template.as_str()
    }

    /// Renders the components of the region `region` in the order of their weights.
    pub fn render_region<T: ThemeTrait + ?Sized>(
        &mut self,
        region: &str,
        theme: &T,
        actions: &ActionsRegistry,
    ) -> (m: Markup)
        ensures
            (m@, final(self)@) == old(self)@.region_rendered(theme, actions, region@),
    {
        let i = self.find_region(region);
        let ghost before = self@;
        if i < self.regions.len() {
            let m = self.regions[i].components.render(&mut self.context, theme, actions);
            assert(region_views(self.regions@) == before.regions.update(
                i as int,
                RegionView {
                    components: self.regions@[i as int].components@,
                    ..before.regions[i as int]
                },
            ));
            m
        } else {
            Markup::new()
        }
    }

    /// Renders the page as a document.
    pub fn render<T: ThemeLayout + ?Sized>(&mut self, theme: &T, actions: &ActionsRegistry) -> (m:
        Markup)
        ensures
            (m@, final(self)@) == old(self)@.rendered(theme, actions),
    {
        actions.run_page_actions(ACTION_BEFORE_RENDER_PAGE, self);
        theme.before_render_page(self);
        let body = theme.render_page_body(self, actions);
        actions.run_page_actions(ACTION_AFTER_PREPARE_BODY, self);
        let head = theme.render_page_head(self);
        let lang = self.language.get();
        let dir = self.direction.get();
        let mut m = Markup::raw("<!DOCTYPE html><html");
        m.push_opt_attr("lang", &lang);
        m.push_opt_attr("dir", &dir);
        m.push_raw(">");
        m.push(&head);
        m.push(&body);
        m.push_raw("</html>");
        m
    }
}

/// Prepares the page as a theme without ideas of its own does.
pub fn before_render_page(page: &mut Page)
    ensures
        final(page)@ == old(page)@.default_prepared(),
{
    if page.favicon.is_none() {
        page.alter_favicon(Some(Favicon::new().with_icon("/theme/favicon.ico")));
    }
}

/// Renders the head of the page as a theme without ideas of its own does.
pub fn render_page_head(page: &Page) -> (m: Markup)
    ensures
        m@ == page@.default_head(),
{
    let title = page.title.get();
    let description = page.description.get();
    let mut m = Markup::raw("<head><meta charset=\"utf-8\"><title>");
    m.push_text(page.site.as_str());
    match &title {
        Some(t) => {
            m.push_raw(" | ");
            m.push_text(t.as_str());
        },
        None => {},
    }
    assert(m@ == "<head><meta charset=\"utf-8\"><title>"@ + page@.document_title());
    m.push_raw("</title>");
    match &description {
        Some(d) => {
            let ghost before = m@;
            m.push_raw("<meta name=\"description\"");
            m.push_attr("content", d.as_str());
            m.push_raw(">");
            assert(m@ == before + ("<meta name=\"description\""@ + attr("content"@, d@) + ">"@));
        },
        None => {
            assert(m@ + Seq::<char>::empty() == m@);
        },
    }
    m.push_raw(
        "<meta name=\"viewport\" content=\"width=device-width, initial-scale=1, shrink-to-fit=no\">",
    );
    m.push_raw("<meta http-equiv=\"X-UA-Compatible\" content=\"IE=edge\">");
    match &page.favicon {
        Some(f) => {
            let icon = f.render();
            m.push(&icon);
        },
        None => {
            assert(m@ + Seq::<char>::empty() == m@);
        },
    }
    let assets = page.context.render();
    m.push(&assets);
    m.push_raw("</head>");
    m
}

/// Renders the body of the page as a theme without ideas of its own does.
pub fn render_page_body<T: ThemeTrait + ?Sized>(
    page: &mut Page,
    theme: &T,
    actions: &ActionsRegistry,
) -> (m: Markup)
    ensures
        (m@, final(page)@) == old(page)@.default_body(theme, actions),
{
    let ghost start = page@;
    let classes = page.body_classes.get();
    let mut names: Vec<&'static str> = Vec::new();
    if page.template.as_str().to_owned() == "admin".to_owned() {
        names.push("top-menu");
        names.push("side-menu");
    }
    names.push("region-content");
    let ghost wanted = body_regions(start.template);
    assert(names@.map_values(|n: &'static str| n@) == wanted);
    let mut m = Markup::raw("<body");
    m.push_opt_attr("class", &classes);
    m.push_raw(">");
    let ghost open = m@;
    let mut k: usize = 0;
    while k < names.len()
        invariant
            k <= names@.len(),
            names@.map_values(|n: &'static str| n@) == wanted,
            ({
                let r = start.regions_rendered(theme, actions, wanted, k as int);
                m@ == open + r.0 && page@ == r.1
            }),
        decreases names@.len() - k,
    {
        let ghost sofar = start.regions_rendered(theme, actions, wanted, k as int);
        assert(wanted[k as int] == names@[k as int]@);
        let content = page.render_region(names[k], theme, actions);
        if !content.is_empty() {
            let ghost before = m@;
            m.push_raw("<div");
            m.push_attr("id", names[k]);
            m.push_raw(">");
            m.push(&content);
            m.push_raw("</div>");
            assert(m@ == before + region_block(wanted[k as int], content@));
        } else {
            assert(m@ + Seq::<char>::empty() == m@);
        }
        assert(m@ == open + (sofar.0 + region_block(wanted[k as int], content@)));
        k = k + 1;
    }
    m.push_raw("</body>");
    m
}

/// A page has no two regions of one name: a component that is added goes
/// to the region of its name, or to a new region if there is none.
pub proof fn lemma_regions_stay_distinct(page: PageView, region: Seq<char>, c: ComponentView)
    requires
        region_names(page.regions).no_duplicates(),
    ensures
        region_names(page.with_component(region, c).regions).no_duplicates(),
        region_names(page.with_component(region, c).regions).contains(region),
{
    let names = region_names(page.regions);
    let after = region_names(page.with_component(region, c).regions);
    let i = position(names, region);
    lemma_position(names, region);
    if 0 <= i < page.regions.len() {
        assert(after =~= names);
        assert(names[i] == region);
    } else {
        assert(after =~= names.push(region));
        assert(after[names.len() as int] == region);
        assert forall|a: int, b: int| 0 <= a < after.len() && 0 <= b < after.len() && a
            != b implies after[a] != after[b] by {
            if a < names.len() && b < names.len() {
                assert(names[a] != names[b]);
            } else if a < names.len() {
                assert(names.contains(names[a]));
            } else {
                assert(names.contains(names[b]));
            }
        }
    }
}

} // verus!
