//! The module that serves a book of documentation.

use crate::action::Action;
use crate::handle::Handle;
use crate::base::component::L10n;
use crate::module::{name_from_path, no_actions, ModuleTrait};
use crate::theme::ThemeRef;
use crate::base::component::container::{Container, ContainerView};
use crate::base::component::html::{Html, HtmlView};
use crate::component::{lemma_view_of_kind, AnyComponent, ComponentTrait, ComponentView};
use crate::page::{Page, PageView};
use crate::context::{ContextOp, ContextOpView, ContextView};
use crate::html::assets::{AssetView, StyleSheet};
use crate::html::markup::{opt_view, Markup};
use crate::html::opt_id::{identifier, non_empty};
use crate::text::{chars_of, hexadecimal, lemma_trimmed_already, push_hex, string_of};
use vstd::prelude::*;

verus! {

/// The handle of the documentation module.
pub const MODULE_MDBOOK: Handle = 0x8000_0000_0000_3104;

/// The documentation module.
pub struct MdBook;

/// The tag of a version of a resource.
pub struct EntityTag {
    /// Whether the tag tells versions apart only by what they mean.
    pub weak: bool,
    pub tag: String,
}

/// What a request says about the versions that it knows: any version, or
/// the versions with these tags.
pub enum Matching {
    Any,
    Items(Vec<EntityTag>),
}

/// What becomes of a request for a resource of the book.
#[derive(Clone, Copy, Debug, PartialEq, Eq, Structural)]
pub enum ResourceStatus {
    /// The resource is sent.
    Found,
    /// The request is for a version that the book does not have.
    PreconditionFailed,
    /// The request has the version that the book has.
    NotModified,
}

/// Whether two tags are the same by strong comparison: neither is weak,
/// and they are made of the same characters.
pub open spec fn strong_eq(a: EntityTag, b: EntityTag) -> bool {
    !a.weak && !b.weak && a.tag@ == b.tag@
}

/// Whether two tags are the same by weak comparison: they are made of the
/// same characters.
pub open spec fn weak_eq(a: EntityTag, b: EntityTag) -> bool {
    a.tag@ == b.tag@
}

/// Whether one of `items` is the same as `e` by strong comparison.
pub open spec fn has_strong(items: Seq<EntityTag>, e: EntityTag) -> bool {
    exists|i: int| 0 <= i < items.len() && strong_eq(#[trigger] items[i], e)
}

/// Whether one of `items` is the same as `e` by weak comparison.
pub open spec fn has_weak(items: Seq<EntityTag>, e: EntityTag) -> bool {
    exists|i: int| 0 <= i < items.len() && weak_eq(#[trigger] items[i], e)
}

/// Whether the version with the tag `etag` is one that `header` asks for:
/// a request that names no version asks for any.
pub open spec fn any_matches(etag: Option<EntityTag>, header: Option<Matching>) -> bool {
    match header {
        None => true,
        Some(Matching::Any) => true,
        Some(Matching::Items(items)) => match etag {
            Some(e) => has_strong(items@, e),
            None => false,
        },
    }
}

/// Whether the version with the tag `etag` is none of those that `header` names.
pub open spec fn none_matches(etag: Option<EntityTag>, header: Option<Matching>) -> bool {
    match header {
        None => true,
        Some(Matching::Any) => false,
        Some(Matching::Items(items)) => match etag {
            Some(e) => !has_weak(items@, e),
            None => true,
        },
    }
}

/// What becomes of a request with the headers `if_match` and
/// `if_none_match` for the version with the tag `etag`.
pub open spec fn status_for(
    etag: Option<EntityTag>,
    if_match: Option<Matching>,
    if_none_match: Option<Matching>,
) -> ResourceStatus {
    if !any_matches(etag, if_match) {
        ResourceStatus::PreconditionFailed
    } else if !none_matches(etag, if_none_match) {
        ResourceStatus::NotModified
    } else {
        ResourceStatus::Found
    }
}

impl EntityTag {
    /// The strong tag for a resource of `len` bytes that was last changed
    /// at `modified`: both numbers in base sixteen, with a colon between them.
    pub fn for_resource(len: usize, modified: u64) -> (r: Self)
        ensures
            !r.weak,
            r.tag@ == hexadecimal(len as nat) + ":"@ + hexadecimal(modified as nat),
    {
        let mut tag = String::new();
        push_hex(&mut tag, len as u64);
        tag.append(":");
        push_hex(&mut tag, modified);
        assert(tag@ == hexadecimal(len as nat) + ":"@ + hexadecimal(modified as nat)) by {
            assert(Seq::<char>::empty() + hexadecimal(len as nat) == hexadecimal(len as nat));
        }
        EntityTag { weak: false, tag }
    }

    pub fn strong_eq(&self, other: &EntityTag) -> (b: bool)
        ensures
            b == strong_eq(*self, *other),
    {
        !self.weak && !other.weak && self.tag == other.tag
    }

    pub fn weak_eq(&self, other: &EntityTag) -> (b: bool)
        ensures
            b == weak_eq(*self, *other),
    {
        self.tag == other.tag
    }
}

/// Whether the request has no header `If-Match`, or one that matches `etag`.
pub fn any_match(etag: &Option<EntityTag>, header: &Option<Matching>) -> (b: bool)
    ensures
        b == any_matches(*etag, *header),
{
    match header {
        None => true,
        Some(Matching::Any) => true,
        Some(Matching::Items(items)) => {
            match etag {
                Some(e) => {
                    let mut i: usize = 0;
                    while i < items.len()
                        invariant
                            i <= items@.len(),
                            *etag == Some(*e),
                            *header == Some(Matching::Items(*items)),
                            forall|k: int| 0 <= k < i ==> !strong_eq(#[trigger] items@[k], *e),
                        decreases items@.len() - i,
                    {
                        if items[i].strong_eq(e) {
                            assert(strong_eq(items@[i as int], *e));
                            return true;
                        }
                        i = i + 1;
                    }
                    false
                },
                None => false,
            }
        },
    }
}

/// Whether the request has no header `If-None-Match` that matches `etag`.
pub fn none_match(etag: &Option<EntityTag>, header: &Option<Matching>) -> (b: bool)
    ensures
        b == none_matches(*etag, *header),
{
    match header {
        None => true,
        Some(Matching::Any) => false,
        Some(Matching::Items(items)) => {
            match etag {
                Some(e) => {
                    let mut i: usize = 0;
                    while i < items.len()
                        invariant
                            i <= items@.len(),
                            *etag == Some(*e),
                            *header == Some(Matching::Items(*items)),
                            forall|k: int| 0 <= k < i ==> !weak_eq(#[trigger] items@[k], *e),
                        decreases items@.len() - i,
                    {
                        if items[i].weak_eq(e) {
                            assert(weak_eq(items@[i as int], *e));
                            return false;
                        }
                        i = i + 1;
                    }
                    true
                },
                None => true,
            }
        },
    }
}

/// Decides what becomes of a request for a resource of the book.
pub fn resource_status(
    etag: &Option<EntityTag>,
    if_match: &Option<Matching>,
    if_none_match: &Option<Matching>,
) -> (r: ResourceStatus)
    ensures
        r == status_for(*etag, *if_match, *if_none_match),
{
    let precondition_failed = !any_match(etag, if_match);
    let not_modified = !none_match(etag, if_none_match);
    if precondition_failed {
        ResourceStatus::PreconditionFailed
    } else if not_modified {
        ResourceStatus::NotModified
    } else {
        ResourceStatus::Found
    }
}

/// The path of a resource of the book: what follows the first five
/// characters, `/doc/`, of the path of a request. None if the path is shorter.
pub open spec fn book_path(request: Seq<char>) -> Option<Seq<char>> {
    if request.len() >= 5 {
        Some(request.subrange(5, request.len() as int))
    } else {
        None
    }
}

/// The path of a resource of the book.
pub fn resource_path(request: &str) -> (r: Option<String>)
    ensures
        opt_view(r) == book_path(request@),
{
    let v = chars_of(request);
    if v.len() >= 5 {
        Some(string_of(&v, 5, v.len()))
    } else {
        None
    }
}

/// The style sheets of a page of the book, in the order in which they are asked for.
pub open spec fn book_styles() -> Seq<Seq<char>> {
    seq![
        "/doc/css/variables.css"@,
        "/doc/css/general.css"@,
        "/doc/css/chrome.css"@,
        "/doc/css/print.css"@,
        "/doc/FontAwesome/css/font-awesome.css"@,
        "/doc/fonts/fonts.css"@,
        "/doc/highlight.css"@,
        "/doc/tomorrow-night.css"@,
        "/doc/ayu-highlight.css"@,
    ]
}

/// The context with the first `n` style sheets of the book.
pub open spec fn with_book_styles(cx: ContextView, n: int) -> ContextView
    decreases n,
{
    if n <= 0 || n > book_styles().len() {
        cx
    } else {
        with_book_styles(cx, n - 1).altered(
            ContextOpView::AddStyleSheet(AssetView { path: book_styles()[n - 1], weight: 0 }),
        )
    }
}

/// The page that shows the markup `html` of a page of the book.
pub open spec fn book_page(html: Seq<char>) -> PageView {
    let start = PageView::initial();
    (PageView {
        title: Some("Documentaci\u{f3}n"@),
        context: with_book_styles(
            start.context.altered(ContextOpView::AddMetadata("theme-color"@, "#ffffff"@)),
            9,
        ),
        ..start
    }).with_component(
        "region-content"@,
        ComponentView::Container(
            ContainerView {
                id: non_empty(identifier("mdbook"@)),
                components: seq![ComponentView::Html(HtmlView { html: html })],
                ..ContainerView::initial()
            },
        ),
    )
}

impl MdBook {
    /// The page that shows the markup `html` of a page of the book.
    pub fn page(html: &str) -> (r: Page)
        ensures
            r@ == book_page(html@),
    {
        let mut page = Page::new();
        page.alter_title("Documentaci\u{f3}n");
        proof {
            reveal_strlit("Documentaci\u{f3}n");
            lemma_trimmed_already("Documentaci\u{f3}n"@);
        }
        page.alter_context(
            ContextOp::AddMetadata("theme-color".to_owned(), "#ffffff".to_owned()),
        );
        let mut styles: Vec<&'static str> = Vec::new();
        styles.push("/doc/css/variables.css");
        styles.push("/doc/css/general.css");
        styles.push("/doc/css/chrome.css");
        styles.push("/doc/css/print.css");
        styles.push("/doc/FontAwesome/css/font-awesome.css");
        styles.push("/doc/fonts/fonts.css");
        styles.push("/doc/highlight.css");
        styles.push("/doc/tomorrow-night.css");
        styles.push("/doc/ayu-highlight.css");
        assert(styles@.map_values(|s: &'static str| s@) == book_styles());
        let ghost base = page@;
        let mut i: usize = 0;
        while i < styles.len()
            invariant
                i <= styles@.len(),
                styles@.map_values(|s: &'static str| s@) == book_styles(),
                page@ == (PageView { context: with_book_styles(base.context, i as int), ..base }),
            decreases styles@.len() - i,
        {
            assert(book_styles()[i as int] == styles@[i as int]@);
            page.alter_context(ContextOp::AddStyleSheet(StyleSheet::at(styles[i])));
            i = i + 1;
        }
        let content = AnyComponent::Html(Html::with(Markup::raw(html)));
        proof {
            lemma_view_of_kind(content);
        }
        let any = AnyComponent::Container(
            <Container as ComponentTrait>::new().with_id("mdbook").with_component(content),
        );
        proof {
            lemma_view_of_kind(any);
        }
        page.alter_component("region-content", any);
        page
    }
}

impl ModuleTrait for MdBook {
    open spec fn spec_handle(&self) -> Handle {
        MODULE_MDBOOK
    }

    open spec fn spec_path(&self) -> Seq<char> {
        "website::mdbook::MdBook"@
    }

    fn handle(&self) -> (h: Handle) {
        MODULE_MDBOOK
    }

    fn path(&self) -> (p: &'static str) {
        let p = "website::mdbook::MdBook";
        assert(p@ == self.spec_path());
        p
    }

    fn name(&self) -> (name: L10n) {
        name_from_path(self.path())
    }

    fn description(&self) -> (description: L10n) {
        L10n::new()
    }

    fn theme(&self) -> (t: Option<ThemeRef>) {
        None
    }

    fn dependencies(&self) -> (d: Vec<Handle>) {
        Vec::new()
    }

    fn drop_modules(&self) -> (d: Vec<Handle>) {
        Vec::new()
    }

    fn actions(&self) -> (actions: Vec<Action>) {
        no_actions()
    }
}

} // verus!
