//! The module for nodes of content.

use crate::action::{
    action_views, Action, ActionBeforeRenderPage, ActionView, PageActionView, PageChange,
    PageChangeView,
};
use crate::handle::Handle;
use crate::html::classes::{ClassesOp, ClassesOpView};
use crate::base::component::L10n;
use crate::module::{name_from_path, ModuleTrait};
use crate::order::Weight;
use crate::page::{Page, PageView};
use crate::theme::ThemeRef;
use vstd::prelude::*;

verus! {

/// The handle of the node module.
pub const MODULE_NODE: Handle = 0x8000_0000_0000_3103;

/// The node module.
pub struct Node;

/// Marks the body of the page as seen by the node module.
pub fn before_render_page(page: &mut Page)
    ensures
        final(page)@ == (PageView {
            body_classes: old(page)@.body_classes.altered(ClassesOpView::Add, "test-node"@),
            ..old(page)@
        }),
{
    page.alter_body_classes(ClassesOp::Add, "test-node");
}

impl ModuleTrait for Node {
    open spec fn spec_handle(&self) -> Handle {
        MODULE_NODE
    }

    open spec fn spec_path(&self) -> Seq<char> {
        "pagetop_node::Node"@
    }

    fn handle(&self) -> (h: Handle) {
        MODULE_NODE
    }

    fn path(&self) -> (p: &'static str) {
        let p = "pagetop_node::Node";
        assert(p@ == self.spec_path());
        p
    }

    fn name(&self) -> (name: L10n) {
        name_from_path(self.path())
    }

    fn description(&self) -> (description: L10n) {
        L10n::new()
    }

    fn theme(&self) -> (t: Option<ThemeRef>) {
        None
    }

    fn dependencies(&self) -> (d: Vec<Handle>) {
        Vec::new()
    }

    fn drop_modules(&self) -> (d: Vec<Handle>) {
        Vec::new()
    }

    /// What `before_render_page` does, with weight -1.
    open spec fn spec_actions(&self) -> Seq<ActionView> {
        seq![
            ActionView::BeforeRenderPage(
                PageActionView {
                    change: Some(PageChangeView::BodyClasses(ClassesOpView::Add, "test-node"@)),
                    weight: (-1) as Weight,
                },
            ),
        ]
    }

    fn actions(&self) -> (actions: Vec<Action>) {
        let mut actions: Vec<Action> = Vec::new();
        actions.push(
            Action::BeforeRenderPage(
                ActionBeforeRenderPage::with(
                    PageChange::BodyClasses(ClassesOp::Add, "test-node".to_owned()),
                ).with_weight(-1),
            ),
        );
        assert(action_views(actions@) =~= self.spec_actions());
        actions
    }
}

} // verus!
