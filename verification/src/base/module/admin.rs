//! The administration module.

use crate::action::{
    action_views, Action, ActionBeforeRenderComponent, ActionBeforeRenderPage, ActionView,
    ComponentActionView, ComponentChange, ComponentChangeView, PageActionView, PageChange,
    PageChangeView,
};
use crate::component::{AnyComponent, COMPONENT_MEGAMENU};
use crate::handle::Handle;
use crate::html::classes::{ClassesOp, ClassesOpView};
use crate::base::component::L10n;
use crate::module::{name_from_path, ModuleTrait};
use crate::page::{Page, PageView};
use crate::theme::ThemeRef;
use vstd::prelude::*;

verus! {

/// The handle of the administration module.
pub const MODULE_ADMIN: Handle = 0x8000_0000_0000_3102;

/// The administration module.
pub struct Admin;

/// Marks the body of the page as seen by the administration module.
pub fn before_prepare_body(page: &mut Page)
    ensures
        final(page)@ == (PageView {
            body_classes: old(page)@.body_classes.altered(ClassesOpView::Add, "test-admin"@),
            ..old(page)@
        }),
{
    page.alter_body_classes(ClassesOp::Add, "test-admin");
}

/// Gives the menu that the administration module looks for a new identifier.
pub fn before_prepare_menu(component: &mut AnyComponent)
    ensures
        final(component)@ == old(component)@.changed(
            ComponentChangeView::Id("admin-menu-test-altered"@),
        ),
{
    component.apply(&ComponentChange::Id("admin-menu-test-altered".to_owned()));
}

impl ModuleTrait for Admin {
    open spec fn spec_handle(&self) -> Handle {
        MODULE_ADMIN
    }

    open spec fn spec_path(&self) -> Seq<char> {
        "pagetop_admin::Admin"@
    }

    fn handle(&self) -> (h: Handle) {
        MODULE_ADMIN
    }

    fn path(&self) -> (p: &'static str) {
        let p = "pagetop_admin::Admin";
        assert(p@ == self.spec_path());
        p
    }

    fn name(&self) -> (name: L10n) {
        name_from_path(self.path())
    }

    fn description(&self) -> (description: L10n) {
        L10n::new()
    }

    fn theme(&self) -> (t: Option<ThemeRef>) {
        None
    }

    fn dependencies(&self) -> (d: Vec<Handle>) {
        Vec::new()
    }

    fn drop_modules(&self) -> (d: Vec<Handle>) {
        Vec::new()
    }

    /// What `before_prepare_body` does, before every page is rendered, and
    /// what `before_prepare_menu` does, before the menu with the
    /// identifier `admin-menu-test` is rendered.
    open spec fn spec_actions(&self) -> Seq<ActionView> {
        seq![
            ActionView::BeforeRenderPage(
                PageActionView {
                    change: Some(PageChangeView::BodyClasses(ClassesOpView::Add, "test-admin"@)),
                    weight: 0,
                },
            ),
            ActionView::BeforeRenderComponent(
                ComponentActionView {
                    change: Some(ComponentChangeView::Id("admin-menu-test-altered"@)),
                    weight: 0,
                    referer_handle: Some(COMPONENT_MEGAMENU),
                    referer_id: Some("admin-menu-test"@),
                },
            ),
        ]
    }

    fn actions(&self) -> (actions: Vec<Action>) {
        let mut actions: Vec<Action> = Vec::new();
        actions.push(
            Action::BeforeRenderPage(
                ActionBeforeRenderPage::with(
                    PageChange::BodyClasses(ClassesOp::Add, "test-admin".to_owned()),
                ),
            ),
        );
        actions.push(
            Action::BeforeRenderComponent(
                ActionBeforeRenderComponent::with(
                    ComponentChange::Id("admin-menu-test-altered".to_owned()),
                ).filter_by_referer_handle(COMPONENT_MEGAMENU).filter_by_referer_id(
                    "admin-menu-test",
                ),
            ),
        );
        assert(action_views(actions@) =~= self.spec_actions());
        actions
    }
}

} // verus!
