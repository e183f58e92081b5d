//! The module that brings jQuery to the pages that ask for it.

use crate::action::Action;
use crate::context::{Context, ContextOp, ContextOpView};
use crate::handle::Handle;
use crate::html::assets::{AssetView, JavaScript};
use crate::base::component::L10n;
use crate::module::{name_from_path, no_actions, ModuleTrait};
use crate::order::Weight;
use crate::theme::ThemeRef;
use vstd::prelude::*;

verus! {

/// The handle of the jQuery module.
pub const MODULE_JQUERY: Handle = 0x8000_0000_0000_3101;

/// The jQuery module.
pub struct JQuery;

/// The script that loads jQuery.
pub open spec fn jquery_script() -> AssetView {
    AssetView { path: "/jquery/3.6.0/jquery.min.js"@, weight: (-999) as Weight }
}

impl JQuery {
    /// Makes the page load jQuery, before everything that may need it.
    pub fn add_jquery(cx: &mut Context)
        ensures
            final(cx)@ == old(cx)@.altered(ContextOpView::AddJavaScript(jquery_script())),
    {
        cx.alter(
            ContextOp::AddJavaScript(
                JavaScript::at("/jquery/3.6.0/jquery.min.js").with_weight(-999),
            ),
        );
    }
}

impl ModuleTrait for JQuery {
    open spec fn spec_handle(&self) -> Handle {
        MODULE_JQUERY
    }

    open spec fn spec_path(&self) -> Seq<char> {
        "pagetop_jquery::JQuery"@
    }

    fn handle(&self) -> (h: Handle) {
        MODULE_JQUERY
    }

    fn path(&self) -> (p: &'static str) {
        let p = "pagetop_jquery::JQuery";
        assert(p@ == self.spec_path());
        p
    }

    fn name(&self) -> (name: L10n) {
        name_from_path(self.path())
    }

    fn description(&self) -> (description: L10n) {
        L10n::new()
    }

    fn theme(&self) -> (t: Option<ThemeRef>) {
        None
    }

    fn dependencies(&self) -> (d: Vec<Handle>) {
        Vec::new()
    }

    fn drop_modules(&self) -> (d: Vec<Handle>) {
        Vec::new()
    }

    fn actions(&self) -> (actions: Vec<Action>) {
        no_actions()
    }
}

} // verus!
