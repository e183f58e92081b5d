//! Modules: the units an application is composed of.

pub mod graph;

use crate::action::{
    action_views, bucket_with, lemma_bucket_with_joined, register_all, Action, ActionView,
    ActionsRegistry,
};
use crate::base::component::l10n::{L10n, L10nOpView, L10nView};
use crate::handle::Handle;
use crate::text::chars_of;
use crate::theme::ThemeRef;
use vstd::prelude::*;

verus! {

/// A module, wherever it is defined.
pub type ModuleRef = &'static dyn ModuleTrait;

/// A module, wherever it is defined.
pub type ModuleStaticRef = ModuleRef;

/// Where the last segment of a path starts: behind its last colon.
pub open spec fn segment_start(path: Seq<char>, j: int) -> int
    decreases j,
{
    if 0 < j <= path.len() && path[j - 1] != ':' {
        segment_start(path, j - 1)
    } else {
        j
    }
}

/// The last segment of a path such as `crate::module::Name`.
pub open spec fn last_segment(path: Seq<char>) -> Seq<char> {
    path.subrange(segment_start(path, path.len() as int), path.len() as int)
}

pub proof fn lemma_segment_start(path: Seq<char>, j: int)
    requires
        0 <= j <= path.len(),
    ensures
        0 <= segment_start(path, j) <= j,
    decreases j,
{
    if 0 < j && path[j - 1] != ':' {
        lemma_segment_start(path, j - 1);
    }
}

/// The name of a type without the path that leads to it.
pub fn single_type_name(path: &'static str) -> (name: &'static str)
    ensures
        name@ == last_segment(path@),
{
    let v = chars_of(path);
    let n: usize = v.len();
    let mut j: usize = n;
    while j > 0 && v[j - 1] != ':'
        invariant
            j <= n,
            n == v@.len(),
            segment_start(v@, j as int) == segment_start(v@, n as int),
        decreases j,
    {
        j = j - 1;
    }
    path.substring_char(j, n)
}

/// What every module has without declaring it.
pub trait ModuleBase {
    /// The name of the module's type, without its path.
    fn single_name(&self) -> &'static str;
}

impl<M: ?Sized + ModuleTrait> ModuleBase for M {
    fn single_name(&self) -> (name: &'static str)
        ensures
            name@ == last_segment(self.spec_path()),
    {
        single_type_name(self.path())
    }
}

/// What a module declares about itself.
pub trait ModuleTrait {
    spec fn spec_handle(&self) -> Handle;

    spec fn spec_path(&self) -> Seq<char>;

    /// The handles of the modules that this one needs.
    open spec fn spec_dependencies(&self) -> Seq<Handle> {
        Seq::empty()
    }

    /// The handles of the modules that this one switches off.
    open spec fn spec_drop_modules(&self) -> Seq<Handle> {
        Seq::empty()
    }

    /// Whether the module is a theme.
    open spec fn spec_is_theme(&self) -> bool {
        false
    }

    /// The actions that the module registers.
    open spec fn spec_actions(&self) -> Seq<ActionView> {
        Seq::empty()
    }

    /// The name of the module: the name of its type, unless it gives itself
    /// another.
    open spec fn spec_name(&self) -> L10nView {
        L10nView { op: L10nOpView::Text(last_segment(self.spec_path())), args: Seq::empty() }
    }

    /// The description of the module: none, unless it gives itself one.
    open spec fn spec_description(&self) -> L10nView {
        L10nView::empty()
    }

    fn handle(&self) -> (h: Handle)
        ensures
            h == self.spec_handle(),
    ;

    /// The path of the module's type.
    fn path(&self) -> (p: &'static str)
        ensures
            p@ == self.spec_path(),
    ;

    /// The name of the module.
    fn name(&self) -> (name: L10n)
        ensures
            name@ == self.spec_name(),
    ;

    /// The description of the module.
    fn description(&self) -> (description: L10n)
        ensures
            description@ == self.spec_description(),
    ;

    fn theme(&self) -> (t: Option<ThemeRef>)
        ensures
            t is Some == self.spec_is_theme(),
    ;

    fn dependencies(&self) -> (d: Vec<Handle>)
        ensures
            d@ == self.spec_dependencies(),
    ;

    fn drop_modules(&self) -> (d: Vec<Handle>)
        ensures
            d@ == self.spec_drop_modules(),
    ;

    /// The actions that the module registers.
    fn actions(&self) -> (actions: Vec<Action>)
        ensures
            action_views(actions@) == self.spec_actions(),
    ;

    fn init(&self) {
    }
}

/// The name of a module that gives itself none: the last segment of the
/// path of its type.
pub fn name_from_path(path: &'static str) -> (name: L10n)
    ensures
        name@ == (L10nView { op: L10nOpView::Text(last_segment(path@)), args: Seq::empty() }),
{
    L10n::n(single_type_name(path))
}

/// The actions of a module that registers none.
pub fn no_actions() -> (actions: Vec<Action>)
    ensures
        actions@ == Seq::<Action>::empty(),
        action_views(actions@) == Seq::<ActionView>::empty(),
{
    let actions: Vec<Action> = Vec::new();
    assert(action_views(actions@) == Seq::<ActionView>::empty());
    actions
}

/// What the framework reads of a module when it composes an application.
pub struct ModuleDecl {
    pub handle: Handle,
    pub name: String,
    pub theme: bool,
    pub dependencies: Vec<Handle>,
    pub drop_modules: Vec<Handle>,
    pub actions: Vec<Action>,
}

/// Reads the declaration of a module.
pub fn declare<M: ModuleTrait + ?Sized>(module: &M) -> (decl: ModuleDecl)
    ensures
        decl.handle == module.spec_handle(),
        decl.name@ == last_segment(module.spec_path()),
        decl.theme == module.spec_is_theme(),
        decl.dependencies@ == module.spec_dependencies(),
        decl.drop_modules@ == module.spec_drop_modules(),
        action_views(decl.actions@) == module.spec_actions(),
{
    ModuleDecl {
        handle: module.handle(),
        name: single_type_name(module.path()).to_owned(),
        theme: module.theme().is_some(),
        dependencies: module.dependencies(),
        drop_modules: module.drop_modules(),
        actions: module.actions(),
    }
}

/// The actions that the first `n` of the `enabled` modules offer, in the
/// order of their activation, and which declarations they came from. A
/// module offers its actions once, however often it is named.
pub open spec fn offered(catalog: Seq<ModuleDecl>, enabled: Seq<Handle>, n: int) -> (
    Seq<Action>,
    Set<int>,
)
    decreases n,
{
    if n <= 0 || n > enabled.len() {
        (Seq::empty(), Set::empty())
    } else {
        let sofar = offered(catalog, enabled, n - 1);
        let i = graph::declared(catalog, enabled[n - 1]);
        if 0 <= i < catalog.len() && !sofar.1.contains(i) {
            (sofar.0 + catalog[i].actions@, sofar.1.insert(i))
        } else {
            sofar
        }
    }
}

/// Registers the actions of the enabled modules, module by module in the
/// order of their activation. The actions leave the catalog, so that no
/// module registers its actions twice.
pub fn register_actions(
    registry: &mut ActionsRegistry,
    catalog: &mut Vec<ModuleDecl>,
    enabled: &Vec<Handle>,
)
    ensures
        final(catalog)@.len() == old(catalog)@.len(),
        graph::handles(final(catalog)@) == graph::handles(old(catalog)@),
        forall|i: int|
            0 <= i < old(catalog)@.len() ==> (#[trigger] final(catalog)@[i]).actions@ == if offered(
                old(catalog)@,
                enabled@,
                enabled@.len() as int,
            ).1.contains(i) {
                Seq::<Action>::empty()
            } else {
                old(catalog)@[i].actions@
            },
        forall|h: Handle| #[trigger]
            final(registry).bucket(h) == bucket_with(
                old(registry).bucket(h),
                offered(old(catalog)@, enabled@, enabled@.len() as int).0,
                offered(old(catalog)@, enabled@, enabled@.len() as int).0.len() as int,
                h,
            ),
{
    let mut k: usize = 0;
    while k < enabled.len()
        invariant
            k <= enabled@.len(),
            catalog@.len() == old(catalog)@.len(),
            graph::handles(catalog@) == graph::handles(old(catalog)@),
            forall|i: int|
                0 <= i < catalog@.len() ==> (#[trigger] catalog@[i]).actions@ == if offered(
                    old(catalog)@,
                    enabled@,
                    k as int,
                ).1.contains(i) {
                    Seq::<Action>::empty()
                } else {
                    old(catalog)@[i].actions@
                },
            forall|h: Handle| #[trigger]
                registry.bucket(h) == bucket_with(
                    old(registry).bucket(h),
                    offered(old(catalog)@, enabled@, k as int).0,
                    offered(old(catalog)@, enabled@, k as int).0.len() as int,
                    h,
                ),
        decreases enabled@.len() - k,
    {
        let ghost sofar = offered(old(catalog)@, enabled@, k as int);
        let ghost before = *registry;
        match graph::find_module(catalog, enabled[k]) {
            Some(idx) => {
                let mut taken: Vec<Action> = Vec::new();
                let ghost hs = graph::handles(catalog@);
                let ghost cat = catalog@;
                std::mem::swap(&mut catalog[idx].actions, &mut taken);
                proof {
                    assert(taken@ == cat[idx as int].actions@);
                    assert forall|i: int| 0 <= i < catalog@.len() implies graph::handles(
                        catalog@,
                    )[i] == hs[i] by {
                        if i != idx {
                            assert(catalog@[i] == cat[i]);
                        }
                    }
                    assert(graph::handles(catalog@) == hs);
                    if sofar.1.contains(idx as int) {
                        assert(sofar.0 + taken@ == sofar.0);
                    }
                }
                register_all(registry, taken);
                proof {
                    assert forall|h: Handle| #[trigger]
                        registry.bucket(h) == bucket_with(
                            old(registry).bucket(h),
                            sofar.0 + taken@,
                            (sofar.0 + taken@).len() as int,
                            h,
                        ) by {
                        assert(before.bucket(h) == bucket_with(
                            old(registry).bucket(h),
                            sofar.0,
                            sofar.0.len() as int,
                            h,
                        ));
                        lemma_bucket_with_joined(
                            old(registry).bucket(h),
                            sofar.0,
                            taken@,
                            taken@.len() as int,
                            h,
                        );
                    }
                }
            },
            None => {},
        }
        k = k + 1;
    }
}

} // verus!
