//! Activation: from the modules an application declares to the list of those
//! that are enabled, each behind the ones it depends on.

use crate::handle::{lemma_position, position, Handle};
use crate::module::ModuleDecl;
use crate::text::{decimal, push_decimal};
use vstd::prelude::*;

verus! {

/// The handle of the theme that is always enabled, and enabled first.
pub const THEME_BASIC: Handle = 0x8000_0000_0000_3001;

/// Why an application cannot be composed.
#[derive(Clone, Copy, Debug, PartialEq, Eq, Structural)]
pub enum ActivationError {
    /// A module that is needed is not among the declared modules.
    Unknown(Handle),
    /// A module that is needed is switched off by a module that is needed.
    Dropped(Handle),
}

/// How a module is called in a message: by its name, or by its handle if it
/// is not declared.
pub open spec fn module_label(catalog: Seq<ModuleDecl>, h: Handle) -> Seq<char> {
    if 0 <= declared(catalog, h) < catalog.len() {
        catalog[declared(catalog, h)].name@
    } else {
        decimal(h as nat)
    }
}

/// The message for an error.
pub open spec fn error_message(catalog: Seq<ModuleDecl>, e: ActivationError) -> Seq<char> {
    match e {
        ActivationError::Unknown(h) => "Trying to enable \""@ + module_label(catalog, h)
            + "\" module which is not declared"@,
        ActivationError::Dropped(h) => "Trying to enable \""@ + module_label(catalog, h)
            + "\" module which is dropped"@,
    }
}

impl ActivationError {
    /// The module that the error is about.
    pub open spec fn spec_module(&self) -> Handle {
        match *self {
            ActivationError::Unknown(x) => x,
            ActivationError::Dropped(x) => x,
        }
    }

    /// The module that the error is about.
    pub fn module(&self) -> (h: Handle)
        ensures
            h == self.spec_module(),
    {
        match self {
            ActivationError::Unknown(x) => *x,
            ActivationError::Dropped(x) => *x,
        }
    }

    /// The message that names the module that the error is about.
    pub fn message(&self, catalog: &Vec<ModuleDecl>) -> (m: String)
        ensures
            m@ == error_message(catalog@, *self),
    {
        let h = self.module();
        let mut m = "Trying to enable \"".to_owned();
        proof {
            lemma_position(handles(catalog@), h);
        }
        match find_module(catalog, h) {
            Some(idx) => {
                m.append(catalog[idx].name.as_str());
            },
            None => {
                push_decimal(&mut m, h);
            },
        }
        match self {
            ActivationError::Unknown(_) => {
                m.append("\" module which is not declared");
            },
            ActivationError::Dropped(_) => {
                m.append("\" module which is dropped");
            },
        }
        m
    }
}

/// The modules that are enabled, in the order of their activation, the
/// modules that they switch off, and the themes among the enabled modules.
#[derive(Debug)]
pub struct Activation {
    pub enabled: Vec<Handle>,
    pub dropped: Vec<Handle>,
    pub themes: Vec<Handle>,
}

/// The handles of the declared modules.
pub open spec fn handles(catalog: Seq<ModuleDecl>) -> Seq<Handle> {
    catalog.map_values(|m: ModuleDecl| m.handle)
}

/// Where `h` is declared: the index of the first declaration with this
/// handle, or the length of the catalog if there is none.
pub open spec fn declared(catalog: Seq<ModuleDecl>, h: Handle) -> int {
    position(handles(catalog), h)
}

/// Whether `h` can be enabled at all: it is declared, or it is the basic theme.
pub open spec fn known(catalog: Seq<ModuleDecl>, h: Handle) -> bool {
    declared(catalog, h) < catalog.len() || h == THEME_BASIC
}

/// The modules that `h` depends on. The basic theme depends on nothing,
/// whatever is declared under its handle.
pub open spec fn deps_of(catalog: Seq<ModuleDecl>, h: Handle) -> Seq<Handle> {
    if h != THEME_BASIC && 0 <= declared(catalog, h) < catalog.len() {
        catalog[declared(catalog, h)].dependencies@
    } else {
        Seq::empty()
    }
}

/// The modules that `h` switches off. The basic theme switches nothing off.
pub open spec fn drops_of(catalog: Seq<ModuleDecl>, h: Handle) -> Seq<Handle> {
    if h != THEME_BASIC && 0 <= declared(catalog, h) < catalog.len() {
        catalog[declared(catalog, h)].drop_modules@
    } else {
        Seq::empty()
    }
}

/// Whether `h` is a theme.
pub open spec fn is_theme(catalog: Seq<ModuleDecl>, h: Handle) -> bool {
    h == THEME_BASIC || (0 <= declared(catalog, h) < catalog.len() && catalog[declared(
        catalog,
        h,
    )].theme)
}

/// Whether `s` holds, with every module, the modules it depends on.
pub open spec fn closed_under_deps(catalog: Seq<ModuleDecl>, s: Set<Handle>) -> bool {
    forall|x: Handle, d: Handle|
        s.contains(x) && #[trigger] deps_of(catalog, x).contains(d) ==> s.contains(d)
}

/// Whether the application `app` needs `h`: every set of modules that holds
/// the basic theme and `app`, and with every module its dependencies, holds `h`.
pub open spec fn required(catalog: Seq<ModuleDecl>, app: Handle, h: Handle) -> bool {
    forall|s: Set<Handle>|
        #[trigger] closed_under_deps(catalog, s) && s.contains(THEME_BASIC) && s.contains(app)
            ==> s.contains(h)
}

/// Whether one of the modules in `order` switches `x` off.
pub open spec fn dropped_by(catalog: Seq<ModuleDecl>, order: Seq<Handle>, x: Handle) -> bool {
    exists|i: int| 0 <= i < order.len() && #[trigger] drops_of(catalog, order[i]).contains(x)
}

/// Whether the application can be composed: every module it needs is known,
/// and none of them is switched off by another.
pub open spec fn composable(catalog: Seq<ModuleDecl>, app: Handle) -> bool {
    &&& forall|h: Handle| #[trigger] required(catalog, app, h) ==> known(catalog, h)
    &&& forall|g: Handle, h: Handle|
        required(catalog, app, g) && #[trigger] drops_of(catalog, g).contains(h) ==> !required(
            catalog,
            app,
            h,
        )
}

/// Whether `rank` falls along every dependency of the modules in `nodes`.
pub open spec fn ranked(
    catalog: Seq<ModuleDecl>,
    rank: spec_fn(Handle) -> nat,
    nodes: Seq<Handle>,
) -> bool {
    forall|x: Handle, d: Handle|
        nodes.contains(x) && #[trigger] deps_of(catalog, x).contains(d) ==> rank(d) < rank(x)
}

/// Whether the dependencies of the modules in `nodes` have no cycle.
pub open spec fn acyclic(catalog: Seq<ModuleDecl>, nodes: Seq<Handle>) -> bool {
    exists|rank: spec_fn(Handle) -> nat| #[trigger] ranked(catalog, rank, nodes)
}

/// Whether every module in `order` stands behind the modules it depends on.
pub open spec fn respects(catalog: Seq<ModuleDecl>, order: Seq<Handle>) -> bool {
    forall|i: int, d: Handle|
        0 <= i < order.len() && #[trigger] deps_of(catalog, order[i]).contains(d) ==> position(
            order,
            d,
        ) < i
}

/// The themes among the first `n` modules of `order`.
pub open spec fn themes_of(catalog: Seq<ModuleDecl>, order: Seq<Handle>, n: int) -> Seq<Handle>
    decreases n,
{
    if n <= 0 || n > order.len() {
        Seq::empty()
    } else if is_theme(catalog, order[n - 1]) {
        themes_of(catalog, order, n - 1).push(order[n - 1])
    } else {
        themes_of(catalog, order, n - 1)
    }
}

/// Whether `enabled` is the activation of `app`: the basic theme first, then
/// what `app` needs and nothing else, each module once; behind its
/// dependencies wherever the dependencies have no cycle.
pub open spec fn is_activation(catalog: Seq<ModuleDecl>, app: Handle, enabled: Seq<Handle>)
    -> bool {
    &&& enabled.len() > 0
    &&& enabled[0] == THEME_BASIC
    &&& enabled.no_duplicates()
    &&& forall|h: Handle| #[trigger] enabled.contains(h) <==> required(catalog, app, h)
    &&& forall|h: Handle| #[trigger] enabled.contains(h) ==> known(catalog, h)
    &&& forall|rank: spec_fn(Handle) -> nat| #[trigger]
        ranked(catalog, rank, enabled) ==> respects(catalog, enabled)
}

impl Activation {
    /// Whether this is what composing `app` gives: `enabled` is the
    /// activation of `app`, `dropped` holds what the enabled modules switch
    /// off, each module once, and `themes` the themes among the enabled
    /// modules, in the order of their activation.
    pub open spec fn composes(&self, catalog: Seq<ModuleDecl>, app: Handle) -> bool {
        &&& is_activation(catalog, app, self.enabled@)
        &&& self.dropped@.no_duplicates()
        &&& forall|x: Handle| #[trigger]
            self.dropped@.contains(x) <==> dropped_by(catalog, self.enabled@, x)
        &&& self.themes@ == themes_of(catalog, self.enabled@, self.enabled@.len() as int)
    }
}

/// In an activation whose dependencies have no cycle, a module that another
/// one declares as its dependency is activated before it.
pub proof fn lemma_dependencies_come_first(
    catalog: Seq<ModuleDecl>,
    app: Handle,
    enabled: Seq<Handle>,
    a: Handle,
    b: Handle,
)
    requires
        is_activation(catalog, app, enabled),
        acyclic(catalog, enabled),
        enabled.contains(a),
        deps_of(catalog, a).contains(b),
    ensures
        enabled.contains(b),
        position(enabled, b) < position(enabled, a),
{
    let rank = choose|rank: spec_fn(Handle) -> nat| #[trigger] ranked(catalog, rank, enabled);
    assert(ranked(catalog, rank, enabled));
    assert(respects(catalog, enabled));
    lemma_position(enabled, a);
    lemma_position(enabled, b);
    let i = position(enabled, a);
    assert(deps_of(catalog, enabled[i]).contains(b));
}

/// A module that is both needed and switched off by a module that is needed
/// keeps the application from being composed: the activation fails, and
/// nothing is enabled.
pub proof fn lemma_needed_and_dropped_fails(
    catalog: Seq<ModuleDecl>,
    app: Handle,
    g: Handle,
    h: Handle,
)
    requires
        required(catalog, app, g),
        required(catalog, app, h),
        drops_of(catalog, g).contains(h),
    ensures
        !composable(catalog, app),
{
}

/// An application whose only dependency is a theme that depends on nothing,
/// neither of them switching anything off, can be composed; its activation
/// is the basic theme, then the theme, then the application, and the theme
/// is among the enabled themes.
pub proof fn lemma_theme_then_application(
    catalog: Seq<ModuleDecl>,
    app: Handle,
    theme: Handle,
    enabled: Seq<Handle>,
)
    requires
        app != THEME_BASIC,
        theme != THEME_BASIC,
        app != theme,
        known(catalog, app),
        known(catalog, theme),
        is_theme(catalog, theme),
        deps_of(catalog, app) == seq![theme],
        deps_of(catalog, theme) == Seq::<Handle>::empty(),
        drops_of(catalog, app) == Seq::<Handle>::empty(),
        drops_of(catalog, theme) == Seq::<Handle>::empty(),
    ensures
        composable(catalog, app),
        is_activation(catalog, app, enabled) ==> {
            &&& enabled == seq![THEME_BASIC, theme, app]
            &&& themes_of(catalog, enabled, 3) == if is_theme(catalog, app) {
                seq![THEME_BASIC, theme, app]
            } else {
                seq![THEME_BASIC, theme]
            }
        },
{
    let s = Set::<Handle>::empty().insert(THEME_BASIC).insert(theme).insert(app);
    assert(closed_under_deps(catalog, s)) by {
        assert forall|x: Handle, d: Handle|
            s.contains(x) && #[trigger] deps_of(catalog, x).contains(d) implies s.contains(d) by {
            if x == app {
                assert(d == theme);
            }
        }
    }
    assert forall|h: Handle| #[trigger] required(catalog, app, h) implies h == THEME_BASIC || h
        == theme || h == app by {
        assert(s.contains(h));
    }
    if is_activation(catalog, app, enabled) {
        let rank = |h: Handle| -> nat {
            if h == app {
                1
            } else {
                0
            }
        };
        assert(ranked(catalog, rank, enabled)) by {
            assert forall|x: Handle, d: Handle|
                enabled.contains(x) && #[trigger] deps_of(catalog, x).contains(d) implies rank(d)
                < rank(x) by {
                assert(required(catalog, app, x));
                assert(x == app && d == theme);
            }
        }
        assert(respects(catalog, enabled));
        lemma_required_roots(catalog, app);
        assert(seq![theme][0] == theme);
        lemma_required_dep(catalog, app, app, theme);
        assert(enabled.contains(theme));
        assert(enabled.contains(app));
        assert forall|i: int| 0 <= i < enabled.len() implies #[trigger] enabled[i] == THEME_BASIC
            || enabled[i] == theme || enabled[i] == app by {
            assert(enabled.contains(enabled[i]));
        }
        if enabled.len() > 3 {
            assert(enabled[1] != enabled[0] && enabled[2] != enabled[0] && enabled[3] != enabled[0]
                && enabled[2] != enabled[1] && enabled[3] != enabled[1] && enabled[3]
                != enabled[2]);
        }
        lemma_position(enabled, theme);
        lemma_position(enabled, app);
        assert(deps_of(catalog, enabled[position(enabled, app)]).contains(theme));
        assert(position(enabled, theme) < position(enabled, app));
        assert(enabled.len() == 3);
        assert(enabled[1] == theme);
        assert(enabled[2] == app);
        assert(enabled =~= seq![THEME_BASIC, theme, app]);
        reveal_with_fuel(themes_of, 4);
        assert(themes_of(catalog, enabled, 3) =~= if is_theme(catalog, app) {
            seq![THEME_BASIC, theme, app]
        } else {
            seq![THEME_BASIC, theme]
        });
    }
}

/// What an application needs, it needs with its dependencies.
pub proof fn lemma_required_dep(catalog: Seq<ModuleDecl>, app: Handle, h: Handle, d: Handle)
    requires
        required(catalog, app, h),
        deps_of(catalog, h).contains(d),
    ensures
        required(catalog, app, d),
{
    assert forall|s: Set<Handle>|
        #[trigger] closed_under_deps(catalog, s) && s.contains(THEME_BASIC) && s.contains(
            app,
        ) implies s.contains(d) by {
        assert(s.contains(h));
    }
}

/// The basic theme and the application itself are needed.
pub proof fn lemma_required_roots(catalog: Seq<ModuleDecl>, app: Handle)
    ensures
        required(catalog, app, THEME_BASIC),
        required(catalog, app, app),
{
}

proof fn lemma_position_push(s: Seq<Handle>, x: Handle, d: Handle)
    ensures
        s.contains(d) ==> position(s.push(x), d) == position(s, d),
        !s.contains(d) && x == d ==> position(s.push(x), d) == s.len(),
{
    lemma_position(s, d);
    lemma_position(s.push(x), d);
    let p = position(s, d);
    let q = position(s.push(x), d);
    if s.contains(d) {
        assert(s.push(x)[p] == d);
        if q < p {
            assert(s[q] == s.push(x)[q]);
        }
    } else if x == d {
        assert(s.push(x)[s.len() as int] == d);
        if q < s.len() {
            assert(s[q] == s.push(x)[q]);
        }
    }
}

/// The rank falls along a chain of dependencies.
proof fn lemma_chain_rank(
    catalog: Seq<ModuleDecl>,
    rank: spec_fn(Handle) -> nat,
    stack: Seq<Handle>,
    k: int,
)
    requires
        0 <= k < stack.len(),
        forall|j: int|
            0 < j < stack.len() ==> deps_of(catalog, stack[j - 1]).contains(#[trigger] stack[j]),
        ranked(catalog, rank, stack),
    ensures
        rank(stack.last()) <= rank(stack[k]),
    decreases stack.len() - k,
{
    if k < stack.len() - 1 {
        lemma_chain_rank(catalog, rank, stack, k + 1);
        assert(stack.contains(stack[k]));
        assert(deps_of(catalog, stack[k]).contains(stack[k + 1]));
    }
}

/// Modules that are declared and differ from each other are no more than
/// there are declarations.
proof fn lemma_room_on_stack(catalog: Seq<ModuleDecl>, stack: Seq<Handle>, h: Handle)
    requires
        stack.no_duplicates(),
        forall|x: Handle| stack.contains(x) ==> declared(catalog, x) < catalog.len(),
        declared(catalog, h) < catalog.len(),
        !stack.contains(h),
    ensures
        stack.len() < catalog.len(),
{
    let hs = handles(catalog);
    let all = stack.push(h);
    assert(all.no_duplicates());
    all.unique_seq_to_set();
    hs.lemma_cardinality_of_set();
    assert(all.to_set().subset_of(hs.to_set())) by {
        assert forall|x: Handle| all.to_set().contains(x) implies hs.to_set().contains(x) by {
            lemma_position(hs, x);
            if x != h {
                assert(all.contains(x));
                let i = choose|i: int| 0 <= i < all.len() && all[i] == x;
                assert(stack[i] == x);
                assert(stack.contains(x));
            }
        }
    }
    vstd::set_lib::lemma_len_subset(all.to_set(), hs.to_set());
}

/// What holds of the walk through the dependencies at every step: `stack`
/// holds the modules whose dependencies are being walked, each a dependency
/// of the one before it, and `order` those that are done.
spec fn walk_inv(
    catalog: Seq<ModuleDecl>,
    app: Handle,
    stack: Seq<Handle>,
    order: Seq<Handle>,
) -> bool {
    &&& order.len() > 0
    &&& order[0] == THEME_BASIC
    &&& order.no_duplicates()
    &&& stack.no_duplicates()
    &&& forall|x: Handle| !(stack.contains(x) && order.contains(x))
    &&& forall|x: Handle| stack.contains(x) ==> declared(catalog, x) < catalog.len()
    &&& forall|x: Handle|
        stack.contains(x) || order.contains(x) ==> required(catalog, app, x) && known(catalog, x)
    &&& forall|x: Handle, d: Handle|
        order.contains(x) && #[trigger] deps_of(catalog, x).contains(d) ==> order.contains(d)
            || stack.contains(d)
    &&& forall|j: int|
        0 < j < stack.len() ==> deps_of(catalog, stack[j - 1]).contains(#[trigger] stack[j])
    &&& forall|rank: spec_fn(Handle) -> nat| #[trigger]
        ranked(catalog, rank, order + stack) ==> respects(catalog, order)
}

/// The index of the first declaration of `h`.
pub fn find_module(catalog: &Vec<ModuleDecl>, h: Handle) -> (r: Option<usize>)
    ensures
        match r {
            Some(i) => i == declared(catalog@, h) && i < catalog@.len(),
            None => declared(catalog@, h) == catalog@.len(),
        },
{
    let mut i: usize = 0;
    while i < catalog.len()
        invariant
            i <= catalog@.len(),
            forall|k: int| 0 <= k < i ==> handles(catalog@)[k] != h,
        decreases catalog@.len() - i,
    {
        if catalog[i].handle == h {
            proof {
                lemma_position(handles(catalog@), h);
                assert(handles(catalog@)[i as int] == h);
            }
            return Some(i);
        }
        i = i + 1;
    }
    proof {
        lemma_position(handles(catalog@), h);
    }
    None
}

/// Whether `h` is in `list`.
pub fn has_handle(list: &Vec<Handle>, h: Handle) -> (b: bool)
    ensures
        b == list@.contains(h),
{
    let mut i: usize = 0;
    while i < list.len()
        invariant
            i <= list@.len(),
            forall|k: int| 0 <= k < i ==> list@[k] != h,
        decreases list@.len() - i,
    {
        if list[i] == h {
            return true;
        }
        i = i + 1;
    }
    false
}

/// Whether everything that `after` holds and `before` does not is needed by `h`.
#[verifier::opaque]
spec fn adds_what_is_needed(
    catalog: Seq<ModuleDecl>,
    h: Handle,
    before: Seq<Handle>,
    after: Seq<Handle>,
) -> bool {
    forall|x: Handle| after.contains(x) && !before.contains(x) ==> required(catalog, h, x)
}

/// Whether none of the modules in `order` is among the `dropped`.
#[verifier::opaque]
spec fn spares(dropped: Seq<Handle>, order: Seq<Handle>) -> bool {
    forall|x: Handle| order.contains(x) ==> !dropped.contains(x)
}

/// Where nothing is dropped, every list is spared.
proof fn lemma_spares_all(order: Seq<Handle>)
    ensures
        spares(Seq::<Handle>::empty(), order),
{
    reveal(spares);
}

/// A list that holds nothing is spared.
proof fn lemma_spares_nothing(dropped: Seq<Handle>)
    ensures
        spares(dropped, Seq::<Handle>::empty()),
{
    reveal(spares);
}

/// A list that is spared stays so with one more module that is not dropped.
proof fn lemma_spares_push(dropped: Seq<Handle>, order: Seq<Handle>, h: Handle)
    requires
        spares(dropped, order),
        !dropped.contains(h),
    ensures
        spares(dropped, order.push(h)),
{
    reveal(spares);
    assert forall|x: Handle| order.push(h).contains(x) implies !dropped.contains(x) by {
        if x != h {
            let i = choose|i: int| 0 <= i < order.push(h).len() && order.push(h)[i] == x;
            assert(order[i] == x);
        }
    }
}

/// What is needed by a dependency of `h` is needed by `h`.
proof fn lemma_required_through(catalog: Seq<ModuleDecl>, h: Handle, d: Handle, x: Handle)
    requires
        deps_of(catalog, h).contains(d),
        required(catalog, d, x),
    ensures
        required(catalog, h, x),
{
    assert forall|s: Set<Handle>|
        #[trigger] closed_under_deps(catalog, s) && s.contains(THEME_BASIC) && s.contains(
            h,
        ) implies s.contains(x) by {
        assert(s.contains(d));
    }
}

/// Whether `themes` holds the themes among the modules of `order`, in their order.
#[verifier::opaque]
spec fn themes_among(catalog: Seq<ModuleDecl>, order: Seq<Handle>, themes: Seq<Handle>) -> bool {
    themes == themes_of(catalog, order, order.len() as int)
}

/// The themes among the first modules of a list are the same with one more
/// module behind them.
proof fn lemma_themes_of_longer(catalog: Seq<ModuleDecl>, order: Seq<Handle>, h: Handle, n: int)
    requires
        n <= order.len(),
    ensures
        themes_of(catalog, order.push(h), n) == themes_of(catalog, order, n),
    decreases n,
{
    if n > 0 {
        lemma_themes_of_longer(catalog, order, h, n - 1);
        assert(order.push(h)[n - 1] == order[n - 1]);
    }
}

/// The themes among the enabled modules, with one more module enabled.
proof fn lemma_themes_among_push(
    catalog: Seq<ModuleDecl>,
    order: Seq<Handle>,
    themes: Seq<Handle>,
    h: Handle,
)
    requires
        themes_among(catalog, order, themes),
    ensures
        themes_among(
            catalog,
            order.push(h),
            if is_theme(catalog, h) {
                themes.push(h)
            } else {
                themes
            },
        ),
{
    reveal(themes_among);
    lemma_themes_of_longer(catalog, order, h, order.len() as int);
    assert(order.push(h)[order.len() as int] == h);
}

/// A list that stays as it is adds nothing.
proof fn lemma_adds_nothing(catalog: Seq<ModuleDecl>, h: Handle, order: Seq<Handle>)
    ensures
        adds_what_is_needed(catalog, h, order, order),
{
    reveal(adds_what_is_needed);
}

/// What the walk of a dependency of `h` adds is needed by `h`.
proof fn lemma_adds_through(
    catalog: Seq<ModuleDecl>,
    h: Handle,
    d: Handle,
    start: Seq<Handle>,
    before: Seq<Handle>,
    after: Seq<Handle>,
)
    requires
        deps_of(catalog, h).contains(d),
        adds_what_is_needed(catalog, h, start, before),
        adds_what_is_needed(catalog, d, before, after),
    ensures
        adds_what_is_needed(catalog, h, start, after),
{
    reveal(adds_what_is_needed);
    assert forall|x: Handle| after.contains(x) && !start.contains(x) implies required(
        catalog,
        h,
        x,
    ) by {
        if !before.contains(x) {
            assert(required(catalog, d, x));
            assert forall|s: Set<Handle>|
                #[trigger] closed_under_deps(catalog, s) && s.contains(THEME_BASIC) && s.contains(
                    h,
                ) implies s.contains(x) by {
                assert(s.contains(d));
            }
        }
    }
}

/// The module itself, added behind what its walk added, is needed by itself.
proof fn lemma_adds_itself(
    catalog: Seq<ModuleDecl>,
    h: Handle,
    start: Seq<Handle>,
    before: Seq<Handle>,
)
    requires
        adds_what_is_needed(catalog, h, start, before),
    ensures
        adds_what_is_needed(catalog, h, start, before.push(h)),
{
    reveal(adds_what_is_needed);
    lemma_required_roots(catalog, h);
    assert forall|x: Handle| before.push(h).contains(x) && !start.contains(x) implies required(
        catalog,
        h,
        x,
    ) by {
        if x != h {
            let i = choose|i: int| 0 <= i < before.push(h).len() && before.push(h)[i] == x;
            assert(before[i] == x);
        }
    }
}

/// Enables `h` behind the modules it depends on. A module that is enabled
/// already, or whose dependencies are being walked, leaves the list as it
/// is. The walk adds only what `h` needs. It fails at the first module it
/// comes to that is among the `dropped`, or that is not declared, and names
/// it. Every module that it enables and that is a theme joins the `themes`.
fn add_to_enabled(
    catalog: &Vec<ModuleDecl>,
    dropped: &Vec<Handle>,
    Ghost(app): Ghost<Handle>,
    h: Handle,
    stack: &mut Vec<Handle>,
    order: &mut Vec<Handle>,
    themes: &mut Vec<Handle>,
) -> (r: Result<(), ActivationError>)
    requires
        walk_inv(catalog@, app, old(stack)@, old(order)@),
        spares(dropped@, old(order)@),
        themes_among(catalog@, old(order)@, old(themes)@),
        required(catalog@, app, h),
        old(stack)@.len() > 0 ==> deps_of(catalog@, old(stack)@.last()).contains(h),
    ensures
        old(order)@.contains(h) || old(stack)@.contains(h) ==> r is Ok && final(order)@ == old(
            order,
        )@ && final(themes)@ == old(themes)@,
        !old(order)@.contains(h) && !old(stack)@.contains(h) && dropped@.contains(h) ==> r == Err::<
            (),
            ActivationError,
        >(ActivationError::Dropped(h)),
        match r {
            Ok(_) => {
                &&& walk_inv(catalog@, app, final(stack)@, final(order)@)
                &&& final(stack)@ == old(stack)@
                &&& old(order)@.is_prefix_of(final(order)@)
                &&& final(order)@.contains(h) || old(stack)@.contains(h)
                &&& adds_what_is_needed(catalog@, h, old(order)@, final(order)@)
                &&& spares(dropped@, final(order)@)
                &&& themes_among(catalog@, final(order)@, final(themes)@)
            },
            Err(ActivationError::Unknown(x)) => {
                &&& required(catalog@, app, x)
                &&& required(catalog@, h, x)
                &&& !known(catalog@, x)
            },
            Err(ActivationError::Dropped(x)) => {
                &&& required(catalog@, app, x)
                &&& required(catalog@, h, x)
                &&& dropped@.contains(x)
                &&& !old(order)@.contains(x)
            },
        },
    decreases catalog@.len() - old(stack)@.len(),
{
    proof {
        lemma_adds_nothing(catalog@, h, order@);
    }
    if has_handle(order, h) || has_handle(stack, h) {
        return Ok(());
    }
    proof {
        lemma_required_roots(catalog@, h);
    }
    if has_handle(dropped, h) {
        return Err(ActivationError::Dropped(h));
    }
    let ghost stack0 = stack@;
    let ghost order0 = order@;
    match find_module(catalog, h) {
        None => {
            proof {
                assert(order0.contains(order0[0]));
            }
            Err(ActivationError::Unknown(h))
        },
        Some(idx) => {
            proof {
                assert(order0.contains(order0[0]));
                lemma_room_on_stack(catalog@, stack0, h);
                lemma_begun(catalog@, app, stack0, order0, h);
            }
            stack.push(h);
            let mut k: usize = 0;
            while k < catalog[idx].dependencies.len()
                invariant
                    idx < catalog@.len(),
                    idx == declared(catalog@, h),
                    k <= catalog@[idx as int].dependencies@.len(),
                    walk_inv(catalog@, app, stack@, order@),
                    stack@ == stack0.push(h),
                    stack0 == old(stack)@,
                    h != THEME_BASIC,
                    required(catalog@, app, h),
                    order0.is_prefix_of(order@),
                    order0 == old(order)@,
                    adds_what_is_needed(catalog@, h, order0, order@),
                    spares(dropped@, order@),
                    themes_among(catalog@, order@, themes@),
                    !old(order)@.contains(h),
                    !old(stack)@.contains(h),
                    !dropped@.contains(h),
                    stack0.len() < catalog@.len(),
                    forall|j: int|
                        0 <= j < k ==> order@.contains(
                            #[trigger] catalog@[idx as int].dependencies@[j],
                        ) || stack@.contains(catalog@[idx as int].dependencies@[j]),
                decreases catalog@[idx as int].dependencies@.len() - k,
            {
                let d: Handle = catalog[idx].dependencies[k];
                let ghost before = order@;
                proof {
                    assert(deps_of(catalog@, h).contains(d));
                    lemma_required_dep(catalog@, app, h, d);
                    assert(stack@.last() == h);
                }
                match add_to_enabled(catalog, dropped, Ghost(app), d, stack, order, themes) {
                    Ok(_) => {},
                    Err(e) => {
                        proof {
                            lemma_required_through(catalog@, h, d, e.spec_module());
                            if old(order)@.contains(e.spec_module()) {
                                let x = e.spec_module();
                                let i = choose|i: int|
                                    0 <= i < old(order)@.len() && old(order)@[i] == x;
                                assert(before[i] == x);
                            }
                        }
                        return Err(e);
                    },
                }
                proof {
                    lemma_adds_through(catalog@, h, d, order0, before, order@);
                    assert forall|j: int| 0 <= j < k + 1 implies order@.contains(
                        #[trigger] catalog@[idx as int].dependencies@[j],
                    ) || stack@.contains(catalog@[idx as int].dependencies@[j]) by {
                        let x = catalog@[idx as int].dependencies@[j];
                        if j < k && before.contains(x) {
                            let i = choose|i: int| 0 <= i < before.len() && before[i] == x;
                            assert(order@[i] == x);
                        }
                    }
                }
                k = k + 1;
            }
            let ghost order1 = order@;
            stack.pop();
            order.push(h);
            proof {
                lemma_themes_among_push(catalog@, order1, themes@, h);
            }
            if catalog[idx].theme {
                themes.push(h);
            }
            proof {
                assert(stack@ == stack0);
                assert forall|d: Handle| deps_of(catalog@, h).contains(d) implies order1.contains(d)
                    || stack0.contains(d) || d == h by {
                    let j = choose|j: int|
                        0 <= j < deps_of(catalog@, h).len() && deps_of(catalog@, h)[j] == d;
                    assert(order1.contains(catalog@[idx as int].dependencies@[j]) || stack0.push(
                        h,
                    ).contains(catalog@[idx as int].dependencies@[j]));
                    if stack0.push(h).contains(d) && d != h {
                        let i = choose|i: int|
                            0 <= i < stack0.push(h).len() && stack0.push(h)[i] == d;
                        assert(stack0[i] == d);
                    }
                }
                lemma_finished(catalog@, app, stack0, order1, h);
                assert(order0.is_prefix_of(order@));
                assert(order@[order1.len() as int] == h);
                lemma_adds_itself(catalog@, h, order0, order1);
                lemma_spares_push(dropped@, order1, h);
            }
            Ok(())
        },
    }
}

/// The walk is in order after it began with the dependencies of `h`.
proof fn lemma_begun(
    catalog: Seq<ModuleDecl>,
    app: Handle,
    stack: Seq<Handle>,
    order: Seq<Handle>,
    h: Handle,
)
    requires
        walk_inv(catalog, app, stack, order),
        required(catalog, app, h),
        declared(catalog, h) < catalog.len(),
        !order.contains(h),
        !stack.contains(h),
        stack.len() > 0 ==> deps_of(catalog, stack.last()).contains(h),
    ensures
        walk_inv(catalog, app, stack.push(h), order),
{
    let after = stack.push(h);
    assert(after[stack.len() as int] == h);
    assert forall|x: Handle| after.contains(x) implies stack.contains(x) || x == h by {
        let i = choose|i: int| 0 <= i < after.len() && after[i] == x;
        if i < stack.len() {
            assert(stack[i] == x);
        }
    }
    assert forall|x: Handle| stack.contains(x) implies after.contains(x) by {
        let i = choose|i: int| 0 <= i < stack.len() && stack[i] == x;
        assert(after[i] == x);
    }
    assert forall|j: int| 0 < j < after.len() implies deps_of(catalog, after[j - 1]).contains(
        #[trigger] after[j],
    ) by {
        if j < stack.len() {
            assert(after[j] == stack[j]);
            assert(after[j - 1] == stack[j - 1]);
        }
    }
    assert forall|rank: spec_fn(Handle) -> nat| #[trigger]
        ranked(catalog, rank, order + after) implies respects(catalog, order) by {
        assert forall|x: Handle, d: Handle|
            (order + stack).contains(x) && #[trigger] deps_of(catalog, x).contains(
                d,
            ) implies rank(d) < rank(x) by {
            let i = choose|i: int| 0 <= i < (order + stack).len() && (order + stack)[i] == x;
            assert((order + after)[i] == x);
            assert((order + after).contains(x));
        }
        assert(ranked(catalog, rank, order + stack));
    }
}

/// The walk is in order after `h` was put behind all it depends on.
proof fn lemma_finished(
    catalog: Seq<ModuleDecl>,
    app: Handle,
    stack: Seq<Handle>,
    order: Seq<Handle>,
    h: Handle,
)
    requires
        walk_inv(catalog, app, stack.push(h), order),
        forall|d: Handle|
            deps_of(catalog, h).contains(d) ==> order.contains(d) || stack.contains(d) || d == h,
    ensures
        walk_inv(catalog, app, stack, order.push(h)),
{
    assert(order.contains(order[0]));
    let during = stack.push(h);
    let after = order.push(h);
    assert(during[stack.len() as int] == h);
    assert(during.contains(h));
    assert(after[order.len() as int] == h);
    assert forall|x: Handle| stack.contains(x) implies during.contains(x) by {
        let i = choose|i: int| 0 <= i < stack.len() && stack[i] == x;
        assert(during[i] == x);
    }
    assert forall|x: Handle| order.contains(x) implies after.contains(x) by {
        let i = choose|i: int| 0 <= i < order.len() && order[i] == x;
        assert(after[i] == x);
    }
    assert forall|x: Handle| after.contains(x) implies order.contains(x) || x == h by {
        let i = choose|i: int| 0 <= i < after.len() && after[i] == x;
        if i < order.len() {
            assert(order[i] == x);
        }
    }
    assert(stack.no_duplicates()) by {
        assert forall|i: int, j: int|
            0 <= i < stack.len() && 0 <= j < stack.len() && i != j implies stack[i] != stack[j] by {
            assert(during[i] == stack[i]);
            assert(during[j] == stack[j]);
        }
    }
    assert(!stack.contains(h)) by {
        if stack.contains(h) {
            let i = choose|i: int| 0 <= i < stack.len() && stack[i] == h;
            assert(during[i] == h);
        }
    }
    assert(!order.contains(h));
    assert forall|j: int| 0 < j < stack.len() implies deps_of(catalog, stack[j - 1]).contains(
        #[trigger] stack[j],
    ) by {
        assert(during[j] == stack[j]);
        assert(during[j - 1] == stack[j - 1]);
    }
    assert forall|rank: spec_fn(Handle) -> nat| #[trigger]
        ranked(catalog, rank, after + stack) implies respects(catalog, after) by {
        assert forall|x: Handle, d: Handle|
            (order + during).contains(x) && #[trigger] deps_of(catalog, x).contains(
                d,
            ) implies rank(d) < rank(x) by {
            let i = choose|i: int| 0 <= i < (order + during).len() && (order + during)[i] == x;
            if i < order.len() {
                assert((after + stack)[i] == x);
            } else if i < order.len() + stack.len() {
                assert((after + stack)[i + 1] == x);
            } else {
                assert((after + stack)[order.len() as int] == x);
            }
            assert((after + stack).contains(x));
        }
        assert(ranked(catalog, rank, order + during));
        assert(respects(catalog, order));
        assert((after + stack)[order.len() as int] == h);
        assert((after + stack).contains(h));
        assert forall|i: int, d: Handle|
            0 <= i < after.len() && #[trigger] deps_of(catalog, after[i]).contains(
                d,
            ) implies position(after, d) < i by {
            lemma_position(order, d);
            lemma_position_push(order, h, d);
            if i < order.len() {
                assert(after[i] == order[i]);
                assert(position(order, d) < i);
            } else {
                assert(after[i] == h);
                assert(rank(d) < rank(h));
                if !order.contains(d) {
                    if d != h {
                        let k = choose|k: int| 0 <= k < stack.len() && stack[k] == d;
                        assert(during[k] == d);
                        assert forall|x: Handle, e: Handle|
                            during.contains(x) && #[trigger] deps_of(catalog, x).contains(
                                e,
                            ) implies rank(e) < rank(x) by {
                            let j = choose|j: int| 0 <= j < during.len() && during[j] == x;
                            assert((order + during)[order.len() + j] == x);
                            assert((order + during).contains(x));
                        }
                        assert(ranked(catalog, rank, during));
                        lemma_chain_rank(catalog, rank, during, k);
                        assert(during.last() == h);
                    }
                }
            }
        }
    }
}

/// The walk is in order where it starts: with the basic theme enabled.
proof fn lemma_walk_starts(catalog: Seq<ModuleDecl>, app: Handle)
    ensures
        walk_inv(catalog, app, Seq::<Handle>::empty(), seq![THEME_BASIC]),
{
    let order = seq![THEME_BASIC];
    assert forall|x: Handle| order.contains(x) implies x == THEME_BASIC by {
        let i = choose|i: int| 0 <= i < order.len() && order[i] == x;
    }
    assert forall|rank: spec_fn(Handle) -> nat| #[trigger]
        ranked(catalog, rank, order + Seq::<Handle>::empty()) implies respects(
        catalog,
        order,
    ) by {}
}

/// Where the walk ends, the enabled modules are the activation.
proof fn lemma_walk_ends(catalog: Seq<ModuleDecl>, app: Handle, order: Seq<Handle>)
    requires
        walk_inv(catalog, app, Seq::<Handle>::empty(), order),
        order.contains(app),
    ensures
        is_activation(catalog, app, order),
{
    assert(order + Seq::<Handle>::empty() == order);
    let s = order.to_set();
    assert(order.contains(order[0]));
    assert(closed_under_deps(catalog, s)) by {
        assert forall|x: Handle, d: Handle|
            s.contains(x) && #[trigger] deps_of(catalog, x).contains(d) implies s.contains(d) by {
            assert(order.contains(x));
        }
    }
    assert forall|h: Handle| #[trigger] order.contains(h) <==> required(catalog, app, h) by {
        if required(catalog, app, h) {
            assert(closed_under_deps(catalog, s) && s.contains(THEME_BASIC) && s.contains(app));
            assert(s.contains(h));
        }
    }
}

/// The index of the declaration that counts for `h`: none for the basic
/// theme, which is taken as the framework has it.
fn declaration_of(catalog: &Vec<ModuleDecl>, h: Handle) -> (r: Option<usize>)
    ensures
        match r {
            Some(i) => h != THEME_BASIC && i == declared(catalog@, h) && i < catalog@.len(),
            None => h == THEME_BASIC || declared(catalog@, h) >= catalog@.len(),
        },
{
    if h == THEME_BASIC {
        None
    } else {
        proof {
            lemma_position(handles(catalog@), h);
        }
        find_module(catalog, h)
    }
}

/// Collects what the modules of `order` switch off, each module once.
pub fn add_to_dropped(catalog: &Vec<ModuleDecl>, order: &Vec<Handle>) -> (dropped: Vec<Handle>)
    ensures
        dropped@.no_duplicates(),
        forall|x: Handle| #[trigger] dropped@.contains(x) <==> dropped_by(catalog@, order@, x),
{
    let mut dropped: Vec<Handle> = Vec::new();
    let mut i: usize = 0;
    while i < order.len()
        invariant
            i <= order@.len(),
            dropped@.no_duplicates(),
            forall|x: Handle| #[trigger]
                dropped@.contains(x) <==> dropped_by(catalog@, order@.take(i as int), x),
        decreases order@.len() - i,
    {
        let ghost before = dropped@;
        let ghost h = order@[i as int];
        match declaration_of(catalog, order[i]) {
            Some(idx) => {
                let mut k: usize = 0;
                while k < catalog[idx].drop_modules.len()
                    invariant
                        idx < catalog@.len(),
                        i < order@.len(),
                        k <= catalog@[idx as int].drop_modules@.len(),
                        catalog@[idx as int].drop_modules@ == drops_of(catalog@, order@[i as int]),
                        dropped@.no_duplicates(),
                        forall|x: Handle| #[trigger]
                            dropped@.contains(x) <==> before.contains(x) || drops_of(
                                catalog@,
                                order@[i as int],
                            ).take(k as int).contains(x),
                    decreases catalog@[idx as int].drop_modules@.len() - k,
                {
                    let x: Handle = catalog[idx].drop_modules[k];
                    let ghost drops = drops_of(catalog@, order@[i as int]);
                    let ghost sofar = dropped@;
                    if !has_handle(&dropped, x) {
                        dropped.push(x);
                    }
                    proof {
                        assert(drops.take(k + 1) == drops.take(k as int).push(x));
                        assert forall|y: Handle| #[trigger]
                            dropped@.contains(y) <==> before.contains(y) || drops.take(
                                k + 1,
                            ).contains(y) by {
                            lemma_contains_push(sofar, x, y);
                            lemma_contains_push(drops.take(k as int), x, y);
                        }
                    }
                    k = k + 1;
                }
                proof {
                    let drops = drops_of(catalog@, order@[i as int]);
                    assert(drops.take(drops.len() as int) == drops);
                }
            },
            None => {
                proof {
                    assert(drops_of(catalog@, order@[i as int]) == Seq::<Handle>::empty());
                }
            },
        }
        proof {
            let drops = drops_of(catalog@, h);
            let sofar = order@.take(i as int);
            let next = order@.take(i + 1);
            assert(next == sofar.push(h));
            assert forall|x: Handle| #[trigger]
                dropped@.contains(x) <==> dropped_by(catalog@, next, x) by {
                if dropped_by(catalog@, next, x) {
                    let j = choose|j: int|
                        0 <= j < next.len() && #[trigger] drops_of(catalog@, next[j]).contains(x);
                    if j < i {
                        assert(sofar[j] == next[j]);
                        assert(dropped_by(catalog@, sofar, x));
                    }
                }
                if before.contains(x) {
                    let j = choose|j: int|
                        0 <= j < sofar.len() && #[trigger] drops_of(catalog@, sofar[j]).contains(
                            x,
                        );
                    assert(next[j] == sofar[j]);
                }
                if drops.contains(x) {
                    assert(next[i as int] == h);
                }
            }
        }
        i = i + 1;
    }
    assert(order@.take(order@.len() as int) == order@);
    dropped
}

proof fn lemma_contains_push(s: Seq<Handle>, x: Handle, y: Handle)
    ensures
        s.push(x).contains(y) <==> s.contains(y) || x == y,
{
    if s.contains(y) {
        let i = choose|i: int| 0 <= i < s.len() && s[i] == y;
        assert(s.push(x)[i] == y);
    }
    if x == y {
        assert(s.push(x)[s.len() as int] == y);
    }
    if s.push(x).contains(y) {
        let i = choose|i: int| 0 <= i < s.push(x).len() && s.push(x)[i] == y;
        if i < s.len() {
            assert(s[i] == y);
        }
    }
}

/// The themes among the enabled modules, in the order of their activation.
pub fn enabled_themes(catalog: &Vec<ModuleDecl>, order: &Vec<Handle>) -> (themes: Vec<Handle>)
    ensures
        themes@ == themes_of(catalog@, order@, order@.len() as int),
{
    let mut themes: Vec<Handle> = Vec::new();
    let mut i: usize = 0;
    while i < order.len()
        invariant
            i <= order@.len(),
            themes@ == themes_of(catalog@, order@, i as int),
        decreases order@.len() - i,
    {
        let h: Handle = order[i];
        let theme = match declaration_of(catalog, h) {
            Some(idx) => catalog[idx].theme,
            None => h == THEME_BASIC,
        };
        proof {
            lemma_position(handles(catalog@), h);
        }
        if theme {
            themes.push(h);
        }
        i = i + 1;
    }
    themes
}

/// The first of the first `n` themes whose name is `name`, or the basic theme
/// if there is none.
pub open spec fn theme_named(catalog: Seq<ModuleDecl>, themes: Seq<Handle>, name: Seq<char>, n: int)
    -> Handle
    decreases n,
{
    if n <= 0 || n > themes.len() {
        THEME_BASIC
    } else {
        let before = theme_named(catalog, themes, name, n - 1);
        if before != THEME_BASIC {
            before
        } else if module_label(catalog, themes[n - 1]) == name {
            themes[n - 1]
        } else {
            THEME_BASIC
        }
    }
}

/// The theme that renders the pages: the first of the enabled themes with
/// the name that the settings ask for, or the basic theme if none has it.
pub fn theme_by_name(catalog: &Vec<ModuleDecl>, themes: &Vec<Handle>, name: &str) -> (h: Handle)
    ensures
        h == theme_named(catalog@, themes@, name@, themes@.len() as int),
{
    let mut i: usize = 0;
    while i < themes.len()
        invariant
            i <= themes@.len(),
            theme_named(catalog@, themes@, name@, i as int) == THEME_BASIC,
        decreases themes@.len() - i,
    {
        let h: Handle = themes[i];
        if h != THEME_BASIC {
            proof {
                lemma_position(handles(catalog@), h);
            }
            let label = match find_module(catalog, h) {
                Some(idx) => catalog[idx].name.clone(),
                None => {
                    let mut s = String::new();
                    push_decimal(&mut s, h);
                    assert(Seq::<char>::empty() + decimal(h as nat) == decimal(h as nat));
                    s
                },
            };
            if label == name.to_owned() {
                proof {
                    lemma_theme_named_stays(catalog@, themes@, name@, i + 1, themes@.len() as int);
                }
                return h;
            }
        }
        i = i + 1;
    }
    THEME_BASIC
}

/// A theme that was found among the first `n` is what is found among the first `m`.
pub proof fn lemma_theme_named_stays(
    catalog: Seq<ModuleDecl>,
    themes: Seq<Handle>,
    name: Seq<char>,
    n: int,
    m: int,
)
    requires
        0 <= n <= m <= themes.len(),
        theme_named(catalog, themes, name, n) != THEME_BASIC,
    ensures
        theme_named(catalog, themes, name, m) == theme_named(catalog, themes, name, n),
    decreases m - n,
{
    if n < m {
        lemma_theme_named_stays(catalog, themes, name, n, m - 1);
    }
}

/// Where the walk starts, the basic theme is the one theme that is enabled.
proof fn lemma_themes_start(catalog: Seq<ModuleDecl>)
    ensures
        themes_among(catalog, seq![THEME_BASIC], seq![THEME_BASIC]),
{
    reveal(themes_among);
    reveal_with_fuel(themes_of, 2);
    assert(themes_of(catalog, seq![THEME_BASIC], 1) =~= seq![THEME_BASIC]);
}

/// A module that is needed, and switched off by one of the needed modules,
/// keeps the application from being composed.
proof fn lemma_dropped_and_needed(
    catalog: Seq<ModuleDecl>,
    app: Handle,
    needed: Seq<Handle>,
    dropped: Seq<Handle>,
    x: Handle,
)
    requires
        is_activation(catalog, app, needed),
        forall|y: Handle| #[trigger] dropped.contains(y) <==> dropped_by(catalog, needed, y),
        required(catalog, app, x),
        dropped.contains(x),
    ensures
        !composable(catalog, app),
        exists|g: Handle| required(catalog, app, g) && #[trigger] drops_of(catalog, g).contains(x),
{
    assert(dropped_by(catalog, needed, x));
    let j = choose|j: int|
        0 <= j < needed.len() && #[trigger] drops_of(catalog, needed[j]).contains(x);
    let g = needed[j];
    assert(needed.contains(g));
    assert(required(catalog, app, g) && drops_of(catalog, g).contains(x));
}

/// Composes the application `app` from the declared modules. A first walk
/// through the dependencies finds the modules that are needed, and with them
/// what they switch off. A second walk enables the basic theme, then `app`
/// behind everything it depends on, and stops at a module that is switched
/// off. Fails, and enables nothing, if a module that is needed is not
/// declared or is switched off; the error names one such module.
pub fn compose(catalog: &Vec<ModuleDecl>, app: Handle) -> (r: Result<Activation, ActivationError>)
    ensures
        r is Ok <==> composable(catalog@, app),
        r matches Err(ActivationError::Unknown(_)) <==> exists|h: Handle| #[trigger]
            required(catalog@, app, h) && !known(catalog@, h),
        match r {
            Ok(activation) => activation.composes(catalog@, app),
            Err(ActivationError::Unknown(h)) => required(catalog@, app, h) && !known(catalog@, h),
            Err(ActivationError::Dropped(h)) => {
                &&& required(catalog@, app, h)
                &&& exists|g: Handle|
                    required(catalog@, app, g) && #[trigger] drops_of(catalog@, g).contains(h)
            },
        },
{
    let nothing: Vec<Handle> = Vec::new();
    let mut stack: Vec<Handle> = Vec::new();
    let mut needed: Vec<Handle> = Vec::new();
    let mut among: Vec<Handle> = Vec::new();
    needed.push(THEME_BASIC);
    among.push(THEME_BASIC);
    proof {
        lemma_walk_starts(catalog@, app);
        assert(needed@ == seq![THEME_BASIC]);
        lemma_required_roots(catalog@, app);
        lemma_spares_all(needed@);
        lemma_themes_start(catalog@);
        assert(among@ == seq![THEME_BASIC]);
    }
    match add_to_enabled(catalog, &nothing, Ghost(app), app, &mut stack, &mut needed, &mut among) {
        Ok(_) => {},
        Err(e) => {
            return Err(e);
        },
    }
    proof {
        lemma_walk_ends(catalog@, app, needed@);
        assert forall|h: Handle| #[trigger] required(catalog@, app, h) implies known(
            catalog@,
            h,
        ) by {
            assert(needed@.contains(h));
        }
    }
    let dropped = add_to_dropped(catalog, &needed);
    if has_handle(&dropped, THEME_BASIC) {
        proof {
            lemma_dropped_and_needed(catalog@, app, needed@, dropped@, THEME_BASIC);
        }
        return Err(ActivationError::Dropped(THEME_BASIC));
    }
    let mut order: Vec<Handle> = Vec::new();
    let mut themes: Vec<Handle> = Vec::new();
    order.push(THEME_BASIC);
    themes.push(THEME_BASIC);
    proof {
        assert(order@ == seq![THEME_BASIC]);
        assert(themes@ == seq![THEME_BASIC]);
        lemma_themes_start(catalog@);
        lemma_spares_nothing(dropped@);
        lemma_spares_push(dropped@, Seq::<Handle>::empty(), THEME_BASIC);
        assert(Seq::<Handle>::empty().push(THEME_BASIC) == order@);
    }
    match add_to_enabled(catalog, &dropped, Ghost(app), app, &mut stack, &mut order, &mut themes) {
        Ok(_) => {},
        Err(e) => {
            proof {
                if e is Dropped {
                    lemma_dropped_and_needed(catalog@, app, needed@, dropped@, e.spec_module());
                }
            }
            return Err(e);
        },
    }
    proof {
        lemma_walk_ends(catalog@, app, order@);
        reveal(spares);
        reveal(themes_among);
        assert forall|x: Handle| #[trigger]
            dropped@.contains(x) <==> dropped_by(catalog@, order@, x) by {
            if dropped_by(catalog@, needed@, x) {
                let j = choose|j: int|
                    0 <= j < needed@.len() && #[trigger] drops_of(catalog@, needed@[j]).contains(x);
                let g = needed@[j];
                assert(needed@.contains(g));
                assert(order@.contains(g));
                let k = choose|k: int| 0 <= k < order@.len() && order@[k] == g;
                assert(drops_of(catalog@, order@[k]).contains(x));
            }
            if dropped_by(catalog@, order@, x) {
                let j = choose|j: int|
                    0 <= j < order@.len() && #[trigger] drops_of(catalog@, order@[j]).contains(x);
                let g = order@[j];
                assert(order@.contains(g));
                assert(needed@.contains(g));
                let k = choose|k: int| 0 <= k < needed@.len() && needed@[k] == g;
                assert(drops_of(catalog@, needed@[k]).contains(x));
            }
        }
        assert forall|g: Handle, h: Handle|
            required(catalog@, app, g) && #[trigger] drops_of(catalog@, g).contains(
                h,
            ) implies !required(catalog@, app, h) by {
            assert(order@.contains(g));
            let j = choose|j: int| 0 <= j < order@.len() && order@[j] == g;
            assert(dropped_by(catalog@, order@, h));
            if required(catalog@, app, h) {
                assert(order@.contains(h));
            }
        }
    }
    Ok(Activation { enabled: order, dropped, themes })
}

/// The activation of an application that can be composed: the basic theme
/// first, then `app` behind everything it depends on, with what the enabled
/// modules switch off and the themes among them. An application with a
/// module that is needed and not declared, or needed and switched off, is no
/// input of this function: `compose` tells, and names the module.
pub fn register_modules(catalog: &Vec<ModuleDecl>, app: Handle) -> (activation: Activation)
    requires
        composable(catalog@, app),
    ensures
        activation.composes(catalog@, app),
{
    match compose(catalog, app) {
        Ok(activation) => activation,
        Err(_) => unreached(),
    }
}

} // verus!
