//! Actions: what modules register to have a say at an extension point, and
//! the registry that calls them in the order of their weights.

use crate::component::{
    lemma_changed_nesting, AnyComponent, ComponentView, IsRenderable, IsRenderableView,
};
use crate::handle::Handle;
use crate::html::classes::{ClassesOp, ClassesOpView};
use crate::html::markup::opt_view;
use crate::html::opt_id::non_empty;
use crate::page::{Page, PageView};
use crate::text::trimmed;
use crate::order::{
    indices, lemma_order_of_turns, lemma_stable_order, order_by_weight, precedes, stable_order,
    Weight,
};
use std::collections::HashMap;
use vstd::prelude::*;

verus! {

/// The extension point before a component is rendered.
pub const ACTION_BEFORE_RENDER_COMPONENT: Handle = 0x8000_0000_0000_2001;

/// The extension point after a component was rendered.
pub const ACTION_AFTER_RENDER_COMPONENT: Handle = 0x8000_0000_0000_2002;

/// The extension point before a page is rendered.
pub const ACTION_BEFORE_RENDER_PAGE: Handle = 0x8000_0000_0000_2003;

/// The extension point after the body of a page was rendered.
pub const ACTION_AFTER_PREPARE_BODY: Handle = 0x8000_0000_0000_2004;

/// What an action does to a page.
pub enum PageChange {
    /// Alters the classes of the body.
    BodyClasses(ClassesOp, String),
    /// Gives the page this title.
    Title(String),
    /// Gives the page this description.
    Description(String),
    /// Makes the page use this template.
    Template(String),
}

/// What an action for pages does.
pub type ActionPage = PageChange;

/// A `PageChange` as a mathematical value.
pub enum PageChangeView {
    BodyClasses(ClassesOpView, Seq<char>),
    Title(Seq<char>),
    Description(Seq<char>),
    Template(Seq<char>),
}

impl View for PageChange {
    type V = PageChangeView;

    open spec fn view(&self) -> PageChangeView {
        match self {
            PageChange::BodyClasses(op, classes) => PageChangeView::BodyClasses(op@, classes@),
            PageChange::Title(t) => PageChangeView::Title(t@),
            PageChange::Description(d) => PageChangeView::Description(d@),
            PageChange::Template(t) => PageChangeView::Template(t@),
        }
    }
}

/// The page after `change`.
pub open spec fn page_changed(page: PageView, change: PageChangeView) -> PageView {
    match change {
        PageChangeView::BodyClasses(op, classes) => PageView {
            body_classes: page.body_classes.altered(op, classes),
            ..page
        },
        PageChangeView::Title(t) => PageView { title: non_empty(trimmed(t)), ..page },
        PageChangeView::Description(d) => PageView { description: non_empty(trimmed(d)), ..page },
        PageChangeView::Template(t) => PageView { template: t, ..page },
    }
}

/// The page after an optional change.
pub open spec fn page_acted(action: Option<PageChange>, page: PageView) -> PageView {
    match action {
        Some(change) => page_changed(page, change@),
        None => page,
    }
}

impl PageChange {
    pub fn duplicate(&self) -> (r: Self)
        ensures
            r@ == self@,
    {
        match self {
            PageChange::BodyClasses(op, classes) => PageChange::BodyClasses(
                op.duplicate(),
                classes.clone(),
            ),
            PageChange::Title(t) => PageChange::Title(t.clone()),
            PageChange::Description(d) => PageChange::Description(d.clone()),
            PageChange::Template(t) => PageChange::Template(t.clone()),
        }
    }

    /// Applies the change to `page`.
    pub fn apply(&self, page: &mut Page)
        ensures
            final(page)@ == page_changed(old(page)@, self@),
    {
        match self {
            PageChange::BodyClasses(op, classes) => {
                page.alter_body_classes(op.duplicate(), classes.as_str());
            },
            PageChange::Title(t) => {
                page.alter_title(t.as_str());
            },
            PageChange::Description(d) => {
                page.alter_description(d.as_str());
            },
            PageChange::Template(t) => {
                page.alter_template(t.as_str());
            },
        }
    }
}

fn run_on(action: &Option<PageChange>, page: &mut Page)
    ensures
        final(page)@ == page_acted(*action, old(page)@),
{
    match action {
        Some(change) => change.apply(page),
        None => {},
    }
}

/// An action that is called before a page is rendered.
pub struct ActionBeforeRenderPage {
    pub action: Option<PageChange>,
    pub weight: Weight,
}

impl ActionTrait for ActionBeforeRenderPage {
    open spec fn spec_handle(&self) -> Handle {
        ACTION_BEFORE_RENDER_PAGE
    }

    open spec fn spec_weight(&self) -> Weight {
        self.weight
    }

    fn new() -> (r: Self)
        ensures
            r.action is None,
            r.weight == 0,
    {
        ActionBeforeRenderPage { action: None, weight: 0 }
    }

    fn handle(&self) -> (h: Handle) {
        ACTION_BEFORE_RENDER_PAGE
    }

    fn weight(&self) -> (w: Weight) {
        self.weight
    }
}

impl ActionBeforeRenderPage {
    /// An action that makes `action`, with weight 0.
    pub fn with(action: PageChange) -> (r: Self)
        ensures
            r.action == Some(action),
            r.weight == 0,
    {
        ActionBeforeRenderPage { action: Some(action), weight: 0 }
    }

    pub fn with_action(self, action: PageChange) -> (r: Self)
        ensures
            r == (ActionBeforeRenderPage { action: Some(action), ..self }),
    {
        let mut a = self;
        a.action = Some(action);
        a
    }

    pub fn with_weight(self, value: Weight) -> (r: Self)
        ensures
            r == (ActionBeforeRenderPage { weight: value, ..self }),
    {
        let mut a = self;
        a.weight = value;
        a
    }

    /// Runs the action on `page`.
    pub fn run(&self, page: &mut Page)
        ensures
            final(page)@ == page_acted(self.action, old(page)@),
    {
        run_on(&self.action, page);
    }
}

/// An action that is called after the body of a page was rendered.
pub struct ActionAfterPrepareBody {
    pub action: Option<PageChange>,
    pub weight: Weight,
}

impl ActionTrait for ActionAfterPrepareBody {
    open spec fn spec_handle(&self) -> Handle {
        ACTION_AFTER_PREPARE_BODY
    }

    open spec fn spec_weight(&self) -> Weight {
        self.weight
    }

    fn new() -> (r: Self)
        ensures
            r.action is None,
            r.weight == 0,
    {
        ActionAfterPrepareBody { action: None, weight: 0 }
    }

    fn handle(&self) -> (h: Handle) {
        ACTION_AFTER_PREPARE_BODY
    }

    fn weight(&self) -> (w: Weight) {
        self.weight
    }
}

impl ActionAfterPrepareBody {
    /// An action that makes `action`, with weight 0.
    pub fn with(action: PageChange) -> (r: Self)
        ensures
            r.action == Some(action),
            r.weight == 0,
    {
        ActionAfterPrepareBody { action: Some(action), weight: 0 }
    }

    pub fn with_action(self, action: PageChange) -> (r: Self)
        ensures
            r == (ActionAfterPrepareBody { action: Some(action), ..self }),
    {
        let mut a = self;
        a.action = Some(action);
        a
    }

    pub fn with_weight(self, value: Weight) -> (r: Self)
        ensures
            r == (ActionAfterPrepareBody { weight: value, ..self }),
    {
        let mut a = self;
        a.weight = value;
        a
    }

    /// Runs the action on `page`.
    pub fn run(&self, page: &mut Page)
        ensures
            final(page)@ == page_acted(self.action, old(page)@),
    {
        run_on(&self.action, page);
    }
}

/// What an action does to a component.
pub enum ComponentChange {
    /// Gives the component this identifier.
    Id(String),
    /// Alters the classes of the component.
    Classes(ClassesOp, String),
    /// Gives the component this weight.
    Weight(Weight),
    /// Makes the component renderable on this condition.
    Renderable(IsRenderable),
}

/// What an action for components does.
pub type ActionComponent = ComponentChange;

/// A `ComponentChange` as a mathematical value.
pub enum ComponentChangeView {
    Id(Seq<char>),
    Classes(ClassesOpView, Seq<char>),
    Weight(Weight),
    Renderable(IsRenderableView),
}

impl View for ComponentChange {
    type V = ComponentChangeView;

    open spec fn view(&self) -> ComponentChangeView {
        match self {
            ComponentChange::Id(id) => ComponentChangeView::Id(id@),
            ComponentChange::Classes(op, classes) => ComponentChangeView::Classes(op@, classes@),
            ComponentChange::Weight(w) => ComponentChangeView::Weight(*w),
            ComponentChange::Renderable(r) => ComponentChangeView::Renderable(r@),
        }
    }
}

/// The view of an optional change.
pub open spec fn change_view(change: Option<ComponentChange>) -> Option<ComponentChangeView> {
    match change {
        Some(c) => Some(c@),
        None => None,
    }
}

/// What every action offers.
pub trait ActionTrait: Sized {
    spec fn spec_handle(&self) -> Handle;

    spec fn spec_weight(&self) -> Weight;

    fn new() -> Self;

    /// The extension point at which the action is called.
    fn handle(&self) -> (h: Handle)
        ensures
            h == self.spec_handle(),
    ;

    fn weight(&self) -> (w: Weight)
        ensures
            w == self.spec_weight(),
    ;
}

/// Whether a component with handle `h` and identifier `id` passes the filter.
pub open spec fn passes(
    referer_handle: Option<Handle>,
    referer_id: Option<Seq<char>>,
    c: ComponentView,
) -> bool {
    &&& referer_handle matches Some(h) ==> c.handle() == h
    &&& referer_id matches Some(id) ==> c.id() == Some(id)
}

/// What an action with this change and this filter does to a component.
pub open spec fn acted(
    action: Option<ComponentChangeView>,
    referer_handle: Option<Handle>,
    referer_id: Option<Seq<char>>,
    c: ComponentView,
) -> ComponentView {
    match action {
        Some(change) => if passes(referer_handle, referer_id, c) {
            c.changed(change)
        } else {
            c
        },
        None => c,
    }
}

fn run_filtered(
    action: &Option<ComponentChange>,
    referer_handle: &Option<Handle>,
    referer_id: &Option<String>,
    component: &mut AnyComponent,
)
    ensures
        final(component)@ == acted(
            change_view(*action),
            *referer_handle,
            opt_view(*referer_id),
            old(component)@,
        ),
{
    match action {
        Some(change) => {
            let by_handle = match referer_handle {
                Some(h) => component.handle() == *h,
                None => true,
            };
            let by_id = match referer_id {
                Some(id) => match component.id() {
                    Some(cid) => cid == *id,
                    None => false,
                },
                None => true,
            };
            if by_handle && by_id {
                component.apply(change);
            }
        },
        None => {},
    }
}

/// An action that is called before a component is rendered.
pub struct ActionBeforeRenderComponent {
    pub action: Option<ActionComponent>,
    pub weight: Weight,
    pub referer_handle: Option<Handle>,
    pub referer_id: Option<String>,
}

impl ActionTrait for ActionBeforeRenderComponent {
    open spec fn spec_handle(&self) -> Handle {
        ACTION_BEFORE_RENDER_COMPONENT
    }

    open spec fn spec_weight(&self) -> Weight {
        self.weight
    }

    fn new() -> (r: Self)
        ensures
            r.action is None,
            r.weight == 0,
            r.referer_handle is None,
            r.referer_id is None,
    {
        ActionBeforeRenderComponent {
            action: None,
            weight: 0,
            referer_handle: None,
            referer_id: None,
        }
    }

    fn handle(&self) -> (h: Handle) {
        ACTION_BEFORE_RENDER_COMPONENT
    }

    fn weight(&self) -> (w: Weight) {
        self.weight
    }
}

impl ActionBeforeRenderComponent {
    /// What the action does to a component.
    pub open spec fn applied(&self, c: ComponentView) -> ComponentView {
        acted(change_view(self.action), self.referer_handle, opt_view(self.referer_id), c)
    }

    /// An action that runs `action`, with weight 0 and for every component.
    pub fn with(action: ActionComponent) -> (r: Self)
        ensures
            r.action == Some(action),
            r.weight == 0,
            r.referer_handle is None,
            r.referer_id is None,
    {
        ActionBeforeRenderComponent {
            action: Some(action),
            weight: 0,
            referer_handle: None,
            referer_id: None,
        }
    }

    pub fn with_action(self, action: ActionComponent) -> (r: Self)
        ensures
            r == (ActionBeforeRenderComponent { action: Some(action), ..self }),
    {
        let mut a = self;
        a.action = Some(action);
        a
    }

    pub fn with_weight(self, weight: Weight) -> (r: Self)
        ensures
            r == (ActionBeforeRenderComponent { weight: weight, ..self }),
    {
        let mut a = self;
        a.weight = weight;
        a
    }

    /// Restricts the action to components of the kind with handle `handle`.
    pub fn filter_by_referer_handle(self, handle: Handle) -> (r: Self)
        ensures
            r == (ActionBeforeRenderComponent { referer_handle: Some(handle), ..self }),
    {
        let mut a = self;
        a.referer_handle = Some(handle);
        a
    }

    /// Restricts the action to components with the identifier `id`.
    pub fn filter_by_referer_id(self, id: &str) -> (r: Self)
        ensures
            opt_view(r.referer_id) == Some(id@),
            r == (ActionBeforeRenderComponent { referer_id: r.referer_id, ..self }),
    {
        let mut a = self;
        a.referer_id = Some(id.to_owned());
        a
    }

    /// Runs the action on `component`, if the component passes the filter.
    pub fn run(&self, component: &mut AnyComponent)
        ensures
            final(component)@ == self.applied(old(component)@),
    {
        run_filtered(&self.action, &self.referer_handle, &self.referer_id, component);
    }
}

/// An action that is called after a component was rendered.
pub struct ActionAfterRenderComponent {
    pub action: Option<ActionComponent>,
    pub weight: Weight,
    pub referer_handle: Option<Handle>,
    pub referer_id: Option<String>,
}

impl ActionTrait for ActionAfterRenderComponent {
    open spec fn spec_handle(&self) -> Handle {
        ACTION_AFTER_RENDER_COMPONENT
    }

    open spec fn spec_weight(&self) -> Weight {
        self.weight
    }

    fn new() -> (r: Self)
        ensures
            r.action is None,
            r.weight == 0,
            r.referer_handle is None,
            r.referer_id is None,
    {
        ActionAfterRenderComponent {
            action: None,
            weight: 0,
            referer_handle: None,
            referer_id: None,
        }
    }

    fn handle(&self) -> (h: Handle) {
        ACTION_AFTER_RENDER_COMPONENT
    }

    fn weight(&self) -> (w: Weight) {
        self.weight
    }
}

impl ActionAfterRenderComponent {
    /// What the action does to a component.
    pub open spec fn applied(&self, c: ComponentView) -> ComponentView {
        acted(change_view(self.action), self.referer_handle, opt_view(self.referer_id), c)
    }

    /// An action that runs `action`, with weight 0 and for every component.
    pub fn with(action: ActionComponent) -> (r: Self)
        ensures
            r.action == Some(action),
            r.weight == 0,
            r.referer_handle is None,
            r.referer_id is None,
    {
        ActionAfterRenderComponent {
            action: Some(action),
            weight: 0,
            referer_handle: None,
            referer_id: None,
        }
    }

    pub fn with_action(self, action: ActionComponent) -> (r: Self)
        ensures
            r == (ActionAfterRenderComponent { action: Some(action), ..self }),
    {
        let mut a = self;
        a.action = Some(action);
        a
    }

    pub fn with_weight(self, weight: Weight) -> (r: Self)
        ensures
            r == (ActionAfterRenderComponent { weight: weight, ..self }),
    {
        let mut a = self;
        a.weight = weight;
        a
    }

    /// Restricts the action to components of the kind with handle `handle`.
    pub fn filter_by_referer_handle(self, handle: Handle) -> (r: Self)
        ensures
            r == (ActionAfterRenderComponent { referer_handle: Some(handle), ..self }),
    {
        let mut a = self;
        a.referer_handle = Some(handle);
        a
    }

    /// Restricts the action to components with the identifier `id`.
    pub fn filter_by_referer_id(self, id: &str) -> (r: Self)
        ensures
            opt_view(r.referer_id) == Some(id@),
            r == (ActionAfterRenderComponent { referer_id: r.referer_id, ..self }),
    {
        let mut a = self;
        a.referer_id = Some(id.to_owned());
        a
    }

    /// Runs the action on `component`, if the component passes the filter.
    pub fn run(&self, component: &mut AnyComponent)
        ensures
            final(component)@ == self.applied(old(component)@),
    {
        run_filtered(&self.action, &self.referer_handle, &self.referer_id, component);
    }
}

/// An action of any of the kinds that the framework knows.
pub enum Action {
    BeforeRenderComponent(ActionBeforeRenderComponent),
    AfterRenderComponent(ActionAfterRenderComponent),
    BeforeRenderPage(ActionBeforeRenderPage),
    AfterPrepareBody(ActionAfterPrepareBody),
}

/// An action of any kind.
pub type HookAction = Action;

impl Action {
    pub open spec fn spec_handle(&self) -> Handle {
        match self {
            Action::BeforeRenderComponent(a) => a.spec_handle(),
            Action::AfterRenderComponent(a) => a.spec_handle(),
            Action::BeforeRenderPage(a) => a.spec_handle(),
            Action::AfterPrepareBody(a) => a.spec_handle(),
        }
    }

    pub open spec fn spec_weight(&self) -> Weight {
        match self {
            Action::BeforeRenderComponent(a) => a.spec_weight(),
            Action::AfterRenderComponent(a) => a.spec_weight(),
            Action::BeforeRenderPage(a) => a.spec_weight(),
            Action::AfterPrepareBody(a) => a.spec_weight(),
        }
    }

    /// What the action does to a component: nothing, unless it is an action
    /// for components.
    pub open spec fn on_component(&self, c: ComponentView) -> ComponentView {
        match self {
            Action::BeforeRenderComponent(a) => a.applied(c),
            Action::AfterRenderComponent(a) => a.applied(c),
            _ => c,
        }
    }

    /// What the action does to a page: nothing, unless it is an action for pages.
    pub open spec fn on_page(&self, page: PageView) -> PageView {
        match self {
            Action::BeforeRenderPage(a) => page_acted(a.action, page),
            Action::AfterPrepareBody(a) => page_acted(a.action, page),
            _ => page,
        }
    }

    pub fn handle(&self) -> (h: Handle)
        ensures
            h == self.spec_handle(),
    {
        match self {
            Action::BeforeRenderComponent(a) => a.handle(),
            Action::AfterRenderComponent(a) => a.handle(),
            Action::BeforeRenderPage(a) => a.handle(),
            Action::AfterPrepareBody(a) => a.handle(),
        }
    }

    pub fn weight(&self) -> (w: Weight)
        ensures
            w == self.spec_weight(),
    {
        match self {
            Action::BeforeRenderComponent(a) => a.weight(),
            Action::AfterRenderComponent(a) => a.weight(),
            Action::BeforeRenderPage(a) => a.weight(),
            Action::AfterPrepareBody(a) => a.weight(),
        }
    }

    pub fn run_on_component(&self, component: &mut AnyComponent)
        ensures
            final(component)@ == self.on_component(old(component)@),
    {
        match self {
            Action::BeforeRenderComponent(a) => a.run(component),
            Action::AfterRenderComponent(a) => a.run(component),
            _ => {},
        }
    }

    pub fn run_on_page(&self, page: &mut Page)
        ensures
            final(page)@ == self.on_page(old(page)@),
    {
        match self {
            Action::BeforeRenderPage(a) => a.run(page),
            Action::AfterPrepareBody(a) => a.run(page),
            _ => {},
        }
    }
}

/// What the framework reads of an action for components: the change it
/// makes, its weight, and the components it is restricted to.
pub struct ComponentActionView {
    pub change: Option<ComponentChangeView>,
    pub weight: Weight,
    pub referer_handle: Option<Handle>,
    pub referer_id: Option<Seq<char>>,
}

/// What the framework reads of an action for pages: the change it makes and
/// its weight.
pub struct PageActionView {
    pub change: Option<PageChangeView>,
    pub weight: Weight,
}

/// An action of any kind, as the framework reads it.
pub enum ActionView {
    BeforeRenderComponent(ComponentActionView),
    AfterRenderComponent(ComponentActionView),
    BeforeRenderPage(PageActionView),
    AfterPrepareBody(PageActionView),
}

/// The view of an optional change to a page.
pub open spec fn page_change_view(change: Option<PageChange>) -> Option<PageChangeView> {
    match change {
        Some(c) => Some(c@),
        None => None,
    }
}

impl View for Action {
    type V = ActionView;

    open spec fn view(&self) -> ActionView {
        match self {
            Action::BeforeRenderComponent(a) => ActionView::BeforeRenderComponent(
                ComponentActionView {
                    change: change_view(a.action),
                    weight: a.weight,
                    referer_handle: a.referer_handle,
                    referer_id: opt_view(a.referer_id),
                },
            ),
            Action::AfterRenderComponent(a) => ActionView::AfterRenderComponent(
                ComponentActionView {
                    change: change_view(a.action),
                    weight: a.weight,
                    referer_handle: a.referer_handle,
                    referer_id: opt_view(a.referer_id),
                },
            ),
            Action::BeforeRenderPage(a) => ActionView::BeforeRenderPage(
                PageActionView { change: page_change_view(a.action), weight: a.weight },
            ),
            Action::AfterPrepareBody(a) => ActionView::AfterPrepareBody(
                PageActionView { change: page_change_view(a.action), weight: a.weight },
            ),
        }
    }
}

impl ActionView {
    /// The extension point at which the action is called.
    pub open spec fn handle(self) -> Handle {
        match self {
            ActionView::BeforeRenderComponent(_) => ACTION_BEFORE_RENDER_COMPONENT,
            ActionView::AfterRenderComponent(_) => ACTION_AFTER_RENDER_COMPONENT,
            ActionView::BeforeRenderPage(_) => ACTION_BEFORE_RENDER_PAGE,
            ActionView::AfterPrepareBody(_) => ACTION_AFTER_PREPARE_BODY,
        }
    }

    pub open spec fn weight(self) -> Weight {
        match self {
            ActionView::BeforeRenderComponent(a) => a.weight,
            ActionView::AfterRenderComponent(a) => a.weight,
            ActionView::BeforeRenderPage(a) => a.weight,
            ActionView::AfterPrepareBody(a) => a.weight,
        }
    }

    /// What the action does to a component.
    pub open spec fn on_component(self, c: ComponentView) -> ComponentView {
        match self {
            ActionView::BeforeRenderComponent(a) => acted(
                a.change,
                a.referer_handle,
                a.referer_id,
                c,
            ),
            ActionView::AfterRenderComponent(a) => acted(
                a.change,
                a.referer_handle,
                a.referer_id,
                c,
            ),
            _ => c,
        }
    }

    /// What the action does to a page.
    pub open spec fn on_page(self, page: PageView) -> PageView {
        match self {
            ActionView::BeforeRenderPage(a) => match a.change {
                Some(change) => page_changed(page, change),
                None => page,
            },
            ActionView::AfterPrepareBody(a) => match a.change {
                Some(change) => page_changed(page, change),
                None => page,
            },
            _ => page,
        }
    }
}

/// The views of the actions, in their order.
pub open spec fn action_views(actions: Seq<Action>) -> Seq<ActionView> {
    actions.map_values(|a: Action| a@)
}

/// Where and when an action is called, and what it does, is told by its view.
pub proof fn lemma_action_by_view(a: Action, c: ComponentView, page: PageView)
    ensures
        a.spec_handle() == a@.handle(),
        a.spec_weight() == a@.weight(),
        a.on_component(c) == a@.on_component(c),
        a.on_page(page) == a@.on_page(page),
{
}

/// The weights of the actions, in the order of their registration.
pub open spec fn action_weights(actions: Seq<Action>) -> Seq<Weight> {
    actions.map_values(|a: Action| a.spec_weight())
}

/// The actions in the order in which they are called: by ascending weight,
/// and in the order of their registration where the weights are equal.
pub open spec fn dispatch_order(actions: Seq<Action>) -> Seq<Action> {
    let o = stable_order(action_weights(actions));
    Seq::new(actions.len(), |k: int| actions[o[k]])
}

/// Of two actions registered for one extension point, the lighter one is
/// called first, and of two of equal weight the one that was registered
/// first. The order depends on nothing but the registered actions, so every
/// dispatch between two registrations calls them in the same order.
pub proof fn lemma_dispatch_by_weight(actions: Seq<Action>, i: int, j: int)
    requires
        0 <= i < actions.len(),
        0 <= j < actions.len(),
        precedes(action_weights(actions), i, j),
    ensures
        exists|a: int, b: int|
            0 <= a < b < actions.len() && stable_order(action_weights(actions))[a] == i
                && stable_order(action_weights(actions))[b] == j && #[trigger] dispatch_order(
                actions,
            )[a] == actions[i] && #[trigger] dispatch_order(actions)[b] == actions[j],
{
    let w = action_weights(actions);
    let o = stable_order(w);
    lemma_stable_order(w);
    lemma_order_of_turns(w, i, j);
    let a = o.index_of(i);
    let b = o.index_of(j);
    assert(dispatch_order(actions)[a] == actions[i]);
    assert(dispatch_order(actions)[b] == actions[j]);
}

/// The component after the first `n` of `actions` ran, one after another.
pub open spec fn altered_by(actions: Seq<Action>, n: int, c: ComponentView) -> ComponentView
    decreases n,
{
    if n <= 0 || n > actions.len() {
        c
    } else {
        actions[n - 1].on_component(altered_by(actions, n - 1, c))
    }
}

/// The page after the first `n` of `actions` ran, one after another.
pub open spec fn page_altered_by(actions: Seq<Action>, n: int, page: PageView) -> PageView
    decreases n,
{
    if n <= 0 || n > actions.len() {
        page
    } else {
        actions[n - 1].on_page(page_altered_by(actions, n - 1, page))
    }
}

/// Actions change what a component is like, never what it holds.
pub proof fn lemma_altered_by_nesting(actions: Seq<Action>, n: int, c: ComponentView)
    ensures
        altered_by(actions, n, c).nesting() == c.nesting(),
    decreases n,
{
    if !(n <= 0 || n > actions.len()) {
        lemma_altered_by_nesting(actions, n - 1, c);
        let sofar = altered_by(actions, n - 1, c);
        match actions[n - 1] {
            Action::BeforeRenderComponent(a) => {
                if a.action is Some {
                    lemma_changed_nesting(sofar, a.action->0@);
                }
            },
            Action::AfterRenderComponent(a) => {
                if a.action is Some {
                    lemma_changed_nesting(sofar, a.action->0@);
                }
            },
            _ => {},
        }
    }
}

/// The actions registered for one extension point, in the order of their registration.
pub struct ActionsHolder {
    pub(crate) actions: Vec<Action>,
}

impl View for ActionsHolder {
    type V = Seq<Action>;

    closed spec fn view(&self) -> Seq<Action> {
        self.actions@
    }
}

impl ActionsHolder {
    pub fn new() -> (r: Self)
        ensures
            r@ == Seq::<Action>::empty(),
    {
        ActionsHolder { actions: Vec::new() }
    }

    pub fn new_with(action: Action) -> (r: Self)
        ensures
            r@ == seq![action],
    {
        let mut r = ActionsHolder::new();
        r.add(action);
        r
    }

    pub fn add(&mut self, action: Action)
        ensures
            final(self)@ == old(self)@.push(action),
    {
        self.actions.push(action);
    }

    /// The actions in the order in which they are called.
    pub fn in_order(&self) -> (r: Vec<&Action>)
        ensures
            r@.map_values(|a: &Action| *a) == dispatch_order(self@),
    {
        let mut weights: Vec<Weight> = Vec::new();
        let mut i: usize = 0;
        while i < self.actions.len()
            invariant
                i <= self.actions@.len(),
                weights@ == action_weights(self@).take(i as int),
            decreases self.actions@.len() - i,
        {
            weights.push(self.actions[i].weight());
            i = i + 1;
        }
        assert(action_weights(self@).take(self.actions@.len() as int) == action_weights(self@));
        let order = order_by_weight(&weights);
        let mut r: Vec<&Action> = Vec::new();
        let mut k: usize = 0;
        while k < order.len()
            invariant
                k <= order@.len(),
                order@.len() == self.actions@.len(),
                indices(order@) == stable_order(action_weights(self@)),
                forall|j: int|
                    0 <= j < order@.len() ==> (#[trigger] order@[j]) < self.actions@.len(),
                r@.map_values(|a: &Action| *a) == dispatch_order(self@).take(k as int),
            decreases order@.len() - k,
        {
            let a = &self.actions[order[k]];
            proof {
                assert(indices(order@)[k as int] == order@[k as int] as int);
                let d = dispatch_order(self@);
                assert(d.len() == self@.len());
                assert(d[k as int] == self@[order@[k as int] as int]);
                assert(d.take(k + 1) == d.take(k as int).push(d[k as int]));
                assert(r@.push(a).map_values(|a: &Action| *a) == r@.map_values(
                    |a: &Action| *a,
                ).push(*a));
            }
            r.push(a);
            k = k + 1;
        }
        assert(dispatch_order(self@).take(order@.len() as int) == dispatch_order(self@));
        r
    }
}

/// The actions of all extension points, by the handle of the extension point.
pub struct ActionsRegistry {
    buckets: HashMap<Handle, ActionsHolder>,
}

impl ActionsRegistry {
    /// The actions registered for the extension point `h`, in the order of
    /// their registration.
    pub closed spec fn bucket(&self, h: Handle) -> Seq<Action> {
        if self.buckets@.contains_key(h) {
            self.buckets@[h]@
        } else {
            Seq::empty()
        }
    }

    /// The component after the actions of the extension point `h` ran, in
    /// the order in which they are called.
    pub open spec fn component_altered(&self, h: Handle, c: ComponentView) -> ComponentView {
        let actions = dispatch_order(self.bucket(h));
        altered_by(actions, actions.len() as int, c)
    }

    /// The page after the actions of the extension point `h` ran, in the
    /// order in which they are called.
    pub open spec fn page_altered(&self, h: Handle, page: PageView) -> PageView {
        let actions = dispatch_order(self.bucket(h));
        page_altered_by(actions, actions.len() as int, page)
    }

    /// A registry without actions.
    pub fn new() -> (r: Self)
        ensures
            forall|h: Handle| #[trigger] r.bucket(h) == Seq::<Action>::empty(),
    {
        ActionsRegistry { buckets: HashMap::new() }
    }

    /// Registers `action` for its extension point, behind those registered before.
    pub fn add(&mut self, action: Action)
        ensures
            final(self).bucket(action.spec_handle()) == old(self).bucket(action.spec_handle()).push(
                action,
            ),
            forall|h: Handle|
                h != action.spec_handle() ==> #[trigger] final(self).bucket(h) == old(self).bucket(
                    h,
                ),
    {
        broadcast use vstd::std_specs::hash::group_hash_axioms;

        let h = action.handle();
        match self.buckets.remove(&h) {
            Some(holder) => {
                let mut holder = holder;
                holder.add(action);
                self.buckets.insert(h, holder);
            },
            None => {
                self.buckets.insert(h, ActionsHolder::new_with(action));
                assert(seq![action] == Seq::<Action>::empty().push(action));
            },
        }
    }

    /// The actions of the extension point `h` in the order in which they are called.
    pub fn actions(&self, h: Handle) -> (r: Vec<&Action>)
        ensures
            r@.map_values(|a: &Action| *a) == dispatch_order(self.bucket(h)),
    {
        broadcast use vstd::std_specs::hash::group_hash_axioms;

        match self.buckets.get(&h) {
            Some(holder) => holder.in_order(),
            None => {
                let r: Vec<&Action> = Vec::new();
                assert(r@.map_values(|a: &Action| *a) == dispatch_order(Seq::<Action>::empty()));
                r
            },
        }
    }

    /// Calls the actions of the extension point `h` on `component`, lighter
    /// ones first, those of equal weight in the order of their registration.
    pub fn run_component_actions(&self, h: Handle, component: &mut AnyComponent)
        ensures
            final(component)@ == self.component_altered(h, old(component)@),
            final(component)@.nesting() == old(component)@.nesting(),
    {
        let actions = self.actions(h);
        let ghost list = dispatch_order(self.bucket(h));
        let mut k: usize = 0;
        while k < actions.len()
            invariant
                k <= actions@.len(),
                actions@.map_values(|a: &Action| *a) == list,
                component@ == altered_by(list, k as int, old(component)@),
            decreases actions@.len() - k,
        {
            assert(list[k as int] == *actions@[k as int]);
            actions[k].run_on_component(component);
            k = k + 1;
        }
        proof {
            lemma_altered_by_nesting(list, list.len() as int, old(component)@);
        }
    }
}

impl ActionsRegistry {
    /// Calls the actions of the extension point `h` on `page`, lighter ones
    /// first, those of equal weight in the order of their registration.
    pub fn run_page_actions(&self, h: Handle, page: &mut Page)
        ensures
            final(page)@ == self.page_altered(h, old(page)@),
    {
        let actions = self.actions(h);
        let ghost list = dispatch_order(self.bucket(h));
        let mut k: usize = 0;
        while k < actions.len()
            invariant
                k <= actions@.len(),
                actions@.map_values(|a: &Action| *a) == list,
                page@ == page_altered_by(list, k as int, old(page)@),
            decreases actions@.len() - k,
        {
            assert(list[k as int] == *actions@[k as int]);
            actions[k].run_on_page(page);
            k = k + 1;
        }
    }
}

/// The actions of the extension point `h` after the first `n` of `actions`
/// were registered: those that were there, and behind them those of
/// `actions` that are for `h`, in their order.
pub open spec fn bucket_with(before: Seq<Action>, actions: Seq<Action>, n: int, h: Handle) -> Seq<
    Action,
>
    decreases n,
{
    if n <= 0 || n > actions.len() {
        before
    } else if actions[n - 1].spec_handle() == h {
        bucket_with(before, actions, n - 1, h).push(actions[n - 1])
    } else {
        bucket_with(before, actions, n - 1, h)
    }
}

/// Registering two lists one after the other is registering the one list
/// made of both.
pub proof fn lemma_bucket_with_joined(
    before: Seq<Action>,
    first: Seq<Action>,
    second: Seq<Action>,
    n: int,
    h: Handle,
)
    requires
        0 <= n <= second.len(),
    ensures
        bucket_with(bucket_with(before, first, first.len() as int, h), second, n, h)
            == bucket_with(before, first + second, first.len() + n, h),
    decreases n,
{
    if n == 0 {
        lemma_bucket_with_prefix(before, first, first + second, first.len() as int, h);
    } else {
        lemma_bucket_with_joined(before, first, second, n - 1, h);
        assert((first + second)[first.len() + n - 1] == second[n - 1]);
    }
}

/// What the first `n` actions do to a bucket depends on those `n` alone.
pub proof fn lemma_bucket_with_prefix(
    before: Seq<Action>,
    short: Seq<Action>,
    long: Seq<Action>,
    n: int,
    h: Handle,
)
    requires
        0 <= n <= short.len() <= long.len(),
        forall|i: int| 0 <= i < n ==> short[i] == long[i],
    ensures
        bucket_with(before, short, n, h) == bucket_with(before, long, n, h),
    decreases n,
{
    if n > 0 {
        lemma_bucket_with_prefix(before, short, long, n - 1, h);
    }
}

/// Registers `actions` in `registry`, in their order.
pub fn register_all(registry: &mut ActionsRegistry, actions: Vec<Action>)
    ensures
        forall|h: Handle| #[trigger]
            final(registry).bucket(h) == bucket_with(
                old(registry).bucket(h),
                actions@,
                actions@.len() as int,
                h,
            ),
{
    let ghost all = actions@;
    let count: usize = actions.len();
    let mut rest = actions;
    let mut stack: Vec<Action> = Vec::new();
    while rest.len() > 0
        invariant
            rest@.len() <= all.len(),
            rest@ == all.take(rest@.len() as int),
            stack@.len() + rest@.len() == all.len(),
            forall|i: int| 0 <= i < stack@.len() ==> stack@[i] == all[all.len() - 1 - i],
        decreases rest@.len(),
    {
        let a = rest.pop().unwrap();
        stack.push(a);
    }
    let mut k: usize = 0;
    while stack.len() > 0
        invariant
            stack@.len() + k == all.len(),
            all.len() == count,
            forall|i: int| 0 <= i < stack@.len() ==> stack@[i] == all[all.len() - 1 - i],
            forall|h: Handle| #[trigger]
                registry.bucket(h) == bucket_with(old(registry).bucket(h), all, k as int, h),
        decreases stack@.len(),
    {
        let ghost before = *registry;
        let a = stack.pop().unwrap();
        assert(a == all[k as int]);
        registry.add(a);
        proof {
            assert forall|h: Handle| #[trigger]
                registry.bucket(h) == bucket_with(old(registry).bucket(h), all, k + 1, h) by {
                assert(before.bucket(h) == bucket_with(old(registry).bucket(h), all, k as int, h));
            }
        }
        k = k + 1;
    }
}

/// Registers `action` in `registry`.
pub fn add_action(registry: &mut ActionsRegistry, action: Action)
    ensures
        final(registry).bucket(action.spec_handle()) == old(registry).bucket(
            action.spec_handle(),
        ).push(action),
        forall|h: Handle|
            h != action.spec_handle() ==> #[trigger] final(registry).bucket(h) == old(
                registry,
            ).bucket(h),
{
    registry.add(action);
}

/// The actions registered for `action_handler`, in the order in which they
/// are to be called.
pub fn run_actions<'a>(registry: &'a ActionsRegistry, action_handler: Handle) -> (r: Vec<
    &'a Action,
>)
    ensures
        r@.map_values(|a: &Action| *a) == dispatch_order(registry.bucket(action_handler)),
{
    registry.actions(action_handler)
}

} // verus!
