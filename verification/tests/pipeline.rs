use pagetop::action::{
    add_action, run_actions, Action, ActionAfterRenderComponent, ActionBeforeRenderComponent,
    ActionTrait, ActionsRegistry, ComponentChange, ACTION_AFTER_RENDER_COMPONENT,
    ACTION_BEFORE_RENDER_COMPONENT,
};
use pagetop::base::component::{Container, Heading, Html, L10n, Megamenu};
use pagetop::base::theme::Basic;
use pagetop::component::{
    render_component, AnyComponent, ComponentTrait, ComponentsBundle, IsRenderable,
    PageContainer, Renderable, COMPONENT_CONTAINER, COMPONENT_HEADING,
};
use pagetop::context::{Context, ContextOp};
use pagetop::html::{ClassesOp, Markup};
use pagetop::theme::ThemeTrait;
use std::cell::Cell;

/// A theme that counts how often it is asked, and that replaces the markup of
/// the components with the handle it is given.
struct Spy {
    prepared: Cell<u32>,
    asked: Cell<u32>,
    replaces: Option<u64>,
}

impl Spy {
    fn new(replaces: Option<u64>) -> Self {
        Spy { prepared: Cell::new(0), asked: Cell::new(0), replaces }
    }
}

impl ThemeTrait for Spy {
    fn before_render_component(&self, _component: &mut AnyComponent, _cx: &mut Context) {
        self.prepared.set(self.prepared.get() + 1);
    }

    fn render_component(&self, component: &AnyComponent, _cx: &mut Context) -> Option<Markup> {
        self.asked.set(self.asked.get() + 1);
        if Some(component.handle()) == self.replaces {
            Some(Markup::raw("<theme/>"))
        } else {
            None
        }
    }
}

fn html(s: &str) -> AnyComponent {
    AnyComponent::Html(Html::with(Markup::raw(s)))
}

fn heading(text: &'static str, weight: isize) -> AnyComponent {
    AnyComponent::Heading(Heading::h1(L10n::n(text)).with_weight(weight))
}

#[test]
fn bundle_renders_by_weight_and_keeps_ties_in_order() {
    let mut bundle = PageContainer::new();
    bundle.add(heading("five", 5));
    bundle.add(heading("one-a", 1));
    bundle.add(heading("one-b", 1));
    bundle.add(heading("three", 3));
    assert_eq!(bundle.weights(), vec![5, 1, 1, 3]);
    let mut cx = Context::new("en");
    let m = bundle.render(&mut cx, &Basic, &ActionsRegistry::new());
    assert_eq!(m.into_string(), "<h1>one-a</h1><h1>one-b</h1><h1>three</h1><h1>five</h1>");
    assert_eq!(bundle.len(), 4);
    assert_eq!(bundle.weights(), vec![5, 1, 1, 3]);
}

#[test]
fn bundle_rendering_is_repeatable() {
    let mut bundle = ComponentsBundle::new_with(heading("b", 0));
    bundle.alter_bundle(pagetop::component::BundleOp::AddFirst, heading("a", 0));
    assert!(!bundle.is_empty());
    let mut cx = Context::new("en");
    let first = bundle.render(&mut cx, &Basic, &ActionsRegistry::new()).into_string();
    let second = bundle.render(&mut cx, &Basic, &ActionsRegistry::new()).into_string();
    assert_eq!(first, "<h1>a</h1><h1>b</h1>");
    assert_eq!(first, second);
    assert!(PageContainer::new().is_empty());
    assert_eq!(PageContainer::new().render(&mut cx, &Basic, &ActionsRegistry::new()).as_str(), "");
}

#[test]
fn nested_bundles_are_ordered_at_every_level() {
    let inner = Container::new()
        .with_weight(-1)
        .with_component(html("b"))
        .with_component(AnyComponent::Heading(Heading::h2(L10n::n("a")).with_weight(-5)));
    let outer = Container::main()
        .with_component(html("z"))
        .with_component(AnyComponent::Container(inner));
    let mut any = AnyComponent::Container(outer);
    let mut cx = Context::new("en");
    let m = render_component(&mut any, &mut cx, &Basic, &ActionsRegistry::new());
    assert_eq!(
        m.into_string(),
        "<main class=\"main\"><div class=\"container\"><div class=\"container\"><h2>a</h2>b</div>z</div></main>"
    );
}

#[test]
fn a_component_that_is_not_renderable_gives_nothing() {
    let spy = Spy::new(Some(COMPONENT_CONTAINER));
    let c = Container::new()
        .with_renderable(IsRenderable::Never)
        .with_component(heading("inside", 0))
        .with_component(html("<hr>"));
    let mut any = AnyComponent::Container(c);
    let mut cx = Context::new("en");
    let m = render_component(&mut any, &mut cx, &spy, &ActionsRegistry::new());
    assert_eq!(m.into_string(), "");
    // The theme saw the container before the decision, and nothing after it:
    // no override was asked for, and what the container holds was not touched.
    assert_eq!(spy.prepared.get(), 1);
    assert_eq!(spy.asked.get(), 0);
}

#[test]
fn renderability_follows_the_language() {
    let show = |check: IsRenderable, lang: &str| {
        let mut any = AnyComponent::Heading(Heading::h1(L10n::n("x")).with_renderable(check));
        let mut cx = Context::new(lang);
        render_component(&mut any, &mut cx, &Basic, &ActionsRegistry::new()).into_string()
    };
    assert_eq!(show(IsRenderable::Always, "en"), "<h1>x</h1>");
    assert_eq!(show(IsRenderable::Never, "en"), "");
    assert_eq!(show(IsRenderable::InLanguage("es".to_string()), "es"), "<h1>x</h1>");
    assert_eq!(show(IsRenderable::InLanguage("es".to_string()), "en"), "");
    assert_eq!(show(IsRenderable::NotInLanguage("es".to_string()), "es"), "");
    assert_eq!(show(IsRenderable::NotInLanguage("es".to_string()), "en"), "<h1>x</h1>");
    let cx = Context::new("en");
    assert!(Renderable::new().holds(&cx));
    assert!(pagetop::component::render_always().check(&cx));
    assert!(IsRenderable::InLanguage("en".to_string()).duplicate().check(&cx));
}

#[test]
fn an_override_of_the_theme_replaces_the_default_renderer() {
    let spy = Spy::new(Some(COMPONENT_CONTAINER));
    let c = Container::new().with_component(heading("inside", 0)).with_component(html("<hr>"));
    let mut any = AnyComponent::Container(c);
    let mut cx = Context::new("en");
    let m = render_component(&mut any, &mut cx, &spy, &ActionsRegistry::new());
    assert_eq!(m.into_string(), "<theme/>");
    // Had the container's own renderer run, the theme would have been asked
    // about the two components that the container holds.
    assert_eq!(spy.prepared.get(), 1);
    assert_eq!(spy.asked.get(), 1);
}

#[test]
fn without_an_override_the_default_renderer_runs() {
    let spy = Spy::new(Some(COMPONENT_HEADING));
    let c = Container::new().with_component(heading("inside", 0)).with_component(html("<hr>"));
    let mut any = AnyComponent::Container(c);
    let mut cx = Context::new("en");
    let m = render_component(&mut any, &mut cx, &spy, &ActionsRegistry::new());
    assert_eq!(m.into_string(), "<div class=\"container\"><theme/><hr></div>");
    assert_eq!(spy.prepared.get(), 3);
    assert_eq!(spy.asked.get(), 3);
}

#[test]
fn default_render_skips_the_preparation() {
    let mut any = AnyComponent::Container(
        Container::new().with_renderable(IsRenderable::Never).with_component(html("x")),
    );
    let mut cx = Context::new("en");
    let m = any.default_render(&mut cx, &Basic, &ActionsRegistry::new());
    assert_eq!(m.into_string(), "<div class=\"container\">x</div>");
    let mut c = Container::new().with_component(html("y"));
    assert_eq!(
        c.default_render(&mut cx, &Basic, &ActionsRegistry::new()).into_string(),
        "<div class=\"container\">y</div>"
    );
}

fn before(change: ComponentChange, weight: isize) -> Action {
    Action::BeforeRenderComponent(ActionBeforeRenderComponent::with(change).with_weight(weight))
}

#[test]
fn actions_run_by_weight_and_ties_in_registration_order() {
    let mut registry = ActionsRegistry::new();
    add_action(&mut registry, before(ComponentChange::Id("heavy".to_string()), 5));
    add_action(&mut registry, before(ComponentChange::Id("light".to_string()), -5));
    add_action(&mut registry, before(ComponentChange::Classes(ClassesOp::Add, "first".to_string()), 0));
    add_action(&mut registry, before(ComponentChange::Classes(ClassesOp::Add, "second".to_string()), 0));
    let order: Vec<isize> =
        run_actions(&registry, ACTION_BEFORE_RENDER_COMPONENT).iter().map(|a| a.weight()).collect();
    assert_eq!(order, vec![-5, 0, 0, 5]);
    let mut any = heading("t", 0);
    let mut cx = Context::new("en");
    let m = render_component(&mut any, &mut cx, &Basic, &registry);
    // The heavier action ran last, so its identifier stays; the two actions of
    // equal weight ran in the order of their registration.
    assert_eq!(m.into_string(), "<h1 id=\"heavy\" class=\"first second\">t</h1>");
    // Another dispatch without a registration in between calls them in the same order.
    let again: Vec<isize> =
        run_actions(&registry, ACTION_BEFORE_RENDER_COMPONENT).iter().map(|a| a.weight()).collect();
    assert_eq!(again, order);
}

#[test]
fn actions_of_another_extension_point_stay_out() {
    let mut registry = ActionsRegistry::new();
    registry.add(Action::AfterRenderComponent(
        ActionAfterRenderComponent::with(ComponentChange::Id("late".to_string())).with_weight(1),
    ));
    assert!(run_actions(&registry, ACTION_BEFORE_RENDER_COMPONENT).is_empty());
    assert_eq!(registry.actions(ACTION_AFTER_RENDER_COMPONENT).len(), 1);
    let mut any = heading("t", 0);
    let mut cx = Context::new("en");
    let m = render_component(&mut any, &mut cx, &Basic, &registry);
    // The markup was written before the action had its turn; the component keeps the change.
    assert_eq!(m.into_string(), "<h1>t</h1>");
    assert_eq!(any.id(), Some("late".to_string()));
}

#[test]
fn after_actions_are_skipped_for_what_is_not_rendered() {
    let mut registry = ActionsRegistry::new();
    registry.add(Action::AfterRenderComponent(ActionAfterRenderComponent::with(
        ComponentChange::Id("late".to_string()),
    )));
    let mut any =
        AnyComponent::Heading(Heading::h1(L10n::n("x")).with_renderable(IsRenderable::Never));
    let mut cx = Context::new("en");
    assert_eq!(render_component(&mut any, &mut cx, &Basic, &registry).into_string(), "");
    assert_eq!(any.id(), None);
}

#[test]
fn an_action_can_hide_a_component() {
    let mut registry = ActionsRegistry::new();
    registry.add(before(ComponentChange::Renderable(IsRenderable::Never), 0));
    let mut any = heading("t", 0);
    let mut cx = Context::new("en");
    assert_eq!(render_component(&mut any, &mut cx, &Basic, &registry).into_string(), "");
}

#[test]
fn an_action_changes_the_weight_of_a_component() {
    let mut any = heading("t", 1);
    any.apply(&ComponentChange::Weight(9));
    assert_eq!(any.weight(), 9);
    let mut any = html("x");
    any.apply(&ComponentChange::Weight(9));
    any.apply(&ComponentChange::Id("i".to_string()));
    assert_eq!(any.weight(), 0);
    assert_eq!(any.id(), None);
}

#[test]
fn a_filter_restricts_an_action_to_a_component() {
    let mut registry = ActionsRegistry::new();
    registry.add(Action::BeforeRenderComponent(
        ActionBeforeRenderComponent::new()
            .with_action(ComponentChange::Id("admin-menu-test-altered".to_string()))
            .filter_by_referer_handle(pagetop::component::COMPONENT_MEGAMENU)
            .filter_by_referer_id("admin-menu-test"),
    ));
    let show = |c: AnyComponent| {
        let mut c = c;
        let mut cx = Context::new("en");
        render_component(&mut c, &mut cx, &Basic, &registry).into_string()
    };
    assert_eq!(
        show(AnyComponent::Megamenu(Megamenu::new().with_id("admin-menu-test"))),
        "<div id=\"admin-menu-test-altered\" class=\"pt-menu__groups\"></div>"
    );
    assert_eq!(
        show(AnyComponent::Megamenu(Megamenu::new().with_id("other"))),
        "<div id=\"other\" class=\"pt-menu__groups\"></div>"
    );
    assert_eq!(
        show(AnyComponent::Megamenu(Megamenu::new())),
        "<div class=\"pt-menu__groups\"></div>"
    );
    assert_eq!(
        show(AnyComponent::Container(Container::new().with_id("admin-menu-test"))),
        "<div id=\"admin-menu-test\" class=\"container\"></div>"
    );
}

#[test]
fn an_action_without_a_change_does_nothing() {
    let a = ActionBeforeRenderComponent::new().with_weight(3);
    assert_eq!(a.weight(), 3);
    assert_eq!(a.handle(), ACTION_BEFORE_RENDER_COMPONENT);
    let mut any = heading("t", 0);
    a.run(&mut any);
    assert_eq!(any.id(), None);
    let a = ActionAfterRenderComponent::new()
        .with_action(ComponentChange::Id("x".to_string()))
        .filter_by_referer_handle(COMPONENT_CONTAINER)
        .filter_by_referer_id("y")
        .with_weight(-3);
    assert_eq!(a.weight(), -3);
    assert_eq!(a.handle(), ACTION_AFTER_RENDER_COMPONENT);
    a.run(&mut any);
    assert_eq!(any.id(), None);
    let a = Action::AfterRenderComponent(a);
    assert_eq!(a.handle(), ACTION_AFTER_RENDER_COMPONENT);
    assert_eq!(a.weight(), -3);
    a.run_on_component(&mut any);
    assert_eq!(any.id(), None);
}

#[test]
fn the_context_collects_what_it_is_given() {
    let mut cx = Context::new("en");
    assert_eq!(cx.langid(), "en");
    assert_eq!(cx.theme(), pagetop::module::graph::THEME_BASIC);
    cx.alter(ContextOp::LangId("es".to_string())).alter(ContextOp::Theme(7));
    assert_eq!(cx.langid(), "es");
    assert_eq!(cx.theme(), 7);
}
