use pagetop::action::ActionsRegistry;
use pagetop::base::component::menu::{Item, ItemType, Megamenu, Submenu};
use pagetop::base::component::{Html, L10n};
use pagetop::base::theme::Basic;
use pagetop::component::{
    render_component, AnyComponent, BundleOp, ComponentTrait, IsRenderable, COMPONENT_MENU_ITEM,
    COMPONENT_SUBMENU,
};
use pagetop::context::Context;
use pagetop::html::Markup;

fn show(component: AnyComponent) -> String {
    let mut c = component;
    let mut cx = Context::new("en");
    render_component(&mut c, &mut cx, &Basic, &ActionsRegistry::new()).into_string()
}

#[test]
fn a_void_item_gives_nothing() {
    assert_eq!(show(AnyComponent::MenuItem(Item::new())), "");
    assert!(matches!(Item::new().item_type(), ItemType::Void));
}

#[test]
fn a_label() {
    assert_eq!(
        show(AnyComponent::MenuItem(Item::label(L10n::n("A & B")))),
        "<li class=\"pt-menu__label\"><span>A &amp; B</span></li>"
    );
    assert_eq!(
        show(AnyComponent::MenuItem(
            Item::label(L10n::n("L")).with_description(L10n::n("More \"here\""))
        )),
        "<li class=\"pt-menu__label\"><span title=\"More &quot;here&quot;\">L</span></li>"
    );
}

#[test]
fn links() {
    assert_eq!(
        show(AnyComponent::MenuItem(Item::link(L10n::n("Home"), "/?a=1&b=2"))),
        "<li class=\"pt-menu__link\"><a href=\"/?a=1&amp;b=2\">Home</a></li>"
    );
    assert_eq!(
        show(AnyComponent::MenuItem(
            Item::link_blank(L10n::n("Out"), "https://example.org").with_description(L10n::n("d"))
        )),
        "<li class=\"pt-menu__link\"><a href=\"https://example.org\" title=\"d\" target=\"_blank\">Out</a></li>"
    );
}

#[test]
fn markup_as_item() {
    assert_eq!(
        show(AnyComponent::MenuItem(Item::html(Html::with(Markup::raw("<hr>"))))),
        "<li class=\"pt-menu__html\"><hr></li>"
    );
}

#[test]
fn a_submenu_unfolds_its_items() {
    let sub = Submenu::new()
        .with_id("sub 1")
        .with_title(L10n::n("More <things>"))
        .add_item(Item::label(L10n::n("second")).with_weight(2))
        .add_item(Item::link(L10n::n("first"), "/1").with_weight(1));
    assert_eq!(sub.items().len(), 2);
    assert_eq!(sub.title().using("en"), Some("More <things>".to_string()));
    let item = Item::submenu(L10n::n("Open"), sub);
    assert!(matches!(item.item_type(), ItemType::Submenu(_)));
    assert_eq!(
        show(AnyComponent::MenuItem(item)),
        "<li class=\"pt-menu__children\"><a href=\"#\">Open<i class=\"pt-menu__icon bi-chevron-down\"></i></a><div class=\"pt-menu__subs\"><div id=\"sub_1\" class=\"pt-menu__items\"><h4 class=\"pt-menu__title\">More &lt;things&gt;</h4><ul><li class=\"pt-menu__link\"><a href=\"/1\">first</a></li><li class=\"pt-menu__label\"><span>second</span></li></ul></div></div></li>"
    );
}

#[test]
fn a_megamenu_unfolds_its_groups() {
    let mega = Megamenu::new().add_group(AnyComponent::Html(Html::with(Markup::raw("g"))));
    let item = Item::megamenu(L10n::n("All"), mega).with_description(L10n::n("t"));
    assert_eq!(item.description().using("en"), Some("t".to_string()));
    assert_eq!(
        show(AnyComponent::MenuItem(item)),
        "<li class=\"pt-menu__children\"><a href=\"#\" title=\"t\">All<i class=\"pt-menu__icon bi-chevron-down\"></i></a><div class=\"pt-menu__subs pt-menu__mega\"><div class=\"pt-menu__groups\">g</div></div></li>"
    );
}

#[test]
fn a_submenu_of_its_own() {
    assert_eq!(
        show(AnyComponent::Submenu(Submenu::new())),
        "<div class=\"pt-menu__items\"><ul></ul></div>"
    );
    let mut sub = Submenu::new();
    sub.alter_id("s")
        .alter_title(L10n::new())
        .alter_weight(3)
        .alter_renderable(IsRenderable::Always)
        .alter_items(BundleOp::Add, Item::label(L10n::n("b")))
        .alter_items(BundleOp::AddFirst, Item::label(L10n::n("a")));
    let sub = sub.with_items(BundleOp::Add, Item::new()).with_weight(4);
    assert_eq!(sub.weight(), 4);
    assert_eq!(sub.handle(), COMPONENT_SUBMENU);
    assert_eq!(
        show(AnyComponent::Submenu(sub)),
        "<div id=\"s\" class=\"pt-menu__items\"><ul><li class=\"pt-menu__label\"><span>a</span></li><li class=\"pt-menu__label\"><span>b</span></li></ul></div>"
    );
}

#[test]
fn items_have_weight_and_renderability() {
    let mut item = Item::label(L10n::n("x"));
    item.alter_weight(-2).alter_renderable(IsRenderable::Never).alter_description(L10n::n("d"));
    assert_eq!(item.weight(), -2);
    assert_eq!(item.handle(), COMPONENT_MENU_ITEM);
    assert_eq!(show(AnyComponent::MenuItem(item)), "");
    let item = Item::label(L10n::n("x")).with_renderable(IsRenderable::Always).with_weight(1);
    assert_eq!(
        show(AnyComponent::MenuItem(item)),
        "<li class=\"pt-menu__label\"><span>x</span></li>"
    );
}
