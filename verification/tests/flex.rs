use pagetop::action::{ActionsRegistry, ComponentChange};
use pagetop::base::component::flex::{
    Item, ItemAlign, ItemGrow, ItemOffset, ItemShrink, ItemSize,
};
use pagetop::base::component::Html;
use pagetop::base::theme::Basic;
use pagetop::component::{
    render_component, AnyComponent, BundleOp, ComponentTrait, COMPONENT_FLEX_ITEM,
};
use pagetop::context::Context;
use pagetop::html::{ClassesOp, Markup};

fn show(item: Item) -> String {
    let mut c = AnyComponent::FlexItem(item);
    let mut cx = Context::new("en");
    render_component(&mut c, &mut cx, &Basic, &ActionsRegistry::new()).into_string()
}

fn html(s: &str) -> AnyComponent {
    AnyComponent::Html(Html::with(Markup::raw(s)))
}

#[test]
fn a_flex_item_as_it_is_made() {
    assert_eq!(
        show(Item::new()),
        "<div class=\"pt-flex__item\"><div class=\"pt-flex__item-inner\"></div></div>"
    );
    assert_eq!(Item::new().handle(), COMPONENT_FLEX_ITEM);
}

#[test]
fn the_weight_gives_the_order() {
    assert_eq!(
        show(Item::new().with_weight(3).add_component(html("x"))),
        "<div class=\"pt-flex__item\" style=\"order: 3;\"><div class=\"pt-flex__item-inner\">x</div></div>"
    );
    assert_eq!(
        show(Item::new().with_weight(-12)),
        "<div class=\"pt-flex__item\" style=\"order: -12;\"><div class=\"pt-flex__item-inner\"></div></div>"
    );
}

#[test]
fn the_settings_of_an_item_are_classes() {
    let mut item = Item::new();
    item.alter_grow(ItemGrow::Is2)
        .alter_shrink(ItemShrink::Is9)
        .alter_size(ItemSize::Percent33)
        .alter_offset(ItemOffset::Offset10)
        .alter_align(ItemAlign::Middle);
    assert_eq!(
        item.item_classes().get(),
        Some(
            "pt-flex__item pt-flex__grow-2 pt-flex__shrink-9 pt-flex__width-33 pt-flex__offset-10 pt-flex__item-middle"
                .to_string()
        )
    );
    item.alter_grow(ItemGrow::Is1).alter_size(ItemSize::Default).alter_align(ItemAlign::Top);
    assert_eq!(
        item.item_classes().get(),
        Some(
            "pt-flex__item pt-flex__shrink-9 pt-flex__offset-10 pt-flex__grow-1 pt-flex__item-top"
                .to_string()
        )
    );
    assert!(matches!(item.grow(), ItemGrow::Is1));
    assert!(matches!(item.shrink(), ItemShrink::Is9));
    assert!(matches!(item.size(), ItemSize::Default));
    assert!(matches!(item.offset(), ItemOffset::Offset10));
    assert!(matches!(item.align(), ItemAlign::Top));
    let item = item
        .with_grow(ItemGrow::Default)
        .with_shrink(ItemShrink::Default)
        .with_offset(ItemOffset::Default)
        .with_align(ItemAlign::Default)
        .with_size(ItemSize::Percent90);
    assert_eq!(item.item_classes().get(), Some("pt-flex__item pt-flex__width-90".to_string()));
}

#[test]
fn classes_of_every_setting() {
    assert_eq!(ItemGrow::Default.class(), "");
    assert_eq!(ItemGrow::Is5.class(), "pt-flex__grow-5");
    assert_eq!(ItemShrink::Default.class(), "");
    assert_eq!(ItemShrink::Is1.class(), "pt-flex__shrink-1");
    assert_eq!(ItemSize::Percent10.class(), "pt-flex__width-10");
    assert_eq!(ItemSize::Percent66.class(), "pt-flex__width-66");
    assert_eq!(ItemOffset::Offset75.class(), "pt-flex__offset-75");
    assert_eq!(ItemAlign::Bottom.class(), "pt-flex__item-bottom");
    assert_eq!(ItemAlign::Stretch.class(), "pt-flex__item-stretch");
    assert_eq!(ItemAlign::Baseline.class(), "pt-flex__item-baseline");
}

#[test]
fn a_flex_item_with_everything() {
    let mut item = Item::new();
    item.alter_id("i 1")
        .alter_item_classes(ClassesOp::Add, "mine")
        .alter_inner_classes(ClassesOp::Reset, "inner")
        .alter_components(BundleOp::Add, html("b"))
        .alter_components(BundleOp::AddFirst, html("a"));
    let item = item
        .with_id("i 2")
        .with_item_classes(ClassesOp::Remove, "pt-flex__item")
        .with_inner_classes(ClassesOp::Add, "more")
        .with_components(BundleOp::Add, html("c"));
    assert_eq!(item.inner_classes().get(), Some("inner more".to_string()));
    assert_eq!(item.components().len(), 3);
    assert_eq!(
        show(item),
        "<div id=\"i_2\" class=\"mine\"><div class=\"inner more\">abc</div></div>"
    );
}

#[test]
fn changes_reach_the_classes_of_the_item() {
    let mut any = AnyComponent::FlexItem(Item::new());
    any.apply(&ComponentChange::Classes(ClassesOp::Add, "x".to_string()));
    any.apply(&ComponentChange::Id("f".to_string()));
    any.apply(&ComponentChange::Weight(1));
    let mut cx = Context::new("en");
    assert_eq!(
        render_component(&mut any, &mut cx, &Basic, &ActionsRegistry::new()).into_string(),
        "<div id=\"f\" class=\"pt-flex__item x\" style=\"order: 1;\"><div class=\"pt-flex__item-inner\"></div></div>"
    );
}
