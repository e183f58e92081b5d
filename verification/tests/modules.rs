use pagetop::action::{
    Action, ActionBeforeRenderPage, ActionsRegistry, PageChange, ACTION_BEFORE_RENDER_COMPONENT,
    ACTION_BEFORE_RENDER_PAGE,
};
use pagetop::base::module::admin::MODULE_ADMIN;
use pagetop::base::module::jquery::MODULE_JQUERY;
use pagetop::base::module::mdbook::MODULE_MDBOOK;
use pagetop::base::module::node::MODULE_NODE;
use pagetop::base::module::{Admin, JQuery, MdBook, Node};
use pagetop::base::theme::aliner::{THEME_ALINER, THEME_ALINER_STOCK};
use pagetop::base::theme::bootsier::THEME_BOOTSIER;
use pagetop::base::theme::bulmix::THEME_BULMIX;
use pagetop::base::theme::minimal::THEME_MINIMAL;
use pagetop::base::theme::{Aliner, AlinerTheme, Basic, Bootsier, Bulmix, MinimalTheme};
use pagetop::html::ClassesOp;
use pagetop::module::graph::{
    add_to_dropped, compose, enabled_themes, find_module, has_handle, register_modules,
    ActivationError, THEME_BASIC,
};
use pagetop::module::{
    declare, name_from_path, no_actions, register_actions, single_type_name, ModuleBase,
    ModuleDecl, ModuleTrait,
};
use pagetop::theme::ThemeRef;

fn decl(handle: u64, theme: bool, dependencies: &[u64], drops: &[u64]) -> ModuleDecl {
    ModuleDecl {
        handle,
        name: format!("m{}", handle),
        theme,
        dependencies: dependencies.to_vec(),
        drop_modules: drops.to_vec(),
        actions: Vec::new(),
    }
}

fn position(list: &[u64], h: u64) -> usize {
    list.iter().position(|x| *x == h).unwrap()
}

#[test]
fn application_with_a_theme_is_enabled_behind_it() {
    // The application 10 depends on the theme 20 and switches nothing off.
    let catalog = vec![decl(10, false, &[20], &[]), decl(20, true, &[], &[])];
    let a = register_modules(&catalog, 10);
    assert_eq!(a.enabled, vec![THEME_BASIC, 20, 10]);
    assert_eq!(a.themes, vec![THEME_BASIC, 20]);
    assert!(a.dropped.is_empty());
}

#[test]
fn application_alone() {
    let catalog = vec![decl(1, false, &[], &[])];
    let a = register_modules(&catalog, 1);
    assert_eq!(a.enabled, vec![THEME_BASIC, 1]);
    assert_eq!(a.themes, vec![THEME_BASIC]);
}

#[test]
fn the_basic_theme_as_application() {
    let a = register_modules(&Vec::new(), THEME_BASIC);
    assert_eq!(a.enabled, vec![THEME_BASIC]);
    assert_eq!(a.themes, vec![THEME_BASIC]);
}

#[test]
fn dependencies_come_before_their_dependents() {
    // 1 -> 2, 3;  2 -> 3, 4;  3 -> 4;  5 is declared and not needed.
    let catalog = vec![
        decl(1, false, &[2, 3], &[]),
        decl(2, false, &[3, 4], &[]),
        decl(3, false, &[4], &[]),
        decl(4, false, &[], &[]),
        decl(5, false, &[1], &[]),
    ];
    let a = register_modules(&catalog, 1);
    assert_eq!(a.enabled, vec![THEME_BASIC, 4, 3, 2, 1]);
    for m in &catalog[..4] {
        for d in &m.dependencies {
            assert!(position(&a.enabled, *d) < position(&a.enabled, m.handle));
        }
    }
    assert!(!a.enabled.contains(&5));
}

#[test]
fn a_diamond_enables_every_module_once() {
    let catalog = vec![
        decl(1, false, &[2, 3], &[]),
        decl(2, false, &[4], &[]),
        decl(3, false, &[4], &[]),
        decl(4, false, &[], &[]),
    ];
    let a = register_modules(&catalog, 1);
    assert_eq!(a.enabled, vec![THEME_BASIC, 4, 2, 3, 1]);
}

#[test]
fn a_dependency_shared_with_a_dependency_comes_first() {
    // The root depends on a and b, and a depends on b: b has to come before a.
    let catalog =
        vec![decl(1, false, &[2, 3], &[]), decl(2, false, &[3], &[]), decl(3, false, &[], &[])];
    let a = register_modules(&catalog, 1);
    assert_eq!(a.enabled, vec![THEME_BASIC, 3, 2, 1]);
}

#[test]
fn a_cycle_is_walked_once() {
    let catalog = vec![decl(1, false, &[2], &[]), decl(2, false, &[1], &[])];
    let a = register_modules(&catalog, 1);
    assert_eq!(a.enabled, vec![THEME_BASIC, 2, 1]);
    let catalog = vec![decl(1, false, &[1], &[])];
    assert_eq!(register_modules(&catalog, 1).enabled, vec![THEME_BASIC, 1]);
}

#[test]
fn a_dependency_on_the_basic_theme_is_met() {
    let catalog = vec![decl(1, false, &[THEME_BASIC], &[])];
    let a = register_modules(&catalog, 1);
    assert_eq!(a.enabled, vec![THEME_BASIC, 1]);
}

#[test]
fn a_module_that_is_needed_and_dropped_fails_the_activation() {
    // 1 needs 2 and 3, and 3 switches 2 off.
    let catalog = vec![
        decl(1, false, &[2, 3], &[]),
        decl(2, false, &[], &[]),
        decl(3, false, &[], &[2]),
    ];
    assert!(matches!(compose(&catalog, 1), Err(ActivationError::Dropped(2))));
}

#[test]
fn an_application_that_drops_itself_fails() {
    let catalog = vec![decl(1, false, &[], &[1])];
    assert!(matches!(compose(&catalog, 1), Err(ActivationError::Dropped(1))));
}

#[test]
fn dropping_the_basic_theme_fails() {
    let catalog = vec![decl(1, false, &[], &[THEME_BASIC])];
    assert!(matches!(compose(&catalog, 1), Err(ActivationError::Dropped(THEME_BASIC))));
}

#[test]
fn dropping_what_is_not_needed_is_fine() {
    let catalog = vec![
        decl(1, false, &[2], &[9, 8]),
        decl(2, false, &[], &[8, 7]),
        decl(9, false, &[], &[1]),
    ];
    let a = register_modules(&catalog, 1);
    assert_eq!(a.enabled, vec![THEME_BASIC, 2, 1]);
    assert_eq!(a.dropped, vec![8, 7, 9]);
}

#[test]
fn a_module_that_is_not_declared_fails_the_activation() {
    let catalog = vec![decl(1, false, &[2], &[]), decl(2, false, &[3], &[])];
    assert!(matches!(compose(&catalog, 1), Err(ActivationError::Unknown(3))));
    assert!(matches!(compose(&catalog, 7), Err(ActivationError::Unknown(7))));
    assert!(matches!(compose(&Vec::new(), 1), Err(ActivationError::Unknown(1))));
}

#[test]
fn the_first_declaration_of_a_handle_counts() {
    let catalog =
        vec![decl(1, false, &[2], &[]), decl(2, true, &[], &[]), decl(2, false, &[9], &[1])];
    let a = register_modules(&catalog, 1);
    assert_eq!(a.enabled, vec![THEME_BASIC, 2, 1]);
    assert_eq!(a.themes, vec![THEME_BASIC, 2]);
    assert_eq!(find_module(&catalog, 2), Some(1));
    assert_eq!(find_module(&catalog, 3), None);
}

#[test]
fn helpers_of_the_walk() {
    assert!(has_handle(&vec![1, 2, 3], 2));
    assert!(!has_handle(&vec![1, 2, 3], 4));
    assert!(!has_handle(&Vec::new(), 0));
    let catalog = vec![decl(1, true, &[], &[5, 6]), decl(2, false, &[], &[6, 7])];
    assert_eq!(add_to_dropped(&catalog, &vec![THEME_BASIC, 2, 1]), vec![6, 7, 5]);
    assert_eq!(enabled_themes(&catalog, &vec![THEME_BASIC, 2, 1, 3]), vec![THEME_BASIC, 1]);
}

#[test]
fn the_stock_modules_declare_themselves() {
    let d = declare(&Bootsier);
    assert_eq!(d.handle, THEME_BOOTSIER);
    assert_eq!(d.name, "Bootsier");
    assert!(d.theme);
    assert_eq!(d.dependencies, vec![MODULE_JQUERY]);
    assert!(d.drop_modules.is_empty());
    assert!(d.actions.is_empty());
    let d = declare(&Admin);
    assert_eq!(d.handle, MODULE_ADMIN);
    assert_eq!(d.name, "Admin");
    assert!(!d.theme);
    assert_eq!(d.actions.len(), 2);
    assert_eq!(d.actions[0].handle(), ACTION_BEFORE_RENDER_PAGE);
    assert_eq!(d.actions[1].handle(), ACTION_BEFORE_RENDER_COMPONENT);
    let d = declare(&Node);
    assert_eq!(d.handle, MODULE_NODE);
    assert_eq!(d.actions.len(), 1);
    assert_eq!(d.actions[0].weight(), -1);
    assert_eq!(declare(&MdBook).handle, MODULE_MDBOOK);
    assert_eq!(declare(&JQuery).handle, MODULE_JQUERY);
    assert_eq!(declare(&Basic).handle, THEME_BASIC);
    assert_eq!(declare(&Aliner).handle, THEME_ALINER);
    assert_eq!(declare(&AlinerTheme).handle, THEME_ALINER_STOCK);
    assert_eq!(declare(&Bulmix).handle, THEME_BULMIX);
    assert_eq!(declare(&MinimalTheme).handle, THEME_MINIMAL);
    let handles = [
        THEME_BASIC,
        THEME_ALINER,
        THEME_ALINER_STOCK,
        THEME_BULMIX,
        THEME_BOOTSIER,
        THEME_MINIMAL,
        MODULE_JQUERY,
        MODULE_ADMIN,
        MODULE_NODE,
        MODULE_MDBOOK,
    ];
    for i in 0..handles.len() {
        for j in 0..i {
            assert_ne!(handles[i], handles[j]);
        }
    }
}

#[test]
fn names_of_modules() {
    assert_eq!(single_type_name("a::b::Name"), "Name");
    assert_eq!(single_type_name("Name"), "Name");
    assert_eq!(single_type_name("a::"), "");
    assert_eq!(single_type_name(""), "");
    assert_eq!(Admin.single_name(), "Admin");
    assert_eq!(Admin.path(), "pagetop_admin::Admin");
    assert_eq!(MdBook.single_name(), "MdBook");
    assert_eq!(Node.name().using("en"), Some("Node".to_string()));
    assert_eq!(Node.description().using("en"), None);
    assert_eq!(MinimalTheme.name(), "minimal");
    assert_eq!(MinimalTheme.fullname(), "Minimal");
    assert_eq!(AlinerTheme.name(), "aliner");
    assert_eq!(AlinerTheme.fullname(), "Aliner");
}

#[test]
fn themes_say_that_they_are_themes() {
    let themes: Vec<Option<ThemeRef>> = vec![
        Basic.theme(),
        Aliner.theme(),
        AlinerTheme.theme(),
        Bulmix.theme(),
        Bootsier.theme(),
        MinimalTheme.theme(),
    ];
    assert!(themes.iter().all(|t| t.is_some()));
    assert!(Admin.theme().is_none());
    assert!(Node.theme().is_none());
    assert!(JQuery.theme().is_none());
    assert!(MdBook.theme().is_none());
    assert!(Admin.dependencies().is_empty());
    assert!(Admin.drop_modules().is_empty());
    Admin.init();
    assert!(Basic.actions().is_empty());
}

#[test]
fn the_stock_application_is_composed() {
    let catalog =
        vec![declare(&Admin), declare(&Bootsier), declare(&JQuery), declare(&Node), {
            let mut app = decl(1, false, &[MODULE_ADMIN, THEME_BOOTSIER, MODULE_NODE], &[]);
            app.name = "App".to_string();
            app
        }];
    let a = register_modules(&catalog, 1);
    assert_eq!(
        a.enabled,
        vec![THEME_BASIC, MODULE_ADMIN, MODULE_JQUERY, THEME_BOOTSIER, MODULE_NODE, 1]
    );
    assert_eq!(a.themes, vec![THEME_BASIC, THEME_BOOTSIER]);
}

fn page_action(class: &str, weight: isize) -> Action {
    Action::BeforeRenderPage(
        ActionBeforeRenderPage::with(PageChange::BodyClasses(ClassesOp::Add, class.to_string()))
            .with_weight(weight),
    )
}

#[test]
fn actions_are_registered_module_by_module() {
    let mut first = decl(1, false, &[], &[]);
    first.actions = vec![page_action("a", 0), page_action("b", 0)];
    let mut second = decl(2, false, &[], &[]);
    second.actions = vec![page_action("c", 0)];
    let mut unused = decl(3, false, &[], &[]);
    unused.actions = vec![page_action("z", 0)];
    let mut catalog = vec![first, unused, second];
    let mut registry = ActionsRegistry::new();
    // The module 2 is activated before the module 1; naming it again registers nothing.
    register_actions(&mut registry, &mut catalog, &vec![THEME_BASIC, 2, 1, 2]);
    let classes: Vec<String> = registry
        .actions(ACTION_BEFORE_RENDER_PAGE)
        .iter()
        .map(|a| match a {
            Action::BeforeRenderPage(ActionBeforeRenderPage {
                action: Some(PageChange::BodyClasses(_, c)),
                ..
            }) => c.clone(),
            _ => String::new(),
        })
        .collect();
    assert_eq!(classes, vec!["c", "a", "b"]);
    assert!(catalog[0].actions.is_empty());
    assert_eq!(catalog[1].actions.len(), 1);
    assert!(catalog[2].actions.is_empty());
    assert_eq!(catalog.iter().map(|m| m.handle).collect::<Vec<_>>(), vec![1, 3, 2]);
}

#[test]
fn the_active_theme_is_found_by_name() {
    use_theme_by_name();
}

fn use_theme_by_name() {
    let mut a = decl(20, true, &[], &[]);
    a.name = "Aliner".to_string();
    let mut b = decl(21, true, &[], &[]);
    b.name = "Bulmix".to_string();
    let mut c = decl(22, true, &[], &[]);
    c.name = "Aliner".to_string();
    let catalog = vec![a, b, c];
    let themes = vec![THEME_BASIC, 21, 20, 22, 23];
    let by_name = pagetop::module::graph::theme_by_name;
    assert_eq!(by_name(&catalog, &themes, "Aliner"), 20);
    assert_eq!(by_name(&catalog, &themes, "Bulmix"), 21);
    assert_eq!(by_name(&catalog, &themes, "23"), 23);
    assert_eq!(by_name(&catalog, &themes, "Basic"), THEME_BASIC);
    assert_eq!(by_name(&catalog, &themes, "aliner"), THEME_BASIC);
    assert_eq!(by_name(&catalog, &Vec::new(), "Aliner"), THEME_BASIC);
}

#[test]
fn composing_gives_the_activation_or_the_module_in_the_way() {
    let catalog = vec![decl(1, false, &[2], &[]), decl(2, true, &[], &[9])];
    let a = compose(&catalog, 1).unwrap();
    let b = register_modules(&catalog, 1);
    assert_eq!(a.enabled, vec![THEME_BASIC, 2, 1]);
    assert_eq!(a.enabled, b.enabled);
    assert_eq!(a.dropped, vec![9]);
    assert_eq!(a.dropped, b.dropped);
    assert_eq!(a.themes, vec![THEME_BASIC, 2]);
    assert_eq!(a.themes, b.themes);
    let catalog = vec![decl(1, false, &[2], &[]), decl(2, true, &[], &[1])];
    let e = compose(&catalog, 1).unwrap_err();
    assert_eq!(e, ActivationError::Dropped(1));
    assert_eq!(e.module(), 1);
}

#[test]
fn the_first_module_that_is_met_and_dropped_is_named() {
    // 2 and 3 are needed, and each switches the other off; the walk comes to 2 first.
    let catalog =
        vec![decl(1, false, &[2, 3], &[]), decl(2, false, &[], &[3]), decl(3, false, &[], &[2])];
    assert_eq!(compose(&catalog, 1).unwrap_err(), ActivationError::Dropped(2));
    let catalog =
        vec![decl(1, false, &[3, 2], &[]), decl(2, false, &[], &[3]), decl(3, false, &[], &[2])];
    assert_eq!(compose(&catalog, 1).unwrap_err(), ActivationError::Dropped(3));
    // A module that is not declared is named before one that is switched off.
    let catalog = vec![decl(1, false, &[2, 4], &[]), decl(2, false, &[], &[2])];
    assert_eq!(compose(&catalog, 1).unwrap_err(), ActivationError::Unknown(4));
}

#[test]
fn themes_are_collected_in_the_order_of_their_activation() {
    let catalog = vec![
        decl(1, true, &[2, 3], &[]),
        decl(2, false, &[4], &[]),
        decl(3, true, &[], &[]),
        decl(4, true, &[], &[]),
    ];
    let a = register_modules(&catalog, 1);
    assert_eq!(a.enabled, vec![THEME_BASIC, 4, 2, 3, 1]);
    assert_eq!(a.themes, vec![THEME_BASIC, 4, 3, 1]);
    assert_eq!(a.themes, enabled_themes(&catalog, &a.enabled));
}

#[test]
fn a_declaration_carries_what_the_module_says_of_itself() {
    let d = declare(&Admin);
    assert_eq!(d.handle, MODULE_ADMIN);
    assert_eq!(d.name, "Admin");
    assert_eq!(d.actions.len(), 2);
    assert!(matches!(d.actions[0], Action::BeforeRenderPage(_)));
    assert!(matches!(d.actions[1], Action::BeforeRenderComponent(_)));
    let d = declare(&Node);
    assert_eq!(d.actions.len(), 1);
    assert_eq!(d.actions[0].weight(), -1);
    assert_eq!(declare(&Basic).actions.len(), 0);
    assert_eq!(declare(&JQuery).actions.len(), 0);
    assert_eq!(no_actions().len(), 0);
    assert_eq!(name_from_path("a::b::Name").using("en"), Some("Name".to_string()));
    assert_eq!(ModuleTrait::name(&Bootsier).using("es"), Some("Bootsier".to_string()));
    assert_eq!(ModuleTrait::description(&Bootsier).using("es"), None);
}
