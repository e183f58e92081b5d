use pagetop::action::ActionsRegistry;
use pagetop::base::module::mdbook::{
    any_match, none_match, resource_path, resource_status, EntityTag, Matching, ResourceStatus,
};
use pagetop::base::module::MdBook;
use pagetop::base::theme::MinimalTheme;
use pagetop::text::push_hex;

fn strong(tag: &str) -> EntityTag {
    EntityTag { weak: false, tag: tag.to_string() }
}

fn weak(tag: &str) -> EntityTag {
    EntityTag { weak: true, tag: tag.to_string() }
}

#[test]
fn hexadecimal_digits() {
    let mut s = String::new();
    push_hex(&mut s, 0);
    s.push(' ');
    push_hex(&mut s, 255);
    s.push(' ');
    push_hex(&mut s, 0xabcdef0123456789);
    s.push(' ');
    push_hex(&mut s, 16);
    assert_eq!(s, "0 ff abcdef0123456789 10");
}

#[test]
fn the_tag_of_a_resource() {
    let t = EntityTag::for_resource(4096, 1700000000);
    assert!(!t.weak);
    assert_eq!(t.tag, "1000:6553f100");
    assert_eq!(EntityTag::for_resource(0, 0).tag, "0:0");
}

#[test]
fn comparison_of_tags() {
    assert!(strong("a").strong_eq(&strong("a")));
    assert!(!strong("a").strong_eq(&strong("b")));
    assert!(!strong("a").strong_eq(&weak("a")));
    assert!(!weak("a").strong_eq(&strong("a")));
    assert!(!weak("a").strong_eq(&weak("a")));
    assert!(strong("a").weak_eq(&strong("a")));
    assert!(strong("a").weak_eq(&weak("a")));
    assert!(weak("a").weak_eq(&weak("a")));
    assert!(!weak("a").weak_eq(&weak("b")));
}

#[test]
fn if_match() {
    let etag = Some(strong("v2"));
    assert!(any_match(&etag, &None));
    assert!(any_match(&etag, &Some(Matching::Any)));
    assert!(any_match(&None, &Some(Matching::Any)));
    assert!(any_match(&etag, &Some(Matching::Items(vec![strong("v1"), strong("v2")]))));
    assert!(!any_match(&etag, &Some(Matching::Items(vec![strong("v1"), weak("v2")]))));
    assert!(!any_match(&etag, &Some(Matching::Items(vec![]))));
    assert!(!any_match(&None, &Some(Matching::Items(vec![strong("v2")]))));
    assert!(!any_match(&Some(weak("v2")), &Some(Matching::Items(vec![strong("v2")]))));
}

#[test]
fn if_none_match() {
    let etag = Some(strong("v2"));
    assert!(none_match(&etag, &None));
    assert!(!none_match(&etag, &Some(Matching::Any)));
    assert!(!none_match(&None, &Some(Matching::Any)));
    assert!(none_match(&etag, &Some(Matching::Items(vec![strong("v1")]))));
    assert!(!none_match(&etag, &Some(Matching::Items(vec![strong("v1"), weak("v2")]))));
    assert!(none_match(&etag, &Some(Matching::Items(vec![]))));
    assert!(none_match(&None, &Some(Matching::Items(vec![strong("v2")]))));
}

#[test]
fn what_becomes_of_a_request() {
    let etag = Some(strong("v2"));
    let has = |tag: &str| Some(Matching::Items(vec![strong(tag)]));
    assert_eq!(resource_status(&etag, &None, &None), ResourceStatus::Found);
    assert_eq!(resource_status(&etag, &has("v2"), &None), ResourceStatus::Found);
    assert_eq!(resource_status(&etag, &has("v1"), &None), ResourceStatus::PreconditionFailed);
    assert_eq!(resource_status(&etag, &None, &has("v2")), ResourceStatus::NotModified);
    assert_eq!(resource_status(&etag, &None, &has("v1")), ResourceStatus::Found);
    assert_eq!(resource_status(&etag, &has("v1"), &has("v2")), ResourceStatus::PreconditionFailed);
    assert_eq!(resource_status(&etag, &has("v2"), &has("v2")), ResourceStatus::NotModified);
    assert_eq!(resource_status(&etag, &None, &Some(Matching::Any)), ResourceStatus::NotModified);
}

#[test]
fn the_path_of_a_resource() {
    assert_eq!(resource_path("/doc/index.html"), Some("index.html".to_string()));
    assert_eq!(resource_path("/doc/"), Some("".to_string()));
    assert_eq!(resource_path("/doc/á/b.css"), Some("á/b.css".to_string()));
    assert_eq!(resource_path("/doc"), None);
    assert_eq!(resource_path(""), None);
}

#[test]
fn a_page_of_the_book() {
    let mut page = MdBook::page("<h1>Intro</h1>");
    assert_eq!(page.title().get(), Some("Documentación".to_string()));
    let m = page.render(&MinimalTheme, &ActionsRegistry::new());
    assert_eq!(
        m.into_string(),
        "<!DOCTYPE html><html lang=\"en\" dir=\"ltr\"><head><meta charset=\"utf-8\"><title>PageTop Application | Documentación</title><meta name=\"viewport\" content=\"width=device-width, initial-scale=1, shrink-to-fit=no\"><meta http-equiv=\"X-UA-Compatible\" content=\"IE=edge\"><link rel=\"icon\" href=\"/theme/favicon.ico\"><meta name=\"theme-color\" content=\"#ffffff\"><link rel=\"stylesheet\" href=\"/doc/css/variables.css\"><link rel=\"stylesheet\" href=\"/doc/css/general.css\"><link rel=\"stylesheet\" href=\"/doc/css/chrome.css\"><link rel=\"stylesheet\" href=\"/doc/css/print.css\"><link rel=\"stylesheet\" href=\"/doc/FontAwesome/css/font-awesome.css\"><link rel=\"stylesheet\" href=\"/doc/fonts/fonts.css\"><link rel=\"stylesheet\" href=\"/doc/highlight.css\"><link rel=\"stylesheet\" href=\"/doc/tomorrow-night.css\"><link rel=\"stylesheet\" href=\"/doc/ayu-highlight.css\"></head><body class=\"body\"><div id=\"region-content\"><div id=\"mdbook\" class=\"container\"><h1>Intro</h1></div></div></body></html>"
    );
}
