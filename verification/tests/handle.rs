use pagetop::handle::HandleRegistry;

#[test]
fn handle_of_is_idempotent() {
    let mut r = HandleRegistry::new();
    let a = r.handle_of("pagetop::component::container");
    let again = r.handle_of("pagetop::component::container");
    assert_eq!(a, again);
    assert_eq!(r.len(), 1);
}

#[test]
fn different_identities_get_different_handles() {
    let mut r = HandleRegistry::new();
    let a = r.handle_of("a");
    let b = r.handle_of("b");
    let c = r.handle_of("c");
    assert_ne!(a, b);
    assert_ne!(a, c);
    assert_ne!(b, c);
    assert_eq!((a, b, c), (0, 1, 2));
}

#[test]
fn handles_stay_when_others_are_added() {
    let mut r = HandleRegistry::new();
    let a = r.handle_of("a");
    r.handle_of("b");
    r.handle_of("c");
    assert_eq!(r.handle_of("a"), a);
    assert_eq!(r.lookup("a"), Some(a));
    assert_eq!(r.lookup("zz"), None);
    assert_eq!(r.len(), 3);
}

#[test]
fn identity_of_a_handle() {
    let mut r = HandleRegistry::new();
    let a = r.handle_of("first");
    assert_eq!(r.identity(a), Some("first".to_string()));
    assert_eq!(r.identity(1), None);
    assert_eq!(HandleRegistry::new().identity(0), None);
}
