use std::sync::Arc;

use toy_rpc::error::Error;
use toy_rpc::service::{build_service, BuilderUninitialized, Registry, Service, ServiceBuilder};

#[test]
fn registry_replaces_a_name() {
    let mut r: Registry<u32> = Registry::new();
    assert_eq!(r.len(), 0);
    r.register("a".into(), 1);
    r.register("b".into(), 2);
    r.register("a".into(), 3);
    assert_eq!(r.len(), 2);
    assert_eq!(r.get("a"), Some(&3));
    assert_eq!(r.get("b"), Some(&2));
    assert_eq!(r.get("c"), None);
    assert_eq!(r.name_list(), vec!["a".to_string(), "b".to_string()]);
    assert_eq!(*r.value_at(0), 3);
    assert_eq!(*r.value_at(1), 2);
}

#[test]
fn service_method_lookup() {
    let s: Service<String, u8> = build_service(
        Arc::new("state".to_string()),
        vec![("echo".into(), 1), ("add".into(), 2), ("echo".into(), 3)],
    );
    assert!(matches!(s.method("echo"), Ok(&3)));
    assert!(matches!(s.method("add"), Ok(&2)));
    assert!(matches!(s.method("nope"), Err(Error::MethodNotFound)));
    assert_eq!(s.get_method("nope"), None);
    assert_eq!(s.get_state().as_str(), "state");
}

#[test]
fn service_builder_states() {
    let b = ServiceBuilder::<String, u8, BuilderUninitialized>::default();
    assert!(b.state.is_none());
    let s = Service::<String, u8>::builder()
        .register_handler("x".into(), 9)
        .register_state(Arc::new(String::from("st")))
        .register_handlers(vec![("y".into(), 4)])
        .build();
    assert_eq!(s.get_method("x"), Some(&9));
    assert_eq!(s.get_method("y"), Some(&4));
    assert_eq!(s.get_state().as_str(), "st");
    let r = ServiceBuilder::<String, u8, BuilderUninitialized>::with_state(Arc::new(String::new())).build();
    assert!(matches!(r.method("x"), Err(Error::MethodNotFound)));
}
