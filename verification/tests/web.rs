use std::sync::Arc;

use dawnjection::core_axum::{self, AxumServiceProvider};
use dawnjection::rocket::{self, Outcome, INTERNAL_SERVER_ERROR};
use dawnjection::{
    NoFactory, ServiceCollection, ServiceProvider, ServiceProviderAccess, ServiceProviderContainer,
    I, R,
};

fn root() -> ServiceProvider<String, NoFactory> {
    ServiceCollection::default()
        .reg_singleton(1, "singleton message".to_string())
        .reg_cloneable(2, "config".to_string())
        .build_service_provider()
}

fn provider() -> Arc<ServiceProvider<String, NoFactory>> {
    Arc::new(root())
}

#[test]
fn injected_values() {
    assert_eq!(I(5).get(), 5);
    assert_eq!(rocket::I(6).get(), 6);
    assert_eq!(core_axum::I(7).get(), 7);
}

#[test]
fn reference_from_container() {
    let container = ServiceProviderContainer(provider());
    let other = container.clone();
    assert!(Arc::ptr_eq(other.get_sp_arc(), &container.0));
    let r = R::new(container.clone(), 1);
    assert_eq!(r.get(), "singleton message");
    assert_eq!(r.try_get().map(|s| s.as_str()), Some("singleton message"));
    let missing = R::new(container, 2);
    assert_eq!(missing.try_get(), None);
}

#[test]
fn rocket_guards() {
    let root = provider();
    let mut scope = self::root().create_scope(None);
    assert!(matches!(rocket::I::from_request(&mut scope, 2), Outcome::Success(I2) if I2.0 == "config"));
    assert!(matches!(rocket::I::from_request(&mut scope, 1), Outcome::Error(e) if e == INTERNAL_SERVER_ERROR));
    assert!(matches!(rocket::R::from_request(&root, 1), Outcome::Success(r) if r.get() == "singleton message"));
    assert!(matches!(rocket::R::from_request(&root, 2), Outcome::Error(500)));
    assert!(matches!(rocket::I::<u8>::from_lookup(None), Outcome::Error(500)));
}

#[test]
fn axum_reference_extractor() {
    let state = AxumServiceProvider(provider());
    let r = core_axum::R::from_request_parts(&state, 1);
    assert_eq!(r.get().map(|s| s.as_str()), Some("singleton message"));
    let r2 = core_axum::R::from_request_parts(&state.clone(), 3);
    assert_eq!(r2.get(), None);
}

#[test]
fn rocket_values_deref() {
    let i = rocket::I(String::from("v"));
    assert_eq!(i.len(), 1);
    let s = String::from("w");
    let r = rocket::R(&s);
    assert_eq!(r.len(), 1);
}
