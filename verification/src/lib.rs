//! A dependency-injection container: services are registered in a
//! `ServiceCollection` under a type key, built into a `ServiceProvider`, and
//! requested from it (or from a scope of it) by key.
use vstd::prelude::*;

use std::sync::Arc;

pub mod codegen;
pub mod collection;
pub mod core_axum;
pub mod descriptor;
pub mod handler;
pub mod nats;
pub mod provider;
pub mod rocket;

pub use crate::collection::ServiceCollection;
pub use crate::descriptor::{NoFactory, ServiceDescriptor, ServiceFactory, TypeKey};
pub use crate::provider::{IServiceProvider, ProviderModel, ServiceProvider};

verus! {

/// A service injected by value.
pub struct I<T>(pub T);

impl<T> I<T> {
    /// The injected value.
    pub fn get(self) -> (v: T)
        ensures
            v == self.0,
    {
        self.0
    }
}

/// A provider shared between the request handlers of a server.
pub struct ServiceProviderContainer<T, F>(pub Arc<ServiceProvider<T, F>>);

impl<T, F> Clone for ServiceProviderContainer<T, F> {
    /// Another handle on the same provider.
    fn clone(&self) -> (c: Self)
        ensures
            c.0@ == self.0@,
    {
        ServiceProviderContainer(Arc::clone(&self.0))
    }
}

/// Access to the shared provider that a handler state carries.
pub trait ServiceProviderAccess<T, F> {
    fn get_sp_arc(&self) -> &Arc<ServiceProvider<T, F>>;
}

impl<T, F> ServiceProviderAccess<T, F> for ServiceProviderContainer<T, F> {
    fn get_sp_arc(&self) -> (p: &Arc<ServiceProvider<T, F>>)
        ensures
            *p == self.0,
    {
        &self.0
    }
}

/// A service injected by shared reference: the singleton registered under `key`
/// in the root of the shared provider.
pub struct R<T, F> {
    provider: ServiceProviderContainer<T, F>,
    key: TypeKey,
}

impl<T, F> R<T, F> {
    /// The reference to the singleton under `key` of `provider`.
    pub fn new(provider: ServiceProviderContainer<T, F>, key: TypeKey) -> (r: Self)
        ensures
            r.provider_model() == provider.0@,
            r.key() == key,
    {
        R { provider, key }
    }

    pub closed spec fn provider_model(&self) -> ProviderModel<T, F> {
        self.provider.0@
    }

    pub closed spec fn key(&self) -> TypeKey {
        self.key
    }

    /// The singleton; it must be registered.
    pub fn get(&self) -> (v: &T)
        requires
            crate::descriptor::singleton_value(self.provider_model().root, self.key()) is Some,
        ensures
            Some(*v) == crate::descriptor::singleton_value(self.provider_model().root, self.key()),
    {
        self.provider.0.try_get_ref(self.key).unwrap()
    }

    /// The singleton, if one is registered.
    pub fn try_get(&self) -> (v: Option<&T>)
        ensures
            match crate::descriptor::singleton_value(self.provider_model().root, self.key()) {
                Some(s) => v is Some && *v->0 == s,
                None => v is None,
            },
    {
        self.provider.0.try_get_ref(self.key)
    }
}

} // verus!
