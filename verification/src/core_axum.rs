//! Injection into Axum extractors: the shared provider is part of the router's
//! state, and a reference extractor reads singletons from its root.
use vstd::prelude::*;

use std::sync::Arc;

use crate::descriptor::{singleton_value, TypeKey};
use crate::provider::{ProviderModel, ServiceProvider};

verus! {

/// The provider as a piece of router state.
pub struct AxumServiceProvider<T, F>(pub Arc<ServiceProvider<T, F>>);

impl<T, F> Clone for AxumServiceProvider<T, F> {
    /// Another handle on the same provider.
    fn clone(&self) -> (c: Self)
        ensures
            c.0@ == self.0@,
    {
        AxumServiceProvider(Arc::clone(&self.0))
    }
}

/// A service injected by value into a handler.
pub struct I<T>(pub T);

impl<T> I<T> {
    /// The injected value.
    pub fn get(self) -> (v: T)
        ensures
            v == self.0,
    {
        self.0
    }
}

/// A service injected by shared reference into a handler: the singleton under
/// `key` of the router's provider.
pub struct R<T, F> {
    provider: AxumServiceProvider<T, F>,
    key: TypeKey,
}

impl<T, F> R<T, F> {
    fn new(provider: AxumServiceProvider<T, F>, key: TypeKey) -> (r: Self)
        ensures
            r.provider_model() == provider.0@,
            r.key() == key,
    {
        R { provider, key }
    }

    pub closed spec fn provider_model(&self) -> ProviderModel<T, F> {
        self.provider.0@
    }

    pub closed spec fn key(&self) -> TypeKey {
        self.key
    }

    /// The extractor for the singleton under `key`, taken from the router's state.
    pub fn from_request_parts(state: &AxumServiceProvider<T, F>, key: TypeKey) -> (r: Self)
        ensures
            r.provider_model() == state.0@,
            r.key() == key,
    {
        R::new(state.clone(), key)
    }

    /// The singleton, if one is registered.
    pub fn get(&self) -> (v: Option<&T>)
        ensures
            match singleton_value(self.provider_model().root, self.key()) {
                Some(s) => v is Some && *v->0 == s,
                None => v is None,
            },
    {
        self.provider.0.try_get_ref(self.key)
    }
}

} // verus!
