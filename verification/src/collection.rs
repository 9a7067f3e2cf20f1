//! Registering services before the container is built.
use vstd::prelude::*;

use std::collections::HashMap;
use std::sync::Arc;

use crate::descriptor::{
    cloneable_value, is_factory, mutable_value, singleton_value, takeable_value,
    ServiceDescriptor, TypeKey,
};
use crate::provider::ServiceProvider;

verus! {

broadcast use vstd::std_specs::hash::group_hash_axioms;

/// The registrations of a container before it is built into a provider:
/// at most one registration per type key.
pub struct ServiceCollection<T, F> {
    map: HashMap<TypeKey, ServiceDescriptor<T, F>>,
}

impl<T, F> View for ServiceCollection<T, F> {
    type V = Map<TypeKey, ServiceDescriptor<T, F>>;

    closed spec fn view(&self) -> Self::V {
        self.map@
    }
}

impl<T, F> Default for ServiceCollection<T, F> {
    /// An empty collection.
    fn default() -> (c: Self)
        ensures
            c@ == Map::<TypeKey, ServiceDescriptor<T, F>>::empty(),
    {
        ServiceCollection { map: HashMap::new() }
    }
}

impl<T, F> ServiceCollection<T, F> {
    /// Whether a service is registered under `key`.
    pub fn contains_key(&self, key: TypeKey) -> (registered: bool)
        ensures
            registered == self@.contains_key(key),
    {
        self.map.contains_key(&key)
    }

    /// The check that every registration makes first: a second registration
    /// under the same key is refused, so `key` must be free.
    fn check_if_already_registered(&self, key: TypeKey)
        requires
            !self@.contains_key(key),
    {
        if self.map.contains_key(&key) {
            assert(false);
        }
    }

    /// Registers `instance` to be handed out as a clone on every request.
    pub fn reg_cloneable(self, key: TypeKey, instance: T) -> (c: Self)
        requires
            !self@.contains_key(key),
        ensures
            c@ == self@.insert(key, ServiceDescriptor::Clone(instance)),
    {
        self.check_if_already_registered(key);
        let mut s = self;
        s.map.insert(key, ServiceDescriptor::Clone(instance));
        s
    }

    /// Registers `instance` as a read-only singleton.
    pub fn reg_singleton(self, key: TypeKey, instance: T) -> (c: Self)
        requires
            !self@.contains_key(key),
        ensures
            c@ == self@.insert(key, ServiceDescriptor::Singleton(instance)),
    {
        self.check_if_already_registered(key);
        let mut s = self;
        s.map.insert(key, ServiceDescriptor::Singleton(instance));
        s
    }

    /// Registers `instance` as a singleton that can be changed in place.
    pub fn reg_mutable_singleton(self, key: TypeKey, instance: T) -> (c: Self)
        requires
            !self@.contains_key(key),
        ensures
            c@ == self@.insert(key, ServiceDescriptor::MutableSingleton(instance)),
    {
        self.check_if_already_registered(key);
        let mut s = self;
        s.map.insert(key, ServiceDescriptor::MutableSingleton(instance));
        s
    }

    /// Registers `factory` to build a new instance on every request.
    pub fn reg_factory(self, key: TypeKey, factory: F) -> (c: Self)
        requires
            !self@.contains_key(key),
        ensures
            c@ == self@.insert(key, ServiceDescriptor::Factory(factory)),
    {
        self.check_if_already_registered(key);
        let mut s = self;
        s.map.insert(key, ServiceDescriptor::Factory(factory));
        s
    }

    /// Registers `instance` as a one-shot value, moved out by the first request.
    pub fn reg_takeable(self, key: TypeKey, instance: T) -> (c: Self)
        requires
            !self@.contains_key(key),
        ensures
            c@ == self@.insert(key, ServiceDescriptor::Take(instance)),
    {
        self.check_if_already_registered(key);
        let mut s = self;
        s.map.insert(key, ServiceDescriptor::Take(instance));
        s
    }

    /// Registers `instance` as a one-shot value, in place.
    pub fn register_takeable(&mut self, key: TypeKey, instance: T)
        requires
            !old(self)@.contains_key(key),
        ensures
            final(self)@ == old(self)@.insert(key, ServiceDescriptor::Take(instance)),
    {
        self.check_if_already_registered(key);
        self.map.insert(key, ServiceDescriptor::Take(instance));
    }

    /// Builds the root provider: it holds these registrations and no scope.
    pub fn build_service_provider(self) -> (p: ServiceProvider<T, F>)
        ensures
            p@.root == self@,
            p@.scope is None,
    {
        ServiceProvider::from_maps(self.map, None)
    }

    /// Builds the root provider behind an `Arc`.
    pub fn build_service_provider_arc(self) -> (p: Arc<ServiceProvider<T, F>>)
        ensures
            p@.root == self@,
            p@.scope is None,
    {
        Arc::new(self.build_service_provider())
    }

    /// Hands over the registrations themselves.
    pub(crate) fn get_service_map(self) -> (m: HashMap<TypeKey, ServiceDescriptor<T, F>>)
        ensures
            m@ == self@,
    {
        self.map
    }
}

/// A service registered under `key` is reached by the request that matches its
/// kind, and by none of the others; the registrations under other keys stay as
/// they were.
pub proof fn lemma_registration_read_back<T, F>(
    c: Map<TypeKey, ServiceDescriptor<T, F>>,
    key: TypeKey,
    v: T,
    other: TypeKey,
)
    ensures
        singleton_value(c.insert(key, ServiceDescriptor::Singleton(v)), key) == Some(v),
        mutable_value(c.insert(key, ServiceDescriptor::Singleton(v)), key) is None,
        cloneable_value(c.insert(key, ServiceDescriptor::Singleton(v)), key) is None,
        mutable_value(c.insert(key, ServiceDescriptor::MutableSingleton(v)), key) == Some(v),
        singleton_value(c.insert(key, ServiceDescriptor::MutableSingleton(v)), key) is None,
        cloneable_value(c.insert(key, ServiceDescriptor::Clone(v)), key) == Some(v),
        singleton_value(c.insert(key, ServiceDescriptor::Clone(v)), key) is None,
        takeable_value(c.insert(key, ServiceDescriptor::Take(v)), key) == Some(v),
        singleton_value(c.insert(key, ServiceDescriptor::Take(v)), key) is None,
        cloneable_value(c.insert(key, ServiceDescriptor::Take(v)), key) is None,
        forall|f: F| #[trigger] is_factory(c.insert(key, ServiceDescriptor::Factory(f)), key),
        forall|d: ServiceDescriptor<T, F>|
            other != key ==> #[trigger] c.insert(key, d).get(other) == c.get(other),
{
}

} // verus!
