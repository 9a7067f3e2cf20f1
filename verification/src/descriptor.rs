//! The kinds of registration, and what each kind hands out.
use vstd::prelude::*;

use crate::provider::{ProviderModel, ServiceProvider};

verus! {

/// The key under which a service is registered: one key per service type.
pub type TypeKey = u64;

/// How a registered service is handed out.
#[derive(Clone)]
pub enum ServiceDescriptor<T, F> {
    /// One instance, handed out by shared reference only.
    Singleton(T),
    /// One instance, handed out by mutable reference.
    MutableSingleton(T),
    /// One instance, handed out as a fresh clone on every request.
    Clone(T),
    /// A factory that builds a new instance on every request.
    Factory(F),
    /// A one-shot value, moved out on the first request (e.g. a scoped context object).
    Take(T),
}

/// A factory registered with `reg_factory`: it builds a service from the provider
/// that asks for it, or gives up with `None`. Like every request on the
/// provider, it keeps the root registrations: their keys and kinds, and the
/// values of all but the mutable singletons.
pub trait ServiceFactory<T>: Sized {
    /// Whether a call of `create` on a provider in state `before` may leave it in
    /// state `after` and answer `out`.
    spec fn creates(&self, before: ProviderModel<T, Self>, after: ProviderModel<T, Self>, out: Option<T>) -> bool;

    fn create(&self, provider: &mut ServiceProvider<T, Self>) -> (r: Option<T>)
        ensures
            self.creates(old(provider)@, final(provider)@, r),
            keeps_root(old(provider)@.root, final(provider)@.root),
    ;
}

/// `after` holds the root registrations of `before`: the same keys with the same
/// kinds, and the same values except in mutable singletons.
pub open spec fn keeps_root<T, F>(
    before: Map<TypeKey, ServiceDescriptor<T, F>>,
    after: Map<TypeKey, ServiceDescriptor<T, F>>,
) -> bool {
    &&& after.dom() == before.dom()
    &&& forall|k: TypeKey| #[trigger] before.contains_key(k) ==> match before[k] {
        ServiceDescriptor::MutableSingleton(_) => after[k] is MutableSingleton,
        _ => after[k] == before[k],
    }
}

/// Keeping the root registrations is a preorder: it holds of a root and itself,
/// and it chains.
pub proof fn lemma_keeps_root_chains<T, F>(
    a: Map<TypeKey, ServiceDescriptor<T, F>>,
    b: Map<TypeKey, ServiceDescriptor<T, F>>,
    c: Map<TypeKey, ServiceDescriptor<T, F>>,
)
    ensures
        keeps_root(a, a),
        keeps_root(a, b) && keeps_root(b, c) ==> keeps_root(a, c),
{
    if keeps_root(a, b) && keeps_root(b, c) {
        assert forall|k: TypeKey| #[trigger] a.contains_key(k) implies match a[k] {
            ServiceDescriptor::MutableSingleton(_) => c[k] is MutableSingleton,
            _ => c[k] == a[k],
        } by {
            assert(b.contains_key(k));
        }
    }
}

/// The factory of a container that registers none: it builds nothing and leaves
/// the provider as it is.
#[derive(Clone, Copy)]
pub struct NoFactory;

impl<T> ServiceFactory<T> for NoFactory {
    open spec fn creates(&self, before: ProviderModel<T, Self>, after: ProviderModel<T, Self>, out: Option<T>) -> bool {
        after == before && out is None
    }

    fn create(&self, provider: &mut ServiceProvider<T, Self>) -> (r: Option<T>) {
        None
    }
}

/// The value that a one-shot request for `key` moves out of `scope`:
/// only a `Take` entry hands out its value.
pub open spec fn takeable_value<T, F>(scope: Map<TypeKey, ServiceDescriptor<T, F>>, key: TypeKey) -> Option<T> {
    match scope.get(key) {
        Some(ServiceDescriptor::Take(v)) => Some(v),
        _ => None,
    }
}

/// The value that a shared-reference request for `key` reaches in `root`:
/// only a `Singleton` entry is reachable this way.
pub open spec fn singleton_value<T, F>(root: Map<TypeKey, ServiceDescriptor<T, F>>, key: TypeKey) -> Option<T> {
    match root.get(key) {
        Some(ServiceDescriptor::Singleton(v)) => Some(v),
        _ => None,
    }
}

/// The value that a mutable-reference request for `key` reaches in `root`:
/// only a `MutableSingleton` entry is reachable this way.
pub open spec fn mutable_value<T, F>(root: Map<TypeKey, ServiceDescriptor<T, F>>, key: TypeKey) -> Option<T> {
    match root.get(key) {
        Some(ServiceDescriptor::MutableSingleton(v)) => Some(v),
        _ => None,
    }
}

/// The value that `root` clones out for `key`, if its entry is a `Clone` entry.
pub open spec fn cloneable_value<T, F>(root: Map<TypeKey, ServiceDescriptor<T, F>>, key: TypeKey) -> Option<T> {
    match root.get(key) {
        Some(ServiceDescriptor::Clone(v)) => Some(v),
        _ => None,
    }
}

/// Whether the entry for `key` in `root` is a factory.
pub open spec fn is_factory<T, F>(root: Map<TypeKey, ServiceDescriptor<T, F>>, key: TypeKey) -> bool {
    root.get(key) matches Some(ServiceDescriptor::Factory(_))
}

} // verus!
