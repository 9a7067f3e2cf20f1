//! The built container and its requests: by value, one-shot, by shared and by
//! mutable reference, at the root or in a scope.
use vstd::prelude::*;

use std::collections::HashMap;
use std::sync::Arc;

use crate::collection::ServiceCollection;
use crate::descriptor::{
    keeps_root, lemma_keeps_root_chains, mutable_value, singleton_value, ServiceDescriptor,
    ServiceFactory, TypeKey,
};

verus! {

broadcast use vstd::std_specs::hash::group_hash_axioms;

/// What a provider holds: the registrations of the root container, and, in a
/// scope, the registrations that the scope was seeded with.
#[verifier::ext_equal]
pub struct ProviderModel<T, F> {
    pub root: Map<TypeKey, ServiceDescriptor<T, F>>,
    pub scope: Option<Map<TypeKey, ServiceDescriptor<T, F>>>,
}

impl<T, F> ProviderModel<T, F> {
    /// A one-shot request for `key`: a `Take` entry of the scope hands out its
    /// value and leaves the scope; any other entry stays, and nothing is handed
    /// out. Without a scope nothing is handed out and nothing changes.
    pub open spec fn take(self, key: TypeKey) -> (Option<T>, ProviderModel<T, F>) {
        match self.scope {
            Some(s) => match s.get(key) {
                Some(ServiceDescriptor::Take(v)) => (
                    Some(v),
                    ProviderModel { root: self.root, scope: Some(s.remove(key)) },
                ),
                _ => (None, self),
            },
            None => (None, self),
        }
    }

    /// The provider after the mutable singleton under `key` was set to `v`.
    pub open spec fn set_mutable(self, key: TypeKey, v: T) -> ProviderModel<T, F> {
        ProviderModel { root: self.root.insert(key, ServiceDescriptor::MutableSingleton(v)), scope: self.scope }
    }

    /// The provider as a scope seeded with `seed`, over the same root.
    pub open spec fn with_scope(self, seed: Map<TypeKey, ServiceDescriptor<T, F>>) -> ProviderModel<T, F> {
        ProviderModel { root: self.root, scope: Some(seed) }
    }

    /// The provider with its scope ended: the same root, and no scope.
    pub open spec fn without_scope(self) -> ProviderModel<T, F> {
        ProviderModel { root: self.root, scope: None }
    }
}

impl<T: Clone, F: ServiceFactory<T> + Clone> ProviderModel<T, F> {
    /// Whether a by-value request for `key`, once the root has answered with
    /// `found`, may answer `r` and leave the provider in state `after`:
    /// a value from the root is handed out as it is; otherwise the scope answers,
    /// with its one-shot value (which leaves it), a clone of its cloneable value,
    /// or what its factory builds (each given this provider); with none of them
    /// the answer is nothing.
    pub open spec fn finishes_get(self, key: TypeKey, found: Option<T>, r: Option<T>, after: ProviderModel<T, F>) -> bool {
        if found is Some {
            r == found && after == self
        } else {
            match self.scope {
                None => r is None && after == self,
                Some(s) => match s.get(key) {
                    Some(ServiceDescriptor::Take(v)) => r == Some(v) && after == self.take(key).1,
                    Some(ServiceDescriptor::Clone(v)) => r is Some && cloned(v, r->0) && after == self,
                    Some(ServiceDescriptor::Factory(f)) => exists|g: F|
                        cloned(f, g) && #[trigger] g.creates(self, after, r),
                    _ => r is None && after == self,
                },
            }
        }
    }

    /// Whether a by-value request for `key` may answer `r` and leave the provider
    /// in state `after`: the root answers first, with a clone of its cloneable
    /// value or with what its factory builds (given this provider); where the
    /// root gives nothing, the scope answers as `finishes_get` says.
    pub open spec fn gets(self, key: TypeKey, r: Option<T>, after: ProviderModel<T, F>) -> bool {
        match self.root.get(key) {
            Some(ServiceDescriptor::Clone(v)) => r is Some && cloned(v, r->0) && after == self,
            Some(ServiceDescriptor::Factory(f)) => exists|g: F, mid: ProviderModel<T, F>, found: Option<T>|
                cloned(f, g) && #[trigger] g.creates(self, mid, found) && mid.finishes_get(key, found, r, after),
            _ => self.finishes_get(key, None, r, after),
        }
    }
}

/// A built container: the root registrations, and in a scope the scope's own
/// registrations besides.
pub struct ServiceProvider<T, F> {
    map: HashMap<TypeKey, ServiceDescriptor<T, F>>,
    scope_context: Option<HashMap<TypeKey, ServiceDescriptor<T, F>>>,
}

impl<T, F> View for ServiceProvider<T, F> {
    type V = ProviderModel<T, F>;

    closed spec fn view(&self) -> Self::V {
        ProviderModel {
            root: self.map@,
            scope: match self.scope_context {
                Some(s) => Some(s@),
                None => None,
            },
        }
    }
}

impl<T, F> ServiceProvider<T, F> {
    pub(crate) fn from_maps(
        map: HashMap<TypeKey, ServiceDescriptor<T, F>>,
        scope_context: Option<HashMap<TypeKey, ServiceDescriptor<T, F>>>,
    ) -> (p: Self)
        ensures
            p@.root == map@,
            p@.scope == (match scope_context {
                Some(s) => Some(s@),
                None => None,
            }),
    {
        ServiceProvider { map, scope_context }
    }

    /// Moves the one-shot value registered under `key` out of the scope. Only a
    /// `Take` entry leaves the scope; every other registration stays.
    pub fn try_take(&mut self, key: TypeKey) -> (r: Option<T>)
        ensures
            (r, final(self)@) == old(self)@.take(key),
    {
        match &mut self.scope_context {
            Some(scope) => {
                let takeable = match scope.get(&key) {
                    Some(ServiceDescriptor::Take(_)) => true,
                    _ => false,
                };
                if takeable {
                    match scope.remove(&key) {
                        Some(ServiceDescriptor::Take(v)) => Some(v),
                        _ => None,
                    }
                } else {
                    None
                }
            },
            None => None,
        }
    }

    /// A shared reference to the singleton registered under `key` in the root.
    /// Only a `Singleton` entry answers; a `Clone` entry holds no instance of the
    /// service itself to refer to.
    pub fn try_get_ref(&self, key: TypeKey) -> (r: Option<&T>)
        ensures
            match singleton_value(self@.root, key) {
                Some(v) => r is Some && *r->0 == v,
                None => r is None,
            },
    {
        match self.map.get(&key) {
            Some(ServiceDescriptor::Singleton(v)) => Some(v),
            _ => None,
        }
    }

    /// A mutable reference to the mutable singleton registered under `key` in the
    /// root; what is written through it is what the root holds afterwards.
    pub fn try_get_mut(&mut self, key: TypeKey) -> (r: Option<&mut T>)
        ensures
            match mutable_value(old(self)@.root, key) {
                Some(v) => r is Some && *r->0 == v && final(self)@ == old(self)@.set_mutable(
                    key,
                    *final(r->0),
                ),
                None => r is None && final(self)@ == old(self)@,
            },
    {
        match self.map.entry(key) {
            std::collections::hash_map::Entry::Occupied(o) => {
                let d = o.into_mut();
                match d {
                    ServiceDescriptor::MutableSingleton(v) => Some(v),
                    _ => None,
                }
            },
            std::collections::hash_map::Entry::Vacant(_) => None,
        }
    }
}

impl<T, F> ServiceProvider<T, F> {
    /// Opens a scope over this provider's root registrations, seeded with the
    /// registrations of `scope_seed` (none without a seed). The provider moves
    /// into the scope, so there is one set of root registrations: what is
    /// written to a mutable singleton through the scope is in the root that
    /// `into_root` gives back. A scope opened from a scope replaces its scope.
    pub fn create_scope(self, scope_seed: Option<ServiceCollection<T, F>>) -> (p: Self)
        ensures
            p@ == self@.with_scope(
                match scope_seed {
                    Some(c) => c@,
                    None => Map::<TypeKey, ServiceDescriptor<T, F>>::empty(),
                },
            ),
    {
        let scope_ctx = match scope_seed {
            Some(x) => x.get_service_map(),
            None => HashMap::new(),
        };
        ServiceProvider { map: self.map, scope_context: Some(scope_ctx) }
    }

    /// `create_scope`, behind an `Arc`.
    pub fn create_scope_arc(self, scope_seed: Option<ServiceCollection<T, F>>) -> (p: Arc<Self>)
        ensures
            p@ == self@.with_scope(
                match scope_seed {
                    Some(c) => c@,
                    None => Map::<TypeKey, ServiceDescriptor<T, F>>::empty(),
                },
            ),
    {
        Arc::new(self.create_scope(scope_seed))
    }

    /// Ends the scope: the root registrations, with what was written to them,
    /// and no scope.
    pub fn into_root(self) -> (p: Self)
        ensures
            p@ == self@.without_scope(),
    {
        ServiceProvider { map: self.map, scope_context: None }
    }
}

impl<T: Clone, F: ServiceFactory<T> + Clone> ServiceProvider<T, F> {
    /// The root's answer to a by-value request for `key`: a clone of a `Clone`
    /// entry, what a `Factory` entry builds (given this provider), and nothing
    /// for any other entry, which leaves the provider as it is.
    fn resolve_in_root(&mut self, key: TypeKey) -> (r: Option<T>)
        ensures
            match old(self)@.root.get(key) {
                Some(ServiceDescriptor::Clone(v)) => r is Some && cloned(v, r->0) && final(self)@ == old(self)@,
                Some(ServiceDescriptor::Factory(f)) => exists|g: F|
                    cloned(f, g) && #[trigger] g.creates(old(self)@, final(self)@, r),
                _ => r is None && final(self)@ == old(self)@,
            },
            keeps_root(old(self)@.root, final(self)@.root),
    {
        let ghost before = self@;
        proof {
            lemma_keeps_root_chains(before.root, before.root, before.root);
        }
        let factory = match self.map.get(&key) {
            Some(ServiceDescriptor::Factory(f)) => Some(f.clone()),
            Some(ServiceDescriptor::Clone(v)) => {
                return Some(v.clone());
            },
            _ => None,
        };
        match factory {
            Some(f) => {
                let r = f.create(self);
                assert(f.creates(before, self@, r));
                r
            },
            None => None,
        }
    }

    /// The rest of a by-value request for `key` once the root has answered with
    /// `found`: a value from the root is handed out as it is; otherwise the scope
    /// answers with its one-shot value, a clone of its cloneable value, or what
    /// its factory builds.
    pub fn finish_get(&mut self, key: TypeKey, found: Option<T>) -> (r: Option<T>)
        ensures
            old(self)@.finishes_get(key, found, r, final(self)@),
            keeps_root(old(self)@.root, final(self)@.root),
    {
        proof {
            lemma_keeps_root_chains(self@.root, self@.root, self@.root);
        }
        if found.is_some() {
            return found;
        }
        if self.scope_context.is_none() {
            return None;
        }
        if let Some(x) = self.try_take(key) {
            return Some(x);
        }
        let ghost before = self@;
        let factory = match &self.scope_context {
            Some(scope) => match scope.get(&key) {
                Some(ServiceDescriptor::Factory(f)) => Some(f.clone()),
                Some(ServiceDescriptor::Clone(v)) => {
                    return Some(v.clone());
                },
                _ => None,
            },
            None => None,
        };
        match factory {
            Some(f) => {
                let r = f.create(self);
                assert(f.creates(before, self@, r));
                r
            },
            None => None,
        }
    }

    /// A by-value request for `key`: a clone of a root `Clone` entry, or what a
    /// root `Factory` entry builds; failing that, the scope's one-shot value,
    /// cloneable value or factory.
    pub fn try_get(&mut self, key: TypeKey) -> (r: Option<T>)
        ensures
            old(self)@.gets(key, r, final(self)@),
            keeps_root(old(self)@.root, final(self)@.root),
    {
        let ghost before = self@;
        let found = self.resolve_in_root(key);
        let ghost mid = self@;
        let r = self.finish_get(key, found);
        proof {
            lemma_keeps_root_chains(before.root, mid.root, self@.root);
            match before.root.get(key) {
                Some(ServiceDescriptor::Factory(f)) => {
                    let g = choose|g: F| cloned(f, g) && #[trigger] g.creates(before, mid, found);
                    assert(cloned(f, g) && g.creates(before, mid, found) && mid.finishes_get(key, found, r, self@));
                },
                _ => {},
            }
        }
        r
    }
}

/// The provider interface as a trait.
pub trait IServiceProvider<T> {
    /// One-shot request: moves the value out of the scope.
    fn try_take(&mut self, key: TypeKey) -> Option<T>;

    fn try_get(&mut self, key: TypeKey) -> Option<T>;

    fn try_get_ref(&self, key: TypeKey) -> Option<&T>;

    fn try_get_mut(&mut self, key: TypeKey) -> Option<&mut T>;
}

impl<T: Clone, F: ServiceFactory<T> + Clone> IServiceProvider<T> for ServiceProvider<T, F> {
    fn try_take(&mut self, key: TypeKey) -> (r: Option<T>)
        ensures
            (r, final(self)@) == old(self)@.take(key),
    {
        ServiceProvider::try_take(self, key)
    }

    fn try_get(&mut self, key: TypeKey) -> (r: Option<T>)
        ensures
            old(self)@.gets(key, r, final(self)@),
            keeps_root(old(self)@.root, final(self)@.root),
    {
        ServiceProvider::try_get(self, key)
    }

    fn try_get_ref(&self, key: TypeKey) -> (r: Option<&T>)
        ensures
            match singleton_value(self@.root, key) {
                Some(v) => r is Some && *r->0 == v,
                None => r is None,
            },
    {
        ServiceProvider::try_get_ref(self, key)
    }

    fn try_get_mut(&mut self, key: TypeKey) -> (r: Option<&mut T>)
        ensures
            match mutable_value(old(self)@.root, key) {
                Some(v) => r is Some && *r->0 == v && final(self)@ == old(self)@.set_mutable(
                    key,
                    *final(r->0),
                ),
                None => r is None && final(self)@ == old(self)@,
            },
    {
        ServiceProvider::try_get_mut(self, key)
    }
}


/// A one-shot value is handed out once: right after a one-shot request for
/// `key`, a second one finds nothing and changes nothing.
pub proof fn lemma_take_is_one_shot<T, F>(m: ProviderModel<T, F>, key: TypeKey)
    ensures
        m.take(key).1.take(key) == (None::<T>, m.take(key).1),
{
}

/// One-shot requests never consume the root registrations.
pub proof fn lemma_take_keeps_root<T, F>(m: ProviderModel<T, F>, key: TypeKey)
    ensures
        m.take(key).1.root == m.root,
{
}

/// A one-shot request for `key` leaves the scope's other registrations as they were.
pub proof fn lemma_take_keeps_other_keys<T, F>(m: ProviderModel<T, F>, key: TypeKey, other: TypeKey)
    requires
        key != other,
        m.scope is Some,
    ensures
        m.take(key).1.scope->0.get(other) == m.scope->0.get(other),
{
}

/// What is written to a mutable singleton is what the next mutable request
/// reaches; the other registrations and the scope stay as they were.
pub proof fn lemma_mutable_read_after_write<T, F>(m: ProviderModel<T, F>, key: TypeKey, v: T, other: TypeKey)
    requires
        mutable_value(m.root, key) is Some,
    ensures
        mutable_value(m.set_mutable(key, v).root, key) == Some(v),
        other != key ==> m.set_mutable(key, v).root.get(other) == m.root.get(other),
        m.set_mutable(key, v).scope == m.scope,
        keeps_root(m.root, m.set_mutable(key, v).root),
{
    let after = m.set_mutable(key, v).root;
    assert(after.dom() =~= m.root.dom());
}

/// A value registered as takeable in a scope's seed is handed out by the first
/// one-shot request for its key, and by no later one.
pub proof fn lemma_seeded_takeable_handed_out_once<T, F>(
    root: Map<TypeKey, ServiceDescriptor<T, F>>,
    seed: Map<TypeKey, ServiceDescriptor<T, F>>,
    key: TypeKey,
    v: T,
)
    requires
        seed.get(key) == Some(ServiceDescriptor::<T, F>::Take(v)),
    ensures
        ({
            let m = ProviderModel { root, scope: Some(seed) };
            &&& m.take(key).0 == Some(v)
            &&& m.take(key).1.take(key).0 == None::<T>
        }),
{
}

/// A one-shot request leaves every registration but a `Take` entry where it is.
pub proof fn lemma_take_leaves_other_kinds<T, F>(m: ProviderModel<T, F>, key: TypeKey)
    requires
        m.scope is Some ==> !(m.scope->0.get(key) matches Some(ServiceDescriptor::Take(_))),
    ensures
        m.take(key) == (None::<T>, m),
{
}

/// When the root answers a by-value request, the scope is not touched, so a
/// one-shot value registered in the scope under the same key stays there.
pub proof fn lemma_root_answer_keeps_scope<T: Clone, F: ServiceFactory<T> + Clone>(
    m: ProviderModel<T, F>,
    key: TypeKey,
    v: T,
    r: Option<T>,
    after: ProviderModel<T, F>,
)
    requires
        m.finishes_get(key, Some(v), r, after),
    ensures
        r == Some(v),
        after == m,
{
}

/// Without a scope, a request that the root does not answer finds nothing and
/// changes nothing.
pub proof fn lemma_root_provider_without_answer<T: Clone, F: ServiceFactory<T> + Clone>(
    m: ProviderModel<T, F>,
    key: TypeKey,
    r: Option<T>,
    after: ProviderModel<T, F>,
)
    requires
        m.scope is None,
        m.finishes_get(key, None, r, after),
    ensures
        r is None,
        after == m,
{
}

/// A cloneable value registered in a scope answers every by-value request that
/// the root does not answer, with a clone, and stays in the scope.
pub proof fn lemma_scope_clone_entry_answers_again<T: Clone, F: ServiceFactory<T> + Clone>(
    m: ProviderModel<T, F>,
    key: TypeKey,
    v: T,
    r: Option<T>,
    after: ProviderModel<T, F>,
)
    requires
        m.scope is Some,
        m.scope->0.get(key) == Some(ServiceDescriptor::<T, F>::Clone(v)),
        m.finishes_get(key, None, r, after),
    ensures
        r is Some,
        cloned(v, r->0),
        after == m,
{
}

/// A factory in the root is asked on every by-value request for its key, with
/// the provider itself; what it builds is the answer, and only when it builds
/// nothing does the scope answer.
pub proof fn lemma_root_factory_answers<T: Clone, F: ServiceFactory<T> + Clone>(
    m: ProviderModel<T, F>,
    key: TypeKey,
    f: F,
    r: Option<T>,
    after: ProviderModel<T, F>,
)
    requires
        m.root.get(key) == Some(ServiceDescriptor::<T, F>::Factory(f)),
        m.gets(key, r, after),
    ensures
        exists|g: F, mid: ProviderModel<T, F>, found: Option<T>|
            cloned(f, g) && #[trigger] g.creates(m, mid, found) && (found is Some ==> r == found
                && after == mid) && (found is None ==> mid.finishes_get(key, None, r, after)),
{
    let (g, mid, found) = choose|g: F, mid: ProviderModel<T, F>, found: Option<T>|
        cloned(f, g) && #[trigger] g.creates(m, mid, found) && mid.finishes_get(key, found, r, after);
    assert(cloned(f, g) && g.creates(m, mid, found));
}

/// A scope and the provider it was opened from hold one set of root
/// registrations: what is written to a mutable singleton through the scope is
/// in the root once the scope ends.
pub proof fn lemma_scope_write_reaches_root<T, F>(
    m: ProviderModel<T, F>,
    seed: Map<TypeKey, ServiceDescriptor<T, F>>,
    key: TypeKey,
    v: T,
)
    ensures
        m.with_scope(seed).set_mutable(key, v).without_scope() == m.set_mutable(key, v).without_scope(),
        m.with_scope(seed).root == m.root,
{
}

/// A scope's factory is asked on the very provider that the request was made
/// on, scope included: when the scope's `Factory` entry answers a request that
/// the root left open, its factory relation holds of the requesting provider's
/// state before the call and its state after, and its answer is the answer.
pub proof fn lemma_scope_factory_sees_requesting_provider<T: Clone, F: ServiceFactory<T> + Clone>(
    m: ProviderModel<T, F>,
    key: TypeKey,
    f: F,
    r: Option<T>,
    after: ProviderModel<T, F>,
)
    requires
        m.scope is Some,
        m.scope->0.get(key) == Some(ServiceDescriptor::<T, F>::Factory(f)),
        m.finishes_get(key, None, r, after),
    ensures
        exists|g: F| cloned(f, g) && #[trigger] g.creates(m, after, r),
{
}

/// Opening a scope replaces whatever scope the provider had: the new scope holds
/// exactly the seed's registrations, so a scope opened without a seed hands out
/// no one-shot value, whatever its parent scope held.
pub proof fn lemma_scope_holds_only_its_seed<T, F>(
    m: ProviderModel<T, F>,
    seed: Map<TypeKey, ServiceDescriptor<T, F>>,
    key: TypeKey,
)
    ensures
        m.with_scope(seed).scope == Some(seed),
        m.with_scope(seed).root == m.root,
        m.with_scope(Map::empty()).take(key).0 is None,
        m.with_scope(seed).with_scope(Map::empty()).take(key).0 is None,
{
}

} // verus!
