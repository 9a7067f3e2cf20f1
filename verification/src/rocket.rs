//! Injection into Rocket request guards: a guard resolves a service from the
//! managed provider, or fails the request with an internal server error.
use vstd::prelude::*;

use std::ops::Deref;

use crate::descriptor::{singleton_value, ServiceFactory, TypeKey};
use crate::provider::ServiceProvider;

verus! {

/// The HTTP status of a request whose service could not be resolved.
pub const INTERNAL_SERVER_ERROR: u16 = 500;

/// The outcome of a request guard: the guarded value, or an HTTP status.
pub enum Outcome<S> {
    Success(S),
    Error(u16),
}

/// A service injected by value into a request.
pub struct I<T>(pub T);

impl<T> I<T> {
    /// The injected value.
    pub fn get(self) -> (v: T)
        ensures
            v == self.0,
    {
        self.0
    }

    /// The guard's outcome once the provider has answered with `found`.
    pub fn from_lookup(found: Option<T>) -> (r: Outcome<I<T>>)
        ensures
            match found {
                Some(v) => r matches Outcome::Success(i) && i.0 == v,
                None => r == Outcome::<I<T>>::Error(INTERNAL_SERVER_ERROR),
            },
    {
        match found {
            Some(x) => Outcome::Success(I(x)),
            None => Outcome::Error(INTERNAL_SERVER_ERROR),
        }
    }
}

impl<T: Clone> I<T> {
    /// Resolves the service under `key` by value from `provider`: the guard
    /// succeeds with what the by-value request answers, and fails with an
    /// internal server error where it answers nothing.
    pub fn from_request<F: ServiceFactory<T> + Clone>(provider: &mut ServiceProvider<T, F>, key: TypeKey) -> (r: Outcome<I<T>>)
        ensures
            match r {
                Outcome::Success(i) => old(provider)@.gets(key, Some(i.0), final(provider)@),
                Outcome::Error(code) => code == INTERNAL_SERVER_ERROR && old(provider)@.gets(
                    key,
                    None,
                    final(provider)@,
                ),
            },
    {
        let found = provider.try_get(key);
        I::from_lookup(found)
    }
}

/// A service injected by shared reference into a request.
pub struct R<'r, T>(pub &'r T);

impl<'r, T> R<'r, T> {
    /// The injected reference.
    pub fn get(&self) -> (v: &T)
        ensures
            *v == *self.0,
    {
        self.0
    }

    /// Resolves the singleton under `key` from `provider`.
    pub fn from_request<F>(provider: &'r ServiceProvider<T, F>, key: TypeKey) -> (r: Outcome<R<'r, T>>)
        ensures
            match singleton_value(provider@.root, key) {
                Some(v) => r matches Outcome::Success(x) && *x.0 == v,
                None => r == Outcome::<R<'r, T>>::Error(INTERNAL_SERVER_ERROR),
            },
    {
        match provider.try_get_ref(key) {
            Some(x) => Outcome::Success(R(x)),
            None => Outcome::Error(INTERNAL_SERVER_ERROR),
        }
    }
}

impl<T> Deref for I<T> {
    type Target = T;

    fn deref(&self) -> (v: &T)
        ensures
            *v == self.0,
    {
        &self.0
    }
}

impl<'r, T> Deref for R<'r, T> {
    type Target = T;

    fn deref(&self) -> (v: &T)
        ensures
            *v == *self.0,
    {
        self.0
    }
}

} // verus!
