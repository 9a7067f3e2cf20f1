//! Requests, responses and the registry of named handlers.
use vstd::prelude::*;

use std::marker::PhantomData;

verus! {

/// A request: its metadata and its payload.
pub struct Request<P, M> {
    pub metadata: M,
    pub payload: P,
}

impl<P, M> Request<P, M> {
    /// Splits the request into its metadata and its payload.
    pub fn into_comps(self) -> (c: (M, P))
        ensures
            c == (self.metadata, self.payload),
    {
        (self.metadata, self.payload)
    }

    /// Puts a request together from its metadata and its payload.
    pub fn from_comps(metadata: M, payload: P) -> (r: Request<P, M>)
        ensures
            r.metadata == metadata,
            r.payload == payload,
    {
        Request { metadata, payload }
    }
}

/// The (empty) response of a handler.
pub struct Response {
}

/// What a handler's result, or an extractor's rejection, turns into.
pub trait IntoResponse {
    fn into_response(self) -> Response;
}

impl IntoResponse for () {
    fn into_response(self) -> (r: Response)
        ensures
            r == (Response {  }),
    {
        Response {  }
    }
}

impl IntoResponse for String {
    fn into_response(self) -> (r: Response)
        ensures
            r == (Response {  }),
    {
        Response {  }
    }
}

/// A handler as it is registered: the handler and the marker of its argument
/// list.
pub struct HandlerEndpoint<T, H> {
    handler: H,
    pd: PhantomData<T>,
}

impl<T, H> HandlerEndpoint<T, H> {
    /// The endpoint of `handler`.
    pub fn new(handler: H) -> (e: Self)
        ensures
            e.handler() == handler,
    {
        HandlerEndpoint { handler, pd: PhantomData }
    }

    pub closed spec fn handler(&self) -> H {
        self.handler
    }

    /// The registered handler.
    pub fn get_handler(&self) -> (h: &H)
        ensures
            *h == self.handler(),
    {
        &self.handler
    }
}

/// The names of `entries`, in order.
pub open spec fn entry_names<E>(entries: Seq<(Seq<char>, E)>) -> Seq<Seq<char>> {
    entries.map_values(|e: (Seq<char>, E)| e.0)
}

/// No name occurs twice among `entries`.
pub open spec fn names_unique<E>(entries: Seq<(Seq<char>, E)>) -> bool {
    forall|i: int, j: int|
        0 <= i < entries.len() && 0 <= j < entries.len() && i != j ==> #[trigger] entries[i].0
            != #[trigger] entries[j].0
}

/// The position of `name` among `entries`, if it occurs.
pub open spec fn index_of_name<E>(entries: Seq<(Seq<char>, E)>, name: Seq<char>) -> Option<int> {
    if exists|i: int| 0 <= i < entries.len() && #[trigger] entries[i].0 == name {
        Some(choose|i: int| 0 <= i < entries.len() && #[trigger] entries[i].0 == name)
    } else {
        None
    }
}

/// `entries` after registering `endpoint` under `name`: a handler registered
/// under the same name is replaced in place, a new name is added at the end.
pub open spec fn register_entry<E>(entries: Seq<(Seq<char>, E)>, name: Seq<char>, endpoint: E) -> Seq<(Seq<char>, E)> {
    match index_of_name(entries, name) {
        Some(i) => entries.update(i, (name, endpoint)),
        None => entries.push((name, endpoint)),
    }
}

/// The entries of a registry as names and handlers.
pub open spec fn entries_view<E>(entries: Seq<(String, E)>) -> Seq<(Seq<char>, E)> {
    entries.map_values(|e: (String, E)| (e.0@, e.1))
}

/// Named handlers, at most one per name.
pub struct HandlerRegistry<E> {
    handlers: Vec<(String, E)>,
}

impl<E> View for HandlerRegistry<E> {
    type V = Seq<(Seq<char>, E)>;

    closed spec fn view(&self) -> Self::V {
        entries_view(self.handlers@)
    }
}

impl<E> Default for HandlerRegistry<E> {
    /// A registry without handlers.
    fn default() -> (r: Self)
        ensures
            r@ == Seq::<(Seq<char>, E)>::empty(),
            names_unique(r@),
    {
        HandlerRegistry { handlers: Vec::new() }
    }
}

impl<E> HandlerRegistry<E> {
    #[verifier::type_invariant]
    closed spec fn names_are_unique(self) -> bool {
        names_unique(self@)
    }

    /// Registers `endpoint` under `name`, replacing a handler registered under
    /// the same name.
    pub fn register(&mut self, name: String, endpoint: E)
        ensures
            final(self)@ == register_entry(old(self)@, name@, endpoint),
            names_unique(final(self)@),
    {
        proof {
            use_type_invariant(&*self);
            lemma_register_then_lookup(self@, name@, endpoint);
        }
        let ghost before = self@;
        let mut handlers: Vec<(String, E)> = Vec::new();
        std::mem::swap(&mut handlers, &mut self.handlers);
        assert(entries_view(handlers@) == before);
        let n = handlers.len();
        let mut i: usize = 0;
        while i < n
            invariant
                n == handlers.len(),
                0 <= i <= n,
                entries_view(handlers@) == before,
                before == old(self)@,
                names_unique(before),
                forall|j: int| 0 <= j < i ==> #[trigger] before[j].0 != name@,
            decreases n - i,
        {
            if handlers[i].0 == name {
                proof {
                    assert(before[i as int].0 == name@);
                    let k = choose|k: int| 0 <= k < before.len() && #[trigger] before[k].0 == name@;
                    assert(before[k].0 == before[i as int].0);
                    assert(index_of_name(before, name@) == Some(i as int));
                }
                handlers.set(i, (name, endpoint));
                assert(entries_view(handlers@) =~= register_entry(before, name@, endpoint));
                self.handlers = handlers;
                return;
            }
            i = i + 1;
        }
        assert(index_of_name(before, name@) is None);
        handlers.push((name, endpoint));
        assert(entries_view(handlers@) =~= register_entry(before, name@, endpoint));
        self.handlers = handlers;
    }

    /// The registered handlers with their names, in order of registration.
    pub fn handlers(&self) -> (h: &Vec<(String, E)>)
        ensures
            entries_view(h@) == self@,
            names_unique(self@),
    {
        proof {
            use_type_invariant(self);
        }
        &self.handlers
    }

    /// The number of registered handlers.
    pub fn len(&self) -> (n: usize)
        ensures
            n == self@.len(),
            names_unique(self@),
    {
        proof {
            use_type_invariant(self);
        }
        self.handlers.len()
    }
}

/// Registering under a name makes that name occur exactly once, at the position
/// of the handler it replaced or at the end.
pub proof fn lemma_register_then_lookup<E>(entries: Seq<(Seq<char>, E)>, name: Seq<char>, endpoint: E)
    requires
        names_unique(entries),
    ensures
        names_unique(register_entry(entries, name, endpoint)),
        index_of_name(register_entry(entries, name, endpoint), name) is Some,
        register_entry(entries, name, endpoint)[index_of_name(
            register_entry(entries, name, endpoint),
            name,
        )->0] == (name, endpoint),
        index_of_name(entries, name) is Some ==> register_entry(entries, name, endpoint).len()
            == entries.len(),
        index_of_name(entries, name) is None ==> register_entry(entries, name, endpoint).len()
            == entries.len() + 1,
{
    let r = register_entry(entries, name, endpoint);
    match index_of_name(entries, name) {
        Some(i) => {
            assert(r[i].0 == name);
        },
        None => {
            assert(r[entries.len() as int].0 == name);
        },
    }
    let k = index_of_name(r, name)->0;
    assert(r[k].0 == name);
}

} // verus!
