//! The decisions of the NATS dispatcher: which subjects to listen on, which
//! handlers a message goes to, what is published to acknowledge it, and when
//! the dispatch loop has to wait for running handlers.
use vstd::prelude::*;

use crate::handler::{entry_names, names_unique, HandlerRegistry};

verus! {

/// The payload of a NATS message.
pub struct NatsPayload {
    pub data: Vec<u8>,
}

impl Clone for NatsPayload {
    fn clone(&self) -> (c: Self)
        ensures
            c.data@ == self.data@,
    {
        NatsPayload { data: self.data.clone() }
    }
}

/// What a handler answers to a NATS message: the bytes of the reply, if any.
pub struct NatsResponse {
    pub data: Option<Vec<u8>>,
}

/// The metadata of a NATS message (none is extracted).
pub struct NatsMetadata {
}

/// What a handler's result turns into when it is sent back over NATS.
pub trait IntoNatsResponse: Sized {
    /// The bytes that the value sends back, if any.
    spec fn nats_reply(self) -> Option<Seq<u8>>;

    fn into_nats_response(self) -> (r: NatsResponse)
        ensures
            reply_bytes(r.data) == self.nats_reply(),
    ;
}

/// The contents of the bytes of a reply, if there are any.
pub open spec fn reply_bytes(data: Option<Vec<u8>>) -> Option<Seq<u8>> {
    match data {
        Some(b) => Some(b@),
        None => None,
    }
}

impl IntoNatsResponse for () {
    /// Nothing to send back.
    open spec fn nats_reply(self) -> Option<Seq<u8>> {
        None
    }

    fn into_nats_response(self) -> (r: NatsResponse)
        ensures
            r.data is None,
    {
        NatsResponse { data: None }
    }
}

impl IntoNatsResponse for String {
    /// The UTF-8 bytes of the string.
    open spec fn nats_reply(self) -> Option<Seq<u8>> {
        Some(vstd::utf8::encode_utf8(self@))
    }

    fn into_nats_response(self) -> (r: NatsResponse)
        ensures
            r.data is Some,
            r.data->0@ == vstd::utf8::encode_utf8(self@),
    {
        NatsResponse { data: Some(vstd::slice::slice_to_vec(self.as_str().as_bytes())) }
    }
}

impl IntoNatsResponse for Vec<u8> {
    /// The bytes themselves.
    open spec fn nats_reply(self) -> Option<Seq<u8>> {
        Some(self@)
    }

    fn into_nats_response(self) -> (r: NatsResponse)
        ensures
            r.data == Some(self),
    {
        NatsResponse { data: Some(self) }
    }
}

impl From<()> for NatsResponse {
    fn from(_value: ()) -> (r: Self) {
        NatsResponse { data: None }
    }
}

impl vstd::std_specs::convert::FromSpecImpl<()> for NatsResponse {
    open spec fn obeys_from_spec() -> bool {
        true
    }

    open spec fn from_spec(v: ()) -> Self {
        NatsResponse { data: None }
    }
}

/// `s` with every run of equal adjacent elements cut down to its first element.
pub open spec fn dedup_adjacent<A>(s: Seq<A>) -> Seq<A>
    decreases s.len(),
{
    if s.len() <= 1 {
        s
    } else {
        let rest = dedup_adjacent(s.drop_last());
        if s.last() == s[s.len() - 2] {
            rest
        } else {
            rest.push(s.last())
        }
    }
}

/// The contents of a list of strings.
pub open spec fn strings_view(v: Seq<String>) -> Seq<Seq<char>> {
    v.map_values(|s: String| s@)
}

/// Removes adjacent repeats from `v`, keeping the first of each run.
pub fn dedup(v: &mut Vec<String>)
    ensures
        strings_view(final(v)@) == dedup_adjacent(strings_view(old(v)@)),
{
    let ghost input = strings_view(v@);
    let mut out: Vec<String> = Vec::new();
    let n = v.len();
    let mut i: usize = 0;
    while i < n
        invariant
            n == v.len(),
            0 <= i <= n,
            input == strings_view(v@),
            input == strings_view(old(v)@),
            strings_view(out@) == dedup_adjacent(input.take(i as int)),
        decreases n - i,
    {
        proof {
            assert(input.take(i + 1).drop_last() =~= input.take(i as int));
            assert(input.take(i + 1).last() == input[i as int]);
            if i > 0 {
                assert(input.take(i + 1)[i - 1] == input[i - 1]);
            }
        }
        if i == 0 || v[i] != v[i - 1] {
            let s = v[i].clone();
            out.push(s);
            assert(strings_view(out@) =~= dedup_adjacent(input.take(i as int)).push(input[i as int]));
        }
        i = i + 1;
    }
    assert(input.take(n as int) =~= input);
    *v = out;
}

/// The names of the handlers of `registry`, in order.
fn handler_names<E>(registry: &HandlerRegistry<E>) -> (names: Vec<String>)
    ensures
        strings_view(names@) == entry_names(registry@),
        names_unique(registry@),
{
    let handlers = registry.handlers();
    let mut names: Vec<String> = Vec::new();
    let n = handlers.len();
    let mut i: usize = 0;
    while i < n
        invariant
            n == handlers.len(),
            0 <= i <= n,
            crate::handler::entries_view(handlers@) == registry@,
            strings_view(names@) == entry_names(registry@).take(i as int),
        decreases n - i,
    {
        assert(handlers@[i as int].0@ == registry@[i as int].0);
        let name = handlers[i].0.clone();
        assert(name@ == registry@[i as int].0);
        let ghost prev = names@;
        names.push(name);
        assert(names@ == prev.push(name));
        assert(strings_view(prev.push(name)) =~= strings_view(prev).push(name@));
        assert(strings_view(names@) =~= entry_names(registry@).take(i + 1));
        i = i + 1;
    }
    assert(entry_names(registry@).take(n as int) =~= entry_names(registry@));
    names
}

/// The subjects to listen on: all subjects, the subjects of the subscribers and
/// the subjects of the consumers, each without adjacent repeats.
pub fn extract_unique_subjects<E>(consumers: &HandlerRegistry<E>, subscribers: &HandlerRegistry<E>) -> (r: (
    Vec<String>,
    Vec<String>,
    Vec<String>,
))
    ensures
        strings_view(r.1@) == dedup_adjacent(entry_names(subscribers@)),
        strings_view(r.2@) == dedup_adjacent(entry_names(consumers@)),
        strings_view(r.0@) == dedup_adjacent(strings_view(r.1@) + strings_view(r.2@)),
        strings_view(r.1@) == entry_names(subscribers@),
        strings_view(r.2@) == entry_names(consumers@),
        no_repeats(strings_view(r.1@)),
        no_repeats(strings_view(r.2@)),
{
    let mut subscriber_subjects = handler_names(subscribers);
    let mut consumer_subjects = handler_names(consumers);
    proof {
        lemma_registry_subjects_are_its_names(subscribers@);
        lemma_registry_subjects_are_its_names(consumers@);
        lemma_names_have_no_repeats(subscribers@);
        lemma_names_have_no_repeats(consumers@);
    }
    dedup(&mut subscriber_subjects);
    dedup(&mut consumer_subjects);
    let mut all_subjects: Vec<String> = Vec::new();
    let mut i: usize = 0;
    while i < subscriber_subjects.len()
        invariant
            0 <= i <= subscriber_subjects.len(),
            strings_view(all_subjects@) == strings_view(subscriber_subjects@).take(i as int),
        decreases subscriber_subjects.len() - i,
    {
        let s = subscriber_subjects[i].clone();
        let ghost prev = all_subjects@;
        all_subjects.push(s);
        assert(all_subjects@ == prev.push(s));
        assert(strings_view(prev.push(s)) =~= strings_view(prev).push(s@));
        assert(strings_view(all_subjects@) =~= strings_view(subscriber_subjects@).take(i + 1));
        i = i + 1;
    }
    let mut j: usize = 0;
    while j < consumer_subjects.len()
        invariant
            0 <= j <= consumer_subjects.len(),
            strings_view(all_subjects@) == strings_view(subscriber_subjects@) + strings_view(
                consumer_subjects@,
            ).take(j as int),
        decreases consumer_subjects.len() - j,
    {
        let s = consumer_subjects[j].clone();
        let ghost prev = all_subjects@;
        all_subjects.push(s);
        assert(all_subjects@ == prev.push(s));
        assert(strings_view(prev.push(s)) =~= strings_view(prev).push(s@));
        assert(strings_view(all_subjects@) =~= strings_view(subscriber_subjects@) + strings_view(
            consumer_subjects@,
        ).take(j + 1));
        j = j + 1;
    }
    proof {
        assert(strings_view(subscriber_subjects@).take(subscriber_subjects@.len() as int)
            =~= strings_view(subscriber_subjects@));
        assert(strings_view(consumer_subjects@).take(consumer_subjects@.len() as int)
            =~= strings_view(consumer_subjects@));
    }
    dedup(&mut all_subjects);
    (all_subjects, subscriber_subjects, consumer_subjects)
}

/// No element occurs twice in `s`.
pub open spec fn no_repeats<A>(s: Seq<A>) -> bool {
    forall|i: int, j: int| 0 <= i < s.len() && 0 <= j < s.len() && i != j ==> s[i] != s[j]
}

/// The names of a registry occur once each.
pub proof fn lemma_names_have_no_repeats<E>(entries: Seq<(Seq<char>, E)>)
    requires
        names_unique(entries),
    ensures
        no_repeats(entry_names(entries)),
{
    let s = entry_names(entries);
    assert forall|i: int, j: int| 0 <= i < s.len() && 0 <= j < s.len() && i != j implies s[i]
        != s[j] by {
        assert(s[i] == entries[i].0 && s[j] == entries[j].0);
    }
}

/// A sequence without equal neighbours is its own adjacent-dedup.
pub proof fn lemma_dedup_adjacent_of_distinct<A>(s: Seq<A>)
    requires
        forall|i: int, j: int| 0 <= i < s.len() && 0 <= j < s.len() && i != j ==> s[i] != s[j],
    ensures
        dedup_adjacent(s) == s,
    decreases s.len(),
{
    if s.len() > 1 {
        let t = s.drop_last();
        assert forall|i: int, j: int| 0 <= i < t.len() && 0 <= j < t.len() && i != j implies t[i]
            != t[j] by {
            assert(t[i] == s[i] && t[j] == s[j]);
        }
        lemma_dedup_adjacent_of_distinct(t);
        assert(s[s.len() - 1] != s[s.len() - 2]);
        assert(t.push(s.last()) =~= s);
    }
}

/// The names of a registry are distinct, so listening subjects keep every
/// registered name, in order of registration.
pub proof fn lemma_registry_subjects_are_its_names<E>(entries: Seq<(Seq<char>, E)>)
    requires
        names_unique(entries),
    ensures
        dedup_adjacent(entry_names(entries)) == entry_names(entries),
{
    let s = entry_names(entries);
    assert forall|i: int, j: int| 0 <= i < s.len() && 0 <= j < s.len() && i != j implies s[i]
        != s[j] by {
        assert(s[i] == entries[i].0 && s[j] == entries[j].0);
    }
    lemma_dedup_adjacent_of_distinct(s);
}

/// The consumer handlers by subject: one handler per registered name.
pub fn build_consumer_handlers<E: Clone>(consumers: &HandlerRegistry<E>) -> (r: Vec<(String, E)>)
    ensures
        r@.len() == consumers@.len(),
        forall|i: int|
            0 <= i < r@.len() ==> #[trigger] r@[i].0@ == consumers@[i].0 && cloned(
                consumers@[i].1,
                r@[i].1,
            ),
{
    let handlers = consumers.handlers();
    let mut out: Vec<(String, E)> = Vec::new();
    let n = handlers.len();
    let mut i: usize = 0;
    while i < n
        invariant
            n == handlers.len(),
            0 <= i <= n,
            crate::handler::entries_view(handlers@) == consumers@,
            out@.len() == i,
            forall|k: int|
                0 <= k < i ==> #[trigger] out@[k].0@ == consumers@[k].0 && cloned(
                    consumers@[k].1,
                    out@[k].1,
                ),
        decreases n - i,
    {
        assert(handlers@[i as int].0@ == consumers@[i as int].0);
        assert(handlers@[i as int].1 == consumers@[i as int].1);
        let name = handlers[i].0.clone();
        let handler = handlers[i].1.clone();
        out.push((name, handler));
        i = i + 1;
    }
    out
}

/// The subscriber handlers grouped by subject; the names of a registry are
/// distinct, so every group holds the one handler registered under its name.
pub fn build_subscriber_handlers<E: Clone>(subscribers: &HandlerRegistry<E>) -> (r: Vec<(String, Vec<E>)>)
    ensures
        r@.len() == subscribers@.len(),
        forall|i: int|
            0 <= i < r@.len() ==> #[trigger] r@[i].0@ == subscribers@[i].0 && r@[i].1@.len() == 1
                && cloned(subscribers@[i].1, r@[i].1@[0]),
{
    let handlers = subscribers.handlers();
    let mut out: Vec<(String, Vec<E>)> = Vec::new();
    let n = handlers.len();
    let mut i: usize = 0;
    while i < n
        invariant
            n == handlers.len(),
            0 <= i <= n,
            crate::handler::entries_view(handlers@) == subscribers@,
            out@.len() == i,
            forall|k: int|
                0 <= k < i ==> #[trigger] out@[k].0@ == subscribers@[k].0 && out@[k].1@.len() == 1
                    && cloned(subscribers@[k].1, out@[k].1@[0]),
        decreases n - i,
    {
        assert(handlers@[i as int].0@ == subscribers@[i as int].0);
        assert(handlers@[i as int].1 == subscribers@[i as int].1);
        let name = handlers[i].0.clone();
        let mut group: Vec<E> = Vec::new();
        group.push(handlers[i].1.clone());
        out.push((name, group));
        i = i + 1;
    }
    out
}

/// Where the handlers for `subject` stand in `handlers`: the first entry with
/// that name, or none.
pub fn find_handler<X>(handlers: &Vec<(String, X)>, subject: &String) -> (r: Option<usize>)
    ensures
        match r {
            Some(i) => i < handlers@.len() && handlers@[i as int].0@ == subject@ && forall|j: int|
                0 <= j < i ==> #[trigger] handlers@[j].0@ != subject@,
            None => forall|j: int| 0 <= j < handlers@.len() ==> #[trigger] handlers@[j].0@ != subject@,
        },
{
    let n = handlers.len();
    let mut i: usize = 0;
    while i < n
        invariant
            n == handlers.len(),
            0 <= i <= n,
            forall|j: int| 0 <= j < i ==> #[trigger] handlers@[j].0@ != subject@,
        decreases n - i,
    {
        if handlers[i].0 == *subject {
            return Some(i);
        }
        i = i + 1;
    }
    None
}

/// What a dispatch loop received: a message on a subject, or an error.
pub enum Received {
    Message(String),
    Failed,
}

/// What a dispatch loop does with what it received.
#[derive(PartialEq, Eq, Structural, Debug)]
pub enum DispatchAction {
    /// Run the handlers of this entry of the handler list.
    Run(usize),
    /// Log that no handler is registered for the subject, and go on receiving.
    NoHandler,
    /// Log the receive error, and go on receiving.
    ReceiveError,
}

/// The dispatch loop's decision for what it received: the first handler entry
/// registered for the message's subject runs; without one, or on a receive
/// error, the loop logs and goes on.
pub fn next_dispatch_action<X>(handlers: &Vec<(String, X)>, received: &Received) -> (r: DispatchAction)
    ensures
        match received {
            Received::Failed => r == DispatchAction::ReceiveError,
            Received::Message(subject) => match r {
                DispatchAction::Run(i) => i < handlers@.len() && handlers@[i as int].0@ == subject@
                    && forall|j: int| 0 <= j < i ==> #[trigger] handlers@[j].0@ != subject@,
                DispatchAction::NoHandler => forall|j: int|
                    0 <= j < handlers@.len() ==> #[trigger] handlers@[j].0@ != subject@,
                DispatchAction::ReceiveError => false,
            },
        },
{
    match received {
        Received::Failed => DispatchAction::ReceiveError,
        Received::Message(subject) => match find_handler(handlers, subject) {
            Some(i) => DispatchAction::Run(i),
            None => DispatchAction::NoHandler,
        },
    }
}

/// Whether the dispatch loop may go on receiving: fewer handler tasks are
/// running than it allows at once. Otherwise it waits for some to finish.
pub fn has_capacity(running_tasks: usize, max_concurrent_tasks: usize) -> (r: bool)
    ensures
        r == (running_tasks < max_concurrent_tasks),
{
    running_tasks < max_concurrent_tasks
}

/// A consumer loop receives a message only when `has_capacity` holds and then
/// starts one handler task for it, so no more than `max_concurrent_tasks` of its
/// tasks run at once.
pub proof fn lemma_consumer_tasks_within_limit(running_tasks: usize, max_concurrent_tasks: usize)
    requires
        running_tasks < max_concurrent_tasks,
    ensures
        running_tasks + 1 <= max_concurrent_tasks,
{
}

/// Why a message could not be acknowledged.
pub enum AckError {
    /// The message has no reply subject: it is not a JetStream message.
    NoReplySubject,
}

/// What a plain NATS subscription publishes to answer a message: the handler's
/// answer on the reply subject, when there is both a reply subject and an answer;
/// otherwise nothing.
pub fn default_ack_publication(reply: Option<String>, payload: Option<Vec<u8>>) -> (r: Option<(String, Vec<u8>)>)
    ensures
        r == (match (reply, payload) {
            (Some(s), Some(p)) => Some((s, p)),
            _ => None,
        }),
{
    match (reply, payload) {
        (Some(s), Some(p)) => Some((s, p)),
        _ => None,
    }
}

/// What a JetStream consumer publishes to acknowledge a message: the handler's
/// answer, or an empty message, on the reply subject. Without a reply subject the
/// message cannot be acknowledged.
pub fn jetstream_ack_publication(reply: Option<String>, payload: Option<Vec<u8>>) -> (r: Result<(String, Vec<u8>), AckError>)
    ensures
        match reply {
            Some(s) => r matches Ok(p) && p.0 == s && p.1@ == (match payload {
                Some(b) => b@,
                None => Seq::<u8>::empty(),
            }),
            None => r is Err,
        },
{
    match reply {
        Some(s) => {
            let body = match payload {
                Some(b) => b,
                None => Vec::new(),
            };
            Ok((s, body))
        },
        None => Err(AckError::NoReplySubject),
    }
}

/// What acknowledging a JetStream message publishes: an empty message on its
/// reply subject.
pub fn ack_publication(reply: &Option<String>) -> (r: Result<(String, Vec<u8>), AckError>)
    ensures
        match reply {
            Some(s) => r matches Ok(p) && p.0@ == s@ && p.1@ == Seq::<u8>::empty(),
            None => r is Err,
        },
{
    match reply {
        Some(s) => Ok((s.clone(), Vec::new())),
        None => Err(AckError::NoReplySubject),
    }
}

/// The bytes that a consumer sends back for a handler's answer: the answer
/// turned into a NATS response, or nothing without an answer.
pub fn consumer_reply_payload<A: IntoNatsResponse>(answer: Option<A>) -> (r: Option<Vec<u8>>)
    ensures
        reply_bytes(r) == (match answer {
            Some(x) => x.nats_reply(),
            None => None,
        }),
{
    match answer {
        Some(x) => x.into_nats_response().data,
        None => None,
    }
}

/// A NATS dispatcher: consumers get each message of their subject once across
/// all instances, subscribers each get every message of their subject.
pub struct NatsDispatcher<S, E> {
    /// One handler per subject; each message goes to one consumer instance.
    pub consumers: HandlerRegistry<E>,
    /// Handlers that all see every message of their subject.
    pub subscribers: HandlerRegistry<E>,
    /// The most handler tasks that may run at once, for consumers and subscribers
    /// each.
    pub max_concurrent_tasks: usize,
    pub connection_string: String,
    pub state: S,
    pub stream_name: String,
    /// Unique for every service that subscribes to subjects.
    pub subscriber_name: String,
}

impl<S, E> NatsDispatcher<S, E> {
    pub fn new(
        consumers: HandlerRegistry<E>,
        subscribers: HandlerRegistry<E>,
        connection_string: &str,
        max_concurrent_tasks: usize,
        state: S,
        stream_name: String,
        subscriber_name: String,
    ) -> (d: Self)
        ensures
            d.consumers@ == consumers@,
            d.subscribers@ == subscribers@,
            d.connection_string@ == connection_string@,
            d.max_concurrent_tasks == max_concurrent_tasks,
            d.state == state,
            d.stream_name == stream_name,
            d.subscriber_name == subscriber_name,
    {
        NatsDispatcher {
            consumers,
            subscribers,
            max_concurrent_tasks,
            connection_string: connection_string.to_owned(),
            state,
            stream_name,
            subscriber_name,
        }
    }
}

} // verus!
