use dawnjection::handler::HandlerRegistry;
use dawnjection::nats::{
    ack_publication, build_consumer_handlers, build_subscriber_handlers, consumer_reply_payload,
    dedup, default_ack_publication, extract_unique_subjects, find_handler, has_capacity,
    jetstream_ack_publication, next_dispatch_action, AckError, DispatchAction, Received, IntoNatsResponse, NatsDispatcher, NatsPayload,
    NatsResponse,
};

fn registry(names: &[&str]) -> HandlerRegistry<usize> {
    let mut reg = HandlerRegistry::default();
    for (i, n) in names.iter().enumerate() {
        reg.register(n.to_string(), i);
    }
    reg
}

#[test]
fn unique_subjects_of_registries() {
    let consumers = registry(&["mail", "task"]);
    let subscribers = registry(&["data", "mail"]);
    let (all, subs, cons) = extract_unique_subjects(&consumers, &subscribers);
    assert_eq!(subs, vec!["data".to_string(), "mail".to_string()]);
    assert_eq!(cons, vec!["mail".to_string(), "task".to_string()]);
    // only adjacent repeats are removed
    assert_eq!(
        all,
        vec!["data".to_string(), "mail".to_string(), "task".to_string()]
    );
}

#[test]
fn dedup_removes_adjacent_repeats_only() {
    let mut v: Vec<String> = ["a", "a", "b", "a", "a", "c"].iter().map(|s| s.to_string()).collect();
    dedup(&mut v);
    assert_eq!(v, vec!["a", "b", "a", "c"]);
    let mut empty: Vec<String> = vec![];
    dedup(&mut empty);
    assert!(empty.is_empty());
}

#[test]
fn handler_maps() {
    let reg = registry(&["x", "y"]);
    let cons = build_consumer_handlers(&reg);
    assert_eq!(cons, vec![("x".to_string(), 0), ("y".to_string(), 1)]);
    let subs = build_subscriber_handlers(&reg);
    assert_eq!(subs, vec![("x".to_string(), vec![0]), ("y".to_string(), vec![1])]);
}

#[test]
fn routing_by_subject() {
    let handlers = vec![("x".to_string(), 10), ("y".to_string(), 20)];
    assert_eq!(find_handler(&handlers, &"y".to_string()), Some(1));
    assert_eq!(find_handler(&handlers, &"z".to_string()), None);
}

#[test]
fn capacity() {
    assert!(has_capacity(3, 8));
    assert!(!has_capacity(8, 8));
    assert!(!has_capacity(0, 0));
}

#[test]
fn plain_ack_needs_reply_and_payload() {
    assert_eq!(
        default_ack_publication(Some("r".to_string()), Some(vec![1])),
        Some(("r".to_string(), vec![1]))
    );
    assert_eq!(default_ack_publication(Some("r".to_string()), None), None);
    assert_eq!(default_ack_publication(None, Some(vec![1])), None);
}

#[test]
fn jetstream_ack() {
    assert!(matches!(
        jetstream_ack_publication(Some("r".to_string()), None),
        Ok((s, b)) if s == "r" && b.is_empty()
    ));
    assert!(matches!(
        jetstream_ack_publication(Some("r".to_string()), Some(vec![7])),
        Ok((s, b)) if s == "r" && b == vec![7]
    ));
    assert!(matches!(
        jetstream_ack_publication(None, Some(vec![7])),
        Err(AckError::NoReplySubject)
    ));
    assert!(matches!(ack_publication(&Some("q".to_string())), Ok((s, b)) if s == "q" && b.is_empty()));
    assert!(matches!(ack_publication(&None), Err(AckError::NoReplySubject)));
}

#[test]
fn nats_responses() {
    assert_eq!(().into_nats_response().data, None);
    assert_eq!(
        "héllo".to_string().into_nats_response().data,
        Some("héllo".as_bytes().to_vec())
    );
    assert_eq!(vec![1u8, 2].into_nats_response().data, Some(vec![1u8, 2]));
    let NatsResponse { data } = NatsResponse::from(());
    assert_eq!(data, None);
    assert_eq!(consumer_reply_payload::<String>(None), None);
    assert_eq!(
        consumer_reply_payload(Some("ok".to_string())),
        Some(b"ok".to_vec())
    );
    let p = NatsPayload { data: vec![4, 5] };
    assert_eq!(p.clone().data, vec![4, 5]);
}

#[test]
fn dispatcher_new_keeps_settings() {
    let d = NatsDispatcher::new(
        registry(&["c"]),
        registry(&["s"]),
        "nats://localhost:4222",
        8,
        (),
        "stream".to_string(),
        "sub".to_string(),
    );
    assert_eq!(d.connection_string, "nats://localhost:4222");
    assert_eq!(d.max_concurrent_tasks, 8);
    assert_eq!(d.stream_name, "stream");
    assert_eq!(d.subscriber_name, "sub");
    assert_eq!(d.consumers.len(), 1);
    assert_eq!(d.subscribers.len(), 1);
}

#[test]
fn dispatch_decisions() {
    let handlers = vec![("x".to_string(), 10), ("y".to_string(), 20), ("y".to_string(), 30)];
    assert_eq!(next_dispatch_action(&handlers, &Received::Message("y".to_string())), DispatchAction::Run(1));
    assert_eq!(next_dispatch_action(&handlers, &Received::Message("q".to_string())), DispatchAction::NoHandler);
    assert_eq!(next_dispatch_action(&handlers, &Received::Failed), DispatchAction::ReceiveError);
}
