use dawnjection::handler::{HandlerEndpoint, HandlerRegistry, IntoResponse, Request, Response};

#[test]
fn request_round_trip() {
    let req = Request::from_comps("meta", vec![1u8, 2, 3]);
    assert_eq!(req.metadata, "meta");
    let (m, p) = req.into_comps();
    assert_eq!(m, "meta");
    assert_eq!(p, vec![1u8, 2, 3]);
}

#[test]
fn responses_are_empty() {
    let Response {} = ().into_response();
    let Response {} = String::from("done").into_response();
}

#[test]
fn register_adds_new_names_in_order() {
    let mut reg = HandlerRegistry::<u32>::default();
    reg.register("first".to_string(), 1);
    reg.register("second".to_string(), 2);
    let names: Vec<&str> = reg.handlers().iter().map(|x| x.0.as_str()).collect();
    assert_eq!(names, vec!["first", "second"]);
    assert_eq!(reg.len(), 2);
}

#[test]
fn register_replaces_same_name_in_place() {
    let mut reg = HandlerRegistry::<u32>::default();
    reg.register("a".to_string(), 1);
    reg.register("b".to_string(), 2);
    reg.register("a".to_string(), 3);
    assert_eq!(reg.len(), 2);
    assert_eq!(reg.handlers()[0], ("a".to_string(), 3));
    assert_eq!(reg.handlers()[1], ("b".to_string(), 2));
}

#[test]
fn endpoint_keeps_its_handler() {
    let e: HandlerEndpoint<(u8,), &str> = HandlerEndpoint::new("handler");
    assert_eq!(*e.get_handler(), "handler");
}
