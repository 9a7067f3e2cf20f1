use dawnjection::codegen::{
    argument_from_shape, get_args_from_function, injection_for, process_segments, Argument,
    FnArgShape, Injection, PathSegment, TypeShape,
};

fn seg(ident: &str, args: &[&str]) -> PathSegment {
    PathSegment { ident: ident.to_string(), type_args: args.iter().map(|s| s.to_string()).collect() }
}

#[test]
fn segments_are_joined_with_colons() {
    let mut ty = String::new();
    process_segments(&mut ty, &vec![seg("std", &[]), seg("sync", &[]), seg("MutexGuard", &["u32"])]);
    assert_eq!(ty, "std::sync::MutexGuard<u32>");
}

#[test]
fn type_arguments_are_joined_with_commas() {
    let mut ty = String::new();
    process_segments(&mut ty, &vec![seg("HashMap", &["String", "u32"])]);
    assert_eq!(ty, "HashMap<String,u32>");
    let mut more = String::from("a");
    process_segments(&mut more, &vec![seg("b", &[])]);
    assert_eq!(more, "a::b");
}

#[test]
fn arguments_from_a_signature() {
    let inputs = vec![
        FnArgShape::Typed { binding: Some(("msg".to_string(), false)), ty: TypeShape::Path(vec![seg("String", &[])]) },
        FnArgShape::Typed { binding: Some(("cnt".to_string(), true)), ty: TypeShape::Path(vec![seg("u32", &[])]) },
        FnArgShape::Typed { binding: Some(("stru".to_string(), false)), ty: TypeShape::Reference(Some(vec![seg("SomeStruct", &[])])) },
        FnArgShape::Receiver,
        FnArgShape::Typed { binding: None, ty: TypeShape::Other },
    ];
    let args = get_args_from_function(&inputs);
    assert_eq!(args.len(), 5);
    assert_eq!((args[0].name.as_str(), args[0].is_ref, args[0].is_mut, args[0].ty.as_str()), ("msg", false, false, "String"));
    assert_eq!((args[1].name.as_str(), args[1].is_ref, args[1].is_mut, args[1].ty.as_str()), ("cnt", false, true, "u32"));
    assert_eq!((args[2].name.as_str(), args[2].is_ref, args[2].is_mut, args[2].ty.as_str()), ("stru", true, false, "SomeStruct"));
    assert_eq!((args[3].name.as_str(), args[3].is_ref, args[3].is_mut, args[3].ty.as_str()), ("", false, false, ""));
    assert_eq!((args[4].name.as_str(), args[4].is_ref, args[4].is_mut, args[4].ty.as_str()), ("", false, false, ""));
    let r = argument_from_shape(&FnArgShape::Typed { binding: None, ty: TypeShape::Reference(None) });
    assert!(r.is_ref);
    assert_eq!(r.ty, "");
}

fn arg(is_ref: bool, ty: &str) -> Argument {
    Argument { name: "x".to_string(), is_ref, is_mut: false, ty: ty.to_string() }
}

#[test]
fn injection_kinds() {
    assert_eq!(injection_for(&arg(true, "MutexGuard<u32>")), Injection::Ref);
    assert_eq!(injection_for(&arg(false, "std::sync::MutexGuard<u32>")), Injection::Mut);
    assert_eq!(injection_for(&arg(false, "Mutex<u32>")), Injection::Value);
    assert_eq!(injection_for(&arg(false, "")), Injection::Value);
    assert_eq!(injection_for(&arg(false, "String")), Injection::Value);
}
