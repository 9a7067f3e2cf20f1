use dawnjection::{
    IServiceProvider, NoFactory, ProviderModel, ServiceCollection, ServiceFactory, ServiceProvider,
};

const I32_KEY: u64 = 1;
const U32_KEY: u64 = 2;
const STRING_KEY: u64 = 3;
const U64_KEY: u64 = 4;

#[derive(Clone, Debug, PartialEq)]
enum Svc {
    I32(i32),
    U32(u32),
    Str(String),
    U64(u64),
}

/// Reads the mutable `u32` singleton and hands it out as an `i32`.
#[derive(Clone)]
struct I32FromU32;

impl ServiceFactory<Svc> for I32FromU32 {
    fn creates(&self, _before: ProviderModel<Svc, Self>, _after: ProviderModel<Svc, Self>, _out: Option<Svc>) -> bool {
        true
    }

    fn create(&self, provider: &mut ServiceProvider<Svc, Self>) -> Option<Svc> {
        let int = provider.try_get_mut(U32_KEY).unwrap();
        match int {
            Svc::U32(x) => Some(Svc::I32(*x as i32)),
            _ => None,
        }
    }
}

#[test]
fn basic_clone() {
    let collection = ServiceCollection::<i32, NoFactory>::default();
    let mut pro = collection.reg_cloneable(I32_KEY, 42_i32).build_service_provider();
    assert_eq!(pro.try_get(I32_KEY), Some(42));
}

#[test]
fn basic_factory() {
    let mut pro = ServiceCollection::<Svc, I32FromU32>::default()
        .reg_mutable_singleton(U32_KEY, Svc::U32(42_u32))
        .reg_factory(I32_KEY, I32FromU32)
        .build_service_provider();
    assert_eq!(pro.try_get(I32_KEY), Some(Svc::I32(42)));
}

#[test]
fn basic_singleton() {
    let pro = ServiceCollection::<i32, NoFactory>::default()
        .reg_singleton(I32_KEY, 42_i32)
        .build_service_provider();
    assert_eq!(pro.try_get_ref(I32_KEY), Some(&42))
}

#[test]
fn basic_mutable_singleton() {
    let mut pro = ServiceCollection::<i32, NoFactory>::default()
        .reg_mutable_singleton(I32_KEY, 42_i32)
        .build_service_provider();

    {
        let some = pro.try_get_mut(I32_KEY).unwrap();
        *some += 1;
    }

    let val = pro.try_get_mut(I32_KEY).unwrap();
    assert_eq!(*val, 43)
}

#[test]
fn duplicate_key_is_reported() {
    let collection = ServiceCollection::<i32, NoFactory>::default().reg_mutable_singleton(I32_KEY, 42_i32);
    // a second registration under the same key is refused
    assert!(collection.contains_key(I32_KEY));
}

#[test]
fn scope_test() {
    let test_string = "some string takeable";
    let root_sc = ServiceCollection::<Svc, NoFactory>::default()
        .reg_mutable_singleton(I32_KEY, Svc::I32(42_i32))
        .build_service_provider();
    let scope_collection = ServiceCollection::default()
        .reg_takeable(STRING_KEY, Svc::Str(test_string.to_string()))
        .reg_takeable(U64_KEY, Svc::U64(1234u64));
    let mut scope_sp = root_sc.create_scope(Some(scope_collection));
    let some_string = scope_sp.try_get(STRING_KEY);
    assert_eq!(some_string, Some(Svc::Str(test_string.to_string())));
    assert_eq!(scope_sp.try_take(U64_KEY), Some(Svc::U64(1234u64)));
}

// ---- further behaviour ----

#[test]
fn takeable_is_handed_out_once() {
    let root = ServiceCollection::<Svc, NoFactory>::default().build_service_provider();
    let seed = ServiceCollection::default().reg_takeable(U64_KEY, Svc::U64(7));
    let mut scope = root.create_scope(Some(seed));
    assert_eq!(scope.try_take(U64_KEY), Some(Svc::U64(7)));
    assert_eq!(scope.try_take(U64_KEY), None);
    assert_eq!(scope.try_get(U64_KEY), None);
}

#[test]
fn take_without_scope_finds_nothing() {
    let mut root = ServiceCollection::<i32, NoFactory>::default()
        .reg_cloneable(I32_KEY, 5)
        .build_service_provider();
    assert_eq!(root.try_take(I32_KEY), None);
    // the root registration is not consumed
    assert_eq!(root.try_get(I32_KEY), Some(5));
    assert_eq!(root.try_get(I32_KEY), Some(5));
}

#[test]
fn take_leaves_non_takeable_scope_entries() {
    let root = ServiceCollection::<i32, NoFactory>::default().build_service_provider();
    let seed = ServiceCollection::default().reg_cloneable(I32_KEY, 9);
    let mut scope = root.create_scope(Some(seed));
    assert_eq!(scope.try_take(I32_KEY), None);
    assert_eq!(scope.try_get(I32_KEY), Some(9));
}

#[test]
fn scope_clone_entry_answers_every_get() {
    let root = ServiceCollection::<i32, NoFactory>::default().build_service_provider();
    let seed = ServiceCollection::default().reg_cloneable(I32_KEY, 7);
    let mut scope = root.create_scope(Some(seed));
    assert_eq!(scope.try_get(I32_KEY), Some(7));
    assert_eq!(scope.try_get(I32_KEY), Some(7));
}

/// Counts its calls in the provider's mutable singleton under `U32_KEY` and
/// answers the count.
#[derive(Clone)]
struct Counter;

impl ServiceFactory<Svc> for Counter {
    fn creates(&self, _before: ProviderModel<Svc, Self>, _after: ProviderModel<Svc, Self>, _out: Option<Svc>) -> bool {
        true
    }

    fn create(&self, provider: &mut ServiceProvider<Svc, Self>) -> Option<Svc> {
        match provider.try_get_mut(U32_KEY) {
            Some(Svc::U32(n)) => {
                *n += 1;
                Some(Svc::U32(*n))
            }
            _ => None,
        }
    }
}

#[test]
fn factory_builds_on_every_request() {
    let mut pro = ServiceCollection::<Svc, Counter>::default()
        .reg_mutable_singleton(U32_KEY, Svc::U32(0))
        .reg_factory(I32_KEY, Counter)
        .build_service_provider();
    assert_eq!(pro.try_get_mut(U32_KEY).map(|x| x.clone()), Some(Svc::U32(0)));
    assert_eq!(pro.try_get(I32_KEY), Some(Svc::U32(1)));
    assert_eq!(pro.try_get(I32_KEY), Some(Svc::U32(2)));
}

#[test]
fn scope_factory_answers_when_root_has_none() {
    let root = ServiceCollection::<Svc, Counter>::default()
        .reg_mutable_singleton(U32_KEY, Svc::U32(10))
        .build_service_provider();
    let seed = ServiceCollection::default().reg_factory(I32_KEY, Counter);
    let mut scope = root.create_scope(Some(seed));
    assert_eq!(scope.try_get(I32_KEY), Some(Svc::U32(11)));
    assert_eq!(scope.try_get(I32_KEY), Some(Svc::U32(12)));
}

#[test]
fn root_factory_without_answer_falls_back_to_scope() {
    // the factory finds no counter and builds nothing
    let root = ServiceCollection::<Svc, Counter>::default()
        .reg_factory(I32_KEY, Counter)
        .build_service_provider();
    let seed = ServiceCollection::default().reg_takeable(I32_KEY, Svc::I32(5));
    let mut scope = root.create_scope(Some(seed));
    assert_eq!(scope.try_get(I32_KEY), Some(Svc::I32(5)));
    assert_eq!(scope.try_get(I32_KEY), None);
}

#[test]
fn scope_write_reaches_root() {
    let root = ServiceCollection::<i32, NoFactory>::default()
        .reg_mutable_singleton(I32_KEY, 42)
        .build_service_provider();
    let mut scope = root.create_scope(None);
    *scope.try_get_mut(I32_KEY).unwrap() += 1;
    let mut root = scope.into_root();
    assert_eq!(root.try_get_mut(I32_KEY).map(|x| *x), Some(43));
    assert_eq!(root.try_take(I32_KEY), None);
}

#[test]
fn root_answers_before_scope() {
    let root = ServiceCollection::<i32, NoFactory>::default()
        .reg_cloneable(I32_KEY, 1)
        .build_service_provider();
    let seed = ServiceCollection::default().reg_takeable(I32_KEY, 2);
    let mut scope = root.create_scope(Some(seed));
    assert_eq!(scope.try_get(I32_KEY), Some(1));
    // the scope's one-shot value is still there
    assert_eq!(scope.try_take(I32_KEY), Some(2));
}

#[test]
fn get_ref_only_reaches_singletons() {
    let pro = ServiceCollection::<i32, NoFactory>::default()
        .reg_cloneable(1, 1)
        .reg_mutable_singleton(2, 2)
        .reg_takeable(3, 3)
        .reg_singleton(4, 4)
        .build_service_provider();
    assert_eq!(pro.try_get_ref(1), None);
    assert_eq!(pro.try_get_ref(2), None);
    assert_eq!(pro.try_get_ref(3), None);
    assert_eq!(pro.try_get_ref(4), Some(&4));
    assert_eq!(pro.try_get_ref(5), None);
}

#[test]
fn get_mut_only_reaches_mutable_singletons() {
    let mut pro = ServiceCollection::<i32, NoFactory>::default()
        .reg_singleton(1, 1)
        .reg_mutable_singleton(2, 2)
        .build_service_provider();
    assert!(pro.try_get_mut(1).is_none());
    assert_eq!(pro.try_get_mut(2).map(|x| *x), Some(2));
}

#[test]
fn scope_sees_root_registrations() {
    let root = ServiceCollection::<i32, NoFactory>::default()
        .reg_singleton(1, 10)
        .build_service_provider();
    let scope = root.create_scope_arc(None);
    assert_eq!(scope.try_get_ref(1), Some(&10));
}

#[test]
fn register_takeable_in_place() {
    let mut c = ServiceCollection::<i32, NoFactory>::default();
    assert!(!c.contains_key(1));
    c.register_takeable(1, 3);
    assert!(c.contains_key(1));
    let root = ServiceCollection::<i32, NoFactory>::default().build_service_provider();
    let mut scope = root.create_scope(Some(c));
    assert_eq!(IServiceProvider::try_take(&mut scope, 1), Some(3));
}

#[test]
fn trait_interface_matches_inherent_methods() {
    let mut pro = ServiceCollection::<i32, NoFactory>::default()
        .reg_cloneable(1, 1)
        .reg_singleton(2, 2)
        .reg_mutable_singleton(3, 3)
        .build_service_provider();
    assert_eq!(IServiceProvider::try_get(&mut pro, 1), Some(1));
    assert_eq!(IServiceProvider::try_get_ref(&pro, 2), Some(&2));
    *IServiceProvider::try_get_mut(&mut pro, 3).unwrap() = 30;
    assert_eq!(pro.try_get_mut(3).map(|x| *x), Some(30));
}

#[test]
fn finish_get_prefers_root_answer() {
    let root = ServiceCollection::<i32, NoFactory>::default().build_service_provider();
    let seed = ServiceCollection::default().reg_takeable(1, 2);
    let mut scope = root.create_scope(Some(seed));
    assert_eq!(scope.finish_get(1, Some(7)), Some(7));
    assert_eq!(scope.finish_get(1, None), Some(2));
    assert_eq!(scope.finish_get(1, None), None);
}
