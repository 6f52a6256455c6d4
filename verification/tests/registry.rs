use lua_bridge::callback::{callback_error_ext, CallOutcome, CallbackStep};
use lua_bridge::error::Error;
use lua_bridge::extra::ExtraData;
use lua_bridge::failure::{PreallocatedFailure, WrappedFailure};
use lua_bridge::lock::UserDataLock;
use lua_bridge::registry::{
    check_meta_field, get_function_name, short_type_name, UserDataRegistry, META_FIELD_EXPECTED,
    META_INDEX, META_NEWINDEX,
};
use lua_bridge::userdata::{
    Callback, CallbackKind, SelfObject, UserDataType, Value, ValueKind,
};
use std::any::{Any, TypeId};

struct Counter {
    value: i64,
}

type Method = Box<dyn FnMut(&mut Counter) -> i64>;

fn registry() -> UserDataRegistry<i64, Method> {
    UserDataRegistry::new(TypeId::of::<Counter>(), "my_crate::model::Counter")
}

fn take_self(callback: &mut Callback<Method>, object: &SelfObject, lock: &mut UserDataLock) -> Result<(), Error> {
    callback.check_self(object)?;
    callback.borrow_self(lock)
}

fn value(kind: ValueKind, data: i64) -> Value<i64> {
    Value { kind, data }
}

#[test]
fn short_name_drops_the_modules_of_every_path() {
    let cases = [
        ("bool", "bool"),
        ("my_crate::model::Counter", "Counter"),
        ("core::option::Option<alloc::string::String>", "Option<String>"),
        ("core::result::Result<(), core::fmt::Error>", "Result<(), Error>"),
        ("(i32, &str)", "(i32, &str)"),
        ("(a::B, c::d::E)", "(B, E)"),
        ("[core::primitive::u8; 4]", "[u8; 4]"),
        (
            "alloc::vec::Vec<alloc::boxed::Box<dyn core::any::Any>>",
            "Vec<Box<dyn Any>>",
        ),
        (
            "alloc::sync::Arc<parking_lot::mutex::Mutex<my_crate::Counter>>",
            "Arc<Mutex<Counter>>",
        ),
        ("&mut a::b::C", "&mut C"),
        ("", ""),
        ("a::", ""),
        ("::a", "a"),
        ("a:b", "a:b"),
        ("a:::b", "b"),
        ("a::b<", "b<"),
        ("<>", "<>"),
        ("módulo::Tipo<ключ::Значение>", "Tipo<Значение>"),
    ];
    for (full, short) in cases {
        assert_eq!(short_type_name(full), short, "for {:?}", full);
    }
}

#[test]
fn short_name_of_a_short_name_is_itself() {
    for full in ["core::option::Option<alloc::string::String>", "a::b::C", "(x::Y, z::W)"] {
        let short = short_type_name(full);
        assert_eq!(short_type_name(&short), short);
    }
}

#[test]
fn function_name_joins_short_type_and_name_with_a_dot() {
    assert_eq!(get_function_name("Counter", "increment"), "Counter.increment");
    assert_eq!(
        get_function_name("my_crate::model::Counter", "increment"),
        "Counter.increment"
    );
    assert_eq!(get_function_name("", ""), ".");
    assert_eq!(
        get_function_name("alloc::vec::Vec<i32>", "__index"),
        "Vec<i32>.__index"
    );
    // Only the type is shortened; the name stays as it is.
    assert_eq!(get_function_name("a::B", "c::d"), "B.c::d");
}

#[test]
fn new_registry_is_empty_and_knows_its_type() {
    let registry = registry();
    assert!(matches!(registry.target(), UserDataType::Shared(id) if id == TypeId::of::<Counter>()));
    let raw = registry.into_raw();
    assert_eq!(raw.type_id, Some(TypeId::of::<Counter>()));
    assert_eq!(raw.host_type, "Counter");
    assert!(raw.fields.is_empty());
    assert!(raw.field_getters.is_empty());
    assert!(raw.field_setters.is_empty());
    assert!(raw.meta_fields.is_empty());
    assert!(raw.methods.is_empty());
    assert!(raw.meta_methods.is_empty());
}

#[test]
fn registry_for_one_object_has_no_registered_type() {
    let registry: UserDataRegistry<i64, Method> =
        UserDataRegistry::new_unique(0x7000, "my_crate::model::Counter");
    assert!(matches!(registry.target(), UserDataType::Unique(0x7000)));
    assert_eq!(registry.raw().type_id, None);
    let same: UserDataRegistry<i64, Method> =
        UserDataRegistry::with_type(UserDataType::Unique(0x7000), "Counter");
    assert!(matches!(same.target(), UserDataType::Unique(0x7000)));
    assert_eq!(same.into_raw().type_id, None);
}

#[test]
fn boxed_callables_carry_name_target_and_shape() {
    let registry = registry();
    let boxed = [
        (registry.box_method("get", Box::new(|c| c.value)), CallbackKind::Method),
        (registry.box_method_mut("get", Box::new(|c| c.value)), CallbackKind::MethodMut),
        (registry.box_function("get", Box::new(|c| c.value)), CallbackKind::Function),
        (registry.box_function_mut("get", Box::new(|c| c.value)), CallbackKind::FunctionMut),
    ];
    for (callback, kind) in boxed {
        assert_eq!(callback.name(), "Counter.get");
        assert_eq!(callback.kind(), kind);
        assert!(!callback.is_running());
        assert!(
            matches!(callback.target(), UserDataType::Shared(id) if id == TypeId::of::<Counter>())
        );
    }
}

#[test]
fn entries_keep_their_order_and_names_may_repeat() {
    let mut registry = registry();
    registry.add_method("a".to_string(), Box::new(|_| 1));
    registry.add_function("b".to_string(), Box::new(|_| 2));
    registry.add_method_mut("a".to_string(), Box::new(|_| 3));
    registry.add_function_mut("c".to_string(), Box::new(|_| 4));
    let mut raw = registry.into_raw();
    let names: Vec<&str> = raw.methods.iter().map(|entry| entry.0.as_str()).collect();
    assert_eq!(names, vec!["a", "b", "a", "c"]);
    let kinds: Vec<CallbackKind> = raw.methods.iter().map(|entry| entry.1.kind()).collect();
    assert_eq!(
        kinds,
        vec![
            CallbackKind::Method,
            CallbackKind::Function,
            CallbackKind::MethodMut,
            CallbackKind::FunctionMut
        ]
    );
    let mut counter = Counter { value: 0 };
    let results: Vec<i64> = raw
        .methods
        .iter_mut()
        .map(|entry| (entry.1.function_mut())(&mut counter))
        .collect();
    assert_eq!(results, vec![1, 2, 3, 4]);
    assert!(raw.meta_methods.is_empty());
    assert!(raw.field_getters.is_empty());
}

#[test]
fn each_kind_of_entry_goes_to_its_own_list() {
    let mut registry = registry();
    registry.add_field("version".to_string(), Ok(value(ValueKind::Integer, 3)));
    registry.add_field_method_get("value".to_string(), Box::new(|c| c.value));
    registry.add_field_function_get("kind".to_string(), Box::new(|_| 0));
    registry.add_field_method_set("value".to_string(), Box::new(|c| c.value));
    registry.add_field_function_set("kind".to_string(), Box::new(|_| 0));
    registry.add_meta_field("__name".to_string(), Ok(value(ValueKind::String, 0)));
    registry.add_meta_method("__len".to_string(), Box::new(|c| c.value));
    registry.add_meta_method_mut("__call".to_string(), Box::new(|c| c.value));
    registry.add_meta_function("__eq".to_string(), Box::new(|_| 0));
    registry.add_meta_function_mut("__close".to_string(), Box::new(|_| 0));
    let raw = registry.into_raw();

    assert_eq!(raw.fields.len(), 1);
    assert_eq!(raw.fields[0].0, "version");
    assert!(matches!(raw.fields[0].1, Ok(Value { kind: ValueKind::Integer, data: 3 })));

    let getters: Vec<(&str, CallbackKind)> =
        raw.field_getters.iter().map(|e| (e.0.as_str(), e.1.kind())).collect();
    assert_eq!(
        getters,
        vec![("value", CallbackKind::Method), ("kind", CallbackKind::Function)]
    );
    let setters: Vec<(&str, CallbackKind)> =
        raw.field_setters.iter().map(|e| (e.0.as_str(), e.1.kind())).collect();
    assert_eq!(
        setters,
        vec![("value", CallbackKind::MethodMut), ("kind", CallbackKind::FunctionMut)]
    );
    assert_eq!(raw.meta_fields.len(), 1);
    assert_eq!(raw.meta_fields[0].0, "__name");
    let meta: Vec<(&str, CallbackKind, &str)> = raw
        .meta_methods
        .iter()
        .map(|e| (e.0.as_str(), e.1.kind(), e.1.name().as_str()))
        .collect();
    assert_eq!(
        meta,
        vec![
            ("__len", CallbackKind::Method, "Counter.__len"),
            ("__call", CallbackKind::MethodMut, "Counter.__call"),
            ("__eq", CallbackKind::Function, "Counter.__eq"),
            ("__close", CallbackKind::FunctionMut, "Counter.__close"),
        ]
    );
    assert!(raw.methods.is_empty());
}

#[test]
fn failed_conversion_of_a_field_is_kept_in_its_place() {
    let mut registry = registry();
    registry.add_field("broken".to_string(), Err(Error::external("no".to_string())));
    registry.add_meta_field("__index".to_string(), Err(Error::external("no".to_string())));
    let raw = registry.into_raw();
    assert_eq!(raw.fields[0].0, "broken");
    assert!(matches!(&raw.fields[0].1, Err(Error::ExternalError(m)) if m == "no"));
    assert!(matches!(&raw.meta_fields[0].1, Err(Error::ExternalError(m)) if m == "no"));
}

#[test]
fn index_fields_hold_nil_tables_and_functions_only() {
    assert_eq!(META_INDEX, "__index");
    assert_eq!(META_NEWINDEX, "__newindex");
    assert_eq!(META_FIELD_EXPECTED, "expected nil, table or function");
    for name in ["__index", "__newindex"] {
        for kind in [ValueKind::Nil, ValueKind::Table, ValueKind::Function] {
            let checked = check_meta_field(name, value(kind, 5));
            assert!(matches!(checked, Ok(Value { kind: k, data: 5 }) if k == kind));
        }
        for (kind, spelled) in [
            (ValueKind::Boolean, "boolean"),
            (ValueKind::Integer, "integer"),
            (ValueKind::Number, "number"),
            (ValueKind::String, "string"),
            (ValueKind::UserData, "userdata"),
            (ValueKind::Thread, "thread"),
            (ValueKind::LightUserData, "lightuserdata"),
            (ValueKind::Error, "error"),
            (ValueKind::Other, "other"),
        ] {
            match check_meta_field(name, value(kind, 5)) {
                Err(error) => assert_eq!(
                    error,
                    Error::MetaMethodTypeError {
                        method: name.to_string(),
                        value_type: spelled,
                        message: Some("expected nil, table or function".to_string()),
                    }
                ),
                Ok(_) => panic!("{} accepted a {}", name, spelled),
            }
        }
    }
}

#[test]
fn other_meta_fields_hold_anything() {
    for name in ["__name", "__metatable", "__Index", "index", ""] {
        let checked = check_meta_field(name, value(ValueKind::Integer, 9));
        assert!(matches!(checked, Ok(Value { kind: ValueKind::Integer, data: 9 })));
    }
}

#[test]
fn refused_meta_field_is_registered_as_its_refusal() {
    let mut registry = registry();
    registry.add_meta_field("__index".to_string(), Ok(value(ValueKind::Integer, 1)));
    registry.add_meta_field("__index".to_string(), Ok(value(ValueKind::Table, 2)));
    let raw = registry.into_raw();
    assert_eq!(raw.meta_fields.len(), 2);
    assert!(matches!(
        &raw.meta_fields[0].1,
        Err(Error::MetaMethodTypeError { method, value_type: "integer", .. }) if method == "__index"
    ));
    assert!(matches!(
        raw.meta_fields[1].1,
        Ok(Value { kind: ValueKind::Table, data: 2 })
    ));
}

#[test]
fn extend_appends_every_list_in_order() {
    let mut orig = registry();
    orig.add_field("f".to_string(), Ok(value(ValueKind::Nil, 0)));
    orig.add_field_method_get("g".to_string(), Box::new(|_| 1));
    orig.add_field_method_set("s".to_string(), Box::new(|_| 2));
    orig.add_meta_field("__name".to_string(), Ok(value(ValueKind::String, 0)));
    orig.add_method("m1".to_string(), Box::new(|_| 3));
    orig.add_method("m2".to_string(), Box::new(|_| 4));
    orig.add_meta_method("__len".to_string(), Box::new(|_| 5));

    let mut proxy: UserDataRegistry<i64, Method> =
        UserDataRegistry::new(
            TypeId::of::<Box<Counter>>(),
            "alloc::boxed::Box<my_crate::model::Counter>",
        );
    proxy.add_method("own".to_string(), Box::new(|_| 0));
    proxy.extend(orig.into_raw());
    let raw = proxy.into_raw();

    assert_eq!(raw.type_id, Some(TypeId::of::<Box<Counter>>()));
    assert_eq!(raw.host_type, "Box<Counter>");
    let methods: Vec<(&str, &str)> =
        raw.methods.iter().map(|e| (e.0.as_str(), e.1.name().as_str())).collect();
    assert_eq!(
        methods,
        vec![
            ("own", "Box<Counter>.own"),
            ("m1", "Counter.m1"),
            ("m2", "Counter.m2")
        ]
    );
    assert_eq!(raw.fields.len(), 1);
    assert_eq!(raw.field_getters.len(), 1);
    assert_eq!(raw.field_setters.len(), 1);
    assert_eq!(raw.meta_fields.len(), 1);
    assert_eq!(raw.meta_methods.len(), 1);
    assert_eq!(raw.meta_methods[0].0, "__len");
}

#[test]
fn registered_increment_returns_one_two_three() {
    let mut registry = registry();
    registry.add_method_mut(
        "increment".to_string(),
        Box::new(|counter| {
            counter.value += 1;
            counter.value
        }),
    );
    let mut raw = registry.into_raw();
    let (name, increment) = &mut raw.methods[0];
    assert_eq!(name, "increment");
    assert_eq!(increment.name(), "Counter.increment");

    let mut instance = Counter { value: 0 };
    let mut lock = UserDataLock::new();
    let object = SelfObject {
        address: 0x7000,
        type_id: Some(TypeId::of::<Counter>()),
    };
    let mut extra: ExtraData<i64> = ExtraData::new(8);
    let mut returned = Vec::new();
    for _ in 0..3 {
        let token = PreallocatedFailure::reserve(&mut extra).unwrap_or(PreallocatedFailure::New(1));
        let outcome: CallOutcome<i64, Box<dyn Any + Send>> = match increment.begin(1, 2) {
            Err(error) => CallOutcome::Error(error),
            Ok(_) => match take_self(increment, &object, &mut lock) {
                Err(error) => CallOutcome::Error(error),
                Ok(()) => {
                    let value = (increment.function_mut())(&mut instance);
                    increment.finish(&mut lock);
                    CallOutcome::Return(value)
                }
            },
        };
        match callback_error_ext(&mut extra, token, true, outcome) {
            CallbackStep::Return { value, .. } => returned.push(value),
            other => panic!("unexpected step {:?}", other),
        }
    }
    assert_eq!(returned, vec![1, 2, 3]);
    assert_eq!(extra.idle_failures(), 1);
}

#[test]
fn registered_getter_returns_forty_two_on_any_instance() {
    let mut registry = registry();
    registry.add_field_method_get("value".to_string(), Box::new(|_| 42));
    let mut raw = registry.into_raw();
    let (name, getter) = &mut raw.field_getters[0];
    assert_eq!(name, "value");
    for (address, state) in [(0x10usize, 0i64), (0x20, -5), (0x30, i64::MAX)] {
        let mut instance = Counter { value: state };
        let mut lock = UserDataLock::new();
        let object = SelfObject {
            address,
            type_id: Some(TypeId::of::<Counter>()),
        };
        assert!(getter.begin(1, 1).is_ok());
        assert_eq!(take_self(getter, &object, &mut lock), Ok(()));
        assert_eq!((getter.function_mut())(&mut instance), 42);
        getter.finish(&mut lock);
        assert_eq!(instance.value, state);
    }
}

#[test]
fn panic_in_a_registered_method_surfaces_as_that_panic() {
    let mut registry = registry();
    registry.add_method("crash".to_string(), Box::new(|counter| counter.value));
    let mut raw = registry.into_raw();
    let crash = &mut raw.methods[0].1;
    let mut lock = UserDataLock::new();
    let object = SelfObject {
        address: 0x7000,
        type_id: Some(TypeId::of::<Counter>()),
    };
    let mut extra: ExtraData<i64> = ExtraData::new(8);
    let token = PreallocatedFailure::reserve(&mut extra).unwrap_or(PreallocatedFailure::New(1));

    assert!(crash.begin(1, 2).is_ok());
    assert_eq!(take_self(crash, &object, &mut lock), Ok(()));
    // What is caught when the method indexes a vector of three at seven.
    let caught: Box<dyn Any + Send> = Box::new(String::from(
        "index out of bounds: the len is 3 but the index is 7",
    ));
    crash.finish(&mut lock);
    let outcome: CallOutcome<i64, Box<dyn Any + Send>> = CallOutcome::Panic(caught);
    let carried = match callback_error_ext(&mut extra, token, true, outcome) {
        CallbackStep::Raise {
            failure: WrappedFailure::Panic(payload),
            ..
        } => payload,
        other => panic!("unexpected step {:?}", other),
    };
    let message = carried.downcast_ref::<String>().cloned().unwrap_or_default();
    assert_eq!(
        message,
        "index out of bounds: the len is 3 but the index is 7"
    );
    assert!(!lock.is_locked());
    assert_eq!(extra.idle_failures(), 0);
}
