use avm2_qname::activation::Activation;
use avm2_qname::api_version::ApiVersion;
use avm2_qname::heap::{QName, QNameObject};
use avm2_qname::namespace::Namespace;
use avm2_qname::q_name::{call_handler, construct, get_local_name, get_uri, init, to_string};
use avm2_qname::value::{decimal_string, Error, ScriptObject, ToStringBehavior, Value};

fn new_activation() -> Activation {
    Activation::new(ApiVersion::Swf12)
}

fn s(text: &str) -> Value {
    Value::Str(text.to_string())
}

fn name(activation: &Activation, o: QNameObject) -> &QName {
    activation.heap.get(o).expect("live object")
}

fn package_parts(ns: &Namespace) -> (String, ApiVersion) {
    match ns {
        Namespace::Package { uri, api_version } => (uri.clone(), *api_version),
        other => panic!("not a package namespace: {:?}", other),
    }
}

fn text_of(v: Result<Value, Error>) -> String {
    match v {
        Ok(Value::Str(t)) => t,
        other => panic!("not a string: {:?}", other),
    }
}

#[test]
fn construct_without_arguments_is_public_and_qualified() {
    let mut a = new_activation();
    let o = construct(&mut a, &[]).unwrap();
    let q = name(&a, o);
    assert_eq!(q.local_name(), "");
    assert!(q.is_qname());
    let (uri, version) = package_parts(q.namespace().unwrap());
    assert_eq!(uri, "");
    assert_eq!(version, ApiVersion::Swf12);
}

#[test]
fn construct_star_string_is_unqualified() {
    let mut a = new_activation();
    let o = construct(&mut a, &[s("*")]).unwrap();
    let q = name(&a, o);
    assert!(!q.is_qname());
    assert!(q.namespace().is_none());
    assert_eq!(text_of(to_string(&a, &Value::QName(o))), "*");
}

#[test]
fn construct_object_coercing_to_star_is_unqualified() {
    let mut a = new_activation();
    let obj = ScriptObject {
        class_name: "Wild".to_string(),
        to_string: ToStringBehavior::Returns("*".to_string()),
    };
    let o = construct(&mut a, &[Value::Object(obj)]).unwrap();
    let q = name(&a, o);
    assert!(!q.is_qname());
    assert!(q.namespace().is_none());
}

#[test]
fn construct_one_string_uses_public_namespace() {
    let mut a = new_activation();
    let o = construct(&mut a, &[s("foo")]).unwrap();
    let q = name(&a, o);
    assert_eq!(q.local_name(), "foo");
    assert!(q.is_qname());
    let (uri, version) = package_parts(q.namespace().unwrap());
    assert_eq!(uri, "");
    assert_eq!(version, ApiVersion::Swf12);
}

#[test]
fn construct_undefined_single_argument_is_empty_name() {
    let mut a = new_activation();
    let o = construct(&mut a, &[Value::Undefined]).unwrap();
    assert_eq!(name(&a, o).local_name(), "");
    assert!(name(&a, o).is_qname());
}

#[test]
fn construct_from_qname_copies_into_new_object() {
    let mut a = new_activation();
    let ns = Namespace::package("http://x".to_string(), ApiVersion::Fp10_1);
    let first = construct(&mut a, &[Value::Namespace(ns), s("n")]).unwrap();
    let copy = construct(&mut a, &[Value::QName(first)]).unwrap();
    assert_ne!(copy, first);
    let q = name(&a, copy);
    assert_eq!(q.local_name(), "n");
    assert!(q.is_qname());
    let (uri, version) = package_parts(q.namespace().unwrap());
    assert_eq!(uri, "http://x");
    assert_eq!(version, ApiVersion::Fp10_1);

    let wild = construct(&mut a, &[s("*")]).unwrap();
    let wild_copy = construct(&mut a, &[Value::QName(wild)]).unwrap();
    assert_ne!(wild_copy, wild);
    assert!(!name(&a, wild_copy).is_qname());
    assert!(name(&a, wild_copy).namespace().is_none());
    assert_eq!(name(&a, wild_copy).local_name(), "*");
}

#[test]
fn construct_null_namespace_is_unqualified() {
    let mut a = new_activation();
    let o = construct(&mut a, &[Value::Null, s("x")]).unwrap();
    let q = name(&a, o);
    assert_eq!(q.local_name(), "x");
    assert!(q.namespace().is_none());
    assert!(!q.is_qname());
    assert!(matches!(get_uri(&a, &Value::QName(o)), Ok(Value::Null)));
}

#[test]
fn construct_undefined_namespace_is_public() {
    let mut a = Activation::new(ApiVersion::Air2_0);
    let o = construct(&mut a, &[Value::Undefined, s("x")]).unwrap();
    let q = name(&a, o);
    assert_eq!(q.local_name(), "x");
    assert!(q.is_qname());
    let (uri, version) = package_parts(q.namespace().unwrap());
    assert_eq!(uri, "");
    assert_eq!(version, ApiVersion::Air2_0);
}

#[test]
fn construct_local_from_qname_takes_only_local_name() {
    let mut a = new_activation();
    let other = Namespace::package("http://other".to_string(), ApiVersion::Fp10_0);
    let q2 = construct(&mut a, &[Value::Namespace(other), s("inner")]).unwrap();
    let o = construct(&mut a, &[s("http://mine"), Value::QName(q2)]).unwrap();
    let q = name(&a, o);
    assert_eq!(q.local_name(), "inner");
    let (uri, version) = package_parts(q.namespace().unwrap());
    assert_eq!(uri, "http://mine");
    assert_eq!(version, ApiVersion::Swf12);
}

#[test]
fn construct_undefined_local_is_empty() {
    let mut a = new_activation();
    let o = construct(&mut a, &[s("u"), Value::Undefined]).unwrap();
    assert_eq!(name(&a, o).local_name(), "");
    assert_eq!(text_of(to_string(&a, &Value::QName(o))), "{u}");
}

#[test]
fn namespace_argument_keeps_its_own_version() {
    let mut a = new_activation();
    let ns = Namespace::package("urn:a".to_string(), ApiVersion::Air1_0);
    let o = construct(&mut a, &[Value::Namespace(ns), s("x")]).unwrap();
    let (uri, version) = package_parts(name(&a, o).namespace().unwrap());
    assert_eq!(uri, "urn:a");
    assert_eq!(version, ApiVersion::Air1_0);
}

#[test]
fn qname_namespace_argument_matches_all_versions() {
    let mut a = new_activation();
    let ns = Namespace::package("urn:b".to_string(), ApiVersion::Air1_0);
    let src = construct(&mut a, &[Value::Namespace(ns), s("y")]).unwrap();
    let o = construct(&mut a, &[Value::QName(src), s("z")]).unwrap();
    let q = name(&a, o);
    assert_eq!(q.local_name(), "z");
    let (uri, version) = package_parts(q.namespace().unwrap());
    assert_eq!(uri, "urn:b");
    assert_eq!(version, ApiVersion::AllVersions);
}

#[test]
fn qname_without_uri_as_namespace_gives_no_namespace() {
    let mut a = new_activation();
    let src = construct(&mut a, &[Value::Null, s("y")]).unwrap();
    let o = construct(&mut a, &[Value::QName(src), s("z")]).unwrap();
    assert!(name(&a, o).namespace().is_none());
    assert!(!name(&a, o).is_qname());
}

#[test]
fn to_string_formats_uri_and_local_name() {
    let mut a = new_activation();
    let with_uri = construct(&mut a, &[s("u"), s("n")]).unwrap();
    let empty_uri = construct(&mut a, &[s(""), s("n")]).unwrap();
    let no_ns = construct(&mut a, &[Value::Null, s("n")]).unwrap();
    assert_eq!(text_of(to_string(&a, &Value::QName(with_uri))), "{u}n");
    assert_eq!(text_of(to_string(&a, &Value::QName(empty_uri))), "n");
    assert_eq!(text_of(to_string(&a, &Value::QName(no_ns))), "n");
}

#[test]
fn private_namespace_has_no_uri() {
    let mut a = new_activation();
    let ns = Namespace::Private("secret".to_string());
    let o = construct(&mut a, &[Value::Namespace(ns), s("n")]).unwrap();
    assert!(name(&a, o).is_qname());
    assert!(matches!(get_uri(&a, &Value::QName(o)), Ok(Value::Null)));
    assert_eq!(text_of(to_string(&a, &Value::QName(o))), "n");
}

#[test]
fn accessors_read_the_name() {
    let mut a = new_activation();
    let o = construct(&mut a, &[s("http://u"), s("loc")]).unwrap();
    assert_eq!(text_of(get_local_name(&a, &Value::QName(o))), "loc");
    assert_eq!(text_of(get_uri(&a, &Value::QName(o))), "http://u");
}

#[test]
fn accessors_on_other_values_are_undefined() {
    let a = new_activation();
    let this = s("not a qname");
    assert!(matches!(get_local_name(&a, &this), Ok(Value::Undefined)));
    assert!(matches!(get_uri(&a, &this), Ok(Value::Undefined)));
    assert!(matches!(to_string(&a, &this), Ok(Value::Undefined)));
}

#[test]
fn call_with_qname_returns_same_object_twice() {
    let mut a = new_activation();
    let o = construct(&mut a, &[s("q")]).unwrap();
    let before = a.heap.len();
    let first = call_handler(&mut a, &[Value::QName(o)]).unwrap();
    let second = call_handler(&mut a, &[Value::QName(o)]).unwrap();
    assert!(matches!(first, Value::QName(r) if r == o));
    assert!(matches!(second, Value::QName(r) if r == o));
    assert_eq!(a.heap.len(), before);
}

#[test]
fn call_with_other_arguments_constructs() {
    let mut a = new_activation();
    let r = call_handler(&mut a, &[s("u"), s("n")]).unwrap();
    match r {
        Value::QName(o) => {
            assert_eq!(name(&a, o).local_name(), "n");
            assert_eq!(text_of(to_string(&a, &Value::QName(o))), "{u}n");
        }
        other => panic!("not a qname: {:?}", other),
    }
    let o = construct(&mut a, &[s("x")]).unwrap();
    let r = call_handler(&mut a, &[Value::QName(o), s("y")]).unwrap();
    assert!(matches!(r, Value::QName(p) if p != o));
}

#[test]
fn coercion_error_propagates() {
    let mut a = new_activation();
    let thrower = || {
        Value::Object(ScriptObject {
            class_name: "Bad".to_string(),
            to_string: ToStringBehavior::Throws("boom".to_string()),
        })
    };
    match construct(&mut a, &[thrower()]) {
        Err(Error::Thrown(m)) => assert_eq!(m, "boom"),
        other => panic!("unexpected: {:?}", other),
    }
    match construct(&mut a, &[thrower(), s("x")]) {
        Err(Error::Thrown(m)) => assert_eq!(m, "boom"),
        other => panic!("unexpected: {:?}", other),
    }
    match call_handler(&mut a, &[s("u"), thrower()]) {
        Err(Error::Thrown(m)) => assert_eq!(m, "boom"),
        other => panic!("unexpected: {:?}", other),
    }
}

#[test]
fn inherited_object_string_is_used() {
    let mut a = new_activation();
    let obj = ScriptObject { class_name: "Foo".to_string(), to_string: ToStringBehavior::Inherited };
    let o = construct(&mut a, &[Value::Object(obj)]).unwrap();
    assert_eq!(name(&a, o).local_name(), "[object Foo]");
}

#[test]
fn primitive_values_coerce_to_strings() {
    let mut a = new_activation();
    let o = construct(&mut a, &[Value::Integer(-42)]).unwrap();
    assert_eq!(name(&a, o).local_name(), "-42");
    let o = construct(&mut a, &[Value::Bool(true), Value::Integer(i32::MIN)]).unwrap();
    assert_eq!(name(&a, o).local_name(), "-2147483648");
    assert_eq!(text_of(to_string(&a, &Value::QName(o))), "{true}-2147483648");
    let o = construct(&mut a, &[Value::Null]).unwrap();
    assert_eq!(name(&a, o).local_name(), "null");
    let o = construct(&mut a, &[Value::Integer(0), Value::Bool(false)]).unwrap();
    assert_eq!(text_of(to_string(&a, &Value::QName(o))), "{0}false");
}

#[test]
fn decimal_text_of_integers() {
    assert_eq!(decimal_string(0), "0");
    assert_eq!(decimal_string(7), "7");
    assert_eq!(decimal_string(1905), "1905");
    assert_eq!(decimal_string(-10), "-10");
    assert_eq!(decimal_string(i32::MAX), "2147483647");
}

#[test]
fn init_refuses_initialized_object() {
    let mut a = new_activation();
    let o = construct(&mut a, &[s("a")]).unwrap();
    assert!(matches!(init(&mut a, o, &[s("b")]), Err(Error::NotFresh)));
    assert_eq!(name(&a, o).local_name(), "a");
}

#[test]
fn init_writes_allocated_object() {
    let mut a = new_activation();
    let o = avm2_qname::q_name::q_name_allocator(&mut a);
    assert!(a.heap.is_fresh(o));
    assert!(matches!(init(&mut a, o, &[s("u"), s("v")]), Ok(Value::Undefined)));
    assert!(!a.heap.is_fresh(o));
    assert_eq!(text_of(to_string(&a, &Value::QName(o))), "{u}v");
}

#[test]
fn unknown_object_is_an_error() {
    let mut a = new_activation();
    let mut b = new_activation();
    let o = construct(&mut b, &[s("elsewhere")]).unwrap();
    assert!(matches!(construct(&mut a, &[Value::QName(o)]), Err(Error::UnknownObject)));
    assert!(matches!(get_local_name(&a, &Value::QName(o)), Ok(Value::Undefined)));
}

#[test]
fn namespace_identity_with_all_versions() {
    let a = Namespace::package("urn:x".to_string(), ApiVersion::AllVersions);
    let b = Namespace::package("urn:x".to_string(), ApiVersion::Fp10_2);
    let c = Namespace::package("urn:x".to_string(), ApiVersion::Air1_5);
    let d = Namespace::package("urn:y".to_string(), ApiVersion::AllVersions);
    assert!(a.matches(&b));
    assert!(b.matches(&a));
    assert!(!b.matches(&c));
    assert!(!a.matches(&d));
    assert!(Namespace::Any.matches(&Namespace::Any));
    assert!(!Namespace::Private("p".to_string()).matches(&Namespace::Protected("p".to_string())));
}

#[test]
fn version_tags_are_ordered() {
    assert!(ApiVersion::AllVersions.is_at_most(&ApiVersion::Air1_0));
    assert!(ApiVersion::Fp10_0.is_at_most(&ApiVersion::VmInternal));
    assert!(!ApiVersion::Swf13.is_at_most(&ApiVersion::Swf12));
    assert_eq!(ApiVersion::Fp10_1.ordinal(), 7);
    assert!(ApiVersion::AllVersions.is_all_versions());
}

#[test]
fn namespace_value_coerces_to_its_uri() {
    let mut a = new_activation();
    let ns = Namespace::package("urn:z".to_string(), ApiVersion::Fp10_0);
    let o = construct(&mut a, &[Value::Namespace(ns)]).unwrap();
    assert_eq!(name(&a, o).local_name(), "urn:z");
}
