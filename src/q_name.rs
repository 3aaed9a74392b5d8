//! The qualified-name class: its constructor, its conversion-function form,
//! and its accessors.
use vstd::prelude::*;
use crate::activation::Activation;
use crate::api_version::ApiVersion;
use crate::heap::{
    QName, QNameHeap, QNameModel, QNameObject, any_name, formatted, fresh, live, name_of,
};
use crate::namespace::{Namespace, NamespaceModel, public_namespace};
use crate::value::{Error, Value, coerce_to_string, string_of};

verus! {

/// The namespace a value stands for as the namespace argument of the
/// constructor; `Ok(None)` is "no namespace".
pub open spec fn namespace_from(
    objects: Seq<Option<QNameModel>>,
    v: Value,
    api_version: ApiVersion,
) -> Result<Option<NamespaceModel>, Error> {
    match v {
        Value::Namespace(ns) => Ok(Some(ns@)),
        Value::QName(o) => if live(objects, o) {
            match name_of(objects, o).uri() {
                Some(uri) => Ok(
                    Some(NamespaceModel::Package { uri, api_version: ApiVersion::AllVersions }),
                ),
                None => Ok(None),
            }
        } else {
            Err(Error::UnknownObject)
        },
        Value::Null => Ok(None),
        Value::Undefined => Ok(Some(public_namespace(api_version))),
        _ => match string_of(objects, v) {
            Ok(uri) => Ok(Some(NamespaceModel::Package { uri, api_version })),
            Err(e) => Err(e),
        },
    }
}

/// The local name a value stands for as the second argument of the
/// two-argument constructor.
pub open spec fn local_from(objects: Seq<Option<QNameModel>>, v: Value) -> Result<
    Seq<char>,
    Error,
> {
    match v {
        Value::Undefined => Ok(Seq::empty()),
        Value::QName(o) => if live(objects, o) {
            Ok(name_of(objects, o).local)
        } else {
            Err(Error::UnknownObject)
        },
        _ => string_of(objects, v),
    }
}

/// The name the constructor builds from `args`, or the error it raises.
pub open spec fn constructed(
    objects: Seq<Option<QNameModel>>,
    args: Seq<Value>,
    root: ApiVersion,
) -> Result<QNameModel, Error> {
    if args.len() >= 2 {
        match namespace_from(objects, args[0], root) {
            Err(e) => Err(e),
            Ok(ns) => match local_from(objects, args[1]) {
                Err(e) => Err(e),
                Ok(local) => Ok(QNameModel { local, ns, is_qname: ns is Some }),
            },
        }
    } else if args.len() == 1 && args[0] is QName {
        if live(objects, args[0]->QName_0) {
            Ok(name_of(objects, args[0]->QName_0))
        } else {
            Err(Error::UnknownObject)
        }
    } else {
        let local = if args.len() == 0 || args[0] is Undefined {
            Ok(Seq::empty())
        } else {
            string_of(objects, args[0])
        };
        match local {
            Err(e) => Err(e),
            Ok(l) => if l == seq!['*'] {
                Ok(any_name())
            } else {
                Ok(QNameModel { local: l, ns: Some(public_namespace(root)), is_qname: true })
            },
        }
    }
}

/// The heap after construction from `args`, and the result: a new object
/// in the next slot, which stays uninitialized when construction fails.
pub open spec fn construct_outcome(
    objects: Seq<Option<QNameModel>>,
    args: Seq<Value>,
    root: ApiVersion,
) -> (Seq<Option<QNameModel>>, Result<QNameObject, Error>) {
    match constructed(objects, args, root) {
        Ok(q) => (objects.push(Some(q)), Ok(QNameObject::at_slot(objects.len()))),
        Err(e) => (objects.push(None), Err(e)),
    }
}

/// Whether calling the class as a function hands its argument back: there is
/// exactly one argument and it is a live qualified-name object.
pub open spec fn passes_through(objects: Seq<Option<QNameModel>>, args: Seq<Value>) -> bool {
    args.len() == 1 && args[0] is QName && live(objects, args[0]->QName_0)
}

/// The heap after calling the class as a function on `args`, and the result.
pub open spec fn call_outcome(
    objects: Seq<Option<QNameModel>>,
    args: Seq<Value>,
    root: ApiVersion,
) -> (Seq<Option<QNameModel>>, Result<Value, Error>) {
    if passes_through(objects, args) {
        (objects, Ok(args[0]))
    } else {
        let (after, r) = construct_outcome(objects, args, root);
        match r {
            Ok(o) => (after, Ok(Value::QName(o))),
            Err(e) => (after, Err(e)),
        }
    }
}

/// The name of the object `this` refers to, when it is a live qualified name.
pub open spec fn receiver(objects: Seq<Option<QNameModel>>, this: Value) -> Option<QNameModel> {
    match this {
        Value::QName(o) => if live(objects, o) {
            Some(name_of(objects, o))
        } else {
            None
        },
        _ => None,
    }
}

/// Resolves the namespace argument of the two-argument constructor; fresh
/// package namespaces get `api_version`.
pub fn coerce_to_namespace(heap: &QNameHeap, v: &Value, api_version: ApiVersion) -> (r: Result<
    Option<Namespace>,
    Error,
>)
    ensures
        match r {
            Ok(Some(ns)) => namespace_from(heap@, *v, api_version) == Ok::<
                Option<NamespaceModel>,
                Error,
            >(Some(ns@)),
            Ok(None) => namespace_from(heap@, *v, api_version) == Ok::<
                Option<NamespaceModel>,
                Error,
            >(None),
            Err(e) => namespace_from(heap@, *v, api_version) == Err::<
                Option<NamespaceModel>,
                Error,
            >(e),
        },
{
    match v {
        Value::Namespace(ns) => Ok(Some(ns.duplicate())),
        Value::QName(o) => match heap.get(*o) {
            Some(q) => {
                let uri = match q.namespace() {
                    Some(ns) => ns.as_uri_opt(),
                    None => None,
                };
                match uri {
                    Some(uri) => Ok(Some(Namespace::package(uri, ApiVersion::AllVersions))),
                    None => Ok(None),
                }
            },
            None => Err(Error::UnknownObject),
        },
        Value::Null => Ok(None),
        Value::Undefined => Ok(Some(Namespace::public(api_version))),
        _ => match coerce_to_string(heap, v) {
            Ok(uri) => Ok(Some(Namespace::package(uri, api_version))),
            Err(e) => Err(e),
        },
    }
}

/// The local name of the two-argument constructor.
fn coerce_to_local(heap: &QNameHeap, v: &Value) -> (r: Result<String, Error>)
    ensures
        match r {
            Ok(s) => local_from(heap@, *v) == Ok::<Seq<char>, Error>(s@),
            Err(e) => local_from(heap@, *v) == Err::<Seq<char>, Error>(e),
        },
{
    match v {
        Value::Undefined => Ok(String::new()),
        Value::QName(o) => match heap.get(*o) {
            Some(q) => Ok(q.local_name().clone()),
            None => Err(Error::UnknownObject),
        },
        _ => coerce_to_string(heap, v),
    }
}

/// The name the constructor builds from `args` against `heap`, with fresh
/// package namespaces at `root`; nothing is written.
pub fn resolve_name(heap: &QNameHeap, root: ApiVersion, args: &[Value]) -> (r: Result<
    QName,
    Error,
>)
    ensures
        match r {
            Ok(q) => constructed(heap@, args@, root) == Ok::<QNameModel, Error>(q@),
            Err(e) => constructed(heap@, args@, root) == Err::<QNameModel, Error>(e),
        },
{
    if args.len() >= 2 {
        let namespace = match coerce_to_namespace(heap, &args[0], root) {
            Ok(ns) => ns,
            Err(e) => {
                return Err(e);
            },
        };
        let local = match coerce_to_local(heap, &args[1]) {
            Ok(l) => l,
            Err(e) => {
                return Err(e);
            },
        };
        match namespace {
            Some(ns) => Ok(QName::qualified(local, ns)),
            None => Ok(QName::unqualified(local)),
        }
    } else {
        if args.len() == 1 {
            if let Value::QName(o) = &args[0] {
                return match heap.get(*o) {
                    Some(q) => Ok(q.duplicate()),
                    None => Err(Error::UnknownObject),
                };
            }
        }
        let local = if args.len() == 0 || args[0].is_undefined() {
            String::new()
        } else {
            match coerce_to_string(heap, &args[0]) {
                Ok(s) => s,
                Err(e) => {
                    return Err(e);
                },
            }
        };
        let star = String::from_str("*");
        proof {
            reveal_strlit("*");
            assert(star@ =~= seq!['*']);
        }
        if local == star {
            Ok(QName::any())
        } else {
            Ok(QName::qualified(local, Namespace::public(root)))
        }
    }
}

/// Allocates an uninitialized qualified-name object, ready for `init` to
/// write its name.
pub fn q_name_allocator(activation: &mut Activation) -> (r: QNameObject)
    ensures
        final(activation).heap@ == old(activation).heap@.push(None),
        final(activation).root_api_version == old(activation).root_api_version,
        r == QNameObject::at_slot(old(activation).heap@.len()),
        r.slot() == old(activation).heap@.len(),
        fresh(final(activation).heap@, r),
{
    activation.heap.allocate()
}

/// Initializes the freshly allocated object `this` from the constructor
/// arguments `args`. An object that is not fresh is refused with
/// `NotFresh`; when the arguments cannot be coerced the object is left
/// uninitialized and the error is returned.
pub fn init(activation: &mut Activation, this: QNameObject, args: &[Value]) -> (r: Result<
    Value,
    Error,
>)
    ensures
        final(activation).root_api_version == old(activation).root_api_version,
        !fresh(old(activation).heap@, this) ==> r == Err::<Value, Error>(Error::NotFresh)
            && final(activation).heap@ == old(activation).heap@,
        fresh(old(activation).heap@, this) ==> match constructed(
            old(activation).heap@,
            args@,
            old(activation).root_api_version,
        ) {
            Ok(q) => r == Ok::<Value, Error>(Value::Undefined) && final(activation).heap@ == old(
                activation,
            ).heap@.update(this.slot() as int, Some(q)),
            Err(e) => r == Err::<Value, Error>(e) && final(activation).heap@ == old(
                activation,
            ).heap@,
        },
{
    if !activation.heap.is_fresh(this) {
        return Err(Error::NotFresh);
    }
    match resolve_name(&activation.heap, activation.root_api_version, args) {
        Ok(name) => {
            activation.heap.initialize(this, name);
            Ok(Value::Undefined)
        },
        Err(e) => Err(e),
    }
}

/// Constructs a new qualified-name object from `args`: allocation, then `init`.
pub fn construct(activation: &mut Activation, args: &[Value]) -> (r: Result<QNameObject, Error>)
    ensures
        final(activation).root_api_version == old(activation).root_api_version,
        (final(activation).heap@, r) == construct_outcome(
            old(activation).heap@,
            args@,
            old(activation).root_api_version,
        ),
        r matches Ok(o) ==> o.slot() == old(activation).heap@.len() && live(
            final(activation).heap@,
            o,
        ),
{
    let this = q_name_allocator(activation);
    match init(activation, this, args) {
        Ok(_) => {
            assert(final(activation).heap@ =~= old(activation).heap@.push(
                Some(constructed(old(activation).heap@, args@, old(activation).root_api_version)->Ok_0),
            ));
            Ok(this)
        },
        Err(e) => Err(e),
    }
}

/// Calls the class as a conversion function: one argument that is already a
/// qualified-name object is returned as it is, the same object; any other
/// arguments construct a new object.
pub fn call_handler(activation: &mut Activation, args: &[Value]) -> (r: Result<Value, Error>)
    ensures
        final(activation).root_api_version == old(activation).root_api_version,
        (final(activation).heap@, r) == call_outcome(
            old(activation).heap@,
            args@,
            old(activation).root_api_version,
        ),
{
    if args.len() == 1 {
        if let Value::QName(o) = &args[0] {
            if activation.heap.get(*o).is_some() {
                return Ok(args[0].duplicate());
            }
        }
    }
    match construct(activation, args) {
        Ok(o) => Ok(Value::QName(o)),
        Err(e) => Err(e),
    }
}

/// The local name of `this`; undefined when `this` is not a live
/// qualified-name object.
pub fn get_local_name(activation: &Activation, this: &Value) -> (r: Result<Value, Error>)
    ensures
        match receiver(activation.heap@, *this) {
            Some(q) => r matches Ok(Value::Str(s)) && s@ == q.local,
            None => r matches Ok(Value::Undefined),
        },
{
    if let Value::QName(o) = this {
        if let Some(q) = activation.heap.get(*o) {
            return Ok(Value::Str(q.local_name().clone()));
        }
    }
    Ok(Value::Undefined)
}

/// The URI of `this`: a string when its namespace is a package namespace,
/// null otherwise; undefined when `this` is not a live qualified-name object.
pub fn get_uri(activation: &Activation, this: &Value) -> (r: Result<Value, Error>)
    ensures
        match receiver(activation.heap@, *this) {
            Some(q) => match q.uri() {
                Some(u) => r matches Ok(Value::Str(s)) && s@ == u,
                None => r matches Ok(Value::Null),
            },
            None => r matches Ok(Value::Undefined),
        },
{
    if let Value::QName(o) = this {
        if let Some(q) = activation.heap.get(*o) {
            let uri = match q.namespace() {
                Some(ns) => ns.as_uri_opt(),
                None => None,
            };
            return match uri {
                Some(u) => Ok(Value::Str(u)),
                None => Ok(Value::Null),
            };
        }
    }
    Ok(Value::Undefined)
}

/// The text of `this`, `{uri}local` or `local` (see [`formatted`]);
/// undefined when `this` is not a live qualified-name object.
pub fn to_string(activation: &Activation, this: &Value) -> (r: Result<Value, Error>)
    ensures
        match receiver(activation.heap@, *this) {
            Some(q) => r matches Ok(Value::Str(s)) && s@ == formatted(q),
            None => r matches Ok(Value::Undefined),
        },
{
    if let Value::QName(o) = this {
        if let Some(q) = activation.heap.get(*o) {
            return Ok(Value::Str(q.as_uri()));
        }
    }
    Ok(Value::Undefined)
}

/// Construction without arguments gives the empty local name in the public
/// namespace, qualified.
pub proof fn lemma_construct_without_arguments(objects: Seq<Option<QNameModel>>, root: ApiVersion)
    ensures
        constructed(objects, Seq::empty(), root) == Ok::<QNameModel, Error>(
            QNameModel { local: Seq::empty(), ns: Some(public_namespace(root)), is_qname: true },
        ),
{
    assert(Seq::<char>::empty().len() != seq!['*'].len());
}

/// Construction from one argument that is not a qualified name and coerces
/// to `*` gives the unqualified any-name, whatever the argument's type.
pub proof fn lemma_wildcard_is_unqualified(
    objects: Seq<Option<QNameModel>>,
    v: Value,
    root: ApiVersion,
)
    requires
        !(v is QName),
        string_of(objects, v) == Ok::<Seq<char>, Error>(seq!['*']),
    ensures
        constructed(objects, seq![v], root) == Ok::<QNameModel, Error>(any_name()),
        any_name().ns is None,
        !any_name().is_qname,
{
    reveal_strlit("undefined");
    if v is Undefined {
        assert("undefined"@.len() != seq!['*'].len());
    }
}

/// Construction from one live qualified-name object copies its whole name
/// into a new object, distinct from the argument.
pub proof fn lemma_construct_copies_name(
    objects: Seq<Option<QNameModel>>,
    o: QNameObject,
    root: ApiVersion,
)
    requires
        objects.len() <= usize::MAX,
        live(objects, o),
    ensures
        constructed(objects, seq![Value::QName(o)], root) == Ok::<QNameModel, Error>(
            name_of(objects, o),
        ),
        construct_outcome(objects, seq![Value::QName(o)], root).1 == Ok::<QNameObject, Error>(
            QNameObject::at_slot(objects.len()),
        ),
        QNameObject::at_slot(objects.len()) != o,
        name_of(
            construct_outcome(objects, seq![Value::QName(o)], root).0,
            QNameObject::at_slot(objects.len()),
        ) == name_of(objects, o),
{
    QNameObject::lemma_at_slot(objects.len());
}

/// With a null namespace argument the name belongs to no namespace and is
/// not qualified.
pub proof fn lemma_null_namespace(
    objects: Seq<Option<QNameModel>>,
    local: String,
    root: ApiVersion,
)
    ensures
        constructed(objects, seq![Value::Null, Value::Str(local)], root) == Ok::<
            QNameModel,
            Error,
        >(QNameModel { local: local@, ns: None, is_qname: false }),
{
}

/// With an undefined namespace argument the name is qualified by the public
/// namespace at the root version.
pub proof fn lemma_undefined_namespace(
    objects: Seq<Option<QNameModel>>,
    local: String,
    root: ApiVersion,
)
    ensures
        constructed(objects, seq![Value::Undefined, Value::Str(local)], root) == Ok::<
            QNameModel,
            Error,
        >(QNameModel { local: local@, ns: Some(public_namespace(root)), is_qname: true }),
{
}

/// A qualified-name object as the second of two arguments gives only its
/// local name; the namespace is the one resolved from the first argument.
pub proof fn lemma_local_from_qname(
    objects: Seq<Option<QNameModel>>,
    ns_arg: Value,
    o: QNameObject,
    root: ApiVersion,
)
    requires
        live(objects, o),
    ensures
        constructed(objects, seq![ns_arg, Value::QName(o)], root) == match namespace_from(
            objects,
            ns_arg,
            root,
        ) {
            Ok(ns) => Ok::<QNameModel, Error>(
                QNameModel { local: name_of(objects, o).local, ns, is_qname: ns is Some },
            ),
            Err(e) => Err::<QNameModel, Error>(e),
        },
{
}

/// The text of a name is `{u}n` for a non-empty URI `u` and local name `n`,
/// and `n` alone for an empty URI or none.
pub proof fn lemma_format(q: QNameModel)
    ensures
        forall|u: Seq<char>|
            q.uri() == Some(u) && u.len() > 0 ==> formatted(q) == seq!['{'] + u + seq!['}']
                + q.local,
        q.uri() is None || q.uri() == Some(Seq::<char>::empty()) ==> formatted(q) == q.local,
{
}

/// Calling the class twice on the same live qualified-name object returns
/// that object both times and leaves the heap as it was.
pub proof fn lemma_call_returns_same_object(
    objects: Seq<Option<QNameModel>>,
    o: QNameObject,
    root: ApiVersion,
)
    requires
        live(objects, o),
    ensures
        call_outcome(objects, seq![Value::QName(o)], root) == (
            objects,
            Ok::<Value, Error>(Value::QName(o)),
        ),
        call_outcome(call_outcome(objects, seq![Value::QName(o)], root).0, seq![Value::QName(o)], root)
            == call_outcome(objects, seq![Value::QName(o)], root),
{
}

/// Construction keeps the qualification invariant: the flag is set exactly
/// when a namespace is present, given that it holds of every live object.
pub proof fn lemma_constructed_wf(
    objects: Seq<Option<QNameModel>>,
    args: Seq<Value>,
    root: ApiVersion,
)
    requires
        forall|i: int| 0 <= i < objects.len() && objects[i] is Some ==> (#[trigger] objects[i])->0.wf(),
    ensures
        constructed(objects, args, root) matches Ok(q) ==> q.wf(),
{
    if args.len() == 1 && args[0] is QName && live(objects, args[0]->QName_0) {
        let i = args[0]->QName_0.slot() as int;
        assert(objects[i] is Some);
    }
}

/// Construction never changes a live object: names are written once.
pub proof fn lemma_construct_keeps_objects(
    objects: Seq<Option<QNameModel>>,
    args: Seq<Value>,
    root: ApiVersion,
    o: QNameObject,
)
    requires
        live(objects, o),
    ensures
        live(construct_outcome(objects, args, root).0, o),
        name_of(construct_outcome(objects, args, root).0, o) == name_of(objects, o),
{
}

} // verus!
