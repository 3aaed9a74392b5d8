//! Qualified-name records and the arena that holds the heap objects wrapping them.
use vstd::prelude::*;
use crate::namespace::{Namespace, NamespaceModel, uri_of};

verus! {

/// The mathematical value of a [`QName`].
pub struct QNameModel {
    pub local: Seq<char>,
    pub ns: Option<NamespaceModel>,
    pub is_qname: bool,
}

impl QNameModel {
    /// The qualification flag is set exactly when a namespace is present.
    pub open spec fn wf(self) -> bool {
        self.is_qname == self.ns is Some
    }

    /// The URI of the name: that of its namespace, when it is a package namespace.
    pub open spec fn uri(self) -> Option<Seq<char>> {
        match self.ns {
            Some(ns) => uri_of(ns),
            None => None,
        }
    }
}

/// The text of a name: `{uri}local` when its URI is non-empty, else the
/// local name alone.
pub open spec fn formatted(q: QNameModel) -> Seq<char> {
    match q.uri() {
        Some(u) => if u.len() > 0 {
            seq!['{'] + u + seq!['}'] + q.local
        } else {
            q.local
        },
        None => q.local,
    }
}

/// The unqualified "any name": local name `*`, no namespace.
pub open spec fn any_name() -> QNameModel {
    QNameModel { local: seq!['*'], ns: None, is_qname: false }
}

/// A qualified name: a local name and an optional namespace, with the flag
/// that marks an explicitly qualified name.
pub struct QName {
    local_name: String,
    namespace: Option<Namespace>,
    is_qname: bool,
}

impl View for QName {
    type V = QNameModel;

    closed spec fn view(&self) -> QNameModel {
        QNameModel {
            local: self.local_name@,
            ns: match self.namespace {
                Some(ns) => Some(ns@),
                None => None,
            },
            is_qname: self.is_qname,
        }
    }
}

impl QName {
    #[verifier::type_invariant]
    spec fn inv(self) -> bool {
        self.is_qname == self.namespace is Some
    }

    /// A name qualified by `namespace`.
    pub fn qualified(local_name: String, namespace: Namespace) -> (r: QName)
        ensures
            r@ == (QNameModel { local: local_name@, ns: Some(namespace@), is_qname: true }),
    {
        QName { local_name, namespace: Some(namespace), is_qname: true }
    }

    /// A name that belongs to no namespace.
    pub fn unqualified(local_name: String) -> (r: QName)
        ensures
            r@ == (QNameModel { local: local_name@, ns: None, is_qname: false }),
    {
        QName { local_name, namespace: None, is_qname: false }
    }

    /// The text of a name: `{uri}local` when its URI is non-empty, else the
/// local name alone.
pub open spec fn formatted(q: QNameModel) -> Seq<char> {
    match q.uri() {
        Some(u) => if u.len() > 0 {
            seq!['{'] + u + seq!['}'] + q.local
        } else {
            q.local
        },
        None => q.local,
    }
}

/// The unqualified "any name", `*`.
    pub fn any() -> (r: QName)
        ensures
            r@ == any_name(),
    {
        let local_name = String::from_str("*");
        proof {
            reveal_strlit("*");
            assert(local_name@ =~= seq!['*']);
        }
        QName { local_name, namespace: None, is_qname: false }
    }

    pub fn local_name(&self) -> (r: &String)
        ensures
            r@ == self@.local,
    {
        &self.local_name
    }

    pub fn namespace(&self) -> (r: Option<&Namespace>)
        ensures
            match r {
                Some(ns) => self@.ns == Some(ns@),
                None => self@.ns is None,
            },
    {
        match &self.namespace {
            Some(ns) => Some(ns),
            None => None,
        }
    }

    /// The qualification flag; it is set exactly when a namespace is present.
    pub fn is_qname(&self) -> (r: bool)
        ensures
            r == self@.is_qname,
            self@.wf(),
    {
        proof {
            use_type_invariant(self);
        }
        self.is_qname
    }

    /// The text of this name (see [`formatted`]).
    pub fn as_uri(&self) -> (r: String)
        ensures
            r@ == formatted(self@),
    {
        let uri = match &self.namespace {
            Some(ns) => ns.as_uri_opt(),
            None => None,
        };
        match uri {
            Some(u) => {
                if u.as_str().is_empty() {
                    self.local_name.clone()
                } else {
                    let mut text = String::from_str("{");
                    text.append(u.as_str());
                    text.append("}");
                    text.append(self.local_name.as_str());
                    proof {
                        reveal_strlit("{");
                        reveal_strlit("}");
                        assert(text@ =~= formatted(self@));
                    }
                    text
                }
            },
            None => self.local_name.clone(),
        }
    }

    /// A name equal to this one.
    pub fn duplicate(&self) -> (r: QName)
        ensures
            r@ == self@,
    {
        proof {
            use_type_invariant(self);
        }
        let namespace = match &self.namespace {
            Some(ns) => Some(ns.duplicate()),
            None => None,
        };
        QName { local_name: self.local_name.clone(), namespace, is_qname: self.is_qname }
    }
}

/// A reference to a qualified-name object of a [`QNameHeap`]. Two references
/// are the same object exactly when they are equal.
#[derive(Clone, Copy, Debug, PartialEq, Eq, Structural)]
pub struct QNameObject {
    index: usize,
}

impl QNameObject {
    /// The slot of the heap that holds the object.
    pub closed spec fn slot(self) -> nat {
        self.index as nat
    }

    /// The reference to slot `n`.
    pub closed spec fn at_slot(n: nat) -> QNameObject {
        QNameObject { index: n as usize }
    }

    /// The reference to slot `n` refers to slot `n`.
    pub proof fn lemma_at_slot(n: nat)
        requires
            n <= usize::MAX,
        ensures
            QNameObject::at_slot(n).slot() == n,
    {
    }
}

/// An object that is allocated and initialized in `objects`.
pub open spec fn live(objects: Seq<Option<QNameModel>>, o: QNameObject) -> bool {
    o.slot() < objects.len() && objects[o.slot() as int] is Some
}

/// An object that is allocated in `objects` and not yet initialized.
pub open spec fn fresh(objects: Seq<Option<QNameModel>>, o: QNameObject) -> bool {
    o.slot() < objects.len() && objects[o.slot() as int] is None
}

/// The name of a live object.
pub open spec fn name_of(objects: Seq<Option<QNameModel>>, o: QNameObject) -> QNameModel
    recommends
        live(objects, o),
{
    objects[o.slot() as int]->0
}

/// The heap of qualified-name objects. A slot is written once: an allocated
/// object is uninitialized until its name is written, and never changes after.
pub struct QNameHeap {
    slots: Vec<Option<QName>>,
}

impl View for QNameHeap {
    type V = Seq<Option<QNameModel>>;

    closed spec fn view(&self) -> Seq<Option<QNameModel>> {
        Seq::new(
            self.slots@.len(),
            |i: int|
                match self.slots@[i] {
                    Some(q) => Some(q@),
                    None => None,
                },
        )
    }
}

impl QNameHeap {
    /// An empty heap.
    pub fn new() -> (r: QNameHeap)
        ensures
            r@ == Seq::<Option<QNameModel>>::empty(),
    {
        let r = QNameHeap { slots: Vec::new() };
        assert(r@ =~= Seq::<Option<QNameModel>>::empty());
        r
    }

    /// Number of objects allocated so far.
    pub fn len(&self) -> (r: usize)
        ensures
            r == self@.len(),
    {
        self.slots.len()
    }

    /// Allocates an uninitialized object.
    pub fn allocate(&mut self) -> (r: QNameObject)
        ensures
            final(self)@ == old(self)@.push(None),
            r.slot() == old(self)@.len(),
            r == QNameObject::at_slot(old(self)@.len()),
    {
        let index = self.slots.len();
        self.slots.push(None);
        assert(self@ =~= old(self)@.push(None));
        QNameObject { index }
    }

    /// Whether `o` is allocated here and not yet initialized.
    pub fn is_fresh(&self, o: QNameObject) -> (r: bool)
        ensures
            r == fresh(self@, o),
    {
        o.index < self.slots.len() && self.slots[o.index].is_none()
    }

    /// The name of `o`, or `None` when `o` is not a live object of this heap.
    pub fn get(&self, o: QNameObject) -> (r: Option<&QName>)
        ensures
            match r {
                Some(q) => live(self@, o) && q@ == name_of(self@, o) && q@.wf(),
                None => !live(self@, o),
            },
    {
        if o.index < self.slots.len() {
            match &self.slots[o.index] {
                Some(q) => {
                    proof {
                        use_type_invariant(q);
                    }
                    Some(q)
                },
                None => None,
            }
        } else {
            None
        }
    }

    /// Writes the name of a freshly allocated object. This is the only write
    /// to a slot: afterwards the object is read-only.
    pub fn initialize(&mut self, o: QNameObject, name: QName)
        requires
            fresh(old(self)@, o),
        ensures
            final(self)@ == old(self)@.update(o.slot() as int, Some(name@)),
    {
        let ghost model = name@;
        self.slots.set(o.index, Some(name));
        assert(self@ =~= old(self)@.update(o.slot() as int, Some(model)));
    }
}

} // verus!
