//! Namespaces: the scopes that qualify property names.
use vstd::prelude::*;
use crate::api_version::ApiVersion;

verus! {

/// The mathematical value of a [`Namespace`].
pub enum NamespaceModel {
    Package { uri: Seq<char>, api_version: ApiVersion },
    Private(Seq<char>),
    Protected(Seq<char>),
    Explicit(Seq<char>),
    Any,
}

/// A namespace: a public or package namespace with its URI and version tag,
/// one of the non-public kinds with its name, or the "any namespace" marker.
/// Namespaces are never mutated once made.
#[derive(Debug)]
pub enum Namespace {
    Package { uri: String, api_version: ApiVersion },
    Private(String),
    Protected(String),
    Explicit(String),
    Any,
}

impl View for Namespace {
    type V = NamespaceModel;

    open spec fn view(&self) -> NamespaceModel {
        match self {
            Namespace::Package { uri, api_version } => NamespaceModel::Package {
                uri: uri@,
                api_version: *api_version,
            },
            Namespace::Private(n) => NamespaceModel::Private(n@),
            Namespace::Protected(n) => NamespaceModel::Protected(n@),
            Namespace::Explicit(n) => NamespaceModel::Explicit(n@),
            Namespace::Any => NamespaceModel::Any,
        }
    }
}

/// The public namespace at a version: the package namespace with empty URI.
pub open spec fn public_namespace(api_version: ApiVersion) -> NamespaceModel {
    NamespaceModel::Package { uri: Seq::empty(), api_version }
}

/// The URI of a package namespace; other kinds have none.
pub open spec fn uri_of(ns: NamespaceModel) -> Option<Seq<char>> {
    match ns {
        NamespaceModel::Package { uri, .. } => Some(uri),
        _ => None,
    }
}

/// The text a namespace turns into when coerced to a string: its URI or name,
/// and the empty string for the "any namespace" marker.
pub open spec fn namespace_text(ns: NamespaceModel) -> Seq<char> {
    match ns {
        NamespaceModel::Package { uri, .. } => uri,
        NamespaceModel::Private(n) => n,
        NamespaceModel::Protected(n) => n,
        NamespaceModel::Explicit(n) => n,
        NamespaceModel::Any => Seq::empty(),
    }
}

/// Identity of namespaces. Package namespaces are equal when their URIs are
/// and their version tags are, or one of the tags is `AllVersions`; the other
/// kinds are equal when kind and name are.
pub open spec fn namespaces_match(a: NamespaceModel, b: NamespaceModel) -> bool {
    match (a, b) {
        (
            NamespaceModel::Package { uri: ua, api_version: va },
            NamespaceModel::Package { uri: ub, api_version: vb },
        ) => ua == ub && (va == vb || va == ApiVersion::AllVersions || vb
            == ApiVersion::AllVersions),
        (NamespaceModel::Private(x), NamespaceModel::Private(y)) => x == y,
        (NamespaceModel::Protected(x), NamespaceModel::Protected(y)) => x == y,
        (NamespaceModel::Explicit(x), NamespaceModel::Explicit(y)) => x == y,
        (NamespaceModel::Any, NamespaceModel::Any) => true,
        _ => false,
    }
}

impl Namespace {
    /// A package namespace with the given URI and version tag.
    pub fn package(uri: String, api_version: ApiVersion) -> (r: Namespace)
        ensures
            r@ == (NamespaceModel::Package { uri: uri@, api_version }),
    {
        Namespace::Package { uri, api_version }
    }

    /// The public namespace at a version.
    pub fn public(api_version: ApiVersion) -> (r: Namespace)
        ensures
            r@ == public_namespace(api_version),
    {
        Namespace::Package { uri: String::new(), api_version }
    }

    /// A copy of this namespace.
    pub fn duplicate(&self) -> (r: Namespace)
        ensures
            r == *self,
            r@ == self@,
    {
        match self {
            Namespace::Package { uri, api_version } => Namespace::Package {
                uri: uri.clone(),
                api_version: *api_version,
            },
            Namespace::Private(n) => Namespace::Private(n.clone()),
            Namespace::Protected(n) => Namespace::Protected(n.clone()),
            Namespace::Explicit(n) => Namespace::Explicit(n.clone()),
            Namespace::Any => Namespace::Any,
        }
    }

    /// The URI of a package namespace, `None` for the other kinds.
    pub fn as_uri_opt(&self) -> (r: Option<String>)
        ensures
            match r {
                Some(u) => uri_of(self@) == Some(u@),
                None => uri_of(self@) is None,
            },
    {
        match self {
            Namespace::Package { uri, .. } => Some(uri.clone()),
            _ => None,
        }
    }

    /// The text of this namespace as a string value: its URI or name.
    pub fn as_text(&self) -> (r: String)
        ensures
            r@ == namespace_text(self@),
    {
        match self {
            Namespace::Package { uri, .. } => uri.clone(),
            Namespace::Private(n) => n.clone(),
            Namespace::Protected(n) => n.clone(),
            Namespace::Explicit(n) => n.clone(),
            Namespace::Any => String::new(),
        }
    }

    /// Whether two namespaces denote the same scope (see [`namespaces_match`]).
    pub fn matches(&self, other: &Namespace) -> (r: bool)
        ensures
            r == namespaces_match(self@, other@),
    {
        match (self, other) {
            (
                Namespace::Package { uri: ua, api_version: va },
                Namespace::Package { uri: ub, api_version: vb },
            ) => {
                let same_version = *va == *vb || va.is_all_versions() || vb.is_all_versions();
                same_version && *ua == *ub
            },
            (Namespace::Private(x), Namespace::Private(y)) => *x == *y,
            (Namespace::Protected(x), Namespace::Protected(y)) => *x == *y,
            (Namespace::Explicit(x), Namespace::Explicit(y)) => *x == *y,
            (Namespace::Any, Namespace::Any) => true,
            _ => false,
        }
    }
}

} // verus!
