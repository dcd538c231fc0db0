//! Identifiers of packages and of the files inside them.
use vstd::prelude::*;

verus! {

/// A package coordinate: namespace, name and version, as text.
#[derive(Debug, PartialEq, Eq)]
pub struct PackageSpec {
    pub namespace: String,
    pub name: String,
    pub version: String,
}

/// What a package coordinate stands for.
pub type PackageSpecView = (Seq<char>, Seq<char>, Seq<char>);

impl View for PackageSpec {
    type V = PackageSpecView;

    open spec fn view(&self) -> PackageSpecView {
        (self.namespace@, self.name@, self.version@)
    }
}

impl Clone for PackageSpec {
    fn clone(&self) -> (r: Self)
        ensures
            r == *self,
    {
        PackageSpec {
            namespace: self.namespace.clone(),
            name: self.name.clone(),
            version: self.version.clone(),
        }
    }
}

/// The host key under which a package's files are requested:
/// `@{namespace}/{name}/{version}`.
pub open spec fn package_key_of(p: PackageSpecView) -> Seq<char> {
    seq!['@'] + p.0 + seq!['/'] + p.1 + seq!['/'] + p.2
}

/// How a package is shown in reports: `@{namespace}/{name}:{version}`.
pub open spec fn package_label_of(p: PackageSpecView) -> Seq<char> {
    seq!['@'] + p.0 + seq!['/'] + p.1 + seq![':'] + p.2
}

impl PackageSpec {
    /// Whether two coordinates are the same.
    pub fn same_as(&self, other: &PackageSpec) -> (r: bool)
        ensures
            r == (self@ == other@),
    {
        self.namespace == other.namespace && self.name == other.name && self.version == other.version
    }

    /// The host key for this package.
    pub fn key(&self) -> (r: String)
        ensures
            r@ == package_key_of(self@),
    {
        let mut s = String::from_str("@");
        s.append(self.namespace.as_str());
        s.append("/");
        s.append(self.name.as_str());
        s.append("/");
        s.append(self.version.as_str());
        proof {
            reveal_strlit("@");
            reveal_strlit("/");
        }
        assert(s@ =~= package_key_of(self@));
        s
    }

    /// The label of this package in reports.
    pub fn label(&self) -> (r: String)
        ensures
            r@ == package_label_of(self@),
    {
        let mut s = String::from_str("@");
        s.append(self.namespace.as_str());
        s.append("/");
        s.append(self.name.as_str());
        s.append(":");
        s.append(self.version.as_str());
        proof {
            reveal_strlit("@");
            reveal_strlit("/");
            reveal_strlit(":");
        }
        assert(s@ =~= package_label_of(self@));
        s
    }
}

/// A logical file: an optional package and a virtual path inside it (or
/// inside the project root when there is no package).
#[derive(Debug, PartialEq, Eq)]
pub struct ResourceId {
    pub package: Option<PackageSpec>,
    pub path: String,
}

/// What a resource identifier stands for.
pub type ResourceIdView = (Option<PackageSpecView>, Seq<char>);

impl View for ResourceId {
    type V = ResourceIdView;

    open spec fn view(&self) -> ResourceIdView {
        (
            match self.package {
                Some(p) => Some(p@),
                None => None,
            },
            self.path@,
        )
    }
}

impl Clone for ResourceId {
    fn clone(&self) -> (r: Self)
        ensures
            r == *self,
    {
        let package = match &self.package {
            Some(p) => Some(p.clone()),
            None => None,
        };
        ResourceId { package, path: self.path.clone() }
    }
}

/// How a resource identifier is shown in reports: the package label, if any,
/// followed by the path.
pub open spec fn resource_label_of(id: ResourceIdView) -> Seq<char> {
    match id.0 {
        Some(p) => package_label_of(p) + id.1,
        None => id.1,
    }
}

impl ResourceId {
    /// Whether two identifiers name the same logical file.
    pub fn same_as(&self, other: &ResourceId) -> (r: bool)
        ensures
            r == (self@ == other@),
    {
        let same_package = match (&self.package, &other.package) {
            (Some(a), Some(b)) => a.same_as(b),
            (None, None) => true,
            _ => false,
        };
        same_package && self.path == other.path
    }

    /// The label of this identifier in reports.
    pub fn label(&self) -> (r: String)
        ensures
            r@ == resource_label_of(self@),
    {
        match &self.package {
            Some(p) => {
                let mut s = p.label();
                s.append(self.path.as_str());
                s
            },
            None => self.path.clone(),
        }
    }
}

} // verus!
