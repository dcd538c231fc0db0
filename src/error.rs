//! Failures reported by the host and the errors they become.
use vstd::prelude::*;
use crate::ident::PackageSpec;

verus! {

/// The description given to a failure that the host left undescribed.
pub open spec fn undescribed_text() -> Seq<char> {
    "see external diagnostics"@
}

/// A failed host fetch, as the host reported it.
#[derive(Debug, PartialEq, Eq)]
pub enum HostError {
    /// A numeric error code: 2 not found, 3 access denied, 4 is a directory.
    Code(i64),
    /// A description of the failure.
    Message(String),
    /// A failure with neither code nor description.
    Opaque,
}

/// Why a package could not be made available.
#[derive(Debug, PartialEq, Eq)]
pub enum PackageError {
    /// The host reported the package absent.
    NotFound(PackageSpec),
    /// Any other failure, with its description.
    Other(String),
}

impl Clone for PackageError {
    fn clone(&self) -> (r: Self)
        ensures
            r == *self,
    {
        match self {
            PackageError::NotFound(p) => PackageError::NotFound(p.clone()),
            PackageError::Other(m) => PackageError::Other(m.clone()),
        }
    }
}

/// Why a file could not be read.
#[derive(Debug, PartialEq, Eq)]
pub enum ResourceError {
    /// The host reported no file under this path.
    NotFound(String),
    /// The host refused access, or the path leaves its root.
    AccessDenied,
    /// The path names a directory.
    IsDirectory,
    /// The file's bytes are not valid UTF-8 text.
    InvalidEncoding,
    /// The package holding the file could not be made available.
    Package(PackageError),
    /// Any other failure, with its description.
    Other(String),
}

impl Clone for ResourceError {
    fn clone(&self) -> (r: Self)
        ensures
            r == *self,
    {
        match self {
            ResourceError::NotFound(p) => ResourceError::NotFound(p.clone()),
            ResourceError::AccessDenied => ResourceError::AccessDenied,
            ResourceError::IsDirectory => ResourceError::IsDirectory,
            ResourceError::InvalidEncoding => ResourceError::InvalidEncoding,
            ResourceError::Package(e) => ResourceError::Package(e.clone()),
            ResourceError::Other(m) => ResourceError::Other(m.clone()),
        }
    }
}

/// Whether `r` is the error that the host failure `e` on the file at `path`
/// stands for.
pub open spec fn is_file_error_of(e: HostError, path: Seq<char>, r: ResourceError) -> bool {
    match e {
        HostError::Code(2) => r matches ResourceError::NotFound(p) && p@ == path,
        HostError::Code(3) => r == ResourceError::AccessDenied,
        HostError::Code(4) => r == ResourceError::IsDirectory,
        HostError::Code(_) => r matches ResourceError::Other(m) && m@ == undescribed_text(),
        HostError::Message(m) => r == ResourceError::Other(m),
        HostError::Opaque => r matches ResourceError::Other(m) && m@ == undescribed_text(),
    }
}

/// Whether `r` is the error that the host failure `e` on package `spec`
/// stands for.
pub open spec fn is_package_error_of(e: HostError, spec: PackageSpec, r: PackageError) -> bool {
    match e {
        HostError::Code(2) => r == PackageError::NotFound(spec),
        HostError::Code(_) => r matches PackageError::Other(m) && m@ == undescribed_text(),
        HostError::Message(m) => r == PackageError::Other(m),
        HostError::Opaque => r matches PackageError::Other(m) && m@ == undescribed_text(),
    }
}

fn undescribed() -> (r: String)
    ensures
        r@ == undescribed_text(),
{
    String::from_str("see external diagnostics")
}

/// The error for a failed fetch of the file at `path`.
pub fn file_error(e: HostError, path: &String) -> (r: ResourceError)
    ensures
        is_file_error_of(e, path@, r),
{
    match e {
        HostError::Code(c) => {
            if c == 2 {
                ResourceError::NotFound(path.clone())
            } else if c == 3 {
                ResourceError::AccessDenied
            } else if c == 4 {
                ResourceError::IsDirectory
            } else {
                ResourceError::Other(undescribed())
            }
        },
        HostError::Message(m) => ResourceError::Other(m),
        HostError::Opaque => ResourceError::Other(undescribed()),
    }
}

/// The error for a failed fetch of package `spec`.
pub fn package_error(e: HostError, spec: &PackageSpec) -> (r: PackageError)
    ensures
        is_package_error_of(e, *spec, r),
{
    match e {
        HostError::Code(c) => {
            if c == 2 {
                PackageError::NotFound(spec.clone())
            } else {
                PackageError::Other(undescribed())
            }
        },
        HostError::Message(m) => PackageError::Other(m),
        HostError::Opaque => PackageError::Other(undescribed()),
    }
}

} // verus!
