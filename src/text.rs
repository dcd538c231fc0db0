//! Text decoding and path resolution, as the outside libraries do them.
use vstd::prelude::*;
use vstd::utf8::{decode_utf8, valid_utf8};

verus! {

/// Relies on std's `String::from_utf8`: it succeeds exactly on valid UTF-8,
/// with the text that the bytes encode.
#[verifier::external_body]
pub(crate) fn utf8_text(bytes: Vec<u8>) -> (r: Option<String>)
    ensures
        r is Some <==> valid_utf8(bytes@),
        r matches Some(s) ==> s@ == decode_utf8(bytes@),
{
    String::from_utf8(bytes).ok()
}

/// Where a virtual path lies below a root directory, as text, or `None` when
/// the path lexically escapes the root.
pub uninterp spec fn resolved_path(root: Seq<char>, vpath: Seq<char>) -> Option<Seq<char>>;

/// The view of an optional text.
pub open spec fn opt_text(s: Option<String>) -> Option<Seq<char>> {
    match s {
        Some(t) => Some(t@),
        None => None,
    }
}

/// Relies on typst's `VirtualPath::resolve`: the path joined to the root, or
/// `None` where a `..` component climbs above the root. The result depends on
/// the two texts alone.
#[verifier::external_body]
pub(crate) fn resolve_in(root: &str, vpath: &str) -> (r: Option<String>)
    ensures
        opt_text(r) == resolved_path(root@, vpath@),
{
    typst::syntax::VirtualPath::new(vpath)
        .resolve(std::path::Path::new(root))
        .and_then(|p| p.to_str().map(String::from))
}

} // verus!
