//! The package cache: each package coordinate to the directory the host
//! unpacked it into, or to the error the host reported.
use vstd::prelude::*;
use crate::error::{is_package_error_of, package_error, HostError, PackageError};
use crate::ident::{PackageSpec, PackageSpecView};

verus! {

/// The outcome recorded for a package when the host answered `outcome`.
pub open spec fn is_package_outcome(
    outcome: Result<String, HostError>,
    spec: PackageSpec,
    r: Result<String, PackageError>,
) -> bool {
    match outcome {
        Ok(root) => r == Ok::<String, PackageError>(root),
        Err(e) => r matches Err(pe) && is_package_error_of(e, spec, pe),
    }
}

fn copy_root(o: &Result<String, PackageError>) -> (r: Result<String, PackageError>)
    ensures
        r == *o,
{
    match o {
        Ok(p) => Ok(p.clone()),
        Err(e) => Err(e.clone()),
    }
}

/// The resolved root of each package asked for in one compilation.
pub struct PackageCache {
    entries: Vec<(PackageSpec, Result<String, PackageError>)>,
    roots: Ghost<Map<PackageSpecView, Result<String, PackageError>>>,
}

impl PackageCache {
    /// The recorded outcome of each package asked for so far.
    pub closed spec fn roots(&self) -> Map<PackageSpecView, Result<String, PackageError>> {
        self.roots@
    }

    pub closed spec fn wf(&self) -> bool {
        &&& forall|i: int, j: int|
            0 <= i < j < self.entries@.len() ==> self.entries@[i].0@ != self.entries@[j].0@
        &&& forall|i: int|
            0 <= i < self.entries@.len() ==> self.roots@.contains_key(#[trigger] self.entries@[i].0@)
                && self.roots@[self.entries@[i].0@] == self.entries@[i].1
        &&& forall|k: PackageSpecView|
            #[trigger] self.roots@.contains_key(k) ==> exists|i: int|
                0 <= i < self.entries@.len() && self.entries@[i].0@ == k
    }

    /// An empty cache.
    pub fn new() -> (r: PackageCache)
        ensures
            r.wf(),
            r.roots() == Map::<PackageSpecView, Result<String, PackageError>>::empty(),
    {
        PackageCache { entries: Vec::new(), roots: Ghost(Map::empty()) }
    }

    /// Forgets every package.
    pub fn clear(&mut self)
        ensures
            final(self).wf(),
            final(self).roots() == Map::<PackageSpecView, Result<String, PackageError>>::empty(),
    {
        self.entries.clear();
        self.roots = Ghost(Map::empty());
    }

    /// The recorded outcome for `spec`, or `None` where the host still has to
    /// be asked.
    pub fn get(&self, spec: &PackageSpec) -> (r: Option<Result<String, PackageError>>)
        requires
            self.wf(),
        ensures
            r == (if self.roots().contains_key(spec@) {
                Some(self.roots()[spec@])
            } else {
                None
            }),
    {
        let mut i: usize = 0;
        while i < self.entries.len()
            invariant
                self.wf(),
                i <= self.entries@.len(),
                forall|j: int| 0 <= j < i ==> self.entries@[j].0@ != spec@,
            decreases self.entries@.len() - i,
        {
            if self.entries[i].0.same_as(spec) {
                return Some(copy_root(&self.entries[i].1));
            }
            i = i + 1;
        }
        None
    }

    /// Records what the host answered for `spec`, which has no outcome yet:
    /// the root directory, or the error that the host failure stands for.
    pub fn record(&mut self, spec: &PackageSpec, outcome: Result<String, HostError>) -> (r: Result<String, PackageError>)
        requires
            old(self).wf(),
            !old(self).roots().contains_key(spec@),
        ensures
            final(self).wf(),
            is_package_outcome(outcome, *spec, r),
            final(self).roots() == old(self).roots().insert(spec@, r),
    {
        let r = match outcome {
            Ok(root) => Ok(root),
            Err(e) => Err(package_error(e, spec)),
        };
        let ghost old_entries = self.entries@;
        let ghost k = spec@;
        self.entries.push((spec.clone(), copy_root(&r)));
        self.roots = Ghost(self.roots@.insert(k, r));
        assert forall|j: int| 0 <= j < old_entries.len() implies old_entries[j].0@ != k by {
            assert(self.roots@.contains_key(old_entries[j].0@));
        }
        assert forall|q: PackageSpecView| #[trigger] self.roots@.contains_key(q) implies exists|j: int|
            0 <= j < self.entries@.len() && self.entries@[j].0@ == q by {
            if q == k {
                assert(self.entries@[old_entries.len() as int].0@ == q);
            } else {
                let j = choose|j: int| 0 <= j < old_entries.len() && old_entries[j].0@ == q;
                assert(self.entries@[j].0@ == q);
            }
        }
        r
    }
}

} // verus!
