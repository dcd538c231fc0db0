//! The compilation context: what the compiler asks of its host, with the
//! caches that live for one compilation and the fonts that live for all.
//!
//! A fetch from the host cannot happen inside this library, so a lookup says
//! what to fetch next, and the caller hands the host's answer back.
use vstd::prelude::*;
use vstd::utf8::encode_utf8;
use typst::text::{Font, FontBook};
use crate::date::{date_at, date_at_offset, wall_clock, Date, Instant};
use crate::error::{file_error, is_file_error_of, HostError, PackageError, ResourceError};
use crate::fonts::{book_entries, bundled_faces, faces_of, info_of, FontSearcher, BUNDLED_FILES};
use crate::hash::{sip128_of, PathHash};
use crate::ident::{package_key_of, PackageSpec, PackageSpecView, ResourceId, ResourceIdView};
use crate::packages::{is_package_outcome, PackageCache};
use crate::store::{
    bytes_view, resolved_bytes, resolved_source, slots_after, source_view, ResourceStore, SlotView,
    Source,
};
use crate::text::{resolve_in, resolved_path};

verus! {

/// What to do next to learn the hash of a file.
#[derive(Debug, PartialEq, Eq)]
pub enum Step {
    /// The outcome is known.
    Ready(Result<PathHash, ResourceError>),
    /// Ask the host for this package under this key, then hand the answer
    /// to `supply_package` and look up again.
    FetchPackage(PackageSpec, String),
    /// Ask the host for the file under this key, then hand the answer to
    /// `supply_file`.
    FetchFile(String),
}

/// Whether the package of `id` has not been asked for yet.
pub open spec fn package_pending(roots: Map<PackageSpecView, Result<String, PackageError>>, id: ResourceIdView) -> bool {
    id.0 matches Some(p) && !roots.contains_key(p)
}

/// The directory that the path of `id` is resolved against, or the error of
/// its package.
pub open spec fn base_of(
    root: Seq<char>,
    roots: Map<PackageSpecView, Result<String, PackageError>>,
    id: ResourceIdView,
) -> Result<Seq<char>, PackageError> {
    match id.0 {
        Some(p) => match roots[p] {
            Ok(r) => Ok(r@),
            Err(e) => Err(e),
        },
        None => Ok(root),
    }
}

/// The error that `id` fails with before any file fetch, if any: its
/// package's error, or `AccessDenied` where its path leaves the base.
pub open spec fn early_failure(
    root: Seq<char>,
    roots: Map<PackageSpecView, Result<String, PackageError>>,
    id: ResourceIdView,
) -> Option<ResourceError> {
    match base_of(root, roots, id) {
        Err(e) => Some(ResourceError::Package(e)),
        Ok(b) => if resolved_path(b, id.1) is None {
            Some(ResourceError::AccessDenied)
        } else {
            None
        },
    }
}

/// The host key of the file `id`, once its base is known.
pub open spec fn file_key(
    root: Seq<char>,
    roots: Map<PackageSpecView, Result<String, PackageError>>,
    id: ResourceIdView,
) -> Option<Seq<char>> {
    match base_of(root, roots, id) {
        Ok(b) => resolved_path(b, id.1),
        Err(_) => None,
    }
}

/// The host-facing state of one compiler: the project root, the main file,
/// the caches of the current compilation, the date once asked for, and the
/// fonts.
pub struct SystemWorld {
    root: String,
    main: ResourceId,
    store: ResourceStore,
    packages: PackageCache,
    now: Option<Instant>,
    fonts: FontSearcher,
}

impl SystemWorld {
    pub closed spec fn wf(&self) -> bool {
        &&& self.store.wf()
        &&& self.packages.wf()
        &&& self.fonts.wf()
        &&& self.now matches Some(t) ==> -86400 < t.local_offset_secs < 86400
    }

    /// The project root.
    pub closed spec fn root(&self) -> Seq<char> {
        self.root@
    }

    /// The main file of the current compilation.
    pub closed spec fn main_id(&self) -> ResourceIdView {
        self.main@
    }

    /// The outcome recorded for each file in this compilation.
    pub closed spec fn files(&self) -> Map<ResourceIdView, Result<PathHash, ResourceError>> {
        self.store.files()
    }

    /// The slot of each content hash in this compilation.
    pub closed spec fn slots(&self) -> Map<u128, SlotView> {
        self.store.slots()
    }

    /// The outcome recorded for each package in this compilation.
    pub closed spec fn roots(&self) -> Map<PackageSpecView, Result<String, PackageError>> {
        self.packages.roots()
    }

    /// The instant that dates are taken from in this compilation, once asked.
    pub closed spec fn clock(&self) -> Option<Instant> {
        self.now
    }

    /// The loaded faces.
    pub closed spec fn fonts(&self) -> Seq<Font> {
        self.fonts.fonts()
    }

    /// The metadata of the loaded faces.
    pub closed spec fn book_value(&self) -> FontBook {
        self.fonts.book_value()
    }

    /// A context for the project at `root`, with the bundled fonts loaded.
    pub fn new(root: String) -> (r: SystemWorld)
        ensures
            r.wf(),
            r.root() == root@,
            r.files().is_empty(),
            r.roots().is_empty(),
            r.clock() is None,
            r.fonts() == bundled_faces(BUNDLED_FILES as nat),
    {
        let mut fonts = FontSearcher::new();
        fonts.add_embedded();
        SystemWorld {
            root,
            main: ResourceId { package: None, path: String::from_str("/") },
            store: ResourceStore::new(),
            packages: PackageCache::new(),
            now: None,
            fonts,
        }
    }

    /// Forgets the files, packages and date of the last compilation.
    fn reset(&mut self)
        requires
            old(self).wf(),
        ensures
            final(self).wf(),
            final(self).files().is_empty(),
            final(self).slots().is_empty(),
            final(self).roots().is_empty(),
            final(self).clock() is None,
            final(self).root() == old(self).root(),
            final(self).fonts() == old(self).fonts(),
            final(self).book_value() == old(self).book_value(),
            final(self).main_id() == old(self).main_id(),
    {
        self.store.clear();
        self.packages.clear();
        self.now = None;
    }

    /// Starts a compilation of `text` as the file at `path`: the caches of
    /// the last compilation are forgotten, and `text` is recorded as the main
    /// file's content without a fetch.
    pub fn begin_compile(&mut self, text: String, path: String) -> (r: ResourceId)
        requires
            old(self).wf(),
        ensures
            final(self).wf(),
            r@ == (None::<PackageSpecView>, path@),
            final(self).main_id() == r@,
            final(self).files() == Map::<ResourceIdView, Result<PathHash, ResourceError>>::empty().insert(
                r@,
                Ok(PathHash(sip128_of(encode_utf8(text@)))),
            ),
            final(self).slots() == Map::<u128, SlotView>::empty().insert(
                sip128_of(encode_utf8(text@)),
                (r@, encode_utf8(text@)),
            ),
            final(self).roots().is_empty(),
            final(self).clock() is None,
            final(self).root() == old(self).root(),
            final(self).fonts() == old(self).fonts(),
            final(self).book_value() == old(self).book_value(),
    {
        self.reset();
        let id = ResourceId { package: None, path };
        self.main = id.clone();
        self.store.install(id.clone(), text);
        id
    }

    /// The main file of the current compilation.
    pub fn main(&self) -> (r: ResourceId)
        ensures
            r@ == self.main_id(),
    {
        self.main.clone()
    }

    /// What to do next to learn the hash of `id`. A recorded outcome is
    /// answered from the cache. Otherwise the package is asked for first; a
    /// failed package, or a path that leaves its base, is recorded as the
    /// file's error; else the file is to be fetched.
    pub fn lookup(&mut self, id: &ResourceId) -> (r: Step)
        requires
            old(self).wf(),
        ensures
            final(self).wf(),
            final(self).slots() == old(self).slots(),
            final(self).roots() == old(self).roots(),
            final(self).clock() == old(self).clock(),
            final(self).root() == old(self).root(),
            final(self).fonts() == old(self).fonts(),
            final(self).book_value() == old(self).book_value(),
            final(self).main_id() == old(self).main_id(),
            old(self).files().contains_key(id@) ==> r == Step::Ready(old(self).files()[id@])
                && final(self).files() == old(self).files(),
            !old(self).files().contains_key(id@) && package_pending(old(self).roots(), id@) ==> (
                r matches Step::FetchPackage(p, k) && Some(p@) == id@.0 && k@ == package_key_of(p@)
                && final(self).files() == old(self).files()),
            !old(self).files().contains_key(id@) && !package_pending(old(self).roots(), id@) ==> (
                match early_failure(old(self).root(), old(self).roots(), id@) {
                    Some(e) => r == Step::Ready(Err(e)) && final(self).files() == old(self).files().insert(
                        id@,
                        Err(e),
                    ),
                    None => r matches Step::FetchFile(k) && file_key(old(self).root(), old(self).roots(), id@)
                        == Some(k@) && final(self).files() == old(self).files(),
                }),
    {
        if let Some(known) = self.store.hash_of(id) {
            return Step::Ready(known);
        }
        let base = match &id.package {
            Some(p) => match self.packages.get(p) {
                None => {
                    let key = p.key();
                    return Step::FetchPackage(p.clone(), key);
                },
                Some(Ok(dir)) => dir,
                Some(Err(e)) => {
                    let err = ResourceError::Package(e);
                    self.store.record_fetch(id.clone(), Err(err.clone()));
                    return Step::Ready(Err(err));
                },
            },
            None => self.root.clone(),
        };
        match resolve_in(base.as_str(), id.path.as_str()) {
            Some(key) => Step::FetchFile(key),
            None => {
                self.store.record_fetch(id.clone(), Err(ResourceError::AccessDenied));
                Step::Ready(Err(ResourceError::AccessDenied))
            },
        }
    }

    /// Records the host's answer for package `spec`, asked for by `lookup`.
    pub fn supply_package(&mut self, spec: &PackageSpec, outcome: Result<String, HostError>) -> (r: Result<String, PackageError>)
        requires
            old(self).wf(),
            !old(self).roots().contains_key(spec@),
        ensures
            final(self).wf(),
            is_package_outcome(outcome, *spec, r),
            final(self).roots() == old(self).roots().insert(spec@, r),
            final(self).files() == old(self).files(),
            final(self).slots() == old(self).slots(),
            final(self).clock() == old(self).clock(),
            final(self).root() == old(self).root(),
            final(self).fonts() == old(self).fonts(),
            final(self).book_value() == old(self).book_value(),
            final(self).main_id() == old(self).main_id(),
    {
        self.packages.record(spec, outcome)
    }

    /// Records the host's answer for the file `id`, fetched under `key`: the
    /// hash of its bytes, with a slot for them unless the same bytes were
    /// loaded already, or the error that the host failure stands for.
    pub fn supply_file(&mut self, id: &ResourceId, key: &String, outcome: Result<Vec<u8>, HostError>) -> (r: Result<PathHash, ResourceError>)
        requires
            old(self).wf(),
            !old(self).files().contains_key(id@),
        ensures
            final(self).wf(),
            final(self).files() == old(self).files().insert(id@, r),
            match outcome {
                Ok(b) => r == Ok::<PathHash, ResourceError>(PathHash(sip128_of(b@)))
                    && final(self).slots() == slots_after(old(self).slots(), id@, Ok(b@)),
                Err(e) => r matches Err(re) && is_file_error_of(e, key@, re)
                    && final(self).slots() == old(self).slots(),
            },
            final(self).roots() == old(self).roots(),
            final(self).clock() == old(self).clock(),
            final(self).root() == old(self).root(),
            final(self).fonts() == old(self).fonts(),
            final(self).book_value() == old(self).book_value(),
            final(self).main_id() == old(self).main_id(),
    {
        let fetched = match outcome {
            Ok(b) => Ok(b),
            Err(e) => Err(file_error(e, key)),
        };
        self.store.record_fetch(id.clone(), fetched)
    }

    /// The text of `id`, whose outcome is recorded.
    pub fn source(&mut self, id: &ResourceId) -> (r: Result<Source, ResourceError>)
        requires
            old(self).wf(),
            old(self).files().contains_key(id@),
        ensures
            final(self).wf(),
            source_view(r) == resolved_source(old(self).files(), old(self).slots(), id@),
            final(self).files() == old(self).files(),
            final(self).slots() == old(self).slots(),
            final(self).roots() == old(self).roots(),
            final(self).clock() == old(self).clock(),
            final(self).root() == old(self).root(),
            final(self).fonts() == old(self).fonts(),
            final(self).book_value() == old(self).book_value(),
            final(self).main_id() == old(self).main_id(),
    {
        self.store.source_of(id)
    }

    /// The bytes of `id`, whose outcome is recorded.
    pub fn file(&mut self, id: &ResourceId) -> (r: Result<Vec<u8>, ResourceError>)
        requires
            old(self).wf(),
            old(self).files().contains_key(id@),
        ensures
            final(self).wf(),
            bytes_view(r) == resolved_bytes(old(self).files(), old(self).slots(), id@),
            final(self).files() == old(self).files(),
            final(self).slots() == old(self).slots(),
            final(self).roots() == old(self).roots(),
            final(self).clock() == old(self).clock(),
            final(self).root() == old(self).root(),
            final(self).fonts() == old(self).fonts(),
            final(self).book_value() == old(self).book_value(),
            final(self).main_id() == old(self).main_id(),
    {
        self.store.bytes_of(id)
    }

    /// The date at the instant captured on the first call of this
    /// compilation: local time without an offset, UTC shifted by `offset`
    /// hours with one; `None` where that date is out of range.
    pub fn today(&mut self, offset: Option<i64>) -> (r: Option<Date>)
        requires
            old(self).wf(),
        ensures
            final(self).wf(),
            final(self).clock() is Some,
            -86400 < final(self).clock()->0.local_offset_secs < 86400,
            old(self).clock() is Some ==> final(self).clock() == old(self).clock(),
            r == date_at(final(self).clock()->0, offset),
            final(self).files() == old(self).files(),
            final(self).slots() == old(self).slots(),
            final(self).roots() == old(self).roots(),
            final(self).root() == old(self).root(),
            final(self).fonts() == old(self).fonts(),
            final(self).book_value() == old(self).book_value(),
            final(self).main_id() == old(self).main_id(),
    {
        let t = match self.now {
            Some(t) => t,
            None => {
                let t = wall_clock();
                self.now = Some(t);
                t
            },
        };
        date_at_offset(t, offset)
    }

    /// Appends the faces in `data` to the fonts, in collection order, and
    /// their metadata to the book; earlier indices keep their faces.
    pub fn add_font(&mut self, data: Vec<u8>)
        requires
            old(self).wf(),
        ensures
            final(self).wf(),
            final(self).fonts() == old(self).fonts() + faces_of(data@),
            faces_of(data@).len() == 0 ==> final(self).book_value() == old(self).book_value(),
            final(self).files() == old(self).files(),
            final(self).slots() == old(self).slots(),
            final(self).roots() == old(self).roots(),
            final(self).clock() == old(self).clock(),
            final(self).root() == old(self).root(),
            final(self).main_id() == old(self).main_id(),
    {
        self.fonts.add_font(data)
    }

    /// The face at `index`, or `None` past the end.
    pub fn font(&self, index: usize) -> (r: Option<Font>)
        ensures
            r == (if index < self.fonts().len() {
                Some(self.fonts()[index as int])
            } else {
                None
            }),
    {
        self.fonts.font(index)
    }

    /// The metadata of the loaded faces.
    pub fn book(&self) -> (r: &FontBook)
        ensures
            *r == self.book_value(),
            self.wf() ==> book_entries(*r) == self.fonts().map_values(|f: Font| info_of(f)),
    {
        self.fonts.book()
    }
}

/// A fetch that failed as not found is recorded for the rest of the
/// compilation: a later lookup of the same identifier answers the same
/// `NotFound` from the cache, with no second fetch.
pub proof fn lemma_not_found_cached(
    files: Map<ResourceIdView, Result<PathHash, ResourceError>>,
    id: ResourceIdView,
    key: Seq<char>,
    err: ResourceError,
)
    requires
        is_file_error_of(HostError::Code(2), key, err),
    ensures
        err matches ResourceError::NotFound(p) && p@ == key,
        files.insert(id, Err(err)).contains_key(id),
        files.insert(id, Err(err))[id] == Err::<PathHash, ResourceError>(err),
{
}

/// A new compilation starts from nothing but its main file: every other
/// identifier, and every package, has to be fetched again.
pub proof fn lemma_begin_forgets(
    main: ResourceIdView,
    hash: PathHash,
    id: ResourceIdView,
    package: PackageSpecView,
)
    requires
        id != main,
    ensures
        !Map::<ResourceIdView, Result<PathHash, ResourceError>>::empty().insert(main, Ok(hash)).contains_key(id),
        !Map::<PackageSpecView, Result<String, PackageError>>::empty().contains_key(package),
{
}

} // verus!
