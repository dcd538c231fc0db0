//! The resource cache: identifier to content hash, and content hash to one
//! shared slot holding the content's text and bytes.
use vstd::prelude::*;
use vstd::slice::slice_to_vec;
use vstd::utf8::{decode_utf8, encode_utf8, valid_utf8};
use crate::error::ResourceError;
use crate::hash::{sip128_of, PathHash};
use crate::ident::{ResourceId, ResourceIdView};
use crate::text::utf8_text;

verus! {

broadcast use vstd::utf8::encode_utf8_valid_utf8, vstd::utf8::encode_utf8_decode_utf8;

/// A loaded text together with the identifier it was loaded under.
#[derive(Debug, PartialEq, Eq)]
pub struct Source {
    pub id: ResourceId,
    pub text: String,
}

/// What a slot stands for: the identifier that first filled it, and its bytes.
pub type SlotView = (ResourceIdView, Seq<u8>);

/// What reading a text from a slot gives: the slot's identifier and the text
/// its bytes encode, or `InvalidEncoding`.
pub open spec fn source_of_slot(s: SlotView) -> Result<(ResourceIdView, Seq<char>), ResourceError> {
    if valid_utf8(s.1) {
        Ok((s.0, decode_utf8(s.1)))
    } else {
        Err(ResourceError::InvalidEncoding)
    }
}

/// The view of a source result.
pub open spec fn source_view(r: Result<Source, ResourceError>) -> Result<(ResourceIdView, Seq<char>), ResourceError> {
    match r {
        Ok(s) => Ok((s.id@, s.text@)),
        Err(e) => Err(e),
    }
}

/// The view of a bytes result.
pub open spec fn bytes_view(r: Result<Vec<u8>, ResourceError>) -> Result<Seq<u8>, ResourceError> {
    match r {
        Ok(b) => Ok(b@),
        Err(e) => Err(e),
    }
}

/// Canonical data for all identifiers whose content is the same.
///
/// The bytes and the decoded text are each computed at most once.
pub struct PathSlot {
    /// The fingerprint of the content.
    hash: PathHash,
    /// The identifier that first filled the slot.
    id: ResourceId,
    buffer: Option<Vec<u8>>,
    source: Option<Result<String, ResourceError>>,
}

impl View for PathSlot {
    type V = SlotView;

    closed spec fn view(&self) -> SlotView {
        (self.id@, self.content())
    }
}

impl PathSlot {
    /// The slot's bytes: those it was filled with, or the encoding of the text
    /// it was filled with.
    pub closed spec fn content(&self) -> Seq<u8> {
        match self.buffer {
            Some(b) => b@,
            None => match self.source {
                Some(Ok(t)) => encode_utf8(t@),
                _ => Seq::empty(),
            },
        }
    }

    /// The fingerprint that the slot is filed under.
    pub closed spec fn key(&self) -> u128 {
        self.hash.0
    }

    pub closed spec fn wf(&self) -> bool {
        &&& (self.buffer is Some || self.source matches Some(Ok(_)))
        &&& self.hash.0 == sip128_of(self.content())
        &&& match self.source {
            Some(Ok(t)) => valid_utf8(self.content()) && t@ == decode_utf8(self.content()),
            Some(Err(e)) => e == ResourceError::InvalidEncoding && !valid_utf8(self.content()),
            None => true,
        }
    }

    /// A slot filled with fetched bytes.
    pub fn from_bytes(id: ResourceId, bytes: Vec<u8>) -> (r: PathSlot)
        ensures
            r.wf(),
            r@ == (id@, bytes@),
            r.key() == sip128_of(bytes@),
    {
        let hash = PathHash::of_bytes(bytes.as_slice());
        PathSlot { hash, id, buffer: Some(bytes), source: None }
    }

    /// A slot filled with a text supplied directly.
    pub fn from_text(id: ResourceId, text: String) -> (r: PathSlot)
        ensures
            r.wf(),
            r@ == (id@, encode_utf8(text@)),
            r.key() == sip128_of(encode_utf8(text@)),
    {
        let hash = PathHash::new(text.as_str());
        PathSlot { hash, id, buffer: None, source: Some(Ok(text)) }
    }

    /// The slot's text, decoded on first use and kept.
    pub fn source(&mut self) -> (r: Result<Source, ResourceError>)
        requires
            old(self).wf(),
        ensures
            final(self).wf(),
            final(self)@ == old(self)@,
            final(self).key() == old(self).key(),
            source_view(r) == source_of_slot(old(self)@),
    {
        if self.source.is_none() {
            let decoded = match &self.buffer {
                Some(b) => utf8_text(slice_to_vec(b.as_slice())),
                None => None,
            };
            self.source = match decoded {
                Some(t) => Some(Ok(t)),
                None => Some(Err(ResourceError::InvalidEncoding)),
            };
        }
        match &self.source {
            Some(Ok(t)) => Ok(Source { id: self.id.clone(), text: t.clone() }),
            Some(Err(e)) => Err(e.clone()),
            None => Err(ResourceError::InvalidEncoding),
        }
    }

    /// The slot's bytes, encoded from its text on first use and kept.
    pub fn file(&mut self) -> (r: Vec<u8>)
        requires
            old(self).wf(),
        ensures
            final(self).wf(),
            final(self)@ == old(self)@,
            final(self).key() == old(self).key(),
            r@ == old(self)@.1,
    {
        if self.buffer.is_none() {
            let encoded = match &self.source {
                Some(Ok(t)) => slice_to_vec(t.as_str().as_bytes()),
                _ => Vec::new(),
            };
            self.buffer = Some(encoded);
        }
        match &self.buffer {
            Some(b) => slice_to_vec(b.as_slice()),
            None => Vec::new(),
        }
    }
}

/// The hash that a fetch outcome is recorded under.
pub open spec fn outcome_hash(o: Result<Seq<u8>, ResourceError>) -> Result<PathHash, ResourceError> {
    match o {
        Ok(b) => Ok(PathHash(sip128_of(b))),
        Err(e) => Err(e),
    }
}

/// The slots after recording a fetch outcome for `id`: a new slot only where
/// no slot holds the same content yet.
pub open spec fn slots_after(
    slots: Map<u128, SlotView>,
    id: ResourceIdView,
    o: Result<Seq<u8>, ResourceError>,
) -> Map<u128, SlotView> {
    match o {
        Ok(b) => if slots.contains_key(sip128_of(b)) {
            slots
        } else {
            slots.insert(sip128_of(b), (id, b))
        },
        Err(_) => slots,
    }
}

/// What reading the text of `id` gives, once its hash is recorded.
pub open spec fn resolved_source(
    files: Map<ResourceIdView, Result<PathHash, ResourceError>>,
    slots: Map<u128, SlotView>,
    id: ResourceIdView,
) -> Result<(ResourceIdView, Seq<char>), ResourceError> {
    match files[id] {
        Ok(h) => source_of_slot(slots[h.0]),
        Err(e) => Err(e),
    }
}

/// What reading the bytes of `id` gives, once its hash is recorded.
pub open spec fn resolved_bytes(
    files: Map<ResourceIdView, Result<PathHash, ResourceError>>,
    slots: Map<u128, SlotView>,
    id: ResourceIdView,
) -> Result<Seq<u8>, ResourceError> {
    match files[id] {
        Ok(h) => Ok(slots[h.0].1),
        Err(e) => Err(e),
    }
}

fn copy_outcome(o: &Result<PathHash, ResourceError>) -> (r: Result<PathHash, ResourceError>)
    ensures
        r == *o,
{
    match o {
        Ok(h) => Ok(*h),
        Err(e) => Err(e.clone()),
    }
}

/// Maps identifiers to content hashes, and content hashes to slots, for one
/// compilation.
pub struct ResourceStore {
    hashes: Vec<(ResourceId, Result<PathHash, ResourceError>)>,
    paths: Vec<PathSlot>,
    files: Ghost<Map<ResourceIdView, Result<PathHash, ResourceError>>>,
    slots: Ghost<Map<u128, SlotView>>,
}

impl ResourceStore {
    /// The recorded outcome of each identifier looked up so far.
    pub closed spec fn files(&self) -> Map<ResourceIdView, Result<PathHash, ResourceError>> {
        self.files@
    }

    /// The slot of each content hash.
    pub closed spec fn slots(&self) -> Map<u128, SlotView> {
        self.slots@
    }

    pub closed spec fn wf(&self) -> bool {
        &&& forall|i: int, j: int|
            0 <= i < j < self.hashes@.len() ==> self.hashes@[i].0@ != self.hashes@[j].0@
        &&& forall|i: int|
            0 <= i < self.hashes@.len() ==> self.files@.contains_key(#[trigger] self.hashes@[i].0@)
                && self.files@[self.hashes@[i].0@] == self.hashes@[i].1
        &&& forall|k: ResourceIdView|
            #[trigger] self.files@.contains_key(k) ==> exists|i: int|
                0 <= i < self.hashes@.len() && self.hashes@[i].0@ == k
        &&& forall|i: int, j: int|
            0 <= i < j < self.paths@.len() ==> self.paths@[i].hash != self.paths@[j].hash
        &&& forall|i: int|
            0 <= i < self.paths@.len() ==> (#[trigger] self.paths@[i]).wf()
                && self.slots@.contains_key(self.paths@[i].hash.0)
                && self.slots@[self.paths@[i].hash.0] == self.paths@[i]@
        &&& forall|h: u128|
            #[trigger] self.slots@.contains_key(h) ==> exists|i: int|
                0 <= i < self.paths@.len() && self.paths@[i].hash.0 == h
        &&& forall|k: ResourceIdView|
            #[trigger] self.files@.contains_key(k) && self.files@[k] is Ok
                ==> self.slots@.contains_key(self.files@[k]->Ok_0.0)
    }

    /// An empty store.
    pub fn new() -> (r: ResourceStore)
        ensures
            r.wf(),
            r.files() == Map::<ResourceIdView, Result<PathHash, ResourceError>>::empty(),
            r.slots() == Map::<u128, SlotView>::empty(),
    {
        ResourceStore {
            hashes: Vec::new(),
            paths: Vec::new(),
            files: Ghost(Map::empty()),
            slots: Ghost(Map::empty()),
        }
    }

    /// Forgets every identifier and every slot.
    pub fn clear(&mut self)
        ensures
            final(self).wf(),
            final(self).files() == Map::<ResourceIdView, Result<PathHash, ResourceError>>::empty(),
            final(self).slots() == Map::<u128, SlotView>::empty(),
    {
        self.hashes.clear();
        self.paths.clear();
        self.files = Ghost(Map::empty());
        self.slots = Ghost(Map::empty());
    }

    fn find_id(&self, id: &ResourceId) -> (r: Option<usize>)
        requires
            self.wf(),
        ensures
            match r {
                Some(i) => i < self.hashes@.len() && self.hashes@[i as int].0@ == id@,
                None => !self.files().contains_key(id@),
            },
    {
        let mut i: usize = 0;
        while i < self.hashes.len()
            invariant
                self.wf(),
                i <= self.hashes@.len(),
                forall|j: int| 0 <= j < i ==> self.hashes@[j].0@ != id@,
            decreases self.hashes@.len() - i,
        {
            if self.hashes[i].0.same_as(id) {
                return Some(i);
            }
            i = i + 1;
        }
        None
    }

    fn find_slot(&self, h: PathHash) -> (r: Option<usize>)
        requires
            self.wf(),
        ensures
            match r {
                Some(i) => i < self.paths@.len() && self.paths@[i as int].hash == h,
                None => !self.slots().contains_key(h.0),
            },
    {
        let mut i: usize = 0;
        while i < self.paths.len()
            invariant
                self.wf(),
                i <= self.paths@.len(),
                forall|j: int| 0 <= j < i ==> self.paths@[j].hash.0 != h.0,
            decreases self.paths@.len() - i,
        {
            if self.paths[i].hash.0 == h.0 {
                return Some(i);
            }
            i = i + 1;
        }
        None
    }

    /// The recorded outcome for `id`, or `None` where it still has to be
    /// fetched.
    pub fn hash_of(&self, id: &ResourceId) -> (r: Option<Result<PathHash, ResourceError>>)
        requires
            self.wf(),
        ensures
            r == (if self.files().contains_key(id@) {
                Some(self.files()[id@])
            } else {
                None
            }),
    {
        match self.find_id(id) {
            Some(i) => Some(copy_outcome(&self.hashes[i].1)),
            None => None,
        }
    }

    /// Adds a slot for content not seen yet.
    fn add_slot(&mut self, slot: PathSlot)
        requires
            old(self).wf(),
            slot.wf(),
            !old(self).slots().contains_key(slot.hash.0),
        ensures
            final(self).wf(),
            final(self).files() == old(self).files(),
            final(self).slots() == old(self).slots().insert(slot.hash.0, slot@),
    {
        let ghost old_paths = self.paths@;
        let ghost old_hashes = self.hashes@;
        let ghost h = slot.hash.0;
        let ghost v = slot@;
        self.paths.push(slot);
        self.slots = Ghost(self.slots@.insert(h, v));
        assert forall|i: int| 0 <= i < old_paths.len() implies old_paths[i].hash.0 != h by {
            assert(self.slots@.contains_key(old_paths[i].hash.0));
        }
        assert forall|g: u128| #[trigger] self.slots@.contains_key(g) implies exists|i: int|
            0 <= i < self.paths@.len() && self.paths@[i].hash.0 == g by {
            if g == h {
                assert(self.paths@[old_paths.len() as int].hash.0 == g);
            } else {
                let i = choose|i: int| 0 <= i < old_paths.len() && old_paths[i].hash.0 == g;
                assert(self.paths@[i].hash.0 == g);
            }
        }
        assert forall|k: ResourceIdView| #[trigger] self.files@.contains_key(k) implies exists|i: int|
            0 <= i < self.hashes@.len() && self.hashes@[i].0@ == k by {
            let i = choose|i: int| 0 <= i < old_hashes.len() && old_hashes[i].0@ == k;
            assert(self.hashes@[i].0@ == k);
        }
    }

    /// Records `outcome` for `id`, in place of any earlier one.
    fn set_outcome(&mut self, id: ResourceId, outcome: Result<PathHash, ResourceError>)
        requires
            old(self).wf(),
            outcome matches Ok(h) ==> old(self).slots().contains_key(h.0),
        ensures
            final(self).wf(),
            final(self).files() == old(self).files().insert(id@, outcome),
            final(self).slots() == old(self).slots(),
    {
        let ghost k = id@;
        let ghost old_hashes = self.hashes@;
        match self.find_id(&id) {
            Some(i) => {
                self.hashes.set(i, (id, outcome));
                self.files = Ghost(self.files@.insert(k, self.hashes@[i as int].1));
                assert forall|j: int| #![auto] 0 <= j < self.hashes@.len() && j != i implies self.hashes@[j].0@ != k by {
                    if j < i {
                        assert(old_hashes[j].0@ != old_hashes[i as int].0@);
                    } else {
                        assert(old_hashes[i as int].0@ != old_hashes[j].0@);
                    }
                }
                assert forall|q: ResourceIdView| #[trigger] self.files@.contains_key(q) implies exists|j: int|
                    0 <= j < self.hashes@.len() && self.hashes@[j].0@ == q by {
                    if q != k {
                        let j = choose|j: int| 0 <= j < old_hashes.len() && old_hashes[j].0@ == q;
                        assert(self.hashes@[j].0@ == q);
                    }
                }
            },
            None => {
                self.hashes.push((id, outcome));
                let n = self.hashes.len() - 1;
                self.files = Ghost(self.files@.insert(k, self.hashes@[n as int].1));
                assert forall|j: int| 0 <= j < old_hashes.len() implies old_hashes[j].0@ != k by {
                    assert(self.files@.contains_key(old_hashes[j].0@));
                }
                assert forall|q: ResourceIdView| #[trigger] self.files@.contains_key(q) implies exists|j: int|
                    0 <= j < self.hashes@.len() && self.hashes@[j].0@ == q by {
                    if q == k {
                        assert(self.hashes@[n as int].0@ == q);
                    } else {
                        let j = choose|j: int| 0 <= j < old_hashes.len() && old_hashes[j].0@ == q;
                        assert(self.hashes@[j].0@ == q);
                    }
                }
            },
        }
    }

    /// Records what the host returned for `id`: the hash of its bytes, with a
    /// new slot for them unless one holds the same bytes already, or the error.
    pub fn record_fetch(&mut self, id: ResourceId, outcome: Result<Vec<u8>, ResourceError>) -> (r: Result<PathHash, ResourceError>)
        requires
            old(self).wf(),
            !old(self).files().contains_key(id@),
        ensures
            final(self).wf(),
            r == outcome_hash(bytes_view(outcome)),
            final(self).files() == old(self).files().insert(id@, r),
            final(self).slots() == slots_after(old(self).slots(), id@, bytes_view(outcome)),
    {
        match outcome {
            Ok(bytes) => {
                let slot = PathSlot::from_bytes(id.clone(), bytes);
                let h = slot.hash;
                if self.find_slot(h).is_none() {
                    self.add_slot(slot);
                }
                self.set_outcome(id, Ok(h));
                Ok(h)
            },
            Err(e) => {
                let r = e.clone();
                self.set_outcome(id, Err(e));
                Err(r)
            },
        }
    }

    /// Records `text` as the content of `id`, without a fetch.
    pub fn install(&mut self, id: ResourceId, text: String) -> (r: PathHash)
        requires
            old(self).wf(),
        ensures
            final(self).wf(),
            r.0 == sip128_of(encode_utf8(text@)),
            final(self).files() == old(self).files().insert(id@, Ok(r)),
            final(self).slots() == slots_after(old(self).slots(), id@, Ok(encode_utf8(text@))),
    {
        let slot = PathSlot::from_text(id.clone(), text);
        let h = slot.hash;
        if self.find_slot(h).is_none() {
            self.add_slot(slot);
        }
        self.set_outcome(id, Ok(h));
        h
    }

    /// Runs `source` or `file` on the slot at `i`.
    fn slot_at(&mut self, i: usize, want_text: bool) -> (r: (Result<Source, ResourceError>, Vec<u8>))
        requires
            old(self).wf(),
            i < old(self).paths@.len(),
        ensures
            final(self).wf(),
            final(self).files() == old(self).files(),
            final(self).slots() == old(self).slots(),
            want_text ==> source_view(r.0) == source_of_slot(old(self).paths@[i as int]@),
            !want_text ==> r.1@ == old(self).paths@[i as int]@.1,
    {
        let ghost old_paths = self.paths@;
        let ghost old_hashes = self.hashes@;
        let mut slot = self.paths.remove(i);
        let r = if want_text {
            (slot.source(), Vec::new())
        } else {
            (Err(ResourceError::InvalidEncoding), slot.file())
        };
        self.paths.insert(i, slot);
        assert(self.paths@ =~= old_paths.update(i as int, slot));
        assert forall|h: u128| #[trigger] self.slots@.contains_key(h) implies exists|j: int|
            0 <= j < self.paths@.len() && self.paths@[j].hash.0 == h by {
            let j = choose|j: int| 0 <= j < old_paths.len() && old_paths[j].hash.0 == h;
            assert(self.paths@[j].hash.0 == h);
        }
        assert forall|k: ResourceIdView| #[trigger] self.files@.contains_key(k) implies exists|i: int|
            0 <= i < self.hashes@.len() && self.hashes@[i].0@ == k by {
            let i = choose|i: int| 0 <= i < old_hashes.len() && old_hashes[i].0@ == k;
            assert(self.hashes@[i].0@ == k);
        }
        r
    }

    /// The text of `id`, whose outcome is recorded: the shared text of its
    /// slot, or the recorded error.
    pub fn source_of(&mut self, id: &ResourceId) -> (r: Result<Source, ResourceError>)
        requires
            old(self).wf(),
            old(self).files().contains_key(id@),
        ensures
            final(self).wf(),
            final(self).files() == old(self).files(),
            final(self).slots() == old(self).slots(),
            source_view(r) == resolved_source(old(self).files(), old(self).slots(), id@),
    {
        match self.hash_of(id) {
            Some(Ok(h)) => match self.find_slot(h) {
                Some(i) => self.slot_at(i, true).0,
                None => Err(ResourceError::InvalidEncoding),
            },
            Some(Err(e)) => Err(e),
            None => Err(ResourceError::InvalidEncoding),
        }
    }

    /// The bytes of `id`, whose outcome is recorded: the shared bytes of its
    /// slot, or the recorded error.
    pub fn bytes_of(&mut self, id: &ResourceId) -> (r: Result<Vec<u8>, ResourceError>)
        requires
            old(self).wf(),
            old(self).files().contains_key(id@),
        ensures
            final(self).wf(),
            final(self).files() == old(self).files(),
            final(self).slots() == old(self).slots(),
            bytes_view(r) == resolved_bytes(old(self).files(), old(self).slots(), id@),
    {
        match self.hash_of(id) {
            Some(Ok(h)) => match self.find_slot(h) {
                Some(i) => Ok(self.slot_at(i, false).1),
                None => Err(ResourceError::InvalidEncoding),
            },
            Some(Err(e)) => Err(e),
            None => Err(ResourceError::InvalidEncoding),
        }
    }
}

/// Two identifiers whose fetched bytes are the same share one slot: both are
/// recorded under the same hash, the second fetch adds no slot, and reading
/// the text or the bytes of either gives the same result.
pub proof fn lemma_same_bytes_share_slot(
    files: Map<ResourceIdView, Result<PathHash, ResourceError>>,
    slots: Map<u128, SlotView>,
    a: ResourceIdView,
    b: ResourceIdView,
    bytes: Seq<u8>,
)
    requires
        a != b,
        !files.contains_key(a),
        !files.contains_key(b),
    ensures
        ({
            let f1 = files.insert(a, outcome_hash(Ok(bytes)));
            let s1 = slots_after(slots, a, Ok(bytes));
            let f2 = f1.insert(b, outcome_hash(Ok(bytes)));
            let s2 = slots_after(s1, b, Ok(bytes));
            &&& f2[a] == f2[b]
            &&& s2 == s1
            &&& s2.contains_key(sip128_of(bytes))
            &&& resolved_source(f2, s2, a) == resolved_source(f2, s2, b)
            &&& resolved_bytes(f2, s2, a) == resolved_bytes(f2, s2, b)
        }),
{
}

} // verus!
