//! The font catalog: every loaded face, in load order, with its metadata in a
//! font book. Faces are only ever appended, so an index once handed out keeps
//! naming the same face.
use vstd::prelude::*;
use typst::foundations::Bytes;
use typst::text::{Font, FontBook, FontInfo};
use vstd::slice::slice_to_vec;

verus! {

#[verifier::external_type_specification]
#[verifier::external_body]
pub struct ExFont(Font);

#[verifier::external_type_specification]
#[verifier::external_body]
pub struct ExFontBook(FontBook);

#[verifier::external_type_specification]
#[verifier::external_body]
pub struct ExFontInfo(FontInfo);

/// Relies on the derived `Clone` of typst's `Font`, which shares the loaded
/// face.
pub assume_specification[ <Font as Clone>::clone ](f: &Font) -> (r: Font)
    ensures
        r == *f,
;

/// The number of bundled font files.
pub const BUNDLED_FILES: usize = 17;

/// The faces that typst reads from a font file or collection, in collection
/// order.
pub uninterp spec fn faces_of(data: Seq<u8>) -> Seq<Font>;

/// The entries of a font book, in the order they were pushed.
pub uninterp spec fn book_entries(b: FontBook) -> Seq<FontInfo>;

/// The metadata that typst keeps for a face.
pub uninterp spec fn info_of(f: Font) -> FontInfo;

/// The bytes of bundled font file `i`.
pub uninterp spec fn bundled_font_file(i: nat) -> Seq<u8>;

/// Relies on typst's `Font::iter`: the faces that parse in the data, in
/// collection order; which ones parse depends on the bytes alone.
#[verifier::external_body]
fn parse_faces(data: Vec<u8>) -> (r: Vec<Font>)
    ensures
        r@ == faces_of(data@),
{
    Font::iter(Bytes::from(data)).collect()
}

/// Relies on typst's `FontBook::new`: a book with no entries.
#[verifier::external_body]
fn empty_book() -> (r: FontBook)
    ensures
        book_entries(r) == Seq::<FontInfo>::empty(),
{
    FontBook::new()
}

/// Relies on typst's `FontBook::push`, which appends one entry to the book's
/// list of infos, here `Font::info` of `font`.
#[verifier::external_body]
fn push_info(book: &mut FontBook, font: &Font)
    ensures
        book_entries(*final(book)) == book_entries(*old(book)).push(info_of(*font)),
{
    book.push(font.info().clone())
}

/// Relies on typst-assets' `fonts`, which with the `fonts` feature lists the
/// seventeen bundled font files, always in the same order.
#[verifier::external_body]
fn bundled_files() -> (r: Vec<Vec<u8>>)
    ensures
        r@.len() == BUNDLED_FILES,
        forall|i: int| 0 <= i < BUNDLED_FILES ==> (#[trigger] r@[i])@ == bundled_font_file(i as nat),
{
    typst_assets::fonts().map(|d| d.to_vec()).collect()
}

/// The faces of the first `n` bundled files, file after file.
pub open spec fn bundled_faces(n: nat) -> Seq<Font>
    decreases n,
{
    if n == 0 {
        Seq::empty()
    } else {
        bundled_faces((n - 1) as nat) + faces_of(bundled_font_file((n - 1) as nat))
    }
}

/// Loaded faces and their metadata.
pub struct FontSearcher {
    book: FontBook,
    fonts: Vec<Font>,
}

impl FontSearcher {
    /// The loaded faces, by index.
    pub closed spec fn fonts(&self) -> Seq<Font> {
        self.fonts@
    }

    /// The book of metadata.
    pub closed spec fn book_value(&self) -> FontBook {
        self.book
    }

    /// Entry `i` of the book describes face `i`.
    pub open spec fn wf(&self) -> bool {
        book_entries(self.book_value()) == self.fonts().map_values(|f: Font| info_of(f))
    }

    /// A catalog with no faces.
    pub fn new() -> (r: FontSearcher)
        ensures
            r.wf(),
            r.fonts() == Seq::<Font>::empty(),
    {
        let r = FontSearcher { book: empty_book(), fonts: Vec::new() };
        assert(r.fonts().map_values(|f: Font| info_of(f)) =~= Seq::<FontInfo>::empty());
        r
    }

    /// Appends `faces` to the fonts, and their metadata to the book, in
    /// order. Faces loaded before keep their indices.
    pub fn append_faces(&mut self, faces: Vec<Font>)
        requires
            old(self).wf(),
        ensures
            final(self).wf(),
            final(self).fonts() == old(self).fonts() + faces@,
    {
        let ghost before = self.fonts@;
        let mut i: usize = 0;
        while i < faces.len()
            invariant
                self.wf(),
                i <= faces@.len(),
                self.fonts@ == before + faces@.subrange(0, i as int),
            decreases faces@.len() - i,
        {
            let ghost old_fonts = self.fonts@;
            push_info(&mut self.book, &faces[i]);
            self.fonts.push(faces[i].clone());
            assert(self.fonts@ =~= before + faces@.subrange(0, i + 1));
            assert(self.fonts@.map_values(|f: Font| info_of(f)) =~= old_fonts.map_values(|f: Font| info_of(f)).push(
                info_of(faces@[i as int]),
            ));
            i = i + 1;
        }
        assert(faces@.subrange(0, faces@.len() as int) =~= faces@);
    }

    /// Appends every face in `data`, in collection order.
    pub fn add_font(&mut self, data: Vec<u8>)
        requires
            old(self).wf(),
        ensures
            final(self).wf(),
            final(self).fonts() == old(self).fonts() + faces_of(data@),
            faces_of(data@).len() == 0 ==> final(self).book_value() == old(self).book_value(),
    {
        let faces = parse_faces(data);
        if faces.len() > 0 {
            self.append_faces(faces);
        } else {
            assert(self.fonts@ + faces@ =~= self.fonts@);
        }
    }

    /// Appends the faces of every bundled font file, in bundle order.
    pub fn add_embedded(&mut self)
        requires
            old(self).wf(),
        ensures
            final(self).wf(),
            final(self).fonts() == old(self).fonts() + bundled_faces(BUNDLED_FILES as nat),
    {
        let files = bundled_files();
        let ghost before = self.fonts@;
        let mut i: usize = 0;
        while i < files.len()
            invariant
                self.wf(),
                files@.len() == BUNDLED_FILES,
                forall|j: int| 0 <= j < BUNDLED_FILES ==> (#[trigger] files@[j])@ == bundled_font_file(j as nat),
                i <= files@.len(),
                self.fonts@ == before + bundled_faces(i as nat),
            decreases files@.len() - i,
        {
            let data = slice_to_vec(files[i].as_slice());
            assert(data@ == bundled_font_file(i as nat));
            self.add_font(data);
            assert(bundled_faces((i + 1) as nat) == bundled_faces(i as nat) + faces_of(bundled_font_file(i as nat)));
            assert(self.fonts@ =~= before + bundled_faces((i + 1) as nat));
            i = i + 1;
        }
    }

    /// The number of loaded faces.
    pub fn len(&self) -> (r: usize)
        ensures
            r == self.fonts().len(),
    {
        self.fonts.len()
    }

    /// The face at `index`, or `None` past the end.
    pub fn font(&self, index: usize) -> (r: Option<Font>)
        ensures
            r == (if index < self.fonts().len() {
                Some(self.fonts()[index as int])
            } else {
                None
            }),
    {
        if index < self.fonts.len() {
            Some(self.fonts[index].clone())
        } else {
            None
        }
    }

    /// The metadata of every face, in load order.
    pub fn book(&self) -> (r: &FontBook)
        ensures
            *r == self.book_value(),
    {
        &self.book
    }
}

/// Every catalog that holds exactly the bundled faces holds the same faces in
/// the same order, and the same book entries: the bundled fonts get the same
/// indices in every context.
pub proof fn lemma_bundled_loads_agree(a: FontSearcher, b: FontSearcher)
    requires
        a.wf(),
        b.wf(),
        a.fonts() == bundled_faces(BUNDLED_FILES as nat),
        b.fonts() == bundled_faces(BUNDLED_FILES as nat),
    ensures
        a.fonts() == b.fonts(),
        book_entries(a.book_value()) == book_entries(b.book_value()),
{
}

} // verus!
