//! The world adapter: a write-once snapshot of everything the typesetting
//! engine may ask for during one compilation — the main source, the named
//! inputs, the virtual file table, the decoded fonts and the frozen date.

use vstd::prelude::*;

use crate::ResolveError;
use crate::engine;
use crate::engine::{
    book_of, bytes_content, dict_entries, face_ok, font_of, library_inputs, path_of, source_id_of,
    source_text,
};

verus! {

// ---------------------------------------------------------------------------
// The mathematical model of the virtual file table.
// ---------------------------------------------------------------------------
/// The views of the caller-supplied file-table entries.
pub open spec fn entry_views(entries: Seq<(String, Vec<u8>)>) -> Seq<(Seq<char>, Seq<u8>)> {
    entries.map_values(|e: (String, Vec<u8>)| (e.0@, e.1@))
}

/// The views of the entries as the adapter stores them.
pub open spec fn stored_views(entries: Seq<(String, typst::foundations::Bytes)>) -> Seq<
    (Seq<char>, Seq<u8>),
> {
    entries.map_values(|e: (String, typst::foundations::Bytes)| (e.0@, bytes_content(e.1)))
}

/// The views of the caller-supplied named-input entries.
pub open spec fn input_views(entries: Seq<(String, typst::foundations::Value)>) -> Seq<
    (Seq<char>, typst::foundations::Value),
> {
    entries.map_values(|e: (String, typst::foundations::Value)| (e.0@, e.1))
}

/// The mapping denoted by a sequence of key/value entries: entries are
/// added in order, so a later entry under the same key overwrites an
/// earlier one.
pub open spec fn table_view<V>(entries: Seq<(Seq<char>, V)>) -> Map<Seq<char>, V>
    decreases entries.len(),
{
    if entries.len() == 0 {
        Map::empty()
    } else {
        table_view(entries.drop_last()).insert(entries.last().0, entries.last().1)
    }
}

// ---------------------------------------------------------------------------
// The mathematical model of font loading.
// ---------------------------------------------------------------------------
/// The views of the caller-supplied font buffers.
pub open spec fn font_views(buffers: Seq<Vec<u8>>) -> Seq<Seq<u8>> {
    buffers.map_values(|b: Vec<u8>| b@)
}

/// Probing a buffer decodes faces at the indices 0, 1, 2, ... and stops at
/// the first index that fails; `k` is the number of faces so found. The
/// probe also stops, without a failed decode, at the engine's index limit.
pub open spec fn faces_probed(data: Seq<u8>, k: int) -> bool {
    &&& 0 <= k <= u32::MAX
    &&& forall|j: int| 0 <= j < k ==> face_ok(data, j)
    &&& k < u32::MAX ==> !face_ok(data, k)
}

/// Each buffer contributed exactly its probed face count, in order.
pub open spec fn font_counts(buffers: Seq<Seq<u8>>, ks: Seq<int>) -> bool {
    &&& ks.len() == buffers.len()
    &&& forall|i: int| 0 <= i < ks.len() ==> faces_probed(buffers[i], #[trigger] ks[i])
}

/// The faces decoded out of one buffer: the face at each index below the
/// probed count, in index order.
pub open spec fn face_seq(data: Seq<u8>, k: int) -> Seq<typst::text::Font> {
    Seq::new(k as nat, |j: int| font_of(data, j))
}

/// The whole font collection a list of buffers decodes to, given each
/// buffer's probed face count: every buffer's faces, in buffer order and
/// then index-within-buffer order.
pub open spec fn fonts_flat(buffers: Seq<Seq<u8>>, ks: Seq<int>) -> Seq<typst::text::Font>
    decreases buffers.len(),
{
    if buffers.len() == 0 || ks.len() == 0 {
        Seq::empty()
    } else {
        fonts_flat(buffers.drop_last(), ks.drop_last()) + face_seq(buffers.last(), ks.last())
    }
}

// ---------------------------------------------------------------------------
// The adapter.
// ---------------------------------------------------------------------------
/// The write-once world snapshot handed to the engine for one compilation.
pub struct DoocWorld {
    library: typst::Library,
    book: typst::text::FontBook,
    fonts: Vec<typst::text::Font>,
    source: typst::syntax::Source,
    main_id: typst::syntax::FileId,
    today_ymd: (i32, u8, u8),
    files: Vec<(String, typst::foundations::Bytes)>,
}

impl DoocWorld {
    /// The virtual file table as a map from root-relative path to byte
    /// content.
    pub closed spec fn files_view(&self) -> Map<Seq<char>, Seq<u8>> {
        table_view(stored_views(self.files@))
    }

    /// The identifier of the one main source.
    pub closed spec fn spec_main(&self) -> typst::syntax::FileId {
        self.main_id
    }

    /// The main source.
    pub closed spec fn spec_source(&self) -> typst::syntax::Source {
        self.source
    }

    /// The font collection, in decode order.
    pub closed spec fn spec_fonts(&self) -> Seq<typst::text::Font> {
        self.fonts@
    }

    /// The standard-library configuration built at construction.
    pub closed spec fn spec_library(&self) -> typst::Library {
        self.library
    }

    /// The font-book derived from the font collection at construction.
    pub closed spec fn spec_book(&self) -> typst::text::FontBook {
        self.book
    }

    /// The frozen date captured at construction, as year, month and day.
    pub closed spec fn spec_today(&self) -> (i32, u8, u8) {
        self.today_ymd
    }

    /// What construction promises: the snapshot holds the given source
    /// text under the identifier the main query reports, exposes exactly
    /// the given named inputs through its library, denotes exactly the
    /// given file table, and holds every face the font buffers decode to,
    /// in buffer order and then index-within-buffer order, with the
    /// font-book derived from exactly that collection.
    pub open spec fn built_from(
        &self,
        source: Seq<char>,
        inputs: Seq<(Seq<char>, typst::foundations::Value)>,
        files: Seq<(Seq<char>, Seq<u8>)>,
        fonts: Seq<Seq<u8>>,
    ) -> bool {
        &&& source_text(self.spec_source()) == source
        &&& self.spec_main() == source_id_of(self.spec_source())
        &&& dict_entries(library_inputs(self.spec_library())) == table_view(inputs)
        &&& self.files_view() == table_view(files)
        &&& exists|ks: Seq<int>|
            #[trigger] font_counts(fonts, ks) && self.spec_fonts() == fonts_flat(fonts, ks)
        &&& self.spec_book() == book_of(self.spec_fonts())
        &&& 1 <= self.spec_today().1 <= 12
        &&& 1 <= self.spec_today().2 <= 31
    }

    /// Exactly how a source request for `path`, made under the file
    /// identifier `id`, must be answered from the file table: the decoded
    /// text of the entry, keyed by the requested id, when the entry
    /// exists and is valid UTF-8; the invalid-encoding error when it
    /// exists and is not; and a not-found error carrying the attempted
    /// path otherwise.
    pub open spec fn source_resolution(
        &self,
        id: typst::syntax::FileId,
        path: Seq<char>,
        r: Result<typst::syntax::Source, ResolveError>,
    ) -> bool {
        match r {
            Result::Ok(s) => {
                &&& self.files_view().contains_key(path)
                &&& vstd::utf8::valid_utf8(self.files_view()[path])
                &&& source_text(s) == vstd::utf8::decode_utf8(self.files_view()[path])
                &&& source_id_of(s) == id
            },
            Result::Err(ResolveError::NotFound(p)) => {
                &&& p@ == path
                &&& !self.files_view().contains_key(path)
            },
            Result::Err(ResolveError::InvalidUtf8) => {
                &&& self.files_view().contains_key(path)
                &&& !vstd::utf8::valid_utf8(self.files_view()[path])
            },
        }
    }

    /// Exactly how a raw-bytes request for `path` must be answered from
    /// the file table: the stored bytes when the entry exists, and a
    /// not-found error carrying the attempted path otherwise.
    pub open spec fn file_resolution(
        &self,
        path: Seq<char>,
        r: Result<typst::foundations::Bytes, ResolveError>,
    ) -> bool {
        match r {
            Result::Ok(b) => {
                &&& self.files_view().contains_key(path)
                &&& bytes_content(b) == self.files_view()[path]
            },
            Result::Err(ResolveError::NotFound(p)) => {
                &&& p@ == path
                &&& !self.files_view().contains_key(path)
            },
            Result::Err(ResolveError::InvalidUtf8) => false,
        }
    }
}

// ---------------------------------------------------------------------------
// Lemmas about the file-table model.
// ---------------------------------------------------------------------------
proof fn lemma_table_view_match<V>(entries: Seq<(Seq<char>, V)>, k: Seq<char>, i: int)
    requires
        0 <= i < entries.len(),
        entries[i].0 == k,
        forall|j: int| i < j < entries.len() ==> entries[j].0 != k,
    ensures
        table_view(entries).contains_key(k),
        table_view(entries)[k] == entries[i].1,
    decreases entries.len(),
{
    if i == entries.len() - 1 {
    } else {
        lemma_table_view_match(entries.drop_last(), k, i);
    }
}

proof fn lemma_table_view_no_match<V>(entries: Seq<(Seq<char>, V)>, k: Seq<char>)
    requires
        forall|j: int| 0 <= j < entries.len() ==> entries[j].0 != k,
    ensures
        !table_view(entries).contains_key(k),
    decreases entries.len(),
{
    if entries.len() > 0 {
        lemma_table_view_no_match(entries.drop_last(), k);
    }
}

/// Looks a path up in the stored file table. The last entry under the
/// path wins, matching what `table_view` denotes.
fn lookup(files: &Vec<(String, typst::foundations::Bytes)>, path: &String) -> (r: Option<usize>)
    ensures
        match r {
            Some(i) => {
                &&& i < files@.len()
                &&& table_view(stored_views(files@)).contains_key(path@)
                &&& table_view(stored_views(files@))[path@] == bytes_content(files@[i as int].1)
            },
            None => !table_view(stored_views(files@)).contains_key(path@),
        },
{
    let mut i: usize = files.len();
    while i > 0
        invariant
            i <= files@.len(),
            forall|j: int| i <= j < files@.len() ==> stored_views(files@)[j].0 != path@,
        decreases i,
    {
        i = i - 1;
        if files[i].0 == *path {
            proof {
                lemma_table_view_match(stored_views(files@), path@, i as int);
            }
            return Some(i);
        }
    }
    proof {
        lemma_table_view_no_match(stored_views(files@), path@);
    }
    None
}

// ---------------------------------------------------------------------------
// The engine's queries, as read-only projections of the snapshot.
// ---------------------------------------------------------------------------
impl DoocWorld {
    /// Answers the engine's library query.
    pub fn library(&self) -> (r: &typst::Library)
        ensures
            *r == self.spec_library(),
    {
        &self.library
    }

    /// Answers the engine's font-book query.
    pub fn book(&self) -> (r: &typst::text::FontBook)
        ensures
            *r == self.spec_book(),
    {
        &self.book
    }

    /// Answers the engine's main-file query: the identifier of the one
    /// document source.
    pub fn main(&self) -> (r: typst::syntax::FileId)
        ensures
            r == self.spec_main(),
    {
        engine::file_id_copy(&self.main_id)
    }

    /// Resolves a source request for an already-derived root-relative
    /// path against the virtual file table.
    pub fn resolve_source_at(&self, id: &typst::syntax::FileId, path: String) -> (r: Result<
        typst::syntax::Source,
        ResolveError,
    >)
        ensures
            self.source_resolution(*id, path@, r),
    {
        match lookup(&self.files, &path) {
            Some(i) => {
                let data = engine::bytes_to_vec(&self.files[i].1);
                match engine::utf8_decode(data) {
                    Some(text) => Ok(engine::source_new(id, text)),
                    None => Err(ResolveError::InvalidUtf8),
                }
            },
            None => Err(ResolveError::NotFound(path)),
        }
    }

    /// Answers the engine's source query: the main source for the main
    /// identifier, and otherwise the file-table entry under the path the
    /// engine derives from the identifier, decoded as UTF-8 text.
    pub fn source(&self, id: typst::syntax::FileId) -> (r: Result<
        typst::syntax::Source,
        ResolveError,
    >)
        ensures
            id == self.spec_main() ==> (r matches Result::Ok(s) && s == self.spec_source()),
            id != self.spec_main() ==> self.source_resolution(id, path_of(id), r),
    {
        if engine::file_id_eq(&id, &self.main_id) {
            Ok(engine::source_clone(&self.source))
        } else {
            let path = engine::rootless_path(&id);
            self.resolve_source_at(&id, path)
        }
    }

    /// Resolves a raw-bytes request for an already-derived root-relative
    /// path against the virtual file table.
    pub fn resolve_file_at(&self, path: String) -> (r: Result<
        typst::foundations::Bytes,
        ResolveError,
    >)
        ensures
            self.file_resolution(path@, r),
    {
        match lookup(&self.files, &path) {
            Some(i) => Ok(engine::bytes_clone(&self.files[i].1)),
            None => Err(ResolveError::NotFound(path)),
        }
    }

    /// Answers the engine's file query: the file-table entry under the
    /// path the engine derives from the identifier, as raw bytes.
    pub fn file(&self, id: typst::syntax::FileId) -> (r: Result<
        typst::foundations::Bytes,
        ResolveError,
    >)
        ensures
            self.file_resolution(path_of(id), r),
    {
        let path = engine::rootless_path(&id);
        self.resolve_file_at(path)
    }

    /// Answers the engine's font query: the font at that position of the
    /// collection, or nothing when the index is out of range — never an
    /// error.
    pub fn font(&self, index: usize) -> (r: Option<typst::text::Font>)
        ensures
            r == (if index < self.spec_fonts().len() {
                Some(self.spec_fonts()[index as int])
            } else {
                None::<typst::text::Font>
            }),
    {
        if index < self.fonts.len() {
            Some(engine::font_clone(&self.fonts[index]))
        } else {
            None
        }
    }

    /// Answers the engine's today query: the frozen date captured at
    /// construction, whatever offset is requested — the offset is
    /// accepted but not honoured.
    pub fn today(&self, offset: Option<i64>) -> (r: Option<(i32, u8, u8)>)
        ensures
            r == Some(self.spec_today()),
    {
        let _unused = offset;
        Some(self.today_ymd)
    }
}

// ---------------------------------------------------------------------------
// Construction.
// ---------------------------------------------------------------------------
/// Builds the engine dictionary holding the named inputs verbatim: one
/// entry per key with the identical tagged value, a later duplicate key
/// overwriting an earlier one.
pub fn build_inputs(inputs: Vec<(String, typst::foundations::Value)>) -> (d:
    typst::foundations::Dict)
    ensures
        dict_entries(d) == table_view(input_views(inputs@)),
{
    let ghost orig = inputs@;
    let mut inputs = inputs;
    let mut d = engine::dict_new();
    let ghost mut done: int = 0;
    while inputs.len() > 0
        invariant
            done + inputs@.len() == orig.len(),
            0 <= done,
            inputs@ =~= orig.skip(done),
            dict_entries(d) == table_view(input_views(orig.take(done))),
        decreases inputs@.len(),
    {
        let (key, value) = inputs.remove(0);
        proof {
            assert((key, value) == orig[done]);
        }
        engine::dict_insert(&mut d, key, value);
        proof {
            assert(input_views(orig.take(done + 1)).drop_last() =~= input_views(orig.take(done)));
            assert(input_views(orig.take(done + 1)).last() == (orig[done].0@, orig[done].1));
            done = done + 1;
            assert(inputs@ =~= orig.skip(done));
        }
    }
    proof {
        assert(orig.take(orig.len() as int) =~= orig);
        assert(input_views(orig.take(orig.len() as int)) == input_views(orig));
    }
    d
}

/// Wraps each supplied file in the engine's byte-buffer type, keeping the
/// filename and the order of the entries.
fn convert_files(files: Vec<(String, Vec<u8>)>) -> (out: Vec<(String, typst::foundations::Bytes)>)
    ensures
        stored_views(out@) == entry_views(files@),
{
    let ghost orig = files@;
    let mut files = files;
    let mut out: Vec<(String, typst::foundations::Bytes)> = Vec::new();
    while files.len() > 0
        invariant
            files@ =~= orig.skip(out@.len() as int),
            out@.len() + files@.len() == orig.len(),
            forall|j: int|
                #![auto]
                0 <= j < out@.len() ==> out@[j].0@ == orig[j].0@ && bytes_content(out@[j].1)
                    == orig[j].1@,
        decreases files@.len(),
    {
        let ghost done = out@.len() as int;
        let (name, data) = files.remove(0);
        proof {
            assert((name, data) == orig[done]);
        }
        let buffer = engine::bytes_new(data);
        out.push((name, buffer));
        proof {
            assert(files@ =~= orig.skip(done + 1));
        }
    }
    proof {
        assert forall|i: int| 0 <= i < orig.len() implies stored_views(out@)[i] == entry_views(
            orig,
        )[i] by {
            assert(stored_views(out@)[i] == (out@[i].0@, bytes_content(out@[i].1)));
            assert(entry_views(orig)[i] == (orig[i].0@, orig[i].1@));
        }
        assert(stored_views(out@) =~= entry_views(orig));
    }
    out
}

/// Decodes the faces of one buffer at the indices 0, 1, 2, ... until a
/// decode fails, appending every face found in index order; returns how
/// many there were.
fn probe_buffer(buffer: &typst::foundations::Bytes, fonts: &mut Vec<typst::text::Font>) -> (k: u32)
    ensures
        faces_probed(bytes_content(*buffer), k as int),
        final(fonts)@ == old(fonts)@ + face_seq(bytes_content(*buffer), k as int),
{
    let mut index: u32 = 0;
    proof {
        assert(fonts@ =~= old(fonts)@ + face_seq(bytes_content(*buffer), 0));
    }
    loop
        invariant
            index <= u32::MAX,
            forall|j: int| 0 <= j < index ==> face_ok(bytes_content(*buffer), j),
            fonts@ == old(fonts)@ + face_seq(bytes_content(*buffer), index as int),
        ensures
            faces_probed(bytes_content(*buffer), index as int),
            fonts@ == old(fonts)@ + face_seq(bytes_content(*buffer), index as int),
        decreases u32::MAX - index,
    {
        if index == u32::MAX {
            break ;
        }
        match engine::font_probe(buffer, index) {
            Some(font) => {
                proof {
                    assert(face_seq(bytes_content(*buffer), index + 1 as int) =~= face_seq(
                        bytes_content(*buffer),
                        index as int,
                    ).push(font));
                    assert(old(fonts)@ + face_seq(bytes_content(*buffer), index + 1 as int) =~= (
                    old(fonts)@ + face_seq(bytes_content(*buffer), index as int)).push(font));
                }
                fonts.push(font);
                index = index + 1;
            },
            None => {
                break ;
            },
        }
    }
    index
}

/// Decodes every face of every buffer, eagerly, in buffer order and then
/// index-within-buffer order.
pub fn load_fonts(font_data: Vec<Vec<u8>>) -> (fonts: Vec<typst::text::Font>)
    ensures
        exists|ks: Seq<int>|
            #[trigger] font_counts(font_views(font_data@), ks) && fonts@ == fonts_flat(
                font_views(font_data@),
                ks,
            ),
{
    let ghost orig = font_data@;
    let mut font_data = font_data;
    let mut fonts: Vec<typst::text::Font> = Vec::new();
    let ghost mut ks: Seq<int> = Seq::empty();
    while font_data.len() > 0
        invariant
            ks.len() + font_data@.len() == orig.len(),
            font_data@ =~= orig.skip(ks.len() as int),
            forall|i: int| 0 <= i < ks.len() ==> faces_probed(orig[i]@, #[trigger] ks[i]),
            fonts@ == fonts_flat(font_views(orig.take(ks.len() as int)), ks),
        decreases font_data@.len(),
    {
        let ghost done = ks.len() as int;
        let ghost ks0 = ks;
        let ghost fonts0 = fonts@;
        let data = font_data.remove(0);
        proof {
            assert(data == orig[done]);
        }
        let buffer = engine::bytes_new(data);
        let k = probe_buffer(&buffer, &mut fonts);
        proof {
            ks = ks.push(k as int);
            assert(faces_probed(orig[done]@, ks[done]));
            assert(font_views(orig.take(done + 1)).drop_last() =~= font_views(orig.take(done)));
            assert(ks.drop_last() =~= ks0);
            assert(font_views(orig.take(done + 1)).last() == orig[done]@);
            assert(fonts_flat(font_views(orig.take(done + 1)), ks) == fonts_flat(
                font_views(orig.take(done)),
                ks0,
            ) + face_seq(orig[done]@, k as int));
            assert(fonts@ == fonts0 + face_seq(orig[done]@, k as int));
            assert(font_data@ =~= orig.skip(done + 1));
        }
    }
    proof {
        assert(orig.take(orig.len() as int) =~= orig);
        assert(font_views(orig).len() == ks.len());
        assert forall|i: int| 0 <= i < ks.len() implies faces_probed(
            font_views(orig)[i],
            #[trigger] ks[i],
        ) by {
            assert(font_views(orig)[i] == orig[i]@);
        }
        assert(font_counts(font_views(orig), ks));
        assert(fonts@ == fonts_flat(font_views(orig), ks));
    }
    fonts
}

impl DoocWorld {
    /// Builds the fully-initialized, immutable adapter from the four raw
    /// inputs: the document source text, the named input values, the
    /// virtual file table and the raw font binaries.
    pub fn new(
        source_code: String,
        font_data: Vec<Vec<u8>>,
        inputs: Vec<(String, typst::foundations::Value)>,
        files: Vec<(String, Vec<u8>)>,
    ) -> (w: DoocWorld)
        ensures
            w.built_from(
                source_code@,
                input_views(inputs@),
                entry_views(files@),
                font_views(font_data@),
            ),
    {
        let dict = build_inputs(inputs);
        let library = engine::library_with_inputs(dict);
        let stored = convert_files(files);
        let fonts = load_fonts(font_data);
        let book = engine::font_book(&fonts);
        let source = engine::source_detached(source_code);
        let main_id = engine::source_id(&source);
        let today_ymd = engine::capture_today_ymd();
        DoocWorld { library, book, fonts, source, main_id, today_ymd, files: stored }
    }
}

// ---------------------------------------------------------------------------
// Laws.
// ---------------------------------------------------------------------------
/// A raw-bytes request for a path absent from the file table is answered
/// with the not-found error carrying exactly the attempted path — never
/// with bytes.
pub proof fn lemma_missing_file_reported(
    w: &DoocWorld,
    path: Seq<char>,
    r: Result<typst::foundations::Bytes, ResolveError>,
)
    requires
        !w.files_view().contains_key(path),
        w.file_resolution(path, r),
    ensures
        r matches Result::Err(ResolveError::NotFound(p)) && p@ == path,
{
}

/// A source request for a path absent from the file table is answered
/// with the not-found error carrying exactly the attempted path — never
/// with a source.
pub proof fn lemma_missing_source_reported(
    w: &DoocWorld,
    id: typst::syntax::FileId,
    path: Seq<char>,
    r: Result<typst::syntax::Source, ResolveError>,
)
    requires
        !w.files_view().contains_key(path),
        w.source_resolution(id, path, r),
    ensures
        r matches Result::Err(ResolveError::NotFound(p)) && p@ == path,
{
}

/// A file whose bytes are not a valid UTF-8 encoding, requested as a text
/// source, is answered with the invalid-encoding error — never with a
/// truncated or corrupted text.
pub proof fn lemma_invalid_utf8_reported(
    w: &DoocWorld,
    id: typst::syntax::FileId,
    path: Seq<char>,
    r: Result<typst::syntax::Source, ResolveError>,
)
    requires
        w.files_view().contains_key(path),
        !vstd::utf8::valid_utf8(w.files_view()[path]),
        w.source_resolution(id, path, r),
    ensures
        r matches Result::Err(e) && e matches ResolveError::InvalidUtf8,
{
}

/// The number of faces probed out of a buffer is unique: however often a
/// buffer is decoded, the same count comes out.
pub proof fn lemma_faces_probed_unique(data: Seq<u8>, k1: int, k2: int)
    requires
        faces_probed(data, k1),
        faces_probed(data, k2),
    ensures
        k1 == k2,
{
    if k1 < k2 {
        assert(face_ok(data, k1));
    }
    if k2 < k1 {
        assert(face_ok(data, k2));
    }
}

/// A buffer holding exactly two decodable faces — a two-face collection —
/// contributes exactly two fonts.
pub proof fn lemma_two_face_collection(data: Seq<u8>, k: int)
    requires
        face_ok(data, 0),
        face_ok(data, 1),
        !face_ok(data, 2),
        faces_probed(data, k),
    ensures
        k == 2,
{
    assert(faces_probed(data, 2));
    lemma_faces_probed_unique(data, k, 2);
}

/// The per-buffer face counts of a whole font list are unique.
pub proof fn lemma_font_counts_unique(buffers: Seq<Seq<u8>>, ks1: Seq<int>, ks2: Seq<int>)
    requires
        font_counts(buffers, ks1),
        font_counts(buffers, ks2),
    ensures
        ks1 == ks2,
{
    assert forall|i: int| 0 <= i < ks1.len() implies ks1[i] == #[trigger] ks2[i] by {
        lemma_faces_probed_unique(buffers[i], ks1[i], ks2[i]);
    }
    assert(ks1 =~= ks2);
}

/// Construction is deterministic: two snapshots built from the same
/// source text, the same named inputs, the same file table and the same
/// font buffers hold the same source text, expose the same input
/// dictionary, denote the same file table, and hold the same font
/// collection.
pub proof fn lemma_construction_deterministic(
    w1: &DoocWorld,
    w2: &DoocWorld,
    source: Seq<char>,
    inputs: Seq<(Seq<char>, typst::foundations::Value)>,
    files: Seq<(Seq<char>, Seq<u8>)>,
    fonts: Seq<Seq<u8>>,
)
    requires
        w1.built_from(source, inputs, files, fonts),
        w2.built_from(source, inputs, files, fonts),
    ensures
        source_text(w1.spec_source()) == source_text(w2.spec_source()),
        dict_entries(library_inputs(w1.spec_library())) == dict_entries(
            library_inputs(w2.spec_library()),
        ),
        w1.files_view() == w2.files_view(),
        w1.spec_fonts() == w2.spec_fonts(),
        w1.spec_book() == w2.spec_book(),
{
    let ks1 = choose|ks: Seq<int>|
        #[trigger] font_counts(fonts, ks) && w1.spec_fonts() == fonts_flat(fonts, ks);
    let ks2 = choose|ks: Seq<int>|
        #[trigger] font_counts(fonts, ks) && w2.spec_fonts() == fonts_flat(fonts, ks);
    lemma_font_counts_unique(fonts, ks1, ks2);
}

/// A snapshot built from one font buffer holding exactly two decodable
/// faces — a two-face collection — holds exactly those two faces, in
/// their order within the buffer.
pub proof fn lemma_two_face_collection_fonts(
    w: &DoocWorld,
    source: Seq<char>,
    inputs: Seq<(Seq<char>, typst::foundations::Value)>,
    files: Seq<(Seq<char>, Seq<u8>)>,
    data: Seq<u8>,
)
    requires
        w.built_from(source, inputs, files, seq![data]),
        face_ok(data, 0),
        face_ok(data, 1),
        !face_ok(data, 2),
    ensures
        w.spec_fonts() == seq![font_of(data, 0), font_of(data, 1)],
{
    let buffers: Seq<Seq<u8>> = seq![data];
    let ks = choose|ks: Seq<int>|
        #[trigger] font_counts(buffers, ks) && w.spec_fonts() == fonts_flat(buffers, ks);
    assert(faces_probed(buffers[0], ks[0]));
    lemma_two_face_collection(data, ks[0]);
    assert(buffers.drop_last() =~= Seq::<Seq<u8>>::empty());
    assert(fonts_flat(buffers.drop_last(), ks.drop_last()) == Seq::<typst::text::Font>::empty());
    assert(fonts_flat(buffers, ks) == Seq::<typst::text::Font>::empty() + face_seq(data, 2));
    assert(w.spec_fonts() =~= seq![font_of(data, 0), font_of(data, 1)]);
}

/// Resolution is a pure function of the file table: two snapshots that
/// denote the same file table answer any raw-bytes request for the same
/// path with the same outcome and, on success, the same content.
pub proof fn lemma_resolution_deterministic(
    w1: &DoocWorld,
    w2: &DoocWorld,
    path: Seq<char>,
    r1: Result<typst::foundations::Bytes, ResolveError>,
    r2: Result<typst::foundations::Bytes, ResolveError>,
)
    requires
        w1.files_view() == w2.files_view(),
        w1.file_resolution(path, r1),
        w2.file_resolution(path, r2),
    ensures
        r1 is Ok <==> r2 is Ok,
        r1 is Ok && r2 is Ok ==> bytes_content(r1->Ok_0) == bytes_content(r2->Ok_0),
{
}

/// Source resolution is a pure function of the file table too: two
/// snapshots that denote the same file table answer any source request
/// for the same path with the same outcome and, on success, the same
/// text.
/// The named inputs are delivered verbatim: after construction, the
/// library's input dictionary holds, under each supplied key, exactly the
/// value supplied with it — the last one, where a later entry repeats the
/// key.
pub proof fn lemma_input_delivered(
    w: &DoocWorld,
    source: Seq<char>,
    inputs: Seq<(Seq<char>, typst::foundations::Value)>,
    files: Seq<(Seq<char>, Seq<u8>)>,
    fonts: Seq<Seq<u8>>,
    i: int,
)
    requires
        w.built_from(source, inputs, files, fonts),
        0 <= i < inputs.len(),
        forall|j: int| i < j < inputs.len() ==> inputs[j].0 != inputs[i].0,
    ensures
        dict_entries(library_inputs(w.spec_library())).contains_key(inputs[i].0),
        dict_entries(library_inputs(w.spec_library()))[inputs[i].0] == inputs[i].1,
{
    lemma_table_view_match(inputs, inputs[i].0, i);
}

pub proof fn lemma_source_resolution_deterministic(
    w1: &DoocWorld,
    w2: &DoocWorld,
    id1: typst::syntax::FileId,
    id2: typst::syntax::FileId,
    path: Seq<char>,
    r1: Result<typst::syntax::Source, ResolveError>,
    r2: Result<typst::syntax::Source, ResolveError>,
)
    requires
        w1.files_view() == w2.files_view(),
        w1.source_resolution(id1, path, r1),
        w2.source_resolution(id2, path, r2),
    ensures
        r1 is Ok <==> r2 is Ok,
        r1 is Ok && r2 is Ok ==> source_text(r1->Ok_0) == source_text(r2->Ok_0),
{
}

} // verus!
