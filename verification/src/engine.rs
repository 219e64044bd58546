//! Trusted bindings to the typesetting engine and its companion crates.
//!
//! Every item here either declares an engine type so that it can stand in
//! signatures, or wraps a single engine call behind a contract. Nothing in
//! this module is verified; everything else in the crate is.

use vstd::prelude::*;

use chrono::Datelike;
use typst::LibraryExt;

verus! {

// ---------------------------------------------------------------------------
// Declarations of the engine types that run through the adapter.
// ---------------------------------------------------------------------------
/// A tagged value of the engine's value model (integer, string, ...).
#[verifier::external_type_specification]
#[verifier::external_body]
pub struct ExValue(typst::foundations::Value);

/// The engine's string-keyed dictionary of values.
#[verifier::external_type_specification]
#[verifier::external_body]
pub struct ExDict(typst::foundations::Dict);

/// The engine's reference-counted byte buffer.
#[verifier::external_type_specification]
#[verifier::external_body]
pub struct ExBytes(typst::foundations::Bytes);


/// The engine's standard-library configuration.
#[verifier::external_type_specification]
#[verifier::external_body]
pub struct ExLibrary(typst::Library);

/// A parsed source file of the engine.
#[verifier::external_type_specification]
#[verifier::external_body]
pub struct ExSource(typst::syntax::Source);

/// The engine's interned file identifier.
#[verifier::external_type_specification]
#[verifier::external_body]
pub struct ExFileId(typst::syntax::FileId);

/// A single decoded font face.
#[verifier::external_type_specification]
#[verifier::external_body]
pub struct ExFont(typst::text::Font);

/// The metadata index over a font collection.
#[verifier::external_type_specification]
#[verifier::external_body]
pub struct ExFontBook(typst::text::FontBook);

// ---------------------------------------------------------------------------
// Names for what the engine's functions return.
// ---------------------------------------------------------------------------
/// The byte content held by an engine byte buffer.
pub uninterp spec fn bytes_content(b: typst::foundations::Bytes) -> Seq<u8>;

/// The text held by an engine source file.
pub uninterp spec fn source_text(s: typst::syntax::Source) -> Seq<char>;

/// The file identifier an engine source file is keyed by.
pub uninterp spec fn source_id_of(s: typst::syntax::Source) -> typst::syntax::FileId;

/// The entries held by an engine dictionary, as a map from key to value.
pub uninterp spec fn dict_entries(d: typst::foundations::Dict) -> Map<
    Seq<char>,
    typst::foundations::Value,
>;

/// The input dictionary a library configuration was built with.
pub uninterp spec fn library_inputs(l: typst::Library) -> typst::foundations::Dict;

/// The root-relative rendering of a file identifier's virtual path. The
/// engine's id interner is append-only, so within one execution the
/// rendering is a pure function of the identifier.
pub uninterp spec fn path_of(id: typst::syntax::FileId) -> Seq<char>;

/// Whether `Font::new` decodes a face at this index of this buffer. The
/// outcome is a pure function of the bytes and the index.
pub uninterp spec fn face_ok(data: Seq<u8>, index: int) -> bool;

/// The face `Font::new` decodes at this index of this buffer; like the
/// success of the decode, it is a pure function of the bytes and the
/// index.
pub uninterp spec fn font_of(data: Seq<u8>, index: int) -> typst::text::Font;

/// The metadata index `FontBook::from_fonts` derives from a font list; a
/// pure function of the fonts.
pub uninterp spec fn book_of(fonts: Seq<typst::text::Font>) -> typst::text::FontBook;

// ---------------------------------------------------------------------------
// Wrappers, one per engine call the adapter's logic makes.
// ---------------------------------------------------------------------------
/// Relies on `Bytes::new`: the buffer holds exactly the given bytes.
#[verifier::external_body]
pub(crate) fn bytes_new(data: Vec<u8>) -> (r: typst::foundations::Bytes)
    ensures
        bytes_content(r) == data@,
{
    typst::foundations::Bytes::new(data)
}

/// Relies on `Bytes`'s derived `Clone`: a reference-count bump yielding the
/// same buffer.
#[verifier::external_body]
pub(crate) fn bytes_clone(b: &typst::foundations::Bytes) -> (r: typst::foundations::Bytes)
    ensures
        r == *b,
{
    b.clone()
}

/// Relies on `Bytes`'s deref to `[u8]` and `slice::to_vec`: copies the
/// buffer's content out.
#[verifier::external_body]
pub(crate) fn bytes_to_vec(b: &typst::foundations::Bytes) -> (r: Vec<u8>)
    ensures
        r@ == bytes_content(*b),
{
    b.as_slice().to_vec()
}

/// Relies on `String::from_utf8`: succeeds exactly when the bytes are a
/// valid UTF-8 encoding, and then returns their decoding, per vstd's model
/// of UTF-8.
#[verifier::external_body]
pub(crate) fn utf8_decode(data: Vec<u8>) -> (r: Option<String>)
    ensures
        r is Some <==> vstd::utf8::valid_utf8(data@),
        r matches Some(s) ==> s@ == vstd::utf8::decode_utf8(data@),
{
    String::from_utf8(data).ok()
}

/// Relies on `Source::detached`: a source holding the given text verbatim
/// under the engine's detached identifier — in this engine version the
/// interned project-root path `main.typ`, tied to no real filesystem
/// location. Panics only if the engine's per-process id or span space is
/// exhausted.
#[verifier::external_body]
pub(crate) fn source_detached(text: String) -> (r: typst::syntax::Source)
    ensures
        source_text(r) == text@,
{
    typst::syntax::Source::detached(text)
}

/// Relies on `Source::new`: a source keyed by the requested file identifier
/// holding the given text verbatim. Panics only if the engine's span space
/// is exhausted.
#[verifier::external_body]
pub(crate) fn source_new(id: &typst::syntax::FileId, text: String) -> (r: typst::syntax::Source)
    ensures
        source_text(r) == text@,
        source_id_of(r) == *id,
{
    typst::syntax::Source::new(*id, text)
}

/// Relies on `Source::id`: the identifier stored in the source when it
/// was created.
#[verifier::external_body]
pub(crate) fn source_id(s: &typst::syntax::Source) -> (r: typst::syntax::FileId)
    ensures
        r == source_id_of(*s),
{
    s.id()
}

/// Relies on `Source`'s derived `Clone`: a reference-count bump yielding
/// the same source.
#[verifier::external_body]
pub(crate) fn source_clone(s: &typst::syntax::Source) -> (r: typst::syntax::Source)
    ensures
        r == *s,
{
    s.clone()
}

/// Relies on `FileId`'s derived `PartialEq`: identifiers are interned, so
/// equality of the values is equality of the identifiers.
#[verifier::external_body]
pub(crate) fn file_id_eq(a: &typst::syntax::FileId, b: &typst::syntax::FileId) -> (r: bool)
    ensures
        r == (*a == *b),
{
    *a == *b
}

/// Relies on `FileId` being `Copy`.
#[verifier::external_body]
pub(crate) fn file_id_copy(id: &typst::syntax::FileId) -> (r: typst::syntax::FileId)
    ensures
        r == *id,
{
    *id
}

/// Relies on `RootedPath::vpath` and `VirtualPath::get_without_slash`: the
/// root-relative rendering of the identifier's virtual path, with no
/// leading slash. The rendering reads the engine's append-only id
/// interner, so for a given identifier it is fixed for the whole
/// execution.
#[verifier::external_body]
pub(crate) fn rootless_path(id: &typst::syntax::FileId) -> (r: String)
    ensures
        r@ == path_of(*id),
{
    id.vpath().get_without_slash().to_string()
}

/// Relies on `Font::new`: decodes the face at the given collection index
/// of the buffer; success is a function of the bytes and the index alone.
#[verifier::external_body]
pub(crate) fn font_probe(data: &typst::foundations::Bytes, index: u32) -> (r: Option<
    typst::text::Font,
>)
    ensures
        r is Some <==> face_ok(bytes_content(*data), index as int),
        r matches Some(f) ==> f == font_of(bytes_content(*data), index as int),
{
    typst::text::Font::new(data.clone(), index)
}

/// Relies on `Font`'s derived `Clone`: a reference-count bump yielding the
/// same font.
#[verifier::external_body]
pub(crate) fn font_clone(f: &typst::text::Font) -> (r: typst::text::Font)
    ensures
        r == *f,
{
    f.clone()
}

/// Relies on `FontBook::from_fonts`: the metadata index derived from the
/// given fonts, and from them alone.
#[verifier::external_body]
pub(crate) fn font_book(fonts: &Vec<typst::text::Font>) -> (r: typst::text::FontBook)
    ensures
        r == book_of(fonts@),
{
    typst::text::FontBook::from_fonts(fonts)
}

/// The empty key/value mapping, as `dict_entries` models it.
pub open spec fn no_entries() -> Map<Seq<char>, typst::foundations::Value> {
    Map::empty()
}

/// Relies on `Dict::new`: the empty dictionary.
#[verifier::external_body]
pub(crate) fn dict_new() -> (r: typst::foundations::Dict)
    ensures
        dict_entries(r) == no_entries(),
{
    typst::foundations::Dict::new()
}

/// Relies on `Dict::insert` (with `Str`'s `From<String>`): adds the given
/// value verbatim under the given key, replacing an earlier entry under
/// the same key.
#[verifier::external_body]
pub(crate) fn dict_insert(
    d: &mut typst::foundations::Dict,
    key: String,
    value: typst::foundations::Value,
)
    ensures
        dict_entries(*final(d)) == dict_entries(*old(d)).insert(key@, value),
{
    d.insert(key.into(), value);
}

/// Relies on `Library::builder` (via `LibraryExt`), `with_inputs` and
/// `build`: the standard library configured so that exactly the given
/// dictionary is exposed to documents as the read-only input dictionary.
#[verifier::external_body]
pub(crate) fn library_with_inputs(inputs: typst::foundations::Dict) -> (r: typst::Library)
    ensures
        library_inputs(r) == inputs,
{
    typst::Library::builder().with_inputs(inputs).build()
}

/// Relies on `chrono::Local::now` and `chrono::Datelike`'s accessors:
/// reads the local wall clock once and keeps only its calendar date, as
/// plain year, month and day. The result depends on the clock, so only
/// the documented ranges of `Datelike`'s month and day are promised.
#[verifier::external_body]
pub(crate) fn capture_today_ymd() -> (r: (i32, u8, u8))
    ensures
        1 <= r.1 <= 12,
        1 <= r.2 <= 31,
{
    let now = chrono::Local::now();
    (now.year(), now.month() as u8, now.day() as u8)
}

} // verus!
