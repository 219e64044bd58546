//! End-to-end tests: the adapter driving the real typesetting engine and
//! the PDF exporter.

use std::path::PathBuf;

use dooc::ResolveError;
use dooc::world::DoocWorld;
use typst::Library;
use typst::World;
use typst::diag::FileError;
use typst::foundations::{Bytes, Datetime, Duration, Value};
use typst::syntax::{FileId, Source};
use typst::text::{Font, FontBook};
use typst::utils::LazyHash;

struct EngineWorld {
    world: DoocWorld,
    library: LazyHash<Library>,
    book: LazyHash<FontBook>,
}

impl EngineWorld {
    fn wrap(world: DoocWorld) -> Self {
        let library = LazyHash::new(world.library().clone());
        let book = LazyHash::new(world.book().clone());
        EngineWorld { world, library, book }
    }
}

fn to_file_error(e: ResolveError) -> FileError {
    match e {
        ResolveError::NotFound(p) => FileError::NotFound(PathBuf::from(p)),
        ResolveError::InvalidUtf8 => FileError::InvalidUtf8,
    }
}

impl World for EngineWorld {
    fn library(&self) -> &LazyHash<Library> {
        &self.library
    }

    fn book(&self) -> &LazyHash<FontBook> {
        &self.book
    }

    fn main(&self) -> FileId {
        self.world.main()
    }

    fn source(&self, id: FileId) -> Result<Source, FileError> {
        self.world.source(id).map_err(to_file_error)
    }

    fn file(&self, id: FileId) -> Result<Bytes, FileError> {
        self.world.file(id).map_err(to_file_error)
    }

    fn font(&self, index: usize) -> Option<Font> {
        self.world.font(index)
    }

    fn today(&self, offset: Option<Duration>) -> Option<Datetime> {
        let plain: Option<i64> = offset.map(|_| 0);
        self.world
            .today(plain)
            .and_then(|(y, m, d)| Datetime::from_ymd(y, m, d))
    }
}

fn compile(
    code: &str,
    inputs: Vec<(String, Value)>,
    files: Vec<(String, Vec<u8>)>,
    fonts: Vec<Vec<u8>>,
) -> Result<Vec<u8>, String> {
    let world = DoocWorld::new(code.to_string(), fonts, inputs, files);
    let shim = EngineWorld::wrap(world);
    match typst::compile(&shim).output {
        Ok(document) => {
            match typst_pdf::pdf(&document, &typst_pdf::PdfOptions::default()) {
                Ok(bytes) => Ok(bytes),
                Err(_) => Err(dooc::report::export_failure_message()),
            }
        }
        Err(errors) => {
            let msgs: Vec<String> = errors.iter().map(|e| e.message.to_string()).collect();
            Err(dooc::report::format_errors(&msgs))
        }
    }
}

fn bundled_fonts() -> Vec<Vec<u8>> {
    typst_assets::fonts().map(|f| f.to_vec()).collect()
}

#[test]
fn well_formed_document_yields_pdf_bytes() {
    let out = compile("Hello, world!", Vec::new(), Vec::new(), bundled_fonts()).unwrap();
    assert!(!out.is_empty());
    assert_eq!(&out[0..5], b"%PDF-");
}

#[test]
fn no_fonts_and_no_text_still_yields_pdf_bytes() {
    let out = compile("", Vec::new(), Vec::new(), Vec::new()).unwrap();
    assert!(!out.is_empty());
    assert_eq!(&out[0..5], b"%PDF-");
}

#[test]
fn missing_file_reference_reports_the_attempted_path() {
    let err = compile(
        "#image(\"missing.png\")",
        Vec::new(),
        Vec::new(),
        bundled_fonts(),
    )
    .unwrap_err();
    assert!(err.contains("missing.png"), "error was: {err}");
    assert!(err.starts_with("Error: "), "error was: {err}");
    assert!(err.ends_with('\n'), "error was: {err}");
}

#[test]
fn included_file_resolves_from_the_table() {
    let files = vec![("lib.typ".to_string(), b"#let seven = 7".to_vec())];
    let out = compile(
        "#include \"lib.typ\"",
        Vec::new(),
        files,
        Vec::new(),
    );
    assert!(out.is_ok(), "error was: {}", out.unwrap_err());
}

#[test]
fn invalid_utf8_include_reports_the_encoding() {
    let files = vec![("bad.typ".to_string(), vec![0xffu8, 0xfe, 0x00])];
    let err = compile("#include \"bad.typ\"", Vec::new(), files, Vec::new()).unwrap_err();
    assert!(err.to_lowercase().contains("utf-8"), "error was: {err}");
}

#[test]
fn syntax_error_reports_diagnostics_not_bytes() {
    let err = compile("#let = broken", Vec::new(), Vec::new(), Vec::new()).unwrap_err();
    assert!(err.starts_with("Error: "), "error was: {err}");
    assert!(err.ends_with('\n'), "error was: {err}");
}

#[test]
fn identical_inputs_compile_to_identical_bytes() {
    let make = || {
        compile(
            "#include \"lib.typ\"\nSame again.",
            Vec::new(),
            vec![("lib.typ".to_string(), b"#let ok = 1".to_vec())],
            bundled_fonts(),
        )
        .unwrap()
    };
    let first = make();
    let second = make();
    assert_eq!(first, second);
}

#[test]
fn integer_input_is_usable_in_arithmetic() {
    let inputs = vec![("year".to_string(), Value::Int(2025))];
    let ok = compile(
        "#assert(sys.inputs.year + 1 == 2026)",
        inputs,
        Vec::new(),
        Vec::new(),
    );
    assert!(ok.is_ok(), "error was: {}", ok.unwrap_err());
}

#[test]
fn integer_input_arithmetic_is_checked_not_textual() {
    let inputs = vec![("year".to_string(), Value::Int(2025))];
    let err = compile(
        "#assert(sys.inputs.year + 1 == 2027)",
        inputs,
        Vec::new(),
        Vec::new(),
    )
    .unwrap_err();
    assert!(err.starts_with("Error: "), "error was: {err}");
}
