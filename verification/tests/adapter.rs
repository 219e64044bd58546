//! Unit tests of the world adapter's queries and construction.

use dooc::ResolveError;
use dooc::report::{export_failure_message, format_errors};
use dooc::world::DoocWorld;
use typst::foundations::Value;
use typst::syntax::{RootedPath, VirtualPath, VirtualRoot};

fn empty_world(code: &str) -> DoocWorld {
    DoocWorld::new(code.to_string(), Vec::new(), Vec::new(), Vec::new())
}

#[test]
fn format_errors_builds_one_labelled_line_per_message() {
    let msgs = vec!["unknown variable: x".to_string(), "cannot add".to_string()];
    assert_eq!(
        format_errors(&msgs),
        "Error: unknown variable: x\nError: cannot add\n"
    );
}

#[test]
fn format_errors_of_nothing_is_empty() {
    assert_eq!(format_errors(&Vec::new()), "");
}

#[test]
fn export_failure_message_is_fixed() {
    assert_eq!(export_failure_message(), "Failed to export PDF internally");
}

#[test]
fn file_query_returns_stored_bytes() {
    let files = vec![("images/pic.png".to_string(), vec![1u8, 2, 3])];
    let w = DoocWorld::new(String::new(), Vec::new(), Vec::new(), files);
    let bytes = w.resolve_file_at("images/pic.png".to_string()).unwrap();
    assert_eq!(bytes.as_slice(), &[1u8, 2, 3]);
}

#[test]
fn file_query_for_absent_path_reports_the_path() {
    let files = vec![("a.png".to_string(), vec![0u8])];
    let w = DoocWorld::new(String::new(), Vec::new(), Vec::new(), files);
    let err = w.resolve_file_at("b.png".to_string()).unwrap_err();
    assert!(matches!(err, ResolveError::NotFound(p) if p == "b.png"));
}

#[test]
fn later_file_entry_overwrites_earlier_one() {
    let files = vec![
        ("data.bin".to_string(), vec![1u8]),
        ("data.bin".to_string(), vec![2u8]),
    ];
    let w = DoocWorld::new(String::new(), Vec::new(), Vec::new(), files);
    let bytes = w.resolve_file_at("data.bin".to_string()).unwrap();
    assert_eq!(bytes.as_slice(), &[2u8]);
}

#[test]
fn source_query_decodes_utf8_text() {
    let files = vec![("note.typ".to_string(), "h\u{e9}llo".as_bytes().to_vec())];
    let w = DoocWorld::new(String::new(), Vec::new(), Vec::new(), files);
    let id = w.main();
    let source = w.resolve_source_at(&id, "note.typ".to_string()).unwrap();
    assert_eq!(source.text(), "h\u{e9}llo");
}

#[test]
fn source_query_rejects_invalid_utf8() {
    let files = vec![("bad.typ".to_string(), vec![0xffu8, 0xfe, 0x00])];
    let w = DoocWorld::new(String::new(), Vec::new(), Vec::new(), files);
    let id = w.main();
    let err = w.resolve_source_at(&id, "bad.typ".to_string()).unwrap_err();
    assert!(matches!(err, ResolveError::InvalidUtf8));
}

#[test]
fn source_query_for_absent_path_reports_the_path() {
    let w = empty_world("= Title");
    let id = w.main();
    let err = w.resolve_source_at(&id, "gone.typ".to_string()).unwrap_err();
    assert!(matches!(err, ResolveError::NotFound(p) if p == "gone.typ"));
}

#[test]
fn main_source_is_returned_for_the_main_id() {
    let w = empty_world("= Title\nBody");
    let source = w.source(w.main()).unwrap();
    assert_eq!(source.text(), "= Title\nBody");
    assert_eq!(source.id(), w.main());
}

#[test]
fn other_id_resolves_through_the_file_table() {
    let files = vec![("extra.typ".to_string(), b"#let x = 1".to_vec())];
    let w = DoocWorld::new("main".to_string(), Vec::new(), Vec::new(), files);
    let id = RootedPath::new(VirtualRoot::Project, VirtualPath::new("extra.typ").unwrap())
        .intern();
    let source = w.source(id).unwrap();
    assert_eq!(source.text(), "#let x = 1");
    assert_eq!(source.id(), id);
    let missing = RootedPath::new(VirtualRoot::Project, VirtualPath::new("no.typ").unwrap())
        .intern();
    let err = w.source(missing).unwrap_err();
    assert!(matches!(err, ResolveError::NotFound(p) if p == "no.typ"));
}

#[test]
fn fonts_load_in_buffer_order() {
    let all: Vec<Vec<u8>> = typst_assets::fonts().map(|f| f.to_vec()).collect();
    assert!(all.len() >= 2);
    let first = all[0].clone();
    let second = all[1].clone();
    let w = DoocWorld::new(
        String::new(),
        vec![first.clone(), second.clone()],
        Vec::new(),
        Vec::new(),
    );
    let f0 = w.font(0).unwrap();
    let f1 = w.font(1).unwrap();
    assert_eq!(f0.data().as_slice(), first.as_slice());
    assert_eq!(f1.data().as_slice(), second.as_slice());
    assert_eq!(f0.index(), 0);
    assert!(w.font(2).is_none());
}

/// Packs standalone sfnt font files into one font-collection (ttc)
/// buffer, rebasing each face's table offsets to the collection file.
fn build_collection(faces: &[&[u8]]) -> Vec<u8> {
    let n = faces.len() as u32;
    let header_len = 12 + 4 * faces.len();
    let mut out = Vec::new();
    out.extend_from_slice(b"ttcf");
    out.extend_from_slice(&0x0001_0000u32.to_be_bytes());
    out.extend_from_slice(&n.to_be_bytes());
    let mut offsets = Vec::new();
    let mut pos = header_len;
    for f in faces {
        offsets.push(pos as u32);
        pos += f.len();
    }
    for o in &offsets {
        out.extend_from_slice(&o.to_be_bytes());
    }
    for (i, f) in faces.iter().enumerate() {
        let base = offsets[i];
        let mut data = f.to_vec();
        let num_tables = u16::from_be_bytes([data[4], data[5]]) as usize;
        for t in 0..num_tables {
            let rec = 12 + 16 * t;
            let off = u32::from_be_bytes([
                data[rec + 8],
                data[rec + 9],
                data[rec + 10],
                data[rec + 11],
            ]);
            data[rec + 8..rec + 12].copy_from_slice(&(off + base).to_be_bytes());
        }
        out.extend_from_slice(&data);
    }
    out
}

#[test]
fn two_face_collection_yields_exactly_two_fonts_in_order() {
    let all: Vec<Vec<u8>> = typst_assets::fonts().map(|f| f.to_vec()).collect();
    let ttc = build_collection(&[all[0].as_slice(), all[1].as_slice()]);
    let w = DoocWorld::new(String::new(), vec![ttc.clone()], Vec::new(), Vec::new());
    let f0 = w.font(0).unwrap();
    let f1 = w.font(1).unwrap();
    assert!(w.font(2).is_none());
    assert_eq!(f0.data().as_slice(), ttc.as_slice());
    assert_eq!(f0.index(), 0);
    assert_eq!(f1.index(), 1);
    assert_ne!(f0.info().variant, f1.info().variant);
}

#[test]
fn undecodable_font_buffer_contributes_nothing() {
    let w = DoocWorld::new(String::new(), vec![vec![9u8, 9, 9]], Vec::new(), Vec::new());
    assert!(w.font(0).is_none());
}

#[test]
fn font_query_out_of_range_is_absence() {
    let w = empty_world("");
    assert!(w.font(0).is_none());
    assert!(w.font(usize::MAX).is_none());
}

#[test]
fn today_is_frozen_and_ignores_the_offset() {
    let w = empty_world("");
    let plain = w.today(None).unwrap();
    assert_eq!(w.today(Some(3600)), Some(plain));
    assert_eq!(w.today(None), Some(plain));
    let (_, month, day) = plain;
    assert!((1..=12).contains(&month));
    assert!((1..=31).contains(&day));
}

#[test]
fn library_holds_the_named_inputs() {
    let inputs = vec![("title".to_string(), Value::Str("Report".into()))];
    let w = DoocWorld::new(String::new(), Vec::new(), inputs, Vec::new());
    // The input dictionary is exposed to documents under `sys.inputs`.
    let sys = w.library().global.scope().get("sys").unwrap().read();
    let module = match sys {
        Value::Module(m) => m,
        _ => panic!("sys is not a module"),
    };
    let inputs_value = module.scope().get("inputs").unwrap().read();
    let inner = match inputs_value {
        Value::Dict(d) => d,
        _ => panic!("sys.inputs is not a dictionary"),
    };
    assert_eq!(inner.get("title").unwrap(), &Value::Str("Report".into()));
}
