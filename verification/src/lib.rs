use vstd::prelude::*;

pub mod engine;
pub mod report;
pub mod world;

verus! {

/// An error raised while resolving a virtual file or source text.
///
/// `NotFound` carries the root-relative path that was looked up and missed;
/// `InvalidUtf8` marks a file whose bytes were requested as text but do not
/// form a valid UTF-8 encoding.
#[derive(Debug)]
pub enum ResolveError {
    NotFound(String),
    InvalidUtf8,
}

} // verus!
