//! The Windows helper's save files, read by the path rules of the platform
//! it runs on (where `\` separates folders on Windows only).
use vstd::prelude::*;
use crate::mister::scanner::{is_save_extension, mister_save_extensions};
use crate::text::{lower, owned};

verus! {

/// The file stem of a path by `std::path::Path::file_stem`, where it is
/// text. What it is depends on the platform's path rules (which characters
/// separate folders, which prefixes a path may have), so nothing is stated
/// of it.
#[verifier::external_body]
fn platform_file_stem(path: &str) -> (r: Option<String>) {
    std::path::Path::new(path).file_stem().and_then(|v| v.to_str()).map(|v| v.to_string())
}

/// The extension of a path by `std::path::Path::extension`, where it is
/// text. It depends on the platform's path rules, so nothing is stated of it.
#[verifier::external_body]
fn platform_file_extension(path: &str) -> (r: Option<String>) {
    std::path::Path::new(path).extension().and_then(|v| v.to_str()).map(|v| v.to_string())
}

/// A found stem, or `Unknown` where there is none.
pub fn stem_or_unknown_text(stem: Option<String>) -> (r: String)
    ensures
        r@ == match stem {
            Some(s) => s@,
            None => "Unknown"@,
        },
{
    match stem {
        Some(s) => s,
        None => owned("Unknown"),
    }
}

/// The stem a save is looked up by: its file stem by the platform's path
/// rules, or `Unknown`; see `stem_or_unknown_text`.
pub fn save_stem(path: &str) -> (r: String) {
    stem_or_unknown_text(platform_file_stem(path))
}

/// Whether an extension, found or not, marks a save file; see
/// `is_save_extension`.
pub fn save_extension_found(ext: Option<String>) -> (r: bool)
    ensures
        r == match ext {
            Some(e) => mister_save_extensions().contains(lower(e@)),
            None => false,
        },
{
    match ext {
        Some(e) => is_save_extension(e.as_str()),
        None => false,
    }
}

/// Whether a path names a save file: its extension, by the platform's path
/// rules, is a save extension in any ASCII case; see `save_extension_found`.
pub fn is_platform_save_file(path: &str) -> (r: bool) {
    save_extension_found(platform_file_extension(path))
}

} // verus!
