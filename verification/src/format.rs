//! Which raster format a decoded image is written in: decided by the
//! destination path's extension alone, never by any file's contents.

use vstd::prelude::*;
use crate::error::QpError;

verus! {

/// The raster formats a decoded image can be written in.
#[derive(Clone, Copy, Debug, PartialEq, Eq, Structural)]
pub enum OutputFormat {
    Png,
    Jpeg,
    Bmp,
    Gif,
    Tiff,
    Ico,
    Tga,
    WebP,
}

/// The format a lower-case extension names, if it names one.
pub open spec fn format_of_extension(ext: Seq<char>) -> Option<OutputFormat> {
    if ext == "png"@ {
        Some(OutputFormat::Png)
    } else if ext == "jpg"@ || ext == "jpeg"@ {
        Some(OutputFormat::Jpeg)
    } else if ext == "bmp"@ {
        Some(OutputFormat::Bmp)
    } else if ext == "gif"@ {
        Some(OutputFormat::Gif)
    } else if ext == "tiff"@ {
        Some(OutputFormat::Tiff)
    } else if ext == "ico"@ {
        Some(OutputFormat::Ico)
    } else if ext == "tga"@ {
        Some(OutputFormat::Tga)
    } else if ext == "webp"@ {
        Some(OutputFormat::WebP)
    } else {
        None
    }
}

/// Whether `s` and `word` are the same characters.
fn spells(s: &str, word: &str) -> (b: bool)
    ensures
        b == (s@ == word@),
{
    let n = s.unicode_len();
    if n != word.unicode_len() {
        return false;
    }
    let mut i: usize = 0;
    while i < n
        invariant
            n == s@.len(),
            n == word@.len(),
            i <= n,
            forall|j: int| 0 <= j < i ==> s@[j] == word@[j],
        decreases n - i,
    {
        if s.get_char(i) != word.get_char(i) {
            return false;
        }
        i += 1;
    }
    assert(s@ =~= word@);
    true
}

/// The format that an extension names, once it has been put in lower case:
/// `png`, `jpg` or `jpeg`, `bmp`, `gif`, `tiff`, `ico`, `tga`, `webp`.
pub fn output_format_from_extension(ext_lower: &str) -> (f: Option<OutputFormat>)
    ensures
        f == format_of_extension(ext_lower@),
{
    if spells(ext_lower, "png") {
        Some(OutputFormat::Png)
    } else if spells(ext_lower, "jpg") || spells(ext_lower, "jpeg") {
        Some(OutputFormat::Jpeg)
    } else if spells(ext_lower, "bmp") {
        Some(OutputFormat::Bmp)
    } else if spells(ext_lower, "gif") {
        Some(OutputFormat::Gif)
    } else if spells(ext_lower, "tiff") {
        Some(OutputFormat::Tiff)
    } else if spells(ext_lower, "ico") {
        Some(OutputFormat::Ico)
    } else if spells(ext_lower, "tga") {
        Some(OutputFormat::Tga)
    } else if spells(ext_lower, "webp") {
        Some(OutputFormat::WebP)
    } else {
        None
    }
}

/// The lower-case equivalent of `s`, as `str::to_lowercase` defines it.
pub uninterp spec fn lowercased(s: Seq<char>) -> Seq<char>;

/// The extension of the path `path`, as `std::path::Path::extension`
/// defines it on the platform the crate is built for.
pub uninterp spec fn extension_of_path(path: Seq<char>) -> Option<Seq<char>>;

/// Calls `str::to_lowercase`.
///
/// Taken on trust: the result depends on the characters of `s` alone.
#[verifier::external_body]
pub(crate) fn lowercase(s: &str) -> (lower: String)
    ensures
        lower@ == lowercased(s@),
{
    s.to_lowercase()
}

/// Calls `std::path::Path::extension` on `path` read as a path.
///
/// Taken on trust: the result depends on the characters of `path` alone,
/// and a path without any `.` has no extension.
#[verifier::external_body]
pub(crate) fn path_extension(path: &str) -> (ext: Option<String>)
    ensures
        ext matches Some(e) ==> extension_of_path(path@) == Some(e@),
        ext is None ==> extension_of_path(path@) is None,
        !path@.contains('.') ==> ext is None,
{
    std::path::Path::new(path).extension().and_then(|e| e.to_str()).map(|e| e.to_string())
}

/// The format that the extension `ext` of a path selects: the one its
/// lower-case form names. No extension selects nothing.
pub open spec fn format_of_path_extension(ext: Option<Seq<char>>) -> Option<OutputFormat> {
    match ext {
        Some(e) => format_of_extension(lowercased(e)),
        None => None,
    }
}

/// The format that the path `path` selects.
pub open spec fn format_of_path(path: Seq<char>) -> Option<OutputFormat> {
    format_of_path_extension(extension_of_path(path))
}

/// The format selected by a path's extension, matched without regard to
/// case. A missing extension, or one that names no format, is an error.
pub fn output_format_for_extension(extension: Option<&str>) -> (r: Result<OutputFormat, QpError>)
    ensures
        match format_of_path_extension(
            match extension {
                Some(e) => Some(e@),
                None => None,
            },
        ) {
            Some(f) => r == Ok::<OutputFormat, QpError>(f),
            None => r == Err::<OutputFormat, QpError>(QpError::UnsupportedOutputFormat),
        },
{
    match extension {
        Some(e) => {
            let lower = lowercase(e);
            match output_format_from_extension(lower.as_str()) {
                Some(f) => Ok(f),
                None => Err(QpError::UnsupportedOutputFormat),
            }
        },
        None => Err(QpError::UnsupportedOutputFormat),
    }
}

/// The format in which an image bound for `path` is written, decided by the
/// path's extension alone. A path without an extension, or with one that
/// names no format, is an error.
pub fn output_format_for_path(path: &str) -> (r: Result<OutputFormat, QpError>)
    ensures
        match format_of_path(path@) {
            Some(f) => r == Ok::<OutputFormat, QpError>(f),
            None => r == Err::<OutputFormat, QpError>(QpError::UnsupportedOutputFormat),
        },
        !path@.contains('.') ==> r is Err,
{
    match path_extension(path) {
        Some(e) => output_format_for_extension(Some(e.as_str())),
        None => output_format_for_extension(None),
    }
}

} // verus!
