//! Which files the run looks at: regular files with an audio extension.
use vstd::prelude::*;

use crate::naming::opt_text;
use crate::text::same_text;

verus! {

/// What `str::to_lowercase` makes of a string.
pub uninterp spec fn lowercased(s: Seq<char>) -> Seq<char>;

/// Relies on `str::to_lowercase`: the result depends on the characters of `s` alone.
#[verifier::external_body]
fn lowercase(s: &str) -> (r: String)
    ensures
        r@ == lowercased(s@),
{
    s.to_lowercase()
}

/// The lower-case extensions of the audio formats the run handles.
pub open spec fn is_supported(ext: Seq<char>) -> bool {
    ext == "m4a"@ || ext == "mp3"@ || ext == "flac"@ || ext == "wav"@ || ext == "ogg"@ || ext
        == "aac"@ || ext == "aiff"@ || ext == "wma"@ || ext == "ape"@ || ext == "opus"@ || ext
        == "mp4"@
}

/// Whether `ext`, already in lower case, is one of the supported audio extensions.
pub fn is_supported_extension(ext: &str) -> (r: bool)
    ensures
        r == is_supported(ext@),
{
    same_text(ext, "m4a") || same_text(ext, "mp3") || same_text(ext, "flac") || same_text(
        ext,
        "wav",
    ) || same_text(ext, "ogg") || same_text(ext, "aac") || same_text(ext, "aiff") || same_text(
        ext,
        "wma",
    ) || same_text(ext, "ape") || same_text(ext, "opus") || same_text(ext, "mp4")
}

/// The extension a directory entry is processed under, if it is processed at all.
pub open spec fn entry_selection(is_file: bool, ext: Option<Seq<char>>) -> Option<Seq<char>> {
    match ext {
        Some(e) => if is_file && is_supported(lowercased(e)) {
            Some(lowercased(e))
        } else {
            None
        },
        None => None,
    }
}

/// Decides whether a directory entry is an audio file to process: it must be
/// a regular file whose extension, in lower case, is supported. Returns that
/// lower-case extension.
pub fn audio_extension(is_file: bool, ext: Option<&str>) -> (r: Option<String>)
    ensures
        r is Some <==> entry_selection(is_file, opt_text(ext)) is Some,
        r is Some ==> r->0@ == entry_selection(is_file, opt_text(ext))->0,
{
    if !is_file {
        return None;
    }
    match ext {
        Some(e) => {
            let lower = lowercase(e);
            if is_supported_extension(lower.as_str()) {
                Some(lower)
            } else {
                None
            }
        },
        None => None,
    }
}

/// A file whose extension is not a supported audio extension, in any case,
/// is never handed to the file processor, whatever it holds.
pub proof fn lemma_unsupported_never_processed(is_file: bool, ext: Seq<char>)
    requires
        !is_supported(lowercased(ext)),
    ensures
        entry_selection(is_file, Some(ext)) is None,
{
}

} // verus!
