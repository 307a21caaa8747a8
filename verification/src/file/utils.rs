//! Recognising audio files by their extension.

use vstd::prelude::*;

verus! {

/// The extension of `path` as `std::path::Path::extension` finds it: the part of the
/// path's final file name after its last `.`, if that name has one that does not
/// begin it.
pub uninterp spec fn path_extension(path: Seq<char>) -> Option<Seq<char>>;

/// The extension of a path (`std::path::Path::extension`).
///
/// Trusted contract: the result is `path_extension` of the path; and, as the
/// documentation says it is the part after the final `.`, it holds no `.`.
#[verifier::external_body]
fn extension_of(path: &str) -> (extension: Option<String>)
    ensures
        match extension {
            Some(extension) => path_extension(path@) == Some(extension@),
            None => path_extension(path@) is None,
        },
        extension matches Some(extension) ==> !extension@.contains('.'),
{
    match std::path::Path::new(path).extension() {
        Some(extension) => match extension.to_str() {
            Some(extension) => Some(extension.to_owned()),
            None => None,
        },
        None => None,
    }
}

/// `text` in lower case, as `str::to_lowercase` gives it.
pub uninterp spec fn lowercased(text: Seq<char>) -> Seq<char>;

/// The text in lower case (`str::to_lowercase`).
///
/// Trusted contract: the result is `lowercased` of the text; the Unicode case
/// mapping itself is left unsaid.
#[verifier::external_body]
fn lowercase(text: &str) -> (lower: String)
    ensures
        lower@ == lowercased(text@),
{
    text.to_lowercase()
}

/// The format a track file at `path` is recorded with: its extension in lower case,
/// or nothing when it has none.
pub fn track_file_format(path: &str) -> (format: String)
    ensures
        format@ == match path_extension(path@) {
            Some(extension) => lowercased(extension),
            None => Seq::empty(),
        },
{
    match extension_of(path) {
        Some(extension) => lowercase(extension.as_str()),
        None => String::new(),
    }
}

/// The audio file extensions the library reads.
pub open spec fn supported_track_extension(extension: Seq<char>) -> bool {
    ||| extension == "mp3"@
    ||| extension == "flac"@
    ||| extension == "ogg"@
    ||| extension == "opus"@
    ||| extension == "m4a"@
    ||| extension == "aac"@
    ||| extension == "wav"@
    ||| extension == "aiff"@
}

/// A file is read as a track exactly when its extension is one of mp3, flac, ogg,
/// opus, m4a, aac, wav and aiff: each of these is accepted, and nothing else is.
pub proof fn lemma_track_files_are_those_with_a_known_extension(path: Seq<char>, extension: Seq<char>)
    ensures
        supported_track_extension(extension) <==> set!["mp3"@, "flac"@, "ogg"@, "opus"@, "m4a"@, "aac"@, "wav"@, "aiff"@].contains(extension),
        supported_track_extension("mp3"@),
        supported_track_extension("flac"@),
        supported_track_extension("ogg"@),
        supported_track_extension("opus"@),
        supported_track_extension("m4a"@),
        supported_track_extension("aac"@),
        supported_track_extension("wav"@),
        supported_track_extension("aiff"@),
        spec_is_supported_track_file(path) <==> (path_extension(path) matches Some(found)
            && set!["mp3"@, "flac"@, "ogg"@, "opus"@, "m4a"@, "aac"@, "wav"@, "aiff"@].contains(
                found,
            )),
{
}

/// Whether a file with this path is read as a track: its extension is one of
/// `supported_track_extension` (compared exactly, so case matters).
pub open spec fn spec_is_supported_track_file(path: Seq<char>) -> bool {
    path_extension(path) matches Some(extension) && supported_track_extension(extension)
}

/// Whether `extension` is one of the audio file extensions the library reads.
pub fn is_supported_extension(extension: &String) -> (supported: bool)
    ensures
        supported == supported_track_extension(extension@),
{
    *extension == "mp3".to_owned() || *extension == "flac".to_owned() || *extension
        == "ogg".to_owned() || *extension == "opus".to_owned() || *extension == "m4a".to_owned()
        || *extension == "aac".to_owned() || *extension == "wav".to_owned() || *extension
        == "aiff".to_owned()
}

/// Whether the file at `path` is read as a track.
pub fn is_supported_track_file(path: &str) -> (supported: bool)
    ensures
        supported == spec_is_supported_track_file(path@),
{
    match extension_of(path) {
        Some(extension) => is_supported_extension(&extension),
        None => false,
    }
}

/// Whether the file at `path` is read as music; the same files as
/// `is_supported_track_file`.
pub fn is_supported_music_file(path: &str) -> (supported: bool)
    ensures
        supported == spec_is_supported_track_file(path@),
{
    match extension_of(path) {
        Some(extension) => is_supported_extension(&extension),
        None => false,
    }
}

} // verus!
