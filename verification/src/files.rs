//! File-set enumeration planning. A path that is a single file is treated
//! as a playlist and resolved entry by entry; a directory is walked for
//! audio files, recursing into subdirectories only when configured. The
//! walk itself is filesystem work of the surrounding runtime; the library
//! decides which source applies and which names count as audio or
//! playlist files.

use vstd::prelude::*;
use crate::tags::str_eq;

verus! {

/// The file is not a recognized playlist format.
#[derive(Clone, Copy, Debug, PartialEq, Eq, Structural)]
pub enum PlaylistError {
    UnrecognizedFormat,
}

/// Where the file set of a run comes from.
#[derive(Clone, Copy, Debug, PartialEq, Eq, Structural)]
pub enum FileSource {
    /// The path is a single file: parse it as a playlist and resolve each
    /// referenced entry.
    Playlist,
    /// The path is a directory root: walk it for audio files, recursing
    /// into subdirectories only when asked.
    DirectoryWalk { include_subfolders: bool },
}

/// Decides how the file set is obtained from the given path.
pub fn plan_file_source(path_is_file: bool, include_subfolders: bool) -> (r: FileSource)
    ensures
        path_is_file ==> r == FileSource::Playlist,
        !path_is_file ==> r == (FileSource::DirectoryWalk { include_subfolders }),
{
    if path_is_file {
        FileSource::Playlist
    } else {
        FileSource::DirectoryWalk { include_subfolders }
    }
}

/// Whether the (lower-case) extension names an audio file the engines
/// accept.
pub open spec fn spec_is_audio_extension(ext: Seq<char>) -> bool {
    ||| ext == "mp3"@
    ||| ext == "flac"@
    ||| ext == "aif"@
    ||| ext == "aiff"@
    ||| ext == "wav"@
    ||| ext == "ogg"@
    ||| ext == "opus"@
    ||| ext == "m4a"@
    ||| ext == "mp4"@
    ||| ext == "wma"@
}

/// Whether the (lower-case) extension names a recognized playlist format.
pub open spec fn spec_is_playlist_extension(ext: Seq<char>) -> bool {
    ||| ext == "m3u"@
    ||| ext == "m3u8"@
    ||| ext == "pls"@
}

/// Whether a directory entry with this (lower-case) extension belongs in
/// the enumerated file set.
pub fn is_audio_extension(ext: &str) -> (r: bool)
    ensures
        r == spec_is_audio_extension(ext@),
{
    str_eq(ext, "mp3") || str_eq(ext, "flac") || str_eq(ext, "aif") || str_eq(ext, "aiff")
        || str_eq(ext, "wav") || str_eq(ext, "ogg") || str_eq(ext, "opus") || str_eq(ext, "m4a")
        || str_eq(ext, "mp4") || str_eq(ext, "wma")
}

/// Whether a single file with this (lower-case) extension is read as a
/// playlist.
pub fn is_playlist_extension(ext: &str) -> (r: bool)
    ensures
        r == spec_is_playlist_extension(ext@),
{
    str_eq(ext, "m3u") || str_eq(ext, "m3u8") || str_eq(ext, "pls")
}

/// Checks that a single file can be read as a playlist: any other
/// extension is an unrecognized playlist format, fatal for that path.
pub fn validate_playlist_extension(ext: &str) -> (r: Result<(), PlaylistError>)
    ensures
        r is Ok <==> spec_is_playlist_extension(ext@),
        r is Err ==> r->Err_0 == PlaylistError::UnrecognizedFormat,
{
    if is_playlist_extension(ext) {
        Ok(())
    } else {
        Err(PlaylistError::UnrecognizedFormat)
    }
}

} // verus!
