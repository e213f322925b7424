//! The kinds of file that the service takes, and how large each may be.

use vstd::prelude::*;
use crate::text::slice_views;

verus! {

/// The largest video that the service takes, in bytes (250 MB).
pub const VIDEO_SIZE_LIMIT: u64 = 262144000;

/// The largest image that the service takes, in bytes (50 MB).
pub const IMAGE_SIZE_LIMIT: u64 = 52428800;

/// The largest audio file that the service takes, in bytes (20 MB).
pub const AUDIO_SIZE_LIMIT: u64 = 20971520;

/// The largest text file that the service takes, in bytes (5 MB).
pub const TEXT_SIZE_LIMIT: u64 = 5242880;

/// A kind of file: the extensions that mark it and the size up to which the
/// service takes it.
#[derive(Debug)]
pub struct FileTypeConfig {
    pub extensions: &'static [&'static str],
    pub size_limit: u64,
}

/// The kinds of file that the service takes: video, image, audio and text.
pub open spec fn supported(kinds: Seq<FileTypeConfig>) -> bool {
    &&& kinds.len() == 4
    &&& slice_views(kinds[0].extensions@) == seq!["mp4"@, "mov"@]
    &&& kinds[0].size_limit == VIDEO_SIZE_LIMIT
    &&& slice_views(kinds[1].extensions@) == seq!["jpg"@, "png"@, "jpeg"@, "gif"@, "webp"@]
    &&& kinds[1].size_limit == IMAGE_SIZE_LIMIT
    &&& slice_views(kinds[2].extensions@) == seq![
        "flac"@,
        "wav"@,
        "mp3"@,
        "m4a"@,
        "aac"@,
        "alac"@,
        "ogg"@,
    ]
    &&& kinds[2].size_limit == AUDIO_SIZE_LIMIT
    &&& slice_views(kinds[3].extensions@) == seq!["txt"@]
    &&& kinds[3].size_limit == TEXT_SIZE_LIMIT
}

/// The kinds of file that the service takes.
pub fn supported_file_types() -> (r: Vec<FileTypeConfig>)
    ensures
        supported(r@),
{
    let video: &'static [&'static str] = &["mp4", "mov"];
    let image: &'static [&'static str] = &["jpg", "png", "jpeg", "gif", "webp"];
    let audio: &'static [&'static str] = &["flac", "wav", "mp3", "m4a", "aac", "alac", "ogg"];
    let text: &'static [&'static str] = &["txt"];
    let mut kinds: Vec<FileTypeConfig> = Vec::new();
    kinds.push(FileTypeConfig { extensions: video, size_limit: VIDEO_SIZE_LIMIT });
    kinds.push(FileTypeConfig { extensions: image, size_limit: IMAGE_SIZE_LIMIT });
    kinds.push(FileTypeConfig { extensions: audio, size_limit: AUDIO_SIZE_LIMIT });
    kinds.push(FileTypeConfig { extensions: text, size_limit: TEXT_SIZE_LIMIT });
    proof {
        assert(slice_views(video@) =~= seq!["mp4"@, "mov"@]);
        assert(slice_views(image@) =~= seq!["jpg"@, "png"@, "jpeg"@, "gif"@, "webp"@]);
        assert(slice_views(audio@) =~= seq![
            "flac"@,
            "wav"@,
            "mp3"@,
            "m4a"@,
            "aac"@,
            "alac"@,
            "ogg"@,
        ]);
        assert(slice_views(text@) =~= seq!["txt"@]);
    }
    kinds
}

} // verus!
