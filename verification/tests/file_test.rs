use realitydefender::file::{
    supported_file_types, FileTypeConfig, AUDIO_SIZE_LIMIT, IMAGE_SIZE_LIMIT, TEXT_SIZE_LIMIT,
    VIDEO_SIZE_LIMIT,
};

#[test]
fn the_supported_file_types_are_video_image_audio_and_text() {
    let kinds: Vec<FileTypeConfig> = supported_file_types();
    assert_eq!(kinds.len(), 4);
    assert_eq!(kinds[0].extensions, ["mp4", "mov"]);
    assert_eq!(kinds[0].size_limit, 262144000);
    assert_eq!(kinds[1].extensions, ["jpg", "png", "jpeg", "gif", "webp"]);
    assert_eq!(kinds[1].size_limit, 52428800);
    assert_eq!(
        kinds[2].extensions,
        ["flac", "wav", "mp3", "m4a", "aac", "alac", "ogg"]
    );
    assert_eq!(kinds[2].size_limit, 20971520);
    assert_eq!(kinds[3].extensions, ["txt"]);
    assert_eq!(kinds[3].size_limit, 5242880);
}

#[test]
fn the_size_limits_are_in_bytes() {
    assert_eq!(VIDEO_SIZE_LIMIT, 250 * 1024 * 1024);
    assert_eq!(IMAGE_SIZE_LIMIT, 50 * 1024 * 1024);
    assert_eq!(AUDIO_SIZE_LIMIT, 20 * 1024 * 1024);
    assert_eq!(TEXT_SIZE_LIMIT, 5 * 1024 * 1024);
}
