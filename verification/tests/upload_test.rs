use realitydefender::models::{SignedUrlDetails, SignedUrlResponse};
use realitydefender::upload::{begin_upload, start_upload, PutResponse, UploadStep};
use realitydefender::{Client, Config, Error, UploadOptions, UploadResult};
use std::io;

fn signed(request_id: &str, media_id: &str, url: &str) -> SignedUrlResponse {
    SignedUrlResponse {
        code: "success".to_string(),
        errno: 0,
        request_id: request_id.to_string(),
        media_id: media_id.to_string(),
        response: SignedUrlDetails { signed_url: url.to_string() },
    }
}

fn answer(status: u16, status_text: &str, body: &str) -> Result<PutResponse, Error> {
    Ok(PutResponse {
        status,
        status_text: status_text.to_string(),
        body: body.to_string(),
    })
}

fn outcome(step: UploadStep) -> Result<UploadResult, Error> {
    match step {
        UploadStep::Done(outcome) => outcome,
        other => panic!("expected the upload to be over, got {:?}", other),
    }
}

fn invalid_file(step: UploadStep) -> String {
    match outcome(step) {
        Err(Error::InvalidFile(message)) => message,
        other => panic!("expected an invalid file, got {:?}", other),
    }
}

#[test]
fn a_file_that_is_not_there_ends_the_upload() {
    assert_eq!(
        invalid_file(begin_upload("non_existent_file.jpg", false)),
        "File not found: non_existent_file.jpg"
    );
}

#[test]
fn a_path_without_a_file_name_ends_the_upload() {
    assert_eq!(invalid_file(begin_upload("/", true)), "Invalid file name");
    assert_eq!(invalid_file(begin_upload("photos/..", true)), "Invalid file name");
    assert_eq!(invalid_file(start_upload("anything", true, None)), "Invalid file name");
}

#[test]
fn the_presigned_url_is_asked_for_by_the_file_name() {
    match begin_upload("/tmp/some dir/test.jpg", true) {
        UploadStep::RequestSignedUrl(state) => {
            assert_eq!(state.file_path, "/tmp/some dir/test.jpg");
            assert_eq!(state.file_name, "test.jpg");
        }
        other => panic!("expected a request for a presigned URL, got {:?}", other),
    }
    match begin_upload("plain", true) {
        UploadStep::RequestSignedUrl(state) => assert_eq!(state.file_name, "plain"),
        other => panic!("expected a request for a presigned URL, got {:?}", other),
    }
    match start_upload("a/b.png", true, Some("b.png")) {
        UploadStep::RequestSignedUrl(state) => {
            assert_eq!(state.file_path, "a/b.png");
            assert_eq!(state.file_name, "b.png");
        }
        other => panic!("expected a request for a presigned URL, got {:?}", other),
    }
}

#[test]
fn an_upload_runs_its_steps_in_order() {
    let client = Client::new(Config {
        api_key: "test_api_key".to_string(),
        ..Default::default()
    })
    .unwrap();
    let first = client.upload(
        UploadOptions { file_path: "/data/test.jpg".to_string() },
        true,
    );
    let awaiting_url = match first {
        UploadStep::RequestSignedUrl(state) => state,
        other => panic!("expected a request for a presigned URL, got {:?}", other),
    };
    assert_eq!(awaiting_url.file_name, "test.jpg");

    let awaiting_content = match awaiting_url.signed(Ok(signed(
        "test-request-id",
        "test-media-id",
        "http://bucket/upload",
    ))) {
        UploadStep::ReadFile(state) => state,
        other => panic!("expected the file to be read, got {:?}", other),
    };
    assert_eq!(awaiting_content.file_path, "/data/test.jpg");

    let awaiting_put = match awaiting_content.read(Ok(b"test image data".to_vec())) {
        UploadStep::Put(state) => state,
        other => panic!("expected the bytes to be put, got {:?}", other),
    };
    assert_eq!(awaiting_put.url, "http://bucket/upload");
    assert_eq!(awaiting_put.content, b"test image data".to_vec());
    assert_eq!(awaiting_put.content_type, "image/jpeg");

    let result = outcome(awaiting_put.finished(answer(200, "200 OK", ""))).unwrap();
    assert_eq!(result.request_id, "test-request-id");
    assert_eq!(result.media_id, Some("test-media-id".to_string()));
    assert!(result.result_url.is_none());
}

fn awaiting_content(path: &str) -> realitydefender::upload::AwaitingContent {
    match begin_upload(path, true) {
        UploadStep::RequestSignedUrl(state) => {
            match state.signed(Ok(signed("r", "m", "http://bucket/put"))) {
                UploadStep::ReadFile(state) => state,
                other => panic!("expected the file to be read, got {:?}", other),
            }
        }
        other => panic!("expected a request for a presigned URL, got {:?}", other),
    }
}

fn awaiting_put(path: &str) -> realitydefender::upload::AwaitingPut {
    match awaiting_content(path).read(Ok(vec![1, 2, 3])) {
        UploadStep::Put(state) => state,
        other => panic!("expected the bytes to be put, got {:?}", other),
    }
}

#[test]
fn a_refused_request_for_a_presigned_url_ends_the_upload() {
    let state = match begin_upload("a.jpg", true) {
        UploadStep::RequestSignedUrl(state) => state,
        other => panic!("expected a request for a presigned URL, got {:?}", other),
    };
    match outcome(state.signed(Err(Error::Unauthorized("denied".to_string())))) {
        Err(Error::Unauthorized(message)) => assert_eq!(message, "denied"),
        other => panic!("expected the failure, got {:?}", other),
    }
}

#[test]
fn an_empty_file_ends_the_upload() {
    assert_eq!(
        invalid_file(awaiting_content("/tmp/empty.jpg").read(Ok(Vec::new()))),
        "File is empty: /tmp/empty.jpg"
    );
}

#[test]
fn a_file_that_cannot_be_read_ends_the_upload() {
    let failure: Error = io::Error::new(io::ErrorKind::PermissionDenied, "denied").into();
    match outcome(awaiting_content("/tmp/a.jpg").read(Err(failure))) {
        Err(Error::IOError(e)) => assert_eq!(e.kind(), io::ErrorKind::PermissionDenied),
        other => panic!("expected the failure, got {:?}", other),
    }
}

#[test]
fn the_content_type_goes_by_the_extension_of_the_path() {
    assert_eq!(awaiting_put("/tmp/test.png").content_type, "image/png");
    assert_eq!(awaiting_put("/tmp/test.mov").content_type, "video/quicktime");
    assert_eq!(awaiting_put("/tmp/test").content_type, "application/octet-stream");
}

#[test]
fn a_refused_put_is_a_failed_upload() {
    match outcome(awaiting_put("a.jpg").finished(answer(400, "400 Bad Request", "Upload failed"))) {
        Err(Error::UploadFailed(message)) => assert_eq!(
            message,
            "Failed to upload to presigned URL. Status: 400 Bad Request Body: Upload failed"
        ),
        other => panic!("expected a failed upload, got {:?}", other),
    }
}

#[test]
fn a_put_that_could_not_be_sent_ends_the_upload_with_that_failure() {
    match outcome(
        awaiting_put("a.jpg").finished(Err(Error::RequestError("connection reset".to_string()))),
    ) {
        Err(Error::RequestError(message)) => assert_eq!(message, "connection reset"),
        other => panic!("expected the failure, got {:?}", other),
    }
}
