//! Uploading one file.
//!
//! A file goes up in two steps: the API is asked for a presigned URL, keyed
//! by the file's name, and the file's bytes are then put at that URL. What is
//! decided here is the order of the steps, what each of them is given, and
//! how the upload ends. Looking at the file system and talking to the
//! network are left to the caller, who hands back what each step brought.

use vstd::prelude::*;
use vstd::string::*;
use crate::error::Error;
use crate::http::{check_upload_response, is_success, upload_failed_message, HttpClient};
use crate::models::{SignedUrlResponse, UploadResult, UploadResultView};
use crate::text::{join, slice_view};
use crate::utils::{content_type_of, determine_content_type, path_extension};

verus! {

/// The key under which the request for a presigned URL names the file.
pub const FILE_NAME_KEY: &'static str = "fileName";

/// The file name that `std::path::Path::file_name` finds in a path, on the
/// platform the library is built for.
pub uninterp spec fn path_file_name(path: Seq<char>) -> Option<Seq<char>>;

/// `std::path::Path::file_name` on a path given as text: the last component
/// of the path, or `None` where the path ends in `..` or has no component.
/// The result depends on the path alone.
#[verifier::external_body]
fn file_name_of(path: &str) -> (r: Option<&str>)
    ensures
        slice_view(r) == path_file_name(path@),
{
    match std::path::Path::new(path).file_name() {
        Some(name) => name.to_str(),
        None => None,
    }
}

/// The answer to the request that put a file's bytes at a presigned URL.
#[derive(Debug, Clone)]
pub struct PutResponse {
    pub status: u16,
    /// The status as it is shown, such as `403 Forbidden`.
    pub status_text: String,
    pub body: String,
}

/// An upload that waits for its presigned URL.
#[derive(Debug)]
pub struct AwaitingSignedUrl {
    pub file_path: String,
    /// The name under which the presigned URL is asked for.
    pub file_name: String,
}

/// An upload that waits for the bytes of its file.
#[derive(Debug)]
pub struct AwaitingContent {
    pub file_path: String,
    pub signed: SignedUrlResponse,
}

/// An upload that waits for the answer of the presigned URL.
#[derive(Debug)]
pub struct AwaitingPut {
    /// The presigned URL.
    pub url: String,
    /// The bytes to put there.
    pub content: Vec<u8>,
    pub content_type: String,
    pub request_id: String,
    pub media_id: String,
}

/// What an upload does next.
#[derive(Debug)]
pub enum UploadStep {
    /// Ask the API for a presigned URL for the file name, and hand the answer
    /// to the state given here.
    RequestSignedUrl(AwaitingSignedUrl),
    /// Read the file, and hand its bytes to the state given here.
    ReadFile(AwaitingContent),
    /// Put the bytes at the presigned URL, and hand the answer to the state
    /// given here.
    Put(AwaitingPut),
    /// The upload is over, with this outcome.
    Done(Result<UploadResult, Error>),
}

/// Whether `first` is how the upload of the file at `path` begins, where
/// `exists` says whether there is such a file and `file_name` is the name
/// found in the path. A file that is not there, or a path without a file
/// name, ends the upload at once.
pub open spec fn upload_begins(
    path: Seq<char>,
    exists: bool,
    file_name: Option<Seq<char>>,
    first: UploadStep,
) -> bool {
    if !exists {
        first matches UploadStep::Done(Err(Error::InvalidFile(message))) && message@
            == "File not found: "@ + path
    } else {
        match file_name {
            None => first matches UploadStep::Done(Err(Error::InvalidFile(message))) && message@
                == "Invalid file name"@,
            Some(name) => first matches UploadStep::RequestSignedUrl(state) && state.file_path@
                == path && state.file_name@ == name,
        }
    }
}

/// Begins the upload of the file at `file_path`, given the file name found
/// in the path.
pub fn start_upload(file_path: &str, exists: bool, file_name: Option<&str>) -> (first: UploadStep)
    ensures
        upload_begins(file_path@, exists, slice_view(file_name), first),
{
    if !exists {
        return UploadStep::Done(Err(Error::InvalidFile(join("File not found: ", file_path))));
    }
    match file_name {
        None => UploadStep::Done(Err(Error::InvalidFile("Invalid file name".to_owned()))),
        Some(name) => UploadStep::RequestSignedUrl(
            AwaitingSignedUrl { file_path: file_path.to_owned(), file_name: name.to_owned() },
        ),
    }
}

/// Begins the upload of the file at `file_path`. `exists` says whether the
/// file system has such a file.
pub fn begin_upload(file_path: &str, exists: bool) -> (first: UploadStep)
    ensures
        upload_begins(file_path@, exists, path_file_name(file_path@), first),
{
    start_upload(file_path, exists, file_name_of(file_path))
}

impl HttpClient {
    /// Begins the upload of a file through the presigned URL flow. `exists`
    /// says whether the file system has a file at the path.
    pub fn upload_file(&self, file_path: &str, exists: bool) -> (first: UploadStep)
        ensures
            upload_begins(file_path@, exists, path_file_name(file_path@), first),
    {
        begin_upload(file_path, exists)
    }
}

impl AwaitingSignedUrl {
    /// Takes the API's answer to the request for a presigned URL. A failure
    /// ends the upload; with a URL, the file is read next.
    pub fn signed(self, response: Result<SignedUrlResponse, Error>) -> (next: UploadStep)
        ensures
            match response {
                Err(e) => next == UploadStep::Done(Err(e)),
                Ok(signed) => next matches UploadStep::ReadFile(state) && state.file_path@
                    == self.file_path@ && state.signed == signed,
            },
    {
        match response {
            Err(e) => UploadStep::Done(Err(e)),
            Ok(signed) => UploadStep::ReadFile(
                AwaitingContent { file_path: self.file_path, signed },
            ),
        }
    }
}

impl AwaitingContent {
    /// Whether `next` is what follows when the file was read as `content`. A
    /// failure to read ends the upload, and so does a file without bytes.
    /// Else the bytes are put at the presigned URL, with the content type
    /// that goes with the file's extension.
    pub open spec fn follows(self, content: Result<Vec<u8>, Error>, next: UploadStep) -> bool {
        match content {
            Err(e) => next == UploadStep::Done(Err(e)),
            Ok(bytes) => if bytes@.len() == 0 {
                next matches UploadStep::Done(Err(Error::InvalidFile(message))) && message@
                    == "File is empty: "@ + self.file_path@
            } else {
                next matches UploadStep::Put(state) && state.url@
                    == self.signed.response.signed_url@ && state.content@ == bytes@
                    && state.content_type@ == content_type_of(path_extension(self.file_path@))
                    && state.request_id@ == self.signed.request_id@ && state.media_id@
                    == self.signed.media_id@
            },
        }
    }

    /// Takes what reading the file brought.
    pub fn read(self, content: Result<Vec<u8>, Error>) -> (next: UploadStep)
        ensures
            self.follows(content, next),
    {
        match content {
            Err(e) => UploadStep::Done(Err(e)),
            Ok(bytes) => {
                if bytes.len() == 0 {
                    UploadStep::Done(
                        Err(Error::InvalidFile(join("File is empty: ", self.file_path.as_str()))),
                    )
                } else {
                    let content_type = determine_content_type(self.file_path.as_str());
                    UploadStep::Put(
                        AwaitingPut {
                            url: self.signed.response.signed_url,
                            content: bytes,
                            content_type: content_type.to_owned(),
                            request_id: self.signed.request_id,
                            media_id: self.signed.media_id,
                        },
                    )
                }
            },
        }
    }
}

impl AwaitingPut {
    /// Whether `next` is what follows when the presigned URL answered with
    /// `outcome`. A failure to send ends the upload with that failure, a
    /// status outside 200 to 299 with a failed upload; else the upload has
    /// succeeded, and its result names the request and the media.
    pub open spec fn follows(self, outcome: Result<PutResponse, Error>, next: UploadStep) -> bool {
        match outcome {
            Err(e) => next == UploadStep::Done(Err(e)),
            Ok(response) => if is_success(response.status) {
                next matches UploadStep::Done(Ok(result)) && result@ == (UploadResultView {
                    request_id: self.request_id@,
                    media_id: Some(self.media_id@),
                    result_url: None,
                })
            } else {
                next matches UploadStep::Done(Err(Error::UploadFailed(message))) && message@
                    == upload_failed_message(response.status_text@, response.body@)
            },
        }
    }

    /// Takes the answer of the presigned URL.
    pub fn finished(self, outcome: Result<PutResponse, Error>) -> (next: UploadStep)
        ensures
            self.follows(outcome, next),
    {
        match outcome {
            Err(e) => UploadStep::Done(Err(e)),
            Ok(response) => match check_upload_response(
                response.status,
                response.status_text.as_str(),
                response.body.as_str(),
            ) {
                Ok(_) => UploadStep::Done(
                    Ok(
                        UploadResult {
                            request_id: self.request_id,
                            media_id: Some(self.media_id),
                            result_url: None,
                        },
                    ),
                ),
                Err(e) => UploadStep::Done(Err(e)),
            },
        }
    }
}

} // verus!
