//! Content types of files and the validation of links.

use vstd::prelude::*;
use vstd::string::*;
use crate::error::Error;
use crate::text::{join, slice_view};

verus! {

/// `url::Url`: a parsed URL. It is read only through [`url_scheme`] and
/// [`url_host`].
#[verifier::external_type_specification]
#[verifier::external_body]
pub struct ExParsedUrl(url::Url);

/// The extension that `std::path::Path::extension` finds in a path, on the
/// platform the library is built for.
pub uninterp spec fn path_extension(path: Seq<char>) -> Option<Seq<char>>;

/// What `url::Url::parse` makes of a text: the URL, or nothing where the text
/// is no absolute URL.
pub uninterp spec fn parsed_url(text: Seq<char>) -> Option<url::Url>;

/// What `url::Url::scheme` gives for a URL.
pub uninterp spec fn url_scheme(url: url::Url) -> Seq<char>;

/// What `url::Url::host_str` gives for a URL.
pub uninterp spec fn url_host(url: url::Url) -> Option<Seq<char>>;

/// Whether `addr::parse_domain_name` accepts a host.
pub uninterp spec fn is_domain_name(host: Seq<char>) -> bool;

/// `std::path::Path::extension` on a path given as text: the part of the
/// file name behind its last dot, if the path has a file name with such a
/// part. The result depends on the path alone.
#[verifier::external_body]
fn extension_of(path: &str) -> (r: Option<&str>)
    ensures
        slice_view(r) == path_extension(path@),
{
    match std::path::Path::new(path).extension() {
        Some(extension) => extension.to_str(),
        None => None,
    }
}

/// `url::Url::parse`: the URL that a text spells, or `None` where the crate
/// reports a parse error. The result depends on the text alone.
#[verifier::external_body]
fn parse_url(text: &str) -> (r: Option<url::Url>)
    ensures
        r == parsed_url(text@),
{
    match url::Url::parse(text) {
        Ok(url) => Some(url),
        Err(_) => None,
    }
}

/// `url::Url::scheme`: the scheme of a URL, without the colon.
#[verifier::external_body]
fn scheme_of(url: &url::Url) -> (r: &str)
    ensures
        r@ == url_scheme(*url),
{
    url.scheme()
}

/// `url::Url::host_str`: the host of a URL as text, or `None` where the URL
/// has no host.
#[verifier::external_body]
fn host_of(url: &url::Url) -> (r: Option<&str>)
    ensures
        slice_view(r) == url_host(*url),
{
    url.host_str()
}

/// `addr::parse_domain_name`: whether a host parses as a domain name under
/// the public suffix list that the crate is built with. The result depends
/// on the host alone.
#[verifier::external_body]
fn parses_as_domain_name(host: &str) -> (r: bool)
    ensures
        r == is_domain_name(host@),
{
    addr::parse_domain_name(host).is_ok()
}

/// The content type that goes with a file extension.
pub open spec fn content_type_of(extension: Option<Seq<char>>) -> Seq<char> {
    match extension {
        Some(e) => if e == "jpg"@ || e == "jpeg"@ {
            "image/jpeg"@
        } else if e == "png"@ {
            "image/png"@
        } else if e == "gif"@ {
            "image/gif"@
        } else if e == "mp4"@ {
            "video/mp4"@
        } else if e == "mov"@ {
            "video/quicktime"@
        } else if e == "avi"@ {
            "video/x-msvideo"@
        } else if e == "webm"@ {
            "video/webm"@
        } else {
            "application/octet-stream"@
        },
        None => "application/octet-stream"@,
    }
}

/// The content type that goes with a file extension. Extensions are compared
/// as they are written: `JPG` is not `jpg`.
pub fn content_type_for_extension(extension: Option<&str>) -> (r: &'static str)
    ensures
        r@ == content_type_of(slice_view(extension)),
{
    match extension {
        Some(e) => {
            if *e == *"jpg" || *e == *"jpeg" {
                "image/jpeg"
            } else if *e == *"png" {
                "image/png"
            } else if *e == *"gif" {
                "image/gif"
            } else if *e == *"mp4" {
                "video/mp4"
            } else if *e == *"mov" {
                "video/quicktime"
            } else if *e == *"avi" {
                "video/x-msvideo"
            } else if *e == *"webm" {
                "video/webm"
            } else {
                "application/octet-stream"
            }
        },
        None => "application/octet-stream",
    }
}

/// Determine the content type of a file based on its extension
pub fn determine_content_type(path: &str) -> (r: &'static str)
    ensures
        r@ == content_type_of(path_extension(path@)),
{
    content_type_for_extension(extension_of(path))
}

/// What is wrong with a link whose scheme and host are as given, in words,
/// if anything is. The scheme must be `http` or `https`; the host must be
/// there, not be empty, and be a domain name.
pub open spec fn parts_fault(scheme: Seq<char>, host: Option<Seq<char>>, host_is_domain: bool)
    -> Option<Seq<char>> {
    if scheme != "http"@ && scheme != "https"@ {
        Some("URL must use http or https scheme"@)
    } else if host is None || host->0.len() == 0 || !host_is_domain {
        Some("URL must have a valid domain"@)
    } else {
        None
    }
}

/// What is wrong with a link, in words, if anything is.
pub open spec fn url_fault(text: Seq<char>) -> Option<Seq<char>> {
    match parsed_url(text) {
        None => Some("Invalid URL: "@ + text),
        Some(url) => parts_fault(
            url_scheme(url),
            url_host(url),
            match url_host(url) {
                Some(host) => is_domain_name(host),
                None => false,
            },
        ),
    }
}

/// Judges a link by its scheme and its host. `host_is_domain` says whether
/// the host is a domain name.
pub fn check_url_parts(scheme: &str, host: Option<&str>, host_is_domain: bool) -> (r: Result<
    (),
    Error,
>)
    ensures
        match r {
            Ok(_) => parts_fault(scheme@, slice_view(host), host_is_domain) is None,
            Err(e) => e matches Error::InvalidRequest(message) && parts_fault(
                scheme@,
                slice_view(host),
                host_is_domain,
            ) == Some(message@),
        },
{
    if !(*scheme == *"http" || *scheme == *"https") {
        return Err(Error::InvalidRequest("URL must use http or https scheme".to_owned()));
    }
    match host {
        Some(h) => {
            if h.is_empty() || !host_is_domain {
                Err(Error::InvalidRequest("URL must have a valid domain".to_owned()))
            } else {
                Ok(())
            }
        },
        None => Err(Error::InvalidRequest("URL must have a valid domain".to_owned())),
    }
}

/// Validate an URL
pub fn is_valid_url(url: &str) -> (r: Result<(), Error>)
    ensures
        match r {
            Ok(_) => url_fault(url@) is None,
            Err(e) => e matches Error::InvalidRequest(message) && url_fault(url@) == Some(
                message@,
            ),
        },
{
    match parse_url(url) {
        None => Err(Error::InvalidRequest(join("Invalid URL: ", url))),
        Some(parsed) => {
            let host = host_of(&parsed);
            let host_is_domain = match host {
                Some(h) => parses_as_domain_name(h),
                None => false,
            };
            check_url_parts(scheme_of(&parsed), host, host_is_domain)
        },
    }
}

} // verus!
