//! The client: one place from which every operation starts.

use vstd::prelude::*;
use vstd::string::*;
use crate::batch::{begin, begins, BatchStep};
use crate::config::Config;
use crate::error::Error;
use crate::http::api_paths::{ALL_MEDIA_RESULTS, MEDIA_RESULT};
use crate::http::{pair_views, read_headers, HttpClient, HttpRequest, HttpRequestView, Method};
use crate::models::{
    views, AnalysisResult, BatchOptions, DetectionResult, DetectionResultList,
    FormattedDetectionResultList, FormattedDetectionResultListView, GetResultOptions,
    GetResultsOptions, GetResultsOptionsView, UploadOptions, UploadResult,
};
use crate::normalize::{normalized_result, normalized_results};
use crate::polling::{waits, PagePoll, PagePollView, ResultPoll};
use crate::text::{decimal_string, decimal_text, join, slice_view, slice_views, text_view};
use crate::upload::{path_file_name, upload_begins, UploadStep};

verus! {

/// The number of attempts made when a file is detected in one call.
pub const DETECT_MAX_ATTEMPTS: u64 = 150;

/// The pause between two attempts when a file is detected in one call, in
/// milliseconds.
pub const DETECT_POLLING_INTERVAL: u64 = 2000;

/// The endpoint that holds the result of a request.
pub open spec fn result_endpoint(request_id: Seq<char>) -> Seq<char> {
    "/api/media/users"@ + "/"@ + request_id
}

/// The endpoint that holds a page of results. Pages are counted from zero,
/// and the first is asked for where none is named.
pub open spec fn results_endpoint(page_number: Option<u32>) -> Seq<char> {
    "/api/v2/media/users/pages"@ + "/"@ + decimal_text(
        match page_number {
            Some(n) => n as nat,
            None => 0,
        },
    )
}

/// The query parameter `name` with `value`, where there is a value.
pub open spec fn parameter(name: Seq<char>, value: Option<Seq<char>>) -> Seq<
    (Seq<char>, Seq<char>),
> {
    match value {
        Some(v) => seq![(name, v)],
        None => Seq::empty(),
    }
}

/// The query parameters that ask for a page: the size of the page, then the
/// filters by name, start date and end date, each where it is given.
pub open spec fn results_query(options: GetResultsOptionsView) -> Seq<(Seq<char>, Seq<char>)> {
    parameter(
        "size"@,
        match options.size {
            Some(n) => Some(decimal_text(n as nat)),
            None => None,
        },
    ) + parameter("name"@, options.name) + parameter("startDate"@, options.start_date) + parameter(
        "endDate"@,
        options.end_date,
    )
}

fn push_parameter(params: &mut Vec<(String, String)>, name: &str, value: Option<&str>)
    ensures
        pair_views(final(params)@) == pair_views(old(params)@) + parameter(
            name@,
            slice_view(value),
        ),
{
    match value {
        Some(v) => {
            params.push((name.to_owned(), v.to_owned()));
            proof {
                assert(pair_views(params@) =~= pair_views(old(params)@) + seq![(name@, v@)]);
            }
        },
        None => {
            proof {
                assert(pair_views(params@) =~= pair_views(old(params)@) + Seq::empty());
            }
        },
    }
}

fn as_slice(text: &Option<String>) -> (r: Option<&str>)
    ensures
        slice_view(r) == text_view(*text),
{
    match text {
        Some(t) => Some(t.as_str()),
        None => None,
    }
}

/// Client for interacting with the detection API
#[derive(Debug)]
pub struct Client {
    http_client: HttpClient,
}

impl Client {
    /// The configuration the client was made with.
    pub closed spec fn spec_config(self) -> Config {
        self.http_client.spec_config()
    }

    /// Create a new client with the given configuration
    pub fn new(config: Config) -> (r: Result<Client, Error>)
        ensures
            match r {
                Ok(client) => config.fault() is None && client.spec_config() == config,
                Err(e) => e matches Error::InvalidConfig(message) && config.fault() == Some(
                    message@,
                ),
            },
    {
        match HttpClient::new(config) {
            Ok(http_client) => Ok(Client { http_client }),
            Err(e) => Err(e),
        }
    }

    /// The part of the client that describes requests.
    pub fn http(&self) -> (r: &HttpClient)
        ensures
            r.spec_config() == self.spec_config(),
    {
        &self.http_client
    }

    /// Begins the upload of a file for analysis. `file_exists` says whether
    /// the file system has a file at the path.
    pub fn upload(&self, options: UploadOptions, file_exists: bool) -> (first: UploadStep)
        ensures
            upload_begins(
                options.file_path@,
                file_exists,
                path_file_name(options.file_path@),
                first,
            ),
    {
        self.http_client.upload_file(options.file_path.as_str(), file_exists)
    }

    /// Begins a poll for the analysis result of a request. Without options,
    /// or with options that do not ask for waiting, the first answer is the
    /// result.
    pub fn get_result(&self, request_id: &str, options: Option<GetResultOptions>) -> (r:
        ResultPoll)
        ensures
            r@ == ResultPoll::initial(request_id@, options),
    {
        ResultPoll::new(request_id, options)
    }

    /// The request that fetches the result which `poll` waits for.
    pub fn fetch_result(&self, poll: &ResultPoll) -> (r: HttpRequest)
        ensures
            r@ == (HttpRequestView {
                method: Method::Get,
                url: self.spec_config().spec_base_url() + result_endpoint(poll@.request_id),
                headers: read_headers(self.spec_config().api_key@),
                query: Seq::empty(),
                body: None,
            }),
    {
        let mut endpoint = join(MEDIA_RESULT, "/");
        endpoint.append(poll.request_id());
        self.http_client.get(endpoint.as_str())
    }

    /// Brings a payload of the service into the form handed to callers.
    pub fn normalize_scores(&self, result: &AnalysisResult) -> (r: DetectionResult)
        ensures
            r@ == normalized_result(result@),
    {
        crate::normalize::normalize_scores(result)
    }

    /// Begins the processing of a batch of files.
    pub fn process_batch(&self, file_paths: Vec<&str>, options: BatchOptions) -> (first: BatchStep)
        requires
            file_paths@.len() > 0 ==> options.spec_concurrency() > 0,
        ensures
            begins(slice_views(file_paths@), options, first),
    {
        begin(file_paths, options)
    }

    /// Begins a poll for a page of detection results, with optional filters.
    pub fn get_results(&self, options: Option<GetResultsOptions>) -> (r: PagePoll)
        ensures
            r@ == (PagePollView {
                options: match options {
                    Some(o) => o@,
                    None => GetResultsOptions::default_view(),
                },
                waiting: match options {
                    Some(o) => waits(o.max_attempts, o.polling_interval),
                    None => false,
                },
                attempts: 0,
            }),
    {
        PagePoll::new(options)
    }

    /// The request that fetches the page which `poll` waits for.
    pub fn fetch_results(&self, poll: &PagePoll) -> (r: HttpRequest)
        ensures
            r@ == (HttpRequestView {
                method: Method::Get,
                url: self.spec_config().spec_base_url() + results_endpoint(
                    poll@.options.page_number,
                ),
                headers: read_headers(self.spec_config().api_key@),
                query: results_query(poll@.options),
                body: None,
            }),
    {
        let options = poll.options();
        let page_number: u32 = match options.page_number {
            Some(n) => n,
            None => 0,
        };
        let page = decimal_string(page_number as u64);
        let mut endpoint = join(ALL_MEDIA_RESULTS, "/");
        endpoint.append(page.as_str());
        let mut params: Vec<(String, String)> = Vec::new();
        proof {
            assert(pair_views(params@) =~= Seq::empty());
        }
        match options.size {
            Some(size) => {
                let text = decimal_string(size as u64);
                push_parameter(&mut params, "size", Some(text.as_str()));
            },
            None => {
                push_parameter(&mut params, "size", None);
            },
        }
        push_parameter(&mut params, "name", as_slice(&options.name));
        push_parameter(&mut params, "startDate", as_slice(&options.start_date));
        push_parameter(&mut params, "endDate", as_slice(&options.end_date));
        proof {
            assert(pair_views(params@) =~= results_query(options@));
        }
        self.http_client.get_with_params(endpoint.as_str(), params)
    }

    /// Brings every payload of a page into the form handed to callers.
    pub fn format_results_list(&self, raw_result: &DetectionResultList) -> (r:
        FormattedDetectionResultList)
        ensures
            r@ == (FormattedDetectionResultListView {
                total_items: raw_result.total_items,
                total_pages: raw_result.total_pages,
                current_page: raw_result.current_page,
                current_page_items_count: raw_result.current_page_items_count,
                items: normalized_results(views(raw_result.items@)),
            }),
    {
        crate::normalize::format_results_list(raw_result)
    }

    /// Goes on from the upload of a file to the poll for its result: a failed
    /// upload is handed back as it is; after a successful one the result is
    /// polled, up to 150 times, 2000 milliseconds apart.
    pub fn detect_file(&self, uploaded: Result<UploadResult, Error>) -> (r: Result<
        ResultPoll,
        Error,
    >)
        ensures
            match uploaded {
                Err(e) => r == Err::<ResultPoll, Error>(e),
                Ok(upload) => r matches Ok(poll) && poll@ == ResultPoll::initial(
                    upload.request_id@,
                    Some(
                        GetResultOptions {
                            max_attempts: Some(DETECT_MAX_ATTEMPTS),
                            polling_interval: Some(DETECT_POLLING_INTERVAL),
                        },
                    ),
                ),
            },
    {
        match uploaded {
            Err(e) => Err(e),
            Ok(upload) => Ok(
                ResultPoll::new(
                    upload.request_id.as_str(),
                    Some(
                        GetResultOptions {
                            max_attempts: Some(DETECT_MAX_ATTEMPTS),
                            polling_interval: Some(DETECT_POLLING_INTERVAL),
                        },
                    ),
                ),
            ),
        }
    }
}

} // verus!
