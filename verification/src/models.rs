//! The values exchanged with the detection service and handed to callers.

use vstd::prelude::*;
use vstd::string::*;
use crate::decimal::parse_number;
use crate::score::Score;
use crate::text::text_view;

verus! {

/// `serde_json::Value`: any JSON value. It is carried through unopened.
#[verifier::external_type_specification]
#[verifier::external_body]
pub struct ExJsonValue(serde_json::Value);

/// `serde_json::Map`: a JSON object. Of its contents only the numbers are
/// read, through [`number_texts`].
#[verifier::external_type_specification]
#[verifier::external_body]
#[verifier::reject_recursive_types(K)]
#[verifier::reject_recursive_types(V)]
pub struct ExJsonObject<K, V>(serde_json::Map<K, V>);

/// The numbers in a JSON object: each key whose value is a number, with the
/// text of that number.
pub uninterp spec fn number_texts(object: serde_json::Map<String, serde_json::Value>) -> Map<
    Seq<char>,
    Seq<char>,
>;

/// `serde_json::Map::get`, followed by the `Display` of the number found: the
/// text of the number stored under `key`, or `None` where the object has no
/// such key or holds something other than a number there.
#[verifier::external_body]
pub(crate) fn number_text_at(
    object: &serde_json::Map<String, serde_json::Value>,
    key: &str,
) -> (r: Option<String>)
    ensures
        r is Some <==> number_texts(*object).contains_key(key@),
        r matches Some(t) ==> t@ == number_texts(*object)[key@],
{
    match object.get(key) {
        Some(serde_json::Value::Number(n)) => Some(n.to_string()),
        _ => None,
    }
}

/// `Clone` of a JSON object: the copy holds the numbers that the object holds.
pub assume_specification[ <serde_json::Map<String, serde_json::Value> as Clone>::clone ](
    object: &serde_json::Map<String, serde_json::Value>,
) -> (r: serde_json::Map<String, serde_json::Value>)
    ensures
        number_texts(r) == number_texts(*object),
;

/// The views of the elements of a sequence.
pub open spec fn views<T: View>(s: Seq<T>) -> Seq<T::V> {
    s.map_values(|x: T| x@)
}

/// Base API response
#[derive(Debug, Clone)]
pub struct BaseResponse {
    /// Status code from the API
    pub code: String,
    /// Error number (0 if successful)
    pub errno: i32,
    /// Response message.
    pub response: String,
    /// Identifier of the request, where the API names one.
    pub request_id: Option<String>,
}

impl Default for BaseResponse {
    fn default() -> (r: BaseResponse)
        ensures
            r.code@.len() == 0,
            r.errno == 0,
            r.response@.len() == 0,
            r.request_id is None,
    {
        BaseResponse { code: String::new(), errno: 0, response: String::new(), request_id: None }
    }
}

/// Options for uploading a file
#[derive(Debug, Clone)]
pub struct UploadOptions {
    /// Path to the file to upload
    pub file_path: String,
}

/// Options for submitting a link to a social-media post
#[derive(Debug, Clone)]
pub struct UploadSocialMediaOptions {
    /// Address of the post
    pub social_link: String,
}

/// Details of the signed URL response
#[derive(Debug, Clone)]
pub struct SignedUrlDetails {
    /// The presigned URL for uploading
    pub signed_url: String,
}

/// Response containing a presigned URL for file upload
#[derive(Debug, Clone)]
pub struct SignedUrlResponse {
    /// Status code from the API
    pub code: String,
    /// Error number (0 if successful)
    pub errno: i32,
    /// Unique identifier for the upload request
    pub request_id: String,
    /// Unique identifier for the media
    pub media_id: String,
    /// Response details containing the signed URL
    pub response: SignedUrlDetails,
}

/// Result of an upload operation
#[derive(Debug, Clone)]
pub struct UploadResult {
    /// Unique identifier for the upload request
    pub request_id: String,
    /// Unique identifier for the media
    pub media_id: Option<String>,
    /// URL where the result can be accessed
    pub result_url: Option<String>,
}

pub struct UploadResultView {
    pub request_id: Seq<char>,
    pub media_id: Option<Seq<char>>,
    pub result_url: Option<Seq<char>>,
}

impl View for UploadResult {
    type V = UploadResultView;

    open spec fn view(&self) -> UploadResultView {
        UploadResultView {
            request_id: self.request_id@,
            media_id: text_view(self.media_id),
            result_url: text_view(self.result_url),
        }
    }
}

/// Options for getting a result
#[derive(Debug, Clone, Copy)]
pub struct GetResultOptions {
    /// Maximum number of attempts to get results
    pub max_attempts: Option<u64>,
    /// How long to wait between attempts, in milliseconds
    pub polling_interval: Option<u64>,
}

impl Default for GetResultOptions {
    fn default() -> (r: GetResultOptions)
        ensures
            r.max_attempts is None,
            r.polling_interval is None,
    {
        GetResultOptions { max_attempts: None, polling_interval: None }
    }
}

/// A model's prediction as the service writes it: a number, or an object that
/// says why the model gave none.
#[derive(Debug, Clone)]
pub enum FloatOrObject {
    Float(Score),
    Object(serde_json::Map<String, serde_json::Value>),
}

/// Model-specific detection results, as the service sends them
#[derive(Debug, Clone)]
pub struct DetectionModel {
    /// Name of the model
    pub name: String,
    /// Status of the detection (COMPLETED, PROCESSING, ERROR, etc.)
    pub status: String,
    /// Raw prediction number from the model
    pub prediction_number: Option<FloatOrObject>,
    /// Normalized prediction number (typically 0-100 scale)
    pub normalized_prediction_number: Option<Score>,
    /// Final score for this model (typically 0-100 scale)
    pub final_score: Option<Score>,
    /// Additional information about the detection
    pub info: Option<serde_json::Value>,
}

pub struct DetectionModelView {
    pub name: Seq<char>,
    pub status: Seq<char>,
    /// The prediction, where it is a number.
    pub prediction_number: Option<Score>,
    pub normalized_prediction_number: Option<Score>,
    pub final_score: Option<Score>,
}

impl View for DetectionModel {
    type V = DetectionModelView;

    open spec fn view(&self) -> DetectionModelView {
        DetectionModelView {
            name: self.name@,
            status: self.status@,
            prediction_number: match self.prediction_number {
                Some(FloatOrObject::Float(s)) => Some(s),
                _ => None,
            },
            normalized_prediction_number: self.normalized_prediction_number,
            final_score: self.final_score,
        }
    }
}

/// Summary of analysis results
#[derive(Debug, Clone)]
pub struct ResultsSummary {
    /// Status of the analysis
    pub status: String,
    /// Metadata containing score and other information
    pub metadata: Option<serde_json::Map<String, serde_json::Value>>,
}

pub struct ResultsSummaryView {
    pub status: Seq<char>,
    /// The number that the metadata holds under `finalScore`, if any.
    pub final_score: Option<Score>,
}

impl View for ResultsSummary {
    type V = ResultsSummaryView;

    open spec fn view(&self) -> ResultsSummaryView {
        ResultsSummaryView {
            status: self.status@,
            final_score: match self.metadata {
                Some(object) => if number_texts(object).contains_key("finalScore"@) {
                    parse_number(number_texts(object)["finalScore"@])
                } else {
                    None
                },
                None => None,
            },
        }
    }
}

/// Result of an analysis, as the service sends it
#[derive(Debug, Clone)]
pub struct AnalysisResult {
    /// Unique identifier for the analysis request
    pub request_id: String,
    /// Status of the analysis (COMPLETED, ANALYZING, ERROR, etc.)
    pub status: String,
    /// Overall detection score (typically 0-100 scale)
    pub final_score: Option<Score>,
    /// Array of model-specific results
    pub models: Vec<DetectionModel>,
    /// Additional information about the analysis
    pub info: Option<serde_json::Value>,
    /// Timestamp when the analysis was created
    pub created_at: Option<String>,
    /// Timestamp when the analysis was updated
    pub updated_at: Option<String>,
    /// Results summary containing status and metadata
    pub results_summary: Option<ResultsSummary>,
}

pub struct AnalysisResultView {
    pub request_id: Seq<char>,
    pub status: Seq<char>,
    pub final_score: Option<Score>,
    pub models: Seq<DetectionModelView>,
    pub results_summary: Option<ResultsSummaryView>,
}

impl View for AnalysisResult {
    type V = AnalysisResultView;

    open spec fn view(&self) -> AnalysisResultView {
        AnalysisResultView {
            request_id: self.request_id@,
            status: self.status@,
            final_score: self.final_score,
            models: views(self.models@),
            results_summary: match self.results_summary {
                Some(summary) => Some(summary@),
                None => None,
            },
        }
    }
}

/// Options for batch processing
#[derive(Debug, Clone, Copy)]
pub struct BatchOptions {
    /// Maximum number of concurrent uploads
    pub max_concurrency: Option<usize>,
    /// Maximum number of attempts to get results
    pub max_attempts: Option<u64>,
    /// How long to wait between attempts, in milliseconds
    pub polling_interval: Option<u64>,
}

impl Default for BatchOptions {
    fn default() -> (r: BatchOptions)
        ensures
            r.max_concurrency is None,
            r.max_attempts is None,
            r.polling_interval is None,
    {
        BatchOptions { max_concurrency: None, max_attempts: None, polling_interval: None }
    }
}

/// One model's part of a detection result
#[derive(Debug, Clone)]
pub struct DetectionModelResult {
    /// Name of the model
    pub name: String,
    /// Status of the detection (COMPLETED, PROCESSING, ERROR, etc.)
    pub status: String,
    /// Detection score (0-1 range, higher is more likely to be manipulated)
    pub score: Option<Score>,
}

pub struct DetectionModelResultView {
    pub name: Seq<char>,
    pub status: Seq<char>,
    pub score: Option<Score>,
}

impl View for DetectionModelResult {
    type V = DetectionModelResultView;

    open spec fn view(&self) -> DetectionModelResultView {
        DetectionModelResultView { name: self.name@, status: self.status@, score: self.score }
    }
}

/// A detection result in the form handed to callers
#[derive(Debug, Clone)]
pub struct DetectionResult {
    /// Unique identifier for the upload request
    pub request_id: String,
    /// Status of the analysis (COMPLETED, PROCESSING, ERROR, etc.)
    pub status: String,
    /// Confidence score (0-1 range, absent while processing)
    pub score: Option<Score>,
    /// Results from individual detection models
    pub models: Vec<DetectionModelResult>,
}

pub struct DetectionResultView {
    pub request_id: Seq<char>,
    pub status: Seq<char>,
    pub score: Option<Score>,
    pub models: Seq<DetectionModelResultView>,
}

impl View for DetectionResult {
    type V = DetectionResultView;

    open spec fn view(&self) -> DetectionResultView {
        DetectionResultView {
            request_id: self.request_id@,
            status: self.status@,
            score: self.score,
            models: views(self.models@),
        }
    }
}

/// Options for getting results with pagination and filtering
#[derive(Debug, Clone)]
pub struct GetResultsOptions {
    /// Page number (0-based)
    pub page_number: Option<u32>,
    /// Number of items per page
    pub size: Option<u32>,
    /// Filter by name
    pub name: Option<String>,
    /// Start date filter (YYYY-MM-DD format)
    pub start_date: Option<String>,
    /// End date filter (YYYY-MM-DD format)
    pub end_date: Option<String>,
    /// Maximum number of attempts to get results
    pub max_attempts: Option<u64>,
    /// How long to wait between attempts, in milliseconds
    pub polling_interval: Option<u64>,
}

pub struct GetResultsOptionsView {
    pub page_number: Option<u32>,
    pub size: Option<u32>,
    pub name: Option<Seq<char>>,
    pub start_date: Option<Seq<char>>,
    pub end_date: Option<Seq<char>>,
    pub max_attempts: Option<u64>,
    pub polling_interval: Option<u64>,
}

impl View for GetResultsOptions {
    type V = GetResultsOptionsView;

    open spec fn view(&self) -> GetResultsOptionsView {
        GetResultsOptionsView {
            page_number: self.page_number,
            size: self.size,
            name: text_view(self.name),
            start_date: text_view(self.start_date),
            end_date: text_view(self.end_date),
            max_attempts: self.max_attempts,
            polling_interval: self.polling_interval,
        }
    }
}

impl GetResultsOptions {
    /// The options that ask for the first page, unfiltered, without waiting.
    pub open spec fn default_view() -> GetResultsOptionsView {
        GetResultsOptionsView {
            page_number: None,
            size: None,
            name: None,
            start_date: None,
            end_date: None,
            max_attempts: None,
            polling_interval: None,
        }
    }
}

impl Default for GetResultsOptions {
    fn default() -> (r: GetResultsOptions)
        ensures
            r@ == GetResultsOptions::default_view(),
    {
        GetResultsOptions {
            page_number: None,
            size: None,
            name: None,
            start_date: None,
            end_date: None,
            max_attempts: None,
            polling_interval: None,
        }
    }
}

/// Paginated list of results, as the service sends it
#[derive(Debug, Clone)]
pub struct DetectionResultList {
    /// Total number of items across all pages
    pub total_items: u32,
    /// Total number of pages
    pub total_pages: u32,
    /// Current page number (0-based)
    pub current_page: u32,
    /// Number of items on current page
    pub current_page_items_count: u32,
    /// List of results for this page
    pub items: Vec<AnalysisResult>,
}

/// Paginated list of detection results in the form handed to callers
#[derive(Debug, Clone)]
pub struct FormattedDetectionResultList {
    /// Total number of items across all pages
    pub total_items: u32,
    /// Total number of pages
    pub total_pages: u32,
    /// Current page number (0-based)
    pub current_page: u32,
    /// Number of items on current page
    pub current_page_items_count: u32,
    /// List of detection results for this page
    pub items: Vec<DetectionResult>,
}

pub struct FormattedDetectionResultListView {
    pub total_items: u32,
    pub total_pages: u32,
    pub current_page: u32,
    pub current_page_items_count: u32,
    pub items: Seq<DetectionResultView>,
}

impl View for FormattedDetectionResultList {
    type V = FormattedDetectionResultListView;

    open spec fn view(&self) -> FormattedDetectionResultListView {
        FormattedDetectionResultListView {
            total_items: self.total_items,
            total_pages: self.total_pages,
            current_page: self.current_page,
            current_page_items_count: self.current_page_items_count,
            items: views(self.items@),
        }
    }
}

} // verus!
