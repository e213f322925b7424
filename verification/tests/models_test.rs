use realitydefender::models::{
    BaseResponse, SignedUrlDetails, SignedUrlResponse, UploadSocialMediaOptions,
};
use realitydefender::{
    AnalysisResult, BatchOptions, DetectionModel, FloatOrObject, GetResultOptions,
    GetResultsOptions, ResultsSummary, Score, UploadOptions, UploadResult,
};

#[test]
fn models_test_get_result_options_defaults() {
    let options = GetResultOptions::default();
    assert_eq!(options.max_attempts, None);
    assert_eq!(options.polling_interval, None);
}

#[test]
fn models_test_batch_options_defaults() {
    let options = BatchOptions::default();
    assert_eq!(options.max_concurrency, None);
    assert_eq!(options.max_attempts, None);
    assert_eq!(options.polling_interval, None);
}

#[test]
fn get_results_options_default_to_nothing() {
    let options = GetResultsOptions::default();
    assert_eq!(options.page_number, None);
    assert_eq!(options.size, None);
    assert_eq!(options.name, None);
    assert_eq!(options.start_date, None);
    assert_eq!(options.end_date, None);
    assert_eq!(options.max_attempts, None);
    assert_eq!(options.polling_interval, None);
}

#[test]
fn base_response_defaults_to_empty() {
    let response = BaseResponse::default();
    assert_eq!(response.code, "");
    assert_eq!(response.errno, 0);
    assert_eq!(response.response, "");
    assert_eq!(response.request_id, None);
}

#[test]
fn plain_models_hold_what_they_are_given() {
    let options = UploadOptions { file_path: "path/to/file.jpg".to_string() };
    assert_eq!(options.file_path, "path/to/file.jpg");

    let link = UploadSocialMediaOptions { social_link: "https://example.com/p/1".to_string() };
    assert_eq!(link.social_link, "https://example.com/p/1");

    let signed = SignedUrlResponse {
        code: "success".to_string(),
        errno: 0,
        request_id: "r".to_string(),
        media_id: "m".to_string(),
        response: SignedUrlDetails { signed_url: "https://bucket/put".to_string() },
    };
    assert_eq!(signed.response.signed_url, "https://bucket/put");

    let upload = UploadResult {
        request_id: "r".to_string(),
        media_id: Some("m".to_string()),
        result_url: None,
    };
    assert_eq!(upload.clone().request_id, "r");
    assert_eq!(upload.media_id, Some("m".to_string()));
}

#[test]
fn detection_model_holds_numbers_and_objects() {
    let mut info = serde_json::Map::new();
    info.insert("confidence".to_string(), serde_json::Value::from("high"));
    let model = DetectionModel {
        name: "TestModel".to_string(),
        status: "COMPLETED".to_string(),
        prediction_number: Some(FloatOrObject::Float(Score::parse("92.5").unwrap())),
        normalized_prediction_number: Score::parse("85.0"),
        final_score: Score::parse("80.0"),
        info: Some(serde_json::Value::Object(info)),
    };
    assert_eq!(model.name, "TestModel");
    assert_eq!(model.status, "COMPLETED");
    assert_eq!(model.final_score, Some(Score::new(800, -1)));
    assert_eq!(model.info.unwrap()["confidence"], "high");

    let mut reason = serde_json::Map::new();
    reason.insert("decision".to_string(), serde_json::Value::from("NOT_EVALUATED"));
    let unscored = DetectionModel {
        name: "ModelC".to_string(),
        status: "NOT_APPLICABLE".to_string(),
        prediction_number: Some(FloatOrObject::Object(reason)),
        normalized_prediction_number: None,
        final_score: None,
        info: None,
    };
    assert!(matches!(unscored.prediction_number, Some(FloatOrObject::Object(_))));
}

#[test]
fn analysis_result_holds_its_summary() {
    let mut metadata = serde_json::Map::new();
    metadata.insert("finalScore".to_string(), serde_json::Value::from(75));
    metadata.insert("modelCount".to_string(), serde_json::Value::from(2));
    let result = AnalysisResult {
        request_id: "test-request-123".to_string(),
        status: "COMPLETED".to_string(),
        final_score: Score::parse("75"),
        models: Vec::new(),
        info: None,
        created_at: Some("2023-01-01T12:00:00Z".to_string()),
        updated_at: Some("2023-01-01T12:05:00Z".to_string()),
        results_summary: Some(ResultsSummary {
            status: "COMPLETED".to_string(),
            metadata: Some(metadata),
        }),
    };
    assert_eq!(result.request_id, "test-request-123");
    assert_eq!(result.final_score, Some(Score::new(75, 0)));
    assert_eq!(result.created_at, Some("2023-01-01T12:00:00Z".to_string()));
    let summary = result.clone().results_summary.unwrap();
    assert_eq!(summary.status, "COMPLETED");
    assert_eq!(summary.metadata.unwrap()["finalScore"], 75);
}
