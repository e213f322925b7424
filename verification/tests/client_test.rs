use realitydefender::client::{DETECT_MAX_ATTEMPTS, DETECT_POLLING_INTERVAL};
use realitydefender::batch::BatchStep;
use realitydefender::http::Method;
use realitydefender::polling::PollStep;
use realitydefender::{
    AnalysisResult, BatchOptions, Client, Config, Error, GetResultOptions, GetResultsOptions,
    UploadResult,
};

fn client() -> Client {
    Client::new(Config {
        api_key: "test_api_key".to_string(),
        base_url: Some("http://localhost:9".to_string()),
        timeout_seconds: None,
    })
    .unwrap()
}

fn pairs(items: &[(&str, &str)]) -> Vec<(String, String)> {
    items.iter().map(|(k, v)| (k.to_string(), v.to_string())).collect()
}

fn payload(request_id: &str, status: &str) -> AnalysisResult {
    AnalysisResult {
        request_id: request_id.to_string(),
        status: status.to_string(),
        final_score: None,
        models: Vec::new(),
        info: None,
        created_at: None,
        updated_at: None,
        results_summary: None,
    }
}

#[test]
fn a_client_is_made_from_a_valid_configuration() {
    let client = Client::new(Config {
        api_key: "test_api_key".to_string(),
        ..Default::default()
    });
    assert!(client.is_ok());
}

#[test]
fn a_client_is_refused_an_empty_api_key() {
    let client = Client::new(Config {
        api_key: "".to_string(),
        ..Default::default()
    });
    assert!(client.is_err());
    match client.unwrap_err() {
        Error::InvalidConfig(message) => assert_eq!(message, "API key is required"),
        other => panic!("expected an invalid configuration, got {:?}", other),
    }
}

#[test]
fn a_result_is_fetched_from_the_endpoint_of_its_request() {
    let client = client();
    let poll = client.get_result("test_request_id", None);
    let request = client.fetch_result(&poll);
    assert_eq!(request.method, Method::Get);
    assert_eq!(request.url, "http://localhost:9/api/media/users/test_request_id");
    assert_eq!(request.headers[0], ("X-API-KEY".to_string(), "test_api_key".to_string()));
    assert!(request.query.is_empty());
    assert_eq!(request.body, None);
    assert_eq!(client.http().config().api_key, "test_api_key");
}

#[test]
fn get_result_waits_only_when_asked_to() {
    let client = client();
    assert!(!client.get_result("r", None).is_waiting());
    assert!(!client.get_result("r", Some(GetResultOptions::default())).is_waiting());
    let options = GetResultOptions { max_attempts: Some(5), polling_interval: Some(1000) };
    let poll = client.get_result("r", Some(options));
    assert!(poll.is_waiting());
    assert_eq!(poll.request_id(), "r");
}

#[test]
fn a_waiting_poll_returns_the_completed_result() {
    let client = client();
    let options = GetResultOptions { max_attempts: Some(5), polling_interval: Some(1000) };
    let poll = client.get_result("test-wait-request", Some(options));
    let poll = match poll.step(Ok(payload("test-wait-request", "ANALYZING")), 0) {
        PollStep::Retry { poll, delay_millis } => {
            assert_eq!(delay_millis, 1000);
            poll
        }
        other => panic!("expected a retry, got {:?}", other),
    };
    let mut completed = payload("test-wait-request", "COMPLETED");
    completed.final_score = realitydefender::Score::parse("75");
    match poll.step(Ok(completed), 1) {
        PollStep::Done(Ok(result)) => {
            assert_eq!(result.request_id, "test-wait-request");
            assert_eq!(result.status, "COMPLETED");
            assert_eq!(result.score, realitydefender::Score::parse("0.75"));
        }
        other => panic!("expected a result, got {:?}", other),
    }
}

#[test]
fn a_page_is_fetched_with_its_filters_in_order() {
    let client = client();
    let poll = client.get_results(Some(GetResultsOptions {
        page_number: Some(3),
        size: Some(10),
        name: Some("test".to_string()),
        start_date: Some("2024-01-01".to_string()),
        end_date: Some("2024-12-31".to_string()),
        ..Default::default()
    }));
    assert!(!poll.is_waiting());
    let request = client.fetch_results(&poll);
    assert_eq!(request.method, Method::Get);
    assert_eq!(request.url, "http://localhost:9/api/v2/media/users/pages/3");
    assert_eq!(
        request.query,
        pairs(&[
            ("size", "10"),
            ("name", "test"),
            ("startDate", "2024-01-01"),
            ("endDate", "2024-12-31"),
        ])
    );
}

#[test]
fn a_page_without_options_is_the_first_page_unfiltered() {
    let client = client();
    let poll = client.get_results(None);
    let request = client.fetch_results(&poll);
    assert_eq!(request.url, "http://localhost:9/api/v2/media/users/pages/0");
    assert!(request.query.is_empty());

    let poll = client.get_results(Some(GetResultsOptions {
        end_date: Some("2025-12-31".to_string()),
        max_attempts: Some(30),
        polling_interval: Some(2000),
        ..Default::default()
    }));
    assert!(poll.is_waiting());
    let request = client.fetch_results(&poll);
    assert_eq!(request.query, pairs(&[("endDate", "2025-12-31")]));
}

#[test]
fn an_empty_batch_is_over_before_anything_is_sent() {
    let first = client().process_batch(
        vec![],
        BatchOptions {
            max_concurrency: Some(2),
            max_attempts: Some(10),
            polling_interval: Some(1000),
        },
    );
    match first {
        BatchStep::Done(results) => assert!(results.is_empty()),
        _ => panic!("expected the batch to be over"),
    }
}

#[test]
fn a_batch_without_waiting_gives_placeholders() {
    let first = client().process_batch(
        vec!["/tmp/test1.jpg", "/tmp/test2.jpg"],
        BatchOptions { max_concurrency: Some(2), max_attempts: None, polling_interval: None },
    );
    let phase = match first {
        BatchStep::Upload(phase) => phase,
        _ => panic!("expected uploads"),
    };
    assert_eq!(phase.group(), vec!["/tmp/test1.jpg", "/tmp/test2.jpg"]);
    let upload = |id: &str| {
        Ok(UploadResult {
            request_id: id.to_string(),
            media_id: None,
            result_url: None,
        })
    };
    match phase.uploaded(vec![upload("test-request-id-1"), upload("test-request-id-2")]) {
        BatchStep::Done(results) => {
            assert_eq!(results.len(), 2);
            assert_eq!(results[0].request_id, "test-request-id-1");
            assert_eq!(results[0].status, "PROCESSING");
            assert_eq!(results[1].request_id, "test-request-id-2");
            assert_eq!(results[1].status, "PROCESSING");
        }
        _ => panic!("expected the batch to be over"),
    }
}

#[test]
fn detecting_a_file_polls_after_a_successful_upload() {
    assert_eq!(DETECT_MAX_ATTEMPTS, 150);
    assert_eq!(DETECT_POLLING_INTERVAL, 2000);
    let client = client();
    let poll = client
        .detect_file(Ok(UploadResult {
            request_id: "test-request-id".to_string(),
            media_id: Some("test-media-id".to_string()),
            result_url: None,
        }))
        .unwrap();
    assert_eq!(poll.request_id(), "test-request-id");
    assert!(poll.is_waiting());
    match poll.step(Ok(payload("test-request-id", "ANALYZING")), 0) {
        PollStep::Retry { delay_millis, .. } => assert_eq!(delay_millis, 2000),
        other => panic!("expected a retry, got {:?}", other),
    }
}

#[test]
fn detecting_a_file_stops_at_a_failed_upload() {
    match client().detect_file(Err(Error::InvalidFile("File not found: x".to_string()))) {
        Err(Error::InvalidFile(message)) => assert_eq!(message, "File not found: x"),
        other => panic!("expected the failure, got {:?}", other),
    }
}

#[test]
fn detecting_a_file_gives_up_after_one_hundred_and_fifty_attempts() {
    let mut poll = client()
        .detect_file(Ok(UploadResult {
            request_id: "r".to_string(),
            media_id: None,
            result_url: None,
        }))
        .unwrap();
    let mut fetches: u64 = 0;
    loop {
        fetches += 1;
        match poll.step(Ok(payload("r", "ANALYZING")), 2 * fetches) {
            PollStep::Retry { poll: next, .. } => poll = next,
            PollStep::Done(Err(Error::UnknownError(message))) => {
                assert_eq!(message, "Timed out waiting for result after 300 seconds");
                break;
            }
            other => panic!("expected a retry or a timeout, got {:?}", other),
        }
    }
    assert_eq!(fetches, 150);
}
