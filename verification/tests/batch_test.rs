use realitydefender::batch::{
    append_successes, append_surviving, begin, placeholder_results, BatchStep,
    DEFAULT_MAX_CONCURRENCY,
};
use realitydefender::{BatchOptions, DetectionResult, Error, UploadResult};

fn uploaded(request_id: &str) -> Result<UploadResult, Error> {
    Ok(UploadResult {
        request_id: request_id.to_string(),
        media_id: Some(format!("media-{}", request_id)),
        result_url: None,
    })
}

fn polled(request_id: &str, status: &str) -> Result<DetectionResult, Error> {
    Ok(DetectionResult {
        request_id: request_id.to_string(),
        status: status.to_string(),
        score: None,
        models: Vec::new(),
    })
}

fn options(
    max_concurrency: Option<usize>,
    max_attempts: Option<u64>,
    polling_interval: Option<u64>,
) -> BatchOptions {
    BatchOptions { max_concurrency, max_attempts, polling_interval }
}

/// What a run of a batch did: the groups it uploaded, the groups it polled,
/// and its results.
struct Run {
    upload_groups: Vec<Vec<String>>,
    poll_groups: Vec<Vec<String>>,
    results: Vec<DetectionResult>,
}

/// Runs a batch. Files whose path holds `bad` fail to upload, the others get
/// their path as request identifier; requests whose identifier holds `slow`
/// fail to be polled.
fn run(paths: Vec<&str>, options: BatchOptions) -> Run {
    let mut upload_groups = Vec::new();
    let mut poll_groups = Vec::new();
    let mut step = begin(paths, options);
    loop {
        step = match step {
            BatchStep::Upload(phase) => {
                let group = phase.group();
                let outcomes = group
                    .iter()
                    .map(|path| {
                        if path.contains("bad") {
                            Err(Error::InvalidFile(format!("File not found: {}", path)))
                        } else {
                            uploaded(&format!("id:{}", path))
                        }
                    })
                    .collect();
                upload_groups.push(group);
                phase.uploaded(outcomes)
            }
            BatchStep::Poll(phase) => {
                let group = phase.group();
                assert_eq!(phase.options().max_attempts, options.max_attempts);
                assert_eq!(phase.options().polling_interval, options.polling_interval);
                let outcomes = group
                    .iter()
                    .map(|id| {
                        if id.contains("slow") {
                            Err(Error::UnknownError(
                                "Timed out waiting for result after 9 seconds".to_string(),
                            ))
                        } else {
                            polled(id, "COMPLETED")
                        }
                    })
                    .collect();
                poll_groups.push(group);
                phase.polled(outcomes)
            }
            BatchStep::Done(results) => {
                return Run { upload_groups, poll_groups, results };
            }
        }
    }
}

fn ids(results: &[DetectionResult]) -> Vec<&str> {
    results.iter().map(|r| r.request_id.as_str()).collect()
}

#[test]
fn the_default_cap_is_five() {
    assert_eq!(DEFAULT_MAX_CONCURRENCY, 5);
    assert_eq!(BatchOptions::default().concurrency(), 5);
    assert_eq!(options(Some(2), None, None).concurrency(), 2);
    let polling = options(Some(2), Some(10), Some(1000)).polling();
    assert_eq!(polling.max_attempts, Some(10));
    assert_eq!(polling.polling_interval, Some(1000));
}

#[test]
fn scenario_an_empty_batch_is_over_at_once() {
    let done = run(Vec::new(), options(Some(2), Some(10), Some(1000)));
    assert!(done.results.is_empty());
    assert!(done.upload_groups.is_empty());
    assert!(done.poll_groups.is_empty());

    let done = run(Vec::new(), BatchOptions::default());
    assert!(done.results.is_empty());
    assert!(done.upload_groups.is_empty());
}

#[test]
fn without_waiting_each_upload_gets_a_placeholder() {
    let done = run(vec!["a.jpg", "b.jpg"], options(Some(2), None, None));
    assert_eq!(done.upload_groups, vec![vec!["a.jpg", "b.jpg"]]);
    assert!(done.poll_groups.is_empty());
    assert_eq!(done.results.len(), 2);
    assert_eq!(done.results[0].request_id, "id:a.jpg");
    assert_eq!(done.results[0].status, "PROCESSING");
    assert_eq!(done.results[0].score, None);
    assert!(done.results[0].models.is_empty());
    assert_eq!(done.results[1].request_id, "id:b.jpg");
    assert_eq!(done.results[1].status, "PROCESSING");
}

#[test]
fn files_are_uploaded_in_groups_no_larger_than_the_cap() {
    let paths = vec!["1", "2", "3", "4", "5", "6", "7"];
    let done = run(paths, options(Some(3), None, None));
    assert_eq!(
        done.upload_groups,
        vec![vec!["1", "2", "3"], vec!["4", "5", "6"], vec!["7"]]
    );
    assert_eq!(
        ids(&done.results),
        vec!["id:1", "id:2", "id:3", "id:4", "id:5", "id:6", "id:7"]
    );
}

#[test]
fn the_default_cap_groups_by_five() {
    let paths = vec!["1", "2", "3", "4", "5", "6"];
    let done = run(paths, BatchOptions::default());
    assert_eq!(done.upload_groups, vec![vec!["1", "2", "3", "4", "5"], vec!["6"]]);
}

#[test]
fn a_cap_of_one_uploads_one_by_one() {
    let done = run(vec!["a", "b", "c"], options(Some(1), Some(2), Some(10)));
    assert_eq!(done.upload_groups, vec![vec!["a"], vec!["b"], vec!["c"]]);
    assert_eq!(done.poll_groups, vec![vec!["id:a"], vec!["id:b"], vec!["id:c"]]);
    assert_eq!(ids(&done.results), vec!["id:a", "id:b", "id:c"]);
}

#[test]
fn a_cap_larger_than_the_batch_makes_one_group() {
    let done = run(vec!["a", "b"], options(Some(usize::MAX), None, None));
    assert_eq!(done.upload_groups, vec![vec!["a", "b"]]);
}

#[test]
fn failed_uploads_are_left_out_and_the_order_is_kept() {
    let paths = vec!["a", "bad-1", "b", "c", "bad-2"];
    let done = run(paths, options(Some(2), None, None));
    assert_eq!(ids(&done.results), vec!["id:a", "id:b", "id:c"]);
    assert!(done.results.len() <= 5);
}

#[test]
fn with_waiting_the_surviving_requests_are_polled_in_groups() {
    let paths = vec!["a", "bad", "b", "c", "d"];
    let done = run(paths, options(Some(3), Some(10), Some(1000)));
    assert_eq!(done.upload_groups, vec![vec!["a", "bad", "b"], vec!["c", "d"]]);
    assert_eq!(done.poll_groups, vec![vec!["id:a", "id:b", "id:c"], vec!["id:d"]]);
    assert_eq!(ids(&done.results), vec!["id:a", "id:b", "id:c", "id:d"]);
    assert!(done.results.iter().all(|r| r.status == "COMPLETED"));
}

#[test]
fn failed_polls_are_left_out_and_the_others_are_kept() {
    let paths = vec!["a", "slow-1", "b", "slow-2", "c"];
    let done = run(paths, options(Some(2), Some(10), Some(1000)));
    assert_eq!(ids(&done.results), vec!["id:a", "id:b", "id:c"]);
}

#[test]
fn a_batch_whose_uploads_all_fail_gives_nothing_and_polls_nothing() {
    let done = run(vec!["bad-1", "bad-2", "bad-3"], options(Some(2), Some(10), Some(1000)));
    assert!(done.results.is_empty());
    assert!(done.poll_groups.is_empty());
    let done = run(vec!["bad-1", "bad-2", "bad-3"], options(Some(2), None, None));
    assert!(done.results.is_empty());
}

#[test]
fn a_batch_whose_polls_all_fail_gives_nothing() {
    let done = run(vec!["slow-1", "slow-2"], options(Some(2), Some(10), Some(1000)));
    assert!(done.results.is_empty());
    assert_eq!(done.poll_groups.len(), 1);
}

#[test]
fn a_batch_gives_no_more_results_than_files_and_only_uploaded_requests() {
    let names = ["a", "bad-b", "slow-c", "d", "bad-e", "f", "slow-g", "h"];
    for count in 0..=names.len() {
        for cap in 1..4usize {
            for waits in [false, true] {
                let paths: Vec<&str> = names[..count].to_vec();
                let wait = if waits { Some(3) } else { None };
                let done = run(paths.clone(), options(Some(cap), wait, wait));
                assert!(done.results.len() <= paths.len());
                let uploaded: Vec<String> = paths
                    .iter()
                    .filter(|p| !p.contains("bad"))
                    .map(|p| format!("id:{}", p))
                    .collect();
                let mut from = 0;
                for result in &done.results {
                    let at = uploaded[from..]
                        .iter()
                        .position(|id| *id == result.request_id)
                        .expect("a result for a request that was not uploaded, or out of order");
                    from += at + 1;
                }
                for group in done.upload_groups.iter().chain(done.poll_groups.iter()) {
                    assert!(!group.is_empty() && group.len() <= cap);
                }
            }
        }
    }
}

#[test]
fn surviving_requests_are_appended_in_order() {
    let mut request_ids = vec!["first".to_string()];
    append_surviving(
        &mut request_ids,
        vec![uploaded("a"), Err(Error::NotFound), uploaded("b")],
    );
    assert_eq!(request_ids, vec!["first", "a", "b"]);
    append_surviving(&mut request_ids, Vec::new());
    assert_eq!(request_ids.len(), 3);
}

#[test]
fn successful_results_are_appended_in_order() {
    let mut results = Vec::new();
    append_successes(
        &mut results,
        vec![
            Err(Error::NotFound),
            polled("a", "COMPLETED"),
            polled("b", "MANIPULATED"),
            Err(Error::UnknownError("late".to_string())),
        ],
    );
    assert_eq!(ids(&results), vec!["a", "b"]);
    assert_eq!(results[1].status, "MANIPULATED");
}

#[test]
fn placeholders_say_processing() {
    let results = placeholder_results(vec!["x".to_string(), "y".to_string()]);
    assert_eq!(ids(&results), vec!["x", "y"]);
    assert!(results.iter().all(|r| r.status == "PROCESSING"));
    assert!(results.iter().all(|r| r.score.is_none() && r.models.is_empty()));
    assert!(placeholder_results(Vec::new()).is_empty());
}
