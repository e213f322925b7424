//! Waiting for an analysis to finish.
//!
//! The service answers a request for a result at once, with the status
//! `ANALYZING` while it is still at work. A poll asks again and again, with a
//! pause between two attempts, until another status comes or the attempts
//! are used up. What is decided here is what to do after each answer; asking
//! and pausing are left to the caller, who hands each answer back together
//! with the time that has passed since the poll began.

use vstd::prelude::*;
use vstd::string::*;
use crate::error::Error;
use crate::models::{
    views, AnalysisResult, AnalysisResultView, DetectionResult, DetectionResultList,
    DetectionResultView,
    FormattedDetectionResultList, FormattedDetectionResultListView, GetResultOptions,
    GetResultsOptions, GetResultsOptionsView,
};
use crate::normalize::{
    format_results_list, normalize_scores, normalized_result, normalized_results,
    STATUS_ANALYZING,
};
use crate::text::{decimal_string, decimal_text, join};

verus! {

/// Whether a policy asks for waiting: both the number of attempts and the
/// pause between them must be given and be more than zero.
pub open spec fn waits(max_attempts: Option<u64>, polling_interval: Option<u64>) -> bool {
    &&& max_attempts matches Some(attempts)
    &&& attempts > 0
    &&& polling_interval matches Some(interval)
    &&& interval > 0
}

/// Whether a policy asks for waiting.
pub fn should_wait(max_attempts: Option<u64>, polling_interval: Option<u64>) -> (r: bool)
    ensures
        r == waits(max_attempts, polling_interval),
{
    match (max_attempts, polling_interval) {
        (Some(attempts), Some(interval)) => attempts > 0 && interval > 0,
        _ => false,
    }
}

/// What follows an answer of the service.
#[derive(Clone, Copy, Debug, PartialEq, Eq, Structural)]
pub enum Verdict {
    /// The answer is handed to the caller.
    Finish,
    /// The service is asked again after a pause.
    Retry,
    /// The attempts are used up.
    TimedOut,
}

/// What follows the answer to attempt number `made`, counted from one.
/// Without waiting the first answer is final. With waiting, an answer that is
/// no longer in progress is final; one that is in progress leads to another
/// attempt while attempts are left, and to a timeout once they are used up.
pub open spec fn verdict(waiting: bool, max_attempts: int, made: int, in_progress: bool) -> Verdict {
    if !waiting || !in_progress {
        Verdict::Finish
    } else if made < max_attempts {
        Verdict::Retry
    } else {
        Verdict::TimedOut
    }
}

/// What a poll comes to when the service's answers are in progress or not as
/// `script` says, one entry for each attempt, after `made` attempts were made
/// already: the verdict that ends the poll, and the number of attempts made
/// by then. Where the script ends before the poll does, the verdict is
/// `Retry`.
pub open spec fn poll_run(waiting: bool, max_attempts: int, made: int, script: Seq<bool>) -> (
    Verdict,
    int,
)
    decreases script.len(),
{
    if script.len() == 0 {
        (Verdict::Retry, made)
    } else {
        let now = verdict(waiting, max_attempts, made + 1, script[0]);
        if now == Verdict::Retry {
            poll_run(waiting, max_attempts, made + 1, script.drop_first())
        } else {
            (now, made + 1)
        }
    }
}

/// Decides what follows the answer to attempt number `made`.
pub fn decide(waiting: bool, max_attempts: u64, made: u64, in_progress: bool) -> (r: Verdict)
    ensures
        r == verdict(waiting, max_attempts as int, made as int, in_progress),
{
    if !waiting || !in_progress {
        Verdict::Finish
    } else if made < max_attempts {
        Verdict::Retry
    } else {
        Verdict::TimedOut
    }
}

/// A poll whose first `k` answers are in progress and whose next answer is
/// not ends with that answer, after `k + 1` attempts, where more than `k`
/// attempts are allowed; where `k` or fewer are allowed it times out, after
/// all of them were made.
pub proof fn lemma_poll_terminates(max_attempts: int, made: int, k: int, script: Seq<bool>)
    requires
        0 <= made < max_attempts,
        0 <= k < script.len(),
        forall|i: int| 0 <= i < k ==> script[i],
        !script[k],
    ensures
        max_attempts - made > k ==> poll_run(true, max_attempts, made, script) == (
            Verdict::Finish,
            made + k + 1,
        ),
        max_attempts - made <= k ==> poll_run(true, max_attempts, made, script) == (
            Verdict::TimedOut,
            max_attempts,
        ),
    decreases k,
{
    if k > 0 {
        assert(script[0]);
        if made + 1 < max_attempts {
            let rest = script.drop_first();
            assert forall|i: int| 0 <= i < k - 1 implies rest[i] by {
                assert(rest[i] == script[i + 1]);
            }
            assert(rest[k - 1] == script[k]);
            lemma_poll_terminates(max_attempts, made + 1, k - 1, rest);
        }
    }
}

/// For each answer of the service, whether it is in progress.
pub open spec fn script_of(answers: Seq<AnalysisResultView>) -> Seq<bool> {
    answers.map_values(|raw: AnalysisResultView| in_progress(normalized_result(raw).status))
}

/// A poll against a service that answers `ANALYZING` `k` times and
/// `COMPLETED` after that ends with the completed answer, after `k + 1`
/// attempts, where more than `k` attempts are allowed; where `k` or fewer
/// are allowed it times out, after all of them were made.
pub proof fn lemma_poll_against_stub(max_attempts: int, k: int, answers: Seq<AnalysisResultView>)
    requires
        max_attempts >= 1,
        0 <= k < answers.len(),
        forall|i: int| 0 <= i < k ==> (#[trigger] answers[i]).status == "ANALYZING"@,
        answers[k].status == "COMPLETED"@,
    ensures
        max_attempts > k ==> poll_run(true, max_attempts, 0, script_of(answers)) == (
            Verdict::Finish,
            k + 1,
        ),
        max_attempts <= k ==> poll_run(true, max_attempts, 0, script_of(answers)) == (
            Verdict::TimedOut,
            max_attempts,
        ),
{
    reveal_strlit("ANALYZING");
    reveal_strlit("COMPLETED");
    reveal_strlit("FAKE");
    assert("ANALYZING"@.len() == 9);
    assert("FAKE"@.len() == 4);
    assert("ANALYZING"@[0] == 'A');
    assert("COMPLETED"@[0] == 'C');
    let script = script_of(answers);
    assert forall|i: int| 0 <= i < k implies script[i] by {
        assert(answers[i].status == "ANALYZING"@);
    }
    lemma_poll_terminates(max_attempts, 0, k, script);
}

/// Without waiting a poll ends with the first answer, whatever it says.
pub proof fn lemma_poll_without_waiting(max_attempts: int, script: Seq<bool>)
    requires
        script.len() > 0,
    ensures
        poll_run(false, max_attempts, 0, script) == (Verdict::Finish, 1int),
{
}

/// Whether a status says that the analysis is still under way.
pub open spec fn in_progress(status: Seq<char>) -> bool {
    status == "ANALYZING"@
}

/// Whether any result of a page is still under way.
pub open spec fn any_in_progress(items: Seq<DetectionResultView>) -> bool {
    exists|i: int| 0 <= i < items.len() && in_progress(#[trigger] items[i].status)
}

/// The message of the error that ends a poll whose attempts are used up.
/// `subject` names what was waited for.
pub open spec fn timeout_message(subject: Seq<char>, elapsed_secs: u64) -> Seq<char> {
    "Timed out waiting for "@ + subject + " after "@ + decimal_text(elapsed_secs as nat)
        + " seconds"@
}

/// The error that ends a poll whose attempts are used up.
pub fn timeout_error(subject: &str, elapsed_secs: u64) -> (r: Error)
    ensures
        r matches Error::UnknownError(message) && message@ == timeout_message(
            subject@,
            elapsed_secs,
        ),
{
    let mut message = join("Timed out waiting for ", subject);
    message.append(" after ");
    let seconds = decimal_string(elapsed_secs);
    message.append(seconds.as_str());
    message.append(" seconds");
    Error::UnknownError(message)
}

/// The state of a poll for one result.
#[derive(Debug)]
pub struct ResultPoll {
    request_id: String,
    max_attempts: u64,
    polling_interval: u64,
    waiting: bool,
    attempts: u64,
}

pub struct ResultPollView {
    pub request_id: Seq<char>,
    pub max_attempts: u64,
    pub polling_interval: u64,
    pub waiting: bool,
    /// The number of answers received so far.
    pub attempts: u64,
}

/// What a poll for one result does next.
#[derive(Debug)]
pub enum PollStep {
    /// Pause for so many milliseconds, ask again, and hand the answer to the
    /// poll given here.
    Retry { poll: ResultPoll, delay_millis: u64 },
    /// The poll is over, with this outcome.
    Done(Result<DetectionResult, Error>),
}

impl View for ResultPoll {
    type V = ResultPollView;

    closed spec fn view(&self) -> ResultPollView {
        ResultPollView {
            request_id: self.request_id@,
            max_attempts: self.max_attempts,
            polling_interval: self.polling_interval,
            waiting: self.waiting,
            attempts: self.attempts,
        }
    }
}

impl ResultPoll {
    #[verifier::type_invariant]
    spec fn attempts_left(self) -> bool {
        self.attempts < u64::MAX
    }

    /// The poll for `request_id` under `options`, before its first attempt.
    pub open spec fn initial(request_id: Seq<char>, options: Option<GetResultOptions>)
        -> ResultPollView {
        let max_attempts = match options {
            Some(o) => o.max_attempts,
            None => None,
        };
        let polling_interval = match options {
            Some(o) => o.polling_interval,
            None => None,
        };
        ResultPollView {
            request_id,
            max_attempts: match max_attempts {
                Some(n) => n,
                None => 0,
            },
            polling_interval: match polling_interval {
                Some(n) => n,
                None => 0,
            },
            waiting: waits(max_attempts, polling_interval),
            attempts: 0,
        }
    }

    /// Whether `next` is what follows when the poll `before` is handed
    /// `fetched` after `elapsed_secs` seconds. A failure to fetch ends the
    /// poll with that failure. A payload is brought into the form handed to
    /// callers, and its status decides: see [`verdict`].
    pub open spec fn follows(
        before: ResultPollView,
        fetched: Result<AnalysisResult, Error>,
        elapsed_secs: u64,
        next: PollStep,
    ) -> bool {
        match fetched {
            Err(e) => next == PollStep::Done(Err(e)),
            Ok(raw) => match verdict(
                before.waiting,
                before.max_attempts as int,
                before.attempts + 1,
                in_progress(normalized_result(raw@).status),
            ) {
                Verdict::Finish => next matches PollStep::Done(Ok(result)) && result@
                    == normalized_result(raw@),
                Verdict::Retry => next matches PollStep::Retry { poll, delay_millis } && poll@ == (
                ResultPollView { attempts: (before.attempts + 1) as u64, ..before })
                    && delay_millis == before.polling_interval,
                Verdict::TimedOut => next matches PollStep::Done(Err(Error::UnknownError(message)))
                    && message@ == timeout_message("result"@, elapsed_secs),
            },
        }
    }

    /// Starts a poll for the result of `request_id`.
    pub fn new(request_id: &str, options: Option<GetResultOptions>) -> (r: ResultPoll)
        ensures
            r@ == Self::initial(request_id@, options),
    {
        let (max_attempts, polling_interval) = match options {
            Some(o) => (o.max_attempts, o.polling_interval),
            None => (None, None),
        };
        ResultPoll {
            request_id: request_id.to_owned(),
            max_attempts: match max_attempts {
                Some(n) => n,
                None => 0,
            },
            polling_interval: match polling_interval {
                Some(n) => n,
                None => 0,
            },
            waiting: should_wait(max_attempts, polling_interval),
            attempts: 0,
        }
    }

    /// The identifier of the request whose result is polled.
    pub fn request_id(&self) -> (r: &str)
        ensures
            r@ == self@.request_id,
    {
        self.request_id.as_str()
    }

    /// Whether the poll waits for the analysis to finish.
    pub fn is_waiting(&self) -> (r: bool)
        ensures
            r == self@.waiting,
    {
        self.waiting
    }

    /// The number of answers received so far.
    pub fn attempts(&self) -> (r: u64)
        ensures
            r == self@.attempts,
    {
        self.attempts
    }

    /// Takes the answer to the latest attempt, which came `elapsed_secs`
    /// seconds after the poll began, and says what to do next.
    pub fn step(self, fetched: Result<AnalysisResult, Error>, elapsed_secs: u64) -> (next:
        PollStep)
        ensures
            Self::follows(self@, fetched, elapsed_secs, next),
    {
        proof {
            use_type_invariant(&self);
        }
        match fetched {
            Err(e) => PollStep::Done(Err(e)),
            Ok(raw) => {
                let result = normalize_scores(&raw);
                let made = self.attempts + 1;
                let unfinished = *result.status.as_str() == *STATUS_ANALYZING;
                match decide(self.waiting, self.max_attempts, made, unfinished) {
                    Verdict::Finish => PollStep::Done(Ok(result)),
                    Verdict::Retry => {
                        let delay_millis = self.polling_interval;
                        PollStep::Retry {
                            poll: ResultPoll {
                                request_id: self.request_id,
                                max_attempts: self.max_attempts,
                                polling_interval: self.polling_interval,
                                waiting: self.waiting,
                                attempts: made,
                            },
                            delay_millis,
                        }
                    },
                    Verdict::TimedOut => PollStep::Done(Err(timeout_error("result", elapsed_secs))),
                }
            },
        }
    }
}

/// The state of a poll for one page of results.
#[derive(Debug)]
pub struct PagePoll {
    options: GetResultsOptions,
    waiting: bool,
    attempts: u64,
}

pub struct PagePollView {
    pub options: GetResultsOptionsView,
    pub waiting: bool,
    /// The number of answers received so far.
    pub attempts: u64,
}

/// What a poll for one page of results does next.
#[derive(Debug)]
pub enum PageStep {
    /// Pause for so many milliseconds, ask for the page again, and hand the
    /// answer to the poll given here.
    Retry { poll: PagePoll, delay_millis: u64 },
    /// The poll is over, with this outcome.
    Done(Result<FormattedDetectionResultList, Error>),
}

/// The number of attempts of a policy that waits.
pub open spec fn attempts_of(max_attempts: Option<u64>) -> u64 {
    match max_attempts {
        Some(n) => n,
        None => 0,
    }
}

impl View for PagePoll {
    type V = PagePollView;

    closed spec fn view(&self) -> PagePollView {
        PagePollView { options: self.options@, waiting: self.waiting, attempts: self.attempts }
    }
}

impl PagePoll {
    #[verifier::type_invariant]
    spec fn attempts_left(self) -> bool {
        &&& self.attempts < u64::MAX
        &&& self.waiting == waits(self.options.max_attempts, self.options.polling_interval)
    }

    /// Whether `next` is what follows when the poll `before` is handed
    /// `fetched` after `elapsed_secs` seconds. A failure to fetch ends the
    /// poll with that failure. A page is brought into the form handed to
    /// callers; it counts as in progress while any of its results does.
    pub open spec fn follows(
        before: PagePollView,
        fetched: Result<DetectionResultList, Error>,
        elapsed_secs: u64,
        next: PageStep,
    ) -> bool {
        match fetched {
            Err(e) => next == PageStep::Done(Err(e)),
            Ok(raw) => {
                let items = normalized_results(views(raw.items@));
                match verdict(
                    before.waiting,
                    attempts_of(before.options.max_attempts) as int,
                    before.attempts + 1,
                    any_in_progress(items),
                ) {
                    Verdict::Finish => next matches PageStep::Done(Ok(page)) && page@ == (
                    FormattedDetectionResultListView {
                        total_items: raw.total_items,
                        total_pages: raw.total_pages,
                        current_page: raw.current_page,
                        current_page_items_count: raw.current_page_items_count,
                        items,
                    }),
                    Verdict::Retry => next matches PageStep::Retry { poll, delay_millis } && poll@
                        == (PagePollView { attempts: (before.attempts + 1) as u64, ..before })
                        && Some(delay_millis) == before.options.polling_interval,
                    Verdict::TimedOut => next matches PageStep::Done(
                        Err(Error::UnknownError(message)),
                    ) && message@ == timeout_message("results"@, elapsed_secs),
                }
            },
        }
    }

    /// Starts a poll for the page that `options` describe; without options,
    /// for the first page, unfiltered and without waiting.
    pub fn new(options: Option<GetResultsOptions>) -> (r: PagePoll)
        ensures
            r@ == (PagePollView {
                options: match options {
                    Some(o) => o@,
                    None => GetResultsOptions::default_view(),
                },
                waiting: match options {
                    Some(o) => waits(o.max_attempts, o.polling_interval),
                    None => false,
                },
                attempts: 0,
            }),
    {
        let options = match options {
            Some(o) => o,
            None => GetResultsOptions::default(),
        };
        let waiting = should_wait(options.max_attempts, options.polling_interval);
        PagePoll { options, waiting, attempts: 0 }
    }

    /// The page and the filters asked for.
    pub fn options(&self) -> (r: &GetResultsOptions)
        ensures
            r@ == self@.options,
    {
        &self.options
    }

    /// Whether the poll waits for every result on the page to finish.
    pub fn is_waiting(&self) -> (r: bool)
        ensures
            r == self@.waiting,
    {
        self.waiting
    }

    /// The number of answers received so far.
    pub fn attempts(&self) -> (r: u64)
        ensures
            r == self@.attempts,
    {
        self.attempts
    }

    /// Takes the answer to the latest attempt, which came `elapsed_secs`
    /// seconds after the poll began, and says what to do next.
    pub fn step(self, fetched: Result<DetectionResultList, Error>, elapsed_secs: u64) -> (next:
        PageStep)
        ensures
            Self::follows(self@, fetched, elapsed_secs, next),
    {
        proof {
            use_type_invariant(&self);
        }
        match fetched {
            Err(e) => PageStep::Done(Err(e)),
            Ok(raw) => {
                let page = format_results_list(&raw);
                let made = self.attempts + 1;
                let unfinished = page_in_progress(&page);
                let max_attempts = match self.options.max_attempts {
                    Some(n) => n,
                    None => 0,
                };
                match decide(self.waiting, max_attempts, made, unfinished) {
                    Verdict::Finish => PageStep::Done(Ok(page)),
                    Verdict::Retry => {
                        let delay_millis = match self.options.polling_interval {
                            Some(n) => n,
                            None => 0,
                        };
                        PageStep::Retry {
                            poll: PagePoll {
                                options: self.options,
                                waiting: self.waiting,
                                attempts: made,
                            },
                            delay_millis,
                        }
                    },
                    Verdict::TimedOut => PageStep::Done(
                        Err(timeout_error("results", elapsed_secs)),
                    ),
                }
            },
        }
    }
}

/// Whether any result of the page is still under way.
pub fn page_in_progress(page: &FormattedDetectionResultList) -> (r: bool)
    ensures
        r == any_in_progress(page@.items),
{
    let mut i: usize = 0;
    while i < page.items.len()
        invariant
            0 <= i <= page.items.len(),
            forall|j: int| 0 <= j < i ==> !in_progress(#[trigger] page@.items[j].status),
        decreases page.items.len() - i,
    {
        if *page.items[i].status.as_str() == *STATUS_ANALYZING {
            assert(in_progress(page@.items[i as int].status));
            return true;
        }
        i = i + 1;
    }
    false
}

} // verus!
