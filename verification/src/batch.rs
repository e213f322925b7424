//! Processing many files under a cap on concurrency.
//!
//! The files are uploaded group by group: no group holds more files than the
//! cap allows, the uploads of one group run side by side, and a group begins
//! only once the one before it is over. An upload that fails is left out.
//! Then, where the policy asks for waiting, the result of each surviving
//! request is polled, in groups of the same size, and a poll that fails is
//! left out; where it does not, each surviving request gets a result that
//! only says that it is being processed. The order of the files is kept
//! throughout.
//!
//! What is decided here is which group comes next and what the batch comes
//! to. Uploading and polling are left to the caller, who hands back the
//! outcomes of each group, in the group's order.

use vstd::prelude::*;
use vstd::string::*;
use crate::error::Error;
use crate::models::{
    views, BatchOptions, DetectionModelResultView, DetectionResult, DetectionResultView,
    GetResultOptions, UploadResult,
};
use crate::normalize::STATUS_PROCESSING;
use crate::polling::{should_wait, waits};
use crate::text::slice_views;

verus! {

/// The number of uploads that run side by side where the options name none.
pub const DEFAULT_MAX_CONCURRENCY: usize = 5;

impl BatchOptions {
    /// The cap on concurrency in use: the one given, else the default.
    pub open spec fn spec_concurrency(self) -> usize {
        match self.max_concurrency {
            Some(n) => n,
            None => DEFAULT_MAX_CONCURRENCY,
        }
    }

    /// The cap on concurrency in use.
    pub fn concurrency(&self) -> (r: usize)
        ensures
            r == self.spec_concurrency(),
    {
        match self.max_concurrency {
            Some(n) => n,
            None => DEFAULT_MAX_CONCURRENCY,
        }
    }

    /// The policy under which each result of the batch is polled.
    pub fn polling(&self) -> (r: GetResultOptions)
        ensures
            r.max_attempts == self.max_attempts,
            r.polling_interval == self.polling_interval,
    {
        GetResultOptions { max_attempts: self.max_attempts, polling_interval: self.polling_interval }
    }
}

/// Where the group that starts at `start` ends, among `len` items in groups
/// of `size`.
pub open spec fn group_end(start: int, len: int, size: int) -> int {
    if start + size <= len {
        start + size
    } else {
        len
    }
}

/// The request identifiers of the uploads that succeeded, in their order.
pub open spec fn surviving_ids(outcomes: Seq<Result<UploadResult, Error>>) -> Seq<Seq<char>>
    decreases outcomes.len(),
{
    if outcomes.len() == 0 {
        Seq::empty()
    } else {
        match outcomes.last() {
            Ok(upload) => surviving_ids(outcomes.drop_last()).push(upload.request_id@),
            Err(_) => surviving_ids(outcomes.drop_last()),
        }
    }
}

/// The results of the polls that succeeded, in their order.
pub open spec fn successes(outcomes: Seq<Result<DetectionResult, Error>>) -> Seq<
    DetectionResultView,
>
    decreases outcomes.len(),
{
    if outcomes.len() == 0 {
        Seq::empty()
    } else {
        match outcomes.last() {
            Ok(result) => successes(outcomes.drop_last()).push(result@),
            Err(_) => successes(outcomes.drop_last()),
        }
    }
}

/// The result given to a request whose analysis was not waited for.
pub open spec fn placeholder(request_id: Seq<char>) -> DetectionResultView {
    DetectionResultView {
        request_id,
        status: "PROCESSING"@,
        score: None,
        models: Seq::<DetectionModelResultView>::empty(),
    }
}

pub open spec fn placeholders(request_ids: Seq<Seq<char>>) -> Seq<DetectionResultView> {
    request_ids.map_values(|id: Seq<char>| placeholder(id))
}

/// What a batch comes to, given the outcome of the upload of each file and,
/// where results are waited for, the outcome of the poll of each surviving
/// request.
pub open spec fn batch_output(
    waiting: bool,
    uploads: Seq<Result<UploadResult, Error>>,
    polls: Seq<Result<DetectionResult, Error>>,
) -> Seq<DetectionResultView> {
    if waiting {
        successes(polls)
    } else {
        placeholders(surviving_ids(uploads))
    }
}

pub proof fn lemma_surviving_ids_concat(
    a: Seq<Result<UploadResult, Error>>,
    b: Seq<Result<UploadResult, Error>>,
)
    ensures
        surviving_ids(a + b) == surviving_ids(a) + surviving_ids(b),
    decreases b.len(),
{
    if b.len() == 0 {
        assert(a + b =~= a);
        assert(surviving_ids(a) + surviving_ids(b) =~= surviving_ids(a));
    } else {
        lemma_surviving_ids_concat(a, b.drop_last());
        assert((a + b).drop_last() =~= a + b.drop_last());
        assert((a + b).last() == b.last());
        match b.last() {
            Ok(upload) => {
                assert(surviving_ids(a + b) =~= surviving_ids(a) + surviving_ids(b));
            },
            Err(_) => {},
        }
    }
}

pub proof fn lemma_successes_concat(
    a: Seq<Result<DetectionResult, Error>>,
    b: Seq<Result<DetectionResult, Error>>,
)
    ensures
        successes(a + b) == successes(a) + successes(b),
    decreases b.len(),
{
    if b.len() == 0 {
        assert(a + b =~= a);
        assert(successes(a) + successes(b) =~= successes(a));
    } else {
        lemma_successes_concat(a, b.drop_last());
        assert((a + b).drop_last() =~= a + b.drop_last());
        assert((a + b).last() == b.last());
        match b.last() {
            Ok(result) => {
                assert(successes(a + b) =~= successes(a) + successes(b));
            },
            Err(_) => {},
        }
    }
}

/// Whether some upload succeeded with the request identifier `id`.
pub open spec fn uploaded_as(uploads: Seq<Result<UploadResult, Error>>, id: Seq<char>) -> bool {
    exists|i: int|
        0 <= i < uploads.len() && (#[trigger] uploads[i] matches Ok(upload) && upload.request_id@
            == id)
}

/// Whether some poll, at place `from` or later, succeeded with `result`.
pub open spec fn polled_as(
    polls: Seq<Result<DetectionResult, Error>>,
    from: int,
    result: DetectionResultView,
) -> bool {
    exists|i: int|
        from <= i < polls.len() && (#[trigger] polls[i] matches Ok(polled) && polled@ == result)
}

/// The surviving requests are no more than the uploads, and each of them is
/// the request of an upload that succeeded.
pub proof fn lemma_surviving_ids_originate(uploads: Seq<Result<UploadResult, Error>>)
    ensures
        surviving_ids(uploads).len() <= uploads.len(),
        forall|j: int|
            0 <= j < surviving_ids(uploads).len() ==> uploaded_as(
                uploads,
                #[trigger] surviving_ids(uploads)[j],
            ),
    decreases uploads.len(),
{
    if uploads.len() > 0 {
        let rest = uploads.drop_last();
        lemma_surviving_ids_originate(rest);
        assert forall|j: int| 0 <= j < surviving_ids(uploads).len() implies uploaded_as(
            uploads,
            #[trigger] surviving_ids(uploads)[j],
        ) by {
            if j < surviving_ids(rest).len() {
                assert(surviving_ids(uploads)[j] == surviving_ids(rest)[j]);
                assert(uploaded_as(rest, surviving_ids(rest)[j]));
                let i = choose|i: int|
                    0 <= i < rest.len() && (#[trigger] rest[i] matches Ok(upload)
                        && upload.request_id@ == surviving_ids(rest)[j]);
                assert(uploads[i] == rest[i]);
            } else {
                assert(uploads[uploads.len() - 1] == uploads.last());
            }
        }
    }
}

/// The results kept are no more than the polls, and each of them is the
/// result of a poll that succeeded, at its own place or a later one.
pub proof fn lemma_successes_originate(polls: Seq<Result<DetectionResult, Error>>)
    ensures
        successes(polls).len() <= polls.len(),
        forall|j: int|
            0 <= j < successes(polls).len() ==> polled_as(
                polls,
                j,
                #[trigger] successes(polls)[j],
            ),
    decreases polls.len(),
{
    if polls.len() > 0 {
        let rest = polls.drop_last();
        lemma_successes_originate(rest);
        assert forall|j: int| 0 <= j < successes(polls).len() implies polled_as(
            polls,
            j,
            #[trigger] successes(polls)[j],
        ) by {
            if j < successes(rest).len() {
                assert(successes(polls)[j] == successes(rest)[j]);
                assert(polled_as(rest, j, successes(rest)[j]));
                let i = choose|i: int|
                    j <= i < rest.len() && (#[trigger] rest[i] matches Ok(polled) && polled@
                        == successes(rest)[j]);
                assert(polls[i] == rest[i]);
            } else {
                assert(polls[polls.len() - 1] == polls.last());
            }
        }
    }
}

/// A batch gives no more results than it was given files, and, where each
/// poll answered for the request it was made for, every result bears the
/// request identifier of an upload that succeeded.
pub proof fn lemma_batch_output_originates(
    waiting: bool,
    uploads: Seq<Result<UploadResult, Error>>,
    polls: Seq<Result<DetectionResult, Error>>,
)
    requires
        waiting ==> polls.len() == surviving_ids(uploads).len(),
        waiting ==> forall|k: int|
            0 <= k < polls.len() ==> (#[trigger] polls[k] matches Ok(result)
                ==> result.request_id@ == surviving_ids(uploads)[k]),
    ensures
        batch_output(waiting, uploads, polls).len() <= uploads.len(),
        forall|j: int|
            0 <= j < batch_output(waiting, uploads, polls).len() ==> uploaded_as(
                uploads,
                (#[trigger] batch_output(waiting, uploads, polls)[j]).request_id,
            ),
{
    lemma_surviving_ids_originate(uploads);
    lemma_successes_originate(polls);
    let output = batch_output(waiting, uploads, polls);
    let ids = surviving_ids(uploads);
    assert forall|j: int| 0 <= j < output.len() implies uploaded_as(
        uploads,
        (#[trigger] output[j]).request_id,
    ) by {
        if waiting {
            assert(polled_as(polls, j, successes(polls)[j]));
            let k = choose|k: int|
                j <= k < polls.len() && (#[trigger] polls[k] matches Ok(polled) && polled@
                    == successes(polls)[j]);
            assert(uploaded_as(uploads, ids[k]));
        } else {
            assert(uploaded_as(uploads, ids[j]));
        }
    }
}

/// Adds to `ids` the request identifiers of the uploads that succeeded.
pub fn append_surviving(ids: &mut Vec<String>, outcomes: Vec<Result<UploadResult, Error>>)
    ensures
        views(final(ids)@) == views(old(ids)@) + surviving_ids(outcomes@),
{
    let ghost all = outcomes@;
    let ghost base = views(ids@);
    proof {
        assert(all.take(0) =~= Seq::<Result<UploadResult, Error>>::empty());
        assert(base + surviving_ids(all.take(0)) =~= base);
    }
    for outcome in it: outcomes
        invariant
            it.seq() == all,
            views(ids@) == base + surviving_ids(all.take(it.index() as int)),
    {
        proof {
            assert(all.take(it.index() + 1).drop_last() =~= all.take(it.index() as int));
            assert(all.take(it.index() + 1).last() == outcome);
        }
        match outcome {
            Ok(upload) => {
                let ghost before = views(ids@);
                ids.push(upload.request_id);
                proof {
                    assert(views(ids@) =~= before.push(upload.request_id@));
                    assert(views(ids@) =~= base + surviving_ids(all.take(it.index() + 1)));
                }
            },
            Err(_) => {},
        }
    }
    proof {
        assert(all.take(all.len() as int) =~= all);
    }
}

/// Adds to `results` the results of the polls that succeeded.
pub fn append_successes(
    results: &mut Vec<DetectionResult>,
    outcomes: Vec<Result<DetectionResult, Error>>,
)
    ensures
        views(final(results)@) == views(old(results)@) + successes(outcomes@),
{
    let ghost all = outcomes@;
    let ghost base = views(results@);
    proof {
        assert(all.take(0) =~= Seq::<Result<DetectionResult, Error>>::empty());
        assert(base + successes(all.take(0)) =~= base);
    }
    for outcome in it: outcomes
        invariant
            it.seq() == all,
            views(results@) == base + successes(all.take(it.index() as int)),
    {
        proof {
            assert(all.take(it.index() + 1).drop_last() =~= all.take(it.index() as int));
            assert(all.take(it.index() + 1).last() == outcome);
        }
        match outcome {
            Ok(result) => {
                let ghost before = views(results@);
                let ghost kept = result@;
                results.push(result);
                proof {
                    assert(views(results@) =~= before.push(kept));
                    assert(views(results@) =~= base + successes(all.take(it.index() + 1)));
                }
            },
            Err(_) => {},
        }
    }
    proof {
        assert(all.take(all.len() as int) =~= all);
    }
}

/// One result for each request, saying only that it is being processed.
pub fn placeholder_results(request_ids: Vec<String>) -> (r: Vec<DetectionResult>)
    ensures
        views(r@) == placeholders(views(request_ids@)),
{
    let ghost all = request_ids@;
    let mut results: Vec<DetectionResult> = Vec::new();
    for id in it: request_ids
        invariant
            it.seq() == all,
            results@.len() == it.index(),
            forall|j: int|
                0 <= j < it.index() ==> (#[trigger] results@[j])@ == placeholder(all[j]@),
    {
        results.push(
            DetectionResult {
                request_id: id,
                status: STATUS_PROCESSING.to_owned(),
                score: None,
                models: Vec::new(),
            },
        );
        proof {
            let added = results@[it.index() as int];
            assert(views(added.models@) =~= Seq::<DetectionModelResultView>::empty());
        }
    }
    proof {
        assert(views(results@) =~= placeholders(views(all)));
    }
    results
}

/// The texts in `items[from..to]`.
fn copy_range(items: &Vec<String>, from: usize, to: usize) -> (r: Vec<String>)
    requires
        from <= to <= items.len(),
    ensures
        views(r@) == views(items@).subrange(from as int, to as int),
{
    let mut out: Vec<String> = Vec::new();
    let mut i = from;
    while i < to
        invariant
            from <= i <= to <= items.len(),
            out@.len() == i - from,
            forall|j: int| 0 <= j < i - from ==> (#[trigger] out@[j])@ == items@[from + j]@,
        decreases to - i,
    {
        out.push(items[i].clone());
        i = i + 1;
    }
    proof {
        assert(views(out@) =~= views(items@).subrange(from as int, to as int));
    }
    out
}

/// Where the group that starts at `start` ends.
fn end_of_group(start: usize, len: usize, size: usize) -> (r: usize)
    requires
        start <= len,
    ensures
        r == group_end(start as int, len as int, size as int),
        start <= r <= len,
{
    if len - start >= size {
        start + size
    } else {
        len
    }
}

/// A batch whose files are being uploaded.
pub struct UploadPhase {
    paths: Vec<String>,
    cursor: usize,
    max_concurrency: usize,
    polling: GetResultOptions,
    request_ids: Vec<String>,
    uploads: Ghost<Seq<Result<UploadResult, Error>>>,
}

pub struct UploadPhaseView {
    /// The files of the batch.
    pub paths: Seq<Seq<char>>,
    /// The number of files whose upload is over.
    pub cursor: int,
    pub max_concurrency: int,
    pub polling: GetResultOptions,
    /// The outcomes of the uploads that are over.
    pub uploads: Seq<Result<UploadResult, Error>>,
}

/// A batch whose results are being polled.
pub struct PollPhase {
    request_ids: Vec<String>,
    cursor: usize,
    max_concurrency: usize,
    polling: GetResultOptions,
    results: Vec<DetectionResult>,
    files: Ghost<int>,
    uploads: Ghost<Seq<Result<UploadResult, Error>>>,
    polls: Ghost<Seq<Result<DetectionResult, Error>>>,
}

pub struct PollPhaseView {
    /// The number of files of the batch.
    pub files: int,
    /// The requests of the uploads that succeeded.
    pub request_ids: Seq<Seq<char>>,
    /// The number of requests whose poll is over.
    pub cursor: int,
    pub max_concurrency: int,
    pub polling: GetResultOptions,
    /// The outcomes of all the uploads.
    pub uploads: Seq<Result<UploadResult, Error>>,
    /// The outcomes of the polls that are over.
    pub polls: Seq<Result<DetectionResult, Error>>,
}

/// What a batch does next.
pub enum BatchStep {
    /// Upload the files of the phase's group, side by side, and hand their
    /// outcomes to the phase.
    Upload(UploadPhase),
    /// Poll the requests of the phase's group, side by side, and hand their
    /// outcomes to the phase.
    Poll(PollPhase),
    /// The batch is over, with these results.
    Done(Vec<DetectionResult>),
}

impl UploadPhaseView {
    /// The files to upload next.
    pub open spec fn group(self) -> Seq<Seq<char>> {
        self.paths.subrange(
            self.cursor,
            group_end(self.cursor, self.paths.len() as int, self.max_concurrency),
        )
    }
}

impl PollPhaseView {
    /// The requests to poll next.
    pub open spec fn group(self) -> Seq<Seq<char>> {
        self.request_ids.subrange(
            self.cursor,
            group_end(self.cursor, self.request_ids.len() as int, self.max_concurrency),
        )
    }
}

impl View for UploadPhase {
    type V = UploadPhaseView;

    closed spec fn view(&self) -> UploadPhaseView {
        UploadPhaseView {
            paths: views(self.paths@),
            cursor: self.cursor as int,
            max_concurrency: self.max_concurrency as int,
            polling: self.polling,
            uploads: self.uploads@,
        }
    }
}

impl View for PollPhase {
    type V = PollPhaseView;

    closed spec fn view(&self) -> PollPhaseView {
        PollPhaseView {
            files: self.files@,
            request_ids: views(self.request_ids@),
            cursor: self.cursor as int,
            max_concurrency: self.max_concurrency as int,
            polling: self.polling,
            uploads: self.uploads@,
            polls: self.polls@,
        }
    }
}

impl UploadPhase {
    #[verifier::type_invariant]
    spec fn well_formed(self) -> bool {
        &&& self.cursor < self.paths.len()
        &&& self.max_concurrency > 0
        &&& self.uploads@.len() == self.cursor
        &&& views(self.request_ids@) == surviving_ids(self.uploads@)
    }

    /// Whether `next` is what follows when the phase `before` is handed the
    /// outcomes of its group. While files are left, the next group is
    /// uploaded. After the last group, the surviving requests are polled
    /// where the policy asks for waiting and any request survived; else the
    /// batch is over.
    pub open spec fn follows(
        before: UploadPhaseView,
        outcomes: Seq<Result<UploadResult, Error>>,
        next: BatchStep,
    ) -> bool {
        let uploads = before.uploads + outcomes;
        let cursor = before.cursor + outcomes.len();
        let waiting = waits(before.polling.max_attempts, before.polling.polling_interval);
        if cursor < before.paths.len() {
            next matches BatchStep::Upload(phase) && phase@ == (UploadPhaseView {
                cursor,
                uploads,
                ..before
            })
        } else if waiting && surviving_ids(uploads).len() > 0 {
            next matches BatchStep::Poll(phase) && phase@ == (PollPhaseView {
                files: before.paths.len() as int,
                request_ids: surviving_ids(uploads),
                cursor: 0,
                max_concurrency: before.max_concurrency,
                polling: before.polling,
                uploads,
                polls: Seq::empty(),
            })
        } else {
            next matches BatchStep::Done(results) && views(results@) == batch_output(
                waiting,
                uploads,
                Seq::empty(),
            )
        }
    }

    /// The files to upload next, in the order of their outcomes.
    pub fn group(&self) -> (r: Vec<String>)
        ensures
            views(r@) == self@.group(),
            0 < r@.len() <= self@.max_concurrency,
    {
        proof {
            use_type_invariant(self);
        }
        let end = end_of_group(self.cursor, self.paths.len(), self.max_concurrency);
        let r = copy_range(&self.paths, self.cursor, end);
        proof {
            assert(views(r@).len() == r@.len());
            assert(views(self.paths@).len() == self.paths@.len());
        }
        r
    }

    /// Takes the outcomes of the uploads of the group, in the group's order,
    /// and says what to do next.
    pub fn uploaded(self, outcomes: Vec<Result<UploadResult, Error>>) -> (next: BatchStep)
        requires
            outcomes@.len() == self@.group().len(),
        ensures
            Self::follows(self@, outcomes@, next),
            next matches BatchStep::Done(results) ==> results@.len() <= self@.paths.len(),
    {
        proof {
            use_type_invariant(&self);
            lemma_surviving_ids_concat(self.uploads@, outcomes@);
            lemma_surviving_ids_originate(self.uploads@ + outcomes@);
            assert(views(self.paths@).len() == self.paths@.len());
        }
        let ghost uploads = self.uploads@ + outcomes@;
        let ghost files = self.paths@.len() as int;
        let end = end_of_group(self.cursor, self.paths.len(), self.max_concurrency);
        let mut request_ids = self.request_ids;
        append_surviving(&mut request_ids, outcomes);
        if end < self.paths.len() {
            BatchStep::Upload(
                UploadPhase {
                    paths: self.paths,
                    cursor: end,
                    max_concurrency: self.max_concurrency,
                    polling: self.polling,
                    request_ids,
                    uploads: Ghost(uploads),
                },
            )
        } else if should_wait(self.polling.max_attempts, self.polling.polling_interval)
            && request_ids.len() > 0 {
            let results: Vec<DetectionResult> = Vec::new();
            proof {
                assert(views(results@) =~= successes(Seq::empty()));
            }
            BatchStep::Poll(
                PollPhase {
                    request_ids,
                    cursor: 0,
                    max_concurrency: self.max_concurrency,
                    polling: self.polling,
                    results,
                    files: Ghost(files),
                    uploads: Ghost(uploads),
                    polls: Ghost(Seq::empty()),
                },
            )
        } else if should_wait(self.polling.max_attempts, self.polling.polling_interval) {
            let results: Vec<DetectionResult> = Vec::new();
            proof {
                assert(views(results@) =~= successes(Seq::empty()));
            }
            BatchStep::Done(results)
        } else {
            let results = placeholder_results(request_ids);
            proof {
                assert(views(results@).len() == results@.len());
                assert(views(request_ids@).len() == request_ids@.len());
            }
            BatchStep::Done(results)
        }
    }
}

impl PollPhase {
    #[verifier::type_invariant]
    spec fn well_formed(self) -> bool {
        &&& self.cursor < self.request_ids.len()
        &&& self.max_concurrency > 0
        &&& self.polls@.len() == self.cursor
        &&& views(self.results@) == successes(self.polls@)
        &&& self.uploads@.len() == self.files@
        &&& views(self.request_ids@) == surviving_ids(self.uploads@)
    }

    /// Whether `next` is what follows when the phase `before` is handed the
    /// outcomes of its group. While requests are left, the next group is
    /// polled; after the last group the batch is over.
    pub open spec fn follows(
        before: PollPhaseView,
        outcomes: Seq<Result<DetectionResult, Error>>,
        next: BatchStep,
    ) -> bool {
        let polls = before.polls + outcomes;
        let cursor = before.cursor + outcomes.len();
        if cursor < before.request_ids.len() {
            next matches BatchStep::Poll(phase) && phase@ == (PollPhaseView {
                cursor,
                polls,
                ..before
            })
        } else {
            next matches BatchStep::Done(results) && polls.len() == before.request_ids.len()
                && views(results@) == batch_output(true, before.uploads, polls)
        }
    }

    /// The requests to poll next, in the order of their outcomes.
    pub fn group(&self) -> (r: Vec<String>)
        ensures
            views(r@) == self@.group(),
            0 < r@.len() <= self@.max_concurrency,
    {
        proof {
            use_type_invariant(self);
        }
        let end = end_of_group(self.cursor, self.request_ids.len(), self.max_concurrency);
        let r = copy_range(&self.request_ids, self.cursor, end);
        proof {
            assert(views(r@).len() == r@.len());
            assert(views(self.request_ids@).len() == self.request_ids@.len());
        }
        r
    }

    /// The policy under which each request of the group is polled.
    pub fn options(&self) -> (r: GetResultOptions)
        ensures
            r == self@.polling,
    {
        self.polling
    }

    /// Takes the outcomes of the polls of the group, in the group's order,
    /// and says what to do next.
    pub fn polled(self, outcomes: Vec<Result<DetectionResult, Error>>) -> (next: BatchStep)
        requires
            outcomes@.len() == self@.group().len(),
        ensures
            Self::follows(self@, outcomes@, next),
            next matches BatchStep::Done(results) ==> results@.len() <= self@.files,
    {
        proof {
            use_type_invariant(&self);
            lemma_successes_concat(self.polls@, outcomes@);
            lemma_successes_originate(self.polls@ + outcomes@);
            lemma_surviving_ids_originate(self.uploads@);
            assert(views(self.request_ids@).len() == self.request_ids@.len());
        }
        let ghost polls = self.polls@ + outcomes@;
        let end = end_of_group(self.cursor, self.request_ids.len(), self.max_concurrency);
        let mut results = self.results;
        append_successes(&mut results, outcomes);
        if end < self.request_ids.len() {
            BatchStep::Poll(
                PollPhase {
                    request_ids: self.request_ids,
                    cursor: end,
                    max_concurrency: self.max_concurrency,
                    polling: self.polling,
                    results,
                    files: self.files,
                    uploads: self.uploads,
                    polls: Ghost(polls),
                },
            )
        } else {
            proof {
                assert(views(results@).len() == results@.len());
            }
            BatchStep::Done(results)
        }
    }
}

/// Whether `first` is how a batch over `paths` begins: with nothing to
/// process it is over at once, with no results; else the first group is
/// uploaded.
pub open spec fn begins(paths: Seq<Seq<char>>, options: BatchOptions, first: BatchStep) -> bool {
    if paths.len() == 0 {
        first matches BatchStep::Done(results) && results@.len() == 0
    } else {
        first matches BatchStep::Upload(phase) && phase@ == (UploadPhaseView {
            paths,
            cursor: 0,
            max_concurrency: options.spec_concurrency() as int,
            polling: GetResultOptions {
                max_attempts: options.max_attempts,
                polling_interval: options.polling_interval,
            },
            uploads: Seq::empty(),
        })
    }
}

/// Begins a batch over `file_paths`.
pub fn begin(file_paths: Vec<&str>, options: BatchOptions) -> (first: BatchStep)
    requires
        file_paths@.len() > 0 ==> options.spec_concurrency() > 0,
    ensures
        begins(slice_views(file_paths@), options, first),
{
    if file_paths.len() == 0 {
        return BatchStep::Done(Vec::new());
    }
    let mut paths: Vec<String> = Vec::new();
    let mut i: usize = 0;
    while i < file_paths.len()
        invariant
            0 <= i <= file_paths.len(),
            paths@.len() == i,
            forall|j: int| 0 <= j < i ==> (#[trigger] paths@[j])@ == file_paths@[j]@,
        decreases file_paths.len() - i,
    {
        paths.push(file_paths[i].to_owned());
        i = i + 1;
    }
    proof {
        assert(views(paths@) =~= slice_views(file_paths@));
    }
    let request_ids: Vec<String> = Vec::new();
    proof {
        assert(views(request_ids@) =~= surviving_ids(Seq::empty()));
    }
    BatchStep::Upload(
        UploadPhase {
            paths,
            cursor: 0,
            max_concurrency: options.concurrency(),
            polling: options.polling(),
            request_ids,
            uploads: Ghost(Seq::empty()),
        },
    )
}

} // verus!
