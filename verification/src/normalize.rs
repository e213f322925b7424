//! Bringing a payload of the service into the form handed to callers.
//!
//! Three things happen to a payload. The status `FAKE` is reworded to
//! `MANIPULATED`, for the analysis as a whole, for each model and for the
//! summary. Scores are brought onto the 0-1 scale: a score above one is taken
//! to be on the 0-100 scale and divided by one hundred, any other score is
//! kept as it is. Models that did not apply to the media are left out; the
//! others keep their order.

use vstd::prelude::*;
use vstd::string::*;
use crate::models::{
    number_text_at, views, AnalysisResult, AnalysisResultView, DetectionModel,
    DetectionModelResult, DetectionModelResultView, DetectionModelView, DetectionResult,
    DetectionResultList, DetectionResultView, FloatOrObject, FormattedDetectionResultList,
    FormattedDetectionResultListView, ResultsSummary,
};
use crate::score::Score;

verus! {

/// The status with which the service marks manipulated media.
pub const STATUS_FAKE: &'static str = "FAKE";

/// The status that callers are shown for manipulated media.
pub const STATUS_MANIPULATED: &'static str = "MANIPULATED";

/// The status of a model that did not apply to the media.
pub const STATUS_NOT_APPLICABLE: &'static str = "NOT_APPLICABLE";

/// The status of an analysis that is still under way.
pub const STATUS_ANALYZING: &'static str = "ANALYZING";

/// The status given to an upload whose result was not waited for.
pub const STATUS_PROCESSING: &'static str = "PROCESSING";

/// The key under which a summary's metadata holds the overall score.
pub const FINAL_SCORE_KEY: &'static str = "finalScore";

/// The status that callers are shown for a status of the service.
pub open spec fn mapped_status(status: Seq<char>) -> Seq<char> {
    if status == "FAKE"@ {
        "MANIPULATED"@
    } else {
        status
    }
}

/// A score brought onto the 0-1 scale, where there is one.
pub open spec fn rescaled(score: Option<Score>) -> Option<Score> {
    match score {
        Some(s) => Some(s.spec_normalized()),
        None => None,
    }
}

/// The first of the two that is present.
pub open spec fn first_present(a: Option<Score>, b: Option<Score>) -> Option<Score> {
    match a {
        Some(_) => a,
        None => b,
    }
}

/// The overall score of an analysis: its own final score, else the final
/// score in its summary's metadata, on the 0-1 scale.
pub open spec fn overall_score(raw: AnalysisResultView) -> Option<Score> {
    rescaled(
        first_present(
            raw.final_score,
            match raw.results_summary {
                Some(summary) => summary.final_score,
                None => None,
            },
        ),
    )
}

/// The score of a model: its prediction where that is a number, else its
/// normalized prediction, else its final score, on the 0-1 scale.
pub open spec fn model_score(model: DetectionModelView) -> Option<Score> {
    rescaled(
        first_present(
            model.prediction_number,
            first_present(model.normalized_prediction_number, model.final_score),
        ),
    )
}

pub open spec fn normalized_model(model: DetectionModelView) -> DetectionModelResultView {
    DetectionModelResultView {
        name: model.name,
        status: mapped_status(model.status),
        score: model_score(model),
    }
}

/// The models of a payload that applied to the media, in their order, each in
/// the form handed to callers.
pub open spec fn kept_models(models: Seq<DetectionModelView>) -> Seq<DetectionModelResultView>
    decreases models.len(),
{
    if models.len() == 0 {
        Seq::empty()
    } else if models.last().status == "NOT_APPLICABLE"@ {
        kept_models(models.drop_last())
    } else {
        kept_models(models.drop_last()).push(normalized_model(models.last()))
    }
}

/// The detection result that a payload stands for.
pub open spec fn normalized_result(raw: AnalysisResultView) -> DetectionResultView {
    DetectionResultView {
        request_id: raw.request_id,
        status: mapped_status(raw.status),
        score: overall_score(raw),
        models: kept_models(raw.models),
    }
}

/// The detection results that the payloads of a page stand for.
pub open spec fn normalized_results(items: Seq<AnalysisResultView>) -> Seq<DetectionResultView> {
    items.map_values(|raw: AnalysisResultView| normalized_result(raw))
}

/// Rewords the status `FAKE`; any other status is kept.
pub fn map_status(status: &str) -> (r: String)
    ensures
        r@ == mapped_status(status@),
{
    if *status == *STATUS_FAKE {
        STATUS_MANIPULATED.to_owned()
    } else {
        status.to_owned()
    }
}

/// Brings a score onto the 0-1 scale, where there is one.
pub fn rescale(score: Option<Score>) -> (r: Option<Score>)
    ensures
        r == rescaled(score),
{
    match score {
        Some(s) => Some(s.normalized()),
        None => None,
    }
}

/// The status of a summary, reworded for callers.
pub fn summary_status(summary: &ResultsSummary) -> (r: String)
    ensures
        r@ == mapped_status(summary@.status),
{
    map_status(summary.status.as_str())
}

/// The final score that a summary's metadata holds, as the service wrote it.
pub fn summary_final_score(summary: &ResultsSummary) -> (r: Option<Score>)
    ensures
        r == summary@.final_score,
{
    match &summary.metadata {
        Some(object) => match number_text_at(object, FINAL_SCORE_KEY) {
            Some(text) => Score::parse(text.as_str()),
            None => None,
        },
        None => None,
    }
}

/// The overall score of an analysis, on the 0-1 scale.
pub fn resolve_overall_score(result: &AnalysisResult) -> (r: Option<Score>)
    ensures
        r == overall_score(result@),
{
    match result.final_score {
        Some(s) => Some(s.normalized()),
        None => match &result.results_summary {
            Some(summary) => rescale(summary_final_score(summary)),
            None => None,
        },
    }
}

/// The score of a model, on the 0-1 scale.
pub fn resolve_model_score(model: &DetectionModel) -> (r: Option<Score>)
    ensures
        r == model_score(model@),
{
    match &model.prediction_number {
        Some(FloatOrObject::Float(s)) => Some(s.normalized()),
        _ => match model.normalized_prediction_number {
            Some(s) => Some(s.normalized()),
            None => rescale(model.final_score),
        },
    }
}

/// One model in the form handed to callers.
pub fn normalize_model(model: &DetectionModel) -> (r: DetectionModelResult)
    ensures
        r@ == normalized_model(model@),
{
    DetectionModelResult {
        name: model.name.clone(),
        status: map_status(model.status.as_str()),
        score: resolve_model_score(model),
    }
}

/// Brings a payload of the service into the form handed to callers.
pub fn normalize_scores(result: &AnalysisResult) -> (r: DetectionResult)
    ensures
        r@ == normalized_result(result@),
{
    let mut models: Vec<DetectionModelResult> = Vec::new();
    let ghost raw = views(result.models@);
    let mut i: usize = 0;
    proof {
        assert(raw.take(0) =~= Seq::<DetectionModelView>::empty());
    }
    while i < result.models.len()
        invariant
            0 <= i <= result.models.len(),
            raw == views(result.models@),
            views(models@) == kept_models(raw.take(i as int)),
        decreases result.models.len() - i,
    {
        let model = &result.models[i];
        proof {
            assert(raw.take(i + 1).drop_last() =~= raw.take(i as int));
            assert(raw.take(i + 1).last() == model@);
        }
        if *model.status.as_str() != *STATUS_NOT_APPLICABLE {
            let ghost before = views(models@);
            let kept = normalize_model(model);
            models.push(kept);
            proof {
                assert(views(models@) =~= before.push(kept@));
            }
        }
        i = i + 1;
    }
    proof {
        assert(raw.take(i as int) =~= raw);
    }
    DetectionResult {
        request_id: result.request_id.clone(),
        status: map_status(result.status.as_str()),
        score: resolve_overall_score(result),
        models,
    }
}

/// Brings every payload of a page into the form handed to callers. The
/// page's counters are passed on as they came.
pub fn format_results_list(raw_result: &DetectionResultList) -> (r: FormattedDetectionResultList)
    ensures
        r@ == (FormattedDetectionResultListView {
            total_items: raw_result.total_items,
            total_pages: raw_result.total_pages,
            current_page: raw_result.current_page,
            current_page_items_count: raw_result.current_page_items_count,
            items: normalized_results(views(raw_result.items@)),
        }),
{
    let mut items: Vec<DetectionResult> = Vec::new();
    let mut i: usize = 0;
    while i < raw_result.items.len()
        invariant
            0 <= i <= raw_result.items.len(),
            items@.len() == i,
            forall|j: int|
                0 <= j < i ==> (#[trigger] items@[j])@ == normalized_result(
                    raw_result.items@[j]@,
                ),
        decreases raw_result.items.len() - i,
    {
        let item = normalize_scores(&raw_result.items[i]);
        items.push(item);
        i = i + 1;
    }
    proof {
        assert(views(items@) =~= normalized_results(views(raw_result.items@)));
    }
    FormattedDetectionResultList {
        total_items: raw_result.total_items,
        total_pages: raw_result.total_pages,
        current_page: raw_result.current_page,
        current_page_items_count: raw_result.current_page_items_count,
        items,
    }
}

/// Normalizing is a function of what the payload holds: two payloads that
/// hold the same give the same detection result, and so does one payload
/// normalized twice.
pub proof fn lemma_same_payload_same_result(first: AnalysisResult, second: AnalysisResult)
    requires
        first@ == second@,
    ensures
        normalized_result(first@) == normalized_result(second@),
{
}

/// No status shown to callers is `FAKE`: the mapping rewords it, and what it
/// puts in its place is another word.
pub proof fn lemma_mapped_status_never_fake(status: Seq<char>)
    ensures
        mapped_status(status) != "FAKE"@,
        status != "NOT_APPLICABLE"@ ==> mapped_status(status) != "NOT_APPLICABLE"@,
        status != "FAKE"@ ==> mapped_status(status) == status,
        mapped_status(mapped_status(status)) == mapped_status(status),
{
    reveal_strlit("FAKE");
    reveal_strlit("MANIPULATED");
    reveal_strlit("NOT_APPLICABLE");
    assert("FAKE"@.len() == 4);
    assert("MANIPULATED"@.len() == 11);
    assert("NOT_APPLICABLE"@.len() == 14);
}

/// What holds of every model that is kept: it comes from a model of the
/// payload that applied, and its status is neither `FAKE` nor
/// `NOT_APPLICABLE`.
pub proof fn lemma_kept_models(models: Seq<DetectionModelView>)
    ensures
        kept_models(models).len() <= models.len(),
        forall|j: int|
            0 <= j < kept_models(models).len() ==> {
                &&& (#[trigger] kept_models(models)[j]).status != "FAKE"@
                &&& kept_models(models)[j].status != "NOT_APPLICABLE"@
                &&& exists|i: int|
                    0 <= i < models.len() && models[i].status != "NOT_APPLICABLE"@
                        && kept_models(models)[j] == normalized_model(#[trigger] models[i])
            },
    decreases models.len(),
{
    if models.len() > 0 {
        let rest = models.drop_last();
        lemma_kept_models(rest);
        lemma_mapped_status_never_fake(models.last().status);
        assert forall|j: int| 0 <= j < kept_models(models).len() implies {
            &&& (#[trigger] kept_models(models)[j]).status != "FAKE"@
            &&& kept_models(models)[j].status != "NOT_APPLICABLE"@
            &&& exists|i: int|
                0 <= i < models.len() && models[i].status != "NOT_APPLICABLE"@ && kept_models(
                    models,
                )[j] == normalized_model(#[trigger] models[i])
        } by {
            if j < kept_models(rest).len() {
                assert(kept_models(models)[j] == kept_models(rest)[j]);
                let i = choose|i: int|
                    0 <= i < rest.len() && rest[i].status != "NOT_APPLICABLE"@ && kept_models(
                        rest,
                    )[j] == normalized_model(#[trigger] rest[i]);
                assert(models[i] == rest[i]);
            } else {
                assert(models[models.len() - 1] == models.last());
            }
        }
    }
}

/// No status in a detection result is `FAKE`, whatever the payload.
pub proof fn lemma_no_fake_status(raw: AnalysisResultView)
    ensures
        normalized_result(raw).status != "FAKE"@,
        forall|j: int|
            0 <= j < normalized_result(raw).models.len() ==> (#[trigger] normalized_result(
                raw,
            ).models[j]).status != "FAKE"@,
{
    lemma_mapped_status_never_fake(raw.status);
    lemma_kept_models(raw.models);
}

/// No model in a detection result has the status `NOT_APPLICABLE`, whatever
/// the payload, and the result has no more models than the payload.
pub proof fn lemma_no_inapplicable_model(raw: AnalysisResultView)
    ensures
        normalized_result(raw).models.len() <= raw.models.len(),
        forall|j: int|
            0 <= j < normalized_result(raw).models.len() ==> (#[trigger] normalized_result(
                raw,
            ).models[j]).status != "NOT_APPLICABLE"@,
{
    lemma_kept_models(raw.models);
}

/// Every score of a detection result lies between 0 and 1, where every score
/// of the payload lies between 0 and 100.
pub proof fn lemma_scores_in_unit_range(raw: AnalysisResultView)
    requires
        in_percent_range(raw.final_score),
        raw.results_summary matches Some(summary) ==> in_percent_range(summary.final_score),
        forall|i: int|
            0 <= i < raw.models.len() ==> {
                &&& in_percent_range((#[trigger] raw.models[i]).prediction_number)
                &&& in_percent_range(raw.models[i].normalized_prediction_number)
                &&& in_percent_range(raw.models[i].final_score)
            },
    ensures
        in_unit_range(normalized_result(raw).score),
        forall|j: int|
            0 <= j < normalized_result(raw).models.len() ==> in_unit_range(
                (#[trigger] normalized_result(raw).models[j]).score,
            ),
{
    lemma_rescaled_in_unit_range(
        first_present(
            raw.final_score,
            match raw.results_summary {
                Some(summary) => summary.final_score,
                None => None,
            },
        ),
    );
    lemma_kept_models(raw.models);
    assert forall|j: int| 0 <= j < normalized_result(raw).models.len() implies in_unit_range(
        (#[trigger] normalized_result(raw).models[j]).score,
    ) by {
        let i = choose|i: int|
            0 <= i < raw.models.len() && kept_models(raw.models)[j] == normalized_model(
                #[trigger] raw.models[i],
            );
        let m = raw.models[i];
        lemma_rescaled_in_unit_range(
            first_present(
                m.prediction_number,
                first_present(m.normalized_prediction_number, m.final_score),
            ),
        );
    }
}

/// Absent, or between 0 and 100.
pub open spec fn in_percent_range(score: Option<Score>) -> bool {
    score matches Some(s) ==> s.non_negative() && s.at_most(100)
}

/// Absent, or between 0 and 1.
pub open spec fn in_unit_range(score: Option<Score>) -> bool {
    score matches Some(s) ==> s.non_negative() && s.at_most(1)
}

pub proof fn lemma_rescaled_in_unit_range(score: Option<Score>)
    requires
        in_percent_range(score),
    ensures
        in_unit_range(rescaled(score)),
{
    if let Some(s) = score {
        crate::score::lemma_normalized_in_unit_range(s);
    }
}

} // verus!
