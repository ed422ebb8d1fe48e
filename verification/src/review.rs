//! The review workflow: a pull-request description on top of a finished
//! generation.
//!
//! A review embeds the joined commit subjects and the full diff in a single
//! prompt; no size-based summarization is applied here, deliberately, so
//! that commit-level detail is preserved in the review body. With no commit
//! subjects there is nothing to describe and no backend call is made.

use vstd::prelude::*;

use crate::errors::PipelineError;
use crate::pipeline::{interpret_generation, GenerationResult, InferenceRequest};
use crate::text::{join_lines, join_lines_from};

verus! {

/// The prompt asking for a pull-request description over the given commit
/// subjects and diff.
pub open spec fn review_prompt_spec(subjects: Seq<Seq<char>>, diff: Seq<char>) -> Seq<char> {
    "Generate a detailed pull request description based on the following commits and diff:\n\nCommits:\n"@
        + join_lines(subjects) + "\n\nDiff:\n"@ + diff
}

/// Begin a review: fails fast with `NoCommitsForReview` when there are no
/// commit subjects — in that case no request is produced and none must be
/// sent — and otherwise yields the single review request.
pub fn start_review(model: &String, commit_subjects: &Vec<String>, change_set: &str) -> (r: Result<
    InferenceRequest,
    PipelineError,
>)
    ensures
        commit_subjects@.len() == 0 ==> r == Err::<InferenceRequest, PipelineError>(
            PipelineError::NoCommitsForReview,
        ),
        commit_subjects@.len() > 0 ==> (r matches Ok(req) && req.model@ == model@ && req.stream
            == false && req.prompt@ == review_prompt_spec(
            commit_subjects.deep_view(),
            change_set@,
        )),
{
    if commit_subjects.len() == 0 {
        return Err(PipelineError::NoCommitsForReview);
    }
    let joined = join_lines_from(commit_subjects, 0);
    let mut prompt =
        "Generate a detailed pull request description based on the following commits and diff:\n\nCommits:\n".to_owned();
    prompt.append(joined.as_str());
    prompt.append("\n\nDiff:\n");
    prompt.append(change_set);
    proof {
        assert(commit_subjects.deep_view().skip(0) =~~= commit_subjects.deep_view());
    }
    Ok(InferenceRequest { model: model.clone(), prompt, stream: false })
}

/// Interpret the backend's response to a review request, identically to
/// the final round of commit-message generation.
pub fn finish_review(body: &str) -> (r: Result<GenerationResult, PipelineError>)
    ensures
        ({
            match crate::pipeline::response_text_of(body@) {
                Option::None => r == Err::<GenerationResult, PipelineError>(
                    PipelineError::MalformedResponse,
                ),
                Option::Some(t) => if crate::sanitize::sanitize_spec(t).len() > 0 {
                    r matches Ok(g) && g.text@ == crate::sanitize::sanitize_spec(t)
                        && g.text@.len() > 0
                } else {
                    r == Err::<GenerationResult, PipelineError>(PipelineError::MalformedResponse)
                },
            }
        }),
{
    interpret_generation(body)
}

} // verus!
