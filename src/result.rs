//! The transcription record handed back for every job.
use vstd::prelude::*;

verus! {

/// Whether a job produced a transcription ("ok") or not ("ko").
#[derive(Debug, Clone, Copy, PartialEq, Eq, Structural)]
pub enum ResultStatus {
    Success,
    Failure,
}

impl ResultStatus {
    /// The status as it appears on the wire.
    pub fn wire_name(&self) -> (r: &'static str)
        ensures
            *self == ResultStatus::Success ==> r@ == "ok"@,
            *self == ResultStatus::Failure ==> r@ == "ko"@,
    {
        match self {
            ResultStatus::Success => "ok",
            ResultStatus::Failure => "ko",
        }
    }
}

/// The confidence attached to a transcription. It is a binary surrogate,
/// not a calibrated score: full (1.0 on the wire) for a transcription the
/// engine produced, zero (0.0) otherwise.
#[derive(Debug, Clone, Copy, PartialEq, Eq, Structural)]
pub enum Confidence {
    Zero,
    Full,
}

/// One transcription with its confidence.
#[derive(Debug, Clone)]
pub struct InferenceData {
    pub text: String,
    pub confidence: Confidence,
}

/// The record returned for a job: a status and the transcriptions. There is
/// always exactly one entry today; the sequence leaves room for more.
#[derive(Debug, Clone)]
pub struct InferenceResult {
    pub status: ResultStatus,
    pub data: Vec<InferenceData>,
}

/// `r` is the single-entry record for `text`, successful or not.
pub open spec fn is_result_for(r: InferenceResult, text: Seq<char>, success: bool) -> bool {
    &&& r.status == (if success {
        ResultStatus::Success
    } else {
        ResultStatus::Failure
    })
    &&& r.data@.len() == 1
    &&& r.data@[0].text@ == text
    &&& r.data@[0].confidence == (if success {
        Confidence::Full
    } else {
        Confidence::Zero
    })
}

/// `r` is the normalised failure record: "ko", zero confidence, empty text.
pub open spec fn is_failure_result(r: InferenceResult) -> bool {
    is_result_for(r, Seq::empty(), false)
}

/// `r` is what an engine outcome maps to: the text on success, the
/// normalised failure record otherwise.
pub open spec fn is_engine_result(r: InferenceResult, outcome: Option<Seq<char>>) -> bool {
    match outcome {
        Some(t) => is_result_for(r, t, true),
        None => is_failure_result(r),
    }
}

/// Builds the record for `result`: "ok" with full confidence when `status`
/// holds, "ko" with zero confidence otherwise.
pub fn inference_result(result: String, status: bool) -> (r: InferenceResult)
    ensures
        is_result_for(r, result@, status),
{
    let confidence = if status {
        Confidence::Full
    } else {
        Confidence::Zero
    };
    let status_value = if status {
        ResultStatus::Success
    } else {
        ResultStatus::Failure
    };
    let mut data: Vec<InferenceData> = Vec::new();
    data.push(InferenceData { text: result, confidence });
    InferenceResult { status: status_value, data }
}

/// The normalised failure record.
pub fn inference_error() -> (r: InferenceResult)
    ensures
        is_failure_result(r),
{
    inference_result(String::new(), false)
}

/// Maps what the engine returned for a job (its text, or `None` when the
/// engine failed) to the job's record.
pub fn engine_result(outcome: Option<String>) -> (r: InferenceResult)
    ensures
        is_engine_result(
            r,
            match outcome {
                Some(t) => Some(t@),
                None => None,
            },
        ),
{
    match outcome {
        Some(text) => inference_result(text, true),
        None => inference_error(),
    }
}

} // verus!
