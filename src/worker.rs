//! The worker's decision for each job: what the engine is run on, or which
//! record is returned without running it.
use vstd::prelude::*;
use crate::audio::{
    decode_audio, decoded_payload, container_descriptor, container_samples, valid_profile,
    DecodedAudio, AUDIO_CHANNELS, AUDIO_SAMPLE_RATE, lemma_wrong_profile_refused, lemma_headerless_read_raw, raw_samples, probe_excluded, wav_accepted,
};
use crate::result::{inference_error, is_engine_result, is_failure_result, InferenceResult, ResultStatus, Confidence};

verus! {

/// An audio payload as received from a client.
#[derive(Debug, Clone)]
pub struct RawAudioPCM {
    pub content: Vec<u8>,
}

/// What the worker does with a job.
#[derive(Debug)]
pub enum WorkerAction {
    /// Run the engine on these samples at this rate, and reply with
    /// `engine_result` of what it returns.
    RunEngine { samples: Vec<i16>, sample_rate: u32 },
    /// Reply with this record without running the engine.
    Reply(InferenceResult),
}

/// `a` is the worker's action for a job carrying `payload`.
pub open spec fn is_job_action(payload: Seq<u8>, a: WorkerAction) -> bool {
    match decoded_payload(payload) {
        Some(s) => match a {
            WorkerAction::RunEngine { samples, sample_rate } => samples@ == s && sample_rate
                == AUDIO_SAMPLE_RATE,
            WorkerAction::Reply(_) => false,
        },
        None => match a {
            WorkerAction::RunEngine { .. } => false,
            WorkerAction::Reply(r) => is_failure_result(r),
        },
    }
}

/// Decides what to do with a job: run the engine on the decoded samples at
/// the trained rate, or reply with the failure record for a refused payload.
pub fn job_step(job: &RawAudioPCM) -> (r: WorkerAction)
    ensures
        is_job_action(job.content@, r),
{
    match decode_audio(job.content.as_slice()) {
        DecodedAudio::Samples(samples) => WorkerAction::RunEngine {
            samples,
            sample_rate: AUDIO_SAMPLE_RATE,
        },
        DecodedAudio::Rejected => WorkerAction::Reply(inference_error()),
    }
}

/// A payload that hound reads as WAV, of the engine's profile and whose
/// samples can be read, is run through the engine on exactly those samples; when the engine returns a
/// text, the job's record is "ok" with exactly one entry.
pub proof fn lemma_valid_container_ok(
    payload: Seq<u8>,
    a: WorkerAction,
    text: Seq<char>,
    r: InferenceResult,
)
    requires
        wav_accepted(payload),
        container_descriptor(payload) is Some,
        valid_profile(container_descriptor(payload)->Some_0),
        container_samples(payload) is Some,
        is_job_action(payload, a),
        is_engine_result(r, Some(text)),
    ensures
        a matches WorkerAction::RunEngine { samples, sample_rate } && samples@
            == container_samples(payload)->Some_0 && sample_rate == AUDIO_SAMPLE_RATE,
        r.status == ResultStatus::Success,
        r.data@.len() == 1,
{
}

/// A container whose channel count or sample rate differs from the
/// engine's profile is answered with the failure record ("ko", zero
/// confidence, empty text), and neither the engine nor the raw
/// reinterpretation is tried.
pub proof fn lemma_wrong_profile_fails(payload: Seq<u8>, a: WorkerAction)
    requires
        container_descriptor(payload) is Some,
        container_descriptor(payload)->Some_0.channel_count != AUDIO_CHANNELS
            || container_descriptor(payload)->Some_0.sample_rate != AUDIO_SAMPLE_RATE,
        is_job_action(payload, a),
    ensures
        decoded_payload(payload) is None,
        a matches WorkerAction::Reply(r) && r.status == ResultStatus::Failure && r.data@.len() == 1
            && r.data@[0].text@ == Seq::<char>::empty() && r.data@[0].confidence
            == Confidence::Zero,
{
    lemma_wrong_profile_refused(payload);
}

/// A payload of even length in which audrey finds no container, and which
/// neither opens with the CAF magic nor holds an Ogg page header, is run
/// through the engine as raw PCM at the trained rate, one sample per pair of
/// bytes; whatever the engine returns, the job gets a single-entry record.
pub proof fn lemma_headerless_runs_engine(
    payload: Seq<u8>,
    a: WorkerAction,
    outcome: Option<Seq<char>>,
    r: InferenceResult,
)
    requires
        !probe_excluded(payload),
        container_descriptor(payload) is None,
        payload.len() % 2 == 0,
        is_job_action(payload, a),
        is_engine_result(r, outcome),
    ensures
        a matches WorkerAction::RunEngine { samples, sample_rate } && samples@ == raw_samples(
            payload,
        ) && sample_rate == AUDIO_SAMPLE_RATE,
        raw_samples(payload).len() * 2 == payload.len(),
        r.data@.len() == 1,
{
    lemma_headerless_read_raw(payload);
}

} // verus!
