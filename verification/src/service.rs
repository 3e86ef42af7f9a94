//! Decisions of the audio upload service: which uploads are accepted, how a
//! decoding failure is reported, and what the response carries.

use vstd::prelude::*;

use crate::audio::DecodeError;
use crate::text::{decimal, push_decimal};

verus! {

/// Largest accepted upload, in mebibytes.
pub const MAX_UPLOAD_MB: usize = 5;

/// Largest accepted upload, in bytes.
pub const MAX_UPLOAD_BYTES: usize = MAX_UPLOAD_MB * 1024 * 1024;

/// Largest message the service encodes or decodes, in mebibytes.
pub const MAX_GRPC_MESSAGE_MB: usize = 16;

/// Largest message the service encodes or decodes, in bytes.
pub const MAX_GRPC_MESSAGE_BYTES: usize = MAX_GRPC_MESSAGE_MB * 1024 * 1024;

/// The class of a refused request.
#[derive(Debug, Clone, Copy, PartialEq, Eq, Structural)]
pub enum StatusKind {
    /// The request itself is unusable.
    InvalidArgument,
    /// The service failed while handling a usable request.
    Internal,
}

/// A refused request: its class and the message sent back.
#[derive(Debug, Clone, PartialEq, Eq)]
pub struct ServiceError {
    pub kind: StatusKind,
    pub message: String,
}

/// The rendered scalogram image and its size in pixels.
#[derive(Debug, Clone, PartialEq, Eq)]
pub struct ScalogramResult {
    pub image: Vec<u8>,
    pub width: u32,
    pub height: u32,
}

/// The message for an upload of `len` bytes that is over the limit.
pub open spec fn too_large_text(len: nat) -> Seq<char> {
    "Audio file too large! Max size is "@ + decimal(MAX_UPLOAD_BYTES as nat) + " bytes, recieved "@
        + decimal(len) + " bytes"@
}

/// The message for an empty upload.
pub open spec fn empty_upload_text() -> Seq<char> {
    "No audio data recieved!"@
}

/// Whether an upload of `len` bytes is accepted for decoding.
pub open spec fn upload_accepted(len: nat) -> bool {
    0 < len <= MAX_UPLOAD_BYTES
}

/// Checks the size of an upload before it is decoded: an empty upload and
/// one over `MAX_UPLOAD_BYTES` are refused as invalid arguments.
pub fn validate_upload(len: usize) -> (r: Result<(), ServiceError>)
    ensures
        r is Ok <==> upload_accepted(len as nat),
        r is Ok <==> (0 < len && len <= 5 * 1024 * 1024),
        len == 0 ==> (r matches Err(e) && e.kind == StatusKind::InvalidArgument
            && e.message@ == empty_upload_text()),
        len > MAX_UPLOAD_BYTES ==> (r matches Err(e) && e.kind == StatusKind::InvalidArgument
            && e.message@ == too_large_text(len as nat)),
{
    if len == 0 {
        return Err(
            ServiceError {
                kind: StatusKind::InvalidArgument,
                message: String::from_str("No audio data recieved!"),
            },
        );
    }
    if len > MAX_UPLOAD_BYTES {
        let mut m = String::from_str("Audio file too large! Max size is ");
        push_decimal(&mut m, MAX_UPLOAD_BYTES as u64);
        m.append(" bytes, recieved ");
        push_decimal(&mut m, len as u64);
        m.append(" bytes");
        return Err(ServiceError { kind: StatusKind::InvalidArgument, message: m });
    }
    Ok(())
}

/// The class of the response to a decoding failure.
pub open spec fn decode_failure_kind(err: DecodeError) -> StatusKind {
    if err.is_client_fault() {
        StatusKind::InvalidArgument
    } else {
        StatusKind::Internal
    }
}

/// Reports a decoding failure: files that are not usable audio are the
/// client's fault, demuxing and decoding failures are internal; the message
/// is the error's description.
pub fn decode_failure_status(err: &DecodeError) -> (r: ServiceError)
    ensures
        r.kind == decode_failure_kind(*err),
        r.message@ == err.describe(),
        r.kind == match *err {
            DecodeError::UnrecognizedFormat(_) => StatusKind::InvalidArgument,
            DecodeError::UnsupportedCodec(_) => StatusKind::InvalidArgument,
            DecodeError::NoAudioTrack => StatusKind::InvalidArgument,
            DecodeError::EmptyAudio => StatusKind::InvalidArgument,
            DecodeError::UnknownSampleRate => StatusKind::Internal,
            DecodeError::Demux(_) => StatusKind::Internal,
            DecodeError::Decode(_) => StatusKind::Internal,
        },
{
    let kind = match err {
        DecodeError::UnrecognizedFormat(_) | DecodeError::UnsupportedCodec(_) => {
            StatusKind::InvalidArgument
        },
        DecodeError::NoAudioTrack | DecodeError::EmptyAudio => StatusKind::InvalidArgument,
        DecodeError::UnknownSampleRate | DecodeError::Demux(_) | DecodeError::Decode(_) => {
            StatusKind::Internal
        },
    };
    ServiceError { kind, message: err.message() }
}

/// The sample count reported in a response: the number of decoded samples
/// reduced to 32 bits.
pub fn response_sample_count(n_samples: usize) -> (r: u32)
    ensures
        r as int == (n_samples as int) % 0x1_0000_0000,
{
    let wide: u64 = n_samples as u64;
    let r: u32 = wide as u32;
    assert(r == wide % 0x1_0000_0000) by (bit_vector)
        requires
            r == wide as u32,
    ;
    r
}

/// Whether the directory of the wavelet scripts must be put on the
/// interpreter's module search path: only where it is not on it already.
pub fn needs_search_path_entry(already_present: bool) -> (r: bool)
    ensures
        r == !already_present,
{
    !already_present
}

/// Number of scales of every scalogram the service computes.
pub const N_SCALES: u32 = 64;

/// How a task run on a worker thread ended: with its value, or by
/// panicking (with the rendered join error).
#[derive(Debug, Clone, PartialEq, Eq)]
pub enum TaskOutcome<T> {
    Finished(T),
    Panicked(String),
}

/// What the service keeps of decoded audio.
#[derive(Debug, Clone, Copy, PartialEq, Eq, Structural)]
pub struct DecodedSummary {
    pub sample_rate: u32,
    pub n_samples: usize,
}

/// The integer parameters of the scalogram to compute, and the metadata of
/// the response.
#[derive(Debug, Clone, Copy, PartialEq, Eq, Structural)]
pub struct ScalogramPlan {
    pub sample_rate: u32,
    pub n_samples: u32,
    pub n_scales: u32,
}

/// An internal error whose message is `prefix` followed by `detail`.
fn internal_error(prefix: &str, detail: &str) -> (r: ServiceError)
    ensures
        r.kind == StatusKind::Internal,
        r.message@ == prefix@ + detail@,
{
    let mut m = String::from_str(prefix);
    m.append(detail);
    ServiceError { kind: StatusKind::Internal, message: m }
}

/// The service's reaction to the end of the decoding task.
pub open spec fn decode_reaction(
    outcome: TaskOutcome<Result<DecodedSummary, DecodeError>>,
) -> Result<ScalogramPlan, (StatusKind, Seq<char>)> {
    match outcome {
        TaskOutcome::Panicked(t) => Err(
            (StatusKind::Internal, "Audio decoding task panicked: "@ + t@),
        ),
        TaskOutcome::Finished(Err(e)) => Err((decode_failure_kind(e), e.describe())),
        TaskOutcome::Finished(Ok(d)) => Ok(
            ScalogramPlan {
                sample_rate: d.sample_rate,
                n_samples: ((d.n_samples as int) % 0x1_0000_0000) as u32,
                n_scales: N_SCALES,
            },
        ),
    }
}

/// Decoded audio is passed on unchanged: the scalogram is computed at the
/// decoded sample rate, the response reports the decoded sample count
/// (reduced to 32 bits), and every scalogram has `N_SCALES` scales.
pub proof fn lemma_decoded_audio_passed_on(d: DecodedSummary)
    ensures
        decode_reaction(TaskOutcome::Finished(Ok(d))) matches Ok(p) && p.sample_rate
            == d.sample_rate && p.n_samples as int == (d.n_samples as int) % 0x1_0000_0000
            && p.n_scales == 64,
{
}

/// A failed decoding is answered by the error's description, as an invalid
/// argument exactly when the file is not usable audio; a panicked task is an
/// internal error.
pub proof fn lemma_decode_failures_answered(e: DecodeError, t: String)
    ensures
        decode_reaction(TaskOutcome::Finished(Err(e))) == Err::<
            ScalogramPlan,
            (StatusKind, Seq<char>),
        >(
            (
                if e.is_client_fault() {
                    StatusKind::InvalidArgument
                } else {
                    StatusKind::Internal
                },
                e.describe(),
            ),
        ),
        decode_reaction(TaskOutcome::Panicked(t)) matches Err(x) && x.0 == StatusKind::Internal,
{
}

/// An upload is accepted exactly when it is neither empty nor over five
/// mebibytes.
pub proof fn lemma_upload_limit(len: nat)
    ensures
        upload_accepted(len) <==> (len >= 1 && len <= 5_242_880),
{
}

/// The view of a service result whose success value has no view.
pub open spec fn error_view<T>(r: Result<T, ServiceError>) -> Result<T, (StatusKind, Seq<char>)> {
    match r {
        Ok(v) => Ok(v),
        Err(e) => Err((e.kind, e.message@)),
    }
}

/// Decides what follows the decoding task: a scalogram over the decoded
/// audio, or the error the request is answered with.
pub fn after_decode(outcome: TaskOutcome<Result<DecodedSummary, DecodeError>>) -> (r: Result<
    ScalogramPlan,
    ServiceError,
>)
    ensures
        error_view(r) == decode_reaction(outcome),
        outcome matches TaskOutcome::Finished(Ok(d)) ==> (r matches Ok(p) && p.sample_rate
            == d.sample_rate && p.n_samples as int == (d.n_samples as int) % 0x1_0000_0000
            && p.n_scales == N_SCALES),
        outcome matches TaskOutcome::Finished(Err(e)) ==> (r matches Err(x) && x.kind
            == decode_failure_kind(e) && x.message@ == e.describe()),
        outcome matches TaskOutcome::Panicked(t) ==> (r matches Err(x) && x.kind
            == StatusKind::Internal && x.message@ == "Audio decoding task panicked: "@ + t@),
{
    match outcome {
        TaskOutcome::Panicked(t) => Err(internal_error("Audio decoding task panicked: ", t.as_str())),
        TaskOutcome::Finished(Err(e)) => Err(decode_failure_status(&e)),
        TaskOutcome::Finished(Ok(d)) => Ok(
            ScalogramPlan {
                sample_rate: d.sample_rate,
                n_samples: response_sample_count(d.n_samples),
                n_scales: N_SCALES,
            },
        ),
    }
}

/// The service's reaction to the end of the scalogram task, whose failure
/// carries the rendered error.
pub open spec fn scalogram_reaction(outcome: TaskOutcome<Result<ScalogramResult, String>>) -> Result<
    ScalogramResult,
    (StatusKind, Seq<char>),
> {
    match outcome {
        TaskOutcome::Panicked(t) => Err((StatusKind::Internal, "Scalogram task panicked: "@ + t@)),
        TaskOutcome::Finished(Err(t)) => Err(
            (StatusKind::Internal, "Scalogram computation failed: "@ + t@),
        ),
        TaskOutcome::Finished(Ok(res)) => Ok(res),
    }
}

/// Decides the answer once the scalogram task has ended: the image, or an
/// internal error.
pub fn after_scalogram(outcome: TaskOutcome<Result<ScalogramResult, String>>) -> (r: Result<
    ScalogramResult,
    ServiceError,
>)
    ensures
        error_view(r) == scalogram_reaction(outcome),
        outcome matches TaskOutcome::Finished(Ok(res)) ==> r == Ok::<
            ScalogramResult,
            ServiceError,
        >(res),
        !(outcome matches TaskOutcome::Finished(Ok(_))) ==> (r matches Err(x) && x.kind
            == StatusKind::Internal),
{
    match outcome {
        TaskOutcome::Panicked(t) => Err(internal_error("Scalogram task panicked: ", t.as_str())),
        TaskOutcome::Finished(Err(t)) => Err(
            internal_error("Scalogram computation failed: ", t.as_str()),
        ),
        TaskOutcome::Finished(Ok(res)) => Ok(res),
    }
}

} // verus!
