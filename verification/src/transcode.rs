//! The transcoding handoff protocol: write the input bytes to a temporary
//! file, run the external encoder, read the output file back, and remove both
//! temporary files on every exit path — including the encoder being absent or
//! failing. The file and process work happens outside the library; this
//! module is the protocol's verified step function, and its invariant shows
//! that no path reaches the final state before both removals were issued.

use vstd::prelude::*;

use crate::errors::ImgError;
use crate::strutil::{spec_decimal, u64_decimal};

verus! {

/// The default encoder quality, used when the configured quality is zero or
/// unset.
pub open spec fn spec_effective_quality(q: u8) -> u8 {
    if q == 0 {
        95
    } else {
        q
    }
}

/// Maps the configured quality to the one handed to the encoder: zero means
/// the default of 95.
pub fn effective_quality(q: u8) -> (r: u8)
    ensures
        r == spec_effective_quality(q),
{
    if q == 0 {
        95
    } else {
        q
    }
}

/// Builds the encoder's argument list: the quality flag with the effective
/// quality, the input path, and the output flag with the output path.
pub fn encoder_args(q: u8, in_path: &str, out_path: &str) -> (r: Vec<String>)
    ensures
        r@.len() == 5,
        r@[0]@ == "-q"@,
        r@[1]@ == spec_decimal(spec_effective_quality(q) as nat),
        r@[2]@ == in_path@,
        r@[3]@ == "-o"@,
        r@[4]@ == out_path@,
{
    let mut v: Vec<String> = Vec::new();
    v.push("-q".to_owned());
    v.push(u64_decimal(effective_quality(q) as u64));
    v.push(in_path.to_owned());
    v.push("-o".to_owned());
    v.push(out_path.to_owned());
    v
}

/// Builds the uniqueness tag for the temporary file names from the two
/// numbers the orchestrator reads off the clock and the process: the
/// millisecond timestamp and the process id, joined by a dash.
pub fn uniqueness_tag(millis: u64, pid: u64) -> (r: String)
    ensures
        r@ == spec_decimal(millis as nat) + "-"@ + spec_decimal(pid as nat),
{
    let mut s = u64_decimal(millis);
    s.append("-");
    s.append(u64_decimal(pid).as_str());
    s
}

/// Builds the two temporary file names from a uniqueness tag the caller
/// derives from the current time and process identity.
pub fn temp_names(tag: &str) -> (r: (String, String))
    ensures
        r.0@ == "imgutil-"@ + tag@ + ".input"@,
        r.1@ == "imgutil-"@ + tag@ + ".webp"@,
{
    let mut a = "imgutil-".to_owned();
    a.append(tag);
    a.append(".input");
    let mut b = "imgutil-".to_owned();
    b.append(tag);
    b.append(".webp");
    (a, b)
}

/// How one encoder invocation went.
pub enum EncoderRun {
    /// The executable could not be launched at all.
    LaunchFailed { detail: String },
    /// It ran to completion; `diagnostic` is its captured output.
    Exited { success: bool, diagnostic: String },
}

/// What happened when the orchestrator performed the pending action.
pub enum TranscodeEvent {
    /// Writing the input temporary file succeeded or failed.
    Wrote { ok: bool, detail: String },
    /// The encoder invocation finished.
    Ran { run: EncoderRun },
    /// A removal of a temporary file was issued (its outcome is ignored).
    Removed,
    /// Reading the output temporary file yielded bytes, or failed.
    ReadBack { bytes: Option<Vec<u8>>, detail: String },
}

/// What follows once the input file's removal was issued.
pub enum AfterInputCleanup {
    /// The encoder succeeded: read the output file next.
    ReadOut,
    /// The run already failed: only the output removal is still owed.
    Abort { error: ImgError },
}

/// The protocol's phases; each names the one action the orchestrator performs
/// next.
pub enum TranscodePhase {
    /// Write the input bytes to the input temporary file.
    WriteInput,
    /// Run the encoder on the two temporary files.
    RunEncoder,
    /// Remove the input temporary file.
    RemoveInput { next: AfterInputCleanup },
    /// Read the transcoded bytes from the output temporary file.
    ReadOutput,
    /// Remove the output temporary file.
    RemoveOutput { result: Result<Vec<u8>, ImgError> },
    /// The run is over with this result.
    Done { result: Result<Vec<u8>, ImgError> },
}

/// The protocol state: the phase, and whether a removal was issued for each
/// temporary file.
pub struct Transcode {
    pub phase: TranscodePhase,
    pub input_removed: bool,
    pub output_removed: bool,
}

impl Transcode {
    /// Cleanup accounting: once reading or final cleanup is reached the input
    /// file's removal was issued, and the final state is reached only after
    /// both were.
    pub open spec fn inv(self) -> bool {
        &&& (self.phase matches TranscodePhase::ReadOutput ==> self.input_removed)
        &&& (self.phase matches TranscodePhase::RemoveOutput { .. } ==> self.input_removed)
        &&& (self.phase matches TranscodePhase::Done { .. } ==> self.input_removed
            && self.output_removed)
    }
}

/// The event each phase expects.
pub open spec fn event_fits(phase: TranscodePhase, event: TranscodeEvent) -> bool {
    match phase {
        TranscodePhase::WriteInput => event matches TranscodeEvent::Wrote { .. },
        TranscodePhase::RunEncoder => event matches TranscodeEvent::Ran { .. },
        TranscodePhase::RemoveInput { .. } => event matches TranscodeEvent::Removed,
        TranscodePhase::ReadOutput => event matches TranscodeEvent::ReadBack { .. },
        TranscodePhase::RemoveOutput { .. } => event matches TranscodeEvent::Removed,
        TranscodePhase::Done { .. } => false,
    }
}

/// Starts one transcoding run.
pub fn transcode_start() -> (t: Transcode)
    ensures
        t.phase matches TranscodePhase::WriteInput,
        !t.input_removed,
        !t.output_removed,
        t.inv(),
{
    Transcode { phase: TranscodePhase::WriteInput, input_removed: false, output_removed: false }
}

/// Advances the protocol by one observed event. Write failure, launch
/// failure, a failing exit, and an unreadable output each turn into their
/// error, but always by way of the two removal phases; only a successful
/// write, launch and exit lead to reading the output.
pub fn transcode_step(t: Transcode, event: TranscodeEvent) -> (r: Transcode)
    requires
        t.inv(),
        event_fits(t.phase, event),
    ensures
        r.inv(),
        (match t.phase {
            TranscodePhase::WriteInput => r.input_removed == t.input_removed && r.output_removed
                == t.output_removed && (match event {
                TranscodeEvent::Wrote { ok, detail } => {
                    if ok {
                        r.phase matches TranscodePhase::RunEncoder
                    } else {
                        r.phase matches TranscodePhase::RemoveInput { next }
                            && (next matches AfterInputCleanup::Abort { error } && (
                        error matches ImgError::Io { detail: d } && d@ == "write temp input: "@
                            + detail@))
                    }
                },
                _ => true,
            }),
            TranscodePhase::RunEncoder => r.input_removed == t.input_removed && r.output_removed
                == t.output_removed && (match event {
                TranscodeEvent::Ran { run } => (match run {
                    EncoderRun::LaunchFailed { detail } => r.phase
                        matches TranscodePhase::RemoveInput { next } && (
                    next matches AfterInputCleanup::Abort { error } && (
                    error matches ImgError::TranscodeUnavailable { detail: d } && d@ == detail@)),
                    EncoderRun::Exited { success, diagnostic } => {
                        if success {
                            r.phase matches TranscodePhase::RemoveInput { next } && next
                                matches AfterInputCleanup::ReadOut
                        } else {
                            r.phase matches TranscodePhase::RemoveInput { next } && (
                            next matches AfterInputCleanup::Abort { error } && (
                            error matches ImgError::TranscodeFailed { diagnostic: d } && d@
                                == diagnostic@))
                        }
                    },
                }),
                _ => true,
            }),
            TranscodePhase::RemoveInput { next } => r.input_removed && r.output_removed
                == t.output_removed && (match next {
                AfterInputCleanup::ReadOut => r.phase matches TranscodePhase::ReadOutput,
                AfterInputCleanup::Abort { error } => r.phase
                    matches TranscodePhase::RemoveOutput { result } && (result matches Err(e2)
                    && e2 == error),
            }),
            TranscodePhase::ReadOutput => r.input_removed == t.input_removed && r.output_removed
                == t.output_removed && (match event {
                TranscodeEvent::ReadBack { bytes, detail } => (match bytes {
                    Some(b) => r.phase matches TranscodePhase::RemoveOutput { result } && (
                    result matches Ok(bb) && bb@ == b@),
                    None => r.phase matches TranscodePhase::RemoveOutput { result } && (
                    result matches Err(e2) && (e2 matches ImgError::Io { detail: d } && d@
                        == "read temp webp: "@ + detail@)),
                }),
                _ => true,
            }),
            TranscodePhase::RemoveOutput { result } => r.output_removed && r.input_removed
                == t.input_removed && (r.phase matches TranscodePhase::Done { result: r2 } && r2
                == result),
            TranscodePhase::Done { .. } => true,
        }),
{
    let Transcode { phase, input_removed, output_removed } = t;
    match phase {
        TranscodePhase::WriteInput => {
            let next_phase = match event {
                TranscodeEvent::Wrote { ok, detail } => {
                    if ok {
                        TranscodePhase::RunEncoder
                    } else {
                        let mut d = "write temp input: ".to_owned();
                        d.append(detail.as_str());
                        TranscodePhase::RemoveInput {
                            next: AfterInputCleanup::Abort { error: ImgError::Io { detail: d } },
                        }
                    }
                },
                _ => TranscodePhase::RunEncoder,
            };
            Transcode { phase: next_phase, input_removed, output_removed }
        },
        TranscodePhase::RunEncoder => {
            let next_phase = match event {
                TranscodeEvent::Ran { run } => match run {
                    EncoderRun::LaunchFailed { detail } => TranscodePhase::RemoveInput {
                        next: AfterInputCleanup::Abort {
                            error: ImgError::TranscodeUnavailable { detail },
                        },
                    },
                    EncoderRun::Exited { success, diagnostic } => {
                        if success {
                            TranscodePhase::RemoveInput { next: AfterInputCleanup::ReadOut }
                        } else {
                            TranscodePhase::RemoveInput {
                                next: AfterInputCleanup::Abort {
                                    error: ImgError::TranscodeFailed { diagnostic },
                                },
                            }
                        }
                    },
                },
                _ => TranscodePhase::RunEncoder,
            };
            Transcode { phase: next_phase, input_removed, output_removed }
        },
        TranscodePhase::RemoveInput { next } => {
            let next_phase = match next {
                AfterInputCleanup::ReadOut => TranscodePhase::ReadOutput,
                AfterInputCleanup::Abort { error } => TranscodePhase::RemoveOutput {
                    result: Err(error),
                },
            };
            Transcode { phase: next_phase, input_removed: true, output_removed }
        },
        TranscodePhase::ReadOutput => {
            let next_phase = match event {
                TranscodeEvent::ReadBack { bytes, detail } => match bytes {
                    Some(b) => TranscodePhase::RemoveOutput { result: Ok(b) },
                    None => {
                        let mut d = "read temp webp: ".to_owned();
                        d.append(detail.as_str());
                        TranscodePhase::RemoveOutput {
                            result: Err(ImgError::Io { detail: d }),
                        }
                    },
                },
                _ => TranscodePhase::ReadOutput,
            };
            Transcode { phase: next_phase, input_removed, output_removed }
        },
        TranscodePhase::RemoveOutput { result } => {
            Transcode { phase: TranscodePhase::Done { result }, input_removed, output_removed: true }
        },
        TranscodePhase::Done { result } => {
            Transcode { phase: TranscodePhase::Done { result }, input_removed, output_removed }
        },
    }
}

/// Guaranteed cleanup: however the run went, when the protocol is over, a
/// removal was issued for both temporary files.
pub proof fn lemma_transcode_cleanup(t: Transcode)
    requires
        t.inv(),
        t.phase matches TranscodePhase::Done { .. },
    ensures
        t.input_removed && t.output_removed,
{
}

} // verus!
