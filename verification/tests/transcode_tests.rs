use img_util::errors::ImgError;
use img_util::transcode::{
    effective_quality, encoder_args, temp_names, transcode_start, transcode_step, uniqueness_tag,
    EncoderRun, Transcode, TranscodeEvent, TranscodePhase,
};

#[test]
fn zero_quality_means_default() {
    assert_eq!(effective_quality(0), 95);
    assert_eq!(effective_quality(1), 1);
    assert_eq!(effective_quality(80), 80);
    assert_eq!(effective_quality(100), 100);
}

#[test]
fn encoder_arguments_carry_effective_quality() {
    let args = encoder_args(0, "/tmp/in.input", "/tmp/out.webp");
    assert_eq!(args, vec!["-q", "95", "/tmp/in.input", "-o", "/tmp/out.webp"]);
    let args2 = encoder_args(80, "a", "b");
    assert_eq!(args2, vec!["-q", "80", "a", "-o", "b"]);
}

#[test]
fn temp_names_follow_the_tag() {
    assert_eq!(uniqueness_tag(17000, 42), "17000-42");
    let (i, o) = temp_names("17000-42");
    assert_eq!(i, "imgutil-17000-42.input");
    assert_eq!(o, "imgutil-17000-42.webp");
}

fn run_to_done(mut t: Transcode, events: Vec<TranscodeEvent>) -> Transcode {
    for e in events {
        t = transcode_step(t, e);
    }
    t
}

#[test]
fn successful_run_returns_output_and_cleans_up() {
    let t = transcode_start();
    let t = run_to_done(
        t,
        vec![
            TranscodeEvent::Wrote { ok: true, detail: String::new() },
            TranscodeEvent::Ran {
                run: EncoderRun::Exited { success: true, diagnostic: String::new() },
            },
            TranscodeEvent::Removed,
            TranscodeEvent::ReadBack { bytes: Some(vec![9, 9]), detail: String::new() },
            TranscodeEvent::Removed,
        ],
    );
    assert!(t.input_removed);
    assert!(t.output_removed);
    match t.phase {
        TranscodePhase::Done { result: Ok(b) } => assert_eq!(b, vec![9, 9]),
        _ => panic!("a clean run must finish with the transcoded bytes"),
    }
}

#[test]
fn absent_encoder_fails_unavailable_and_cleans_up() {
    let t = transcode_start();
    let t = run_to_done(
        t,
        vec![
            TranscodeEvent::Wrote { ok: true, detail: String::new() },
            TranscodeEvent::Ran {
                run: EncoderRun::LaunchFailed { detail: "No such file or directory".to_string() },
            },
            TranscodeEvent::Removed,
            TranscodeEvent::Removed,
        ],
    );
    assert!(t.input_removed);
    assert!(t.output_removed);
    match t.phase {
        TranscodePhase::Done { result: Err(e) } => {
            assert!(matches!(e, ImgError::TranscodeUnavailable { .. }));
            assert!(e.message().contains("install"));
        },
        _ => panic!("an absent encoder must end the run with an error"),
    }
}

#[test]
fn failing_encoder_reports_diagnostic_and_cleans_up() {
    let t = transcode_start();
    let t = run_to_done(
        t,
        vec![
            TranscodeEvent::Wrote { ok: true, detail: String::new() },
            TranscodeEvent::Ran {
                run: EncoderRun::Exited { success: false, diagnostic: "bad input".to_string() },
            },
            TranscodeEvent::Removed,
            TranscodeEvent::Removed,
        ],
    );
    assert!(t.input_removed);
    assert!(t.output_removed);
    match t.phase {
        TranscodePhase::Done { result: Err(ImgError::TranscodeFailed { diagnostic }) } => {
            assert_eq!(diagnostic, "bad input");
        },
        _ => panic!("a failing encoder must end the run with its diagnostic"),
    }
}

#[test]
fn unreadable_output_fails_and_cleans_up() {
    let t = transcode_start();
    let t = run_to_done(
        t,
        vec![
            TranscodeEvent::Wrote { ok: true, detail: String::new() },
            TranscodeEvent::Ran {
                run: EncoderRun::Exited { success: true, diagnostic: String::new() },
            },
            TranscodeEvent::Removed,
            TranscodeEvent::ReadBack { bytes: None, detail: "missing".to_string() },
            TranscodeEvent::Removed,
        ],
    );
    assert!(t.input_removed);
    assert!(t.output_removed);
    assert!(matches!(t.phase, TranscodePhase::Done { result: Err(ImgError::Io { .. }) }));
}
