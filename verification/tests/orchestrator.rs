use media_cutter::config::Config;
use media_cutter::errors::{error_message, command_map_error, PipelineError, ProcStatus, Program};
use media_cutter::pipeline::{Action, Event, Phase, Pipeline};

fn base_config() -> Config {
    let mut conf = Config::new();
    conf.input_file = "clip.mp4".to_string();
    conf.output_file = "out.mp4".to_string();
    conf.from_time = 1000;
    conf.to_time = 3000;
    conf
}

fn ok_status() -> ProcStatus {
    ProcStatus::Exited { code: 0, stderr: String::new() }
}

// A run without noise fields never touches the denoiser and never marks the
// source as trimmed.
#[test]
fn no_noise_fields_skip_denoiser() {
    let mut p = Pipeline::new(base_config(), "/tmp".to_string());
    let first = p.next(Event::Started).unwrap();
    match first {
        Action::RunFinal { program, args } => {
            assert!(matches!(program, Program::Ffmpeg));
            assert_eq!(args[0], "-nostdin");
        },
        _ => panic!("expected the final stage right away"),
    }
    assert!(!p.state.already_trimed);
    assert!(p.state.sox_output_file.is_none());
    let last = p.next(Event::FinalFinished { status: ok_status() }).unwrap();
    assert!(matches!(last, Action::Finished));
    assert!(!p.state.already_trimed);
    assert_eq!(p.phase, Phase::Done);
}

// An empty noise-sample path fails validation after the scratch directory
// is ensured, before any process is spawned.
#[test]
fn empty_noise_profile_fails_validation() {
    let mut conf = base_config();
    conf.noise_profile_file = Some("".to_string());
    conf.noise_reduction_amount = Some(210);
    let mut p = Pipeline::new(conf, "/tmp".to_string());
    let first = p.next(Event::Started).unwrap();
    match first {
        Action::EnsureScratchDir { dir } => assert_eq!(dir, "/tmp/media_cutter_tmp"),
        _ => panic!("expected only the scratch directory first"),
    }
    match p.next(Event::ScratchDirMade { error: None }) {
        Err(PipelineError::Validation { message }) => {
            assert_eq!(message, "Error: no noise file provided.");
        },
        _ => panic!("expected a validation error"),
    }
    assert_eq!(p.phase, Phase::Done);
}

// A failing loudness pre-pass aborts the run before the final stage.
#[test]
fn detect_failure_aborts_run() {
    let mut conf = base_config();
    conf.peak_normalization = true;
    let mut p = Pipeline::new(conf, "/tmp".to_string());
    let first = p.next(Event::Started).unwrap();
    assert!(matches!(first, Action::RunVolumeDetect { .. }));
    let status = ProcStatus::Exited { code: 1, stderr: "boom".to_string() };
    match p.next(Event::VolumeDetectFinished { status }) {
        Err(PipelineError::NonZeroExit { program, code, stderr, .. }) => {
            assert!(matches!(program, Program::Ffmpeg));
            assert_eq!(code, 1);
            assert_eq!(stderr, "boom");
        },
        _ => panic!("expected the detection stage's error"),
    }
    assert_eq!(p.phase, Phase::Done);
}

// The full run: denoiser pair, loudness pre-pass, final encode, cleanup.
#[test]
fn full_run_with_noise_and_normalization() {
    let mut conf = base_config();
    conf.noise_profile_file = Some("noise.wav".to_string());
    conf.noise_reduction_amount = Some(500);
    conf.peak_normalization = true;
    let mut p = Pipeline::new(conf, "/tmp".to_string());

    let a1 = p.next(Event::Started).unwrap();
    assert!(matches!(a1, Action::EnsureScratchDir { .. }));

    let a2 = p.next(Event::ScratchDirMade { error: None }).unwrap();
    match a2 {
        Action::RunNoisePair { profile_args, clean_args } => {
            assert_eq!(
                profile_args,
                vec!["noise.wav".to_string(), "-n".to_string(), "noiseprof".to_string()]
            );
            assert_eq!(
                clean_args,
                vec![
                    "clip.mp4".to_string(),
                    "/tmp/media_cutter_tmp/clip.mp4".to_string(),
                    "trim".to_string(),
                    "0:0:1.0".to_string(),
                    "0:0:2.0".to_string(),
                    "noisered".to_string(),
                    "-".to_string(),
                    "0.5".to_string(),
                ]
            );
        },
        _ => panic!("expected the denoiser pair"),
    }

    let a3 = p
        .next(Event::NoisePairFinished { profile: ok_status(), clean: ok_status() })
        .unwrap();
    assert!(matches!(a3, Action::RunVolumeDetect { .. }));
    assert!(p.state.already_trimed);

    let status = ProcStatus::Exited { code: 0, stderr: "max_volume: -6.0 dB".to_string() };
    let a4 = p.next(Event::VolumeDetectFinished { status }).unwrap();
    assert_eq!(p.state.max_volume_mdb, Some(-6000));
    match a4 {
        Action::RunFinal { program, args } => {
            assert!(matches!(program, Program::Ffmpeg));
            // the scratch file is the input now, and the trim is not redone
            assert_eq!(args[1], "-i");
            assert_eq!(args[2], "/tmp/media_cutter_tmp/clip.mp4");
            assert!(!args.contains(&"-ss".to_string()));
            assert!(args.contains(&"volume=6dB".to_string()));
        },
        _ => panic!("expected the final stage"),
    }

    let a5 = p.next(Event::FinalFinished { status: ok_status() }).unwrap();
    match a5 {
        Action::RemoveScratch { path } => assert_eq!(path, "/tmp/media_cutter_tmp/clip.mp4"),
        _ => panic!("expected scratch cleanup"),
    }

    let a6 = p.next(Event::ScratchRemoved { error: None }).unwrap();
    assert!(matches!(a6, Action::Finished));
    assert_eq!(p.phase, Phase::Done);
}

// A failing denoiser process surfaces that process's error.
#[test]
fn noise_pair_failure_propagates() {
    let mut conf = base_config();
    conf.noise_profile_file = Some("noise.wav".to_string());
    conf.noise_reduction_amount = Some(500);
    let mut p = Pipeline::new(conf, "/tmp".to_string());
    p.next(Event::Started).unwrap();
    p.next(Event::ScratchDirMade { error: None }).unwrap();
    let profile = ProcStatus::SpawnFailed { cause: "No such file or directory".to_string() };
    match p.next(Event::NoisePairFinished { profile, clean: ok_status() }) {
        Err(PipelineError::Spawn { program, cause, .. }) => {
            assert!(matches!(program, Program::Sox));
            assert_eq!(cause, "No such file or directory");
        },
        _ => panic!("expected a spawn error"),
    }
}

// Previewing selects the playback program.
#[test]
fn preview_selects_player() {
    let mut conf = base_config();
    conf.preview = true;
    let mut p = Pipeline::new(conf, "/tmp".to_string());
    match p.next(Event::Started).unwrap() {
        Action::RunFinal { program, args } => {
            assert!(matches!(program, Program::Ffplay));
            assert!(!args.contains(&"out.mp4".to_string()));
        },
        _ => panic!("expected the final stage"),
    }
}

// Filesystem failures carry their context.
#[test]
fn filesystem_errors_render() {
    let mut conf = base_config();
    conf.noise_profile_file = Some("noise.wav".to_string());
    conf.noise_reduction_amount = Some(500);
    let mut p = Pipeline::new(conf, "/tmp".to_string());
    p.next(Event::Started).unwrap();
    match p.next(Event::ScratchDirMade { error: Some("denied".to_string()) }) {
        Err(e) => {
            assert_eq!(
                error_message(&e),
                "Could not create temporary directory.\nError: denied"
            );
        },
        _ => panic!("expected a filesystem error"),
    }
}

// A cleanup failure is reported even though the primary work succeeded.
#[test]
fn cleanup_failure_reported() {
    let mut conf = base_config();
    conf.noise_profile_file = Some("noise.wav".to_string());
    conf.noise_reduction_amount = Some(500);
    let mut p = Pipeline::new(conf, "/tmp".to_string());
    p.next(Event::Started).unwrap();
    p.next(Event::ScratchDirMade { error: None }).unwrap();
    p.next(Event::NoisePairFinished { profile: ok_status(), clean: ok_status() }).unwrap();
    let a = p.next(Event::FinalFinished { status: ok_status() }).unwrap();
    assert!(matches!(a, Action::RemoveScratch { .. }));
    match p.next(Event::ScratchRemoved { error: Some("busy".to_string()) }) {
        Err(e) => {
            assert_eq!(error_message(&e), "Could not delete temporary file.\nError: busy");
        },
        _ => panic!("expected a filesystem error"),
    }
}

// Diagnostics that cannot be decoded as text are a structured error, not a
// crash.
#[test]
fn undecodable_diagnostics_reported() {
    let mut conf = base_config();
    conf.peak_normalization = true;
    let mut p = Pipeline::new(conf, "/tmp".to_string());
    p.next(Event::Started).unwrap();
    match p.next(Event::VolumeDetectFinished { status: ProcStatus::DecodeFailed }) {
        Err(e) => {
            assert!(matches!(e, PipelineError::Decode { .. }));
            assert_eq!(
                error_message(&e),
                "Error: could not decode the diagnostic output of ffmpeg."
            );
        },
        _ => panic!("expected a decode error"),
    }
    assert_eq!(p.phase, Phase::Done);
}

#[test]
fn error_messages_render() {
    let args: Vec<String> = vec!["-l".to_string(), "-h".to_string(), "a/path".to_string()];
    let e = PipelineError::NonZeroExit {
        program: Program::Ffmpeg,
        args: args.clone(),
        code: 1,
        stderr: "bad input".to_string(),
    };
    assert_eq!(
        error_message(&e),
        "\u{26a0} ffmpeg exited with non-zero status code: 1\n\nArguments were: \"-l\" \"-h\" \"a/path\"\n\nError output: bad input"
    );
    let s = PipelineError::SignalTerminated { program: Program::Sox, args: args.clone() };
    assert_eq!(error_message(&s), "\u{26a0} sox terminated by signal");
    let sp = PipelineError::Spawn {
        program: Program::Ffplay,
        args,
        cause: "not found".to_string(),
    };
    assert_eq!(
        error_message(&sp),
        "Failed to start: not found\nCommand was: ffplay \"-l\" \"-h\" \"a/path\""
    );
}

#[test]
fn command_map_error_renders() {
    let args: Vec<String> = vec!["x".to_string()];
    assert_eq!(
        command_map_error("oops", "sox", &args),
        "Failed to start: oops\nCommand was: sox \"x\""
    );
}
