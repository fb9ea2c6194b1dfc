use media_cutter::args::{
    make_ffmpeg_detect_max_volume_args, make_ffmpeg_processing_args, make_sox_clean_noise_args,
    make_sox_generate_noiseprof_args,
};
use media_cutter::config::Config;
use media_cutter::errors::PipelineError;
use media_cutter::pipeline::PipelineState;

fn base_config() -> Config {
    let mut conf = Config::new();
    conf.input_file = "in.mp4".to_string();
    conf.output_file = "out.mp4".to_string();
    conf
}

// The documented scenario: a 65 s to 70 s window with both pass filters and
// no preview gives the exact filter chain and unpadded trim arguments.
#[test]
fn final_args_scenario() {
    let mut conf = base_config();
    conf.from_time = 65000;
    conf.to_time = 70000;
    conf.high_pass_filter = Some(200);
    conf.low_pass_filter = Some(3000);
    conf.preview = false;
    let state = PipelineState::new();
    let args = make_ffmpeg_processing_args(&conf, &state);
    assert_eq!(
        args,
        vec![
            "-nostdin".to_string(),
            "-i".to_string(),
            "in.mp4".to_string(),
            "-ss".to_string(),
            "0:1:5.0".to_string(),
            "-t".to_string(),
            "0:0:5.0".to_string(),
            "-af".to_string(),
            "highpass=f=200,lowpass=f=3000,volume=0dB".to_string(),
            "out.mp4".to_string(),
        ]
    );
}

// The gain filter subtracts the measured maximum volume when a measurement
// exists, and passes the requested change through unchanged when none does.
#[test]
fn gain_filter_uses_measurement() {
    let conf = base_config();
    let mut state = PipelineState::new();
    state.max_volume_mdb = Some(-5000);
    let args = make_ffmpeg_processing_args(&conf, &state);
    assert!(args.contains(&"volume=5dB".to_string()));

    let mut conf2 = base_config();
    conf2.volume_change = 2500;
    let args2 = make_ffmpeg_processing_args(&conf2, &state);
    assert!(args2.contains(&"volume=7.5dB".to_string()));
}

#[test]
fn gain_filter_without_measurement() {
    let mut conf = base_config();
    conf.volume_change = -1500;
    let state = PipelineState::new();
    let args = make_ffmpeg_processing_args(&conf, &state);
    assert!(args.contains(&"volume=-1.5dB".to_string()));
}

// Previewing drops the overwrite flag and the output path.
#[test]
fn preview_omits_output_and_overwrite() {
    let mut conf = base_config();
    conf.preview = true;
    conf.allow_overidde = true;
    let state = PipelineState::new();
    let args = make_ffmpeg_processing_args(&conf, &state);
    assert_eq!(args[0], "-i");
    assert!(!args.contains(&"-y".to_string()));
    assert!(!args.contains(&"-nostdin".to_string()));
    assert!(!args.contains(&"out.mp4".to_string()));
    assert_eq!(args.last().unwrap(), "volume=0dB");
}

#[test]
fn overwrite_flag_choice() {
    let mut conf = base_config();
    conf.allow_overidde = true;
    let state = PipelineState::new();
    let args = make_ffmpeg_processing_args(&conf, &state);
    assert_eq!(args[0], "-y");
}

#[test]
fn stream_drop_flags() {
    let mut conf = base_config();
    conf.ignore_video = true;
    conf.ignore_audio = true;
    let state = PipelineState::new();
    let args = make_ffmpeg_processing_args(&conf, &state);
    assert_eq!(args[3], "-vn");
    assert_eq!(args[4], "-an");
}

// A state that records an earlier trim makes the final stage read the
// scratch file and skip the trim window.
#[test]
fn final_args_after_noise_stage() {
    let mut conf = base_config();
    conf.from_time = 1000;
    conf.to_time = 2000;
    let state = PipelineState {
        max_volume_mdb: None,
        sox_output_file: Some("/tmp/media_cutter_tmp/in.mp4".to_string()),
        already_trimed: true,
    };
    let args = make_ffmpeg_processing_args(&conf, &state);
    assert_eq!(
        args,
        vec![
            "-nostdin".to_string(),
            "-i".to_string(),
            "/tmp/media_cutter_tmp/in.mp4".to_string(),
            "-af".to_string(),
            "volume=0dB".to_string(),
            "out.mp4".to_string(),
        ]
    );
}

#[test]
fn detect_args_shape() {
    let mut conf = base_config();
    conf.from_time = 65000;
    conf.to_time = 70000;
    let args = make_ffmpeg_detect_max_volume_args(&conf);
    assert_eq!(
        args,
        vec![
            "-nostdin".to_string(),
            "-i".to_string(),
            "in.mp4".to_string(),
            "-vn".to_string(),
            "-ss".to_string(),
            "0:1:5.0".to_string(),
            "-t".to_string(),
            "0:0:5.0".to_string(),
            "-filter:a".to_string(),
            "volumedetect".to_string(),
            "-f".to_string(),
            "null".to_string(),
            "-".to_string(),
        ]
    );
}

#[test]
fn noiseprof_args_shape() {
    let mut conf = base_config();
    conf.noise_profile_file = Some("noise.wav".to_string());
    conf.noise_reduction_amount = Some(210);
    let args = make_sox_generate_noiseprof_args(&conf).unwrap();
    assert_eq!(args, vec!["noise.wav".to_string(), "-n".to_string(), "noiseprof".to_string()]);
}

#[test]
fn noiseprof_args_empty_file_rejected() {
    let mut conf = base_config();
    conf.noise_profile_file = Some("".to_string());
    conf.noise_reduction_amount = Some(210);
    match make_sox_generate_noiseprof_args(&conf) {
        Err(PipelineError::Validation { message }) => {
            assert_eq!(message, "Error: no noise file provided.");
        },
        _ => panic!("expected a validation error"),
    }
}

#[test]
fn noiseprof_args_missing_file_rejected() {
    let conf = base_config();
    match make_sox_generate_noiseprof_args(&conf) {
        Err(PipelineError::Validation { message }) => {
            assert_eq!(
                message,
                "Unexpected error: could not build noise profile generation command."
            );
        },
        _ => panic!("expected a validation error"),
    }
}

#[test]
fn clean_args_shape() {
    let mut conf = base_config();
    conf.from_time = 65000;
    conf.to_time = 70000;
    conf.noise_profile_file = Some("noise.wav".to_string());
    conf.noise_reduction_amount = Some(210);
    let args = make_sox_clean_noise_args(&conf, "/tmp/media_cutter_tmp/in.mp4").unwrap();
    assert_eq!(
        args,
        vec![
            "in.mp4".to_string(),
            "/tmp/media_cutter_tmp/in.mp4".to_string(),
            "trim".to_string(),
            "0:1:5.0".to_string(),
            "0:0:5.0".to_string(),
            "noisered".to_string(),
            "-".to_string(),
            "0.21".to_string(),
        ]
    );
}

#[test]
fn clean_args_missing_amount_rejected() {
    let mut conf = base_config();
    conf.noise_profile_file = Some("noise.wav".to_string());
    match make_sox_clean_noise_args(&conf, "/tmp/x") {
        Err(PipelineError::Validation { message }) => {
            assert_eq!(message, "Unexpected error: could not build noise cleaning command.");
        },
        _ => panic!("expected a validation error"),
    }
}
