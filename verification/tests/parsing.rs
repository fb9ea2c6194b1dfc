use media_cutter::volume::extract_max_volume;
use media_cutter::scratch::{scratch_dir_path, scratch_file_path};
use media_cutter::errors::PipelineError;

#[test]
fn extracts_typical_measurement() {
    let text = "[Parsed_volumedetect_0 @ 0x55] n_samples: 4800\n\
                [Parsed_volumedetect_0 @ 0x55] mean_volume: -23.4 dB\n\
                [Parsed_volumedetect_0 @ 0x55] max_volume: -5.0 dB\n";
    assert_eq!(extract_max_volume(text), Some(-5000));
}

#[test]
fn extracts_positive_and_zero() {
    assert_eq!(extract_max_volume("max_volume: 0.0 dB"), Some(0));
    assert_eq!(extract_max_volume("max_volume: 2.5 dB"), Some(2500));
    assert_eq!(extract_max_volume("max_volume:7dB"), Some(7000));
}

#[test]
fn first_match_wins() {
    let text = "max_volume: -1.5 dB and later max_volume: -9.0 dB";
    assert_eq!(extract_max_volume(text), Some(-1500));
}

#[test]
fn no_match_yields_none() {
    assert_eq!(extract_max_volume(""), None);
    assert_eq!(extract_max_volume("mean_volume: -23.4 dB"), None);
    assert_eq!(extract_max_volume("max_volume: dB"), None);
    assert_eq!(extract_max_volume("max_volume: -5.0"), None);
}

#[test]
fn malformed_number_yields_none() {
    assert_eq!(extract_max_volume("max_volume: 1.2.3 dB"), None);
    assert_eq!(extract_max_volume("max_volume: . dB"), None);
    assert_eq!(extract_max_volume("max_volume: 1.2345 dB"), None);
}

#[test]
fn oversized_number_yields_none() {
    assert_eq!(extract_max_volume("max_volume: 12345678901234 dB"), None);
    assert_eq!(extract_max_volume("max_volume: 0000000000.1 dB"), None);
    assert_eq!(extract_max_volume("max_volume: 999999999.999 dB"), Some(999999999999));
}

// Like the pattern matcher it stands for, the scanner moves past an
// occurrence that does not complete the pattern.
#[test]
fn scanning_continues_past_failed_occurrence() {
    assert_eq!(extract_max_volume("max_volume: x dB max_volume: -2.0 dB"), Some(-2000));
}

#[test]
fn whitespace_tolerance() {
    assert_eq!(extract_max_volume("max_volume:\t-0.5\n dB"), Some(-500));
}

#[test]
fn scratch_paths() {
    assert_eq!(scratch_dir_path("/tmp"), "/tmp/media_cutter_tmp");
    assert_eq!(scratch_dir_path("/tmp/"), "/tmp/media_cutter_tmp");
    assert_eq!(
        scratch_file_path("/tmp", "a/path/video.mp4").unwrap(),
        "/tmp/media_cutter_tmp/video.mp4"
    );
    assert_eq!(scratch_file_path("/tmp", "video.mp4").unwrap(), "/tmp/media_cutter_tmp/video.mp4");
}

#[test]
fn scratch_path_needs_base_name() {
    match scratch_file_path("/tmp", "") {
        Err(PipelineError::Validation { message }) => {
            assert_eq!(message, "Error: no input file provided.");
        },
        _ => panic!("expected a validation error"),
    }
    assert!(matches!(
        scratch_file_path("/tmp", "a/dir/"),
        Err(PipelineError::Validation { .. })
    ));
}
