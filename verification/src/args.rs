//! The argument lists for each external-program invocation. Every builder is
//! a pure function of the request and the pipeline state; each element of
//! the result is handed to the child process as one argument, verbatim.
use vstd::prelude::*;

use crate::config::Config;
use crate::errors::{PipelineError, Program};
use crate::numfmt::{spec_dec_digits, spec_fixed3, fixed3_to_string, u64_to_dec_string};
use crate::pipeline::PipelineState;
use crate::timefmt::{spec_duration_string, duration_to_string};

verus! {

/// The denoiser's profile-generation arguments: the noise sample, then the
/// fixed flags that write the profile to standard output.
pub open spec fn spec_noiseprof_args(noise_file: Seq<char>) -> Seq<Seq<char>> {
    seq![noise_file, "-n"@, "noiseprof"@]
}

/// Builds the profile-generation arguments. A missing noise file is a caller
/// mistake caught here, before anything is spawned; the field being absent
/// altogether cannot happen on the path that runs this stage, and is
/// reported as the unexpected error it would be.
pub fn make_sox_generate_noiseprof_args(conf: &Config) -> (r: Result<Vec<String>, PipelineError>)
    ensures
        match conf.noise_profile_file {
            Some(f) => {
                if f@.len() == 0 {
                    r matches Err(PipelineError::Validation { message }) && message@
                        == "Error: no noise file provided."@
                } else {
                    r matches Ok(args) && args.deep_view() == spec_noiseprof_args(f@)
                }
            },
            None => r matches Err(PipelineError::Validation { message }) && message@
                == "Unexpected error: could not build noise profile generation command."@,
        },
{
    match &conf.noise_profile_file {
        Some(filename) => {
            if filename.as_str().unicode_len() == 0 {
                Err(
                    PipelineError::Validation {
                        message: String::from_str("Error: no noise file provided."),
                    },
                )
            } else {
                let mut args: Vec<String> = Vec::new();
                args.push(filename.clone());
                args.push(String::from_str("-n"));
                args.push(String::from_str("noiseprof"));
                proof {
                    assert(args.deep_view() =~~= spec_noiseprof_args(filename@));
                }
                Ok(args)
            }
        },
        None => Err(
            PipelineError::Validation {
                message: String::from_str(
                    "Unexpected error: could not build noise profile generation command.",
                ),
            },
        ),
    }
}

/// The denoiser's cleaning arguments: input, scratch output, a trim
/// sub-command covering the window, then noise reduction reading the profile
/// from standard input with the given amount.
pub open spec fn spec_clean_args(c: Config, scratch: Seq<char>, amount: i64) -> Seq<Seq<char>>
    recommends
        c.wf(),
{
    seq![
        c.input_file@,
        scratch,
        "trim"@,
        spec_duration_string(c.from_time as nat),
        spec_duration_string(c.spec_duration()),
        "noisered"@,
        "-"@,
        spec_fixed3(amount as int),
    ]
}

/// Builds the noise-cleaning arguments for the given scratch output path.
pub fn make_sox_clean_noise_args(conf: &Config, sox_output_file: &str) -> (r: Result<
    Vec<String>,
    PipelineError,
>)
    requires
        conf.wf(),
    ensures
        match conf.noise_reduction_amount {
            Some(amount) => r matches Ok(args) && args.deep_view() == spec_clean_args(
                *conf,
                sox_output_file@,
                amount,
            ),
            None => r matches Err(PipelineError::Validation { message }) && message@
                == "Unexpected error: could not build noise cleaning command."@,
        },
{
    match conf.noise_reduction_amount {
        Some(amount) => {
            let mut args: Vec<String> = Vec::new();
            args.push(conf.input_file.clone());
            args.push(String::from_str(sox_output_file));
            let duration = conf.to_time - conf.from_time;
            args.push(String::from_str("trim"));
            args.push(duration_to_string(conf.from_time));
            args.push(duration_to_string(duration));
            args.push(String::from_str("noisered"));
            args.push(String::from_str("-"));
            args.push(fixed3_to_string(amount));
            proof {
                assert(args.deep_view() =~~= spec_clean_args(*conf, sox_output_file@, amount));
            }
            Ok(args)
        },
        None => Err(
            PipelineError::Validation {
                message: String::from_str(
                    "Unexpected error: could not build noise cleaning command.",
                ),
            },
        ),
    }
}

/// The loudness pre-pass arguments: no interactive input, the source, video
/// dropped, the trim window, the loudness-analysis filter, and a null sink —
/// this invocation writes no output file.
pub open spec fn spec_detect_args(c: Config) -> Seq<Seq<char>>
    recommends
        c.wf(),
{
    seq![
        "-nostdin"@,
        "-i"@,
        c.input_file@,
        "-vn"@,
        "-ss"@,
        spec_duration_string(c.from_time as nat),
        "-t"@,
        spec_duration_string(c.spec_duration()),
        "-filter:a"@,
        "volumedetect"@,
        "-f"@,
        "null"@,
        "-"@,
    ]
}

/// Builds the loudness-detection arguments.
pub fn make_ffmpeg_detect_max_volume_args(conf: &Config) -> (r: Vec<String>)
    requires
        conf.wf(),
    ensures
        r.deep_view() == spec_detect_args(*conf),
{
    let mut args: Vec<String> = Vec::new();
    args.push(String::from_str("-nostdin"));
    args.push(String::from_str("-i"));
    args.push(conf.input_file.clone());
    args.push(String::from_str("-vn"));
    let duration = conf.to_time - conf.from_time;
    args.push(String::from_str("-ss"));
    args.push(duration_to_string(conf.from_time));
    args.push(String::from_str("-t"));
    args.push(duration_to_string(duration));
    args.push(String::from_str("-filter:a"));
    args.push(String::from_str("volumedetect"));
    args.push(String::from_str("-f"));
    args.push(String::from_str("null"));
    args.push(String::from_str("-"));
    proof {
        assert(args.deep_view() =~~= spec_detect_args(*conf));
    }
    args
}

/// The gain the final stage applies, in thousandths of a decibel: the
/// requested change, less the measured maximum volume when the loudness
/// pre-pass produced one.
pub open spec fn spec_effective_gain(c: Config, st: PipelineState) -> int {
    match st.max_volume_mdb {
        Some(m) => c.volume_change - m,
        None => c.volume_change as int,
    }
}

/// The optional high-pass and low-pass fragments of the filter chain, each
/// followed by the separator that joins it to the next fragment.
pub open spec fn spec_pass_filters(c: Config) -> Seq<char> {
    (match c.high_pass_filter {
        Some(h) => "highpass=f="@ + spec_dec_digits(h as nat) + seq![','],
        None => Seq::<char>::empty(),
    }) + (match c.low_pass_filter {
        Some(l) => "lowpass=f="@ + spec_dec_digits(l as nat) + seq![','],
        None => Seq::<char>::empty(),
    })
}

/// The one filter-chain argument: high-pass, low-pass, then the mandatory
/// gain filter, joined with commas.
pub open spec fn spec_filter_chain(c: Config, st: PipelineState) -> Seq<char> {
    spec_pass_filters(c) + "volume="@ + spec_fixed3(spec_effective_gain(c, st)) + "dB"@
}

/// The leading overwrite-or-no-interactive flag: absent when previewing.
pub open spec fn spec_overwrite_prefix(c: Config) -> Seq<Seq<char>> {
    if c.preview {
        Seq::<Seq<char>>::empty()
    } else if c.allow_overidde {
        seq!["-y"@]
    } else {
        seq!["-nostdin"@]
    }
}

/// The source the final stage reads: the scratch file when the
/// noise-reduction stage wrote one, else the request's input.
pub open spec fn spec_input_for_final(c: Config, st: PipelineState) -> Seq<char> {
    match st.sox_output_file {
        Some(f) => f@,
        None => c.input_file@,
    }
}

/// The optional stream-drop flags.
pub open spec fn spec_stream_flags(c: Config) -> Seq<Seq<char>> {
    (if c.ignore_video {
        seq!["-vn"@]
    } else {
        Seq::<Seq<char>>::empty()
    }) + (if c.ignore_audio {
        seq!["-an"@]
    } else {
        Seq::<Seq<char>>::empty()
    })
}

/// The trim window, skipped when the noise-reduction stage already cut the
/// source to it.
pub open spec fn spec_trim_args(c: Config, st: PipelineState) -> Seq<Seq<char>>
    recommends
        c.wf(),
{
    if st.already_trimed {
        Seq::<Seq<char>>::empty()
    } else {
        seq![
            "-ss"@,
            spec_duration_string(c.from_time as nat),
            "-t"@,
            spec_duration_string(c.spec_duration()),
        ]
    }
}

/// The output path, appended only when not previewing.
pub open spec fn spec_output_suffix(c: Config) -> Seq<Seq<char>> {
    if c.preview {
        Seq::<Seq<char>>::empty()
    } else {
        seq![c.output_file@]
    }
}

/// The final invocation's whole argument list.
pub open spec fn spec_processing_args(c: Config, st: PipelineState) -> Seq<Seq<char>>
    recommends
        c.wf(),
{
    spec_overwrite_prefix(c) + seq!["-i"@, spec_input_for_final(c, st)] + spec_stream_flags(c)
        + spec_trim_args(c, st) + seq!["-af"@, spec_filter_chain(c, st)] + spec_output_suffix(c)
}

/// The program the final stage runs: the playback program when previewing,
/// else the encoder.
pub open spec fn spec_final_program(c: Config) -> Program {
    if c.preview {
        Program::Ffplay
    } else {
        Program::Ffmpeg
    }
}

/// Builds the final invocation's argument list.
#[verifier::rlimit(60)]
pub fn make_ffmpeg_processing_args(conf: &Config, state: &PipelineState) -> (r: Vec<String>)
    requires
        conf.wf(),
        state.wf(),
    ensures
        r.deep_view() == spec_processing_args(*conf, *state),
{
    let mut args: Vec<String> = Vec::new();
    if !conf.preview {
        if conf.allow_overidde {
            args.push(String::from_str("-y"));
        } else {
            args.push(String::from_str("-nostdin"));
        }
    }
    args.push(String::from_str("-i"));
    match &state.sox_output_file {
        Some(f) => args.push(f.clone()),
        None => args.push(conf.input_file.clone()),
    }
    if conf.ignore_video {
        args.push(String::from_str("-vn"));
    }
    if conf.ignore_audio {
        args.push(String::from_str("-an"));
    }
    if !state.already_trimed {
        let duration = conf.to_time - conf.from_time;
        args.push(String::from_str("-ss"));
        args.push(duration_to_string(conf.from_time));
        args.push(String::from_str("-t"));
        args.push(duration_to_string(duration));
    }
    args.push(String::from_str("-af"));
    args.push(build_filter_chain(conf, state));
    if !conf.preview {
        args.push(conf.output_file.clone());
    }
    proof {
        assert(args.deep_view() =~~= spec_processing_args(*conf, *state));
    }
    args
}

/// Builds the one filter-chain argument.
fn build_filter_chain(conf: &Config, state: &PipelineState) -> (r: String)
    requires
        conf.wf(),
        state.wf(),
    ensures
        r@ == spec_filter_chain(*conf, *state),
{
    proof {
        reveal_strlit(",");
    }
    let mut chain = String::new();
    match conf.high_pass_filter {
        Some(high) => {
            chain.append("highpass=f=");
            let rendered = u64_to_dec_string(high as u64);
            chain.append(rendered.as_str());
            chain.append(",");
        },
        None => {},
    }
    match conf.low_pass_filter {
        Some(low) => {
            chain.append("lowpass=f=");
            let rendered = u64_to_dec_string(low as u64);
            chain.append(rendered.as_str());
            chain.append(",");
        },
        None => {},
    }
    chain.append("volume=");
    let gain: i64 = match state.max_volume_mdb {
        Some(m) => conf.volume_change - m,
        None => conf.volume_change,
    };
    let rendered = fixed3_to_string(gain);
    chain.append(rendered.as_str());
    chain.append("dB");
    proof {
        assert(chain@ =~= spec_filter_chain(*conf, *state));
    }
    chain
}

/// The filter chain always ends with the mandatory gain filter, whose value
/// is the requested change less the measured maximum volume when the
/// loudness pre-pass produced a measurement, else the requested change
/// unchanged.
pub proof fn lemma_gain_filter(c: Config, st: PipelineState)
    ensures
        spec_filter_chain(c, st) == spec_pass_filters(c) + "volume="@ + spec_fixed3(
            spec_effective_gain(c, st),
        ) + "dB"@,
        st.max_volume_mdb matches Some(m) ==> spec_effective_gain(c, st) == c.volume_change - m,
        st.max_volume_mdb is None ==> spec_effective_gain(c, st) == c.volume_change,
{
}

/// When previewing, the final invocation selects the playback program, emits
/// no overwrite or no-interactive flag, and appends no output path: the
/// argument list is the bare core, and neither the request's output path nor
/// its overwrite choice can influence it.
pub proof fn lemma_preview_shape(c: Config, st: PipelineState, c2: Config)
    requires
        c.preview,
        c2 == (Config { output_file: c2.output_file, allow_overidde: c2.allow_overidde, ..c }),
    ensures
        spec_final_program(c) == Program::Ffplay,
        spec_processing_args(c, st) == (seq!["-i"@, spec_input_for_final(c, st)]
            + spec_stream_flags(c) + spec_trim_args(c, st) + seq!["-af"@, spec_filter_chain(c, st)]),
        spec_processing_args(c2, st) == spec_processing_args(c, st),
{
    assert(spec_processing_args(c, st) =~~= seq!["-i"@, spec_input_for_final(c, st)]
        + spec_stream_flags(c) + spec_trim_args(c, st) + seq!["-af"@, spec_filter_chain(c, st)]);
    assert(spec_processing_args(c2, st) =~~= spec_processing_args(c, st));
}

} // verus!
