//! The orchestrator. A run is a fixed sequence of conditional stages:
//! noise reduction through the denoiser pair, an optional loudness pre-pass,
//! the final encode or preview, and scratch cleanup. The decisions live
//! here, verified: the caller performs each returned [`Action`] — the only
//! part that touches the outside world — and reports how it went as an
//! [`Event`]; the machine answers with the next action, or with the error
//! that ends the run. The run stops at the first failing stage.
use vstd::prelude::*;

use crate::args::{
    make_ffmpeg_detect_max_volume_args, make_ffmpeg_processing_args, make_sox_clean_noise_args,
    make_sox_generate_noiseprof_args, spec_clean_args, spec_detect_args, spec_final_program,
    spec_noiseprof_args, spec_processing_args,
};
use crate::config::Config;
use crate::errors::{
    output_map_error, spec_err_for, spec_status_ok, PipelineError, ProcStatus, Program,
};
use crate::scratch::{scratch_file_path, scratch_dir_path, spec_base_name, spec_scratch_dir, spec_scratch_file};
use crate::volume::{extract_max_volume, spec_extract_max_volume};

verus! {

/// Bound on the magnitude of a parsed loudness measurement, in thousandths
/// of a decibel: what the diagnostic parser can ever hand back.
pub const MEASURE_BOUND: i64 = 1000000000000;

/// What earlier stages of a run leave for later ones: a measured maximum
/// volume (thousandths of a decibel) when the loudness pre-pass found one, a
/// scratch file when the noise-reduction stage wrote one, and whether that
/// stage already cut the file to the trim window.
pub struct PipelineState {
    pub max_volume_mdb: Option<i64>,
    pub sox_output_file: Option<String>,
    pub already_trimed: bool,
}

impl PipelineState {
    /// Any measurement stays inside the parser's bound, so gain arithmetic
    /// stays inside `i64`.
    pub open spec fn wf(self) -> bool {
        match self.max_volume_mdb {
            Some(m) => -MEASURE_BOUND <= m <= MEASURE_BOUND,
            None => true,
        }
    }

    /// The state a run starts from: nothing measured, nothing written.
    pub open spec fn is_initial(self) -> bool {
        &&& self.max_volume_mdb is None
        &&& self.sox_output_file is None
        &&& self.already_trimed == false
    }

    pub fn new() -> (r: PipelineState)
        ensures
            r.is_initial(),
            r.wf(),
    {
        PipelineState { max_volume_mdb: None, sox_output_file: None, already_trimed: false }
    }
}

/// Where in the stage order a run stands.
#[derive(Clone, Copy, PartialEq, Eq, Structural, Debug)]
pub enum Phase {
    /// Nothing done yet.
    Start,
    /// The scratch directory is being ensured.
    ScratchDir,
    /// The denoiser pair is running.
    NoisePair,
    /// The loudness pre-pass is running.
    Detect,
    /// The final encode or preview is running.
    Final,
    /// The scratch file is being removed.
    Cleanup,
    /// The run ended, successfully or not.
    Done,
}

/// What the caller must do next. Only `RunNoisePair` spawns two processes:
/// the first one's standard output feeds the second one's standard input
/// through a pipe, both run concurrently, and both are waited for.
#[derive(Debug)]
pub enum Action {
    /// Create this directory, parents included, if it is absent.
    EnsureScratchDir { dir: String },
    /// Run the denoiser twice, piped: profile generation into cleaning.
    RunNoisePair { profile_args: Vec<String>, clean_args: Vec<String> },
    /// Run the encoder for the loudness pre-pass, capturing its diagnostic
    /// stream; this invocation writes no output file.
    RunVolumeDetect { args: Vec<String> },
    /// Run the final encode or preview.
    RunFinal { program: Program, args: Vec<String> },
    /// Delete the scratch file.
    RemoveScratch { path: String },
    /// The run is complete.
    Finished,
}

/// What the caller reports back after performing an action. Filesystem
/// outcomes carry the cause's text; process outcomes carry each process's
/// [`ProcStatus`].
#[derive(Debug)]
pub enum Event {
    /// Starts the run; the first action follows.
    Started,
    ScratchDirMade { error: Option<String> },
    NoisePairFinished { profile: ProcStatus, clean: ProcStatus },
    VolumeDetectFinished { status: ProcStatus },
    FinalFinished { status: ProcStatus },
    ScratchRemoved { error: Option<String> },
}

/// Which event answers which phase.
pub open spec fn spec_event_fits(phase: Phase, ev: Event) -> bool {
    match (phase, ev) {
        (Phase::Start, Event::Started) => true,
        (Phase::ScratchDir, Event::ScratchDirMade { .. }) => true,
        (Phase::NoisePair, Event::NoisePairFinished { .. }) => true,
        (Phase::Detect, Event::VolumeDetectFinished { .. }) => true,
        (Phase::Final, Event::FinalFinished { .. }) => true,
        (Phase::Cleanup, Event::ScratchRemoved { .. }) => true,
        _ => false,
    }
}

/// One pipeline run: the request, the temporary root the scratch file goes
/// under, the state the stages thread, and where the run stands.
pub struct Pipeline {
    pub conf: Config,
    pub tmp_root: String,
    pub state: PipelineState,
    pub phase: Phase,
    /// The scratch file's path, remembered between computing it and the
    /// denoiser pair finishing.
    pub scratch: Option<String>,
}

impl Pipeline {
    /// The machine's invariant: a well-formed request and state; without
    /// both noise fields the denoiser phases are never entered and nothing
    /// is trimmed or written; in the denoiser phases the noise fields are
    /// present and the scratch path is the computed one.
    pub open spec fn inv(self) -> bool {
        &&& self.conf.wf()
        &&& self.state.wf()
        &&& (!self.conf.spec_noise_enabled() ==> (self.state.sox_output_file is None
            && !self.state.already_trimed && self.phase != Phase::ScratchDir && self.phase
            != Phase::NoisePair))
        &&& (self.phase == Phase::Start ==> self.state.is_initial())
        &&& (self.phase == Phase::ScratchDir ==> self.conf.spec_noise_enabled())
        &&& (self.phase == Phase::NoisePair ==> (self.conf.spec_noise_enabled() && (
        self.scratch matches Some(p) && p@ == spec_scratch_file(
            self.tmp_root@,
            self.conf.input_file@,
        )) && (self.conf.noise_profile_file matches Some(f) && f@.len() > 0)))
    }

    pub fn new(conf: Config, tmp_root: String) -> (p: Pipeline)
        requires
            conf.wf(),
        ensures
            p.conf == conf,
            p.tmp_root == tmp_root,
            p.state.is_initial(),
            p.phase == Phase::Start,
            p.scratch is None,
            p.inv(),
    {
        Pipeline {
            conf,
            tmp_root,
            state: PipelineState::new(),
            phase: Phase::Start,
            scratch: None,
        }
    }
}

/// What one step of the machine does: given the phase the step starts from
/// and the event answering it, this pins the returned action or error, the
/// new phase, and the new state. Every contract of [`Pipeline::next`] goes
/// through this relation.
pub open spec fn spec_next_post(
    pre: Pipeline,
    post: Pipeline,
    ev: Event,
    r: Result<Action, PipelineError>,
) -> bool {
    &&& post.conf == pre.conf
    &&& post.tmp_root == pre.tmp_root
    &&& (pre.phase != Phase::ScratchDir ==> post.scratch == pre.scratch)
    &&& match (pre.phase, ev) {
        (Phase::Start, Event::Started) => {
            if pre.conf.spec_noise_enabled() {
                &&& (r matches Ok(Action::EnsureScratchDir { dir }) && dir@ == spec_scratch_dir(
                    pre.tmp_root@,
                ))
                &&& post.phase == Phase::ScratchDir
                &&& post.state == pre.state
            } else if pre.conf.peak_normalization {
                &&& (r matches Ok(Action::RunVolumeDetect { args }) && args.deep_view()
                    == spec_detect_args(pre.conf))
                &&& post.phase == Phase::Detect
                &&& post.state == pre.state
            } else {
                &&& (r matches Ok(Action::RunFinal { program, args }) && program
                    == spec_final_program(pre.conf) && args.deep_view() == spec_processing_args(
                    pre.conf,
                    pre.state,
                ))
                &&& post.phase == Phase::Final
                &&& post.state == pre.state
            }
        },
        (Phase::ScratchDir, Event::ScratchDirMade { error }) => {
            &&& post.state == pre.state
            &&& match error {
                Some(cause) => {
                    &&& (r matches Err(PipelineError::Filesystem { message }) && message@
                        == "Could not create temporary directory.\nError: "@ + cause@)
                    &&& post.phase == Phase::Done
                },
                None => {
                    if spec_base_name(pre.conf.input_file@).len() == 0 {
                        &&& (r matches Err(PipelineError::Validation { message }) && message@
                            == "Error: no input file provided."@)
                        &&& post.phase == Phase::Done
                    } else {
                        match (pre.conf.noise_profile_file, pre.conf.noise_reduction_amount) {
                            (Some(f), Some(amount)) => {
                                if f@.len() == 0 {
                                    &&& (r matches Err(PipelineError::Validation { message })
                                        && message@ == "Error: no noise file provided."@)
                                    &&& post.phase == Phase::Done
                                } else {
                                    &&& (r matches Ok(
                                        Action::RunNoisePair { profile_args, clean_args },
                                    ) && profile_args.deep_view() == spec_noiseprof_args(f@)
                                        && clean_args.deep_view() == spec_clean_args(
                                        pre.conf,
                                        spec_scratch_file(pre.tmp_root@, pre.conf.input_file@),
                                        amount,
                                    ))
                                    &&& post.phase == Phase::NoisePair
                                    &&& (post.scratch matches Some(p) && p@ == spec_scratch_file(
                                        pre.tmp_root@,
                                        pre.conf.input_file@,
                                    ))
                                }
                            },
                            _ => r is Err && post.phase == Phase::Done,
                        }
                    }
                },
            }
        },
        (Phase::NoisePair, Event::NoisePairFinished { profile, clean }) => {
            match (pre.conf.noise_profile_file, pre.conf.noise_reduction_amount, pre.scratch) {
                (Some(f), Some(amount), Some(scr)) => {
                    if f@.len() == 0 {
                        r is Err && post.phase == Phase::Done && post.state == pre.state
                    } else if !spec_status_ok(profile) {
                        &&& (r matches Err(e) && spec_err_for(
                            e,
                            Program::Sox,
                            spec_noiseprof_args(f@),
                            profile,
                        ))
                        &&& post.phase == Phase::Done
                        &&& post.state == pre.state
                    } else if !spec_status_ok(clean) {
                        &&& (r matches Err(e) && spec_err_for(
                            e,
                            Program::Sox,
                            spec_clean_args(pre.conf, scr@, amount),
                            clean,
                        ))
                        &&& post.phase == Phase::Done
                        &&& post.state == pre.state
                    } else {
                        &&& post.state.already_trimed == true
                        &&& (post.state.sox_output_file matches Some(p) && p@ == scr@)
                        &&& post.state.max_volume_mdb == pre.state.max_volume_mdb
                        &&& if pre.conf.peak_normalization {
                            &&& (r matches Ok(Action::RunVolumeDetect { args })
                                && args.deep_view() == spec_detect_args(pre.conf))
                            &&& post.phase == Phase::Detect
                        } else {
                            &&& (r matches Ok(Action::RunFinal { program, args }) && program
                                == spec_final_program(pre.conf) && args.deep_view()
                                == spec_processing_args(pre.conf, post.state))
                            &&& post.phase == Phase::Final
                        }
                    }
                },
                _ => r is Err && post.phase == Phase::Done,
            }
        },
        (Phase::Detect, Event::VolumeDetectFinished { status }) => {
            if spec_status_ok(status) {
                match status {
                    ProcStatus::Exited { code, stderr } => {
                        &&& (match spec_extract_max_volume(stderr@) {
                            Some(v) => post.state.max_volume_mdb matches Some(x) && x == v,
                            None => post.state.max_volume_mdb is None,
                        })
                        &&& post.state.sox_output_file == pre.state.sox_output_file
                        &&& post.state.already_trimed == pre.state.already_trimed
                        &&& (r matches Ok(Action::RunFinal { program, args }) && program
                            == spec_final_program(pre.conf) && args.deep_view()
                            == spec_processing_args(pre.conf, post.state))
                        &&& post.phase == Phase::Final
                    },
                    _ => false,
                }
            } else {
                &&& (r matches Err(e) && spec_err_for(
                    e,
                    Program::Ffmpeg,
                    spec_detect_args(pre.conf),
                    status,
                ))
                &&& post.phase == Phase::Done
                &&& post.state == pre.state
            }
        },
        (Phase::Final, Event::FinalFinished { status }) => {
            &&& post.state == pre.state
            &&& if spec_status_ok(status) {
                match pre.state.sox_output_file {
                    Some(p) => {
                        &&& (r matches Ok(Action::RemoveScratch { path }) && path@ == p@)
                        &&& post.phase == Phase::Cleanup
                    },
                    None => {
                        &&& (r matches Ok(Action::Finished))
                        &&& post.phase == Phase::Done
                    },
                }
            } else {
                &&& (r matches Err(e) && spec_err_for(
                    e,
                    spec_final_program(pre.conf),
                    spec_processing_args(pre.conf, pre.state),
                    status,
                ))
                &&& post.phase == Phase::Done
            }
        },
        (Phase::Cleanup, Event::ScratchRemoved { error }) => {
            &&& post.state == pre.state
            &&& match error {
                Some(cause) => {
                    &&& (r matches Err(PipelineError::Filesystem { message }) && message@
                        == "Could not delete temporary file.\nError: "@ + cause@)
                    &&& post.phase == Phase::Done
                },
                None => {
                    &&& (r matches Ok(Action::Finished))
                    &&& post.phase == Phase::Done
                },
            }
        },
        _ => false,
    }
}

/// Wraps a filesystem failure's cause into the run's error.
fn fs_error(prefix: &str, cause: &str) -> (e: PipelineError)
    ensures
        (e matches PipelineError::Filesystem { message } && message@ == prefix@ + cause@),
{
    let mut s = String::from_str(prefix);
    s.append(cause);
    PipelineError::Filesystem { message: s }
}

impl Pipeline {
    /// One step of the run: answers the event for the current phase with
    /// the next action, or with the error that ends the run. The whole
    /// behaviour is pinned by [`spec_next_post`].
    pub fn next(&mut self, ev: Event) -> (r: Result<Action, PipelineError>)
        requires
            old(self).inv(),
            spec_event_fits(old(self).phase, ev),
        ensures
            final(self).inv(),
            spec_next_post(*old(self), *final(self), ev, r),
    {
        match (self.phase, ev) {
            (Phase::Start, Event::Started) => {
                if self.conf.noise_profile_file.is_some() && self.conf.noise_reduction_amount.is_some() {
                    let dir = scratch_dir_path(self.tmp_root.as_str());
                    self.phase = Phase::ScratchDir;
                    Ok(Action::EnsureScratchDir { dir })
                } else if self.conf.peak_normalization {
                    let args = make_ffmpeg_detect_max_volume_args(&self.conf);
                    self.phase = Phase::Detect;
                    Ok(Action::RunVolumeDetect { args })
                } else {
                    let args = make_ffmpeg_processing_args(&self.conf, &self.state);
                    let program = if self.conf.preview {
                        Program::Ffplay
                    } else {
                        Program::Ffmpeg
                    };
                    self.phase = Phase::Final;
                    Ok(Action::RunFinal { program, args })
                }
            },
            (Phase::ScratchDir, Event::ScratchDirMade { error }) => {
                match error {
                    Some(cause) => {
                        self.phase = Phase::Done;
                        Err(fs_error("Could not create temporary directory.\nError: ", cause.as_str()))
                    },
                    None => {
                        match scratch_file_path(self.tmp_root.as_str(), self.conf.input_file.as_str()) {
                            Err(e) => {
                                self.phase = Phase::Done;
                                Err(e)
                            },
                            Ok(p) => {
                                match make_sox_generate_noiseprof_args(&self.conf) {
                                    Err(e) => {
                                        self.phase = Phase::Done;
                                        Err(e)
                                    },
                                    Ok(profile_args) => {
                                        match make_sox_clean_noise_args(&self.conf, p.as_str()) {
                                            Err(e) => {
                                                self.phase = Phase::Done;
                                                Err(e)
                                            },
                                            Ok(clean_args) => {
                                                self.scratch = Some(p);
                                                self.phase = Phase::NoisePair;
                                                Ok(Action::RunNoisePair { profile_args, clean_args })
                                            },
                                        }
                                    },
                                }
                            },
                        }
                    },
                }
            },
            (Phase::NoisePair, Event::NoisePairFinished { profile, clean }) => {
                let profile_args = match make_sox_generate_noiseprof_args(&self.conf) {
                    Ok(a) => a,
                    Err(e) => {
                        self.phase = Phase::Done;
                        return Err(e);
                    },
                };
                match output_map_error(Program::Sox, profile_args, profile) {
                    Err(e) => {
                        self.phase = Phase::Done;
                        return Err(e);
                    },
                    Ok(_) => {},
                }
                let scr = match &self.scratch {
                    Some(p) => p.clone(),
                    None => {
                        proof {
                            assert(false);
                        }
                        self.phase = Phase::Done;
                        return Err(PipelineError::Validation { message: String::new() });
                    },
                };
                let clean_args = match make_sox_clean_noise_args(&self.conf, scr.as_str()) {
                    Ok(a) => a,
                    Err(e) => {
                        self.phase = Phase::Done;
                        return Err(e);
                    },
                };
                match output_map_error(Program::Sox, clean_args, clean) {
                    Err(e) => {
                        self.phase = Phase::Done;
                        return Err(e);
                    },
                    Ok(_) => {},
                }
                self.state.sox_output_file = Some(scr);
                self.state.already_trimed = true;
                if self.conf.peak_normalization {
                    let args = make_ffmpeg_detect_max_volume_args(&self.conf);
                    self.phase = Phase::Detect;
                    Ok(Action::RunVolumeDetect { args })
                } else {
                    let args = make_ffmpeg_processing_args(&self.conf, &self.state);
                    let program = if self.conf.preview {
                        Program::Ffplay
                    } else {
                        Program::Ffmpeg
                    };
                    self.phase = Phase::Final;
                    Ok(Action::RunFinal { program, args })
                }
            },
            (Phase::Detect, Event::VolumeDetectFinished { status }) => {
                let args = make_ffmpeg_detect_max_volume_args(&self.conf);
                match output_map_error(Program::Ffmpeg, args, status) {
                    Err(e) => {
                        self.phase = Phase::Done;
                        Err(e)
                    },
                    Ok(stderr) => {
                        self.state.max_volume_mdb = extract_max_volume(stderr.as_str());
                        let args2 = make_ffmpeg_processing_args(&self.conf, &self.state);
                        let program = if self.conf.preview {
                            Program::Ffplay
                        } else {
                            Program::Ffmpeg
                        };
                        self.phase = Phase::Final;
                        Ok(Action::RunFinal { program, args: args2 })
                    },
                }
            },
            (Phase::Final, Event::FinalFinished { status }) => {
                let args = make_ffmpeg_processing_args(&self.conf, &self.state);
                let program = if self.conf.preview {
                    Program::Ffplay
                } else {
                    Program::Ffmpeg
                };
                match output_map_error(program, args, status) {
                    Err(e) => {
                        self.phase = Phase::Done;
                        Err(e)
                    },
                    Ok(_) => {
                        match &self.state.sox_output_file {
                            Some(p) => {
                                let path = p.clone();
                                self.phase = Phase::Cleanup;
                                Ok(Action::RemoveScratch { path })
                            },
                            None => {
                                self.phase = Phase::Done;
                                Ok(Action::Finished)
                            },
                        }
                    },
                }
            },
            (Phase::Cleanup, Event::ScratchRemoved { error }) => {
                match error {
                    Some(cause) => {
                        self.phase = Phase::Done;
                        Err(fs_error("Could not delete temporary file.\nError: ", cause.as_str()))
                    },
                    None => {
                        self.phase = Phase::Done;
                        Ok(Action::Finished)
                    },
                }
            },
            _ => {
                proof {
                    assert(false);
                }
                Err(PipelineError::Validation { message: String::new() })
            },
        }
    }
}

/// A request with no noise-sample path never reaches the denoiser: no step
/// ensures a scratch directory or runs the denoiser pair, and the state
/// keeps recording that the source is untrimmed and that no scratch file
/// exists.
pub proof fn lemma_no_noise_profile_no_denoiser(
    pre: Pipeline,
    post: Pipeline,
    ev: Event,
    r: Result<Action, PipelineError>,
)
    requires
        pre.conf.noise_profile_file is None,
        pre.inv(),
        spec_event_fits(pre.phase, ev),
        spec_next_post(pre, post, ev, r),
    ensures
        !(r matches Ok(Action::EnsureScratchDir { .. })),
        !(r matches Ok(Action::RunNoisePair { .. })),
        !post.state.already_trimed,
        post.state.sox_output_file is None,
        post.conf.noise_profile_file is None,
{
}

/// With both noise fields set but an empty noise-sample path, the run fails
/// with a validation error before any process is spawned: the first step
/// only ensures the scratch directory, and the step after it ends the run.
pub proof fn lemma_empty_noise_profile_fails(
    pre: Pipeline,
    mid: Pipeline,
    post: Pipeline,
    a: Result<Action, PipelineError>,
    r: Result<Action, PipelineError>,
)
    requires
        pre.phase == Phase::Start,
        pre.conf.noise_reduction_amount is Some,
        (pre.conf.noise_profile_file matches Some(f) && f@.len() == 0),
        spec_next_post(pre, mid, Event::Started, a),
        spec_next_post(mid, post, Event::ScratchDirMade { error: None }, r),
    ensures
        (a matches Ok(Action::EnsureScratchDir { dir }) && dir@ == spec_scratch_dir(
            pre.tmp_root@,
        )),
        (r matches Err(PipelineError::Validation { message }) && (message@
            == "Error: no noise file provided."@ || message@ == "Error: no input file provided."@)),
        post.phase == Phase::Done,
{
}

/// A failure reported from the loudness-detection stage ends the run with
/// that stage's error: the machine is done, and the final stage is never
/// reached.
pub proof fn lemma_detect_failure_aborts(
    pre: Pipeline,
    post: Pipeline,
    status: ProcStatus,
    r: Result<Action, PipelineError>,
)
    requires
        pre.phase == Phase::Detect,
        !spec_status_ok(status),
        spec_next_post(pre, post, Event::VolumeDetectFinished { status }, r),
    ensures
        r is Err,
        !(r matches Ok(Action::RunFinal { .. })),
        post.phase == Phase::Done,
        (status matches ProcStatus::Exited { code, stderr } && code != 0 ==> r matches Err(
            PipelineError::NonZeroExit { .. },
        )),
{
}

} // verus!
