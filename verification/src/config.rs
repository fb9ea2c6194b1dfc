//! The per-run request: what to trim, which streams to drop, which filters
//! to apply, and whether to preview or to encode.
//!
//! Times are milliseconds; the gain and the noise-reduction amount are held
//! in thousandths (of a decibel, and of the denoiser's unitless strength),
//! so that building arguments is exact integer work.
use vstd::prelude::*;

verus! {

/// Bound on the magnitude of the gain and of the noise-reduction amount, in
/// thousandths: a million decibels, far past anything a tool accepts, kept
/// so that the gain arithmetic stays inside `i64`.
pub const AMOUNT_BOUND: i64 = 1000000000;

pub struct Config {
    pub preview: bool,
    pub input_file: String,
    pub output_file: String,
    /// Start of the trim window, in milliseconds.
    pub from_time: u64,
    /// End of the trim window, in milliseconds; never before `from_time`.
    pub to_time: u64,
    /// High-pass cutoff in hertz, when that filter is wanted.
    pub high_pass_filter: Option<u32>,
    /// Low-pass cutoff in hertz, when that filter is wanted.
    pub low_pass_filter: Option<u32>,
    pub allow_overidde: bool,
    pub ignore_video: bool,
    pub ignore_audio: bool,
    pub peak_normalization: bool,
    /// Gain applied to the audio, in thousandths of a decibel.
    pub volume_change: i64,
    /// Noise sample file; present together with `noise_reduction_amount` to
    /// enable the noise-reduction stage.
    pub noise_profile_file: Option<String>,
    /// Denoiser strength, in thousandths.
    pub noise_reduction_amount: Option<i64>,
}

impl Config {
    /// The request's invariant: a forward trim window, and the fixed-point
    /// quantities inside their bound.
    pub open spec fn wf(self) -> bool {
        &&& self.from_time <= self.to_time
        &&& -AMOUNT_BOUND <= self.volume_change <= AMOUNT_BOUND
        &&& match self.noise_reduction_amount {
            Some(amount) => -AMOUNT_BOUND <= amount <= AMOUNT_BOUND,
            None => true,
        }
    }

    /// Whether the noise-reduction stage is enabled: both noise fields set.
    pub open spec fn spec_noise_enabled(self) -> bool {
        self.noise_profile_file is Some && self.noise_reduction_amount is Some
    }

    /// The trim window's length in milliseconds.
    pub open spec fn spec_duration(self) -> nat
        recommends
            self.wf(),
    {
        (self.to_time - self.from_time) as nat
    }

    /// What `new` and `default` return: everything off, empty paths, an
    /// empty trim window at zero.
    pub open spec fn is_blank(self) -> bool {
        &&& self.preview == false
        &&& self.input_file@ == Seq::<char>::empty()
        &&& self.output_file@ == Seq::<char>::empty()
        &&& self.from_time == 0
        &&& self.to_time == 0
        &&& self.high_pass_filter is None
        &&& self.low_pass_filter is None
        &&& self.allow_overidde == false
        &&& self.ignore_video == false
        &&& self.ignore_audio == false
        &&& self.peak_normalization == false
        &&& self.volume_change == 0
        &&& self.noise_profile_file is None
        &&& self.noise_reduction_amount is None
    }

    pub fn new() -> (r: Config)
        ensures
            r.is_blank(),
            r.wf(),
    {
        Config {
            preview: false,
            input_file: String::new(),
            output_file: String::new(),
            from_time: 0,
            to_time: 0,
            high_pass_filter: None,
            low_pass_filter: None,
            allow_overidde: false,
            ignore_video: false,
            ignore_audio: false,
            peak_normalization: false,
            volume_change: 0,
            noise_profile_file: None,
            noise_reduction_amount: None,
        }
    }

}

impl Default for Config {
    fn default() -> (r: Config)
        ensures
            r.is_blank(),
            r.wf(),
    {
        Config::new()
    }
}

} // verus!
