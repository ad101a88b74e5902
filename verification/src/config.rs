//! Startup-time resolution of a mono capture configuration.
//!
//! The hardware advertises a list of input configurations; the pipeline
//! records only mono capture, so it picks the first mono-capable candidate,
//! taken at the candidate's maximum supported sample rate. When no candidate
//! is mono-capable, startup fails before any stream is created.

use vstd::prelude::*;
use vstd::string::StringExecFns;

verus! {

/// Reason the pipeline failed before the audio stream started. Startup
/// errors are fatal: the process reports them and exits, since they reflect
/// missing environment preconditions that a retry would not mend.
#[derive(Clone, Copy, Debug, PartialEq, Eq, Structural)]
pub enum StartupError {
    /// No input device was available.
    NoInputDevice,
    /// The device exposes no mono-capable input configuration.
    NoSuitableConfig,
    /// The recognition model could not be loaded from storage.
    ModelLoadFailed,
    /// The input stream could not be constructed or started.
    StreamStartFailed,
}

/// Sample representation the hardware delivers to the capture callback.
#[derive(Clone, Copy, Debug, PartialEq, Eq, Structural)]
pub enum SampleFormat {
    /// Native floating-point samples.
    Float,
    /// Native fixed-point samples.
    Int,
}

/// One input configuration the hardware advertises: a channel count, a
/// supported range of sample rates, and the native sample format.
#[derive(Clone, Copy, Debug, PartialEq, Eq, Structural)]
pub struct ConfigCandidate {
    pub channels: u16,
    pub min_sample_rate: u32,
    pub max_sample_rate: u32,
    pub sample_format: SampleFormat,
}

/// The resolved stream configuration, fixed for the process lifetime.
#[derive(Clone, Copy, Debug, PartialEq, Eq, Structural)]
pub struct StreamConfig {
    pub channels: u16,
    pub sample_rate: u32,
    pub sample_format: SampleFormat,
}

impl ConfigCandidate {
    /// A hardware-advertised candidate is well formed when its sample-rate
    /// range is non-empty and its rates are positive.
    pub open spec fn wf(self) -> bool {
        1 <= self.min_sample_rate <= self.max_sample_rate
    }
}

impl StreamConfig {
    /// Invariant of a resolved configuration: mono capture at a positive
    /// sample rate.
    pub open spec fn wf(self) -> bool {
        self.channels == 1 && self.sample_rate >= 1
    }
}

/// The configuration the resolver picks from `cs`: the first candidate with
/// exactly one channel, taken at its maximum supported sample rate; `None`
/// when no candidate is mono-capable.
pub open spec fn mono_choice(cs: Seq<ConfigCandidate>) -> Option<StreamConfig>
    decreases cs.len(),
{
    if cs.len() == 0 {
        None
    } else if cs[0].channels == 1 {
        Some(
            StreamConfig {
                channels: 1,
                sample_rate: cs[0].max_sample_rate,
                sample_format: cs[0].sample_format,
            },
        )
    } else {
        mono_choice(cs.drop_first())
    }
}

/// Picks the capture configuration: the first mono candidate at its maximum
/// sample rate, or `StartupError::NoSuitableConfig` when no candidate is
/// mono-capable.
pub fn mono_input_config(candidates: &Vec<ConfigCandidate>) -> (r: Result<
    StreamConfig,
    StartupError,
>)
    requires
        forall|i: int| 0 <= i < candidates@.len() ==> candidates@[i].wf(),
    ensures
        match r {
            Ok(c) => mono_choice(candidates@) == Some(c) && c.wf(),
            Err(e) => mono_choice(candidates@) is None && e == StartupError::NoSuitableConfig,
        },
{
    let n = candidates.len();
    let mut i: usize = 0;
    proof {
        assert(candidates@.skip(0) =~= candidates@);
    }
    while i < n
        invariant
            i <= n,
            n == candidates@.len(),
            forall|j: int| 0 <= j < candidates@.len() ==> candidates@[j].wf(),
            mono_choice(candidates@) == mono_choice(candidates@.skip(i as int)),
        decreases n - i,
    {
        let c = candidates[i];
        if c.channels == 1 {
            proof {
                assert(candidates@.skip(i as int)[0] == candidates@[i as int]);
            }
            return Ok(
                StreamConfig {
                    channels: 1,
                    sample_rate: c.max_sample_rate,
                    sample_format: c.sample_format,
                },
            );
        }
        proof {
            assert(candidates@.skip(i as int)[0] == candidates@[i as int]);
            assert(candidates@.skip(i as int).drop_first() =~= candidates@.skip(i as int + 1));
        }
        i = i + 1;
    }
    proof {
        assert(candidates@.skip(n as int) =~= Seq::<ConfigCandidate>::empty());
    }
    Err(StartupError::NoSuitableConfig)
}

/// Resolution succeeds exactly when some advertised candidate is
/// mono-capable.
pub proof fn lemma_mono_choice_exists(cs: Seq<ConfigCandidate>)
    ensures
        (mono_choice(cs) is Some) <==> (exists|i: int|
            0 <= i < cs.len() && cs[i].channels == 1),
    decreases cs.len(),
{
    if cs.len() == 0 {
    } else if cs[0].channels == 1 {
        assert(0 <= 0 < cs.len() && cs[0].channels == 1);
    } else {
        lemma_mono_choice_exists(cs.drop_first());
        if mono_choice(cs) is Some {
            let i = choose|i: int|
                0 <= i < cs.drop_first().len() && cs.drop_first()[i].channels == 1;
            assert(cs[i + 1].channels == 1);
        }
        if exists|i: int| 0 <= i < cs.len() && cs[i].channels == 1 {
            let i = choose|i: int| 0 <= i < cs.len() && cs[i].channels == 1;
            assert(i != 0);
            assert(cs.drop_first()[i - 1].channels == 1);
        }
    }
}

impl StartupError {
    /// The diagnostic the process prints for this error.
    pub open spec fn spec_message(self) -> Seq<char> {
        match self {
            StartupError::NoInputDevice => "no input device available"@,
            StartupError::NoSuitableConfig => "no suitable config found"@,
            StartupError::ModelLoadFailed => "failed to load recognition model"@,
            StartupError::StreamStartFailed => "failed to start input stream"@,
        }
    }

    /// Renders the diagnostic for this error.
    pub fn message(&self) -> (m: String)
        ensures
            m@ == self.spec_message(),
    {
        match self {
            StartupError::NoInputDevice => String::from_str("no input device available"),
            StartupError::NoSuitableConfig => String::from_str("no suitable config found"),
            StartupError::ModelLoadFailed => String::from_str("failed to load recognition model"),
            StartupError::StreamStartFailed => String::from_str("failed to start input stream"),
        }
    }
}

} // verus!
