//! Declarative configuration of a session: shared model paths, compute
//! device and the speakers to register.

use vstd::prelude::*;

verus! {

/// Sample rate, in Hz, of every audio buffer that leaves the session.
pub const CANONICAL_SAMPLE_RATE: u32 = 32000;

/// Name of the environment variable that holds the path of the
/// configuration document.
pub const CONFIG_PATH_VAR: &'static str = "GPT_SOVITS_CONFIG_PATH";

/// Path of the configuration document where the environment names none.
pub const DEFAULT_CONFIG_PATH: &'static str = "config.json";

/// The path to read the configuration document from: the one that the
/// environment names, if it names one, and the default path if not.
pub fn config_path(configured: Option<String>) -> (path: String)
    ensures
        path@ == match configured {
            Some(configured) => configured@,
            None => DEFAULT_CONFIG_PATH@,
        },
{
    match configured {
        Some(configured) => configured,
        None => DEFAULT_CONFIG_PATH.to_owned(),
    }
}

/// Generation of the voice model that a speaker's weights belong to.
///
/// Each generation has its own registration call and its own native output
/// sample rate.
#[allow(non_camel_case_types)]
#[derive(Clone, Copy, Debug, PartialEq, Eq, Structural)]
pub enum Version {
    V2,
    V2_1,
    V3,
    V4,
    V2Pro,
}

impl Default for Version {
    /// The oldest generation, which a speaker without a version tag gets.
    fn default() -> (v: Self)
        ensures
            v == Version::V2,
    {
        Version::V2
    }
}

impl Version {
    /// Sample rate, in Hz, of the audio that a model of this generation
    /// produces.
    pub open spec fn spec_native_sample_rate(self) -> u32 {
        match self {
            Version::V3 => 24000,
            Version::V4 => 48000,
            _ => CANONICAL_SAMPLE_RATE,
        }
    }

    /// Sample rate, in Hz, of the audio that a model of this generation
    /// produces.
    #[verifier::when_used_as_spec(spec_native_sample_rate)]
    pub fn native_sample_rate(self) -> (rate: u32)
        ensures
            rate == self.spec_native_sample_rate(),
    {
        match self {
            Version::V3 => 24000,
            Version::V4 => 48000,
            _ => CANONICAL_SAMPLE_RATE,
        }
    }
}

/// Compute device that the configuration selects.
#[derive(Clone, Copy, Debug, PartialEq, Eq, Structural)]
pub enum RuntimeDevice {
    /// No explicit choice: the engine probes for a GPU and falls back to
    /// the CPU.
    Auto,
    Cpu,
    Cuda,
    Mps,
}

impl Default for RuntimeDevice {
    fn default() -> (d: Self)
        ensures
            d == RuntimeDevice::Auto,
    {
        RuntimeDevice::Auto
    }
}

/// One speaker: a voice that is registered once and named by the guest on
/// every inference call.
#[derive(Debug)]
pub struct SpeakerConfig {
    pub name: String,
    pub gpt_sovits_path: String,
    pub ref_audio_path: String,
    pub ref_text: String,
    pub version: Version,
}

/// Configuration of a session, loaded once before the session is built.
#[derive(Debug)]
pub struct Config {
    pub bert_model_path: Option<String>,
    pub g2pw_model_path: Option<String>,
    pub ssl_model_path: String,
    pub mini_bart_g2p_path: String,
    pub device: RuntimeDevice,
    pub speaker: Vec<SpeakerConfig>,
}

} // verus!
