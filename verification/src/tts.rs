//! The session: how it is built from a configuration, and what it asks of
//! the engine on an inference call.

use vstd::prelude::*;
use vstd::hash_map::StringHashMap;
use vstd::utf8::is_ascii_chars;
use crate::audio::{canonical_format, spec_canonical_format, WavFormat};
use crate::config::{Config, RuntimeDevice, SpeakerConfig, Version, CANONICAL_SAMPLE_RATE};
use crate::error::{BuildError, ConfigError, InferError, RetrievalError};

verus! {

/// Compute device that the engine is asked to run on.
#[derive(Clone, Copy, Debug, PartialEq, Eq, Structural)]
pub enum EngineDevice {
    /// The first GPU if the engine finds one, else the CPU.
    CudaIfAvailable,
    Cpu,
    /// The GPU with this index.
    Cuda(usize),
    Mps,
}

impl RuntimeDevice {
    /// The device request that stands for this selection.
    pub open spec fn spec_resolve(self) -> EngineDevice {
        match self {
            RuntimeDevice::Auto => EngineDevice::CudaIfAvailable,
            RuntimeDevice::Cpu => EngineDevice::Cpu,
            RuntimeDevice::Cuda => EngineDevice::Cuda(0),
            RuntimeDevice::Mps => EngineDevice::Mps,
        }
    }

    /// The device request that stands for this selection.
    #[verifier::when_used_as_spec(spec_resolve)]
    pub fn resolve(self) -> (device: EngineDevice)
        ensures
            device == self.spec_resolve(),
    {
        match self {
            RuntimeDevice::Auto => EngineDevice::CudaIfAvailable,
            RuntimeDevice::Cpu => EngineDevice::Cpu,
            RuntimeDevice::Cuda => EngineDevice::Cuda(0),
            RuntimeDevice::Mps => EngineDevice::Mps,
        }
    }
}

/// The pair of auxiliary models that gives the engine its Chinese
/// front end.
#[derive(Debug)]
pub struct ChineseModels {
    pub g2pw_model_path: String,
    pub cn_bert_path: String,
}

/// What the engine is materialized from.
#[derive(Debug)]
pub struct EngineConfig {
    pub ssl_model_path: String,
    pub mini_bart_g2p_path: String,
    pub chinese: Option<ChineseModels>,
    pub device: EngineDevice,
}

impl Config {
    /// Whether the two auxiliary model paths are both set or both unset.
    pub open spec fn auxiliary_models_paired(&self) -> bool {
        self.bert_model_path is Some <==> self.g2pw_model_path is Some
    }

    /// The engine configuration that a configuration with paired auxiliary
    /// models asks for.
    pub open spec fn spec_engine_config(&self) -> EngineConfig {
        EngineConfig {
            ssl_model_path: self.ssl_model_path,
            mini_bart_g2p_path: self.mini_bart_g2p_path,
            chinese: match (self.g2pw_model_path, self.bert_model_path) {
                (Some(g2pw), Some(bert)) => Some(
                    ChineseModels { g2pw_model_path: g2pw, cn_bert_path: bert },
                ),
                _ => None,
            },
            device: self.device.spec_resolve(),
        }
    }

    /// The engine configuration that this configuration asks for: the two
    /// shared models, the Chinese front end where both of its models are
    /// given, and the resolved device. A configuration that names only one
    /// of the two auxiliary models describes no engine.
    pub fn engine_config(&self) -> (r: Result<EngineConfig, ConfigError>)
        ensures
            self.auxiliary_models_paired() ==> r == Ok::<EngineConfig, ConfigError>(
                self.spec_engine_config(),
            ),
            !self.auxiliary_models_paired() ==> r == Err::<EngineConfig, ConfigError>(
                ConfigError::UnpairedAuxiliaryModel,
            ),
    {
        let chinese = match (&self.g2pw_model_path, &self.bert_model_path) {
            (Some(g2pw), Some(bert)) => Some(
                ChineseModels { g2pw_model_path: g2pw.clone(), cn_bert_path: bert.clone() },
            ),
            (None, None) => None,
            _ => {
                return Err(ConfigError::UnpairedAuxiliaryModel);
            },
        };
        Ok(
            EngineConfig {
                ssl_model_path: self.ssl_model_path.clone(),
                mini_bart_g2p_path: self.mini_bart_g2p_path.clone(),
                chinese,
                device: self.device.resolve(),
            },
        )
    }
}

/// The name-to-version table that registering `specs` in order leaves: a
/// name declared more than once keeps the version of its last declaration.
pub open spec fn declared_speakers(specs: Seq<SpeakerConfig>) -> Map<Seq<char>, Version>
    decreases specs.len(),
{
    if specs.len() == 0 {
        Map::empty()
    } else {
        declared_speakers(specs.drop_last()).insert(specs.last().name@, specs.last().version)
    }
}

/// A session: the speakers that the engine knows, and the audio of the
/// last successful inference.
///
/// The engine handle itself stays with the host, next to the session.
pub struct GPTSovitsRuntime {
    /// Generation of each registered speaker, by name.
    pub speakers: StringHashMap<Version>,
    /// The staging buffer: the encoded audio of the last successful
    /// inference, empty before the first.
    pub output_wav: Vec<u8>,
}

/// Where the construction of a session stands.
pub enum BuildPhase {
    /// The engine is to be materialized.
    Engine,
    /// The speaker with this index is to be registered; those before it
    /// are.
    Register(nat),
    /// The session stands.
    Ready,
    /// Construction has failed for good.
    Failed(BuildError),
}

/// The phase in which construction from `config` begins.
pub open spec fn build_start(config: Config) -> BuildPhase {
    if config.auxiliary_models_paired() {
        BuildPhase::Engine
    } else {
        BuildPhase::Failed(BuildError::Config(ConfigError::UnpairedAuxiliaryModel))
    }
}

/// The phase in which the speakers before `index` are registered.
pub open spec fn registration_phase(config: Config, index: nat) -> BuildPhase {
    if index < config.speaker.len() {
        BuildPhase::Register(index)
    } else {
        BuildPhase::Ready
    }
}

/// The phase that follows `phase` once the engine has reported `outcome`
/// for what the phase asked of it.
pub open spec fn build_next(config: Config, phase: BuildPhase, outcome: Result<(), String>)
    -> BuildPhase {
    match phase {
        BuildPhase::Engine => match outcome {
            Ok(_) => registration_phase(config, 0),
            Err(cause) => BuildPhase::Failed(BuildError::Engine(cause)),
        },
        BuildPhase::Register(index) => match outcome {
            Ok(_) => registration_phase(config, index + 1),
            Err(cause) => BuildPhase::Failed(
                BuildError::Speaker { name: config.speaker[index as int].name, cause },
            ),
        },
        BuildPhase::Ready => BuildPhase::Ready,
        BuildPhase::Failed(error) => BuildPhase::Failed(error),
    }
}

/// The optional calibration arguments of the registration call of each
/// generation. The generations differ in which of them their call takes.
#[allow(non_camel_case_types)]
#[derive(Clone, Copy, Debug, PartialEq, Eq, Structural)]
pub enum Calibration {
    V2,
    V2_1 { top_k: Option<i64> },
    V2Pro { top_k: Option<i64> },
    V3 { top_k: Option<i64>, sample_steps: Option<i64> },
    V4 { top_k: Option<i64>, sample_steps: Option<i64> },
}

impl Version {
    /// The calibration that a speaker of this generation is registered
    /// with: the arguments that the call of its generation takes, each of
    /// them unset, as a configuration names none.
    pub open spec fn spec_calibration(self) -> Calibration {
        match self {
            Version::V2 => Calibration::V2,
            Version::V2_1 => Calibration::V2_1 { top_k: None },
            Version::V2Pro => Calibration::V2Pro { top_k: None },
            Version::V3 => Calibration::V3 { top_k: None, sample_steps: None },
            Version::V4 => Calibration::V4 { top_k: None, sample_steps: None },
        }
    }

    /// The calibration that a speaker of this generation is registered
    /// with: the arguments that the call of its generation takes, each of
    /// them unset, as a configuration names none.
    #[verifier::when_used_as_spec(spec_calibration)]
    pub fn calibration(self) -> (calibration: Calibration)
        ensures
            calibration == self.spec_calibration(),
    {
        match self {
            Version::V2 => Calibration::V2,
            Version::V2_1 => Calibration::V2_1 { top_k: None },
            Version::V2Pro => Calibration::V2Pro { top_k: None },
            Version::V3 => Calibration::V3 { top_k: None, sample_steps: None },
            Version::V4 => Calibration::V4 { top_k: None, sample_steps: None },
        }
    }
}

/// The engine is to be materialized.
pub struct EngineBuild<'a> {
    config: &'a Config,
    engine: EngineConfig,
}

/// One speaker is to be registered.
pub struct Registration<'a> {
    config: &'a Config,
    index: usize,
    speakers: StringHashMap<Version>,
}

/// One step of building a session: what the host has to do next, or how
/// construction ended.
pub enum BuildStep<'a> {
    /// Materialize the engine, then report with [`EngineBuild::resolve`].
    Engine(EngineBuild<'a>),
    /// Register a speaker, then report with [`Registration::resolve`].
    Register(Registration<'a>),
    /// Every speaker is registered.
    Ready(GPTSovitsRuntime),
    /// Construction failed; no session exists.
    Failed(BuildError),
}

impl<'a> EngineBuild<'a> {
    #[verifier::type_invariant]
    spec fn inv(&self) -> bool {
        &&& self.config.auxiliary_models_paired()
        &&& self.engine == self.config.spec_engine_config()
    }

    /// The configuration that the session is built from.
    pub closed spec fn config(&self) -> Config {
        *self.config
    }

    /// What to materialize the engine from.
    pub fn engine_config(&self) -> (engine: &EngineConfig)
        ensures
            self.config().auxiliary_models_paired(),
            *engine == self.config().spec_engine_config(),
    {
        proof {
            use_type_invariant(self);
        }
        &self.engine
    }

    /// Takes the outcome of materializing the engine. A failure ends
    /// construction; after a success the speakers are registered in the
    /// order of their declaration.
    pub fn resolve(self, outcome: Result<(), String>) -> (step: BuildStep<'a>)
        ensures
            step.phase() == build_next(self.config(), BuildPhase::Engine, outcome),
            step.built_from(self.config()),
    {
        match outcome {
            Ok(_) => registration_step(self.config, 0, StringHashMap::new()),
            Err(cause) => BuildStep::Failed(BuildError::Engine(cause)),
        }
    }
}

impl<'a> Registration<'a> {
    #[verifier::type_invariant]
    spec fn inv(&self) -> bool {
        &&& self.index < self.config.speaker.len()
        &&& self.speakers@ == declared_speakers(self.config.speaker@.take(self.index as int))
    }

    /// The configuration that the session is built from.
    pub closed spec fn config(&self) -> Config {
        *self.config
    }

    /// Position of the speaker to register among the declared speakers.
    pub closed spec fn index(&self) -> nat {
        self.index as nat
    }

    /// The speaker to register now, by the call of its generation and
    /// with the calibration of that generation.
    pub fn speaker(&self) -> (speaker: &SpeakerConfig)
        ensures
            self.index() < self.config().speaker.len(),
            *speaker == self.config().speaker[self.index() as int],
    {
        proof {
            use_type_invariant(self);
        }
        &self.config.speaker[self.index]
    }

    /// Takes the outcome of registering the speaker. A failure ends
    /// construction and names the speaker; after a success the speaker is
    /// in the table, in place of an earlier one of the same name, and the
    /// next one follows.
    pub fn resolve(self, outcome: Result<(), String>) -> (step: BuildStep<'a>)
        ensures
            step.phase() == build_next(
                self.config(),
                BuildPhase::Register(self.index()),
                outcome,
            ),
            step.built_from(self.config()),
    {
        proof {
            use_type_invariant(&self);
        }
        let Registration { config, index, speakers } = self;
        let mut speakers = speakers;
        let speaker = &config.speaker[index];
        match outcome {
            Ok(_) => {
                speakers.insert(speaker.name.clone(), speaker.version);
                proof {
                    let done = config.speaker@.take(index + 1);
                    assert(done.drop_last() =~= config.speaker@.take(index as int));
                }
                registration_step(config, index + 1, speakers)
            },
            Err(cause) => BuildStep::Failed(
                BuildError::Speaker { name: speaker.name.clone(), cause },
            ),
        }
    }
}

impl<'a> BuildStep<'a> {
    /// The phase of construction that this step stands for.
    pub open spec fn phase(&self) -> BuildPhase {
        match self {
            BuildStep::Engine(_) => BuildPhase::Engine,
            BuildStep::Register(registration) => BuildPhase::Register(registration.index()),
            BuildStep::Ready(_) => BuildPhase::Ready,
            BuildStep::Failed(error) => BuildPhase::Failed(*error),
        }
    }

    /// Whether this step belongs to the construction of a session from
    /// `config`: a pending step carries that configuration, and a finished
    /// session holds the declared speakers and an empty staging buffer.
    pub open spec fn built_from(&self, config: Config) -> bool {
        match self {
            BuildStep::Engine(build) => build.config() == config,
            BuildStep::Register(registration) => registration.config() == config,
            BuildStep::Ready(runtime) => {
                &&& runtime.speakers@ == declared_speakers(config.speaker@)
                &&& runtime.output_wav@ == Seq::<u8>::empty()
            },
            BuildStep::Failed(_) => true,
        }
    }
}

/// The step in which the speakers before `index` are registered and
/// `speakers` is their table.
fn registration_step<'a>(config: &'a Config, index: usize, speakers: StringHashMap<Version>) -> (step:
    BuildStep<'a>)
    requires
        index <= config.speaker.len(),
        speakers@ == declared_speakers(config.speaker@.take(index as int)),
    ensures
        step.phase() == registration_phase(*config, index as nat),
        step.built_from(*config),
{
    if index < config.speaker.len() {
        BuildStep::Register(Registration { config, index, speakers })
    } else {
        proof {
            assert(config.speaker@.take(index as int) =~= config.speaker@);
        }
        BuildStep::Ready(GPTSovitsRuntime { speakers, output_wav: Vec::new() })
    }
}

/// Largest number of characters per segment for text that is all ASCII.
pub const ASCII_CHUNK_SIZE: usize = 100;

/// Largest number of characters per segment for any other text, whose
/// scripts carry more sound per character.
pub const DENSE_CHUNK_SIZE: usize = 50;

/// Largest number of characters that the engine is to put into one
/// segment of `text`.
pub open spec fn split_chunk_size(text: Seq<char>) -> usize {
    if is_ascii_chars(text) {
        ASCII_CHUNK_SIZE
    } else {
        DENSE_CHUNK_SIZE
    }
}

/// A change of sample rate, in Hz.
#[derive(Clone, Copy, Debug, PartialEq, Eq, Structural)]
pub struct Resample {
    pub from: u32,
    pub to: u32,
}

/// The resampling that brings the output of a model of generation
/// `version` to the canonical rate: none where the model already produces
/// it.
pub open spec fn resample_for(version: Version) -> Option<Resample> {
    if version.spec_native_sample_rate() != CANONICAL_SAMPLE_RATE {
        Some(Resample { from: version.spec_native_sample_rate(), to: CANONICAL_SAMPLE_RATE })
    } else {
        None
    }
}

/// What the engine and the encoder are asked for on one inference call.
#[derive(Debug)]
pub struct Synthesis {
    /// The registered speaker to synthesize with.
    pub speaker: String,
    /// The text to synthesize.
    pub text: String,
    /// Largest number of characters per segment.
    pub split_chunk_size: usize,
    /// How to resample what the engine returns, if at all.
    pub resample: Option<Resample>,
    /// The container to encode the samples into.
    pub format: WavFormat,
}

impl Synthesis {
    /// Whether this is the request that a speaker of generation `version`
    /// named `speaker` gives for `text`.
    pub open spec fn is_request(&self, version: Version, speaker: Seq<char>, text: Seq<char>)
        -> bool {
        &&& self.speaker@ == speaker
        &&& self.text@ == text
        &&& self.split_chunk_size == split_chunk_size(text)
        &&& self.resample == resample_for(version)
        &&& self.format == spec_canonical_format()
    }
}

impl GPTSovitsRuntime {
    /// The request for synthesizing `text` in the voice of `speaker`.
    ///
    /// A speaker that is not registered is refused. For a registered one
    /// the request takes the larger chunk size where the text is all ASCII
    /// and the smaller one where not, resamples from the native rate of
    /// the speaker's generation where that is not the canonical rate, and
    /// encodes in the canonical format.
    pub fn infer(&self, speaker: &str, text: &str) -> (r: Result<Synthesis, InferError>)
        ensures
            match r {
                Ok(request) => self.speakers@.contains_key(speaker@) && request.is_request(
                    self.speakers@[speaker@],
                    speaker@,
                    text@,
                ),
                Err(error) => !self.speakers@.contains_key(speaker@) && error
                    == InferError::UnknownSpeaker,
            },
    {
        let version = match self.speakers.get(speaker) {
            Some(version) => *version,
            None => {
                return Err(InferError::UnknownSpeaker);
            },
        };
        let split_chunk_size = if text.is_ascii() {
            ASCII_CHUNK_SIZE
        } else {
            DENSE_CHUNK_SIZE
        };
        let native = version.native_sample_rate();
        let resample = if native != CANONICAL_SAMPLE_RATE {
            Some(Resample { from: native, to: CANONICAL_SAMPLE_RATE })
        } else {
            None
        };
        Ok(
            Synthesis {
                speaker: speaker.to_owned(),
                text: text.to_owned(),
                split_chunk_size,
                resample,
                format: canonical_format(),
            },
        )
    }

    /// Stages `wav` as the audio of the last successful inference, in
    /// place of what was staged before, and returns its length.
    pub fn stage(&mut self, wav: Vec<u8>) -> (len: usize)
        ensures
            final(self).output_wav == wav,
            final(self).speakers == old(self).speakers,
            len == wav.len(),
    {
        let len = wav.len();
        self.output_wav = wav;
        len
    }

    /// What retrieving the staged audio into a destination of `len` bytes
    /// gives: the staged bytes, if `len` is their number.
    pub open spec fn retrieved(&self, len: nat) -> Result<Seq<u8>, RetrievalError> {
        if len == self.output_wav@.len() {
            Ok(self.output_wav@)
        } else {
            Err(RetrievalError::LengthMismatch)
        }
    }

    /// Copies the staged audio into `dest`, which has to be exactly as
    /// long. A destination of any other length is left as it was. The
    /// staged audio stays staged.
    pub fn get_output(&self, dest: &mut [u8]) -> (r: Result<(), RetrievalError>)
        ensures
            match self.retrieved(old(dest)@.len()) {
                Ok(bytes) => r is Ok && final(dest)@ == bytes,
                Err(error) => r == Err::<(), RetrievalError>(error) && final(dest)@ == old(dest)@,
            },
    {
        if dest.len() != self.output_wav.len() {
            return Err(RetrievalError::LengthMismatch);
        }
        let mut i: usize = 0;
        while i < dest.len()
            invariant
                i <= dest.len(),
                dest.len() == self.output_wav.len(),
                dest@.len() == old(dest)@.len(),
                forall|k: int| 0 <= k < i ==> dest@[k] == self.output_wav@[k],
            decreases dest.len() - i,
        {
            dest[i] = self.output_wav[i];
            i += 1;
        }
        assert(dest@ =~= self.output_wav@);
        Ok(())
    }

    /// Begins the construction of a session from `config`.
    ///
    /// The host performs what each step asks of the engine and reports the
    /// outcome to that step, until a step is `Ready` or `Failed`.
    pub fn new<'a>(config: &'a Config) -> (step: BuildStep<'a>)
        ensures
            step.phase() == build_start(*config),
            step.built_from(*config),
    {
        match config.engine_config() {
            Ok(engine) => BuildStep::Engine(EngineBuild { config, engine }),
            Err(error) => BuildStep::Failed(BuildError::Config(error)),
        }
    }
}

/// The phase that construction reaches from `phase` once the engine has
/// reported `outcomes`, one for each step in turn.
pub open spec fn build_run(config: Config, phase: BuildPhase, outcomes: Seq<Result<(), String>>)
    -> BuildPhase
    decreases outcomes.len(),
{
    if outcomes.len() == 0 {
        phase
    } else {
        build_run(config, build_next(config, phase, outcomes.first()), outcomes.drop_first())
    }
}

/// A failed construction stays failed, whatever is reported to it.
proof fn lemma_failure_is_final(config: Config, error: BuildError, outcomes: Seq<Result<(), String>>)
    ensures
        build_run(config, BuildPhase::Failed(error), outcomes) == BuildPhase::Failed(error),
    decreases outcomes.len(),
{
    if outcomes.len() > 0 {
        lemma_failure_is_final(config, error, outcomes.drop_first());
    }
}

/// Registering the speakers from `index` on ends with the first refusal
/// among the remaining outcomes, or with a session once every remaining
/// speaker was accepted.
proof fn lemma_registrations_from(config: Config, index: nat, outcomes: Seq<Result<(), String>>)
    requires
        index <= config.speaker.len(),
    ensures
        forall|i: int|
            0 <= i < outcomes.len() && index + i < config.speaker.len() && outcomes[i] is Err && (
            forall|k: int| 0 <= k < i ==> outcomes[k] is Ok) ==> build_run(
                config,
                registration_phase(config, index),
                outcomes,
            ) == BuildPhase::Failed(
                BuildError::Speaker {
                    name: config.speaker[index + i].name,
                    cause: outcomes[i]->Err_0,
                },
            ),
        outcomes.len() >= config.speaker.len() - index && (forall|k: int|
            0 <= k < config.speaker.len() - index ==> outcomes[k] is Ok) ==> build_run(
            config,
            registration_phase(config, index),
            outcomes,
        ) == BuildPhase::Ready,
    decreases outcomes.len(),
{
    if outcomes.len() > 0 {
        let rest = outcomes.drop_first();
        let phase = registration_phase(config, index);
        if index == config.speaker.len() {
            lemma_registrations_from(config, index, rest);
        } else {
            match outcomes.first() {
                Ok(_) => {
                    lemma_registrations_from(config, index + 1, rest);
                    assert forall|i: int|
                        0 <= i < outcomes.len() && index + i < config.speaker.len()
                            && outcomes[i] is Err && (forall|k: int|
                            0 <= k < i ==> outcomes[k] is Ok) implies build_run(
                        config,
                        phase,
                        outcomes,
                    ) == BuildPhase::Failed(
                        BuildError::Speaker {
                            name: config.speaker[index + i].name,
                            cause: outcomes[i]->Err_0,
                        },
                    ) by {
                        assert(rest[i - 1] == outcomes[i]);
                        assert forall|k: int| 0 <= k < i - 1 implies rest[k] is Ok by {
                            assert(rest[k] == outcomes[k + 1]);
                        }
                    }
                    if outcomes.len() >= config.speaker.len() - index && (forall|k: int|
                        0 <= k < config.speaker.len() - index ==> outcomes[k] is Ok) {
                        assert forall|k: int|
                            0 <= k < config.speaker.len() - (index + 1) implies rest[k] is Ok by {
                            assert(rest[k] == outcomes[k + 1]);
                        }
                    }
                },
                Err(cause) => {
                    lemma_failure_is_final(
                        config,
                        BuildError::Speaker { name: config.speaker[index as int].name, cause },
                        rest,
                    );
                },
            }
        }
    }
}

/// Construction from a configuration with paired auxiliary models, seen as
/// a whole. If the engine cannot be materialized, that is the error. If a
/// speaker is refused, the error cites the first such speaker in the order
/// of declaration, with the cause given for it. If the engine and every
/// declared speaker are accepted, the session stands.
pub proof fn build_ends_ready_or_cites_first_failure(
    config: Config,
    engine: Result<(), String>,
    registrations: Seq<Result<(), String>>,
)
    requires
        config.auxiliary_models_paired(),
    ensures
        engine matches Err(cause) ==> build_run(
            config,
            build_start(config),
            seq![engine] + registrations,
        ) == BuildPhase::Failed(BuildError::Engine(cause)),
        engine is Ok ==> forall|i: int|
            0 <= i < registrations.len() && i < config.speaker.len() && registrations[i] is Err && (
            forall|k: int| 0 <= k < i ==> registrations[k] is Ok) ==> build_run(
                config,
                build_start(config),
                seq![engine] + registrations,
            ) == BuildPhase::Failed(
                BuildError::Speaker {
                    name: config.speaker[i].name,
                    cause: registrations[i]->Err_0,
                },
            ),
        engine is Ok && registrations.len() >= config.speaker.len() && (forall|k: int|
            0 <= k < config.speaker.len() ==> registrations[k] is Ok) ==> build_run(
            config,
            build_start(config),
            seq![engine] + registrations,
        ) == BuildPhase::Ready,
{
    let outcomes = seq![engine] + registrations;
    assert(outcomes.first() == engine);
    assert(outcomes.drop_first() =~= registrations);
    match engine {
        Ok(_) => {
            lemma_registrations_from(config, 0, registrations);
        },
        Err(cause) => {
            lemma_failure_is_final(config, BuildError::Engine(cause), registrations);
        },
    }
}

/// The table of declared speakers holds exactly the declared names, and
/// under each name the version of the last speaker declared with it.
pub proof fn declared_speakers_last_wins(specs: Seq<SpeakerConfig>)
    ensures
        forall|name: Seq<char>|
            declared_speakers(specs).contains_key(name) <==> exists|i: int|
                0 <= i < specs.len() && specs[i].name@ == name,
        forall|i: int|
            0 <= i < specs.len() && (forall|j: int|
                i < j < specs.len() ==> specs[j].name@ != specs[i].name@) ==> declared_speakers(
                specs,
            )[specs[i].name@] == specs[i].version,
    decreases specs.len(),
{
    if specs.len() > 0 {
        let init = specs.drop_last();
        let last = specs.last();
        declared_speakers_last_wins(init);
        assert forall|name: Seq<char>|
            declared_speakers(specs).contains_key(name) <==> exists|i: int|
                0 <= i < specs.len() && specs[i].name@ == name by {
            if declared_speakers(specs).contains_key(name) {
                if name == last.name@ {
                    assert(specs[specs.len() - 1].name@ == name);
                } else {
                    let i = choose|i: int| 0 <= i < init.len() && init[i].name@ == name;
                    assert(specs[i].name@ == name);
                }
            }
            if exists|i: int| 0 <= i < specs.len() && specs[i].name@ == name {
                let i = choose|i: int| 0 <= i < specs.len() && specs[i].name@ == name;
                if i < init.len() {
                    assert(init[i].name@ == name);
                }
            }
        }
        assert forall|i: int|
            0 <= i < specs.len() && (forall|j: int|
                i < j < specs.len() ==> specs[j].name@ != specs[i].name@) implies declared_speakers(
            specs,
        )[specs[i].name@] == specs[i].version by {
            if i < init.len() {
                assert(init[i] == specs[i]);
                assert forall|j: int| i < j < init.len() implies init[j].name@
                    != init[i].name@ by {
                    assert(init[j] == specs[j]);
                }
                assert(specs[specs.len() - 1].name@ != specs[i].name@);
            }
        }
    }
}

} // verus!
