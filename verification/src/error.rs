//! Failures of loading, building and using a session.

use vstd::prelude::*;

verus! {

/// The configuration could not be turned into a session description.
#[derive(Debug, PartialEq, Eq)]
pub enum ConfigError {
    /// The configuration source could not be read.
    Unreadable(String),
    /// The source is not a configuration document, or lacks a required
    /// field.
    Malformed(String),
    /// Exactly one of the two language-specific auxiliary models is set.
    UnpairedAuxiliaryModel,
}

/// The session could not be built.
#[derive(Debug, PartialEq, Eq)]
pub enum BuildError {
    /// The configuration does not describe an engine.
    Config(ConfigError),
    /// The engine could not be materialized.
    Engine(String),
    /// The engine refused a speaker; speakers declared before it had been
    /// registered.
    Speaker { name: String, cause: String },
}

/// One inference call failed; the session stays usable.
#[derive(Debug, PartialEq, Eq)]
pub enum InferError {
    /// No speaker of that name is registered.
    UnknownSpeaker,
    /// The speaker name or the text is not valid UTF-8.
    InvalidText,
    /// The engine failed to synthesize.
    Engine(String),
}

/// The staged audio could not be handed out.
#[derive(Clone, Copy, Debug, PartialEq, Eq, Structural)]
pub enum RetrievalError {
    /// The destination is not exactly as long as the staged audio.
    LengthMismatch,
}

} // verus!
