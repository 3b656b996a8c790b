//! Session management and guest bridge of a text-to-speech plugin.
//!
//! The neural engine, the audio encoder and the guest's virtual machine stay
//! with the host application. This library holds what is decided around
//! them: which engine configuration a declarative configuration asks for,
//! in which order speakers are registered and what a failure means, what
//! the engine is asked for on each inference call, and how text and audio
//! cross the boundary to an untrusted guest.

pub mod audio;
pub mod bridge;
pub mod config;
pub mod error;
pub mod guest;
pub mod tts;
