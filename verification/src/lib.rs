//! A headless model of a phase-pattern editor for spatial light modulators.
//!
//! The editor keeps a set of pattern containers, each with a display region
//! and a set of phase patterns. Every change arrives as a message; the
//! controller applies it to its state and says what the presentation layer
//! has to do next.

pub mod controller;
pub mod ids;
pub mod laws;
pub mod pattern_container;
pub mod pattern_controller;
pub mod slm_data;

pub use controller::{
    Action, PersistError, ReadFailure, SLMController, SLMControllerModel, SLMControllerMsg,
};
pub use pattern_container::{PatternContainer, PatternContainerModel, PatternContainerMsg};
pub use pattern_controller::{PatternController, PatternControllerModel, PatternControllerMsg};
pub use slm_data::{Double, PatternContainerData, PatternData};
