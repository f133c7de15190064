//! A typed access layer for an engine that evaluates scalar one-loop
//! integrals: the one-, two-, three- and four-point functions, each as the
//! Laurent expansion of the integral in the regulator of dimensional
//! regularization.
//!
//! The engine does the mathematics and is no part of this crate. What is here
//! is what surrounds it: the values that go in and come out, the calls that
//! are made, and a record of the settings that the engine keeps for the whole
//! process. Whoever owns the engine makes each call that a function here
//! gives, once, and hands a cleared [`OLOResult`] to an evaluation to fill.
//! The engine's settings are shared: calls into it must not run side by side.
//!
//! Doubles are held by their IEEE-754 encoding, see [`Double`].

pub mod call;
pub mod complex;
pub mod config;
pub mod double;
pub mod integrals;
pub mod normalization;
pub mod result;
pub mod units;

pub use call::EngineCall;
pub use complex::ComplexValue;
pub use config::{
    set_log_level, set_log_level_by_name, set_onshell_threshold, set_renormalization_scale,
    EngineConfiguration,
};
pub use double::Double;
pub use integrals::{four_point, one_point, three_point, two_point};
pub use normalization::{to_feynman, TO_FEYNMAN};
pub use result::OLOResult;
pub use units::{ConfigError, OLOUnit, DEFAULT_SINK};
