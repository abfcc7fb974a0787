//! Core of a desktop overlay: a registry of filesystem watches, the normalisation of raw
//! filesystem notifications into one event vocabulary, and the detection of global key
//! combinations.

pub mod commands;
pub mod fswatch;
pub mod inputsim;
pub mod keybinds;
pub mod keys;
pub mod registry;
