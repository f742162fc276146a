//! Control library for Reolink cameras.
pub mod command;
pub mod double;
pub mod error;
pub mod exchange;
pub mod interfaces;
pub mod json;
pub mod laws;
pub mod model;
pub mod natural;
pub mod reolink;
pub mod text;
pub mod usecases;
