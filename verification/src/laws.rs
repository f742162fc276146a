//! What the operations are for: properties of their inputs and results.
pub mod answers;
pub mod budget;
pub mod calibration;
pub mod clock;
pub mod control;
pub mod device;
pub mod documents;
pub mod durations;
pub mod limits;
pub mod measuring;
pub mod moving;
pub mod network;
pub mod onvif;
pub mod operations;
pub mod overview;
pub mod picture;
pub mod refusals;
pub mod reports;
pub mod samples;
pub mod session;
pub mod settings;
pub mod status;
pub mod transport;
pub mod values;
pub mod words;
