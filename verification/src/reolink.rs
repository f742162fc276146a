//! The operations that the camera offers.
pub mod auth;
pub mod client;
pub mod device;
pub mod media;
pub mod network;
pub mod onvif;
pub mod ptz;
pub mod system;
pub mod xml;
