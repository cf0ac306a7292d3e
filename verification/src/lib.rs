//! Verified core of the Gaze facial-authentication stack: configuration,
//! camera-source resolution, IR emitter profiles, authentication policy,
//! capture state machines and health-report logic.

pub mod text;
pub mod devices;
pub mod led;
pub mod status;
pub mod config;
pub mod camera;
pub mod daemon;
pub mod users;
pub mod face_index;
pub mod session;
pub mod models;
pub mod pam;
pub mod doctor;
pub mod health;
pub mod cli;
pub mod brightness;
pub mod settings;
