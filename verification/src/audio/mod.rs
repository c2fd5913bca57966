pub mod capture;
pub mod cue;
pub mod devices;
