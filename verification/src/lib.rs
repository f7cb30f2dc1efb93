//! Scheduling, prompt-writing and bookkeeping logic of the YoursFM
//! procedurally generated radio station.

pub mod radio;
pub mod schedule;
pub mod text;
pub mod audio;
pub mod spotify;
pub mod control;
