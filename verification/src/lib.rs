//! Bring-up core of a minimal init system for an embedded appliance.
//!
//! The library decides; the program around it performs. Every function here
//! maps plain values (file contents, exit states, configuration records) to
//! plain values (mount steps, commands to run, the next state of a driver).

pub mod boot;
pub mod cgroups;
pub mod cmd;
pub mod effect;
pub mod hotplug;
pub mod micro_ce;
pub mod mounts;
pub mod pivot;
pub mod runc;
pub mod seqs;
pub mod supervisor;
pub mod system;
pub mod table;
pub mod text;
pub mod uconfig;
