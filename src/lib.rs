//! Supervision of named native-process modules: the persisted module
//! registry, the per-module control loop, process launch planning and the
//! supervisor's drain protocol.

pub mod error;
pub mod program_data;
pub mod registry;
pub mod spawner;
pub mod pm;
pub mod runner;
pub mod laws;
pub mod commands;
