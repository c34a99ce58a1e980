//! Training and fine-tuning a model of a project.
//!
//! A run is a state machine. Each step names one piece of work for the host to do in the
//! database or in a model backend, and the host's reply decides the next step.
pub mod choice;
pub mod laws;
pub mod rules;
pub mod run;
pub mod steps;
pub mod types;
pub mod views;
