//! The decisions behind the SQL interface of a machine-learning extension for PostgreSQL.
//!
//! The extension trains, tunes and deploys models inside the database. What it does there goes
//! through the server, an object-relational layer and Python; what it decides stands here, as
//! functions and state machines over plain values:
//!
//! - [`training`]: training and tuning a model, from the project to the deployment;
//! - [`deployment`]: choosing and deploying a model that is already trained;
//! - [`task`] and [`score`]: which metric ranks the models of a task, and how two scores compare;
//! - [`features`]: preparing one row of features for prediction;
//! - [`backup`]: the statements that dump and load all tables;
//! - [`datasets`]: which dataset is loaded, and what a snapshot is taken of;
//! - [`environment`]: what is asked of the server and of Python;
//! - [`transform`] and [`json`]: the JSON documents that are exchanged.
//!
//! A state machine hands its host one action at a time and is stepped with the host's reply.

pub mod backup;
pub mod datasets;
pub mod deployment;
pub mod environment;
pub mod features;
pub mod json;
pub mod score;
pub mod task;
pub mod text;
pub mod training;
pub mod transform;
