//! A resumable, step-at-a-time workflow engine.
//!
//! A [`graph::Graph`] of task ids and edges is executed one step at a time
//! against a [`session::Session`]. Running a task body is the caller's work:
//! [`graph::Graph::begin_step`] says whether the current task may run, and
//! [`graph::Graph::finish_step`] applies what it returned. The session's
//! [`context::Context`] holds the values and chat history the tasks share;
//! [`storage`] keeps sessions between steps, and [`runner`] drives one
//! load → step → save cycle. [`laws`] states the properties that hold across
//! these operations.
//!
//! The remaining modules hold the data and decisions of applications built on
//! the engine.

pub mod context;
pub mod error;
pub mod graph;
pub mod json;
pub mod laws;
pub mod runner;
pub mod session;
pub mod storage;
pub mod store;
pub mod task;

pub mod banking;
pub mod claims;
pub mod medical;
pub mod pubmed;
pub mod recommendation;
