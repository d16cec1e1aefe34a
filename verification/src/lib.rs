//! A sequencer for shell commands that run one at a time in sessions of a
//! terminal host.
//!
//! The library holds the decisions: which command starts next, which lifecycle
//! event belongs to which command and which run, and when a run is over. It
//! never talks to the host itself. Every handler takes the state and one event
//! and leaves the new state and the list of requests that the caller is to
//! send to the host.

pub mod action;
pub mod command;
pub mod config;
pub mod context;
pub mod epoch;
pub mod event;
pub mod laws;
pub mod model;
pub mod render;
pub mod state;
pub mod text;
