//! A registry of devices (ESP32-class boards) and the rules that drive a
//! firmware toolchain against each device's project directory.
//!
//! The library decides and never acts on the outside world: a toolchain
//! operation is a job that names the next action to perform (run a process,
//! create a directory, write a file) and takes the action's outcome in return,
//! until it is finished with its result.

pub mod adapters;
pub mod domain;
pub mod dto;
pub mod handlers;
pub mod repository;
pub mod service;
pub mod text;
