//! Small programs of the kind the analyzer reads: clean code next to code
//! that its rules flag. Each is verified like the rest of the library.

pub mod orders;
pub mod edges;
pub mod counter;
pub mod plain;
pub mod flag;
pub mod repository;
pub mod tasks;
pub mod buffer;
pub mod service;
pub mod target;
pub mod worker;
