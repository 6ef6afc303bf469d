//! Host-side core for running a Python worker process: locating the worker and
//! its interpreter, preparing the child environment, and reducing the worker's
//! line-oriented JSON output to one outcome.

pub mod candidates;
pub mod environment;
pub mod json;
pub mod outcome;
pub mod paths;
pub mod probes;
pub mod protocol;
pub mod resolver;
pub mod selection;
pub mod text;
pub mod tools;
