//! Batch transformation of currency and data-source definitions.
//!
//! Sources are registered under unique string identifiers; each currency
//! definition references zero or more sources by key. The engine checks
//! that every referenced source exists and fans the currency's canonical
//! projection out into one write instruction per referencing source, plus
//! one canonical instruction. Rendering of destination paths and of the
//! persisted JSON objects is part of the library; reading record files and
//! writing artifacts is left to the surrounding program.

use vstd::prelude::*;

pub mod model;
pub mod registry;
pub mod engine;
pub mod pipeline;
pub mod render;

verus! {

/// Log verbosity, in increasing order of detail.
pub enum LogLevel {
    Error,
    Warn,
    Info,
    Debug,
    Trace,
}

/// Configuration surface of one run: where records are read from, where
/// artifacts are written, and how logging behaves. These options govern
/// I/O locations only and carry no resolution semantics.
pub struct Args {
    pub data_path: String,
    pub output_path: String,
    pub log_level: LogLevel,
    pub log_json: bool,
}

impl Args {
    /// The default configuration: read from `data`, write to `output`,
    /// log at debug level in plain (non-JSON) form.
    pub fn new() -> (a: Args)
        ensures
            a.data_path@ == "data"@,
            a.output_path@ == "output"@,
            a.log_level is Debug,
            !a.log_json,
    {
        Args {
            data_path: "data".to_owned(),
            output_path: "output".to_owned(),
            log_level: LogLevel::Debug,
            log_json: false,
        }
    }
}

} // verus!
