//! The configuration the pipeline is started with: which sinks to register,
//! the file sink's parameters, and the filter settings handed to each
//! per-thread emitter.

use vstd::prelude::*;
use vstd::string::StringExecFns;

use crate::event::Level;

verus! {

/// Settings read once when the pipeline is initialized.
pub struct Config {
    /// Register the console appender.
    pub console: bool,
    /// Register the file appender.
    pub file: bool,
    /// Buffer size the file appender is created with.
    pub file_buf: usize,
    /// Directory the file appender writes into.
    pub file_dir: String,
    /// Whether per-thread filters pass any event at all.
    pub log_enabled: bool,
    /// Least severity the per-thread filters pass.
    pub min_level: Level,
}

impl Config {
    /// Builds a configuration from its parts.
    pub fn new(
        console: bool,
        file: bool,
        file_buf: usize,
        file_dir: String,
        log_enabled: bool,
        min_level: Level,
    ) -> (c: Config)
        ensures
            c.console == console,
            c.file == file,
            c.file_buf == file_buf,
            c.file_dir == file_dir,
            c.log_enabled == log_enabled,
            c.min_level == min_level,
    {
        Config { console, file, file_buf, file_dir, log_enabled, min_level }
    }

    /// Whether the console appender is registered.
    pub fn console_log(&self) -> (b: bool)
        ensures
            b == self.console,
    {
        self.console
    }

    /// Whether the file appender is registered.
    pub fn file_log(&self) -> (b: bool)
        ensures
            b == self.file,
    {
        self.file
    }

    /// Buffer size the file appender is created with.
    pub fn file_temp_buf(&self) -> (n: usize)
        ensures
            n == self.file_buf,
    {
        self.file_buf
    }

    /// Directory the file appender writes into.
    pub fn file_log_dir(&self) -> (d: String)
        ensures
            d == self.file_dir,
    {
        self.file_dir.clone()
    }
}

impl Default for Config {
    /// Console sink only, every event passed through.
    fn default() -> (c: Config)
        ensures
            c.console,
            !c.file,
            c.file_buf == 0,
            c.file_dir@ == Seq::<char>::empty(),
            c.log_enabled,
            c.min_level == Level::Debug,
    {
        Config {
            console: true,
            file: false,
            file_buf: 0,
            file_dir: String::new(),
            log_enabled: true,
            min_level: Level::Debug,
        }
    }
}

} // verus!
