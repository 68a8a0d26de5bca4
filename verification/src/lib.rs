//! A backup engine for directory trees that knows what kind of directory
//! it looks at. The library decides; whoever drives it reads the disk, hands
//! in what was found, and carries out what comes back.

use crate::text::{copy_texts, texts};
use crate::utils::SyncError;
use vstd::prelude::*;

pub mod args;
pub mod dir;
pub mod markup;
pub mod path;
pub mod scanner;
pub mod session;
pub mod text;
pub mod ui;
pub mod utils;

verus! {

/// Name of the session file that holds the arguments of the last run.
pub const ARGS_FILE: &'static str = ".devsync";

/// Name of the log file of a run.
pub const LOG_FILE: &'static str = ".devsync.log";

/// Number of parallel jobs when none is asked for.
pub const DEFAULT_JOBS: u8 = 10;

/// Global configuration data.
#[derive(Debug)]
pub struct Config {
    /// Number of parallel jobs, at least one.
    pub jobs: u8,
    /// If extraneous files and directories shall be deleted.
    pub delete: bool,
    /// If copying shall happen in archive mode (preserving timestamps and
    /// permissions).
    pub archive: bool,
    /// If only what belongs to the running user shall be backed up.
    pub owned: bool,
    /// Files and directories to be ignored: an entry is ignored if its
    /// path ends with one of these.
    pub ignore: Vec<String>,
}

/// What a `Config` says.
pub struct ConfigView {
    pub jobs: u8,
    pub delete: bool,
    pub archive: bool,
    pub owned: bool,
    pub ignore: Seq<Seq<char>>,
}

impl View for Config {
    type V = ConfigView;

    open spec fn view(&self) -> ConfigView {
        ConfigView {
            jobs: self.jobs,
            delete: self.delete,
            archive: self.archive,
            owned: self.owned,
            ignore: texts(self.ignore@),
        }
    }
}

impl Clone for Config {
    fn clone(&self) -> (r: Self)
        ensures
            r@ == self@,
    {
        Config {
            jobs: self.jobs,
            delete: self.delete,
            archive: self.archive,
            owned: self.owned,
            ignore: copy_texts(&self.ignore),
        }
    }
}

impl Config {
    /// A configuration is valid if it asks for at least one job.
    pub open spec fn wf(self) -> bool {
        self.jobs >= 1
    }

    /// A configuration. No jobs at all is refused.
    pub fn new(jobs: u8, delete: bool, archive: bool, owned: bool, ignore: Vec<String>) -> (r:
        Result<Config, SyncError>)
        ensures
            r.is_ok() == (jobs >= 1),
            r matches Ok(c) ==> c.wf() && c@ == (ConfigView {
                jobs,
                delete,
                archive,
                owned,
                ignore: texts(ignore@),
            }),
            r matches Err(e) ==> e matches SyncError::Failed(m) && m@
                == "Number of jobs must be between 1 and 255"@,
    {
        if jobs == 0 {
            Err(SyncError::failed("Number of jobs must be between 1 and 255"))
        } else {
            Ok(Config { jobs, delete, archive, owned, ignore })
        }
    }
}

} // verus!
