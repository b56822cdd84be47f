//! What has to be created before the configuration file can be read.

use vstd::prelude::*;

verus! {

/// The outcome of looking for the configuration file: whether it was already
/// there, and what has to be created before it can be opened.
#[derive(Clone, Copy, Debug, PartialEq, Eq, Structural)]
pub struct ConfigCheck {
    /// The configuration file was there before the check.
    pub existed: bool,
    /// The configuration directory has to be created, with its parents.
    pub create_dir: bool,
    /// An empty configuration file has to be created.
    pub create_file: bool,
}

/// Decides what a start-up has to create, from what is on disk.
///
/// A file that is there needs nothing, whatever `dir_exists` says. A missing
/// file is created empty, after its directory where that is missing too. The
/// directory is created first: `create_dir` is never set without
/// `create_file`.
pub fn check_config(file_exists: bool, dir_exists: bool) -> (check: ConfigCheck)
    ensures
        check.existed == file_exists,
        check.create_file == !file_exists,
        check.create_dir == (!file_exists && !dir_exists),
{
    if !file_exists {
        ConfigCheck { existed: false, create_dir: !dir_exists, create_file: true }
    } else {
        ConfigCheck { existed: true, create_dir: false, create_file: false }
    }
}

} // verus!
