use vstd::prelude::*;

use std::path::{Path, PathBuf};

use crate::state::{icon_file, icon_file_name, IconState};

verus! {

#[verifier::external_type_specification]
#[verifier::external_body]
pub struct ExPathBuf(std::path::PathBuf);

/// Where the agent keeps its files, and how often it polls.
pub struct Config {
    pub cookie_file: PathBuf,
    pub icon_dir: PathBuf,
    pub check_interval_secs: u64,
}

/// The seconds between two polls.
pub const CHECK_INTERVAL_SECS: u64 = 60;

/// The name of the session file in the data directory.
pub const COOKIE_FILE_NAME: &'static str = "cookies.json";

/// The name of the icon directory in the data directory.
pub const ICON_DIR_NAME: &'static str = "icons";

/// The path `dir` with `name` appended, as `Path::join` builds it.
pub uninterp spec fn joined(dir: PathBuf, name: Seq<char>) -> PathBuf;

/// Relies on `Path::join`, which appends `name` to `dir` as a new path; the result depends
/// on its two arguments alone.
#[verifier::external_body]
fn join(dir: &PathBuf, name: &str) -> (r: PathBuf)
    ensures
        r == joined(*dir, name@),
{
    Path::join(dir, name)
}

impl Config {
    /// The layout under the data directory `data_dir`, polling once a minute.
    pub fn from_data_dir(data_dir: &PathBuf) -> (r: Config)
        ensures
            r.cookie_file == joined(*data_dir, COOKIE_FILE_NAME@),
            r.icon_dir == joined(*data_dir, ICON_DIR_NAME@),
            r.check_interval_secs == CHECK_INTERVAL_SECS,
    {
        Config {
            cookie_file: join(data_dir, COOKIE_FILE_NAME),
            icon_dir: join(data_dir, ICON_DIR_NAME),
            check_interval_secs: CHECK_INTERVAL_SECS,
        }
    }

    /// The picture shown for `icon`, in the icon directory.
    pub fn icon_path(&self, icon: IconState) -> (r: PathBuf)
        ensures
            r == joined(self.icon_dir, icon_file_name(icon)),
    {
        join(&self.icon_dir, icon_file(icon))
    }
}

} // verus!
