//! Where the configuration and the store live on disk: fixed places under the
//! user's home directory.
use vstd::prelude::*;
use crate::platform::{Platform, PlatformError};

verus! {

/// The places the tool keeps its files in.
pub struct ManagerView {
    pub config_dir: Seq<char>,
    pub config_path: Seq<char>,
    pub database_path: Seq<char>,
    pub old_config_path: Seq<char>,
}

/// The places the tool keeps its files in, for a home directory `home`.
pub open spec fn paths_under(home: Seq<char>) -> ManagerView {
    ManagerView {
        config_dir: home + "/.config/kamiya"@,
        config_path: home + "/.config/kamiya/config.toml"@,
        database_path: home + "/.config/kamiya/database.json"@,
        old_config_path: home + "/.config/kamiya.yaml"@,
    }
}

/// How reading or writing the tool's files failed.
#[derive(Clone, Copy, Debug, PartialEq, Eq)]
pub enum ManagerError {
    BadFormat,
    WriteError,
    UnknownError,
}

/// The resolved places of the tool's files.
pub struct Manager {
    config_dir: String,
    config_path: String,
    database_path: String,
    old_config_path: String,
}

impl View for Manager {
    type V = ManagerView;

    closed spec fn view(&self) -> ManagerView {
        ManagerView {
            config_dir: self.config_dir@,
            config_path: self.config_path@,
            database_path: self.database_path@,
            old_config_path: self.old_config_path@,
        }
    }
}

fn joined(home: &str, rest: &str) -> (r: String)
    ensures
        r@ == home@ + rest@,
{
    let mut r = String::from_str(home);
    r.append(rest);
    r
}

impl Manager {
    /// The places of the tool's files under the home directory `home`.
    pub fn from_home(home: &str) -> (r: Manager)
        ensures
            r@ == paths_under(home@),
    {
        Manager {
            config_dir: joined(home, "/.config/kamiya"),
            config_path: joined(home, "/.config/kamiya/config.toml"),
            database_path: joined(home, "/.config/kamiya/database.json"),
            old_config_path: joined(home, "/.config/kamiya.yaml"),
        }
    }

    /// The places of the tool's files under the current user's home directory.
    pub fn locate() -> (r: Result<Manager, PlatformError>)
        ensures
            match r {
                Ok(m) => exists|home: Seq<char>| m@ == paths_under(home),
                Err(e) => e == PlatformError::UnsupportedSystem,
            },
    {
        match Platform::get_user_home() {
            Ok(home) => Ok(Manager::from_home(home.as_str())),
            Err(e) => Err(e),
        }
    }

    pub fn get_config_path(&self) -> (r: String)
        ensures
            r@ == self@.config_path,
    {
        self.config_path.clone()
    }

    pub fn get_old_config_path(&self) -> (r: String)
        ensures
            r@ == self@.old_config_path,
    {
        self.old_config_path.clone()
    }

    pub fn get_database_path(&self) -> (r: String)
        ensures
            r@ == self@.database_path,
    {
        self.database_path.clone()
    }

    pub fn get_config_dir(&self) -> (r: String)
        ensures
            r@ == self@.config_dir,
    {
        self.config_dir.clone()
    }
}

} // verus!
