//! The settings: where the versions are installed and where they are
//! downloaded from.

use vstd::prelude::*;
use crate::home::{Loaded, NvmdHome, NvmdPath, PathView};
use crate::text::opt_text;

verus! {

/// The settings of the user, as far as the setting file gives them.
#[derive(Debug)]
pub struct Setting {
    /// The directory under which each version is installed.
    pub directory: Option<NvmdPath>,
    /// The address that the versions are downloaded from.
    pub mirror: Option<String>,
}

/// The model of an optional path.
pub open spec fn opt_path(o: Option<NvmdPath>) -> Option<PathView> {
    match o {
        Some(p) => Some(p@),
        None => None,
    }
}

/// The directory under which each version is installed: the one that the
/// settings name, else `versions` in the home.
pub open spec fn directory_of(directory: Option<PathView>, home: PathView) -> PathView {
    match directory {
        Some(dir) => dir,
        None => home.join("versions"@),
    }
}

impl Setting {
    /// The settings that apply: those read from the setting file or, where
    /// the file is missing or cannot be read, the built-in ones. A broken
    /// setting file never stops the shim.
    pub fn global(loaded: Loaded<Setting>, home: &NvmdHome) -> (r: Setting)
        ensures
            match loaded {
                Loaded::Read(setting) => r == setting,
                _ => opt_path(r.directory) == Some(home@.join("versions"@)) && opt_text(r.mirror)
                    == Some("https://nodejs.org/dist"@),
            },
    {
        match loaded {
            Loaded::Read(setting) => setting,
            _ => Setting {
                directory: Some(home.versions_dir()),
                mirror: Some("https://nodejs.org/dist".to_owned()),
            },
        }
    }

    /// The settings of a user who has set nothing.
    pub fn template() -> (r: Setting)
        ensures
            r.directory is None,
            opt_text(r.mirror) == Some("https://nodejs.org/dist"@),
    {
        Setting { directory: None, mirror: Some("https://nodejs.org/dist".to_owned()) }
    }

    /// The address that the versions are downloaded from.
    pub fn get_mirror(&self) -> (r: String)
        ensures
            r@ == match self.mirror {
                Some(mirror) => mirror@,
                None => "https://nodejs.org/dist"@,
            },
    {
        match &self.mirror {
            Some(mirror) => mirror.clone(),
            None => "https://nodejs.org/dist".to_owned(),
        }
    }

    /// The directory under which each version is installed.
    pub fn get_directory(&self, home: &NvmdHome) -> (r: NvmdPath)
        ensures
            r@ == directory_of(opt_path(self.directory), home@),
    {
        match &self.directory {
            Some(dir) => dir.clone(),
            None => home.versions_dir(),
        }
    }
}

/// The directory that the setting file names, if the file could be read and
/// names one.
pub fn get_directory(loaded: &Loaded<Setting>) -> (r: Option<NvmdPath>)
    ensures
        opt_path(r) == match *loaded {
            Loaded::Read(setting) => opt_path(setting.directory),
            _ => None,
        },
{
    match loaded {
        Loaded::Read(setting) => match &setting.directory {
            Some(dir) => Some(dir.clone()),
            None => None,
        },
        _ => None,
    }
}

} // verus!
