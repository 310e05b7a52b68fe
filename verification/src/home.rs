//! Where the persistent state lives: the home directory and the files in it.

use vstd::prelude::*;
use crate::error::{ErrorView, NvmdError};
use crate::text::{texts, clone_texts, lemma_texts_push};

verus! {

/// The two families of operating systems that the shim runs on.
#[derive(Clone, Copy, Debug, PartialEq, Eq, Structural)]
pub enum Platform {
    /// Case-sensitive names, binaries under `bin`, shims as symbolic links.
    Unix,
    /// Case-insensitive names with an `.exe` extension, shims as copies.
    Windows,
}

/// What reading a file of the home directory has come to.
#[derive(Debug)]
pub enum Loaded<T> {
    /// There is no such file.
    Missing,
    /// The file is there, but it cannot be read as what it should hold.
    Malformed,
    /// The file holds this.
    Read(T),
}

/// A path as this crate computes it: a directory, given as text, and the
/// names joined to it one after the other.
#[derive(Debug)]
pub struct NvmdPath {
    /// The directory that the path starts from.
    pub base: String,
    /// The names joined to `base`, outermost first.
    pub parts: Vec<String>,
}

/// The mathematical model of an [`NvmdPath`].
pub struct PathView {
    pub base: Seq<char>,
    pub parts: Seq<Seq<char>>,
}

impl PathView {
    /// The path with one more name joined to it.
    pub open spec fn join(self, name: Seq<char>) -> PathView {
        PathView { base: self.base, parts: self.parts.push(name) }
    }
}

impl View for NvmdPath {
    type V = PathView;

    open spec fn view(&self) -> PathView {
        PathView { base: self.base@, parts: texts(self.parts@) }
    }
}

impl Clone for NvmdPath {
    fn clone(&self) -> (r: Self)
        ensures
            r@ == self@,
    {
        NvmdPath { base: self.base.clone(), parts: clone_texts(&self.parts) }
    }
}

impl NvmdPath {
    /// The path that is the directory `base` itself.
    pub fn new(base: String) -> (r: Self)
        ensures
            r@ == (PathView { base: base@, parts: Seq::empty() }),
    {
        let r = NvmdPath { base, parts: Vec::new() };
        assert(texts(r.parts@) =~= Seq::empty());
        r
    }

    /// The path of `name` inside this path.
    pub fn join(&self, name: &str) -> (r: Self)
        ensures
            r@ == self@.join(name@),
    {
        let mut parts = clone_texts(&self.parts);
        let ghost before = parts@;
        let owned = name.to_owned();
        parts.push(owned);
        proof {
            lemma_texts_push(before, owned);
        }
        NvmdPath { base: self.base.clone(), parts }
    }
}

/// The home directory of the shim and the layout of the files in it.
#[derive(Debug)]
pub struct NvmdHome(NvmdPath);

impl View for NvmdHome {
    type V = PathView;

    closed spec fn view(&self) -> PathView {
        self.0@
    }
}

impl NvmdHome {
    pub fn new(home: NvmdPath) -> (r: Self)
        ensures
            r@ == home@,
    {
        NvmdHome(home)
    }

    /// The home directory itself.
    pub fn home(&self) -> (r: &NvmdPath)
        ensures
            r@ == self@,
    {
        &self.0
    }

    /// The directory of the shim executables.
    pub fn bin_dir(&self) -> (r: NvmdPath)
        ensures
            r@ == self@.join("bin"@),
    {
        self.0.join("bin")
    }

    /// The directory under which each version is installed, unless the
    /// settings name another.
    pub fn versions_dir(&self) -> (r: NvmdPath)
        ensures
            r@ == self@.join("versions"@),
    {
        self.0.join("versions")
    }

    /// The file that holds the global default version.
    pub fn default_path(&self) -> (r: NvmdPath)
        ensures
            r@ == self@.join("default"@),
    {
        self.0.join("default")
    }

    pub fn setting_path(&self) -> (r: NvmdPath)
        ensures
            r@ == self@.join("setting.json"@),
    {
        self.0.join("setting.json")
    }

    pub fn projects_path(&self) -> (r: NvmdPath)
        ensures
            r@ == self@.join("projects.json"@),
    {
        self.0.join("projects.json")
    }

    pub fn groups_path(&self) -> (r: NvmdPath)
        ensures
            r@ == self@.join("groups.json"@),
    {
        self.0.join("groups.json")
    }

    pub fn packages_path(&self) -> (r: NvmdPath)
        ensures
            r@ == self@.join("packages.json"@),
    {
        self.0.join("packages.json")
    }
}

/// The home of the state directory: `.nvmd` under the user's home
/// directory, if the user has one.
pub open spec fn default_home(user_home: Option<Seq<char>>) -> Option<PathView> {
    match user_home {
        Some(dir) => Some(PathView { base: dir, parts: seq![".nvmd"@] }),
        None => None,
    }
}

/// The state directory under the user's home directory.
pub fn get_nvmd_path(user_home: Option<String>) -> (r: Result<NvmdPath, NvmdError>)
    ensures
        match default_home(crate::text::opt_text(user_home)) {
            Some(p) => r is Ok && r->Ok_0@ == p,
            None => r is Err && r->Err_0@ == ErrorView::HomeNotFound,
        },
{
    match user_home {
        Some(dir) => {
            let r = NvmdPath::new(dir).join(".nvmd");
            Ok(r)
        },
        None => Err(NvmdError::HomeNotFound),
    }
}

/// The home of the shim: the directory that the environment names, else
/// `.nvmd` under the user's home directory.
pub fn nvmd_home(env_home: Option<String>, user_home: Option<String>) -> (r: Result<
    NvmdHome,
    NvmdError,
>)
    ensures
        match env_home {
            Some(dir) => r is Ok && r->Ok_0@ == (PathView { base: dir@, parts: Seq::empty() }),
            None => match default_home(crate::text::opt_text(user_home)) {
                Some(p) => r is Ok && r->Ok_0@ == p,
                None => r is Err && r->Err_0@ == ErrorView::HomeNotFound,
            },
        },
{
    match env_home {
        Some(dir) => Ok(NvmdHome::new(NvmdPath::new(dir))),
        None => match get_nvmd_path(user_home) {
            Ok(path) => Ok(NvmdHome::new(path)),
            Err(e) => Err(e),
        },
    }
}

} // verus!
