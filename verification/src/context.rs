//! The version context: which Node version is active for this call, and the
//! `PATH` under which its binaries are found first.

use vstd::prelude::*;
use crate::error::{ErrorView, NvmdError};
use crate::home::{NvmdPath, PathView, Platform};
use crate::text::{
    is_whitespace_char, lemma_trimmed_unchanged, opt_text, texts, trim, trimmed,
};

verus! {

/// The version that the content of a version file names: the content
/// without the white space around it, unless nothing is left or there is no
/// file.
pub open spec fn version_in(content: Option<Seq<char>>) -> Option<Seq<char>> {
    match content {
        Some(text) => if trimmed(text).len() > 0 {
            Some(trimmed(text))
        } else {
            None
        },
        None => None,
    }
}

/// The contents of a list of version files, in order.
pub open spec fn contents(files: Seq<Option<String>>) -> Seq<Option<Seq<char>>> {
    Seq::new(files.len(), |i: int| opt_text(files[i]))
}

/// The version that the files from the place `from` on resolve to.
pub open spec fn resolved_from(
    nvmdrc: Seq<Option<Seq<char>>>,
    from: int,
    default: Option<Seq<char>>,
) -> Option<Seq<char>>
    decreases nvmdrc.len() - from,
{
    if from < 0 || from >= nvmdrc.len() {
        version_in(default)
    } else if version_in(nvmdrc[from]) is Some {
        version_in(nvmdrc[from])
    } else {
        resolved_from(nvmdrc, from + 1, default)
    }
}

/// The active version: that of the nearest `.nvmdrc` that names one, else
/// that of the global default file.
///
/// `nvmdrc` holds, for the working directory and then for each of its
/// ancestors up to the root, the content of the `.nvmdrc` in it, if there is
/// one; `default` is the content of the global default file, if there is one.
pub open spec fn resolved(nvmdrc: Seq<Option<Seq<char>>>, default: Option<Seq<char>>) -> Option<
    Seq<char>,
> {
    resolved_from(nvmdrc, 0, default)
}

/// The version that the content of a version file names.
pub fn version_of(content: &Option<String>) -> (r: Option<String>)
    ensures
        opt_text(r) == version_in(opt_text(*content)),
{
    match content {
        Some(text) => {
            let version = trim(text.as_str());
            if version.as_str().unicode_len() > 0 {
                Some(version)
            } else {
                None
            }
        },
        None => None,
    }
}

/// The active version, out of the `.nvmdrc` files from the working
/// directory upward and of the global default file.
pub fn get_version(nvmdrc: &Vec<Option<String>>, default: &Option<String>) -> (r: Option<String>)
    ensures
        opt_text(r) == resolved(contents(nvmdrc@), opt_text(*default)),
{
    let mut i: usize = 0;
    while i < nvmdrc.len()
        invariant
            i <= nvmdrc.len(),
            resolved_from(contents(nvmdrc@), i as int, opt_text(*default)) == resolved(
                contents(nvmdrc@),
                opt_text(*default),
            ),
        decreases nvmdrc.len() - i,
    {
        let found = version_of(&nvmdrc[i]);
        if found.is_some() {
            return found;
        }
        i += 1;
    }
    version_of(default)
}

/// The directory of the binaries of `version` under the versions directory
/// `dir`: the install directory itself on Windows, `bin` in it on Unix.
pub open spec fn bin_dir_of(dir: PathView, version: Seq<char>, platform: Platform) -> PathView {
    match platform {
        Platform::Unix => dir.join(version).join("bin"@),
        Platform::Windows => dir.join(version),
    }
}

/// The directory of the binaries of `version` under the versions directory.
pub fn bin_dir(dir: &NvmdPath, version: &str, platform: Platform) -> (r: NvmdPath)
    ensures
        r@ == bin_dir_of(dir@, version@, platform),
{
    let install = dir.join(version);
    match platform {
        Platform::Unix => install.join("bin"),
        Platform::Windows => install,
    }
}

/// The models of a list of paths, in order.
pub open spec fn paths(list: Seq<NvmdPath>) -> Seq<PathView> {
    Seq::new(list.len(), |i: int| list[i]@)
}

/// The directories of a `PATH`, each as a path of its own.
pub open spec fn entries_of(inherited: Seq<Seq<char>>) -> Seq<PathView> {
    Seq::new(inherited.len(), |i: int| PathView { base: inherited[i], parts: Seq::empty() })
}

/// The version that this call of the shim works with.
#[derive(Debug)]
pub struct Context {
    /// The active version, if a version file names one.
    pub version: Option<String>,
}

impl Context {
    /// The context of a call: the version that the `.nvmdrc` files from the
    /// working directory upward and the global default file resolve to.
    pub fn global(nvmdrc: &Vec<Option<String>>, default: &Option<String>) -> (r: Context)
        ensures
            opt_text(r.version) == resolved(contents(nvmdrc@), opt_text(*default)),
    {
        Context { version: get_version(nvmdrc, default) }
    }

    pub fn get_version(&self) -> (r: Option<String>)
        ensures
            opt_text(r) == opt_text(self.version),
    {
        match &self.version {
            Some(version) => Some(version.clone()),
            None => None,
        }
    }

    /// The directory whose presence shows that the active version is
    /// installed, if there is an active version.
    pub fn bin_path(&self, dir: &NvmdPath, platform: Platform) -> (r: Option<NvmdPath>)
        ensures
            match self.version {
                Some(version) => r is Some && r->Some_0@ == bin_dir_of(dir@, version@, platform),
                None => r is None,
            },
    {
        match &self.version {
            Some(version) => Some(bin_dir(dir, version.as_str(), platform)),
            None => None,
        }
    }

    /// The `PATH` for the child process: the directory of the binaries of
    /// the active version, then every directory of the inherited `PATH` in
    /// its order, none left out and none merged.
    ///
    /// `installed` says whether the directory that `bin_path` names exists.
    /// Without an active version the call fails with `NoDefaultVersion`,
    /// with one that is not installed with `VersionNotInstalled`.
    pub fn env_path(
        &self,
        dir: &NvmdPath,
        platform: Platform,
        installed: bool,
        inherited: &Vec<String>,
    ) -> (r: Result<Vec<NvmdPath>, NvmdError>)
        ensures
            match self.version {
                None => r is Err && r->Err_0@ == ErrorView::NoDefaultVersion,
                Some(version) => if installed {
                    r is Ok && paths(r->Ok_0@) == seq![bin_dir_of(dir@, version@, platform)]
                        + entries_of(texts(inherited@))
                } else {
                    r is Err && r->Err_0@ == ErrorView::VersionNotInstalled(version@)
                },
            },
    {
        let version = match &self.version {
            Some(version) => version,
            None => {
                return Err(NvmdError::NoDefaultVersion);
            },
        };
        if !installed {
            return Err(NvmdError::VersionNotInstalled(version.clone()));
        }
        let mut out: Vec<NvmdPath> = Vec::new();
        out.push(bin_dir(dir, version.as_str(), platform));
        let ghost head = seq![bin_dir_of(dir@, version@, platform)];
        let ghost rest = entries_of(texts(inherited@));
        let mut i: usize = 0;
        while i < inherited.len()
            invariant
                i <= inherited.len(),
                rest == entries_of(texts(inherited@)),
                paths(out@) == head + rest.take(i as int),
            decreases inherited.len() - i,
        {
            let entry = NvmdPath::new(inherited[i].clone());
            out.push(entry);
            proof {
                assert(head + rest.take(i + 1) =~= (head + rest.take(i as int)).push(
                    rest[i as int],
                ));
            }
            i += 1;
        }
        Ok(out)
    }
}

/// The nearest `.nvmdrc` that names a version decides, whatever the files
/// farther up and the global default say; the global default decides where
/// no `.nvmdrc` names a version.
pub proof fn lemma_nearest_nvmdrc_decides(
    nvmdrc: Seq<Option<Seq<char>>>,
    default: Option<Seq<char>>,
    nearest: int,
)
    requires
        0 <= nearest <= nvmdrc.len(),
        forall|i: int| 0 <= i < nearest ==> version_in(nvmdrc[i]) is None,
        nearest < nvmdrc.len() ==> version_in(nvmdrc[nearest]) is Some,
    ensures
        resolved(nvmdrc, default) == if nearest < nvmdrc.len() {
            version_in(nvmdrc[nearest])
        } else {
            version_in(default)
        },
{
    lemma_resolved_from(nvmdrc, default, nearest, 0);
}

proof fn lemma_resolved_from(
    nvmdrc: Seq<Option<Seq<char>>>,
    default: Option<Seq<char>>,
    nearest: int,
    from: int,
)
    requires
        0 <= from <= nearest <= nvmdrc.len(),
        forall|i: int| 0 <= i < nearest ==> version_in(nvmdrc[i]) is None,
        nearest < nvmdrc.len() ==> version_in(nvmdrc[nearest]) is Some,
    ensures
        resolved_from(nvmdrc, from, default) == if nearest < nvmdrc.len() {
            version_in(nvmdrc[nearest])
        } else {
            version_in(default)
        },
    decreases nearest - from,
{
    if from < nearest {
        lemma_resolved_from(nvmdrc, default, nearest, from + 1);
    }
}

/// A version file whose content is not empty and neither begins nor ends
/// with white space names its content as the version.
pub proof fn lemma_plain_version_file(content: Seq<char>)
    requires
        content.len() > 0,
        !is_whitespace_char(content[0]),
        !is_whitespace_char(content.last()),
    ensures
        version_in(Some(content)) == Some(content),
{
    lemma_trimmed_unchanged(content);
}

} // verus!
