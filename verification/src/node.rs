//! The Node distributions: how their archives are named and where they are
//! downloaded from.

use vstd::prelude::*;
use crate::home::Platform;

verus! {

/// The name of a distribution without its extension: `node-v`, the version,
/// the operating system and the architecture, parted by dashes.
pub open spec fn basename_of(version: Seq<char>, os: Seq<char>, arch: Seq<char>) -> Seq<char> {
    "node-v"@ + version + "-"@ + os + "-"@ + arch
}

/// The extension of the archives of a platform: `zip` on Windows, `tar.gz`
/// on Unix.
pub open spec fn extension_of(platform: Platform) -> Seq<char> {
    match platform {
        Platform::Unix => "tar.gz"@,
        Platform::Windows => "zip"@,
    }
}

/// A tool and its version as messages show them: `node@18.0.0`.
pub open spec fn tool_version_of(name: Seq<char>, version: Seq<char>) -> Seq<char> {
    name + "@"@ + version
}

/// The address of a distribution: the mirror, the version directory and the
/// archive, parted by slashes.
pub open spec fn remote_url_of(mirror: Seq<char>, version: Seq<char>, file: Seq<char>) -> Seq<
    char,
> {
    mirror + "/v"@ + version + "/"@ + file
}

/// A tool and its version as messages show them.
pub fn tool_version(name: &str, version: &str) -> (r: String)
    ensures
        r@ == tool_version_of(name@, version@),
{
    let mut text = name.to_owned();
    text.append("@");
    text.append(version);
    text
}

/// The address that the archive `distro_file_name` of `version` is
/// downloaded from.
pub fn determine_remote_url(mirror: &str, version: &str, distro_file_name: &str) -> (r: String)
    ensures
        r@ == remote_url_of(mirror@, version@, distro_file_name@),
{
    let mut url = mirror.to_owned();
    url.append("/v");
    url.append(version);
    url.append("/");
    url.append(distro_file_name);
    url
}

/// The extension of the archives of `platform`.
pub fn archive_extension(platform: Platform) -> (r: &'static str)
    ensures
        r@ == extension_of(platform),
{
    match platform {
        Platform::Unix => "tar.gz",
        Platform::Windows => "zip",
    }
}

/// One version of Node, to be fetched.
#[derive(Debug)]
pub struct Node {
    pub version: String,
}

impl Node {
    pub fn new(version: String) -> (r: Self)
        ensures
            r.version == version,
    {
        Node { version }
    }

    /// The directory that the archive of the version unpacks to.
    pub fn archive_basename(&self, os: &str, arch: &str) -> (r: String)
        ensures
            r@ == basename_of(self.version@, os@, arch@),
    {
        let mut name = "node-v".to_owned();
        name.append(self.version.as_str());
        name.append("-");
        name.append(os);
        name.append("-");
        name.append(arch);
        name
    }

    /// The file name of the archive of the version.
    pub fn archive_filename(&self, os: &str, arch: &str, platform: Platform) -> (r: String)
        ensures
            r@ == basename_of(self.version@, os@, arch@) + "."@ + extension_of(platform),
    {
        let mut name = self.archive_basename(os, arch);
        name.append(".");
        name.append(archive_extension(platform));
        name
    }
}

} // verus!
