//! What can go wrong inside the shim itself.

use vstd::prelude::*;

verus! {

/// An internal failure. The failure of a child process is none: its exit
/// status is passed on as it is.
#[derive(Debug)]
pub enum NvmdError {
    /// Neither the user's home directory nor an override is known.
    HomeNotFound,
    /// The name under which the shim was called cannot be told.
    ToolNameUnknown,
    /// No `.nvmdrc` applies and no global default is set.
    NoDefaultVersion,
    /// The active version has no install directory.
    VersionNotInstalled(String),
    /// The version asked for has no working `node`.
    NotInstalled(String),
    /// The version asked for is nowhere under the versions directory.
    VersionNotFound(String),
    /// The binary is not among those of the active version.
    CommandNotFound(String),
    /// A group was named where only a version can stand.
    GroupOnlyForProjects(String),
    /// The group has no version yet.
    GroupVersionUnset(String),
    /// The regex crate has refused the pattern of version suffixes. It
    /// accepts the one that this crate hands to it.
    InvalidPattern,
    /// npm has named no directory as its global root.
    NoNpmPrefix,
    /// A registry file of the home directory is there but cannot be read
    /// as what it should hold.
    RegistryRead(String),
    /// A registry file of the home directory cannot be written.
    RegistryWrite(String),
    /// The operating system has not started the child process.
    ProcessSpawn(String),
}

/// The mathematical model of an [`NvmdError`].
pub enum ErrorView {
    HomeNotFound,
    ToolNameUnknown,
    NoDefaultVersion,
    VersionNotInstalled(Seq<char>),
    NotInstalled(Seq<char>),
    VersionNotFound(Seq<char>),
    CommandNotFound(Seq<char>),
    GroupOnlyForProjects(Seq<char>),
    GroupVersionUnset(Seq<char>),
    InvalidPattern,
    NoNpmPrefix,
    RegistryRead(Seq<char>),
    RegistryWrite(Seq<char>),
    ProcessSpawn(Seq<char>),
}

impl ErrorView {
    /// The line that tells the user of the failure.
    pub open spec fn message(self) -> Seq<char> {
        match self {
            ErrorView::HomeNotFound => "Could not determine home directory"@,
            ErrorView::ToolNameUnknown => "Could not determine tool name"@,
            ErrorView::NoDefaultVersion =>
                "The default Node version is not set, you can set it by executing \"nvmd use {version}\""@,
            ErrorView::VersionNotInstalled(version) => "Node@v"@ + version
                + " is not installed, please install it before using"@,
            ErrorView::NotInstalled(version) => "Node@v"@ + version + " has not been installed"@,
            ErrorView::VersionNotFound(version) => "the version cannot be found: v"@ + version,
            ErrorView::CommandNotFound(name) => "command not found: \""@ + name + "\""@,
            ErrorView::GroupOnlyForProjects(name) => "Group@"@ + name
                + " can only be used for projects"@,
            ErrorView::GroupVersionUnset(name) => "The Node.js version for group '"@ + name
                + "' has not been set yet"@,
            ErrorView::InvalidPattern => "The pattern of version suffixes is not valid"@,
            ErrorView::NoNpmPrefix => "No valid npm prefix found"@,
            ErrorView::RegistryRead(file) => "failed to read the file with json format \""@ + file
                + "\""@,
            ErrorView::RegistryWrite(file) => "failed to write the file \""@ + file + "\""@,
            ErrorView::ProcessSpawn(program) => "failed to start \""@ + program + "\""@,
        }
    }
}

impl View for NvmdError {
    type V = ErrorView;

    open spec fn view(&self) -> ErrorView {
        match self {
            NvmdError::HomeNotFound => ErrorView::HomeNotFound,
            NvmdError::ToolNameUnknown => ErrorView::ToolNameUnknown,
            NvmdError::NoDefaultVersion => ErrorView::NoDefaultVersion,
            NvmdError::VersionNotInstalled(version) => ErrorView::VersionNotInstalled(version@),
            NvmdError::NotInstalled(version) => ErrorView::NotInstalled(version@),
            NvmdError::VersionNotFound(version) => ErrorView::VersionNotFound(version@),
            NvmdError::CommandNotFound(name) => ErrorView::CommandNotFound(name@),
            NvmdError::GroupOnlyForProjects(name) => ErrorView::GroupOnlyForProjects(name@),
            NvmdError::GroupVersionUnset(name) => ErrorView::GroupVersionUnset(name@),
            NvmdError::InvalidPattern => ErrorView::InvalidPattern,
            NvmdError::NoNpmPrefix => ErrorView::NoNpmPrefix,
            NvmdError::RegistryRead(file) => ErrorView::RegistryRead(file@),
            NvmdError::RegistryWrite(file) => ErrorView::RegistryWrite(file@),
            NvmdError::ProcessSpawn(program) => ErrorView::ProcessSpawn(program@),
        }
    }
}

/// `before`, `middle` and `after` in a row.
fn framed(before: &str, middle: &str, after: &str) -> (r: String)
    ensures
        r@ == before@ + middle@ + after@,
{
    let mut line = before.to_owned();
    line.append(middle);
    line.append(after);
    line
}

impl NvmdError {
    /// The line that tells the user of the failure.
    pub fn message(&self) -> (r: String)
        ensures
            r@ == self@.message(),
    {
        match self {
            NvmdError::HomeNotFound => "Could not determine home directory".to_owned(),
            NvmdError::ToolNameUnknown => "Could not determine tool name".to_owned(),
            NvmdError::NoDefaultVersion =>
                "The default Node version is not set, you can set it by executing \"nvmd use {version}\"".to_owned(),
            NvmdError::VersionNotInstalled(version) => framed(
                "Node@v",
                version.as_str(),
                " is not installed, please install it before using",
            ),
            NvmdError::NotInstalled(version) => framed(
                "Node@v",
                version.as_str(),
                " has not been installed",
            ),
            NvmdError::VersionNotFound(version) => {
                let mut line = "the version cannot be found: v".to_owned();
                line.append(version.as_str());
                line
            },
            NvmdError::CommandNotFound(name) => framed("command not found: \"", name.as_str(), "\""),
            NvmdError::GroupOnlyForProjects(name) => framed(
                "Group@",
                name.as_str(),
                " can only be used for projects",
            ),
            NvmdError::GroupVersionUnset(name) => framed(
                "The Node.js version for group '",
                name.as_str(),
                "' has not been set yet",
            ),
            NvmdError::InvalidPattern => "The pattern of version suffixes is not valid".to_owned(),
            NvmdError::NoNpmPrefix => "No valid npm prefix found".to_owned(),
            NvmdError::RegistryRead(file) => framed(
                "failed to read the file with json format \"",
                file.as_str(),
                "\"",
            ),
            NvmdError::RegistryWrite(file) => framed(
                "failed to write the file \"",
                file.as_str(),
                "\"",
            ),
            NvmdError::ProcessSpawn(program) => framed(
                "failed to start \"",
                program.as_str(),
                "\"",
            ),
        }
    }
}

} // verus!
