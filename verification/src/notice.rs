//! What the companion application is told after a change of versions.

use vstd::prelude::*;
use crate::text::opt_text;

verus! {

/// What has changed.
#[derive(Clone, Copy, Debug, PartialEq, Eq, Structural)]
pub enum Source {
    /// The global default version.
    Current,
    /// The set of installed versions.
    Version,
    /// The version of a project.
    Project,
}

/// One message to the companion application.
#[derive(Debug)]
pub struct Notice {
    pub source: Source,
    pub name: Option<String>,
    pub version: Option<String>,
}

/// The mathematical model of a [`Notice`].
pub struct NoticeView {
    pub source: Source,
    pub name: Option<Seq<char>>,
    pub version: Option<Seq<char>>,
}

impl View for Notice {
    type V = NoticeView;

    open spec fn view(&self) -> NoticeView {
        NoticeView {
            source: self.source,
            name: opt_text(self.name),
            version: opt_text(self.version),
        }
    }
}

impl Notice {
    /// The global default is now `version`.
    pub fn from_current(version: String) -> (r: Self)
        ensures
            r.source == Source::Current,
            r.name is None,
            r.version == Some(version),
    {
        Notice { source: Source::Current, name: None, version: Some(version) }
    }

    /// A version was installed or removed.
    pub fn from_version() -> (r: Self)
        ensures
            r.source == Source::Version,
            r.name is None,
            r.version is None,
    {
        Notice { source: Source::Version, name: None, version: None }
    }

    /// The project `name` is now pinned to `version`.
    pub fn from_project(name: String, version: String) -> (r: Self)
        ensures
            r.source == Source::Project,
            r.name == Some(name),
            r.version == Some(version),
    {
        Notice { source: Source::Project, name: Some(name), version: Some(version) }
    }

    /// The word for `source` in the message.
    pub fn source_name(&self) -> (r: &'static str)
        ensures
            r@ == match self.source {
                Source::Current => "current"@,
                Source::Version => "version"@,
                Source::Project => "project"@,
            },
    {
        match self.source {
            Source::Current => "current",
            Source::Version => "version",
            Source::Project => "project",
        }
    }
}

} // verus!
