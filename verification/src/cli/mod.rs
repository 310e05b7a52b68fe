//! The shim's own command line: what each subcommand does, given what it
//! finds, as a list of effects for the caller to carry out.

use vstd::prelude::*;

pub mod current;
pub mod install;
pub mod list;
pub mod uninstall;
pub mod use_version;
pub mod version;
pub mod which;

use crate::cli::current::Current;
use crate::cli::install::Install;
use crate::cli::list::List;
use crate::cli::uninstall::Uninstall;
use crate::cli::use_version::Use;
use crate::cli::which::Which;
use crate::context::Context;
use crate::error::NvmdError;
use crate::group::Groups;
use crate::home::{NvmdHome, NvmdPath, PathView, Platform};
use crate::notice::{Notice, NoticeView};
use crate::project::Projects;

verus! {

/// What a subcommand finds when it runs.
#[derive(Debug)]
pub struct Session {
    pub home: NvmdHome,
    pub platform: Platform,
    /// The directory under which each version is installed.
    pub directory: NvmdPath,
    /// The active version.
    pub context: Context,
    /// The names found in `directory`.
    pub entries: Vec<String>,
    pub groups: Groups,
    pub projects: Projects,
    /// The working directory.
    pub project_path: String,
    /// The name of the working directory.
    pub project_name: String,
}

/// What of the session a subcommand reads. What it does not read may be
/// left empty, and a file that it does not read cannot fail it.
#[derive(Clone, Copy, Debug, PartialEq, Eq, Structural)]
pub struct Needs {
    /// The names in the versions directory.
    pub entries: bool,
    /// The group registry.
    pub groups: bool,
    /// The project registry.
    pub projects: bool,
}

/// One thing for the caller to do. The effects of a command are carried out
/// in order; the first that fails ends the command, but for `Notify`, whose
/// failure is passed over.
#[derive(Debug)]
pub enum Effect {
    /// Print the line `text` to standard error, in green where `green`.
    Print { text: String, green: bool },
    /// Print `before` and the path `path`, in one line, to standard error.
    PrintPath { before: String, path: NvmdPath },
    /// Write `content` to the file `path`.
    WriteFile { path: NvmdPath, content: String },
    /// Remove the directory `path` and all in it.
    RemoveDir { path: NvmdPath },
    /// Save the project registry of the session.
    SaveProjects,
    /// Save the group registry of the session.
    SaveGroups,
    /// Fetch and install the version `version`.
    Fetch { version: String },
    /// Tell the companion application.
    Notify(Notice),
}

/// The mathematical model of an [`Effect`].
pub enum EffectView {
    Print { text: Seq<char>, green: bool },
    PrintPath { before: Seq<char>, path: PathView },
    WriteFile { path: PathView, content: Seq<char> },
    RemoveDir { path: PathView },
    SaveProjects,
    SaveGroups,
    Fetch { version: Seq<char> },
    Notify(NoticeView),
}

impl View for Effect {
    type V = EffectView;

    open spec fn view(&self) -> EffectView {
        match self {
            Effect::Print { text, green } => EffectView::Print { text: text@, green: *green },
            Effect::PrintPath { before, path } => EffectView::PrintPath {
                before: before@,
                path: path@,
            },
            Effect::WriteFile { path, content } => EffectView::WriteFile {
                path: path@,
                content: content@,
            },
            Effect::RemoveDir { path } => EffectView::RemoveDir { path: path@ },
            Effect::SaveProjects => EffectView::SaveProjects,
            Effect::SaveGroups => EffectView::SaveGroups,
            Effect::Fetch { version } => EffectView::Fetch { version: version@ },
            Effect::Notify(notice) => EffectView::Notify(notice@),
        }
    }
}

/// The models of a list of effects, in order.
pub open spec fn effects(list: Seq<Effect>) -> Seq<EffectView> {
    Seq::new(list.len(), |i: int| list[i]@)
}

/// The model of what a command comes to.
pub open spec fn outcome(r: Result<Vec<Effect>, NvmdError>) -> Result<
    Seq<EffectView>,
    crate::error::ErrorView,
> {
    match r {
        Ok(list) => Ok(effects(list@)),
        Err(e) => Err(e@),
    }
}

/// The model of a path that may have to be looked for.
pub open spec fn probe_view(r: Result<Option<NvmdPath>, NvmdError>) -> Result<
    Option<PathView>,
    crate::error::ErrorView,
> {
    match r {
        Ok(Some(path)) => Ok(Some(path@)),
        Ok(None) => Ok(None),
        Err(e) => Err(e@),
    }
}

/// A subcommand of the shim's own command line.
pub trait Command: Sized {
    /// The file or directory that the command has to know the presence of,
    /// if there is one.
    fn probe(&self, session: &Session) -> Result<Option<NvmdPath>, NvmdError>;

    /// What the command does. `present` says whether what `probe` names is
    /// there.
    fn run(self, session: &mut Session, present: bool) -> Result<Vec<Effect>, NvmdError>;
}

/// The subcommands.
#[derive(Debug)]
pub enum Subcommand {
    /// Show the active version.
    Current(Current),
    /// Install a version.
    Install(Install),
    /// List the installed versions, or the groups.
    List(List),
    /// The same as `List`.
    Ls(List),
    /// Remove a version.
    Uninstall(Uninstall),
    /// Pin a version, globally or for the project.
    Use(Use),
    /// Show where a version is installed.
    Which(Which),
}

impl Subcommand {
    /// What of the session the subcommand reads: a listing reads the
    /// versions directory or the groups, a pin the groups and, for a
    /// project, the projects.
    pub fn needs(&self) -> (r: Needs)
        ensures
            r == match *self {
                Subcommand::List(c) | Subcommand::Ls(c) => Needs {
                    entries: !c.group,
                    groups: c.group,
                    projects: false,
                },
                Subcommand::Use(c) => Needs { entries: false, groups: true, projects: c.project },
                _ => Needs { entries: false, groups: false, projects: false },
            },
    {
        match self {
            Subcommand::List(c) | Subcommand::Ls(c) => Needs {
                entries: !c.group,
                groups: c.group,
                projects: false,
            },
            Subcommand::Use(c) => Needs { entries: false, groups: true, projects: c.project },
            _ => Needs { entries: false, groups: false, projects: false },
        }
    }

    /// The file or directory that the subcommand has to know the presence
    /// of: that of the command it stands for.
    pub fn probe(&self, session: &Session) -> (r: Result<Option<NvmdPath>, NvmdError>)
        ensures
            probe_view(r) == match *self {
                Subcommand::Current(_) | Subcommand::Install(_) | Subcommand::List(_)
                | Subcommand::Ls(_) => Ok(None),
                Subcommand::Uninstall(c) => Ok(Some(c.target(session.directory@))),
                Subcommand::Use(c) => c.probe_of(
                    session.groups@,
                    session.directory@,
                    session.platform,
                ),
                Subcommand::Which(c) => Ok(Some(c.target(session.directory@, session.platform))),
            },
    {
        match self {
            Subcommand::Current(c) => c.probe(session),
            Subcommand::Install(c) => c.probe(session),
            Subcommand::List(c) => c.probe(session),
            Subcommand::Ls(c) => c.probe(session),
            Subcommand::Uninstall(c) => c.probe(session),
            Subcommand::Use(c) => c.probe(session),
            Subcommand::Which(c) => c.probe(session),
        }
    }

    /// What the subcommand does: what the command it stands for does.
    /// `present` says whether what `probe` names is there.
    pub fn run(self, session: &mut Session, present: bool) -> (r: Result<Vec<Effect>, NvmdError>)
        ensures
            match self {
                Subcommand::Current(_) => *final(session) == *old(session) && outcome(r) == Ok::<
                    _,
                    crate::error::ErrorView,
                >(crate::cli::current::current_effects(
                    crate::text::opt_text(old(session).context.version),
                )),
                Subcommand::Install(c) => *final(session) == *old(session) && outcome(r) == Ok::<
                    _,
                    crate::error::ErrorView,
                >(crate::cli::install::install_effects(c.version@)),
                Subcommand::List(c) | Subcommand::Ls(c) => *final(session) == *old(session)
                    && outcome(r) == Ok::<_, crate::error::ErrorView>(
                    c.lines(
                        crate::text::texts(old(session).entries@),
                        crate::text::opt_text(old(session).context.version),
                        old(session).groups@,
                    ),
                ),
                Subcommand::Uninstall(c) => *final(session) == *old(session) && outcome(r)
                    == c.outcome_of(old(session).directory@, present),
                Subcommand::Use(c) => c.pinned(*old(session), *final(session), present, outcome(r)),
                Subcommand::Which(c) => *final(session) == *old(session) && outcome(r)
                    == c.outcome_of(old(session).directory@, old(session).platform, present),
            },
    {
        match self {
            Subcommand::Current(c) => c.run(session, present),
            Subcommand::Install(c) => c.run(session, present),
            Subcommand::List(c) => c.run(session, present),
            Subcommand::Ls(c) => c.run(session, present),
            Subcommand::Uninstall(c) => c.run(session, present),
            Subcommand::Use(c) => c.run(session, present),
            Subcommand::Which(c) => c.run(session, present),
        }
    }
}

} // verus!
