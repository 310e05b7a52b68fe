//! `nvmd uninstall <version>`: remove a version.

use vstd::prelude::*;
use crate::cli::{effects, outcome, probe_view, Command, Effect, EffectView, Session};
use crate::error::{ErrorView, NvmdError};
use crate::home::{NvmdPath, PathView};
use crate::notice::{Notice, NoticeView, Source};
use crate::text::{sanitize_version, sanitized};

verus! {

/// Remove a version.
#[derive(Debug)]
pub struct Uninstall {
    /// The version, with or without a `v` before it.
    pub version: String,
}

impl Uninstall {
    /// The install directory of the version.
    pub open spec fn target(&self, dir: PathView) -> PathView {
        dir.join(sanitized(self.version@))
    }

    /// What the command comes to: a version that is there is removed with
    /// all its files, and the companion application is told; one that is
    /// not there is refused.
    pub open spec fn outcome_of(&self, dir: PathView, present: bool) -> Result<
        Seq<EffectView>,
        ErrorView,
    > {
        let version = sanitized(self.version@);
        if present {
            Ok(
                seq![
                    EffectView::PrintPath {
                        before: "Removing Node@v"@ + version + " at: "@,
                        path: self.target(dir),
                    },
                    EffectView::RemoveDir { path: self.target(dir) },
                    EffectView::Print {
                        text: "Node@v"@ + version + " has been successfully uninstalled"@,
                        green: true,
                    },
                    EffectView::Notify(
                        NoticeView { source: Source::Version, name: None, version: None },
                    ),
                ],
            )
        } else {
            Err(ErrorView::NotInstalled(version))
        }
    }
}

impl Command for Uninstall {
    fn probe(&self, session: &Session) -> (r: Result<Option<NvmdPath>, NvmdError>)
        ensures
            probe_view(r) == Ok::<_, ErrorView>(Some(self.target(session.directory@))),
    {
        let version = sanitize_version(self.version.as_str());
        Ok(Some(session.directory.join(version.as_str())))
    }

    fn run(self, session: &mut Session, present: bool) -> (r: Result<Vec<Effect>, NvmdError>)
        ensures
            outcome(r) == self.outcome_of(old(session).directory@, present),
            *final(session) == *old(session),
    {
        let version = sanitize_version(self.version.as_str());
        if !present {
            return Err(NvmdError::NotInstalled(version));
        }
        let mut before = "Removing Node@v".to_owned();
        before.append(version.as_str());
        before.append(" at: ");
        let mut done = "Node@v".to_owned();
        done.append(version.as_str());
        done.append(" has been successfully uninstalled");
        let mut out: Vec<Effect> = Vec::new();
        out.push(Effect::PrintPath { before, path: session.directory.join(version.as_str()) });
        out.push(Effect::RemoveDir { path: session.directory.join(version.as_str()) });
        out.push(Effect::Print { text: done, green: true });
        out.push(Effect::Notify(Notice::from_version()));
        assert(effects(out@) =~= self.outcome_of(session.directory@, present)->Ok_0);
        Ok(out)
    }
}

} // verus!
