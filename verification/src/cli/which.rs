//! `nvmd which <version>`: where a version is installed.

use vstd::prelude::*;
use crate::cli::{effects, outcome, probe_view, Command, Effect, EffectView, Session};
use crate::context::{bin_dir, bin_dir_of};
use crate::error::{ErrorView, NvmdError};
use crate::home::{NvmdPath, PathView, Platform};
use crate::text::{sanitize_version, sanitized};

verus! {

/// Show where a version is installed.
#[derive(Debug)]
pub struct Which {
    /// The version, with or without a `v` before it.
    pub version: String,
}

impl Which {
    /// The directory of the binaries of the version.
    pub open spec fn target(&self, dir: PathView, platform: Platform) -> PathView {
        bin_dir_of(dir, sanitized(self.version@), platform)
    }

    /// What the command comes to: the directory of the binaries of the
    /// version is shown if it is there; if not, the command fails and
    /// nothing else happens.
    pub open spec fn outcome_of(&self, dir: PathView, platform: Platform, present: bool) -> Result<
        Seq<EffectView>,
        ErrorView,
    > {
        if present {
            Ok(seq![EffectView::PrintPath { before: Seq::empty(), path: self.target(dir, platform) }])
        } else {
            Err(ErrorView::VersionNotFound(sanitized(self.version@)))
        }
    }
}

impl Command for Which {
    fn probe(&self, session: &Session) -> (r: Result<Option<NvmdPath>, NvmdError>)
        ensures
            probe_view(r) == Ok::<_, ErrorView>(
                Some(self.target(session.directory@, session.platform)),
            ),
    {
        let version = sanitize_version(self.version.as_str());
        Ok(Some(bin_dir(&session.directory, version.as_str(), session.platform)))
    }

    fn run(self, session: &mut Session, present: bool) -> (r: Result<Vec<Effect>, NvmdError>)
        ensures
            outcome(r) == self.outcome_of(
                old(session).directory@,
                old(session).platform,
                present,
            ),
            *final(session) == *old(session),
    {
        let version = sanitize_version(self.version.as_str());
        if !present {
            return Err(NvmdError::VersionNotFound(version));
        }
        let mut out: Vec<Effect> = Vec::new();
        out.push(
            Effect::PrintPath {
                before: String::new(),
                path: bin_dir(&session.directory, version.as_str(), session.platform),
            },
        );
        assert(effects(out@) =~= seq![
            EffectView::PrintPath {
                before: Seq::empty(),
                path: self.target(session.directory@, session.platform),
            },
        ]);
        Ok(out)
    }
}

} // verus!
