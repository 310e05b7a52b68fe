//! `nvmd install <version>`: fetch a version and install it.

use vstd::prelude::*;
use crate::cli::{effects, outcome, probe_view, Command, Effect, EffectView, Session};
use crate::error::NvmdError;
use crate::home::NvmdPath;
use crate::notice::{Notice, NoticeView, Source};
use crate::text::{sanitize_version, sanitized};

verus! {

/// Install a version.
#[derive(Debug)]
pub struct Install {
    /// The version, with or without a `v` before it.
    pub version: String,
}

/// The version is fetched, and the companion application is told that the
/// set of versions has changed.
pub open spec fn install_effects(version: Seq<char>) -> Seq<EffectView> {
    seq![
        EffectView::Fetch { version: sanitized(version) },
        EffectView::Notify(NoticeView { source: Source::Version, name: None, version: None }),
    ]
}

impl Command for Install {
    fn probe(&self, session: &Session) -> (r: Result<Option<NvmdPath>, NvmdError>)
        ensures
            probe_view(r) == Ok::<_, crate::error::ErrorView>(None::<crate::home::PathView>),
    {
        Ok(None)
    }

    fn run(self, session: &mut Session, present: bool) -> (r: Result<Vec<Effect>, NvmdError>)
        ensures
            outcome(r) == Ok::<_, crate::error::ErrorView>(install_effects(self.version@)),
            *final(session) == *old(session),
    {
        let mut out: Vec<Effect> = Vec::new();
        out.push(Effect::Fetch { version: sanitize_version(self.version.as_str()) });
        out.push(Effect::Notify(Notice::from_version()));
        assert(effects(out@) =~= install_effects(self.version@));
        Ok(out)
    }
}

} // verus!
