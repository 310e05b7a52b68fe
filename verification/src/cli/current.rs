//! `nvmd current`: the active version.

use vstd::prelude::*;
use crate::cli::{effects, outcome, probe_view, Command, Effect, EffectView, Session};
use crate::error::NvmdError;
use crate::home::NvmdPath;
use crate::text::opt_text;

verus! {

/// Show the active version.
#[derive(Debug)]
pub struct Current {}

/// The line that shows the active version, if there is one.
pub open spec fn current_effects(version: Option<Seq<char>>) -> Seq<EffectView> {
    match version {
        Some(version) => seq![EffectView::Print { text: "v"@ + version, green: false }],
        None => Seq::empty(),
    }
}

impl Command for Current {
    fn probe(&self, session: &Session) -> (r: Result<Option<NvmdPath>, NvmdError>)
        ensures
            probe_view(r) == Ok::<_, crate::error::ErrorView>(None::<crate::home::PathView>),
    {
        Ok(None)
    }

    fn run(self, session: &mut Session, present: bool) -> (r: Result<Vec<Effect>, NvmdError>)
        ensures
            outcome(r) == Ok::<_, crate::error::ErrorView>(
                current_effects(opt_text(old(session).context.version)),
            ),
            *final(session) == *old(session),
    {
        let mut out: Vec<Effect> = Vec::new();
        match &session.context.version {
            Some(version) => {
                let mut text = "v".to_owned();
                text.append(version.as_str());
                out.push(Effect::Print { text, green: false });
                assert(effects(out@) =~= current_effects(opt_text(session.context.version)));
            },
            None => {
                assert(effects(out@) =~= current_effects(opt_text(session.context.version)));
            },
        }
        Ok(out)
    }
}

} // verus!
