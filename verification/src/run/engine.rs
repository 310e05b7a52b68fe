//! `node` and `npx`: passed through to the active version.

use vstd::prelude::*;
use crate::context::Context;
use crate::error::NvmdError;
use crate::home::{NvmdPath, Platform};
use crate::run::{launch, launch_of, launch_view, Launch};
use crate::text::{opt_text, texts};

verus! {

/// The child to start for `node` or `npx`.
pub fn command(
    context: &Context,
    dir: &NvmdPath,
    platform: Platform,
    installed: bool,
    inherited: &Vec<String>,
    exe: &str,
    args: &Vec<String>,
) -> (r: Result<Launch, NvmdError>)
    ensures
        launch_view(r) == launch_of(
            opt_text(context.version),
            dir@,
            platform,
            installed,
            texts(inherited@),
            exe@,
            texts(args@),
        ),
{
    launch(context, dir, platform, installed, inherited, exe, args)
}

} // verus!
