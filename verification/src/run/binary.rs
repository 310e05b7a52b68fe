//! Any other binary: passed through if the active version has it.

use vstd::prelude::*;
use crate::context::{bin_dir_of, Context};
use crate::error::{ErrorView, NvmdError};
use crate::home::{NvmdPath, PathView, Platform};
use crate::run::{launch, launch_of, launch_view, Launch, LaunchView};
use crate::text::{opt_text, texts};

verus! {

/// The file of the binary `exe` under the active version, if there is an
/// active version.
pub fn target(context: &Context, dir: &NvmdPath, platform: Platform, exe: &str) -> (r: Option<
    NvmdPath,
>)
    ensures
        match context.version {
            Some(version) => r is Some && r->Some_0@ == bin_dir_of(dir@, version@, platform).join(
                exe@,
            ),
            None => r is None,
        },
{
    match context.bin_path(dir, platform) {
        Some(bin) => Some(bin.join(exe)),
        None => None,
    }
}

/// What the start of the binary `exe` comes to: as the start of any tool,
/// but a binary that the active version does not have is not started.
pub open spec fn binary_launch_of(
    version: Option<Seq<char>>,
    dir: PathView,
    platform: Platform,
    installed: bool,
    present: bool,
    inherited: Seq<Seq<char>>,
    exe: Seq<char>,
    args: Seq<Seq<char>>,
) -> Result<LaunchView, ErrorView> {
    match launch_of(version, dir, platform, installed, inherited, exe, args) {
        Ok(launch) => if present {
            Ok(launch)
        } else {
            Err(ErrorView::CommandNotFound(exe))
        },
        Err(e) => Err(e),
    }
}

/// The child to start for the binary `exe`. `present` says whether the file
/// that `target` names exists.
pub fn command(
    context: &Context,
    dir: &NvmdPath,
    platform: Platform,
    installed: bool,
    present: bool,
    inherited: &Vec<String>,
    exe: &str,
    args: &Vec<String>,
) -> (r: Result<Launch, NvmdError>)
    ensures
        launch_view(r) == binary_launch_of(
            opt_text(context.version),
            dir@,
            platform,
            installed,
            present,
            texts(inherited@),
            exe@,
            texts(args@),
        ),
{
    match launch(context, dir, platform, installed, inherited, exe, args) {
        Ok(child) => if present {
            Ok(child)
        } else {
            Err(NvmdError::CommandNotFound(exe.to_owned()))
        },
        Err(e) => Err(e),
    }
}

} // verus!
