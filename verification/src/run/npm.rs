//! `npm`: started as any binary, with its command line read beforehand.

use vstd::prelude::*;
use crate::context::Context;
use crate::error::{ErrorView, NvmdError};
use crate::home::{NvmdPath, PathView, Platform};
use crate::npm::{classify, CommandArg, CommandView};
use crate::run::binary::binary_launch_of;
use crate::run::{launch, launch_of, launch_view, Launch, LaunchView};
use crate::text::{opt_text, texts};

verus! {

/// An npm call, planned: the child to start and what its command line
/// means for the registry.
#[derive(Debug)]
pub struct NpmCall {
    pub launch: Launch,
    pub command: CommandArg,
}

/// The model of a planned npm call.
pub open spec fn call_view(r: Result<NpmCall, NvmdError>) -> Result<
    (LaunchView, CommandView),
    ErrorView,
> {
    match r {
        Ok(call) => Ok((call.launch@, call.command@)),
        Err(e) => Err(e@),
    }
}

/// What an npm call comes to: the child that any binary would come to, and
/// the command that the arguments stand for.
pub open spec fn npm_call_of(
    version: Option<Seq<char>>,
    dir: PathView,
    platform: Platform,
    installed: bool,
    present: bool,
    inherited: Seq<Seq<char>>,
    exe: Seq<char>,
    args: Seq<Seq<char>>,
) -> Result<(LaunchView, CommandView), ErrorView> {
    match binary_launch_of(version, dir, platform, installed, present, inherited, exe, args) {
        Ok(launch) => Ok((launch, classify(args))),
        Err(e) => Err(e),
    }
}

/// Plans the call of npm. `present` says whether the active version has an
/// `npm` of its own.
pub fn command(
    context: &Context,
    dir: &NvmdPath,
    platform: Platform,
    installed: bool,
    present: bool,
    inherited: &Vec<String>,
    exe: &str,
    args: &Vec<String>,
) -> (r: Result<NpmCall, NvmdError>)
    ensures
        call_view(r) == npm_call_of(
            opt_text(context.version),
            dir@,
            platform,
            installed,
            present,
            texts(inherited@),
            exe@,
            texts(args@),
        ),
{
    match crate::run::binary::command(
        context,
        dir,
        platform,
        installed,
        present,
        inherited,
        exe,
        args,
    ) {
        Ok(launch) => Ok(NpmCall { launch, command: CommandArg::from_npm(args) }),
        Err(e) => Err(e),
    }
}

/// The child that asks npm for its global root: `npm root -g` under the
/// active version.
pub fn root_query(
    context: &Context,
    dir: &NvmdPath,
    platform: Platform,
    installed: bool,
    inherited: &Vec<String>,
) -> (r: Result<Launch, NvmdError>)
    ensures
        launch_view(r) == launch_of(
            opt_text(context.version),
            dir@,
            platform,
            installed,
            texts(inherited@),
            "npm"@,
            seq!["root"@, "-g"@],
        ),
{
    let mut args: Vec<String> = Vec::new();
    args.push("root".to_owned());
    args.push("-g".to_owned());
    assert(texts(args@) =~= seq!["root"@, "-g"@]);
    launch(context, dir, platform, installed, inherited, "npm", &args)
}

} // verus!
