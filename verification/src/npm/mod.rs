//! The npm interceptor: reading an npm command line to tell which of its
//! subcommands change the set of globally installed binaries.

use vstd::prelude::*;

pub mod common;
pub mod install;
pub mod link;
pub mod uninstall;
pub mod unlink;

use crate::error::NvmdError;
use crate::home::Platform;
use crate::npm::common::{
    package_names, relative_paths, Bookkeeping, ManifestSource, ManifestSourceView, ToolArgsView,
};
use crate::package::{
    all_bins, record_installed_map, record_uninstalled_map, shims_to_remove, PackageJson, Packages,
    Registry,
};
use crate::npm::install::InstallArgs;
use crate::npm::link::LinkArgs;
use crate::npm::uninstall::UninstallArgs;
use crate::npm::unlink::UnlinkArgs;
use crate::shim::{actions, link_each, unlink_each, ShimActionView};
use crate::text::{same_text, starts_with_char, texts};

verus! {

/// The positional arguments from the place `at` on, where `skip` says
/// whether the argument at that place is the value of a `--workspace` flag
/// before it.
///
/// The scanner is a machine of two states. A `--workspace` flag makes it
/// skip the next argument, whatever that is; any other argument is a
/// positional argument unless it is a flag.
pub open spec fn scan_from(args: Seq<Seq<char>>, at: int, skip: bool) -> Seq<Seq<char>>
    decreases args.len() - at,
{
    if at < 0 || at >= args.len() {
        Seq::empty()
    } else if skip {
        scan_from(args, at + 1, false)
    } else if args[at] == "--workspace"@ {
        scan_from(args, at + 1, true)
    } else if is_flag_text(args[at]) {
        scan_from(args, at + 1, false)
    } else {
        seq![args[at]] + scan_from(args, at + 1, false)
    }
}

/// The positional arguments of a command line: those that are no flag and
/// are not the value that follows a `--workspace` flag.
pub open spec fn positionals(args: Seq<Seq<char>>) -> Seq<Seq<char>> {
    scan_from(args, 0, false)
}

/// A flag begins with a dash.
pub open spec fn is_flag_text(arg: Seq<char>) -> bool {
    arg.len() > 0 && arg[0] == '-'
}

/// The flags of a command line, in order.
pub open spec fn flags(args: Seq<Seq<char>>) -> Seq<Seq<char>> {
    args.filter(|a: Seq<char>| is_flag_text(a))
}

/// Whether a command line asks for the global scope.
pub open spec fn has_global_text(args: Seq<Seq<char>>) -> bool {
    args.contains("-g"@) || args.contains("--global"@)
}

/// Whether `arg` is a flag.
pub fn is_flag(arg: &str) -> (r: bool)
    ensures
        r == is_flag_text(arg@),
{
    starts_with_char(arg, '-')
}

/// Whether `-g` or `--global` is among `args`.
pub fn has_global(args: &Vec<String>) -> (r: bool)
    ensures
        r == has_global_text(texts(args@)),
{
    let mut i: usize = 0;
    while i < args.len()
        invariant
            i <= args.len(),
            forall|j: int| 0 <= j < i ==> texts(args@)[j] != "-g"@ && texts(args@)[j] != "--global"@,
        decreases args.len() - i,
    {
        if same_text(args[i].as_str(), "-g") || same_text(args[i].as_str(), "--global") {
            assert(texts(args@)[i as int] == args@[i as int]@);
            return true;
        }
        i += 1;
    }
    false
}

/// One step of the scanner: whether `arg` is a positional argument, given
/// whether the argument before it asked to skip it, and whether `arg` asks
/// to skip the next in its turn.
pub fn is_positional(arg: &str, skip_next: &mut bool) -> (r: bool)
    ensures
        r == (!*old(skip_next) && arg@ != "--workspace"@ && !is_flag_text(arg@)),
        *final(skip_next) == (!*old(skip_next) && arg@ == "--workspace"@),
{
    if *skip_next {
        *skip_next = false;
        return false;
    }
    if same_text(arg, "--workspace") {
        *skip_next = true;
        return false;
    }
    !is_flag(arg)
}

/// The positional arguments of `args`, in order.
pub fn positional_args(args: &Vec<String>) -> (r: Vec<String>)
    ensures
        texts(r@) == positionals(texts(args@)),
{
    let mut out: Vec<String> = Vec::new();
    let mut skip_next = false;
    let mut i: usize = 0;
    let ghost all = texts(args@);
    while i < args.len()
        invariant
            i <= args.len(),
            all == texts(args@),
            texts(out@) + scan_from(all, i as int, skip_next) == positionals(all),
        decreases args.len() - i,
    {
        if is_positional(args[i].as_str(), &mut skip_next) {
            out.push(args[i].clone());
        }
        i += 1;
    }
    out
}

/// The scanner goes through a command line as through the same line
/// without what stands before the place `at`.
proof fn lemma_scan_skip(args: Seq<Seq<char>>, k: int, at: int, skip: bool)
    requires
        0 <= k <= args.len(),
        0 <= at,
    ensures
        scan_from(args, k + at, skip) == scan_from(args.skip(k), at, skip),
    decreases args.len() - k - at,
{
    let rest = args.skip(k);
    if at < rest.len() {
        lemma_scan_skip(args, k, at + 1, false);
        lemma_scan_skip(args, k, at + 1, true);
    }
}

/// The `--workspace` flag takes exactly one argument with it: whatever
/// follows the flag, be it a command name or another flag, is no positional
/// argument, and the scan goes on after it as if the two were not there.
pub proof fn lemma_workspace_skips_one(value: Seq<char>, rest: Seq<Seq<char>>)
    ensures
        positionals(seq!["--workspace"@, value] + rest) == positionals(rest),
        positionals(seq!["--workspace"@]) == Seq::<Seq<char>>::empty(),
{
    let args = seq!["--workspace"@, value] + rest;
    assert(scan_from(args, 1, true) == scan_from(args, 2, false));
    lemma_scan_skip(args, 2, 0, false);
    assert(args.skip(2) =~= rest);
    let alone = seq!["--workspace"@];
    assert(scan_from(alone, 0, false) == scan_from(alone, 1, true));
}

/// The flags of `args`, in order.
pub fn flag_args(args: &Vec<String>) -> (r: Vec<String>)
    ensures
        texts(r@) == flags(texts(args@)),
{
    let mut out: Vec<String> = Vec::new();
    let mut i: usize = 0;
    let ghost all = texts(args@);
    let ghost pred = |a: Seq<char>| is_flag_text(a);
    while i < args.len()
        invariant
            i <= args.len(),
            all == texts(args@),
            pred == (|a: Seq<char>| is_flag_text(a)),
            texts(out@) == all.take(i as int).filter(pred),
        decreases args.len() - i,
    {
        proof {
            reveal(Seq::filter);
            assert(all.take(i + 1).drop_last() =~= all.take(i as int));
        }
        if is_flag(args[i].as_str()) {
            out.push(args[i].clone());
        }
        i += 1;
    }
    assert(all.take(args@.len() as int) =~= all);
    out
}

/// What an npm command line is to the interceptor.
pub enum CommandView {
    Install(ToolArgsView),
    Uninstall(ToolArgsView),
    Upgrade(ToolArgsView),
    Link(ToolArgsView),
    Unlink(ToolArgsView),
    Standard,
}

/// The names under which npm installs packages.
pub open spec fn install_alias(cmd: Seq<char>) -> bool {
    ||| cmd == "i"@
    ||| cmd == "in"@
    ||| cmd == "ins"@
    ||| cmd == "inst"@
    ||| cmd == "insta"@
    ||| cmd == "instal"@
    ||| cmd == "install"@
    ||| cmd == "isnt"@
    ||| cmd == "isnta"@
    ||| cmd == "isntal"@
    ||| cmd == "isntall"@
    ||| cmd == "add"@
}

/// The names under which npm removes packages.
pub open spec fn uninstall_alias(cmd: Seq<char>) -> bool {
    ||| cmd == "un"@
    ||| cmd == "uninstall"@
    ||| cmd == "remove"@
    ||| cmd == "rm"@
    ||| cmd == "r"@
}

/// The names under which npm updates packages.
pub open spec fn update_alias(cmd: Seq<char>) -> bool {
    ||| cmd == "update"@
    ||| cmd == "udpate"@
    ||| cmd == "upgrade"@
    ||| cmd == "up"@
}

/// The names under which npm links packages.
pub open spec fn link_alias(cmd: Seq<char>) -> bool {
    ||| cmd == "link"@
    ||| cmd == "ln"@
}

/// The command that a command line stands for.
///
/// The first positional argument is the command token; the positional
/// arguments after it are the tools. Installing and uninstalling are
/// intercepted only in the global scope and with at least one tool,
/// unlinking and updating only in the global scope, linking always.
pub open spec fn classify(args: Seq<Seq<char>>) -> CommandView {
    let found = positionals(args);
    if found.len() == 0 {
        CommandView::Standard
    } else {
        let cmd = found[0];
        let parsed = ToolArgsView { common_args: seq![cmd] + flags(args), tools: found.skip(1) };
        if install_alias(cmd) {
            if has_global_text(args) && parsed.tools.len() > 0 {
                CommandView::Install(parsed)
            } else {
                CommandView::Standard
            }
        } else if uninstall_alias(cmd) {
            if has_global_text(args) && parsed.tools.len() > 0 {
                CommandView::Uninstall(parsed)
            } else {
                CommandView::Standard
            }
        } else if cmd == "unlink"@ {
            if has_global_text(args) {
                CommandView::Unlink(parsed)
            } else {
                CommandView::Standard
            }
        } else if link_alias(cmd) {
            CommandView::Link(parsed)
        } else if update_alias(cmd) {
            if has_global_text(args) {
                CommandView::Upgrade(parsed)
            } else {
                CommandView::Standard
            }
        } else {
            CommandView::Standard
        }
    }
}

/// Whether npm installs packages under the name `cmd`.
pub fn is_install_alias(cmd: &str) -> (r: bool)
    ensures
        r == install_alias(cmd@),
{
    same_text(cmd, "i") || same_text(cmd, "in") || same_text(cmd, "ins") || same_text(cmd, "inst")
        || same_text(cmd, "insta") || same_text(cmd, "instal") || same_text(cmd, "install")
        || same_text(cmd, "isnt") || same_text(cmd, "isnta") || same_text(cmd, "isntal")
        || same_text(cmd, "isntall") || same_text(cmd, "add")
}

/// Whether npm removes packages under the name `cmd`.
pub fn is_uninstall_alias(cmd: &str) -> (r: bool)
    ensures
        r == uninstall_alias(cmd@),
{
    same_text(cmd, "un") || same_text(cmd, "uninstall") || same_text(cmd, "remove") || same_text(
        cmd,
        "rm",
    ) || same_text(cmd, "r")
}

/// Whether npm updates packages under the name `cmd`.
pub fn is_update_alias(cmd: &str) -> (r: bool)
    ensures
        r == update_alias(cmd@),
{
    same_text(cmd, "update") || same_text(cmd, "udpate") || same_text(cmd, "upgrade") || same_text(
        cmd,
        "up",
    )
}

/// Whether npm links packages under the name `cmd`.
pub fn is_link_alias(cmd: &str) -> (r: bool)
    ensures
        r == link_alias(cmd@),
{
    same_text(cmd, "link") || same_text(cmd, "ln")
}

/// A command that changes what is installed globally.
#[derive(Debug)]
pub enum GlobalCommand {
    Install(InstallArgs),
    Uninstall(UninstallArgs),
    Upgrade(InstallArgs),
}

/// A command that is intercepted whatever its scope.
#[derive(Debug)]
pub enum InterceptedCommand {
    Link(LinkArgs),
    Unlink(UnlinkArgs),
}

/// An npm command line, read.
#[derive(Debug)]
pub enum CommandArg {
    Global(GlobalCommand),
    Intercepted(InterceptedCommand),
    Standard,
}

impl View for CommandArg {
    type V = CommandView;

    open spec fn view(&self) -> CommandView {
        match self {
            CommandArg::Global(GlobalCommand::Install(a)) => CommandView::Install(a@),
            CommandArg::Global(GlobalCommand::Uninstall(a)) => CommandView::Uninstall(a@),
            CommandArg::Global(GlobalCommand::Upgrade(a)) => CommandView::Upgrade(a@),
            CommandArg::Intercepted(InterceptedCommand::Link(a)) => CommandView::Link(a@),
            CommandArg::Intercepted(InterceptedCommand::Unlink(a)) => CommandView::Unlink(a@),
            CommandArg::Standard => CommandView::Standard,
        }
    }
}

impl CommandArg {
    /// Reads an npm command line.
    pub fn from_npm(args: &Vec<String>) -> (r: CommandArg)
        ensures
            r@ == classify(texts(args@)),
    {
        let mut found = positional_args(args);
        if found.len() == 0 {
            return CommandArg::Standard;
        }
        let ghost all = texts(found@);
        let cmd = found.remove(0);
        let tools = found;
        assert(texts(tools@) =~= all.skip(1));
        let global = has_global(args);
        if is_install_alias(cmd.as_str()) {
            if global && tools.len() > 0 {
                let common_args = common_of(cmd, args);
                CommandArg::Global(GlobalCommand::Install(InstallArgs { common_args, tools }))
            } else {
                CommandArg::Standard
            }
        } else if is_uninstall_alias(cmd.as_str()) {
            if global && tools.len() > 0 {
                let common_args = common_of(cmd, args);
                CommandArg::Global(GlobalCommand::Uninstall(UninstallArgs { common_args, tools }))
            } else {
                CommandArg::Standard
            }
        } else if same_text(cmd.as_str(), "unlink") {
            if global {
                let common_args = common_of(cmd, args);
                CommandArg::Intercepted(InterceptedCommand::Unlink(UnlinkArgs { common_args, tools }))
            } else {
                CommandArg::Standard
            }
        } else if is_link_alias(cmd.as_str()) {
            let common_args = common_of(cmd, args);
            CommandArg::Intercepted(InterceptedCommand::Link(LinkArgs { common_args, tools }))
        } else if is_update_alias(cmd.as_str()) {
            if global {
                let common_args = common_of(cmd, args);
                CommandArg::Global(GlobalCommand::Upgrade(InstallArgs { common_args, tools }))
            } else {
                CommandArg::Standard
            }
        } else {
            CommandArg::Standard
        }
    }
}

/// The command token followed by the flags of the command line.
fn common_of(cmd: String, args: &Vec<String>) -> (r: Vec<String>)
    ensures
        texts(r@) == seq![cmd@] + flags(texts(args@)),
{
    let mut common: Vec<String> = Vec::new();
    common.push(cmd);
    let mut rest = flag_args(args);
    common.append(&mut rest);
    common
}

impl View for GlobalCommand {
    type V = CommandView;

    open spec fn view(&self) -> CommandView {
        match self {
            GlobalCommand::Install(a) => CommandView::Install(a@),
            GlobalCommand::Uninstall(a) => CommandView::Uninstall(a@),
            GlobalCommand::Upgrade(a) => CommandView::Upgrade(a@),
        }
    }
}

impl View for InterceptedCommand {
    type V = CommandView;

    open spec fn view(&self) -> CommandView {
        match self {
            InterceptedCommand::Link(a) => CommandView::Link(a@),
            InterceptedCommand::Unlink(a) => CommandView::Unlink(a@),
        }
    }
}

impl CommandView {
    /// The manifests to read before npm runs. Only what npm is about to
    /// remove has to be read while it is still there.
    pub open spec fn before_source(self) -> ManifestSourceView {
        match self {
            CommandView::Uninstall(a) => ManifestSourceView::GlobalPackages(package_names(a.tools)),
            CommandView::Unlink(a) => if a.tools.len() == 0 {
                ManifestSourceView::CurrentDir
            } else {
                ManifestSourceView::GlobalPackages(package_names(a.tools))
            },
            _ => ManifestSourceView::Nothing,
        }
    }

    /// The binaries to give up once npm has succeeded, given the manifests
    /// read before it ran.
    pub open spec fn pending(self, manifests: Seq<PackageJson>) -> Seq<Seq<char>> {
        match self {
            CommandView::Uninstall(_) | CommandView::Unlink(_) => all_bins(manifests),
            _ => Seq::empty(),
        }
    }

    /// The manifests to read once npm has succeeded.
    pub open spec fn after_source(self, platform: Platform) -> ManifestSourceView {
        match self {
            CommandView::Install(a) | CommandView::Upgrade(a) => ManifestSourceView::GlobalPackages(
                package_names(a.tools),
            ),
            CommandView::Link(a) => if a.tools.len() == 0 {
                ManifestSourceView::CurrentDir
            } else {
                ManifestSourceView::RelativeDirs(relative_paths(a.tools, platform))
            },
            _ => ManifestSourceView::Nothing,
        }
    }

    /// The registry after the command, where npm has succeeded.
    pub open spec fn registry_after(
        self,
        m: Registry,
        version: Seq<char>,
        manifests: Seq<PackageJson>,
        pending: Seq<Seq<char>>,
    ) -> Registry {
        match self {
            CommandView::Install(_) | CommandView::Upgrade(_) => record_installed_map(
                m,
                all_bins(manifests),
                version,
            ),
            CommandView::Link(_) => if all_bins(manifests).len() == 0 {
                m
            } else {
                record_installed_map(m, all_bins(manifests), version)
            },
            CommandView::Uninstall(_) | CommandView::Unlink(_) => record_uninstalled_map(
                m,
                pending,
                version,
            ),
            CommandView::Standard => m,
        }
    }

    /// Whether the registry has to be saved after the command, where npm
    /// has succeeded.
    pub open spec fn saves(self, manifests: Seq<PackageJson>) -> bool {
        match self {
            CommandView::Link(_) => all_bins(manifests).len() > 0,
            CommandView::Standard => false,
            _ => true,
        }
    }

    /// The shims to make and to remove after the command, where npm has
    /// succeeded.
    pub open spec fn shims_after(
        self,
        m: Registry,
        version: Seq<char>,
        manifests: Seq<PackageJson>,
        pending: Seq<Seq<char>>,
    ) -> Seq<ShimActionView> {
        match self {
            CommandView::Install(_) | CommandView::Upgrade(_) | CommandView::Link(_) => link_each(
                all_bins(manifests),
            ),
            CommandView::Uninstall(_) | CommandView::Unlink(_) => unlink_each(
                shims_to_remove(m, pending, version),
            ),
            CommandView::Standard => Seq::empty(),
        }
    }
}

impl GlobalCommand {
    /// The manifests to read before npm runs.
    pub fn before_source(&self) -> (r: Result<ManifestSource, NvmdError>)
        ensures
            r matches Ok(source) && source@ == self@.before_source(),
    {
        match self {
            GlobalCommand::Install(_) => Ok(ManifestSource::Nothing),
            GlobalCommand::Uninstall(cmd) => cmd.before_source(),
            GlobalCommand::Upgrade(_) => Ok(ManifestSource::Nothing),
        }
    }

    /// Before npm runs: the binaries to give up once it has succeeded.
    pub fn before_executor(&self, manifests: &Vec<PackageJson>) -> (pending: Vec<String>)
        ensures
            texts(pending@) == self@.pending(manifests@),
    {
        match self {
            GlobalCommand::Install(_) => no_names(),
            GlobalCommand::Uninstall(cmd) => cmd.before_executor(manifests),
            GlobalCommand::Upgrade(_) => no_names(),
        }
    }

    /// The manifests to read once npm has succeeded, which are the same on
    /// every platform.
    pub fn after_source(&self) -> (r: Result<ManifestSource, NvmdError>)
        ensures
            r matches Ok(source) && forall|platform: Platform|
                source@ == #[trigger] self@.after_source(platform),
    {
        match self {
            GlobalCommand::Install(cmd) => cmd.after_source(),
            GlobalCommand::Uninstall(_) => Ok(ManifestSource::Nothing),
            GlobalCommand::Upgrade(cmd) => cmd.after_source(),
        }
    }

    /// After npm has succeeded: updates the registry and says which shims
    /// to make and to remove.
    pub fn after_executor(
        &self,
        version: &str,
        manifests: &Vec<PackageJson>,
        pending: &Vec<String>,
        registry: &mut Packages,
    ) -> (r: Bookkeeping)
        ensures
            final(registry)@ == self@.registry_after(
                old(registry)@,
                version@,
                manifests@,
                texts(pending@),
            ),
            final(registry).file() == old(registry).file(),
            old(registry).wf() ==> final(registry).wf(),
            r.save,
            actions(r.shims@) == self@.shims_after(
                old(registry)@,
                version@,
                manifests@,
                texts(pending@),
            ),
    {
        match self {
            GlobalCommand::Install(cmd) => cmd.after_executor(version, manifests, registry),
            GlobalCommand::Uninstall(cmd) => cmd.after_executor(version, pending, registry),
            GlobalCommand::Upgrade(cmd) => cmd.after_executor(version, manifests, registry),
        }
    }
}

/// An empty list of names.
fn no_names() -> (r: Vec<String>)
    ensures
        texts(r@) == Seq::<Seq<char>>::empty(),
{
    let r: Vec<String> = Vec::new();
    r
}

impl CommandArg {
    /// The manifests to read before npm runs.
    pub fn before_source(&self) -> (r: Result<ManifestSource, NvmdError>)
        ensures
            r matches Ok(source) && source@ == self@.before_source(),
    {
        match self {
            CommandArg::Global(cmd) => cmd.before_source(),
            CommandArg::Intercepted(InterceptedCommand::Unlink(cmd)) => cmd.before_source(),
            _ => Ok(ManifestSource::Nothing),
        }
    }

    /// Before npm runs: the binaries to give up once it has succeeded, out
    /// of the manifests that `before_source` asked for.
    pub fn before_executor(&self, manifests: &Vec<PackageJson>) -> (pending: Vec<String>)
        ensures
            texts(pending@) == self@.pending(manifests@),
    {
        match self {
            CommandArg::Global(cmd) => cmd.before_executor(manifests),
            CommandArg::Intercepted(InterceptedCommand::Unlink(cmd)) => cmd.before_executor(
                manifests,
            ),
            _ => no_names(),
        }
    }

    /// The manifests to read once npm has succeeded.
    pub fn after_source(&self, platform: Platform) -> (r: Result<ManifestSource, NvmdError>)
        ensures
            r matches Ok(source) && source@ == self@.after_source(platform),
    {
        match self {
            CommandArg::Global(cmd) => cmd.after_source(),
            CommandArg::Intercepted(InterceptedCommand::Link(cmd)) => Ok(
                cmd.after_source(platform),
            ),
            _ => Ok(ManifestSource::Nothing),
        }
    }

    /// After npm has run: where it has succeeded, updates the registry out
    /// of the manifests that `after_source` asked for and of the `pending`
    /// binaries, and says which shims to make and to remove. Where npm has
    /// failed, nothing changes.
    pub fn after_executor(
        &self,
        success: bool,
        version: &str,
        manifests: &Vec<PackageJson>,
        pending: &Vec<String>,
        registry: &mut Packages,
    ) -> (r: Bookkeeping)
        ensures
            final(registry)@ == if success {
                self@.registry_after(old(registry)@, version@, manifests@, texts(pending@))
            } else {
                old(registry)@
            },
            final(registry).file() == old(registry).file(),
            old(registry).wf() ==> final(registry).wf(),
            r.save == (success && self@.saves(manifests@)),
            actions(r.shims@) == if success {
                self@.shims_after(old(registry)@, version@, manifests@, texts(pending@))
            } else {
                Seq::<ShimActionView>::empty()
            },
    {
        if !success {
            let r = Bookkeeping::nothing();
            return r;
        }
        match self {
            CommandArg::Global(cmd) => cmd.after_executor(version, manifests, pending, registry),
            CommandArg::Intercepted(InterceptedCommand::Link(cmd)) => cmd.after_executor(
                version,
                manifests,
                registry,
            ),
            CommandArg::Intercepted(InterceptedCommand::Unlink(cmd)) => cmd.after_executor(
                version,
                pending,
                registry,
            ),
            CommandArg::Standard => {
                let r = Bookkeeping::nothing();
                r
            },
        }
    }
}

} // verus!
