//! `corepack`: passed through, with the shims of `yarn` and `pnpm` made on
//! `enable` and removed on `disable`.

use vstd::prelude::*;
use crate::context::Context;
use crate::error::NvmdError;
use crate::home::{NvmdPath, Platform};
use crate::package::{unclaimed, Packages, Registry};
use crate::run::{launch, launch_of, launch_view, Launch};
use crate::shim::{actions, link_each, unlink_each, ShimAction, ShimActionView};
use crate::text::{contains_text, opt_text, same_text, texts};

verus! {

/// Whether corepack manages a package manager of this name on its own
/// request: `yarn` and `pnpm`.
pub open spec fn package_name(arg: Seq<char>) -> bool {
    arg == "yarn"@ || arg == "pnpm"@
}

/// Whether `arg` names `yarn` or `pnpm`.
pub fn is_package_name(arg: &str) -> (r: bool)
    ensures
        r == package_name(arg@),
{
    same_text(arg, "yarn") || same_text(arg, "pnpm")
}

/// The other names under which a package manager is called.
pub open spec fn extra_aliases(name: Seq<char>) -> Seq<Seq<char>> {
    if name == "yarn"@ {
        seq!["yarnpkg"@]
    } else if name == "pnpm"@ {
        seq!["pnpx"@]
    } else {
        Seq::empty()
    }
}

/// The other names under which the package manager `name` is called.
pub fn package_extra_aliases(name: &str) -> (r: Vec<String>)
    ensures
        texts(r@) == extra_aliases(name@),
{
    let mut out: Vec<String> = Vec::new();
    if same_text(name, "yarn") {
        out.push("yarnpkg".to_owned());
    } else if same_text(name, "pnpm") {
        out.push("pnpx".to_owned());
    }
    out
}

/// The package managers that a corepack command line concerns: those it
/// names among `yarn` and `pnpm`; both, where it names neither of them nor
/// `npm`.
pub open spec fn managers(args: Seq<Seq<char>>) -> Seq<Seq<char>> {
    let named = args.filter(|a: Seq<char>| package_name(a));
    if named.len() == 0 && !args.contains("npm"@) {
        seq!["yarn"@, "pnpm"@]
    } else {
        named
    }
}

/// What happens to the shims of one package manager: on `enable` it and its
/// other names get a shim; on `disable` they lose it, all or none, and only
/// if no version claims the package manager in the registry.
pub open spec fn manager_actions(name: Seq<char>, enable: bool, m: Registry) -> Seq<
    ShimActionView,
> {
    if enable {
        link_each(seq![name] + extra_aliases(name))
    } else if unclaimed(m, name) {
        unlink_each(seq![name] + extra_aliases(name))
    } else {
        Seq::empty()
    }
}

/// What happens to the shims of a list of package managers, one after the
/// other.
pub open spec fn managers_actions(names: Seq<Seq<char>>, enable: bool, m: Registry) -> Seq<
    ShimActionView,
>
    decreases names.len(),
{
    if names.len() == 0 {
        Seq::empty()
    } else {
        managers_actions(names.drop_last(), enable, m) + manager_actions(names.last(), enable, m)
    }
}

/// The package managers that `args` concerns.
fn managers_of(args: &Vec<String>) -> (r: Vec<String>)
    ensures
        texts(r@) == managers(texts(args@)),
{
    let mut named: Vec<String> = Vec::new();
    let mut i: usize = 0;
    let ghost all = texts(args@);
    let ghost pred = |a: Seq<char>| package_name(a);
    while i < args.len()
        invariant
            i <= args.len(),
            all == texts(args@),
            pred == (|a: Seq<char>| package_name(a)),
            texts(named@) == all.take(i as int).filter(pred),
        decreases args.len() - i,
    {
        proof {
            reveal(Seq::filter);
            assert(all.take(i + 1).drop_last() =~= all.take(i as int));
        }
        if is_package_name(args[i].as_str()) {
            named.push(args[i].clone());
        }
        i += 1;
    }
    assert(all.take(args@.len() as int) =~= all);
    if named.len() == 0 && !contains_text(args, "npm") {
        named.push("yarn".to_owned());
        named.push("pnpm".to_owned());
    }
    named
}

/// Makes or removes the shims of the package managers that `args` concerns.
pub fn corepack_manage(args: &Vec<String>, enable: bool, registry: &Packages) -> (r: Vec<
    ShimAction,
>)
    ensures
        actions(r@) == managers_actions(managers(texts(args@)), enable, registry@),
{
    let names = managers_of(args);
    let ghost all = texts(names@);
    let mut out: Vec<ShimAction> = Vec::new();
    let mut i: usize = 0;
    while i < names.len()
        invariant
            i <= names.len(),
            all == texts(names@),
            actions(out@) == managers_actions(all.take(i as int), enable, registry@),
        decreases names.len() - i,
    {
        let name = names[i].as_str();
        proof {
            assert(all.take(i + 1).drop_last() =~= all.take(i as int));
        }
        let mut shims: Vec<String> = Vec::new();
        shims.push(names[i].clone());
        let mut extra = package_extra_aliases(name);
        shims.append(&mut extra);
        assert(texts(shims@) =~= seq![name@] + extra_aliases(name@));
        if enable {
            let mut made = crate::shim::link_all(&shims);
            out.append(&mut made);
        } else if registry.can_be_removed(name) {
            let mut removed = crate::shim::unlink_all(&shims);
            out.append(&mut removed);
        }
        i += 1;
    }
    assert(all.take(names@.len() as int) =~= all);
    out
}

/// Whether every argument is `word`.
pub open spec fn all_are(args: Seq<Seq<char>>, word: Seq<char>) -> bool {
    forall|i: int| 0 <= i < args.len() ==> args[i] == word
}

/// What a corepack command line means for the shims.
///
/// With `--install-directory` corepack places its shims itself and nothing
/// is touched. Else a command line of nothing but `enable` makes the shims
/// and one of nothing but `disable` removes them; an empty command line is
/// both.
pub open spec fn corepack_actions(args: Seq<Seq<char>>, m: Registry) -> Seq<ShimActionView> {
    if args.contains("--install-directory"@) {
        Seq::empty()
    } else {
        (if all_are(args, "enable"@) {
            managers_actions(managers(args), true, m)
        } else {
            Seq::empty()
        }) + (if all_are(args, "disable"@) {
            managers_actions(managers(args), false, m)
        } else {
            Seq::empty()
        })
    }
}

/// Whether every argument of `args` is `word`.
fn every_arg_is(args: &Vec<String>, word: &str) -> (r: bool)
    ensures
        r == all_are(texts(args@), word@),
{
    let mut i: usize = 0;
    while i < args.len()
        invariant
            i <= args.len(),
            forall|j: int| 0 <= j < i ==> texts(args@)[j] == word@,
        decreases args.len() - i,
    {
        if !same_text(args[i].as_str(), word) {
            assert(texts(args@)[i as int] != word@);
            return false;
        }
        i += 1;
    }
    true
}

/// After corepack has run: the shims to make and to remove.
pub fn after_command(args: &Vec<String>, registry: &Packages) -> (r: Vec<ShimAction>)
    ensures
        actions(r@) == corepack_actions(texts(args@), registry@),
{
    let mut out: Vec<ShimAction> = Vec::new();
    if contains_text(args, "--install-directory") {
        return out;
    }
    if every_arg_is(args, "enable") {
        let mut made = corepack_manage(args, true, registry);
        out.append(&mut made);
    }
    if every_arg_is(args, "disable") {
        let mut removed = corepack_manage(args, false, registry);
        out.append(&mut removed);
    }
    out
}

/// The child to start for `corepack`.
pub fn command(
    context: &Context,
    dir: &NvmdPath,
    platform: Platform,
    installed: bool,
    inherited: &Vec<String>,
    exe: &str,
    args: &Vec<String>,
) -> (r: Result<Launch, NvmdError>)
    ensures
        launch_view(r) == launch_of(
            opt_text(context.version),
            dir@,
            platform,
            installed,
            texts(inherited@),
            exe@,
            texts(args@),
        ),
{
    launch(context, dir, platform, installed, inherited, exe, args)
}

} // verus!
