use nvmd::home::{NvmdHome, NvmdPath, Platform};
use nvmd::package::{PackageEntry, Packages};
use nvmd::run::corepack::{after_command, corepack_manage, is_package_name, package_extra_aliases};
use nvmd::shim::{link_all, link_package, shim_ops, unlink_all, unlink_package, FileOp, ShimAction};
use nvmd::signal::{pass_control_to_shim, SignalState, INTERRUPTED_EXIT_CODE};

fn args(list: &[&str]) -> Vec<String> {
    list.iter().map(|s| s.to_string()).collect()
}

fn home() -> NvmdHome {
    NvmdHome::new(NvmdPath::new("/h".to_string()))
}

fn flat(path: &NvmdPath) -> String {
    let mut out = path.base.clone();
    for part in &path.parts {
        out.push('|');
        out.push_str(part);
    }
    out
}

fn show(ops: &[FileOp]) -> Vec<String> {
    ops.iter()
        .map(|op| match op {
            FileOp::Symlink { source, alias } => format!("ln {} {}", flat(source), flat(alias)),
            FileOp::Copy { source, dest } => format!("cp {} {}", flat(source), flat(dest)),
            FileOp::Remove { path } => format!("rm {}", flat(path)),
        })
        .collect()
}

fn names(shims: &[ShimAction]) -> Vec<String> {
    shims
        .iter()
        .map(|a| match a {
            ShimAction::Link(n) => format!("+{}", n),
            ShimAction::Unlink(n) => format!("-{}", n),
        })
        .collect()
}

fn registry(entries: &[(&str, &[&str])]) -> Packages {
    Packages::new(
        &home(),
        entries.iter().map(|(n, v)| PackageEntry { name: n.to_string(), versions: args(v) }).collect(),
    )
}

#[test]
fn unix_shim_is_a_symbolic_link() {
    assert_eq!(show(&link_package(&home(), Platform::Unix, "tsc")), args(&["ln /h|bin|nvmd /h|bin|tsc"]));
    assert_eq!(show(&unlink_package(&home(), Platform::Unix, "tsc")), args(&["rm /h|bin|tsc"]));
}

#[test]
fn windows_shim_is_a_pair_of_copies() {
    assert_eq!(
        show(&link_package(&home(), Platform::Windows, "tsc")),
        args(&["cp /h|bin|nvmd.exe /h|bin|tsc.exe", "cp /h|bin|npm.cmd /h|bin|tsc.cmd"])
    );
    assert_eq!(
        show(&unlink_package(&home(), Platform::Windows, "tsc")),
        args(&["rm /h|bin|tsc.exe", "rm /h|bin|tsc.cmd"])
    );
}

#[test]
fn actions_expand_in_order() {
    let list = vec![ShimAction::Link("a".to_string()), ShimAction::Unlink("b".to_string())];
    assert_eq!(
        show(&shim_ops(&home(), Platform::Unix, &list)),
        args(&["ln /h|bin|nvmd /h|bin|a", "rm /h|bin|b"])
    );
    assert_eq!(shim_ops(&home(), Platform::Windows, &list).len(), 4);
    assert!(shim_ops(&home(), Platform::Unix, &Vec::new()).is_empty());
    assert_eq!(names(&link_all(&args(&["x", "y"]))), args(&["+x", "+y"]));
    assert_eq!(names(&unlink_all(&args(&["x", "y"]))), args(&["-x", "-y"]));
}

#[test]
fn corepack_names_and_aliases() {
    assert!(is_package_name("yarn"));
    assert!(is_package_name("pnpm"));
    assert!(!is_package_name("npm"));
    assert!(!is_package_name("Yarn"));
    assert_eq!(package_extra_aliases("yarn"), args(&["yarnpkg"]));
    assert_eq!(package_extra_aliases("pnpm"), args(&["pnpx"]));
    assert!(package_extra_aliases("npm").is_empty());
}

#[test]
fn corepack_enable_links_both_by_default() {
    let empty = registry(&[]);
    assert_eq!(
        names(&after_command(&args(&["enable"]), &empty)),
        args(&["+yarn", "+yarnpkg", "+pnpm", "+pnpx"])
    );
    assert_eq!(
        names(&corepack_manage(&args(&["enable"]), true, &empty)),
        args(&["+yarn", "+yarnpkg", "+pnpm", "+pnpx"])
    );
}

#[test]
fn corepack_manage_takes_the_named_managers() {
    let empty = registry(&[]);
    assert_eq!(names(&corepack_manage(&args(&["enable", "pnpm"]), true, &empty)), args(&["+pnpm", "+pnpx"]));
    assert_eq!(
        names(&corepack_manage(&args(&["pnpm", "yarn", "pnpm"]), true, &empty)),
        args(&["+pnpm", "+pnpx", "+yarn", "+yarnpkg", "+pnpm", "+pnpx"])
    );
    assert!(corepack_manage(&args(&["enable", "npm"]), true, &empty).is_empty());
}

#[test]
fn corepack_disable_keeps_what_a_version_claims() {
    let claimed = registry(&[("yarn", &["16.0.0"]), ("pnpm", &[])]);
    assert_eq!(names(&after_command(&args(&["disable"]), &claimed)), args(&["-pnpm", "-pnpx"]));
    let unclaimed = registry(&[]);
    assert_eq!(
        names(&after_command(&args(&["disable", "disable"]), &unclaimed)),
        args(&["-yarn", "-yarnpkg", "-pnpm", "-pnpx"])
    );
}

#[test]
fn corepack_touches_nothing_with_other_arguments() {
    let empty = registry(&[]);
    assert!(after_command(&args(&["enable", "yarn"]), &empty).is_empty());
    assert!(after_command(&args(&["enable", "--install-directory", "/x"]), &empty).is_empty());
    assert!(after_command(&args(&["--install-directory"]), &empty).is_empty());
    assert!(after_command(&args(&["prepare"]), &empty).is_empty());
    assert!(after_command(&args(&["enable", "disable"]), &empty).is_empty());
}

#[test]
fn corepack_without_arguments_enables_then_disables() {
    let empty = registry(&[]);
    assert_eq!(
        names(&after_command(&Vec::new(), &empty)),
        args(&["+yarn", "+yarnpkg", "+pnpm", "+pnpx", "-yarn", "-yarnpkg", "-pnpm", "-pnpx"])
    );
}

#[test]
fn interrupt_ends_the_shim_until_the_child_runs() {
    let mut state = SignalState::new();
    assert!(!state.shim_has_control);
    assert_eq!(state.on_interrupt(), Some(130));
    assert_eq!(INTERRUPTED_EXIT_CODE, 130);
    pass_control_to_shim(&mut state);
    assert!(state.shim_has_control);
    assert_eq!(state.on_interrupt(), None);
    pass_control_to_shim(&mut state);
    assert_eq!(state.on_interrupt(), None);
}
