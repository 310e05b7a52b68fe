use nvmd::home::{NvmdHome, NvmdPath};
use nvmd::npm::common::Bookkeeping;
use nvmd::npm::CommandArg;
use nvmd::package::{collect_bin_names, Bin, BinTable, PackageEntry, PackageJson, Packages};
use nvmd::shim::ShimAction;

fn args(list: &[&str]) -> Vec<String> {
    list.iter().map(|s| s.to_string()).collect()
}

fn home() -> NvmdHome {
    NvmdHome::new(NvmdPath::new("/home/u/.nvmd".to_string()))
}

fn entry(name: &str, versions: &[&str]) -> PackageEntry {
    PackageEntry { name: name.to_string(), versions: args(versions) }
}

fn versions(registry: &Packages, name: &str) -> Option<Vec<String>> {
    registry.get(name).cloned()
}

fn table(name: &str, bins: &[&str]) -> PackageJson {
    PackageJson {
        name: Some(name.to_string()),
        bin: Some(Bin::Multiple(BinTable::new(
            bins.iter().map(|b| (b.to_string(), format!("bin/{}.js", b))).collect(),
        ))),
    }
}

fn links(shims: &[ShimAction]) -> Vec<String> {
    shims
        .iter()
        .map(|a| match a {
            ShimAction::Link(n) => format!("+{}", n),
            ShimAction::Unlink(n) => format!("-{}", n),
        })
        .collect()
}

#[test]
fn registry_is_kept_in_packages_json() {
    let registry = Packages::new(&home(), Vec::new());
    assert_eq!(registry.path().base, "/home/u/.nvmd");
    assert_eq!(registry.path().parts, args(&["packages.json"]));
    assert!(registry.entries().is_empty());
}

#[test]
fn first_entry_of_a_name_counts() {
    let registry =
        Packages::new(&home(), vec![entry("tsc", &["18.0.0"]), entry("tsc", &["20.0.0"])]);
    assert_eq!(versions(&registry, "tsc"), Some(args(&["18.0.0"])));
    assert_eq!(registry.entries().len(), 1);
}

#[test]
fn install_record_is_idempotent() {
    let mut registry = Packages::new(&home(), Vec::new());
    registry.record_installed(&args(&["tsc"]), "18.0.0");
    registry.record_installed(&args(&["tsc"]), "18.0.0");
    assert_eq!(versions(&registry, "tsc"), Some(args(&["18.0.0"])));
}

#[test]
fn install_record_moves_the_version_to_the_end() {
    let mut registry =
        Packages::new(&home(), vec![entry("tsc", &["18.0.0", "16.0.0", "18.0.0", "20.0.0"])]);
    registry.record_installed(&args(&["tsc", "tsserver", "tsc"]), "18.0.0");
    assert_eq!(versions(&registry, "tsc"), Some(args(&["16.0.0", "20.0.0", "18.0.0"])));
    assert_eq!(versions(&registry, "tsserver"), Some(args(&["18.0.0"])));
    assert_eq!(versions(&registry, "eslint"), None);
}

#[test]
fn install_record_leaves_other_binaries_alone() {
    let mut registry = Packages::new(&home(), vec![entry("yarn", &["16.0.0"])]);
    registry.record_installed(&args(&["tsc"]), "18.0.0");
    assert_eq!(versions(&registry, "yarn"), Some(args(&["16.0.0"])));
    registry.record_installed(&args(&[]), "20.0.0");
    assert_eq!(registry.entries().len(), 2);
}

#[test]
fn shim_is_removed_only_when_unclaimed() {
    let mut registry = Packages::new(&home(), vec![entry("tsc", &["16.0.0", "18.0.0"])]);
    let first = registry.record_uninstalled(&args(&["tsc"]), "16.0.0");
    assert!(first.is_empty());
    assert!(!registry.can_be_removed("tsc"));
    let second = registry.record_uninstalled(&args(&["tsc"]), "18.0.0");
    assert_eq!(second, args(&["tsc"]));
    assert!(registry.can_be_removed("tsc"));
    assert_eq!(versions(&registry, "tsc"), Some(args(&[])));
}

#[test]
fn unknown_binaries_lose_their_shim() {
    let mut registry = Packages::new(&home(), vec![entry("tsc", &["16.0.0"])]);
    let gone = registry.record_uninstalled(&args(&["eslint", "tsc", "eslint"]), "18.0.0");
    assert_eq!(gone, args(&["eslint", "eslint"]));
    assert_eq!(versions(&registry, "tsc"), Some(args(&["16.0.0"])));
    assert_eq!(versions(&registry, "eslint"), None);
    assert!(registry.can_be_removed("eslint"));
    assert!(!registry.can_be_removed("tsc"));
}

#[test]
fn uninstall_record_removes_every_occurrence() {
    let mut registry = Packages::new(&home(), vec![entry("tsc", &["18.0.0", "16.0.0", "18.0.0"])]);
    let gone = registry.record_uninstalled(&args(&["tsc"]), "18.0.0");
    assert!(gone.is_empty());
    assert_eq!(versions(&registry, "tsc"), Some(args(&["16.0.0"])));
}

#[test]
fn bin_names_of_a_manifest() {
    let single = PackageJson {
        name: Some("left-pad".to_string()),
        bin: Some(Bin::Single("cli.js".to_string())),
    };
    assert_eq!(single.bin_names(), args(&["left-pad"]));
    let nameless = PackageJson { name: None, bin: Some(Bin::Single("cli.js".to_string())) };
    assert_eq!(nameless.bin_names(), args(&[""]));
    assert_eq!(table("typescript", &["tsc", "tsserver"]).bin_names(), args(&["tsc", "tsserver"]));
    let none = PackageJson { name: Some("lib".to_string()), bin: None };
    assert!(none.bin_names().is_empty());
    assert!(PackageJson::empty().bin_names().is_empty());
}

#[test]
fn bin_names_of_several_manifests() {
    let manifests =
        vec![table("typescript", &["tsc", "tsserver"]), PackageJson::empty(), table("a", &["a"])];
    assert_eq!(collect_bin_names(&manifests), args(&["tsc", "tsserver", "a"]));
    assert!(collect_bin_names(&Vec::new()).is_empty());
}

#[test]
fn global_install_records_and_links() {
    let mut registry = Packages::new(&home(), vec![entry("tsc", &["16.0.0"])]);
    let cmd = CommandArg::from_npm(&args(&["install", "-g", "typescript"]));
    let manifests = vec![table("typescript", &["tsc", "tsserver"])];
    let done: Bookkeeping = cmd.after_executor(true, "18.0.0", &manifests, &Vec::new(), &mut registry);
    assert!(done.save);
    assert_eq!(links(&done.shims), args(&["+tsc", "+tsserver"]));
    assert_eq!(versions(&registry, "tsc"), Some(args(&["16.0.0", "18.0.0"])));
    assert_eq!(versions(&registry, "tsserver"), Some(args(&["18.0.0"])));
}

#[test]
fn failed_npm_changes_nothing() {
    let mut registry = Packages::new(&home(), vec![entry("tsc", &["16.0.0"])]);
    let cmd = CommandArg::from_npm(&args(&["install", "-g", "typescript"]));
    let manifests = vec![table("typescript", &["tsc"])];
    let done = cmd.after_executor(false, "18.0.0", &manifests, &Vec::new(), &mut registry);
    assert!(!done.save);
    assert!(done.shims.is_empty());
    assert_eq!(versions(&registry, "tsc"), Some(args(&["16.0.0"])));
}

#[test]
fn global_uninstall_unlinks_what_is_unclaimed() {
    let mut registry =
        Packages::new(&home(), vec![entry("tsc", &["16.0.0", "18.0.0"]), entry("tsserver", &["18.0.0"])]);
    let cmd = CommandArg::from_npm(&args(&["uninstall", "-g", "typescript"]));
    let pending = cmd.before_executor(&vec![table("typescript", &["tsc", "tsserver"])]);
    assert_eq!(pending, args(&["tsc", "tsserver"]));
    let done = cmd.after_executor(true, "18.0.0", &Vec::new(), &pending, &mut registry);
    assert!(done.save);
    assert_eq!(links(&done.shims), args(&["-tsserver"]));
    assert_eq!(versions(&registry, "tsc"), Some(args(&["16.0.0"])));
    assert_eq!(versions(&registry, "tsserver"), Some(args(&[])));
}

#[test]
fn link_without_binaries_leaves_the_registry_alone() {
    let mut registry = Packages::new(&home(), Vec::new());
    let cmd = CommandArg::from_npm(&args(&["link"]));
    let done = cmd.after_executor(true, "18.0.0", &vec![PackageJson::empty()], &Vec::new(), &mut registry);
    assert!(!done.save);
    assert!(done.shims.is_empty());
    let done = cmd.after_executor(true, "18.0.0", &vec![table("mine", &["mine"])], &Vec::new(), &mut registry);
    assert!(done.save);
    assert_eq!(links(&done.shims), args(&["+mine"]));
    assert_eq!(versions(&registry, "mine"), Some(args(&["18.0.0"])));
}

#[test]
fn standard_command_does_no_bookkeeping() {
    let mut registry = Packages::new(&home(), vec![entry("tsc", &["16.0.0"])]);
    let cmd = CommandArg::from_npm(&args(&["test"]));
    let done = cmd.after_executor(true, "18.0.0", &vec![table("x", &["x"])], &args(&["tsc"]), &mut registry);
    assert!(!done.save);
    assert!(done.shims.is_empty());
    assert_eq!(versions(&registry, "tsc"), Some(args(&["16.0.0"])));
}

#[test]
fn bin_table_holds_each_name_once() {
    let pairs = vec![
        ("tsc".to_string(), "bin/tsc".to_string()),
        ("tsserver".to_string(), "bin/tsserver".to_string()),
        ("tsc".to_string(), "bin/other".to_string()),
        ("".to_string(), "x".to_string()),
        ("tsserver".to_string(), "y".to_string()),
    ];
    let table = BinTable::new(pairs);
    assert_eq!(table.keys(), args(&["tsc", "tsserver", ""]));
    let manifest = PackageJson { name: Some("typescript".to_string()), bin: Some(Bin::Multiple(table)) };
    assert_eq!(manifest.bin_names(), args(&["tsc", "tsserver", ""]));
    assert!(BinTable::new(Vec::new()).keys().is_empty());
}
