use nvmd::home::Platform;
use nvmd::error::NvmdError;
use nvmd::npm::common::{
    get_npm_prefix, npm_prefix_candidates, is_relative_path, package_name_from, relative_args, strip_version_suffix,
    strip_version_suffixes, ManifestSource,
};
use nvmd::npm::{
    flag_args, has_global, is_flag, is_install_alias, is_link_alias, is_uninstall_alias,
    is_positional, is_update_alias, positional_args, CommandArg, GlobalCommand, InterceptedCommand,
};

fn args(list: &[&str]) -> Vec<String> {
    list.iter().map(|s| s.to_string()).collect()
}

#[test]
fn workspace_flag_consumes_its_value() {
    let found = positional_args(&args(&["--workspace", "pkg-a", "install", "lodash"]));
    assert_eq!(found, args(&["install", "lodash"]));
}

#[test]
fn workspace_flag_skips_exactly_one_argument() {
    let found = positional_args(&args(&["--workspace", "-g", "add", "--workspace", "--workspace", "x"]));
    assert_eq!(found, args(&["add", "x"]));
}

#[test]
fn workspace_flag_at_the_end_skips_nothing_more() {
    assert_eq!(positional_args(&args(&["i", "--workspace"])), args(&["i"]));
    assert_eq!(positional_args(&args(&[])), args(&[]));
}

#[test]
fn scanner_steps() {
    let mut skip = false;
    assert!(!is_positional("--workspace", &mut skip));
    assert!(skip);
    assert!(!is_positional("install", &mut skip));
    assert!(!skip);
    assert!(is_positional("install", &mut skip));
    assert!(!skip);
    assert!(!is_positional("-g", &mut skip));
    assert!(!skip);
    skip = true;
    assert!(!is_positional("--workspace", &mut skip));
    assert!(!skip);
}

#[test]
fn flags_begin_with_a_dash() {
    assert!(is_flag("-g"));
    assert!(is_flag("--global"));
    assert!(is_flag("-"));
    assert!(!is_flag("install"));
    assert!(!is_flag(""));
    assert!(!is_flag("a-b"));
    assert_eq!(
        flag_args(&args(&["install", "-g", "x", "--workspace", "w", "--save"])),
        args(&["-g", "--workspace", "--save"])
    );
}

#[test]
fn global_scope_is_told_by_either_flag() {
    assert!(has_global(&args(&["install", "-g", "x"])));
    assert!(has_global(&args(&["--global"])));
    assert!(!has_global(&args(&["install", "x", "-G", "--globals"])));
    assert!(!has_global(&args(&[])));
}

#[test]
fn alias_sets_are_as_npm_has_them() {
    for name in ["i", "in", "ins", "inst", "insta", "instal", "install", "isnt", "isnta", "isntal", "isntall", "add"] {
        assert!(is_install_alias(name), "{}", name);
        assert!(!is_uninstall_alias(name) && !is_update_alias(name) && !is_link_alias(name));
    }
    for name in ["un", "uninstall", "remove", "rm", "r"] {
        assert!(is_uninstall_alias(name), "{}", name);
        assert!(!is_install_alias(name));
    }
    for name in ["update", "udpate", "upgrade", "up"] {
        assert!(is_update_alias(name), "{}", name);
    }
    for name in ["link", "ln"] {
        assert!(is_link_alias(name), "{}", name);
    }
    assert!(!is_install_alias("installs"));
    assert!(!is_link_alias("unlink"));
    assert!(!is_uninstall_alias(""));
}

#[test]
fn global_install_is_intercepted_with_its_tools() {
    match CommandArg::from_npm(&args(&["--workspace", "pkg-a", "install", "-g", "lodash", "typescript@5"])) {
        CommandArg::Global(GlobalCommand::Install(cmd)) => {
            assert_eq!(cmd.common_args, args(&["install", "--workspace", "-g"]));
            assert_eq!(cmd.tools, args(&["lodash", "typescript@5"]));
        }
        _ => panic!("a global install is intercepted"),
    }
}

#[test]
fn local_install_is_standard() {
    assert!(matches!(
        CommandArg::from_npm(&args(&["--workspace", "pkg-a", "install", "lodash"])),
        CommandArg::Standard
    ));
    assert!(matches!(CommandArg::from_npm(&args(&["install", "-g"])), CommandArg::Standard));
    assert!(matches!(CommandArg::from_npm(&args(&["-g"])), CommandArg::Standard));
    assert!(matches!(CommandArg::from_npm(&args(&[])), CommandArg::Standard));
    assert!(matches!(CommandArg::from_npm(&args(&["run", "-g", "build"])), CommandArg::Standard));
}

#[test]
fn global_uninstall_needs_a_tool() {
    assert!(matches!(CommandArg::from_npm(&args(&["rm", "--global"])), CommandArg::Standard));
    match CommandArg::from_npm(&args(&["rm", "--global", "yarn"])) {
        CommandArg::Global(GlobalCommand::Uninstall(cmd)) => {
            assert_eq!(cmd.common_args, args(&["rm", "--global"]));
            assert_eq!(cmd.tools, args(&["yarn"]));
        }
        _ => panic!("a global uninstall is intercepted"),
    }
}

#[test]
fn unlink_and_update_need_the_global_scope_only() {
    match CommandArg::from_npm(&args(&["unlink", "-g"])) {
        CommandArg::Intercepted(InterceptedCommand::Unlink(cmd)) => {
            assert_eq!(cmd.common_args, args(&["unlink", "-g"]));
            assert!(cmd.tools.is_empty());
        }
        _ => panic!("a global unlink is intercepted"),
    }
    assert!(matches!(CommandArg::from_npm(&args(&["unlink", "x"])), CommandArg::Standard));
    match CommandArg::from_npm(&args(&["up", "-g"])) {
        CommandArg::Global(GlobalCommand::Upgrade(cmd)) => {
            assert_eq!(cmd.common_args, args(&["up", "-g"]));
            assert!(cmd.tools.is_empty());
        }
        _ => panic!("a global update is intercepted"),
    }
    assert!(matches!(CommandArg::from_npm(&args(&["update", "x"])), CommandArg::Standard));
}

#[test]
fn link_is_intercepted_in_any_scope() {
    match CommandArg::from_npm(&args(&["ln", "../pkg", "--force"])) {
        CommandArg::Intercepted(InterceptedCommand::Link(cmd)) => {
            assert_eq!(cmd.common_args, args(&["ln", "--force"]));
            assert_eq!(cmd.tools, args(&["../pkg"]));
        }
        _ => panic!("a link is intercepted"),
    }
}

#[test]
fn suffix_stripping() {
    assert_eq!(strip_version_suffix("left-pad@1.2.3").unwrap(), "left-pad");
    assert_eq!(strip_version_suffix("left-pad@latest").unwrap(), "left-pad");
    assert_eq!(strip_version_suffix("@scope/pkg@2.0.0").unwrap(), "@scope/pkg");
    assert_eq!(strip_version_suffix("@scope/pkg").unwrap(), "@scope/pkg");
}

#[test]
fn suffix_forms() {
    assert_eq!(strip_version_suffix("left-pad@\"^1.0\"").unwrap(), "left-pad");
    assert_eq!(strip_version_suffix("left-pad@npm:other-pkg").unwrap(), "left-pad");
    assert_eq!(strip_version_suffix("left-pad").unwrap(), "left-pad");
    assert_eq!(strip_version_suffix("left-pad@next").unwrap(), "left-pad@next");
    assert_eq!(strip_version_suffix("left-pad@late").unwrap(), "left-pad@late");
    assert_eq!(strip_version_suffix("a@x@1@2").unwrap(), "a@x");
    assert_eq!(strip_version_suffix("pkg@").unwrap(), "pkg@");
    assert_eq!(strip_version_suffix("").unwrap(), "");
    assert_eq!(strip_version_suffix("@").unwrap(), "@");
}

#[test]
fn suffix_never_begins_at_the_first_character() {
    assert_eq!(strip_version_suffix("@1scope/pkg").unwrap(), "@1scope/pkg");
    assert_eq!(strip_version_suffix("@latest/pkg@3").unwrap(), "@latest/pkg");
    assert_eq!(strip_version_suffix("@npm:x").unwrap(), "@npm:x");
    assert_eq!(strip_version_suffix("@@1").unwrap(), "@");
}

#[test]
fn suffix_stripping_counts_characters_not_bytes() {
    assert_eq!(strip_version_suffix("päckage@1.0.0").unwrap(), "päckage");
    assert_eq!(strip_version_suffix("@scöpe/名前@latest").unwrap(), "@scöpe/名前");
}

#[test]
fn package_name_follows_the_search() {
    assert_eq!(package_name_from("left-pad@1", Some("left-pad".to_string())), "left-pad");
    assert_eq!(package_name_from("@s/p@1", Some("s/p".to_string())), "@s/p");
    assert_eq!(package_name_from("@s/p", None), "@s/p");
    assert_eq!(package_name_from("plain", None), "plain");
}

#[test]
fn suffixes_are_stripped_from_each_spec() {
    let names = strip_version_suffixes(&args(&["a@1", "@b/c", "d@latest", "e"])).unwrap();
    assert_eq!(names, args(&["a", "@b/c", "d", "e"]));
}

#[test]
fn relative_paths_begin_with_a_dot_segment() {
    for arg in [".", "..", "./pkg", "../pkg", "./", "../", ".//pkg", "../../x"] {
        assert!(is_relative_path(arg, Platform::Unix), "{}", arg);
        assert!(is_relative_path(arg, Platform::Windows), "{}", arg);
    }
    for arg in ["", "pkg", ".hidden", "..hidden", "...", "/abs", "@scope/pkg", "pkg/./x", ".a/b"] {
        assert!(!is_relative_path(arg, Platform::Unix), "{}", arg);
        assert!(!is_relative_path(arg, Platform::Windows), "{}", arg);
    }
    assert!(is_relative_path(".\\pkg", Platform::Windows));
    assert!(is_relative_path("..\\pkg", Platform::Windows));
    assert!(!is_relative_path(".\\pkg", Platform::Unix));
    assert!(!is_relative_path("..\\pkg", Platform::Unix));
}

#[test]
fn only_relative_paths_are_link_targets() {
    let tools = args(&["../a", "left-pad", "./b", "/abs/c", ".."]);
    assert_eq!(relative_args(&tools, Platform::Unix), args(&["../a", "./b", ".."]));
}

#[test]
fn install_reads_the_manifests_of_the_stripped_specs() {
    match CommandArg::from_npm(&args(&["i", "-g", "typescript@5.4", "@angular/cli@latest"])) {
        CommandArg::Global(cmd) => {
            assert!(matches!(cmd.before_source().unwrap(), ManifestSource::Nothing));
            match cmd.after_source().unwrap() {
                ManifestSource::GlobalPackages(names) => {
                    assert_eq!(names, args(&["typescript", "@angular/cli"]))
                }
                _ => panic!("an install reads global packages"),
            }
        }
        _ => panic!("a global install is intercepted"),
    }
}

#[test]
fn uninstall_reads_its_manifests_beforehand() {
    let cmd = CommandArg::from_npm(&args(&["un", "-g", "typescript@5"]));
    match cmd.before_source().unwrap() {
        ManifestSource::GlobalPackages(names) => assert_eq!(names, args(&["typescript"])),
        _ => panic!("an uninstall reads global packages"),
    }
    assert!(matches!(cmd.after_source(Platform::Unix).unwrap(), ManifestSource::Nothing));
}

#[test]
fn unlink_without_tools_reads_the_working_directory() {
    let cmd = CommandArg::from_npm(&args(&["unlink", "-g"]));
    assert!(matches!(cmd.before_source().unwrap(), ManifestSource::CurrentDir));
    let cmd = CommandArg::from_npm(&args(&["unlink", "-g", "tool"]));
    match cmd.before_source().unwrap() {
        ManifestSource::GlobalPackages(names) => assert_eq!(names, args(&["tool"])),
        _ => panic!("an unlink of named packages reads global packages"),
    }
}

#[test]
fn link_reads_the_working_directory_or_the_relative_ones() {
    let cmd = CommandArg::from_npm(&args(&["link"]));
    assert!(matches!(cmd.before_source().unwrap(), ManifestSource::Nothing));
    assert!(matches!(cmd.after_source(Platform::Unix).unwrap(), ManifestSource::CurrentDir));
    let cmd = CommandArg::from_npm(&args(&["link", "../a", "left-pad"]));
    match cmd.after_source(Platform::Unix).unwrap() {
        ManifestSource::RelativeDirs(dirs) => assert_eq!(dirs, args(&["../a"])),
        _ => panic!("a link of directories reads them"),
    }
    let cmd = CommandArg::from_npm(&args(&["link", "left-pad"]));
    match cmd.after_source(Platform::Unix).unwrap() {
        ManifestSource::RelativeDirs(dirs) => assert!(dirs.is_empty()),
        _ => panic!("a link of a registry package reads no directory"),
    }
}

#[test]
fn standard_commands_read_nothing() {
    let cmd = CommandArg::from_npm(&args(&["test"]));
    assert!(matches!(cmd.before_source().unwrap(), ManifestSource::Nothing));
    assert!(matches!(cmd.after_source(Platform::Windows).unwrap(), ManifestSource::Nothing));
    assert!(cmd.before_executor(&Vec::new()).is_empty());
}

#[test]
fn npm_answer_is_read_line_by_line() {
    assert_eq!(npm_prefix_candidates("/usr/lib/node_modules\n"), args(&["/usr/lib/node_modules"]));
    assert_eq!(
        npm_prefix_candidates("npm WARN x\r\n  C:\\nvmd\\node_modules  \r\n"),
        args(&["npm WARN x", "C:\\nvmd\\node_modules"])
    );
    assert_eq!(npm_prefix_candidates("a\n\nb"), args(&["a", "", "b"]));
    assert_eq!(npm_prefix_candidates("\n"), args(&[""]));
    assert_eq!(npm_prefix_candidates(" \t"), args(&[""]));
    assert!(npm_prefix_candidates("").is_empty());
}

#[test]
fn npm_prefix_is_the_first_directory() {
    let lines = args(&["npm WARN x", "/a", "/b"]);
    assert_eq!(get_npm_prefix(&lines, &vec![false, true, true]).unwrap(), "/a");
    assert_eq!(get_npm_prefix(&lines, &vec![false, false, true]).unwrap(), "/b");
    assert_eq!(get_npm_prefix(&lines, &vec![true]).unwrap(), "npm WARN x");
    assert!(matches!(get_npm_prefix(&lines, &vec![false, false, false]), Err(NvmdError::NoNpmPrefix)));
    assert!(matches!(get_npm_prefix(&lines, &vec![false]), Err(NvmdError::NoNpmPrefix)));
    assert!(matches!(get_npm_prefix(&Vec::new(), &vec![true]), Err(NvmdError::NoNpmPrefix)));
    assert_eq!(NvmdError::NoNpmPrefix.message(), "No valid npm prefix found");
}
