use nvmd::context::{bin_dir, get_version, version_of, Context};
use nvmd::error::NvmdError;
use nvmd::home::{get_nvmd_path, nvmd_home, Loaded, NvmdHome, NvmdPath, Platform};
use nvmd::setting::{get_directory, Setting};
use nvmd::text::{sanitize_version, trim};

fn args(list: &[&str]) -> Vec<String> {
    list.iter().map(|s| s.to_string()).collect()
}

fn some(s: &str) -> Option<String> {
    Some(s.to_string())
}

fn flat(path: &NvmdPath) -> String {
    let mut out = path.base.clone();
    for part in &path.parts {
        out.push('|');
        out.push_str(part);
    }
    out
}

#[test]
fn nearest_nvmdrc_wins_over_the_default() {
    // .nvmdrc in /proj, resolving from /proj/sub
    let from_sub = vec![None, some("18.17.1"), None];
    assert_eq!(get_version(&from_sub, &some("20.0.0")), some("18.17.1"));
    // resolving from /other
    let from_other = vec![None, None];
    assert_eq!(get_version(&from_other, &some("20.0.0")), some("20.0.0"));
}

#[test]
fn version_files_are_trimmed() {
    assert_eq!(get_version(&vec![some("  18.17.1\n")], &None), some("18.17.1"));
    assert_eq!(get_version(&Vec::new(), &some("\t20.0.0\r\n")), some("20.0.0"));
    assert_eq!(version_of(&some(" v1 2 ")), some("v1 2"));
}

#[test]
fn blank_version_files_name_no_version() {
    assert_eq!(get_version(&vec![some(" \n"), some("16.0.0")], &some("20.0.0")), some("16.0.0"));
    assert_eq!(get_version(&vec![some(""), None], &some("20.0.0")), some("20.0.0"));
    assert_eq!(get_version(&vec![some("\n")], &some("  ")), None);
    assert_eq!(get_version(&Vec::new(), &None), None);
    assert_eq!(version_of(&None), None);
    assert_eq!(version_of(&some("\u{a0}\u{2003}")), None);
}

#[test]
fn nearer_directory_wins_over_farther() {
    let files = vec![some("14.0.0"), some("18.17.1")];
    assert_eq!(get_version(&files, &some("20.0.0")), some("14.0.0"));
    let context = Context::global(&files, &some("20.0.0"));
    assert_eq!(context.get_version(), some("14.0.0"));
    assert_eq!(context.version, some("14.0.0"));
}

#[test]
fn trim_removes_white_space_around() {
    assert_eq!(trim("  a b \n"), "a b");
    assert_eq!(trim("abc"), "abc");
    assert_eq!(trim(" \t\r\n"), "");
    assert_eq!(trim(""), "");
    assert_eq!(trim("\u{3000}é\u{2028}"), "é");
}

#[test]
fn sanitize_strips_one_leading_v() {
    assert_eq!(sanitize_version("v18.0.0"), "18.0.0");
    assert_eq!(sanitize_version("18.0.0"), "18.0.0");
    assert_eq!(sanitize_version("vv1"), "v1");
    assert_eq!(sanitize_version("v"), "");
    assert_eq!(sanitize_version(""), "");
    assert_eq!(sanitize_version("V1"), "V1");
}

#[test]
fn bin_directory_depends_on_the_platform() {
    let dir = NvmdPath::new("/v".to_string());
    assert_eq!(flat(&bin_dir(&dir, "18.0.0", Platform::Unix)), "/v|18.0.0|bin");
    assert_eq!(flat(&bin_dir(&dir, "18.0.0", Platform::Windows)), "/v|18.0.0");
    let context = Context { version: some("18.0.0") };
    assert_eq!(flat(&context.bin_path(&dir, Platform::Unix).unwrap()), "/v|18.0.0|bin");
    assert!(Context { version: None }.bin_path(&dir, Platform::Unix).is_none());
}

#[test]
fn env_path_puts_the_version_first_and_keeps_the_rest() {
    let dir = NvmdPath::new("/v".to_string());
    let context = Context { version: some("18.0.0") };
    let inherited = args(&["/usr/bin", "/bin", "/usr/bin", ""]);
    let path = context.env_path(&dir, Platform::Unix, true, &inherited).unwrap();
    let flat: Vec<String> = path.iter().map(flat).collect();
    assert_eq!(flat, args(&["/v|18.0.0|bin", "/usr/bin", "/bin", "/usr/bin", ""]));
    let path = context.env_path(&dir, Platform::Windows, true, &Vec::new()).unwrap();
    assert_eq!(path.len(), 1);
    assert_eq!(path[0].parts, args(&["18.0.0"]));
}

#[test]
fn env_path_without_version_fails() {
    let dir = NvmdPath::new("/v".to_string());
    let context = Context { version: None };
    for installed in [true, false] {
        match context.env_path(&dir, Platform::Unix, installed, &args(&["/bin"])) {
            Err(NvmdError::NoDefaultVersion) => {}
            other => panic!("{:?}", other),
        }
    }
}

#[test]
fn env_path_of_a_missing_version_fails() {
    let dir = NvmdPath::new("/v".to_string());
    let context = Context { version: some("99.0.0") };
    match context.env_path(&dir, Platform::Unix, false, &args(&["/bin"])) {
        Err(NvmdError::VersionNotInstalled(version)) => assert_eq!(version, "99.0.0"),
        other => panic!("{:?}", other),
    }
}

#[test]
fn home_layout() {
    let home = NvmdHome::new(NvmdPath::new("/home/u/.nvmd".to_string()));
    assert_eq!(flat(home.home()), "/home/u/.nvmd");
    assert_eq!(flat(&home.bin_dir()), "/home/u/.nvmd|bin");
    assert_eq!(flat(&home.versions_dir()), "/home/u/.nvmd|versions");
    assert_eq!(flat(&home.default_path()), "/home/u/.nvmd|default");
    assert_eq!(flat(&home.setting_path()), "/home/u/.nvmd|setting.json");
    assert_eq!(flat(&home.projects_path()), "/home/u/.nvmd|projects.json");
    assert_eq!(flat(&home.groups_path()), "/home/u/.nvmd|groups.json");
    assert_eq!(flat(&home.packages_path()), "/home/u/.nvmd|packages.json");
}

#[test]
fn home_comes_from_the_environment_or_the_user() {
    let home = nvmd_home(some("/opt/nvmd"), some("/home/u")).unwrap();
    assert_eq!(flat(home.home()), "/opt/nvmd");
    let home = nvmd_home(None, some("/home/u")).unwrap();
    assert_eq!(flat(home.home()), "/home/u|.nvmd");
    assert!(matches!(nvmd_home(None, None), Err(NvmdError::HomeNotFound)));
    assert_eq!(flat(&get_nvmd_path(some("/home/u")).unwrap()), "/home/u|.nvmd");
    assert!(matches!(get_nvmd_path(None), Err(NvmdError::HomeNotFound)));
}

#[test]
fn paths_join_and_clone() {
    let path = NvmdPath::new("/a".to_string()).join("b").join("c d");
    assert_eq!(path.base, "/a");
    assert_eq!(path.parts, args(&["b", "c d"]));
    let copy = path.clone();
    assert_eq!(flat(&copy), flat(&path));
}

#[test]
fn settings_fall_back() {
    let home = NvmdHome::new(NvmdPath::new("/h".to_string()));
    let unread = Setting::global(Loaded::Missing, &home);
    assert_eq!(flat(unread.directory.as_ref().unwrap()), "/h|versions");
    assert_eq!(unread.get_mirror(), "https://nodejs.org/dist");
    assert_eq!(flat(&unread.get_directory(&home)), "/h|versions");

    let broken = Setting::global(Loaded::Malformed, &home);
    assert_eq!(flat(broken.directory.as_ref().unwrap()), "/h|versions");
    assert_eq!(broken.mirror, some("https://nodejs.org/dist"));

    let empty = Setting::global(Loaded::Read(Setting { directory: None, mirror: None }), &home);
    assert!(empty.directory.is_none());
    assert_eq!(empty.get_mirror(), "https://nodejs.org/dist");
    assert_eq!(flat(&empty.get_directory(&home)), "/h|versions");

    let set = Setting {
        directory: Some(NvmdPath::new("/data/node".to_string())),
        mirror: some("https://mirror.example/dist"),
    };
    assert_eq!(set.get_mirror(), "https://mirror.example/dist");
    assert_eq!(flat(&set.get_directory(&home)), "/data/node");
    assert_eq!(flat(&get_directory(&Loaded::Read(set)).unwrap()), "/data/node");
    assert!(get_directory(&Loaded::Missing).is_none());
    assert!(get_directory(&Loaded::Malformed).is_none());

    let template = Setting::template();
    assert!(template.directory.is_none());
    assert_eq!(template.mirror, some("https://nodejs.org/dist"));
    assert!(get_directory(&Loaded::Read(template)).is_none());
}

#[test]
fn error_messages() {
    assert_eq!(NvmdError::HomeNotFound.message(), "Could not determine home directory");
    assert_eq!(NvmdError::ToolNameUnknown.message(), "Could not determine tool name");
    assert_eq!(
        NvmdError::NoDefaultVersion.message(),
        "The default Node version is not set, you can set it by executing \"nvmd use {version}\""
    );
    assert_eq!(
        NvmdError::VersionNotInstalled("18.0.0".to_string()).message(),
        "Node@v18.0.0 is not installed, please install it before using"
    );
    assert_eq!(
        NvmdError::NotInstalled("18.0.0".to_string()).message(),
        "Node@v18.0.0 has not been installed"
    );
    assert_eq!(
        NvmdError::VersionNotFound("99.0.0".to_string()).message(),
        "the version cannot be found: v99.0.0"
    );
    assert_eq!(NvmdError::CommandNotFound("tsc".to_string()).message(), "command not found: \"tsc\"");
    assert_eq!(
        NvmdError::GroupOnlyForProjects("web".to_string()).message(),
        "Group@web can only be used for projects"
    );
    assert_eq!(
        NvmdError::GroupVersionUnset("web".to_string()).message(),
        "The Node.js version for group 'web' has not been set yet"
    );
    assert_eq!(NvmdError::InvalidPattern.message(), "The pattern of version suffixes is not valid");
    assert_eq!(
        NvmdError::RegistryRead("packages.json".to_string()).message(),
        "failed to read the file with json format \"packages.json\""
    );
    assert_eq!(
        NvmdError::RegistryWrite("groups.json".to_string()).message(),
        "failed to write the file \"groups.json\""
    );
    assert_eq!(NvmdError::ProcessSpawn("npm".to_string()).message(), "failed to start \"npm\"");
}

#[test]
fn white_space_is_the_unicode_property() {
    let white = [
        '\u{9}', '\u{a}', '\u{b}', '\u{c}', '\u{d}', ' ', '\u{85}', '\u{a0}', '\u{1680}',
        '\u{2000}', '\u{2001}', '\u{2002}', '\u{2003}', '\u{2004}', '\u{2005}', '\u{2006}',
        '\u{2007}', '\u{2008}', '\u{2009}', '\u{200a}', '\u{2028}', '\u{2029}', '\u{202f}',
        '\u{205f}', '\u{3000}',
    ];
    assert_eq!(white.len(), 25);
    for c in white {
        assert_eq!(trim(&format!("{}18.0.0{}", c, c)), "18.0.0", "{:?}", c);
    }
    for c in ['\u{8}', '\u{e}', '\u{1f}', '\u{84}', '\u{86}', '\u{180e}', '\u{200b}', '\u{2060}', '\u{feff}', '_'] {
        let text = format!("{}18.0.0{}", c, c);
        assert_eq!(trim(&text), text, "{:?}", c);
    }
}
