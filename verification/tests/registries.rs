use nvmd::group::{default_projects, Group, Groups};
use nvmd::error::NvmdError;
use nvmd::home::{Loaded, NvmdHome, NvmdPath};
use nvmd::package::{PackageEntry, Packages};
use nvmd::notice::{Notice, Source};
use nvmd::project::{Project, Projects};

fn args(list: &[&str]) -> Vec<String> {
    list.iter().map(|s| s.to_string()).collect()
}

fn some(s: &str) -> Option<String> {
    Some(s.to_string())
}

fn home() -> NvmdHome {
    NvmdHome::new(NvmdPath::new("/h".to_string()))
}

fn group(name: &str, version: Option<&str>, projects: &[&str]) -> Group {
    Group {
        name: name.to_string(),
        desc: None,
        projects: args(projects),
        version: version.map(|v| v.to_string()),
    }
}

fn project(path: &str, name: &str, version: &str, at: &str) -> Project {
    Project {
        active: false,
        name: name.to_string(),
        path: path.to_string(),
        version: some(version),
        create_at: some(at),
        update_at: some(at),
    }
}

#[test]
fn groups_are_found_by_name() {
    let groups = Groups::new(
        &home(),
        vec![group("web", Some("18.0.0"), &[]), group("api", None, &[]), group("web", Some("20.0.0"), &[])],
    );
    assert_eq!(groups.path.parts, args(&["groups.json"]));
    assert_eq!(groups.find_by_name("web").unwrap().version, some("18.0.0"));
    assert!(groups.find_by_name("api").unwrap().version.is_none());
    assert!(groups.find_by_name("Web").is_none());
    assert!(groups.contains("api"));
    assert!(!groups.contains(""));
    assert!(default_projects().is_empty());
}

#[test]
fn project_joins_a_group_once() {
    let mut groups = Groups::new(&home(), vec![group("api", None, &["/x"]), group("my-group", Some("18.0.0"), &["/a"])]);
    groups.update("my-group", "/proj");
    groups.update("my-group", "/proj");
    assert_eq!(groups.data[1].projects, args(&["/a", "/proj"]));
    assert_eq!(groups.data[0].projects, args(&["/x"]));
    groups.update("nobody", "/proj");
    assert_eq!(groups.data.len(), 2);
    assert_eq!(groups.data[1].name, "my-group");
    assert_eq!(groups.data[1].version, some("18.0.0"));
}

#[test]
fn only_the_first_group_of_a_name_is_joined() {
    let mut groups = Groups::new(&home(), vec![group("g", None, &[]), group("g", None, &[])]);
    groups.update("g", "/p");
    assert_eq!(groups.data[0].projects, args(&["/p"]));
    assert!(groups.data[1].projects.is_empty());
}

#[test]
fn new_project_goes_to_the_front() {
    let mut projects = Projects::new(&home(), vec![project("/old", "old", "16.0.0", "t0")]);
    assert_eq!(projects.path.parts, args(&["projects.json"]));
    projects.patch_at("/proj", "proj", "18.0.0", "t1");
    assert_eq!(projects.data.len(), 2);
    let first = &projects.data[0];
    assert!(first.active);
    assert_eq!(first.name, "proj");
    assert_eq!(first.path, "/proj");
    assert_eq!(first.version, some("18.0.0"));
    assert_eq!(first.create_at, some("t1"));
    assert_eq!(first.update_at, some("t1"));
    assert_eq!(projects.data[1].path, "/old");
}

#[test]
fn known_project_is_updated_in_place() {
    let mut projects = Projects::new(
        &home(),
        vec![project("/a", "a", "16.0.0", "t0"), project("/proj", "proj", "16.0.0", "t0")],
    );
    projects.patch_at("/proj", "renamed", "my-group", "t2");
    assert_eq!(projects.data.len(), 2);
    let second = &projects.data[1];
    assert!(!second.active);
    assert_eq!(second.name, "proj");
    assert_eq!(second.version, some("my-group"));
    assert_eq!(second.create_at, some("t0"));
    assert_eq!(second.update_at, some("t2"));
    assert_eq!(projects.data[0].version, some("16.0.0"));
    assert_eq!(projects.data[0].update_at, some("t0"));
}

#[test]
fn patch_stamps_the_time() {
    let mut projects = Projects::new(&home(), Vec::new());
    projects.patch("/proj", "proj", "18.0.0");
    assert_eq!(projects.data.len(), 1);
    let stamp = projects.data[0].update_at.clone().unwrap();
    assert!(!stamp.is_empty());
    assert_eq!(projects.data[0].create_at, Some(stamp));
    projects.patch("/proj", "proj", "20.0.0");
    assert_eq!(projects.data.len(), 1);
    assert_eq!(projects.data[0].version, some("20.0.0"));

    let saved = Projects::update_and_save(&home(), Vec::new(), "/p", "p", "18.0.0");
    assert_eq!(saved.path.base, "/h");
    assert_eq!(saved.data.len(), 1);
    assert_eq!(saved.data[0].path, "/p");
}

#[test]
fn notices() {
    let n = Notice::from_current("18.0.0".to_string());
    assert_eq!(n.source, Source::Current);
    assert_eq!(n.source_name(), "current");
    assert_eq!((n.name, n.version), (None, some("18.0.0")));
    let n = Notice::from_version();
    assert_eq!(n.source_name(), "version");
    assert_eq!((n.name.clone(), n.version.clone()), (None, None));
    let n = Notice::from_project("proj".to_string(), "web".to_string());
    assert_eq!(n.source_name(), "project");
    assert_eq!((n.name, n.version), (some("proj"), some("web")));
}

#[test]
fn missing_registries_are_empty() {
    assert!(Groups::load(&home(), Loaded::Missing).unwrap().data.is_empty());
    assert!(Projects::load(&home(), Loaded::Missing).unwrap().data.is_empty());
    let packages = Packages::load(&home(), Loaded::Missing).unwrap();
    assert!(packages.entries().is_empty());
    assert_eq!(packages.path().parts, args(&["packages.json"]));
}

#[test]
fn malformed_registries_are_fatal() {
    assert!(matches!(
        Groups::load(&home(), Loaded::Malformed),
        Err(NvmdError::RegistryRead(file)) if file == "groups.json"
    ));
    assert!(matches!(
        Projects::load(&home(), Loaded::Malformed),
        Err(NvmdError::RegistryRead(file)) if file == "projects.json"
    ));
    assert!(matches!(
        Packages::load(&home(), Loaded::Malformed),
        Err(NvmdError::RegistryRead(file)) if file == "packages.json"
    ));
}

#[test]
fn registries_hold_what_was_read() {
    let groups = Groups::load(&home(), Loaded::Read(vec![group("web", None, &[])])).unwrap();
    assert_eq!(groups.data.len(), 1);
    assert_eq!(groups.path.parts, args(&["groups.json"]));
    let projects =
        Projects::load(&home(), Loaded::Read(vec![project("/p", "p", "18.0.0", "t")])).unwrap();
    assert_eq!(projects.data[0].path, "/p");
    let entries = vec![PackageEntry { name: "tsc".to_string(), versions: args(&["18.0.0"]) }];
    let packages = Packages::load(&home(), Loaded::Read(entries)).unwrap();
    assert_eq!(packages.get("tsc").cloned(), Some(args(&["18.0.0"])));
}
