//! The project registry: the directories with a pinned version, most
//! recently pinned first.

use vstd::prelude::*;
use crate::error::{ErrorView, NvmdError};
use crate::home::{Loaded, NvmdHome, NvmdPath};
use crate::text::{distinct, first_at, is_first, opt_text, same_text};

verus! {

/// A directory with a pinned version.
#[derive(Debug)]
pub struct Project {
    pub active: bool,
    /// The name of the directory.
    pub name: String,
    /// The absolute path of the directory, by which the project is found.
    pub path: String,
    /// The version, or the name of the group, that the project is pinned to.
    pub version: Option<String>,
    pub create_at: Option<String>,
    pub update_at: Option<String>,
}

/// The mathematical model of a [`Project`].
pub struct ProjectView {
    pub active: bool,
    pub name: Seq<char>,
    pub path: Seq<char>,
    pub version: Option<Seq<char>>,
    pub create_at: Option<Seq<char>>,
    pub update_at: Option<Seq<char>>,
}

impl View for Project {
    type V = ProjectView;

    open spec fn view(&self) -> ProjectView {
        ProjectView {
            active: self.active,
            name: self.name@,
            path: self.path@,
            version: opt_text(self.version),
            create_at: opt_text(self.create_at),
            update_at: opt_text(self.update_at),
        }
    }
}

/// The models of a list of projects, in order.
pub open spec fn projects_view(data: Seq<Project>) -> Seq<ProjectView> {
    Seq::new(data.len(), |i: int| data[i]@)
}

/// The paths of a list of projects, in order.
pub open spec fn project_paths(projects: Seq<ProjectView>) -> Seq<Seq<char>> {
    Seq::new(projects.len(), |i: int| projects[i].path)
}

/// A project that is pinned for the first time at the time `now`.
pub open spec fn new_project(
    path: Seq<char>,
    name: Seq<char>,
    version: Seq<char>,
    now: Seq<char>,
) -> ProjectView {
    ProjectView {
        active: true,
        name,
        path,
        version: Some(version),
        create_at: Some(now),
        update_at: Some(now),
    }
}

/// The projects once the directory `path` has been pinned to `version` at
/// the time `now`: a project that is known gets the version and the time in
/// its place, one that is new goes to the front.
pub open spec fn patched(
    projects: Seq<ProjectView>,
    path: Seq<char>,
    name: Seq<char>,
    version: Seq<char>,
    now: Seq<char>,
) -> Seq<ProjectView> {
    if project_paths(projects).contains(path) {
        let at = first_at(project_paths(projects), path);
        projects.update(
            at,
            ProjectView { version: Some(version), update_at: Some(now), ..projects[at] },
        )
    } else {
        seq![new_project(path, name, version, now)] + projects
    }
}

/// The place of the first project of the path `path`.
fn position(data: &Vec<Project>, path: &str) -> (r: Option<usize>)
    ensures
        match r {
            Some(at) => is_first(project_paths(projects_view(data@)), path@, at as int),
            None => !project_paths(projects_view(data@)).contains(path@),
        },
{
    let mut i: usize = 0;
    while i < data.len()
        invariant
            i <= data.len(),
            forall|j: int| 0 <= j < i ==> project_paths(projects_view(data@))[j] != path@,
        decreases data.len() - i,
    {
        if same_text(data[i].path.as_str(), path) {
            return Some(i);
        }
        i += 1;
    }
    None
}

/// The local time as the crate `time` writes it, or the time in UTC where
/// the local offset cannot be told.
///
/// Calls `time::OffsetDateTime::now_local`, on its failure
/// `time::OffsetDateTime::now_utc`, and formats the result. Nothing is
/// claimed of the text: it depends on the clock.
#[verifier::external_body]
fn now_text() -> String {
    match time::OffsetDateTime::now_local() {
        Ok(local) => local.to_string(),
        Err(_) => time::OffsetDateTime::now_utc().to_string(),
    }
}

/// The project registry, as one command holds it between loading and saving.
#[derive(Debug)]
pub struct Projects {
    /// The file that the registry is kept in.
    pub path: NvmdPath,
    /// The projects, most recently pinned first.
    pub data: Vec<Project>,
}

impl View for Projects {
    type V = Seq<ProjectView>;

    open spec fn view(&self) -> Seq<ProjectView> {
        projects_view(self.data@)
    }
}

impl Projects {
    /// The registry of the home `home`, holding `data`.
    pub fn new(home: &NvmdHome, data: Vec<Project>) -> (r: Self)
        ensures
            r.path@ == home@.join("projects.json"@),
            r.data == data,
    {
        Projects { path: home.projects_path(), data }
    }

    /// The registry of the home `home`, out of what reading its file has
    /// come to: a registry that has no file yet is empty, one whose file
    /// cannot be read is not replaced by an empty one.
    pub fn load(home: &NvmdHome, file: Loaded<Vec<Project>>) -> (r: Result<Self, NvmdError>)
        ensures
            match file {
                Loaded::Missing => r is Ok && r->Ok_0.data@.len() == 0,
                Loaded::Malformed => r is Err && r->Err_0@ == ErrorView::RegistryRead(
                    "projects.json"@,
                ),
                Loaded::Read(data) => r is Ok && r->Ok_0.data == data,
            },
            r matches Ok(projects) ==> projects.path@ == home@.join("projects.json"@),
    {
        match file {
            Loaded::Missing => Ok(Projects::new(home, Vec::new())),
            Loaded::Malformed => Err(NvmdError::RegistryRead("projects.json".to_owned())),
            Loaded::Read(data) => Ok(Projects::new(home, data)),
        }
    }

    /// Pins the directory `path` to `version` at the time `now`.
    pub fn patch_at(&mut self, path: &str, name: &str, version: &str, now: &str)
        ensures
            final(self)@ == patched(old(self)@, path@, name@, version@, now@),
            final(self).path == old(self).path,
    {
        match position(&self.data, path) {
            Some(at) => {
                self.data[at].version = Some(version.to_owned());
                self.data[at].update_at = Some(now.to_owned());
            },
            None => {
                let project = Project {
                    active: true,
                    name: name.to_owned(),
                    path: path.to_owned(),
                    version: Some(version.to_owned()),
                    create_at: Some(now.to_owned()),
                    update_at: Some(now.to_owned()),
                };
                self.data.insert(0, project);
            },
        }
    }

    /// Pins the directory `path` to `version` now.
    pub fn patch(&mut self, path: &str, name: &str, version: &str)
        ensures
            exists|now: Seq<char>|
                final(self)@ == #[trigger] patched(old(self)@, path@, name@, version@, now),
            final(self).path == old(self).path,
    {
        let now = now_text();
        self.patch_at(path, name, version, now.as_str());
    }

    /// The registry of the home `home` that holds `data`, with the directory
    /// `path` pinned to `version` now: what is to be saved.
    pub fn update_and_save(
        home: &NvmdHome,
        data: Vec<Project>,
        path: &str,
        name: &str,
        version: &str,
    ) -> (r: Self)
        ensures
            r.path@ == home@.join("projects.json"@),
            exists|now: Seq<char>|
                r@ == #[trigger] patched(projects_view(data@), path@, name@, version@, now),
    {
        let mut projects = Projects::new(home, data);
        projects.patch(path, name, version);
        projects
    }
}

/// Each directory is known at most once: where no path occurs twice among
/// the projects, none does after a pin, and the pinned directory is known.
pub proof fn lemma_patched_paths(
    projects: Seq<ProjectView>,
    path: Seq<char>,
    name: Seq<char>,
    version: Seq<char>,
    now: Seq<char>,
)
    ensures
        project_paths(patched(projects, path, name, version, now)).contains(path),
        distinct(project_paths(projects)) ==> distinct(
            project_paths(patched(projects, path, name, version, now)),
        ),
{
    let after = patched(projects, path, name, version, now);
    let paths = project_paths(projects);
    if paths.contains(path) {
        crate::text::lemma_first_exists(paths, path);
        assert(project_paths(after) =~= paths);
    } else {
        assert(project_paths(after)[0] == path);
        if distinct(paths) {
            assert forall|i: int, j: int| 0 <= i < j < project_paths(after).len() implies
                project_paths(after)[i] != project_paths(after)[j] by {
                if i == 0 {
                    assert(paths[j - 1] == project_paths(after)[j]);
                } else {
                    assert(paths[i - 1] != paths[j - 1]);
                }
            }
        }
    }
}

/// In a registry in which no path occurs twice, a directory that has been
/// pinned is known exactly once, and with the version it was pinned to.
pub proof fn lemma_patched_one_entry(
    projects: Seq<ProjectView>,
    path: Seq<char>,
    name: Seq<char>,
    version: Seq<char>,
    now: Seq<char>,
) -> (at: int)
    requires
        distinct(project_paths(projects)),
    ensures
        ({
            let after = patched(projects, path, name, version, now);
            &&& 0 <= at < after.len()
            &&& after[at].path == path
            &&& after[at].version == Some(version)
            &&& after[at].update_at == Some(now)
            &&& forall|j: int| 0 <= j < after.len() && after[j].path == path ==> j == at
        }),
{
    let after = patched(projects, path, name, version, now);
    let paths = project_paths(projects);
    lemma_patched_paths(projects, path, name, version, now);
    let at = if paths.contains(path) {
        crate::text::lemma_first_exists(paths, path);
        first_at(paths, path)
    } else {
        0
    };
    assert forall|j: int| 0 <= j < after.len() && after[j].path == path implies j == at by {
        assert(project_paths(after)[j] == path);
        assert(project_paths(after)[at] == path);
    }
    at
}

} // verus!
