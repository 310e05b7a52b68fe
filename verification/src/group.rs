//! The group registry: named version pins that several projects share.

use vstd::prelude::*;
use crate::error::{ErrorView, NvmdError};
use crate::home::{Loaded, NvmdHome, NvmdPath};
use crate::package::occurrences;
use crate::text::{
    contains_text, first_at, is_first, lemma_first_exists, lemma_texts_push, opt_text, same_text,
    texts,
};

verus! {

/// A named version pin.
#[derive(Debug)]
pub struct Group {
    /// The name, by which the group is found.
    pub name: String,
    pub desc: Option<String>,
    /// The paths of the projects that use the group.
    pub projects: Vec<String>,
    /// The version that the group pins, once one is set.
    pub version: Option<String>,
}

/// The mathematical model of a [`Group`].
pub struct GroupView {
    pub name: Seq<char>,
    pub desc: Option<Seq<char>>,
    pub projects: Seq<Seq<char>>,
    pub version: Option<Seq<char>>,
}

impl View for Group {
    type V = GroupView;

    open spec fn view(&self) -> GroupView {
        GroupView {
            name: self.name@,
            desc: opt_text(self.desc),
            projects: texts(self.projects@),
            version: opt_text(self.version),
        }
    }
}

impl GroupView {
    /// The group with the project `path` among its projects: added at the
    /// end, unless it is already there.
    pub open spec fn joined(self, path: Seq<char>) -> GroupView {
        if self.projects.contains(path) {
            self
        } else {
            GroupView { projects: self.projects.push(path), ..self }
        }
    }
}

/// The projects of a group that is read without any.
pub fn default_projects() -> (r: Vec<String>)
    ensures
        r@.len() == 0,
{
    Vec::new()
}

/// The models of a list of groups, in order.
pub open spec fn groups_view(data: Seq<Group>) -> Seq<GroupView> {
    Seq::new(data.len(), |i: int| data[i]@)
}

/// The names of a list of groups, in order.
pub open spec fn group_names(groups: Seq<GroupView>) -> Seq<Seq<char>> {
    Seq::new(groups.len(), |i: int| groups[i].name)
}

/// The first group of the name `name`, if there is one.
pub open spec fn found_group(groups: Seq<GroupView>, name: Seq<char>) -> Option<GroupView> {
    if group_names(groups).contains(name) {
        Some(groups[first_at(group_names(groups), name)])
    } else {
        None
    }
}

/// The groups once the project `path` has joined the group `name`. Without
/// such a group nothing changes.
pub open spec fn joined_groups(groups: Seq<GroupView>, name: Seq<char>, path: Seq<char>) -> Seq<
    GroupView,
> {
    if group_names(groups).contains(name) {
        let at = first_at(group_names(groups), name);
        groups.update(at, groups[at].joined(path))
    } else {
        groups
    }
}

/// The place of the first group of the name `name`.
fn position(data: &Vec<Group>, name: &str) -> (r: Option<usize>)
    ensures
        match r {
            Some(at) => is_first(group_names(groups_view(data@)), name@, at as int),
            None => !group_names(groups_view(data@)).contains(name@),
        },
{
    let mut i: usize = 0;
    while i < data.len()
        invariant
            i <= data.len(),
            forall|j: int| 0 <= j < i ==> group_names(groups_view(data@))[j] != name@,
        decreases data.len() - i,
    {
        if same_text(data[i].name.as_str(), name) {
            return Some(i);
        }
        i += 1;
    }
    None
}

/// The group registry, as one command holds it between loading and saving.
#[derive(Debug)]
pub struct Groups {
    /// The file that the registry is kept in.
    pub path: NvmdPath,
    /// The groups, in the order of the file.
    pub data: Vec<Group>,
}

impl View for Groups {
    type V = Seq<GroupView>;

    open spec fn view(&self) -> Seq<GroupView> {
        groups_view(self.data@)
    }
}

impl Groups {
    /// The registry of the home `home`, holding `data`.
    pub fn new(home: &NvmdHome, data: Vec<Group>) -> (r: Self)
        ensures
            r.path@ == home@.join("groups.json"@),
            r.data == data,
    {
        Groups { path: home.groups_path(), data }
    }

    /// The registry of the home `home`, out of what reading its file has
    /// come to: a registry that has no file yet is empty, one whose file
    /// cannot be read is not replaced by an empty one.
    pub fn load(home: &NvmdHome, file: Loaded<Vec<Group>>) -> (r: Result<Self, NvmdError>)
        ensures
            match file {
                Loaded::Missing => r is Ok && r->Ok_0.data@.len() == 0,
                Loaded::Malformed => r is Err && r->Err_0@ == ErrorView::RegistryRead(
                    "groups.json"@,
                ),
                Loaded::Read(data) => r is Ok && r->Ok_0.data == data,
            },
            r matches Ok(groups) ==> groups.path@ == home@.join("groups.json"@),
    {
        match file {
            Loaded::Missing => Ok(Groups::new(home, Vec::new())),
            Loaded::Malformed => Err(NvmdError::RegistryRead("groups.json".to_owned())),
            Loaded::Read(data) => Ok(Groups::new(home, data)),
        }
    }

    /// The first group of the name `name`.
    pub fn find_by_name(&self, name: &str) -> (r: Option<&Group>)
        ensures
            match r {
                Some(group) => found_group(self@, name@) == Some(group@),
                None => found_group(self@, name@) is None,
            },
    {
        match position(&self.data, name) {
            Some(at) => {
                Some(&self.data[at])
            },
            None => None,
        }
    }

    /// Whether there is a group of the name `name`.
    pub fn contains(&self, name: &str) -> (r: bool)
        ensures
            r == group_names(self@).contains(name@),
    {
        position(&self.data, name).is_some()
    }

    /// The project `project_path` joins the group `name`: its path is added
    /// to the projects of the group, unless it is already among them.
    /// Without such a group nothing changes.
    pub fn update(&mut self, name: &str, project_path: &str)
        ensures
            final(self)@ == joined_groups(old(self)@, name@, project_path@),
            final(self).path == old(self).path,
    {
        match position(&self.data, name) {
            Some(at) => {
                if !contains_text(&self.data[at].projects, project_path) {
                    let ghost before = self.data@[at as int].projects@;
                    let owned = project_path.to_owned();
                    self.data[at].projects.push(owned);
                    proof {
                        lemma_texts_push(before, owned);
                    }
                }
            },
            None => {},
        }
    }
}

/// A path that is not among the projects does not occur among them.
proof fn lemma_occurrences_absent(projects: Seq<Seq<char>>, path: Seq<char>)
    requires
        !projects.contains(path),
    ensures
        occurrences(projects, path) == 0,
    decreases projects.len(),
{
    reveal(Seq::filter);
    if projects.len() > 0 {
        assert forall|p: Seq<char>| projects.drop_last().contains(p) implies projects.contains(
            p,
        ) by {}
        lemma_occurrences_absent(projects.drop_last(), path);
    }
}

/// Joining a group is idempotent: a project that joins the group `name` is
/// among its projects afterwards, once if it was not there before, and
/// joining again changes nothing. The names of the groups stay as they are.
pub proof fn lemma_join_group_once(groups: Seq<GroupView>, name: Seq<char>, path: Seq<char>)
    ensures
        ({
            let once = joined_groups(groups, name, path);
            let twice = joined_groups(once, name, path);
            &&& twice == once
            &&& group_names(once) == group_names(groups)
            &&& found_group(groups, name) matches Some(before) ==> {
                &&& found_group(once, name) == Some(before.joined(path))
                &&& before.joined(path).projects.contains(path)
                &&& !before.projects.contains(path) ==> occurrences(
                    before.joined(path).projects,
                    path,
                ) == 1
            }
        }),
{
    let once = joined_groups(groups, name, path);
    let names = group_names(groups);
    if names.contains(name) {
        lemma_first_exists(names, name);
        let at = first_at(names, name);
        let before = groups[at];
        assert(group_names(once) =~= names);
        if !before.projects.contains(path) {
            let longer = before.projects.push(path);
            assert(longer[before.projects.len() as int] == path);
            lemma_occurrences_absent(before.projects, path);
            assert(occurrences(longer, path) == 1) by {
                reveal(Seq::filter);
                assert(longer.drop_last() =~= before.projects);
            }
        }
    }
}

} // verus!
