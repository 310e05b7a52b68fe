//! `nvmd use <version|group> [--project]`: pin a version, globally or for
//! the project of the working directory.

use vstd::prelude::*;
use crate::cli::{effects, outcome, probe_view, Command, Effect, EffectView, Session};
use crate::context::{
    bin_dir_of, entries_of, lemma_nearest_nvmdrc_decides, lemma_plain_version_file, resolved,
    version_in,
};
use crate::error::{ErrorView, NvmdError};
use crate::group::{found_group, group_names, joined_groups, lemma_join_group_once, GroupView};
use crate::home::{NvmdPath, PathView, Platform};
use crate::notice::{Notice, NoticeView, Source};
use crate::project::{lemma_patched_one_entry, patched, project_paths, ProjectView};
use crate::run::{launch_of, tool_name, tool_of, LaunchView, ToolView};
use crate::text::{distinct, is_whitespace_char, sanitize_version, sanitized};

verus! {

/// Pin a version.
#[derive(Debug)]
pub struct Use {
    /// The version, with or without a `v` before it, or the name of a group.
    pub version: String,
    /// Whether to pin the project of the working directory, not the global
    /// default.
    pub project: bool,
}

/// The version to pin, and whether it is that of a group.
#[derive(Debug)]
pub struct Target {
    pub version: String,
    pub group: bool,
}

/// The mathematical model of a [`Target`].
pub struct TargetView {
    pub version: Seq<char>,
    pub group: bool,
}

impl View for Target {
    type V = TargetView;

    open spec fn view(&self) -> TargetView {
        TargetView { version: self.version@, group: self.group }
    }
}

/// The file whose presence shows that `version` is installed and can run:
/// its `node`.
pub open spec fn node_file_of(dir: PathView, version: Seq<char>, platform: Platform) -> PathView {
    match platform {
        Platform::Unix => dir.join(version).join("bin"@).join("node"@),
        Platform::Windows => dir.join(version).join("node.exe"@),
    }
}

/// The `node` of `version` under the versions directory `dir`.
pub fn node_file(dir: &NvmdPath, version: &str, platform: Platform) -> (r: NvmdPath)
    ensures
        r@ == node_file_of(dir@, version@, platform),
{
    match platform {
        Platform::Unix => dir.join(version).join("bin").join("node"),
        Platform::Windows => dir.join(version).join("node.exe"),
    }
}

/// Whether a pin has left alone all of a session but the projects and the
/// groups that the two registries hold: the home, the platform, the
/// versions directory and what was found in it, the active version, the
/// working directory, and the files that the registries are kept in.
pub open spec fn rest_stays(before: Session, after: Session) -> bool {
    &&& after.home == before.home
    &&& after.platform == before.platform
    &&& after.directory == before.directory
    &&& after.context == before.context
    &&& after.entries == before.entries
    &&& after.project_path == before.project_path
    &&& after.project_name == before.project_name
    &&& after.projects.path == before.projects.path
    &&& after.groups.path == before.groups.path
}

/// The model of a target or the failure to tell it.
pub open spec fn target_view(r: Result<Target, NvmdError>) -> Result<TargetView, ErrorView> {
    match r {
        Ok(target) => Ok(target@),
        Err(e) => Err(e@),
    }
}

impl Use {
    /// The version to pin, for the project where `project`, else globally.
    ///
    /// For a project, the name of a group stands for the version of the
    /// group, which has to be set; any other text is a version. Globally a
    /// group cannot be used: its name is refused.
    pub open spec fn target_for(&self, project: bool, groups: Seq<GroupView>) -> Result<
        TargetView,
        ErrorView,
    > {
        if project {
            match found_group(groups, self.version@) {
                Some(group) => match group.version {
                    Some(version) => Ok(TargetView { version, group: true }),
                    None => Err(ErrorView::GroupVersionUnset(self.version@)),
                },
                None => Ok(TargetView { version: sanitized(self.version@), group: false }),
            }
        } else if group_names(groups).contains(self.version@) {
            Err(ErrorView::GroupOnlyForProjects(self.version@))
        } else {
            Ok(TargetView { version: sanitized(self.version@), group: false })
        }
    }

    /// The version to pin.
    pub open spec fn target_of(&self, groups: Seq<GroupView>) -> Result<TargetView, ErrorView> {
        self.target_for(self.project, groups)
    }

    /// The file that has to be there for the version to be pinned.
    pub open spec fn probe_of(&self, groups: Seq<GroupView>, dir: PathView, platform: Platform) -> Result<
        Option<PathView>,
        ErrorView,
    > {
        match self.target_of(groups) {
            Ok(target) => Ok(Some(node_file_of(dir, target.version, platform))),
            Err(e) => Err(e),
        }
    }

    /// What the project registry records as the version of the project: the
    /// name of the group where one is used, else the version itself.
    pub open spec fn reference(&self, target: TargetView) -> Seq<char> {
        if target.group {
            self.version@
        } else {
            target.version
        }
    }

    /// The line that confirms the pin.
    pub open spec fn confirmation(&self, target: TargetView) -> Seq<char> {
        if target.group {
            "Now using node v"@ + target.version + " ("@ + self.version@ + ")"@
        } else {
            "Now using node v"@ + target.version
        }
    }

    /// What pinning the global default does: the version is written to the
    /// default file.
    pub open spec fn global_effects(&self, home: PathView, target: TargetView) -> Seq<EffectView> {
        seq![
            EffectView::WriteFile { path: home.join("default"@), content: target.version },
            EffectView::Print { text: self.confirmation(target), green: false },
            EffectView::Notify(
                NoticeView { source: Source::Current, name: None, version: Some(target.version) },
            ),
        ]
    }

    /// What pinning a project does: the registries are saved, the one of
    /// the groups where a group is used, and the version itself is written
    /// to the `.nvmdrc` of the project.
    pub open spec fn project_effects(
        &self,
        project_path: Seq<char>,
        project_name: Seq<char>,
        target: TargetView,
    ) -> Seq<EffectView> {
        let tail = seq![
            EffectView::WriteFile {
                path: PathView { base: project_path, parts: seq![".nvmdrc"@] },
                content: target.version,
            },
            EffectView::Print { text: self.confirmation(target), green: false },
            EffectView::Notify(
                NoticeView {
                    source: Source::Project,
                    name: Some(project_name),
                    version: Some(self.reference(target)),
                },
            ),
        ];
        if target.group {
            seq![EffectView::SaveProjects, EffectView::SaveGroups] + tail
        } else {
            seq![EffectView::SaveProjects] + tail
        }
    }

    /// Whether pinning the global default has come to `result`.
    pub open spec fn global_outcome(
        &self,
        before: Session,
        present: bool,
        result: Result<Seq<EffectView>, ErrorView>,
    ) -> bool {
        result == match self.target_for(false, before.groups@) {
            Ok(target) => if present {
                Ok(self.global_effects(before.home@, target))
            } else {
                Err(ErrorView::NotInstalled(target.version))
            },
            Err(e) => Err(e),
        }
    }

    /// Whether pinning the project of the working directory has led from
    /// the session `before` to the session `after` and to `result`.
    ///
    /// A version that is there is pinned: the project is recorded with the
    /// version, or with the name of the group that was used, at some time;
    /// where a group was used the project joins it. Else the command fails
    /// and the registries stay as they are.
    pub open spec fn project_outcome(
        &self,
        before: Session,
        after: Session,
        present: bool,
        result: Result<Seq<EffectView>, ErrorView>,
    ) -> bool {
        match self.target_for(true, before.groups@) {
            Ok(target) => if present {
                &&& result == Ok::<_, ErrorView>(
                    self.project_effects(before.project_path@, before.project_name@, target),
                )
                &&& exists|now: Seq<char>|
                    after.projects@ == #[trigger] patched(
                        before.projects@,
                        before.project_path@,
                        before.project_name@,
                        self.reference(target),
                        now,
                    )
                &&& after.groups@ == if target.group {
                    joined_groups(before.groups@, self.version@, before.project_path@)
                } else {
                    before.groups@
                }
                &&& rest_stays(before, after)
            } else {
                &&& result == Err::<Seq<EffectView>, _>(ErrorView::NotInstalled(target.version))
                &&& after == before
            },
            Err(e) => {
                &&& result == Err::<Seq<EffectView>, _>(e)
                &&& after == before
            },
        }
    }

    /// Whether the command has led from the session `before` to the session
    /// `after` and to `result`.
    pub open spec fn pinned(
        &self,
        before: Session,
        after: Session,
        present: bool,
        result: Result<Seq<EffectView>, ErrorView>,
    ) -> bool {
        if self.project {
            self.project_outcome(before, after, present, result)
        } else {
            after == before && self.global_outcome(before, present, result)
        }
    }

    /// The version to pin, for the project where `project`, else globally.
    fn target_in(&self, project: bool, groups: &crate::group::Groups) -> (r: Result<
        Target,
        NvmdError,
    >)
        ensures
            target_view(r) == self.target_for(project, groups@),
    {
        if project {
            match groups.find_by_name(self.version.as_str()) {
                Some(group) => match &group.version {
                    Some(version) => Ok(Target { version: version.clone(), group: true }),
                    None => Err(NvmdError::GroupVersionUnset(self.version.clone())),
                },
                None => Ok(
                    Target { version: sanitize_version(self.version.as_str()), group: false },
                ),
            }
        } else if groups.contains(self.version.as_str()) {
            Err(NvmdError::GroupOnlyForProjects(self.version.clone()))
        } else {
            Ok(Target { version: sanitize_version(self.version.as_str()), group: false })
        }
    }

    /// The version to pin, given the groups.
    pub fn target(&self, groups: &crate::group::Groups) -> (r: Result<Target, NvmdError>)
        ensures
            target_view(r) == self.target_of(groups@),
    {
        self.target_in(self.project, groups)
    }

    /// The line that confirms the pin.
    fn confirm(&self, target: &Target) -> (r: String)
        ensures
            r@ == self.confirmation(target@),
    {
        let mut text = "Now using node v".to_owned();
        text.append(target.version.as_str());
        if target.group {
            text.append(" (");
            text.append(self.version.as_str());
            text.append(")");
        }
        text
    }

    /// Pins the global default. `present` says whether the `node` of the
    /// version is there.
    pub fn use_global(&self, session: &Session, present: bool) -> (r: Result<
        Vec<Effect>,
        NvmdError,
    >)
        ensures
            self.global_outcome(*session, present, outcome(r)),
    {
        let target = match self.target_in(false, &session.groups) {
            Ok(target) => target,
            Err(e) => {
                return Err(e);
            },
        };
        if !present {
            return Err(NvmdError::NotInstalled(target.version));
        }
        let mut out: Vec<Effect> = Vec::new();
        out.push(
            Effect::WriteFile {
                path: session.home.default_path(),
                content: target.version.clone(),
            },
        );
        out.push(Effect::Print { text: self.confirm(&target), green: false });
        out.push(Effect::Notify(Notice::from_current(target.version.clone())));
        assert(effects(out@) =~= self.global_effects(session.home@, target@));
        Ok(out)
    }

    /// Pins the project of the working directory. `present` says whether
    /// the `node` of the version is there.
    pub fn use_project(&self, session: &mut Session, present: bool) -> (r: Result<
        Vec<Effect>,
        NvmdError,
    >)
        ensures
            self.project_outcome(*old(session), *final(session), present, outcome(r)),
    {
        let target = match self.target_in(true, &session.groups) {
            Ok(target) => target,
            Err(e) => {
                return Err(e);
            },
        };
        if !present {
            return Err(NvmdError::NotInstalled(target.version));
        }
        let reference = if target.group {
            self.version.clone()
        } else {
            target.version.clone()
        };
        session.projects.patch(
            session.project_path.as_str(),
            session.project_name.as_str(),
            reference.as_str(),
        );
        let mut out: Vec<Effect> = Vec::new();
        out.push(Effect::SaveProjects);
        if target.group {
            session.groups.update(self.version.as_str(), session.project_path.as_str());
            out.push(Effect::SaveGroups);
        }
        let nvmdrc = NvmdPath::new(session.project_path.clone()).join(".nvmdrc");
        out.push(Effect::WriteFile { path: nvmdrc, content: target.version.clone() });
        out.push(Effect::Print { text: self.confirm(&target), green: false });
        out.push(Effect::Notify(Notice::from_project(session.project_name.clone(), reference)));
        assert(effects(out@) =~= self.project_effects(
            old(session).project_path@,
            old(session).project_name@,
            target@,
        ));
        proof {
            let result = Ok::<Seq<EffectView>, ErrorView>(effects(out@));
            assert(self.target_for(true, old(session).groups@) == Ok::<_, ErrorView>(target@));
            assert(rest_stays(*old(session), *session));
            assert(self.project_outcome(*old(session), *session, present, result));
        }
        Ok(out)
    }
}

impl Command for Use {
    fn probe(&self, session: &Session) -> (r: Result<Option<NvmdPath>, NvmdError>)
        ensures
            probe_view(r) == self.probe_of(session.groups@, session.directory@, session.platform),
    {
        match self.target(&session.groups) {
            Ok(target) => Ok(
                Some(node_file(&session.directory, target.version.as_str(), session.platform)),
            ),
            Err(e) => Err(e),
        }
    }

    fn run(self, session: &mut Session, present: bool) -> (r: Result<Vec<Effect>, NvmdError>)
        ensures
            self.pinned(*old(session), *final(session), present, outcome(r)),
    {
        if self.project {
            self.use_project(session, present)
        } else {
            self.use_global(session, present)
        }
    }
}

/// A project that is pinned to a group gets the version of the group in
/// its `.nvmdrc` and the name of the group in the project registry, where
/// it is then known exactly once if no path was known twice before; and it
/// joins the group once: pinning it again adds nothing to the group.
pub proof fn lemma_group_pin_round_trip(
    pin: Use,
    groups: Seq<GroupView>,
    group: GroupView,
    version: Seq<char>,
    projects: Seq<ProjectView>,
    project_path: Seq<char>,
    project_name: Seq<char>,
    now: Seq<char>,
)
    requires
        found_group(groups, pin.version@) == Some(group),
        group.version == Some(version),
        distinct(project_paths(projects)),
    ensures
        ({
            let target = TargetView { version, group: true };
            let effects = pin.project_effects(project_path, project_name, target);
            let once = joined_groups(groups, pin.version@, project_path);
            let recorded = patched(projects, project_path, project_name, pin.version@, now);
            &&& pin.target_for(true, groups) == Ok::<_, ErrorView>(target)
            &&& pin.reference(target) == pin.version@
            &&& effects[2] == (EffectView::WriteFile {
                path: PathView { base: project_path, parts: seq![".nvmdrc"@] },
                content: version,
            })
            &&& exists|at: int|
                {
                    &&& 0 <= at < recorded.len()
                    &&& (#[trigger] recorded[at]).path == project_path
                    &&& recorded[at].version == Some(pin.version@)
                    &&& forall|j: int|
                        0 <= j < recorded.len() && recorded[j].path == project_path ==> j == at
                }
            &&& found_group(once, pin.version@) == Some(group.joined(project_path))
            &&& group.joined(project_path).version == Some(version)
            &&& group.joined(project_path).projects.contains(project_path)
            &&& pin.target_for(true, once) == Ok::<_, ErrorView>(target)
            &&& joined_groups(once, pin.version@, project_path) == once
        }),
{
    lemma_join_group_once(groups, pin.version@, project_path);
    let recorded = patched(projects, project_path, project_name, pin.version@, now);
    let at = lemma_patched_one_entry(projects, project_path, project_name, pin.version@, now);
    assert(recorded[at].path == project_path);
}

/// A global pin decides which `node` runs next. With no `.nvmdrc` that
/// names a version, the shim called as `node` starts `node` with the
/// directory of the binaries of the version in the global default file
/// first in `PATH`, the inherited directories after it and the arguments as
/// they came; and once another installed version has been pinned globally,
/// the default file holds that version, and `node` runs under it.
pub proof fn lemma_pin_then_node(
    pin: Use,
    groups: Seq<GroupView>,
    home: PathView,
    nvmdrc: Seq<Option<Seq<char>>>,
    default: Seq<char>,
    dir: PathView,
    platform: Platform,
    inherited: Seq<Seq<char>>,
    args: Seq<Seq<char>>,
)
    requires
        forall|i: int| 0 <= i < nvmdrc.len() ==> version_in(nvmdrc[i]) is None,
        default.len() > 0,
        !is_whitespace_char(default[0]),
        !is_whitespace_char(default.last()),
        !group_names(groups).contains(pin.version@),
        sanitized(pin.version@).len() > 0,
        !is_whitespace_char(sanitized(pin.version@)[0]),
        !is_whitespace_char(sanitized(pin.version@).last()),
    ensures
        ({
            let pinned = sanitized(pin.version@);
            let target = TargetView { version: pinned, group: false };
            &&& tool_of(tool_name("node"@, Platform::Unix)) == ToolView::Node
            &&& launch_of(
                resolved(nvmdrc, Some(default)),
                dir,
                platform,
                true,
                inherited,
                "node"@,
                args,
            ) == Ok::<_, ErrorView>(
                LaunchView {
                    program: "node"@,
                    args,
                    path: seq![bin_dir_of(dir, default, platform)] + entries_of(inherited),
                },
            )
            &&& pin.target_for(false, groups) == Ok::<_, ErrorView>(target)
            &&& pin.global_effects(home, target)[0] == (EffectView::WriteFile {
                path: home.join("default"@),
                content: pinned,
            })
            &&& launch_of(
                resolved(nvmdrc, Some(pinned)),
                dir,
                platform,
                true,
                inherited,
                "node"@,
                args,
            ) == Ok::<_, ErrorView>(
                LaunchView {
                    program: "node"@,
                    args,
                    path: seq![bin_dir_of(dir, pinned, platform)] + entries_of(inherited),
                },
            )
        }),
{
    let pinned = sanitized(pin.version@);
    lemma_plain_version_file(default);
    lemma_plain_version_file(pinned);
    lemma_nearest_nvmdrc_decides(nvmdrc, Some(default), nvmdrc.len() as int);
    lemma_nearest_nvmdrc_decides(nvmdrc, Some(pinned), nvmdrc.len() as int);
    assert("node"@ != "nvmd"@) by {
        reveal_strlit("node");
        reveal_strlit("nvmd");
        assert("node"@[1] == 'o');
        assert("nvmd"@[1] == 'v');
    }
}

} // verus!
