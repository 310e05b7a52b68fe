//! The shim link manager: the aliases in the shared `bin` directory under
//! which the shim is found as `yarn`, `tsc` or any other global binary.

use vstd::prelude::*;
use crate::home::{NvmdHome, NvmdPath, PathView, Platform};
use crate::text::texts;

verus! {

/// What happens to the shim of one binary.
#[derive(Debug)]
pub enum ShimAction {
    /// The binary gets its shim.
    Link(String),
    /// The binary loses its shim.
    Unlink(String),
}

/// The mathematical model of a [`ShimAction`].
pub enum ShimActionView {
    Link(Seq<char>),
    Unlink(Seq<char>),
}

impl View for ShimAction {
    type V = ShimActionView;

    open spec fn view(&self) -> ShimActionView {
        match self {
            ShimAction::Link(name) => ShimActionView::Link(name@),
            ShimAction::Unlink(name) => ShimActionView::Unlink(name@),
        }
    }
}

/// The models of a list of actions, in order.
pub open spec fn actions(list: Seq<ShimAction>) -> Seq<ShimActionView> {
    Seq::new(list.len(), |i: int| list[i]@)
}

/// A shim for each name, in order.
pub open spec fn link_each(names: Seq<Seq<char>>) -> Seq<ShimActionView> {
    Seq::new(names.len(), |i: int| ShimActionView::Link(names[i]))
}

/// No shim for any of the names, in order.
pub open spec fn unlink_each(names: Seq<Seq<char>>) -> Seq<ShimActionView> {
    Seq::new(names.len(), |i: int| ShimActionView::Unlink(names[i]))
}

/// The actions that give each of `names` its shim.
pub fn link_all(names: &Vec<String>) -> (r: Vec<ShimAction>)
    ensures
        actions(r@) == link_each(texts(names@)),
{
    let mut out: Vec<ShimAction> = Vec::new();
    let mut i: usize = 0;
    while i < names.len()
        invariant
            i <= names.len(),
            actions(out@) == link_each(texts(names@)).take(i as int),
        decreases names.len() - i,
    {
        out.push(ShimAction::Link(names[i].clone()));
        proof {
            let all = link_each(texts(names@));
            assert(all.take(i + 1) =~= all.take(i as int).push(all[i as int]));
        }
        i += 1;
    }
    out
}

/// The actions that take the shim of each of `names` away.
pub fn unlink_all(names: &Vec<String>) -> (r: Vec<ShimAction>)
    ensures
        actions(r@) == unlink_each(texts(names@)),
{
    let mut out: Vec<ShimAction> = Vec::new();
    let mut i: usize = 0;
    while i < names.len()
        invariant
            i <= names.len(),
            actions(out@) == unlink_each(texts(names@)).take(i as int),
        decreases names.len() - i,
    {
        out.push(ShimAction::Unlink(names[i].clone()));
        proof {
            let all = unlink_each(texts(names@));
            assert(all.take(i + 1) =~= all.take(i as int).push(all[i as int]));
        }
        i += 1;
    }
    out
}

/// One change to the files of the `bin` directory.
#[derive(Debug)]
pub enum FileOp {
    /// Make `alias` a symbolic link to `source`. An alias that is already
    /// there stays as it is.
    Symlink { source: NvmdPath, alias: NvmdPath },
    /// Copy `source` to `dest`, unless `dest` is already there.
    Copy { source: NvmdPath, dest: NvmdPath },
    /// Delete the file `path`. A file that is already gone is no failure.
    Remove { path: NvmdPath },
}

/// The mathematical model of a [`FileOp`].
pub enum FileOpView {
    Symlink { source: PathView, alias: PathView },
    Copy { source: PathView, dest: PathView },
    Remove { path: PathView },
}

impl View for FileOp {
    type V = FileOpView;

    open spec fn view(&self) -> FileOpView {
        match self {
            FileOp::Symlink { source, alias } => FileOpView::Symlink {
                source: source@,
                alias: alias@,
            },
            FileOp::Copy { source, dest } => FileOpView::Copy { source: source@, dest: dest@ },
            FileOp::Remove { path } => FileOpView::Remove { path: path@ },
        }
    }
}

/// The models of a list of file changes, in order.
pub open spec fn file_ops(list: Seq<FileOp>) -> Seq<FileOpView> {
    Seq::new(list.len(), |i: int| list[i]@)
}

/// The file changes that give `name` its shim under the home `home`.
///
/// On Unix the shim is a symbolic link to the `nvmd` executable. On Windows
/// it is a copy of `nvmd.exe` beside a copy of the `npm.cmd` wrapper.
pub open spec fn link_ops(home: PathView, platform: Platform, name: Seq<char>) -> Seq<FileOpView> {
    let bin = home.join("bin"@);
    match platform {
        Platform::Unix => seq![
            FileOpView::Symlink { source: bin.join("nvmd"@), alias: bin.join(name) },
        ],
        Platform::Windows => seq![
            FileOpView::Copy { source: bin.join("nvmd.exe"@), dest: bin.join(name + ".exe"@) },
            FileOpView::Copy { source: bin.join("npm.cmd"@), dest: bin.join(name + ".cmd"@) },
        ],
    }
}

/// The file changes that take the shim of `name` away.
pub open spec fn unlink_ops(home: PathView, platform: Platform, name: Seq<char>) -> Seq<
    FileOpView,
> {
    let bin = home.join("bin"@);
    match platform {
        Platform::Unix => seq![FileOpView::Remove { path: bin.join(name) }],
        Platform::Windows => seq![
            FileOpView::Remove { path: bin.join(name + ".exe"@) },
            FileOpView::Remove { path: bin.join(name + ".cmd"@) },
        ],
    }
}

/// `name` with `extension` after it.
fn with_extension(name: &str, extension: &str) -> (r: String)
    ensures
        r@ == name@ + extension@,
{
    let mut file = name.to_owned();
    file.append(extension);
    file
}

/// Gives `name` its shim: the file changes to make, in order.
pub fn link_package(home: &NvmdHome, platform: Platform, name: &str) -> (r: Vec<FileOp>)
    ensures
        file_ops(r@) == link_ops(home@, platform, name@),
{
    let bin = home.bin_dir();
    let mut ops: Vec<FileOp> = Vec::new();
    match platform {
        Platform::Unix => {
            ops.push(FileOp::Symlink { source: bin.join("nvmd"), alias: bin.join(name) });
        },
        Platform::Windows => {
            ops.push(
                FileOp::Copy {
                    source: bin.join("nvmd.exe"),
                    dest: bin.join(with_extension(name, ".exe").as_str()),
                },
            );
            ops.push(
                FileOp::Copy {
                    source: bin.join("npm.cmd"),
                    dest: bin.join(with_extension(name, ".cmd").as_str()),
                },
            );
        },
    }
    ops
}

/// Takes the shim of `name` away: the file changes to make, in order.
pub fn unlink_package(home: &NvmdHome, platform: Platform, name: &str) -> (r: Vec<FileOp>)
    ensures
        file_ops(r@) == unlink_ops(home@, platform, name@),
{
    let bin = home.bin_dir();
    let mut ops: Vec<FileOp> = Vec::new();
    match platform {
        Platform::Unix => {
            ops.push(FileOp::Remove { path: bin.join(name) });
        },
        Platform::Windows => {
            ops.push(FileOp::Remove { path: bin.join(with_extension(name, ".exe").as_str()) });
            ops.push(FileOp::Remove { path: bin.join(with_extension(name, ".cmd").as_str()) });
        },
    }
    ops
}

/// The file changes of one action.
pub open spec fn action_ops(home: PathView, platform: Platform, action: ShimActionView) -> Seq<
    FileOpView,
> {
    match action {
        ShimActionView::Link(name) => link_ops(home, platform, name),
        ShimActionView::Unlink(name) => unlink_ops(home, platform, name),
    }
}

/// The file changes of a list of actions, action after action.
pub open spec fn all_ops(home: PathView, platform: Platform, list: Seq<ShimActionView>) -> Seq<
    FileOpView,
>
    decreases list.len(),
{
    if list.len() == 0 {
        Seq::empty()
    } else {
        all_ops(home, platform, list.drop_last()) + action_ops(home, platform, list.last())
    }
}

/// The file changes that carry out `list`, in order.
pub fn shim_ops(home: &NvmdHome, platform: Platform, list: &Vec<ShimAction>) -> (r: Vec<FileOp>)
    ensures
        file_ops(r@) == all_ops(home@, platform, actions(list@)),
{
    let mut ops: Vec<FileOp> = Vec::new();
    let mut i: usize = 0;
    while i < list.len()
        invariant
            i <= list.len(),
            file_ops(ops@) == all_ops(home@, platform, actions(list@).take(i as int)),
        decreases list.len() - i,
    {
        let mut more = match &list[i] {
            ShimAction::Link(name) => link_package(home, platform, name.as_str()),
            ShimAction::Unlink(name) => unlink_package(home, platform, name.as_str()),
        };
        ops.append(&mut more);
        proof {
            assert(actions(list@).take(i + 1).drop_last() =~= actions(list@).take(i as int));
        }
        i += 1;
    }
    assert(actions(list@).take(list@.len() as int) =~= actions(list@));
    ops
}

} // verus!
