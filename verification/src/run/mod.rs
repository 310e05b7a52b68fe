//! The tool dispatcher: which tool the shim was called as, and what it has
//! to start for it.

use vstd::prelude::*;

pub mod binary;
pub mod corepack;
pub mod engine;
pub mod npm;

use crate::context::{bin_dir_of, entries_of, paths, Context};
use crate::error::{ErrorView, NvmdError};
use crate::home::{NvmdPath, PathView, Platform};
use crate::text::{chars_of, clone_texts, opt_text, same_text, texts};

verus! {

/// The lower-case form of an ASCII capital; any other character itself.
pub open spec fn lower(c: char) -> char {
    if 'A' <= c && c <= 'Z' {
        ((c as u8 + 32) as u8) as char
    } else {
        c
    }
}

/// A text with each ASCII capital in lower case.
pub open spec fn lowered(s: Seq<char>) -> Seq<char> {
    Seq::new(s.len(), |i: int| lower(s[i]))
}

/// std's `str::to_ascii_lowercase`: a copy of the string in which each of
/// the ASCII letters `A` to `Z` is replaced by its lower-case form and every
/// other character is kept.
#[verifier::external_body]
fn to_ascii_lowercase(s: &str) -> (r: String)
    ensures
        r@ == lowered(s@),
{
    s.to_ascii_lowercase()
}

/// Whether `text` ends with `word`.
pub open spec fn ends_with(text: Seq<char>, word: Seq<char>) -> bool {
    word.len() <= text.len() && text.skip(text.len() - word.len()) == word
}

/// A text without `word` at its end, however often it stands there.
pub open spec fn without_ending(text: Seq<char>, word: Seq<char>) -> Seq<char>
    decreases text.len(),
{
    if word.len() > 0 && ends_with(text, word) {
        without_ending(text.take(text.len() - word.len()), word)
    } else {
        text
    }
}

/// `text` without `word` at its end, however often it stands there.
pub fn trim_end_matches(text: &str, word: &str) -> (r: String)
    ensures
        r@ == without_ending(text@, word@),
{
    let chars = chars_of(text);
    let ending = chars_of(word);
    let m = ending.len();
    let mut end: usize = chars.len();
    assert(chars@.take(end as int) =~= chars@);
    if m > 0 {
        loop
            invariant
                m == ending@.len(),
                m > 0,
                end <= chars@.len(),
                ending@ == word@,
                chars@ == text@,
                without_ending(chars@.take(end as int), word@) == without_ending(text@, word@),
            ensures
                without_ending(text@, word@) == chars@.take(end as int),
            decreases end,
        {
            if end < m {
                break;
            }
            let start = end - m;
            let mut k: usize = 0;
            while k < m && chars[start + k] == ending[k]
                invariant
                    k <= m,
                    m == ending@.len(),
                    start + m == end,
                    end <= chars@.len(),
                    forall|j: int| 0 <= j < k ==> chars@[start + j] == ending@[j],
                decreases m - k,
            {
                k += 1;
            }
            let ghost head = chars@.take(end as int);
            if k < m {
                break;
            }
            proof {
                assert(head.skip(head.len() - m) =~= ending@);
                assert(head.take(head.len() - m) =~= chars@.take(start as int));
            }
            end = start;
        }
    }
    text.substring_char(0, end).to_owned()
}

/// The name of the tool that a file name stands for: the file name itself
/// on Unix; on Windows, where names differ neither by case nor by `.exe`,
/// the file name in lower case and without that extension.
pub open spec fn tool_name(file_name: Seq<char>, platform: Platform) -> Seq<char> {
    match platform {
        Platform::Unix => file_name,
        Platform::Windows => without_ending(lowered(file_name), ".exe"@),
    }
}

/// The name of the tool that a file name stands for.
pub fn tool_name_from_file_name(file_name: &str, platform: Platform) -> (r: String)
    ensures
        r@ == tool_name(file_name@, platform),
{
    match platform {
        Platform::Unix => file_name.to_owned(),
        Platform::Windows => {
            let lowercase = to_ascii_lowercase(file_name);
            trim_end_matches(lowercase.as_str(), ".exe")
        },
    }
}

/// The name of the tool that the shim was called as, out of the file name
/// of the first argument of the process, if it has one.
pub fn get_tool_name(file_name: Option<String>, platform: Platform) -> (r: Result<
    String,
    NvmdError,
>)
    ensures
        match file_name {
            Some(name) => r is Ok && r->Ok_0@ == tool_name(name@, platform),
            None => r is Err && r->Err_0@ == ErrorView::ToolNameUnknown,
        },
{
    match file_name {
        Some(name) => Ok(tool_name_from_file_name(name.as_str(), platform)),
        None => Err(NvmdError::ToolNameUnknown),
    }
}

/// What the shim does under one of its names.
#[derive(Debug)]
pub enum Tool {
    /// The shim's own command line.
    Nvmd,
    /// `node`, passed through.
    Node,
    /// `npm`, intercepted.
    Npm,
    /// `corepack`, intercepted.
    Corepack,
    /// `npx`, passed through.
    Npx,
    /// Any other binary, passed through if the active version has it.
    Binary(String),
}

/// The mathematical model of a [`Tool`].
pub enum ToolView {
    Nvmd,
    Node,
    Npm,
    Corepack,
    Npx,
    Binary(Seq<char>),
}

impl View for Tool {
    type V = ToolView;

    open spec fn view(&self) -> ToolView {
        match self {
            Tool::Nvmd => ToolView::Nvmd,
            Tool::Node => ToolView::Node,
            Tool::Npm => ToolView::Npm,
            Tool::Corepack => ToolView::Corepack,
            Tool::Npx => ToolView::Npx,
            Tool::Binary(name) => ToolView::Binary(name@),
        }
    }
}

/// The tool of a name: five names have a tool of their own, every other
/// name is a binary of the active version.
pub open spec fn tool_of(exe: Seq<char>) -> ToolView {
    if exe == "nvmd"@ {
        ToolView::Nvmd
    } else if exe == "node"@ {
        ToolView::Node
    } else if exe == "npm"@ {
        ToolView::Npm
    } else if exe == "corepack"@ {
        ToolView::Corepack
    } else if exe == "npx"@ {
        ToolView::Npx
    } else {
        ToolView::Binary(exe)
    }
}

/// The tool of the name `exe`.
pub fn route(exe: String) -> (r: Tool)
    ensures
        r@ == tool_of(exe@),
{
    if same_text(exe.as_str(), "nvmd") {
        Tool::Nvmd
    } else if same_text(exe.as_str(), "node") {
        Tool::Node
    } else if same_text(exe.as_str(), "npm") {
        Tool::Npm
    } else if same_text(exe.as_str(), "corepack") {
        Tool::Corepack
    } else if same_text(exe.as_str(), "npx") {
        Tool::Npx
    } else {
        Tool::Binary(exe)
    }
}

/// The tool that the shim was called as.
pub fn execute(file_name: Option<String>, platform: Platform) -> (r: Result<Tool, NvmdError>)
    ensures
        match file_name {
            Some(name) => r is Ok && r->Ok_0@ == tool_of(tool_name(name@, platform)),
            None => r is Err && r->Err_0@ == ErrorView::ToolNameUnknown,
        },
{
    match get_tool_name(file_name, platform) {
        Ok(exe) => Ok(route(exe)),
        Err(e) => Err(e),
    }
}

/// The exit status of the shim, given how the child has ended or that the
/// shim itself has failed.
///
/// A child that has ended hands its own status on, whatever it is. One that
/// a signal has ended has none, which counts as success. An internal
/// failure gives 1.
pub fn exit_code<E>(outcome: &Result<Option<i32>, E>) -> (r: i32)
    ensures
        r == match *outcome {
            Ok(Some(code)) => code,
            Ok(None) => 0,
            Err(_) => 1,
        },
{
    match outcome {
        Ok(Some(code)) => *code,
        Ok(None) => 0,
        Err(_) => 1,
    }
}

/// A child process to start.
#[derive(Debug)]
pub struct Launch {
    /// The name of the program, looked up in `path`.
    pub program: String,
    /// Its arguments, all of them and as they came.
    pub args: Vec<String>,
    /// The directories of its `PATH`, in order.
    pub path: Vec<NvmdPath>,
}

/// The mathematical model of a [`Launch`].
pub struct LaunchView {
    pub program: Seq<char>,
    pub args: Seq<Seq<char>>,
    pub path: Seq<PathView>,
}

impl View for Launch {
    type V = LaunchView;

    open spec fn view(&self) -> LaunchView {
        LaunchView { program: self.program@, args: texts(self.args@), path: paths(self.path@) }
    }
}

/// What the start of `exe` under the active version comes to: the child to
/// start or the failure.
pub open spec fn launch_of(
    version: Option<Seq<char>>,
    dir: PathView,
    platform: Platform,
    installed: bool,
    inherited: Seq<Seq<char>>,
    exe: Seq<char>,
    args: Seq<Seq<char>>,
) -> Result<LaunchView, ErrorView> {
    match version {
        None => Err(ErrorView::NoDefaultVersion),
        Some(version) => if installed {
            Ok(
                LaunchView {
                    program: exe,
                    args,
                    path: seq![bin_dir_of(dir, version, platform)] + entries_of(inherited),
                },
            )
        } else {
            Err(ErrorView::VersionNotInstalled(version))
        },
    }
}

/// The model of what a start comes to.
pub open spec fn launch_view(r: Result<Launch, NvmdError>) -> Result<LaunchView, ErrorView> {
    match r {
        Ok(launch) => Ok(launch@),
        Err(e) => Err(e@),
    }
}

/// The child to start for `exe` under the active version, with the
/// arguments as they came and the binaries of the version first in `PATH`.
pub fn launch(
    context: &Context,
    dir: &NvmdPath,
    platform: Platform,
    installed: bool,
    inherited: &Vec<String>,
    exe: &str,
    args: &Vec<String>,
) -> (r: Result<Launch, NvmdError>)
    ensures
        launch_view(r) == launch_of(
            opt_text(context.version),
            dir@,
            platform,
            installed,
            texts(inherited@),
            exe@,
            texts(args@),
        ),
{
    match context.env_path(dir, platform, installed, inherited) {
        Ok(path) => Ok(Launch { program: exe.to_owned(), args: clone_texts(args), path }),
        Err(e) => Err(e),
    }
}

} // verus!
