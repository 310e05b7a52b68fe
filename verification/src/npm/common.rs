//! What the npm commands share: package specs and their version suffixes,
//! and telling a directory from a package name.

use vstd::prelude::*;
use crate::error::{ErrorView, NvmdError};
use crate::home::Platform;
use crate::text::{chars_of, lemma_texts_push, starts_with_char, texts, trim, trimmed};

verus! {

/// Whether `word` stands in `text` at the place `at`.
pub open spec fn has_at(text: Seq<char>, at: int, word: Seq<char>) -> bool {
    0 <= at && at + word.len() <= text.len() && text.subrange(at, at + word.len()) == word
}

/// Whether a version or tag suffix begins at the place `at` of a package
/// spec: an `@` followed by a digit, by `latest`, by a double quote or by
/// `npm:`.
pub open spec fn suffix_at(spec: Seq<char>, at: int) -> bool {
    &&& 0 <= at < spec.len()
    &&& spec[at] == '@'
    &&& {
        ||| at + 1 < spec.len() && '0' <= spec[at + 1] && spec[at + 1] <= '9'
        ||| has_at(spec, at + 1, "latest"@)
        ||| at + 1 < spec.len() && spec[at + 1] == '"'
        ||| has_at(spec, at + 1, "npm:"@)
    }
}

/// Whether `at` is the first place from `from` on at which a suffix begins.
pub open spec fn first_suffix(spec: Seq<char>, from: int, at: int) -> bool {
    &&& from <= at
    &&& suffix_at(spec, at)
    &&& forall|j: int| from <= j < at ==> !suffix_at(spec, j)
}

/// The package that a spec names: the spec up to its version or tag suffix.
///
/// A suffix never begins at the first character, where the `@` opens the
/// scope of a scoped package. A spec without suffix is the name itself.
pub open spec fn package_name(spec: Seq<char>) -> Seq<char> {
    if exists|at: int| first_suffix(spec, 1, at) {
        spec.take(choose|at: int| first_suffix(spec, 1, at))
    } else {
        spec
    }
}

/// The packages that a list of specs names, in order.
pub open spec fn package_names(specs: Seq<Seq<char>>) -> Seq<Seq<char>> {
    Seq::new(specs.len(), |i: int| package_name(specs[i]))
}

/// `regex::Error`, with which `regex::Regex::new` refuses a pattern. The
/// library looks at none of it and passes none of it on.
#[verifier::external_type_specification]
#[verifier::external_body]
pub struct ExRegexError(regex::Error);

/// The pattern of the four forms of a version or tag suffix.
pub fn suffix_pattern() -> (r: &'static str)
    ensures
        r@ == "@[0-9]|@latest|@\"|@npm:"@,
{
    "@[0-9]|@latest|@\"|@npm:"
}

/// The text of `spec` before its first version or tag suffix, by a search
/// with the crate `regex` for the pattern of `suffix_pattern`.
///
/// Calls `regex::Regex::new` on the pattern and `regex::Regex::find` on
/// `spec`. `new` refuses a pattern that is not in the syntax of the crate
/// or that compiles to more than ten megabytes; this pattern is an
/// alternation of three fixed texts and of an `@` before the class `[0-9]`,
/// so it is accepted, whatever `spec` is. `find` returns the leftmost match,
/// whose start is a character boundary; each alternative is a fixed text or
/// an `@` and one ASCII digit, so a match begins exactly where `suffix_at`
/// holds.
#[verifier::external_body]
fn text_before_suffix(pattern: &str, spec: &str) -> (r: Result<Option<String>, regex::Error>)
    requires
        pattern@ == "@[0-9]|@latest|@\"|@npm:"@,
    ensures
        r is Ok,
        r matches Ok(Some(head)) ==> exists|at: int|
            first_suffix(spec@, 0, at) && head@ == spec@.take(at),
        r matches Ok(None) ==> forall|at: int| !suffix_at(spec@, at),
{
    match regex::Regex::new(pattern) {
        Ok(compiled) => match compiled.find(spec) {
            Some(found) => Ok(Some(spec[..found.start()].to_string())),
            None => Ok(None),
        },
        Err(e) => Err(e),
    }
}

/// The package name that follows from what the search for a suffix found in
/// a spec without its first character, where that is an `@`, and in the
/// whole spec otherwise.
pub open spec fn name_from_search(spec: Seq<char>, found: Option<Seq<char>>) -> Seq<char> {
    match found {
        Some(head) => if spec.len() > 0 && spec[0] == '@' {
            seq!['@'] + head
        } else {
            head
        },
        None => spec,
    }
}

/// The package name, given what the search for a suffix found.
pub fn package_name_from(spec: &str, found: Option<String>) -> (r: String)
    ensures
        r@ == name_from_search(spec@, crate::text::opt_text(found)),
{
    match found {
        Some(head) => {
            if starts_with_char(spec, '@') {
                let mut name = spec.substring_char(0, 1).to_owned();
                name.append(head.as_str());
                name
            } else {
                head
            }
        },
        None => spec.to_owned(),
    }
}

/// A suffix begins in a spec without its first character where one begins
/// in the spec, one place earlier.
proof fn lemma_suffix_shift(spec: Seq<char>, at: int)
    requires
        spec.len() > 0,
        0 <= at,
    ensures
        suffix_at(spec.skip(1), at) == suffix_at(spec, at + 1),
{
    let rest = spec.skip(1);
    let latest = "latest"@;
    let npm = "npm:"@;
    if at + 1 + latest.len() <= rest.len() {
        assert(rest.subrange(at + 1, at + 1 + latest.len()) =~= spec.subrange(
            at + 2,
            at + 2 + latest.len(),
        ));
    }
    if at + 1 + npm.len() <= rest.len() {
        assert(rest.subrange(at + 1, at + 1 + npm.len()) =~= spec.subrange(
            at + 2,
            at + 2 + npm.len(),
        ));
    }
}

/// The package that a spec names: the spec without its version or tag
/// suffix. The search for the suffix is the regex crate's, whose refusal of
/// a pattern would be passed on; the pattern used is never refused, so
/// every spec has its name.
pub fn strip_version_suffix(spec: &str) -> (r: Result<String, NvmdError>)
    ensures
        r matches Ok(name) && name@ == package_name(spec@),
{
    let scoped = starts_with_char(spec, '@');
    let searched = if scoped {
        let length = spec.unicode_len();
        text_before_suffix(suffix_pattern(), spec.substring_char(1, length))
    } else {
        text_before_suffix(suffix_pattern(), spec)
    };
    match searched {
        Ok(found) => {
            proof {
                let seen = crate::text::opt_text(found);
                let rest = spec@.skip(1);
                if scoped {
                    assert forall|at: int| 0 <= at implies suffix_at(rest, at) == suffix_at(
                        spec@,
                        at + 1,
                    ) by {
                        lemma_suffix_shift(spec@, at);
                    }
                    match seen {
                        Some(head) => {
                            let at = choose|at: int| first_suffix(rest, 0, at) && head == rest.take(at);
                            assert(first_suffix(spec@, 1, at + 1)) by {
                                assert forall|j: int| 1 <= j < at + 1 implies !suffix_at(
                                    spec@,
                                    j,
                                ) by {
                                    assert(suffix_at(rest, j - 1) == suffix_at(spec@, (j - 1) + 1));
                                }
                            }
                        },
                        None => {
                            assert forall|at: int| !first_suffix(spec@, 1, at) by {
                                if 1 <= at {
                                    assert(suffix_at(rest, at - 1) == suffix_at(spec@, (at - 1) + 1));
                                }
                            }
                        },
                    }
                } else {
                    match seen {
                        Some(head) => {
                            let at = choose|at: int| first_suffix(spec@, 0, at) && head == spec@.take(at);
                            lemma_first_suffix_unique(spec@, 1, at);
                        },
                        None => {},
                    }
                }
            }
            Ok(package_name_from(spec, found))
        },
        Err(_) => Err(NvmdError::InvalidPattern),
    }
}

/// There is one first place at which a suffix begins.
proof fn lemma_first_suffix_unique(spec: Seq<char>, from: int, at: int)
    requires
        first_suffix(spec, from, at),
    ensures
        (choose|k: int| first_suffix(spec, from, k)) == at,
{
}

/// The packages that a list of specs names, in order.
pub fn strip_version_suffixes(specs: &Vec<String>) -> (r: Result<Vec<String>, NvmdError>)
    ensures
        r matches Ok(names) && texts(names@) == package_names(texts(specs@)),
{
    let mut names: Vec<String> = Vec::new();
    let mut i: usize = 0;
    let ghost all = package_names(texts(specs@));
    while i < specs.len()
        invariant
            i <= specs.len(),
            all == package_names(texts(specs@)),
            texts(names@) == all.take(i as int),
        decreases specs.len() - i,
    {
        let ghost before = names@;
        match strip_version_suffix(specs[i].as_str()) {
            Ok(name) => {
                names.push(name);
                proof {
                    lemma_texts_push(before, name);
                }
            },
            Err(e) => {
                return Err(e);
            },
        }
        i += 1;
    }
    Ok(names)
}

/// Whether `c` parts the segments of a path.
pub open spec fn is_separator(c: char, platform: Platform) -> bool {
    c == '/' || (platform == Platform::Windows && c == '\\')
}

/// Whether an argument names a directory by a relative path: whether its
/// first segment is `.` or `..`.
pub open spec fn relative_path(arg: Seq<char>, platform: Platform) -> bool {
    &&& arg.len() > 0
    &&& arg[0] == '.'
    &&& {
        ||| arg.len() == 1
        ||| is_separator(arg[1], platform)
        ||| arg[1] == '.' && (arg.len() == 2 || is_separator(arg[2], platform))
    }
}

fn separates(c: char, platform: Platform) -> (r: bool)
    ensures
        r == is_separator(c, platform),
{
    c == '/' || (platform == Platform::Windows && c == '\\')
}

/// Whether `arg` names a directory by a relative path.
pub fn is_relative_path(arg: &str, platform: Platform) -> (r: bool)
    ensures
        r == relative_path(arg@, platform),
{
    let chars = chars_of(arg);
    if chars.len() == 0 || chars[0] != '.' {
        return false;
    }
    if chars.len() == 1 || separates(chars[1], platform) {
        return true;
    }
    chars[1] == '.' && (chars.len() == 2 || separates(chars[2], platform))
}

/// The arguments that name a directory by a relative path, in order.
pub open spec fn relative_paths(args: Seq<Seq<char>>, platform: Platform) -> Seq<Seq<char>> {
    args.filter(|a: Seq<char>| relative_path(a, platform))
}

/// The arguments of `args` that name a directory by a relative path.
pub fn relative_args(args: &Vec<String>, platform: Platform) -> (r: Vec<String>)
    ensures
        texts(r@) == relative_paths(texts(args@), platform),
{
    let mut out: Vec<String> = Vec::new();
    let mut i: usize = 0;
    let ghost all = texts(args@);
    let ghost pred = |a: Seq<char>| relative_path(a, platform);
    while i < args.len()
        invariant
            i <= args.len(),
            all == texts(args@),
            pred == (|a: Seq<char>| relative_path(a, platform)),
            texts(out@) == all.take(i as int).filter(pred),
        decreases args.len() - i,
    {
        proof {
            reveal(Seq::filter);
            assert(all.take(i + 1).drop_last() =~= all.take(i as int));
        }
        if is_relative_path(args[i].as_str(), platform) {
            out.push(args[i].clone());
        }
        i += 1;
    }
    assert(all.take(args@.len() as int) =~= all);
    out
}

/// The command token and the tool arguments of one intercepted npm command.
pub struct ToolArgsView {
    /// The command token, then every flag of the command line.
    pub common_args: Seq<Seq<char>>,
    /// The positional arguments after the command token.
    pub tools: Seq<Seq<char>>,
}

/// The package manifests that a command needs read for it.
#[derive(Debug)]
pub enum ManifestSource {
    /// None.
    Nothing,
    /// The manifest of each named package under the global root of npm. A
    /// package whose manifest cannot be read counts as one without binaries.
    GlobalPackages(Vec<String>),
    /// The manifest of the working directory. It has to be readable.
    CurrentDir,
    /// The manifest in each named directory, relative to the working
    /// directory. Each has to be readable.
    RelativeDirs(Vec<String>),
}

/// The mathematical model of a [`ManifestSource`].
pub enum ManifestSourceView {
    Nothing,
    GlobalPackages(Seq<Seq<char>>),
    CurrentDir,
    RelativeDirs(Seq<Seq<char>>),
}

impl View for ManifestSource {
    type V = ManifestSourceView;

    open spec fn view(&self) -> ManifestSourceView {
        match self {
            ManifestSource::Nothing => ManifestSourceView::Nothing,
            ManifestSource::GlobalPackages(names) => ManifestSourceView::GlobalPackages(
                texts(names@),
            ),
            ManifestSource::CurrentDir => ManifestSourceView::CurrentDir,
            ManifestSource::RelativeDirs(dirs) => ManifestSourceView::RelativeDirs(texts(dirs@)),
        }
    }
}

/// What is left to do once a command has run and the registry is updated.
#[derive(Debug)]
pub struct Bookkeeping {
    /// Whether the registry has to be saved.
    pub save: bool,
    /// The shims to make and to remove, in order, after the registry is saved.
    pub shims: Vec<crate::shim::ShimAction>,
}

impl Bookkeeping {
    /// Nothing to save and no shim to touch.
    pub fn nothing() -> (r: Self)
        ensures
            !r.save,
            r.shims@.len() == 0,
    {
        Bookkeeping { save: false, shims: Vec::new() }
    }
}

/// The lines of a text from the place `from` on, each without the white
/// space around it, where the line that `from` lies in began at `start`.
pub open spec fn lines_from(text: Seq<char>, from: int, start: int) -> Seq<Seq<char>>
    decreases text.len() - from,
{
    if from < 0 || from >= text.len() {
        if 0 <= start < text.len() {
            seq![trimmed(text.subrange(start, text.len() as int))]
        } else {
            Seq::empty()
        }
    } else if text[from] == '\n' {
        seq![trimmed(text.subrange(start, from))] + lines_from(text, from + 1, from + 1)
    } else {
        lines_from(text, from + 1, start)
    }
}

/// The lines of what `npm root -g` has printed, each without the white
/// space around it. A line ends at a line feed; after the last line feed
/// only a line that is not empty counts.
pub open spec fn printed_lines(output: Seq<char>) -> Seq<Seq<char>> {
    lines_from(output, 0, 0)
}

/// The lines of `output`, each without the white space around it: the
/// directories that npm may have named as its global root.
pub fn npm_prefix_candidates(output: &str) -> (r: Vec<String>)
    ensures
        texts(r@) == printed_lines(output@),
{
    let chars = chars_of(output);
    let n = chars.len();
    let mut out: Vec<String> = Vec::new();
    let mut start: usize = 0;
    let mut from: usize = 0;
    while from < n
        invariant
            start <= from <= n,
            n == output@.len(),
            chars@ == output@,
            texts(out@) + lines_from(output@, from as int, start as int) == printed_lines(output@),
        decreases n - from,
    {
        if chars[from] == '\n' {
            let line = trim(output.substring_char(start, from));
            out.push(line);
            start = from + 1;
        }
        from += 1;
    }
    if start < n {
        let line = trim(output.substring_char(start, n));
        out.push(line);
    }
    out
}

/// The first of `candidates` that is a directory, where `is_dir` says of
/// as many of them as it is long whether they are.
pub open spec fn prefix_among(candidates: Seq<Seq<char>>, is_dir: Seq<bool>, from: int) -> Option<
    Seq<char>,
>
    decreases candidates.len() - from,
{
    if from < 0 || from >= candidates.len() || from >= is_dir.len() {
        None
    } else if is_dir[from] {
        Some(candidates[from])
    } else {
        prefix_among(candidates, is_dir, from + 1)
    }
}

/// The global root of npm: the first line of its answer that names a
/// directory. `is_dir` says of each candidate whether it is one.
pub fn get_npm_prefix(candidates: &Vec<String>, is_dir: &Vec<bool>) -> (r: Result<
    String,
    NvmdError,
>)
    ensures
        match prefix_among(texts(candidates@), is_dir@, 0) {
            Some(dir) => r is Ok && r->Ok_0@ == dir,
            None => r is Err && r->Err_0@ == ErrorView::NoNpmPrefix,
        },
{
    let mut i: usize = 0;
    while i < candidates.len() && i < is_dir.len()
        invariant
            prefix_among(texts(candidates@), is_dir@, i as int) == prefix_among(
                texts(candidates@),
                is_dir@,
                0,
            ),
        decreases candidates.len() - i,
    {
        if is_dir[i] {
            return Ok(candidates[i].clone());
        }
        i += 1;
    }
    Err(NvmdError::NoNpmPrefix)
}

/// The name of a package has no suffix left: stripping it again changes
/// nothing. And a spec in which no suffix begins after the first character,
/// such as a scoped name without version, is the name itself.
pub proof fn lemma_package_name_idempotent(spec: Seq<char>)
    ensures
        package_name(package_name(spec)) == package_name(spec),
        (forall|at: int| 1 <= at ==> !suffix_at(spec, at)) ==> package_name(spec) == spec,
        package_name(spec).len() <= spec.len(),
        package_name(spec) == spec.take(package_name(spec).len() as int),
{
    if exists|at: int| first_suffix(spec, 1, at) {
        let at = choose|at: int| first_suffix(spec, 1, at);
        let name = spec.take(at);
        let latest = "latest"@;
        let npm = "npm:"@;
        assert forall|j: int| 1 <= j implies !suffix_at(name, j) by {
            if j < at {
                if j + 1 + latest.len() <= name.len() {
                    assert(name.subrange(j + 1, j + 1 + latest.len()) =~= spec.subrange(
                        j + 1,
                        j + 1 + latest.len(),
                    ));
                }
                if j + 1 + npm.len() <= name.len() {
                    assert(name.subrange(j + 1, j + 1 + npm.len()) =~= spec.subrange(
                        j + 1,
                        j + 1 + npm.len(),
                    ));
                }
                assert(!suffix_at(spec, j));
            }
        }
    }
}

} // verus!
