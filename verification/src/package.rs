//! The package registry: which Node versions have installed which global
//! binary, and what a package manifest says about the binaries it brings.

use vstd::prelude::*;
use crate::error::{ErrorView, NvmdError};
use crate::home::{Loaded, NvmdHome, NvmdPath, PathView};
use crate::text::{
    clone_texts, distinct, first_at, is_first, lemma_contains_push, lemma_first_at,
    lemma_first_exists, lemma_texts_push, same_text, texts,
};

verus! {

/// The versions that claim one binary.
#[derive(Debug)]
pub struct PackageEntry {
    /// The name of the binary.
    pub name: String,
    /// The versions under which it is installed, oldest record first.
    pub versions: Vec<String>,
}

/// The mathematical model of the registry: for each binary, the versions
/// that claim it.
pub type Registry = Map<Seq<char>, Seq<Seq<char>>>;

/// The names of a list of entries, in order.
pub open spec fn entry_names(data: Seq<PackageEntry>) -> Seq<Seq<char>> {
    Seq::new(data.len(), |i: int| data[i].name@)
}

/// The registry that a list of entries stands for. Where a name occurs more
/// than once, its first entry counts.
pub open spec fn registry_of(data: Seq<PackageEntry>) -> Registry {
    Map::new(
        |n: Seq<char>| entry_names(data).contains(n),
        |n: Seq<char>| texts(data[first_at(entry_names(data), n)].versions@),
    )
}

/// A list of versions without `version`.
pub open spec fn without(versions: Seq<Seq<char>>, version: Seq<char>) -> Seq<Seq<char>> {
    versions.filter(|v: Seq<char>| v != version)
}

/// How often `version` occurs in a list of versions.
pub open spec fn occurrences(versions: Seq<Seq<char>>, version: Seq<char>) -> nat {
    versions.filter(|v: Seq<char>| v == version).len()
}

/// The entry of `name` once `version` has been recorded for it: what was
/// there without `version`, then `version`.
pub open spec fn installed_entry(m: Registry, name: Seq<char>, version: Seq<char>) -> Seq<
    Seq<char>,
> {
    if m.contains_key(name) {
        without(m[name], version).push(version)
    } else {
        seq![version]
    }
}

/// The registry once `version` has been recorded for each of `packages`.
pub open spec fn record_installed_map(
    m: Registry,
    packages: Seq<Seq<char>>,
    version: Seq<char>,
) -> Registry {
    Map::new(
        |n: Seq<char>| m.contains_key(n) || packages.contains(n),
        |n: Seq<char>|
            if packages.contains(n) {
                installed_entry(m, n, version)
            } else {
                m[n]
            },
    )
}

/// The registry once `version` has given up each of `packages`. A binary
/// keeps its entry, which may become empty.
pub open spec fn record_uninstalled_map(
    m: Registry,
    packages: Seq<Seq<char>>,
    version: Seq<char>,
) -> Registry {
    Map::new(
        |n: Seq<char>| m.contains_key(n),
        |n: Seq<char>|
            if packages.contains(n) {
                without(m[n], version)
            } else {
                m[n]
            },
    )
}

/// Whether no version claims `name`.
pub open spec fn unclaimed(m: Registry, name: Seq<char>) -> bool {
    !m.contains_key(name) || m[name].len() == 0
}

/// Whether no version but `version` claims `name`.
pub open spec fn unclaimed_without(m: Registry, name: Seq<char>, version: Seq<char>) -> bool {
    !m.contains_key(name) || without(m[name], version).len() == 0
}

/// The binaries among `packages` whose shim has to go once `version` has
/// given them up: those that no other version claims.
pub open spec fn shims_to_remove(
    m: Registry,
    packages: Seq<Seq<char>>,
    version: Seq<char>,
) -> Seq<Seq<char>> {
    packages.filter(|p: Seq<char>| unclaimed_without(m, p, version))
}

/// Removing a version twice removes no more than removing it once, and a
/// version pushed after the removal is removed again by the next.
pub proof fn lemma_without_push(versions: Seq<Seq<char>>, version: Seq<char>)
    ensures
        without(without(versions, version), version) == without(versions, version),
        without(without(versions, version).push(version), version) == without(versions, version),
        occurrences(without(versions, version), version) == 0,
        occurrences(without(versions, version).push(version), version) == 1,
    decreases versions.len(),
{
    reveal(Seq::filter);
    let once = without(versions, version);
    if versions.len() > 0 {
        lemma_without_push(versions.drop_last(), version);
        let shorter = without(versions.drop_last(), version);
        if versions.last() != version {
            assert(once.drop_last() =~= shorter);
        }
    }
    assert(once.push(version).drop_last() =~= once);
}

proof fn lemma_registry_update(data: Seq<PackageEntry>, at: int, entry: PackageEntry)
    requires
        is_first(entry_names(data), entry.name@, at),
    ensures
        registry_of(data.update(at, entry)) == registry_of(data).insert(
            entry.name@,
            texts(entry.versions@),
        ),
        entry_names(data.update(at, entry)) == entry_names(data),
{
    let after = data.update(at, entry);
    assert(entry_names(after) =~= entry_names(data));
    let names = entry_names(data);
    assert forall|n: Seq<char>| names.contains(n) implies #[trigger] registry_of(after)[n]
        == registry_of(data).insert(entry.name@, texts(entry.versions@))[n] by {
        lemma_first_exists(names, n);
    }
}

proof fn lemma_registry_push(data: Seq<PackageEntry>, entry: PackageEntry)
    ensures
        entry_names(data.push(entry)) == entry_names(data).push(entry.name@),
        entry_names(data).contains(entry.name@) ==> registry_of(data.push(entry)) == registry_of(
            data,
        ),
        !entry_names(data).contains(entry.name@) ==> registry_of(data.push(entry)) == registry_of(
            data,
        ).insert(entry.name@, texts(entry.versions@)),
        distinct(entry_names(data)) && !entry_names(data).contains(entry.name@) ==> distinct(
            entry_names(data.push(entry)),
        ),
{
    let after = data.push(entry);
    let names = entry_names(data);
    let longer = entry_names(after);
    let size = names.len() as int;
    assert(longer =~= names.push(entry.name@));
    lemma_contains_push(names, entry.name@);
    assert forall|n: Seq<char>| #[trigger] names.contains(n) implies registry_of(after)[n]
        == registry_of(data)[n] by {
        lemma_first_exists(names, n);
        let at = first_at(names, n);
        lemma_first_at(longer, n, at);
    }
    if !names.contains(entry.name@) {
        assert forall|j: int| 0 <= j < size implies longer[j] != entry.name@ by {}
        lemma_first_at(longer, entry.name@, size);
        if distinct(names) {
            assert forall|i: int, j: int| 0 <= i < j < longer.len() implies longer[i]
                != longer[j] by {}
        }
    }
}

/// The place of the first entry of `name`.
fn position(data: &Vec<PackageEntry>, name: &str) -> (r: Option<usize>)
    ensures
        match r {
            Some(at) => is_first(entry_names(data@), name@, at as int),
            None => !entry_names(data@).contains(name@),
        },
{
    let mut i: usize = 0;
    while i < data.len()
        invariant
            i <= data.len(),
            forall|j: int| 0 <= j < i ==> entry_names(data@)[j] != name@,
        decreases data.len() - i,
    {
        if same_text(data[i].name.as_str(), name) {
            return Some(i);
        }
        i += 1;
    }
    None
}

/// The versions of a list but `version`, in order.
fn versions_without(versions: &Vec<String>, version: &str) -> (r: Vec<String>)
    ensures
        texts(r@) == without(texts(versions@), version@),
{
    let mut kept: Vec<String> = Vec::new();
    let mut i: usize = 0;
    let ghost all = texts(versions@);
    let ghost keep = |v: Seq<char>| v != version@;
    while i < versions.len()
        invariant
            i <= versions.len(),
            all == texts(versions@),
            keep == (|v: Seq<char>| v != version@),
            texts(kept@) == all.take(i as int).filter(keep),
        decreases versions.len() - i,
    {
        proof {
            reveal(Seq::filter);
            assert(all.take(i + 1).drop_last() =~= all.take(i as int));
        }
        if !same_text(versions[i].as_str(), version) {
            kept.push(versions[i].clone());
        }
        i += 1;
    }
    assert(all.take(versions@.len() as int) =~= all);
    kept
}

/// The registry of global binaries, as one command holds it between loading
/// and saving.
#[derive(Debug)]
pub struct Packages {
    path: NvmdPath,
    data: Vec<PackageEntry>,
}

impl View for Packages {
    type V = Registry;

    closed spec fn view(&self) -> Registry {
        registry_of(self.data@)
    }
}

impl Packages {
    /// The file that the registry is kept in.
    pub closed spec fn file(&self) -> PathView {
        self.path@
    }

    /// Whether each binary has one entry.
    pub closed spec fn wf(&self) -> bool {
        distinct(entry_names(self.data@))
    }

    /// The registry of the home `home`, holding `entries`. Where `entries`
    /// names a binary more than once, its first entry counts.
    pub fn new(home: &NvmdHome, entries: Vec<PackageEntry>) -> (r: Self)
        ensures
            r@ == registry_of(entries@),
            r.file() == home@.join("packages.json"@),
            r.wf(),
    {
        let mut data: Vec<PackageEntry> = Vec::new();
        let mut i: usize = 0;
        while i < entries.len()
            invariant
                i <= entries.len(),
                registry_of(data@) == registry_of(entries@.take(i as int)),
                distinct(entry_names(data@)),
            decreases entries.len() - i,
        {
            let found = position(&data, entries[i].name.as_str());
            let ghost prefix = entries@.take(i as int);
            let ghost before = data@;
            proof {
                assert(entries@.take(i + 1) =~= prefix.push(entries@[i as int]));
                lemma_registry_push(prefix, entries@[i as int]);
            }
            if found.is_none() {
                let entry = PackageEntry {
                    name: entries[i].name.clone(),
                    versions: clone_texts(&entries[i].versions),
                };
                data.push(entry);
                proof {
                    lemma_registry_push(before, entry);
                }
            }
            i += 1;
        }
        assert(entries@.take(entries@.len() as int) =~= entries@);
        Packages { path: home.packages_path(), data }
    }

    /// The registry of the home `home`, out of what reading its file has
    /// come to: a registry that has no file yet is empty, one whose file
    /// cannot be read is not replaced by an empty one.
    pub fn load(home: &NvmdHome, file: Loaded<Vec<PackageEntry>>) -> (r: Result<Self, NvmdError>)
        ensures
            match file {
                Loaded::Missing => r is Ok && r->Ok_0@ == Map::<Seq<char>, Seq<Seq<char>>>::empty(),
                Loaded::Malformed => r is Err && r->Err_0@ == ErrorView::RegistryRead(
                    "packages.json"@,
                ),
                Loaded::Read(entries) => r is Ok && r->Ok_0@ == registry_of(entries@),
            },
            r matches Ok(registry) ==> registry.wf() && registry.file() == home@.join(
                "packages.json"@,
            ),
    {
        match file {
            Loaded::Missing => {
                let r = Packages::new(home, Vec::new());
                Ok(r)
            },
            Loaded::Malformed => Err(NvmdError::RegistryRead("packages.json".to_owned())),
            Loaded::Read(entries) => Ok(Packages::new(home, entries)),
        }
    }

    /// The file to save the registry to.
    pub fn path(&self) -> (r: &NvmdPath)
        ensures
            r@ == self.file(),
    {
        &self.path
    }

    /// The entries to save, one for each binary.
    pub fn entries(&self) -> (r: &Vec<PackageEntry>)
        ensures
            registry_of(r@) == self@,
            self.wf() ==> distinct(entry_names(r@)),
    {
        &self.data
    }

    /// The versions that claim `name`, if the registry knows the binary.
    pub fn get(&self, name: &str) -> (r: Option<&Vec<String>>)
        ensures
            match r {
                Some(versions) => self@.contains_key(name@) && texts(versions@) == self@[name@],
                None => !self@.contains_key(name@),
            },
    {
        match position(&self.data, name) {
            Some(at) => {
                Some(&self.data[at].versions)
            },
            None => None,
        }
    }

    /// Records that `version` has installed each of `packages`: the version
    /// is taken out of the binary's entry, if it was there, and put at its
    /// end, so that it occurs once.
    pub fn record_installed(&mut self, packages: &Vec<String>, version: &str)
        ensures
            final(self)@ == record_installed_map(old(self)@, texts(packages@), version@),
            final(self).file() == old(self).file(),
            old(self).wf() ==> final(self).wf(),
    {
        let ghost start = self@;
        let ghost names = texts(packages@);
        let mut i: usize = 0;
        while i < packages.len()
            invariant
                i <= packages.len(),
                names == texts(packages@),
                self@ == record_installed_map(start, names.take(i as int), version@),
                self.file() == old(self).file(),
                old(self).wf() ==> self.wf(),
            decreases packages.len() - i,
        {
            let pkg = packages[i].as_str();
            let ghost before = self.data@;
            let entry = match position(&self.data, pkg) {
                Some(at) => {
                    let mut versions = versions_without(&self.data[at].versions, version);
                    let ghost kept = versions@;
                    let owned = version.to_owned();
                    versions.push(owned);
                    let entry = PackageEntry { name: packages[i].clone(), versions };
                    proof {
                        lemma_texts_push(kept, owned);
                        lemma_registry_update(before, at as int, entry);
                    }
                    self.data.set(at, entry);
                },
                None => {
                    let mut versions: Vec<String> = Vec::new();
                    let owned = version.to_owned();
                    versions.push(owned);
                    let entry = PackageEntry { name: packages[i].clone(), versions };
                    proof {
                        lemma_texts_push(Seq::<String>::empty(), owned);
                        assert(texts(Seq::<String>::empty()) =~= Seq::<Seq<char>>::empty());
                        lemma_registry_push(before, entry);
                    }
                    self.data.push(entry);
                },
            };
            proof {
                lemma_record_installed_step(start, names, i as int, version@);
            }
            i += 1;
        }
        assert(names.take(packages@.len() as int) =~= names);
    }

    /// Records that `version` has given up each of `packages`, and returns
    /// those whose shim has to go: the binaries that no version claims any
    /// more, and those that the registry does not know.
    pub fn record_uninstalled(&mut self, packages: &Vec<String>, version: &str) -> (to_remove: Vec<
        String,
    >)
        ensures
            final(self)@ == record_uninstalled_map(old(self)@, texts(packages@), version@),
            texts(to_remove@) == shims_to_remove(old(self)@, texts(packages@), version@),
            final(self).file() == old(self).file(),
            old(self).wf() ==> final(self).wf(),
    {
        let ghost start = self@;
        let ghost names = texts(packages@);
        let ghost gone = |p: Seq<char>| unclaimed_without(start, p, version@);
        let mut to_remove: Vec<String> = Vec::new();
        let mut i: usize = 0;
        while i < packages.len()
            invariant
                i <= packages.len(),
                names == texts(packages@),
                gone == (|p: Seq<char>| unclaimed_without(start, p, version@)),
                self@ == record_uninstalled_map(start, names.take(i as int), version@),
                texts(to_remove@) == names.take(i as int).filter(gone),
                self.file() == old(self).file(),
                old(self).wf() ==> self.wf(),
            decreases packages.len() - i,
        {
            let pkg = packages[i].as_str();
            let ghost before = self.data@;
            proof {
                reveal(Seq::filter);
                assert(names.take(i + 1).drop_last() =~= names.take(i as int));
                lemma_record_uninstalled_step(start, names, i as int, version@);
            }
            match position(&self.data, pkg) {
                Some(at) => {
                    let versions = versions_without(&self.data[at].versions, version);
                    let empty = versions.len() == 0;
                    let entry = PackageEntry { name: packages[i].clone(), versions };
                    proof {
                        lemma_registry_update(before, at as int, entry);
                    }
                    self.data.set(at, entry);
                    if empty {
                        to_remove.push(packages[i].clone());
                    }
                },
                None => {
                    to_remove.push(packages[i].clone());
                },
            }
            i += 1;
        }
        assert(names.take(packages@.len() as int) =~= names);
        to_remove
    }

    /// Whether the shim of `name` can go: no version claims the binary.
    pub fn can_be_removed(&self, name: &str) -> (r: bool)
        ensures
            r == unclaimed(self@, name@),
    {
        match self.get(name) {
            Some(versions) => versions.len() == 0,
            None => true,
        }
    }
}

/// Recording one more package is recording for the longer list.
proof fn lemma_record_installed_step(
    start: Registry,
    names: Seq<Seq<char>>,
    i: int,
    version: Seq<char>,
)
    requires
        0 <= i < names.len(),
    ensures
        ({
            let current = record_installed_map(start, names.take(i), version);
            current.insert(names[i], installed_entry(current, names[i], version))
                == record_installed_map(start, names.take(i + 1), version)
        }),
{
    let pkg = names[i];
    assert(names.take(i + 1).contains(pkg)) by {
        assert(names.take(i + 1)[i] == pkg);
    }
    if start.contains_key(pkg) {
        lemma_without_push(start[pkg], version);
    } else {
        assert(without(seq![version], version) =~= Seq::empty()) by {
            reveal_with_fuel(Seq::filter, 2);
        }
    }
}

/// Giving up one more package is giving up the longer list.
proof fn lemma_record_uninstalled_step(
    start: Registry,
    names: Seq<Seq<char>>,
    i: int,
    version: Seq<char>,
)
    requires
        0 <= i < names.len(),
    ensures
        ({
            let current = record_uninstalled_map(start, names.take(i), version);
            &&& current.contains_key(names[i]) == start.contains_key(names[i])
            &&& current.contains_key(names[i]) ==> {
                &&& without(current[names[i]], version) == without(start[names[i]], version)
                &&& current.insert(names[i], without(current[names[i]], version))
                    == record_uninstalled_map(start, names.take(i + 1), version)
            }
            &&& !current.contains_key(names[i]) ==> current == record_uninstalled_map(
                start,
                names.take(i + 1),
                version,
            )
        }),
{
    let pkg = names[i];
    assert(names.take(i + 1).contains(pkg)) by {
        assert(names.take(i + 1)[i] == pkg);
    }
    if start.contains_key(pkg) {
        lemma_without_push(start[pkg], version);
    }
}

/// Recording an installation is idempotent: once `version` is recorded for
/// `packages`, it occurs exactly once in the entry of each of them, and
/// recording it again changes nothing.
pub proof fn lemma_record_installed_idempotent(
    m: Registry,
    packages: Seq<Seq<char>>,
    binary: Seq<char>,
    version: Seq<char>,
)
    requires
        packages.contains(binary),
    ensures
        ({
            let once = record_installed_map(m, packages, version);
            let twice = record_installed_map(once, packages, version);
            &&& twice == once
            &&& occurrences(once[binary], version) == 1
            &&& occurrences(twice[binary], version) == 1
        }),
{
    let once = record_installed_map(m, packages, version);
    let twice = record_installed_map(once, packages, version);
    assert forall|n: Seq<char>| packages.contains(n) implies occurrences(once[n], version) == 1
        && #[trigger] twice[n] == once[n] by {
        if m.contains_key(n) {
            lemma_without_push(m[n], version);
        } else {
            lemma_without_push(Seq::empty(), version);
            assert(without(Seq::empty(), version) =~= Seq::empty());
        }
    }
}

/// A shim is removed only when no version claims the binary any more: with
/// the binary registered under the two versions `a` and `b`, giving it up
/// under `a` keeps the shim, and giving it up under `b` afterwards removes it.
pub proof fn lemma_shim_removed_when_unclaimed(
    m: Registry,
    binary: Seq<char>,
    a: Seq<char>,
    b: Seq<char>,
)
    requires
        m.contains_key(binary),
        m[binary] == seq![a, b],
        a != b,
    ensures
        ({
            let first = record_uninstalled_map(m, seq![binary], a);
            let second = record_uninstalled_map(first, seq![binary], b);
            &&& shims_to_remove(m, seq![binary], a) == Seq::<Seq<char>>::empty()
            &&& !unclaimed(first, binary)
            &&& shims_to_remove(first, seq![binary], b) == seq![binary]
            &&& unclaimed(second, binary)
        }),
{
    reveal_with_fuel(Seq::filter, 3);
    assert(seq![binary].contains(binary)) by {
        assert(seq![binary][0] == binary);
    }
}

/// Among the binaries given up, those lose their shim that no version but
/// the one giving up claims; the registry then shows them unclaimed.
pub proof fn lemma_shims_to_remove(
    m: Registry,
    packages: Seq<Seq<char>>,
    binary: Seq<char>,
    version: Seq<char>,
)
    ensures
        shims_to_remove(m, packages, version).contains(binary) <==> packages.contains(binary)
            && unclaimed_without(m, binary, version),
        packages.contains(binary) ==> (unclaimed_without(m, binary, version) <==> unclaimed(
            record_uninstalled_map(m, packages, version),
            binary,
        )),
{
    let gone = |p: Seq<char>| unclaimed_without(m, p, version);
    let kept = packages.filter(gone);
    if kept.contains(binary) {
        packages.lemma_filter_contains_rev(gone, binary);
    }
}

/// The names of a list of binaries with their scripts.
pub open spec fn bin_keys(pairs: Seq<(String, String)>) -> Seq<Seq<char>> {
    Seq::new(pairs.len(), |i: int| pairs[i].0@)
}

/// A list of names with each name once, at the place where it stands first.
pub open spec fn first_of_each(names: Seq<Seq<char>>) -> Seq<Seq<char>>
    decreases names.len(),
{
    if names.len() == 0 {
        Seq::empty()
    } else {
        let rest = first_of_each(names.drop_last());
        if rest.contains(names.last()) {
            rest
        } else {
            rest.push(names.last())
        }
    }
}

/// In a list with each name once no name occurs twice, it holds the names
/// that the list held, and a list that had each name once is left as it is.
pub proof fn lemma_first_of_each(names: Seq<Seq<char>>)
    ensures
        distinct(first_of_each(names)),
        forall|n: Seq<char>| first_of_each(names).contains(n) <==> names.contains(n),
        distinct(names) ==> first_of_each(names) == names,
    decreases names.len(),
{
    if names.len() > 0 {
        let shorter = names.drop_last();
        let last = names.last();
        let rest = first_of_each(shorter);
        lemma_first_of_each(shorter);
        lemma_contains_push(rest, last);
        lemma_contains_push(shorter, last);
        assert(shorter.push(last) =~= names);
        if !rest.contains(last) {
            lemma_distinct_push(rest, last);
        }
        if distinct(names) {
            assert(distinct(shorter)) by {
                assert forall|i: int, j: int| 0 <= i < j < shorter.len() implies shorter[i]
                    != shorter[j] by {
                    assert(names[i] != names[j]);
                }
            }
            assert(!shorter.contains(last)) by {
                if shorter.contains(last) {
                    let k = choose|k: int| 0 <= k < shorter.len() && shorter[k] == last;
                    assert(names[k] != names[names.len() - 1]);
                }
            }
        }
    }
}

/// A list without repetition stays without when a name is added that it
/// does not hold.
pub proof fn lemma_distinct_push(names: Seq<Seq<char>>, name: Seq<char>)
    requires
        distinct(names),
        !names.contains(name),
    ensures
        distinct(names.push(name)),
{
    let longer = names.push(name);
    assert forall|i: int, j: int| 0 <= i < j < longer.len() implies longer[i] != longer[j] by {
        if j < names.len() {
            assert(names[i] != names[j]);
        } else {
            assert(names[i] == longer[i]);
        }
    }
}

/// The table of the binaries of a manifest: a map from the name of each
/// binary to its script, kept as a list in which no name occurs twice.
#[derive(Debug)]
pub struct BinTable {
    pairs: Vec<(String, String)>,
}

/// Whether one of `pairs` has the name `name`.
fn has_name(pairs: &Vec<(String, String)>, name: &str) -> (r: bool)
    ensures
        r == bin_keys(pairs@).contains(name@),
{
    let mut i: usize = 0;
    while i < pairs.len()
        invariant
            i <= pairs.len(),
            forall|j: int| 0 <= j < i ==> bin_keys(pairs@)[j] != name@,
        decreases pairs.len() - i,
    {
        if same_text(pairs[i].0.as_str(), name) {
            assert(bin_keys(pairs@)[i as int] == name@);
            return true;
        }
        i += 1;
    }
    false
}

impl BinTable {
    #[verifier::type_invariant]
    closed spec fn no_name_twice(&self) -> bool {
        distinct(bin_keys(self.pairs@))
    }

    /// The names of the binaries, in the order of the table.
    pub closed spec fn names(&self) -> Seq<Seq<char>> {
        bin_keys(self.pairs@)
    }

    /// The table of `pairs`, each a name and its script. Where a name
    /// occurs more than once, its first pair counts.
    pub fn new(pairs: Vec<(String, String)>) -> (r: Self)
        ensures
            r.names() == first_of_each(bin_keys(pairs@)),
            distinct(r.names()),
            distinct(bin_keys(pairs@)) ==> r.names() == bin_keys(pairs@),
    {
        let mut kept: Vec<(String, String)> = Vec::new();
        let mut i: usize = 0;
        let ghost all = bin_keys(pairs@);
        assert(bin_keys(kept@) =~= first_of_each(all.take(0)));
        while i < pairs.len()
            invariant
                i <= pairs.len(),
                all == bin_keys(pairs@),
                bin_keys(kept@) == first_of_each(all.take(i as int)),
                distinct(bin_keys(kept@)),
            decreases pairs.len() - i,
        {
            let ghost before = kept@;
            proof {
                assert(all.take(i + 1).drop_last() =~= all.take(i as int));
                assert(all.take(i + 1).last() == pairs@[i as int].0@);
            }
            if !has_name(&kept, pairs[i].0.as_str()) {
                let pair = (pairs[i].0.clone(), pairs[i].1.clone());
                kept.push(pair);
                proof {
                    assert(bin_keys(kept@) =~= bin_keys(before).push(pair.0@));
                    lemma_distinct_push(bin_keys(before), pair.0@);
                }
            }
            i += 1;
        }
        proof {
            assert(all.take(pairs@.len() as int) =~= all);
            lemma_first_of_each(all);
        }
        BinTable { pairs: kept }
    }

    /// The names of the binaries, each once, in the order of the table.
    pub fn keys(&self) -> (r: Vec<String>)
        ensures
            texts(r@) == self.names(),
            distinct(self.names()),
    {
        proof {
            use_type_invariant(self);
        }
        let mut out: Vec<String> = Vec::new();
        let mut i: usize = 0;
        while i < self.pairs.len()
            invariant
                i <= self.pairs.len(),
                texts(out@) == bin_keys(self.pairs@).take(i as int),
            decreases self.pairs.len() - i,
        {
            let ghost before = out@;
            let key = self.pairs[i].0.clone();
            out.push(key);
            proof {
                lemma_texts_push(before, key);
                assert(bin_keys(self.pairs@).take(i + 1) =~= bin_keys(self.pairs@).take(
                    i as int,
                ).push(key@));
            }
            i += 1;
        }
        assert(bin_keys(self.pairs@).take(self.pairs@.len() as int) =~= bin_keys(self.pairs@));
        out
    }
}

/// The `bin` field of a package manifest.
#[derive(Debug)]
pub enum Bin {
    /// One script: the binary has the name of the package.
    Single(String),
    /// Binaries by name, each with its script.
    Multiple(BinTable),
}

/// What the interceptor reads of a package manifest.
#[derive(Debug)]
pub struct PackageJson {
    pub name: Option<String>,
    pub bin: Option<Bin>,
}

impl PackageJson {
    /// The names of the binaries that the package brings.
    pub open spec fn bins(&self) -> Seq<Seq<char>> {
        match self.bin {
            Some(Bin::Single(_)) => match self.name {
                Some(name) => seq![name@],
                None => seq![Seq::<char>::empty()],
            },
            Some(Bin::Multiple(table)) => table.names(),
            None => Seq::empty(),
        }
    }

    /// The manifest of a package that could not be read: no name, no binary.
    pub fn empty() -> (r: Self)
        ensures
            r.name is None,
            r.bin is None,
    {
        PackageJson { name: None, bin: None }
    }

    /// The names of the binaries that the package brings: its own name where
    /// `bin` is one script, the names that `bin` lists where it is a table.
    /// No name is given twice.
    pub fn bin_names(&self) -> (r: Vec<String>)
        ensures
            texts(r@) == self.bins(),
            distinct(self.bins()),
    {
        match &self.bin {
            Some(Bin::Single(_)) => {
                let mut out: Vec<String> = Vec::new();
                let name = match &self.name {
                    Some(name) => name.clone(),
                    None => String::new(),
                };
                out.push(name);
                assert(texts(out@) =~= seq![name@]);
                out
            },
            Some(Bin::Multiple(table)) => table.keys(),
            None => {
                let out: Vec<String> = Vec::new();
                assert(texts(out@) =~= Seq::<Seq<char>>::empty());
                out
            },
        }
    }
}

/// The binaries of a list of manifests, manifest after manifest.
pub open spec fn all_bins(manifests: Seq<PackageJson>) -> Seq<Seq<char>>
    decreases manifests.len(),
{
    if manifests.len() == 0 {
        Seq::empty()
    } else {
        all_bins(manifests.drop_last()) + manifests.last().bins()
    }
}

/// The names of the binaries that a list of packages brings.
pub fn collect_bin_names(manifests: &Vec<PackageJson>) -> (r: Vec<String>)
    ensures
        texts(r@) == all_bins(manifests@),
{
    let mut out: Vec<String> = Vec::new();
    let mut i: usize = 0;
    while i < manifests.len()
        invariant
            i <= manifests.len(),
            texts(out@) == all_bins(manifests@.take(i as int)),
        decreases manifests.len() - i,
    {
        let mut names = manifests[i].bin_names();
        out.append(&mut names);
        proof {
            assert(manifests@.take(i + 1).drop_last() =~= manifests@.take(i as int));
        }
        i += 1;
    }
    assert(manifests@.take(manifests@.len() as int) =~= manifests@);
    out
}

} // verus!
