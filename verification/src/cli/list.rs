//! `nvmd list`: the installed versions, newest first, or the groups.

use vstd::prelude::*;
use crate::cli::version::{is_version, order_of, parses_as_version, version_order, VersionOrder};
use crate::cli::{effects, outcome, probe_view, Command, Effect, EffectView, Session};
use crate::error::NvmdError;
use crate::group::{groups_view, Group, GroupView};
use crate::home::NvmdPath;
use crate::text::{opt_text, same_text, texts};

verus! {

/// List the installed versions, or the groups.
#[derive(Debug)]
pub struct List {
    /// Whether to list the groups.
    pub group: bool,
}

/// The names that are versions, in order.
pub open spec fn versions_among(entries: Seq<Seq<char>>) -> Seq<Seq<char>> {
    entries.filter(|n: Seq<char>| is_version(n))
}

/// Whether the version `a` is listed before the version `b`: whether `b` is
/// older than `a`.
pub open spec fn listed_before(a: Seq<char>, b: Seq<char>) -> bool {
    version_order(b, a) == VersionOrder::Older
}

/// A sorted list with one more version: it goes before the versions at the
/// end of the list that it is listed before, and after all others.
pub open spec fn inserted(sorted: Seq<Seq<char>>, version: Seq<char>) -> Seq<Seq<char>>
    decreases sorted.len(),
{
    if sorted.len() > 0 && listed_before(version, sorted.last()) {
        inserted(sorted.drop_last(), version).push(sorted.last())
    } else {
        sorted.push(version)
    }
}

/// The versions sorted, newest first; versions of which none is older than
/// the other stay in their order.
pub open spec fn newest_first(versions: Seq<Seq<char>>) -> Seq<Seq<char>>
    decreases versions.len(),
{
    if versions.len() == 0 {
        Seq::empty()
    } else {
        inserted(newest_first(versions.drop_last()), versions.last())
    }
}

/// The line of one version: the active one is marked and green.
pub open spec fn version_line(version: Seq<char>, active: Seq<char>) -> EffectView {
    if version == active {
        EffectView::Print { text: "v"@ + version + " (currently)"@, green: true }
    } else {
        EffectView::Print { text: "v"@ + version, green: false }
    }
}

/// The text of an optional version, empty without one.
pub open spec fn or_empty(version: Option<Seq<char>>) -> Seq<char> {
    match version {
        Some(version) => version,
        None => Seq::empty(),
    }
}

/// The lines of the versions among `entries`, newest first.
pub open spec fn version_lines(entries: Seq<Seq<char>>, active: Option<Seq<char>>) -> Seq<
    EffectView,
> {
    let sorted = newest_first(versions_among(entries));
    Seq::new(sorted.len(), |i: int| version_line(sorted[i], or_empty(active)))
}

/// The line of one group: its name and, where it has one, its version.
pub open spec fn group_line(group: GroupView) -> EffectView {
    match group.version {
        Some(version) => EffectView::Print { text: group.name + " v"@ + version, green: false },
        None => EffectView::Print { text: group.name, green: false },
    }
}

/// The lines of the groups, in their order.
pub open spec fn group_lines(groups: Seq<GroupView>) -> Seq<EffectView> {
    Seq::new(groups.len(), |i: int| group_line(groups[i]))
}

/// Where a version goes into a sorted list.
proof fn lemma_inserted_at(sorted: Seq<Seq<char>>, version: Seq<char>, at: int)
    requires
        0 <= at <= sorted.len(),
        forall|k: int| at <= k < sorted.len() ==> listed_before(version, sorted[k]),
        at > 0 ==> !listed_before(version, sorted[at - 1]),
    ensures
        inserted(sorted, version) == sorted.take(at).push(version) + sorted.skip(at),
    decreases sorted.len() - at,
{
    if at < sorted.len() {
        lemma_inserted_at(sorted.drop_last(), version, at);
    }
}

/// Whether the version `a` is listed before the version `b`.
fn is_listed_before(a: &str, b: &str) -> (r: bool)
    ensures
        r == listed_before(a@, b@),
{
    match order_of(b, a) {
        VersionOrder::Older => true,
        _ => false,
    }
}

/// Puts `version` into the sorted list `sorted`.
fn insert_sorted(sorted: &mut Vec<String>, version: String)
    ensures
        texts(final(sorted)@) == inserted(texts(old(sorted)@), version@),
{
    let mut at: usize = sorted.len();
    while at > 0 && is_listed_before(version.as_str(), sorted[at - 1].as_str())
        invariant
            at <= sorted.len(),
            sorted@ == old(sorted)@,
            forall|k: int| at <= k < sorted.len() ==> listed_before(version@, texts(sorted@)[k]),
        decreases at,
    {
        at -= 1;
    }
    proof {
        lemma_inserted_at(texts(sorted@), version@, at as int);
    }
    sorted.insert(at, version);
}

/// The versions among `entries`, newest first.
pub fn installed_versions(entries: &Vec<String>) -> (r: Vec<String>)
    ensures
        texts(r@) == newest_first(versions_among(texts(entries@))),
{
    let mut sorted: Vec<String> = Vec::new();
    let mut i: usize = 0;
    let ghost all = texts(entries@);
    let ghost pred = |n: Seq<char>| is_version(n);
    while i < entries.len()
        invariant
            i <= entries.len(),
            all == texts(entries@),
            pred == (|n: Seq<char>| is_version(n)),
            texts(sorted@) == newest_first(all.take(i as int).filter(pred)),
        decreases entries.len() - i,
    {
        proof {
            reveal(Seq::filter);
            assert(all.take(i + 1).drop_last() =~= all.take(i as int));
        }
        if parses_as_version(entries[i].as_str()) {
            let ghost kept = all.take(i as int).filter(pred);
            proof {
                assert(kept.push(entries@[i as int]@).drop_last() =~= kept);
            }
            insert_sorted(&mut sorted, entries[i].clone());
        }
        i += 1;
    }
    assert(all.take(entries@.len() as int) =~= all);
    sorted
}

/// The lines of the versions among `entries`, newest first, with the
/// active one marked.
pub fn list_versions(entries: &Vec<String>, active: &Option<String>) -> (r: Vec<Effect>)
    ensures
        effects(r@) == version_lines(texts(entries@), opt_text(*active)),
{
    let sorted = installed_versions(entries);
    let mut out: Vec<Effect> = Vec::new();
    let mut i: usize = 0;
    let ghost lines = version_lines(texts(entries@), opt_text(*active));
    while i < sorted.len()
        invariant
            i <= sorted.len(),
            texts(sorted@) == newest_first(versions_among(texts(entries@))),
            lines == version_lines(texts(entries@), opt_text(*active)),
            effects(out@) == lines.take(i as int),
        decreases sorted.len() - i,
    {
        let version = sorted[i].as_str();
        assert(texts(sorted@)[i as int] == version@);
        let is_active = match active {
            Some(current) => same_text(version, current.as_str()),
            None => version.unicode_len() == 0,
        };
        assert(is_active == (version@ == or_empty(opt_text(*active)))) by {
            if active is None {
                assert((version@.len() == 0) == (version@ =~= Seq::<char>::empty()));
            }
        }
        let mut text = "v".to_owned();
        text.append(version);
        if is_active {
            text.append(" (currently)");
        }
        let line = Effect::Print { text, green: is_active };
        out.push(line);
        proof {
            assert(lines.take(i + 1) =~= lines.take(i as int).push(lines[i as int]));
        }
        i += 1;
    }
    out
}

/// The lines of the groups, in their order.
pub fn list_groups(groups: &Vec<Group>) -> (r: Vec<Effect>)
    ensures
        effects(r@) == group_lines(groups_view(groups@)),
{
    let mut out: Vec<Effect> = Vec::new();
    let mut i: usize = 0;
    let ghost lines = group_lines(groups_view(groups@));
    while i < groups.len()
        invariant
            i <= groups.len(),
            lines == group_lines(groups_view(groups@)),
            effects(out@) == lines.take(i as int),
        decreases groups.len() - i,
    {
        let group = &groups[i];
        let mut text = group.name.clone();
        match &group.version {
            Some(version) => {
                text.append(" v");
                text.append(version.as_str());
            },
            None => {},
        }
        let line = Effect::Print { text, green: false };
        out.push(line);
        proof {
            assert(lines.take(i + 1) =~= lines.take(i as int).push(lines[i as int]));
        }
        i += 1;
    }
    out
}

impl List {
    /// What the command prints.
    pub open spec fn lines(
        &self,
        entries: Seq<Seq<char>>,
        active: Option<Seq<char>>,
        groups: Seq<GroupView>,
    ) -> Seq<EffectView> {
        if self.group {
            group_lines(groups)
        } else {
            version_lines(entries, active)
        }
    }
}

impl Command for List {
    fn probe(&self, session: &Session) -> (r: Result<Option<NvmdPath>, NvmdError>)
        ensures
            probe_view(r) == Ok::<_, crate::error::ErrorView>(None::<crate::home::PathView>),
    {
        Ok(None)
    }

    fn run(self, session: &mut Session, present: bool) -> (r: Result<Vec<Effect>, NvmdError>)
        ensures
            outcome(r) == Ok::<_, crate::error::ErrorView>(
                self.lines(
                    texts(old(session).entries@),
                    opt_text(old(session).context.version),
                    old(session).groups@,
                ),
            ),
            *final(session) == *old(session),
    {
        if self.group {
            Ok(list_groups(&session.groups.data))
        } else {
            Ok(list_versions(&session.entries, &session.context.version))
        }
    }
}

/// Whether the version `a` may stand right before the version `b` in the
/// list: `b` is not listed before `a`, unless `a` is listed before `b` as
/// well.
pub open spec fn in_order(a: Seq<char>, b: Seq<char>) -> bool {
    !listed_before(b, a) || listed_before(a, b)
}

/// Whether each version of a list may stand right before the next.
pub open spec fn each_in_order(list: Seq<Seq<char>>) -> bool {
    forall|i: int| 0 <= i && i + 1 < list.len() ==> in_order(#[trigger] list[i], list[i + 1])
}

/// Where a version goes into a sorted list: before the versions at the end
/// of the list that it is listed before.
proof fn lemma_inserted_shape(sorted: Seq<Seq<char>>, version: Seq<char>) -> (at: int)
    ensures
        0 <= at <= sorted.len(),
        forall|k: int| at <= k < sorted.len() ==> listed_before(version, sorted[k]),
        at > 0 ==> !listed_before(version, sorted[at - 1]),
        inserted(sorted, version) == sorted.take(at).push(version) + sorted.skip(at),
    decreases sorted.len(),
{
    let at = if sorted.len() > 0 && listed_before(version, sorted.last()) {
        let at = lemma_inserted_shape(sorted.drop_last(), version);
        assert forall|k: int| at <= k < sorted.len() implies listed_before(version, sorted[k]) by {
            if k < sorted.len() - 1 {
                assert(sorted.drop_last()[k] == sorted[k]);
            }
        }
        at
    } else {
        sorted.len() as int
    };
    at
}

/// The sorted list holds the versions it was made of, each as often as it
/// was given, and each version in it may stand right before the next.
pub proof fn lemma_newest_first_sorted(versions: Seq<Seq<char>>)
    ensures
        newest_first(versions).to_multiset() == versions.to_multiset(),
        newest_first(versions).len() == versions.len(),
        each_in_order(newest_first(versions)),
    decreases versions.len(),
{
    broadcast use vstd::seq_lib::group_to_multiset_ensures;

    if versions.len() > 0 {
        let shorter = versions.drop_last();
        let last = versions.last();
        lemma_newest_first_sorted(shorter);
        let sorted = newest_first(shorter);
        let at = lemma_inserted_shape(sorted, last);
        let after = inserted(sorted, last);
        assert(sorted =~= sorted.take(at) + sorted.skip(at));
        vstd::seq_lib::lemma_multiset_commutative(sorted.take(at), sorted.skip(at));
        vstd::seq_lib::lemma_multiset_commutative(sorted.take(at).push(last), sorted.skip(at));
        assert(shorter.push(last) =~= versions);
        assert forall|i: int| 0 <= i && i + 1 < after.len() implies in_order(
            #[trigger] after[i],
            after[i + 1],
        ) by {}
    }
}

} // verus!
