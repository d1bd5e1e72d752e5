//! The graph walk: from one root crate to the package definitions of the
//! crate and of everything it depends on, each crate at each version once.
//!
//! The walk is a queue of crates and the package definitions made so far.
//! `process_crate` takes one step: it drops the crate at the front of the
//! queue where its name and version were seen before, and else makes its
//! definition and queues its dependencies. Where the step needs an answer from
//! outside (a content hash, a registry entry, a local crate) that is not known
//! yet, it changes nothing and names the lookup; the caller records the answer
//! and takes the step again. `drain` takes steps for as long as the walk goes
//! on by itself.

use std::collections::VecDeque;
use vstd::prelude::*;
use crate::context::{ContextView, Lookup, LookupView, ResolutionContext};
use crate::crate_ref::{crate_views, CrateRef, CrateRefView, Resolution, ResolutionView};
use crate::errors::{CarguixError, ErrorView};
use crate::guix::{spec_package, HashCache, Module, Package, PackageView};

verus! {

/// The key of a crate in the package graph: its name and its exact version.
#[derive(Debug, PartialEq, Eq)]
pub struct CrateIdentity {
    pub crate_name: String,
    pub version: String,
}

impl View for CrateIdentity {
    type V = (Seq<char>, Seq<char>);

    open spec fn view(&self) -> (Seq<char>, Seq<char>) {
        (self.crate_name@, self.version@)
    }
}

/// The views of a sequence of keys.
pub open spec fn identity_views(identities: Seq<CrateIdentity>) -> Seq<(Seq<char>, Seq<char>)> {
    identities.map_values(|identity: CrateIdentity| identity@)
}

/// The keys of a sequence of crates.
pub open spec fn identities_of(crates: Seq<CrateRefView>) -> Seq<(Seq<char>, Seq<char>)> {
    crates.map_values(|crate_ref: CrateRefView| crate_ref.identity())
}

/// One line of the package graph: a crate's name and version, the definition
/// made for it, and the keys of the crates it depends on.
#[derive(Debug, PartialEq, Eq)]
pub struct PackageEntry {
    pub crate_name: String,
    pub version: String,
    pub package: Package,
    pub dependencies: Vec<CrateIdentity>,
}

/// A line of the package graph over character sequences.
pub struct PackageEntryView {
    pub crate_name: Seq<char>,
    pub version: Seq<char>,
    pub package: PackageView,
    pub dependencies: Seq<(Seq<char>, Seq<char>)>,
}

impl PackageEntryView {
    /// The key of the line: the crate's name and version.
    pub open spec fn identity(self) -> (Seq<char>, Seq<char>) {
        (self.crate_name, self.version)
    }
}

impl View for PackageEntry {
    type V = PackageEntryView;

    open spec fn view(&self) -> PackageEntryView {
        PackageEntryView {
            crate_name: self.crate_name@,
            version: self.version@,
            package: self.package@,
            dependencies: identity_views(self.dependencies@),
        }
    }
}

/// The views of a sequence of lines.
pub open spec fn entry_views(entries: Seq<PackageEntry>) -> Seq<PackageEntryView> {
    entries.map_values(|entry: PackageEntry| entry@)
}

/// Whether no two lines have the same crate name and version.
pub open spec fn identities_are_unique(entries: Seq<PackageEntryView>) -> bool {
    forall|i: int, j: int|
        0 <= i < j < entries.len() ==> (#[trigger] entries[i]).identity() != (
        #[trigger] entries[j]).identity()
}

/// Whether some line has this crate name and version.
pub open spec fn holds_identity(
    entries: Seq<PackageEntryView>,
    identity: (Seq<char>, Seq<char>),
) -> bool {
    exists|i: int| 0 <= i < entries.len() && (#[trigger] entries[i]).identity() == identity
}

/// The package graph as a mapping from crate name and version to definition.
pub open spec fn mapping_of(entries: Seq<PackageEntryView>) -> Map<
    (Seq<char>, Seq<char>),
    PackageView,
>
    decreases entries.len(),
{
    if entries.len() == 0 {
        Map::empty()
    } else {
        mapping_of(entries.drop_last()).insert(entries.last().identity(), entries.last().package)
    }
}

/// The state of a walk: the key of the root crate, where the walk has one,
/// the crates still to visit, the front first, and the lines made so far, in
/// the order in which they were made.
pub struct CarguixView {
    pub root: Option<(Seq<char>, Seq<char>)>,
    pub crates: Seq<CrateRefView>,
    pub packages: Seq<PackageEntryView>,
}

/// Whether a crate with this name and version waits in the queue.
pub open spec fn awaits_identity(
    crates: Seq<CrateRefView>,
    identity: (Seq<char>, Seq<char>),
) -> bool {
    exists|k: int| 0 <= k < crates.len() && (#[trigger] crates[k]).identity() == identity
}

/// Whether the walk accounts for a crate: it has a line or waits in the queue.
pub open spec fn accounts_for(state: CarguixView, identity: (Seq<char>, Seq<char>)) -> bool {
    holds_identity(state.packages, identity) || awaits_identity(state.crates, identity)
}

/// Whether the walk loses no crate: it accounts for the root and for every
/// crate that a line depends on.
pub open spec fn is_closed(state: CarguixView) -> bool {
    &&& state.root matches Some(root) ==> accounts_for(state, root)
    &&& forall|i: int, d: int|
        0 <= i < state.packages.len() && 0 <= d < state.packages[i].dependencies.len()
            ==> accounts_for(state, #[trigger] state.packages[i].dependencies[d])
}

/// Whether the lines are a whole package graph: the root has a line, and so
/// has every crate that a line depends on.
pub open spec fn is_complete(
    root: Option<(Seq<char>, Seq<char>)>,
    entries: Seq<PackageEntryView>,
) -> bool {
    &&& root matches Some(root) ==> holds_identity(entries, root)
    &&& forall|i: int, d: int|
        0 <= i < entries.len() && 0 <= d < entries[i].dependencies.len() ==> holds_identity(
            entries,
            #[trigger] entries[i].dependencies[d],
        )
}

/// What a step of the walk did.
#[derive(Debug, PartialEq, Eq)]
pub enum Progress {
    /// The queue is empty: the walk is over.
    Finished,
    /// The crate at the front was seen before and was dropped.
    Skipped,
    /// The definition of the crate at the front was made and its dependencies
    /// were queued.
    Added,
    /// Nothing was done: the answer of this lookup is needed first.
    Needs(Lookup),
}

/// Progress over character sequences.
pub enum ProgressView {
    Finished,
    Skipped,
    Added,
    Needs(LookupView),
}

impl View for Progress {
    type V = ProgressView;

    open spec fn view(&self) -> ProgressView {
        match self {
            Progress::Finished => ProgressView::Finished,
            Progress::Skipped => ProgressView::Skipped,
            Progress::Added => ProgressView::Added,
            Progress::Needs(lookup) => ProgressView::Needs(lookup@),
        }
    }
}

/// The view of the outcome of a step.
pub open spec fn progress_view(outcome: Result<Progress, CarguixError>) -> Result<
    ProgressView,
    ErrorView,
> {
    match outcome {
        Ok(progress) => Ok(progress@),
        Err(error) => Err(error@),
    }
}

/// A state after a step, with what the step did.
pub struct AfterStep {
    pub state: CarguixView,
    pub outcome: Result<ProgressView, ErrorView>,
}

/// One step of the walk, for what the context and the cache of hashes know.
///
/// With an empty queue the walk is over. A crate at the front whose name and
/// version have a line already is dropped, and nothing is looked up for it.
/// For any other crate the content hash of its source locator is needed
/// first, then its dependencies; where either is not known the state stays
/// as it is and the lookup is named. A failure of the dependencies ends the
/// walk and leaves the state as it is. Else the crate gets its line, and its
/// dependencies go to the back of the queue in their order.
pub open spec fn spec_step(
    state: CarguixView,
    context: ContextView,
    cache: Map<Seq<char>, Seq<char>>,
) -> AfterStep {
    if state.crates.len() == 0 {
        AfterStep { state, outcome: Ok(ProgressView::Finished) }
    } else {
        let head = state.crates[0];
        let rest = state.crates.drop_first();
        if holds_identity(state.packages, head.identity()) {
            AfterStep {
                state: CarguixView { crates: rest, ..state },
                outcome: Ok(ProgressView::Skipped),
            }
        } else if !cache.contains_key(head.source()) {
            AfterStep { state, outcome: Ok(ProgressView::Needs(LookupView::Hash(head.source()))) }
        } else {
            match head.dependencies(context) {
                Err(error) => AfterStep { state, outcome: Err(error) },
                Ok(ResolutionView::Missing(lookup)) => AfterStep {
                    state,
                    outcome: Ok(ProgressView::Needs(lookup)),
                },
                Ok(ResolutionView::Resolved(children)) => AfterStep {
                    state: CarguixView {
                        root: state.root,
                        crates: rest + children,
                        packages: state.packages.push(
                            PackageEntryView {
                                crate_name: head.crate_name(),
                                version: head.version(),
                                package: spec_package(head, cache[head.source()], children),
                                dependencies: identities_of(children),
                            },
                        ),
                    },
                    outcome: Ok(ProgressView::Added),
                },
            }
        }
    }
}

/// Whether a step moved the walk on and left it able to go on by itself: it
/// dropped a crate or made a line.
pub open spec fn moved_on(outcome: Result<ProgressView, ErrorView>) -> bool {
    outcome == Ok::<ProgressView, ErrorView>(ProgressView::Skipped) || outcome == Ok::<
        ProgressView,
        ErrorView,
    >(ProgressView::Added)
}

/// Up to `limit` steps of the walk, one after another, for as long as each
/// step moves the walk on: the state after the last step taken, with what
/// that step did.
pub open spec fn spec_drain(
    state: CarguixView,
    context: ContextView,
    cache: Map<Seq<char>, Seq<char>>,
    limit: nat,
) -> AfterStep
    decreases limit,
{
    let first = spec_step(state, context, cache);
    if limit <= 1 || !moved_on(first.outcome) {
        first
    } else {
        spec_drain(first.state, context, cache, (limit - 1) as nat)
    }
}

/// A step keeps the lines free of duplicates.
pub proof fn lemma_step_keeps_identities_unique(
    state: CarguixView,
    context: ContextView,
    cache: Map<Seq<char>, Seq<char>>,
)
    requires
        identities_are_unique(state.packages),
    ensures
        identities_are_unique(spec_step(state, context, cache).state.packages),
{
    let after = spec_step(state, context, cache).state.packages;
    if after != state.packages {
        let head = state.crates[0];
        assert(after.len() == state.packages.len() + 1);
        assert forall|i: int, j: int| 0 <= i < j < after.len() implies (#[trigger] after[i]).identity()
            != (#[trigger] after[j]).identity() by {
            if j < state.packages.len() {
                assert(after[i] == state.packages[i]);
                assert(after[j] == state.packages[j]);
            } else {
                assert(after[i] == state.packages[i]);
                assert(after[j].identity() == head.identity());
            }
        }
    }
}

/// A step loses no crate: the walk goes on accounting for the root and for
/// every crate that a line depends on.
pub proof fn lemma_step_keeps_walk_closed(
    state: CarguixView,
    context: ContextView,
    cache: Map<Seq<char>, Seq<char>>,
)
    requires
        is_closed(state),
    ensures
        is_closed(spec_step(state, context, cache).state),
{
    let after = spec_step(state, context, cache).state;
    if after != state {
        let head = state.crates[0];
        let rest = state.crates.drop_first();
        assert forall|identity: (Seq<char>, Seq<char>)|
            accounts_for(state, identity) implies accounts_for(after, identity) by {
            if holds_identity(state.packages, identity) {
                let i = choose|i: int|
                    0 <= i < state.packages.len() && (#[trigger] state.packages[i]).identity()
                        == identity;
                assert(after.packages[i] == state.packages[i]);
            } else {
                let k = choose|k: int|
                    0 <= k < state.crates.len() && (#[trigger] state.crates[k]).identity()
                        == identity;
                if k == 0 {
                    if after.packages.len() > state.packages.len() {
                        assert(after.packages[state.packages.len() as int].identity()
                            == identity);
                    } else {
                        assert(after.packages == state.packages);
                    }
                } else {
                    assert(after.crates[k - 1] == state.crates[k]);
                }
            }
        }
        assert forall|i: int, d: int|
            0 <= i < after.packages.len() && 0 <= d < after.packages[i].dependencies.len() implies accounts_for(
            after,
            #[trigger] after.packages[i].dependencies[d],
        ) by {
            if i < state.packages.len() {
                assert(after.packages[i] == state.packages[i]);
                assert(accounts_for(state, state.packages[i].dependencies[d]));
            } else {
                let children = head.dependencies(context)->Ok_0->Resolved_0;
                assert(after.packages[i].dependencies[d] == children[d].identity());
                assert(after.crates[rest.len() + d] == children[d]);
            }
        }
    }
}

/// A closed walk with an empty queue has made a whole package graph.
pub proof fn lemma_finished_walk_is_complete(state: CarguixView)
    requires
        is_closed(state),
        state.crates.len() == 0,
    ensures
        is_complete(state.root, state.packages),
{
    assert forall|i: int, d: int|
        0 <= i < state.packages.len() && 0 <= d < state.packages[i].dependencies.len() implies holds_identity(
        state.packages,
        #[trigger] state.packages[i].dependencies[d],
    ) by {
        assert(accounts_for(state, state.packages[i].dependencies[d]));
    }
}

/// A crate whose name and version have a line already is dropped by the step
/// that meets it: the lines stay as they are, and neither a hash nor a
/// dependency is looked up for it.
pub proof fn lemma_seen_crate_is_dropped(
    state: CarguixView,
    context: ContextView,
    cache: Map<Seq<char>, Seq<char>>,
)
    requires
        state.crates.len() > 0,
        holds_identity(state.packages, state.crates[0].identity()),
    ensures
        spec_step(state, context, cache) == (AfterStep {
            state: CarguixView { crates: state.crates.drop_first(), ..state },
            outcome: Ok(ProgressView::Skipped),
        }),
{
}

/// A step never takes a line away nor changes one: the lines before the step
/// are the first lines after it.
pub proof fn lemma_step_keeps_lines(
    state: CarguixView,
    context: ContextView,
    cache: Map<Seq<char>, Seq<char>>,
)
    ensures
        state.packages.is_prefix_of(spec_step(state, context, cache).state.packages),
{
    let after = spec_step(state, context, cache).state.packages;
    if after != state.packages {
        assert(after.subrange(0, state.packages.len() as int) =~= state.packages);
    } else {
        assert(after.subrange(0, state.packages.len() as int) =~= state.packages);
    }
}

/// Where no two lines have the same crate name and version, the mapping of
/// the package graph holds every line under its key.
pub proof fn lemma_mapping_holds_every_line(entries: Seq<PackageEntryView>, i: int)
    requires
        identities_are_unique(entries),
        0 <= i < entries.len(),
    ensures
        mapping_of(entries).contains_key(entries[i].identity()),
        mapping_of(entries)[entries[i].identity()] == entries[i].package,
    decreases entries.len(),
{
    let shorter = entries.drop_last();
    if i < entries.len() - 1 {
        assert forall|a: int, b: int| 0 <= a < b < shorter.len() implies (#[trigger] shorter[a]).identity()
            != (#[trigger] shorter[b]).identity() by {
            assert(shorter[a] == entries[a]);
            assert(shorter[b] == entries[b]);
        }
        lemma_mapping_holds_every_line(shorter, i);
        assert(shorter[i] == entries[i]);
        assert(entries[i].identity() != entries[entries.len() - 1].identity());
    }
}

/// Whether a step moved the walk on and left it able to go on by itself.
pub fn went_on(outcome: &Result<Progress, CarguixError>) -> (went: bool)
    ensures
        went == moved_on(progress_view(*outcome)),
{
    match outcome {
        Ok(Progress::Skipped) => true,
        Ok(Progress::Added) => true,
        _ => false,
    }
}

/// The walk over a crate graph. No two of its lines ever have the same crate
/// name and version, and it never loses a crate: the root and every crate
/// that a line depends on has a line or waits in the queue.
#[derive(Debug, PartialEq, Eq)]
pub struct Carguix {
    root: Option<CrateIdentity>,
    crates: VecDeque<CrateRef>,
    packages: Vec<PackageEntry>,
}

impl View for Carguix {
    type V = CarguixView;

    closed spec fn view(&self) -> CarguixView {
        CarguixView {
            root: match self.root {
                Some(root) => Some(root@),
                None => None,
            },
            crates: crate_views(self.crates@),
            packages: entry_views(self.packages@),
        }
    }
}

/// The key of a crate.
pub fn identity_of(crate_ref: &CrateRef) -> (identity: CrateIdentity)
    ensures
        identity@ == crate_ref@.identity(),
{
    CrateIdentity { crate_name: crate_ref.crate_name(), version: crate_ref.version() }
}

impl Carguix {
    /// What holds of every walk: no two lines have the same crate name and
    /// version, and no crate is lost.
    #[verifier::type_invariant]
    spec fn inv(&self) -> bool {
        identities_are_unique(self.view().packages) && is_closed(self.view())
    }

    /// The walk that starts at `root`: the root alone in the queue, and no
    /// line yet.
    pub fn new(root: CrateRef) -> (walk: Carguix)
        ensures
            walk@ == (CarguixView {
                root: Some(root@.identity()),
                crates: seq![root@],
                packages: Seq::empty(),
            }),
    {
        let identity = identity_of(&root);
        let mut crates: VecDeque<CrateRef> = VecDeque::new();
        crates.push_back(root);
        let packages: Vec<PackageEntry> = Vec::new();
        proof {
            assert(entry_views(packages@) =~= Seq::<PackageEntryView>::empty());
            assert(crate_views(crates@) =~= seq![root@]);
            assert(crate_views(crates@)[0].identity() == identity@);
        }
        Carguix { root: Some(identity), crates, packages }
    }

    /// Whether a line for this crate name and version was made already.
    pub fn already_added(&self, crate_name: &str, version: &str) -> (found: bool)
        ensures
            found == holds_identity(self@.packages, (crate_name@, version@)),
    {
        let wanted_name = crate_name.to_string();
        let wanted_version = version.to_string();
        for i in 0..self.packages.len()
            invariant
                wanted_name@ == crate_name@,
                wanted_version@ == version@,
                forall|j: int|
                    0 <= j < i ==> (#[trigger] self@.packages[j]).identity() != (
                        crate_name@,
                        version@,
                    ),
        {
            let entry = &self.packages[i];
            if entry.crate_name == wanted_name && entry.version == wanted_version {
                assert(self@.packages[i as int].identity() == (crate_name@, version@));
                return true;
            }
        }
        false
    }

    /// Takes the walk apart, leaving a walk of nothing behind.
    fn take(&mut self) -> (parts: (Option<CrateIdentity>, VecDeque<CrateRef>, Vec<PackageEntry>))
        ensures
            match parts.0 {
                Some(root) => old(self)@.root == Some(root@),
                None => old(self)@.root is None,
            },
            crate_views(parts.1@) == old(self)@.crates,
            entry_views(parts.2@) == old(self)@.packages,
            identities_are_unique(old(self)@.packages),
            is_closed(old(self)@),
    {
        proof {
            use_type_invariant(&*self);
        }
        let packages: Vec<PackageEntry> = Vec::new();
        assert(entry_views(packages@) =~= Seq::<PackageEntryView>::empty());
        let mut taken = Carguix { root: None, crates: VecDeque::new(), packages };
        core::mem::swap(self, &mut taken);
        let Carguix { root, crates, packages } = taken;
        (root, crates, packages)
    }

    /// Takes one step of the walk: processes the crate at the front of the
    /// queue.
    ///
    /// After any step no two lines have the same crate name and version, and
    /// the walk accounts for the root and for every crate that a line depends
    /// on.
    pub fn process_crate(&mut self, context: &ResolutionContext, cache: &HashCache) -> (outcome:
        Result<Progress, CarguixError>)
        ensures
            spec_step(old(self)@, context@, cache@) == (AfterStep {
                state: final(self)@,
                outcome: progress_view(outcome),
            }),
            identities_are_unique(final(self)@.packages),
            is_closed(final(self)@),
    {
        proof {
            use_type_invariant(&*self);
        }
        if self.crates.len() == 0 {
            return Ok(Progress::Finished);
        }
        let ghost before = self@;
        proof {
            lemma_step_keeps_identities_unique(before, context@, cache@);
            lemma_step_keeps_walk_closed(before, context@, cache@);
        }
        let head = &self.crates[0];
        let crate_name = head.crate_name();
        let version = head.version();
        if self.already_added(crate_name.as_str(), version.as_str()) {
            let (root, mut crates, packages) = self.take();
            let dropped = crates.pop_front();
            assert(crate_views(crates@) =~= before.crates.drop_first());
            *self = Carguix { root, crates, packages };
            return Ok(Progress::Skipped);
        }
        let locator = head.source();
        let digest = match cache.retrieve(locator.as_str()) {
            Some(digest) => digest,
            None => {
                return Ok(Progress::Needs(Lookup::Hash(locator)));
            },
        };
        let children = match head.dependencies(context) {
            Err(error) => {
                return Err(error);
            },
            Ok(Resolution::Missing(lookup)) => {
                return Ok(Progress::Needs(lookup));
            },
            Ok(Resolution::Resolved(children)) => children,
        };
        let package = head.to_guix_package(digest.as_str(), &children);
        let mut dependencies: Vec<CrateIdentity> = Vec::new();
        for i in 0..children.len()
            invariant
                dependencies@.len() == i,
                forall|j: int| 0 <= j < i ==> dependencies@[j]@ == children@[j]@.identity(),
        {
            dependencies.push(identity_of(&children[i]));
        }
        let ghost queued = crate_views(children@);
        assert(identity_views(dependencies@) =~= identities_of(queued));
        let entry = PackageEntry { crate_name, version, package, dependencies };
        let ghost line = entry@;
        let (root, mut crates, mut packages) = self.take();
        proof {
            assert(entry_views(packages@.push(entry)) =~= before.packages.push(line));
        }
        packages.push(entry);
        let dropped = crates.pop_front();
        assert(crate_views(crates@) =~= before.crates.drop_first());
        let ghost rest = before.crates.drop_first();
        let mut children = children;
        let count = children.len();
        let mut moved: usize = 0;
        assert(queued.subrange(0, 0) =~= Seq::<CrateRefView>::empty());
        assert(rest + Seq::<CrateRefView>::empty() =~= rest);
        while moved < count
            invariant
                moved <= count,
                count == queued.len(),
                children@.len() == count - moved,
                crate_views(children@) == queued.subrange(moved as int, count as int),
                crate_views(crates@) == rest + queued.subrange(0, moved as int),
            decreases count - moved,
        {
            let ghost remaining = crate_views(children@);
            let ghost waiting = crate_views(crates@);
            let ghost held = children@;
            let child = children.remove(0);
            assert(child@ == remaining[0]);
            assert(children@ =~= held.subrange(1, held.len() as int));
            assert(crate_views(children@) =~= remaining.subrange(1, remaining.len() as int));
            crates.push_back(child);
            proof {
                assert(crate_views(crates@) =~= waiting.push(child@));
                assert(waiting.push(child@) =~= rest + queued.subrange(0, moved + 1));
                assert(crate_views(children@) =~= queued.subrange(moved + 1, count as int));
            }
            moved += 1;
        }
        assert(queued.subrange(0, count as int) =~= queued);
        *self = Carguix { root, crates, packages };
        Ok(Progress::Added)
    }

    /// Drains the queue: takes steps until the walk is over, a step fails, a
    /// lookup is needed, or `limit` steps were taken, and returns what the last
    /// step did. At least one step is taken.
    pub fn drain(&mut self, context: &ResolutionContext, cache: &HashCache, limit: usize) -> (outcome:
        Result<Progress, CarguixError>)
        ensures
            spec_drain(old(self)@, context@, cache@, limit as nat) == (AfterStep {
                state: final(self)@,
                outcome: progress_view(outcome),
            }),
            identities_are_unique(final(self)@.packages),
            is_closed(final(self)@),
    {
        let ghost start = self@;
        let mut left = limit;
        let mut outcome = self.process_crate(context, cache);
        while left > 1 && went_on(&outcome)
            invariant
                identities_are_unique(self@.packages),
                is_closed(self@),
                spec_drain(start, context@, cache@, limit as nat) == if left <= 1 || !moved_on(
                    progress_view(outcome),
                ) {
                    AfterStep { state: self@, outcome: progress_view(outcome) }
                } else {
                    spec_drain(self@, context@, cache@, (left - 1) as nat)
                },
            decreases left,
        {
            left -= 1;
            outcome = self.process_crate(context, cache);
        }
        outcome
    }

    /// Whether the queue is empty: the walk is over and its lines are the
    /// whole package graph.
    pub fn is_finished(&self) -> (finished: bool)
        ensures
            finished == (self@.crates.len() == 0),
    {
        self.crates.len() == 0
    }

    /// How many lines were made so far.
    pub fn package_count(&self) -> (count: usize)
        ensures
            count == self@.packages.len(),
    {
        self.packages.len()
    }

    /// The package graph, once the walk is over: the lines in the order in
    /// which they were made, no two of them with the same crate name and
    /// version, with a line for the root and for every crate that a line
    /// depends on. While crates wait in the queue there is no graph to hand
    /// out.
    pub fn packages(&self) -> (lines: Option<&Vec<PackageEntry>>)
        ensures
            lines is Some == (self@.crates.len() == 0),
            lines matches Some(lines) ==> entry_views(lines@) == self@.packages
                && identities_are_unique(entry_views(lines@)) && is_complete(
                self@.root,
                entry_views(lines@),
            ),
    {
        proof {
            use_type_invariant(self);
            if self@.crates.len() == 0 {
                lemma_finished_walk_is_complete(self@);
            }
        }
        if self.crates.len() == 0 {
            Some(&self.packages)
        } else {
            None
        }
    }

    /// The definitions of the package graph as one module, once the walk is
    /// over, in the order in which they were made.
    pub fn to_module(&self) -> (module: Option<Module>)
        ensures
            module is Some == (self@.crates.len() == 0),
            module matches Some(module) ==> module@ == self@.packages.map_values(
                |line: PackageEntryView| line.package,
            ),
    {
        if self.crates.len() != 0 {
            return None;
        }
        let mut packages: Vec<Package> = Vec::new();
        for i in 0..self.packages.len()
            invariant
                packages@.len() == i,
                forall|j: int| 0 <= j < i ==> packages@[j]@ == self.packages@[j].package@,
        {
            packages.push(self.packages[i].package.clone());
        }
        let module = Module { packages };
        assert(module@ =~= self@.packages.map_values(|line: PackageEntryView| line.package));
        Some(module)
    }
}

} // verus!
