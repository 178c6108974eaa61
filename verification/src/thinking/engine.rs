//! The engine of one session: its log of thoughts, its branch table, its
//! progress and its counters.

use crate::ratio::Ratio;
use crate::string_map::has_key;
use crate::string_map::keys_distinct;
use crate::string_map::lemma_position_unique;
use crate::string_map::lemma_remove_at;
use crate::string_map::position_of;
use crate::string_map::StringMap;
use crate::thinking::random_uuid;
use crate::thinking::thought_views;
use crate::thinking::ThinkingProgress;
use crate::thinking::ThinkingStats;
use crate::thinking::ThoughtBranch;
use crate::thinking::ThoughtBranchView;
use crate::thinking::ThoughtData;
use crate::thinking::ThoughtDataView;
use crate::time::elapsed_millis;
use crate::time::instant_now;
use crate::time::Timestamp;
use vstd::prelude::*;

verus! {

/// The number of revisions in a log.
pub open spec fn count_revisions(log: Seq<ThoughtDataView>) -> nat
    decreases log.len(),
{
    if log.len() == 0 {
        0
    } else {
        count_revisions(log.drop_last()) + if log.last().is_revision() {
            1nat
        } else {
            0nat
        }
    }
}

/// The number of thoughts in a log that branch off.
pub open spec fn count_branching(log: Seq<ThoughtDataView>) -> nat
    decreases log.len(),
{
    if log.len() == 0 {
        0
    } else {
        count_branching(log.drop_last()) + if log.last().is_branch() {
            1nat
        } else {
            0nat
        }
    }
}

/// The thoughts of a log that belong to the branch `id`, in the order of the
/// log.
pub open spec fn branch_members(log: Seq<ThoughtDataView>, id: Seq<char>) -> Seq<ThoughtDataView>
    decreases log.len(),
{
    if log.len() == 0 {
        Seq::empty()
    } else if log.last().in_branch(id) {
        branch_members(log.drop_last(), id).push(log.last())
    } else {
        branch_members(log.drop_last(), id)
    }
}

/// The views of the entries of a branch table.
pub open spec fn branch_views(entries: Seq<(Seq<char>, ThoughtBranch)>) -> Seq<
    (Seq<char>, ThoughtBranchView),
> {
    Seq::new(entries.len(), |i: int| (entries[i].0, entries[i].1@))
}

/// The counters that belong to a log, given the time that processing took.
pub open spec fn stats_of(log: Seq<ThoughtDataView>, total_ms: u64) -> ThinkingStats {
    ThinkingStats {
        total_thoughts: log.len() as u64,
        total_revisions: count_revisions(log) as u64,
        total_branches: count_branching(log) as u64,
        avg_processing_time_ms: Ratio { numerator: total_ms, denominator: log.len() as u64 },
        total_processing_time_ms: total_ms,
    }
}

/// The progress that belongs to a log: that of a new session while the log
/// is empty, afterwards the numbers of the thought that came last.
pub open spec fn progress_of(log: Seq<ThoughtDataView>) -> ThinkingProgress {
    if log.len() == 0 {
        ThinkingProgress::spec_new(1, 1)
    } else {
        ThinkingProgress::spec_new(1, 1).after(log.last())
    }
}

/// A branch entry agrees with a log: it is stored under its own name, it
/// holds the thoughts of the log that belong to it, of which there is at
/// least one, and it leaves where the first of them says.
pub open spec fn branch_agrees(
    entry: (Seq<char>, ThoughtBranchView),
    log: Seq<ThoughtDataView>,
) -> bool {
    &&& entry.1.branch_id == entry.0
    &&& entry.1.thoughts == branch_members(log, entry.0)
    &&& entry.1.thoughts.len() > 0
    &&& entry.1.thoughts[0].branch_from_thought == Some(entry.1.parent_thought)
    &&& entry.1.metadata == Seq::<(Seq<char>, serde_json::Value)>::empty()
}

/// The branch table after `stored` was taken in at the instant `now`. A
/// thought that names both a branching point and a branch goes to the end of
/// that branch; a branch that is named for the first time is made, leaving at
/// the thought's branching point. Any other thought leaves the table as it
/// is.
pub open spec fn branches_after(
    branches: Seq<(Seq<char>, ThoughtBranchView)>,
    stored: ThoughtDataView,
    now: Timestamp,
) -> Seq<(Seq<char>, ThoughtBranchView)> {
    if stored.joins_branch() {
        let id = stored.branch_id->0;
        if has_key(branches, id) {
            let p = position_of(branches, id);
            branches.update(p, (id, branches[p].1.with_thought(stored)))
        } else {
            branches.push(
                (
                    id,
                    ThoughtBranchView::empty(id, stored.branch_from_thought->0, now).with_thought(
                        stored,
                    ),
                ),
            )
        }
    } else {
        branches
    }
}

/// The state of a [`ThinkingEngine`], as mathematical values.
pub struct ThinkingEngineView {
    /// The engine's own identifier.
    pub id: uuid::Uuid,
    /// The name of the session, once one was started.
    pub session_id: Option<Seq<char>>,
    /// The log: every thought that was taken in, in the order of arrival.
    pub thoughts: Seq<ThoughtDataView>,
    /// The branch table, oldest branch first.
    pub branches: Seq<(Seq<char>, ThoughtBranchView)>,
    /// The progress as of the last thought.
    pub progress: ThinkingProgress,
    /// The counters.
    pub stats: ThinkingStats,
    /// Whether the rendering of thoughts for diagnosis is switched off.
    pub disable_logging: bool,
}

impl ThinkingEngineView {
    /// The state of an engine in which nothing was processed.
    pub open spec fn idle(
        id: uuid::Uuid,
        session_id: Option<Seq<char>>,
        disable_logging: bool,
    ) -> ThinkingEngineView {
        ThinkingEngineView {
            id,
            session_id,
            thoughts: Seq::empty(),
            branches: Seq::empty(),
            progress: ThinkingProgress::spec_new(1, 1),
            stats: ThinkingStats::zero(),
            disable_logging,
        }
    }

    /// What holds of every state that an engine can reach: each thought of
    /// the log is valid and no number in it exceeds its declared total; the
    /// counters count the log; the average time is the total time over the
    /// number of thoughts; the progress is that of the last thought; and the
    /// branch table holds, under each name that a thought of the log joins,
    /// the thoughts of that branch.
    pub open spec fn wf(self) -> bool {
        &&& self.thoughts.len() <= usize::MAX
        &&& forall|i: int|
            0 <= i < self.thoughts.len() ==> (#[trigger] self.thoughts[i]).is_valid()
                && self.thoughts[i].thought_number <= self.thoughts[i].total_thoughts
        &&& self.stats == stats_of(self.thoughts, self.stats.total_processing_time_ms)
        &&& self.progress == progress_of(self.thoughts)
        &&& keys_distinct(self.branches)
        &&& forall|i: int|
            0 <= i < self.branches.len() ==> branch_agrees(#[trigger] self.branches[i], self.thoughts)
        &&& forall|i: int|
            0 <= i < self.thoughts.len() && (#[trigger] self.thoughts[i]).joins_branch()
                ==> has_key(self.branches, self.thoughts[i].branch_id->0)
    }

    /// The state after a session named `session_id` was started: the history
    /// is gone, the engine keeps its identifier and its logging switch.
    pub open spec fn start_session(self, session_id: Seq<char>) -> ThinkingEngineView {
        ThinkingEngineView::idle(self.id, Some(session_id), self.disable_logging)
    }

    /// The state after the thought `stored` was taken in at the instant
    /// `now`, its processing having taken `elapsed_ms` milliseconds.
    pub open spec fn accept(
        self,
        stored: ThoughtDataView,
        now: Timestamp,
        elapsed_ms: u64,
    ) -> ThinkingEngineView {
        ThinkingEngineView {
            thoughts: self.thoughts.push(stored),
            branches: branches_after(self.branches, stored, now),
            progress: self.progress.after(stored),
            stats: self.stats.after(stored, elapsed_ms),
            ..self
        }
    }

    /// The state after the candidate `thought` was handed in: a valid one is
    /// taken in with its total raised where needed, any other leaves the
    /// state as it is.
    pub open spec fn process(
        self,
        thought: ThoughtDataView,
        now: Timestamp,
        elapsed_ms: u64,
    ) -> ThinkingEngineView {
        if thought.is_valid() {
            self.accept(thought.normalised(), now, elapsed_ms)
        } else {
            self
        }
    }

    /// The session counts as complete.
    pub open spec fn is_complete(self) -> bool {
        self.progress.complete()
    }
}

/// A log holds no more revisions than thoughts.
pub proof fn lemma_count_revisions_bound(log: Seq<ThoughtDataView>)
    ensures
        count_revisions(log) <= log.len(),
    decreases log.len(),
{
    if log.len() > 0 {
        lemma_count_revisions_bound(log.drop_last());
    }
}

/// A log holds no more branching thoughts than thoughts.
pub proof fn lemma_count_branching_bound(log: Seq<ThoughtDataView>)
    ensures
        count_branching(log) <= log.len(),
    decreases log.len(),
{
    if log.len() > 0 {
        lemma_count_branching_bound(log.drop_last());
    }
}

/// A branch that no thought of the log joins has no member.
pub proof fn lemma_no_members(log: Seq<ThoughtDataView>, id: Seq<char>)
    requires
        forall|i: int| 0 <= i < log.len() ==> !(#[trigger] log[i]).in_branch(id),
    ensures
        branch_members(log, id) == Seq::<ThoughtDataView>::empty(),
    decreases log.len(),
{
    if log.len() > 0 {
        let rest = log.drop_last();
        assert forall|i: int| 0 <= i < rest.len() implies !(#[trigger] rest[i]).in_branch(id) by {
            assert(rest[i] == log[i]);
        }
        lemma_no_members(rest, id);
        assert(!log[log.len() - 1].in_branch(id));
    }
}

/// Taking in a valid thought whose number does not exceed its total keeps a
/// state well-formed, as long as the log has room.
pub proof fn lemma_accept_wf(
    state: ThinkingEngineView,
    stored: ThoughtDataView,
    now: Timestamp,
    elapsed_ms: u64,
)
    requires
        state.wf(),
        stored.is_valid(),
        stored.thought_number <= stored.total_thoughts,
        state.thoughts.len() < usize::MAX,
    ensures
        state.accept(stored, now, elapsed_ms).wf(),
{
    let next = state.accept(stored, now, elapsed_ms);
    let log = state.thoughts;
    let next_log = next.thoughts;
    assert(next_log.drop_last() =~= log);
    assert(next_log.last() == stored);
    lemma_count_revisions_bound(log);
    lemma_count_branching_bound(log);
    assert forall|i: int| 0 <= i < next_log.len() implies (#[trigger] next_log[i]).is_valid()
        && next_log[i].thought_number <= next_log[i].total_thoughts by {
        if i < log.len() {
            assert(next_log[i] == log[i]);
        }
    }
    assert(next.stats == stats_of(next_log, next.stats.total_processing_time_ms));
    assert(next.progress == progress_of(next_log));
    let branches = state.branches;
    let after = next.branches;
    if stored.joins_branch() {
        let id = stored.branch_id->0;
        if has_key(branches, id) {
            let p = position_of(branches, id);
            assert(branches[p].0 == id);
            assert forall|i: int, j: int| 0 <= i < j < after.len() implies (#[trigger] after[i]).0
                != (#[trigger] after[j]).0 by {
                assert(branches[i].0 != branches[j].0);
            }
            assert forall|i: int| 0 <= i < after.len() implies branch_agrees(
                #[trigger] after[i],
                next_log,
            ) by {
                assert(branch_agrees(branches[i], log));
                if i == p {
                    assert(stored.in_branch(id));
                } else {
                    assert(after[i] == branches[i]);
                    if i < p {
                        assert(branches[i].0 != branches[p].0);
                    } else {
                        assert(branches[p].0 != branches[i].0);
                    }
                    assert(!stored.in_branch(after[i].0));
                }
            }
            assert(after[p].0 == id);
            lemma_position_unique(after, p);
            assert forall|i: int|
                0 <= i < next_log.len() && (#[trigger] next_log[i]).joins_branch() implies has_key(
                after,
                next_log[i].branch_id->0,
            ) by {
                if i < log.len() {
                    assert(next_log[i] == log[i]);
                    let other = log[i].branch_id->0;
                    assert(has_key(branches, other));
                    let q = position_of(branches, other);
                    assert(after[q].0 == other);
                }
            }
        } else {
            let n = branches.len() as int;
            assert forall|i: int| 0 <= i < log.len() implies !(#[trigger] log[i]).in_branch(id) by {
                if log[i].in_branch(id) {
                    assert(log[i].joins_branch());
                    assert(has_key(branches, log[i].branch_id->0));
                }
            }
            lemma_no_members(log, id);
            assert forall|i: int, j: int| 0 <= i < j < after.len() implies (#[trigger] after[i]).0
                != (#[trigger] after[j]).0 by {
                if j < n {
                    assert(branches[i].0 != branches[j].0);
                } else {
                    assert(after[i] == branches[i]);
                    if after[i].0 == id {
                        assert(has_key(branches, id));
                    }
                }
            }
            assert forall|i: int| 0 <= i < after.len() implies branch_agrees(
                #[trigger] after[i],
                next_log,
            ) by {
                if i < n {
                    assert(after[i] == branches[i]);
                    assert(branch_agrees(branches[i], log));
                    if branches[i].0 == id {
                        assert(has_key(branches, id));
                    }
                    assert(!stored.in_branch(after[i].0));
                } else {
                    assert(stored.in_branch(id));
                    assert(after[i].1.thoughts =~= Seq::<ThoughtDataView>::empty().push(stored));
                    assert(branch_members(next_log, id) =~= Seq::<ThoughtDataView>::empty().push(
                        stored,
                    ));
                }
            }
            assert(after[n].0 == id);
            assert forall|i: int|
                0 <= i < next_log.len() && (#[trigger] next_log[i]).joins_branch() implies has_key(
                after,
                next_log[i].branch_id->0,
            ) by {
                if i < log.len() {
                    assert(next_log[i] == log[i]);
                    let other = log[i].branch_id->0;
                    assert(has_key(branches, other));
                    let q = position_of(branches, other);
                    assert(after[q].0 == other);
                } else {
                    assert(after[n].0 == next_log[i].branch_id->0);
                }
            }
        }
    } else {
        assert forall|i: int| 0 <= i < after.len() implies branch_agrees(
            #[trigger] after[i],
            next_log,
        ) by {
            assert(branch_agrees(branches[i], log));
            assert(!stored.in_branch(after[i].0));
        }
        assert forall|i: int|
            0 <= i < next_log.len() && (#[trigger] next_log[i]).joins_branch() implies has_key(
            after,
            next_log[i].branch_id->0,
        ) by {
            if i < log.len() {
                assert(next_log[i] == log[i]);
            }
        }
    }
}

/// Taking in a candidate keeps a state well-formed, whether the candidate is
/// valid or not, as long as the log has room.
pub proof fn lemma_process_wf(
    state: ThinkingEngineView,
    thought: ThoughtDataView,
    now: Timestamp,
    elapsed_ms: u64,
)
    requires
        state.wf(),
        state.thoughts.len() < usize::MAX,
    ensures
        state.process(thought, now, elapsed_ms).wf(),
{
    if thought.is_valid() {
        lemma_accept_wf(state, thought.normalised(), now, elapsed_ms);
    }
}

impl ThoughtDataView {
    /// The thought asks for no further one and its number has reached its
    /// declared total.
    pub open spec fn closes(self) -> bool {
        !self.next_thought_needed && self.thought_number >= self.total_thoughts
    }
}

/// A session does not count as complete before a thought was processed that
/// asks for no further one and whose number has reached its declared total.
pub proof fn lemma_incomplete_until_closing_thought(state: ThinkingEngineView)
    requires
        state.wf(),
        forall|i: int| 0 <= i < state.thoughts.len() ==> !(#[trigger] state.thoughts[i]).closes(),
    ensures
        !state.is_complete(),
{
    if state.thoughts.len() > 0 {
        assert(!state.thoughts[state.thoughts.len() - 1].closes());
    }
}

/// In a state that an engine can reach, the completed thoughts stay below the
/// declared total: they are one less than the number of the last thought,
/// which does not exceed the total. So no such state counts as complete.
pub proof fn lemma_completed_below_total(state: ThinkingEngineView)
    requires
        state.wf(),
    ensures
        state.progress.completed_thoughts < state.progress.total_thoughts,
        !state.is_complete(),
{
    if state.thoughts.len() > 0 {
        let last = state.thoughts[state.thoughts.len() - 1];
        assert(last.is_valid() && last.thought_number <= last.total_thoughts);
    }
}

/// A valid thought whose number `n` is greater than its declared total is
/// stored with the total `n`, and the progress then shows the total `n` and
/// `n - 1` completed thoughts.
pub proof fn lemma_total_raised(
    state: ThinkingEngineView,
    thought: ThoughtDataView,
    now: Timestamp,
    elapsed_ms: u64,
)
    requires
        thought.is_valid(),
        thought.thought_number > thought.total_thoughts,
    ensures
        ({
            let next = state.process(thought, now, elapsed_ms);
            &&& next.thoughts.len() == state.thoughts.len() + 1
            &&& next.thoughts.last().total_thoughts == thought.thought_number
            &&& next.thoughts.last().thought_number == thought.thought_number
            &&& next.progress.current_thought == thought.thought_number
            &&& next.progress.total_thoughts == thought.thought_number
            &&& next.progress.completed_thoughts == thought.thought_number - 1
        }),
{
}

/// A thought that is flagged as a revision and names no thought that it
/// revises is refused, and the state, the log with it, stays as it is.
pub proof fn lemma_revision_without_target_refused(
    state: ThinkingEngineView,
    thought: ThoughtDataView,
    now: Timestamp,
    elapsed_ms: u64,
)
    requires
        thought.is_revision(),
        thought.revises_thought is None,
    ensures
        thought.validation_error() is Some,
        state.process(thought, now, elapsed_ms) == state,
        thought.thought.len() > 0 && thought.thought_number > 0 && thought.total_thoughts > 0
            ==> thought.validation_error() == Some(
            "Revision thoughts must specify which thought is being revised"@,
        ),
{
}

/// A thought that names a branching point and no branch is refused, and the
/// state, the log with it, stays as it is.
pub proof fn lemma_branch_without_name_refused(
    state: ThinkingEngineView,
    thought: ThoughtDataView,
    now: Timestamp,
    elapsed_ms: u64,
)
    requires
        thought.is_branch(),
        thought.branch_id is None,
    ensures
        thought.validation_error() is Some,
        state.process(thought, now, elapsed_ms) == state,
        thought.thought.len() > 0 && thought.thought_number > 0 && thought.total_thoughts > 0 && (
        thought.is_revision() ==> thought.revises_thought is Some) ==> thought.validation_error()
            == Some("Branch thoughts must have a branch ID"@),
{
}

/// A valid thought on the branch `id` stands, once it is processed, at the
/// end of the log and at the end of the branch that the table holds under
/// `id`.
pub proof fn lemma_branch_thought_in_log_and_table(
    state: ThinkingEngineView,
    thought: ThoughtDataView,
    id: Seq<char>,
    now: Timestamp,
    elapsed_ms: u64,
)
    requires
        state.wf(),
        state.thoughts.len() < usize::MAX,
        thought.is_valid(),
        thought.in_branch(id),
    ensures
        ({
            let next = state.process(thought, now, elapsed_ms);
            &&& next.thoughts.last() == thought.normalised()
            &&& has_key(next.branches, id)
            &&& crate::string_map::lookup(next.branches, id) matches Some(branch)
            &&& branch.branch_id == id
            &&& branch.thoughts.len() > 0
            &&& branch.thoughts.last() == thought.normalised()
            &&& branch.thoughts == branch_members(next.thoughts, id)
        }),
{
    let stored = thought.normalised();
    let next = state.process(thought, now, elapsed_ms);
    lemma_accept_wf(state, stored, now, elapsed_ms);
    assert(next.thoughts[next.thoughts.len() - 1] == stored);
    assert(stored.joins_branch());
    assert(has_key(next.branches, next.thoughts[next.thoughts.len() - 1].branch_id->0));
    let p = position_of(next.branches, id);
    assert(branch_agrees(next.branches[p], next.thoughts));
    assert(next.thoughts.drop_last() =~= state.thoughts);
}

/// The count of processed thoughts never goes down when a candidate is
/// handed in, and goes up by one when the candidate is valid. Afterwards, as
/// in every state, the average time is the total time over that count.
pub proof fn lemma_stats_after_process(
    state: ThinkingEngineView,
    thought: ThoughtDataView,
    now: Timestamp,
    elapsed_ms: u64,
)
    requires
        state.wf(),
        state.thoughts.len() < usize::MAX,
    ensures
        ({
            let next = state.process(thought, now, elapsed_ms);
            &&& next.stats.total_thoughts >= state.stats.total_thoughts
            &&& thought.is_valid() ==> next.stats.total_thoughts == state.stats.total_thoughts + 1
            &&& next.stats.total_revisions >= state.stats.total_revisions
            &&& next.stats.total_branches >= state.stats.total_branches
            &&& next.stats.total_processing_time_ms >= state.stats.total_processing_time_ms
            &&& next.stats.avg_processing_time_ms == (Ratio {
                numerator: next.stats.total_processing_time_ms,
                denominator: next.stats.total_thoughts,
            })
        }),
{
    lemma_process_wf(state, thought, now, elapsed_ms);
    lemma_count_revisions_bound(state.thoughts);
    lemma_count_branching_bound(state.thoughts);
}

/// The engine of one session. It owns the log of thoughts, the branch table,
/// the progress and the counters; [`process_thought`](Self::process_thought)
/// is the one operation that adds to them.
#[derive(Debug)]
pub struct ThinkingEngine {
    id: uuid::Uuid,
    session_id: Option<String>,
    thoughts: Vec<ThoughtData>,
    branches: StringMap<ThoughtBranch>,
    progress: ThinkingProgress,
    stats: ThinkingStats,
    disable_logging: bool,
}

impl View for ThinkingEngine {
    type V = ThinkingEngineView;

    closed spec fn view(&self) -> ThinkingEngineView {
        ThinkingEngineView {
            id: self.id,
            session_id: match self.session_id {
                Some(id) => Some(id@),
                None => None,
            },
            thoughts: thought_views(self.thoughts@),
            branches: branch_views(self.branches.entries()),
            progress: self.progress,
            stats: self.stats,
            disable_logging: self.disable_logging,
        }
    }
}

impl ThinkingEngine {
    /// The state of every engine that a program can hold is well-formed.
    #[verifier::type_invariant]
    pub open spec fn inv(&self) -> bool {
        self@.wf()
    }

    /// An engine with the given identifier in which nothing was processed.
    fn idle(id: uuid::Uuid, session_id: Option<String>, disable_logging: bool) -> (engine: Self)
        ensures
            engine@ == ThinkingEngineView::idle(
                id,
                match session_id {
                    Some(name) => Some(name@),
                    None => None,
                },
                disable_logging,
            ),
    {
        let thoughts: Vec<ThoughtData> = Vec::new();
        let branches: StringMap<ThoughtBranch> = StringMap::new();
        assert(thought_views(thoughts@) =~= Seq::<ThoughtDataView>::empty());
        assert(branch_views(branches.entries()) =~= Seq::<
            (Seq<char>, ThoughtBranchView),
        >::empty());
        ThinkingEngine {
            id,
            session_id,
            thoughts,
            branches,
            progress: ThinkingProgress::new(1, 1),
            stats: ThinkingStats::default(),
            disable_logging,
        }
    }

    /// A new engine with an identifier of its own, no session and no
    /// history; thoughts are rendered for diagnosis.
    pub fn new() -> (engine: Self)
        ensures
            engine@ == ThinkingEngineView::idle(engine@.id, None, false),
            engine@.wf(),
    {
        ThinkingEngine::idle(random_uuid(), None, false)
    }

    /// A new engine like that of [`new`](Self::new), with the rendering of
    /// thoughts switched off if `disable_logging` says so.
    pub fn with_logging(disable_logging: bool) -> (engine: Self)
        ensures
            engine@ == ThinkingEngineView::idle(engine@.id, None, disable_logging),
            engine@.wf(),
    {
        ThinkingEngine::idle(random_uuid(), None, disable_logging)
    }

    /// Starts the session `session_id`: the log, the branch table, the
    /// progress and the counters start anew.
    pub fn start_session(&mut self, session_id: String)
        ensures
            final(self)@ == old(self)@.start_session(session_id@),
            final(self)@.wf(),
    {
        let id = self.id;
        let disable_logging = self.disable_logging;
        *self = ThinkingEngine::idle(id, Some(session_id), disable_logging);
    }

    /// Takes in a thought that is valid and whose total was raised where
    /// needed.
    fn commit(&mut self, stored: &ThoughtData, now: Timestamp, elapsed_ms: u64)
        requires
            stored@.is_valid(),
            stored@.thought_number <= stored@.total_thoughts,
        ensures
            final(self)@ == old(self)@.accept(stored@, now, elapsed_ms),
            final(self)@.wf(),
    {
        proof {
            use_type_invariant(&*self);
        }
        let ghost before = self@;
        let mut taken = ThinkingEngine::idle(self.id, None, self.disable_logging);
        std::mem::swap(self, &mut taken);
        let ThinkingEngine {
            id,
            session_id,
            mut thoughts,
            mut branches,
            mut progress,
            mut stats,
            disable_logging,
        } = taken;
        proof {
            use_type_invariant(&branches);
            lemma_count_revisions_bound(before.thoughts);
            lemma_count_branching_bound(before.thoughts);
        }
        let ghost old_entries = branches.entries();
        assert(branch_views(old_entries) == before.branches);

        thoughts.push(stored.clone());
        let count = thoughts.len();
        assert(thought_views(thoughts@) =~= before.thoughts.push(stored@));

        match (&stored.branch_from_thought, &stored.branch_id) {
            (Some(from), Some(name)) => {
                match branches.find(name.as_str()) {
                    Some(i) => {
                        proof {
                            lemma_remove_at(old_entries, i as int);
                            assert(before.branches[i as int].0 == name@);
                            lemma_position_unique(before.branches, i as int);
                        }
                        let entry = branches.remove_at(i);
                        let key = entry.0;
                        let mut branch = entry.1;
                        branch.add_thought(stored.clone());
                        branches.insert_at(i, key, branch);
                        assert(branch_views(branches.entries()) =~= branches_after(
                            before.branches,
                            stored@,
                            now,
                        ));
                    },
                    None => {
                        proof {
                            if has_key(before.branches, name@) {
                                let p = position_of(before.branches, name@);
                                assert(old_entries[p].0 == name@);
                            }
                        }
                        let mut branch = ThoughtBranch::new_at(name.clone(), *from, now);
                        branch.add_thought(stored.clone());
                        branches.insert_new(name.clone(), branch);
                        assert(branch_views(branches.entries()) =~= branches_after(
                            before.branches,
                            stored@,
                            now,
                        ));
                    },
                }
            },
            _ => {},
        }

        progress.update(stored);

        stats.total_thoughts = stats.total_thoughts + 1;
        stats.total_processing_time_ms = stats.total_processing_time_ms.saturating_add(elapsed_ms);
        stats.avg_processing_time_ms =
        Ratio::new(stats.total_processing_time_ms, stats.total_thoughts);
        if stored.is_revision() {
            stats.total_revisions = stats.total_revisions + 1;
        }
        if stored.is_branch() {
            stats.total_branches = stats.total_branches + 1;
        }

        proof {
            lemma_accept_wf(before, stored@, now, elapsed_ms);
        }
        *self = ThinkingEngine {
            id,
            session_id,
            thoughts,
            branches,
            progress,
            stats,
            disable_logging,
        };
    }

    /// Processes `thought` as [`process_thought`](Self::process_thought)
    /// does, with the instant and the processing time given by the caller.
    ///
    /// A thought that breaks a rule is refused with the message of the first
    /// broken rule, and nothing changes. A valid thought is stored, with its
    /// declared total raised to its number where the number is greater: it
    /// goes to the end of the log and, where it names a branching point and a
    /// branch, to the end of that branch, which is made at its first mention;
    /// the progress takes its numbers; the counters go up by one thought, and
    /// by one revision or one branching thought where it is one; the total
    /// time grows by `elapsed_ms`, held at the largest 64-bit value. The
    /// stored thought is returned.
    pub fn process_thought_at(
        &mut self,
        thought: ThoughtData,
        now: Timestamp,
        elapsed_ms: u64,
    ) -> (r: Result<ThoughtData, String>)
        ensures
            final(self)@ == old(self)@.process(thought@, now, elapsed_ms),
            final(self)@.wf(),
            match r {
                Ok(stored) => thought@.is_valid() && stored@ == thought@.normalised(),
                Err(message) => thought@.validation_error() == Some(message@),
            },
    {
        proof {
            use_type_invariant(&*self);
            thought@.lemma_valid_iff_no_error();
        }
        match thought.validate() {
            Err(message) => {
                return Err(message);
            },
            Ok(_) => {},
        }
        let ghost candidate = thought@;
        let mut stored = thought;
        if stored.thought_number > stored.total_thoughts {
            stored.total_thoughts = stored.thought_number;
        }
        assert(stored@ == candidate.normalised());
        self.commit(&stored, now, elapsed_ms);
        Ok(stored)
    }

    /// Processes `thought`: validates it, and stores it if it is valid. What
    /// is stored and how the state changes is what
    /// [`process_thought_at`](Self::process_thought_at) says, for the instant
    /// that the clock shows and the time that the processing takes.
    pub fn process_thought(&mut self, thought: ThoughtData) -> (r: Result<ThoughtData, String>)
        ensures
            exists|now: Timestamp, elapsed_ms: u64|
                final(self)@ == #[trigger] old(self)@.process(thought@, now, elapsed_ms),
            final(self)@.wf(),
            match r {
                Ok(stored) => thought@.is_valid() && stored@ == thought@.normalised(),
                Err(message) => thought@.validation_error() == Some(message@) && final(self)@
                    == old(self)@,
            },
    {
        proof {
            use_type_invariant(&*self);
            thought@.lemma_valid_iff_no_error();
        }
        let start = instant_now();
        let ghost candidate = thought@;
        match thought.validate() {
            Err(message) => {
                assert(self@ == old(self)@.process(candidate, Timestamp { seconds: 0, nanoseconds: 0 }, 0));
                return Err(message);
            },
            Ok(_) => {},
        }
        let mut stored = thought;
        if stored.thought_number > stored.total_thoughts {
            stored.total_thoughts = stored.thought_number;
        }
        assert(stored@ == candidate.normalised());
        let now = Timestamp::now();
        let elapsed_ms = elapsed_millis(&start);
        self.commit(&stored, now, elapsed_ms);
        assert(self@ == old(self)@.process(candidate, now, elapsed_ms));
        Ok(stored)
    }

    /// The progress as of the last thought.
    pub fn get_progress(&self) -> (p: &ThinkingProgress)
        ensures
            *p == self@.progress,
    {
        &self.progress
    }

    /// The log: every thought that was taken in, in the order of arrival.
    pub fn get_thoughts(&self) -> (log: &[ThoughtData])
        ensures
            thought_views(log@) == self@.thoughts,
    {
        self.thoughts.as_slice()
    }

    /// The branch table.
    pub fn get_branches(&self) -> (table: &StringMap<ThoughtBranch>)
        ensures
            branch_views(table.entries()) == self@.branches,
    {
        &self.branches
    }

    /// The counters.
    pub fn get_stats(&self) -> (s: &ThinkingStats)
        ensures
            *s == self@.stats,
    {
        &self.stats
    }

    /// Whether the last thought asked for no further one and the completed
    /// thoughts have reached the declared total.
    pub fn is_complete(&self) -> (b: bool)
        ensures
            b == self@.is_complete(),
    {
        self.progress.is_complete()
    }

    /// The name of the session, once one was started.
    pub fn session_id(&self) -> (id: Option<&str>)
        ensures
            match id {
                Some(name) => self@.session_id == Some(name@),
                None => self@.session_id is None,
            },
    {
        match &self.session_id {
            Some(name) => Some(name.as_str()),
            None => None,
        }
    }

    /// The engine's own identifier.
    pub fn engine_id(&self) -> (id: uuid::Uuid)
        ensures
            id == self@.id,
    {
        self.id
    }

    /// Whether the rendering of thoughts for diagnosis is switched off.
    pub fn logging_disabled(&self) -> (b: bool)
        ensures
            b == self@.disable_logging,
    {
        self.disable_logging
    }
}

impl Default for ThinkingEngine {
    /// A new engine, as [`ThinkingEngine::new`] makes it.
    fn default() -> (engine: Self)
        ensures
            engine@ == ThinkingEngineView::idle(engine@.id, None, false),
    {
        ThinkingEngine::new()
    }
}

impl Clone for ThinkingEngine {
    /// A copy of an engine is a new engine: it has an identifier of its own
    /// and takes over neither session nor history nor the logging switch.
    fn clone(&self) -> (engine: Self)
        ensures
            engine@ == ThinkingEngineView::idle(engine@.id, None, false),
    {
        ThinkingEngine::new()
    }
}

} // verus!
