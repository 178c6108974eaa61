//! Thoughts, branches, progress and the engine that keeps one session's
//! history.
//!
//! Every type that holds text or a collection has a view, a value made of
//! sequences and numbers alone, and the contracts are stated over the views.
//! The engine is a state machine: [`ThinkingEngineView::accept`] says what a
//! state becomes when a thought is taken in, and [`ThinkingEngineView::wf`]
//! says what holds of every state that the engine can reach.

pub mod client;
pub mod engine;
pub mod error;
pub mod render;
pub mod server;
pub mod transcript;

pub use engine::ThinkingEngine;
pub use engine::ThinkingEngineView;

use crate::json::clone_values;
use crate::ratio::Ratio;
use crate::string_map::with_entry;
use crate::string_map::StringMap;
use crate::time::TimeSpan;
use crate::time::Timestamp;
use vstd::prelude::*;

verus! {

#[verifier::external_type_specification]
#[verifier::external_body]
pub struct ExUuid(uuid::Uuid);

/// A fresh random identifier, from `uuid::Uuid::new_v4`.
#[verifier::external_body]
pub(crate) fn random_uuid() -> (id: uuid::Uuid) {
    uuid::Uuid::new_v4()
}

/// The text of an identifier, as `uuid::Uuid`'s `Display` writes it: 32
/// hexadecimal digits in five groups with hyphens between, 36 characters in
/// all.
#[verifier::external_body]
pub(crate) fn uuid_text(id: &uuid::Uuid) -> (text: String)
    ensures
        text@.len() == 36,
{
    id.to_string()
}

/// A fresh random name for a session: the text of a fresh random
/// identifier.
pub(crate) fn random_session_id() -> (id: String)
    ensures
        id@.len() == 36,
{
    let id = random_uuid();
    uuid_text(&id)
}

/// One step of reasoning, as a caller hands it in.
#[derive(Debug)]
pub struct ThoughtData {
    /// The text of the thought.
    pub thought: String,
    /// The number of this thought in its sequence, as the caller counts.
    pub thought_number: u32,
    /// How many thoughts the caller expects in all.
    pub total_thoughts: u32,
    /// Whether another thought is to follow.
    pub next_thought_needed: bool,
    /// Whether this thought revises an earlier one.
    pub is_revision: Option<bool>,
    /// The number of the thought that is revised.
    pub revises_thought: Option<u32>,
    /// The number of the thought at which a branch leaves.
    pub branch_from_thought: Option<u32>,
    /// The name of the branch.
    pub branch_id: Option<String>,
    /// Whether the caller, at the end, found that more thoughts are needed.
    pub needs_more_thoughts: Option<bool>,
    /// When the thought was made.
    pub timestamp: Option<Timestamp>,
    /// Free-form data that goes with the thought.
    pub metadata: Option<StringMap<serde_json::Value>>,
}

/// What a [`ThoughtData`] holds, as mathematical values.
pub struct ThoughtDataView {
    pub thought: Seq<char>,
    pub thought_number: u32,
    pub total_thoughts: u32,
    pub next_thought_needed: bool,
    pub is_revision: Option<bool>,
    pub revises_thought: Option<u32>,
    pub branch_from_thought: Option<u32>,
    pub branch_id: Option<Seq<char>>,
    pub needs_more_thoughts: Option<bool>,
    pub timestamp: Option<Timestamp>,
    pub metadata: Option<Seq<(Seq<char>, serde_json::Value)>>,
}

impl View for ThoughtData {
    type V = ThoughtDataView;

    open spec fn view(&self) -> ThoughtDataView {
        ThoughtDataView {
            thought: self.thought@,
            thought_number: self.thought_number,
            total_thoughts: self.total_thoughts,
            next_thought_needed: self.next_thought_needed,
            is_revision: self.is_revision,
            revises_thought: self.revises_thought,
            branch_from_thought: self.branch_from_thought,
            branch_id: match self.branch_id {
                Some(id) => Some(id@),
                None => None,
            },
            needs_more_thoughts: self.needs_more_thoughts,
            timestamp: self.timestamp,
            metadata: match self.metadata {
                Some(m) => Some(m.entries()),
                None => None,
            },
        }
    }
}

impl ThoughtDataView {
    /// The thought is flagged as a revision.
    pub open spec fn is_revision(self) -> bool {
        self.is_revision == Some(true)
    }

    /// The thought names a thought at which it branches off.
    pub open spec fn is_branch(self) -> bool {
        self.branch_from_thought is Some
    }

    /// The message of the first rule that the thought breaks, in the order
    /// in which the rules are checked; `None` for a thought that breaks none.
    pub open spec fn validation_error(self) -> Option<Seq<char>> {
        if self.thought.len() == 0 {
            Some("Thought content cannot be empty"@)
        } else if self.thought_number == 0 {
            Some("Thought number must be greater than 0"@)
        } else if self.total_thoughts == 0 {
            Some("Total thoughts must be greater than 0"@)
        } else if self.is_revision() && self.revises_thought is None {
            Some("Revision thoughts must specify which thought is being revised"@)
        } else if self.is_branch() && self.branch_id is None {
            Some("Branch thoughts must have a branch ID"@)
        } else {
            None
        }
    }

    /// The thought breaks no rule.
    pub open spec fn is_valid(self) -> bool {
        &&& self.thought.len() > 0
        &&& self.thought_number >= 1
        &&& self.total_thoughts >= 1
        &&& self.is_revision() ==> self.revises_thought is Some
        &&& self.is_branch() ==> self.branch_id is Some
    }

    /// The thought as the engine stores it: a declared total below the
    /// thought's own number is raised to that number.
    pub open spec fn normalised(self) -> ThoughtDataView {
        if self.thought_number > self.total_thoughts {
            ThoughtDataView { total_thoughts: self.thought_number, ..self }
        } else {
            self
        }
    }

    /// The thought belongs to the branch named `id`.
    pub open spec fn in_branch(self, id: Seq<char>) -> bool {
        self.branch_from_thought is Some && self.branch_id == Some(id)
    }

    /// The thought belongs to some branch.
    pub open spec fn joins_branch(self) -> bool {
        self.branch_from_thought is Some && self.branch_id is Some
    }

    /// A thought breaks no rule exactly when validation finds no error.
    pub proof fn lemma_valid_iff_no_error(self)
        ensures
            self.is_valid() <==> self.validation_error() is None,
    {
    }
}

/// The views of a sequence of thoughts.
pub open spec fn thought_views(thoughts: Seq<ThoughtData>) -> Seq<ThoughtDataView> {
    Seq::new(thoughts.len(), |i: int| thoughts[i]@)
}

impl Clone for ThoughtData {
    /// A copy that holds what `self` holds.
    fn clone(&self) -> (copy: Self)
        ensures
            copy@ == self@,
    {
        ThoughtData {
            thought: self.thought.clone(),
            thought_number: self.thought_number,
            total_thoughts: self.total_thoughts,
            next_thought_needed: self.next_thought_needed,
            is_revision: self.is_revision,
            revises_thought: self.revises_thought,
            branch_from_thought: self.branch_from_thought,
            branch_id: match &self.branch_id {
                Some(id) => Some(id.clone()),
                None => None,
            },
            needs_more_thoughts: self.needs_more_thoughts,
            timestamp: self.timestamp,
            metadata: match &self.metadata {
                Some(m) => Some(clone_values(m)),
                None => None,
            },
        }
    }
}

impl Default for ThoughtData {
    /// The first of one thoughts, with no text, stamped with the current
    /// time.
    fn default() -> (t: Self)
        ensures
            t@ == (ThoughtDataView {
                thought: Seq::<char>::empty(),
                thought_number: 1,
                total_thoughts: 1,
                next_thought_needed: true,
                is_revision: None,
                revises_thought: None,
                branch_from_thought: None,
                branch_id: None,
                needs_more_thoughts: None,
                timestamp: t@.timestamp,
                metadata: None,
            }),
            t@.timestamp is Some,
    {
        ThoughtData {
            thought: String::new(),
            thought_number: 1,
            total_thoughts: 1,
            next_thought_needed: true,
            is_revision: None,
            revises_thought: None,
            branch_from_thought: None,
            branch_id: None,
            needs_more_thoughts: None,
            timestamp: Some(Timestamp::now()),
            metadata: None,
        }
    }
}

impl ThoughtData {
    /// A plain thought with the given text and numbers, stamped with the
    /// current time.
    pub fn new(thought: String, thought_number: u32, total_thoughts: u32) -> (t: Self)
        ensures
            t@ == (ThoughtDataView {
                thought: thought@,
                thought_number,
                total_thoughts,
                next_thought_needed: true,
                is_revision: None,
                revises_thought: None,
                branch_from_thought: None,
                branch_id: None,
                needs_more_thoughts: None,
                timestamp: t@.timestamp,
                metadata: None,
            }),
            t@.timestamp is Some,
    {
        ThoughtData {
            thought,
            thought_number,
            total_thoughts,
            next_thought_needed: true,
            is_revision: None,
            revises_thought: None,
            branch_from_thought: None,
            branch_id: None,
            needs_more_thoughts: None,
            timestamp: Some(Timestamp::now()),
            metadata: None,
        }
    }

    /// A thought that revises the thought numbered `revises_thought`. Its
    /// declared total is its own number.
    pub fn revision(thought: String, thought_number: u32, revises_thought: u32) -> (t: Self)
        ensures
            t@ == (ThoughtDataView {
                thought: thought@,
                thought_number,
                total_thoughts: thought_number,
                next_thought_needed: true,
                is_revision: Some(true),
                revises_thought: Some(revises_thought),
                branch_from_thought: None,
                branch_id: None,
                needs_more_thoughts: None,
                timestamp: t@.timestamp,
                metadata: None,
            }),
            t@.timestamp is Some,
    {
        ThoughtData {
            thought,
            thought_number,
            total_thoughts: thought_number,
            next_thought_needed: true,
            is_revision: Some(true),
            revises_thought: Some(revises_thought),
            branch_from_thought: None,
            branch_id: None,
            needs_more_thoughts: None,
            timestamp: Some(Timestamp::now()),
            metadata: None,
        }
    }

    /// A thought on the branch `branch_id` that leaves at the thought
    /// numbered `branch_from_thought`. Its declared total is its own number.
    pub fn branch(
        thought: String,
        thought_number: u32,
        branch_from_thought: u32,
        branch_id: String,
    ) -> (t: Self)
        ensures
            t@ == (ThoughtDataView {
                thought: thought@,
                thought_number,
                total_thoughts: thought_number,
                next_thought_needed: true,
                is_revision: None,
                revises_thought: None,
                branch_from_thought: Some(branch_from_thought),
                branch_id: Some(branch_id@),
                needs_more_thoughts: None,
                timestamp: t@.timestamp,
                metadata: None,
            }),
            t@.timestamp is Some,
    {
        ThoughtData {
            thought,
            thought_number,
            total_thoughts: thought_number,
            next_thought_needed: true,
            is_revision: None,
            revises_thought: None,
            branch_from_thought: Some(branch_from_thought),
            branch_id: Some(branch_id),
            needs_more_thoughts: None,
            timestamp: Some(Timestamp::now()),
            metadata: None,
        }
    }

    /// Whether the thought is flagged as a revision.
    pub fn is_revision(&self) -> (b: bool)
        ensures
            b == self@.is_revision(),
    {
        match self.is_revision {
            Some(flag) => flag,
            None => false,
        }
    }

    /// Whether the thought names a thought at which it branches off.
    pub fn is_branch(&self) -> (b: bool)
        ensures
            b == self@.is_branch(),
    {
        self.branch_from_thought.is_some()
    }

    /// The name of the thought's branch, if it has one.
    pub fn get_branch_id(&self) -> (id: Option<&str>)
        ensures
            match id {
                Some(name) => self@.branch_id == Some(name@),
                None => self@.branch_id is None,
            },
    {
        match &self.branch_id {
            Some(name) => Some(name.as_str()),
            None => None,
        }
    }

    /// The number of the thought that this one revises, if it names one.
    pub fn get_revised_thought(&self) -> (n: Option<u32>)
        ensures
            n == self@.revises_thought,
    {
        self.revises_thought
    }

    /// The thought with `value` stored under `key` in its metadata. A thought
    /// without metadata gets a map with this one entry.
    pub fn with_metadata(self, key: String, value: serde_json::Value) -> (t: Self)
        ensures
            t@ == (ThoughtDataView {
                metadata: Some(
                    with_entry(
                        match self@.metadata {
                            Some(m) => m,
                            None => Seq::empty(),
                        },
                        key@,
                        value,
                    ),
                ),
                ..self@
            }),
    {
        let ThoughtData {
            thought,
            thought_number,
            total_thoughts,
            next_thought_needed,
            is_revision,
            revises_thought,
            branch_from_thought,
            branch_id,
            needs_more_thoughts,
            timestamp,
            metadata,
        } = self;
        let mut map = match metadata {
            Some(m) => m,
            None => StringMap::new(),
        };
        map.insert(key, value);
        ThoughtData {
            thought,
            thought_number,
            total_thoughts,
            next_thought_needed,
            is_revision,
            revises_thought,
            branch_from_thought,
            branch_id,
            needs_more_thoughts,
            timestamp,
            metadata: Some(map),
        }
    }

    /// Checks the rules of a thought in their order: the text is not empty,
    /// the number is above zero, the declared total is above zero, a revision
    /// names the thought it revises, a branching thought names its branch.
    /// The error is the message of the first rule that is broken. A number
    /// above the declared total is no error.
    pub fn validate(&self) -> (r: Result<(), String>)
        ensures
            match r {
                Ok(_) => self@.validation_error() is None,
                Err(message) => self@.validation_error() == Some(message@),
            },
    {
        if self.thought.as_str().is_empty() {
            return Err("Thought content cannot be empty".to_string());
        }
        if self.thought_number == 0 {
            return Err("Thought number must be greater than 0".to_string());
        }
        if self.total_thoughts == 0 {
            return Err("Total thoughts must be greater than 0".to_string());
        }
        if self.is_revision() && self.revises_thought.is_none() {
            return Err(
                "Revision thoughts must specify which thought is being revised".to_string(),
            );
        }
        if self.is_branch() && self.branch_id.is_none() {
            return Err("Branch thoughts must have a branch ID".to_string());
        }
        Ok(())
    }
}

/// The thoughts of one branch.
#[derive(Debug)]
pub struct ThoughtBranch {
    /// The name of the branch.
    pub branch_id: String,
    /// The number of the thought at which the branch leaves.
    pub parent_thought: u32,
    /// The thoughts of the branch, in the order in which they came.
    pub thoughts: Vec<ThoughtData>,
    /// Free-form data that goes with the branch.
    pub metadata: StringMap<serde_json::Value>,
    /// When the branch was first named.
    pub created_at: Timestamp,
}

/// What a [`ThoughtBranch`] holds, as mathematical values.
pub struct ThoughtBranchView {
    pub branch_id: Seq<char>,
    pub parent_thought: u32,
    pub thoughts: Seq<ThoughtDataView>,
    pub metadata: Seq<(Seq<char>, serde_json::Value)>,
    pub created_at: Timestamp,
}

impl View for ThoughtBranch {
    type V = ThoughtBranchView;

    open spec fn view(&self) -> ThoughtBranchView {
        ThoughtBranchView {
            branch_id: self.branch_id@,
            parent_thought: self.parent_thought,
            thoughts: thought_views(self.thoughts@),
            metadata: self.metadata.entries(),
            created_at: self.created_at,
        }
    }
}

impl ThoughtBranchView {
    /// The branch named `branch_id` that leaves at `parent_thought`, with no
    /// thought yet.
    pub open spec fn empty(
        branch_id: Seq<char>,
        parent_thought: u32,
        created_at: Timestamp,
    ) -> ThoughtBranchView {
        ThoughtBranchView {
            branch_id,
            parent_thought,
            thoughts: Seq::empty(),
            metadata: Seq::empty(),
            created_at,
        }
    }

    /// The branch with `thought` added at its end.
    pub open spec fn with_thought(self, thought: ThoughtDataView) -> ThoughtBranchView {
        ThoughtBranchView { thoughts: self.thoughts.push(thought), ..self }
    }
}

impl ThoughtBranch {
    /// An empty branch, stamped with the current time.
    pub fn new(branch_id: String, parent_thought: u32) -> (b: Self)
        ensures
            b@ == ThoughtBranchView::empty(branch_id@, parent_thought, b@.created_at),
    {
        ThoughtBranch::new_at(branch_id, parent_thought, Timestamp::now())
    }

    /// An empty branch that was first named at `created_at`.
    pub fn new_at(branch_id: String, parent_thought: u32, created_at: Timestamp) -> (b: Self)
        ensures
            b@ == ThoughtBranchView::empty(branch_id@, parent_thought, created_at),
    {
        let b = ThoughtBranch {
            branch_id,
            parent_thought,
            thoughts: Vec::new(),
            metadata: StringMap::new(),
            created_at,
        };
        assert(b@.thoughts =~= Seq::<ThoughtDataView>::empty());
        b
    }

    /// Adds a thought at the end of the branch.
    pub fn add_thought(&mut self, thought: ThoughtData)
        ensures
            final(self)@ == old(self)@.with_thought(thought@),
    {
        self.thoughts.push(thought);
        assert(self@.thoughts =~= old(self)@.thoughts.push(thought@));
    }

    /// The number of thoughts in the branch.
    pub fn thought_count(&self) -> (n: usize)
        ensures
            n == self@.thoughts.len(),
    {
        self.thoughts.len()
    }

    /// The thought that was added last, if there is one.
    pub fn latest_thought(&self) -> (t: Option<&ThoughtData>)
        ensures
            match t {
                Some(last) => self@.thoughts.len() > 0 && last@ == self@.thoughts.last(),
                None => self@.thoughts.len() == 0,
            },
    {
        let n = self.thoughts.len();
        if n == 0 {
            None
        } else {
            Some(&self.thoughts[n - 1])
        }
    }
}

/// How far a session has come, as of the thought that was processed last.
#[derive(Debug, Clone, Copy, PartialEq, Eq, Structural)]
pub struct ThinkingProgress {
    /// The number of the current thought.
    pub current_thought: u32,
    /// The declared total.
    pub total_thoughts: u32,
    /// The thoughts that lie behind the current one.
    pub completed_thoughts: u32,
    /// The number of branches that are open.
    pub active_branches: usize,
    /// Whether another thought is to follow.
    pub needs_more_thoughts: bool,
    /// The completed thoughts as a part of the declared total.
    pub progress_percentage: Ratio,
    /// The time that the rest is expected to take, where it is known.
    pub estimated_time_remaining: Option<TimeSpan>,
}

impl ThinkingProgress {
    /// The thoughts that lie behind the thought numbered `current`.
    pub open spec fn completed_before(current: u32) -> u32 {
        if current == 0 {
            0
        } else {
            (current - 1) as u32
        }
    }

    /// The progress of a session that stands at thought `current_thought` of
    /// `total_thoughts`, with no branch and another thought to follow.
    pub open spec fn spec_new(current_thought: u32, total_thoughts: u32) -> ThinkingProgress {
        ThinkingProgress {
            current_thought,
            total_thoughts,
            completed_thoughts: Self::completed_before(current_thought),
            active_branches: 0,
            needs_more_thoughts: true,
            progress_percentage: Ratio {
                numerator: Self::completed_before(current_thought) as u64,
                denominator: total_thoughts as u64,
            },
            estimated_time_remaining: None,
        }
    }

    /// The progress after `thought` was processed: its numbers and its
    /// continuation flag replace the earlier ones; the rest stays.
    pub open spec fn after(self, thought: ThoughtDataView) -> ThinkingProgress {
        ThinkingProgress {
            current_thought: thought.thought_number,
            total_thoughts: thought.total_thoughts,
            completed_thoughts: Self::completed_before(thought.thought_number),
            needs_more_thoughts: thought.next_thought_needed,
            progress_percentage: Ratio {
                numerator: Self::completed_before(thought.thought_number) as u64,
                denominator: thought.total_thoughts as u64,
            },
            ..self
        }
    }

    /// No further thought is asked for and the completed thoughts have
    /// reached the declared total.
    pub open spec fn complete(self) -> bool {
        !self.needs_more_thoughts && self.completed_thoughts >= self.total_thoughts
    }

    /// The progress of a session that stands at thought `current_thought` of
    /// `total_thoughts`.
    pub fn new(current_thought: u32, total_thoughts: u32) -> (p: Self)
        ensures
            p == Self::spec_new(current_thought, total_thoughts),
    {
        let completed_thoughts = current_thought.saturating_sub(1);
        ThinkingProgress {
            current_thought,
            total_thoughts,
            completed_thoughts,
            active_branches: 0,
            needs_more_thoughts: true,
            progress_percentage: Ratio::new(completed_thoughts as u64, total_thoughts as u64),
            estimated_time_remaining: None,
        }
    }

    /// Takes the numbers and the continuation flag of `thought`.
    pub fn update(&mut self, thought: &ThoughtData)
        ensures
            *final(self) == old(self).after(thought@),
    {
        self.current_thought = thought.thought_number;
        self.total_thoughts = thought.total_thoughts;
        self.completed_thoughts = thought.thought_number.saturating_sub(1);
        self.needs_more_thoughts = thought.next_thought_needed;
        self.progress_percentage =
        Ratio::new(self.completed_thoughts as u64, self.total_thoughts as u64);
    }

    /// Whether no further thought is asked for and the completed thoughts
    /// have reached the declared total.
    pub fn is_complete(&self) -> (b: bool)
        ensures
            b == self.complete(),
    {
        !self.needs_more_thoughts && self.completed_thoughts >= self.total_thoughts
    }
}

/// Counters of one session's processing.
#[derive(Debug, Clone, Copy, PartialEq, Eq, Structural)]
pub struct ThinkingStats {
    /// The thoughts that were processed.
    pub total_thoughts: u64,
    /// Those of them that were revisions.
    pub total_revisions: u64,
    /// Those of them that branched off.
    pub total_branches: u64,
    /// The processing time per thought: the total time over the number of
    /// thoughts.
    pub avg_processing_time_ms: Ratio,
    /// The processing time of all thoughts together, in milliseconds.
    pub total_processing_time_ms: u64,
}

impl ThinkingStats {
    /// The counters of a session in which nothing was processed yet.
    pub open spec fn zero() -> ThinkingStats {
        ThinkingStats {
            total_thoughts: 0,
            total_revisions: 0,
            total_branches: 0,
            avg_processing_time_ms: Ratio { numerator: 0, denominator: 0 },
            total_processing_time_ms: 0,
        }
    }

    /// The sum of two times in milliseconds, held at the largest value that
    /// 64 bits can take.
    pub open spec fn capped_sum(a: u64, b: u64) -> u64 {
        if a + b > u64::MAX {
            u64::MAX
        } else {
            (a + b) as u64
        }
    }

    /// The counters after `thought` was processed in `elapsed_ms`
    /// milliseconds.
    pub open spec fn after(self, thought: ThoughtDataView, elapsed_ms: u64) -> ThinkingStats {
        ThinkingStats {
            total_thoughts: (self.total_thoughts + 1) as u64,
            total_revisions: if thought.is_revision() {
                (self.total_revisions + 1) as u64
            } else {
                self.total_revisions
            },
            total_branches: if thought.is_branch() {
                (self.total_branches + 1) as u64
            } else {
                self.total_branches
            },
            avg_processing_time_ms: Ratio {
                numerator: Self::capped_sum(self.total_processing_time_ms, elapsed_ms),
                denominator: (self.total_thoughts + 1) as u64,
            },
            total_processing_time_ms: Self::capped_sum(self.total_processing_time_ms, elapsed_ms),
        }
    }
}

impl Default for ThinkingStats {
    /// The counters of a session in which nothing was processed yet.
    fn default() -> (s: Self)
        ensures
            s == ThinkingStats::zero(),
    {
        ThinkingStats {
            total_thoughts: 0,
            total_revisions: 0,
            total_branches: 0,
            avg_processing_time_ms: Ratio::new(0, 0),
            total_processing_time_ms: 0,
        }
    }
}

/// What processes thoughts on behalf of a caller. The library's engine is
/// one way to do it; a host may have another.
pub trait ThoughtProcessor: Send + Sync {
    /// Processes a thought and returns it as it was stored.
    fn process_thought(&self, thought: ThoughtData) -> Result<ThoughtData, String>;

    /// Checks a thought without processing it.
    fn validate_thought(&self, thought: &ThoughtData) -> Result<(), String>;

    /// The counters of the processing so far.
    fn get_stats(&self) -> Result<ThinkingStats, String>;
}

} // verus!
