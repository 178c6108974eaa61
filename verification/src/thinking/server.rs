//! What a thinking server keeps and decides: its engine, its table of
//! sessions, its counters, and how a tool call is read and answered. The
//! transport that brings the calls is not part of it.

use crate::ratio::Ratio;
use crate::string_map::has_key;
use crate::string_map::keys_distinct;
use crate::string_map::lemma_position_unique;
use crate::string_map::lookup;
use crate::string_map::position_of;
use crate::string_map::with_entry;
use crate::string_map::without_key;
use crate::string_map::StringMap;
use crate::text::joined;
use crate::text::lowercase;
use crate::text::lowercase_of;
use crate::text::str_eq;
use crate::thinking::engine::count_branching;
use crate::thinking::engine::count_revisions;
use crate::thinking::engine::lemma_count_branching_bound;
use crate::thinking::engine::lemma_count_revisions_bound;
use crate::thinking::error::ErrorKind;
use crate::thinking::error::SequentialThinkingError;
use crate::thinking::thought_views;
use crate::thinking::ThinkingEngine;
use crate::thinking::ThinkingEngineView;
use crate::thinking::ThinkingProgress;
use crate::thinking::ThinkingStats;
use crate::thinking::ThoughtData;
use crate::thinking::ThoughtDataView;
use crate::time::elapsed_millis;
use crate::time::instant_now;
use crate::time::Timestamp;
use vstd::prelude::*;
use vstd::utf8::encode_utf8;

verus! {

/// One more than `n`, held at the largest 64-bit value.
pub open spec fn capped_next(n: u64) -> u64 {
    if n == u64::MAX {
        n
    } else {
        (n + 1) as u64
    }
}

/// The sum of `a` and `b`, held at the largest 64-bit value.
pub open spec fn capped_add(a: u64, b: u64) -> u64 {
    if a + b > u64::MAX {
        u64::MAX
    } else {
        (a + b) as u64
    }
}

/// Counters of a server. Each stops at the largest value that it can hold.
#[derive(Debug, Clone, Copy, PartialEq, Eq, Structural)]
pub struct ServerStats {
    /// The requests that were taken.
    pub total_requests: u64,
    /// The thoughts that were processed.
    pub total_thoughts: u64,
    /// The sessions that were created.
    pub total_sessions: u64,
    /// The time that a request took on average: the total time over the
    /// number of requests.
    pub avg_response_time_ms: Ratio,
    /// The time that all requests took together, in milliseconds.
    pub total_response_time_ms: u64,
    /// The requests that failed.
    pub error_count: u64,
}

impl ServerStats {
    /// The counters of a server that has done nothing yet.
    pub open spec fn zero() -> ServerStats {
        ServerStats {
            total_requests: 0,
            total_thoughts: 0,
            total_sessions: 0,
            avg_response_time_ms: Ratio { numerator: 0, denominator: 0 },
            total_response_time_ms: 0,
            error_count: 0,
        }
    }

    /// The counters after a request that took `response_ms` milliseconds
    /// and went well or not, as `succeeded` says.
    pub open spec fn after_request(self, succeeded: bool, response_ms: u64) -> ServerStats {
        ServerStats {
            total_requests: capped_next(self.total_requests),
            total_response_time_ms: capped_add(self.total_response_time_ms, response_ms),
            avg_response_time_ms: Ratio {
                numerator: capped_add(self.total_response_time_ms, response_ms),
                denominator: capped_next(self.total_requests),
            },
            total_thoughts: if succeeded {
                capped_next(self.total_thoughts)
            } else {
                self.total_thoughts
            },
            error_count: if succeeded {
                self.error_count
            } else {
                capped_next(self.error_count)
            },
            ..self
        }
    }

    /// The counters after a request that took `response_ms` milliseconds.
    fn record_request(&mut self, succeeded: bool, response_ms: u64)
        ensures
            *final(self) == old(self).after_request(succeeded, response_ms),
    {
        self.total_requests = self.total_requests.saturating_add(1);
        self.total_response_time_ms = self.total_response_time_ms.saturating_add(response_ms);
        self.avg_response_time_ms = Ratio::new(self.total_response_time_ms, self.total_requests);
        if succeeded {
            self.total_thoughts = self.total_thoughts.saturating_add(1);
        } else {
            self.error_count = self.error_count.saturating_add(1);
        }
    }
}

impl Default for ServerStats {
    /// The counters of a server that has done nothing yet.
    fn default() -> (s: Self)
        ensures
            s == ServerStats::zero(),
    {
        ServerStats {
            total_requests: 0,
            total_thoughts: 0,
            total_sessions: 0,
            avg_response_time_ms: Ratio::new(0, 0),
            total_response_time_ms: 0,
            error_count: 0,
        }
    }
}

/// The views of the entries of a table of engines.
pub open spec fn engine_views(entries: Seq<(Seq<char>, ThinkingEngine)>) -> Seq<
    (Seq<char>, ThinkingEngineView),
> {
    Seq::new(entries.len(), |i: int| (entries[i].0, entries[i].1@))
}

/// The views of a table of engines with distinct names have distinct names,
/// and a name leads in them to the view of what it leads to in the table.
pub proof fn lemma_engine_views(entries: Seq<(Seq<char>, ThinkingEngine)>, id: Seq<char>)
    requires
        keys_distinct(entries),
    ensures
        keys_distinct(engine_views(entries)),
        has_key(engine_views(entries), id) == has_key(entries, id),
        has_key(entries, id) ==> position_of(engine_views(entries), id) == position_of(entries, id),
        lookup(engine_views(entries), id) == match lookup(entries, id) {
            Some(engine) => Some(engine@),
            None => None,
        },
{
    let views = engine_views(entries);
    assert forall|i: int, j: int| 0 <= i < j < views.len() implies (#[trigger] views[i]).0 != (
    #[trigger] views[j]).0 by {
        assert(entries[i].0 != entries[j].0);
    }
    if has_key(entries, id) {
        let p = position_of(entries, id);
        assert(views[p].0 == id);
        lemma_position_unique(views, p);
    } else {
        if has_key(views, id) {
            let p = position_of(views, id);
            assert(entries[p].0 == id);
        }
    }
}

/// What a merge of sessions gives: how many thoughts the sessions hold
/// together, and the sums of their counters.
#[derive(Debug, Clone, Copy, PartialEq, Eq, Structural)]
pub struct MergeSummary {
    /// The thoughts of all sessions together, held at the largest value that
    /// the count can take.
    pub merged_thoughts: u64,
    /// The counters of all sessions together; the times are not summed.
    pub merged_stats: ThinkingStats,
}

impl MergeSummary {
    /// The summary of no session.
    pub open spec fn zero() -> MergeSummary {
        MergeSummary { merged_thoughts: 0, merged_stats: ThinkingStats::zero() }
    }

    /// The summary with the session of `engine` taken in.
    pub open spec fn with_session(self, engine: ThinkingEngineView) -> MergeSummary {
        MergeSummary {
            merged_thoughts: capped_add(self.merged_thoughts, engine.thoughts.len() as u64),
            merged_stats: ThinkingStats {
                total_thoughts: capped_add(
                    self.merged_stats.total_thoughts,
                    engine.stats.total_thoughts,
                ),
                total_revisions: capped_add(
                    self.merged_stats.total_revisions,
                    engine.stats.total_revisions,
                ),
                total_branches: capped_add(
                    self.merged_stats.total_branches,
                    engine.stats.total_branches,
                ),
                ..self.merged_stats
            },
        }
    }
}

/// The names of a list of names of which some may be missing.
pub open spec fn optional_views(names: Seq<Option<String>>) -> Seq<Option<Seq<char>>> {
    Seq::new(
        names.len(),
        |i: int|
            match names[i] {
                Some(name) => Some(name@),
                None => None,
            },
    )
}

/// The summary of the sessions that `ids` names in `sessions`, taken in the
/// order of `ids`. A name that is missing or that leads to no session adds
/// nothing; a name that occurs twice adds its session twice.
pub open spec fn merged(
    sessions: Seq<(Seq<char>, ThinkingEngineView)>,
    ids: Seq<Option<Seq<char>>>,
) -> MergeSummary
    decreases ids.len(),
{
    if ids.len() == 0 {
        MergeSummary::zero()
    } else {
        let earlier = merged(sessions, ids.drop_last());
        match ids.last() {
            Some(id) => match lookup(sessions, id) {
                Some(engine) => earlier.with_session(engine),
                None => earlier,
            },
            None => earlier,
        }
    }
}

/// The length of a text in bytes of UTF-8.
pub open spec fn byte_length(text: Seq<char>) -> nat {
    encode_utf8(text).len()
}

/// The lengths of the texts of a log, summed.
pub open spec fn total_length(log: Seq<ThoughtDataView>) -> nat
    decreases log.len(),
{
    if log.len() == 0 {
        0
    } else {
        total_length(log.drop_last()) + byte_length(log.last().thought)
    }
}

/// What an analysis of a session finds.
#[derive(Debug, Clone, Copy, PartialEq, Eq, Structural)]
pub struct SessionAnalysis {
    /// The thoughts of the log.
    pub total_thoughts: u64,
    /// Those of them that are revisions.
    pub revisions: u64,
    /// Those of them that branch off.
    pub branch_thoughts: u64,
    /// The branches of the table.
    pub active_branches: u64,
    /// The length of a thought on average: the lengths of all texts in bytes,
    /// held at the largest 64-bit value, over the number of thoughts.
    pub avg_thought_length: Ratio,
    /// The revisions as a part of the thoughts.
    pub revision_rate: Ratio,
    /// The branching thoughts as a part of the thoughts.
    pub branch_rate: Ratio,
    /// The counters of the engine.
    pub processing_stats: ThinkingStats,
}

/// `n`, held at the largest 64-bit value.
pub open spec fn capped(n: nat) -> u64 {
    if n > u64::MAX {
        u64::MAX
    } else {
        n as u64
    }
}

impl SessionAnalysis {
    /// The analysis of a log with `branches` branches and the counters
    /// `stats`.
    pub open spec fn of(log: Seq<ThoughtDataView>, branches: nat, stats: ThinkingStats) -> Self {
        SessionAnalysis {
            total_thoughts: log.len() as u64,
            revisions: count_revisions(log) as u64,
            branch_thoughts: count_branching(log) as u64,
            active_branches: branches as u64,
            avg_thought_length: Ratio {
                numerator: capped(total_length(log)),
                denominator: log.len() as u64,
            },
            revision_rate: Ratio {
                numerator: count_revisions(log) as u64,
                denominator: log.len() as u64,
            },
            branch_rate: Ratio {
                numerator: count_branching(log) as u64,
                denominator: log.len() as u64,
            },
            processing_stats: stats,
        }
    }
}

/// Analyses a log: counts its thoughts, its revisions and its branching
/// thoughts, and sums the lengths of its texts.
pub fn analyze_thinking_session(
    thoughts: &[ThoughtData],
    active_branches: usize,
    stats: &ThinkingStats,
) -> (analysis: SessionAnalysis)
    ensures
        analysis == SessionAnalysis::of(thought_views(thoughts@), active_branches as nat, *stats),
{
    let ghost log = thought_views(thoughts@);
    let mut revisions: u64 = 0;
    let mut branch_thoughts: u64 = 0;
    let mut length: u64 = 0;
    let mut i: usize = 0;
    assert(log.subrange(0, 0) =~= Seq::<ThoughtDataView>::empty());
    while i < thoughts.len()
        invariant
            i <= thoughts@.len(),
            log == thought_views(thoughts@),
            revisions == count_revisions(log.subrange(0, i as int)),
            branch_thoughts == count_branching(log.subrange(0, i as int)),
            length == capped(total_length(log.subrange(0, i as int))),
        decreases thoughts@.len() - i,
    {
        proof {
            assert(log.subrange(0, i + 1).drop_last() =~= log.subrange(0, i as int));
            assert(log.subrange(0, i + 1).last() == thoughts@[i as int]@);
            lemma_count_revisions_bound(log.subrange(0, i as int));
            lemma_count_branching_bound(log.subrange(0, i as int));
        }
        let thought = &thoughts[i];
        if thought.is_revision() {
            revisions = revisions + 1;
        }
        if thought.is_branch() {
            branch_thoughts = branch_thoughts + 1;
        }
        let bytes = thought.thought.as_str().as_bytes().len();
        length = length.saturating_add(bytes as u64);
        i += 1;
    }
    assert(log.subrange(0, thoughts@.len() as int) =~= log);
    let total = thoughts.len() as u64;
    SessionAnalysis {
        total_thoughts: total,
        revisions,
        branch_thoughts,
        active_branches: active_branches as u64,
        avg_thought_length: Ratio::new(length, total),
        revision_rate: Ratio::new(revisions, total),
        branch_rate: Ratio::new(branch_thoughts, total),
        processing_stats: *stats,
    }
}

/// The tools that a server offers.
#[derive(Debug, Clone, Copy, PartialEq, Eq, Structural)]
pub enum ToolKind {
    SequentialThinking,
    ExportSession,
    AnalyzeSession,
    MergeSessions,
}

impl ToolKind {
    /// The tool of the name `name`.
    pub open spec fn of_name(name: Seq<char>) -> Option<ToolKind> {
        if name == "sequential_thinking"@ {
            Some(ToolKind::SequentialThinking)
        } else if name == "export_session"@ {
            Some(ToolKind::ExportSession)
        } else if name == "analyze_session"@ {
            Some(ToolKind::AnalyzeSession)
        } else if name == "merge_sessions"@ {
            Some(ToolKind::MergeSessions)
        } else {
            None
        }
    }

    /// The name of the tool.
    pub open spec fn spec_name(self) -> Seq<char> {
        match self {
            ToolKind::SequentialThinking => "sequential_thinking"@,
            ToolKind::ExportSession => "export_session"@,
            ToolKind::AnalyzeSession => "analyze_session"@,
            ToolKind::MergeSessions => "merge_sessions"@,
        }
    }

    /// The tool that a call names. A call of a tool that is not offered is
    /// refused, and the error quotes the name.
    pub fn from_name(name: &str) -> (r: Result<ToolKind, String>)
        ensures
            match r {
                Ok(tool) => Self::of_name(name@) == Some(tool),
                Err(message) => Self::of_name(name@) is None && message@ == "Unknown tool: "@
                    + name@,
            },
    {
        if str_eq(name, "sequential_thinking") {
            Ok(ToolKind::SequentialThinking)
        } else if str_eq(name, "export_session") {
            Ok(ToolKind::ExportSession)
        } else if str_eq(name, "analyze_session") {
            Ok(ToolKind::AnalyzeSession)
        } else if str_eq(name, "merge_sessions") {
            Ok(ToolKind::MergeSessions)
        } else {
            Err(joined("Unknown tool: ", name))
        }
    }

    /// The name of the tool.
    pub fn name(&self) -> (n: &'static str)
        ensures
            n@ == self.spec_name(),
    {
        match self {
            ToolKind::SequentialThinking => "sequential_thinking",
            ToolKind::ExportSession => "export_session",
            ToolKind::AnalyzeSession => "analyze_session",
            ToolKind::MergeSessions => "merge_sessions",
        }
    }

    /// The tools in the order in which a server lists them.
    pub fn all() -> (tools: Vec<ToolKind>)
        ensures
            tools@ == seq![
                ToolKind::SequentialThinking,
                ToolKind::ExportSession,
                ToolKind::AnalyzeSession,
                ToolKind::MergeSessions,
            ],
    {
        let mut tools: Vec<ToolKind> = Vec::new();
        tools.push(ToolKind::SequentialThinking);
        tools.push(ToolKind::ExportSession);
        tools.push(ToolKind::AnalyzeSession);
        tools.push(ToolKind::MergeSessions);
        tools
    }
}

/// The formats in which a server exports its session.
#[derive(Debug, Clone, Copy, PartialEq, Eq, Structural)]
pub enum SessionExportFormat {
    Json,
    Markdown,
}

impl SessionExportFormat {
    /// The format that the argument of an export call asks for: JSON where
    /// the call names none.
    pub open spec fn of_argument(format: Option<Seq<char>>) -> Option<SessionExportFormat> {
        match format {
            None => Some(SessionExportFormat::Json),
            Some(name) => if name == "json"@ {
                Some(SessionExportFormat::Json)
            } else if name == "markdown"@ {
                Some(SessionExportFormat::Markdown)
            } else {
                None
            },
        }
    }

    /// The format that the argument of an export call asks for. A format
    /// that is not offered is refused, and the error quotes it.
    pub fn from_argument(format: Option<&str>) -> (r: Result<SessionExportFormat, String>)
        ensures
            match r {
                Ok(f) => Self::of_argument(
                    match format {
                        Some(name) => Some(name@),
                        None => None,
                    },
                ) == Some(f),
                Err(message) => format matches Some(name) && Self::of_argument(Some(name@)) is None
                    && message@ == "Unsupported format: "@ + name@,
            },
    {
        match format {
            None => Ok(SessionExportFormat::Json),
            Some(name) => {
                if str_eq(name, "json") {
                    Ok(SessionExportFormat::Json)
                } else if str_eq(name, "markdown") {
                    Ok(SessionExportFormat::Markdown)
                } else {
                    Err(joined("Unsupported format: ", name))
                }
            },
        }
    }
}

/// What the arguments of a thinking call held: each field that was there
/// with a value of its kind.
#[derive(Debug)]
pub struct ThoughtArguments {
    /// `thought`, a text.
    pub thought: Option<String>,
    /// `thoughtNumber`, a number that is not negative.
    pub thought_number: Option<u64>,
    /// `totalThoughts`, a number that is not negative.
    pub total_thoughts: Option<u64>,
    /// `nextThoughtNeeded`, a truth value.
    pub next_thought_needed: Option<bool>,
    /// `isRevision`, a truth value.
    pub is_revision: Option<bool>,
    /// `revisesThought`, a number that is not negative.
    pub revises_thought: Option<u64>,
    /// `branchFromThought`, a number that is not negative.
    pub branch_from_thought: Option<u64>,
    /// `branchId`, a text.
    pub branch_id: Option<String>,
    /// `needsMoreThoughts`, a truth value.
    pub needs_more_thoughts: Option<bool>,
}

/// The low 32 bits of `n`.
pub open spec fn low_bits(n: u64) -> u32 {
    (n % 0x1_0000_0000) as u32
}

/// The low 32 bits of a number that may be missing.
pub open spec fn optional_low_bits(n: Option<u64>) -> Option<u32> {
    match n {
        Some(value) => Some(low_bits(value)),
        None => None,
    }
}

/// The low 32 bits of `n`.
fn low(n: u64) -> (r: u32)
    ensures
        r == low_bits(n),
{
    (n % 0x1_0000_0000) as u32
}

impl ThoughtArguments {
    /// What is missing among the fields that a thought needs: the message
    /// about the first of `thought`, `thoughtNumber` and `totalThoughts`
    /// that is not there.
    pub open spec fn missing(&self) -> Option<Seq<char>> {
        if self.thought is None {
            Some("Missing 'thought' field"@)
        } else if self.thought_number is None {
            Some("Missing 'thoughtNumber' field"@)
        } else if self.total_thoughts is None {
            Some("Missing 'totalThoughts' field"@)
        } else {
            None
        }
    }
}

/// The thought that the arguments of a thinking call describe, stamped with
/// the instant `now`. The text and the two numbers have to be there; a
/// thought whose continuation flag is missing asks for another thought;
/// numbers are cut to their low 32 bits.
pub fn extract_thought_data_at(args: ThoughtArguments, now: Timestamp) -> (r: Result<
    ThoughtData,
    String,
>)
    ensures
        match r {
            Ok(thought) => args.missing() is None && thought@ == (ThoughtDataView {
                thought: args.thought->0@,
                thought_number: low_bits(args.thought_number->0),
                total_thoughts: low_bits(args.total_thoughts->0),
                next_thought_needed: match args.next_thought_needed {
                    Some(flag) => flag,
                    None => true,
                },
                is_revision: args.is_revision,
                revises_thought: optional_low_bits(args.revises_thought),
                branch_from_thought: optional_low_bits(args.branch_from_thought),
                branch_id: match args.branch_id {
                    Some(id) => Some(id@),
                    None => None,
                },
                needs_more_thoughts: args.needs_more_thoughts,
                timestamp: Some(now),
                metadata: None,
            }),
            Err(message) => args.missing() == Some(message@),
        },
{
    let ThoughtArguments {
        thought,
        thought_number,
        total_thoughts,
        next_thought_needed,
        is_revision,
        revises_thought,
        branch_from_thought,
        branch_id,
        needs_more_thoughts,
    } = args;
    let thought = match thought {
        Some(text) => text,
        None => {
            return Err("Missing 'thought' field".to_string());
        },
    };
    let thought_number = match thought_number {
        Some(n) => low(n),
        None => {
            return Err("Missing 'thoughtNumber' field".to_string());
        },
    };
    let total_thoughts = match total_thoughts {
        Some(n) => low(n),
        None => {
            return Err("Missing 'totalThoughts' field".to_string());
        },
    };
    Ok(
        ThoughtData {
            thought,
            thought_number,
            total_thoughts,
            next_thought_needed: match next_thought_needed {
                Some(flag) => flag,
                None => true,
            },
            is_revision,
            revises_thought: match revises_thought {
                Some(n) => Some(low(n)),
                None => None,
            },
            branch_from_thought: match branch_from_thought {
                Some(n) => Some(low(n)),
                None => None,
            },
            branch_id,
            needs_more_thoughts,
            timestamp: Some(now),
            metadata: None,
        },
    )
}

/// The thought that the arguments of a thinking call describe, stamped with
/// the current time.
pub fn extract_thought_data(args: ThoughtArguments) -> (r: Result<ThoughtData, String>)
    ensures
        match r {
            Ok(thought) => args.missing() is None && thought@.thought == args.thought->0@
                && thought@.thought_number == low_bits(args.thought_number->0)
                && thought@.total_thoughts == low_bits(args.total_thoughts->0)
                && thought@.timestamp is Some,
            Err(message) => args.missing() == Some(message@),
        },
{
    extract_thought_data_at(args, Timestamp::now())
}

/// Whether the environment switches the rendering of thoughts off: it does
/// where the variable for that is set to `true`, in any case of letters.
pub fn logging_disabled_by(value: Option<&str>) -> (disabled: bool)
    ensures
        disabled == (lowercase_of(
            match value {
                Some(text) => text@,
                None => Seq::empty(),
            },
        ) == "true"@),
{
    let text = match value {
        Some(text) => text,
        None => "",
    };
    proof {
        reveal_strlit("");
        assert(""@ =~= Seq::<char>::empty());
    }
    let lower = lowercase(text);
    str_eq(lower.as_str(), "true")
}

/// What a server answers to a thinking call.
#[derive(Debug)]
pub struct ThoughtResponse {
    /// The number of the thought that was stored.
    pub thought_number: u32,
    /// Its declared total, raised where needed.
    pub total_thoughts: u32,
    /// Whether another thought is to follow.
    pub next_thought_needed: bool,
    /// The names of the branches.
    pub branches: Vec<String>,
    /// The length of the log.
    pub thought_history_length: usize,
    /// The progress.
    pub progress: ThinkingProgress,
    /// Whether the session counts as complete.
    pub is_complete: bool,
    /// The counters of the engine.
    pub stats: ThinkingStats,
    /// The time that the call took, in milliseconds.
    pub processing_time_ms: u64,
}

/// The state of a [`SequentialThinkingServer`], as mathematical values.
pub struct ServerView {
    /// The engine that processes the thoughts.
    pub engine: ThinkingEngineView,
    /// The sessions under their names, oldest name first.
    pub sessions: Seq<(Seq<char>, ThinkingEngineView)>,
    /// The counters.
    pub stats: ServerStats,
}

impl ServerView {
    /// The state after a thinking request: the engine has taken the
    /// candidate in, or not, and the request is counted.
    pub open spec fn process(
        self,
        thought: ThoughtDataView,
        now: Timestamp,
        engine_ms: u64,
        response_ms: u64,
    ) -> ServerView {
        ServerView {
            engine: self.engine.process(thought, now, engine_ms),
            stats: self.stats.after_request(thought.is_valid(), response_ms),
            ..self
        }
    }
}

/// A thinking server: one engine that processes the thoughts, a table of
/// sessions, and counters.
#[derive(Debug)]
pub struct SequentialThinkingServer {
    engine: ThinkingEngine,
    sessions: StringMap<ThinkingEngine>,
    stats: ServerStats,
}

impl View for SequentialThinkingServer {
    type V = ServerView;

    closed spec fn view(&self) -> ServerView {
        ServerView {
            engine: self.engine@,
            sessions: engine_views(self.sessions.entries()),
            stats: self.stats,
        }
    }
}

impl SequentialThinkingServer {
    /// A server with a new engine, no session, and counters at zero.
    pub fn with_logging(disable_logging: bool) -> (server: Self)
        ensures
            server@.engine == ThinkingEngineView::idle(server@.engine.id, None, disable_logging),
            server@.sessions == Seq::<(Seq<char>, ThinkingEngineView)>::empty(),
            server@.stats == ServerStats::zero(),
    {
        let sessions: StringMap<ThinkingEngine> = StringMap::new();
        assert(engine_views(sessions.entries()) =~= Seq::<(Seq<char>, ThinkingEngineView)>::empty());
        SequentialThinkingServer {
            engine: ThinkingEngine::with_logging(disable_logging),
            sessions,
            stats: ServerStats::default(),
        }
    }

    /// The counters.
    pub fn get_stats(&self) -> (s: ServerStats)
        ensures
            s == self@.stats,
    {
        self.stats
    }

    /// The engine that processes the thoughts.
    pub fn engine(&self) -> (e: &ThinkingEngine)
        ensures
            e@ == self@.engine,
    {
        &self.engine
    }

    /// Processes `thought` in the engine and counts the request, with the
    /// instant and the two times given by the caller: what the engine took,
    /// and what the request took in all. A refusal of the engine comes back
    /// as a processing error that carries the engine's message.
    pub fn process_thought_at(
        &mut self,
        thought: ThoughtData,
        now: Timestamp,
        engine_ms: u64,
        response_ms: u64,
    ) -> (r: Result<ThoughtData, SequentialThinkingError>)
        ensures
            final(self)@ == old(self)@.process(thought@, now, engine_ms, response_ms),
            match r {
                Ok(stored) => thought@.is_valid() && stored@ == thought@.normalised(),
                Err(e) => e.kind() == ErrorKind::ProcessingError && thought@.validation_error()
                    == Some(e.detail()),
            },
    {
        proof {
            thought@.lemma_valid_iff_no_error();
        }
        let result = self.engine.process_thought_at(thought, now, engine_ms);
        self.stats.record_request(result.is_ok(), response_ms);
        match result {
            Ok(stored) => Ok(stored),
            Err(message) => Err(SequentialThinkingError::processing_error(message.as_str())),
        }
    }

    /// Processes `thought` in the engine and counts the request, with the
    /// time that it takes.
    pub fn process_thought(&mut self, thought: ThoughtData) -> (r: Result<
        ThoughtData,
        SequentialThinkingError,
    >)
        ensures
            exists|now: Timestamp, engine_ms: u64, response_ms: u64|
                final(self)@ == #[trigger] old(self)@.process(
                    thought@,
                    now,
                    engine_ms,
                    response_ms,
                ),
            match r {
                Ok(stored) => thought@.is_valid() && stored@ == thought@.normalised(),
                Err(e) => e.kind() == ErrorKind::ProcessingError && thought@.validation_error()
                    == Some(e.detail()),
            },
    {
        proof {
            thought@.lemma_valid_iff_no_error();
        }
        let ghost candidate = thought@;
        let ghost before = self@;
        let start = instant_now();
        let result = self.engine.process_thought(thought);
        let response_ms = elapsed_millis(&start);
        self.stats.record_request(result.is_ok(), response_ms);
        proof {
            let (now, engine_ms) = choose|now: Timestamp, engine_ms: u64|
                self.engine@ == #[trigger] before.engine.process(candidate, now, engine_ms);
            assert(self@ == before.process(candidate, now, engine_ms, response_ms));
        }
        match result {
            Ok(stored) => Ok(stored),
            Err(message) => Err(SequentialThinkingError::processing_error(message.as_str())),
        }
    }

    /// Creates the session `session_id` with a new engine, in the place of
    /// the session of that name if there is one, and counts it.
    pub fn create_session(&mut self, session_id: String)
        ensures
            lookup(final(self)@.sessions, session_id@) matches Some(engine) && engine
                == ThinkingEngineView::idle(engine.id, None, false) && final(self)@ == (ServerView {
                sessions: with_entry(old(self)@.sessions, session_id@, engine),
                stats: ServerStats {
                    total_sessions: capped_next(old(self)@.stats.total_sessions),
                    ..old(self)@.stats
                },
                ..old(self)@
            }),
    {
        proof {
            use_type_invariant(&self.sessions);
            lemma_engine_views(self.sessions.entries(), session_id@);
        }
        let ghost before = self.sessions.entries();
        let engine = ThinkingEngine::new();
        let ghost fresh = engine@;
        proof {
            crate::string_map::lemma_with_entry(engine_views(before), session_id@, fresh);
            assert(engine_views(with_entry(before, session_id@, engine)) =~= with_entry(
                engine_views(before),
                session_id@,
                fresh,
            ));
        }
        self.sessions.insert(session_id, engine);
        self.stats.total_sessions = self.stats.total_sessions.saturating_add(1);
    }

    /// A copy of the engine of the session `session_id`, if there is one. As
    /// every copy of an engine, it is a new engine.
    pub fn get_session(&self, session_id: &str) -> (r: Option<ThinkingEngine>)
        ensures
            match r {
                Some(copy) => has_key(self@.sessions, session_id@) && copy@
                    == ThinkingEngineView::idle(copy@.id, None, false),
                None => !has_key(self@.sessions, session_id@),
            },
    {
        proof {
            use_type_invariant(&self.sessions);
            lemma_engine_views(self.sessions.entries(), session_id@);
        }
        match self.sessions.get(session_id) {
            Some(engine) => Some(engine.clone()),
            None => None,
        }
    }

    /// Removes the session `session_id` and says whether there was one.
    pub fn remove_session(&mut self, session_id: &str) -> (existed: bool)
        ensures
            final(self)@ == (ServerView {
                sessions: without_key(old(self)@.sessions, session_id@),
                ..old(self)@
            }),
            existed == has_key(old(self)@.sessions, session_id@),
    {
        proof {
            use_type_invariant(&self.sessions);
            lemma_engine_views(self.sessions.entries(), session_id@);
            assert(engine_views(without_key(self.sessions.entries(), session_id@)) =~= without_key(
                engine_views(self.sessions.entries()),
                session_id@,
            ));
        }
        self.sessions.remove(session_id).is_some()
    }

    /// The names of the sessions, oldest first.
    pub fn get_session_ids(&self) -> (ids: Vec<String>)
        ensures
            ids@.len() == self@.sessions.len(),
            forall|i: int| 0 <= i < ids@.len() ==> (#[trigger] ids@[i])@ == self@.sessions[i].0,
    {
        self.sessions.keys()
    }

    /// Merges the sessions that `ids` names: counts their thoughts and sums
    /// their counters.
    pub fn merge_sessions(&self, ids: &Vec<Option<String>>) -> (summary: MergeSummary)
        ensures
            summary == merged(self@.sessions, optional_views(ids@)),
    {
        let ghost names = optional_views(ids@);
        let ghost table = self@.sessions;
        let mut merged_thoughts: u64 = 0;
        let mut stats = ThinkingStats::default();
        let mut i: usize = 0;
        assert(names.subrange(0, 0) =~= Seq::<Option<Seq<char>>>::empty());
        while i < ids.len()
            invariant
                i <= ids@.len(),
                names == optional_views(ids@),
                table == self@.sessions,
                (MergeSummary { merged_thoughts, merged_stats: stats }) == merged(
                    table,
                    names.subrange(0, i as int),
                ),
            decreases ids@.len() - i,
        {
            proof {
                assert(names.subrange(0, i + 1).drop_last() =~= names.subrange(0, i as int));
                assert(names.subrange(0, i + 1).last() == names[i as int]);
                use_type_invariant(&self.sessions);
            }
            match &ids[i] {
                Some(id) => {
                    proof {
                        lemma_engine_views(self.sessions.entries(), id@);
                    }
                    match self.sessions.get(id.as_str()) {
                        Some(engine) => {
                            let count = engine.get_thoughts().len() as u64;
                            assert(count == engine@.thoughts.len());
                            let session_stats = engine.get_stats();
                            merged_thoughts = merged_thoughts.saturating_add(count);
                            stats.total_thoughts =
                            stats.total_thoughts.saturating_add(session_stats.total_thoughts);
                            stats.total_revisions =
                            stats.total_revisions.saturating_add(session_stats.total_revisions);
                            stats.total_branches =
                            stats.total_branches.saturating_add(session_stats.total_branches);
                        },
                        None => {},
                    }
                },
                None => {},
            }
            i += 1;
        }
        assert(names.subrange(0, ids@.len() as int) =~= names);
        MergeSummary { merged_thoughts, merged_stats: stats }
    }

    /// Analyses the session of the server's engine.
    pub fn analyze_session(&self) -> (analysis: SessionAnalysis)
        ensures
            analysis == SessionAnalysis::of(
                self@.engine.thoughts,
                self@.engine.branches.len(),
                self@.engine.stats,
            ),
    {
        analyze_thinking_session(
            self.engine.get_thoughts(),
            self.engine.get_branches().len(),
            self.engine.get_stats(),
        )
    }

    /// The answer to a thinking call that stored `processed` and took
    /// `processing_time_ms` milliseconds: the numbers of the stored thought,
    /// and the state of the engine.
    pub fn thought_response(&self, processed: &ThoughtData, processing_time_ms: u64) -> (response:
        ThoughtResponse)
        ensures
            response.thought_number == processed@.thought_number,
            response.total_thoughts == processed@.total_thoughts,
            response.next_thought_needed == processed@.next_thought_needed,
            response.branches@.len() == self@.engine.branches.len(),
            forall|i: int|
                0 <= i < response.branches@.len() ==> (#[trigger] response.branches@[i])@
                    == self@.engine.branches[i].0,
            response.thought_history_length == self@.engine.thoughts.len(),
            response.progress == self@.engine.progress,
            response.is_complete == self@.engine.is_complete(),
            response.stats == self@.engine.stats,
            response.processing_time_ms == processing_time_ms,
    {
        ThoughtResponse {
            thought_number: processed.thought_number,
            total_thoughts: processed.total_thoughts,
            next_thought_needed: processed.next_thought_needed,
            branches: self.engine.get_branches().keys(),
            thought_history_length: self.engine.get_thoughts().len(),
            progress: *self.engine.get_progress(),
            is_complete: self.engine.is_complete(),
            stats: *self.engine.get_stats(),
            processing_time_ms,
        }
    }
}

} // verus!
