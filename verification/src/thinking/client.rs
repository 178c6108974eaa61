//! What a client of a thinking server keeps and decides: its sessions, its
//! counters, the progress it follows, and what it does when a call fails.
//! The connection to the server is not part of it.

use crate::json::clone_values;
use crate::ratio::Ratio;
use crate::string_map::has_key;
use crate::string_map::keys_distinct;
use crate::string_map::lemma_position_unique;
use crate::string_map::lemma_remove_at;
use crate::string_map::lookup;
use crate::string_map::position_of;
use crate::string_map::with_entry;
use crate::string_map::without_key;
use crate::string_map::StringMap;
use crate::text::has_prefix;
use crate::text::joined;
use crate::text::starts_with;
use crate::text::str_eq;
use crate::thinking::error::ErrorKind;
use crate::thinking::error::SequentialThinkingError;
use crate::thinking::server::capped_add;
use crate::thinking::random_session_id;
use crate::thinking::server::capped_next;
use crate::thinking::ThinkingEngine;
use crate::thinking::ThinkingEngineView;
use crate::thinking::ThinkingProgress;
use crate::thinking::ThinkingStats;
use crate::thinking::ThoughtData;
use crate::thinking::ThoughtDataView;
use crate::time::Timestamp;
use vstd::prelude::*;

verus! {

/// How a client follows a session.
#[derive(Debug, Clone, Copy, PartialEq, Eq, Structural)]
pub struct ClientThinkingConfig {
    /// Whether the progress is followed.
    pub enable_progress_tracking: bool,
    /// The time between two savings, in seconds.
    pub auto_save_interval: u64,
    /// Whether thoughts are drawn.
    pub show_thought_visualization: bool,
    /// How often a failed call is made in all.
    pub max_retry_attempts: u32,
    /// How long an operation may take, in seconds.
    pub operation_timeout: u64,
}

impl ClientThinkingConfig {
    /// The progress is followed, and a failed call is made three times in all.
    pub open spec fn standard() -> ClientThinkingConfig {
        ClientThinkingConfig {
            enable_progress_tracking: true,
            auto_save_interval: 60,
            show_thought_visualization: true,
            max_retry_attempts: 3,
            operation_timeout: 30,
        }
    }
}

impl Default for ClientThinkingConfig {
    /// The progress is followed, and a failed call is made three times in all.
    fn default() -> (c: Self)
        ensures
            c == ClientThinkingConfig::standard(),
    {
        ClientThinkingConfig {
            enable_progress_tracking: true,
            auto_save_interval: 60,
            show_thought_visualization: true,
            max_retry_attempts: 3,
            operation_timeout: 30,
        }
    }
}

/// Counters of a client. Each stops at the largest value that it can hold.
#[derive(Debug, Clone, Copy, PartialEq, Eq, Structural)]
pub struct ClientStats {
    /// The requests that were made.
    pub total_requests: u64,
    /// The thoughts that the server took.
    pub total_thoughts: u64,
    /// The sessions that were started.
    pub total_sessions: u64,
    /// The time that a request took on average: the total time over the
    /// number of requests.
    pub avg_response_time_ms: Ratio,
    /// The time that all requests took together, in milliseconds.
    pub total_response_time_ms: u64,
    /// The requests that the server did not take.
    pub error_count: u64,
    /// The calls that were made again after a failure.
    pub retry_count: u64,
}

impl ClientStats {
    /// The counters of a client that has done nothing yet.
    pub open spec fn zero() -> ClientStats {
        ClientStats {
            total_requests: 0,
            total_thoughts: 0,
            total_sessions: 0,
            avg_response_time_ms: Ratio { numerator: 0, denominator: 0 },
            total_response_time_ms: 0,
            error_count: 0,
            retry_count: 0,
        }
    }

    /// The counters after the answer to a request came, which took
    /// `response_ms` milliseconds and was taken by the server or not.
    pub open spec fn after_response(self, succeeded: bool, response_ms: u64) -> ClientStats {
        ClientStats {
            total_response_time_ms: capped_add(self.total_response_time_ms, response_ms),
            avg_response_time_ms: Ratio {
                numerator: capped_add(self.total_response_time_ms, response_ms),
                denominator: self.total_requests,
            },
            total_thoughts: if succeeded {
                capped_next(self.total_thoughts)
            } else {
                self.total_thoughts
            },
            error_count: if succeeded {
                self.error_count
            } else {
                capped_next(self.error_count)
            },
            ..self
        }
    }
}

impl Default for ClientStats {
    /// The counters of a client that has done nothing yet.
    fn default() -> (s: Self)
        ensures
            s == ClientStats::zero(),
    {
        ClientStats {
            total_requests: 0,
            total_thoughts: 0,
            total_sessions: 0,
            avg_response_time_ms: Ratio::new(0, 0),
            total_response_time_ms: 0,
            error_count: 0,
            retry_count: 0,
        }
    }
}

/// The progress that a client follows: where the session stands, and where
/// it stood before.
#[derive(Debug)]
pub struct ProgressTracker {
    /// The progress as of the last thought.
    pub current_progress: Option<ThinkingProgress>,
    /// What the progress was before, oldest first.
    pub progress_history: Vec<ThinkingProgress>,
    /// When the progress was last noted.
    pub last_update: Timestamp,
}

/// What a [`ProgressTracker`] holds, as mathematical values.
pub struct ProgressTrackerView {
    pub current_progress: Option<ThinkingProgress>,
    pub progress_history: Seq<ThinkingProgress>,
    pub last_update: Timestamp,
}

impl View for ProgressTracker {
    type V = ProgressTrackerView;

    open spec fn view(&self) -> ProgressTrackerView {
        ProgressTrackerView {
            current_progress: self.current_progress,
            progress_history: self.progress_history@,
            last_update: self.last_update,
        }
    }
}

impl ProgressTrackerView {
    /// The tracker after `progress` was noted at the instant `now`: what was
    /// current goes to the end of the history.
    pub open spec fn noted(self, progress: ThinkingProgress, now: Timestamp) -> Self {
        ProgressTrackerView {
            progress_history: match self.current_progress {
                Some(current) => self.progress_history.push(current),
                None => self.progress_history,
            },
            current_progress: Some(progress),
            last_update: now,
        }
    }
}

impl ProgressTracker {
    /// A tracker that has noted nothing, made at the instant `now`.
    pub fn new_at(now: Timestamp) -> (t: Self)
        ensures
            t@ == (ProgressTrackerView {
                current_progress: None,
                progress_history: Seq::empty(),
                last_update: now,
            }),
    {
        ProgressTracker { current_progress: None, progress_history: Vec::new(), last_update: now }
    }

    /// Notes `progress` at the instant `now`.
    pub fn note(&mut self, progress: ThinkingProgress, now: Timestamp)
        ensures
            final(self)@ == old(self)@.noted(progress, now),
    {
        match self.current_progress {
            Some(current) => {
                self.progress_history.push(current);
            },
            None => {},
        }
        self.current_progress = Some(progress);
        self.last_update = now;
    }
}

impl Default for ProgressTracker {
    /// A tracker that has noted nothing, made now.
    fn default() -> (t: Self)
        ensures
            t@.current_progress is None,
            t@.progress_history == Seq::<ThinkingProgress>::empty(),
    {
        ProgressTracker::new_at(Timestamp::now())
    }
}

/// A session as a client keeps it.
#[derive(Debug)]
pub struct ThinkingSession {
    /// The name of the session.
    pub session_id: String,
    /// The title of the session.
    pub title: String,
    /// The engine that keeps the session's thoughts on the client's side.
    pub engine: ThinkingEngine,
    /// Free-form data.
    pub metadata: StringMap<serde_json::Value>,
    /// When the session was made.
    pub created_at: Timestamp,
    /// When the session was last used.
    pub last_activity: Timestamp,
}

/// What a client's [`ThinkingSession`] holds, as mathematical values.
pub struct ThinkingSessionView {
    pub session_id: Seq<char>,
    pub title: Seq<char>,
    pub engine: ThinkingEngineView,
    pub metadata: Seq<(Seq<char>, serde_json::Value)>,
    pub created_at: Timestamp,
    pub last_activity: Timestamp,
}

impl View for ThinkingSession {
    type V = ThinkingSessionView;

    open spec fn view(&self) -> ThinkingSessionView {
        ThinkingSessionView {
            session_id: self.session_id@,
            title: self.title@,
            engine: self.engine@,
            metadata: self.metadata.entries(),
            created_at: self.created_at,
            last_activity: self.last_activity,
        }
    }
}

impl ThinkingSessionView {
    /// A copy of a session, as [`ThinkingSession::clone`] makes it, given
    /// the identifier of the copy's engine.
    pub open spec fn copied(self, engine_id: uuid::Uuid) -> Self {
        ThinkingSessionView { engine: ThinkingEngineView::idle(engine_id, None, false), ..self }
    }
}

impl ThinkingSession {
    /// A session named `session_id` and titled `title`, with a new engine,
    /// made at the instant `now`.
    pub fn new_at(session_id: String, title: String, now: Timestamp) -> (s: Self)
        ensures
            s@ == (ThinkingSessionView {
                session_id: session_id@,
                title: title@,
                engine: ThinkingEngineView::idle(s@.engine.id, None, false),
                metadata: Seq::empty(),
                created_at: now,
                last_activity: now,
            }),
    {
        ThinkingSession {
            session_id,
            title,
            engine: ThinkingEngine::new(),
            metadata: StringMap::new(),
            created_at: now,
            last_activity: now,
        }
    }

    /// A session named `session_id` and titled `title`, with a new engine,
    /// made now.
    pub fn new(session_id: String, title: String) -> (s: Self)
        ensures
            s@ == (ThinkingSessionView {
                session_id: session_id@,
                title: title@,
                engine: ThinkingEngineView::idle(s@.engine.id, None, false),
                metadata: Seq::empty(),
                created_at: s@.created_at,
                last_activity: s@.created_at,
            }),
    {
        ThinkingSession::new_at(session_id, title, Timestamp::now())
    }

    /// Stores `value` under `key` in the metadata, and notes the use.
    pub fn add_metadata(&mut self, key: String, value: serde_json::Value)
        ensures
            final(self)@ == (ThinkingSessionView {
                metadata: with_entry(old(self)@.metadata, key@, value),
                last_activity: final(self)@.last_activity,
                ..old(self)@
            }),
    {
        self.metadata.insert(key, value);
        self.last_activity = Timestamp::now();
    }

    /// The counters of the session's engine.
    pub fn get_stats(&self) -> (s: ThinkingStats)
        ensures
            s == self@.engine.stats,
    {
        *self.engine.get_stats()
    }

    /// The progress of the session's engine.
    pub fn get_progress(&self) -> (p: ThinkingProgress)
        ensures
            p == self@.engine.progress,
    {
        *self.engine.get_progress()
    }

    /// Whether the session counts as complete.
    pub fn is_complete(&self) -> (b: bool)
        ensures
            b == self@.engine.is_complete(),
    {
        self.engine.is_complete()
    }
}

impl Clone for ThinkingSession {
    /// A copy with the same name, title, metadata and times. The engine of
    /// the copy is a new one, as a copy of an engine is.
    fn clone(&self) -> (copy: Self)
        ensures
            copy@ == self@.copied(copy@.engine.id),
    {
        ThinkingSession {
            session_id: self.session_id.clone(),
            title: self.title.clone(),
            engine: self.engine.clone(),
            metadata: clone_values(&self.metadata),
            created_at: self.created_at,
            last_activity: self.last_activity,
        }
    }
}

/// The ways in which a client reaches a server.
#[derive(Debug, Clone, Copy, PartialEq, Eq, Structural)]
pub enum Transport {
    Stdio,
    Http,
}

impl Transport {
    /// The way that the address `server_url` asks for: standard streams for
    /// `stdio` and for what begins with `stdio://`, HTTP for what begins with
    /// `http://` or `https://`.
    pub open spec fn of_url(server_url: Seq<char>) -> Option<Transport> {
        if has_prefix(server_url, "stdio://"@) || server_url == "stdio"@ {
            Some(Transport::Stdio)
        } else if has_prefix(server_url, "http://"@) || has_prefix(server_url, "https://"@) {
            Some(Transport::Http)
        } else {
            None
        }
    }

    /// The way that the address `server_url` asks for. An address of another
    /// form is refused with a transport error that quotes it.
    pub fn for_url(server_url: &str) -> (r: Result<Transport, SequentialThinkingError>)
        ensures
            match r {
                Ok(transport) => Self::of_url(server_url@) == Some(transport),
                Err(e) => Self::of_url(server_url@) is None && e.kind() == ErrorKind::TransportError
                    && e.detail() == "Unsupported server URL format: "@ + server_url@,
            },
    {
        if starts_with(server_url, "stdio://") || str_eq(server_url, "stdio") {
            Ok(Transport::Stdio)
        } else if starts_with(server_url, "http://") || starts_with(server_url, "https://") {
            Ok(Transport::Http)
        } else {
            let message = joined("Unsupported server URL format: ", server_url);
            Err(SequentialThinkingError::transport_error(message.as_str()))
        }
    }
}

/// What a client does after a call to the server has failed.
#[derive(Debug, Clone, Copy, PartialEq, Eq, Structural)]
pub enum RetryDecision {
    /// The call is given up, and its error is what the client reports.
    GiveUp,
    /// The call is made again after a wait of so many seconds.
    RetryAfter { seconds: u64 },
}

/// What a client does after a call has failed for the `failures`th time,
/// where it makes a call at most `max_attempts` times: it gives up once the
/// failures have reached that number, and else tries again a second later.
pub open spec fn retry_decision(failures: u32, max_attempts: u32) -> RetryDecision {
    if failures >= max_attempts {
        RetryDecision::GiveUp
    } else {
        RetryDecision::RetryAfter { seconds: 1 }
    }
}

/// One part of what a tool call gave back.
#[derive(Debug)]
pub enum ToolOutput {
    /// A text.
    Text { text: String },
    /// Anything else.
    Other,
}

/// The text that a tool call gave back: the first part of its result, which
/// has to be a text. `what` names the call in the error.
pub fn first_text(content: &Vec<ToolOutput>, what: &str) -> (r: Result<
    String,
    SequentialThinkingError,
>)
    ensures
        match r {
            Ok(text) => content@.len() > 0 && (content@[0] matches ToolOutput::Text { text: first }
                && text@ == first@),
            Err(e) => e.kind() == ErrorKind::SerializationError && (if content@.len() == 0 {
                e.detail() == "No content in "@ + what@ + " result"@
            } else {
                content@[0] is Other && e.detail() == "Unexpected content type in "@ + what@
                    + " result"@
            }),
        },
{
    if content.len() == 0 {
        let head = joined("No content in ", what);
        let message = joined(head.as_str(), " result");
        Err(SequentialThinkingError::serialization_error(message.as_str()))
    } else {
        match &content[0] {
            ToolOutput::Text { text } => Ok(text.clone()),
            ToolOutput::Other => {
                let head = joined("Unexpected content type in ", what);
                let message = joined(head.as_str(), " result");
                Err(SequentialThinkingError::serialization_error(message.as_str()))
            },
        }
    }
}

/// The views of the entries of a client's table of sessions.
pub open spec fn session_views(entries: Seq<(Seq<char>, ThinkingSession)>) -> Seq<
    (Seq<char>, ThinkingSessionView),
> {
    Seq::new(entries.len(), |i: int| (entries[i].0, entries[i].1@))
}

/// The views of a table of sessions with distinct names have distinct names,
/// and a name leads in them to the view of what it leads to in the table.
pub proof fn lemma_session_views(entries: Seq<(Seq<char>, ThinkingSession)>, id: Seq<char>)
    requires
        keys_distinct(entries),
    ensures
        keys_distinct(session_views(entries)),
        has_key(session_views(entries), id) == has_key(entries, id),
        has_key(entries, id) ==> position_of(session_views(entries), id) == position_of(entries, id),
        lookup(session_views(entries), id) == match lookup(entries, id) {
            Some(session) => Some(session@),
            None => None,
        },
{
    let views = session_views(entries);
    assert forall|i: int, j: int| 0 <= i < j < views.len() implies (#[trigger] views[i]).0 != (
    #[trigger] views[j]).0 by {
        assert(entries[i].0 != entries[j].0);
    }
    if has_key(entries, id) {
        let p = position_of(entries, id);
        assert(views[p].0 == id);
        lemma_position_unique(views, p);
    } else {
        if has_key(views, id) {
            let p = position_of(views, id);
            assert(entries[p].0 == id);
        }
    }
}

/// The state of a [`SequentialThinkingClient`], as mathematical values.
pub struct ClientView {
    /// The settings.
    pub config: ClientThinkingConfig,
    /// The sessions under their names, oldest name first.
    pub sessions: Seq<(Seq<char>, ThinkingSessionView)>,
    /// The counters.
    pub stats: ClientStats,
    /// The progress that is followed.
    pub tracker: ProgressTrackerView,
}

impl ClientView {
    /// The state with one more request counted.
    pub open spec fn with_request(self) -> ClientView {
        ClientView {
            stats: ClientStats {
                total_requests: capped_next(self.stats.total_requests),
                ..self.stats
            },
            ..self
        }
    }

    /// The state after the client took up the request to add `thought` to
    /// the session `id`: the request is counted, and the engine of the
    /// session, if there is one, has taken the candidate in, or not.
    pub open spec fn begin_add(
        self,
        id: Seq<char>,
        thought: ThoughtDataView,
        now: Timestamp,
        engine_ms: u64,
    ) -> ClientView {
        if has_key(self.sessions, id) {
            let p = position_of(self.sessions, id);
            let session = self.sessions[p].1;
            ClientView {
                sessions: self.sessions.update(
                    p,
                    (
                        id,
                        ThinkingSessionView {
                            engine: session.engine.process(thought, now, engine_ms),
                            ..session
                        },
                    ),
                ),
                ..self.with_request()
            }
        } else {
            self.with_request()
        }
    }

    /// The state after the answer of the server came: the response is
    /// counted, the progress of the stored thought is noted where the
    /// settings ask for that, and the use of the session is noted.
    pub open spec fn finish_add(
        self,
        id: Seq<char>,
        processed: ThoughtDataView,
        succeeded: bool,
        response_ms: u64,
        now: Timestamp,
    ) -> ClientView {
        ClientView {
            stats: self.stats.after_response(succeeded, response_ms),
            tracker: if self.config.enable_progress_tracking {
                self.tracker.noted(
                    ThinkingProgress::spec_new(processed.thought_number, processed.total_thoughts),
                    now,
                )
            } else {
                self.tracker
            },
            sessions: if has_key(self.sessions, id) {
                let p = position_of(self.sessions, id);
                self.sessions.update(
                    p,
                    (id, ThinkingSessionView { last_activity: now, ..self.sessions[p].1 }),
                )
            } else {
                self.sessions
            },
            ..self
        }
    }
}

/// A client of a thinking server: its settings, its sessions, its counters
/// and the progress it follows.
#[derive(Debug)]
pub struct SequentialThinkingClient {
    config: ClientThinkingConfig,
    sessions: StringMap<ThinkingSession>,
    stats: ClientStats,
    progress_tracker: ProgressTracker,
}

impl View for SequentialThinkingClient {
    type V = ClientView;

    closed spec fn view(&self) -> ClientView {
        ClientView {
            config: self.config,
            sessions: session_views(self.sessions.entries()),
            stats: self.stats,
            tracker: self.progress_tracker@,
        }
    }
}

impl SequentialThinkingClient {
    /// A client with the given settings, no session, and counters at zero,
    /// made at the instant `now`.
    pub fn with_config_at(config: ClientThinkingConfig, now: Timestamp) -> (client: Self)
        ensures
            client@ == (ClientView {
                config,
                sessions: Seq::empty(),
                stats: ClientStats::zero(),
                tracker: ProgressTrackerView {
                    current_progress: None,
                    progress_history: Seq::empty(),
                    last_update: now,
                },
            }),
    {
        let sessions: StringMap<ThinkingSession> = StringMap::new();
        assert(session_views(sessions.entries()) =~= Seq::<
            (Seq<char>, ThinkingSessionView),
        >::empty());
        SequentialThinkingClient {
            config,
            sessions,
            stats: ClientStats::default(),
            progress_tracker: ProgressTracker::new_at(now),
        }
    }

    /// A client with the given settings, no session, and counters at zero.
    pub fn with_config(config: ClientThinkingConfig) -> (client: Self)
        ensures
            client@.config == config,
            client@.sessions == Seq::<(Seq<char>, ThinkingSessionView)>::empty(),
            client@.stats == ClientStats::zero(),
            client@.tracker.current_progress is None,
            client@.tracker.progress_history == Seq::<ThinkingProgress>::empty(),
    {
        SequentialThinkingClient::with_config_at(config, Timestamp::now())
    }

    /// A client with the standard settings, no session, counters at zero,
    /// and a tracker that has noted no progress yet and was last set at the
    /// instant at which the client was made.
    pub fn new() -> (client: Self)
        ensures
            client@ == (ClientView {
                config: ClientThinkingConfig::standard(),
                sessions: Seq::empty(),
                stats: ClientStats::zero(),
                tracker: ProgressTrackerView {
                    current_progress: None,
                    progress_history: Seq::empty(),
                    last_update: client@.tracker.last_update,
                },
            }),
    {
        SequentialThinkingClient::with_config(ClientThinkingConfig::default())
    }

    /// The settings.
    pub fn config(&self) -> (c: ClientThinkingConfig)
        ensures
            c == self@.config,
    {
        self.config
    }

    /// Starts the session `session_id`, titled `title`, at the instant `now`:
    /// the session that is handed out has an engine in which the session is
    /// started; a copy of it is kept under its name, and the session is
    /// counted.
    pub fn start_session_as(&mut self, session_id: String, title: String, now: Timestamp) -> (session:
        ThinkingSession)
        ensures
            session@ == (ThinkingSessionView {
                session_id: session_id@,
                title: title@,
                engine: ThinkingEngineView::idle(session@.engine.id, Some(session_id@), false),
                metadata: Seq::empty(),
                created_at: now,
                last_activity: now,
            }),
            lookup(final(self)@.sessions, session_id@) matches Some(kept) && kept == session@.copied(
                kept.engine.id,
            ) && final(self)@ == (ClientView {
                sessions: with_entry(old(self)@.sessions, session_id@, kept),
                stats: ClientStats {
                    total_sessions: capped_next(old(self)@.stats.total_sessions),
                    ..old(self)@.stats
                },
                ..old(self)@
            }),
    {
        let mut session = ThinkingSession::new_at(session_id.clone(), title, now);
        session.engine.start_session(session_id.clone());
        let kept = session.clone();
        proof {
            use_type_invariant(&self.sessions);
            lemma_session_views(self.sessions.entries(), session_id@);
            crate::string_map::lemma_with_entry(
                session_views(self.sessions.entries()),
                session_id@,
                kept@,
            );
            assert(session_views(with_entry(self.sessions.entries(), session_id@, kept))
                =~= with_entry(session_views(self.sessions.entries()), session_id@, kept@));
        }
        self.sessions.insert(session_id, kept);
        self.stats.total_sessions = self.stats.total_sessions.saturating_add(1);
        session
    }

    /// Starts a session titled `title` under a fresh random name.
    pub fn start_session(&mut self, title: String) -> (session: ThinkingSession)
        ensures
            session@.session_id.len() == 36,
            session@.title == title@,
            session@.engine == ThinkingEngineView::idle(
                session@.engine.id,
                Some(session@.session_id),
                false,
            ),
            lookup(final(self)@.sessions, session@.session_id) matches Some(kept) && kept
                == session@.copied(kept.engine.id) && final(self)@ == (ClientView {
                sessions: with_entry(old(self)@.sessions, session@.session_id, kept),
                stats: ClientStats {
                    total_sessions: capped_next(old(self)@.stats.total_sessions),
                    ..old(self)@.stats
                },
                ..old(self)@
            }),
    {
        let session_id = random_session_id();
        self.start_session_as(session_id, title, Timestamp::now())
    }

    /// A copy of the session `session_id`, if there is one.
    pub fn get_session(&self, session_id: &str) -> (r: Option<ThinkingSession>)
        ensures
            match r {
                Some(copy) => lookup(self@.sessions, session_id@) matches Some(session) && copy@
                    == session.copied(copy@.engine.id),
                None => lookup(self@.sessions, session_id@) is None,
            },
    {
        proof {
            use_type_invariant(&self.sessions);
            lemma_session_views(self.sessions.entries(), session_id@);
        }
        match self.sessions.get(session_id) {
            Some(session) => Some(session.clone()),
            None => None,
        }
    }

    /// Takes up the request to add `thought` to the session `session_id`,
    /// with the instant and the time of the engine given by the caller: the
    /// request is counted, and the engine of the session processes the
    /// thought. Where there is no such session the error says so; a refusal
    /// of the engine comes back as a processing error.
    pub fn begin_add_thought_at(
        &mut self,
        session_id: &str,
        thought: ThoughtData,
        now: Timestamp,
        engine_ms: u64,
    ) -> (r: Result<ThoughtData, SequentialThinkingError>)
        ensures
            final(self)@ == old(self)@.begin_add(session_id@, thought@, now, engine_ms),
            match r {
                Ok(stored) => has_key(old(self)@.sessions, session_id@) && thought@.is_valid()
                    && stored@ == thought@.normalised(),
                Err(e) => if has_key(old(self)@.sessions, session_id@) {
                    e.kind() == ErrorKind::ProcessingError && thought@.validation_error() == Some(
                        e.detail(),
                    )
                } else {
                    e.kind() == ErrorKind::NotFound && e.detail() == "Session not found: "@
                        + session_id@
                },
            },
    {
        proof {
            use_type_invariant(&self.sessions);
            lemma_session_views(self.sessions.entries(), session_id@);
            thought@.lemma_valid_iff_no_error();
        }
        let ghost old_entries = self.sessions.entries();
        self.stats.total_requests = self.stats.total_requests.saturating_add(1);
        match self.sessions.find(session_id) {
            None => {
                let message = joined("Session not found: ", session_id);
                Err(SequentialThinkingError::not_found(message.as_str()))
            },
            Some(i) => {
                proof {
                    lemma_remove_at(old_entries, i as int);
                }
                let entry = self.sessions.remove_at(i);
                let key = entry.0;
                let mut session = entry.1;
                let result = session.engine.process_thought_at(thought, now, engine_ms);
                self.sessions.insert_at(i, key, session);
                assert(session_views(self.sessions.entries()) =~= old(self)@.begin_add(
                    session_id@,
                    thought@,
                    now,
                    engine_ms,
                ).sessions);
                match result {
                    Ok(stored) => Ok(stored),
                    Err(message) => Err(SequentialThinkingError::processing_error(message.as_str())),
                }
            },
        }
    }

    /// Notes the answer of the server to the request that stored `processed`
    /// in the session `session_id`: the response, which took `response_ms`
    /// milliseconds, is counted as taken by the server or not; the progress
    /// is noted where the settings ask for that; and the session counts as
    /// used at the instant `now`.
    pub fn finish_add_thought_at(
        &mut self,
        session_id: &str,
        processed: &ThoughtData,
        succeeded: bool,
        response_ms: u64,
        now: Timestamp,
    )
        ensures
            final(self)@ == old(self)@.finish_add(
                session_id@,
                processed@,
                succeeded,
                response_ms,
                now,
            ),
    {
        proof {
            use_type_invariant(&self.sessions);
            lemma_session_views(self.sessions.entries(), session_id@);
        }
        let ghost old_entries = self.sessions.entries();
        self.stats.total_response_time_ms =
        self.stats.total_response_time_ms.saturating_add(response_ms);
        self.stats.avg_response_time_ms =
        Ratio::new(self.stats.total_response_time_ms, self.stats.total_requests);
        if succeeded {
            self.stats.total_thoughts = self.stats.total_thoughts.saturating_add(1);
        } else {
            self.stats.error_count = self.stats.error_count.saturating_add(1);
        }
        if self.config.enable_progress_tracking {
            let progress = self.calculate_progress(processed);
            self.progress_tracker.note(progress, now);
        }
        match self.sessions.find(session_id) {
            Some(i) => {
                proof {
                    lemma_remove_at(old_entries, i as int);
                }
                let entry = self.sessions.remove_at(i);
                let key = entry.0;
                let mut session = entry.1;
                session.last_activity = now;
                self.sessions.insert_at(i, key, session);
                assert(session_views(self.sessions.entries()) =~= old(self)@.finish_add(
                    session_id@,
                    processed@,
                    succeeded,
                    response_ms,
                    now,
                ).sessions);
            },
            None => {},
        }
    }

    /// Takes up the request to add `thought` to the session `session_id`, at
    /// the instant that the clock shows and with the time that the engine
    /// takes: what [`begin_add_thought_at`](Self::begin_add_thought_at) says
    /// holds for that instant and that time.
    pub fn begin_add_thought(&mut self, session_id: &str, thought: ThoughtData) -> (r: Result<
        ThoughtData,
        SequentialThinkingError,
    >)
        ensures
            exists|now: Timestamp, engine_ms: u64|
                final(self)@ == #[trigger] old(self)@.begin_add(
                    session_id@,
                    thought@,
                    now,
                    engine_ms,
                ),
            match r {
                Ok(stored) => has_key(old(self)@.sessions, session_id@) && thought@.is_valid()
                    && stored@ == thought@.normalised(),
                Err(e) => if has_key(old(self)@.sessions, session_id@) {
                    e.kind() == ErrorKind::ProcessingError && thought@.validation_error() == Some(
                        e.detail(),
                    )
                } else {
                    e.kind() == ErrorKind::NotFound && e.detail() == "Session not found: "@
                        + session_id@
                },
            },
    {
        proof {
            use_type_invariant(&self.sessions);
            lemma_session_views(self.sessions.entries(), session_id@);
            thought@.lemma_valid_iff_no_error();
        }
        let ghost old_entries = self.sessions.entries();
        let ghost candidate = thought@;
        self.stats.total_requests = self.stats.total_requests.saturating_add(1);
        match self.sessions.find(session_id) {
            None => {
                assert(self@ == old(self)@.begin_add(
                    session_id@,
                    candidate,
                    Timestamp { seconds: 0, nanoseconds: 0 },
                    0,
                ));
                let message = joined("Session not found: ", session_id);
                Err(SequentialThinkingError::not_found(message.as_str()))
            },
            Some(i) => {
                proof {
                    lemma_remove_at(old_entries, i as int);
                }
                let entry = self.sessions.remove_at(i);
                let key = entry.0;
                let mut session = entry.1;
                let ghost engine_before = session.engine@;
                let result = session.engine.process_thought(thought);
                self.sessions.insert_at(i, key, session);
                proof {
                    let (now, engine_ms) = choose|now: Timestamp, engine_ms: u64|
                        session.engine@ == #[trigger] engine_before.process(
                            candidate,
                            now,
                            engine_ms,
                        );
                    assert(session_views(self.sessions.entries()) =~= old(self)@.begin_add(
                        session_id@,
                        candidate,
                        now,
                        engine_ms,
                    ).sessions);
                    assert(self@ == old(self)@.begin_add(session_id@, candidate, now, engine_ms));
                }
                match result {
                    Ok(stored) => Ok(stored),
                    Err(message) => Err(SequentialThinkingError::processing_error(message.as_str())),
                }
            },
        }
    }

    /// Notes the answer of the server to the request that stored `processed`
    /// in the session `session_id`, at the instant that the clock shows.
    pub fn finish_add_thought(
        &mut self,
        session_id: &str,
        processed: &ThoughtData,
        succeeded: bool,
        response_ms: u64,
    )
        ensures
            exists|now: Timestamp|
                final(self)@ == #[trigger] old(self)@.finish_add(
                    session_id@,
                    processed@,
                    succeeded,
                    response_ms,
                    now,
                ),
    {
        self.finish_add_thought_at(session_id, processed, succeeded, response_ms, Timestamp::now())
    }

    /// What the client does after a call has failed for the `failures`th
    /// time. Where it tries again, the retry is counted.
    pub fn after_failure(&mut self, failures: u32) -> (decision: RetryDecision)
        ensures
            decision == retry_decision(failures, old(self)@.config.max_retry_attempts),
            final(self)@ == (ClientView {
                stats: ClientStats {
                    retry_count: if decision is GiveUp {
                        old(self)@.stats.retry_count
                    } else {
                        capped_next(old(self)@.stats.retry_count)
                    },
                    ..old(self)@.stats
                },
                ..old(self)@
            }),
    {
        if failures >= self.config.max_retry_attempts {
            RetryDecision::GiveUp
        } else {
            self.stats.retry_count = self.stats.retry_count.saturating_add(1);
            RetryDecision::RetryAfter { seconds: 1 }
        }
    }

    /// The counters.
    pub fn get_stats(&self) -> (s: ClientStats)
        ensures
            s == self@.stats,
    {
        self.stats
    }

    /// The progress as of the last thought that was noted.
    pub fn get_progress(&self) -> (p: Option<ThinkingProgress>)
        ensures
            p == self@.tracker.current_progress,
    {
        self.progress_tracker.current_progress
    }

    /// The progress that `thought` stands for: its number of its total, with
    /// another thought to follow.
    pub fn calculate_progress(&self, thought: &ThoughtData) -> (p: ThinkingProgress)
        ensures
            p == ThinkingProgress::spec_new(thought@.thought_number, thought@.total_thoughts),
    {
        ThinkingProgress::new(thought.thought_number, thought.total_thoughts)
    }

    /// Marks the session `session_id` as used at the instant `now`, which is
    /// all that completing a session does. Where there is no such session
    /// the error says so.
    pub fn complete_session_at(&mut self, session_id: &str, now: Timestamp) -> (r: Result<
        (),
        SequentialThinkingError,
    >)
        ensures
            match r {
                Ok(_) => has_key(old(self)@.sessions, session_id@) && final(self)@ == (ClientView {
                    sessions: old(self)@.sessions.update(
                        position_of(old(self)@.sessions, session_id@),
                        (
                            session_id@,
                            ThinkingSessionView {
                                last_activity: now,
                                ..old(self)@.sessions[position_of(
                                    old(self)@.sessions,
                                    session_id@,
                                )].1
                            },
                        ),
                    ),
                    ..old(self)@
                }),
                Err(e) => !has_key(old(self)@.sessions, session_id@) && final(self)@ == old(self)@
                    && e.kind() == ErrorKind::NotFound && e.detail() == "Session not found: "@
                    + session_id@,
            },
    {
        proof {
            use_type_invariant(&self.sessions);
            lemma_session_views(self.sessions.entries(), session_id@);
        }
        let ghost old_entries = self.sessions.entries();
        match self.sessions.find(session_id) {
            Some(i) => {
                proof {
                    lemma_remove_at(old_entries, i as int);
                }
                let entry = self.sessions.remove_at(i);
                let key = entry.0;
                let mut session = entry.1;
                session.last_activity = now;
                self.sessions.insert_at(i, key, session);
                assert(session_views(self.sessions.entries()) =~= old(self)@.sessions.update(
                    i as int,
                    (
                        session_id@,
                        ThinkingSessionView { last_activity: now, ..old(self)@.sessions[i as int].1 },
                    ),
                ));
                Ok(())
            },
            None => {
                let message = joined("Session not found: ", session_id);
                Err(SequentialThinkingError::not_found(message.as_str()))
            },
        }
    }

    /// Marks the session `session_id` as used now, and changes nothing
    /// else. Where there is no such session the error says so.
    pub fn complete_session(&mut self, session_id: &str) -> (r: Result<(), SequentialThinkingError>)
        ensures
            match r {
                Ok(_) => has_key(old(self)@.sessions, session_id@) && final(self)@ == (ClientView {
                    sessions: old(self)@.sessions.update(
                        position_of(old(self)@.sessions, session_id@),
                        (
                            session_id@,
                            ThinkingSessionView {
                                last_activity: final(self)@.sessions[position_of(
                                    old(self)@.sessions,
                                    session_id@,
                                )].1.last_activity,
                                ..old(self)@.sessions[position_of(
                                    old(self)@.sessions,
                                    session_id@,
                                )].1
                            },
                        ),
                    ),
                    ..old(self)@
                }),
                Err(e) => !has_key(old(self)@.sessions, session_id@) && final(self)@ == old(self)@
                    && e.kind() == ErrorKind::NotFound && e.detail() == "Session not found: "@
                    + session_id@,
            },
    {
        proof {
            use_type_invariant(&self.sessions);
            lemma_session_views(self.sessions.entries(), session_id@);
        }
        self.complete_session_at(session_id, Timestamp::now())
    }

    /// Removes the session `session_id` and says whether there was one.
    pub fn remove_session(&mut self, session_id: &str) -> (existed: bool)
        ensures
            final(self)@ == (ClientView {
                sessions: without_key(old(self)@.sessions, session_id@),
                ..old(self)@
            }),
            existed == has_key(old(self)@.sessions, session_id@),
    {
        proof {
            use_type_invariant(&self.sessions);
            lemma_session_views(self.sessions.entries(), session_id@);
            assert(session_views(without_key(self.sessions.entries(), session_id@))
                =~= without_key(session_views(self.sessions.entries()), session_id@));
        }
        self.sessions.remove(session_id).is_some()
    }

    /// The names of the sessions, oldest first.
    pub fn get_session_ids(&self) -> (ids: Vec<String>)
        ensures
            ids@.len() == self@.sessions.len(),
            forall|i: int| 0 <= i < ids@.len() ==> (#[trigger] ids@[i])@ == self@.sessions[i].0,
    {
        self.sessions.keys()
    }

    /// The counters of the session `session_id`, if there is one.
    pub fn get_session_stats(&self, session_id: &str) -> (s: Option<ThinkingStats>)
        ensures
            s == match lookup(self@.sessions, session_id@) {
                Some(session) => Some(session.engine.stats),
                None => None,
            },
    {
        proof {
            use_type_invariant(&self.sessions);
            lemma_session_views(self.sessions.entries(), session_id@);
        }
        match self.sessions.get(session_id) {
            Some(session) => Some(session.get_stats()),
            None => None,
        }
    }

    /// The progress of the session `session_id`, if there is one.
    pub fn get_session_progress(&self, session_id: &str) -> (p: Option<ThinkingProgress>)
        ensures
            p == match lookup(self@.sessions, session_id@) {
                Some(session) => Some(session.engine.progress),
                None => None,
            },
    {
        proof {
            use_type_invariant(&self.sessions);
            lemma_session_views(self.sessions.entries(), session_id@);
        }
        match self.sessions.get(session_id) {
            Some(session) => Some(session.get_progress()),
            None => None,
        }
    }

    /// Whether the session `session_id` counts as complete; a session that
    /// is not there does not.
    pub fn is_session_complete(&self, session_id: &str) -> (b: bool)
        ensures
            b == match lookup(self@.sessions, session_id@) {
                Some(session) => session.engine.is_complete(),
                None => false,
            },
    {
        proof {
            use_type_invariant(&self.sessions);
            lemma_session_views(self.sessions.entries(), session_id@);
        }
        match self.sessions.get(session_id) {
            Some(session) => session.is_complete(),
            None => false,
        }
    }
}

} // verus!
