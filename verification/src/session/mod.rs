//! Sessions and the registry that keeps them.
//!
//! A [`ThinkingSession`] is an engine with a name and metadata. The
//! [`SessionManager`] maps session names to sessions, holds their number
//! under a limit, and sweeps out those whose time has run out. Its state
//! is modelled by [`SessionManagerView`], whose spec functions say what each
//! operation does to it.

use crate::json::clone_values;
use crate::ratio::Ratio;
use crate::string_map::has_key;
use crate::string_map::keys_distinct;
use crate::string_map::lemma_with_entry;
use crate::string_map::lemma_without_key;
use crate::string_map::lookup;
use crate::string_map::position_of;
use crate::string_map::with_entry;
use crate::string_map::without_key;
use crate::string_map::StringMap;
use crate::text::clone_strings;
use crate::text::str_eq;
use crate::text::string_views;
use crate::thinking::random_session_id;
use crate::thinking::thought_views;
use crate::thinking::ThinkingEngine;
use crate::thinking::ThinkingEngineView;
use crate::thinking::ThinkingProgress;
use crate::thinking::ThinkingStats;
use crate::thinking::ThoughtData;
use crate::time::Timestamp;
use vstd::prelude::*;

verus! {

/// How urgent a session is.
#[derive(Debug, Clone, Copy, PartialEq, Eq, Structural)]
pub enum SessionPriority {
    Low,
    Normal,
    High,
    Critical,
}

/// Where a session stands in its life.
#[derive(Debug, Clone, Copy, PartialEq, Eq, Structural)]
pub enum SessionStatus {
    Active,
    Paused,
    Completed,
    Cancelled,
    Expired,
}

/// What is known about a session besides its thoughts.
#[derive(Debug)]
pub struct SessionMetadata {
    /// The title.
    pub title: String,
    /// A longer description.
    pub description: Option<String>,
    /// Tags, none of them twice where they were added one by one.
    pub tags: Vec<String>,
    /// The priority.
    pub priority: SessionPriority,
    /// The status.
    pub status: SessionStatus,
    /// When the session was made.
    pub created_at: Timestamp,
    /// When the session was last changed.
    pub last_modified: Timestamp,
    /// When the session's time runs out, if it ever does.
    pub expires_at: Option<Timestamp>,
    /// Free-form data.
    pub custom_data: StringMap<serde_json::Value>,
}

/// What a [`SessionMetadata`] holds, as mathematical values.
pub struct SessionMetadataView {
    pub title: Seq<char>,
    pub description: Option<Seq<char>>,
    pub tags: Seq<Seq<char>>,
    pub priority: SessionPriority,
    pub status: SessionStatus,
    pub created_at: Timestamp,
    pub last_modified: Timestamp,
    pub expires_at: Option<Timestamp>,
    pub custom_data: Seq<(Seq<char>, serde_json::Value)>,
}

impl View for SessionMetadata {
    type V = SessionMetadataView;

    open spec fn view(&self) -> SessionMetadataView {
        SessionMetadataView {
            title: self.title@,
            description: match self.description {
                Some(d) => Some(d@),
                None => None,
            },
            tags: string_views(self.tags@),
            priority: self.priority,
            status: self.status,
            created_at: self.created_at,
            last_modified: self.last_modified,
            expires_at: self.expires_at,
            custom_data: self.custom_data.entries(),
        }
    }
}

impl SessionMetadataView {
    /// The metadata of a session titled `title` that was made at `now`: it
    /// is active, of normal priority, and never expires.
    pub open spec fn fresh(title: Seq<char>, now: Timestamp) -> SessionMetadataView {
        SessionMetadataView {
            title,
            description: None,
            tags: Seq::empty(),
            priority: SessionPriority::Normal,
            status: SessionStatus::Active,
            created_at: now,
            last_modified: now,
            expires_at: None,
            custom_data: Seq::empty(),
        }
    }

    /// The session's time has run out at the instant `now`: it has an expiry
    /// instant and `now` lies after it.
    pub open spec fn expired_at(self, now: Timestamp) -> bool {
        match self.expires_at {
            Some(limit) => now.is_after(limit),
            None => false,
        }
    }

    /// The session is active at the instant `now`: its status says so and
    /// its time has not run out.
    pub open spec fn active_at(self, now: Timestamp) -> bool {
        self.status == SessionStatus::Active && !self.expired_at(now)
    }
}

impl SessionMetadata {
    /// The metadata of a session titled `title` that was made at `now`.
    pub fn fresh(title: String, now: Timestamp) -> (m: Self)
        ensures
            m@ == SessionMetadataView::fresh(title@, now),
    {
        let tags: Vec<String> = Vec::new();
        assert(string_views(tags@) =~= Seq::<Seq<char>>::empty());
        SessionMetadata {
            title,
            description: None,
            tags,
            priority: SessionPriority::Normal,
            status: SessionStatus::Active,
            created_at: now,
            last_modified: now,
            expires_at: None,
            custom_data: StringMap::new(),
        }
    }
}

impl Default for SessionMetadata {
    /// The metadata of an untitled session that is made now.
    fn default() -> (m: Self)
        ensures
            m@ == SessionMetadataView::fresh(Seq::empty(), m@.created_at),
    {
        SessionMetadata::fresh(String::new(), Timestamp::now())
    }
}

impl Clone for SessionMetadata {
    /// A copy that holds what `self` holds.
    fn clone(&self) -> (copy: Self)
        ensures
            copy@ == self@,
    {
        SessionMetadata {
            title: self.title.clone(),
            description: match &self.description {
                Some(d) => Some(d.clone()),
                None => None,
            },
            tags: clone_strings(&self.tags),
            priority: self.priority,
            status: self.status,
            created_at: self.created_at,
            last_modified: self.last_modified,
            expires_at: self.expires_at,
            custom_data: clone_values(&self.custom_data),
        }
    }
}

/// A session: a name, metadata, and the engine that keeps the thoughts.
#[derive(Debug)]
pub struct ThinkingSession {
    /// The name of the session.
    pub session_id: String,
    /// What is known about the session.
    pub metadata: SessionMetadata,
    /// The engine that keeps the session's thoughts.
    pub engine: ThinkingEngine,
}

/// What a [`ThinkingSession`] holds, as mathematical values.
pub struct ThinkingSessionView {
    pub session_id: Seq<char>,
    pub metadata: SessionMetadataView,
    pub engine: ThinkingEngineView,
}

impl View for ThinkingSession {
    type V = ThinkingSessionView;

    open spec fn view(&self) -> ThinkingSessionView {
        ThinkingSessionView {
            session_id: self.session_id@,
            metadata: self.metadata@,
            engine: self.engine@,
        }
    }
}

impl ThinkingSessionView {
    /// The session with its last change set to `now` and its metadata
    /// otherwise as `metadata` says.
    pub open spec fn touched(self, metadata: SessionMetadataView, now: Timestamp) -> Self {
        ThinkingSessionView {
            metadata: SessionMetadataView { last_modified: now, ..metadata },
            ..self
        }
    }

    /// A copy of a session, as [`ThinkingSession::clone`] makes it, given
    /// the identifier of the copy's engine.
    pub open spec fn copied(self, engine_id: uuid::Uuid) -> Self {
        ThinkingSessionView { engine: ThinkingEngineView::idle(engine_id, None, false), ..self }
    }
}

impl Clone for ThinkingSession {
    /// A copy with the same name and metadata. The engine of the copy is a
    /// new one, as a copy of an engine is: it holds no thoughts.
    fn clone(&self) -> (copy: Self)
        ensures
            copy@ == self@.copied(copy@.engine.id),
    {
        ThinkingSession {
            session_id: self.session_id.clone(),
            metadata: self.metadata.clone(),
            engine: self.engine.clone(),
        }
    }
}

/// A copy of a list of thoughts.
pub fn clone_thoughts(thoughts: &[ThoughtData]) -> (copy: Vec<ThoughtData>)
    ensures
        thought_views(copy@) == thought_views(thoughts@),
{
    let mut copy: Vec<ThoughtData> = Vec::new();
    let mut i: usize = 0;
    while i < thoughts.len()
        invariant
            i <= thoughts@.len(),
            copy@.len() == i,
            forall|j: int| 0 <= j < i ==> (#[trigger] copy@[j])@ == thoughts@[j]@,
        decreases thoughts@.len() - i,
    {
        copy.push(thoughts[i].clone());
        i += 1;
    }
    assert(thought_views(copy@) =~= thought_views(thoughts@));
    copy
}

impl ThinkingSession {
    /// A session named `session_id` and titled `title`, with a new engine,
    /// made at the instant `now`.
    pub fn new_at(session_id: String, title: String, now: Timestamp) -> (s: Self)
        ensures
            s@.session_id == session_id@,
            s@.metadata == SessionMetadataView::fresh(title@, now),
            s@.engine == ThinkingEngineView::idle(s@.engine.id, None, false),
    {
        ThinkingSession {
            session_id,
            metadata: SessionMetadata::fresh(title, now),
            engine: ThinkingEngine::new(),
        }
    }

    /// A session named `session_id` and titled `title`, with a new engine,
    /// made now.
    pub fn new(session_id: String, title: String) -> (s: Self)
        ensures
            s@.session_id == session_id@,
            s@.metadata == SessionMetadataView::fresh(title@, s@.metadata.created_at),
            s@.engine == ThinkingEngineView::idle(s@.engine.id, None, false),
    {
        ThinkingSession::new_at(session_id, title, Timestamp::now())
    }

    /// A session named `session_id` with the given metadata and a new engine.
    pub fn with_metadata(session_id: String, metadata: SessionMetadata) -> (s: Self)
        ensures
            s@.session_id == session_id@,
            s@.metadata == metadata@,
            s@.engine == ThinkingEngineView::idle(s@.engine.id, None, false),
    {
        ThinkingSession { session_id, metadata, engine: ThinkingEngine::new() }
    }

    /// The name of the session.
    pub fn id(&self) -> (id: &str)
        ensures
            id@ == self@.session_id,
    {
        self.session_id.as_str()
    }

    /// The title of the session.
    pub fn title(&self) -> (title: &str)
        ensures
            title@ == self@.metadata.title,
    {
        self.metadata.title.as_str()
    }

    /// The status of the session.
    pub fn status(&self) -> (status: &SessionStatus)
        ensures
            *status == self@.metadata.status,
    {
        &self.metadata.status
    }

    /// Sets the status, and the last change to now.
    pub fn set_status(&mut self, status: SessionStatus)
        ensures
            final(self)@ == old(self)@.touched(
                SessionMetadataView { status, ..old(self)@.metadata },
                final(self)@.metadata.last_modified,
            ),
    {
        self.metadata.status = status;
        self.metadata.last_modified = Timestamp::now();
    }

    /// The priority of the session.
    pub fn priority(&self) -> (priority: &SessionPriority)
        ensures
            *priority == self@.metadata.priority,
    {
        &self.metadata.priority
    }

    /// Sets the priority, and the last change to now.
    pub fn set_priority(&mut self, priority: SessionPriority)
        ensures
            final(self)@ == old(self)@.touched(
                SessionMetadataView { priority, ..old(self)@.metadata },
                final(self)@.metadata.last_modified,
            ),
    {
        self.metadata.priority = priority;
        self.metadata.last_modified = Timestamp::now();
    }

    /// Whether the session carries the tag `tag`.
    pub fn has_tag(&self, tag: &str) -> (b: bool)
        ensures
            b == self@.metadata.tags.contains(tag@),
    {
        let mut i: usize = 0;
        while i < self.metadata.tags.len()
            invariant
                i <= self.metadata.tags@.len(),
                forall|j: int| 0 <= j < i ==> self@.metadata.tags[j] != tag@,
            decreases self.metadata.tags@.len() - i,
        {
            if str_eq(self.metadata.tags[i].as_str(), tag) {
                assert(self@.metadata.tags[i as int] == tag@);
                return true;
            }
            i += 1;
        }
        false
    }

    /// Adds a tag that the session does not carry yet, and sets the last
    /// change to now. A tag that is there already changes nothing.
    pub fn add_tag(&mut self, tag: String)
        ensures
            final(self)@ == if old(self)@.metadata.tags.contains(tag@) {
                old(self)@
            } else {
                old(self)@.touched(
                    SessionMetadataView {
                        tags: old(self)@.metadata.tags.push(tag@),
                        ..old(self)@.metadata
                    },
                    final(self)@.metadata.last_modified,
                )
            },
    {
        if !self.has_tag(tag.as_str()) {
            self.metadata.tags.push(tag);
            self.metadata.last_modified = Timestamp::now();
            assert(self@.metadata.tags =~= old(self)@.metadata.tags.push(tag@));
        }
    }

    /// Removes every occurrence of the tag `tag`, and sets the last change
    /// to now.
    pub fn remove_tag(&mut self, tag: &str)
        ensures
            final(self)@ == old(self)@.touched(
                SessionMetadataView {
                    tags: old(self)@.metadata.tags.filter(other_than(tag@)),
                    ..old(self)@.metadata
                },
                final(self)@.metadata.last_modified,
            ),
    {
        let ghost before = self@.metadata.tags;
        let mut kept: Vec<String> = Vec::new();
        let mut i: usize = 0;
        proof {
            reveal(Seq::filter);
            assert(before.subrange(0, 0) =~= Seq::<Seq<char>>::empty());
        }
        while i < self.metadata.tags.len()
            invariant
                i <= self.metadata.tags@.len(),
                self@.metadata.tags == before,
                *self == *old(self),
                string_views(kept@) == before.subrange(0, i as int).filter(other_than(tag@)),
            decreases self.metadata.tags@.len() - i,
        {
            proof {
                assert(before.subrange(0, i + 1) =~= before.subrange(0, i as int).push(
                    before[i as int],
                ));
                before.subrange(0, i as int).lemma_filter_push(before[i as int], other_than(tag@));
            }
            if !str_eq(self.metadata.tags[i].as_str(), tag) {
                let ghost earlier = string_views(kept@);
                kept.push(self.metadata.tags[i].clone());
                assert(string_views(kept@) =~= earlier.push(before[i as int]));
            }
            i += 1;
        }
        assert(before.subrange(0, before.len() as int) =~= before);
        self.metadata.tags = kept;
        self.metadata.last_modified = Timestamp::now();
    }

    /// Stores `value` under `key` in the custom data, and sets the last
    /// change to now.
    pub fn set_custom_data(&mut self, key: String, value: serde_json::Value)
        ensures
            final(self)@ == old(self)@.touched(
                SessionMetadataView {
                    custom_data: with_entry(old(self)@.metadata.custom_data, key@, value),
                    ..old(self)@.metadata
                },
                final(self)@.metadata.last_modified,
            ),
    {
        self.metadata.custom_data.insert(key, value);
        self.metadata.last_modified = Timestamp::now();
    }

    /// The custom data stored under `key`, if any.
    pub fn get_custom_data(&self, key: &str) -> (value: Option<&serde_json::Value>)
        ensures
            match value {
                Some(v) => lookup(self@.metadata.custom_data, key@) == Some(*v),
                None => lookup(self@.metadata.custom_data, key@) is None,
            },
    {
        self.metadata.custom_data.get(key)
    }

    /// Whether the session's time has run out at the instant `now`.
    pub fn is_expired_at(&self, now: Timestamp) -> (b: bool)
        ensures
            b == self@.metadata.expired_at(now),
    {
        match self.metadata.expires_at {
            Some(limit) => now.after(&limit),
            None => false,
        }
    }

    /// Whether the session's time has run out by now. A session without an
    /// expiry instant never expires.
    pub fn is_expired(&self) -> (b: bool)
        ensures
            exists|now: Timestamp| b == #[trigger] self@.metadata.expired_at(now),
            self@.metadata.expires_at is None ==> !b,
    {
        let now = Timestamp::now();
        let b = self.is_expired_at(now);
        assert(b == self@.metadata.expired_at(now));
        b
    }

    /// Whether the session is active at the instant `now`.
    pub fn is_active_at(&self, now: Timestamp) -> (b: bool)
        ensures
            b == self@.metadata.active_at(now),
    {
        self.metadata.status == SessionStatus::Active && !self.is_expired_at(now)
    }

    /// Whether the session is active now: its status says so and its time
    /// has not run out.
    pub fn is_active(&self) -> (b: bool)
        ensures
            exists|now: Timestamp| b == #[trigger] self@.metadata.active_at(now),
            self@.metadata.status != SessionStatus::Active ==> !b,
            self@.metadata.status == SessionStatus::Active && self@.metadata.expires_at is None
                ==> b,
    {
        let now = Timestamp::now();
        let b = self.is_active_at(now);
        assert(b == self@.metadata.active_at(now));
        b
    }

    /// The age of the session at the instant `now`: the nanoseconds since
    /// it was made.
    pub fn age_at(&self, now: Timestamp) -> (n: i128)
        ensures
            n == now.total_nanoseconds() - self@.metadata.created_at.total_nanoseconds(),
    {
        now.nanoseconds_since(&self.metadata.created_at)
    }

    /// The age of the session now, in nanoseconds.
    pub fn age(&self) -> (n: i128)
        ensures
            exists|now: Timestamp|
                n == #[trigger] now.total_nanoseconds()
                    - self@.metadata.created_at.total_nanoseconds(),
    {
        let now = Timestamp::now();
        let n = self.age_at(now);
        assert(n == now.total_nanoseconds() - self@.metadata.created_at.total_nanoseconds());
        n
    }

    /// The time over which the session was worked on: the nanoseconds from
    /// its making to its last change.
    pub fn duration(&self) -> (n: i128)
        ensures
            n == self@.metadata.last_modified.total_nanoseconds()
                - self@.metadata.created_at.total_nanoseconds(),
    {
        self.metadata.last_modified.nanoseconds_since(&self.metadata.created_at)
    }

    /// The progress of the session's engine.
    pub fn get_progress(&self) -> (p: ThinkingProgress)
        ensures
            p == self@.engine.progress,
    {
        *self.engine.get_progress()
    }

    /// The counters of the session's engine.
    pub fn get_stats(&self) -> (s: ThinkingStats)
        ensures
            s == self@.engine.stats,
    {
        *self.engine.get_stats()
    }

    /// A copy of the log of the session's engine.
    pub fn get_thoughts(&self) -> (log: Vec<ThoughtData>)
        ensures
            thought_views(log@) == self@.engine.thoughts,
    {
        clone_thoughts(self.engine.get_thoughts())
    }
}

/// The strings other than `tag`.
pub open spec fn other_than(tag: Seq<char>) -> spec_fn(Seq<char>) -> bool {
    |t: Seq<char>| t != tag
}

/// The settings of a [`SessionManager`].
#[derive(Debug)]
pub struct SessionManagerConfig {
    /// The number of sessions at which no further one is created.
    pub max_sessions: usize,
    /// The time after which a session runs out, in seconds.
    pub session_timeout: u64,
    /// Whether expired sessions are to be swept out by a timer.
    pub auto_cleanup: bool,
    /// The time between two sweeps of that timer, in seconds.
    pub cleanup_interval: u64,
    /// Whether the sessions are to be written to disk.
    pub persist_sessions: bool,
    /// The directory that they are written to.
    pub persistence_dir: String,
}

/// What a [`SessionManagerConfig`] holds, as mathematical values.
pub struct SessionManagerConfigView {
    pub max_sessions: usize,
    pub session_timeout: u64,
    pub auto_cleanup: bool,
    pub cleanup_interval: u64,
    pub persist_sessions: bool,
    pub persistence_dir: Seq<char>,
}

impl View for SessionManagerConfig {
    type V = SessionManagerConfigView;

    open spec fn view(&self) -> SessionManagerConfigView {
        SessionManagerConfigView {
            max_sessions: self.max_sessions,
            session_timeout: self.session_timeout,
            auto_cleanup: self.auto_cleanup,
            cleanup_interval: self.cleanup_interval,
            persist_sessions: self.persist_sessions,
            persistence_dir: self.persistence_dir@,
        }
    }
}

impl SessionManagerConfigView {
    /// The settings that a manager has where none are given.
    pub open spec fn standard() -> SessionManagerConfigView {
        SessionManagerConfigView {
            max_sessions: 100,
            session_timeout: 3600,
            auto_cleanup: true,
            cleanup_interval: 300,
            persist_sessions: false,
            persistence_dir: "./sessions"@,
        }
    }
}

impl Default for SessionManagerConfig {
    /// At most 100 sessions, which run out after an hour and are swept every
    /// five minutes; nothing is written to disk.
    fn default() -> (c: Self)
        ensures
            c@ == SessionManagerConfigView::standard(),
    {
        SessionManagerConfig {
            max_sessions: 100,
            session_timeout: 3600,
            auto_cleanup: true,
            cleanup_interval: 300,
            persist_sessions: false,
            persistence_dir: "./sessions".to_string(),
        }
    }
}

impl Clone for SessionManagerConfig {
    /// A copy that holds what `self` holds.
    fn clone(&self) -> (copy: Self)
        ensures
            copy@ == self@,
    {
        SessionManagerConfig {
            max_sessions: self.max_sessions,
            session_timeout: self.session_timeout,
            auto_cleanup: self.auto_cleanup,
            cleanup_interval: self.cleanup_interval,
            persist_sessions: self.persist_sessions,
            persistence_dir: self.persistence_dir.clone(),
        }
    }
}

/// Counters of a [`SessionManager`]. Each stops at the largest value that
/// its type can hold.
#[derive(Debug, Clone, Copy, PartialEq, Eq, Structural)]
pub struct SessionManagerStats {
    /// The sessions that were created.
    pub total_sessions_created: u64,
    /// The sessions that were swept out with the status `Completed`.
    pub total_sessions_completed: u64,
    /// The sessions that were swept out with the status `Cancelled`.
    pub total_sessions_cancelled: u64,
    /// The sessions that were swept out with any other status.
    pub total_sessions_expired: u64,
    /// The sessions that were created and neither removed nor swept out.
    pub active_sessions: usize,
    /// The duration of a session on average, in seconds.
    pub avg_session_duration: Ratio,
    /// The duration of all sessions together, in seconds.
    pub total_session_time: u64,
}

/// One more than `n`, held at the largest 64-bit value.
pub open spec fn capped_increment(n: u64) -> u64 {
    if n == u64::MAX {
        n
    } else {
        (n + 1) as u64
    }
}

impl SessionManagerStats {
    /// The counters of a manager that has done nothing yet.
    pub open spec fn zero() -> SessionManagerStats {
        SessionManagerStats {
            total_sessions_created: 0,
            total_sessions_completed: 0,
            total_sessions_cancelled: 0,
            total_sessions_expired: 0,
            active_sessions: 0,
            avg_session_duration: Ratio { numerator: 0, denominator: 0 },
            total_session_time: 0,
        }
    }

    /// The counters after a session was created.
    pub open spec fn after_create(self) -> SessionManagerStats {
        SessionManagerStats {
            total_sessions_created: capped_increment(self.total_sessions_created),
            active_sessions: if self.active_sessions == usize::MAX {
                self.active_sessions
            } else {
                (self.active_sessions + 1) as usize
            },
            ..self
        }
    }

    /// The counters after a session was removed.
    pub open spec fn after_remove(self) -> SessionManagerStats {
        SessionManagerStats {
            active_sessions: if self.active_sessions == 0 {
                0
            } else {
                (self.active_sessions - 1) as usize
            },
            ..self
        }
    }

    /// The counters after a session with the status `status` was swept out:
    /// it counts as completed or cancelled if its status says so, as expired
    /// otherwise, and it is no longer active.
    pub open spec fn after_expiry(self, status: SessionStatus) -> SessionManagerStats {
        let tallied = match status {
            SessionStatus::Completed => SessionManagerStats {
                total_sessions_completed: capped_increment(self.total_sessions_completed),
                ..self
            },
            SessionStatus::Cancelled => SessionManagerStats {
                total_sessions_cancelled: capped_increment(self.total_sessions_cancelled),
                ..self
            },
            _ => SessionManagerStats {
                total_sessions_expired: capped_increment(self.total_sessions_expired),
                ..self
            },
        };
        tallied.after_remove()
    }

    /// The counters after a session was created.
    fn record_create(&mut self)
        ensures
            *final(self) == old(self).after_create(),
    {
        self.total_sessions_created = self.total_sessions_created.saturating_add(1);
        self.active_sessions = self.active_sessions.saturating_add(1);
    }

    /// The counters after a session was removed.
    fn record_remove(&mut self)
        ensures
            *final(self) == old(self).after_remove(),
    {
        self.active_sessions = self.active_sessions.saturating_sub(1);
    }

    /// The counters after a session with the status `status` was swept out.
    fn record_expiry(&mut self, status: SessionStatus)
        ensures
            *final(self) == old(self).after_expiry(status),
    {
        match status {
            SessionStatus::Completed => {
                self.total_sessions_completed = self.total_sessions_completed.saturating_add(1);
            },
            SessionStatus::Cancelled => {
                self.total_sessions_cancelled = self.total_sessions_cancelled.saturating_add(1);
            },
            _ => {
                self.total_sessions_expired = self.total_sessions_expired.saturating_add(1);
            },
        }
        self.active_sessions = self.active_sessions.saturating_sub(1);
    }
}

impl Default for SessionManagerStats {
    /// The counters of a manager that has done nothing yet.
    fn default() -> (s: Self)
        ensures
            s == SessionManagerStats::zero(),
    {
        SessionManagerStats {
            total_sessions_created: 0,
            total_sessions_completed: 0,
            total_sessions_cancelled: 0,
            total_sessions_expired: 0,
            active_sessions: 0,
            avg_session_duration: Ratio::new(0, 0),
            total_session_time: 0,
        }
    }
}

/// The refusal to create a session because the manager holds as many
/// sessions as it may.
#[derive(Debug, Clone, Copy, PartialEq, Eq, Structural)]
pub struct CapacityError {
    /// The limit that was reached.
    pub max_sessions: usize,
}

impl CapacityError {
    /// The message of the error.
    pub fn message(&self) -> (m: String)
        ensures
            m@ == "Maximum number of sessions reached"@,
    {
        "Maximum number of sessions reached".to_string()
    }
}

/// The views of the entries of a session table.
pub open spec fn session_views(entries: Seq<(Seq<char>, ThinkingSession)>) -> Seq<
    (Seq<char>, ThinkingSessionView),
> {
    Seq::new(entries.len(), |i: int| (entries[i].0, entries[i].1@))
}

/// The entries whose session has not run out at the instant `now`.
pub open spec fn unexpired_at(now: Timestamp) -> spec_fn((Seq<char>, ThinkingSessionView)) -> bool {
    |entry: (Seq<char>, ThinkingSessionView)| !entry.1.metadata.expired_at(now)
}

/// The entries whose session is active at the instant `now`.
pub open spec fn active_at(now: Timestamp) -> spec_fn((Seq<char>, ThinkingSessionView)) -> bool {
    |entry: (Seq<char>, ThinkingSessionView)| entry.1.metadata.active_at(now)
}

/// The counters after a sweep at the instant `now` over `entries`, oldest
/// entry first.
pub open spec fn stats_after_sweep(
    stats: SessionManagerStats,
    entries: Seq<(Seq<char>, ThinkingSessionView)>,
    now: Timestamp,
) -> SessionManagerStats
    decreases entries.len(),
{
    if entries.len() == 0 {
        stats
    } else {
        let earlier = stats_after_sweep(stats, entries.drop_last(), now);
        if entries.last().1.metadata.expired_at(now) {
            earlier.after_expiry(entries.last().1.metadata.status)
        } else {
            earlier
        }
    }
}

/// The state of a [`SessionManager`], as mathematical values.
pub struct SessionManagerView {
    /// The sessions under their names, oldest name first.
    pub sessions: Seq<(Seq<char>, ThinkingSessionView)>,
    /// The settings.
    pub config: SessionManagerConfigView,
    /// The counters.
    pub stats: SessionManagerStats,
}

impl SessionManagerView {
    /// The manager holds as many sessions as it may, or more.
    pub open spec fn at_capacity(self) -> bool {
        self.sessions.len() >= self.config.max_sessions
    }

    /// The state after an attempt to create the session `session` under the
    /// name `id`: at capacity nothing changes, otherwise the session is
    /// stored and counted.
    pub open spec fn create(self, id: Seq<char>, session: ThinkingSessionView) -> Self {
        if self.at_capacity() {
            self
        } else {
            SessionManagerView {
                sessions: with_entry(self.sessions, id, session),
                stats: self.stats.after_create(),
                ..self
            }
        }
    }

    /// The state after `session` was stored under the name `id`, in the
    /// place of the session of that name if there was one.
    pub open spec fn update(self, id: Seq<char>, session: ThinkingSessionView) -> Self {
        SessionManagerView { sessions: with_entry(self.sessions, id, session), ..self }
    }

    /// The state after the session named `id` was removed, if there was one.
    pub open spec fn remove(self, id: Seq<char>) -> Self {
        if has_key(self.sessions, id) {
            SessionManagerView {
                sessions: without_key(self.sessions, id),
                stats: self.stats.after_remove(),
                ..self
            }
        } else {
            self
        }
    }

    /// The state after a sweep at the instant `now`: the sessions whose time
    /// has run out are gone and tallied, the others stay as they are.
    pub open spec fn sweep(self, now: Timestamp) -> Self {
        SessionManagerView {
            sessions: self.sessions.filter(unexpired_at(now)),
            stats: stats_after_sweep(self.stats, self.sessions, now),
            ..self
        }
    }
}

/// A manager that holds exactly as many sessions as it may refuses to
/// create another. Once one of its sessions is removed it has room, and the
/// next session is created.
pub proof fn lemma_capacity_and_room(
    state: SessionManagerView,
    present: Seq<char>,
    id: Seq<char>,
    session: ThinkingSessionView,
)
    requires
        keys_distinct(state.sessions),
        state.sessions.len() == state.config.max_sessions,
        has_key(state.sessions, present),
    ensures
        state.at_capacity(),
        state.create(id, session) == state,
        !state.remove(present).at_capacity(),
        lookup(state.remove(present).create(id, session).sessions, id) == Some(session),
        state.remove(present).create(id, session).stats.total_sessions_created
            == capped_increment(state.stats.total_sessions_created),
{
    lemma_without_key(state.sessions, present);
    lemma_with_entry(state.remove(present).sessions, id, session);
}

/// A sweep removes exactly the sessions whose time has run out: afterwards a
/// name leads to a session exactly if it led to one before whose time has
/// not run out, and that session is as it was. The names stay distinct, and
/// the table shrinks by the number of sessions that were removed.
pub proof fn lemma_sweep_removes_exactly_expired(state: SessionManagerView, now: Timestamp)
    requires
        keys_distinct(state.sessions),
    ensures
        keys_distinct(state.sweep(now).sessions),
        state.sweep(now).config == state.config,
        state.sweep(now).sessions.len() <= state.sessions.len(),
        forall|id: Seq<char>| #[trigger]
            lookup(state.sweep(now).sessions, id) == match lookup(state.sessions, id) {
                Some(session) => if session.metadata.expired_at(now) {
                    None
                } else {
                    Some(session)
                },
                None => None,
            },
{
    crate::string_map::lemma_filter_lookup(state.sessions, unexpired_at(now));
    state.sessions.lemma_filter_len(unexpired_at(now));
}

/// What is written to disk of one session.
#[derive(Debug)]
pub struct SessionRecord {
    /// The metadata of the session.
    pub metadata: SessionMetadata,
    /// The log of the session's engine.
    pub thoughts: Vec<ThoughtData>,
    /// The counters of the session's engine.
    pub stats: ThinkingStats,
}

/// The registry of sessions.
#[derive(Debug)]
pub struct SessionManager {
    sessions: StringMap<ThinkingSession>,
    config: SessionManagerConfig,
    stats: SessionManagerStats,
}

impl View for SessionManager {
    type V = SessionManagerView;

    closed spec fn view(&self) -> SessionManagerView {
        SessionManagerView {
            sessions: session_views(self.sessions.entries()),
            config: self.config@,
            stats: self.stats,
        }
    }
}

impl SessionManager {
    /// A manager with the standard settings and no session.
    pub fn new() -> (m: Self)
        ensures
            m@ == (SessionManagerView {
                sessions: Seq::empty(),
                config: SessionManagerConfigView::standard(),
                stats: SessionManagerStats::zero(),
            }),
    {
        SessionManager::with_config(SessionManagerConfig::default())
    }

    /// A manager with the given settings and no session.
    pub fn with_config(config: SessionManagerConfig) -> (m: Self)
        ensures
            m@ == (SessionManagerView {
                sessions: Seq::empty(),
                config: config@,
                stats: SessionManagerStats::zero(),
            }),
    {
        let sessions: StringMap<ThinkingSession> = StringMap::new();
        assert(session_views(sessions.entries()) =~= Seq::<
            (Seq<char>, ThinkingSessionView),
        >::empty());
        SessionManager { sessions, config, stats: SessionManagerStats::default() }
    }

    /// Creates the session `session_id`, titled `title`, at the instant
    /// `now`, unless the manager is at capacity. A session that is there
    /// under that name already is replaced.
    pub fn create_session_as(&mut self, session_id: String, title: String, now: Timestamp) -> (r:
        Result<String, CapacityError>)
        ensures
            keys_distinct(old(self)@.sessions),
            keys_distinct(final(self)@.sessions),
            match r {
                Ok(id) => {
                    &&& !old(self)@.at_capacity()
                    &&& id@ == session_id@
                    &&& lookup(final(self)@.sessions, id@) matches Some(session)
                    &&& session.session_id == id@
                    &&& session.metadata == SessionMetadataView::fresh(title@, now)
                    &&& session.engine == ThinkingEngineView::idle(session.engine.id, None, false)
                    &&& final(self)@ == old(self)@.create(id@, session)
                },
                Err(e) => {
                    &&& old(self)@.at_capacity()
                    &&& e.max_sessions == old(self)@.config.max_sessions
                    &&& final(self)@ == old(self)@
                },
            },
    {
        proof {
            use_type_invariant(&self.sessions);
        }
        let ghost before = self@;
        let ghost old_entries = self.sessions.entries();
        assert(keys_distinct(before.sessions)) by {
            assert forall|i: int, j: int| 0 <= i < j < before.sessions.len() implies (
            #[trigger] before.sessions[i]).0 != (#[trigger] before.sessions[j]).0 by {
                assert(old_entries[i].0 != old_entries[j].0);
            }
        }
        if self.sessions.len() >= self.config.max_sessions {
            return Err(CapacityError { max_sessions: self.config.max_sessions });
        }
        let session = ThinkingSession::new_at(session_id.clone(), title, now);
        let ghost stored = session@;
        let id = session_id.clone();
        self.sessions.insert(session_id, session);
        self.stats.record_create();
        proof {
            lemma_views_with_entry(old_entries, id@, session);
            lemma_with_entry(before.sessions, id@, stored);
        }
        Ok(id)
    }

    /// Creates a session titled `title` under a fresh random name, unless
    /// the manager is at capacity, and returns the name.
    pub fn create_session(&mut self, title: String) -> (r: Result<String, CapacityError>)
        ensures
            keys_distinct(final(self)@.sessions),
            match r {
                Ok(id) => {
                    &&& !old(self)@.at_capacity()
                    &&& id@.len() == 36
                    &&& lookup(final(self)@.sessions, id@) matches Some(session)
                    &&& session.session_id == id@
                    &&& session.metadata == SessionMetadataView::fresh(
                        title@,
                        session.metadata.created_at,
                    )
                    &&& session.engine == ThinkingEngineView::idle(session.engine.id, None, false)
                    &&& final(self)@ == old(self)@.create(id@, session)
                },
                Err(e) => {
                    &&& old(self)@.at_capacity()
                    &&& e.max_sessions == old(self)@.config.max_sessions
                    &&& final(self)@ == old(self)@
                },
            },
    {
        let session_id = random_session_id();
        let now = Timestamp::now();
        self.create_session_as(session_id, title, now)
    }

    /// A copy of the session named `session_id`, if there is one. As every
    /// copy of a session, it has a new engine that holds no thoughts.
    pub fn get_session(&self, session_id: &str) -> (r: Option<ThinkingSession>)
        ensures
            match r {
                Some(copy) => lookup(self@.sessions, session_id@) matches Some(session)
                    && copy@ == session.copied(copy@.engine.id),
                None => lookup(self@.sessions, session_id@) is None,
            },
    {
        proof {
            use_type_invariant(&self.sessions);
            lemma_views_lookup(self.sessions.entries(), session_id@);
        }
        match self.sessions.get(session_id) {
            Some(session) => Some(session.clone()),
            None => None,
        }
    }

    /// Stores `session` under the name `session_id`, in the place of the
    /// session of that name if there is one, and says whether there was one.
    /// The counters and the limit play no part.
    pub fn update_session(&mut self, session_id: &str, session: ThinkingSession) -> (existed: bool)
        ensures
            final(self)@ == old(self)@.update(session_id@, session@),
            existed == has_key(old(self)@.sessions, session_id@),
            keys_distinct(final(self)@.sessions),
    {
        proof {
            use_type_invariant(&self.sessions);
            lemma_views_lookup(self.sessions.entries(), session_id@);
            lemma_views_with_entry(self.sessions.entries(), session_id@, session);
        }
        let previous = self.sessions.insert(session_id.to_string(), session);
        proof {
            use_type_invariant(&self.sessions);
            lemma_views_distinct(self.sessions.entries());
        }
        previous.is_some()
    }

    /// Removes the session named `session_id` and says whether there was
    /// one. A session that is removed is no longer counted as active.
    pub fn remove_session(&mut self, session_id: &str) -> (existed: bool)
        ensures
            final(self)@ == old(self)@.remove(session_id@),
            existed == has_key(old(self)@.sessions, session_id@),
            keys_distinct(final(self)@.sessions),
    {
        proof {
            use_type_invariant(&self.sessions);
            lemma_views_lookup(self.sessions.entries(), session_id@);
            lemma_views_without_key(self.sessions.entries(), session_id@);
        }
        let previous = self.sessions.remove(session_id);
        proof {
            use_type_invariant(&self.sessions);
            lemma_views_distinct(self.sessions.entries());
        }
        if previous.is_some() {
            self.stats.record_remove();
            true
        } else {
            false
        }
    }

    /// The names of all sessions, oldest first.
    pub fn list_session_ids(&self) -> (ids: Vec<String>)
        ensures
            ids@.len() == self@.sessions.len(),
            forall|i: int| 0 <= i < ids@.len() ==> (#[trigger] ids@[i])@ == self@.sessions[i].0,
    {
        self.sessions.keys()
    }

    /// Copies of the sessions that are active at the instant `now`, in the
    /// order of the table.
    pub fn list_active_sessions_at(&self, now: Timestamp) -> (active: Vec<ThinkingSession>)
        ensures
            active@.len() == self@.sessions.filter(active_at(now)).len(),
            forall|i: int|
                0 <= i < active@.len() ==> (#[trigger] active@[i])@ == self@.sessions.filter(
                    active_at(now),
                )[i].1.copied(active@[i]@.engine.id),
    {
        let ghost table = self@.sessions;
        let mut active: Vec<ThinkingSession> = Vec::new();
        let mut i: usize = 0;
        proof {
            reveal(Seq::filter);
            assert(table.subrange(0, 0) =~= Seq::<(Seq<char>, ThinkingSessionView)>::empty());
        }
        while i < self.sessions.len()
            invariant
                i <= self.sessions.entries().len(),
                table == session_views(self.sessions.entries()),
                active@.len() == table.subrange(0, i as int).filter(active_at(now)).len(),
                forall|j: int|
                    0 <= j < active@.len() ==> (#[trigger] active@[j])@ == table.subrange(
                        0,
                        i as int,
                    ).filter(active_at(now))[j].1.copied(active@[j]@.engine.id),
            decreases self.sessions.entries().len() - i,
        {
            proof {
                assert(table.subrange(0, i + 1) =~= table.subrange(0, i as int).push(
                    table[i as int],
                ));
                table.subrange(0, i as int).lemma_filter_push(table[i as int], active_at(now));
            }
            let session = self.sessions.value_at(i);
            if session.is_active_at(now) {
                active.push(session.clone());
            }
            i += 1;
        }
        assert(table.subrange(0, table.len() as int) =~= table);
        active
    }

    /// Copies of the sessions that are active now: those whose status is
    /// `Active` and whose time has not run out.
    pub fn list_active_sessions(&self) -> (active: Vec<ThinkingSession>)
        ensures
            exists|now: Timestamp|
                {
                    &&& active@.len() == (#[trigger] self@.sessions.filter(active_at(now))).len()
                    &&& forall|i: int|
                        0 <= i < active@.len() ==> (#[trigger] active@[i])@
                            == self@.sessions.filter(active_at(now))[i].1.copied(
                            active@[i]@.engine.id,
                        )
                },
    {
        let now = Timestamp::now();
        let active = self.list_active_sessions_at(now);
        assert(active@.len() == self@.sessions.filter(active_at(now)).len());
        active
    }

    /// The counters.
    pub fn get_stats(&self) -> (s: SessionManagerStats)
        ensures
            s == self@.stats,
    {
        self.stats
    }

    /// The settings.
    pub fn config(&self) -> (c: &SessionManagerConfig)
        ensures
            c@ == self@.config,
    {
        &self.config
    }

    /// Sweeps out the sessions whose time has run out at the instant `now`
    /// and returns their number. Each of them is tallied by its status and
    /// is no longer counted as active; the other sessions stay as they are.
    pub fn cleanup_expired_sessions_at(&mut self, now: Timestamp) -> (removed: usize)
        ensures
            final(self)@ == old(self)@.sweep(now),
            removed == old(self)@.sessions.len() - final(self)@.sessions.len(),
            keys_distinct(final(self)@.sessions),
    {
        let ghost before = self@.sessions;
        let ghost old_stats = self.stats;
        let ghost n = before.len() as int;
        let initial = self.sessions.len();
        let mut removed: usize = 0;
        let mut i: usize = 0;
        proof {
            reveal(Seq::filter);
            assert(before.subrange(0, 0) =~= Seq::<(Seq<char>, ThinkingSessionView)>::empty());
            assert(before.subrange(0, n) =~= before);
            assert(before.subrange(0, 0).filter(unexpired_at(now)) + before.subrange(0, n)
                =~= before);
        }
        while i < self.sessions.len()
            invariant
                self.config == old(self).config,
                0 <= i + removed <= n,
                n == before.len(),
                n == initial,
                i == before.subrange(0, i + removed).filter(unexpired_at(now)).len(),
                session_views(self.sessions.entries()) == before.subrange(0, i + removed).filter(
                    unexpired_at(now),
                ) + before.subrange(i + removed, n),
                self.stats == stats_after_sweep(old_stats, before.subrange(0, i + removed), now),
            decreases self.sessions.entries().len() - i,
        {
            let ghost k = i + removed;
            let ghost kept = before.subrange(0, k).filter(unexpired_at(now));
            let ghost current = session_views(self.sessions.entries());
            proof {
                assert(current.len() == kept.len() + (n - k));
                assert(k < n);
                assert(current[i as int] == before[k]);
                assert(before.subrange(0, k + 1) =~= before.subrange(0, k).push(before[k]));
                assert(before.subrange(0, k + 1).drop_last() =~= before.subrange(0, k));
                before.subrange(0, k).lemma_filter_push(before[k], unexpired_at(now));
            }
            if self.sessions.value_at(i).is_expired_at(now) {
                let entry = self.sessions.remove_at(i);
                self.stats.record_expiry(entry.1.metadata.status);
                removed = removed + 1;
                proof {
                    assert(session_views(self.sessions.entries()) =~= current.remove(i as int));
                    assert(current.remove(i as int) =~= kept + before.subrange(k + 1, n));
                }
            } else {
                i = i + 1;
                proof {
                    assert(kept.push(before[k]) + before.subrange(k + 1, n) =~= current);
                }
            }
        }
        proof {
            assert(i + removed == n);
            assert(before.subrange(0, n) =~= before);
            assert(before.subrange(n, n) =~= Seq::<(Seq<char>, ThinkingSessionView)>::empty());
            assert(before.filter(unexpired_at(now)) + Seq::<
                (Seq<char>, ThinkingSessionView),
            >::empty() =~= before.filter(unexpired_at(now)));
            use_type_invariant(&self.sessions);
            lemma_views_distinct(self.sessions.entries());
        }
        removed
    }

    /// Sweeps out the sessions whose time has run out by now and returns
    /// their number.
    pub fn cleanup_expired_sessions(&mut self) -> (removed: usize)
        ensures
            exists|now: Timestamp| final(self)@ == #[trigger] old(self)@.sweep(now),
            removed == old(self)@.sessions.len() - final(self)@.sessions.len(),
            keys_distinct(final(self)@.sessions),
    {
        let now = Timestamp::now();
        let removed = self.cleanup_expired_sessions_at(now);
        assert(self@ == old(self)@.sweep(now));
        removed
    }

    /// What is to be written to disk of each session, under its name.
    pub fn snapshot(&self) -> (records: Vec<(String, SessionRecord)>)
        ensures
            records@.len() == self@.sessions.len(),
            forall|i: int|
                0 <= i < records@.len() ==> {
                    &&& (#[trigger] records@[i]).0@ == self@.sessions[i].0
                    &&& records@[i].1.metadata@ == self@.sessions[i].1.metadata
                    &&& thought_views(records@[i].1.thoughts@) == self@.sessions[i].1.engine.thoughts
                    &&& records@[i].1.stats == self@.sessions[i].1.engine.stats
                },
    {
        let mut records: Vec<(String, SessionRecord)> = Vec::new();
        let mut i: usize = 0;
        while i < self.sessions.len()
            invariant
                i <= self.sessions.entries().len(),
                records@.len() == i,
                forall|j: int|
                    0 <= j < i ==> {
                        &&& (#[trigger] records@[j]).0@ == self@.sessions[j].0
                        &&& records@[j].1.metadata@ == self@.sessions[j].1.metadata
                        &&& thought_views(records@[j].1.thoughts@)
                            == self@.sessions[j].1.engine.thoughts
                        &&& records@[j].1.stats == self@.sessions[j].1.engine.stats
                    },
            decreases self.sessions.entries().len() - i,
        {
            let session = self.sessions.value_at(i);
            let record = SessionRecord {
                metadata: session.metadata.clone(),
                thoughts: session.get_thoughts(),
                stats: session.get_stats(),
            };
            records.push((self.sessions.key_at(i).clone(), record));
            i += 1;
        }
        records
    }

    /// The file that the sessions are written to and read from, where the
    /// settings ask for that: `sessions.json` in the directory that they
    /// name.
    pub fn persistence_file(&self) -> (path: Option<String>)
        ensures
            match path {
                Some(p) => self@.config.persist_sessions && p@ == self@.config.persistence_dir
                    + "/sessions.json"@,
                None => !self@.config.persist_sessions,
            },
    {
        if self.config.persist_sessions {
            Some(crate::text::joined(self.config.persistence_dir.as_str(), "/sessions.json"))
        } else {
            None
        }
    }

    /// Takes in a session that was read from disk: it is stored under the
    /// name `session_id` with the given metadata and a new engine, in the
    /// place of the session of that name if there is one. Neither thoughts
    /// nor counters come back.
    pub fn restore_session(&mut self, session_id: String, metadata: SessionMetadata)
        ensures
            lookup(final(self)@.sessions, session_id@) matches Some(session)
                && session.session_id == session_id@ && session.metadata == metadata@
                && session.engine == ThinkingEngineView::idle(session.engine.id, None, false)
                && final(self)@ == old(self)@.update(session_id@, session),
            keys_distinct(final(self)@.sessions),
    {
        proof {
            use_type_invariant(&self.sessions);
            lemma_views_distinct(self.sessions.entries());
        }
        let ghost before = self@;
        let session = ThinkingSession::with_metadata(session_id.clone(), metadata);
        proof {
            lemma_views_with_entry(self.sessions.entries(), session_id@, session);
            lemma_with_entry(before.sessions, session_id@, session@);
        }
        self.sessions.insert(session_id, session);
        proof {
            use_type_invariant(&self.sessions);
            lemma_views_distinct(self.sessions.entries());
        }
    }
}

impl Default for SessionManager {
    /// A manager with the standard settings and no session.
    fn default() -> (m: Self)
        ensures
            m@ == (SessionManagerView {
                sessions: Seq::empty(),
                config: SessionManagerConfigView::standard(),
                stats: SessionManagerStats::zero(),
            }),
    {
        SessionManager::new()
    }
}

/// The views of a table with distinct names have distinct names.
pub proof fn lemma_views_distinct(entries: Seq<(Seq<char>, ThinkingSession)>)
    requires
        keys_distinct(entries),
    ensures
        keys_distinct(session_views(entries)),
{
    let views = session_views(entries);
    assert forall|i: int, j: int| 0 <= i < j < views.len() implies (#[trigger] views[i]).0 != (
    #[trigger] views[j]).0 by {
        assert(entries[i].0 != entries[j].0);
    }
}

/// Looking a name up in the views of a table gives the view of what the
/// table holds under it.
pub proof fn lemma_views_lookup(entries: Seq<(Seq<char>, ThinkingSession)>, id: Seq<char>)
    requires
        keys_distinct(entries),
    ensures
        has_key(session_views(entries), id) == has_key(entries, id),
        has_key(entries, id) ==> position_of(session_views(entries), id) == position_of(entries, id),
        lookup(session_views(entries), id) == match lookup(entries, id) {
            Some(session) => Some(session@),
            None => None,
        },
{
    let views = session_views(entries);
    lemma_views_distinct(entries);
    if has_key(entries, id) {
        let p = position_of(entries, id);
        assert(views[p].0 == id);
        crate::string_map::lemma_position_unique(views, p);
    } else {
        if has_key(views, id) {
            let p = position_of(views, id);
            assert(entries[p].0 == id);
        }
    }
}

/// Storing a session and taking views is taking views and storing the
/// session's view.
pub proof fn lemma_views_with_entry(
    entries: Seq<(Seq<char>, ThinkingSession)>,
    id: Seq<char>,
    session: ThinkingSession,
)
    requires
        keys_distinct(entries),
    ensures
        session_views(with_entry(entries, id, session)) == with_entry(
            session_views(entries),
            id,
            session@,
        ),
{
    lemma_views_lookup(entries, id);
    assert(session_views(with_entry(entries, id, session)) =~= with_entry(
        session_views(entries),
        id,
        session@,
    ));
}

/// Removing a name and taking views is taking views and removing the name.
pub proof fn lemma_views_without_key(entries: Seq<(Seq<char>, ThinkingSession)>, id: Seq<char>)
    requires
        keys_distinct(entries),
    ensures
        session_views(without_key(entries, id)) == without_key(session_views(entries), id),
{
    lemma_views_lookup(entries, id);
    assert(session_views(without_key(entries, id)) =~= without_key(session_views(entries), id));
}

} // verus!
