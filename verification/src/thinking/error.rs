//! The errors of the library.

pub mod utils;

use crate::string_map::with_entry;
use crate::string_map::StringMap;
use crate::text::joined;
use crate::time::TimeSpan;
use crate::time::Timestamp;
use vstd::prelude::*;

verus! {

/// The kinds of error, one for each variant of [`SequentialThinkingError`].
#[derive(Debug, Clone, Copy, PartialEq, Eq, Structural)]
pub enum ErrorKind {
    InvalidThoughtData,
    ProcessingError,
    SessionError,
    BranchError,
    ValidationError,
    ConfigError,
    SerializationError,
    TransportError,
    InternalError,
    NotFound,
    PermissionDenied,
    RateLimitExceeded,
    Timeout,
    Cancelled,
    Wrapped,
}

impl ErrorKind {
    /// The error may go away when the operation is tried again.
    pub open spec fn retryable(self) -> bool {
        self == ErrorKind::TransportError || self == ErrorKind::Timeout || self
            == ErrorKind::RateLimitExceeded
    }

    /// The error lies with what the caller handed in.
    pub open spec fn client_error(self) -> bool {
        self == ErrorKind::InvalidThoughtData || self == ErrorKind::ValidationError || self
            == ErrorKind::ConfigError || self == ErrorKind::NotFound || self
            == ErrorKind::PermissionDenied
    }

    /// The error lies with the system that served the caller.
    pub open spec fn server_error(self) -> bool {
        self == ErrorKind::ProcessingError || self == ErrorKind::SessionError || self
            == ErrorKind::BranchError || self == ErrorKind::InternalError || self
            == ErrorKind::SerializationError
    }

    /// What stands before the detail in the message for a user.
    pub open spec fn user_prefix(self) -> Seq<char> {
        match self {
            ErrorKind::InvalidThoughtData => "Invalid thought data: "@,
            ErrorKind::ProcessingError => "Failed to process thought: "@,
            ErrorKind::SessionError => "Session error: "@,
            ErrorKind::BranchError => "Branch error: "@,
            ErrorKind::ValidationError => "Validation failed: "@,
            ErrorKind::ConfigError => "Configuration error: "@,
            ErrorKind::SerializationError => "Data format error: "@,
            ErrorKind::TransportError => "Connection error: "@,
            ErrorKind::InternalError => "System error: "@,
            ErrorKind::NotFound => "Resource not found: "@,
            ErrorKind::PermissionDenied => "Access denied: "@,
            ErrorKind::RateLimitExceeded => "Too many requests: "@,
            ErrorKind::Timeout => "Operation timed out after "@,
            ErrorKind::Cancelled => "Operation cancelled: "@,
            ErrorKind::Wrapped => "Error: "@,
        }
    }

    /// What stands before the detail in the text of the error.
    pub open spec fn text_prefix(self) -> Seq<char> {
        match self {
            ErrorKind::InvalidThoughtData => "Invalid thought data: "@,
            ErrorKind::ProcessingError => "Thought processing error: "@,
            ErrorKind::SessionError => "Session error: "@,
            ErrorKind::BranchError => "Branch error: "@,
            ErrorKind::ValidationError => "Validation error: "@,
            ErrorKind::ConfigError => "Configuration error: "@,
            ErrorKind::SerializationError => "Serialization error: "@,
            ErrorKind::TransportError => "Transport error: "@,
            ErrorKind::InternalError => "Internal error: "@,
            ErrorKind::NotFound => "Resource not found: "@,
            ErrorKind::PermissionDenied => "Permission denied: "@,
            ErrorKind::RateLimitExceeded => "Rate limit exceeded: "@,
            ErrorKind::Timeout => "Operation timed out after "@,
            ErrorKind::Cancelled => "Operation was cancelled: "@,
            ErrorKind::Wrapped => "Wrapped error: "@,
        }
    }

    /// The code of the error in replies.
    pub open spec fn code(self) -> Seq<char> {
        match self {
            ErrorKind::InvalidThoughtData => "INVALID_THOUGHT_DATA"@,
            ErrorKind::ProcessingError => "PROCESSING_ERROR"@,
            ErrorKind::SessionError => "SESSION_ERROR"@,
            ErrorKind::BranchError => "BRANCH_ERROR"@,
            ErrorKind::ValidationError => "VALIDATION_ERROR"@,
            ErrorKind::ConfigError => "CONFIG_ERROR"@,
            ErrorKind::SerializationError => "SERIALIZATION_ERROR"@,
            ErrorKind::TransportError => "TRANSPORT_ERROR"@,
            ErrorKind::InternalError => "INTERNAL_ERROR"@,
            ErrorKind::NotFound => "NOT_FOUND"@,
            ErrorKind::PermissionDenied => "PERMISSION_DENIED"@,
            ErrorKind::RateLimitExceeded => "RATE_LIMIT_EXCEEDED"@,
            ErrorKind::Timeout => "TIMEOUT"@,
            ErrorKind::Cancelled => "CANCELLED"@,
            ErrorKind::Wrapped => "WRAPPED_ERROR"@,
        }
    }
}

/// An error of the library. Each variant carries its detail as text, but for
/// `Timeout`, which carries the time that was waited.
#[derive(Debug)]
pub enum SequentialThinkingError {
    /// A thought was not as it has to be.
    InvalidThoughtData { message: String },
    /// A thought could not be processed.
    ProcessingError { message: String },
    /// A session could not be used.
    SessionError { message: String },
    /// A branch could not be used.
    BranchError { message: String },
    /// A value broke a rule.
    ValidationError { message: String },
    /// The settings are not as they have to be.
    ConfigError { message: String },
    /// Data could not be written or read in its format.
    SerializationError { message: String },
    /// The connection failed.
    TransportError { message: String },
    /// The system failed.
    InternalError { message: String },
    /// Something that was asked for is not there.
    NotFound { resource: String },
    /// The caller may not do what was asked.
    PermissionDenied { reason: String },
    /// The caller asked too often.
    RateLimitExceeded { limit: String },
    /// The operation took longer than it was given.
    Timeout { duration: TimeSpan },
    /// The operation was called off.
    Cancelled { reason: String },
    /// An error from elsewhere, kept as its text.
    Wrapped { source: String },
}

/// The result of an operation of the library.
pub type SequentialThinkingResult<T> = Result<T, SequentialThinkingError>;

impl SequentialThinkingError {
    /// The kind of the error.
    pub open spec fn kind(&self) -> ErrorKind {
        match self {
            Self::InvalidThoughtData { .. } => ErrorKind::InvalidThoughtData,
            Self::ProcessingError { .. } => ErrorKind::ProcessingError,
            Self::SessionError { .. } => ErrorKind::SessionError,
            Self::BranchError { .. } => ErrorKind::BranchError,
            Self::ValidationError { .. } => ErrorKind::ValidationError,
            Self::ConfigError { .. } => ErrorKind::ConfigError,
            Self::SerializationError { .. } => ErrorKind::SerializationError,
            Self::TransportError { .. } => ErrorKind::TransportError,
            Self::InternalError { .. } => ErrorKind::InternalError,
            Self::NotFound { .. } => ErrorKind::NotFound,
            Self::PermissionDenied { .. } => ErrorKind::PermissionDenied,
            Self::RateLimitExceeded { .. } => ErrorKind::RateLimitExceeded,
            Self::Timeout { .. } => ErrorKind::Timeout,
            Self::Cancelled { .. } => ErrorKind::Cancelled,
            Self::Wrapped { .. } => ErrorKind::Wrapped,
        }
    }

    /// The detail of the error: the text that it carries, or for a timeout
    /// the time that was waited, written as a duration is for diagnosis.
    pub open spec fn detail(&self) -> Seq<char> {
        match self {
            Self::InvalidThoughtData { message } => message@,
            Self::ProcessingError { message } => message@,
            Self::SessionError { message } => message@,
            Self::BranchError { message } => message@,
            Self::ValidationError { message } => message@,
            Self::ConfigError { message } => message@,
            Self::SerializationError { message } => message@,
            Self::TransportError { message } => message@,
            Self::InternalError { message } => message@,
            Self::NotFound { resource } => resource@,
            Self::PermissionDenied { reason } => reason@,
            Self::RateLimitExceeded { limit } => limit@,
            Self::Timeout { duration } => duration.spec_debug_text(),
            Self::Cancelled { reason } => reason@,
            Self::Wrapped { source } => source@,
        }
    }

    /// An error about a thought that is not as it has to be.
    pub fn invalid_thought_data(message: &str) -> (e: Self)
        ensures
            e.kind() == ErrorKind::InvalidThoughtData,
            e.detail() == message@,
    {
        Self::InvalidThoughtData { message: message.to_string() }
    }

    /// An error about a thought that could not be processed.
    pub fn processing_error(message: &str) -> (e: Self)
        ensures
            e.kind() == ErrorKind::ProcessingError,
            e.detail() == message@,
    {
        Self::ProcessingError { message: message.to_string() }
    }

    /// An error about a session.
    pub fn session_error(message: &str) -> (e: Self)
        ensures
            e.kind() == ErrorKind::SessionError,
            e.detail() == message@,
    {
        Self::SessionError { message: message.to_string() }
    }

    /// An error about a branch.
    pub fn branch_error(message: &str) -> (e: Self)
        ensures
            e.kind() == ErrorKind::BranchError,
            e.detail() == message@,
    {
        Self::BranchError { message: message.to_string() }
    }

    /// An error about a value that broke a rule.
    pub fn validation_error(message: &str) -> (e: Self)
        ensures
            e.kind() == ErrorKind::ValidationError,
            e.detail() == message@,
    {
        Self::ValidationError { message: message.to_string() }
    }

    /// An error about the settings.
    pub fn config_error(message: &str) -> (e: Self)
        ensures
            e.kind() == ErrorKind::ConfigError,
            e.detail() == message@,
    {
        Self::ConfigError { message: message.to_string() }
    }

    /// An error about data that could not be written or read.
    pub fn serialization_error(message: &str) -> (e: Self)
        ensures
            e.kind() == ErrorKind::SerializationError,
            e.detail() == message@,
    {
        Self::SerializationError { message: message.to_string() }
    }

    /// An error about the connection.
    pub fn transport_error(message: &str) -> (e: Self)
        ensures
            e.kind() == ErrorKind::TransportError,
            e.detail() == message@,
    {
        Self::TransportError { message: message.to_string() }
    }

    /// An error about a failure of the system.
    pub fn internal_error(message: &str) -> (e: Self)
        ensures
            e.kind() == ErrorKind::InternalError,
            e.detail() == message@,
    {
        Self::InternalError { message: message.to_string() }
    }

    /// An error about something that is not there.
    pub fn not_found(resource: &str) -> (e: Self)
        ensures
            e.kind() == ErrorKind::NotFound,
            e.detail() == resource@,
    {
        Self::NotFound { resource: resource.to_string() }
    }

    /// An error about something that the caller may not do.
    pub fn permission_denied(reason: &str) -> (e: Self)
        ensures
            e.kind() == ErrorKind::PermissionDenied,
            e.detail() == reason@,
    {
        Self::PermissionDenied { reason: reason.to_string() }
    }

    /// An error about a caller that asked too often.
    pub fn rate_limit_exceeded(limit: &str) -> (e: Self)
        ensures
            e.kind() == ErrorKind::RateLimitExceeded,
            e.detail() == limit@,
    {
        Self::RateLimitExceeded { limit: limit.to_string() }
    }

    /// An error about an operation that took longer than `duration`.
    pub fn timeout(duration: TimeSpan) -> (e: Self)
        ensures
            e == (Self::Timeout { duration }),
            e.kind() == ErrorKind::Timeout,
            e.detail() == duration.spec_debug_text(),
    {
        Self::Timeout { duration }
    }

    /// An error about an operation that was called off.
    pub fn cancelled(reason: &str) -> (e: Self)
        ensures
            e.kind() == ErrorKind::Cancelled,
            e.detail() == reason@,
    {
        Self::Cancelled { reason: reason.to_string() }
    }

    /// Whether the error may go away when the operation is tried again: a
    /// failed connection, a timeout, a rate limit.
    pub fn is_retryable(&self) -> (b: bool)
        ensures
            b == self.kind().retryable(),
    {
        match self {
            Self::TransportError { .. } => true,
            Self::Timeout { .. } => true,
            Self::RateLimitExceeded { .. } => true,
            _ => false,
        }
    }

    /// Whether the error lies with what the caller handed in.
    pub fn is_client_error(&self) -> (b: bool)
        ensures
            b == self.kind().client_error(),
    {
        match self {
            Self::InvalidThoughtData { .. } => true,
            Self::ValidationError { .. } => true,
            Self::ConfigError { .. } => true,
            Self::NotFound { .. } => true,
            Self::PermissionDenied { .. } => true,
            _ => false,
        }
    }

    /// Whether the error lies with the system that served the caller.
    pub fn is_server_error(&self) -> (b: bool)
        ensures
            b == self.kind().server_error(),
    {
        match self {
            Self::ProcessingError { .. } => true,
            Self::SessionError { .. } => true,
            Self::BranchError { .. } => true,
            Self::InternalError { .. } => true,
            Self::SerializationError { .. } => true,
            _ => false,
        }
    }

    /// The detail of the error as text.
    pub fn detail_text(&self) -> (text: String)
        ensures
            text@ == self.detail(),
    {
        match self {
            Self::InvalidThoughtData { message } => message.clone(),
            Self::ProcessingError { message } => message.clone(),
            Self::SessionError { message } => message.clone(),
            Self::BranchError { message } => message.clone(),
            Self::ValidationError { message } => message.clone(),
            Self::ConfigError { message } => message.clone(),
            Self::SerializationError { message } => message.clone(),
            Self::TransportError { message } => message.clone(),
            Self::InternalError { message } => message.clone(),
            Self::NotFound { resource } => resource.clone(),
            Self::PermissionDenied { reason } => reason.clone(),
            Self::RateLimitExceeded { limit } => limit.clone(),
            Self::Timeout { duration } => duration.debug_text(),
            Self::Cancelled { reason } => reason.clone(),
            Self::Wrapped { source } => source.clone(),
        }
    }

    /// The message of the error for a user: a few words that say what kind
    /// of error it is, then the detail.
    pub fn user_message(&self) -> (text: String)
        ensures
            text@ == self.kind().user_prefix() + self.detail(),
    {
        let prefix = match self {
            Self::InvalidThoughtData { .. } => "Invalid thought data: ",
            Self::ProcessingError { .. } => "Failed to process thought: ",
            Self::SessionError { .. } => "Session error: ",
            Self::BranchError { .. } => "Branch error: ",
            Self::ValidationError { .. } => "Validation failed: ",
            Self::ConfigError { .. } => "Configuration error: ",
            Self::SerializationError { .. } => "Data format error: ",
            Self::TransportError { .. } => "Connection error: ",
            Self::InternalError { .. } => "System error: ",
            Self::NotFound { .. } => "Resource not found: ",
            Self::PermissionDenied { .. } => "Access denied: ",
            Self::RateLimitExceeded { .. } => "Too many requests: ",
            Self::Timeout { .. } => "Operation timed out after ",
            Self::Cancelled { .. } => "Operation cancelled: ",
            Self::Wrapped { .. } => "Error: ",
        };
        joined(prefix, self.detail_text().as_str())
    }

    /// The text of the error: the name of its kind in words, then the
    /// detail.
    pub fn to_string(&self) -> (text: String)
        ensures
            text@ == self.kind().text_prefix() + self.detail(),
    {
        let prefix = match self {
            Self::InvalidThoughtData { .. } => "Invalid thought data: ",
            Self::ProcessingError { .. } => "Thought processing error: ",
            Self::SessionError { .. } => "Session error: ",
            Self::BranchError { .. } => "Branch error: ",
            Self::ValidationError { .. } => "Validation error: ",
            Self::ConfigError { .. } => "Configuration error: ",
            Self::SerializationError { .. } => "Serialization error: ",
            Self::TransportError { .. } => "Transport error: ",
            Self::InternalError { .. } => "Internal error: ",
            Self::NotFound { .. } => "Resource not found: ",
            Self::PermissionDenied { .. } => "Permission denied: ",
            Self::RateLimitExceeded { .. } => "Rate limit exceeded: ",
            Self::Timeout { .. } => "Operation timed out after ",
            Self::Cancelled { .. } => "Operation was cancelled: ",
            Self::Wrapped { .. } => "Wrapped error: ",
        };
        joined(prefix, self.detail_text().as_str())
    }

    /// The code of the error in replies.
    pub fn error_code(&self) -> (code: &'static str)
        ensures
            code@ == self.kind().code(),
    {
        match self {
            Self::InvalidThoughtData { .. } => "INVALID_THOUGHT_DATA",
            Self::ProcessingError { .. } => "PROCESSING_ERROR",
            Self::SessionError { .. } => "SESSION_ERROR",
            Self::BranchError { .. } => "BRANCH_ERROR",
            Self::ValidationError { .. } => "VALIDATION_ERROR",
            Self::ConfigError { .. } => "CONFIG_ERROR",
            Self::SerializationError { .. } => "SERIALIZATION_ERROR",
            Self::TransportError { .. } => "TRANSPORT_ERROR",
            Self::InternalError { .. } => "INTERNAL_ERROR",
            Self::NotFound { .. } => "NOT_FOUND",
            Self::PermissionDenied { .. } => "PERMISSION_DENIED",
            Self::RateLimitExceeded { .. } => "RATE_LIMIT_EXCEEDED",
            Self::Timeout { .. } => "TIMEOUT",
            Self::Cancelled { .. } => "CANCELLED",
            Self::Wrapped { .. } => "WRAPPED_ERROR",
        }
    }
}

/// What was going on when an error came up.
#[derive(Debug)]
pub struct ErrorContext {
    /// The operation that was under way.
    pub operation: String,
    /// What else is known, by name.
    pub context: StringMap<String>,
    /// When the error came up.
    pub timestamp: Timestamp,
}

/// The entries of a map of strings, with each value as its characters.
pub open spec fn text_entries(entries: Seq<(Seq<char>, String)>) -> Seq<(Seq<char>, Seq<char>)> {
    Seq::new(entries.len(), |i: int| (entries[i].0, entries[i].1@))
}

/// The pairs of a list of pairs of strings, each string as its characters.
pub open spec fn pair_views(pairs: Seq<(String, String)>) -> Seq<(Seq<char>, Seq<char>)> {
    Seq::new(pairs.len(), |i: int| (pairs[i].0@, pairs[i].1@))
}

/// The entries after each pair of `pairs` was stored in its turn.
pub open spec fn with_entries(
    entries: Seq<(Seq<char>, Seq<char>)>,
    pairs: Seq<(Seq<char>, Seq<char>)>,
) -> Seq<(Seq<char>, Seq<char>)>
    decreases pairs.len(),
{
    if pairs.len() == 0 {
        entries
    } else {
        with_entry(with_entries(entries, pairs.drop_last()), pairs.last().0, pairs.last().1)
    }
}

/// Storing a string and taking its characters is storing its characters.
pub proof fn lemma_text_entries_with_entry(
    entries: Seq<(Seq<char>, String)>,
    key: Seq<char>,
    value: String,
)
    requires
        crate::string_map::keys_distinct(entries),
    ensures
        crate::string_map::keys_distinct(text_entries(entries)),
        text_entries(with_entry(entries, key, value)) == with_entry(
            text_entries(entries),
            key,
            value@,
        ),
{
    let texts = text_entries(entries);
    assert forall|i: int, j: int| 0 <= i < j < texts.len() implies (#[trigger] texts[i]).0 != (
    #[trigger] texts[j]).0 by {
        assert(entries[i].0 != entries[j].0);
    }
    if crate::string_map::has_key(entries, key) {
        let p = crate::string_map::position_of(entries, key);
        assert(texts[p].0 == key);
        crate::string_map::lemma_position_unique(texts, p);
    } else {
        if crate::string_map::has_key(texts, key) {
            let q = crate::string_map::position_of(texts, key);
            assert(entries[q].0 == key);
        }
    }
    assert(text_entries(with_entry(entries, key, value)) =~= with_entry(
        text_entries(entries),
        key,
        value@,
    ));
}

impl ErrorContext {
    /// What is known so far, by name, as characters.
    pub open spec fn spec_context(&self) -> Seq<(Seq<char>, Seq<char>)> {
        text_entries(self.context.entries())
    }

    /// The context of an error in `operation` that comes up now, with
    /// nothing else known.
    pub fn new(operation: &str) -> (c: Self)
        ensures
            c.operation@ == operation@,
            c.spec_context() == Seq::<(Seq<char>, Seq<char>)>::empty(),
    {
        let c = ErrorContext {
            operation: operation.to_string(),
            context: StringMap::new(),
            timestamp: Timestamp::now(),
        };
        assert(c.spec_context() =~= Seq::<(Seq<char>, Seq<char>)>::empty());
        c
    }

    /// The context with `value` known under `key`.
    pub fn with_context(self, key: &str, value: &str) -> (c: Self)
        ensures
            c.operation@ == self.operation@,
            c.timestamp == self.timestamp,
            c.spec_context() == with_entry(self.spec_context(), key@, value@),
    {
        let ErrorContext { operation, context, timestamp } = self;
        let mut context = context;
        let text = value.to_string();
        proof {
            use_type_invariant(&context);
            lemma_text_entries_with_entry(context.entries(), key@, text);
        }
        context.insert(key.to_string(), text);
        ErrorContext { operation, context, timestamp }
    }

    /// The context with each pair of `contexts` known, value under key, the
    /// pairs taken in their order.
    pub fn with_contexts(self, contexts: Vec<(String, String)>) -> (c: Self)
        ensures
            c.operation@ == self.operation@,
            c.timestamp == self.timestamp,
            c.spec_context() == with_entries(self.spec_context(), pair_views(contexts@)),
    {
        let ErrorContext { operation, context, timestamp } = self;
        let mut context = context;
        let ghost before = text_entries(context.entries());
        let ghost pairs = pair_views(contexts@);
        let mut i: usize = 0;
        assert(pairs.subrange(0, 0) =~= Seq::<(Seq<char>, Seq<char>)>::empty());
        while i < contexts.len()
            invariant
                i <= contexts@.len(),
                pairs == pair_views(contexts@),
                text_entries(context.entries()) == with_entries(before, pairs.subrange(0, i as int)),
            decreases contexts@.len() - i,
        {
            let key = contexts[i].0.clone();
            let value = contexts[i].1.clone();
            proof {
                use_type_invariant(&context);
                lemma_text_entries_with_entry(context.entries(), key@, value);
                assert(pairs.subrange(0, i + 1).drop_last() =~= pairs.subrange(0, i as int));
                assert(pairs.subrange(0, i + 1).last() == pairs[i as int]);
            }
            context.insert(key, value);
            i += 1;
        }
        assert(pairs.subrange(0, contexts@.len() as int) =~= pairs);
        ErrorContext { operation, context, timestamp }
    }
}

#[verifier::external_type_specification]
#[verifier::external_body]
pub struct ExIoError(std::io::Error);

#[verifier::external_type_specification]
#[verifier::external_body]
pub struct ExJsonError(serde_json::Error);

#[verifier::external_type_specification]
#[verifier::external_body]
pub struct ExUuidError(uuid::Error);

#[verifier::external_type_specification]
#[verifier::external_body]
pub struct ExParseError(chrono::ParseError);

/// The text of an error of input or output, as its `Display` writes it.
#[verifier::external_body]
fn io_error_text(error: &std::io::Error) -> (text: String) {
    error.to_string()
}

/// The text of an error of `serde_json`, as its `Display` writes it.
#[verifier::external_body]
fn json_error_text(error: &serde_json::Error) -> (text: String) {
    error.to_string()
}

/// The text of an error of `uuid`, as its `Display` writes it.
#[verifier::external_body]
fn uuid_error_text(error: &uuid::Error) -> (text: String) {
    error.to_string()
}

/// The text of an error of `chrono`'s parsing, as its `Display` writes it.
#[verifier::external_body]
fn parse_error_text(error: &chrono::ParseError) -> (text: String) {
    error.to_string()
}

impl vstd::std_specs::convert::FromSpecImpl<std::io::Error> for SequentialThinkingError {
    /// The text that the conversion takes over has no model, so the
    /// conversion is described by the contract of `from` alone.
    open spec fn obeys_from_spec() -> bool {
        false
    }

    open spec fn from_spec(err: std::io::Error) -> Self {
        vstd::pervasive::arbitrary()
    }
}

impl From<std::io::Error> for SequentialThinkingError {
    /// An error of input or output is a transport error with its text.
    fn from(err: std::io::Error) -> (e: Self)
        ensures
            e.kind() == ErrorKind::TransportError,
    {
        Self::TransportError { message: io_error_text(&err) }
    }
}

impl vstd::std_specs::convert::FromSpecImpl<serde_json::Error> for SequentialThinkingError {
    /// The text that the conversion takes over has no model, so the
    /// conversion is described by the contract of `from` alone.
    open spec fn obeys_from_spec() -> bool {
        false
    }

    open spec fn from_spec(err: serde_json::Error) -> Self {
        vstd::pervasive::arbitrary()
    }
}

impl From<serde_json::Error> for SequentialThinkingError {
    /// An error of `serde_json` is a serialization error with its text.
    fn from(err: serde_json::Error) -> (e: Self)
        ensures
            e.kind() == ErrorKind::SerializationError,
    {
        Self::SerializationError { message: json_error_text(&err) }
    }
}

impl vstd::std_specs::convert::FromSpecImpl<uuid::Error> for SequentialThinkingError {
    /// The text that the conversion takes over has no model, so the
    /// conversion is described by the contract of `from` alone.
    open spec fn obeys_from_spec() -> bool {
        false
    }

    open spec fn from_spec(err: uuid::Error) -> Self {
        vstd::pervasive::arbitrary()
    }
}

impl From<uuid::Error> for SequentialThinkingError {
    /// An error of `uuid` is a validation error with its text.
    fn from(err: uuid::Error) -> (e: Self)
        ensures
            e.kind() == ErrorKind::ValidationError,
    {
        Self::ValidationError { message: uuid_error_text(&err) }
    }
}

impl vstd::std_specs::convert::FromSpecImpl<chrono::ParseError> for SequentialThinkingError {
    /// The text that the conversion takes over has no model, so the
    /// conversion is described by the contract of `from` alone.
    open spec fn obeys_from_spec() -> bool {
        false
    }

    open spec fn from_spec(err: chrono::ParseError) -> Self {
        vstd::pervasive::arbitrary()
    }
}

impl From<chrono::ParseError> for SequentialThinkingError {
    /// An error of `chrono`'s parsing is a validation error with its text.
    fn from(err: chrono::ParseError) -> (e: Self)
        ensures
            e.kind() == ErrorKind::ValidationError,
    {
        Self::ValidationError { message: parse_error_text(&err) }
    }
}

} // verus!
