//! The request log: what happened to each transcription request, kept in
//! memory for troubleshooting.

use vstd::prelude::*;
use vstd::utf8::encode_utf8;
use std::collections::VecDeque;
use crate::recordings::safe_request_id;
use crate::text::str_eq;

verus! {

/// Log level for entries.
#[derive(Debug, Clone, Copy, PartialEq, Eq, Structural)]
pub enum LogLevel {
    /// Diagnostic detail.
    Debug,
    /// Normal progress.
    Info,
    /// Something unexpected that did not stop the request.
    Warn,
    /// A failure.
    Error,
}

/// Status of a request.
#[derive(Debug, Clone, Copy, PartialEq, Eq, Structural)]
pub enum RequestStatus {
    /// Request is in progress.
    InProgress,
    /// Request completed successfully.
    Success,
    /// Request failed.
    Error,
    /// Request was cancelled.
    Cancelled,
}

/// How old request logs are retired.
#[derive(Debug, Clone, Copy, PartialEq, Eq, Structural)]
pub enum RequestLogsRetentionMode {
    /// Keep a number of logs.
    Amount,
    /// Keep the logs of a number of days.
    Time,
}

/// Retention settings of the request log.
#[derive(Debug, Clone, Copy, PartialEq, Eq, Structural)]
pub struct RequestLogsRetentionConfig {
    /// Which limit applies.
    pub mode: RequestLogsRetentionMode,
    /// How many logs to keep, between 1 and 1000.
    pub amount: usize,
    /// How many days to keep logs, if limited.
    pub retention_days: Option<u64>,
}

/// The retention settings that stored values describe: the mode is `time`
/// or else by amount, the amount is brought into 1..=1000, and zero days
/// mean no limit in time.
pub open spec fn retention_of(mode: Seq<char>, amount: u64, days: u64) -> RequestLogsRetentionConfig {
    RequestLogsRetentionConfig {
        mode: if mode == "time"@ {
            RequestLogsRetentionMode::Time
        } else {
            RequestLogsRetentionMode::Amount
        },
        amount: if amount < 1 {
            1
        } else if amount > 1000 {
            1000
        } else {
            amount as usize
        },
        retention_days: if days == 0 {
            None
        } else {
            Some(days)
        },
    }
}

/// Read the retention settings from their stored values.
pub fn read_request_logs_retention(mode: &str, amount: u64, days: u64) -> (config:
    RequestLogsRetentionConfig)
    ensures
        config == retention_of(mode@, amount, days),
{
    let mode = if str_eq(mode, "time") {
        RequestLogsRetentionMode::Time
    } else {
        RequestLogsRetentionMode::Amount
    };
    let amount: usize = if amount < 1 {
        1
    } else if amount > 1000 {
        1000
    } else {
        amount as usize
    };
    let retention_days = if days == 0 {
        None
    } else {
        Some(days)
    };
    RequestLogsRetentionConfig { mode, amount, retention_days }
}

/// Most request logs kept in memory.
pub const MAX_LOGS: usize = 100;

/// Which stored logs a query returns: positions into the store (oldest
/// first, the current request last), most recent first, at most `limit`.
pub open spec fn recent_first(count: nat, limit: Option<usize>) -> Seq<nat> {
    let shown = match limit {
        Some(n) => if (n as nat) < count {
            n as nat
        } else {
            count
        },
        None => count,
    };
    Seq::new(shown, |i: int| (count - 1 - i) as nat)
}

/// The positions of the logs to return, most recent first, at most `limit`.
pub fn logs_to_show(count: usize, limit: Option<usize>) -> (order: Vec<usize>)
    ensures
        order@.len() == recent_first(count as nat, limit).len(),
        forall|i: int|
            0 <= i < order@.len() ==> order@[i] == #[trigger] recent_first(count as nat, limit)[i],
{
    let shown: usize = match limit {
        Some(n) => if n < count {
            n
        } else {
            count
        },
        None => count,
    };
    let mut order: Vec<usize> = Vec::new();
    let mut i: usize = 0;
    while i < shown
        invariant
            i <= shown <= count,
            order@.len() == i,
            forall|j: int| 0 <= j < i ==> order@[j] == count - 1 - j,
        decreases shown - i,
    {
        order.push(count - 1 - i);
        i = i + 1;
    }
    order
}

/// Whether storing one more log must first drop the oldest.
pub fn store_is_full(stored: usize) -> (full: bool)
    ensures
        full == (stored >= MAX_LOGS),
{
    stored >= MAX_LOGS
}

/// `chrono::Utc::now` as milliseconds since the Unix epoch
/// (`timestamp_millis`). The clock decides; nothing is claimed of the value.
#[verifier::external_body]
fn current_time_millis() -> (now_ms: i64) {
    chrono::Utc::now().timestamp_millis()
}

/// `uuid::Uuid::new_v4`, formatted by its `Display`: 32 lowercase hex digits
/// in five groups separated by hyphens. The digits are random, so only the
/// alphabet is claimed: the id is not empty and safe as a file name.
#[verifier::external_body]
fn fresh_request_id() -> (id: String)
    ensures
        safe_request_id(encode_utf8(id@)),
{
    uuid::Uuid::new_v4().to_string()
}

/// A single log entry within a request.
#[derive(Debug, Clone)]
pub struct LogEntry {
    /// When the entry was made, in milliseconds since the Unix epoch.
    pub timestamp_ms: i64,
    /// How severe it is.
    pub level: LogLevel,
    /// What happened.
    pub message: String,
    /// Further detail, if any.
    pub details: Option<String>,
}

/// A complete request log containing all entries for a single transcription
/// request. Times are in milliseconds since the Unix epoch.
#[derive(Debug, Clone)]
pub struct RequestLog {
    /// Unique id of this request.
    pub id: String,
    /// When the request started.
    pub started_at_ms: i64,
    /// When the request completed, if it has.
    pub completed_at_ms: Option<i64>,
    /// Transcription provider used.
    pub stt_provider: String,
    /// Transcription model used.
    pub stt_model: Option<String>,
    /// Rewrite provider used, if rewriting is enabled.
    pub llm_provider: Option<String>,
    /// Rewrite model used.
    pub llm_model: Option<String>,
    /// Audio duration in milliseconds.
    pub audio_duration_ms: Option<u64>,
    /// Audio size in bytes.
    pub audio_size_bytes: Option<usize>,
    /// Sample rate of the audio.
    pub sample_rate: Option<u32>,
    /// Raw transcript.
    pub raw_transcript: Option<String>,
    /// Rewritten transcript, if rewriting was used.
    pub formatted_transcript: Option<String>,
    /// How the request stands.
    pub status: RequestStatus,
    /// Error message if the request failed.
    pub error_message: Option<String>,
    /// All log entries of this request, oldest first.
    pub entries: Vec<LogEntry>,
    /// Total duration in milliseconds.
    pub total_duration_ms: Option<u64>,
    /// Transcription duration in milliseconds.
    pub stt_duration_ms: Option<u64>,
    /// Rewrite duration in milliseconds.
    pub llm_duration_ms: Option<u64>,
}

/// Milliseconds from `start` to `end`, as an unsigned 64-bit number: a
/// clock that went backwards wraps around.
pub open spec fn elapsed_ms(start: i64, end: i64) -> u64 {
    if end >= start {
        (end - start) as u64
    } else {
        (end - start + 0x1_0000_0000_0000_0000) as u64
    }
}

/// Whether `log` is a request that just started: in progress, nothing
/// recorded yet.
pub open spec fn just_started(
    log: RequestLog,
    stt_provider: String,
    stt_model: Option<String>,
) -> bool {
    &&& log.stt_provider == stt_provider
    &&& log.stt_model == stt_model
    &&& log.completed_at_ms is None
    &&& log.llm_provider is None
    &&& log.llm_model is None
    &&& log.audio_duration_ms is None
    &&& log.audio_size_bytes is None
    &&& log.sample_rate is None
    &&& log.raw_transcript is None
    &&& log.formatted_transcript is None
    &&& log.status == RequestStatus::InProgress
    &&& log.error_message is None
    &&& log.entries@.len() == 0
    &&& log.total_duration_ms is None
    &&& log.stt_duration_ms is None
    &&& log.llm_duration_ms is None
}

/// Whether `after` is `before` with one more entry of the given content.
pub open spec fn entry_added(
    before: RequestLog,
    after: RequestLog,
    level: LogLevel,
    message: String,
    details: Option<String>,
) -> bool {
    &&& after == (RequestLog { entries: after.entries, ..before })
    &&& after.entries@.len() == before.entries@.len() + 1
    &&& after.entries@.drop_last() == before.entries@
    &&& after.entries@.last().level == level
    &&& after.entries@.last().message == message
    &&& after.entries@.last().details == details
}

/// Whether `after` is `before` completed with the given status and error
/// message at some time, the total duration being the time since the start.
pub open spec fn completed(
    before: RequestLog,
    after: RequestLog,
    status: RequestStatus,
    error_message: Option<String>,
) -> bool {
    &&& after.completed_at_ms matches Some(at)
    &&& after == (RequestLog {
        completed_at_ms: Some(at),
        status,
        error_message,
        total_duration_ms: Some(elapsed_ms(before.started_at_ms, at)),
        ..before
    })
}

/// Whether `after` is what is stored for a request that gives way to a new
/// one: cancelled if it was still in progress, unchanged otherwise.
pub open spec fn finalized(before: RequestLog, after: RequestLog) -> bool {
    if before.status == RequestStatus::InProgress {
        completed(before, after, RequestStatus::Cancelled, before.error_message)
    } else {
        after == before
    }
}

/// The stored logs after one more is stored: the oldest leaves first if the
/// store is full.
pub open spec fn push_bounded(logs: Seq<RequestLog>, log: RequestLog) -> Seq<RequestLog> {
    if logs.len() >= MAX_LOGS {
        logs.drop_first().push(log)
    } else {
        logs.push(log)
    }
}

impl RequestLog {
    /// A request that starts at `now_ms` under the given id.
    pub fn started(
        id: String,
        now_ms: i64,
        stt_provider: String,
        stt_model: Option<String>,
    ) -> (log: Self)
        ensures
            log.id == id,
            log.started_at_ms == now_ms,
            just_started(log, stt_provider, stt_model),
    {
        RequestLog {
            id,
            started_at_ms: now_ms,
            completed_at_ms: None,
            stt_provider,
            stt_model,
            llm_provider: None,
            llm_model: None,
            audio_duration_ms: None,
            audio_size_bytes: None,
            sample_rate: None,
            raw_transcript: None,
            formatted_transcript: None,
            status: RequestStatus::InProgress,
            error_message: None,
            entries: Vec::new(),
            total_duration_ms: None,
            stt_duration_ms: None,
            llm_duration_ms: None,
        }
    }

    /// Create a new request log: a fresh id, started now.
    pub fn new(stt_provider: String, stt_model: Option<String>) -> (log: Self)
        ensures
            just_started(log, stt_provider, stt_model),
            safe_request_id(encode_utf8(log.id@)),
    {
        let id = fresh_request_id();
        RequestLog::started(id, current_time_millis(), stt_provider, stt_model)
    }

    /// Add a log entry made at `now_ms`.
    pub fn log_at(
        &mut self,
        now_ms: i64,
        level: LogLevel,
        message: String,
        details: Option<String>,
    )
        ensures
            entry_added(*old(self), *final(self), level, message, details),
            final(self).entries@.last().timestamp_ms == now_ms,
    {
        self.entries.push(LogEntry { timestamp_ms: now_ms, level, message, details });
        assert(self.entries@.drop_last() =~= old(self).entries@);
    }

    /// Add a log entry, made now.
    pub fn log(&mut self, level: LogLevel, message: String, details: Option<String>)
        ensures
            entry_added(*old(self), *final(self), level, message, details),
    {
        self.log_at(current_time_millis(), level, message, details);
    }

    /// Log a debug message.
    pub fn debug(&mut self, message: String)
        ensures
            entry_added(*old(self), *final(self), LogLevel::Debug, message, None),
    {
        self.log(LogLevel::Debug, message, None);
    }

    /// Log an info message.
    pub fn info(&mut self, message: String)
        ensures
            entry_added(*old(self), *final(self), LogLevel::Info, message, None),
    {
        self.log(LogLevel::Info, message, None);
    }

    /// Log a warning message.
    pub fn warn(&mut self, message: String)
        ensures
            entry_added(*old(self), *final(self), LogLevel::Warn, message, None),
    {
        self.log(LogLevel::Warn, message, None);
    }

    /// Log an error message.
    pub fn error(&mut self, message: String)
        ensures
            entry_added(*old(self), *final(self), LogLevel::Error, message, None),
    {
        self.log(LogLevel::Error, message, None);
    }

    /// Log an info message with details.
    pub fn info_with_details(&mut self, message: String, details: String)
        ensures
            entry_added(*old(self), *final(self), LogLevel::Info, message, Some(details)),
    {
        self.log(LogLevel::Info, message, Some(details));
    }

    /// Mark the request as complete at `now_ms` with the given status and
    /// error message.
    pub fn complete_at(&mut self, now_ms: i64, status: RequestStatus, error_message: Option<String>)
        ensures
            completed(*old(self), *final(self), status, error_message),
            final(self).completed_at_ms == Some(now_ms),
    {
        let span: i128 = now_ms as i128 - self.started_at_ms as i128;
        let total: u64 = if span >= 0 {
            span as u64
        } else {
            (span + 0x1_0000_0000_0000_0000) as u64
        };
        self.completed_at_ms = Some(now_ms);
        self.status = status;
        self.error_message = error_message;
        self.total_duration_ms = Some(total);
    }

    /// Mark the request as complete with success.
    pub fn complete_success(&mut self)
        ensures
            completed(
                *old(self),
                *final(self),
                RequestStatus::Success,
                old(self).error_message,
            ),
    {
        let kept = self.error_message.take();
        self.complete_at(current_time_millis(), RequestStatus::Success, kept);
    }

    /// Mark the request as complete with an error.
    pub fn complete_error(&mut self, error: String)
        ensures
            completed(*old(self), *final(self), RequestStatus::Error, Some(error)),
    {
        self.complete_at(current_time_millis(), RequestStatus::Error, Some(error));
    }

    /// Mark the request as cancelled.
    pub fn complete_cancelled(&mut self)
        ensures
            completed(
                *old(self),
                *final(self),
                RequestStatus::Cancelled,
                old(self).error_message,
            ),
    {
        let kept = self.error_message.take();
        self.complete_at(current_time_millis(), RequestStatus::Cancelled, kept);
    }
}

/// The request logs kept in memory: the finished ones, oldest first and at
/// most `MAX_LOGS`, and the one in progress.
pub struct RequestLogStore {
    logs: VecDeque<RequestLog>,
    current: Option<RequestLog>,
}

impl RequestLogStore {
    /// The stored logs, oldest first.
    pub closed spec fn stored(&self) -> Seq<RequestLog> {
        self.logs@
    }

    /// The request in progress, if any.
    pub closed spec fn spec_current(&self) -> Option<RequestLog> {
        self.current
    }

    /// All logs, oldest first: the stored ones, then the current one.
    pub open spec fn all(&self) -> Seq<RequestLog> {
        match self.spec_current() {
            Some(log) => self.stored().push(log),
            None => self.stored(),
        }
    }

    /// The store's invariant: at most `MAX_LOGS` stored logs.
    pub open spec fn well_formed(&self) -> bool {
        self.stored().len() <= MAX_LOGS
    }

    /// Create a new, empty log store.
    pub fn new() -> (store: Self)
        ensures
            store.well_formed(),
            store.stored() == Seq::<RequestLog>::empty(),
            store.spec_current() is None,
    {
        RequestLogStore { logs: VecDeque::new(), current: None }
    }

    /// Store a completed log, dropping the oldest if the store is full.
    fn store_log(&mut self, log: RequestLog)
        requires
            old(self).well_formed(),
        ensures
            final(self).well_formed(),
            final(self).stored() == push_bounded(old(self).stored(), log),
            final(self).spec_current() == old(self).spec_current(),
    {
        if store_is_full(self.logs.len()) {
            let _ = self.logs.pop_front();
        }
        self.logs.push_back(log);
        assert(self.logs@ =~= push_bounded(old(self).logs@, log));
    }

    /// Start a new request log and return its id. A request that was still
    /// current is stored first, as cancelled if it was in progress.
    pub fn start_request(&mut self, stt_provider: String, stt_model: Option<String>) -> (id:
        String)
        requires
            old(self).well_formed(),
        ensures
            final(self).well_formed(),
            final(self).spec_current() matches Some(log) && log.id == id && just_started(
                log,
                stt_provider,
                stt_model,
            ) && safe_request_id(encode_utf8(id@)),
            match old(self).spec_current() {
                None => final(self).stored() == old(self).stored(),
                Some(previous) => final(self).stored().len() > 0 && finalized(
                    previous,
                    final(self).stored().last(),
                ) && final(self).stored() == push_bounded(
                    old(self).stored(),
                    final(self).stored().last(),
                ),
            },
    {
        match self.current.take() {
            Some(existing) => {
                let mut existing = existing;
                if existing.status == RequestStatus::InProgress {
                    existing.complete_cancelled();
                }
                self.store_log(existing);
            },
            None => {},
        }
        let log = RequestLog::new(stt_provider, stt_model);
        let id = log.id.clone();
        self.current = Some(log);
        id
    }

    /// Take the current request out of the store, to work on it.
    pub fn take_current(&mut self) -> (log: Option<RequestLog>)
        ensures
            log == old(self).spec_current(),
            final(self).spec_current() is None,
            final(self).stored() == old(self).stored(),
    {
        self.current.take()
    }

    /// Put a request in as the current one, replacing any other.
    pub fn set_current(&mut self, log: RequestLog)
        ensures
            final(self).spec_current() == Some(log),
            final(self).stored() == old(self).stored(),
    {
        self.current = Some(log);
    }

    /// Complete the current request and store it.
    pub fn complete_current(&mut self)
        requires
            old(self).well_formed(),
        ensures
            final(self).well_formed(),
            final(self).spec_current() is None,
            final(self).stored() == match old(self).spec_current() {
                Some(log) => push_bounded(old(self).stored(), log),
                None => old(self).stored(),
            },
    {
        match self.current.take() {
            Some(log) => {
                self.store_log(log);
            },
            None => {},
        }
    }

    /// Get the logs, most recent first (the current request before the
    /// stored ones), at most `limit` of them.
    pub fn get_logs(&self, limit: Option<usize>) -> (logs: Vec<&RequestLog>)
        requires
            self.well_formed(),
        ensures
            logs@.len() == recent_first(self.all().len(), limit).len(),
            forall|i: int|
                0 <= i < logs@.len() ==> *#[trigger] logs@[i] == self.all()[self.all().len() - 1
                    - i],
    {
        let stored: usize = self.logs.len();
        let count: usize = match &self.current {
            Some(_) => stored + 1,
            None => stored,
        };
        let order = logs_to_show(count, limit);
        let mut logs: Vec<&RequestLog> = Vec::new();
        let mut i: usize = 0;
        while i < order.len()
            invariant
                i <= order@.len(),
                stored == self.logs@.len(),
                count == self.all().len(),
                order@.len() == recent_first(count as nat, limit).len(),
                forall|j: int|
                    0 <= j < order@.len() ==> order@[j] == #[trigger] recent_first(
                        count as nat,
                        limit,
                    )[j],
                logs@.len() == i,
                forall|j: int|
                    0 <= j < i ==> *#[trigger] logs@[j] == self.all()[self.all().len() - 1 - j],
            decreases order@.len() - i,
        {
            let at: usize = order[i];
            assert(at == recent_first(count as nat, limit)[i as int]);
            if at < stored {
                logs.push(&self.logs[at]);
            } else {
                match &self.current {
                    Some(log) => {
                        logs.push(log);
                    },
                    None => {},
                }
            }
            i = i + 1;
        }
        logs
    }

    /// Clear the stored logs. The current request stays.
    pub fn clear(&mut self)
        ensures
            final(self).well_formed(),
            final(self).stored() == Seq::<RequestLog>::empty(),
            final(self).spec_current() == old(self).spec_current(),
    {
        self.logs.clear();
    }
}

} // verus!
