//! The record of errors that occurred: their history, bounded in length,
//! and counts by type and severity.

use std::time::SystemTime;
use vstd::prelude::*;
use vstd::string::StringExecFns;

use crate::error::{ErrorSeverity, RecoveryAction, RustPodsError, MAX_ERROR_HISTORY};
use crate::keyed::{
    assoc_keys, assoc_map, key_position, key_views, keyed_map, lemma_assoc_at, lemma_assoc_push,
    lemma_assoc_update, lemma_keyed_at, lemma_keyed_push, lemma_keyed_update,
};
use crate::text::{concat2, concat3};
use crate::time::system_now;

verus! {

/// Calls `SystemTime::clone`; the copy is the same time.
fn clone_time(t: &SystemTime) -> (c: SystemTime)
    ensures
        c == *t,
{
    t.clone()
}

/// Error context to enrich error information
#[derive(Debug)]
pub struct ErrorContext {
    /// Component where the error occurred
    pub component: String,
    /// Operation being performed when error occurred
    pub operation: String,
    /// Additional metadata about the error, each key once
    pub metadata: Vec<(String, String)>,
    /// Time when the error occurred
    pub timestamp: SystemTime,
    /// User-friendly message
    pub user_message: Option<String>,
}

/// The text of each metadata entry, `key=value`, joined by commas.
pub open spec fn metadata_text(m: Seq<(String, String)>) -> Seq<char>
    decreases m.len(),
{
    if m.len() == 0 {
        Seq::empty()
    } else if m.len() == 1 {
        m[0].0@ + "="@ + m[0].1@
    } else {
        metadata_text(m.drop_last()) + ", "@ + m.last().0@ + "="@ + m.last().1@
    }
}

impl ErrorContext {
    /// Each metadata key occurs once.
    pub open spec fn wf(&self) -> bool {
        key_views(self.metadata@).no_duplicates()
    }

    /// The metadata as a map from key to value.
    pub open spec fn spec_metadata(&self) -> Map<Seq<char>, Seq<char>> {
        keyed_map(self.metadata@).map_values(|v: String| v@)
    }

    /// Create a new error context, at the current time
    pub fn new(component: &str, operation: &str) -> (c: Self)
        ensures
            c.wf(),
            c.component@ == component@,
            c.operation@ == operation@,
            c.metadata@.len() == 0,
            c.user_message is None,
    {
        ErrorContext {
            component: String::from_str(component),
            operation: String::from_str(operation),
            metadata: Vec::new(),
            timestamp: system_now(),
            user_message: None,
        }
    }

    /// Add metadata to the context (a key already present takes the new value)
    pub fn with_metadata(self, key: &str, value: &str) -> (c: Self)
        requires
            self.wf(),
        ensures
            c.wf(),
            c.spec_metadata() == self.spec_metadata().insert(key@, value@),
            c.component == self.component,
            c.operation == self.operation,
            c.timestamp == self.timestamp,
            c.user_message == self.user_message,
    {
        let mut c = self;
        let ghost h = c.metadata@;
        let entry = (String::from_str(key), String::from_str(value));
        match key_position(&c.metadata, key) {
            Some(i) => {
                proof {
                    lemma_keyed_update(h, i as int, entry);
                }
                c.metadata.set(i, entry);
            },
            None => {
                proof {
                    lemma_keyed_push(h, entry);
                }
                c.metadata.push(entry);
            },
        }
        assert(keyed_map(c.metadata@).map_values(|v: String| v@) =~= keyed_map(h).map_values(
            |v: String| v@,
        ).insert(key@, value@));
        c
    }

    /// Add a user-friendly message
    pub fn with_user_message(self, message: &str) -> (c: Self)
        ensures
            c.user_message matches Some(m) && m@ == message@,
            c.component == self.component,
            c.operation == self.operation,
            c.metadata == self.metadata,
            c.timestamp == self.timestamp,
    {
        let mut c = self;
        c.user_message = Some(String::from_str(message));
        c
    }

    /// The value of a metadata key
    pub fn get_metadata(&self, key: &str) -> (r: Option<&String>)
        requires
            self.wf(),
        ensures
            match r {
                Some(v) => self.spec_metadata().dom().contains(key@) && v@
                    == self.spec_metadata()[key@],
                None => !self.spec_metadata().dom().contains(key@),
            },
    {
        match key_position(&self.metadata, key) {
            Some(i) => {
                proof {
                    lemma_keyed_at(self.metadata@, i as int);
                }
                Some(&self.metadata[i].1)
            },
            None => None,
        }
    }

    /// The text that prefixes log lines: `[component:operation] `, then the
    /// metadata in parentheses when there is any
    pub fn to_text(&self) -> (s: String)
        ensures
            s@ == "["@ + self.component@ + ":"@ + self.operation@ + "] "@ + (
            if self.metadata@.len() == 0 {
                Seq::empty()
            } else {
                "("@ + metadata_text(self.metadata@) + ") "@
            }),
    {
        let mut s = concat3("[", self.component.as_str(), ":");
        s.append(self.operation.as_str());
        s.append("] ");
        if self.metadata.len() > 0 {
            let ghost prefix = s@;
            s.append("(");
            for i in 0..self.metadata.len()
                invariant
                    s@ == prefix + "("@ + metadata_text(self.metadata@.take(i as int)),
            {
                assert(self.metadata@.take(i + 1).drop_last() =~= self.metadata@.take(i as int));
                if i > 0 {
                    s.append(", ");
                }
                s.append(self.metadata[i].0.as_str());
                s.append("=");
                s.append(self.metadata[i].1.as_str());
                proof {
                    if i == 0 {
                        assert(metadata_text(self.metadata@.take(0)) =~= Seq::<char>::empty());
                    }
                }
                assert(s@ =~= prefix + "("@ + metadata_text(self.metadata@.take(i + 1)));
            }
            assert(self.metadata@.take(self.metadata.len() as int) =~= self.metadata@);
            s.append(") ");
        }
        s
    }

    /// A copy of the context
    pub fn duplicate(&self) -> (c: Self)
        ensures
            c.component == self.component,
            c.operation == self.operation,
            c.metadata@ == self.metadata@,
            c.user_message == self.user_message,
    {
        let mut metadata: Vec<(String, String)> = Vec::new();
        for i in 0..self.metadata.len()
            invariant
                metadata@ == self.metadata@.take(i as int),
        {
            metadata.push((self.metadata[i].0.clone(), self.metadata[i].1.clone()));
            assert(metadata@ =~= self.metadata@.take(i + 1));
        }
        assert(self.metadata@.take(self.metadata.len() as int) =~= self.metadata@);
        ErrorContext {
            component: self.component.clone(),
            operation: self.operation.clone(),
            metadata,
            timestamp: clone_time(&self.timestamp),
            user_message: match &self.user_message {
                Some(m) => Some(m.clone()),
                None => None,
            },
        }
    }
}

/// Entry in the error history
#[derive(Debug)]
pub struct ErrorEntry {
    /// The error type as a string
    pub error_type: String,
    /// The error message
    pub error_message: String,
    /// When the error occurred
    pub timestamp: SystemTime,
    /// Context information about the error
    pub context: Option<ErrorContext>,
    /// Recovery action attempted
    pub recovery: Option<RecoveryAction>,
}

/// Error record of the detailed history
#[derive(Debug)]
pub struct ErrorRecord {
    /// Error type as string
    pub error_type: String,
    /// Error message
    pub error_message: String,
    /// Severity of the error
    pub severity: ErrorSeverity,
    /// Timestamp when the error occurred
    pub timestamp: SystemTime,
    /// Component where the error occurred
    pub component: String,
    /// Recovery action to take
    pub recovery_action: RecoveryAction,
    /// Context information
    pub context: Option<ErrorContext>,
}

/// Error statistics
#[derive(Debug)]
pub struct ErrorStats {
    /// Total number of errors
    pub total: usize,
    /// Errors by severity, each severity once
    pub by_severity: Vec<(ErrorSeverity, usize)>,
    /// Errors by type, each type once
    pub by_type: Vec<(String, usize)>,
    /// First error timestamp
    pub first_error: Option<SystemTime>,
    /// Last error timestamp
    pub last_error: Option<SystemTime>,
    /// Total errors count
    pub total_errors: usize,
    /// Bluetooth specific errors
    pub bluetooth_errors: usize,
    /// AirPods specific errors
    pub airpods_errors: usize,
    /// UI related errors
    pub ui_errors: usize,
    /// Configuration errors
    pub config_errors: usize,
    /// Application errors
    pub app_errors: usize,
    /// Device errors
    pub device_errors: usize,
    /// Battery errors
    pub battery_errors: usize,
    /// System errors
    pub system_errors: usize,
    /// Persistence errors
    pub persistence_errors: usize,
    /// Lifecycle errors
    pub lifecycle_errors: usize,
    /// Critical errors
    pub critical_errors: usize,
    /// Error level errors
    pub error_level_errors: usize,
    /// Recoverable errors
    pub recoverable_errors: usize,
    /// Warnings
    pub warnings: usize,
}

impl ErrorStats {
    /// The errors counted for each type.
    pub open spec fn spec_by_type(&self) -> Map<Seq<char>, usize> {
        keyed_map(self.by_type@)
    }

    /// The errors counted for each severity.
    pub open spec fn spec_by_severity(&self) -> Map<ErrorSeverity, usize> {
        assoc_map(self.by_severity@)
    }

    /// Each key once, and no count above the total.
    pub open spec fn wf(&self) -> bool {
        &&& key_views(self.by_type@).no_duplicates()
        &&& assoc_keys(self.by_severity@).no_duplicates()
        &&& forall|i: int| 0 <= i < self.by_type@.len() ==> (#[trigger] self.by_type@[i]).1 <= self.total
        &&& forall|i: int|
            0 <= i < self.by_severity@.len() ==> (#[trigger] self.by_severity@[i]).1 <= self.total
    }

    /// The errors counted for a type
    pub fn type_count(&self, error_type: &str) -> (n: usize)
        requires
            self.wf(),
        ensures
            n == (if self.spec_by_type().dom().contains(error_type@) {
                self.spec_by_type()[error_type@]
            } else {
                0
            }),
    {
        match key_position(&self.by_type, error_type) {
            Some(i) => {
                proof {
                    lemma_keyed_at(self.by_type@, i as int);
                }
                self.by_type[i].1
            },
            None => 0,
        }
    }

    /// The errors counted for a severity
    pub fn severity_count(&self, severity: ErrorSeverity) -> (n: usize)
        requires
            self.wf(),
        ensures
            n == (if self.spec_by_severity().dom().contains(severity) {
                self.spec_by_severity()[severity]
            } else {
                0
            }),
    {
        match severity_position(&self.by_severity, severity) {
            Some(i) => {
                proof {
                    lemma_assoc_at(self.by_severity@, i as int);
                }
                self.by_severity[i].1
            },
            None => 0,
        }
    }

    /// A copy of the statistics
    pub fn duplicate(&self) -> (c: Self)
        ensures
            c.total == self.total,
            c.by_severity@ == self.by_severity@,
            c.by_type@ == self.by_type@,
            c.first_error is Some == self.first_error is Some,
            c.last_error is Some == self.last_error is Some,
    {
        let mut by_type: Vec<(String, usize)> = Vec::new();
        for i in 0..self.by_type.len()
            invariant
                by_type@ == self.by_type@.take(i as int),
        {
            by_type.push((self.by_type[i].0.clone(), self.by_type[i].1));
            assert(by_type@ =~= self.by_type@.take(i + 1));
        }
        assert(self.by_type@.take(self.by_type.len() as int) =~= self.by_type@);
        let mut by_severity: Vec<(ErrorSeverity, usize)> = Vec::new();
        for i in 0..self.by_severity.len()
            invariant
                by_severity@ == self.by_severity@.take(i as int),
        {
            by_severity.push(self.by_severity[i]);
            assert(by_severity@ =~= self.by_severity@.take(i + 1));
        }
        assert(self.by_severity@.take(self.by_severity.len() as int) =~= self.by_severity@);
        ErrorStats {
            total: self.total,
            by_severity,
            by_type,
            first_error: match &self.first_error {
                Some(t) => Some(clone_time(t)),
                None => None,
            },
            last_error: match &self.last_error {
                Some(t) => Some(clone_time(t)),
                None => None,
            },
            total_errors: self.total_errors,
            bluetooth_errors: self.bluetooth_errors,
            airpods_errors: self.airpods_errors,
            ui_errors: self.ui_errors,
            config_errors: self.config_errors,
            app_errors: self.app_errors,
            device_errors: self.device_errors,
            battery_errors: self.battery_errors,
            system_errors: self.system_errors,
            persistence_errors: self.persistence_errors,
            lifecycle_errors: self.lifecycle_errors,
            critical_errors: self.critical_errors,
            error_level_errors: self.error_level_errors,
            recoverable_errors: self.recoverable_errors,
            warnings: self.warnings,
        }
    }
}

impl Default for ErrorStats {
    fn default() -> (s: Self)
        ensures
            s.wf(),
            s.total == 0,
            s.by_severity@.len() == 0,
            s.by_type@.len() == 0,
            s.first_error is None,
            s.last_error is None,
    {
        ErrorStats {
            total: 0,
            by_severity: Vec::new(),
            by_type: Vec::new(),
            first_error: None,
            last_error: None,
            total_errors: 0,
            bluetooth_errors: 0,
            airpods_errors: 0,
            ui_errors: 0,
            config_errors: 0,
            app_errors: 0,
            device_errors: 0,
            battery_errors: 0,
            system_errors: 0,
            persistence_errors: 0,
            lifecycle_errors: 0,
            critical_errors: 0,
            error_level_errors: 0,
            recoverable_errors: 0,
            warnings: 0,
        }
    }
}

fn severity_position(h: &Vec<(ErrorSeverity, usize)>, s: ErrorSeverity) -> (r: Option<usize>)
    ensures
        match r {
            Some(i) => i < h@.len() && assoc_keys(h@)[i as int] == s,
            None => !assoc_keys(h@).contains(s),
        },
{
    for i in 0..h.len()
        invariant
            forall|k: int| 0 <= k < i ==> assoc_keys(h@)[k] != s,
    {
        if h[i].0 == s {
            return Some(i);
        }
    }
    None
}

/// The count after one more error.
pub open spec fn bumped<K>(m: Map<K, usize>, k: K) -> Map<K, usize> {
    m.insert(
        k,
        (if m.dom().contains(k) {
            m[k] + 1
        } else {
            1
        }) as usize,
    )
}

/// The type under which the history records an error.
pub open spec fn spec_history_type(e: RustPodsError) -> Seq<char> {
    match e {
        RustPodsError::Bluetooth(_) => "bluetooth"@,
        RustPodsError::BluetoothApiError(_) => "bluetooth_api"@,
        RustPodsError::AirPods(_) => "airpods"@,
        RustPodsError::Ui(..) => "ui"@,
        RustPodsError::UiError => "ui"@,
        RustPodsError::Config(_) => "config"@,
        RustPodsError::ConfigError(_) => "config"@,
        RustPodsError::Application(_) => "application"@,
        RustPodsError::DeviceNotFound => "device"@,
        RustPodsError::Device(_) => "device"@,
        RustPodsError::BatteryMonitor(_) => "battery"@,
        RustPodsError::BatteryMonitorError(_) => "battery"@,
        RustPodsError::State(_) => "state"@,
        RustPodsError::StatePersistence(_) => "state"@,
        RustPodsError::Lifecycle(_) => "lifecycle"@,
        RustPodsError::System(..) => "system"@,
        RustPodsError::General(_) => "general"@,
        RustPodsError::IoError(_) => "file_io"@,
        RustPodsError::ParseError(_) => "json"@,
        RustPodsError::Path(_) => "path"@,
        RustPodsError::FileNotFound(_) => "file_not_found"@,
        RustPodsError::PermissionDenied(_) => "permission_denied"@,
        RustPodsError::Validation(_) => "validation"@,
        RustPodsError::Parse(_) => "parse"@,
        RustPodsError::Timeout(_) => "timeout"@,
        RustPodsError::Context { .. } => "context"@,
        RustPodsError::InvalidData(_) => "invalid_data"@,
        RustPodsError::BluetoothError(_) => "bluetooth_error"@,
    }
}

/// The type under which the history records an error
pub fn history_type(e: &RustPodsError) -> (s: &'static str)
    ensures
        s@ == spec_history_type(*e),
{
    match e {
        RustPodsError::Bluetooth(_) => "bluetooth",
        RustPodsError::BluetoothApiError(_) => "bluetooth_api",
        RustPodsError::AirPods(_) => "airpods",
        RustPodsError::Ui(..) => "ui",
        RustPodsError::UiError => "ui",
        RustPodsError::Config(_) => "config",
        RustPodsError::ConfigError(_) => "config",
        RustPodsError::Application(_) => "application",
        RustPodsError::DeviceNotFound => "device",
        RustPodsError::Device(_) => "device",
        RustPodsError::BatteryMonitor(_) => "battery",
        RustPodsError::BatteryMonitorError(_) => "battery",
        RustPodsError::State(_) => "state",
        RustPodsError::StatePersistence(_) => "state",
        RustPodsError::Lifecycle(_) => "lifecycle",
        RustPodsError::System(..) => "system",
        RustPodsError::General(_) => "general",
        RustPodsError::IoError(_) => "file_io",
        RustPodsError::ParseError(_) => "json",
        RustPodsError::Path(_) => "path",
        RustPodsError::FileNotFound(_) => "file_not_found",
        RustPodsError::PermissionDenied(_) => "permission_denied",
        RustPodsError::Validation(_) => "validation",
        RustPodsError::Parse(_) => "parse",
        RustPodsError::Timeout(_) => "timeout",
        RustPodsError::Context { .. } => "context",
        RustPodsError::InvalidData(_) => "invalid_data",
        RustPodsError::BluetoothError(_) => "bluetooth_error",
    }
}

/// A list after one more item is kept: the oldest goes when there are more
/// than the maximum.
pub open spec fn kept_last<T>(h: Seq<T>, x: T) -> Seq<T> {
    if h.push(x).len() > MAX_ERROR_HISTORY {
        h.push(x).drop_first()
    } else {
        h.push(x)
    }
}

/// Error manager for tracking and reporting errors
#[derive(Debug)]
pub struct ErrorManager {
    history: Vec<ErrorEntry>,
    stats: ErrorStats,
    detailed_history: Vec<ErrorRecord>,
}

impl ErrorManager {
    /// The history of errors, oldest first.
    pub closed spec fn spec_history(&self) -> Seq<ErrorEntry> {
        self.history@
    }

    /// The detailed history of errors, oldest first.
    pub closed spec fn spec_detailed(&self) -> Seq<ErrorRecord> {
        self.detailed_history@
    }

    /// The statistics.
    pub closed spec fn spec_stats(&self) -> ErrorStats {
        self.stats
    }

    /// The histories hold at most the maximum number of errors, and the
    /// statistics are consistent.
    pub open spec fn wf(&self) -> bool {
        &&& self.spec_history().len() <= MAX_ERROR_HISTORY
        &&& self.spec_detailed().len() <= MAX_ERROR_HISTORY
        &&& self.spec_stats().wf()
    }

    /// The message of the most recent error.
    pub open spec fn spec_latest_error(&self) -> Option<Seq<char>> {
        if self.spec_history().len() == 0 {
            None
        } else {
            Some(self.spec_history().last().error_message@)
        }
    }

    /// Create a new ErrorManager
    pub fn new() -> (m: Self)
        ensures
            m.wf(),
            m.spec_history().len() == 0,
            m.spec_detailed().len() == 0,
            m.spec_stats().total == 0,
            m.spec_stats().by_type@.len() == 0,
            m.spec_stats().by_severity@.len() == 0,
    {
        ErrorManager { history: Vec::new(), stats: ErrorStats::default(), detailed_history: Vec::new() }
    }

    fn count_error(&mut self, error_type: &str, severity: ErrorSeverity)
        requires
            old(self).spec_stats().wf(),
            old(self).spec_stats().total < usize::MAX,
        ensures
            final(self).spec_stats().wf(),
            final(self).spec_stats().total == old(self).spec_stats().total + 1,
            final(self).spec_stats().spec_by_type() == bumped(
                old(self).spec_stats().spec_by_type(),
                error_type@,
            ),
            final(self).spec_stats().spec_by_severity() == bumped(
                old(self).spec_stats().spec_by_severity(),
                severity,
            ),
            final(self).spec_stats().last_error is Some,
            old(self).spec_stats().first_error is Some ==> final(self).spec_stats().first_error
                == old(self).spec_stats().first_error,
            final(self).spec_stats().first_error is Some,
            final(self).history == old(self).history,
            final(self).detailed_history == old(self).detailed_history,
    {
        let ghost t0 = self.stats.total;
        self.stats.total = self.stats.total + 1;
        let ghost h = self.stats.by_type@;
        match key_position(&self.stats.by_type, error_type) {
            Some(i) => {
                let n = self.stats.by_type[i].1;
                assert(h[i as int].1 <= t0);
                let entry = (String::from_str(error_type), n + 1);
                proof {
                    lemma_keyed_at(h, i as int);
                    lemma_keyed_update(h, i as int, entry);
                }
                self.stats.by_type.set(i, entry);
            },
            None => {
                let entry = (String::from_str(error_type), 1usize);
                proof {
                    lemma_keyed_push(h, entry);
                }
                self.stats.by_type.push(entry);
            },
        }
        let ghost g = self.stats.by_severity@;
        match severity_position(&self.stats.by_severity, severity) {
            Some(i) => {
                let n = self.stats.by_severity[i].1;
                assert(g[i as int].1 <= t0);
                proof {
                    lemma_assoc_at(g, i as int);
                    lemma_assoc_update(g, i as int, (severity, (n + 1) as usize));
                }
                self.stats.by_severity.set(i, (severity, n + 1));
            },
            None => {
                proof {
                    lemma_assoc_push(g, (severity, 1usize));
                }
                self.stats.by_severity.push((severity, 1));
            },
        }
        let now = system_now();
        if self.stats.first_error.is_none() {
            self.stats.first_error = Some(clone_time(&now));
        }
        self.stats.last_error = Some(now);
    }

    /// Add an error to the history (it takes the error's own recovery action)
    /// and count it
    pub fn add_to_history(&mut self, error: &RustPodsError)
        requires
            old(self).wf(),
            old(self).spec_stats().total < usize::MAX,
        ensures
            final(self).wf(),
            final(self).spec_stats().total == old(self).spec_stats().total + 1,
            final(self).spec_stats().spec_by_type() == bumped(
                old(self).spec_stats().spec_by_type(),
                spec_history_type(*error),
            ),
            final(self).spec_stats().spec_by_severity() == bumped(
                old(self).spec_stats().spec_by_severity(),
                error.spec_severity(),
            ),
            final(self).spec_history().len() == kept_last(
                old(self).spec_history(),
                final(self).spec_history().last(),
            ).len(),
            final(self).spec_history() == kept_last(
                old(self).spec_history(),
                final(self).spec_history().last(),
            ),
            final(self).spec_history().last().error_type@ == spec_history_type(*error),
            final(self).spec_history().last().error_message@ == error.spec_text(),
            final(self).spec_history().last().context is None,
            final(self).spec_history().last().recovery == Some(error.spec_recovery_action()),
            final(self).spec_latest_error() == Some(error.spec_text()),
            final(self).spec_detailed() == old(self).spec_detailed(),
    {
        let error_type = history_type(error);
        self.count_error(error_type, error.severity());
        let entry = ErrorEntry {
            error_type: String::from_str(error_type),
            error_message: error.to_text(),
            timestamp: system_now(),
            context: None,
            recovery: Some(error.recovery_action()),
        };
        self.history.push(entry);
        if self.history.len() > MAX_ERROR_HISTORY {
            self.history.remove(0);
        }
    }

    /// Record an error with its context and the recovery action to take: it
    /// enters both histories and is counted
    pub fn record_error_with_context(
        &mut self,
        error: RustPodsError,
        context: ErrorContext,
        recovery_action: RecoveryAction,
    )
        requires
            old(self).wf(),
            old(self).spec_stats().total < usize::MAX,
        ensures
            final(self).wf(),
            final(self).spec_stats().total == old(self).spec_stats().total + 1,
            final(self).spec_stats().spec_by_type() == bumped(
                old(self).spec_stats().spec_by_type(),
                spec_history_type(error),
            ),
            final(self).spec_stats().spec_by_severity() == bumped(
                old(self).spec_stats().spec_by_severity(),
                error.spec_severity(),
            ),
            final(self).spec_history() == kept_last(
                old(self).spec_history(),
                final(self).spec_history().last(),
            ),
            final(self).spec_history().last().error_type@ == spec_history_type(error),
            final(self).spec_history().last().error_message@ == error.spec_text(),
            final(self).spec_history().last().context is Some,
            final(self).spec_history().last().recovery == Some(recovery_action),
            final(self).spec_latest_error() == Some(error.spec_text()),
            final(self).spec_detailed() == kept_last(
                old(self).spec_detailed(),
                final(self).spec_detailed().last(),
            ),
            final(self).spec_detailed().last().error_type@ == spec_history_type(error),
            final(self).spec_detailed().last().error_message@ == error.spec_text(),
            final(self).spec_detailed().last().severity == error.spec_severity(),
            final(self).spec_detailed().last().component == context.component,
            final(self).spec_detailed().last().recovery_action == recovery_action,
    {
        let error_type = history_type(&error);
        let severity = error.severity();
        self.count_error(error_type, severity);
        let now = system_now();
        let message = error.to_text();
        let entry = ErrorEntry {
            error_type: String::from_str(error_type),
            error_message: message.clone(),
            timestamp: clone_time(&now),
            context: Some(context.duplicate()),
            recovery: Some(recovery_action.duplicate()),
        };
        let record = ErrorRecord {
            error_type: String::from_str(error_type),
            error_message: message,
            severity,
            timestamp: now,
            component: context.component.clone(),
            recovery_action,
            context: Some(context),
        };
        self.history.push(entry);
        if self.history.len() > MAX_ERROR_HISTORY {
            self.history.remove(0);
        }
        self.detailed_history.push(record);
        if self.detailed_history.len() > MAX_ERROR_HISTORY {
            self.detailed_history.remove(0);
        }
    }

    /// Record an error
    pub fn record_error(&mut self, error: &RustPodsError)
        requires
            old(self).wf(),
            old(self).spec_stats().total < usize::MAX,
        ensures
            final(self).wf(),
            final(self).spec_stats().total == old(self).spec_stats().total + 1,
            final(self).spec_history() == kept_last(
                old(self).spec_history(),
                final(self).spec_history().last(),
            ),
            final(self).spec_latest_error() == Some(error.spec_text()),
    {
        self.add_to_history(error);
    }

    /// Get error history
    pub fn get_error_history(&self) -> (h: &Vec<ErrorEntry>)
        ensures
            h@ == self.spec_history(),
    {
        &self.history
    }

    /// Get error statistics
    pub fn get_stats(&self) -> (s: ErrorStats)
        ensures
            s.total == self.spec_stats().total,
            s.by_type@ == self.spec_stats().by_type@,
            s.by_severity@ == self.spec_stats().by_severity@,
    {
        self.stats.duplicate()
    }

    /// Clear error history (the statistics stay)
    pub fn clear_history(&mut self)
        requires
            old(self).wf(),
        ensures
            final(self).wf(),
            final(self).spec_history().len() == 0,
            final(self).spec_detailed().len() == 0,
            final(self).spec_stats() == old(self).spec_stats(),
    {
        self.history.clear();
        self.detailed_history.clear();
    }

    /// Reset error statistics (the histories stay)
    pub fn reset_stats(&mut self)
        requires
            old(self).wf(),
        ensures
            final(self).wf(),
            final(self).spec_stats().total == 0,
            final(self).spec_stats().by_type@.len() == 0,
            final(self).spec_stats().by_severity@.len() == 0,
            final(self).spec_stats().first_error is None,
            final(self).spec_history() == old(self).spec_history(),
            final(self).spec_detailed() == old(self).spec_detailed(),
    {
        self.stats = ErrorStats::default();
    }

    /// Get detailed error history
    pub fn get_detailed_history(&self) -> (h: &Vec<ErrorRecord>)
        ensures
            h@ == self.spec_detailed(),
    {
        &self.detailed_history
    }

    /// Get the message of the most recent error
    pub fn get_latest_error(&self) -> (m: Option<String>)
        ensures
            match self.spec_latest_error() {
                Some(t) => m matches Some(s) && s@ == t,
                None => m is None,
            },
    {
        let n = self.history.len();
        if n == 0 {
            None
        } else {
            Some(self.history[n - 1].error_message.clone())
        }
    }

    /// Get the most recent detailed error record
    pub fn get_latest_detailed_error(&self) -> (r: Option<&ErrorRecord>)
        ensures
            self.spec_detailed().len() == 0 ==> r is None,
            self.spec_detailed().len() > 0 ==> r == Some(&self.spec_detailed().last()),
    {
        let n = self.detailed_history.len();
        if n == 0 {
            None
        } else {
            Some(&self.detailed_history[n - 1])
        }
    }
}

impl Default for ErrorManager {
    fn default() -> (m: Self)
        ensures
            m.wf(),
            m.spec_history().len() == 0,
            m.spec_detailed().len() == 0,
            m.spec_stats().total == 0,
    {
        Self::new()
    }
}

} // verus!
