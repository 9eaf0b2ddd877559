//! The status line and its log: what kind of message is showing, how long it
//! stays, and which messages are kept for later inspection.

use vstd::prelude::*;

verus! {

/// How long a long-lived status stays on screen, in seconds.
pub const TTL_LONG: u64 = 10;

/// How long a short-lived status stays on screen, in seconds.
pub const TTL_SHORT: u64 = 2;

/// The sources an error shown in the status line can come from.
#[derive(Debug, Clone, Copy, PartialEq, Eq, Structural)]
pub enum ErrorType {
    Playback,
    Database,
    Update,
    Actix,
    Command,
    IO,
}

impl ErrorType {
    /// The label under which errors of this kind are announced.
    pub fn as_str(&self) -> (r: &'static str)
        ensures
            r@ == self.spec_label(),
    {
        match self {
            ErrorType::Playback => "Playback error",
            ErrorType::Database => "Internal erorr (database)",
            ErrorType::Update => "Update error",
            ErrorType::Actix => "Internal error",
            ErrorType::Command => "Invalid command",
            ErrorType::IO => "I/O error",
        }
    }

    pub open spec fn spec_label(&self) -> Seq<char> {
        match self {
            ErrorType::Playback => "Playback error"@,
            ErrorType::Database => "Internal erorr (database)"@,
            ErrorType::Update => "Update error"@,
            ErrorType::Actix => "Internal error"@,
            ErrorType::Command => "Invalid command"@,
            ErrorType::IO => "I/O error"@,
        }
    }

    /// How long an error of this kind stays on screen, in seconds; `None`
    /// keeps it until it is dismissed.
    pub fn ttl(&self) -> (r: Option<u64>)
        ensures
            r == self.spec_ttl(),
    {
        match self {
            ErrorType::Playback => Some(TTL_LONG),
            ErrorType::Database => None,
            ErrorType::Update => Some(TTL_SHORT),
            ErrorType::Actix => None,
            ErrorType::Command => Some(TTL_SHORT),
            ErrorType::IO => None,
        }
    }

    pub open spec fn spec_ttl(&self) -> Option<u64> {
        match self {
            ErrorType::Playback => Some(TTL_LONG),
            ErrorType::Database => None,
            ErrorType::Update => Some(TTL_SHORT),
            ErrorType::Actix => None,
            ErrorType::Command => Some(TTL_SHORT),
            ErrorType::IO => None,
        }
    }

    /// Whether an error of this kind is kept in the status log; a mistyped
    /// command is only shown, never kept.
    pub fn store_in_log(&self) -> (r: bool)
        ensures
            r == self.spec_store_in_log(),
    {
        match self {
            ErrorType::Playback => true,
            ErrorType::Database => true,
            ErrorType::Update => true,
            ErrorType::Actix => true,
            ErrorType::Command => false,
            ErrorType::IO => true,
        }
    }

    pub open spec fn spec_store_in_log(&self) -> bool {
        match self {
            ErrorType::Command => false,
            _ => true,
        }
    }
}

/// The weight of a status message.
#[derive(Debug, Clone, Copy, Hash, PartialEq, Eq, Structural)]
pub enum Severity {
    Error,
    Warning,
    Information,
}

impl Severity {
    /// All severities, from the weightiest down.
    pub fn enumerate() -> (r: Vec<Severity>)
        ensures
            r@ == seq![Severity::Error, Severity::Warning, Severity::Information],
    {
        let mut severities = Vec::new();
        severities.push(Severity::Error);
        severities.push(Severity::Warning);
        severities.push(Severity::Information);
        proof {
            assert(severities@ =~= seq![Severity::Error, Severity::Warning, Severity::Information]);
        }
        severities
    }
}

/// A free-form status message with a chosen severity and time to live.
#[derive(Debug, Clone, PartialEq, Eq)]
pub struct CustomStatus {
    pub text: String,
    pub severity: Severity,
    pub ttl: Option<u64>,
}

impl CustomStatus {
    /// A plain informational message that stays until dismissed.
    pub fn new(text: String) -> (r: CustomStatus)
        ensures
            r.text == text,
            r.severity == Severity::Information,
            r.ttl is None,
    {
        CustomStatus { text, severity: Severity::Information, ttl: None }
    }

    /// The same message under another severity.
    pub fn set_severity(self, severity: Severity) -> (r: CustomStatus)
        ensures
            r.text == self.text,
            r.severity == severity,
            r.ttl == self.ttl,
    {
        CustomStatus { severity, ..self }
    }

    /// The same message with another time to live, in seconds.
    pub fn set_ttl(self, ttl: Option<u64>) -> (r: CustomStatus)
        ensures
            r.text == self.text,
            r.severity == self.severity,
            r.ttl == ttl,
    {
        CustomStatus { ttl, ..self }
    }
}

/// What the status line can show: an error of a known kind with its message,
/// a free-form message, or the volume indicator (the cubic volume in percent,
/// absent when muted).
#[derive(Debug, Clone, PartialEq, Eq)]
pub enum Status {
    Error { error_type: ErrorType, message: String },
    Custom(CustomStatus),
    VolumeChanged(Option<u64>),
}

impl Status {
    /// An error status of the given kind.
    pub fn error(error_type: ErrorType, message: String) -> (r: Status)
        ensures
            r == (Status::Error { error_type, message }),
    {
        Status::Error { error_type, message }
    }

    pub open spec fn spec_severity(&self) -> Severity {
        match self {
            Status::Error { .. } => Severity::Error,
            Status::Custom(status) => status.severity,
            Status::VolumeChanged(_) => Severity::Information,
        }
    }

    pub fn severity(&self) -> (r: Severity)
        ensures
            r == self.spec_severity(),
    {
        match self {
            Status::Error { .. } => Severity::Error,
            Status::Custom(status) => status.severity,
            Status::VolumeChanged(_) => Severity::Information,
        }
    }

    pub open spec fn spec_ttl(&self) -> Option<u64> {
        match self {
            Status::Error { error_type, .. } => error_type.spec_ttl(),
            Status::Custom(custom) => custom.ttl,
            Status::VolumeChanged(_) => Some(TTL_SHORT),
        }
    }

    /// How long the status stays on screen, in seconds.
    pub fn ttl(&self) -> (r: Option<u64>)
        ensures
            r == self.spec_ttl(),
    {
        match self {
            Status::Error { error_type, .. } => error_type.ttl(),
            Status::Custom(custom) => custom.ttl,
            Status::VolumeChanged(_) => Some(TTL_SHORT),
        }
    }

    /// The label of the error kind, for error statuses.
    pub fn variant_label(&self) -> (r: Option<&'static str>)
        ensures
            match self {
                Status::Error { error_type, .. } => r matches Some(label) && label@
                    == error_type.spec_label(),
                _ => r is None,
            },
    {
        match self {
            Status::Error { error_type, .. } => Some(error_type.as_str()),
            _ => None,
        }
    }

    pub open spec fn spec_store_in_log(&self) -> bool {
        match self {
            Status::Error { error_type, .. } => error_type.spec_store_in_log(),
            Status::Custom(custom) => custom.severity == Severity::Error,
            Status::VolumeChanged(_) => false,
        }
    }

    fn store_in_log(&self) -> (r: bool)
        ensures
            r == self.spec_store_in_log(),
    {
        match self {
            Status::Error { error_type, .. } => error_type.store_in_log(),
            Status::Custom(custom) => matches!(custom.severity, Severity::Error),
            Status::VolumeChanged(_) => false,
        }
    }
}

impl From<CustomStatus> for Status {
    fn from(status: CustomStatus) -> (r: Status) {
        Status::Custom(status)
    }
}

impl vstd::std_specs::convert::FromSpecImpl<CustomStatus> for Status {
    open spec fn obeys_from_spec() -> bool {
        true
    }

    open spec fn from_spec(status: CustomStatus) -> Status {
        Status::Custom(status)
    }
}

/// Relies on std::time::SystemTime::now for the clock reading, and on
/// chrono::TimeDelta::from_std and TimeDelta::num_microseconds to render it
/// as microseconds since the Unix epoch. Every path here is panic-free:
/// both failure cases — a clock set before the epoch, or a span beyond the
/// unit's range — fall back to zero, so the call returns on every clock
/// state. Nothing is promised of the value: it depends on the clock.
#[verifier::external_body]
pub(crate) fn now_timestamp_micros() -> i64 {
    let since_epoch = match std::time::SystemTime::now().duration_since(std::time::UNIX_EPOCH) {
        Ok(since) => since,
        Err(_) => return 0,
    };
    match chrono::TimeDelta::from_std(since_epoch) {
        Ok(delta) => delta.num_microseconds().unwrap_or(0),
        Err(_) => 0,
    }
}

/// A kept status message and when it was pushed, as microseconds since the
/// Unix epoch.
#[derive(Debug, Clone, PartialEq, Eq)]
pub struct StatusLogEntry {
    pub status: Status,
    pub timestamp: i64,
}

impl StatusLogEntry {
    pub fn status(&self) -> (r: &Status)
        ensures
            *r == self.status,
    {
        &self.status
    }

    pub fn timestamp(&self) -> (r: i64)
        ensures
            r == self.timestamp,
    {
        self.timestamp
    }
}

/// What the status line is showing: the newest kept entry, a status that is
/// shown without being kept, or nothing.
#[derive(Debug, Clone, PartialEq, Eq)]
enum StatusDisplay {
    LastLog,
    DisplayOnly(Status),
    Nothing,
}

/// The kept status messages, newest last, and what the status line shows.
#[derive(Debug, Clone, PartialEq, Eq)]
pub struct StatusLog {
    log: Vec<StatusLogEntry>,
    display_status: StatusDisplay,
}

impl View for StatusLog {
    type V = Seq<StatusLogEntry>;

    closed spec fn view(&self) -> Seq<StatusLogEntry> {
        self.log@
    }
}

impl Default for StatusLog {
    fn default() -> (r: Self)
        ensures
            r@ == Seq::<StatusLogEntry>::empty(),
            r.spec_display_status() is None,
    {
        StatusLog { log: Vec::new(), display_status: StatusDisplay::Nothing }
    }
}

impl StatusLog {
    pub fn is_empty(&self) -> (r: bool)
        ensures
            r == (self@.len() == 0),
    {
        self.log.is_empty()
    }

    /// What the status line shows right now, if anything.
    pub closed spec fn spec_display_status(&self) -> Option<Status> {
        match self.display_status {
            StatusDisplay::LastLog => if self.log@.len() > 0 {
                Some(self.log@.last().status)
            } else {
                None
            },
            StatusDisplay::DisplayOnly(status) => Some(status),
            StatusDisplay::Nothing => None,
        }
    }

    /// Shows a status, and keeps it in the log when its kind calls for that.
    /// The timestamp of a kept entry is the clock's and is not specified.
    pub fn push(&mut self, status: Status)
        ensures
            status.spec_store_in_log() ==> {
                &&& final(self)@.len() == old(self)@.len() + 1
                &&& final(self)@.last().status == status
                &&& final(self)@.take(old(self)@.len() as int) == old(self)@
                &&& final(self).spec_display_status() == Some(status)
            },
            !status.spec_store_in_log() ==> {
                &&& final(self)@ == old(self)@
                &&& final(self).spec_display_status() == Some(status)
            },
    {
        if status.store_in_log() {
            self.log.push(StatusLogEntry { status, timestamp: now_timestamp_micros() });
            self.display_status = StatusDisplay::LastLog;
            proof {
                assert(final(self)@.take(old(self)@.len() as int) =~= old(self)@);
            }
        } else {
            self.display_status = StatusDisplay::DisplayOnly(status);
        }
    }

    pub fn display_status(&self) -> (r: Option<&Status>)
        ensures
            match r {
                Some(status) => self.spec_display_status() == Some(*status),
                None => self.spec_display_status() is None,
            },
    {
        match &self.display_status {
            StatusDisplay::LastLog => match self.log.last() {
                Some(entry) => Some(&entry.status),
                None => None,
            },
            StatusDisplay::DisplayOnly(status) => Some(status),
            StatusDisplay::Nothing => None,
        }
    }

    /// Dismisses whatever the status line shows.
    pub fn clear_display(&mut self)
        ensures
            final(self)@ == old(self)@,
            final(self).spec_display_status() is None,
    {
        self.display_status = StatusDisplay::Nothing;
    }

    /// Whether the status line currently shows an error.
    pub fn has_errors(&self) -> (r: bool)
        ensures
            r == match self.spec_display_status() {
                Some(status) => status.spec_severity() == Severity::Error,
                None => false,
            },
    {
        match self.display_status() {
            Some(status) => matches!(status.severity(), Severity::Error),
            None => false,
        }
    }

    /// How many entries the log keeps.
    pub fn size(&self) -> (r: usize)
        ensures
            r == self@.len(),
    {
        self.log.len()
    }

    /// The kept entries as a list view, newest first: row `index` is the
    /// entry pushed `index` steps before the newest one.
    pub fn item_at(&self, index: usize) -> (r: Option<&StatusLogEntry>)
        ensures
            match r {
                Some(entry) => index < self@.len() && *entry == self@[self@.len() - index - 1],
                None => index >= self@.len(),
            },
    {
        if index < self.log.len() {
            Some(&self.log[self.log.len() - index - 1])
        } else {
            None
        }
    }

    /// The position of the first kept entry the predicate holds of.
    pub fn find<F: Fn(&StatusLogEntry) -> bool>(&self, p: F) -> (r: Option<usize>)
        requires
            forall|i: int| 0 <= i < self@.len() ==> call_requires(p, (&self@[i],)),
        ensures
            match r {
                Some(i) => {
                    &&& i < self@.len()
                    &&& call_ensures(p, (&self@[i as int],), true)
                    &&& forall|j: int| 0 <= j < i ==> call_ensures(p, (&self@[j],), false)
                },
                None => forall|j: int| 0 <= j < self@.len() ==> call_ensures(p, (&self@[j],), false),
            },
    {
        let mut i: usize = 0;
        while i < self.log.len()
            invariant
                i <= self@.len(),
                forall|k: int| 0 <= k < self@.len() ==> call_requires(p, (&self@[k],)),
                forall|j: int| 0 <= j < i ==> call_ensures(p, (&self@[j],), false),
            decreases self@.len() - i,
        {
            if p(&self.log[i]) {
                return Some(i);
            }
            i += 1;
        }
        None
    }
}

} // verus!
