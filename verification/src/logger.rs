//! The log that collects messages the application emits while it runs:
//! which severities and targets are kept in the history, how long an entry
//! stays on the status line, and the history itself.

use vstd::prelude::*;

use crate::status::{Severity, TTL_LONG, TTL_SHORT};

verus! {

/// The levels of the logging facade, as plain values of this library; the
/// surrounding application converts its logger's level into this.
#[derive(Debug, Clone, Copy, PartialEq, Eq, Structural)]
pub enum LogLevel {
    Error,
    Warn,
    Info,
    Debug,
    Trace,
}

impl Severity {
    /// The severity a log level is shown under; verbose levels are not
    /// shown at all.
    pub fn from_log_level(level: LogLevel) -> (r: Option<Severity>)
        ensures
            r == match level {
                LogLevel::Error => Some(Severity::Error),
                LogLevel::Warn => Some(Severity::Warning),
                LogLevel::Info => Some(Severity::Information),
                _ => None::<Severity>,
            },
    {
        match level {
            LogLevel::Error => Some(Severity::Error),
            LogLevel::Warn => Some(Severity::Warning),
            LogLevel::Info => Some(Severity::Information),
            _ => None,
        }
    }
}

/// The named targets under which the application logs.
#[derive(Debug, Clone, Copy, PartialEq, Eq, Structural)]
pub enum LogTarget {
    Default,
    Player,
    Playback,
    Database,
    Update,
    Actix,
    Command,
    IO,
}

/// Relies on str's PartialEq: two string slices compare equal exactly when
/// their characters do.
#[verifier::external_body]
fn str_eq(a: &str, b: &str) -> (r: bool)
    ensures
        r == (a@ == b@),
{
    a == b
}

/// The target a name designates; unknown names fall back to the default
/// target.
pub open spec fn spec_target_from(name: Seq<char>) -> LogTarget {
    if name == "player"@ {
        LogTarget::Player
    } else if name == "playback"@ {
        LogTarget::Playback
    } else if name == "database"@ {
        LogTarget::Database
    } else if name == "update"@ {
        LogTarget::Update
    } else if name == "actix"@ {
        LogTarget::Actix
    } else if name == "command"@ {
        LogTarget::Command
    } else if name == "io"@ {
        LogTarget::IO
    } else {
        LogTarget::Default
    }
}

impl LogTarget {
    pub fn from_str(name: &str) -> (r: LogTarget)
        ensures
            r == spec_target_from(name@),
    {
        if str_eq(name, "player") {
            LogTarget::Player
        } else if str_eq(name, "playback") {
            LogTarget::Playback
        } else if str_eq(name, "database") {
            LogTarget::Database
        } else if str_eq(name, "update") {
            LogTarget::Update
        } else if str_eq(name, "actix") {
            LogTarget::Actix
        } else if str_eq(name, "command") {
            LogTarget::Command
        } else if str_eq(name, "io") {
            LogTarget::IO
        } else {
            LogTarget::Default
        }
    }
}

/// One logged message: its severity, the target it was logged under, its
/// text, and when it was logged, as microseconds since the Unix epoch.
#[derive(Debug, Clone, PartialEq, Eq)]
pub struct LogEntry {
    pub severity: Severity,
    pub target: LogTarget,
    pub message: String,
    pub timestamp: i64,
}

impl LogEntry {
    /// Whether the entry is kept in the history: informational messages and
    /// command mistakes are only shown, never kept.
    pub open spec fn spec_store_in_history(&self) -> bool {
        match (self.severity, self.target) {
            (Severity::Information, _) => false,
            (_, LogTarget::Command) => false,
            (_, _) => true,
        }
    }

    pub fn store_in_history(&self) -> (r: bool)
        ensures
            r == self.spec_store_in_history(),
    {
        match (&self.severity, &self.target) {
            (Severity::Information, _) => false,
            (_, LogTarget::Command) => false,
            (_, _) => true,
        }
    }

    /// How long the entry stays on the status line, in seconds; `None`
    /// keeps it until it is dismissed.
    pub fn display_ttl(&self) -> (r: Option<u64>)
        ensures
            r == match self.target {
                LogTarget::Playback => Some(TTL_LONG),
                LogTarget::Update | LogTarget::Command => Some(TTL_SHORT),
                _ => None::<u64>,
            },
    {
        match self.target {
            LogTarget::Playback => Some(TTL_LONG),
            LogTarget::Update | LogTarget::Command => Some(TTL_SHORT),
            _ => None,
        }
    }

    pub fn severity(&self) -> (r: Severity)
        ensures
            r == self.severity,
    {
        self.severity
    }

    /// The label of the target, for targets that announce themselves.
    pub fn variant_label(&self) -> (r: Option<&'static str>)
        ensures
            match self.target {
                LogTarget::Default | LogTarget::Player => r is None,
                LogTarget::Playback => r matches Some(label) && label@ == "Playback error"@,
                LogTarget::Database => r matches Some(label) && label@ == "Internal erorr (database)"@,
                LogTarget::Update => r matches Some(label) && label@ == "Update error"@,
                LogTarget::Actix => r matches Some(label) && label@ == "Internal error"@,
                LogTarget::Command => r matches Some(label) && label@ == "Invalid command"@,
                LogTarget::IO => r matches Some(label) && label@ == "I/O error"@,
            },
    {
        match self.target {
            LogTarget::Default => None,
            LogTarget::Player => None,
            LogTarget::Playback => Some("Playback error"),
            LogTarget::Database => Some("Internal erorr (database)"),
            LogTarget::Update => Some("Update error"),
            LogTarget::Actix => Some("Internal error"),
            LogTarget::Command => Some("Invalid command"),
            LogTarget::IO => Some("I/O error"),
        }
    }

    pub fn message(&self) -> (r: &str)
        ensures
            r@ == self.message@,
    {
        self.message.as_str()
    }

    pub fn timestamp(&self) -> (r: i64)
        ensures
            r == self.timestamp,
    {
        self.timestamp
    }
}

/// What the status line shows of the log: the newest kept entry, or one that
/// is shown without being kept.
#[derive(Debug, Clone, PartialEq, Eq)]
enum LogDisplay {
    Last,
    Special(LogEntry),
}

/// The kept log entries, newest last, and what the status line shows.
#[derive(Debug, Clone, PartialEq, Eq)]
pub struct LogHistory {
    log: Vec<LogEntry>,
    display: Option<LogDisplay>,
}

impl View for LogHistory {
    type V = Seq<LogEntry>;

    closed spec fn view(&self) -> Seq<LogEntry> {
        self.log@
    }
}

impl Default for LogHistory {
    fn default() -> (r: Self)
        ensures
            r@ == Seq::<LogEntry>::empty(),
            r.spec_display_entry() is None,
    {
        LogHistory { log: Vec::new(), display: None }
    }
}

impl LogHistory {
    pub fn is_empty(&self) -> (r: bool)
        ensures
            r == (self@.len() == 0),
    {
        self.log.is_empty()
    }

    /// The entry the status line shows right now, if any.
    pub closed spec fn spec_display_entry(&self) -> Option<LogEntry> {
        match self.display {
            Some(LogDisplay::Last) => if self.log@.len() > 0 {
                Some(self.log@.last())
            } else {
                None
            },
            Some(LogDisplay::Special(entry)) => Some(entry),
            None => None,
        }
    }

    /// Shows an entry, and keeps it in the history when severity and target
    /// call for that.
    pub fn push(&mut self, entry: LogEntry)
        ensures
            entry.spec_store_in_history() ==> {
                &&& final(self)@ == old(self)@.push(entry)
                &&& final(self).spec_display_entry() == Some(entry)
            },
            !entry.spec_store_in_history() ==> {
                &&& final(self)@ == old(self)@
                &&& final(self).spec_display_entry() == Some(entry)
            },
    {
        if entry.store_in_history() {
            self.log.push(entry);
            self.display = Some(LogDisplay::Last);
        } else {
            self.display = Some(LogDisplay::Special(entry));
        }
    }

    pub fn display_entry(&self) -> (r: Option<&LogEntry>)
        ensures
            match r {
                Some(entry) => self.spec_display_entry() == Some(*entry),
                None => self.spec_display_entry() is None,
            },
    {
        match &self.display {
            Some(LogDisplay::Last) => match self.log.last() {
                Some(entry) => Some(entry),
                None => None,
            },
            Some(LogDisplay::Special(entry)) => Some(entry),
            None => None,
        }
    }

    /// Dismisses whatever the status line shows.
    pub fn clear_display(&mut self)
        ensures
            final(self)@ == old(self)@,
            final(self).spec_display_entry() is None,
    {
        self.display = None;
    }

    /// How many entries the history keeps.
    pub fn size(&self) -> (r: usize)
        ensures
            r == self@.len(),
    {
        self.log.len()
    }

    /// The kept entries as a list view, newest first: row `index` is the
    /// entry pushed `index` steps before the newest one.
    pub fn item_at(&self, index: usize) -> (r: Option<&LogEntry>)
        ensures
            match r {
                Some(entry) => index < self@.len() && *entry == self@[self@.len() - index - 1],
                None => index >= self@.len(),
            },
    {
        if index < self.log.len() {
            Some(&self.log[self.log.len() - index - 1])
        } else {
            None
        }
    }

    /// The position of the first kept entry the predicate holds of.
    pub fn find<F: Fn(&LogEntry) -> bool>(&self, p: F) -> (r: Option<usize>)
        requires
            forall|i: int| 0 <= i < self@.len() ==> call_requires(p, (&self@[i],)),
        ensures
            match r {
                Some(i) => {
                    &&& i < self@.len()
                    &&& call_ensures(p, (&self@[i as int],), true)
                    &&& forall|j: int| 0 <= j < i ==> call_ensures(p, (&self@[j],), false)
                },
                None => forall|j: int| 0 <= j < self@.len() ==> call_ensures(p, (&self@[j],), false),
            },
    {
        let mut i: usize = 0;
        while i < self.log.len()
            invariant
                i <= self@.len(),
                forall|k: int| 0 <= k < self@.len() ==> call_requires(p, (&self@[k],)),
                forall|j: int| 0 <= j < i ==> call_ensures(p, (&self@[j],), false),
            decreases self@.len() - i,
        {
            if p(&self.log[i]) {
                return Some(i);
            }
            i += 1;
        }
        None
    }
}

} // verus!
