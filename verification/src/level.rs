//! Severity levels: their order, their names and the filter built on them.

use vstd::prelude::*;
use crate::text::same_text;

verus! {

/// Severity of a log event, from the most verbose to the most severe.
#[derive(Debug, Clone, Copy, PartialEq, Eq, Structural)]
pub enum LogLevel {
    Trace,
    Debug,
    Info,
    Warn,
    Error,
}

/// The level that a name stands for. Names are matched exactly, in upper
/// case; any other text stands for `Info`.
pub open spec fn level_from_name(name: Seq<char>) -> LogLevel {
    if name == "TRACE"@ {
        LogLevel::Trace
    } else if name == "DEBUG"@ {
        LogLevel::Debug
    } else if name == "INFO"@ {
        LogLevel::Info
    } else if name == "WARN"@ {
        LogLevel::Warn
    } else if name == "ERROR"@ {
        LogLevel::Error
    } else {
        LogLevel::Info
    }
}

impl LogLevel {
    /// Position of the level in the order `Trace < Debug < Info < Warn < Error`.
    pub open spec fn rank(self) -> nat {
        match self {
            LogLevel::Trace => 0,
            LogLevel::Debug => 1,
            LogLevel::Info => 2,
            LogLevel::Warn => 3,
            LogLevel::Error => 4,
        }
    }

    /// The upper-case name under which the level is rendered.
    pub open spec fn name_text(self) -> Seq<char> {
        match self {
            LogLevel::Trace => "TRACE"@,
            LogLevel::Debug => "DEBUG"@,
            LogLevel::Info => "INFO"@,
            LogLevel::Warn => "WARN"@,
            LogLevel::Error => "ERROR"@,
        }
    }

    /// Whether an event of this level passes a filter whose minimum is `minimum`.
    pub fn at_least(self, minimum: LogLevel) -> (passes: bool)
        ensures
            passes == (self.rank() >= minimum.rank()),
    {
        let own: u8 = self.ordinal();
        let floor: u8 = minimum.ordinal();
        own >= floor
    }

    fn ordinal(self) -> (n: u8)
        ensures
            n == self.rank(),
    {
        match self {
            LogLevel::Trace => 0,
            LogLevel::Debug => 1,
            LogLevel::Info => 2,
            LogLevel::Warn => 3,
            LogLevel::Error => 4,
        }
    }

    /// The rendered name of the level.
    pub fn name(self) -> (s: &'static str)
        ensures
            s@ == self.name_text(),
    {
        match self {
            LogLevel::Trace => "TRACE",
            LogLevel::Debug => "DEBUG",
            LogLevel::Info => "INFO",
            LogLevel::Warn => "WARN",
            LogLevel::Error => "ERROR",
        }
    }

    /// Reads a level from its name; an unrecognized name is taken as `Info`.
    pub fn from_name(name: &str) -> (level: LogLevel)
        ensures
            level == level_from_name(name@),
    {
        if same_text(name, "TRACE") {
            LogLevel::Trace
        } else if same_text(name, "DEBUG") {
            LogLevel::Debug
        } else if same_text(name, "INFO") {
            LogLevel::Info
        } else if same_text(name, "WARN") {
            LogLevel::Warn
        } else if same_text(name, "ERROR") {
            LogLevel::Error
        } else {
            LogLevel::Info
        }
    }

    /// The five names are pairwise distinct: reading back the name of a level
    /// gives that level.
    pub proof fn lemma_name_round_trip(self)
        ensures
            level_from_name(self.name_text()) == self,
    {
        reveal_strlit("TRACE");
        reveal_strlit("DEBUG");
        reveal_strlit("INFO");
        reveal_strlit("WARN");
        reveal_strlit("ERROR");
        assert("TRACE"@[0] == 'T');
        assert("DEBUG"@[0] == 'D');
        assert("INFO"@[0] == 'I');
        assert("WARN"@[0] == 'W');
        assert("ERROR"@[0] == 'E');
    }

    /// A name that is none of the five level names stands for `Info`.
    pub proof fn lemma_unrecognized_name_is_info(name: Seq<char>)
        requires
            forall|level: LogLevel| name != #[trigger] level.name_text(),
        ensures
            level_from_name(name) == LogLevel::Info,
    {
        assert(name != LogLevel::Trace.name_text());
        assert(name != LogLevel::Debug.name_text());
        assert(name != LogLevel::Warn.name_text());
        assert(name != LogLevel::Error.name_text());
    }

    /// The filter is a total order: of two levels, one is at least the other,
    /// and passing is transitive.
    pub proof fn lemma_order_is_total(a: LogLevel, b: LogLevel, c: LogLevel)
        ensures
            a.rank() >= b.rank() || b.rank() >= a.rank(),
            a.rank() >= b.rank() && b.rank() >= a.rank() ==> a == b,
            a.rank() >= b.rank() && b.rank() >= c.rank() ==> a.rank() >= c.rank(),
    {
    }
}

} // verus!
