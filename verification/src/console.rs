//! The script console: levels, and what a write to the console becomes.

use crate::value::value::OwnedJsValue;
use vstd::prelude::*;
use vstd::string::StringExecFns;

verus! {

/// The level of a console message, one for each console function.
#[derive(PartialEq, Eq, Clone, Copy, Debug, Structural)]
pub enum Level {
    Trace,
    Debug,
    Log,
    Info,
    Warn,
    Error,
}

impl Level {
    /// The name of the level, as script code writes it.
    pub open spec fn spec_name(self) -> Seq<char> {
        match self {
            Level::Trace => "trace"@,
            Level::Debug => "debug"@,
            Level::Log => "log"@,
            Level::Info => "info"@,
            Level::Warn => "warn"@,
            Level::Error => "error"@,
        }
    }

    /// The name of the level, as script code writes it.
    pub fn name(self) -> (r: &'static str)
        ensures
            r@ == self.spec_name(),
    {
        match self {
            Level::Trace => "trace",
            Level::Debug => "debug",
            Level::Log => "log",
            Level::Info => "info",
            Level::Warn => "warn",
            Level::Error => "error",
        }
    }

    /// The name of the level as a string.
    pub fn to_string(&self) -> (r: String)
        ensures
            r@ == self.spec_name(),
    {
        String::from_str(self.name())
    }

    /// The level with the name `text`, if there is one.
    pub open spec fn named(text: Seq<char>) -> Option<Level> {
        if text == "trace"@ {
            Some(Level::Trace)
        } else if text == "debug"@ {
            Some(Level::Debug)
        } else if text == "log"@ {
            Some(Level::Log)
        } else if text == "info"@ {
            Some(Level::Info)
        } else if text == "warn"@ {
            Some(Level::Warn)
        } else if text == "error"@ {
            Some(Level::Error)
        } else {
            None
        }
    }

    /// The level with the name `text`, if there is one.
    pub fn parse(text: &str) -> (r: Option<Level>)
        ensures
            r == Level::named(text@),
    {
        let t = String::from_str(text);
        if t == String::from_str("trace") {
            Some(Level::Trace)
        } else if t == String::from_str("debug") {
            Some(Level::Debug)
        } else if t == String::from_str("log") {
            Some(Level::Log)
        } else if t == String::from_str("info") {
            Some(Level::Info)
        } else if t == String::from_str("warn") {
            Some(Level::Warn)
        } else if t == String::from_str("error") {
            Some(Level::Error)
        } else {
            None
        }
    }
}

/// The name of a level names that level, and no other text does.
pub proof fn lemma_level_names(level: Level)
    ensures
        Level::named(level.spec_name()) == Some(level),
{
    reveal_strlit("trace");
    reveal_strlit("debug");
    reveal_strlit("log");
    reveal_strlit("info");
    reveal_strlit("warn");
    reveal_strlit("error");
    assert("trace"@[0] == 't');
    assert("debug"@[0] == 'd');
    assert("log"@[0] == 'l');
    assert("info"@[0] == 'i');
    assert("warn"@[0] == 'w');
    assert("error"@[0] == 'e');
}

/// Receives what script code writes to the console.
///
/// An embedding implements this to take the messages where it wants them.
pub trait ConsoleBackend {
    /// Handles one message: its level and the values that were written.
    fn log(&self, level: Level, values: Vec<OwnedJsValue>);
}

/// The levels of a host-side logger.
#[derive(PartialEq, Eq, Clone, Copy, Debug, Structural)]
pub enum LogLevel {
    Error,
    Warn,
    Info,
    Debug,
    Trace,
}

/// A console that hands its messages to a host-side logger.
#[derive(Debug, Clone, Copy, PartialEq, Eq, Structural)]
pub struct LogConsole;

/// `parts` put together with one blank between neighbours.
pub open spec fn joined(parts: Seq<Seq<char>>) -> Seq<char>
    decreases parts.len(),
{
    if parts.len() == 0 {
        Seq::empty()
    } else if parts.len() == 1 {
        parts[0]
    } else {
        joined(parts.drop_last()) + " "@ + parts.last()
    }
}

impl LogConsole {
    /// The logger level for a console level: `Log` is logged as `Info`,
    /// every other level under its own name.
    pub open spec fn spec_log_level(level: Level) -> LogLevel {
        match level {
            Level::Trace => LogLevel::Trace,
            Level::Debug => LogLevel::Debug,
            Level::Log => LogLevel::Info,
            Level::Info => LogLevel::Info,
            Level::Warn => LogLevel::Warn,
            Level::Error => LogLevel::Error,
        }
    }

    /// The logger level for a console level.
    #[verifier::when_used_as_spec(spec_log_level)]
    pub fn log_level(level: Level) -> (r: LogLevel)
        ensures
            r == LogConsole::spec_log_level(level),
    {
        match level {
            Level::Trace => LogLevel::Trace,
            Level::Debug => LogLevel::Debug,
            Level::Log => LogLevel::Info,
            Level::Info => LogLevel::Info,
            Level::Warn => LogLevel::Warn,
            Level::Error => LogLevel::Error,
        }
    }

    /// What is logged for a message whose values, each printed, are
    /// `values`: nothing where there are none, else the values with
    /// blanks between them, at the logger level for `level`.
    pub fn log(&self, level: Level, values: &Vec<String>) -> (r: Option<(LogLevel, String)>)
        ensures
            r is None <==> values@.len() == 0,
            r matches Some(line) ==> line.0 == LogConsole::spec_log_level(level) && line.1@
                == joined(Seq::new(values@.len(), |i: int| values@[i]@)),
    {
        if values.len() == 0 {
            return None;
        }
        let ghost parts = Seq::new(values@.len(), |i: int| values@[i]@);
        let mut msg = values[0].clone();
        let mut i: usize = 1;
        assert(parts.subrange(0, 1) =~= seq![parts[0]]);
        while i < values.len()
            invariant
                1 <= i <= values.len(),
                parts == Seq::new(values@.len(), |i: int| values@[i]@),
                msg@ == joined(parts.subrange(0, i as int)),
            decreases values.len() - i,
        {
            msg.append(" ");
            msg.append(values[i].as_str());
            proof {
                let upto = parts.subrange(0, i + 1);
                assert(upto.drop_last() =~= parts.subrange(0, i as int));
                assert(upto.last() == values@[i as int]@);
            }
            i += 1;
        }
        assert(parts.subrange(0, i as int) =~= parts);
        Some((LogConsole::log_level(level), msg))
    }
}

/// The level at which a write to the console is logged, if it is.
///
/// `first` is the text of the first argument, where that is a
/// string, and `count` the number of arguments. A message is logged
/// where there is more than one argument and the first names a
/// level; it is made of the arguments after the first.
pub fn console_write(first: Option<&str>, count: usize) -> (r: Option<Level>)
    ensures
        r == (if count > 1 {
            match first {
                Some(text) => Level::named(text@),
                None => None,
            }
        } else {
            None
        }),
{
    if count > 1 {
        match first {
            Some(text) => Level::parse(text),
            None => None,
        }
    } else {
        None
    }
}

} // verus!
