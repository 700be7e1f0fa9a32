//! The kinds of log rendering, and the names they are selected by.

use vstd::prelude::*;
use vstd::string::*;

verus! {

/// One of the four renderings of log events. They exclude each other: a
/// process logs in exactly one of them.
#[derive(Clone, Copy, Debug, PartialEq, Eq, Structural)]
pub enum Logger {
    /// One short line per event, without time, target, thread or source.
    Compact,
    /// The renderer's full textual form.
    Full,
    /// Several lines per event, for a human reader, with the span nesting.
    Pretty,
    /// One JSON object per event or span.
    Json,
}

/// The name that selects a kind.
pub open spec fn logger_name(kind: Logger) -> Seq<char> {
    match kind {
        Logger::Compact => "compact"@,
        Logger::Full => "full"@,
        Logger::Pretty => "pretty"@,
        Logger::Json => "json"@,
    }
}

/// The kind that a name selects, if it selects one. Names are matched letter
/// for letter.
pub open spec fn logger_named(name: Seq<char>) -> Option<Logger> {
    if name == "compact"@ {
        Some(Logger::Compact)
    } else if name == "full"@ {
        Some(Logger::Full)
    } else if name == "pretty"@ {
        Some(Logger::Pretty)
    } else if name == "json"@ {
        Some(Logger::Json)
    } else {
        None
    }
}

impl Default for Logger {
    /// The kind used where none is selected: compact.
    fn default() -> (res: Logger)
        ensures
            res == Logger::Compact,
    {
        Logger::Compact
    }
}

impl Logger {
    /// The name of this kind.
    pub fn name(&self) -> (res: &'static str)
        ensures
            res@ == logger_name(*self),
    {
        match self {
            Logger::Compact => "compact",
            Logger::Full => "full",
            Logger::Pretty => "pretty",
            Logger::Json => "json",
        }
    }

    /// The kind selected by `name`, or `None` where `name` selects none.
    pub fn from_name(name: &str) -> (res: Option<Logger>)
        ensures
            res == logger_named(name@),
    {
        let name = name.to_owned();
        if name == "compact".to_owned() {
            Some(Logger::Compact)
        } else if name == "full".to_owned() {
            Some(Logger::Full)
        } else if name == "pretty".to_owned() {
            Some(Logger::Pretty)
        } else if name == "json".to_owned() {
            Some(Logger::Json)
        } else {
            None
        }
    }
}

/// Every kind is found again by its name.
pub proof fn lemma_name_selects_kind(kind: Logger)
    ensures
        logger_named(logger_name(kind)) == Some(kind),
{
    reveal_strlit("compact");
    reveal_strlit("full");
    reveal_strlit("pretty");
    reveal_strlit("json");
    assert("compact"@.len() == 7 && "full"@.len() == 4 && "pretty"@.len() == 6);
    assert("json"@[0] == 'j' && "full"@[0] == 'f');
}

/// A name selects at most the kind that bears it.
pub proof fn lemma_kind_bears_name(name: Seq<char>, kind: Logger)
    requires
        logger_named(name) == Some(kind),
    ensures
        logger_name(kind) == name,
{
}

} // verus!
