use vstd::prelude::*;

verus! {

/// The level of a message, one for one with the compiler's own levels.
#[derive(Debug, Clone, Copy, PartialEq, Eq, Structural)]
pub enum Level {
    Error,
    Warning,
    Note,
    Help,
}

impl Level {
    /// The word by which the compiler names this level.
    pub open spec fn name(self) -> Seq<char> {
        match self {
            Level::Error => "error"@,
            Level::Warning => "warning"@,
            Level::Note => "note"@,
            Level::Help => "help"@,
        }
    }

    /// Top-level messages are errors or warnings.
    pub open spec fn is_top_level(self) -> bool {
        self is Error || self is Warning
    }

    /// Messages attached to another are helps or notes.
    pub open spec fn is_attached(self) -> bool {
        self is Note || self is Help
    }

    /// The word by which the compiler names this level, as text.
    pub fn as_str(&self) -> (s: &'static str)
        ensures
            s@ == self.name(),
    {
        match self {
            Level::Error => "error",
            Level::Warning => "warning",
            Level::Note => "note",
            Level::Help => "help",
        }
    }

    /// The level written out as the compiler writes it: `error`, `warning`, `note`
    /// or `help`.
    pub fn to_string(&self) -> (s: String)
        ensures
            s@ == self.name(),
    {
        String::from_str(self.as_str())
    }
}

/// The compiler's names for the levels, and which levels stand at the top of a
/// message and which are attached to one.
pub proof fn lemma_level_names()
    ensures
        Level::Error.name() == "error"@,
        Level::Warning.name() == "warning"@,
        Level::Note.name() == "note"@,
        Level::Help.name() == "help"@,
        Level::Error.is_top_level() && Level::Warning.is_top_level(),
        !Level::Note.is_top_level() && !Level::Help.is_top_level(),
        Level::Note.is_attached() && Level::Help.is_attached(),
        !Level::Error.is_attached() && !Level::Warning.is_attached(),
{
}

} // verus!
