//! The query modifier: a trailing character that turns a set command into a
//! metadata query.

use vstd::prelude::*;

verus! {

/// Represents special characters used to modify other serial commands to
/// query command values instead of setting them.
#[derive(Clone, Copy, Debug, Eq, PartialEq)]
pub enum QueryCommand {
    /// Gets the default value for the command.
    DefaultValue,
    /// Gets the current value for the command.
    CurrentValue,
    /// Gets the range of acceptable values for the command.
    RangeValue,
}

impl QueryCommand {
    /// The ASCII fragment for this query modifier.
    pub open spec fn spec_command(self) -> Seq<char> {
        match self {
            QueryCommand::DefaultValue => "^"@,
            QueryCommand::CurrentValue => "?"@,
            QueryCommand::RangeValue => "*"@,
        }
    }

    /// Creates a new [QueryCommand].
    pub fn new() -> (r: Self)
        ensures
            r == QueryCommand::DefaultValue,
    {
        Self::DefaultValue
    }

    /// Gets the ASCII-encoded serial command for the [QueryCommand].
    pub fn command(&self) -> (r: &'static str)
        ensures
            r@ == self.spec_command(),
    {
        match self {
            Self::DefaultValue => "^",
            Self::CurrentValue => "?",
            Self::RangeValue => "*",
        }
    }
}

impl Default for QueryCommand {
    fn default() -> (r: Self)
        ensures
            r == QueryCommand::DefaultValue,
    {
        Self::new()
    }
}

} // verus!
