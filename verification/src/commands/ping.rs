//! The `ping` command: a liveness check with a fixed answer.

use crate::commands::{CommandOption, CommandDefinition};
use vstd::prelude::*;

verus! {

/// The command's name.
pub open spec fn name_text() -> Seq<char> {
    "ping"@
}

/// The command's description.
pub open spec fn description_text() -> Seq<char> {
    "A ping command"@
}

/// The command's reply.
pub open spec fn reply_text() -> Seq<char> {
    "Hey, I'm alive!"@
}

/// Answers an invocation. The reply does not depend on the options.
pub fn run(_options: &Vec<CommandOption>) -> (content: String)
    ensures
        content@ == reply_text(),
{
    "Hey, I'm alive!".to_owned()
}

/// The command's registration.
pub fn register() -> (definition: CommandDefinition)
    ensures
        definition@.name == name_text(),
        definition@.description == description_text(),
{
    CommandDefinition { name: "ping".to_owned(), description: "A ping command".to_owned() }
}

} // verus!
