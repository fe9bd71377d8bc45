//! The fixed set of commands that the client registers and answers.

pub mod ping;

use vstd::prelude::*;

verus! {

/// One parameter of a command invocation, as the gateway delivered it.
#[derive(Debug, PartialEq, Eq)]
pub struct CommandOption {
    /// The parameter's name.
    pub name: String,
    /// The parameter's value, as text.
    pub value: String,
}

/// What is registered with the remote service for one command.
#[derive(Debug, PartialEq, Eq)]
pub struct CommandDefinition {
    /// The name by which users invoke the command.
    pub name: String,
    /// The one-line description shown to users.
    pub description: String,
}

/// A command registration, as its two texts.
pub struct CommandDefinitionView {
    pub name: Seq<char>,
    pub description: Seq<char>,
}

impl View for CommandDefinition {
    type V = CommandDefinitionView;

    open spec fn view(&self) -> CommandDefinitionView {
        CommandDefinitionView { name: self.name@, description: self.description@ }
    }
}

/// The reply to a command that the table does not hold.
pub open spec fn fallback_text() -> Seq<char> {
    "Not implemented!"@
}

/// Whether `name` is in the command table.
pub open spec fn is_known(name: Seq<char>) -> bool {
    name == ping::name_text()
}

/// The reply that the table gives for `name`: the command's own reply for a
/// known name, the fallback for every other.
pub open spec fn reply_text(name: Seq<char>) -> Seq<char> {
    if name == ping::name_text() {
        ping::reply_text()
    } else {
        fallback_text()
    }
}

/// The registrations of every command in the table, in table order.
pub open spec fn command_set() -> Seq<CommandDefinitionView> {
    seq![CommandDefinitionView { name: ping::name_text(), description: ping::description_text() }]
}

/// Looks `name` up in the command table and computes the reply.
pub fn run(name: &String, options: &Vec<CommandOption>) -> (content: String)
    ensures
        content@ == reply_text(name@),
        !is_known(name@) ==> content@ == fallback_text(),
{
    let ping_name = "ping".to_owned();
    if *name == ping_name {
        ping::run(options)
    } else {
        "Not implemented!".to_owned()
    }
}

/// The registrations of every command in the table.
pub fn register_all() -> (definitions: Vec<CommandDefinition>)
    ensures
        definitions@.map_values(|definition: CommandDefinition| definition@) == command_set(),
{
    let mut definitions: Vec<CommandDefinition> = Vec::new();
    definitions.push(ping::register());
    assert(definitions@.map_values(|definition: CommandDefinition| definition@) =~= command_set());
    definitions
}

} // verus!
