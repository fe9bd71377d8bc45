//! Routing of inbound events to their replies. The dispatcher keeps no state:
//! each event is answered on its own, and what happens to one reply has no
//! bearing on the next.

use crate::commands::CommandOption;
use vstd::prelude::*;

verus! {

/// Something that arrived from the gateway.
#[derive(Debug, PartialEq, Eq)]
pub enum InboundEvent {
    /// A plain message posted in a channel.
    FreeTextMessage { channel: u64, body: String },
    /// A structured request naming a command.
    CommandInvocation { name: String, options: Vec<CommandOption> },
}

/// A text on its way out.
#[derive(Debug, PartialEq, Eq)]
pub enum OutboundResponse {
    /// A message for a channel.
    ChannelMessage { channel: u64, text: String },
    /// The acknowledgement of the command invocation being handled.
    CommandReply { text: String },
}

/// An outbound response, with the text as characters.
pub enum OutboundResponseView {
    ChannelMessage { channel: u64, text: Seq<char> },
    CommandReply { text: Seq<char> },
}

impl View for OutboundResponse {
    type V = OutboundResponseView;

    open spec fn view(&self) -> OutboundResponseView {
        match *self {
            OutboundResponse::ChannelMessage { channel, text } => OutboundResponseView::ChannelMessage {
                channel,
                text: text@,
            },
            OutboundResponse::CommandReply { text } => OutboundResponseView::CommandReply {
                text: text@,
            },
        }
    }
}

/// The lowercase form of `text`, as `str::to_lowercase` computes it.
pub uninterp spec fn lowercase_of(text: Seq<char>) -> Seq<char>;

/// `str::to_lowercase`: the lowercase equivalent of `text` under the Unicode
/// rules that the standard library carries. The contract only names that
/// result; it says nothing of which characters change.
#[verifier::external_body]
fn to_lowercase(text: &str) -> (folded: String)
    ensures
        folded@ == lowercase_of(text@),
{
    text.to_lowercase()
}

/// The phrase that a message must match, letter case aside.
pub open spec fn trigger_phrase() -> Seq<char> {
    "who asked"@
}

/// The reply to a message that matches the trigger phrase.
pub open spec fn trigger_reply() -> Seq<char> {
    "me"@
}

/// The reply owed to a message in `channel` whose lowercase form is `folded`:
/// the fixed reply, to the same channel, when the form is the trigger phrase,
/// and none otherwise.
pub open spec fn message_reply(channel: u64, folded: Seq<char>) -> Option<OutboundResponseView> {
    if folded == trigger_phrase() {
        Some(OutboundResponseView::ChannelMessage { channel, text: trigger_reply() })
    } else {
        None
    }
}

/// The view of an optional response.
pub open spec fn view_of(response: Option<OutboundResponse>) -> Option<OutboundResponseView> {
    match response {
        Some(r) => Some(r@),
        None => None,
    }
}

/// Computes the responses to inbound events.
#[derive(Debug, Clone, Copy, PartialEq, Eq)]
pub struct EventDispatcher;

impl EventDispatcher {
    /// A dispatcher.
    pub fn new() -> Self {
        EventDispatcher
    }

    /// The reply to a message in `channel` whose body is `folded` once put in
    /// lowercase.
    pub fn reply_to_folded(&self, channel: u64, folded: &String) -> (response: Option<
        OutboundResponse,
    >)
        ensures
            view_of(response) == message_reply(channel, folded@),
    {
        let phrase = "who asked".to_owned();
        if *folded == phrase {
            Some(OutboundResponse::ChannelMessage { channel, text: "me".to_owned() })
        } else {
            None
        }
    }

    /// The reply to a plain message: the fixed reply if the body equals the
    /// trigger phrase when letter case is ignored, and nothing otherwise.
    /// Nothing is the right answer to every other message, not a failure.
    pub fn on_message(&self, channel: u64, body: &str) -> (response: Option<OutboundResponse>)
        ensures
            view_of(response) == message_reply(channel, lowercase_of(body@)),
    {
        let folded = to_lowercase(body);
        self.reply_to_folded(channel, &folded)
    }

    /// The reply to a command invocation: what the command table computes for
    /// the name, which for a name outside the table is the fixed fallback.
    pub fn on_command(&self, name: &String, options: &Vec<CommandOption>) -> (response:
        OutboundResponse)
        ensures
            response@ == (OutboundResponseView::CommandReply {
                text: crate::commands::reply_text(name@),
            }),
            !crate::commands::is_known(name@) ==> response@ == (OutboundResponseView::CommandReply {
                text: crate::commands::fallback_text(),
            }),
    {
        OutboundResponse::CommandReply { text: crate::commands::run(name, options) }
    }

    /// Routes an event to the handler for its kind.
    pub fn dispatch(&self, event: &InboundEvent) -> (response: Option<OutboundResponse>)
        ensures
            view_of(response) == expected_response(*event),
    {
        match event {
            InboundEvent::FreeTextMessage { channel, body } => self.on_message(
                *channel,
                body.as_str(),
            ),
            InboundEvent::CommandInvocation { name, options } => Some(
                self.on_command(name, options),
            ),
        }
    }
}

/// The response owed to `event`, if any.
pub open spec fn expected_response(event: InboundEvent) -> Option<OutboundResponseView> {
    match event {
        InboundEvent::FreeTextMessage { channel, body } => message_reply(
            channel,
            lowercase_of(body@),
        ),
        InboundEvent::CommandInvocation { name, options } => Some(
            OutboundResponseView::CommandReply { text: crate::commands::reply_text(name@) },
        ),
    }
}

} // verus!
