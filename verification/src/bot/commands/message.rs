//! The messages that reach the bot.
use vstd::prelude::*;

verus! {

/// A message to the bot.
#[derive(Debug)]
pub struct BotMessage {
    /// The sender's phone number.
    pub source: String,
    /// The text.
    pub text: String,
    /// Whether it was sent to a group.
    pub is_group: bool,
    /// Where replies go: the group, or else the sender.
    pub reply_target: String,
    /// The bot's account that received it.
    pub receiving_account: String,
}

/// A [`BotMessage`] with its texts as character sequences.
pub struct MessageView {
    pub source: Seq<char>,
    pub text: Seq<char>,
    pub is_group: bool,
    pub reply_target: Seq<char>,
    pub receiving_account: Seq<char>,
}

impl View for BotMessage {
    type V = MessageView;

    open spec fn view(&self) -> MessageView {
        MessageView {
            source: self.source@,
            text: self.text@,
            is_group: self.is_group,
            reply_target: self.reply_target@,
            receiving_account: self.receiving_account@,
        }
    }
}

/// A message is seen with all that it holds.
pub proof fn law_messages_are_seen_whole(message: BotMessage)
    ensures
        message@.source == message.source@,
        message@.text == message.text@,
        message@.is_group == message.is_group,
        message@.reply_target == message.reply_target@,
        message@.receiving_account == message.receiving_account@,
{
}

} // verus!
