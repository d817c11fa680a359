//! The messages of a conversation, as they are stored and as the language model takes them.
use vstd::prelude::*;

use crate::text::{copy_opt, opt_view, same};

verus! {

/// A tool call of the language model.
#[derive(Debug)]
pub struct ToolCall {
    pub id: String,
    pub call_type: String,
    pub name: String,
    pub arguments: String,
}

/// A [`ToolCall`] with its texts as character sequences.
pub struct ToolCallView {
    pub id: Seq<char>,
    pub call_type: Seq<char>,
    pub name: Seq<char>,
    pub arguments: Seq<char>,
}

impl View for ToolCall {
    type V = ToolCallView;

    open spec fn view(&self) -> ToolCallView {
        ToolCallView {
            id: self.id@,
            call_type: self.call_type@,
            name: self.name@,
            arguments: self.arguments@,
        }
    }
}

impl Clone for ToolCall {
    fn clone(&self) -> (r: Self)
        ensures
            r@ == self@,
    {
        ToolCall {
            id: self.id.clone(),
            call_type: self.call_type.clone(),
            name: self.name.clone(),
            arguments: self.arguments.clone(),
        }
    }
}

/// A tool call as the conversation keeps it.
#[derive(Debug)]
pub struct StoredToolCall {
    pub id: String,
    pub name: String,
    pub arguments: String,
}

/// A [`StoredToolCall`] with its texts as character sequences.
pub struct StoredCallView {
    pub id: Seq<char>,
    pub name: Seq<char>,
    pub arguments: Seq<char>,
}

impl View for StoredToolCall {
    type V = StoredCallView;

    open spec fn view(&self) -> StoredCallView {
        StoredCallView { id: self.id@, name: self.name@, arguments: self.arguments@ }
    }
}

/// The tool calls with their texts as character sequences.
pub open spec fn calls_view(calls: Seq<ToolCall>) -> Seq<ToolCallView> {
    calls.map_values(|c: ToolCall| c@)
}

/// The stored tool calls with their texts as character sequences.
pub open spec fn stored_view(calls: Seq<StoredToolCall>) -> Seq<StoredCallView> {
    calls.map_values(|c: StoredToolCall| c@)
}

/// What is stored of a tool call: all but its type.
pub open spec fn stored_call(c: ToolCallView) -> StoredCallView {
    StoredCallView { id: c.id, name: c.name, arguments: c.arguments }
}

/// The tool call that was stored: a call of a function.
pub open spec fn recalled_call(c: StoredCallView) -> ToolCallView {
    ToolCallView { id: c.id, call_type: "function"@, name: c.name, arguments: c.arguments }
}

/// The tool calls as the conversation keeps them.
pub fn to_stored(calls: &Vec<ToolCall>) -> (r: Vec<StoredToolCall>)
    ensures
        stored_view(r@) == calls_view(calls@).map_values(|c: ToolCallView| stored_call(c)),
{
    let mut r: Vec<StoredToolCall> = Vec::new();
    for i in 0..calls.len()
        invariant
            r@.len() == i,
            forall|j: int| 0 <= j < i ==> (#[trigger] r@[j])@ == stored_call(calls@[j]@),
    {
        let c = &calls[i];
        r.push(
            StoredToolCall {
                id: c.id.clone(),
                name: c.name.clone(),
                arguments: c.arguments.clone(),
            },
        );
    }
    assert(stored_view(r@) =~= calls_view(calls@).map_values(|c: ToolCallView| stored_call(c)));
    r
}

fn from_stored(calls: &Vec<StoredToolCall>) -> (r: Vec<ToolCall>)
    ensures
        calls_view(r@) == stored_view(calls@).map_values(|c: StoredCallView| recalled_call(c)),
{
    let mut r: Vec<ToolCall> = Vec::new();
    for i in 0..calls.len()
        invariant
            r@.len() == i,
            forall|j: int| 0 <= j < i ==> (#[trigger] r@[j])@ == recalled_call(calls@[j]@),
    {
        let c = &calls[i];
        r.push(
            ToolCall {
                id: c.id.clone(),
                call_type: "function".to_owned(),
                name: c.name.clone(),
                arguments: c.arguments.clone(),
            },
        );
    }
    assert(calls_view(r@) =~= stored_view(calls@).map_values(
        |c: StoredCallView| recalled_call(c),
    ));
    r
}

/// A message as the conversation keeps it.
#[derive(Debug)]
pub struct StoredMessage {
    pub role: String,
    pub content: Option<String>,
    pub tool_call_id: Option<String>,
    pub tool_calls: Option<Vec<StoredToolCall>>,
}

/// A [`StoredMessage`] with its texts as character sequences.
pub struct StoredMessageView {
    pub role: Seq<char>,
    pub content: Option<Seq<char>>,
    pub tool_call_id: Option<Seq<char>>,
    pub tool_calls: Option<Seq<StoredCallView>>,
}

impl View for StoredMessage {
    type V = StoredMessageView;

    open spec fn view(&self) -> StoredMessageView {
        StoredMessageView {
            role: self.role@,
            content: opt_view(self.content),
            tool_call_id: opt_view(self.tool_call_id),
            tool_calls: match self.tool_calls {
                Some(calls) => Some(stored_view(calls@)),
                None => None,
            },
        }
    }
}

/// Whose message it is.
#[derive(Debug, Clone, Copy, PartialEq, Eq, Structural)]
pub enum Role {
    System,
    User,
    Assistant,
    Tool,
}

/// A message as the language model takes it.
#[derive(Debug)]
pub struct ChatMessage {
    pub role: Role,
    pub content: Option<String>,
    pub tool_call_id: Option<String>,
    pub tool_calls: Option<Vec<ToolCall>>,
}

/// A [`ChatMessage`] with its texts as character sequences.
pub struct ChatMessageView {
    pub role: Role,
    pub content: Option<Seq<char>>,
    pub tool_call_id: Option<Seq<char>>,
    pub tool_calls: Option<Seq<ToolCallView>>,
}

impl View for ChatMessage {
    type V = ChatMessageView;

    open spec fn view(&self) -> ChatMessageView {
        ChatMessageView {
            role: self.role,
            content: opt_view(self.content),
            tool_call_id: opt_view(self.tool_call_id),
            tool_calls: match self.tool_calls {
                Some(calls) => Some(calls_view(calls@)),
                None => None,
            },
        }
    }
}

/// The role that a word stands for. Any other word stands for the user.
pub open spec fn role_named(word: Seq<char>) -> Role {
    if word == "system"@ {
        Role::System
    } else if word == "assistant"@ {
        Role::Assistant
    } else if word == "tool"@ {
        Role::Tool
    } else {
        Role::User
    }
}

/// The role that a word stands for.
pub fn role_of(word: &str) -> (r: Role)
    ensures
        r == role_named(word@),
{
    if same(word, "system") {
        Role::System
    } else if same(word, "assistant") {
        Role::Assistant
    } else if same(word, "tool") {
        Role::Tool
    } else {
        Role::User
    }
}

/// The message for the language model that a stored message stands for.
pub open spec fn model_message(m: StoredMessageView) -> ChatMessageView {
    ChatMessageView {
        role: role_named(m.role),
        content: m.content,
        tool_call_id: m.tool_call_id,
        tool_calls: match m.tool_calls {
            Some(calls) => Some(calls.map_values(|c: StoredCallView| recalled_call(c))),
            None => None,
        },
    }
}

/// The messages for the language model that stored messages stand for.
pub open spec fn model_messages(stored: Seq<StoredMessage>) -> Seq<ChatMessageView> {
    stored.map_values(|m: StoredMessage| model_message(m@))
}

/// The messages with their texts as character sequences.
pub open spec fn messages_view(messages: Seq<ChatMessage>) -> Seq<ChatMessageView> {
    messages.map_values(|m: ChatMessage| m@)
}

/// The messages for the language model that stored messages stand for.
pub fn build_messages(stored: &Vec<StoredMessage>) -> (r: Vec<ChatMessage>)
    ensures
        messages_view(r@) == model_messages(stored@),
{
    let mut r: Vec<ChatMessage> = Vec::new();
    for i in 0..stored.len()
        invariant
            r@.len() == i,
            forall|j: int| 0 <= j < i ==> (#[trigger] r@[j])@ == model_message(stored@[j]@),
    {
        let m = &stored[i];
        let tool_calls = match &m.tool_calls {
            Some(calls) => Some(from_stored(calls)),
            None => None,
        };
        r.push(
            ChatMessage {
                role: role_of(m.role.as_str()),
                content: copy_opt(&m.content),
                tool_call_id: copy_opt(&m.tool_call_id),
                tool_calls,
            },
        );
    }
    assert(messages_view(r@) =~= model_messages(stored@));
    r
}

/// Tool calls that are stored and recalled keep all but a type other than `function`.
pub proof fn law_stored_calls_are_recalled(c: ToolCallView)
    requires
        c.call_type == "function"@,
    ensures
        recalled_call(stored_call(c)) == c,
{
}

/// Each stored message stands for one message for the language model, in order, with the same
/// content and the same identifier of a tool call. It is the system's, the assistant's or a tool's
/// where it says so, and else the user's.
pub proof fn law_stored_messages_are_told_to_the_model(stored: Seq<StoredMessage>, i: int)
    requires
        0 <= i < stored.len(),
    ensures
        model_messages(stored).len() == stored.len(),
        model_messages(stored)[i].content == opt_view(stored[i].content),
        model_messages(stored)[i].tool_call_id == opt_view(stored[i].tool_call_id),
        model_messages(stored)[i].role is System <==> stored[i].role@ == "system"@,
        model_messages(stored)[i].role is Assistant <==> stored[i].role@ == "assistant"@,
        model_messages(stored)[i].role is Tool <==> stored[i].role@ == "tool"@,
        match stored[i].tool_calls {
            None => model_messages(stored)[i].tool_calls is None,
            Some(calls) => {
                &&& model_messages(stored)[i].tool_calls matches Some(told)
                &&& told.len() == calls@.len()
                &&& forall|k: int|
                    0 <= k < calls@.len() ==> {
                        &&& (#[trigger] told[k]).id == calls@[k].id@
                        &&& told[k].name == calls@[k].name@
                        &&& told[k].arguments == calls@[k].arguments@
                        &&& told[k].call_type == "function"@
                    }
            },
        },
{
    reveal_strlit("system");
    reveal_strlit("assistant");
    reveal_strlit("tool");
    assert("system"@.len() == 6);
    assert("assistant"@.len() == 9);
    assert("tool"@.len() == 4);
}

/// What is built from stored messages is what they stand for, field by field.
pub proof fn law_built_messages_hold_their_fields(
    stored: &Vec<StoredMessage>,
    r: Vec<ChatMessage>,
    i: int,
)
    requires
        call_ensures(build_messages, (stored,), r),
        0 <= i < stored@.len(),
    ensures
        r@.len() == stored@.len(),
        r@[i].role == model_messages(stored@)[i].role,
        opt_view(r@[i].content) == opt_view(stored@[i].content),
        opt_view(r@[i].tool_call_id) == opt_view(stored@[i].tool_call_id),
        r@[i].tool_calls is Some <==> stored@[i].tool_calls is Some,
        r@[i].tool_calls matches Some(calls) ==> {
            &&& calls@.len() == stored@[i].tool_calls->0@.len()
            &&& forall|k: int|
                0 <= k < calls@.len() ==> {
                    &&& (#[trigger] calls@[k]).id@ == stored@[i].tool_calls->0@[k].id@
                    &&& calls@[k].name@ == stored@[i].tool_calls->0@[k].name@
                    &&& calls@[k].arguments@ == stored@[i].tool_calls->0@[k].arguments@
                    &&& calls@[k].call_type@ == "function"@
                }
        },
{
    assert(messages_view(r@).len() == model_messages(stored@).len());
    assert(messages_view(r@)[i] == r@[i]@);
    assert(model_messages(stored@)[i] == model_message(stored@[i]@));
    if let Some(calls) = r@[i].tool_calls {
        let told = calls_view(calls@);
        let kept = stored@[i].tool_calls->0@;
        let recalled = stored_view(kept).map_values(|c: StoredCallView| recalled_call(c));
        assert(model_message(stored@[i]@).tool_calls == Some(recalled));
        assert(r@[i]@.tool_calls == Some(told));
        assert(told == recalled);
        assert(told.len() == calls@.len() && recalled.len() == kept.len());
        assert forall|k: int| 0 <= k < calls@.len() implies {
            &&& (#[trigger] calls@[k]).id@ == kept[k].id@
            &&& calls@[k].name@ == kept[k].name@
            &&& calls@[k].arguments@ == kept[k].arguments@
            &&& calls@[k].call_type@ == "function"@
        } by {
            assert(told[k] == calls@[k]@);
            assert(recalled[k] == recalled_call(kept[k]@));
        }
    }
}

/// The tool calls are stored one by one, each with its identifier, name and arguments.
pub proof fn law_tool_calls_are_stored_one_by_one(
    calls: &Vec<ToolCall>,
    r: Vec<StoredToolCall>,
    i: int,
)
    requires
        call_ensures(to_stored, (calls,), r),
        0 <= i < calls@.len(),
    ensures
        r@.len() == calls@.len(),
        r@[i].id@ == calls@[i].id@,
        r@[i].name@ == calls@[i].name@,
        r@[i].arguments@ == calls@[i].arguments@,
{
    let all = calls_view(calls@).map_values(|c: ToolCallView| stored_call(c));
    assert(stored_view(r@).len() == all.len());
    assert(stored_view(r@)[i] == r@[i]@);
    assert(all[i] == stored_call(calls@[i]@));
}

/// Tool calls and messages are seen with all that they hold, and a copy of a tool call holds the
/// same.
pub proof fn law_messages_and_calls_are_seen_whole(
    call: &ToolCall,
    copy: ToolCall,
    kept: StoredToolCall,
    message: ChatMessage,
    stored: StoredMessage,
)
    requires
        call_ensures(ToolCall::clone, (call,), copy),
    ensures
        call@.id == call.id@ && copy.id@ == call.id@,
        call@.call_type == call.call_type@ && copy.call_type@ == call.call_type@,
        call@.name == call.name@ && copy.name@ == call.name@,
        call@.arguments == call.arguments@ && copy.arguments@ == call.arguments@,
        kept@.id == kept.id@ && kept@.name == kept.name@ && kept@.arguments == kept.arguments@,
        message@.role == message.role,
        message@.content == opt_view(message.content),
        message@.tool_call_id == opt_view(message.tool_call_id),
        message@.tool_calls is Some <==> message.tool_calls is Some,
        message.tool_calls matches Some(calls) ==> message@.tool_calls->0 == calls_view(calls@),
        stored@.role == stored.role@,
        stored@.content == opt_view(stored.content),
        stored@.tool_call_id == opt_view(stored.tool_call_id),
        stored@.tool_calls is Some <==> stored.tool_calls is Some,
        stored.tool_calls matches Some(calls) ==> stored@.tool_calls->0 == stored_view(calls@),
{
}

/// Lists of tool calls are seen call by call.
pub proof fn law_lists_of_calls_are_seen_whole(
    calls: Seq<ToolCall>,
    stored: Seq<StoredToolCall>,
    i: int,
)
    ensures
        calls_view(calls).len() == calls.len(),
        stored_view(stored).len() == stored.len(),
        0 <= i < calls.len() ==> calls_view(calls)[i] == calls[i]@,
        0 <= i < stored.len() ==> stored_view(stored)[i] == stored[i]@,
{
}

/// The system, the assistant and tools are told by their words; any other word is the user's.
pub proof fn law_roles_go_by_their_words(word: &str, r: Role)
    requires
        call_ensures(role_of, (word,), r),
    ensures
        r == Role::System <==> word@ == "system"@,
        r == Role::Assistant <==> word@ == "assistant"@,
        r == Role::Tool <==> word@ == "tool"@,
{
    reveal_strlit("system");
    reveal_strlit("assistant");
    reveal_strlit("tool");
    assert("system"@.len() == 6 && "assistant"@.len() == 9 && "tool"@.len() == 4);
}

} // verus!
