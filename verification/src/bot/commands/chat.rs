//! Chat: every message that is no command goes to the language model.
//!
//! Answering a message alternates decisions with work outside of this crate (the conversation
//! store, the payment gate, the language model, the tools, Signal). [`ChatRun`] takes the
//! decisions: each [`ChatEvent`] says how the last piece of work ended, and each [`ChatAction`]
//! says what to do next.
use vstd::prelude::*;
use vstd::string::*;
use vstd::utf8::*;

use crate::bot::bot_config::BotConfig;
use crate::bot::commands::conversation::{
    build_messages, calls_view, messages_view, model_messages, stored_call, stored_view,
    to_stored, ChatMessage, ChatMessageView, StoredCallView, StoredMessage, StoredToolCall,
    ToolCall, ToolCallView,
};
use crate::bot::commands::message::{BotMessage, MessageView};
use crate::bot::group::GroupMode;
use crate::text::{
    contains, copy_opt, holds, lowered, opt_view, remove_any_case, split, split_on, texts,
    to_lower, trim, trimmed, without_any_case,
};

verus! {

/// What a user is sent before the first answer.
pub const WELCOME: &'static str =
    "Welcome! I'm an AI assistant running securely in a TEE. Send `!help` for commands or just start chatting.";

/// The answer when the language model refuses for too many requests.
pub const TOO_MANY_REQUESTS: &'static str =
    "I'm receiving too many requests. Please wait a moment and try again.";

/// The answer when the language model says nothing.
pub const EMPTY_RESPONSE: &'static str =
    "The AI service returned an empty response. Please try rephrasing your message.";

/// The answer when the language model cannot be reached.
pub const SERVICE_ERROR: &'static str =
    "Sorry, I encountered an error connecting to the AI service. Please try again.";

/// The answer when the language model keeps asking for tools.
pub const TOO_MANY_TOOLS: &'static str =
    "I've reached my maximum number of tool uses for this request. Please start a new conversation.";

/// The answer when the language model gives none.
pub const NO_RESPONSE: &'static str = "I don't have a response.";

/// What the chat handler is set up with.
pub struct ChatHandler {
    system_prompt: String,
    max_tool_iterations: usize,
    signal_username: Option<String>,
    github_repo: Option<String>,
    payment_gate: bool,
    bot_config: bool,
}

/// A [`ChatHandler`] with its texts as character sequences.
pub struct HandlerView {
    /// The system prompt where the account has none of its own.
    pub system_prompt: Seq<char>,
    /// How often the language model is called for one message at most.
    pub max_tool_iterations: nat,
    /// The bot's user name.
    pub signal_username: Option<Seq<char>>,
    /// The address of the bot's source code.
    pub github_repo: Option<Seq<char>>,
    /// Whether there is a payment gate.
    pub payment_gate: bool,
    /// Whether accounts have configurations of their own.
    pub bot_config: bool,
}

impl View for ChatHandler {
    type V = HandlerView;

    closed spec fn view(&self) -> HandlerView {
        HandlerView {
            system_prompt: self.system_prompt@,
            max_tool_iterations: self.max_tool_iterations as nat,
            signal_username: opt_view(self.signal_username),
            github_repo: opt_view(self.github_repo),
            payment_gate: self.payment_gate,
            bot_config: self.bot_config,
        }
    }
}

/// The part of a user name before its first dot.
pub open spec fn base_name(username: Seq<char>) -> Seq<char> {
    split(username, '.')[0]
}

/// The text mentions a user, where the text, the user name and its base are in lower case.
pub open spec fn mentioned(lower: Seq<char>, username: Seq<char>, base: Seq<char>) -> bool {
    holds(lower, "@"@ + username) || holds(lower, "@"@ + base)
}

/// Whether a text, in lower case, mentions a user, where the user name and its base are in lower
/// case.
pub fn mentions(lower: &str, username: &str, base: &str) -> (r: bool)
    ensures
        r == mentioned(lower@, username@, base@),
{
    let mut full = "@".to_owned();
    full.append(username);
    let mut short = "@".to_owned();
    short.append(base);
    contains(lower, full.as_str()) || contains(lower, short.as_str())
}

/// The text without the four given words, in any case of their ASCII letters, and without white
/// space around it.
pub open spec fn without_words(
    text: Seq<char>,
    full: Seq<char>,
    lower_full: Seq<char>,
    base: Seq<char>,
    lower_base: Seq<char>,
) -> Seq<char> {
    let a = without_any_case(text, full);
    let b = without_any_case(a, lower_full);
    let c = without_any_case(b, base);
    trimmed(without_any_case(c, lower_base))
}

/// Removes four words from a text, one after the other and in any case of their ASCII letters, and
/// the white space around the rest.
pub fn remove_words(
    text: &str,
    full: &str,
    lower_full: &str,
    base: &str,
    lower_base: &str,
) -> (r: String)
    ensures
        r@ == without_words(text@, full@, lower_full@, base@, lower_base@),
{
    let a = remove_any_case(text, full);
    let b = remove_any_case(a.as_str(), lower_full);
    let c = remove_any_case(b.as_str(), base);
    let d = remove_any_case(c.as_str(), lower_base);
    trim(d.as_str())
}

fn base_of(username: &str) -> (r: String)
    ensures
        r@ == base_name(username@),
{
    let parts = split_on(username, '.');
    proof {
        crate::text::lemma_split_nonempty(username@, '.');
        assert(texts(parts@)[0] == parts@[0]@);
    }
    parts[0].clone()
}

impl HandlerView {
    /// The bot is mentioned in a text.
    pub open spec fn is_mentioned(self, text: Seq<char>) -> bool {
        match self.signal_username {
            Some(name) => mentioned(
                lowered(text),
                lowered(name),
                lowered(base_name(name)),
            ),
            None => false,
        }
    }

    /// A text without the mentions of the bot.
    pub open spec fn without_mention(self, text: Seq<char>) -> Seq<char> {
        match self.signal_username {
            Some(name) => without_words(
                text,
                "@"@ + name,
                lowered("@"@ + name),
                "@"@ + base_name(name),
                lowered("@"@ + base_name(name)),
            ),
            None => trimmed(text),
        }
    }

    /// What the user says in a message: in groups, all but the mentions of the bot.
    pub open spec fn said(self, message: MessageView) -> Seq<char> {
        if message.is_group {
            self.without_mention(message.text)
        } else {
            message.text
        }
    }

    /// The bot keeps out of it: the message was sent to a group whose mode answers mentions only,
    /// and the bot is not mentioned.
    pub open spec fn ignores(self, message: MessageView, mode: GroupMode) -> bool {
        message.is_group && mode != GroupMode::Translate && !self.is_mentioned(message.text)
    }
}

impl ChatHandler {
    /// A handler without a payment gate.
    pub fn new(
        system_prompt: String,
        max_tool_iterations: usize,
        signal_username: Option<String>,
        github_repo: Option<String>,
    ) -> (r: Self)
        ensures
            r@ == (HandlerView {
                system_prompt: system_prompt@,
                max_tool_iterations: max_tool_iterations as nat,
                signal_username: opt_view(signal_username),
                github_repo: opt_view(github_repo),
                payment_gate: false,
                bot_config: false,
            }),
    {
        ChatHandler {
            system_prompt,
            max_tool_iterations,
            signal_username,
            github_repo,
            payment_gate: false,
            bot_config: false,
        }
    }

    /// A handler with a payment gate.
    pub fn with_payment_gate(
        system_prompt: String,
        max_tool_iterations: usize,
        signal_username: Option<String>,
        github_repo: Option<String>,
    ) -> (r: Self)
        ensures
            r@ == (HandlerView {
                system_prompt: system_prompt@,
                max_tool_iterations: max_tool_iterations as nat,
                signal_username: opt_view(signal_username),
                github_repo: opt_view(github_repo),
                payment_gate: true,
                bot_config: false,
            }),
    {
        ChatHandler {
            system_prompt,
            max_tool_iterations,
            signal_username,
            github_repo,
            payment_gate: true,
            bot_config: false,
        }
    }

    /// The handler with a configuration for each account.
    pub fn with_bot_config(self) -> (r: Self)
        ensures
            r@ == (HandlerView { bot_config: true, ..self@ }),
    {
        ChatHandler {
            system_prompt: self.system_prompt,
            max_tool_iterations: self.max_tool_iterations,
            signal_username: self.signal_username,
            github_repo: self.github_repo,
            payment_gate: self.payment_gate,
            bot_config: true,
        }
    }

    /// Whether messages that are no command come here.
    pub fn is_default(&self) -> (r: bool)
        ensures
            r,
    {
        true
    }

    /// Whether the bot is mentioned in a text.
    pub fn is_bot_mentioned(&self, text: &str) -> (r: bool)
        ensures
            r == self@.is_mentioned(text@),
    {
        match &self.signal_username {
            Some(name) => {
                let lower = to_lower(text);
                let username = to_lower(name.as_str());
                let base = to_lower(base_of(name.as_str()).as_str());
                mentions(lower.as_str(), username.as_str(), base.as_str())
            },
            None => false,
        }
    }

    /// A text without the mentions of the bot.
    pub fn strip_mention(&self, text: &str) -> (r: String)
        ensures
            r@ == self@.without_mention(text@),
    {
        match &self.signal_username {
            Some(name) => {
                let mut full = "@".to_owned();
                full.append(name.as_str());
                let lower_full = to_lower(full.as_str());
                let mut base = "@".to_owned();
                base.append(base_of(name.as_str()).as_str());
                let lower_base = to_lower(base.as_str());
                remove_words(
                    text,
                    full.as_str(),
                    lower_full.as_str(),
                    base.as_str(),
                    lower_base.as_str(),
                )
            },
            None => trim(text),
        }
    }
}

/// The tokens that a call of the language model took.
#[derive(Debug, Clone, Copy)]
pub struct TokenUsage {
    pub prompt_tokens: u32,
    pub completion_tokens: u32,
}

/// What the language model answered.
pub enum ModelReply {
    /// It refused for too many requests.
    RateLimited,
    /// It said nothing.
    Empty,
    /// It could not be reached or failed otherwise.
    Failed,
    /// It answered.
    Response {
        content: Option<String>,
        tool_calls: Option<Vec<ToolCall>>,
        usage: Option<TokenUsage>,
    },
}

/// How the last piece of work ended. Where it can fail, the failure is given as a text.
pub enum ChatEvent {
    /// The conversation was looked up: whether it is known.
    LookedUp(bool),
    /// The payment gate answered: the refusal, if it refused.
    AccessChecked(Result<(), String>),
    /// The configuration of the account.
    ConfigFetched(BotConfig),
    /// The system prompt with the bot's identity, and the mode of the group if it is one.
    PromptComposed { prompt: String, mode: GroupMode },
    /// The welcome was sent, or not.
    Welcomed,
    /// The user's message was stored: the number of tools that there are.
    UserMessageStored(Result<usize, String>),
    /// The conversation was loaded.
    MessagesLoaded(Result<Vec<StoredMessage>, String>),
    /// The language model answered.
    ModelAnswered(ModelReply),
    /// The tool calls were stored.
    ToolCallsStored(Result<(), String>),
    /// The note on a tool was sent, or not.
    ProgressSent,
    /// The tool was run: what it says, success or failure.
    ToolExecuted(String),
    /// The result of the tool was stored.
    ToolResultStored(Result<(), String>),
    /// The answer was stored.
    AnswerStored(Result<(), String>),
    /// The usage was recorded: what is to be added to the answer.
    UsageRecorded(Option<String>),
}

/// What is to be done next.
pub enum ChatAction {
    /// Look up a conversation.
    LookUp { conversation: String },
    /// Ask the payment gate about a group.
    CheckGroupAccess { group: String },
    /// Ask the payment gate about a user, whose message has the given length in bytes.
    CheckAccess { user: String, message_len: usize },
    /// Get the configuration of an account.
    FetchConfig { account: String },
    /// Add the bot's identity to the system prompt.
    ComposePrompt { base: String, username: Option<String>, repo: Option<String> },
    /// Send the welcome.
    Welcome { text: String },
    /// Store the user's message.
    StoreUserMessage { conversation: String, text: String, prompt: String },
    /// Load a conversation.
    LoadMessages { conversation: String, prompt: String },
    /// Call the language model, with tools or without.
    CallModel { messages: Vec<ChatMessage>, tools: bool, model: Option<String> },
    /// Store the tool calls of the language model.
    StoreToolCalls { conversation: String, content: Option<String>, calls: Vec<StoredToolCall> },
    /// Send a note on the tool that is being used.
    SendProgress { account: String, target: String, text: String },
    /// Run a tool.
    ExecuteTool { call: ToolCall },
    /// Store the result of a tool.
    StoreToolResult { conversation: String, id: String, result: String },
    /// Store the answer.
    StoreAnswer { conversation: String, text: String },
    /// Record the usage with the payment gate.
    RecordUsage {
        user: String,
        conversation: String,
        prompt_tokens: u32,
        completion_tokens: u32,
    },
    /// Done: reply with the text, or not at all where it is empty.
    Reply(String),
    /// Done: the failure of a piece of work.
    Fail(String),
}

/// A [`ChatAction`] with its texts as character sequences.
pub enum ActionView {
    LookUp { conversation: Seq<char> },
    CheckGroupAccess { group: Seq<char> },
    CheckAccess { user: Seq<char>, message_len: nat },
    FetchConfig { account: Seq<char> },
    ComposePrompt { base: Seq<char>, username: Option<Seq<char>>, repo: Option<Seq<char>> },
    Welcome { text: Seq<char> },
    StoreUserMessage { conversation: Seq<char>, text: Seq<char>, prompt: Seq<char> },
    LoadMessages { conversation: Seq<char>, prompt: Seq<char> },
    CallModel { messages: Seq<ChatMessageView>, tools: bool, model: Option<Seq<char>> },
    StoreToolCalls {
        conversation: Seq<char>,
        content: Option<Seq<char>>,
        calls: Seq<StoredCallView>,
    },
    SendProgress { account: Seq<char>, target: Seq<char>, text: Seq<char> },
    ExecuteTool { call: ToolCallView },
    StoreToolResult { conversation: Seq<char>, id: Seq<char>, result: Seq<char> },
    StoreAnswer { conversation: Seq<char>, text: Seq<char> },
    RecordUsage {
        user: Seq<char>,
        conversation: Seq<char>,
        prompt_tokens: int,
        completion_tokens: int,
    },
    Reply(Seq<char>),
    Fail(Seq<char>),
}

impl View for ChatAction {
    type V = ActionView;

    open spec fn view(&self) -> ActionView {
        match *self {
            ChatAction::LookUp { conversation } => ActionView::LookUp {
                conversation: conversation@,
            },
            ChatAction::CheckGroupAccess { group } => ActionView::CheckGroupAccess {
                group: group@,
            },
            ChatAction::CheckAccess { user, message_len } => ActionView::CheckAccess {
                user: user@,
                message_len: message_len as nat,
            },
            ChatAction::FetchConfig { account } => ActionView::FetchConfig { account: account@ },
            ChatAction::ComposePrompt { base, username, repo } => ActionView::ComposePrompt {
                base: base@,
                username: opt_view(username),
                repo: opt_view(repo),
            },
            ChatAction::Welcome { text } => ActionView::Welcome { text: text@ },
            ChatAction::StoreUserMessage {
                conversation,
                text,
                prompt,
            } => ActionView::StoreUserMessage {
                conversation: conversation@,
                text: text@,
                prompt: prompt@,
            },
            ChatAction::LoadMessages { conversation, prompt } => ActionView::LoadMessages {
                conversation: conversation@,
                prompt: prompt@,
            },
            ChatAction::CallModel { messages, tools, model } => ActionView::CallModel {
                messages: messages_view(messages@),
                tools,
                model: opt_view(model),
            },
            ChatAction::StoreToolCalls {
                conversation,
                content,
                calls,
            } => ActionView::StoreToolCalls {
                conversation: conversation@,
                content: opt_view(content),
                calls: stored_view(calls@),
            },
            ChatAction::SendProgress { account, target, text } => ActionView::SendProgress {
                account: account@,
                target: target@,
                text: text@,
            },
            ChatAction::ExecuteTool { call } => ActionView::ExecuteTool { call: call@ },
            ChatAction::StoreToolResult {
                conversation,
                id,
                result,
            } => ActionView::StoreToolResult {
                conversation: conversation@,
                id: id@,
                result: result@,
            },
            ChatAction::StoreAnswer { conversation, text } => ActionView::StoreAnswer {
                conversation: conversation@,
                text: text@,
            },
            ChatAction::RecordUsage {
                user,
                conversation,
                prompt_tokens,
                completion_tokens,
            } => ActionView::RecordUsage {
                user: user@,
                conversation: conversation@,
                prompt_tokens: prompt_tokens as int,
                completion_tokens: completion_tokens as int,
            },
            ChatAction::Reply(text) => ActionView::Reply(text@),
            ChatAction::Fail(reason) => ActionView::Fail(reason@),
        }
    }
}

/// The piece of work whose end is awaited.
#[derive(Debug, Clone, Copy, PartialEq, Eq, Structural)]
pub enum Phase {
    LookUp,
    Access,
    Config,
    Prompt,
    Welcome,
    UserMessage,
    Messages,
    Model,
    ToolCalls,
    Progress,
    Tool,
    ToolResult,
    Answer,
    Usage,
    Done,
}

/// How far the answering of a message has come.
pub struct ChatRun {
    phase: Phase,
    message: BotMessage,
    text: String,
    new_user: bool,
    prompt: String,
    model: Option<String>,
    tools: usize,
    tools_executed: bool,
    prompt_tokens: u32,
    completion_tokens: u32,
    iteration: usize,
    limit: usize,
    calls: Vec<ToolCall>,
    next_call: usize,
    answer: String,
}

/// A [`ChatRun`] with its texts as character sequences.
pub struct RunView {
    /// The piece of work whose end is awaited.
    pub phase: Phase,
    /// The message.
    pub message: MessageView,
    /// What the user says in it.
    pub text: Seq<char>,
    /// Whether the conversation is new.
    pub new_user: bool,
    /// The system prompt.
    pub prompt: Seq<char>,
    /// The model, where it is not the usual one.
    pub model: Option<Seq<char>>,
    /// The number of tools that there are.
    pub tools: nat,
    /// Whether tools were used.
    pub tools_executed: bool,
    /// The tokens of all calls of the language model so far.
    pub prompt_tokens: int,
    pub completion_tokens: int,
    /// The number of rounds that are behind.
    pub iteration: nat,
    /// The number of rounds that there may be.
    pub limit: nat,
    /// The tool calls of this round.
    pub calls: Seq<ToolCallView>,
    /// The tool call that is being worked on.
    pub next_call: nat,
    /// The answer of the language model.
    pub answer: Seq<char>,
}

impl View for ChatRun {
    type V = RunView;

    closed spec fn view(&self) -> RunView {
        RunView {
            phase: self.phase,
            message: self.message@,
            text: self.text@,
            new_user: self.new_user,
            prompt: self.prompt@,
            model: opt_view(self.model),
            tools: self.tools as nat,
            tools_executed: self.tools_executed,
            prompt_tokens: self.prompt_tokens as int,
            completion_tokens: self.completion_tokens as int,
            iteration: self.iteration as nat,
            limit: self.limit as nat,
            calls: calls_view(self.calls@),
            next_call: self.next_call as nat,
            answer: self.answer@,
        }
    }
}

impl Phase {
    /// The phases of a round: those from the loading of the conversation on.
    pub open spec fn in_round(self) -> bool {
        self == Phase::Messages || self == Phase::Model || self.on_tools() || self == Phase::Answer
            || self == Phase::Usage
    }

    /// The phases in which tool calls are worked on.
    pub open spec fn on_tools(self) -> bool {
        self == Phase::ToolCalls || self == Phase::Progress || self == Phase::Tool || self
            == Phase::ToolResult
    }
}

impl RunView {
    /// A round is one of those that there may be, and a tool call that is worked on is one of
    /// those of the round.
    pub open spec fn valid(self) -> bool {
        &&& self.phase.in_round() ==> self.iteration < self.limit
        &&& self.phase.on_tools() ==> self.next_call < self.calls.len()
    }

    /// The event is the end of the work that is awaited.
    pub open spec fn awaits(self, event: ChatEvent) -> bool {
        match event {
            ChatEvent::LookedUp(_) => self.phase == Phase::LookUp,
            ChatEvent::AccessChecked(_) => self.phase == Phase::Access,
            ChatEvent::ConfigFetched(_) => self.phase == Phase::Config,
            ChatEvent::PromptComposed { .. } => self.phase == Phase::Prompt,
            ChatEvent::Welcomed => self.phase == Phase::Welcome,
            ChatEvent::UserMessageStored(_) => self.phase == Phase::UserMessage,
            ChatEvent::MessagesLoaded(_) => self.phase == Phase::Messages,
            ChatEvent::ModelAnswered(_) => self.phase == Phase::Model,
            ChatEvent::ToolCallsStored(_) => self.phase == Phase::ToolCalls,
            ChatEvent::ProgressSent => self.phase == Phase::Progress,
            ChatEvent::ToolExecuted(_) => self.phase == Phase::Tool,
            ChatEvent::ToolResultStored(_) => self.phase == Phase::ToolResult,
            ChatEvent::AnswerStored(_) => self.phase == Phase::Answer,
            ChatEvent::UsageRecorded(_) => self.phase == Phase::Usage,
        }
    }

    /// The event can be taken: it is awaited, and the tokens that it tells of can be counted.
    pub open spec fn takes(self, event: ChatEvent) -> bool {
        &&& self.awaits(event)
        &&& self.prompt_tokens + tokens_of(event).0 <= u32::MAX
        &&& self.completion_tokens + tokens_of(event).1 <= u32::MAX
    }

    /// The end.
    pub open spec fn reply(self, text: Seq<char>) -> (RunView, ActionView) {
        (RunView { phase: Phase::Done, ..self }, ActionView::Reply(text))
    }

    /// The end by a failure.
    pub open spec fn fail(self, reason: Seq<char>) -> (RunView, ActionView) {
        (RunView { phase: Phase::Done, ..self }, ActionView::Fail(reason))
    }

    /// Goes on with the account's configuration, where accounts have one.
    pub open spec fn config(self, handler: HandlerView) -> (RunView, ActionView) {
        if handler.bot_config {
            (
                RunView { phase: Phase::Config, ..self },
                ActionView::FetchConfig { account: self.message.receiving_account },
            )
        } else {
            self.compose(handler, handler.system_prompt)
        }
    }

    /// Goes on with the system prompt.
    pub open spec fn compose(self, handler: HandlerView, base: Seq<char>) -> (RunView, ActionView) {
        (
            RunView { phase: Phase::Prompt, ..self },
            ActionView::ComposePrompt {
                base,
                username: handler.signal_username,
                repo: handler.github_repo,
            },
        )
    }

    /// Goes on with the user's message.
    pub open spec fn store_message(self) -> (RunView, ActionView) {
        (
            RunView { phase: Phase::UserMessage, ..self },
            ActionView::StoreUserMessage {
                conversation: self.message.reply_target,
                text: self.text,
                prompt: self.prompt,
            },
        )
    }

    /// Starts a round, if there may be another one.
    pub open spec fn round(self) -> (RunView, ActionView) {
        if self.iteration < self.limit {
            (
                RunView { phase: Phase::Messages, ..self },
                ActionView::LoadMessages {
                    conversation: self.message.reply_target,
                    prompt: self.prompt,
                },
            )
        } else {
            self.reply(TOO_MANY_TOOLS@)
        }
    }

    /// Goes on with the next tool call of the round, if there is one, or else with another round.
    pub open spec fn tool(self) -> (RunView, ActionView) {
        if self.next_call < self.calls.len() {
            (
                RunView { phase: Phase::Progress, ..self },
                ActionView::SendProgress {
                    account: self.message.receiving_account,
                    target: self.message.reply_target,
                    text: "🔧 Using "@ + self.calls[self.next_call as int].name + "..."@,
                },
            )
        } else {
            (RunView { tools_executed: true, iteration: self.iteration + 1, ..self }).round()
        }
    }

    /// Goes on once the language model has answered.
    pub open spec fn answered(self, reply: ModelReply) -> (RunView, ActionView) {
        match reply {
            ModelReply::RateLimited => self.reply(TOO_MANY_REQUESTS@),
            ModelReply::Empty => self.reply(EMPTY_RESPONSE@),
            ModelReply::Failed => self.reply(SERVICE_ERROR@),
            ModelReply::Response { content, tool_calls, usage } => {
                let counted = RunView {
                    prompt_tokens: self.prompt_tokens + usage_tokens(usage).0,
                    completion_tokens: self.completion_tokens + usage_tokens(usage).1,
                    ..self
                };
                let calls = match tool_calls {
                    Some(calls) => calls_view(calls@),
                    None => Seq::empty(),
                };
                if calls.len() > 0 {
                    (
                        RunView { phase: Phase::ToolCalls, calls, next_call: 0, ..counted },
                        ActionView::StoreToolCalls {
                            conversation: self.message.reply_target,
                            content: opt_view(content),
                            calls: calls.map_values(|c: ToolCallView| stored_call(c)),
                        },
                    )
                } else {
                    let answer = opt_view(content).unwrap_or(NO_RESPONSE@);
                    (
                        RunView { phase: Phase::Answer, answer, ..counted },
                        ActionView::StoreAnswer {
                            conversation: self.message.reply_target,
                            text: answer,
                        },
                    )
                }
            },
        }
    }

    /// Goes on after an event.
    pub open spec fn after(self, handler: HandlerView, event: ChatEvent) -> (RunView, ActionView) {
        match event {
            ChatEvent::LookedUp(known) => {
                let run = RunView { new_user: !known, ..self };
                if !handler.payment_gate {
                    run.config(handler)
                } else if self.message.is_group {
                    (
                        RunView { phase: Phase::Access, ..run },
                        ActionView::CheckGroupAccess { group: self.message.reply_target },
                    )
                } else {
                    (
                        RunView { phase: Phase::Access, ..run },
                        ActionView::CheckAccess {
                            user: self.message.source,
                            message_len: encode_utf8(self.text).len(),
                        },
                    )
                }
            },
            ChatEvent::AccessChecked(Err(refusal)) => self.reply(refusal@),
            ChatEvent::AccessChecked(Ok(_)) => self.config(handler),
            ChatEvent::ConfigFetched(config) => (RunView {
                model: config@.model,
                ..self
            }).compose(handler, config@.system_prompt.unwrap_or(handler.system_prompt)),
            ChatEvent::PromptComposed { prompt, mode } => {
                let run = RunView {
                    prompt: if self.message.is_group {
                        prompt@ + mode.suffix()
                    } else {
                        prompt@
                    },
                    ..self
                };
                if self.new_user && !self.message.is_group {
                    (
                        RunView { phase: Phase::Welcome, ..run },
                        ActionView::Welcome { text: WELCOME@ },
                    )
                } else {
                    run.store_message()
                }
            },
            ChatEvent::Welcomed => self.store_message(),
            ChatEvent::UserMessageStored(Err(e)) => self.fail(e@),
            ChatEvent::UserMessageStored(Ok(tools)) => (RunView {
                tools: tools as nat,
                ..self
            }).round(),
            ChatEvent::MessagesLoaded(Err(e)) => self.fail(e@),
            ChatEvent::MessagesLoaded(Ok(stored)) => (
                RunView { phase: Phase::Model, ..self },
                ActionView::CallModel {
                    messages: model_messages(stored@),
                    tools: !self.tools_executed && self.tools > 0,
                    model: self.model,
                },
            ),
            ChatEvent::ModelAnswered(reply) => self.answered(reply),
            ChatEvent::ToolCallsStored(Err(e)) => self.fail(e@),
            ChatEvent::ToolCallsStored(Ok(_)) => self.tool(),
            ChatEvent::ProgressSent => (
                RunView { phase: Phase::Tool, ..self },
                ActionView::ExecuteTool { call: self.calls[self.next_call as int] },
            ),
            ChatEvent::ToolExecuted(content) => (
                RunView { phase: Phase::ToolResult, ..self },
                ActionView::StoreToolResult {
                    conversation: self.message.reply_target,
                    id: self.calls[self.next_call as int].id,
                    result: content@,
                },
            ),
            ChatEvent::ToolResultStored(Err(e)) => self.fail(e@),
            ChatEvent::ToolResultStored(Ok(_)) => (RunView {
                next_call: self.next_call + 1,
                ..self
            }).tool(),
            ChatEvent::AnswerStored(Err(e)) => self.fail(e@),
            ChatEvent::AnswerStored(Ok(_)) => if handler.payment_gate {
                (
                    RunView { phase: Phase::Usage, ..self },
                    ActionView::RecordUsage {
                        user: self.message.source,
                        conversation: self.message.reply_target,
                        prompt_tokens: self.prompt_tokens,
                        completion_tokens: self.completion_tokens,
                    },
                )
            } else {
                self.reply(self.answer)
            },
            ChatEvent::UsageRecorded(suffix) => match suffix {
                Some(s) => self.reply(self.answer + s@),
                None => self.reply(self.answer),
            },
        }
    }
}

/// The prompt tokens and completion tokens that were used.
pub open spec fn usage_tokens(usage: Option<TokenUsage>) -> (int, int) {
    match usage {
        Some(u) => (u.prompt_tokens as int, u.completion_tokens as int),
        None => (0, 0),
    }
}

/// The prompt tokens and completion tokens that an event tells of.
pub open spec fn tokens_of(event: ChatEvent) -> (int, int) {
    match event {
        ChatEvent::ModelAnswered(ModelReply::Response { usage, .. }) => usage_tokens(usage),
        _ => (0, 0),
    }
}

/// The start of the answering of a message that the bot does not ignore.
pub open spec fn fresh_run(handler: HandlerView, message: MessageView) -> RunView {
    RunView {
        phase: Phase::LookUp,
        message,
        text: handler.said(message),
        new_user: false,
        prompt: ""@,
        model: None,
        tools: 0,
        tools_executed: false,
        prompt_tokens: 0,
        completion_tokens: 0,
        iteration: 0,
        limit: handler.max_tool_iterations,
        calls: Seq::empty(),
        next_call: 0,
        answer: ""@,
    }
}

/// The start of the answering of a message, where `mode` is that of the group if it is one.
pub open spec fn started(handler: HandlerView, message: MessageView, mode: GroupMode) -> (
    RunView,
    ActionView,
) {
    let run = fresh_run(handler, message);
    if handler.ignores(message, mode) {
        run.reply(""@)
    } else {
        (run, ActionView::LookUp { conversation: message.reply_target })
    }
}

impl ChatHandler {
    /// Starts to answer a message, where `mode` is that of the group if it is one.
    pub fn execute(&self, message: BotMessage, mode: GroupMode) -> (r: (ChatRun, ChatAction))
        ensures
            (r.0@, r.1@) == started(self@, message@, mode),
    {
        let text = if message.is_group {
            self.strip_mention(message.text.as_str())
        } else {
            message.text.clone()
        };
        let ignored = message.is_group && !mode.responds_to_all() && !self.is_bot_mentioned(
            message.text.as_str(),
        );
        let conversation = message.reply_target.clone();
        let run = ChatRun {
            phase: if ignored {
                Phase::Done
            } else {
                Phase::LookUp
            },
            message,
            text,
            new_user: false,
            prompt: "".to_owned(),
            model: None,
            tools: 0,
            tools_executed: false,
            prompt_tokens: 0,
            completion_tokens: 0,
            iteration: 0,
            limit: self.max_tool_iterations,
            calls: Vec::new(),
            next_call: 0,
            answer: "".to_owned(),
        };
        assert(run@.calls =~= Seq::empty());
        let action = if ignored {
            ChatAction::Reply("".to_owned())
        } else {
            ChatAction::LookUp { conversation }
        };
        (run, action)
    }
}

impl ChatRun {
    #[verifier::type_invariant]
    spec fn well_formed(self) -> bool {
        self@.valid()
    }

    /// The piece of work whose end is awaited.
    pub fn phase(&self) -> (r: Phase)
        ensures
            r == self@.phase,
    {
        self.phase
    }

    /// Whether an event can be taken.
    pub fn takes(&self, event: &ChatEvent) -> (r: bool)
        ensures
            r == self@.takes(*event),
    {
        match event {
            ChatEvent::LookedUp(_) => matches!(self.phase, Phase::LookUp),
            ChatEvent::AccessChecked(_) => matches!(self.phase, Phase::Access),
            ChatEvent::ConfigFetched(_) => matches!(self.phase, Phase::Config),
            ChatEvent::PromptComposed { .. } => matches!(self.phase, Phase::Prompt),
            ChatEvent::Welcomed => matches!(self.phase, Phase::Welcome),
            ChatEvent::UserMessageStored(_) => matches!(self.phase, Phase::UserMessage),
            ChatEvent::MessagesLoaded(_) => matches!(self.phase, Phase::Messages),
            ChatEvent::ModelAnswered(reply) => {
                matches!(self.phase, Phase::Model) && match reply {
                    ModelReply::Response { usage: Some(u), .. } => self.prompt_tokens <= u32::MAX
                        - u.prompt_tokens && self.completion_tokens <= u32::MAX
                        - u.completion_tokens,
                    _ => true,
                }
            },
            ChatEvent::ToolCallsStored(_) => matches!(self.phase, Phase::ToolCalls),
            ChatEvent::ProgressSent => matches!(self.phase, Phase::Progress),
            ChatEvent::ToolExecuted(_) => matches!(self.phase, Phase::Tool),
            ChatEvent::ToolResultStored(_) => matches!(self.phase, Phase::ToolResult),
            ChatEvent::AnswerStored(_) => matches!(self.phase, Phase::Answer),
            ChatEvent::UsageRecorded(_) => matches!(self.phase, Phase::Usage),
        }
    }

    /// Goes on after an event.
    pub fn step(self, handler: &ChatHandler, event: ChatEvent) -> (r: (ChatRun, ChatAction))
        requires
            self@.takes(event),
        ensures
            (r.0@, r.1@) == self@.after(handler@, event),
    {
        proof {
            use_type_invariant(&self);
        }
        match event {
            ChatEvent::LookedUp(known) => self.looked_up(handler, known),
            ChatEvent::AccessChecked(Err(refusal)) => self.reply(refusal),
            ChatEvent::AccessChecked(Ok(_)) => self.config(handler),
            ChatEvent::ConfigFetched(config) => {
                let mut run = self;
                run.model = config.model;
                let base = match config.system_prompt {
                    Some(p) => p,
                    None => handler.system_prompt.clone(),
                };
                run.compose(handler, base)
            },
            ChatEvent::PromptComposed { prompt, mode } => self.composed(prompt, mode),
            ChatEvent::Welcomed => self.store_message(),
            ChatEvent::UserMessageStored(Err(e)) => self.fail(e),
            ChatEvent::UserMessageStored(Ok(tools)) => {
                let mut run = self;
                run.tools = tools;
                run.round()
            },
            ChatEvent::MessagesLoaded(Err(e)) => self.fail(e),
            ChatEvent::MessagesLoaded(Ok(stored)) => {
                let mut run = self;
                run.phase = Phase::Model;
                let action = ChatAction::CallModel {
                    messages: build_messages(&stored),
                    tools: !run.tools_executed && run.tools > 0,
                    model: copy_opt(&run.model),
                };
                (run, action)
            },
            ChatEvent::ModelAnswered(reply) => self.answered(reply),
            ChatEvent::ToolCallsStored(Err(e)) => self.fail(e),
            ChatEvent::ToolCallsStored(Ok(_)) => self.tool(),
            ChatEvent::ProgressSent => {
                let mut run = self;
                run.phase = Phase::Tool;
                let call = run.calls[run.next_call].clone();
                (run, ChatAction::ExecuteTool { call })
            },
            ChatEvent::ToolExecuted(content) => {
                let mut run = self;
                run.phase = Phase::ToolResult;
                let action = ChatAction::StoreToolResult {
                    conversation: run.message.reply_target.clone(),
                    id: run.calls[run.next_call].id.clone(),
                    result: content,
                };
                (run, action)
            },
            ChatEvent::ToolResultStored(Err(e)) => self.fail(e),
            ChatEvent::ToolResultStored(Ok(_)) => {
                let mut run = self;
                run.phase = Phase::Done;
                assert(run.next_call < run.calls.len());
                run.next_call = run.next_call + 1;
                run.tool()
            },
            ChatEvent::AnswerStored(Err(e)) => self.fail(e),
            ChatEvent::AnswerStored(Ok(_)) => {
                if handler.payment_gate {
                    let mut run = self;
                    run.phase = Phase::Usage;
                    let action = ChatAction::RecordUsage {
                        user: run.message.source.clone(),
                        conversation: run.message.reply_target.clone(),
                        prompt_tokens: run.prompt_tokens,
                        completion_tokens: run.completion_tokens,
                    };
                    (run, action)
                } else {
                    let answer = self.answer.clone();
                    self.reply(answer)
                }
            },
            ChatEvent::UsageRecorded(suffix) => {
                let mut answer = self.answer.clone();
                if let Some(s) = suffix {
                    answer.append(s.as_str());
                }
                self.reply(answer)
            },
        }
    }

    fn reply(self, text: String) -> (r: (ChatRun, ChatAction))
        ensures
            (r.0@, r.1@) == self@.reply(text@),
    {
        let mut run = self;
        run.phase = Phase::Done;
        (run, ChatAction::Reply(text))
    }

    fn fail(self, reason: String) -> (r: (ChatRun, ChatAction))
        ensures
            (r.0@, r.1@) == self@.fail(reason@),
    {
        let mut run = self;
        run.phase = Phase::Done;
        (run, ChatAction::Fail(reason))
    }

    fn looked_up(self, handler: &ChatHandler, known: bool) -> (r: (ChatRun, ChatAction))
        requires
            self@.phase == Phase::LookUp,
        ensures
            (r.0@, r.1@) == self@.after(handler@, ChatEvent::LookedUp(known)),
    {
        let mut run = self;
        run.new_user = !known;
        if !handler.payment_gate {
            return run.config(handler);
        }
        run.phase = Phase::Access;
        let action = if run.message.is_group {
            ChatAction::CheckGroupAccess { group: run.message.reply_target.clone() }
        } else {
            ChatAction::CheckAccess {
                user: run.message.source.clone(),
                message_len: run.text.as_str().as_bytes().len(),
            }
        };
        (run, action)
    }

    fn config(self, handler: &ChatHandler) -> (r: (ChatRun, ChatAction))
        ensures
            (r.0@, r.1@) == self@.config(handler@),
    {
        if handler.bot_config {
            let mut run = self;
            run.phase = Phase::Config;
            let account = run.message.receiving_account.clone();
            (run, ChatAction::FetchConfig { account })
        } else {
            self.compose(handler, handler.system_prompt.clone())
        }
    }

    fn compose(self, handler: &ChatHandler, base: String) -> (r: (ChatRun, ChatAction))
        ensures
            (r.0@, r.1@) == self@.compose(handler@, base@),
    {
        let mut run = self;
        run.phase = Phase::Prompt;
        let action = ChatAction::ComposePrompt {
            base,
            username: copy_opt(&handler.signal_username),
            repo: copy_opt(&handler.github_repo),
        };
        (run, action)
    }

    fn composed(self, prompt: String, mode: GroupMode) -> (r: (ChatRun, ChatAction))
        requires
            self@.phase == Phase::Prompt,
        ensures
            forall|handler: HandlerView|
                (r.0@, r.1@) == #[trigger] self@.after(
                    handler,
                    ChatEvent::PromptComposed { prompt, mode },
                ),
    {
        let mut full = prompt.clone();
        if self.message.is_group {
            full.append(mode.system_prompt_suffix());
        }
        let mut run = self;
        run.prompt = full;
        if run.new_user && !run.message.is_group {
            run.phase = Phase::Welcome;
            (run, ChatAction::Welcome { text: WELCOME.to_owned() })
        } else {
            run.store_message()
        }
    }

    fn store_message(self) -> (r: (ChatRun, ChatAction))
        ensures
            (r.0@, r.1@) == self@.store_message(),
    {
        let mut run = self;
        run.phase = Phase::UserMessage;
        let action = ChatAction::StoreUserMessage {
            conversation: run.message.reply_target.clone(),
            text: run.text.clone(),
            prompt: run.prompt.clone(),
        };
        (run, action)
    }

    fn round(self) -> (r: (ChatRun, ChatAction))
        ensures
            (r.0@, r.1@) == self@.round(),
    {
        if self.iteration < self.limit {
            let mut run = self;
            run.phase = Phase::Messages;
            let action = ChatAction::LoadMessages {
                conversation: run.message.reply_target.clone(),
                prompt: run.prompt.clone(),
            };
            (run, action)
        } else {
            self.reply(TOO_MANY_TOOLS.to_owned())
        }
    }

    fn tool(self) -> (r: (ChatRun, ChatAction))
        requires
            self@.iteration < self@.limit,
        ensures
            (r.0@, r.1@) == self@.tool(),
    {
        let mut run = self;
        if run.next_call < run.calls.len() {
            run.phase = Phase::Progress;
            let mut text = "🔧 Using ".to_owned();
            text.append(run.calls[run.next_call].name.as_str());
            text.append("...");
            let action = ChatAction::SendProgress {
                account: run.message.receiving_account.clone(),
                target: run.message.reply_target.clone(),
                text,
            };
            (run, action)
        } else {
            run.phase = Phase::Done;
            run.tools_executed = true;
            run.iteration = run.iteration + 1;
            run.round()
        }
    }

    fn answered(self, reply: ModelReply) -> (r: (ChatRun, ChatAction))
        requires
            self@.takes(ChatEvent::ModelAnswered(reply)),
        ensures
            (r.0@, r.1@) == self@.answered(reply),
    {
        proof {
            use_type_invariant(&self);
        }
        match reply {
            ModelReply::RateLimited => self.reply(TOO_MANY_REQUESTS.to_owned()),
            ModelReply::Empty => self.reply(EMPTY_RESPONSE.to_owned()),
            ModelReply::Failed => self.reply(SERVICE_ERROR.to_owned()),
            ModelReply::Response { content, tool_calls, usage } => {
                let mut run = self;
                if let Some(u) = usage {
                    run.prompt_tokens = run.prompt_tokens + u.prompt_tokens;
                    run.completion_tokens = run.completion_tokens + u.completion_tokens;
                }
                if let Some(calls) = tool_calls {
                    if calls.len() > 0 {
                        let action = ChatAction::StoreToolCalls {
                            conversation: run.message.reply_target.clone(),
                            content,
                            calls: to_stored(&calls),
                        };
                        run.calls = calls;
                        run.next_call = 0;
                        run.phase = Phase::ToolCalls;
                        return (run, action);
                    }
                }
                let answer = match content {
                    Some(c) => c,
                    None => NO_RESPONSE.to_owned(),
                };
                run.answer = answer.clone();
                run.phase = Phase::Answer;
                let action = ChatAction::StoreAnswer {
                    conversation: run.message.reply_target.clone(),
                    text: answer,
                };
                (run, action)
            },
        }
    }
}

} // verus!
