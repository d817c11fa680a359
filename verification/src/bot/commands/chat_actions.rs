//! What each action of a run carries, told by the handler, the message and the events alone.
use vstd::prelude::*;
use vstd::utf8::*;

use crate::bot::bot_config::BotConfigView;
use crate::bot::commands::chat::{
    ActionView, ChatAction, ChatEvent, ChatHandler, ChatRun, HandlerView, ModelReply,
    Phase, RunView,
};
use crate::bot::commands::chat_laws::{
    history, law_runs_stay_valid, lemma_model_calls, model_calls, possible, total_tokens,
};
use crate::bot::commands::conversation::{calls_view, model_messages, stored_view, ToolCallView};
use crate::bot::commands::message::{BotMessage, MessageView};
use crate::bot::group::{GroupMode, TRANSLATOR_PROMPT};
use crate::text::opt_view;

verus! {

/// What is to be done after the events.
pub open spec fn next(
    handler: HandlerView,
    message: MessageView,
    mode: GroupMode,
    events: Seq<ChatEvent>,
) -> ActionView {
    history(handler, message, mode, events).1.last()
}

/// Whether the conversation was known when it was looked up last.
pub open spec fn latest_known(events: Seq<ChatEvent>) -> Option<bool>
    decreases events.len(),
{
    if events.len() == 0 {
        None
    } else {
        match events.last() {
            ChatEvent::LookedUp(known) => Some(known),
            _ => latest_known(events.drop_last()),
        }
    }
}

/// The configuration that was fetched last.
pub open spec fn latest_config(events: Seq<ChatEvent>) -> Option<BotConfigView>
    decreases events.len(),
{
    if events.len() == 0 {
        None
    } else {
        match events.last() {
            ChatEvent::ConfigFetched(config) => Some(config@),
            _ => latest_config(events.drop_last()),
        }
    }
}

/// The system prompt that was composed last, and the mode of the group then.
pub open spec fn latest_prompt(events: Seq<ChatEvent>) -> Option<(Seq<char>, GroupMode)>
    decreases events.len(),
{
    if events.len() == 0 {
        None
    } else {
        match events.last() {
            ChatEvent::PromptComposed { prompt, mode } => Some((prompt@, mode)),
            _ => latest_prompt(events.drop_last()),
        }
    }
}

/// The number of tools that there were when the user's message was stored last.
pub open spec fn latest_tools(events: Seq<ChatEvent>) -> nat
    decreases events.len(),
{
    if events.len() == 0 {
        0
    } else {
        match events.last() {
            ChatEvent::UserMessageStored(Ok(tools)) => tools as nat,
            _ => latest_tools(events.drop_last()),
        }
    }
}

/// What the language model answered last.
pub open spec fn latest_reply(events: Seq<ChatEvent>) -> Option<ModelReply>
    decreases events.len(),
{
    if events.len() == 0 {
        None
    } else {
        match events.last() {
            ChatEvent::ModelAnswered(reply) => Some(reply),
            _ => latest_reply(events.drop_last()),
        }
    }
}

/// The number of tool results that were stored since the language model answered last.
pub open spec fn results_stored(events: Seq<ChatEvent>) -> nat
    decreases events.len(),
{
    if events.len() == 0 {
        0
    } else {
        match events.last() {
            ChatEvent::ModelAnswered(_) => 0,
            ChatEvent::ToolResultStored(Ok(_)) => results_stored(events.drop_last()) + 1,
            _ => results_stored(events.drop_last()),
        }
    }
}

/// A tool was run.
pub open spec fn tool_ran(events: Seq<ChatEvent>) -> bool
    decreases events.len(),
{
    events.len() > 0 && (events.last() is ToolExecuted || tool_ran(events.drop_last()))
}

/// The tool calls of an answer of the language model.
pub open spec fn calls_in(reply: ModelReply) -> Seq<ToolCallView> {
    match reply {
        ModelReply::Response { tool_calls: Some(calls), .. } => calls_view(calls@),
        _ => Seq::empty(),
    }
}

/// The tool calls of the last answer of the language model.
pub open spec fn latest_calls(events: Seq<ChatEvent>) -> Seq<ToolCallView> {
    match latest_reply(events) {
        Some(reply) => calls_in(reply),
        None => Seq::empty(),
    }
}

/// What the user is told by an answer of the language model.
pub open spec fn said_in(reply: ModelReply) -> Seq<char> {
    match reply {
        ModelReply::Response { content: Some(text), .. } => text@,
        _ => "I don't have a response."@,
    }
}

/// The system prompt of the run: that which was composed, and in a group that translates the
/// translator's besides.
pub open spec fn prompt_for(message: MessageView, events: Seq<ChatEvent>) -> Seq<char> {
    let (prompt, mode) = latest_prompt(events)->0;
    if message.is_group && mode == GroupMode::Translate {
        prompt + TRANSLATOR_PROMPT@
    } else {
        prompt
    }
}

/// The state holds what the events have told.
spec fn remembers(
    run: RunView,
    handler: HandlerView,
    message: MessageView,
    events: Seq<ChatEvent>,
) -> bool {
    &&& run.message == message
    &&& run.text == handler.said(message)
    &&& run.limit == handler.max_tool_iterations
    &&& run.phase != Phase::LookUp && run.phase != Phase::Done ==> latest_known(events) == Some(
        !run.new_user,
    )
    &&& run.model == (match latest_config(events) {
        Some(config) => config.model,
        None => None,
    })
    &&& run.phase == Phase::Welcome || run.phase == Phase::UserMessage || run.phase.in_round() ==> {
        &&& latest_prompt(events) is Some
        &&& run.prompt == prompt_for(message, events)
    }
    &&& run.phase.in_round() ==> run.tools == latest_tools(events)
    &&& run.phase.on_tools() ==> {
        &&& run.calls == latest_calls(events)
        &&& run.next_call == results_stored(events)
        &&& run.next_call < run.calls.len()
    }
    &&& run.phase == Phase::Answer || run.phase == Phase::Usage ==> {
        &&& latest_reply(events) matches Some(reply)
        &&& reply is Response
        &&& run.answer == said_in(reply)
    }
    &&& run.tools_executed ==> tool_ran(events)
    &&& run.phase == Phase::ToolResult ==> tool_ran(events)
    &&& run.phase.on_tools() && run.next_call > 0 ==> tool_ran(events)
    &&& tool_ran(events) && run.phase.in_round() ==> {
        ||| run.tools_executed
        ||| run.phase == Phase::ToolResult
        ||| run.phase.on_tools() && run.next_call > 0
    }
    &&& !run.phase.in_round() && run.phase != Phase::Done ==> !tool_ran(events)
}

#[verifier::rlimit(40)]
proof fn lemma_remembers(
    handler: HandlerView,
    message: MessageView,
    mode: GroupMode,
    events: Seq<ChatEvent>,
)
    requires
        possible(handler, message, mode, events),
    ensures
        remembers(history(handler, message, mode, events).0, handler, message, events),
    decreases events.len(),
{
    if events.len() > 0 {
        let before = events.drop_last();
        lemma_remembers(handler, message, mode, before);
        law_runs_stay_valid(handler, message, mode, before);
        let run = history(handler, message, mode, before).0;
        if let ChatEvent::PromptComposed { prompt, mode: group_mode } = events.last() {
            reveal_strlit("");
            assert(prompt@ + ""@ =~= prompt@);
        }
    }
}

/// Everything happens in the conversation of the message, that of the group where it was sent to
/// one, and in the name of the account that received it.
pub proof fn law_a_run_stays_in_its_conversation(
    handler: HandlerView,
    message: MessageView,
    mode: GroupMode,
    events: Seq<ChatEvent>,
    i: int,
)
    requires
        0 <= i < history(handler, message, mode, events).1.len(),
    ensures
        match history(handler, message, mode, events).1[i] {
            ActionView::LookUp { conversation } => conversation == message.reply_target,
            ActionView::StoreUserMessage { conversation, .. } => conversation
                == message.reply_target,
            ActionView::LoadMessages { conversation, .. } => conversation == message.reply_target,
            ActionView::StoreToolCalls { conversation, .. } => conversation
                == message.reply_target,
            ActionView::StoreToolResult { conversation, .. } => conversation
                == message.reply_target,
            ActionView::StoreAnswer { conversation, .. } => conversation == message.reply_target,
            ActionView::RecordUsage { conversation, user, .. } => conversation
                == message.reply_target && user == message.source,
            ActionView::CheckGroupAccess { group } => group == message.reply_target,
            ActionView::CheckAccess { user, .. } => user == message.source,
            ActionView::SendProgress { account, target, .. } => account
                == message.receiving_account && target == message.reply_target,
            ActionView::FetchConfig { account } => account == message.receiving_account,
            ActionView::ComposePrompt { username, repo, .. } => username == handler.signal_username
                && repo == handler.github_repo,
            _ => true,
        },
    decreases events.len(),
{
    lemma_same_message(handler, message, mode, events);
    if events.len() > 0 {
        let before = events.drop_last();
        lemma_same_message(handler, message, mode, before);
        if i < history(handler, message, mode, before).1.len() {
            law_a_run_stays_in_its_conversation(handler, message, mode, before, i);
        }
    }
}

proof fn lemma_same_message(
    handler: HandlerView,
    message: MessageView,
    mode: GroupMode,
    events: Seq<ChatEvent>,
)
    ensures
        history(handler, message, mode, events).0.message == message,
    decreases events.len(),
{
    if events.len() > 0 {
        lemma_same_message(handler, message, mode, events.drop_last());
    }
}

/// A message to the bot alone is answered, and so is every message to a group that translates. Any
/// other message to a group is answered where it mentions the bot, and else left without a reply.
pub proof fn law_who_is_answered(
    handler: HandlerView,
    message: MessageView,
    mode: GroupMode,
)
    ensures
        ({
            let first = next(handler, message, mode, Seq::empty());
            if !message.is_group || mode == GroupMode::Translate || handler.is_mentioned(
                message.text,
            ) {
                first == ActionView::LookUp { conversation: message.reply_target }
            } else {
                first is Reply && first->Reply_0.len() == 0
            }
        }),
{
    reveal_strlit("");
}

/// Where there is a payment gate, it is asked about the group or else about the sender and the
/// length, in bytes, of what they say; where there is none, the system prompt is next.
pub proof fn law_access_is_asked_first(
    handler: HandlerView,
    message: MessageView,
    mode: GroupMode,
    events: Seq<ChatEvent>,
)
    requires
        possible(handler, message, mode, events),
        events.len() > 0,
        events.last() is LookedUp,
    ensures
        ({
            let action = next(handler, message, mode, events);
            if !handler.payment_gate {
                action is FetchConfig || action is ComposePrompt
            } else if message.is_group {
                action == ActionView::CheckGroupAccess { group: message.reply_target }
            } else {
                action == ActionView::CheckAccess {
                    user: message.source,
                    message_len: encode_utf8(message.text).len(),
                }
            }
        }),
{
    lemma_remembers(handler, message, mode, events.drop_last());
}

/// A refusal is what the sender is told, and nothing else happens; a message that is let through
/// goes on to the system prompt.
pub proof fn law_access_decides(
    handler: HandlerView,
    message: MessageView,
    mode: GroupMode,
    events: Seq<ChatEvent>,
)
    requires
        possible(handler, message, mode, events),
        events.len() > 0,
        events.last() is AccessChecked,
    ensures
        ({
            let action = next(handler, message, mode, events);
            match events.last()->AccessChecked_0 {
                Err(refusal) => action == ActionView::Reply(refusal@),
                Ok(_) => if handler.bot_config {
                    action is FetchConfig
                } else {
                    action is ComposePrompt
                },
            }
        }),
{
    lemma_remembers(handler, message, mode, events.drop_last());
}

/// The system prompt is made from the account's own one, where it has one, and else from that of
/// the handler. The account's configuration is asked for where accounts have one, and only there.
pub proof fn law_accounts_have_their_own_prompt(
    handler: HandlerView,
    message: MessageView,
    mode: GroupMode,
    events: Seq<ChatEvent>,
)
    requires
        possible(handler, message, mode, events),
    ensures
        next(handler, message, mode, events) matches ActionView::ComposePrompt { base, .. } ==> {
            &&& base == (match latest_config(events) {
                Some(config) => match config.system_prompt {
                    Some(prompt) => prompt,
                    None => handler.system_prompt,
                },
                None => handler.system_prompt,
            })
            &&& latest_config(events) is Some <==> handler.bot_config
        },
        next(handler, message, mode, events) is FetchConfig ==> handler.bot_config,
        events.len() > 0 && events.last() is ConfigFetched ==> next(
            handler,
            message,
            mode,
            events,
        ) is ComposePrompt,
{
    lemma_remembers(handler, message, mode, events);
    lemma_config_once(handler, message, mode, events);
    if events.len() > 0 {
        lemma_remembers(handler, message, mode, events.drop_last());
        lemma_config_once(handler, message, mode, events.drop_last());
    }
}

/// The configuration is fetched once at most, before the system prompt is composed.
proof fn lemma_config_once(
    handler: HandlerView,
    message: MessageView,
    mode: GroupMode,
    events: Seq<ChatEvent>,
)
    requires
        possible(handler, message, mode, events),
    ensures
        ({
            let run = history(handler, message, mode, events).0;
            run.phase == Phase::LookUp || run.phase == Phase::Access || run.phase == Phase::Config
                ==> latest_config(events) is None
        }),
        history(handler, message, mode, events).0.phase == Phase::Config ==> handler.bot_config,
    decreases events.len(),
{
    if events.len() > 0 {
        lemma_config_once(handler, message, mode, events.drop_last());
    }
}

/// A user whose conversation is new is welcomed before anything else is sent, unless they write in
/// a group; nobody else is.
pub proof fn law_new_users_are_welcomed(
    handler: HandlerView,
    message: MessageView,
    mode: GroupMode,
    events: Seq<ChatEvent>,
)
    requires
        possible(handler, message, mode, events),
        events.len() > 0,
        events.last() is PromptComposed,
    ensures
        ({
            let action = next(handler, message, mode, events);
            if latest_known(events) == Some(false) && !message.is_group {
                action == ActionView::Welcome {
                    text:
                        "Welcome! I'm an AI assistant running securely in a TEE. Send `!help` for commands or just start chatting."@,
                }
            } else {
                action is StoreUserMessage
            }
        }),
{
    lemma_remembers(handler, message, mode, events.drop_last());
}

/// What is stored as the user's message is what the user said, and the conversation is kept under
/// the system prompt that was composed, in a group with what its mode adds.
pub proof fn law_messages_are_stored_as_said(
    handler: HandlerView,
    message: MessageView,
    mode: GroupMode,
    events: Seq<ChatEvent>,
)
    requires
        possible(handler, message, mode, events),
    ensures
        next(handler, message, mode, events) matches ActionView::StoreUserMessage {
            text,
            prompt,
            ..
        } ==> {
            &&& prompt == prompt_for(message, events)
            &&& !message.is_group ==> text == message.text
            &&& message.is_group ==> text == handler.without_mention(message.text)
        },
        next(handler, message, mode, events) matches ActionView::LoadMessages { prompt, .. } ==> {
            prompt == prompt_for(message, events)
        },
        events.len() > 0 && events.last() is Welcomed ==> next(
            handler,
            message,
            mode,
            events,
        ) is StoreUserMessage,
{
    lemma_remembers(handler, message, mode, events);
    if events.len() > 0 {
        lemma_remembers(handler, message, mode, events.drop_last());
    }
}

/// The language model is called with the conversation that was loaded and with the account's model,
/// and tools are offered to it where there are any and none was run before.
pub proof fn law_the_model_is_called_on_the_conversation(
    handler: HandlerView,
    message: MessageView,
    mode: GroupMode,
    events: Seq<ChatEvent>,
)
    requires
        possible(handler, message, mode, events),
        events.len() > 0,
        events.last() matches ChatEvent::MessagesLoaded(Ok(_)),
    ensures
        next(handler, message, mode, events) == (ActionView::CallModel {
            messages: model_messages(events.last()->MessagesLoaded_0->Ok_0@),
            tools: latest_tools(events) > 0 && !tool_ran(events),
            model: match latest_config(events) {
                Some(config) => config.model,
                None => None,
            },
        }),
{
    lemma_remembers(handler, message, mode, events.drop_last());
    law_runs_stay_valid(handler, message, mode, events.drop_last());
}

/// The tool calls that the language model asks for are stored, in their order and with their
/// identifiers, names and arguments, beside what it says.
pub proof fn law_tool_calls_are_stored_as_asked(
    handler: HandlerView,
    message: MessageView,
    mode: GroupMode,
    events: Seq<ChatEvent>,
)
    requires
        possible(handler, message, mode, events),
        events.len() > 0,
        events.last() is ModelAnswered,
        calls_in(events.last()->ModelAnswered_0).len() > 0,
    ensures
        ({
            let asked = calls_in(events.last()->ModelAnswered_0);
            &&& next(handler, message, mode, events) matches ActionView::StoreToolCalls {
                content,
                calls,
                ..
            }
            &&& content == opt_view(events.last()->ModelAnswered_0->content)
            &&& calls.len() == asked.len()
            &&& forall|k: int|
                0 <= k < asked.len() ==> {
                    &&& (#[trigger] calls[k]).id == asked[k].id
                    &&& calls[k].name == asked[k].name
                    &&& calls[k].arguments == asked[k].arguments
                }
        }),
{
    lemma_remembers(handler, message, mode, events.drop_last());
}

/// The tool calls of an answer are worked on one after the other, in their order. Before the one
/// whose turn it is, the user is told its name; then it is run, and its result is stored under its
/// identifier.
pub proof fn law_tool_calls_take_turns(
    handler: HandlerView,
    message: MessageView,
    mode: GroupMode,
    events: Seq<ChatEvent>,
)
    requires
        possible(handler, message, mode, events),
        events.len() > 0,
    ensures
        ({
            let calls = latest_calls(events);
            let k = results_stored(events);
            match events.last() {
                ChatEvent::ProgressSent => k < calls.len() && next(handler, message, mode, events)
                    == (ActionView::ExecuteTool { call: calls[k as int] }),
                ChatEvent::ToolExecuted(result) => k < calls.len() && next(
                    handler,
                    message,
                    mode,
                    events,
                ) == (ActionView::StoreToolResult {
                    conversation: message.reply_target,
                    id: calls[k as int].id,
                    result: result@,
                }),
                ChatEvent::ToolCallsStored(Ok(_)) => k == 0 && calls.len() > 0 && next(
                    handler,
                    message,
                    mode,
                    events,
                ) == (ActionView::SendProgress {
                    account: message.receiving_account,
                    target: message.reply_target,
                    text: "🔧 Using "@ + calls[0].name + "..."@,
                }),
                ChatEvent::ToolResultStored(Ok(_)) => k < calls.len() ==> next(
                    handler,
                    message,
                    mode,
                    events,
                ) == (ActionView::SendProgress {
                    account: message.receiving_account,
                    target: message.reply_target,
                    text: "🔧 Using "@ + calls[k as int].name + "..."@,
                }),
                _ => true,
            }
        }),
{
    lemma_remembers(handler, message, mode, events.drop_last());
    lemma_no_results_yet(handler, message, mode, events.drop_last());
    law_runs_stay_valid(handler, message, mode, events.drop_last());
}

proof fn lemma_no_results_yet(
    handler: HandlerView,
    message: MessageView,
    mode: GroupMode,
    events: Seq<ChatEvent>,
)
    requires
        possible(handler, message, mode, events),
    ensures
        history(handler, message, mode, events).0.phase == Phase::ToolCalls ==> results_stored(
            events,
        ) == 0,
    decreases events.len(),
{
    if events.len() > 0 {
        lemma_no_results_yet(handler, message, mode, events.drop_last());
    }
}

/// The tool calls that were run since the language model was called last.
pub open spec fn run_since_call(actions: Seq<ActionView>) -> Seq<ToolCallView>
    decreases actions.len(),
{
    if actions.len() == 0 {
        Seq::empty()
    } else {
        match actions.last() {
            ActionView::CallModel { .. } => Seq::empty(),
            ActionView::ExecuteTool { call } => run_since_call(actions.drop_last()).push(call),
            _ => run_since_call(actions.drop_last()),
        }
    }
}

/// Between two calls of the language model the tool calls of its answer are run, each once and in
/// their order, and all of them before it is called again.
pub proof fn law_every_tool_call_is_run_once(
    handler: HandlerView,
    message: MessageView,
    mode: GroupMode,
    events: Seq<ChatEvent>,
)
    requires
        possible(handler, message, mode, events),
    ensures
        ({
            let ran = run_since_call(history(handler, message, mode, events).1);
            let action = next(handler, message, mode, events);
            &&& ran.len() > 0 ==> ran.is_prefix_of(latest_calls(events))
            &&& action is LoadMessages && latest_reply(events) is Some ==> ran == latest_calls(
                events,
            )
        }),
{
    lemma_run_since_call(handler, message, mode, events);
    lemma_remembers(handler, message, mode, events);
    if events.len() > 0 {
        lemma_run_since_call(handler, message, mode, events.drop_last());
        lemma_remembers(handler, message, mode, events.drop_last());
    }
}

#[verifier::rlimit(40)]
proof fn lemma_run_since_call(
    handler: HandlerView,
    message: MessageView,
    mode: GroupMode,
    events: Seq<ChatEvent>,
)
    requires
        possible(handler, message, mode, events),
    ensures
        ({
            let (run, actions) = history(handler, message, mode, events);
            let ran = run_since_call(actions);
            &&& !run.phase.in_round() && run.phase != Phase::Done ==> {
                &&& ran.len() == 0
                &&& latest_reply(events) is None
            }
            &&& run.phase == Phase::Messages ==> ran == latest_calls(events)
            &&& run.phase == Phase::Model ==> ran.len() == 0
            &&& run.phase == Phase::ToolCalls || run.phase == Phase::Progress ==> ran
                == latest_calls(events).take(run.next_call as int)
            &&& run.phase == Phase::Tool || run.phase == Phase::ToolResult ==> ran == latest_calls(
                events,
            ).take(run.next_call as int + 1)
            &&& run.phase == Phase::Answer || run.phase == Phase::Usage ==> ran.len() == 0
            &&& run.phase == Phase::Done && ran.len() > 0 ==> ran.is_prefix_of(latest_calls(events))
        }),
    decreases events.len(),
{
    if events.len() > 0 {
        let before = events.drop_last();
        let (run, actions) = history(handler, message, mode, before);
        lemma_run_since_call(handler, message, mode, before);
        lemma_remembers(handler, message, mode, before);
        law_runs_stay_valid(handler, message, mode, before);
        let (after, action) = run.after(handler, events.last());
        assert(actions.push(action).drop_last() =~= actions);
        let calls = latest_calls(before);
        if run.phase.on_tools() {
            let k = run.next_call as int;
            assert(calls.take(k + 1) =~= calls.take(k).push(calls[k]));
            assert(calls.take(calls.len() as int) =~= calls);
            assert(calls.take(k).is_prefix_of(calls));
            assert(calls.take(k + 1).is_prefix_of(calls));
        }
        if run.phase == Phase::Messages && latest_reply(before) is Some {
            assert(calls.is_prefix_of(calls));
        }
        if run.phase == Phase::Model {
            assert(latest_calls(events).take(0) =~= Seq::empty());
        }
    } else {
        let action = history(handler, message, mode, events).1[0];
        assert(seq![action].drop_last() =~= Seq::empty());
        assert(run_since_call(Seq::empty()).len() == 0);
    }
}

/// Once the user's message is stored, or all tool calls of an answer were run, the conversation is
/// loaded for the language model as long as it was called fewer times than it may be; after that
/// the user is told so.
pub proof fn law_rounds_go_on_up_to_the_limit(
    handler: HandlerView,
    message: MessageView,
    mode: GroupMode,
    events: Seq<ChatEvent>,
)
    requires
        possible(handler, message, mode, events),
        events.len() > 0,
        events.last() matches ChatEvent::UserMessageStored(Ok(_)) || (
        events.last() matches ChatEvent::ToolResultStored(Ok(_)) && results_stored(events)
            >= latest_calls(events).len()),
    ensures
        ({
            let action = next(handler, message, mode, events);
            if model_calls(history(handler, message, mode, events).1)
                < handler.max_tool_iterations {
                action is LoadMessages
            } else {
                action == ActionView::Reply(
                    "I've reached my maximum number of tool uses for this request. Please start a new conversation."@,
                )
            }
        }),
{
    let before = events.drop_last();
    let (run, actions) = history(handler, message, mode, before);
    lemma_remembers(handler, message, mode, before);
    law_runs_stay_valid(handler, message, mode, before);
    lemma_model_calls(handler, message, mode, before);
    reveal(Seq::filter);
    let action = run.after(handler, events.last()).1;
    assert(actions.push(action).drop_last() =~= actions);
    assert(model_calls(actions.push(action)) == model_calls(actions));
}

/// What the language model says is the answer, or an apology where it says nothing: it is stored,
/// its usage is recorded where there is a payment gate, and the user gets it, with what is added to
/// it for the usage.
pub proof fn law_answers_reach_the_user(
    handler: HandlerView,
    message: MessageView,
    mode: GroupMode,
    events: Seq<ChatEvent>,
)
    requires
        possible(handler, message, mode, events),
        events.len() > 0,
    ensures
        ({
            let action = next(handler, message, mode, events);
            match events.last() {
                ChatEvent::ModelAnswered(reply) => reply is Response && calls_in(reply).len() == 0
                    ==> action == (ActionView::StoreAnswer {
                    conversation: message.reply_target,
                    text: said_in(reply),
                }),
                ChatEvent::AnswerStored(Ok(_)) => if handler.payment_gate {
                    action == (ActionView::RecordUsage {
                        user: message.source,
                        conversation: message.reply_target,
                        prompt_tokens: total_tokens(events).0,
                        completion_tokens: total_tokens(events).1,
                    })
                } else {
                    action == ActionView::Reply(said_in(latest_reply(events)->0))
                },
                ChatEvent::UsageRecorded(Some(note)) => action == ActionView::Reply(
                    said_in(latest_reply(events)->0) + note@,
                ),
                ChatEvent::UsageRecorded(None) => action == ActionView::Reply(
                    said_in(latest_reply(events)->0),
                ),
                _ => true,
            }
        }),
{
    lemma_remembers(handler, message, mode, events.drop_last());
    lemma_tokens(handler, message, mode, events.drop_last());
}

proof fn lemma_tokens(
    handler: HandlerView,
    message: MessageView,
    mode: GroupMode,
    events: Seq<ChatEvent>,
)
    requires
        possible(handler, message, mode, events),
    ensures
        ({
            let run = history(handler, message, mode, events).0;
            &&& run.prompt_tokens == total_tokens(events).0
            &&& run.completion_tokens == total_tokens(events).1
        }),
    decreases events.len(),
{
    if events.len() > 0 {
        lemma_tokens(handler, message, mode, events.drop_last());
    }
}

/// One more answer of the language model adds its tokens to those that were counted, each kind to
/// its own; nothing else adds any.
pub proof fn law_tokens_add_up(events: Seq<ChatEvent>, event: ChatEvent)
    ensures
        total_tokens(Seq::empty()) == (0int, 0int),
        ({
            let before = total_tokens(events);
            let after = total_tokens(events.push(event));
            match event {
                ChatEvent::ModelAnswered(ModelReply::Response { usage: Some(u), .. }) => {
                    &&& after.0 == before.0 + u.prompt_tokens
                    &&& after.1 == before.1 + u.completion_tokens
                },
                _ => after == before,
            }
        }),
{
    assert(events.push(event).drop_last() =~= events);
}

/// Where the language model does not answer, the user is told why, and nothing is stored.
pub proof fn law_model_failures_are_told(
    handler: HandlerView,
    message: MessageView,
    mode: GroupMode,
    events: Seq<ChatEvent>,
)
    requires
        possible(handler, message, mode, events),
        events.len() > 0,
        events.last() is ModelAnswered,
    ensures
        ({
            let action = next(handler, message, mode, events);
            match events.last()->ModelAnswered_0 {
                ModelReply::RateLimited => action == ActionView::Reply(
                    "I'm receiving too many requests. Please wait a moment and try again."@,
                ),
                ModelReply::Empty => action == ActionView::Reply(
                    "The AI service returned an empty response. Please try rephrasing your message."@,
                ),
                ModelReply::Failed => action == ActionView::Reply(
                    "Sorry, I encountered an error connecting to the AI service. Please try again."@,
                ),
                ModelReply::Response { .. } => action is StoreToolCalls || action is StoreAnswer,
            }
        }),
{
}

/// Where the conversation cannot be read or written, the run ends with the reason.
pub proof fn law_failures_end_the_run(
    handler: HandlerView,
    message: MessageView,
    mode: GroupMode,
    events: Seq<ChatEvent>,
)
    requires
        possible(handler, message, mode, events),
        events.len() > 0,
    ensures
        ({
            let action = next(handler, message, mode, events);
            match events.last() {
                ChatEvent::UserMessageStored(Err(e)) => action == ActionView::Fail(e@),
                ChatEvent::MessagesLoaded(Err(e)) => action == ActionView::Fail(e@),
                ChatEvent::ToolCallsStored(Err(e)) => action == ActionView::Fail(e@),
                ChatEvent::ToolResultStored(Err(e)) => action == ActionView::Fail(e@),
                ChatEvent::AnswerStored(Err(e)) => action == ActionView::Fail(e@),
                _ => !(action is Fail),
            }
        }),
{
    law_runs_stay_valid(handler, message, mode, events.drop_last());
}

/// The event is an end of the work that an action asks for.
pub open spec fn ends(action: ActionView, event: ChatEvent) -> bool {
    match action {
        ActionView::LookUp { .. } => event is LookedUp,
        ActionView::CheckGroupAccess { .. } => event is AccessChecked,
        ActionView::CheckAccess { .. } => event is AccessChecked,
        ActionView::FetchConfig { .. } => event is ConfigFetched,
        ActionView::ComposePrompt { .. } => event is PromptComposed,
        ActionView::Welcome { .. } => event is Welcomed,
        ActionView::StoreUserMessage { .. } => event is UserMessageStored,
        ActionView::LoadMessages { .. } => event is MessagesLoaded,
        ActionView::CallModel { .. } => event is ModelAnswered,
        ActionView::StoreToolCalls { .. } => event is ToolCallsStored,
        ActionView::SendProgress { .. } => event is ProgressSent,
        ActionView::ExecuteTool { .. } => event is ToolExecuted,
        ActionView::StoreToolResult { .. } => event is ToolResultStored,
        ActionView::StoreAnswer { .. } => event is AnswerStored,
        ActionView::RecordUsage { .. } => event is UsageRecorded,
        ActionView::Reply(_) => false,
        ActionView::Fail(_) => false,
    }
}

/// An event can come where it ends the work that was asked for last and the tokens that were used
/// can be counted, and nowhere else.
pub proof fn law_events_end_the_work_that_was_asked_for(
    handler: HandlerView,
    message: MessageView,
    mode: GroupMode,
    events: Seq<ChatEvent>,
    event: ChatEvent,
)
    requires
        possible(handler, message, mode, events),
    ensures
        possible(handler, message, mode, events.push(event)) <==> {
            &&& ends(next(handler, message, mode, events), event)
            &&& total_tokens(events.push(event)).0 <= u32::MAX
            &&& total_tokens(events.push(event)).1 <= u32::MAX
        },
{
    assert(events.push(event).drop_last() =~= events);
    lemma_tokens(handler, message, mode, events);
    lemma_awaited(handler, message, mode, events, event);
}

/// The phase in which the end of an action's work is awaited.
spec fn phase_for(action: ActionView) -> Phase {
    match action {
        ActionView::LookUp { .. } => Phase::LookUp,
        ActionView::CheckGroupAccess { .. } => Phase::Access,
        ActionView::CheckAccess { .. } => Phase::Access,
        ActionView::FetchConfig { .. } => Phase::Config,
        ActionView::ComposePrompt { .. } => Phase::Prompt,
        ActionView::Welcome { .. } => Phase::Welcome,
        ActionView::StoreUserMessage { .. } => Phase::UserMessage,
        ActionView::LoadMessages { .. } => Phase::Messages,
        ActionView::CallModel { .. } => Phase::Model,
        ActionView::StoreToolCalls { .. } => Phase::ToolCalls,
        ActionView::SendProgress { .. } => Phase::Progress,
        ActionView::ExecuteTool { .. } => Phase::Tool,
        ActionView::StoreToolResult { .. } => Phase::ToolResult,
        ActionView::StoreAnswer { .. } => Phase::Answer,
        ActionView::RecordUsage { .. } => Phase::Usage,
        ActionView::Reply(_) => Phase::Done,
        ActionView::Fail(_) => Phase::Done,
    }
}

proof fn lemma_phase_for(run: RunView, handler: HandlerView, event: ChatEvent)
    ensures
        run.after(handler, event).0.phase == phase_for(run.after(handler, event).1),
{
}

proof fn lemma_awaited(
    handler: HandlerView,
    message: MessageView,
    mode: GroupMode,
    events: Seq<ChatEvent>,
    event: ChatEvent,
)
    ensures
        history(handler, message, mode, events).0.awaits(event) <==> ends(
            next(handler, message, mode, events),
            event,
        ),
{
    let run = history(handler, message, mode, events).0;
    let action = next(handler, message, mode, events);
    assert(run.phase == phase_for(action)) by {
        if events.len() > 0 {
            let before = history(handler, message, mode, events.drop_last()).0;
            lemma_phase_for(before, handler, events.last());
        }
    }
    lemma_ends(run, action, event);
}

proof fn lemma_ends(run: RunView, action: ActionView, event: ChatEvent)
    requires
        run.phase == phase_for(action),
    ensures
        run.awaits(event) <==> ends(action, event),
{
}

/// The runs of which these laws speak are those that `execute` begins and `step` goes on with.
pub proof fn law_runs_are_begun_and_gone_on_with(
    handler: &ChatHandler,
    message: BotMessage,
    mode: GroupMode,
    begun: (ChatRun, ChatAction),
    events: Seq<ChatEvent>,
    run: ChatRun,
    event: ChatEvent,
    gone: (ChatRun, ChatAction),
)
    requires
        call_ensures(ChatHandler::execute, (handler, message, mode), begun),
        run@ == history(handler@, message@, mode, events).0,
        call_ensures(ChatRun::step, (run, handler, event), gone),
    ensures
        begun.0@ == history(handler@, message@, mode, Seq::empty()).0,
        begun.1@ == next(handler@, message@, mode, Seq::empty()),
        gone.0@ == history(handler@, message@, mode, events.push(event)).0,
        gone.1@ == next(handler@, message@, mode, events.push(event)),
{
    assert(events.push(event).drop_last() =~= events);
}

/// `takes` says of an event whether it can come.
pub proof fn law_takes_tells_what_can_come(
    handler: HandlerView,
    message: MessageView,
    mode: GroupMode,
    events: Seq<ChatEvent>,
    run: &ChatRun,
    event: &ChatEvent,
    r: bool,
)
    requires
        possible(handler, message, mode, events),
        run@ == history(handler, message, mode, events).0,
        call_ensures(ChatRun::takes, (run, event), r),
    ensures
        r <==> possible(handler, message, mode, events.push(*event)),
{
    assert(events.push(*event).drop_last() =~= events);
}

/// An action is seen with the texts that it holds.
pub proof fn law_actions_are_seen_with_their_texts(action: ChatAction)
    ensures
        match action {
            ChatAction::LookUp { conversation } => action@ == (ActionView::LookUp {
                conversation: conversation@,
            }),
            ChatAction::CheckGroupAccess { group } => action@ == (ActionView::CheckGroupAccess {
                group: group@,
            }),
            ChatAction::CheckAccess { user, message_len } => action@ == (ActionView::CheckAccess {
                user: user@,
                message_len: message_len as nat,
            }),
            ChatAction::FetchConfig { account } => action@ == (ActionView::FetchConfig {
                account: account@,
            }),
            ChatAction::ComposePrompt { base, username, repo } => action@ == (
            ActionView::ComposePrompt {
                base: base@,
                username: opt_view(username),
                repo: opt_view(repo),
            }),
            ChatAction::Welcome { text } => action@ == (ActionView::Welcome { text: text@ }),
            ChatAction::StoreUserMessage { conversation, text, prompt } => action@ == (
            ActionView::StoreUserMessage {
                conversation: conversation@,
                text: text@,
                prompt: prompt@,
            }),
            ChatAction::LoadMessages { conversation, prompt } => action@ == (
            ActionView::LoadMessages { conversation: conversation@, prompt: prompt@ }),
            ChatAction::CallModel { messages, tools, model } => {
                &&& action@->tools == tools
                &&& action@->model == opt_view(model)
                &&& action@->messages.len() == messages@.len()
                &&& forall|i: int|
                    0 <= i < messages@.len() ==> #[trigger] action@->messages[i] == messages@[i]@
            },
            ChatAction::StoreToolCalls { conversation, content, calls } => action@ == (
            ActionView::StoreToolCalls {
                conversation: conversation@,
                content: opt_view(content),
                calls: stored_view(calls@),
            }),
            ChatAction::SendProgress { account, target, text } => action@ == (
            ActionView::SendProgress { account: account@, target: target@, text: text@ }),
            ChatAction::ExecuteTool { call } => action@ == (ActionView::ExecuteTool {
                call: call@,
            }),
            ChatAction::StoreToolResult { conversation, id, result } => action@ == (
            ActionView::StoreToolResult {
                conversation: conversation@,
                id: id@,
                result: result@,
            }),
            ChatAction::StoreAnswer { conversation, text } => action@ == (
            ActionView::StoreAnswer { conversation: conversation@, text: text@ }),
            ChatAction::RecordUsage {
                user,
                conversation,
                prompt_tokens,
                completion_tokens,
            } => action@ == (ActionView::RecordUsage {
                user: user@,
                conversation: conversation@,
                prompt_tokens: prompt_tokens as int,
                completion_tokens: completion_tokens as int,
            }),
            ChatAction::Reply(text) => action@ == ActionView::Reply(text@),
            ChatAction::Fail(reason) => action@ == ActionView::Fail(reason@),
        },
{
}

} // verus!
