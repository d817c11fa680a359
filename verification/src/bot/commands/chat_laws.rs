//! What holds of every way in which the answering of a message can go.
use vstd::prelude::*;
use vstd::utf8::is_ascii_chars;

use crate::bot::commands::chat::{
    base_name, mentions, remove_words, started, tokens_of, ActionView, ChatEvent, ChatHandler,
    HandlerView, Phase, RunView,
};
use crate::bot::commands::message::MessageView;
use crate::bot::group::GroupMode;
use crate::text::{
    holds, holds_any_case, law_first_part_ends_at_the_separator, law_leading_pattern_is_removed,
    law_lower_case_tells_any_case, law_nothing_else_is_removed, lowered, opt_view, same_but_case,
    starts_but_case, trimmed, without_any_case,
};

verus! {

/// The state and the actions so far, after a number of events.
pub open spec fn history(
    handler: HandlerView,
    message: MessageView,
    mode: GroupMode,
    events: Seq<ChatEvent>,
) -> (RunView, Seq<ActionView>)
    decreases events.len(),
{
    if events.len() == 0 {
        let (run, action) = started(handler, message, mode);
        (run, seq![action])
    } else {
        let (before, actions) = history(handler, message, mode, events.drop_last());
        let (run, action) = before.after(handler, events.last());
        (run, actions.push(action))
    }
}

/// The events can come in this order: each of them can be taken when it comes.
pub open spec fn possible(
    handler: HandlerView,
    message: MessageView,
    mode: GroupMode,
    events: Seq<ChatEvent>,
) -> bool
    decreases events.len(),
{
    events.len() == 0 || {
        &&& possible(handler, message, mode, events.drop_last())
        &&& history(handler, message, mode, events.drop_last()).0.takes(events.last())
    }
}

/// The number of calls of the language model.
pub open spec fn model_calls(actions: Seq<ActionView>) -> nat {
    actions.filter(|a: ActionView| a is CallModel).len()
}

/// The number of times that usage is recorded.
pub open spec fn recordings(actions: Seq<ActionView>) -> nat {
    actions.filter(|a: ActionView| a is RecordUsage).len()
}

/// The prompt tokens and completion tokens that the events tell of.
pub open spec fn total_tokens(events: Seq<ChatEvent>) -> (int, int)
    decreases events.len(),
{
    if events.len() == 0 {
        (0, 0)
    } else {
        let before = total_tokens(events.drop_last());
        (before.0 + tokens_of(events.last()).0, before.1 + tokens_of(events.last()).1)
    }
}

/// The payment gate let the message through.
pub open spec fn let_through(events: Seq<ChatEvent>) -> bool {
    exists|i: int| 0 <= i < events.len() && #[trigger] is_passage(events[i])
}

/// The payment gate lets a message through.
pub open spec fn is_passage(event: ChatEvent) -> bool {
    event matches ChatEvent::AccessChecked(Ok(_))
}

/// The action only looks something up, asks the payment gate or ends the run.
pub open spec fn is_preliminary(action: ActionView) -> bool {
    action is LookUp || action is CheckAccess || action is CheckGroupAccess || action is Reply
        || action is Fail
}

/// In every state that can be reached, a round is one of those that there may be and a tool call
/// that is worked on is one of those of the round.
pub proof fn law_runs_stay_valid(
    handler: HandlerView,
    message: MessageView,
    mode: GroupMode,
    events: Seq<ChatEvent>,
)
    requires
        possible(handler, message, mode, events),
    ensures
        history(handler, message, mode, events).0.valid(),
        history(handler, message, mode, events).0.limit == handler.max_tool_iterations,
    decreases events.len(),
{
    if events.len() > 0 {
        law_runs_stay_valid(handler, message, mode, events.drop_last());
    }
}

/// Nothing comes after the end: in a run that has ended no event is awaited, and a run has ended
/// exactly when the last action is a reply or a failure.
pub proof fn law_the_end_is_final(
    handler: HandlerView,
    message: MessageView,
    mode: GroupMode,
    events: Seq<ChatEvent>,
    next: ChatEvent,
)
    requires
        possible(handler, message, mode, events),
    ensures
        ({
            let (run, actions) = history(handler, message, mode, events);
            &&& actions.len() == events.len() + 1
            &&& run.phase == Phase::Done <==> actions.last() is Reply || actions.last() is Fail
            &&& run.phase == Phase::Done ==> !run.awaits(next)
        }),
    decreases events.len(),
{
    if events.len() > 0 {
        law_the_end_is_final(handler, message, mode, events.drop_last(), next);
    }
}

/// A message that the bot ignores is not replied to, and nothing at all is done about it.
pub proof fn law_ignored_messages_have_no_effect(
    handler: HandlerView,
    message: MessageView,
    mode: GroupMode,
    events: Seq<ChatEvent>,
)
    requires
        handler.ignores(message, mode),
        possible(handler, message, mode, events),
    ensures
        events.len() == 0,
        history(handler, message, mode, events).1 == seq![ActionView::Reply(""@)],
    decreases events.len(),
{
    if events.len() > 0 {
        law_ignored_messages_have_no_effect(handler, message, mode, events.drop_last());
    }
}

/// The language model is called at most `max_tool_iterations` times for one message.
pub proof fn law_model_calls_are_limited(
    handler: HandlerView,
    message: MessageView,
    mode: GroupMode,
    events: Seq<ChatEvent>,
)
    requires
        possible(handler, message, mode, events),
    ensures
        model_calls(history(handler, message, mode, events).1) <= handler.max_tool_iterations,
{
    lemma_model_calls(handler, message, mode, events);
}

/// The calls of the language model are those of the rounds that are behind, and that of this
/// round once it was made.
pub(crate) proof fn lemma_model_calls(
    handler: HandlerView,
    message: MessageView,
    mode: GroupMode,
    events: Seq<ChatEvent>,
)
    requires
        possible(handler, message, mode, events),
    ensures
        ({
            let (run, actions) = history(handler, message, mode, events);
            let n = model_calls(actions);
            let called = run.phase.in_round() && run.phase != Phase::Messages;
            &&& n <= handler.max_tool_iterations
            &&& run.phase != Phase::Done ==> n == run.iteration + (if called {
                1int
            } else {
                0int
            })
            &&& !run.phase.in_round() && run.phase != Phase::Done ==> run.iteration == 0
        }),
    decreases events.len(),
{
    reveal(Seq::filter);
    let is_call = |a: ActionView| a is CallModel;
    if events.len() > 0 {
        let (before, actions) = history(handler, message, mode, events.drop_last());
        lemma_model_calls(handler, message, mode, events.drop_last());
        law_runs_stay_valid(handler, message, mode, events.drop_last());
        let (run, action) = before.after(handler, events.last());
        assert(actions.push(action).drop_last() =~= actions);
        assert(model_calls(actions.push(action)) == model_calls(actions) + (if action is CallModel {
            1int
        } else {
            0int
        }));
    } else {
        let action = started(handler, message, mode).1;
        assert(seq![action].drop_last() =~= Seq::empty());
        assert(Seq::<ActionView>::empty().filter(is_call).len() == 0);
        assert(model_calls(seq![action]) == 0);
    }
}

/// Where there is a payment gate, nothing is sent, stored or asked of the language model unless
/// it has let the message through.
pub proof fn law_nothing_happens_without_access(
    handler: HandlerView,
    message: MessageView,
    mode: GroupMode,
    events: Seq<ChatEvent>,
    i: int,
)
    requires
        handler.payment_gate,
        possible(handler, message, mode, events),
        0 <= i < history(handler, message, mode, events).1.len(),
        !is_preliminary(history(handler, message, mode, events).1[i]),
    ensures
        let_through(events),
{
    lemma_access(handler, message, mode, events);
}

proof fn lemma_access(
    handler: HandlerView,
    message: MessageView,
    mode: GroupMode,
    events: Seq<ChatEvent>,
)
    requires
        handler.payment_gate,
        possible(handler, message, mode, events),
    ensures
        ({
            let (run, actions) = history(handler, message, mode, events);
            &&& let_through(events) || (forall|i: int|
                0 <= i < actions.len() ==> is_preliminary(#[trigger] actions[i]))
            &&& let_through(events) || run.phase == Phase::LookUp || run.phase == Phase::Access
                || run.phase == Phase::Done
        }),
    decreases events.len(),
{
    if events.len() > 0 {
        let before = events.drop_last();
        lemma_access(handler, message, mode, before);
        if let_through(before) {
            let i = choose|i: int| 0 <= i < before.len() && #[trigger] is_passage(before[i]);
            assert(is_passage(events[i]));
        } else if is_passage(events.last()) {
            assert(is_passage(events[events.len() - 1]));
        }
    }
}

/// Once a tool has been run, tools are not offered to the language model again.
pub proof fn law_tools_are_offered_until_used(
    handler: HandlerView,
    message: MessageView,
    mode: GroupMode,
    events: Seq<ChatEvent>,
    i: int,
    j: int,
)
    requires
        possible(handler, message, mode, events),
        0 <= i < j < history(handler, message, mode, events).1.len(),
        history(handler, message, mode, events).1[i] is ExecuteTool,
        history(handler, message, mode, events).1[j] is CallModel,
    ensures
        !history(handler, message, mode, events).1[j]->tools,
    decreases events.len(),
{
    if events.len() > 0 {
        let (before, actions) = history(handler, message, mode, events.drop_last());
        if j < actions.len() {
            law_tools_are_offered_until_used(handler, message, mode, events.drop_last(), i, j);
        } else {
            lemma_tools(handler, message, mode, events.drop_last(), i);
        }
    }
}

/// Once a tool has been run, either the run knows of it or the tools of this round are still
/// being worked on.
proof fn lemma_tools(
    handler: HandlerView,
    message: MessageView,
    mode: GroupMode,
    events: Seq<ChatEvent>,
    i: int,
)
    requires
        possible(handler, message, mode, events),
        0 <= i < history(handler, message, mode, events).1.len(),
        history(handler, message, mode, events).1[i] is ExecuteTool,
    ensures
        ({
            let run = history(handler, message, mode, events).0;
            run.tools_executed || run.phase == Phase::Progress || run.phase == Phase::Tool
                || run.phase == Phase::ToolResult || run.phase == Phase::Done
        }),
    decreases events.len(),
{
    if events.len() > 0 {
        let actions = history(handler, message, mode, events.drop_last()).1;
        if i < actions.len() {
            lemma_tools(handler, message, mode, events.drop_last(), i);
        }
    }
}

/// Usage is recorded at most once for one message, for its sender, and with the tokens of all
/// calls of the language model.
pub proof fn law_usage_is_recorded_once(
    handler: HandlerView,
    message: MessageView,
    mode: GroupMode,
    events: Seq<ChatEvent>,
)
    requires
        possible(handler, message, mode, events),
    ensures
        recordings(history(handler, message, mode, events).1) <= 1,
        forall|i: int|
            0 <= i < history(handler, message, mode, events).1.len() && (
            #[trigger] history(handler, message, mode, events).1[i]) is RecordUsage
                ==> history(handler, message, mode, events).1[i] == (ActionView::RecordUsage {
                user: message.source,
                conversation: message.reply_target,
                prompt_tokens: total_tokens(events).0,
                completion_tokens: total_tokens(events).1,
            }),
{
    lemma_recordings(handler, message, mode, events);
}

proof fn lemma_recordings(
    handler: HandlerView,
    message: MessageView,
    mode: GroupMode,
    events: Seq<ChatEvent>,
)
    requires
        possible(handler, message, mode, events),
    ensures
        ({
            let (run, actions) = history(handler, message, mode, events);
            let total = total_tokens(events);
            &&& run.message == message
            &&& run.prompt_tokens == total.0
            &&& run.completion_tokens == total.1
            &&& recordings(actions) <= 1
            &&& recordings(actions) == 1 ==> run.phase == Phase::Usage || run.phase == Phase::Done
            &&& (exists|i: int|
                0 <= i < actions.len() && (#[trigger] actions[i]) is RecordUsage) ==> recordings(
                actions,
            ) == 1
            &&& forall|i: int|
                0 <= i < actions.len() && (#[trigger] actions[i]) is RecordUsage ==> actions[i] == (
                ActionView::RecordUsage {
                    user: message.source,
                    conversation: message.reply_target,
                    prompt_tokens: total.0,
                    completion_tokens: total.1,
                })
        }),
    decreases events.len(),
{
    reveal(Seq::filter);
    let is_recording = |a: ActionView| a is RecordUsage;
    if events.len() > 0 {
        let (before, actions) = history(handler, message, mode, events.drop_last());
        lemma_recordings(handler, message, mode, events.drop_last());
        let (run, action) = before.after(handler, events.last());
        assert(actions.push(action).drop_last() =~= actions);
        assert(recordings(actions.push(action)) == recordings(actions) + (if action is RecordUsage {
            1int
        } else {
            0int
        }));
    } else {
        let action = started(handler, message, mode).1;
        assert(seq![action].drop_last() =~= Seq::empty());
        assert(Seq::<ActionView>::empty().filter(is_recording).len() == 0);
        assert(recordings(seq![action]) == 0);
    }
}

/// A refusal of the payment gate is what the user is told, and ends the run.
pub proof fn law_refusals_are_passed_on(run: RunView, handler: HandlerView, refusal: String)
    requires
        run.phase == Phase::Access,
    ensures
        ({
            let (next, action) = run.after(handler, ChatEvent::AccessChecked(Err(refusal)));
            next.phase == Phase::Done && action == ActionView::Reply(refusal@)
        }),
{
}

/// Access and usage go by the same names: a message to a group is checked and recorded under the
/// group's, and every message under its sender's.
pub proof fn law_usage_counts_where_access_is_checked(
    handler: HandlerView,
    message: MessageView,
    mode: GroupMode,
    events: Seq<ChatEvent>,
)
    ensures
        ({
            let (run, actions) = history(handler, message, mode, events);
            &&& run.message == message
            &&& forall|i: int|
                0 <= i < actions.len() ==> match #[trigger] actions[i] {
                    ActionView::CheckGroupAccess { group } => message.is_group && group
                        == message.reply_target,
                    ActionView::CheckAccess { user, .. } => !message.is_group && user
                        == message.source,
                    ActionView::RecordUsage { user, conversation, .. } => user == message.source
                        && conversation == message.reply_target,
                    _ => true,
                }
        }),
    decreases events.len(),
{
    if events.len() > 0 {
        law_usage_counts_where_access_is_checked(handler, message, mode, events.drop_last());
    }
}

/// In texts and names in ASCII, the bot is mentioned where its full name or its base name stands
/// after an at sign, in any case of its letters, and nowhere else.
pub proof fn law_mentions_are_found_in_any_case(
    handler: HandlerView,
    name: Seq<char>,
    text: Seq<char>,
)
    requires
        handler.signal_username == Some(name),
        is_ascii_chars(name),
        is_ascii_chars(text),
    ensures
        handler.is_mentioned(text) <==> holds_any_case(text, seq!['@'] + name) || holds_any_case(
            text,
            seq!['@'] + base_name(name),
        ),
{
    reveal_strlit("@");
    assert("@"@ =~= seq!['@']);
    let base = base_name(name);
    law_first_part_ends_at_the_separator(name, '.');
    assert forall|i: int| 0 <= i < base.len() implies '\0' <= #[trigger] base[i] <= '\u{7f}' by {
        assert(base[i] == name.subrange(0, base.len() as int)[i]);
        assert(base[i] == name[i]);
    }
    assert(lowered("@"@ + name) =~= "@"@ + lowered(name));
    assert(lowered("@"@ + base) =~= "@"@ + lowered(base));
    law_lower_case_tells_any_case(text, "@"@ + name);
    law_lower_case_tells_any_case(text, "@"@ + base);
}

/// A bot without a user name is never mentioned, and nothing but white space is removed for it.
pub proof fn law_nameless_bots_are_not_mentioned(handler: HandlerView, text: Seq<char>)
    requires
        handler.signal_username is None,
    ensures
        !handler.is_mentioned(text),
        handler.without_mention(text) == trimmed(text),
{
}

/// The base of a user name reaches to its first dot.
pub proof fn law_base_names_end_at_the_dot(name: Seq<char>)
    ensures
        base_name(name).is_prefix_of(name),
        !base_name(name).contains('.'),
        base_name(name).len() < name.len() ==> name[base_name(name).len() as int] == '.',
{
    law_first_part_ends_at_the_separator(name, '.');
}

/// The handler finds and removes mentions as told here.
pub proof fn law_the_handler_goes_by_mentions(
    handler: &ChatHandler,
    text: &str,
    found: bool,
    rest: String,
)
    requires
        call_ensures(ChatHandler::is_bot_mentioned, (handler, text), found),
        call_ensures(ChatHandler::strip_mention, (handler, text), rest),
    ensures
        found == handler@.is_mentioned(text@),
        rest@ == handler@.without_mention(text@),
{
}

/// A text that mentions the bot nowhere loses the white space around it and nothing else.
pub proof fn law_unmentioned_texts_are_kept(handler: HandlerView, name: Seq<char>, text: Seq<char>)
    requires
        handler.signal_username == Some(name),
        !holds_any_case(text, "@"@ + name),
        !holds_any_case(text, lowered("@"@ + name)),
        !holds_any_case(text, "@"@ + base_name(name)),
        !holds_any_case(text, lowered("@"@ + base_name(name))),
    ensures
        handler.without_mention(text) == trimmed(text),
{
    law_nothing_else_is_removed(text, "@"@ + name);
    law_nothing_else_is_removed(text, lowered("@"@ + name));
    law_nothing_else_is_removed(text, "@"@ + base_name(name));
    law_nothing_else_is_removed(text, lowered("@"@ + base_name(name)));
}

/// A handler is what it was made of; only one that was made with a payment gate has one, and only
/// one that was given configurations has them.
pub proof fn law_handlers_are_what_they_were_made_of(
    system_prompt: String,
    max_tool_iterations: usize,
    signal_username: Option<String>,
    github_repo: Option<String>,
    free: ChatHandler,
    paid: ChatHandler,
    configured: ChatHandler,
)
    requires
        call_ensures(
            ChatHandler::new,
            (system_prompt, max_tool_iterations, signal_username, github_repo),
            free,
        ),
        call_ensures(
            ChatHandler::with_payment_gate,
            (system_prompt, max_tool_iterations, signal_username, github_repo),
            paid,
        ),
        call_ensures(ChatHandler::with_bot_config, (paid,), configured),
    ensures
        !free@.payment_gate,
        paid@.payment_gate,
        !free@.bot_config,
        !paid@.bot_config,
        configured@.bot_config,
        configured@ == (HandlerView { bot_config: true, ..paid@ }),
        paid@ == (HandlerView { payment_gate: true, ..free@ }),
        free@.system_prompt == system_prompt@,
        free@.max_tool_iterations == max_tool_iterations,
        free@.signal_username == opt_view(signal_username),
        free@.github_repo == opt_view(github_repo),
{
}

/// A mention of the bot's full name at the start of a message is removed, whatever the case of its
/// letters.
pub proof fn law_full_mention_is_removed(
    handler: HandlerView,
    name: Seq<char>,
    word: Seq<char>,
    rest: Seq<char>,
)
    requires
        handler.signal_username == Some(name),
        same_but_case(word, "@"@ + name),
    ensures
        handler.without_mention(word + rest) == handler.without_mention(rest),
{
    reveal_strlit("@");
    law_leading_pattern_is_removed(word, rest, "@"@ + name);
}

/// A mention of the bot's base name at the start of a message that does not mention the full name
/// is removed, whatever the case of its letters.
pub proof fn law_base_mention_is_removed(
    handler: HandlerView,
    name: Seq<char>,
    word: Seq<char>,
    rest: Seq<char>,
)
    requires
        handler.signal_username == Some(name),
        same_but_case(word, "@"@ + base_name(name)),
        !holds_any_case(word + rest, "@"@ + name),
        !holds_any_case(word + rest, lowered("@"@ + name)),
    ensures
        handler.without_mention(word + rest) == handler.without_mention(rest),
{
    reveal_strlit("@");
    let full = "@"@ + name;
    let lower = lowered(full);
    law_nothing_else_is_removed(word + rest, full);
    law_nothing_else_is_removed(word + rest, lower);
    lemma_rest_holds_no_more(word, rest, full);
    lemma_rest_holds_no_more(word, rest, lower);
    law_nothing_else_is_removed(rest, full);
    law_nothing_else_is_removed(rest, lower);
    law_leading_pattern_is_removed(word, rest, "@"@ + base_name(name));
}

proof fn lemma_rest_holds_no_more(word: Seq<char>, rest: Seq<char>, pat: Seq<char>)
    requires
        !holds_any_case(word + rest, pat),
    ensures
        !holds_any_case(rest, pat),
{
    assert forall|i: int| 0 <= i <= rest.len() implies !#[trigger] starts_but_case(
        rest.skip(i),
        pat,
    ) by {
        assert((word + rest).skip(word.len() + i) =~= rest.skip(i));
        assert(!starts_but_case((word + rest).skip(word.len() + i), pat));
    }
}

/// A text mentions a user where one of the two names stands in it after an at sign. Words are removed
/// one after the other, and then the white space around what is left.
pub proof fn law_names_are_looked_for_and_words_removed(
    lower: &str,
    username: &str,
    base: &str,
    found: bool,
    text: &str,
    full: &str,
    lower_full: &str,
    short: &str,
    lower_short: &str,
    rest: String,
)
    requires
        call_ensures(mentions, (lower, username, base), found),
        call_ensures(remove_words, (text, full, lower_full, short, lower_short), rest),
    ensures
        found <==> holds(lower@, seq!['@'] + username@) || holds(lower@, seq!['@'] + base@),
        rest@ == trimmed(
            without_any_case(
                without_any_case(
                    without_any_case(without_any_case(text@, full@), lower_full@),
                    short@,
                ),
                lower_short@,
            ),
        ),
{
    reveal_strlit("@");
    assert("@"@ =~= seq!['@']);
}

/// Whatever is no command goes to the chat.
pub proof fn law_the_chat_is_the_default(handler: &ChatHandler, r: bool)
    requires
        call_ensures(ChatHandler::is_default, (handler,), r),
    ensures
        r,
{
}

} // verus!
