use signal_bot::bot::bot_config::BotConfig;
use signal_bot::bot::commands::chat::{
    mentions, remove_words, ChatAction, ChatEvent, ChatHandler, ChatRun, ModelReply, Phase,
    TokenUsage,
};
use signal_bot::bot::commands::conversation::{
    build_messages, Role, StoredMessage, StoredToolCall, ToolCall,
};
use signal_bot::bot::commands::message::BotMessage;
use signal_bot::bot::group::GroupMode;
use signal_bot::bot::payments::StripeGate;
use signal_bot::stripe::store::SubscriptionStore;

fn handler(gated: bool, rounds: usize) -> ChatHandler {
    let prompt = "Be kind.".to_string();
    let name = Some("NearAI.54".to_string());
    let repo = Some("https://repo".to_string());
    if gated {
        ChatHandler::with_payment_gate(prompt, rounds, name, repo)
    } else {
        ChatHandler::new(prompt, rounds, name, repo)
    }
}

fn direct(text: &str) -> BotMessage {
    BotMessage {
        source: "+1".to_string(),
        text: text.to_string(),
        is_group: false,
        reply_target: "+1".to_string(),
        receiving_account: "+9".to_string(),
    }
}

fn in_group(text: &str) -> BotMessage {
    BotMessage {
        source: "+1".to_string(),
        text: text.to_string(),
        is_group: true,
        reply_target: "group.1".to_string(),
        receiving_account: "+9".to_string(),
    }
}

fn reply(action: ChatAction) -> String {
    match action {
        ChatAction::Reply(text) => text,
        _ => panic!("no reply"),
    }
}

fn response(content: Option<&str>, calls: Vec<ToolCall>, tokens: (u32, u32)) -> ChatEvent {
    ChatEvent::ModelAnswered(ModelReply::Response {
        content: content.map(|c| c.to_string()),
        tool_calls: if calls.is_empty() { None } else { Some(calls) },
        usage: Some(TokenUsage { prompt_tokens: tokens.0, completion_tokens: tokens.1 }),
    })
}

fn call(id: &str, name: &str) -> ToolCall {
    ToolCall {
        id: id.to_string(),
        call_type: "function".to_string(),
        name: name.to_string(),
        arguments: "{}".to_string(),
    }
}

fn composed(prompt: &str) -> ChatEvent {
    ChatEvent::PromptComposed { prompt: prompt.to_string(), mode: GroupMode::Assistant }
}

fn step(run: ChatRun, h: &ChatHandler, event: ChatEvent) -> (ChatRun, ChatAction) {
    assert!(run.takes(&event));
    run.step(h, event)
}

/// Brings a direct message to the first call of the language model.
fn up_to_model(h: &ChatHandler, tools: usize) -> (ChatRun, ChatAction) {
    let (run, _) = h.execute(direct("hi"), GroupMode::Assistant);
    let (run, action) = step(run, h, ChatEvent::LookedUp(true));
    let run = if matches!(action, ChatAction::CheckAccess { .. }) {
        step(run, h, ChatEvent::AccessChecked(Ok(()))).0
    } else {
        run
    };
    let (run, _) = step(run, h, composed("P"));
    let (run, _) = step(run, h, ChatEvent::UserMessageStored(Ok(tools)));
    step(run, h, ChatEvent::MessagesLoaded(Ok(vec![])))
}

#[test]
fn unmentioned_group_messages_are_ignored() {
    let h = handler(true, 5);
    let (run, action) = h.execute(in_group("hello all"), GroupMode::Assistant);
    assert_eq!(reply(action), "");
    assert_eq!(run.phase(), Phase::Done);
    assert!(!run.takes(&ChatEvent::LookedUp(true)));
    let (run, action) = h.execute(in_group("hello all"), GroupMode::Translate);
    assert!(matches!(action, ChatAction::LookUp { .. }));
    assert_eq!(run.phase(), Phase::LookUp);
}

#[test]
fn mentions_are_found_in_any_case() {
    let h = handler(false, 5);
    assert!(h.is_bot_mentioned("hey @nearai.54 what"));
    assert!(h.is_bot_mentioned("hey @NEARAI what"));
    assert!(!h.is_bot_mentioned("hey nearai what"));
    let nameless = ChatHandler::new("p".to_string(), 1, None, None);
    assert!(!nameless.is_bot_mentioned("@nearai"));
    assert!(mentions("hi @bot.1", "bot.1", "bot"));
    assert!(mentions("hi @bot", "bot.1", "bot"));
    assert!(!mentions("hi bot.1", "bot.1", "bot"));
}

#[test]
fn mentions_are_removed() {
    let h = handler(false, 5);
    assert_eq!(h.strip_mention(" @NearAI.54 what is @nearai.54 up to "), "what is  up to");
    assert_eq!(h.strip_mention("@NearAI tell me @nearai"), "tell me");
    assert_eq!(h.strip_mention("@NEARAI tell me"), "tell me");
    assert_eq!(h.strip_mention("@nEaRaI.54 tell me"), "tell me");
    assert_eq!(h.strip_mention("nearai tell me"), "nearai tell me");
    let name = Some("nearai.54".to_string());
    let lower = ChatHandler::new("p".to_string(), 1, name, None);
    assert_eq!(lower.strip_mention("@NearAI hi"), "hi");
    let nameless = ChatHandler::new("p".to_string(), 1, None, None);
    assert_eq!(nameless.strip_mention("  @x "), "@x");
    assert_eq!(remove_words(" ab c abx ", "ab", "abx", "c", "zz"), "x");
}

#[test]
fn a_direct_message_is_answered() {
    let h = handler(true, 5).with_bot_config();
    assert!(h.is_default());
    let (run, action) = h.execute(direct("grüß"), GroupMode::Assistant);
    match action {
        ChatAction::LookUp { conversation } => assert_eq!(conversation, "+1"),
        _ => panic!("look-up"),
    }
    let (run, action) = step(run, &h, ChatEvent::LookedUp(false));
    match action {
        ChatAction::CheckAccess { user, message_len } => {
            assert_eq!((user.as_str(), message_len), ("+1", 6))
        }
        _ => panic!("access"),
    }
    let (run, action) = step(run, &h, ChatEvent::AccessChecked(Ok(())));
    match action {
        ChatAction::FetchConfig { account } => assert_eq!(account, "+9"),
        _ => panic!("configuration"),
    }
    let config = BotConfig { model: Some("big".to_string()), system_prompt: None };
    let (run, action) = step(run, &h, ChatEvent::ConfigFetched(config));
    match action {
        ChatAction::ComposePrompt { base, username, repo } => {
            assert_eq!(base, "Be kind.");
            assert_eq!(username, Some("NearAI.54".to_string()));
            assert_eq!(repo, Some("https://repo".to_string()));
        }
        _ => panic!("prompt"),
    }
    let (run, action) = step(run, &h, composed("P"));
    match action {
        ChatAction::Welcome { text } => assert_eq!(
            text,
            "Welcome! I'm an AI assistant running securely in a TEE. Send `!help` for commands or just start chatting."
        ),
        _ => panic!("welcome"),
    }
    let (run, action) = step(run, &h, ChatEvent::Welcomed);
    match action {
        ChatAction::StoreUserMessage { conversation, text, prompt } => {
            assert_eq!((&*conversation, &*text, &*prompt), ("+1", "grüß", "P"))
        }
        _ => panic!("message"),
    }
    let (run, action) = step(run, &h, ChatEvent::UserMessageStored(Ok(2)));
    assert!(matches!(action, ChatAction::LoadMessages { .. }));
    let (run, action) = step(run, &h, ChatEvent::MessagesLoaded(Ok(vec![])));
    match action {
        ChatAction::CallModel { tools, model, .. } => {
            assert!(tools);
            assert_eq!(model, Some("big".to_string()));
        }
        _ => panic!("model"),
    }
    let (run, action) = step(run, &h, response(Some("let me see"), vec![call("c1", "calculate"), call("c2", "get_weather")], (10, 2)));
    match action {
        ChatAction::StoreToolCalls { content, calls, .. } => {
            assert_eq!(content, Some("let me see".to_string()));
            assert_eq!(calls.len(), 2);
            assert_eq!(calls[1].name, "get_weather");
        }
        _ => panic!("tool calls"),
    }
    let (run, action) = step(run, &h, ChatEvent::ToolCallsStored(Ok(())));
    match action {
        ChatAction::SendProgress { account, target, text } => {
            assert_eq!((&*account, &*target, &*text), ("+9", "+1", "🔧 Using calculate..."))
        }
        _ => panic!("progress"),
    }
    let (run, action) = step(run, &h, ChatEvent::ProgressSent);
    match action {
        ChatAction::ExecuteTool { call } => assert_eq!(call.id, "c1"),
        _ => panic!("tool"),
    }
    let (run, action) = step(run, &h, ChatEvent::ToolExecuted("42".to_string()));
    match action {
        ChatAction::StoreToolResult { id, result, .. } => assert_eq!((&*id, &*result), ("c1", "42")),
        _ => panic!("result"),
    }
    let (run, action) = step(run, &h, ChatEvent::ToolResultStored(Ok(())));
    assert!(matches!(action, ChatAction::SendProgress { .. }));
    let (run, _) = step(run, &h, ChatEvent::ProgressSent);
    let (run, _) = step(run, &h, ChatEvent::ToolExecuted("rain".to_string()));
    let (run, action) = step(run, &h, ChatEvent::ToolResultStored(Ok(())));
    assert!(matches!(action, ChatAction::LoadMessages { .. }));
    let (run, action) = step(run, &h, ChatEvent::MessagesLoaded(Ok(vec![])));
    match action {
        ChatAction::CallModel { tools, .. } => assert!(!tools),
        _ => panic!("model"),
    }
    let (run, action) = step(run, &h, response(Some("42 and rain"), vec![], (20, 3)));
    match action {
        ChatAction::StoreAnswer { text, .. } => assert_eq!(text, "42 and rain"),
        _ => panic!("answer"),
    }
    let (run, action) = step(run, &h, ChatEvent::AnswerStored(Ok(())));
    match action {
        ChatAction::RecordUsage { user, conversation, prompt_tokens, completion_tokens } => {
            assert_eq!((&*user, &*conversation), ("+1", "+1"));
            assert_eq!((prompt_tokens, completion_tokens), (30, 5));
        }
        _ => panic!("usage"),
    }
    let (run, action) = step(run, &h, ChatEvent::UsageRecorded(Some(" (1/15)".to_string())));
    assert_eq!(reply(action), "42 and rain (1/15)");
    assert_eq!(run.phase(), Phase::Done);
}

#[test]
fn groups_are_checked_as_groups() {
    let h = handler(true, 5);
    let (run, _) = h.execute(in_group("@nearai hallo"), GroupMode::Assistant);
    let (run, action) = step(run, &h, ChatEvent::LookedUp(false));
    match action {
        ChatAction::CheckGroupAccess { group } => assert_eq!(group, "group.1"),
        _ => panic!("access"),
    }
    let (run, _) = step(run, &h, ChatEvent::AccessChecked(Ok(())));
    let mode = GroupMode::Translate;
    let event = ChatEvent::PromptComposed { prompt: "P".to_string(), mode };
    // Groups get no welcome, and the mode is part of the prompt.
    let (_, action) = step(run, &h, event);
    match action {
        ChatAction::StoreUserMessage { conversation, text, prompt } => {
            assert_eq!((&*conversation, &*text), ("group.1", "hallo"));
            assert_eq!(prompt, format!("P{}", mode.system_prompt_suffix()));
        }
        _ => panic!("message"),
    }
}

#[test]
fn refusals_are_passed_on() {
    let h = handler(true, 5);
    let (run, _) = h.execute(direct("hi"), GroupMode::Assistant);
    let (run, _) = step(run, &h, ChatEvent::LookedUp(true));
    let (run, action) = step(run, &h, ChatEvent::AccessChecked(Err("pay first".to_string())));
    assert_eq!(reply(action), "pay first");
    assert_eq!(run.phase(), Phase::Done);
}

#[test]
fn failures_of_the_model_have_answers() {
    let h = handler(false, 5);
    for (event, text) in [
        (
            ModelReply::RateLimited,
            "I'm receiving too many requests. Please wait a moment and try again.",
        ),
        (
            ModelReply::Empty,
            "The AI service returned an empty response. Please try rephrasing your message.",
        ),
        (
            ModelReply::Failed,
            "Sorry, I encountered an error connecting to the AI service. Please try again.",
        ),
    ] {
        let (run, _) = up_to_model(&h, 0);
        assert_eq!(reply(step(run, &h, ChatEvent::ModelAnswered(event)).1), text);
    }
}

#[test]
fn failures_of_the_store_end_the_run() {
    let h = handler(false, 5);
    let (run, _) = up_to_model(&h, 0);
    let (run, _) = step(run, &h, response(None, vec![], (0, 0)));
    match step(run, &h, ChatEvent::AnswerStored(Err("full".to_string()))).1 {
        ChatAction::Fail(reason) => assert_eq!(reason, "full"),
        _ => panic!("failure"),
    }
}

#[test]
fn an_answer_without_text_has_one() {
    let h = handler(false, 5);
    let (run, action) = up_to_model(&h, 0);
    match action {
        ChatAction::CallModel { tools, model, .. } => {
            assert!(!tools);
            assert_eq!(model, None);
        }
        _ => panic!("model"),
    }
    let empty = ChatEvent::ModelAnswered(ModelReply::Response {
        content: None,
        tool_calls: Some(vec![]),
        usage: None,
    });
    let (run, _) = step(run, &h, empty);
    let (_, action) = step(run, &h, ChatEvent::AnswerStored(Ok(())));
    assert_eq!(reply(action), "I don't have a response.");
}

#[test]
fn rounds_are_limited() {
    let h = handler(false, 2);
    let (mut run, _) = up_to_model(&h, 1);
    let mut calls = 1;
    let text = loop {
        run = step(run, &h, response(None, vec![call("c", "t")], (1, 1))).0;
        run = step(run, &h, ChatEvent::ToolCallsStored(Ok(()))).0;
        run = step(run, &h, ChatEvent::ProgressSent).0;
        run = step(run, &h, ChatEvent::ToolExecuted("r".to_string())).0;
        let (next, action) = step(run, &h, ChatEvent::ToolResultStored(Ok(())));
        run = next;
        if let ChatAction::Reply(text) = action {
            break text;
        }
        run = step(run, &h, ChatEvent::MessagesLoaded(Ok(vec![]))).0;
        calls += 1;
    };
    assert_eq!(calls, 2);
    assert_eq!(
        text,
        "I've reached my maximum number of tool uses for this request. Please start a new conversation."
    );
    let none = handler(false, 0);
    let (run, _) = none.execute(direct("hi"), GroupMode::Assistant);
    let (run, _) = step(run, &none, ChatEvent::LookedUp(true));
    let (run, _) = step(run, &none, composed("P"));
    let (_, action) = step(run, &none, ChatEvent::UserMessageStored(Ok(1)));
    assert!(reply(action).starts_with("I've reached my maximum number of tool uses"));
}

#[test]
fn tokens_that_cannot_be_counted_are_not_taken() {
    let h = handler(false, 5);
    let (run, _) = up_to_model(&h, 1);
    let (run, _) = step(run, &h, response(None, vec![call("c", "t")], (u32::MAX, 0)));
    let (run, _) = step(run, &h, ChatEvent::ToolCallsStored(Ok(())));
    let (run, _) = step(run, &h, ChatEvent::ProgressSent);
    let (run, _) = step(run, &h, ChatEvent::ToolExecuted("r".to_string()));
    let (run, _) = step(run, &h, ChatEvent::ToolResultStored(Ok(())));
    let (run, _) = step(run, &h, ChatEvent::MessagesLoaded(Ok(vec![])));
    assert!(!run.takes(&response(None, vec![], (1, 0))));
    assert!(run.takes(&response(None, vec![], (0, 1))));
}

#[test]
fn stored_messages_become_model_messages() {
    let stored = |role: &str| StoredMessage {
        role: role.to_string(),
        content: Some("c".to_string()),
        tool_call_id: None,
        tool_calls: Some(vec![StoredToolCall {
            id: "1".to_string(),
            name: "n".to_string(),
            arguments: "a".to_string(),
        }]),
    };
    let messages =
        build_messages(&vec![stored("system"), stored("assistant"), stored("tool"), stored("x")]);
    let roles: Vec<Role> = messages.iter().map(|m| m.role).collect();
    assert_eq!(roles, vec![Role::System, Role::Assistant, Role::Tool, Role::User]);
    let call = &messages[0].tool_calls.as_ref().unwrap()[0];
    assert_eq!((&*call.id, &*call.call_type, &*call.name, &*call.arguments), ("1", "function", "n", "a"));
    assert_eq!(messages[3].content, Some("c".to_string()));
}

#[test]
fn groups_run_out_of_free_messages() {
    let day = "2024-03-01";
    let h = handler(true, 5);
    let mut gate = StripeGate { store: SubscriptionStore::new(), free_daily_messages: 15 };
    for i in 0..15 {
        let mut message = in_group("@nearai hi");
        message.source = format!("+{}", i % 4);
        let (run, _) = h.execute(message, GroupMode::Assistant);
        let (run, action) = step(run, &h, ChatEvent::LookedUp(true));
        let access = match action {
            ChatAction::CheckGroupAccess { group } => gate.check_group_access_on(&group, day),
            _ => panic!("access"),
        };
        let (run, _) = step(run, &h, ChatEvent::AccessChecked(access));
        let (run, _) = step(run, &h, composed("P"));
        let (run, _) = step(run, &h, ChatEvent::UserMessageStored(Ok(0)));
        let (run, _) = step(run, &h, ChatEvent::MessagesLoaded(Ok(vec![])));
        let (run, _) = step(run, &h, response(Some("hello"), vec![], (3, 4)));
        let (run, action) = step(run, &h, ChatEvent::AnswerStored(Ok(())));
        let note = match action {
            ChatAction::RecordUsage { user, conversation, prompt_tokens, completion_tokens } => {
                gate.record_usage_on(&user, &conversation, prompt_tokens, completion_tokens, day)
            }
            _ => panic!("usage"),
        };
        let (_, action) = step(run, &h, ChatEvent::UsageRecorded(note));
        assert_eq!(reply(action), format!("hello\n\n_{}/15 free messages used today_", i / 4 + 1));
    }
    assert_eq!(gate.store.get_daily_usage_on("group.1", day).message_count, 15);
    assert_eq!(gate.store.get_daily_usage_on("group.1", day).prompt_tokens, 45);
    assert_eq!(gate.store.get_daily_usage_on("+0", day).message_count, 4);
    assert!(gate.check_group_access_on("group.2", day).is_ok());
    let (run, _) = h.execute(in_group("@nearai hi"), GroupMode::Assistant);
    let (run, _) = step(run, &h, ChatEvent::LookedUp(true));
    let access = gate.check_group_access_on("group.1", day);
    let (run, action) = step(run, &h, ChatEvent::AccessChecked(access));
    assert_eq!(
        reply(action),
        "This group has used all 15 free messages for today.\n\nIn a DM with me, send `!subscribe` to get unlimited messages (works in all your groups too)."
    );
    assert_eq!(run.phase(), Phase::Done);
}
