use signal_bot::bot::bot_config::{BotConfig, BotConfigProvider, ConfigReply, ConfigSource};
use signal_bot::bot::commands::help::HelpHandler;
use signal_bot::bot::commands::message::BotMessage;
use signal_bot::bot::commands::mode::ModeHandler;
use signal_bot::bot::commands::subscribe::{
    ManageAction, ManageHandler, SubscribeAction, SubscribeHandler, SubscriptionHandler,
};
use signal_bot::bot::group::{GroupConfigStore, GroupMode};
use signal_bot::bot::payments::{
    note_once_saved, Deduction, PaymentGate, StripeGate, X402Gate,
};
use signal_bot::bot::startup::{
    create_tool_registry, payment_provider, reply_to, PaymentProvider, Tool, ToolsConfig,
};
use signal_bot::clock::Timestamp;
use signal_bot::stripe::client::{CheckoutSession, PortalSession, StripeClient};
use signal_bot::stripe::config::StripeConfig;
use signal_bot::stripe::error::StripeError;
use signal_bot::stripe::store::SubscriptionStore;
use signal_bot::stripe::types::{DailyUsage, SubscriptionStatus, UserSubscription};

fn group_message(text: &str) -> BotMessage {
    BotMessage {
        source: "+1".to_string(),
        text: text.to_string(),
        is_group: true,
        reply_target: "g".to_string(),
        receiving_account: "+9".to_string(),
    }
}

#[test]
fn modes_are_shown_and_set() {
    let handler = ModeHandler::new();
    assert_eq!(handler.trigger(), Some("!mode"));
    let mut store = GroupConfigStore::new();
    assert_eq!(
        handler.execute(&mut store, &group_message("!mode")),
        "**Current mode:** Assistant\n\nAvailable modes:\n`!mode assistant` — AI assistant (responds when mentioned)\n`!mode translate` — Translator (translates every message)"
    );
    assert_eq!(
        handler.execute(&mut store, &group_message("!mode  Translate ")),
        "Mode set to **Translator**. I'll translate every message in this group."
    );
    assert_eq!(store.get_mode("g"), GroupMode::Translate);
    assert!(handler
        .execute(&mut store, &group_message("!mode poet"))
        .starts_with("Unknown mode: `poet`\n\nAvailable modes:\n"));
    assert_eq!(store.get_mode("g"), GroupMode::Translate);
    assert_eq!(
        handler.execute(&mut store, &group_message("!mode CHAT")),
        "Mode set to **Assistant**. I'll respond when mentioned or when you use ! commands."
    );
    assert_eq!(store.get_mode("g"), GroupMode::Assistant);
    let mut direct = group_message("!mode translate");
    direct.is_group = false;
    assert_eq!(
        handler.execute(&mut store, &direct),
        "The `!mode` command only works in group chats. Add me to a group and try there!"
    );
    assert_eq!(store.get_mode("g"), GroupMode::Assistant);
}

#[test]
fn help_goes_by_the_payment_provider() {
    let plain = HelpHandler::new().execute();
    assert!(plain.starts_with("**Signal AI** (Private & Verifiable)\n\nJust send a message"));
    assert!(plain.contains("- !help - Show this message\n\n\n**Group Chat:**\n"));
    assert!(plain.ends_with("Neither the bot operator nor NEAR AI can read your messages."));
    assert_eq!(HelpHandler::default().execute(), plain);
    let stripe = HelpHandler::with_payment_provider("stripe").execute();
    assert!(stripe.contains("- !help - Show this message\n\n**Subscription:**\n- !subscribe - Upgrade"));
    assert!(stripe.contains("Upgrade for unlimited access.\n\n**Group Chat:**\n"));
    let x402 = HelpHandler::with_payment_provider("x402").execute();
    assert!(x402.contains("- !deposit - Get deposit addresses for USDC\n\n**Group Chat:**\n"));
    assert_eq!(HelpHandler::with_payment_provider("other").execute(), plain);
}

fn config(premium: bool, pro: bool) -> StripeConfig {
    let mut config = StripeConfig::default();
    config.secret_key = "sk".to_string();
    config.frontend_url = "https://web".to_string();
    if premium {
        config.premium_price_id = Some("price_premium".to_string());
    }
    if pro {
        config.pro_price_id = Some("price_pro".to_string());
    }
    config
}

fn subscribe(premium: bool, pro: bool) -> SubscribeHandler {
    let config = config(premium, pro);
    SubscribeHandler::new(StripeClient::new(&config), config)
}

fn session(url: Option<&str>) -> Result<CheckoutSession, StripeError> {
    Ok(CheckoutSession { id: "cs".to_string(), url: url.map(|u| u.to_string()) })
}

fn failure() -> Result<CheckoutSession, StripeError> {
    Err(StripeError::StripeApi("down".to_string()))
}

fn replied(action: SubscribeAction) -> String {
    match action {
        SubscribeAction::Reply(text) => text,
        SubscribeAction::Create(..) => panic!("a checkout"),
    }
}

fn free() -> UserSubscription {
    let mut sub = UserSubscription::new_free("+1".to_string());
    sub.stripe_customer_id = Some("cus_1".to_string());
    sub
}

const HEAD: &str = "**Upgrade Your Plan**\n\nYou're on the Free plan (15 messages/day).\n\n";
const END: &str = "Click the link to complete your subscription in your browser.";

#[test]
fn plans_are_offered() {
    let handler = subscribe(true, true);
    let (run, request) = match handler.execute("+1", &free()) {
        SubscribeAction::Create(run, request) => (run, request),
        SubscribeAction::Reply(_) => panic!("a reply"),
    };
    assert_eq!(request.form[1].1, "price_premium");
    assert_eq!(request.form[3].1, "https://web?subscribed=true");
    assert_eq!(request.form[4].1, "https://web?canceled=true");
    assert_eq!(request.form[5].1, "+1");
    assert_eq!(request.form[6], ("customer", "cus_1".to_string()));
    let (run, request) = match handler.created(run, session(Some("https://p"))) {
        SubscribeAction::Create(run, request) => (run, request),
        SubscribeAction::Reply(_) => panic!("a reply"),
    };
    assert_eq!(request.form[1].1, "price_pro");
    assert_eq!(
        replied(handler.created(run, session(Some("https://q")))),
        format!("{}**Premium** — $19/mo (unlimited messages)\nhttps://p\n\n**Pro** — $49/mo (unlimited + team features)\nhttps://q\n\n{}", HEAD, END)
    );
}

#[test]
fn plans_that_fail() {
    let premium = subscribe(true, false);
    match premium.execute("+1", &free()) {
        SubscribeAction::Create(run, _) => assert_eq!(
            replied(premium.created(run, failure())),
            "Sorry, there was an error creating the checkout session. Please try again."
        ),
        SubscribeAction::Reply(_) => panic!("a reply"),
    }
    match premium.execute("+1", &free()) {
        SubscribeAction::Create(run, _) => {
            assert_eq!(replied(premium.created(run, session(None))), format!("{}{}", HEAD, END))
        }
        SubscribeAction::Reply(_) => panic!("a reply"),
    }
    let pro = subscribe(false, true);
    match pro.execute("+1", &free()) {
        SubscribeAction::Create(run, _) => {
            assert_eq!(replied(pro.created(run, failure())), format!("{}{}", HEAD, END))
        }
        SubscribeAction::Reply(_) => panic!("a reply"),
    }
    assert_eq!(
        replied(subscribe(false, false).execute("+1", &free())),
        "Subscriptions are not configured yet. Please try again later."
    );
}

#[test]
fn subscribers_have_a_plan() {
    let mut sub = free();
    sub.status = SubscriptionStatus::Trialing;
    sub.plan_name = "Pro".to_string();
    assert_eq!(
        replied(subscribe(true, true).execute("+1", &sub)),
        "You're already on the **Pro** plan! Send `!manage` to manage your subscription."
    );
}

#[test]
fn subscriptions_are_described() {
    let handler = SubscriptionHandler::new(15);
    let mut usage = DailyUsage::new_on("2024-01-01".to_string());
    usage.message_count = 4;
    let mut sub = free();
    assert_eq!(
        handler.describe(&sub, &usage),
        "**Your Subscription**\n\nPlan: Free\nMessages today: 4/15\n\nSend `!subscribe` to upgrade for unlimited messages."
    );
    sub.plan_name = "Premium".to_string();
    sub.status = SubscriptionStatus::Active;
    sub.current_period_end = Timestamp::from_timestamp(1_709_337_600, 0);
    assert_eq!(
        handler.describe(&sub, &usage),
        "**Your Subscription**\n\nPlan: Premium\nStatus: Active\nMessages today: 4\nRenews: 2024-03-02\n\nSend `!manage` to change or cancel your plan."
    );
    sub.status = SubscriptionStatus::PastDue;
    assert_eq!(
        handler.describe(&sub, &usage),
        "**Your Subscription**\n\nPlan: Premium\nStatus: Past Due (payment failed)\n\nSend `!manage` to update your payment method."
    );
    sub.status = SubscriptionStatus::Canceled;
    assert_eq!(
        handler.describe(&sub, &usage),
        "**Your Subscription**\n\nPlan: Premium\nStatus: Canceled\n\nSend `!subscribe` to resubscribe."
    );
    sub.status = SubscriptionStatus::Trialing;
    assert_eq!(
        handler.describe(&sub, &usage),
        "**Your Subscription**\n\nPlan: Premium\nStatus: Trial\nMessages today: 4\n"
    );
    let store = SubscriptionStore::new();
    assert_eq!(
        handler.execute(&store, "+5"),
        "**Your Subscription**\n\nPlan: Free\nMessages today: 0/15\n\nSend `!subscribe` to upgrade for unlimited messages."
    );
}

#[test]
fn customers_manage_in_the_portal() {
    let config = config(true, true);
    let handler = ManageHandler::new(StripeClient::new(&config), config);
    match handler.execute(&free()) {
        ManageAction::Open(request) => assert_eq!(
            request.form,
            vec![("customer", "cus_1".to_string()), ("return_url", "https://web".to_string())]
        ),
        ManageAction::Reply(_) => panic!("a reply"),
    }
    match handler.execute(&UserSubscription::new_free("+2".to_string())) {
        ManageAction::Reply(text) => assert_eq!(
            text,
            "You don't have an active subscription. Send `!subscribe` to get started."
        ),
        ManageAction::Open(_) => panic!("a portal"),
    }
    let portal = PortalSession { id: "b".to_string(), url: "https://portal".to_string() };
    assert_eq!(
        handler.opened(Ok(portal)),
        "**Manage Subscription**\n\nClick to manage your plan, update payment, or cancel:\nhttps://portal"
    );
    assert_eq!(
        handler.opened(Err(StripeError::StripeApi("x".to_string()))),
        "Sorry, there was an error. Please try again."
    );
}

#[test]
fn the_stripe_limit_is_per_user_and_per_group() {
    let mut gate = StripeGate { store: SubscriptionStore::new(), free_daily_messages: 2 };
    assert!(gate.check_access("+1", 10).is_ok());
    assert_eq!(
        gate.record_usage("+1", "+1", 5, 6),
        Some("\n\n_1/2 free messages used today_".to_string())
    );
    assert_eq!(
        gate.record_usage("+1", "+1", 5, 6),
        Some("\n\n_2/2 free messages used today_".to_string())
    );
    assert!(gate.check_access("+1", 10).is_err());
    assert!(gate.check_group_access("g").is_ok());
    assert_eq!(gate.status_text("+1"), "Plan: Free\nStatus: Free\nMessages today: 2/2");
    gate.record_usage_on("+3", "g", 1, 1, "2024-01-01");
    gate.record_usage_on("+2", "g", 1, 1, "2024-01-01");
    assert_eq!(
        gate.check_group_access_on("g", "2024-01-01").unwrap_err(),
        "This group has used all 2 free messages for today.\n\nIn a DM with me, send `!subscribe` to get unlimited messages (works in all your groups too)."
    );
    assert!(gate.check_group_access_on("g", "2024-01-02").is_ok());
    let mut sub = UserSubscription::new_free("+1".to_string());
    sub.status = SubscriptionStatus::Active;
    sub.plan_name = "Premium".to_string();
    sub.current_period_end = Timestamp::from_timestamp(0, 0);
    gate.store.set_subscription(sub);
    assert!(gate.check_access("+1", 10).is_ok());
    assert_eq!(gate.record_usage("+1", "+1", 5, 6), None);
    assert_eq!(
        gate.status_text("+1"),
        "Plan: Premium\nStatus: Active\nMessages today: 3\nRenews: 1970-01-01"
    );
}

#[test]
fn messages_in_groups_count_twice_and_others_once() {
    let mut gate = StripeGate { store: SubscriptionStore::new(), free_daily_messages: 2 };
    let day = "2024-01-01";
    let count = |gate: &StripeGate, who: &str| gate.store.get_daily_usage_on(who, day).message_count;
    gate.record_usage_on("+1", "+1", 1, 1, day);
    assert_eq!((count(&gate, "+1"), count(&gate, "g")), (1, 0));
    gate.record_usage_on("+1", "g", 1, 1, day);
    assert_eq!((count(&gate, "+1"), count(&gate, "g")), (2, 1));
    assert!(gate.store.can_send_message_on("+1", 2, day).is_err());
    assert!(gate.check_group_access_on("g", day).is_ok());
    gate.record_usage("+2", "h", 1, 1);
    assert_eq!(gate.store.get_daily_usage("+2").message_count, 1);
    assert_eq!(gate.store.get_daily_usage("h").message_count, 1);
}

struct ByLength {}

impl PaymentGate for ByLength {
    fn check_access(&self, user_id: &str, message_len: usize) -> Result<(), String> {
        if user_id.len() + message_len > 3 {
            Err("too long".to_string())
        } else {
            Ok(())
        }
    }

    fn record_usage(&mut self, _: &str, _: &str, _: u32, _: u32) -> Option<String> {
        None
    }

    fn status_text(&self, _: &str) -> String {
        String::new()
    }
}

#[test]
fn groups_are_checked_like_users_by_default() {
    assert!(ByLength {}.check_group_access("abc").is_ok());
    assert_eq!(ByLength {}.check_group_access("abcd"), Err("too long".to_string()));
}

#[test]
fn credits_are_told() {
    let mut gate = X402Gate {
        has_credits: true,
        remaining: "$0.0050".to_string(),
        deposited: "b".to_string(),
        consumed: "c".to_string(),
        deduction: None,
    };
    let refusal = "Insufficient credits. You have $0.0050 remaining.\n\nUse `!deposit` to add USDC and get more credits.";
    assert!(gate.check_access("+1", 10).is_ok());
    assert!(gate.check_group_access("g").is_ok());
    gate.has_credits = false;
    assert_eq!(gate.check_access("+1", 10).unwrap_err(), refusal);
    assert_eq!(gate.check_group_access("g").unwrap_err(), refusal);
    assert_eq!(gate.group_access("g").unwrap_err(), refusal);
    assert_eq!(gate.record_usage("+1", "+1", 100, 23), None);
    gate.deduction =
        Some(Deduction { cost: "$0.01".to_string(), remaining: "$2.00".to_string() });
    assert_eq!(
        gate.record_usage("+1", "+1", 100, 23),
        Some("\n\n_Cost: $0.01 (123 tokens) | Balance: $2.00_".to_string())
    );
    assert_eq!(
        gate.record_usage("+1", "+1", u32::MAX, 1),
        Some("\n\n_Cost: $0.01 (4294967296 tokens) | Balance: $2.00_".to_string())
    );
    assert_eq!(
        gate.status_text("+1"),
        "Credits remaining: $0.0050\nTotal deposited: b\nTotal consumed: c"
    );
}

#[test]
fn configurations_are_kept_for_five_minutes() {
    let mut provider = BotConfigProvider::new("http://proxy//", "small", "Be kind.");
    let source = |s: ConfigSource| match s {
        ConfigSource::Proxy(url) => Err(url),
        ConfigSource::Cached(config) => Ok((config.model, config.system_prompt)),
    };
    assert_eq!(
        source(provider.get_config("+1 5ü")),
        Err("http://proxy/v1/bots/%2B1%205%C3%BC".to_string())
    );
    let found = BotConfig { model: Some("big".to_string()), system_prompt: None };
    let config = provider.fetch_config("+1", ConfigReply::Found(found));
    assert_eq!(provider.get_model(&config), "big");
    assert_eq!(provider.get_system_prompt(&config), "Be kind.");
    assert_eq!(source(provider.get_config("+1")), Ok((Some("big".to_string()), None)));
    let minutes = 5u128 * 60 * 1_000_000_000;
    assert!(source(provider.get_config_at_age("+1", minutes - 1)).is_ok());
    assert!(source(provider.get_config_at_age("+1", minutes)).is_err());
    assert!(source(provider.get_config_at_age("+2", 0)).is_err());
    for reply in [ConfigReply::Unreadable, ConfigReply::Refused, ConfigReply::Unreachable] {
        let config = provider.fetch_config("+3", reply);
        assert_eq!(config.model, Some("small".to_string()));
        assert_eq!(config.system_prompt, Some("Be kind.".to_string()));
    }
}

fn tools(enabled: bool, key: Option<&str>) -> Vec<Tool> {
    create_tool_registry(&ToolsConfig {
        enabled,
        calculator: true,
        weather: true,
        web_search: true,
        web_search_api_key: key.map(|k| k.to_string()),
        web_search_max_results: 5,
    })
}

#[test]
fn tools_go_by_the_configuration() {
    assert!(tools(false, Some("k")).is_empty());
    assert_eq!(tools(true, None).len(), 2);
    let all = tools(true, Some("k"));
    assert!(matches!(all[0], Tool::Calculator));
    assert!(matches!(all[1], Tool::Weather));
    match &all[2] {
        Tool::WebSearch { api_key, max_results } => {
            assert_eq!((api_key.as_str(), *max_results), ("k", 5))
        }
        _ => panic!("no search"),
    }
}

#[test]
fn providers_have_names() {
    assert_eq!(payment_provider("stripe"), PaymentProvider::Stripe);
    assert_eq!(payment_provider("x402"), PaymentProvider::X402);
    assert_eq!(payment_provider("none"), PaymentProvider::Disabled);
    assert_eq!(payment_provider(""), PaymentProvider::Disabled);
    assert_eq!(payment_provider("Stripe"), PaymentProvider::Disabled);
}

#[test]
fn empty_answers_are_not_sent() {
    assert_eq!(reply_to(Some("hi".to_string())), Some("hi".to_string()));
    assert_eq!(reply_to(Some(String::new())), None);
    assert_eq!(reply_to(None), Some("Sorry, something went wrong.".to_string()));
}

#[test]
fn usage_that_is_not_saved_is_not_told() {
    let note = || Some("1/2".to_string());
    assert_eq!(note_once_saved(note(), true), note());
    assert_eq!(note_once_saved(note(), false), None);
    assert_eq!(note_once_saved(None, true), None);
}
