use signal_bot::clock::Timestamp;
use signal_bot::json::{Json, Member};
use signal_bot::stripe::client::{
    ApiReply, CheckoutSession, EventData, PortalSession, StripeClient, WebhookEvent,
};
use signal_bot::stripe::config::StripeConfig;
use signal_bot::stripe::error::StripeError;
use signal_bot::stripe::store::SubscriptionStore;
use signal_bot::stripe::types::{SubscriptionStatus, UserSubscription};
use signal_bot::stripe::webhooks::{
    determine_plan_name, handle_webhook, handle_webhook_at, WebhookState,
};

fn config() -> StripeConfig {
    let mut config = StripeConfig::default();
    config.secret_key = "sk_test".to_string();
    config.webhook_secret = "whsec_test".to_string();
    config.premium_price_id = Some("price_premium".to_string());
    config.pro_price_id = Some("price_pro".to_string());
    config
}

fn state() -> WebhookState {
    WebhookState { stripe_client: StripeClient::new(&config()), config: config() }
}

fn text(s: &str) -> Json {
    Json::Text(s.to_string())
}

fn object(members: Vec<(&str, Json)>) -> Json {
    Json::Object(
        members
            .into_iter()
            .map(|(name, value)| Member { name: name.to_string(), value })
            .collect(),
    )
}

fn event(event_type: &str, object: Json) -> WebhookEvent {
    WebhookEvent {
        id: "evt_1".to_string(),
        event_type: event_type.to_string(),
        data: EventData { object },
    }
}

fn signature(time: &str, payload: &[u8]) -> String {
    let mut mac = <hmac::Hmac<sha2::Sha256> as hmac::Mac>::new_from_slice(b"whsec_test").unwrap();
    hmac::Mac::update(&mut mac, time.as_bytes());
    hmac::Mac::update(&mut mac, b".");
    hmac::Mac::update(&mut mac, String::from_utf8_lossy(payload).as_bytes());
    hex::encode(hmac::Mac::finalize(mac).into_bytes())
}

fn made() -> Timestamp {
    Timestamp::from_timestamp(1_699_999_999, 5).unwrap()
}

fn now() -> Timestamp {
    Timestamp::from_timestamp(1_700_000_000, 0).unwrap()
}

fn send(store: &mut SubscriptionStore, event_type: &str, object: Json) -> bool {
    let body = b"{}";
    let header = format!("t=1,v1={}", signature("1", body));
    let object = std::cell::RefCell::new(Some(object));
    let read = |_: &[u8]| Ok(event(event_type, object.borrow_mut().take().unwrap()));
    let outcome = handle_webhook_at(&state(), store, Some(&header), body, read, made(), now());
    assert_eq!(outcome.status, 200);
    outcome.stored
}

#[test]
fn signatures_are_checked() {
    let client = StripeClient::new(&config());
    let body = b"{\"id\":\"evt\"}";
    let good = signature("123", body);
    let read = |b: &[u8]| {
        assert_eq!(b, body);
        Ok(event("ping", object(vec![])))
    };
    let accepts = |header: &str| client.verify_webhook(body, header, read).is_ok();
    assert!(accepts(&format!("t=123,v1={}", good)));
    assert!(accepts(&format!("v1={} , t=123", good)));
    assert!(accepts(&format!("t=123,v1=00,v1={},v0=zz", good)));
    // The last time stamp counts.
    assert!(accepts(&format!("t=9,t=123,v1={}", good)));
    assert!(!accepts(&format!("t=123,t=9,v1={}", good)));
    assert!(!accepts(&format!("t=124,v1={}", good)));
    assert!(!accepts(&format!("v1={}", good)));
    assert!(!accepts("t=123"));
    assert!(!accepts(""));
    assert!(!accepts(&format!("t=123,v1={}", good.to_uppercase())));
    // What is not signed is not read.
    let unread = |_: &[u8]| -> Result<WebhookEvent, String> { panic!("read") };
    assert!(matches!(
        client.verify_webhook(b"{}", &format!("t=123,v1={}", good), unread),
        Err(StripeError::InvalidSignature)
    ));
    let header = format!("t=123,v1={}", good);
    assert!(client.is_signed(body, &header));
    assert_eq!(client.verify_webhook(body, &header, read).unwrap().event_type, "ping");
    let bad = |_: &[u8]| Err("no event".to_string());
    assert!(matches!(
        client.verify_webhook(body, &header, bad),
        Err(StripeError::Serialization(m)) if m == "no event"
    ));
}

#[test]
fn signatures_of_bytes_that_are_not_text() {
    let client = StripeClient::new(&config());
    let body = [0x7b, 0xff, 0x7d];
    assert!(client.is_signed(&body, &format!("t=5,v1={}", signature("5", &body))));
}

fn sha256(data: &[u8]) -> Vec<u8> {
    <sha2::Sha256 as sha2::Digest>::digest(data).to_vec()
}

#[test]
fn signatures_are_two_digests() {
    for secret in ["whsec", &"k".repeat(64), &"long".repeat(20)] {
        let mut key = secret.as_bytes().to_vec();
        if key.len() > 64 {
            key = sha256(&key);
        }
        key.resize(64, 0);
        let mut inner: Vec<u8> = key.iter().map(|b| b ^ 0x36).collect();
        inner.extend(b"7.{}");
        let mut outer: Vec<u8> = key.iter().map(|b| b ^ 0x5c).collect();
        outer.extend(sha256(&inner));
        let mut config = config();
        config.webhook_secret = secret.to_string();
        let header = format!("t=7,v1={}", hex::encode(sha256(&outer)));
        assert!(StripeClient::new(&config).is_signed(b"{}", &header));
    }
}

#[test]
fn refused_webhooks_change_nothing() {
    let mut store = SubscriptionStore::new();
    let body = b"{}";
    let header = format!("t=1,v1={}", signature("1", body));
    let checkout = |_: &[u8]| {
        Ok(event(
            "checkout.session.completed",
            object(vec![("customer", text("cus_1")), ("client_reference_id", text("+1"))]),
        ))
    };
    let unread = |_: &[u8]| -> Result<WebhookEvent, String> { panic!("read") };
    let bad = |_: &[u8]| Err("no event".to_string());
    let state = state();
    assert_eq!(handle_webhook(&state, &mut store, None, body, unread).status, 400);
    assert_eq!(handle_webhook(&state, &mut store, Some("t=1,v1=0"), body, unread).status, 400);
    let outcome = handle_webhook(&state, &mut store, Some(&header), body, bad);
    assert_eq!((outcome.status, outcome.stored), (400, false));
    assert_eq!(store.get_stats().total_users, 0);
    let outcome = handle_webhook(&state, &mut store, Some(&header), body, checkout);
    assert_eq!(outcome.status, 200);
    assert!(outcome.stored);
    assert_eq!(store.get_stats().active_subscribers, 1);
}

#[test]
fn checkouts_activate() {
    let mut store = SubscriptionStore::new();
    let stored = send(
        &mut store,
        "checkout.session.completed",
        object(vec![
            ("customer", text("cus_1")),
            ("subscription", text("sub_1")),
            ("client_reference_id", text("+1")),
        ]),
    );
    assert!(stored);
    let sub = store.get_subscription("+1");
    assert_eq!(sub.status, SubscriptionStatus::Active);
    assert_eq!(sub.plan_name, "Premium");
    assert_eq!(sub.stripe_customer_id, Some("cus_1".to_string()));
    assert_eq!(sub.subscription_id, Some("sub_1".to_string()));
    assert_eq!(sub.updated_at, now());
    assert_eq!(store.get_user_by_customer_id("cus_1"), Some("+1".to_string()));
    // Without a reference, the customer says who it was.
    assert!(send(
        &mut store,
        "checkout.session.completed",
        object(vec![("customer", text("cus_1"))])
    ));
    assert_eq!(store.get_subscription("+1").subscription_id, None);
    // An unknown customer, and none at all.
    assert!(!send(
        &mut store,
        "checkout.session.completed",
        object(vec![("customer", text("cus_2"))])
    ));
    assert!(!send(
        &mut store,
        "checkout.session.completed",
        object(vec![("client_reference_id", text("+2"))])
    ));
    assert_eq!(store.get_stats().total_users, 1);
}

fn subscribed() -> SubscriptionStore {
    let mut store = SubscriptionStore::new();
    send(
        &mut store,
        "checkout.session.completed",
        object(vec![("customer", text("cus_1")), ("client_reference_id", text("+1"))]),
    );
    store
}

fn update(customer: &str, status: &str, price: Json, end: Json) -> Json {
    object(vec![
        ("customer", text(customer)),
        ("id", text("sub_9")),
        ("status", text(status)),
        (
            "items",
            object(vec![(
                "data",
                Json::List(vec![object(vec![("price", object(vec![("id", price)]))])]),
            )]),
        ),
        ("current_period_end", end),
    ])
}

#[test]
fn updates_set_the_status() {
    let mut store = subscribed();
    for (word, status) in [
        ("past_due", SubscriptionStatus::PastDue),
        ("canceled", SubscriptionStatus::Canceled),
        ("unpaid", SubscriptionStatus::Canceled),
        ("trialing", SubscriptionStatus::Trialing),
        ("active", SubscriptionStatus::Active),
    ] {
        assert!(send(
            &mut store,
            "customer.subscription.updated",
            update("cus_1", word, text("price_pro"), Json::Integer(1_700_086_400))
        ));
        let sub = store.get_subscription("+1");
        assert_eq!(sub.status, status);
        assert_eq!(sub.plan_name, "Pro");
        assert_eq!(sub.subscription_id, Some("sub_9".to_string()));
        assert_eq!(sub.current_period_end.unwrap().date_text(), "2023-11-15");
    }
    assert!(!send(
        &mut store,
        "customer.subscription.updated",
        update("cus_1", "paused", text("price_pro"), Json::Null)
    ));
    assert!(!send(
        &mut store,
        "customer.subscription.updated",
        update("cus_2", "active", text("price_pro"), Json::Null)
    ));
    assert!(!send(&mut store, "customer.subscription.updated", object(vec![])));
    assert!(send(
        &mut store,
        "customer.subscription.updated",
        update("cus_1", "active", Json::Null, Json::Integer(i64::MAX))
    ));
    let sub = store.get_subscription("+1");
    assert_eq!(sub.plan_name, "Premium");
    assert_eq!(sub.current_period_end, None);
    assert!(send(
        &mut store,
        "customer.subscription.updated",
        update("cus_1", "active", Json::Null, Json::OtherNumber)
    ));
    assert_eq!(store.get_subscription("+1").current_period_end, None);
}

#[test]
fn deletions_and_failed_payments_block() {
    let mut store = subscribed();
    assert!(send(
        &mut store,
        "invoice.payment_failed",
        object(vec![("customer", text("cus_1"))])
    ));
    assert_eq!(store.get_subscription("+1").status, SubscriptionStatus::PastDue);
    assert!(store.can_send_message("+1", 15).is_err());
    assert!(!send(&mut store, "invoice.payment_failed", object(vec![("customer", text("?"))])));
    assert!(!send(&mut store, "invoice.payment_failed", Json::Null));
    assert!(send(
        &mut store,
        "customer.subscription.deleted",
        update("cus_1", "whatever", Json::Null, Json::Null)
    ));
    assert_eq!(store.get_subscription("+1").status, SubscriptionStatus::Canceled);
    assert!(!send(&mut store, "customer.subscription.deleted", object(vec![])));
    assert!(!send(
        &mut store,
        "customer.subscription.deleted",
        update("cus_2", "whatever", Json::Null, Json::Null)
    ));
}

#[test]
fn other_events_change_nothing() {
    let mut store = subscribed();
    store.increment_usage_on("+1", 3, 4, "2024-01-01");
    assert!(!send(
        &mut store,
        "customer.created",
        object(vec![("customer", text("cus_1")), ("client_reference_id", text("+9"))])
    ));
    assert_eq!(store.get_stats().total_users, 1);
    assert_eq!(store.get_subscription("+1").status, SubscriptionStatus::Active);
    assert_eq!(store.get_daily_usage_on("+1", "2024-01-01").message_count, 1);
}

#[test]
fn plans_go_by_their_price() {
    assert_eq!(determine_plan_name(&config(), Some("price_pro")), "Pro");
    assert_eq!(determine_plan_name(&config(), Some("price_premium")), "Premium");
    assert_eq!(determine_plan_name(&config(), Some("price_x")), "Premium");
    assert_eq!(determine_plan_name(&config(), None), "Premium");
    assert_eq!(determine_plan_name(&StripeConfig::default(), Some("price_pro")), "Premium");
}

#[test]
fn the_default_configuration_is_off() {
    let config = StripeConfig::default();
    assert!(!config.enabled);
    assert_eq!(config.server_port, 8082);
    assert_eq!(config.storage_path, "/data/subscriptions.enc");
    assert_eq!(config.free_daily_messages, 15);
    assert_eq!(config.frontend_url, "https://signal-tee-web.vercel.app");
    assert!(config.plan_price_ids().is_empty());
}

#[test]
fn plans_are_listed_with_their_prices() {
    assert_eq!(
        config().plan_price_ids(),
        vec![("Premium", "price_premium"), ("Pro", "price_pro")]
    );
}

#[test]
fn requests_are_forms() {
    let client = StripeClient::new(&config());
    let request =
        client.create_checkout_session("price_1", "+1", "https://s", "https://c", Some("cus_1"));
    assert_eq!(request.url, "https://api.stripe.com/v1/checkout/sessions");
    assert_eq!(request.username, "sk_test");
    let form: Vec<(&str, &str)> = request.form.iter().map(|(k, v)| (*k, v.as_str())).collect();
    assert_eq!(
        form,
        vec![
            ("mode", "subscription"),
            ("line_items[0][price]", "price_1"),
            ("line_items[0][quantity]", "1"),
            ("success_url", "https://s"),
            ("cancel_url", "https://c"),
            ("client_reference_id", "+1"),
            ("customer", "cus_1"),
        ]
    );
    let request = client.create_checkout_session("price_1", "+1", "https://s", "https://c", None);
    assert_eq!(request.form.len(), 6);
    let request = client.create_portal_session("cus_1", "https://r");
    assert_eq!(request.url, "https://api.stripe.com/v1/billing_portal/sessions");
    assert_eq!(
        request.form,
        vec![("customer", "cus_1".to_string()), ("return_url", "https://r".to_string())]
    );
}

#[test]
fn replies_are_read() {
    let session = CheckoutSession { id: "cs_1".to_string(), url: None };
    assert_eq!(StripeClient::checkout_session(ApiReply::Answered(session)).unwrap().id, "cs_1");
    assert_eq!(
        StripeClient::checkout_session(ApiReply::Refused("no".to_string())).unwrap_err().message(),
        "Stripe API error: Failed to create checkout session: no"
    );
    assert_eq!(
        StripeClient::portal_session(ApiReply::Refused("no".to_string())).unwrap_err().message(),
        "Stripe API error: Failed to create portal session: no"
    );
    assert_eq!(
        StripeClient::portal_session(ApiReply::Unreachable("down".to_string()))
            .unwrap_err()
            .message(),
        "Stripe API error: down"
    );
    let portal = PortalSession { id: "bps".to_string(), url: "https://p".to_string() };
    assert_eq!(StripeClient::portal_session(ApiReply::Answered(portal)).unwrap().url, "https://p");
}

#[test]
fn errors_have_messages() {
    let limit = StripeError::DailyLimitReached { limit: 3, upgrade_url: "https://u".to_string() };
    for (error, message) in [
        (limit, "Daily message limit reached (3 messages). Upgrade your plan: https://u"),
        (StripeError::SubscriptionInactive("x".to_string()), "Subscription inactive: x"),
        (StripeError::InvalidSignature, "Invalid webhook signature"),
        (StripeError::Storage("x".to_string()), "Storage error: x"),
        (StripeError::Serialization("x".to_string()), "Serialization error: x"),
        (StripeError::Config("x".to_string()), "Configuration error: x"),
        (StripeError::UserNotFound("x".to_string()), "User not found: x"),
        (StripeError::Internal("x".to_string()), "Internal error: x"),
    ] {
        assert_eq!(error.message(), message);
    }
}

#[test]
fn subscriptions_keep_their_creation() {
    let mut store = SubscriptionStore::new();
    let checkout = || object(vec![("customer", text("cus_1")), ("client_reference_id", text("+1"))]);
    assert!(send(&mut store, "checkout.session.completed", checkout()));
    let sub = store.get_subscription("+1");
    assert_eq!((sub.created_at, sub.updated_at), (made(), now()));
    let first = Timestamp::from_timestamp(7, 0).unwrap();
    store.set_subscription(UserSubscription::new_free_at("+1".to_string(), first));
    assert!(send(&mut store, "checkout.session.completed", checkout()));
    let sub = store.get_subscription("+1");
    assert_eq!((sub.created_at, sub.updated_at), (first, now()));
}
