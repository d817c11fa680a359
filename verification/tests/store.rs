use signal_bot::clock::Timestamp;
use signal_bot::stripe::store::{
    AppInfo, KeyAction, KeyEvent, SubscriptionStore, SubscriptionStoreData,
};
use signal_bot::stripe::types::{DailyUsage, SubscriptionStatus, UserSubscription};
use signal_bot::table::Table;

fn create_test_key() -> [u8; 32] {
    [0x42u8; 32]
}

fn create_test_store() -> SubscriptionStore {
    SubscriptionStore::with_key(create_test_key())
}

#[test]
fn test_get_subscription_default() {
    let store = create_test_store();
    let sub = store.get_subscription("+14155551234");
    assert_eq!(sub.user_id, "+14155551234");
    assert_eq!(sub.status, SubscriptionStatus::Free);
    assert_eq!(sub.plan_name, "Free");
}

#[test]
fn test_set_and_get_subscription() {
    let mut store = create_test_store();
    let mut sub = UserSubscription::new_free("+14155551234".to_string());
    sub.status = SubscriptionStatus::Active;
    sub.plan_name = "Premium".to_string();
    sub.stripe_customer_id = Some("cus_test123".to_string());
    sub.subscription_id = Some("sub_test123".to_string());

    store.set_subscription(sub);

    let loaded = store.get_subscription("+14155551234");
    assert_eq!(loaded.status, SubscriptionStatus::Active);
    assert_eq!(loaded.plan_name, "Premium");
}

#[test]
fn test_customer_id_lookup() {
    let mut store = create_test_store();
    let mut sub = UserSubscription::new_free("+14155551234".to_string());
    sub.stripe_customer_id = Some("cus_abc123".to_string());
    sub.status = SubscriptionStatus::Active;
    store.set_subscription(sub);

    let user = store.get_user_by_customer_id("cus_abc123");
    assert_eq!(user, Some("+14155551234".to_string()));

    let missing = store.get_user_by_customer_id("cus_unknown");
    assert_eq!(missing, None);
}

#[test]
fn test_daily_usage_tracking() {
    let mut store = create_test_store();

    let usage = store.get_daily_usage("+14155551234");
    assert_eq!(usage.message_count, 0);

    store.increment_usage("+14155551234", 100, 50);
    store.increment_usage("+14155551234", 200, 100);

    let usage = store.get_daily_usage("+14155551234");
    assert_eq!(usage.message_count, 2);
    assert_eq!(usage.prompt_tokens, 300);
    assert_eq!(usage.completion_tokens, 150);
}

#[test]
fn test_free_tier_limit() {
    let mut store = create_test_store();
    let free_limit = 3;

    // First 3 messages should be allowed
    for _ in 0..3 {
        assert!(store.can_send_message("+14155551234", free_limit).is_ok());
        store.increment_usage("+14155551234", 100, 50);
    }

    // 4th message should be blocked
    let result = store.can_send_message("+14155551234", free_limit);
    assert!(result.is_err());
    assert!(result.unwrap_err().contains("free messages"));
}

#[test]
fn test_paid_user_unlimited() {
    let mut store = create_test_store();

    let mut sub = UserSubscription::new_free("+14155551234".to_string());
    sub.status = SubscriptionStatus::Active;
    sub.plan_name = "Premium".to_string();
    store.set_subscription(sub);

    // Paid users should always be allowed regardless of usage
    for _ in 0..100 {
        assert!(store.can_send_message("+14155551234", 3).is_ok());
        store.increment_usage("+14155551234", 100, 50);
    }
}

#[test]
fn test_subscription_lifecycle() {
    let mut store = create_test_store();
    let user = "+14155551234";
    let free_limit = 15;

    // 1. User starts as Free
    let sub = store.get_subscription(user);
    assert_eq!(sub.status, SubscriptionStatus::Free);
    assert!(store.can_send_message(user, free_limit).is_ok());

    // 2. User subscribes (checkout completed webhook)
    let mut sub = store.get_subscription(user);
    sub.status = SubscriptionStatus::Active;
    sub.plan_name = "Premium".to_string();
    sub.stripe_customer_id = Some("cus_test".to_string());
    sub.subscription_id = Some("sub_test".to_string());
    store.set_subscription(sub);

    // Verify customer lookup works
    assert_eq!(store.get_user_by_customer_id("cus_test"), Some(user.to_string()));

    // 3. Payment fails (invoice.payment_failed webhook)
    let mut sub = store.get_subscription(user);
    sub.status = SubscriptionStatus::PastDue;
    store.set_subscription(sub);

    // PastDue users cannot send
    assert!(store.can_send_message(user, free_limit).is_err());

    // 4. Payment recovered (subscription.updated webhook)
    let mut sub = store.get_subscription(user);
    sub.status = SubscriptionStatus::Active;
    store.set_subscription(sub);
    assert!(store.can_send_message(user, free_limit).is_ok());

    // 5. User cancels (subscription.deleted webhook)
    let mut sub = store.get_subscription(user);
    sub.status = SubscriptionStatus::Canceled;
    store.set_subscription(sub);
    assert!(store.can_send_message(user, free_limit).is_err());
}

#[test]
fn test_stats() {
    let mut store = create_test_store();

    // Add a free user (implicit via get)
    store.increment_usage("+11111111111", 10, 5);

    // Add an active subscriber
    let mut sub = UserSubscription::new_free("+12222222222".to_string());
    sub.status = SubscriptionStatus::Active;
    sub.plan_name = "Premium".to_string();
    store.set_subscription(sub);

    let stats = store.get_stats();
    assert_eq!(stats.total_users, 1); // only explicitly set subscriptions
    assert_eq!(stats.active_subscribers, 1);
    assert_eq!(stats.free_users, 0);
}

fn status_word(status: SubscriptionStatus) -> &'static str {
    status.variant_name()
}

fn status_of_word(word: &str) -> SubscriptionStatus {
    match word {
        "Active" => SubscriptionStatus::Active,
        "PastDue" => SubscriptionStatus::PastDue,
        "Canceled" => SubscriptionStatus::Canceled,
        "Trialing" => SubscriptionStatus::Trialing,
        _ => SubscriptionStatus::Free,
    }
}

fn to_json(data: &SubscriptionStoreData) -> Vec<u8> {
    let mut subscriptions = serde_json::Map::new();
    for i in 0..data.subscriptions.len() {
        let row = data.subscriptions.row(i);
        let mut sub = serde_json::Map::new();
        sub.insert("status".to_string(), status_word(row.value.status).into());
        sub.insert("plan_name".to_string(), row.value.plan_name.clone().into());
        sub.insert("created_at".to_string(), row.value.created_at.timestamp().into());
        subscriptions.insert(row.key.clone(), sub.into());
    }
    serde_json::to_vec(&serde_json::Value::Object(subscriptions)).unwrap()
}

fn from_json(bytes: &[u8]) -> SubscriptionStoreData {
    let value: serde_json::Value = serde_json::from_slice(bytes).unwrap();
    let mut data = SubscriptionStoreData::default();
    for (user, sub) in value.as_object().unwrap() {
        let created = sub.get("created_at").unwrap().as_i64().unwrap();
        let created = Timestamp::from_timestamp(created, 0).unwrap();
        let mut s = UserSubscription::new_free_at(user.clone(), created);
        s.status = status_of_word(sub.get("status").unwrap().as_str().unwrap());
        s.plan_name = sub.get("plan_name").unwrap().as_str().unwrap().to_string();
        data.subscriptions.insert(user.clone(), s);
    }
    data
}

#[test]
fn test_persistence() {
    let key = create_test_key();

    // Create store and add data
    let file = {
        let mut store = SubscriptionStore::with_key(key);
        let mut sub = UserSubscription::new_free("+14155551234".to_string());
        sub.status = SubscriptionStatus::Active;
        sub.plan_name = "Premium".to_string();
        store.set_subscription(sub);
        SubscriptionStore::persist(&key, &to_json(store.data())).unwrap()
    };

    // Create new store instance and verify data loaded
    {
        let mut store = SubscriptionStore::with_key(key);
        let plaintext = SubscriptionStore::load(&key, &file).unwrap().unwrap();
        store.replace_data(from_json(&plaintext));

        let sub = store.get_subscription("+14155551234");
        assert_eq!(sub.status, SubscriptionStatus::Active);
        assert_eq!(sub.plan_name, "Premium");
    }
}

#[test]
fn refusals_say_why() {
    let mut store = create_test_store();
    let user = "+1";
    for (status, text) in [
        (SubscriptionStatus::PastDue, "past due"),
        (SubscriptionStatus::Canceled, "canceled"),
    ] {
        let mut sub = store.get_subscription(user);
        sub.status = status;
        store.set_subscription(sub);
        assert_eq!(
            store.can_send_message(user, 15).unwrap_err(),
            format!("Your subscription is {}. Please renew to continue using the bot.", text)
        );
    }
    assert_eq!(
        store.can_send_message("+2", 0).unwrap_err(),
        "You've used all 0 free messages for today. Upgrade to Premium for unlimited messages!\n\nSend `!subscribe` to see plans."
    );
}

#[test]
fn usage_starts_anew_each_day() {
    let mut store = create_test_store();
    for _ in 0..3 {
        store.increment_usage_on("+1", 7, 2, "2024-03-01");
    }
    let usage = store.get_daily_usage_on("+1", "2024-03-01");
    assert_eq!((usage.message_count, usage.prompt_tokens, usage.completion_tokens), (3, 21, 6));
    assert!(store.can_send_message_on("+1", 3, "2024-03-01").is_err());
    assert!(store.can_send_message_on("+2", 3, "2024-03-01").is_ok());
    assert!(store.can_send_message_on("+1", 3, "2024-03-02").is_ok());
    let next = store.increment_usage_on("+1", 1, 1, "2024-03-02");
    assert_eq!((next.message_count, next.prompt_tokens, next.completion_tokens), (1, 1, 1));
    assert_eq!(store.get_daily_usage_on("+1", "2024-03-02").message_count, 1);
}

#[test]
fn counters_stop_when_they_are_full() {
    let mut store = create_test_store();
    store.increment_usage_on("+1", u32::MAX, 1, "2024-03-01");
    let usage = store.increment_usage_on("+1", 1, 1, "2024-03-01");
    assert_eq!(
        (usage.message_count, usage.prompt_tokens, usage.completion_tokens),
        (2, u32::MAX, 2)
    );
    // What was full yesterday is empty today.
    let usage = store.increment_usage("+1", 1, 1);
    assert_eq!((usage.message_count, usage.prompt_tokens, usage.completion_tokens), (1, 1, 1));
}

#[test]
fn setting_one_user_leaves_the_others() {
    let mut store = create_test_store();
    let mut a = UserSubscription::new_free("+1".to_string());
    a.stripe_customer_id = Some("cus_a".to_string());
    a.status = SubscriptionStatus::Trialing;
    store.set_subscription(a);
    store.set_subscription(UserSubscription::new_free("+2".to_string()));
    assert_eq!(store.get_subscription("+1").status, SubscriptionStatus::Trialing);
    assert_eq!(store.get_subscription("+2").status, SubscriptionStatus::Free);
    assert_eq!(store.get_user_by_customer_id("cus_a"), Some("+1".to_string()));
    let stats = store.get_stats();
    assert_eq!((stats.total_users, stats.active_subscribers, stats.free_users), (2, 0, 1));
    assert_eq!(store.status("+1"), SubscriptionStatus::Trialing);
    assert_eq!(store.status("+3"), SubscriptionStatus::Free);
}

#[test]
fn sealed_data_is_opened_under_its_key_only() {
    let key = create_test_key();
    let file = SubscriptionStore::persist_with(&key, &[7u8; 12], b"hello").unwrap();
    assert_eq!(&file[..12], &[7u8; 12]);
    assert_eq!(file.len(), 12 + 5 + 16);
    assert_ne!(&file[12..17], b"hello");
    assert_eq!(SubscriptionStore::load(&key, &file).unwrap(), Some(b"hello".to_vec()));
    assert!(SubscriptionStore::load(&[0x43u8; 32], &file).is_err());
    let mut torn = file.clone();
    torn[14] ^= 1;
    assert!(SubscriptionStore::load(&key, &torn).is_err());
}

#[test]
fn nonces_differ() {
    let key = create_test_key();
    let a = SubscriptionStore::persist(&key, b"hello").unwrap();
    let b = SubscriptionStore::persist(&key, b"hello").unwrap();
    assert_ne!(a[..12], b[..12]);
}

fn used_key(action: KeyAction) -> Option<[u8; 32]> {
    match action {
        KeyAction::Use(key) => Some(key),
        _ => None,
    }
}

#[test]
fn the_key_comes_from_the_environment() {
    let mut store = SubscriptionStore::new();
    assert!(matches!(store.derive_key(KeyEvent::Wanted), KeyAction::Derive));
    let bytes: Vec<u8> = (0..40).collect();
    let key = used_key(store.derive_key(KeyEvent::Derived(bytes.clone()))).unwrap();
    assert_eq!(&key[..], &bytes[..32]);
    // From then on it is known.
    assert_eq!(used_key(store.derive_key(KeyEvent::Wanted)), Some(key));
}

#[test]
fn a_short_key_is_refused() {
    let mut store = SubscriptionStore::new();
    match store.derive_key(KeyEvent::Derived(vec![1u8; 31])) {
        KeyAction::Fail(e) => {
            assert_eq!(e.message(), "Encryption error: Derived key too short: 31 bytes")
        }
        _ => panic!("a key of 31 bytes"),
    }
    assert!(matches!(store.derive_key(KeyEvent::Wanted), KeyAction::Derive));
}

#[test]
fn the_key_falls_back_to_the_application() {
    let mut store = SubscriptionStore::new();
    assert!(matches!(store.derive_key(KeyEvent::NotDerived), KeyAction::AskAppInfo));
    let info = AppInfo { compose_hash: Some("abc".to_string()), app_id: None };
    let key = used_key(store.derive_key(KeyEvent::Informed(info))).unwrap();
    let mut expected = sha2::Sha256::default();
    sha2::Digest::update(&mut expected, b"abcunknownstripe-payments/subscription-store");
    assert_eq!(key.to_vec(), sha2::Digest::finalize(expected).to_vec());

    let mut store = SubscriptionStore::new();
    match store.derive_key(KeyEvent::NotInformed("no socket".to_string())) {
        KeyAction::Fail(e) => {
            assert_eq!(e.message(), "Encryption error: Failed to get AppInfo: no socket")
        }
        _ => panic!("no application"),
    }
}

#[test]
fn dates_and_times_are_written_in_utc() {
    let t = Timestamp::from_timestamp(1_709_337_599, 0).unwrap();
    assert_eq!(t.date_text(), "2024-03-01");
    assert_eq!(t.to_rfc3339(), "2024-03-01T23:59:59+00:00");
    assert_eq!(Timestamp::from_timestamp(1_709_337_600, 0).unwrap().date_text(), "2024-03-02");
    assert_eq!(Timestamp::from_timestamp(-1, 0).unwrap().date_text(), "1969-12-31");
    assert!(Timestamp::from_timestamp(i64::MAX, 0).is_none());
    assert!(Timestamp::now().timestamp() > 1_700_000_000);
}

#[test]
fn usage_is_of_today() {
    let usage = DailyUsage::new_today();
    assert!(usage.is_today());
    assert_eq!(usage.message_count, 0);
    let old = DailyUsage::new_on("1999-12-31".to_string());
    assert!(!old.is_today());
}

#[test]
fn tables_keep_the_last_value() {
    let mut table: Table<u32> = Table::new();
    assert_eq!(table.get("a"), None);
    table.insert("a".to_string(), 1);
    table.insert("b".to_string(), 2);
    table.insert("a".to_string(), 3);
    assert_eq!(table.get("a"), Some(&3));
    assert_eq!(table.get("b"), Some(&2));
    assert_eq!(table.len(), 2);
    assert_eq!(table.row(0).key, "a");
}
