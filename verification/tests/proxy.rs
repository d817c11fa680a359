use signal_bot::clock::Timestamp;
use signal_bot::proxy::alerts::{
    alert_sent, alert_sent_to, alert_target, format_alert, recipient_of, webhook_grafana,
    GrafanaWebhookPayload, Recipient, WebhookAlertRequest,
};
use signal_bot::proxy::auth::{Claims, TokenManager};
use signal_bot::proxy::error::ProxyError;
use signal_bot::proxy::handlers::{
    account_adopted, adopt_account, bearer_claims, bot_config_updated, can_show, check_account,
    debug_force_unregister, delete_username, describe, force_unregistered, get_bot_config,
    get_dashboard, get_status, health, link_to, list_accounts, list_bots, login,
    number_unregistered, profile_updated, registration_verified, set_username, unregister,
    update_bot_config, update_bot_config_jwt, update_profile, username_deleted, username_set,
    verified_records, verify_registration, webhook_alert, webhook_alert_to, AdoptAccountRequest,
};
use signal_bot::proxy::registration::{
    register_number, RegisterAction, RegisterEvent, RegisterPhase, RegisterRequest,
};
use signal_bot::proxy::registry::{PhoneNumberRecord, RegistrationStatus};

fn number() -> Result<String, String> {
    Ok("+15551234".to_string())
}

fn request() -> RegisterRequest {
    RegisterRequest {
        captcha: Some("c".to_string()),
        use_voice: true,
        ownership_secret: Some("s".to_string()),
        model: Some("m".to_string()),
        system_prompt: None,
    }
}

fn record(status: RegistrationStatus) -> PhoneNumberRecord {
    PhoneNumberRecord {
        phone_number: "+15551234".to_string(),
        status,
        registered_at: Timestamp::from_timestamp(0, 0).unwrap(),
        model: Some("big".to_string()),
        system_prompt: Some("You help.\nAlways.".to_string()),
        username: None,
    }
}

fn claims(sub: &str) -> Result<Claims, ProxyError> {
    Ok(Claims { sub: sub.to_string(), exp: 0, iat: 0 })
}

fn error<T>(r: Result<T, ProxyError>) -> ProxyError {
    match r {
        Ok(_) => panic!("no error"),
        Err(e) => e,
    }
}

#[test]
fn numbers_are_registered_once() {
    let verified = record(RegistrationStatus::Verified);
    let (run, action) = register_number(number(), Some(&verified), true, request());
    assert_eq!(run.phase(), RegisterPhase::Done);
    assert!(matches!(action, RegisterAction::Refuse(ProxyError::AlreadyRegistered(_))));
    let pending = record(RegistrationStatus::Pending);
    assert!(matches!(
        register_number(number(), Some(&pending), false, request()).1,
        RegisterAction::Refuse(ProxyError::OwnershipProofMismatch)
    ));
    assert!(matches!(
        register_number(number(), Some(&pending), true, request()).1,
        RegisterAction::Register { .. }
    ));
    let failed = record(RegistrationStatus::Failed);
    assert!(matches!(
        register_number(number(), Some(&failed), false, request()).1,
        RegisterAction::Register { .. }
    ));
    assert!(matches!(
        register_number(Err("short".to_string()), None, true, request()).1,
        RegisterAction::Refuse(ProxyError::InvalidPhoneNumber(_))
    ));
}

#[test]
fn registrations_are_recorded() {
    let (run, action) = register_number(number(), None, false, request());
    match action {
        RegisterAction::Register { number, captcha, use_voice } => {
            assert_eq!((&*number, captcha.as_deref(), use_voice), ("+15551234", Some("c"), true))
        }
        _ => panic!("no try"),
    }
    let event = RegisterEvent::Registered(Ok(()));
    assert!(run.awaits(&event));
    assert!(!run.awaits(&RegisterEvent::Removed(true)));
    let (run, action) = run.step(event);
    match action {
        RegisterAction::Record { number, ownership_secret, model, system_prompt } => {
            assert_eq!((&*number, ownership_secret.as_deref()), ("+15551234", Some("s")));
            assert_eq!((model.as_deref(), system_prompt.as_deref()), (Some("m"), None));
        }
        _ => panic!("no record"),
    }
    match run.step(RegisterEvent::Recorded(Ok(()))).1 {
        RegisterAction::Respond(response) => {
            assert_eq!(response.phone_number, "+15551234");
            assert_eq!(response.status, "pending");
            assert_eq!(
                response.message,
                "Verification code sent. Use /v1/register/{number}/verify/{code} to complete."
            );
        }
        _ => panic!("no response"),
    }
}

fn stale() -> RegisterEvent {
    RegisterEvent::Registered(Err(ProxyError::SignalApi(
        "User is already registered here".to_string(),
    )))
}

#[test]
fn stale_registrations_are_removed_once() {
    let (run, _) = register_number(number(), None, false, request());
    let (run, action) = run.step(stale());
    assert!(matches!(action, RegisterAction::Remove(_)));
    let (run, action) = run.step(RegisterEvent::Removed(true));
    // The second try is made like the first one.
    match action {
        RegisterAction::Register { number, captcha, use_voice } => {
            assert_eq!((&*number, captcha.as_deref(), use_voice), ("+15551234", Some("c"), true))
        }
        _ => panic!("no try"),
    }
    // The second time it is an error.
    let (run, action) = run.step(stale());
    assert_eq!(run.phase(), RegisterPhase::Done);
    assert!(matches!(action, RegisterAction::Refuse(ProxyError::SignalApi(_))));

    let (run, _) = register_number(number(), None, false, request());
    let (run, _) = run.step(stale());
    match run.step(RegisterEvent::Removed(false)).1 {
        RegisterAction::Refuse(ProxyError::SignalApi(m)) => {
            assert_eq!(m, "User is already registered here")
        }
        _ => panic!("no refusal"),
    }

    let (run, _) = register_number(number(), None, false, request());
    let other = RegisterEvent::Registered(Err(ProxyError::SignalApi("captcha".to_string())));
    assert!(matches!(run.step(other).1, RegisterAction::Refuse(ProxyError::SignalApi(_))));

    let (run, _) = register_number(number(), None, false, request());
    let (run, _) = run.step(RegisterEvent::Registered(Ok(())));
    let failed = RegisterEvent::Recorded(Err(ProxyError::Internal("disk".to_string())));
    assert!(matches!(run.step(failed).1, RegisterAction::Refuse(ProxyError::Internal(_))));
}

#[test]
fn only_owners_change_a_number() {
    let verified = record(RegistrationStatus::Verified);
    let pending = record(RegistrationStatus::Pending);
    for act in [update_profile, set_username, delete_username, update_bot_config] {
        assert_eq!(act(number(), Some(&verified), true).unwrap(), "+15551234");
        assert!(matches!(
            error(act(number(), Some(&verified), false)),
            ProxyError::OwnershipProofMismatch
        ));
        assert!(matches!(error(act(number(), Some(&pending), true)), ProxyError::NotFound(_)));
        assert!(matches!(error(act(number(), None, true)), ProxyError::NotFound(_)));
        assert!(matches!(
            error(act(Err("bad".to_string()), Some(&verified), true)),
            ProxyError::InvalidPhoneNumber(_)
        ));
    }
    assert!(verify_registration(number(), Some(&pending), true).is_ok());
    assert!(matches!(
        error(verify_registration(number(), Some(&verified), true)),
        ProxyError::NotFound(_)
    ));
    assert!(unregister(number(), Some(&pending), true).is_ok());
    assert!(matches!(
        error(unregister(number(), Some(&pending), false)),
        ProxyError::OwnershipProofMismatch
    ));
    assert_eq!(debug_force_unregister(number()).unwrap(), "+15551234");
}

#[test]
fn responses_say_what_was_done() {
    let n = || "+1".to_string();
    let health = health(3, true);
    assert_eq!((&*health.status, health.registry_count), ("ok", 3));
    assert!(health.signal_api_healthy);
    let r = registration_verified(n());
    assert_eq!((&*r.status, &*r.message), ("verified", "Phone number registered successfully."));
    let r = number_unregistered(n());
    assert_eq!(
        (&*r.status, &*r.message),
        ("unregistered", "Phone number unregistered successfully.")
    );
    let r = force_unregistered(n());
    assert_eq!((&*r.status, &*r.message), ("unregistered", "Force unregistered from Signal CLI"));
    let r = account_adopted(n());
    assert_eq!(
        (&*r.status, &*r.message),
        ("verified", "Account adopted into registry successfully.")
    );
    assert_eq!(profile_updated(n()).message, "Profile updated successfully.");
    let r = username_set(n(), Some("u".to_string()), Some("l".to_string()));
    assert_eq!(r.message, "Username set successfully.");
    assert_eq!((r.username, r.username_link), (Some("u".to_string()), Some("l".to_string())));
    let r = username_deleted(n());
    assert_eq!(r.message, "Username deleted successfully.");
    assert_eq!((r.username, r.username_link), (None, None));
}

#[test]
fn accounts_are_adopted_from_signal() {
    let verified = record(RegistrationStatus::Verified);
    assert!(matches!(
        error(adopt_account(number(), Some(&verified))),
        ProxyError::AlreadyRegistered(_)
    ));
    assert!(adopt_account(number(), Some(&record(RegistrationStatus::Failed))).is_ok());
    assert!(adopt_account(number(), None).is_ok());
    let accounts = vec!["+1".to_string(), "+2".to_string()];
    let wanted = || AdoptAccountRequest {
        ownership_secret: Some("s".to_string()),
        model: None,
        system_prompt: Some("p".to_string()),
    };
    let adopted = match check_account(&accounts, "+2".to_string(), wanted()) {
        Ok(adopted) => adopted,
        Err(_) => panic!("no account"),
    };
    assert_eq!(adopted.number, "+2");
    assert_eq!(adopted.ownership_secret.as_deref(), Some("s"));
    assert_eq!((adopted.model.as_deref(), adopted.system_prompt.as_deref()), (None, Some("p")));
    match error(check_account(&accounts, "+3".to_string(), wanted())) {
        ProxyError::SignalApi(m) => {
            assert_eq!(m, "Account +3 not found in Signal CLI. Register it first.")
        }
        _ => panic!("another error"),
    }
}

#[test]
fn the_registry_is_shown() {
    let verified = record(RegistrationStatus::Verified);
    let status = get_status(number(), Some(&verified)).unwrap();
    assert_eq!(status.registered_at, Some("1970-01-01T00:00:00+00:00".to_string()));
    assert_eq!(status.status, RegistrationStatus::Verified);
    assert!(matches!(error(get_status(number(), None)), ProxyError::NotFound(_)));
    let config = get_bot_config(number(), Some(&verified)).unwrap();
    assert_eq!(config.model, Some("big".to_string()));
    assert_eq!(config.message, "Bot configuration retrieved.");
    assert!(matches!(
        error(get_bot_config(number(), Some(&record(RegistrationStatus::Pending)))),
        ProxyError::NotFound(_)
    ));
    let config = bot_config_updated("+15551234".to_string(), Some(&verified)).unwrap();
    assert_eq!(config.message, "Bot configuration updated successfully.");
    assert!(bot_config_updated("+1".to_string(), None).is_err());
    let accounts =
        list_accounts(&vec![verified.clone(), record(RegistrationStatus::Pending)]);
    assert_eq!(accounts.total, 2);
    assert_eq!(accounts.accounts[1].status, RegistrationStatus::Pending);
    assert_eq!(accounts.accounts[0].registered_at, "1970-01-01T00:00:00+00:00");
}

#[test]
fn registered_bots_are_listed() {
    let mut named = record(RegistrationStatus::Verified);
    named.username = Some("helper.01".to_string());
    let all = vec![
        record(RegistrationStatus::Pending),
        record(RegistrationStatus::Verified),
        record(RegistrationStatus::Failed),
        named,
    ];
    let verified = verified_records(&all);
    assert_eq!(verified.len(), 2);
    let bots = list_bots(&verified, &vec![None, Some("12345".to_string())]);
    assert_eq!(bots[0].username, "+15551234");
    assert_eq!(bots[0].signal_link, "https://signal.me/#p/+15551234");
    assert_eq!(bots[0].description, Some("You help.".to_string()));
    assert_eq!(bots[0].identity_key, None);
    assert_eq!(bots[1].username, "helper.01");
    assert_eq!(bots[1].identity_key, Some("12345".to_string()));
    assert_eq!(link_to("+1 (555) 12-34"), "https://signal.me/#p/+15551234");
}

#[test]
fn long_descriptions_are_cut() {
    let exact = "a".repeat(100);
    assert_eq!(describe(&Some(exact.clone())), Some(exact.clone()));
    assert_eq!(describe(&Some(format!("{}b\nc", exact))), Some(format!("{}...", exact)));
    assert_eq!(describe(&Some("a\r\nb".to_string())), Some("a".to_string()));
    assert_eq!(describe(&Some(String::new())), None);
    assert_eq!(describe(&Some("\nb".to_string())), Some(String::new()));
    assert_eq!(describe(&None), None);
    let umlauts = "ä".repeat(60);
    assert!(can_show(&Some(umlauts.clone())));
    assert_eq!(describe(&Some(umlauts)), Some(format!("{}...", "ä".repeat(50))));
    assert!(!can_show(&Some(format!("a{}", "ä".repeat(60)))));
    assert!(can_show(&Some(format!("a{}", "ä".repeat(49)))));
}

fn read(payload: Vec<u8>) -> Option<Claims> {
    let value: serde_json::Value = serde_json::from_slice(&payload).ok()?;
    Some(Claims {
        sub: value.get("sub")?.as_str()?.to_string(),
        exp: value.get("exp")?.as_i64()?,
        iat: value.get("iat")?.as_i64()?,
    })
}

#[test]
fn logins_give_access_to_the_dashboard() {
    let tm = TokenManager::new([1u8; 32]);
    let answer = login(number(), Some(true), &tm).unwrap();
    assert_eq!(answer.phone_number, "+15551234");
    assert!(login(number(), Some(false), &tm).is_err());
    assert!(login(number(), None, &tm).is_err());
    assert!(login(Err("bad".to_string()), Some(true), &tm).is_err());
    let header = format!("Bearer {}", answer.token);
    let verified = record(RegistrationStatus::Verified);
    let claims = bearer_claims(Some(&header), &tm, read);
    let dashboard = get_dashboard(number(), claims, Some(&verified)).unwrap();
    assert_eq!(dashboard.signal_link, Some("https://signal.me/#p/+15551234".to_string()));
    let claims = bearer_claims(Some(&header), &tm, read);
    let pending = record(RegistrationStatus::Pending);
    assert_eq!(get_dashboard(number(), claims, Some(&pending)).unwrap().signal_link, None);
    match error(bearer_claims(None, &tm, read)) {
        ProxyError::Unauthorized(m) => assert_eq!(m, "Missing Authorization header"),
        _ => panic!("another error"),
    }
}

fn refusal<T>(r: Result<T, ProxyError>) -> String {
    match error(r) {
        ProxyError::Unauthorized(m) => m,
        _ => panic!("another error"),
    }
}

fn alert() -> WebhookAlertRequest {
    WebhookAlertRequest {
        title: "Disk".to_string(),
        body: Some("full".to_string()),
        severity: Some("critical".to_string()),
        source: None,
        url: None,
    }
}

#[test]
fn tokens_are_for_one_number() {
    let verified = record(RegistrationStatus::Verified);
    let v = || Some(&verified);
    assert_eq!(
        refusal(get_dashboard(number(), claims("+2"), v())),
        "Token does not match requested account"
    );
    assert_eq!(
        refusal(update_bot_config_jwt(number(), claims("+2"), v())),
        "Token does not match requested account"
    );
    assert_eq!(
        refusal(webhook_alert(number(), claims("+2"), v(), &alert())),
        "Token does not match target number"
    );
    assert_eq!(
        refusal(webhook_alert_to(number(), claims("+2"), v(), "g", &alert())),
        "Token does not match sender number"
    );
    assert_eq!(update_bot_config_jwt(number(), claims("+15551234"), v()).unwrap(), "+15551234");
    let pending = record(RegistrationStatus::Pending);
    assert!(matches!(
        error(webhook_alert(number(), claims("+15551234"), Some(&pending), &alert())),
        ProxyError::NotFound(_)
    ));
    assert!(matches!(
        error(get_dashboard(number(), claims("+15551234"), None)),
        ProxyError::NotFound(_)
    ));
    assert_eq!(
        refusal(get_dashboard(
            number(),
            Err(ProxyError::Unauthorized("Token expired".to_string())),
            v()
        )),
        "Token expired"
    );
}

#[test]
fn alerts_are_forwarded() {
    let verified = record(RegistrationStatus::Verified);
    let out = webhook_alert(number(), claims("+15551234"), Some(&verified), &alert()).unwrap();
    assert_eq!((&*out.from, &*out.to), ("+15551234", "+15551234"));
    assert_eq!(out.text, "🔴 **Disk**\n\nfull");
    let to = |recipient: &str, normalized: Option<&str>| {
        webhook_alert_to(number(), claims("+15551234"), Some(&verified), recipient, &alert())
            .unwrap()
            .addressed(normalized.map(|n| n.to_string()))
    };
    let out = to("g", None);
    assert_eq!((&*out.from, &*out.to), ("+15551234", "g"));
    assert_eq!(out.text, "🔴 **Disk**\n\nfull");
    assert_eq!(to("%2B1%202", Some("+12")).to, "+12");
    assert_eq!(to("%2B1%202", None).to, "+1 2");
    assert_eq!(alert_sent().message, "Alert delivered via Signal");
    assert_eq!(alert_sent().status, "sent");
    assert_eq!(alert_sent_to("g").message, "Alert delivered to g");
    assert_eq!(alert_sent_to("g").status, "sent");
}

#[test]
fn alerts_have_signs() {
    for (severity, icon) in [
        (Some("critical"), "🔴"),
        (Some("error"), "🔴"),
        (Some("warning"), "🟡"),
        (Some("warn"), "🟡"),
        (Some("ok"), "🟢"),
        (Some("resolved"), "🟢"),
        (Some("info"), "🔵"),
        (None, "🔵"),
    ] {
        assert_eq!(format_alert("T", None, severity, None, None), format!("{} **T**", icon));
    }
    assert_eq!(
        format_alert("T", Some("B"), None, Some("S"), Some("U")),
        "🔵 **T** (S)\n\nB\n\nU"
    );
    assert_eq!(format_alert("T", Some(""), None, Some(""), Some("")), "🔵 **T** ()");
}

fn grafana(rule: Option<&str>, title: Option<&str>, state: Option<&str>) -> WebhookAlertRequest {
    let own = |s: Option<&str>| s.map(|t| t.to_string());
    webhook_grafana(GrafanaWebhookPayload {
        rule_name: own(rule),
        title: own(title),
        message: own(Some("m")),
        state: own(state),
        rule_url: own(Some("u")),
    })
}

#[test]
fn grafana_alerts_are_understood() {
    let a = grafana(Some("rule"), Some("title"), Some("alerting"));
    assert_eq!(a.title, "rule");
    assert_eq!(a.severity, Some("critical".to_string()));
    assert_eq!(a.source, Some("Grafana".to_string()));
    assert_eq!((a.body, a.url), (Some("m".to_string()), Some("u".to_string())));
    assert_eq!(grafana(None, Some("title"), None).title, "title");
    assert_eq!(grafana(None, None, None).title, "Grafana Alert");
    for (state, severity) in [
        (Some("ok"), Some("ok")),
        (Some("resolved"), Some("ok")),
        (Some("pending"), Some("warning")),
        (Some("no_data"), Some("info")),
        (None, None),
    ] {
        assert_eq!(grafana(None, None, state).severity.as_deref(), severity);
    }
}

fn target(recipient: &str, normalized: Option<&str>) -> String {
    alert_target(recipient_of(recipient), normalized.map(|n| n.to_string()))
}

#[test]
fn recipients_are_numbers_or_groups() {
    assert!(matches!(recipient_of("%2B1%20555"), Recipient::Number(n) if n == "+1 555"));
    assert!(matches!(recipient_of("+1555"), Recipient::Number(n) if n == "+1555"));
    assert!(matches!(recipient_of("group.%2B"), Recipient::Group(g) if g == "group.%2B"));
    assert!(matches!(recipient_of("+%zz%2"), Recipient::Number(n) if n == "+%zz%2"));
    // Bytes that are no text leave the recipient as it is.
    assert!(matches!(recipient_of("+%ff"), Recipient::Number(n) if n == "+%ff"));
    assert_eq!(target("%2B1 555", Some("+1555")), "+1555");
    assert_eq!(target("+x", None), "+x");
    assert_eq!(target("g", Some("ignored")), "g");
}
