//! Stripe's webhooks: which requests are accepted, and what each event does to the store.
use vstd::prelude::*;

use crate::clock::{representable, Timestamp};
use crate::json::{member, text_of, Json};
use crate::stripe::client::{
    checkout_of, subscription_event_of, text_member, validly_signed, CheckoutView, StripeClient,
    SubscriptionEventView, WebhookEvent,
};
use crate::stripe::config::{StripeConfig, StripeConfigView};
use crate::stripe::store::{StoreView, SubscriptionStore};
use crate::stripe::types::{SubscriptionStatus, SubscriptionView, UserSubscription};
use crate::text::{opt_str, opt_str_view, same};

verus! {

/// The status of an accepted webhook.
pub const OK: u16 = 200;

/// The status of a webhook that is refused.
pub const BAD_REQUEST: u16 = 400;

/// What the webhook handler works on.
pub struct WebhookState {
    pub stripe_client: StripeClient,
    pub config: StripeConfig,
}

/// How a webhook was handled.
#[derive(Debug, Clone, Copy)]
pub struct WebhookOutcome {
    /// The status of the response.
    pub status: u16,
    /// Whether a subscription was set, so that the store is to be written to disk.
    pub stored: bool,
}

/// The outcome of a webhook that is refused.
pub open spec fn refused() -> WebhookOutcome {
    WebhookOutcome { status: BAD_REQUEST, stored: false }
}

/// The name of the plan with the given price.
pub open spec fn plan_name(config: StripeConfigView, price_id: Option<Seq<char>>) -> Seq<char> {
    if price_id is Some && config.pro_price_id == price_id {
        "Pro"@
    } else {
        "Premium"@
    }
}

/// The subscription status that a word of Stripe's stands for.
pub open spec fn status_named(word: Seq<char>) -> Option<SubscriptionStatus> {
    if word == "active"@ {
        Some(SubscriptionStatus::Active)
    } else if word == "past_due"@ {
        Some(SubscriptionStatus::PastDue)
    } else if word == "canceled"@ || word == "unpaid"@ {
        Some(SubscriptionStatus::Canceled)
    } else if word == "trialing"@ {
        Some(SubscriptionStatus::Trialing)
    } else {
        None
    }
}

/// The user who completed a checkout: the one that the checkout names, or else that of its
/// customer.
pub open spec fn checkout_user(store: StoreView, checkout: CheckoutView) -> Option<Seq<char>> {
    match checkout.client_reference_id {
        Some(user) => Some(user),
        None => store.user_of(checkout.customer_id),
    }
}

/// The subscription that a completed checkout sets at the time `now`. A user without one has been
/// given one of the free tier, at the time `made`.
pub open spec fn set_by_checkout(
    store: StoreView,
    config: StripeConfigView,
    object: Json,
    made: Timestamp,
    now: Timestamp,
) -> Option<SubscriptionView> {
    match checkout_of(object) {
        Some(checkout) => match checkout_user(store, checkout) {
            Some(user) => Some(
                SubscriptionView {
                    status: SubscriptionStatus::Active,
                    plan_name: plan_name(config, None),
                    stripe_customer_id: Some(checkout.customer_id),
                    subscription_id: checkout.subscription_id,
                    updated_at: now,
                    ..store.subscription_of(user, made)
                },
            ),
            None => None,
        },
        None => None,
    }
}

/// The end of the period that an event names, where it is a point in time.
pub open spec fn period_end(event: SubscriptionEventView) -> Option<Timestamp> {
    match event.current_period_end {
        Some(secs) => if representable(secs as int, 0) {
            Some(Timestamp::at(secs, 0))
        } else {
            None
        },
        None => None,
    }
}

/// The subscription that an update sets at the time `now`.
pub open spec fn set_by_update(
    store: StoreView,
    config: StripeConfigView,
    object: Json,
    made: Timestamp,
    now: Timestamp,
) -> Option<SubscriptionView> {
    match subscription_event_of(object) {
        Some(event) => match (store.user_of(event.customer_id), status_named(event.status)) {
            (Some(user), Some(status)) => Some(
                SubscriptionView {
                    status,
                    plan_name: plan_name(config, event.price_id),
                    subscription_id: Some(event.subscription_id),
                    current_period_end: period_end(event),
                    updated_at: now,
                    ..store.subscription_of(user, made)
                },
            ),
            _ => None,
        },
        None => None,
    }
}

/// The subscription of a user with another status from the time `now` on.
pub open spec fn with_status(
    store: StoreView,
    user: Seq<char>,
    status: SubscriptionStatus,
    made: Timestamp,
    now: Timestamp,
) -> SubscriptionView {
    SubscriptionView { status, updated_at: now, ..store.subscription_of(user, made) }
}

/// The subscription that a deletion sets at the time `now`.
pub open spec fn set_by_deletion(
    store: StoreView,
    object: Json,
    made: Timestamp,
    now: Timestamp,
) -> Option<SubscriptionView> {
    match subscription_event_of(object) {
        Some(event) => match store.user_of(event.customer_id) {
            Some(user) => Some(with_status(store, user, SubscriptionStatus::Canceled, made, now)),
            None => None,
        },
        None => None,
    }
}

/// The subscription that a failed payment sets at the time `now`.
pub open spec fn set_by_failed_payment(
    store: StoreView,
    object: Json,
    made: Timestamp,
    now: Timestamp,
) -> Option<SubscriptionView> {
    match text_of(member(object, "customer"@)) {
        Some(customer) => match store.user_of(customer) {
            Some(user) => Some(with_status(store, user, SubscriptionStatus::PastDue, made, now)),
            None => None,
        },
        None => None,
    }
}

/// The subscription that an event sets at the time `now`, if it sets one.
pub open spec fn set_by_event(
    store: StoreView,
    config: StripeConfigView,
    event: WebhookEvent,
    made: Timestamp,
    now: Timestamp,
) -> Option<SubscriptionView> {
    let kind = event.event_type@;
    let object = event.data.object;
    if kind == "checkout.session.completed"@ {
        set_by_checkout(store, config, object, made, now)
    } else if kind == "customer.subscription.updated"@ {
        set_by_update(store, config, object, made, now)
    } else if kind == "customer.subscription.deleted"@ {
        set_by_deletion(store, object, made, now)
    } else if kind == "invoice.payment_failed"@ {
        set_by_failed_payment(store, object, made, now)
    } else {
        None
    }
}

/// The store once a subscription is set, if one is.
pub open spec fn store_after(store: StoreView, set: Option<SubscriptionView>) -> StoreView {
    match set {
        Some(sub) => store.with_subscription(sub),
        None => store,
    }
}

/// The webhook is validly signed.
pub open spec fn signed(client: StripeClient, signature: Option<Seq<char>>, body: Seq<u8>) -> bool {
    signature is Some && validly_signed(client.webhook_secret(), body, signature->0)
}

/// The event that was read from a body, if it holds one.
pub open spec fn found(event: Result<WebhookEvent, String>) -> Option<WebhookEvent> {
    match event {
        Ok(e) => Some(e),
        Err(_) => None,
    }
}

/// The outcome of a validly signed webhook at the time `now` and the store after it, given what was
/// read from its body: a body without an event is refused, and changes nothing.
pub open spec fn handled(
    store: StoreView,
    config: StripeConfigView,
    event: Option<WebhookEvent>,
    made: Timestamp,
    now: Timestamp,
) -> (WebhookOutcome, StoreView) {
    match event {
        Some(e) => {
            let set = set_by_event(store, config, e, made, now);
            (WebhookOutcome { status: OK, stored: set is Some }, store_after(store, set))
        },
        None => (refused(), store),
    }
}

/// Handles a webhook. `signature` is the `Stripe-Signature` header, where there is one that is
/// text; `read` reads the event that `body` holds. A body that is not validly signed is not read,
/// and changes nothing.
pub fn handle_webhook<F: Fn(&[u8]) -> Result<WebhookEvent, String>>(
    state: &WebhookState,
    store: &mut SubscriptionStore,
    signature: Option<&str>,
    body: &[u8],
    read: F,
) -> (r: WebhookOutcome)
    requires
        signed(state.stripe_client, opt_str_view(signature), body@) ==> call_requires(
            read,
            (body,),
        ),
    ensures
        final(store).key() == old(store).key(),
        !signed(state.stripe_client, opt_str_view(signature), body@) ==> r == refused()
            && final(store)@ == old(store)@,
        signed(state.stripe_client, opt_str_view(signature), body@) ==> exists|
            event: Result<WebhookEvent, String>,
            made: Timestamp,
            now: Timestamp,
        |
            {
                &&& made.valid()
                &&& now.valid()
                &&& #[trigger] call_ensures(read, (body,), event)
                &&& (r, final(store)@) == #[trigger] handled(
                    old(store)@,
                    state.config@,
                    found(event),
                    made,
                    now,
                )
            },
{
    let event = signed_event(state, signature, body, read);
    let made = Timestamp::now();
    let now = Timestamp::now();
    finish_webhook_at(state, store, event, made, now)
}

/// Handles a webhook at the time `now`. A user without a subscription is given one of the free tier
/// first, at the time `made`.
pub fn handle_webhook_at<F: Fn(&[u8]) -> Result<WebhookEvent, String>>(
    state: &WebhookState,
    store: &mut SubscriptionStore,
    signature: Option<&str>,
    body: &[u8],
    read: F,
    made: Timestamp,
    now: Timestamp,
) -> (r: WebhookOutcome)
    requires
        signed(state.stripe_client, opt_str_view(signature), body@) ==> call_requires(
            read,
            (body,),
        ),
    ensures
        final(store).key() == old(store).key(),
        !signed(state.stripe_client, opt_str_view(signature), body@) ==> r == refused()
            && final(store)@ == old(store)@,
        signed(state.stripe_client, opt_str_view(signature), body@) ==> exists|
            event: Result<WebhookEvent, String>,
        |
            {
                &&& #[trigger] call_ensures(read, (body,), event)
                &&& (r, final(store)@) == handled(
                    old(store)@,
                    state.config@,
                    found(event),
                    made,
                    now,
                )
            },
{
    let event = signed_event(state, signature, body, read);
    finish_webhook_at(state, store, event, made, now)
}

fn signed_event<F: Fn(&[u8]) -> Result<WebhookEvent, String>>(
    state: &WebhookState,
    signature: Option<&str>,
    body: &[u8],
    read: F,
) -> (r: Option<WebhookEvent>)
    requires
        signed(state.stripe_client, opt_str_view(signature), body@) ==> call_requires(
            read,
            (body,),
        ),
    ensures
        if signed(state.stripe_client, opt_str_view(signature), body@) {
            exists|event: Result<WebhookEvent, String>| #[trigger]
                call_ensures(read, (body,), event) && r == found(event)
        } else {
            r is None
        },
{
    let signature = match signature {
        Some(s) => s,
        None => return None,
    };
    match state.stripe_client.verify_webhook(body, signature, read) {
        Ok(event) => Some(event),
        Err(_) => None,
    }
}

fn finish_webhook_at(
    state: &WebhookState,
    store: &mut SubscriptionStore,
    event: Option<WebhookEvent>,
    made: Timestamp,
    now: Timestamp,
) -> (r: WebhookOutcome)
    ensures
        final(store).key() == old(store).key(),
        (r, final(store)@) == handled(old(store)@, state.config@, event, made, now),
{
    match event {
        Some(event) => WebhookOutcome {
            status: OK,
            stored: handle_event_at(store, &state.config, &event, made, now),
        },
        None => WebhookOutcome { status: BAD_REQUEST, stored: false },
    }
}

/// Handles the event of a validly signed webhook at the time `now`, and says whether it has set a
/// subscription. A user without one is given one of the free tier first, at the time `made`.
pub fn handle_event_at(
    store: &mut SubscriptionStore,
    config: &StripeConfig,
    event: &WebhookEvent,
    made: Timestamp,
    now: Timestamp,
) -> (r: bool)
    ensures
        final(store).key() == old(store).key(),
        r == (set_by_event(old(store)@, config@, *event, made, now) is Some),
        final(store)@ == store_after(
            old(store)@,
            set_by_event(old(store)@, config@, *event, made, now),
        ),
{
    let kind = event.event_type.as_str();
    let set = if same(kind, "checkout.session.completed") {
        handle_checkout_completed(store, config, event, made, now)
    } else if same(kind, "customer.subscription.updated") {
        handle_subscription_updated(store, config, event, made, now)
    } else if same(kind, "customer.subscription.deleted") {
        handle_subscription_deleted(store, event, made, now)
    } else if same(kind, "invoice.payment_failed") {
        handle_payment_failed(store, event, made, now)
    } else {
        None
    };
    match set {
        Some(subscription) => {
            store.set_subscription(subscription);
            true
        },
        None => false,
    }
}

/// A subscription with its texts as character sequences.
pub open spec fn subscription_view(sub: Option<UserSubscription>) -> Option<SubscriptionView> {
    match sub {
        Some(s) => Some(s@),
        None => None,
    }
}

/// The subscription that a completed checkout sets at the time `now`. A user without one has been given one of the
/// free tier, at the time `made`.
pub fn handle_checkout_completed(
    store: &SubscriptionStore,
    config: &StripeConfig,
    event: &WebhookEvent,
    made: Timestamp,
    now: Timestamp,
) -> (r: Option<UserSubscription>)
    ensures
        subscription_view(r) == set_by_checkout(store@, config@, event.data.object, made, now),
{
    let checkout = match StripeClient::parse_checkout_completed(event) {
        Some(c) => c,
        None => return None,
    };
    let user_id = match checkout.client_reference_id {
        Some(id) => id,
        None => match store.get_user_by_customer_id(checkout.customer_id.as_str()) {
            Some(id) => id,
            None => return None,
        },
    };
    let mut subscription = store.get_subscription_at(user_id.as_str(), made);
    subscription.status = SubscriptionStatus::Active;
    subscription.plan_name = determine_plan_name(config, None);
    subscription.stripe_customer_id = Some(checkout.customer_id);
    subscription.subscription_id = checkout.subscription_id;
    subscription.updated_at = now;
    Some(subscription)
}

/// The subscription that an update sets at the time `now`. A user without one has been given one of the
/// free tier, at the time `made`.
pub fn handle_subscription_updated(
    store: &SubscriptionStore,
    config: &StripeConfig,
    event: &WebhookEvent,
    made: Timestamp,
    now: Timestamp,
) -> (r: Option<UserSubscription>)
    ensures
        subscription_view(r) == set_by_update(store@, config@, event.data.object, made, now),
        r matches Some(sub) ==> (sub.current_period_end matches Some(end) ==> {
            &&& subscription_event_of(event.data.object) matches Some(e)
            &&& e.current_period_end matches Some(secs)
            &&& end.seconds() == secs
            &&& end.subsec_nanos() == 0
        }),
{
    let sub_event = match StripeClient::parse_subscription_event(event) {
        Some(s) => s,
        None => return None,
    };
    let user_id = match store.get_user_by_customer_id(sub_event.customer_id.as_str()) {
        Some(id) => id,
        None => return None,
    };
    let word = sub_event.status.as_str();
    let new_status = if same(word, "active") {
        SubscriptionStatus::Active
    } else if same(word, "past_due") {
        SubscriptionStatus::PastDue
    } else if same(word, "canceled") || same(word, "unpaid") {
        SubscriptionStatus::Canceled
    } else if same(word, "trialing") {
        SubscriptionStatus::Trialing
    } else {
        return None;
    };
    let plan = determine_plan_name(config, opt_str(&sub_event.price_id));
    let mut subscription = store.get_subscription_at(user_id.as_str(), made);
    subscription.status = new_status;
    subscription.plan_name = plan;
    subscription.subscription_id = Some(sub_event.subscription_id);
    subscription.current_period_end = match sub_event.current_period_end {
        Some(secs) => Timestamp::from_timestamp(secs, 0),
        None => None,
    };
    subscription.updated_at = now;
    Some(subscription)
}

/// The subscription that a deletion sets at the time `now`. A user without one has been given one of the
/// free tier, at the time `made`.
pub fn handle_subscription_deleted(
    store: &SubscriptionStore,
    event: &WebhookEvent,
    made: Timestamp,
    now: Timestamp,
) -> (r: Option<UserSubscription>)
    ensures
        subscription_view(r) == set_by_deletion(store@, event.data.object, made, now),
{
    let sub_event = match StripeClient::parse_subscription_event(event) {
        Some(s) => s,
        None => return None,
    };
    let user_id = match store.get_user_by_customer_id(sub_event.customer_id.as_str()) {
        Some(id) => id,
        None => return None,
    };
    let mut subscription = store.get_subscription_at(user_id.as_str(), made);
    subscription.status = SubscriptionStatus::Canceled;
    subscription.updated_at = now;
    Some(subscription)
}

/// The subscription that a failed payment sets at the time `now`. A user without one has been given one of the
/// free tier, at the time `made`.
pub fn handle_payment_failed(
    store: &SubscriptionStore,
    event: &WebhookEvent,
    made: Timestamp,
    now: Timestamp,
) -> (r: Option<UserSubscription>)
    ensures
        subscription_view(r) == set_by_failed_payment(store@, event.data.object, made, now),
{
    let customer_id = match text_member(&event.data.object, "customer") {
        Some(id) => id,
        None => return None,
    };
    let user_id = match store.get_user_by_customer_id(customer_id.as_str()) {
        Some(id) => id,
        None => return None,
    };
    let mut subscription = store.get_subscription_at(user_id.as_str(), made);
    subscription.status = SubscriptionStatus::PastDue;
    subscription.updated_at = now;
    Some(subscription)
}

/// The name of the plan with the given price.
pub fn determine_plan_name(config: &StripeConfig, price_id: Option<&str>) -> (r: String)
    ensures
        r@ == plan_name(config@, opt_str_view(price_id)),
{
    match (price_id, &config.pro_price_id) {
        (Some(id), Some(pro)) => if same(id, pro.as_str()) {
            "Pro".to_owned()
        } else {
            "Premium".to_owned()
        },
        _ => "Premium".to_owned(),
    }
}

} // verus!
