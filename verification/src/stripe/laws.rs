//! What holds of the payment system as a whole.
use vstd::prelude::*;
use vstd::set_lib::*;
use vstd::utf8::*;

use crate::clock::{law_points_in_time_are_read_back, representable, Timestamp};
use crate::codec::{hex, lossy_text};
use crate::crypto::{aes_opened, aes_sealed, hmac_sha256, sha256};
use crate::json::{first_of, integer_of, member, member_of, text_of};
use crate::stripe::client::{
    checkout_of, expected_signature, fields, header_parts, is_signature, offers_signature,
    signed_time, subscription_event_of, validly_signed, ApiReply, CheckoutCompleted,
    CheckoutSession, CheckoutView, FormRequest, PortalSession, StripeClient, SubscriptionEvent,
    SubscriptionEventView, WebhookEvent,
};
use crate::stripe::config::{StripeConfig, StripeConfigView};
use crate::stripe::error::{StripeError, StripeErrorView};
use crate::stripe::store::{
    answer, empty_store, key_action, lapsed_text, limit_text, sealed, KeyAction, KeyActionView,
    KeyEvent,
    StoreStats, StoreView, SubscriptionStore, SubscriptionStoreData,
};
use crate::stripe::types::{
    no_usage, shown, DailyUsage, SubscriptionStatus, SubscriptionView, UserSubscription,
};
use crate::stripe::webhooks::{
    determine_plan_name, found, handle_checkout_completed, handle_event_at, handle_payment_failed,
    handle_subscription_deleted, handle_subscription_updated, handle_webhook, handle_webhook_at,
    handled,
    set_by_event, status_named, store_after, WebhookOutcome, WebhookState,
};
use crate::text::{
    after_prefix, decimal, law_prefixes_are_followed, lemma_split_append, lemma_split_single,
    opt_view, trimmed, white_space,
};

verus! {

/// A subscription that was set is read back, and so is the user of its customer.
pub proof fn law_subscription_is_read_back(
    store: StoreView,
    sub: SubscriptionView,
    now: Timestamp,
)
    ensures
        store.with_subscription(sub).subscription_of(sub.user_id, now) == sub,
        store.with_subscription(sub).status_of(sub.user_id) == sub.status,
        sub.stripe_customer_id matches Some(customer) ==> store.with_subscription(sub).user_of(
            customer,
        ) == Some(sub.user_id),
{
}

/// Setting a subscription changes nothing for other users, nor the users of other customers, nor
/// anybody's usage.
pub proof fn law_setting_leaves_the_rest(
    store: StoreView,
    sub: SubscriptionView,
    other: Seq<char>,
    customer: Seq<char>,
    date: Seq<char>,
    limit: u32,
    now: Timestamp,
)
    requires
        other != sub.user_id,
        sub.stripe_customer_id != Some(customer),
    ensures
        store.with_subscription(sub).subscription_of(other, now) == store.subscription_of(
            other,
            now,
        ),
        store.with_subscription(sub).verdict(other, limit, date) == store.verdict(
            other,
            limit,
            date,
        ),
        store.with_subscription(sub).user_of(customer) == store.user_of(customer),
        store.with_subscription(sub).usage == store.usage,
{
}

/// The last of two settings of one user counts.
pub proof fn law_last_setting_counts(
    store: StoreView,
    first: SubscriptionView,
    last: SubscriptionView,
)
    requires
        first.user_id == last.user_id,
    ensures
        store.with_subscription(first).with_subscription(last).subscriptions
            == store.with_subscription(last).subscriptions,
{
    assert(store.with_subscription(first).with_subscription(last).subscriptions
        =~= store.with_subscription(last).subscriptions);
}

/// The store after `n` messages of a user on one day, each with the same numbers of tokens.
pub open spec fn after_messages(
    store: StoreView,
    user: Seq<char>,
    prompt: int,
    completion: int,
    date: Seq<char>,
    n: nat,
) -> StoreView
    decreases n,
{
    if n == 0 {
        store
    } else {
        after_messages(store, user, prompt, completion, date, (n - 1) as nat).with_message(
            user,
            prompt,
            completion,
            date,
        )
    }
}

proof fn lemma_message_count(
    store: StoreView,
    user: Seq<char>,
    prompt: int,
    completion: int,
    date: Seq<char>,
    n: nat,
)
    requires
        0 <= store.usage_on(user, date).message_count <= u32::MAX,
    ensures
        after_messages(store, user, prompt, completion, date, n).usage_on(user, date).message_count
            == shown(store.usage_on(user, date).message_count + n),
        after_messages(store, user, prompt, completion, date, n).subscriptions
            == store.subscriptions,
    decreases n,
{
    if n > 0 {
        lemma_message_count(store, user, prompt, completion, date, (n - 1) as nat);
    }
}

/// Each message of the day is counted, with its tokens, up to the largest values that the counters
/// can show.
pub proof fn law_messages_are_counted(
    store: StoreView,
    user: Seq<char>,
    prompt: int,
    completion: int,
    date: Seq<char>,
    n: nat,
)
    requires
        store.usage_on(user, date).fits(),
        0 <= prompt,
        0 <= completion,
    ensures
        after_messages(store, user, prompt, completion, date, n).usage_on(user, date).message_count
            == shown(store.usage_on(user, date).message_count + n),
        after_messages(store, user, prompt, completion, date, n).usage_on(user, date).prompt_tokens
            == shown(store.usage_on(user, date).prompt_tokens + n * prompt),
        after_messages(store, user, prompt, completion, date, n).usage_on(
            user,
            date,
        ).completion_tokens == shown(store.usage_on(user, date).completion_tokens + n * completion),
        after_messages(store, user, prompt, completion, date, n).subscriptions
            == store.subscriptions,
    decreases n,
{
    if n > 0 {
        let m = (n - 1) as nat;
        law_messages_are_counted(store, user, prompt, completion, date, m);
        assert(n * prompt == m * prompt + prompt) by (nonlinear_arith)
            requires
                n == m + 1,
        ;
        assert(n * completion == m * completion + completion) by (nonlinear_arith)
            requires
                n == m + 1,
        ;
    } else {
        assert(n * prompt == 0) by (nonlinear_arith)
            requires
                n == 0,
        ;
        assert(n * completion == 0) by (nonlinear_arith)
            requires
                n == 0,
        ;
    }
}

/// A user in the free tier who has sent nothing on a day may send exactly `limit` messages on it.
pub proof fn law_free_tier_has_a_daily_limit(
    store: StoreView,
    user: Seq<char>,
    prompt: int,
    completion: int,
    date: Seq<char>,
    limit: u32,
    n: nat,
)
    requires
        store.status_of(user) == SubscriptionStatus::Free,
        store.usage_on(user, date) == no_usage(date),
    ensures
        after_messages(store, user, prompt, completion, date, n).verdict(user, limit, date) == (
        if n < limit {
            Ok(())
        } else {
            Err(limit_text(limit))
        }),
{
    lemma_message_count(store, user, prompt, completion, date, n);
}

/// On another day everything starts from nothing, so that a user in the free tier may send again.
pub proof fn law_usage_is_per_day(
    store: StoreView,
    user: Seq<char>,
    prompt: int,
    completion: int,
    date: Seq<char>,
    other: Seq<char>,
    limit: u32,
)
    requires
        date != other,
    ensures
        store.with_message(user, prompt, completion, date).usage_on(user, other) == no_usage(other),
        store.status_of(user) == SubscriptionStatus::Free && limit > 0 ==> store.with_message(
            user,
            prompt,
            completion,
            date,
        ).verdict(user, limit, other) is Ok,
{
}

/// A message of one user counts for no other user.
pub proof fn law_usage_is_per_user(
    store: StoreView,
    user: Seq<char>,
    other: Seq<char>,
    prompt: int,
    completion: int,
    date: Seq<char>,
    day: Seq<char>,
    limit: u32,
)
    requires
        user != other,
    ensures
        store.with_message(user, prompt, completion, date).usage_on(other, day) == store.usage_on(
            other,
            day,
        ),
        store.with_message(user, prompt, completion, date).verdict(other, limit, day)
            == store.verdict(other, limit, day),
{
}

/// A paying user or one on trial may always send, however much they have sent.
pub proof fn law_subscribers_are_unlimited(
    store: StoreView,
    user: Seq<char>,
    date: Seq<char>,
    limit: u32,
)
    requires
        store.status_of(user) == SubscriptionStatus::Active || store.status_of(user)
            == SubscriptionStatus::Trialing,
    ensures
        store.verdict(user, limit, date) == Ok::<(), Seq<char>>(()),
{
}

/// A user whose subscription has lapsed may never send, and is told why.
pub proof fn law_lapsed_users_are_refused(
    store: StoreView,
    user: Seq<char>,
    date: Seq<char>,
    limit: u32,
)
    requires
        store.status_of(user) == SubscriptionStatus::PastDue || store.status_of(user)
            == SubscriptionStatus::Canceled,
    ensures
        store.verdict(user, limit, date) == Err::<(), Seq<char>>(
            lapsed_text(store.status_of(user)),
        ),
{
}

/// Active and free users are different users of the store, so their numbers together do not
/// exceed that of all users; messages change none of the numbers.
pub proof fn law_stats_add_up(
    store: StoreView,
    user: Seq<char>,
    prompt: int,
    completion: int,
    date: Seq<char>,
)
    requires
        store.subscriptions.dom().finite(),
    ensures
        store.users_with(SubscriptionStatus::Active).len() + store.users_with(
            SubscriptionStatus::Free,
        ).len() <= store.subscriptions.dom().len(),
        forall|status: SubscriptionStatus| #[trigger]
            store.with_message(user, prompt, completion, date).users_with(status)
                == store.users_with(status),
{
    let active = store.users_with(SubscriptionStatus::Active);
    let free = store.users_with(SubscriptionStatus::Free);
    let all = store.subscriptions.dom();
    assert(active.subset_of(all) && free.subset_of(all));
    lemma_len_subset(active, all);
    lemma_len_subset(free, all);
    assert(active.disjoint(free));
    lemma_set_disjoint_lens(active, free);
    lemma_len_subset(active + free, all);
    assert forall|status: SubscriptionStatus| #[trigger]
        store.with_message(user, prompt, completion, date).users_with(status)
            == store.users_with(status) by {
        assert(store.with_message(user, prompt, completion, date).users_with(status)
            =~= store.users_with(status));
    }
}

/// A key that is known is used, and the environment is not asked for it again.
pub proof fn law_known_keys_are_used(key: Seq<u8>)
    ensures
        key_action(Some(key), KeyEvent::Wanted) == KeyActionView::Use(key),
{
}

/// A header that carries, besides a time stamp, the expected signature for it is accepted.
pub proof fn law_stripes_own_signature_is_accepted(
    secret: Seq<char>,
    payload: Seq<u8>,
    header: Seq<char>,
    time: Seq<char>,
    i: int,
)
    requires
        signed_time(header_parts(header)) == Some(time),
        0 <= i < header_parts(header).len(),
        is_signature(header_parts(header)[i], expected_signature(secret, time, payload)),
    ensures
        validly_signed(secret, payload, header),
{
    let sig = expected_signature(secret, time, payload);
    assert(offers_signature(header_parts(header), sig));
}

/// An event of any other type than the four that are handled leaves the store as it is.
pub proof fn law_other_events_change_nothing(
    store: StoreView,
    config: StripeConfigView,
    event: WebhookEvent,
    made: Timestamp,
    now: Timestamp,
)
    requires
        event.event_type@ != "checkout.session.completed"@,
        event.event_type@ != "customer.subscription.updated"@,
        event.event_type@ != "customer.subscription.deleted"@,
        event.event_type@ != "invoice.payment_failed"@,
    ensures
        store_after(store, set_by_event(store, config, event, made, now)) == store,
{
}

/// An event keeps the usage of everybody and the version of the data.
pub proof fn law_events_keep_usage(
    store: StoreView,
    config: StripeConfigView,
    event: WebhookEvent,
    made: Timestamp,
    now: Timestamp,
)
    ensures
        store_after(store, set_by_event(store, config, event, made, now)).usage == store.usage,
        store_after(store, set_by_event(store, config, event, made, now)).version == store.version,
{
}

proof fn lemma_event_types_differ()
    ensures
        "checkout.session.completed"@ != "customer.subscription.updated"@,
        "checkout.session.completed"@ != "customer.subscription.deleted"@,
        "checkout.session.completed"@ != "invoice.payment_failed"@,
        "customer.subscription.updated"@ != "customer.subscription.deleted"@,
        "customer.subscription.updated"@ != "invoice.payment_failed"@,
        "customer.subscription.deleted"@ != "invoice.payment_failed"@,
{
    reveal_strlit("checkout.session.completed");
    reveal_strlit("customer.subscription.updated");
    reveal_strlit("customer.subscription.deleted");
    reveal_strlit("invoice.payment_failed");
    assert("checkout.session.completed"@.len() == 26);
    assert("customer.subscription.updated"@.len() == 29);
    assert("customer.subscription.deleted"@.len() == 29);
    assert("invoice.payment_failed"@.len() == 22);
    assert("customer.subscription.updated"@[22] != "customer.subscription.deleted"@[22]);
}

/// After a completed checkout that names its user, the user may send without limit, and the
/// customer is theirs.
pub proof fn law_checkout_activates(
    store: StoreView,
    config: StripeConfigView,
    event: WebhookEvent,
    user: Seq<char>,
    date: Seq<char>,
    limit: u32,
    made: Timestamp,
    now: Timestamp,
)
    requires
        store_is_keyed(store),
        event.event_type@ == "checkout.session.completed"@,
        checkout_of(event.data.object) matches Some(checkout)
            && checkout.client_reference_id == Some(user),
    ensures
        ({
            let after = store_after(store, set_by_event(store, config, event, made, now));
            &&& after.status_of(user) == SubscriptionStatus::Active
            &&& after.verdict(user, limit, date) == Ok::<(), Seq<char>>(())
            &&& after.user_of(checkout_of(event.data.object)->0.customer_id) == Some(user)
        }),
{
}

/// After a failed payment of a known customer, their user may not send any more.
pub proof fn law_failed_payment_blocks(
    store: StoreView,
    config: StripeConfigView,
    event: WebhookEvent,
    customer: Seq<char>,
    user: Seq<char>,
    date: Seq<char>,
    limit: u32,
    made: Timestamp,
    now: Timestamp,
)
    requires
        store_is_keyed(store),
        event.event_type@ == "invoice.payment_failed"@,
        text_of(member(event.data.object, "customer"@)) == Some(customer),
        store.user_of(customer) == Some(user),
    ensures
        ({
            let after = store_after(store, set_by_event(store, config, event, made, now));
            &&& after.status_of(user) == SubscriptionStatus::PastDue
            &&& after.verdict(user, limit, date) is Err
        }),
{
    lemma_event_types_differ();
}

/// After the subscription of a known customer is deleted, their user may not send any more.
pub proof fn law_deletion_blocks(
    store: StoreView,
    config: StripeConfigView,
    event: WebhookEvent,
    user: Seq<char>,
    date: Seq<char>,
    limit: u32,
    made: Timestamp,
    now: Timestamp,
)
    requires
        store_is_keyed(store),
        event.event_type@ == "customer.subscription.deleted"@,
        subscription_event_of(event.data.object) matches Some(sub)
            && store.user_of(sub.customer_id) == Some(user),
    ensures
        ({
            let after = store_after(store, set_by_event(store, config, event, made, now));
            &&& after.status_of(user) == SubscriptionStatus::Canceled
            &&& after.verdict(user, limit, date) is Err
        }),
{
    lemma_event_types_differ();
}

/// An update of a known customer's subscription gives their user the status that it names and ends
/// the period at the second that it names, where there is such a point in time; a status of another
/// name changes nothing.
pub proof fn law_update_sets_the_named_status(
    store: StoreView,
    config: StripeConfigView,
    event: WebhookEvent,
    user: Seq<char>,
    made: Timestamp,
    now: Timestamp,
)
    requires
        store_is_keyed(store),
        event.event_type@ == "customer.subscription.updated"@,
        subscription_event_of(event.data.object) matches Some(sub)
            && store.user_of(sub.customer_id) == Some(user),
    ensures
        ({
            let after = store_after(store, set_by_event(store, config, event, made, now));
            match status_named(subscription_event_of(event.data.object)->0.status) {
                Some(status) => {
                    &&& after.status_of(user) == status
                    &&& match subscription_event_of(event.data.object)->0.current_period_end {
                        Some(secs) if representable(secs as int, 0) => {
                            &&& after.subscriptions[user].current_period_end matches Some(end)
                            &&& end.seconds() == secs
                            &&& end.subsec_nanos() == 0
                        },
                        _ => after.subscriptions[user].current_period_end is None,
                    }
                },
                None => after == store,
            }
        }),
{
    lemma_event_types_differ();
    if let Some(secs) = subscription_event_of(event.data.object)->0.current_period_end {
        law_points_in_time_are_read_back(secs, 0, now);
    }
}

/// The subscription that an event sets was updated at the time of the event. It was created when it
/// was before, or, where the user had none, when one of the free tier was made for the event.
pub proof fn law_events_keep_the_creation(
    store: StoreView,
    config: StripeConfigView,
    event: WebhookEvent,
    made: Timestamp,
    now: Timestamp,
)
    requires
        store_is_keyed(store),
    ensures
        set_by_event(store, config, event, made, now) matches Some(sub) ==> {
            &&& sub.updated_at == now
            &&& sub.created_at == (if store.subscriptions.contains_key(sub.user_id) {
                store.subscriptions[sub.user_id].created_at
            } else {
                made
            })
        },
{
}

/// Every subscription is kept under its own user.
pub open spec fn store_is_keyed(store: StoreView) -> bool {
    forall|user: Seq<char>| #[trigger]
        store.subscriptions.contains_key(user) ==> store.subscriptions[user].user_id == user
}

/// The empty store is so, and setting subscriptions and counting messages keep every subscription under its own user.
pub proof fn law_store_stays_keyed(
    store: StoreView,
    sub: SubscriptionView,
    user: Seq<char>,
    prompt: int,
    completion: int,
    date: Seq<char>,
)
    requires
        store_is_keyed(store),
    ensures
        store_is_keyed(empty_store()),
        store_is_keyed(store.with_subscription(sub)),
        store_is_keyed(store.with_message(user, prompt, completion, date)),
{
}

/// The subscription that is read is the one that the store keeps for the user; a user whom the store
/// does not know is in the free tier, without a customer, a subscription or an end of the period.
pub proof fn law_subscriptions_are_the_users_own(
    store: &SubscriptionStore,
    user_id: &str,
    now: Timestamp,
    r: UserSubscription,
    status: SubscriptionStatus,
)
    requires
        call_ensures(SubscriptionStore::get_subscription_at, (store, user_id, now), r),
        call_ensures(SubscriptionStore::status, (store, user_id), status),
    ensures
        store@.subscriptions.contains_key(user_id@) ==> r@ == store@.subscriptions[user_id@],
        !store@.subscriptions.contains_key(user_id@) ==> {
            &&& r.user_id@ == user_id@
            &&& r.status == SubscriptionStatus::Free
            &&& r.plan_name@ == "Free"@
            &&& r.stripe_customer_id is None
            &&& r.subscription_id is None
            &&& r.current_period_end is None
            &&& r.created_at == now
            &&& r.updated_at == now
        },
        status == r.status,
{
}

/// Setting a subscription keeps it under its user and makes its customer, if it has one, that
/// user's. Whatever is kept of others stays, and so does the usage.
pub proof fn law_set_subscriptions_are_kept(
    store: &mut SubscriptionStore,
    subscription: UserSubscription,
    other: Seq<char>,
    customer: &str,
    user: Option<String>,
)
    requires
        call_ensures(SubscriptionStore::set_subscription, (store, subscription), ()),
        call_ensures(
            SubscriptionStore::get_user_by_customer_id,
            (&*final(store), customer),
            user,
        ),
    ensures
        final(store)@.subscriptions.contains_key(subscription.user_id@),
        final(store)@.subscriptions[subscription.user_id@] == subscription@,
        other != subscription.user_id@ ==> {
            &&& final(store)@.subscriptions.contains_key(other) <==> old(store)@.subscriptions.contains_key(other)
            &&& old(store)@.subscriptions.contains_key(other) ==> final(store)@.subscriptions[other] == old(store)@.subscriptions[other]
        },
        match subscription.stripe_customer_id {
            Some(id) if id@ == customer@ => user matches Some(u) && u@ == subscription.user_id@,
            _ => user is Some <==> old(store)@.customers.contains_key(customer@),
        },
        subscription.stripe_customer_id matches Some(id) && id@ == customer@ || (
        user matches Some(u) ==> u@ == old(store)@.customers[customer@]),
        final(store)@.usage == old(store)@.usage,
        final(store).key() == old(store).key(),
{
}

/// What a user has used on a day is what the store keeps of that day, and nothing where it keeps
/// another day or none.
pub proof fn law_usage_is_that_of_the_day(
    store: &SubscriptionStore,
    user_id: &str,
    date: &str,
    r: DailyUsage,
)
    requires
        call_ensures(SubscriptionStore::get_daily_usage_on, (store, user_id, date), r),
    ensures
        r.date@ == date@,
        if store@.usage.contains_key(user_id@) && store@.usage[user_id@].date == date@ {
            r@ == store@.usage[user_id@]
        } else {
            r.message_count == 0 && r.prompt_tokens == 0 && r.completion_tokens == 0
        },
{
}

/// One more message of a user adds one to their messages of the day and its tokens, each kind to its
/// own, as long as the counters can show it. What is kept of others stays.
pub proof fn law_one_more_message_is_counted(
    store: &mut SubscriptionStore,
    user_id: &str,
    prompt_tokens: u32,
    completion_tokens: u32,
    date: &str,
    r: DailyUsage,
    other: Seq<char>,
)
    requires
        call_ensures(
            SubscriptionStore::increment_usage_on,
            (store, user_id, prompt_tokens, completion_tokens, date),
            r,
        ),
    ensures
        ({
            let had = old(store)@.usage_on(user_id@, date@);
            &&& r.date@ == date@
            &&& had.message_count < u32::MAX ==> r.message_count == had.message_count + 1
            &&& had.prompt_tokens + prompt_tokens <= u32::MAX ==> r.prompt_tokens
                == had.prompt_tokens + prompt_tokens
            &&& had.completion_tokens + completion_tokens <= u32::MAX ==> r.completion_tokens
                == had.completion_tokens + completion_tokens
            &&& had.message_count >= u32::MAX ==> r.message_count == u32::MAX
            &&& had.prompt_tokens + prompt_tokens > u32::MAX ==> r.prompt_tokens == u32::MAX
            &&& had.completion_tokens + completion_tokens > u32::MAX ==> r.completion_tokens
                == u32::MAX
        }),
        final(store)@.usage.contains_key(user_id@),
        final(store)@.usage[user_id@] == r@,
        other != user_id@ ==> {
            &&& final(store)@.usage.contains_key(other) <==> old(store)@.usage.contains_key(other)
            &&& old(store)@.usage.contains_key(other) ==> final(store)@.usage[other] == old(store)@.usage[other]
        },
        final(store)@.subscriptions == old(store)@.subscriptions,
        final(store)@.customers == old(store)@.customers,
{
}

/// A user whose payment failed or whose subscription was canceled may not send; one with a plan or on
/// trial may; anybody else may as long as there are free messages of the day left. The refusal says
/// which of these it is.
pub proof fn law_who_may_send(
    store: &SubscriptionStore,
    user_id: &str,
    free_daily_limit: u32,
    date: &str,
    r: Result<(), String>,
)
    requires
        call_ensures(
            SubscriptionStore::can_send_message_on,
            (store, user_id, free_daily_limit, date),
            r,
        ),
    ensures
        ({
            let status = if store@.subscriptions.contains_key(user_id@) {
                store@.subscriptions[user_id@].status
            } else {
                SubscriptionStatus::Free
            };
            match status {
                SubscriptionStatus::Active => r is Ok,
                SubscriptionStatus::Trialing => r is Ok,
                SubscriptionStatus::PastDue => r matches Err(text) && text@
                    == "Your subscription is "@ + "past due"@
                    + ". Please renew to continue using the bot."@,
                SubscriptionStatus::Canceled => r matches Err(text) && text@
                    == "Your subscription is "@ + "canceled"@
                    + ". Please renew to continue using the bot."@,
                SubscriptionStatus::Free => if store@.usage_on(user_id@, date@).message_count
                    < free_daily_limit {
                    r is Ok
                } else {
                    r matches Err(text) && text@ == "You've used all "@ + decimal(
                        free_daily_limit as nat,
                    )
                        + " free messages for today. Upgrade to Premium for unlimited messages!\n\nSend `!subscribe` to see plans."@
                },
            }
        }),
{
}

/// The answers of today are those of the day that it is.
pub proof fn law_today_is_the_day_that_it_is(
    store: &SubscriptionStore,
    user_id: &str,
    free_daily_limit: u32,
    sends: Result<(), String>,
    usage: DailyUsage,
    sub: UserSubscription,
)
    requires
        call_ensures(
            SubscriptionStore::can_send_message,
            (store, user_id, free_daily_limit),
            sends,
        ),
        call_ensures(SubscriptionStore::get_daily_usage, (store, user_id), usage),
        call_ensures(SubscriptionStore::get_subscription, (store, user_id), sub),
    ensures
        exists|now: Timestamp|
            now.valid() && answer(sends) == store@.verdict(
                user_id@,
                free_daily_limit,
                #[trigger] now.date(),
            ),
        exists|now: Timestamp|
            now.valid() && usage@ == store@.usage_on(user_id@, #[trigger] now.date()),
        store@.subscriptions.contains_key(user_id@) ==> sub@ == store@.subscriptions[user_id@],
        !store@.subscriptions.contains_key(user_id@) ==> sub.status == SubscriptionStatus::Free
            && sub.user_id@ == user_id@ && sub.created_at.valid(),
{
}

/// The summary counts the users, those with an active subscription and those of the free tier.
pub proof fn law_the_summary_counts_users(store: &SubscriptionStore, r: StoreStats)
    requires
        call_ensures(SubscriptionStore::get_stats, (store,), r),
    ensures
        ({
            let users = store@.subscriptions.dom();
            let with = |status: SubscriptionStatus|
                users.filter(|u: Seq<char>| store@.subscriptions[u].status == status).len();
            &&& r.total_users == users.len()
            &&& r.active_subscribers == with(SubscriptionStatus::Active)
            &&& r.free_users == with(SubscriptionStatus::Free)
        }),
{
}

/// The key is the one that is known, or else the first bytes that the environment derives, or else
/// the digest of what the environment says of the application. Where there is neither, or too few
/// bytes, there is none. A key that was found is known from then on.
pub proof fn law_where_the_key_comes_from(
    store: &mut SubscriptionStore,
    event: KeyEvent,
    r: KeyAction,
)
    requires
        call_ensures(SubscriptionStore::derive_key, (store, event), r),
    ensures
        match event {
            KeyEvent::Wanted => match old(store).key() {
                Some(key) => r matches KeyAction::Use(k) && k@ == key,
                None => r is Derive,
            },
            KeyEvent::Derived(bytes) => if bytes@.len() < 32 {
                r matches KeyAction::Fail(e) && e@ == StripeErrorView::Encryption(
                    "Derived key too short: "@ + decimal(bytes@.len()) + " bytes"@,
                )
            } else {
                r matches KeyAction::Use(k) && forall|i: int|
                    0 <= i < 32 ==> #[trigger] k@[i] == bytes@[i]
            },
            KeyEvent::NotDerived => r is AskAppInfo,
            KeyEvent::Informed(info) => r matches KeyAction::Use(k) && k@ == sha256(
                encode_utf8(
                    match info.compose_hash {
                        Some(hash) => hash@,
                        None => "unknown"@,
                    },
                ) + encode_utf8(
                    match info.app_id {
                        Some(id) => id@,
                        None => "unknown"@,
                    },
                ) + encode_utf8("stripe-payments/subscription-store"@),
            ),
            KeyEvent::NotInformed(reason) => r matches KeyAction::Fail(e) && e@
                == StripeErrorView::Encryption("Failed to get AppInfo: "@ + reason@),
        },
        match r {
            KeyAction::Use(k) => final(store).key() == Some(k@),
            _ => final(store).key() == old(store).key(),
        },
        final(store)@ == old(store)@,
{
}

/// What was written under a key is read back under it: the file is the nonce and what AES-GCM makes
/// of the data. A file that is too short for a nonce holds nothing, and one that does not decrypt
/// is refused.
pub proof fn law_what_was_written_is_read_back(
    key: &[u8; 32],
    nonce: &[u8; 12],
    plaintext: &[u8],
    written: Result<Vec<u8>, StripeError>,
    file: &[u8],
    read: Result<Option<Vec<u8>>, StripeError>,
)
    requires
        call_ensures(SubscriptionStore::persist_with, (key, nonce, plaintext), written),
        call_ensures(SubscriptionStore::load, (key, file), read),
    ensures
        written is Ok <==> plaintext@.len() <= 68719476736,
        written matches Ok(w) ==> {
            &&& w@ == nonce@ + aes_sealed(key@, nonce@, plaintext@)
            &&& w@ == file@ ==> (read matches Ok(Some(back)) && back@ == plaintext@)
        },
        file@.len() < 12 <==> read matches Ok(None),
        read matches Ok(Some(back)) ==> aes_opened(key@, file@.take(12), file@.skip(12)) == Some(
            back@,
        ),
        file@.len() >= 12 && aes_opened(key@, file@.take(12), file@.skip(12)) is None ==> (
        read matches Err(e) && e@ == StripeErrorView::Encryption(
            "Failed to decrypt subscription store. TEE deployment may have changed."@,
        )),
{
}

/// A new store keeps nothing and knows no key but the one that it was given.
pub proof fn law_new_stores_keep_nothing(
    key: [u8; 32],
    plain: SubscriptionStore,
    keyed: SubscriptionStore,
    user: Seq<char>,
)
    requires
        call_ensures(SubscriptionStore::new, (), plain),
        call_ensures(SubscriptionStore::with_key, (key,), keyed),
    ensures
        plain.key() is None,
        keyed.key() == Some(key@),
        plain@ == keyed@,
        plain@.version == 1,
        !plain@.subscriptions.contains_key(user),
        !plain@.customers.contains_key(user),
        !plain@.usage.contains_key(user),
{
}

/// The request asks Stripe under the client's key for one subscription at the price, for the user,
/// and as the customer that they are if they are one.
pub proof fn law_checkout_requests_say_what_is_bought(
    client: &StripeClient,
    price_id: &str,
    user_id: &str,
    success_url: &str,
    cancel_url: &str,
    customer_id: Option<&str>,
    r: FormRequest,
)
    requires
        call_ensures(
            StripeClient::create_checkout_session,
            (client, price_id, user_id, success_url, cancel_url, customer_id),
            r,
        ),
    ensures
        ({
            let form = fields(r.form@);
            &&& r.url@ == "https://api.stripe.com/v1"@ + "/checkout/sessions"@
            &&& r.username@ == client.secret()
            &&& form.contains(("mode"@, "subscription"@))
            &&& form.contains(("line_items[0][price]"@, price_id@))
            &&& form.contains(("line_items[0][quantity]"@, "1"@))
            &&& form.contains(("success_url"@, success_url@))
            &&& form.contains(("cancel_url"@, cancel_url@))
            &&& form.contains(("client_reference_id"@, user_id@))
            &&& customer_id matches Some(id) ==> form.contains(("customer"@, id@))
            &&& form.len() == (if customer_id is Some {
                7int
            } else {
                6int
            })
        }),
{
    let form = fields(r.form@);
    assert(form[0] == ("mode"@, "subscription"@));
    assert(form[1] == ("line_items[0][price]"@, price_id@));
    assert(form[2] == ("line_items[0][quantity]"@, "1"@));
    assert(form[3] == ("success_url"@, success_url@));
    assert(form[4] == ("cancel_url"@, cancel_url@));
    assert(form[5] == ("client_reference_id"@, user_id@));
    if let Some(id) = customer_id {
        assert(form[6] == ("customer"@, id@));
    }
}

/// The portal is opened for the customer, who comes back to the given address.
pub proof fn law_portal_requests_name_the_customer(
    client: &StripeClient,
    customer_id: &str,
    return_url: &str,
    r: FormRequest,
)
    requires
        call_ensures(StripeClient::create_portal_session, (client, customer_id, return_url), r),
    ensures
        r.url@ == "https://api.stripe.com/v1"@ + "/billing_portal/sessions"@,
        r.username@ == client.secret(),
        fields(r.form@).len() == 2,
        fields(r.form@).contains(("customer"@, customer_id@)),
        fields(r.form@).contains(("return_url"@, return_url@)),
{
    assert(fields(r.form@)[0] == ("customer"@, customer_id@));
    assert(fields(r.form@)[1] == ("return_url"@, return_url@));
}

/// What Stripe answers is what comes out, and where it refuses or cannot be reached the reason does.
pub proof fn law_stripes_answers_are_passed_on(
    checkout: ApiReply<CheckoutSession>,
    session: Result<CheckoutSession, StripeError>,
    portal: ApiReply<PortalSession>,
    opened: Result<PortalSession, StripeError>,
)
    requires
        call_ensures(StripeClient::checkout_session, (checkout,), session),
        call_ensures(StripeClient::portal_session, (portal,), opened),
    ensures
        match checkout {
            ApiReply::Answered(s) => session == Ok::<_, StripeError>(s),
            ApiReply::Refused(body) => session matches Err(e) && e@ == StripeErrorView::StripeApi(
                "Failed to create checkout session: "@ + body@,
            ),
            ApiReply::Unreachable(reason) => session matches Err(e) && e@
                == StripeErrorView::StripeApi(reason@),
        },
        match portal {
            ApiReply::Answered(s) => opened == Ok::<_, StripeError>(s),
            ApiReply::Refused(body) => opened matches Err(e) && e@ == StripeErrorView::StripeApi(
                "Failed to create portal session: "@ + body@,
            ),
            ApiReply::Unreachable(reason) => opened matches Err(e) && e@
                == StripeErrorView::StripeApi(reason@),
        },
{
}

/// A header that carries one time stamp and one signature is accepted exactly where the signature
/// is the HMAC, in hexadecimal and under the webhook secret, of the time stamp, a dot and the
/// payload.
pub proof fn law_one_signature_decides(
    client: &StripeClient,
    payload: &[u8],
    header: &str,
    time: Seq<char>,
    signature: Seq<char>,
    r: bool,
)
    requires
        call_ensures(StripeClient::is_signed, (client, payload, header), r),
        header@ == "t="@ + time + seq![','] + ("v1="@ + signature),
        !time.contains(','),
        !signature.contains(','),
        forall|i: int| 0 <= i < time.len() ==> !white_space(#[trigger] time[i]),
        forall|i: int| 0 <= i < signature.len() ==> !white_space(#[trigger] signature[i]),
    ensures
        r <==> signature == hex(
            hmac_sha256(
                encode_utf8(client.webhook_secret()),
                encode_utf8(time + "."@ + lossy_text(payload@)),
            ),
        ),
{
    reveal_strlit("t=");
    reveal_strlit("v1=");
    let a = "t="@ + time;
    let b = "v1="@ + signature;
    assert(!a.contains(',')) by {
        assert forall|i: int| 0 <= i < a.len() implies a[i] != ',' by {
            if i >= 2 {
                assert(a[i] == time[i - 2]);
                assert(time.contains(time[i - 2]));
            }
        }
    }
    assert(!b.contains(',')) by {
        assert forall|i: int| 0 <= i < b.len() implies b[i] != ',' by {
            if i >= 3 {
                assert(b[i] == signature[i - 3]);
                assert(signature.contains(signature[i - 3]));
            }
        }
    }
    assert(header@ =~= a.push(',') + b);
    lemma_split_single(a, ',');
    lemma_split_append(a, b, ',');
    assert forall|i: int| 0 <= i < a.len() implies !white_space(#[trigger] a[i]) by {
        if i >= 2 {
            assert(a[i] == time[i - 2]);
        }
    }
    assert forall|i: int| 0 <= i < b.len() implies !white_space(#[trigger] b[i]) by {
        if i >= 3 {
            assert(b[i] == signature[i - 3]);
        }
    }
    assert(!white_space(a[0]) && !white_space(a.last()));
    assert(!white_space(b[0]) && !white_space(b.last()));
    assert(trimmed(a) == a);
    assert(trimmed(b) == b);
    let parts = header_parts(header@);
    assert(parts =~= seq![a, b]);
    law_prefixes_are_followed(a, "t="@, time);
    law_prefixes_are_followed(b, "v1="@, signature);
    assert(after_prefix(b, "t="@) is None) by {
        assert(b[0] == 'v');
        if "t="@.is_prefix_of(b) {
            assert("t="@[0] == b[0]);
        }
    }
    assert(parts.drop_last() =~= seq![a]);
    assert(signed_time(seq![a]) == Some(time));
    assert(signed_time(parts) == Some(time));
    let expected = expected_signature(client.webhook_secret(), time, payload@);
    if signature == expected {
        assert(is_signature(parts[1], expected));
        assert(offers_signature(parts, expected));
    }
    if offers_signature(parts, expected) {
        let i = choose|i: int| 0 <= i < parts.len() && #[trigger] is_signature(parts[i], expected);
        assert(i == 1);
    }
}

/// A header without a time stamp, or without any signature, is never accepted.
pub proof fn law_headers_need_time_and_signature(secret: Seq<char>, payload: Seq<u8>, header: Seq<char>)
    requires
        (forall|i: int|
            0 <= i < header_parts(header).len() ==> after_prefix(
                #[trigger] header_parts(header)[i],
                "t="@,
            ) is None) || (forall|i: int|
            0 <= i < header_parts(header).len() ==> after_prefix(
                #[trigger] header_parts(header)[i],
                "v1="@,
            ) is None),
    ensures
        !validly_signed(secret, payload, header),
{
    lemma_no_time(header_parts(header));
}

proof fn lemma_no_time(parts: Seq<Seq<char>>)
    ensures
        (forall|i: int| 0 <= i < parts.len() ==> after_prefix(#[trigger] parts[i], "t="@) is None)
            ==> signed_time(parts) is None,
    decreases parts.len(),
{
    if parts.len() > 0 {
        lemma_no_time(parts.drop_last());
        if forall|i: int| 0 <= i < parts.len() ==> after_prefix(#[trigger] parts[i], "t="@) is None {
            let init = parts.drop_last();
            assert forall|i: int| 0 <= i < init.len() implies after_prefix(
                #[trigger] init[i],
                "t="@,
            ) is None by {
                assert(init[i] == parts[i]);
            }
            assert(after_prefix(parts[parts.len() - 1], "t="@) is None);
        }
    }
}

/// A webhook gives its event where it is validly signed and its payload can be read; it gives the
/// reader's reason where it cannot, and is refused where it is not validly signed.
pub proof fn law_webhooks_give_their_event<F: Fn(&[u8]) -> Result<WebhookEvent, String>>(
    client: &StripeClient,
    payload: &[u8],
    header: &str,
    read: F,
    r: Result<WebhookEvent, StripeError>,
)
    requires
        call_ensures(StripeClient::verify_webhook::<F>, (client, payload, header, read), r),
    ensures
        !validly_signed(client.webhook_secret(), payload@, header@) ==> (r matches Err(e) && e@
            == StripeErrorView::InvalidSignature),
        validly_signed(client.webhook_secret(), payload@, header@) ==> match r {
            Ok(event) => call_ensures(read, (payload,), Ok(event)),
            Err(e) => exists|m: String| #[trigger]
                call_ensures(read, (payload,), Err(m)) && e@ == StripeErrorView::Serialization(m@),
        },
{
}

/// A checkout is told by its customer; the subscription and the reference are what the object says
/// of them.
pub proof fn law_checkouts_are_read(event: &WebhookEvent, r: Option<CheckoutCompleted>)
    requires
        call_ensures(StripeClient::parse_checkout_completed, (event,), r),
    ensures
        ({
            let object = event.data.object;
            &&& r is Some <==> text_of(member(object, "customer"@)) is Some
            &&& r matches Some(c) ==> {
                &&& Some(c.customer_id@) == text_of(member(object, "customer"@))
                &&& opt_view(c.subscription_id) == text_of(member(object, "subscription"@))
                &&& opt_view(c.client_reference_id) == text_of(
                    member(object, "client_reference_id"@),
                )
            }
        }),
{
}

/// A subscription is told by its customer, its identifier and its status; the end of the period and
/// the price of its first item are what the object says of them.
pub proof fn law_subscription_events_are_read(event: &WebhookEvent, r: Option<SubscriptionEvent>)
    requires
        call_ensures(StripeClient::parse_subscription_event, (event,), r),
    ensures
        ({
            let object = event.data.object;
            let item = first_of(member_of(member(object, "items"@), "data"@));
            &&& r is Some <==> text_of(member(object, "customer"@)) is Some && text_of(
                member(object, "id"@),
            ) is Some && text_of(member(object, "status"@)) is Some
            &&& r matches Some(s) ==> {
                &&& Some(s.customer_id@) == text_of(member(object, "customer"@))
                &&& Some(s.subscription_id@) == text_of(member(object, "id"@))
                &&& Some(s.status@) == text_of(member(object, "status"@))
                &&& opt_view(s.price_id) == text_of(
                    member_of(member_of(item, "price"@), "id"@),
                )
                &&& s.current_period_end == integer_of(member(object, "current_period_end"@))
            }
        }),
{
}

/// A price of the Pro plan stands for "Pro"; any other price, and none, stands for "Premium".
pub proof fn law_plans_go_by_their_price(config: &StripeConfig, price_id: Option<&str>, r: String)
    requires
        call_ensures(determine_plan_name, (config, price_id), r),
    ensures
        price_id is Some && config.pro_price_id is Some && price_id->0@ == config.pro_price_id->0@
            ==> r@ == "Pro"@,
        price_id is None || config.pro_price_id is None || price_id->0@ != config.pro_price_id->0@
            ==> r@ == "Premium"@,
{
}

/// `after` is what `before` was but for the status and the time of the change.
pub open spec fn only_status_changed(before: SubscriptionView, after: SubscriptionView) -> bool {
    &&& after.user_id == before.user_id
    &&& after.stripe_customer_id == before.stripe_customer_id
    &&& after.subscription_id == before.subscription_id
    &&& after.plan_name == before.plan_name
    &&& after.current_period_end == before.current_period_end
    &&& after.created_at == before.created_at
}

/// `before` is the subscription that a user had, or one of the free tier, made at `made`.
pub open spec fn was(store: StoreView, user: Seq<char>, made: Timestamp, before: SubscriptionView) -> bool {
    if store.subscriptions.contains_key(user) {
        before == store.subscriptions[user]
    } else {
        &&& before.user_id == user
        &&& before.stripe_customer_id is None
        &&& before.subscription_id is None
        &&& before.status == SubscriptionStatus::Free
        &&& before.plan_name == "Free"@
        &&& before.current_period_end is None
        &&& before.created_at == made
    }
}

/// A completed checkout makes the subscription of its user, whom it names or who is its customer's,
/// an active one of that customer. What is known of the period stays.
pub proof fn law_checkouts_make_subscriptions_active(
    store: &SubscriptionStore,
    config: &StripeConfig,
    event: &WebhookEvent,
    made: Timestamp,
    now: Timestamp,
    r: Option<UserSubscription>,
    checkout: CheckoutView,
    before: SubscriptionView,
)
    requires
        call_ensures(handle_checkout_completed, (store, config, event, made, now), r),
        checkout_of(event.data.object) == Some(checkout),
        r matches Some(sub) ==> was(
            store@,
            match checkout.client_reference_id {
                Some(user) => user,
                None => store@.customers[checkout.customer_id],
            },
            made,
            before,
        ),
    ensures
        r is Some <==> checkout.client_reference_id is Some || store@.customers.contains_key(
            checkout.customer_id,
        ),
        r matches Some(sub) ==> {
            &&& sub.status == SubscriptionStatus::Active
            &&& opt_view(sub.stripe_customer_id) == Some(checkout.customer_id)
            &&& opt_view(sub.subscription_id) == checkout.subscription_id
            &&& sub.plan_name@ == "Premium"@
            &&& sub.updated_at == now
            &&& sub.user_id@ == before.user_id
            &&& sub.current_period_end == before.current_period_end
            &&& sub.created_at == before.created_at
        },
{
}

/// An update gives the subscription of its customer's user the status, the plan, the identifier and
/// the end of the period that it names, and leaves the user, the customer and the time of creation
/// as they were. It does nothing where the customer is unknown or the status is of another name.
pub proof fn law_updates_keep_user_and_customer(
    store: &SubscriptionStore,
    config: &StripeConfig,
    event: &WebhookEvent,
    made: Timestamp,
    now: Timestamp,
    r: Option<UserSubscription>,
    update: SubscriptionEventView,
    before: SubscriptionView,
)
    requires
        call_ensures(handle_subscription_updated, (store, config, event, made, now), r),
        subscription_event_of(event.data.object) == Some(update),
        store@.customers.contains_key(update.customer_id) ==> was(
            store@,
            store@.customers[update.customer_id],
            made,
            before,
        ),
    ensures
        r is Some <==> store@.customers.contains_key(update.customer_id) && (update.status
            == "active"@ || update.status == "past_due"@ || update.status == "canceled"@
            || update.status == "unpaid"@ || update.status == "trialing"@),
        r matches Some(sub) ==> {
            &&& sub.user_id@ == before.user_id
            &&& opt_view(sub.stripe_customer_id) == before.stripe_customer_id
            &&& sub.created_at == before.created_at
            &&& sub.updated_at == now
            &&& opt_view(sub.subscription_id) == Some(update.subscription_id)
            &&& sub.plan_name@ == (if update.price_id is Some && opt_view(config.pro_price_id)
                == update.price_id {
                "Pro"@
            } else {
                "Premium"@
            })
            &&& update.status == "active"@ ==> sub.status == SubscriptionStatus::Active
            &&& update.status == "past_due"@ ==> sub.status == SubscriptionStatus::PastDue
            &&& update.status == "canceled"@ ==> sub.status == SubscriptionStatus::Canceled
            &&& update.status == "unpaid"@ ==> sub.status == SubscriptionStatus::Canceled
            &&& update.status == "trialing"@ ==> sub.status == SubscriptionStatus::Trialing
            &&& match update.current_period_end {
                Some(secs) if representable(secs as int, 0) => sub.current_period_end matches Some(
                    end,
                ) && end.seconds() == secs && end.subsec_nanos() == 0,
                _ => sub.current_period_end is None,
            }
        },
{
    lemma_status_words_differ();
    if let Some(secs) = update.current_period_end {
        law_points_in_time_are_read_back(secs, 0, now);
    }
}

proof fn lemma_status_words_differ()
    ensures
        "active"@ != "past_due"@,
        "active"@ != "canceled"@,
        "active"@ != "unpaid"@,
        "active"@ != "trialing"@,
        "past_due"@ != "canceled"@,
        "past_due"@ != "unpaid"@,
        "past_due"@ != "trialing"@,
        "canceled"@ != "trialing"@,
        "unpaid"@ != "trialing"@,
{
    reveal_strlit("active");
    reveal_strlit("past_due");
    reveal_strlit("canceled");
    reveal_strlit("unpaid");
    reveal_strlit("trialing");
    assert("active"@[0] == 'a');
    assert("past_due"@[0] == 'p');
    assert("canceled"@[0] == 'c');
    assert("unpaid"@[0] == 'u');
    assert("trialing"@[0] == 't');
}

/// A deletion makes the subscription of its customer's user a canceled one and changes nothing else
/// of it. It does nothing where the customer is unknown.
pub proof fn law_deletions_change_the_status_alone(
    store: &SubscriptionStore,
    event: &WebhookEvent,
    made: Timestamp,
    now: Timestamp,
    r: Option<UserSubscription>,
    deletion: SubscriptionEventView,
    before: SubscriptionView,
)
    requires
        call_ensures(handle_subscription_deleted, (store, event, made, now), r),
        subscription_event_of(event.data.object) == Some(deletion),
        store@.customers.contains_key(deletion.customer_id) ==> was(
            store@,
            store@.customers[deletion.customer_id],
            made,
            before,
        ),
    ensures
        r is Some <==> store@.customers.contains_key(deletion.customer_id),
        r matches Some(sub) ==> {
            &&& sub.status == SubscriptionStatus::Canceled
            &&& sub.updated_at == now
            &&& only_status_changed(before, sub@)
        },
{
}

/// A failed payment makes the subscription of its customer's user one that is past due and changes
/// nothing else of it. It does nothing where the customer is unknown.
pub proof fn law_failed_payments_change_the_status_alone(
    store: &SubscriptionStore,
    event: &WebhookEvent,
    made: Timestamp,
    now: Timestamp,
    r: Option<UserSubscription>,
    customer: Seq<char>,
    before: SubscriptionView,
)
    requires
        call_ensures(handle_payment_failed, (store, event, made, now), r),
        text_of(member(event.data.object, "customer"@)) == Some(customer),
        store@.customers.contains_key(customer) ==> was(
            store@,
            store@.customers[customer],
            made,
            before,
        ),
    ensures
        r is Some <==> store@.customers.contains_key(customer),
        r matches Some(sub) ==> {
            &&& sub.status == SubscriptionStatus::PastDue
            &&& sub.updated_at == now
            &&& only_status_changed(before, sub@)
        },
{
}

/// Events that do not tell a customer, or of a subscription no identifier or status, do nothing.
pub proof fn law_incomplete_events_do_nothing(
    store: &SubscriptionStore,
    config: &StripeConfig,
    event: &WebhookEvent,
    made: Timestamp,
    now: Timestamp,
    checkout: Option<UserSubscription>,
    update: Option<UserSubscription>,
    deletion: Option<UserSubscription>,
    failure: Option<UserSubscription>,
)
    requires
        call_ensures(handle_checkout_completed, (store, config, event, made, now), checkout),
        call_ensures(handle_subscription_updated, (store, config, event, made, now), update),
        call_ensures(handle_subscription_deleted, (store, event, made, now), deletion),
        call_ensures(handle_payment_failed, (store, event, made, now), failure),
    ensures
        text_of(member(event.data.object, "customer"@)) is None ==> checkout is None && update
            is None && deletion is None && failure is None,
        text_of(member(event.data.object, "id"@)) is None || text_of(
            member(event.data.object, "status"@),
        ) is None ==> update is None && deletion is None,
{
}

/// The type of an event decides which of the four it is: the store then keeps the subscription that
/// this one sets, if it sets any, and is else as it was.
pub proof fn law_events_go_by_their_type(
    store: &mut SubscriptionStore,
    config: &StripeConfig,
    event: &WebhookEvent,
    made: Timestamp,
    now: Timestamp,
    r: bool,
    checkout: Option<UserSubscription>,
    update: Option<UserSubscription>,
    deletion: Option<UserSubscription>,
    failure: Option<UserSubscription>,
)
    requires
        call_ensures(
            handle_checkout_completed,
            (&*old(store), config, event, made, now),
            checkout,
        ),
        call_ensures(
            handle_subscription_updated,
            (&*old(store), config, event, made, now),
            update,
        ),
        call_ensures(handle_subscription_deleted, (&*old(store), event, made, now), deletion),
        call_ensures(handle_payment_failed, (&*old(store), event, made, now), failure),
        call_ensures(handle_event_at, (store, config, event, made, now), r),
    ensures
        ({
            let kind = event.event_type@;
            let set = if kind == "checkout.session.completed"@ {
                checkout
            } else if kind == "customer.subscription.updated"@ {
                update
            } else if kind == "customer.subscription.deleted"@ {
                deletion
            } else if kind == "invoice.payment_failed"@ {
                failure
            } else {
                None
            };
            &&& r <==> set is Some
            &&& set matches Some(sub) ==> {
                &&& final(store)@.subscriptions == old(store)@.subscriptions.insert(
                    sub.user_id@,
                    sub@,
                )
                &&& final(store)@.customers == (match sub.stripe_customer_id {
                    Some(id) => old(store)@.customers.insert(id@, sub.user_id@),
                    None => old(store)@.customers,
                })
                &&& final(store)@.usage == old(store)@.usage
                &&& final(store)@.version == old(store)@.version
            }
            &&& set is None ==> final(store)@ == old(store)@
        }),
        final(store).key() == old(store).key(),
{
    lemma_event_types_differ();
}

/// A webhook that is not validly signed, or holds no event, is refused and changes nothing; any other
/// is accepted, and its event is handled.
pub proof fn law_webhooks_are_handled<F: Fn(&[u8]) -> Result<WebhookEvent, String>>(
    state: &WebhookState,
    store: &mut SubscriptionStore,
    signature: Option<&str>,
    body: &[u8],
    read: F,
    made: Timestamp,
    now: Timestamp,
    r: WebhookOutcome,
)
    requires
        call_ensures(
            handle_webhook_at::<F>,
            (state, store, signature, body, read, made, now),
            r,
        ),
    ensures
        r.status == 200 || r.status == 400,
        signature is None || !validly_signed(
            state.stripe_client.webhook_secret(),
            body@,
            signature->0@,
        ) ==> r.status == 400,
        r.status == 400 ==> !r.stored && final(store)@ == old(store)@,
        r.status == 200 ==> exists|event: WebhookEvent| #[trigger]
            call_ensures(read, (body,), Ok(event)) && {
                let set = set_by_event(old(store)@, state.config@, event, made, now);
                &&& r.stored <==> set is Some
                &&& final(store)@ == store_after(old(store)@, set)
            },
        final(store).key() == old(store).key(),
{
    if signature is Some && validly_signed(
        state.stripe_client.webhook_secret(),
        body@,
        signature->0@,
    ) {
        let event = choose|event: Result<WebhookEvent, String>|
            {
                &&& #[trigger] call_ensures(read, (body,), event)
                &&& (r, final(store)@) == handled(
                    old(store)@,
                    state.config@,
                    found(event),
                    made,
                    now,
                )
            };
        if let Ok(e) = event {
            assert(call_ensures(read, (body,), Ok(e)));
        }
    }
}

/// The plans that have a price are listed with it, Premium before Pro.
pub proof fn law_configured_plans_are_listed(config: &StripeConfig, r: Vec<(&str, &str)>)
    requires
        call_ensures(StripeConfig::plan_price_ids, (config,), r),
    ensures
        ({
            let premium = if config.premium_price_id is Some {
                1int
            } else {
                0int
            };
            let pro = if config.pro_price_id is Some {
                1int
            } else {
                0int
            };
            &&& r@.len() == premium + pro
            &&& config.premium_price_id matches Some(id) ==> r@[0].0@ == "Premium"@ && r@[0].1@
                == id@
            &&& config.pro_price_id matches Some(id) ==> r@[premium].0@ == "Pro"@ && r@[premium].1@
                == id@
        }),
{
    let plans = r@.map_values(|p: (&str, &str)| (p.0@, p.1@));
    assert(plans == config@.plans());
    assert(plans.len() == r@.len());
    let premium = if config.premium_price_id is Some {
        1int
    } else {
        0int
    };
    if config.premium_price_id is Some {
        assert(plans[0] == (r@[0].0@, r@[0].1@));
    }
    if config.pro_price_id is Some {
        assert(plans[premium] == (r@[premium].0@, r@[premium].1@));
    }
}

/// Where nothing is configured, payments are off, there are no keys and no prices, and the rest is
/// as usual.
pub proof fn law_the_usual_configuration(r: StripeConfig)
    requires
        call_ensures(StripeConfig::default, (), r),
    ensures
        !r.enabled,
        r.secret_key@.len() == 0,
        r.webhook_secret@.len() == 0,
        r.server_port == 8082,
        r.storage_path@ == "/data/subscriptions.enc"@,
        r.free_daily_messages == 15,
        r.premium_price_id is None,
        r.pro_price_id is None,
        r.frontend_url@ == "https://signal-tee-web.vercel.app"@,
{
}

/// Every error is told with what it is and what it is about.
pub proof fn law_errors_are_told(e: &StripeError, r: String)
    requires
        call_ensures(StripeError::message, (e,), r),
    ensures
        match e {
            StripeError::DailyLimitReached { limit, upgrade_url } => r@
                == "Daily message limit reached ("@ + decimal(*limit as nat)
                + " messages). Upgrade your plan: "@ + upgrade_url@,
            StripeError::SubscriptionInactive(m) => r@ == "Subscription inactive: "@ + m@,
            StripeError::StripeApi(m) => r@ == "Stripe API error: "@ + m@,
            StripeError::InvalidSignature => r@ == "Invalid webhook signature"@,
            StripeError::Encryption(m) => r@ == "Encryption error: "@ + m@,
            StripeError::Storage(m) => r@ == "Storage error: "@ + m@,
            StripeError::Serialization(m) => r@ == "Serialization error: "@ + m@,
            StripeError::Config(m) => r@ == "Configuration error: "@ + m@,
            StripeError::UserNotFound(m) => r@ == "User not found: "@ + m@,
            StripeError::Internal(m) => r@ == "Internal error: "@ + m@,
        },
{
}

/// Who may send at all, and who without a limit.
pub proof fn law_what_a_status_allows(status: &SubscriptionStatus, sends: bool, unlimited: bool)
    requires
        call_ensures(SubscriptionStatus::can_send, (status,), sends),
        call_ensures(SubscriptionStatus::is_unlimited, (status,), unlimited),
    ensures
        match status {
            SubscriptionStatus::Free => sends && !unlimited,
            SubscriptionStatus::Active => sends && unlimited,
            SubscriptionStatus::Trialing => sends && unlimited,
            SubscriptionStatus::PastDue => !sends && !unlimited,
            SubscriptionStatus::Canceled => !sends && !unlimited,
        },
{
}

/// What Stripe's events and forms hold is seen whole.
pub proof fn law_events_and_forms_are_seen_whole(
    event: SubscriptionEvent,
    checkout: CheckoutCompleted,
    form: Seq<(&'static str, String)>,
    i: int,
)
    ensures
        event@.customer_id == event.customer_id@,
        event@.subscription_id == event.subscription_id@,
        event@.status == event.status@,
        event@.price_id == opt_view(event.price_id),
        event@.current_period_end == event.current_period_end,
        checkout@.customer_id == checkout.customer_id@,
        checkout@.subscription_id == opt_view(checkout.subscription_id),
        checkout@.client_reference_id == opt_view(checkout.client_reference_id),
        fields(form).len() == form.len(),
        0 <= i < form.len() ==> fields(form)[i] == (form[i].0@, form[i].1@),
{
}

/// What the store keeps is seen user by user and customer by customer, and is replaced whole.
pub proof fn law_the_store_is_seen_whole(
    store: &mut SubscriptionStore,
    data: SubscriptionStoreData,
    kept: &SubscriptionStoreData,
    k: Seq<char>,
)
    requires
        call_ensures(SubscriptionStore::replace_data, (store, data), ()),
        call_ensures(SubscriptionStore::data, (&*final(store),), kept),
    ensures
        final(store)@ == data@,
        kept@ == data@,
        final(store).key() == old(store).key(),
        data@.version == data.version,
        data@.subscriptions.contains_key(k) <==> data.subscriptions@.contains_key(k),
        data.subscriptions@.contains_key(k) ==> data@.subscriptions[k] == data.subscriptions@[k]@,
        data@.customers.contains_key(k) <==> data.customer_id_map@.contains_key(k),
        data.customer_id_map@.contains_key(k) ==> data@.customers[k] == data.customer_id_map@[k]@,
        data@.usage.contains_key(k) <==> data.daily_usage@.contains_key(k),
        data.daily_usage@.contains_key(k) ==> data@.usage[k] == data.daily_usage@[k]@,
{
}

/// A message of today is counted on the day that it is.
pub proof fn law_messages_count_today(
    store: &mut SubscriptionStore,
    user_id: &str,
    prompt_tokens: u32,
    completion_tokens: u32,
    r: DailyUsage,
    other: Seq<char>,
)
    requires
        call_ensures(
            SubscriptionStore::increment_usage,
            (store, user_id, prompt_tokens, completion_tokens),
            r,
        ),
    ensures
        exists|now: Timestamp|
            {
                let had = old(store)@.usage_on(user_id@, #[trigger] now.date());
                &&& now.valid()
                &&& r.date@ == now.date()
                &&& had.message_count < u32::MAX ==> r.message_count == had.message_count + 1
                &&& had.prompt_tokens + prompt_tokens <= u32::MAX ==> r.prompt_tokens
                    == had.prompt_tokens + prompt_tokens
                &&& had.completion_tokens + completion_tokens <= u32::MAX ==> r.completion_tokens
                    == had.completion_tokens + completion_tokens
            },
        final(store)@.usage.contains_key(user_id@),
        final(store)@.usage[user_id@] == r@,
        other != user_id@ && old(store)@.usage.contains_key(other) ==> {
            &&& final(store)@.usage.contains_key(other)
            &&& final(store)@.usage[other] == old(store)@.usage[other]
        },
        final(store)@.subscriptions == old(store)@.subscriptions,
        final(store)@.customers == old(store)@.customers,
{
}

/// What is written under a fresh nonce is read back under the same key.
pub proof fn law_fresh_files_are_read_back(
    key: &[u8; 32],
    plaintext: &[u8],
    written: Result<Vec<u8>, StripeError>,
    file: &[u8],
    read: Result<Option<Vec<u8>>, StripeError>,
)
    requires
        call_ensures(SubscriptionStore::persist, (key, plaintext), written),
        call_ensures(SubscriptionStore::load, (key, file), read),
    ensures
        written is Ok <==> plaintext@.len() <= 68719476736,
        written matches Ok(w) ==> {
            &&& w@ == file@ ==> (read matches Ok(Some(back)) && back@ == plaintext@)
            &&& exists|nonce: Seq<u8>|
                nonce.len() == 12 && w@ == nonce + #[trigger] aes_sealed(
                    key@,
                    nonce,
                    plaintext@,
                )
        },
        written matches Err(e) ==> e@ == StripeErrorView::Encryption("AES-GCM operation failed"@),
{
    if let Ok(w) = written {
        let nonce = choose|nonce: Seq<u8>|
            nonce.len() == 12 && w@ == #[trigger] sealed(key@, nonce, plaintext@);
        assert(w@ == nonce + aes_sealed(key@, nonce, plaintext@));
    }
}

/// A webhook that comes in now is handled at times that the clock shows.
pub proof fn law_webhooks_are_handled_now<F: Fn(&[u8]) -> Result<WebhookEvent, String>>(
    state: &WebhookState,
    store: &mut SubscriptionStore,
    signature: Option<&str>,
    body: &[u8],
    read: F,
    r: WebhookOutcome,
)
    requires
        call_ensures(handle_webhook::<F>, (state, store, signature, body, read), r),
    ensures
        r.status == 200 || r.status == 400,
        signature is None || !validly_signed(
            state.stripe_client.webhook_secret(),
            body@,
            signature->0@,
        ) ==> r.status == 400,
        r.status == 400 ==> !r.stored && final(store)@ == old(store)@,
        r.status == 200 ==> exists|event: WebhookEvent, made: Timestamp, now: Timestamp|
            {
                let set = #[trigger] set_by_event(old(store)@, state.config@, event, made, now);
                &&& made.valid()
                &&& now.valid()
                &&& call_ensures(read, (body,), Ok(event))
                &&& r.stored <==> set is Some
                &&& final(store)@ == store_after(old(store)@, set)
            },
        final(store).key() == old(store).key(),
{
    if signature is Some && validly_signed(
        state.stripe_client.webhook_secret(),
        body@,
        signature->0@,
    ) {
        let (event, made, now) = choose|
            event: Result<WebhookEvent, String>,
            made: Timestamp,
            now: Timestamp,
        |
            {
                &&& made.valid()
                &&& now.valid()
                &&& #[trigger] call_ensures(read, (body,), event)
                &&& (r, final(store)@) == #[trigger] handled(
                    old(store)@,
                    state.config@,
                    found(event),
                    made,
                    now,
                )
            };
        if let Ok(e) = event {
            let set = set_by_event(old(store)@, state.config@, e, made, now);
            assert(r.stored <==> set is Some);
        }
    }
}

/// A client has the secret key and the webhook secret of its configuration, each for what it is.
pub proof fn law_clients_have_their_keys(config: &StripeConfig, r: StripeClient)
    requires
        call_ensures(StripeClient::new, (config,), r),
    ensures
        r.secret() == config.secret_key@,
        r.webhook_secret() == config.webhook_secret@,
{
}

/// Of several time stamps in a header the last one counts.
pub proof fn law_the_last_time_stamp_counts(parts: Seq<Seq<char>>, part: Seq<char>, time: Seq<char>)
    ensures
        signed_time(Seq::empty()) is None,
        signed_time(parts.push("t="@ + time)) == Some(time),
        !"t="@.is_prefix_of(part) ==> signed_time(parts.push(part)) == signed_time(parts),
{
    law_prefixes_are_followed("t="@ + time, "t="@, time);
    assert(parts.push(part).drop_last() =~= parts);
}

/// The name of a status is its own.
pub proof fn law_statuses_have_their_names(status: &SubscriptionStatus, r: &'static str)
    requires
        call_ensures(SubscriptionStatus::variant_name, (status,), r),
    ensures
        match status {
            SubscriptionStatus::Free => r@ == "Free"@,
            SubscriptionStatus::Active => r@ == "Active"@,
            SubscriptionStatus::PastDue => r@ == "PastDue"@,
            SubscriptionStatus::Canceled => r@ == "Canceled"@,
            SubscriptionStatus::Trialing => r@ == "Trialing"@,
        },
{
}

} // verus!
