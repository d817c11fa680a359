//! Subscriptions and daily usage.
use vstd::prelude::*;

use crate::clock::Timestamp;
use crate::text::{copy_opt, opt_view, same};

verus! {

/// Where a subscription stands.
#[derive(Debug, Clone, Copy, PartialEq, Eq, Structural)]
pub enum SubscriptionStatus {
    /// No subscription: the free tier.
    Free,
    /// A paid subscription.
    Active,
    /// A payment failed.
    PastDue,
    /// The subscription was canceled.
    Canceled,
    /// The trial period.
    Trialing,
}

impl Default for SubscriptionStatus {
    fn default() -> (r: Self)
        ensures
            r == SubscriptionStatus::Free,
    {
        SubscriptionStatus::Free
    }
}

impl SubscriptionStatus {
    /// The user may send messages at all.
    pub open spec fn sends(self) -> bool {
        self is Free || self is Active || self is Trialing
    }

    /// The user may send without a daily limit.
    pub open spec fn unlimited(self) -> bool {
        self is Active || self is Trialing
    }

    /// The name of the variant.
    pub open spec fn name(self) -> Seq<char> {
        match self {
            SubscriptionStatus::Free => "Free"@,
            SubscriptionStatus::Active => "Active"@,
            SubscriptionStatus::PastDue => "PastDue"@,
            SubscriptionStatus::Canceled => "Canceled"@,
            SubscriptionStatus::Trialing => "Trialing"@,
        }
    }

    /// Whether the user can send messages.
    pub fn can_send(&self) -> (r: bool)
        ensures
            r == self.sends(),
    {
        matches!(
            self,
            SubscriptionStatus::Free | SubscriptionStatus::Active | SubscriptionStatus::Trialing
        )
    }

    /// Whether the user has unlimited messages.
    pub fn is_unlimited(&self) -> (r: bool)
        ensures
            r == self.unlimited(),
    {
        matches!(self, SubscriptionStatus::Active | SubscriptionStatus::Trialing)
    }

    /// The name of the variant.
    pub fn variant_name(&self) -> (r: &'static str)
        ensures
            r@ == self.name(),
    {
        match self {
            SubscriptionStatus::Free => "Free",
            SubscriptionStatus::Active => "Active",
            SubscriptionStatus::PastDue => "PastDue",
            SubscriptionStatus::Canceled => "Canceled",
            SubscriptionStatus::Trialing => "Trialing",
        }
    }
}

/// Who has no limit may send.
pub proof fn law_unlimited_can_send(status: SubscriptionStatus)
    ensures
        status.unlimited() ==> status.sends(),
        status.sends() ==> status.unlimited() || status == SubscriptionStatus::Free,
{
}

/// A user's subscription.
#[derive(Debug)]
pub struct UserSubscription {
    /// The user: a Signal phone number.
    pub user_id: String,
    /// Stripe's customer identifier.
    pub stripe_customer_id: Option<String>,
    /// Stripe's subscription identifier.
    pub subscription_id: Option<String>,
    /// Where the subscription stands.
    pub status: SubscriptionStatus,
    /// The name of the plan: "Free", "Premium" or "Pro".
    pub plan_name: String,
    /// When the billing period ends.
    pub current_period_end: Option<Timestamp>,
    /// When the subscription was created.
    pub created_at: Timestamp,
    /// When the subscription was last changed.
    pub updated_at: Timestamp,
}

/// A [`UserSubscription`] with its texts as character sequences.
pub struct SubscriptionView {
    pub user_id: Seq<char>,
    pub stripe_customer_id: Option<Seq<char>>,
    pub subscription_id: Option<Seq<char>>,
    pub status: SubscriptionStatus,
    pub plan_name: Seq<char>,
    pub current_period_end: Option<Timestamp>,
    pub created_at: Timestamp,
    pub updated_at: Timestamp,
}

impl View for UserSubscription {
    type V = SubscriptionView;

    open spec fn view(&self) -> SubscriptionView {
        SubscriptionView {
            user_id: self.user_id@,
            stripe_customer_id: opt_view(self.stripe_customer_id),
            subscription_id: opt_view(self.subscription_id),
            status: self.status,
            plan_name: self.plan_name@,
            current_period_end: self.current_period_end,
            created_at: self.created_at,
            updated_at: self.updated_at,
        }
    }
}

/// The subscription of a user in the free tier, as of `now`.
pub open spec fn free_subscription(user_id: Seq<char>, now: Timestamp) -> SubscriptionView {
    SubscriptionView {
        user_id,
        stripe_customer_id: None,
        subscription_id: None,
        status: SubscriptionStatus::Free,
        plan_name: "Free"@,
        current_period_end: None,
        created_at: now,
        updated_at: now,
    }
}

impl Clone for UserSubscription {
    fn clone(&self) -> (r: Self)
        ensures
            r@ == self@,
    {
        UserSubscription {
            user_id: self.user_id.clone(),
            stripe_customer_id: copy_opt(&self.stripe_customer_id),
            subscription_id: copy_opt(&self.subscription_id),
            status: self.status,
            plan_name: self.plan_name.clone(),
            current_period_end: self.current_period_end,
            created_at: self.created_at,
            updated_at: self.updated_at,
        }
    }
}

impl UserSubscription {
    /// The subscription of a user in the free tier, created now.
    pub fn new_free(user_id: String) -> (r: Self)
        ensures
            r@ == free_subscription(user_id@, r.created_at),
            r.created_at.valid(),
    {
        UserSubscription::new_free_at(user_id, Timestamp::now())
    }

    /// The subscription of a user in the free tier, created at `now`.
    pub fn new_free_at(user_id: String, now: Timestamp) -> (r: Self)
        ensures
            r@ == free_subscription(user_id@, now),
    {
        UserSubscription {
            user_id,
            stripe_customer_id: None,
            subscription_id: None,
            status: SubscriptionStatus::Free,
            plan_name: "Free".to_owned(),
            current_period_end: None,
            created_at: now,
            updated_at: now,
        }
    }
}

/// What a user has used on one day.
#[derive(Debug)]
pub struct DailyUsage {
    /// The day, as YYYY-MM-DD.
    pub date: String,
    /// The messages sent.
    pub message_count: u32,
    /// The prompt tokens consumed.
    pub prompt_tokens: u32,
    /// The completion tokens consumed.
    pub completion_tokens: u32,
}

/// A [`DailyUsage`] with its text as a character sequence.
pub struct UsageView {
    pub date: Seq<char>,
    pub message_count: int,
    pub prompt_tokens: int,
    pub completion_tokens: int,
}

impl View for DailyUsage {
    type V = UsageView;

    open spec fn view(&self) -> UsageView {
        UsageView {
            date: self.date@,
            message_count: self.message_count as int,
            prompt_tokens: self.prompt_tokens as int,
            completion_tokens: self.completion_tokens as int,
        }
    }
}

/// No usage on the given day.
pub open spec fn no_usage(date: Seq<char>) -> UsageView {
    UsageView { date, message_count: 0, prompt_tokens: 0, completion_tokens: 0 }
}

/// What a counter shows of `n`: it stops at its largest value.
pub open spec fn shown(n: int) -> int {
    if n <= u32::MAX {
        n
    } else {
        u32::MAX as int
    }
}

impl UsageView {
    /// The usage after one more message.
    pub open spec fn after_message(self, prompt: int, completion: int) -> UsageView {
        UsageView {
            date: self.date,
            message_count: shown(self.message_count + 1),
            prompt_tokens: shown(self.prompt_tokens + prompt),
            completion_tokens: shown(self.completion_tokens + completion),
        }
    }

    /// The counters fit their machine words.
    pub open spec fn fits(self) -> bool {
        &&& 0 <= self.message_count <= u32::MAX
        &&& 0 <= self.prompt_tokens <= u32::MAX
        &&& 0 <= self.completion_tokens <= u32::MAX
    }
}

impl Clone for DailyUsage {
    fn clone(&self) -> (r: Self)
        ensures
            r@ == self@,
    {
        DailyUsage {
            date: self.date.clone(),
            message_count: self.message_count,
            prompt_tokens: self.prompt_tokens,
            completion_tokens: self.completion_tokens,
        }
    }
}

impl DailyUsage {
    /// An empty record for today.
    pub fn new_today() -> (r: Self)
        ensures
            exists|now: Timestamp| now.valid() && r@ == no_usage(#[trigger] now.date()),
    {
        let now = Timestamp::now();
        let r = DailyUsage::new_on(now.date_text());
        assert(r@ == no_usage(now.date()));
        r
    }

    /// An empty record for the given day.
    pub fn new_on(date: String) -> (r: Self)
        ensures
            r@ == no_usage(date@),
    {
        DailyUsage { date, message_count: 0, prompt_tokens: 0, completion_tokens: 0 }
    }

    /// Whether this record is for the current day.
    pub fn is_today(&self) -> (r: bool)
        ensures
            exists|now: Timestamp| now.valid() && r == (self@.date == #[trigger] now.date()),
    {
        let now = Timestamp::now();
        let r = self.is_on(now.date_text().as_str());
        assert(r == (self@.date == now.date()));
        r
    }

    /// Whether this record is for the given day.
    pub fn is_on(&self, date: &str) -> (r: bool)
        ensures
            r == (self@.date == date@),
    {
        same(self.date.as_str(), date)
    }
}

/// A subscription and a record of usage are seen with all that they hold.
pub proof fn law_subscriptions_are_seen_whole(sub: UserSubscription, usage: DailyUsage)
    ensures
        sub@.user_id == sub.user_id@,
        sub@.stripe_customer_id == opt_view(sub.stripe_customer_id),
        sub@.subscription_id == opt_view(sub.subscription_id),
        sub@.status == sub.status,
        sub@.plan_name == sub.plan_name@,
        sub@.current_period_end == sub.current_period_end,
        sub@.created_at == sub.created_at,
        sub@.updated_at == sub.updated_at,
        usage@.date == usage.date@,
        usage@.message_count == usage.message_count,
        usage@.prompt_tokens == usage.prompt_tokens,
        usage@.completion_tokens == usage.completion_tokens,
{
}

/// A record of usage is for the day that it was made for, and begins with nothing used.
pub proof fn law_usage_begins_with_nothing(
    date: String,
    r: DailyUsage,
    day: &str,
    on: bool,
    today: DailyUsage,
)
    requires
        call_ensures(DailyUsage::new_on, (date,), r),
        call_ensures(DailyUsage::is_on, (&r, day), on),
        call_ensures(DailyUsage::new_today, (), today),
    ensures
        r.date@ == date@,
        r.message_count == 0 && r.prompt_tokens == 0 && r.completion_tokens == 0,
        on <==> day@ == date@,
        exists|now: Timestamp| now.valid() && today.date@ == #[trigger] now.date(),
        today.message_count == 0 && today.prompt_tokens == 0 && today.completion_tokens == 0,
{
}

/// A user begins in the free tier, without a customer, a subscription or an end of the period.
pub proof fn law_users_begin_in_the_free_tier(
    user_id: String,
    now: Timestamp,
    r: UserSubscription,
    usual: SubscriptionStatus,
)
    requires
        call_ensures(UserSubscription::new_free_at, (user_id, now), r),
        call_ensures(SubscriptionStatus::default, (), usual),
    ensures
        r.user_id@ == user_id@,
        r.status == SubscriptionStatus::Free,
        usual == SubscriptionStatus::Free,
        r.plan_name@ == "Free"@,
        r.stripe_customer_id is None,
        r.subscription_id is None,
        r.current_period_end is None,
        r.created_at == now && r.updated_at == now,
{
}

/// A copy of a subscription or of a record of usage holds what it is a copy of.
pub proof fn law_copies_are_the_same(
    sub: &UserSubscription,
    copy: UserSubscription,
    usage: &DailyUsage,
    second: DailyUsage,
)
    requires
        call_ensures(UserSubscription::clone, (sub,), copy),
        call_ensures(DailyUsage::clone, (usage,), second),
    ensures
        copy.user_id@ == sub.user_id@,
        opt_view(copy.stripe_customer_id) == opt_view(sub.stripe_customer_id),
        opt_view(copy.subscription_id) == opt_view(sub.subscription_id),
        copy.status == sub.status,
        copy.plan_name@ == sub.plan_name@,
        copy.current_period_end == sub.current_period_end,
        copy.created_at == sub.created_at,
        copy.updated_at == sub.updated_at,
        second.date@ == usage.date@,
        second.message_count == usage.message_count,
        second.prompt_tokens == usage.prompt_tokens,
        second.completion_tokens == usage.completion_tokens,
{
}

/// A user who is new now begins in the free tier, and a record of usage is of today where its day is
/// the day that it is.
pub proof fn law_today_and_now(user_id: String, r: UserSubscription, usage: &DailyUsage, today: bool)
    requires
        call_ensures(UserSubscription::new_free, (user_id,), r),
        call_ensures(DailyUsage::is_today, (usage,), today),
    ensures
        r.user_id@ == user_id@,
        r.status == SubscriptionStatus::Free,
        r.plan_name@ == "Free"@,
        r.stripe_customer_id is None && r.subscription_id is None,
        r.current_period_end is None,
        r.created_at == r.updated_at,
        r.created_at.valid(),
        exists|now: Timestamp| now.valid() && (today <==> usage.date@ == #[trigger] now.date()),
{
    let now = choose|now: Timestamp| now.valid() && today == (usage@.date == #[trigger] now.date());
    assert(today <==> usage.date@ == now.date());
}

} // verus!
