//! Payment gates: who may send, and what is recorded once an answer was given.
use vstd::prelude::*;
use vstd::string::*;

use crate::clock::Timestamp;
use crate::stripe::store::{answer, StoreView, SubscriptionStore};
use crate::stripe::types::{
    no_usage, shown, DailyUsage, SubscriptionStatus, SubscriptionView, UsageView, UserSubscription,
};
use crate::text::{decimal, decimal_text, opt_view, same};

verus! {

/// A payment gate checks access and records usage.
pub trait PaymentGate {
    /// Whether a user may send a message of the given length, and the refusal if not.
    fn check_access(&self, user_id: &str, message_len: usize) -> Result<(), String>;

    /// Whether a group may use the bot, and the refusal if not: as if the group were a user.
    fn check_group_access(&self, group_id: &str) -> (r: Result<(), String>)
        default_ensures
            call_ensures(Self::check_access, (self, group_id, 0usize), r),
    {
        self.check_access(group_id, 0)
    }

    /// Records the usage of a message that was answered, and returns what is to be added to the
    /// answer. Nothing is added where the usage cannot be recorded.
    fn record_usage(
        &mut self,
        user_id: &str,
        conversation_id: &str,
        prompt_tokens: u32,
        completion_tokens: u32,
    ) -> Option<String>;

    /// How a user stands.
    fn status_text(&self, user_id: &str) -> String;
}

/// Access for users with and without a Stripe subscription.
pub struct StripeGate {
    pub store: SubscriptionStore,
    pub free_daily_messages: u32,
}

/// The refusal of a group that has used up the free messages of the day.
pub open spec fn group_limit_text(limit: u32) -> Seq<char> {
    "This group has used all "@ + decimal(limit as nat)
        + " free messages for today.\n\nIn a DM with me, send `!subscribe` to get unlimited messages (works in all your groups too)."@
}

/// Whether a group may use the bot on the day `date`, and the refusal if not.
pub open spec fn group_verdict(
    store: StoreView,
    group: Seq<char>,
    limit: u32,
    date: Seq<char>,
) -> Result<(), Seq<char>> {
    if store.usage_on(group, date).message_count >= limit {
        Err(group_limit_text(limit))
    } else {
        Ok(())
    }
}

/// What is added to an answer: the number of free messages that were used, for users who have
/// a limit.
pub open spec fn usage_note(unlimited: bool, messages: int, limit: u32) -> Option<Seq<char>> {
    if unlimited {
        None
    } else {
        Some(
            "\n\n_"@ + decimal(messages as nat) + "/"@ + decimal(limit as nat)
                + " free messages used today_"@,
        )
    }
}

/// The store once an answer to `user` in `conversation` was recorded on the day `date`: it counts
/// for the user and, where the conversation is that of a group, for the group as well.
pub open spec fn recorded(
    store: StoreView,
    user: Seq<char>,
    conversation: Seq<char>,
    prompt: int,
    completion: int,
    date: Seq<char>,
) -> StoreView {
    let s = store.with_message(user, prompt, completion, date);
    if conversation == user {
        s
    } else {
        s.with_message(conversation, prompt, completion, date)
    }
}

/// How a user with the given subscription and usage stands.
pub open spec fn stripe_status(sub: SubscriptionView, usage: UsageView, limit: u32) -> Seq<char> {
    let head = "Plan: "@ + sub.plan_name + "\nStatus: "@ + sub.status.name()
        + "\nMessages today: "@ + decimal(usage.message_count as nat);
    let counted = if sub.status.unlimited() {
        head
    } else {
        head + "/"@ + decimal(limit as nat)
    };
    match sub.current_period_end {
        Some(end) => counted + "\nRenews: "@ + end.date(),
        None => counted,
    }
}

impl StripeGate {
    /// Whether a group may use the bot on the day `date`, and the refusal if not.
    pub fn check_group_access_on(&self, group_id: &str, date: &str) -> (r: Result<(), String>)
        ensures
            answer(r) == group_verdict(self.store@, group_id@, self.free_daily_messages, date@),
    {
        let usage = self.store.get_daily_usage_on(group_id, date);
        if usage.message_count >= self.free_daily_messages {
            let mut m = "This group has used all ".to_owned();
            m.append(decimal_text(self.free_daily_messages as u64).as_str());
            m.append(
                " free messages for today.\n\nIn a DM with me, send `!subscribe` to get unlimited messages (works in all your groups too).",
            );
            return Err(m);
        }
        Ok(())
    }

    /// Records the usage of a message that was answered on the day `date`, and returns what is to
    /// be added to the answer.
    pub fn record_usage_on(
        &mut self,
        user_id: &str,
        conversation_id: &str,
        prompt_tokens: u32,
        completion_tokens: u32,
        date: &str,
    ) -> (r: Option<String>)
        ensures
            final(self).store@ == recorded(
                old(self).store@,
                user_id@,
                conversation_id@,
                prompt_tokens as int,
                completion_tokens as int,
                date@,
            ),
            final(self).store.key() == old(self).store.key(),
            final(self).free_daily_messages == old(self).free_daily_messages,
            opt_view(r) == usage_note(
                old(self).store@.status_of(user_id@).unlimited(),
                old(self).store@.next_usage(
                    user_id@,
                    prompt_tokens as int,
                    completion_tokens as int,
                    date@,
                ).message_count,
                old(self).free_daily_messages,
            ),
    {
        let usage = self.store.increment_usage_on(user_id, prompt_tokens, completion_tokens, date);
        if !same(conversation_id, user_id) {
            self.store.increment_usage_on(conversation_id, prompt_tokens, completion_tokens, date);
        }
        if self.store.status(user_id).is_unlimited() {
            return None;
        }
        let mut m = "\n\n_".to_owned();
        m.append(decimal_text(usage.message_count as u64).as_str());
        m.append("/");
        m.append(decimal_text(self.free_daily_messages as u64).as_str());
        m.append(" free messages used today_");
        Some(m)
    }

    /// How a user with the given subscription and usage stands.
    pub fn status_of(&self, sub: &UserSubscription, usage: &DailyUsage) -> (r: String)
        ensures
            r@ == stripe_status(sub@, usage@, self.free_daily_messages),
    {
        let mut m = "Plan: ".to_owned();
        m.append(sub.plan_name.as_str());
        m.append("\nStatus: ");
        m.append(sub.status.variant_name());
        m.append("\nMessages today: ");
        m.append(decimal_text(usage.message_count as u64).as_str());
        if !sub.status.is_unlimited() {
            m.append("/");
            m.append(decimal_text(self.free_daily_messages as u64).as_str());
        }
        if let Some(end) = &sub.current_period_end {
            m.append("\nRenews: ");
            m.append(end.date_text().as_str());
        }
        m
    }
}

/// What is added to an answer in the end, where `note` tells of the usage that was recorded and
/// `saved` says whether the store that it was recorded in could be saved.
pub fn note_once_saved(note: Option<String>, saved: bool) -> (r: Option<String>)
    ensures
        r == (if saved {
            note
        } else {
            None
        }),
{
    if saved {
        note
    } else {
        None
    }
}

impl PaymentGate for StripeGate {
    fn check_access(&self, user_id: &str, message_len: usize) -> (r: Result<(), String>)
        ensures
            exists|now: Timestamp|
                now.valid() && answer(r) == self.store@.verdict(
                    user_id@,
                    self.free_daily_messages,
                    #[trigger] now.date(),
                ),
    {
        self.store.can_send_message(user_id, self.free_daily_messages)
    }

    fn check_group_access(&self, group_id: &str) -> (r: Result<(), String>)
        ensures
            exists|now: Timestamp|
                now.valid() && answer(r) == group_verdict(
                    self.store@,
                    group_id@,
                    self.free_daily_messages,
                    #[trigger] now.date(),
                ),
    {
        let now = Timestamp::now();
        let date = now.date_text();
        let r = self.check_group_access_on(group_id, date.as_str());
        assert(date@ == now.date());
        r
    }

    fn record_usage(
        &mut self,
        user_id: &str,
        conversation_id: &str,
        prompt_tokens: u32,
        completion_tokens: u32,
    ) -> (r: Option<String>)
        ensures
            final(self).store.key() == old(self).store.key(),
            final(self).free_daily_messages == old(self).free_daily_messages,
            exists|now: Timestamp|
                {
                    &&& now.valid()
                    &&& final(self).store@ == recorded(
                        old(self).store@,
                        user_id@,
                        conversation_id@,
                        prompt_tokens as int,
                        completion_tokens as int,
                        #[trigger] now.date(),
                    )
                    &&& opt_view(r) == usage_note(
                        old(self).store@.status_of(user_id@).unlimited(),
                        old(self).store@.next_usage(
                            user_id@,
                            prompt_tokens as int,
                            completion_tokens as int,
                            now.date(),
                        ).message_count,
                        old(self).free_daily_messages,
                    )
                },
    {
        let now = Timestamp::now();
        let date = now.date_text();
        let r = self.record_usage_on(
            user_id,
            conversation_id,
            prompt_tokens,
            completion_tokens,
            date.as_str(),
        );
        assert(date@ == now.date());
        r
    }

    fn status_text(&self, user_id: &str) -> (r: String)
        ensures
            exists|now: Timestamp, today: Timestamp|
                {
                    &&& now.valid()
                    &&& today.valid()
                    &&& r@ == stripe_status(
                        #[trigger] self.store@.subscription_of(user_id@, now),
                        self.store@.usage_on(user_id@, #[trigger] today.date()),
                        self.free_daily_messages,
                    )
                },
    {
        let sub = self.store.get_subscription(user_id);
        let usage = self.store.get_daily_usage(user_id);
        self.status_of(&sub, &usage)
    }
}

/// The cost of an answer and the amount that is left, once the credits were deducted.
pub struct Deduction {
    pub cost: String,
    pub remaining: String,
}

/// Access for users with prepaid credits. The credits themselves are kept by a ledger outside of
/// this crate; this is what it says of one user and one message.
pub struct X402Gate {
    /// Whether the user has the credits that the message is estimated at.
    pub has_credits: bool,
    /// The amount that the user has left.
    pub remaining: String,
    /// The amount that the user has paid in.
    pub deposited: String,
    /// The amount that the user has used.
    pub consumed: String,
    /// What was deducted for the answer, where the ledger could deduct it.
    pub deduction: Option<Deduction>,
}

/// The refusal of a user without enough credits, who has the given amount left.
pub open spec fn credits_text(remaining: Seq<char>) -> Seq<char> {
    "Insufficient credits. You have "@ + remaining
        + " remaining.\n\nUse `!deposit` to add USDC and get more credits."@
}

/// What is added to an answer that was paid with credits.
pub open spec fn cost_note(cost: Seq<char>, tokens: int, remaining: Seq<char>) -> Seq<char> {
    "\n\n_Cost: "@ + cost + " ("@ + decimal(tokens as nat) + " tokens) | Balance: "@ + remaining
        + "_"@
}

/// Whether a user with or without enough credits may send, and the refusal if not.
pub open spec fn credit_verdict(has_credits: bool, remaining: Seq<char>) -> Result<
    (),
    Seq<char>,
> {
    if has_credits {
        Ok(())
    } else {
        Err(credits_text(remaining))
    }
}

/// How a user with credits stands.
pub open spec fn credit_status(
    remaining: Seq<char>,
    deposited: Seq<char>,
    consumed: Seq<char>,
) -> Seq<char> {
    "Credits remaining: "@ + remaining + "\nTotal deposited: "@ + deposited
        + "\nTotal consumed: "@ + consumed
}

impl PaymentGate for X402Gate {
    fn check_access(&self, user_id: &str, message_len: usize) -> (r: Result<(), String>)
        ensures
            answer(r) == credit_verdict(self.has_credits, self.remaining@),
    {
        if !self.has_credits {
            let mut m = "Insufficient credits. You have ".to_owned();
            m.append(self.remaining.as_str());
            m.append(" remaining.\n\nUse `!deposit` to add USDC and get more credits.");
            return Err(m);
        }
        Ok(())
    }

    fn record_usage(
        &mut self,
        user_id: &str,
        conversation_id: &str,
        prompt_tokens: u32,
        completion_tokens: u32,
    ) -> (r: Option<String>)
        ensures
            *final(self) == *old(self),
            opt_view(r) == (match old(self).deduction {
                Some(d) => Some(
                    cost_note(d.cost@, prompt_tokens + completion_tokens, d.remaining@),
                ),
                None => None,
            }),
    {
        match &self.deduction {
            Some(d) => {
                let tokens: u64 = prompt_tokens as u64 + completion_tokens as u64;
                let mut m = "\n\n_Cost: ".to_owned();
                m.append(d.cost.as_str());
                m.append(" (");
                m.append(decimal_text(tokens).as_str());
                m.append(" tokens) | Balance: ");
                m.append(d.remaining.as_str());
                m.append("_");
                Some(m)
            },
            None => None,
        }
    }

    fn status_text(&self, user_id: &str) -> (r: String)
        ensures
            r@ == credit_status(self.remaining@, self.deposited@, self.consumed@),
    {
        let mut m = "Credits remaining: ".to_owned();
        m.append(self.remaining.as_str());
        m.append("\nTotal deposited: ");
        m.append(self.deposited.as_str());
        m.append("\nTotal consumed: ");
        m.append(self.consumed.as_str());
        m
    }
}

impl X402Gate {
    /// Whether a group may use the bot, and the refusal if not: a group pays as a user does, and is
    /// answered as a user with an empty message.
    pub fn group_access(&self, group_id: &str) -> (r: Result<(), String>)
        ensures
            call_ensures(X402Gate::check_access, (self, group_id, 0usize), r),
            answer(r) == credit_verdict(self.has_credits, self.remaining@),
    {
        self.check_group_access(group_id)
    }
}

/// A message of a group that was answered, and the tokens of the answer.
pub struct GroupMessage {
    pub sender: Seq<char>,
    pub prompt: int,
    pub completion: int,
}

/// The store once all of a group's messages were recorded on the day `date`.
pub open spec fn all_recorded(
    store: StoreView,
    group: Seq<char>,
    messages: Seq<GroupMessage>,
    date: Seq<char>,
) -> StoreView
    decreases messages.len(),
{
    if messages.len() == 0 {
        store
    } else {
        let m = messages.last();
        recorded(
            all_recorded(store, group, messages.drop_last(), date),
            m.sender,
            group,
            m.prompt,
            m.completion,
            date,
        )
    }
}

/// Each message of a group counts for the group, whoever of its members has sent it.
pub proof fn law_group_messages_are_counted(
    store: StoreView,
    group: Seq<char>,
    messages: Seq<GroupMessage>,
    date: Seq<char>,
)
    requires
        store.usage_on(group, date).fits(),
    ensures
        all_recorded(store, group, messages, date).usage_on(group, date).message_count == shown(
            store.usage_on(group, date).message_count + messages.len(),
        ),
    decreases messages.len(),
{
    if messages.len() > 0 {
        law_group_messages_are_counted(store, group, messages.drop_last(), date);
    }
}

/// A group that has sent nothing on a day may send exactly `limit` messages on it, whoever of its
/// members sends them, and is then told that its free messages are used up.
pub proof fn law_groups_have_a_daily_limit(
    store: StoreView,
    group: Seq<char>,
    messages: Seq<GroupMessage>,
    date: Seq<char>,
    limit: u32,
)
    requires
        store.usage_on(group, date) == no_usage(date),
    ensures
        group_verdict(all_recorded(store, group, messages, date), group, limit, date) == (
        if messages.len() < limit {
            Ok(())
        } else {
            Err(group_limit_text(limit))
        }),
{
    law_group_messages_are_counted(store, group, messages, date);
}

/// What is said in one group counts for no other, nor for users who have said nothing in it.
pub proof fn law_groups_are_counted_apart(
    store: StoreView,
    group: Seq<char>,
    other: Seq<char>,
    messages: Seq<GroupMessage>,
    date: Seq<char>,
    day: Seq<char>,
)
    requires
        other != group,
        forall|i: int| 0 <= i < messages.len() ==> #[trigger] messages[i].sender != other,
    ensures
        all_recorded(store, group, messages, date).usage_on(other, day) == store.usage_on(
            other,
            day,
        ),
    decreases messages.len(),
{
    if messages.len() > 0 {
        let m = messages.drop_last();
        assert forall|i: int| 0 <= i < m.len() implies #[trigger] m[i].sender != other by {
            assert(m[i] == messages[i]);
        }
        law_groups_are_counted_apart(store, group, other, m, date, day);
        assert(messages[messages.len() - 1].sender != other);
    }
}

/// A message counts once for its sender, in a group as in a direct conversation.
pub proof fn law_senders_are_counted_once(
    store: StoreView,
    user: Seq<char>,
    conversation: Seq<char>,
    prompt: int,
    completion: int,
    date: Seq<char>,
)
    ensures
        recorded(store, user, conversation, prompt, completion, date).usage_on(user, date)
            == store.next_usage(user, prompt, completion, date),
{
}

/// A counter after `more` is added to it: it stops at its largest value.
pub open spec fn counted_up(before: int, more: int) -> int {
    if before + more <= u32::MAX {
        before + more
    } else {
        u32::MAX as int
    }
}

/// An answer adds one message and its tokens, each kind to its own, to what its receiver has used
/// on the day, and to what the group has used where it was given in one. What anybody else has
/// used stays, and so do the subscriptions.
pub proof fn law_usage_is_added_to_sender_and_group(
    gate: &mut StripeGate,
    user_id: &str,
    conversation_id: &str,
    prompt_tokens: u32,
    completion_tokens: u32,
    date: &str,
    r: Option<String>,
    who: Seq<char>,
    day: Seq<char>,
)
    requires
        call_ensures(
            StripeGate::record_usage_on,
            (gate, user_id, conversation_id, prompt_tokens, completion_tokens, date),
            r,
        ),
    ensures
        ({
            let before = old(gate).store@;
            let after = final(gate).store@;
            &&& after.subscriptions == before.subscriptions
            &&& after.customers == before.customers
            &&& after.version == before.version
            &&& if who == user_id@ || who == conversation_id@ {
                let had = before.usage_on(who, date@);
                let has = after.usage_on(who, date@);
                &&& has.date == date@
                &&& has.message_count == counted_up(had.message_count, 1)
                &&& has.prompt_tokens == counted_up(had.prompt_tokens, prompt_tokens as int)
                &&& has.completion_tokens == counted_up(
                    had.completion_tokens,
                    completion_tokens as int,
                )
            } else {
                after.usage_on(who, day) == before.usage_on(who, day)
            }
        }),
        final(gate).free_daily_messages == old(gate).free_daily_messages,
{
}

/// `after` is `before` with an answer added to what `user` and `conversation` have used on the day
/// `date`, and to nobody else.
pub open spec fn usage_added(
    before: StoreView,
    after: StoreView,
    user: Seq<char>,
    conversation: Seq<char>,
    prompt: int,
    completion: int,
    date: Seq<char>,
) -> bool {
    &&& after.subscriptions == before.subscriptions
    &&& after.customers == before.customers
    &&& after.version == before.version
    &&& forall|who: Seq<char>| #[trigger]
        after.usage_on(who, date) == (if who == user || who == conversation {
            let had = before.usage_on(who, date);
            UsageView {
                date,
                message_count: counted_up(had.message_count, 1),
                prompt_tokens: counted_up(had.prompt_tokens, prompt),
                completion_tokens: counted_up(had.completion_tokens, completion),
            }
        } else {
            before.usage_on(who, date)
        })
}

/// Usage is recorded on the day on which it comes in.
pub proof fn law_usage_counts_today(
    gate: &mut StripeGate,
    user_id: &str,
    conversation_id: &str,
    prompt_tokens: u32,
    completion_tokens: u32,
    r: Option<String>,
)
    requires
        call_ensures(
            StripeGate::record_usage,
            (gate, user_id, conversation_id, prompt_tokens, completion_tokens),
            r,
        ),
    ensures
        exists|now: Timestamp|
            {
                &&& now.valid()
                &&& usage_added(
                    old(gate).store@,
                    final(gate).store@,
                    user_id@,
                    conversation_id@,
                    prompt_tokens as int,
                    completion_tokens as int,
                    #[trigger] now.date(),
                )
                &&& r matches Some(note) ==> note@ == "\n\n_"@ + decimal(
                    counted_up(
                        old(gate).store@.usage_on(user_id@, now.date()).message_count,
                        1,
                    ) as nat,
                ) + "/"@ + decimal(old(gate).free_daily_messages as nat)
                    + " free messages used today_"@
            },
        r is None <==> old(gate).store@.status_of(user_id@) == SubscriptionStatus::Active || old(gate).store@.status_of(user_id@) == SubscriptionStatus::Trialing,
        final(gate).free_daily_messages == old(gate).free_daily_messages,
{
    let store = old(gate).store@;
    let now = choose|now: Timestamp|
        {
            &&& now.valid()
            &&& final(gate).store@ == recorded(
                store,
                user_id@,
                conversation_id@,
                prompt_tokens as int,
                completion_tokens as int,
                #[trigger] now.date(),
            )
            &&& opt_view(r) == usage_note(
                store.status_of(user_id@).unlimited(),
                store.next_usage(
                    user_id@,
                    prompt_tokens as int,
                    completion_tokens as int,
                    now.date(),
                ).message_count,
                old(gate).free_daily_messages,
            )
        };
    assert(usage_added(
        store,
        final(gate).store@,
        user_id@,
        conversation_id@,
        prompt_tokens as int,
        completion_tokens as int,
        now.date(),
    ));
}

/// Users without a plan are told how many of their free messages they have used, that one
/// included; users with a plan are not.
pub proof fn law_free_users_are_told_their_count(
    gate: &mut StripeGate,
    user_id: &str,
    conversation_id: &str,
    prompt_tokens: u32,
    completion_tokens: u32,
    date: &str,
    r: Option<String>,
)
    requires
        call_ensures(
            StripeGate::record_usage_on,
            (gate, user_id, conversation_id, prompt_tokens, completion_tokens, date),
            r,
        ),
    ensures
        ({
            let store = old(gate).store@;
            let plan = store.subscriptions.contains_key(user_id@) && (
            store.subscriptions[user_id@].status == SubscriptionStatus::Active
                || store.subscriptions[user_id@].status == SubscriptionStatus::Trialing);
            if plan {
                r is None
            } else {
                r matches Some(note) && note@ == "\n\n_"@ + decimal(
                    counted_up(store.usage_on(user_id@, date@).message_count, 1) as nat,
                ) + "/"@ + decimal(old(gate).free_daily_messages as nat)
                    + " free messages used today_"@
            }
        }),
{
}

/// A group is refused exactly where it has used as many messages of the day as are free, and is told
/// how many that are.
pub proof fn law_groups_are_refused_at_the_limit(
    gate: &StripeGate,
    group_id: &str,
    date: &str,
    r: Result<(), String>,
)
    requires
        call_ensures(StripeGate::check_group_access_on, (gate, group_id, date), r),
    ensures
        r is Ok <==> gate.store@.usage_on(group_id@, date@).message_count
            < gate.free_daily_messages,
        r matches Err(text) ==> text@ == "This group has used all "@ + decimal(
            gate.free_daily_messages as nat,
        )
            + " free messages for today.\n\nIn a DM with me, send `!subscribe` to get unlimited messages (works in all your groups too)."@,
{
}

/// How a user stands: the plan, its status, what was used today, out of how much for those who have
/// a limit, and when the plan is renewed.
pub proof fn law_standings_are_told(
    gate: &StripeGate,
    sub: &UserSubscription,
    usage: &DailyUsage,
    r: String,
)
    requires
        call_ensures(StripeGate::status_of, (gate, sub, usage), r),
    ensures
        ({
            let status = match sub.status {
                SubscriptionStatus::Free => "Free"@,
                SubscriptionStatus::Active => "Active"@,
                SubscriptionStatus::PastDue => "PastDue"@,
                SubscriptionStatus::Canceled => "Canceled"@,
                SubscriptionStatus::Trialing => "Trialing"@,
            };
            let head = "Plan: "@ + sub.plan_name@ + "\nStatus: "@ + status
                + "\nMessages today: "@ + decimal(usage.message_count as nat);
            let limited = if sub.status == SubscriptionStatus::Active || sub.status
                == SubscriptionStatus::Trialing {
                head
            } else {
                head + "/"@ + decimal(gate.free_daily_messages as nat)
            };
            r@ == (match sub.current_period_end {
                Some(end) => limited + "\nRenews: "@ + end.date(),
                None => limited,
            })
        }),
{
}

/// A user with prepaid credits may send exactly where the credits suffice, and so may a group; the
/// refusal tells what is left.
pub proof fn law_credits_decide(
    gate: &X402Gate,
    user_id: &str,
    message_len: usize,
    r: Result<(), String>,
    group_id: &str,
    group: Result<(), String>,
    status: String,
)
    requires
        call_ensures(X402Gate::check_access, (gate, user_id, message_len), r),
        call_ensures(X402Gate::group_access, (gate, group_id), group),
        call_ensures(X402Gate::status_text, (gate, user_id), status),
    ensures
        r is Ok <==> gate.has_credits,
        group is Ok <==> gate.has_credits,
        r matches Err(text) ==> text@ == "Insufficient credits. You have "@ + gate.remaining@
            + " remaining.\n\nUse `!deposit` to add USDC and get more credits."@,
        r matches Err(text) ==> group->Err_0@ == text@,
        status@ == "Credits remaining: "@ + gate.remaining@ + "\nTotal deposited: "@
            + gate.deposited@ + "\nTotal consumed: "@ + gate.consumed@,
{
}

/// What was deducted is told with the tokens of both kinds together and what is left; nothing is
/// told where nothing was deducted.
pub proof fn law_costs_are_told(
    gate: &mut X402Gate,
    user_id: &str,
    conversation_id: &str,
    prompt_tokens: u32,
    completion_tokens: u32,
    r: Option<String>,
)
    requires
        call_ensures(
            X402Gate::record_usage,
            (gate, user_id, conversation_id, prompt_tokens, completion_tokens),
            r,
        ),
    ensures
        *final(gate) == *old(gate),
        match old(gate).deduction {
            Some(d) => r matches Some(note) && note@ == "\n\n_Cost: "@ + d.cost@ + " ("@ + decimal(
                (prompt_tokens + completion_tokens) as nat,
            ) + " tokens) | Balance: "@ + d.remaining@ + "_"@,
            None => r is None,
        },
{
}

/// A note is told exactly where what it tells of was saved.
pub proof fn law_unsaved_usage_is_not_told(note: Option<String>, saved: bool, r: Option<String>)
    requires
        call_ensures(note_once_saved, (note, saved), r),
    ensures
        saved ==> r == note,
        !saved ==> r is None,
{
}

/// The access of a user of Stripe's is what the store says of them on the day of the question, and
/// usage is recorded on the day that it comes in.
pub proof fn law_the_gate_asks_the_store(
    gate: &StripeGate,
    user_id: &str,
    message_len: usize,
    r: Result<(), String>,
    group_id: &str,
    group: Result<(), String>,
)
    requires
        call_ensures(StripeGate::check_access, (gate, user_id, message_len), r),
        call_ensures(StripeGate::check_group_access, (gate, group_id), group),
    ensures
        exists|now: Timestamp|
            now.valid() && answer(r) == gate.store@.verdict(
                user_id@,
                gate.free_daily_messages,
                #[trigger] now.date(),
            ),
        exists|now: Timestamp|
            now.valid() && (group is Ok <==> gate.store@.usage_on(
                group_id@,
                #[trigger] now.date(),
            ).message_count < gate.free_daily_messages),
{
    let now = choose|now: Timestamp|
        now.valid() && answer(group) == group_verdict(
            gate.store@,
            group_id@,
            gate.free_daily_messages,
            #[trigger] now.date(),
        );
    assert(group is Ok <==> gate.store@.usage_on(group_id@, now.date()).message_count
        < gate.free_daily_messages);
}

} // verus!
