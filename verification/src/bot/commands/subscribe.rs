//! `!subscribe`, `!subscription` and `!manage`: Stripe subscriptions.
//!
//! Checkout and portal sessions are created outside of this crate; the handlers say which request
//! to send, and take how it ended.
use vstd::prelude::*;
use vstd::string::*;

use crate::clock::Timestamp;
use crate::stripe::client::{
    checkout_form, fields, CheckoutSession, FormRequest, PortalSession, StripeClient,
    STRIPE_API_BASE,
};
use crate::stripe::config::{StripeConfig, StripeConfigView};
use crate::stripe::error::StripeError;
use crate::stripe::store::SubscriptionStore;
use crate::stripe::types::{
    DailyUsage, SubscriptionStatus, SubscriptionView, UsageView, UserSubscription,
};
use crate::text::{copy_opt, decimal, decimal_text, opt_str, opt_view};

verus! {

/// The answer where no plan has a price.
pub const NOT_CONFIGURED: &'static str =
    "Subscriptions are not configured yet. Please try again later.";

/// The answer where the checkout of the Premium plan cannot be created.
pub const CHECKOUT_ERROR: &'static str =
    "Sorry, there was an error creating the checkout session. Please try again.";

/// What ends the list of plans.
pub const PLANS_END: &'static str =
    "Click the link to complete your subscription in your browser.";

/// The answer to `!manage` of a user who is no customer.
pub const NO_SUBSCRIPTION: &'static str =
    "You don't have an active subscription. Send `!subscribe` to get started.";

/// The answer where the portal cannot be opened.
pub const PORTAL_ERROR: &'static str = "Sorry, there was an error. Please try again.";

/// A [`FormRequest`] with its texts as character sequences.
pub struct RequestView {
    pub url: Seq<char>,
    pub username: Seq<char>,
    pub form: Seq<(Seq<char>, Seq<char>)>,
}

impl View for FormRequest {
    type V = RequestView;

    open spec fn view(&self) -> RequestView {
        RequestView { url: self.url@, username: self.username@, form: fields(self.form@) }
    }
}

/// The plans that there are to subscribe to.
#[derive(Debug, Clone, Copy, PartialEq, Eq, Structural)]
pub enum Plan {
    Premium,
    Pro,
}

/// How far the list of plans has come: the plan whose checkout was asked for last, and the text.
pub struct SubscribeRun {
    plan: Plan,
    text: String,
    user: String,
    customer: Option<String>,
}

/// A [`SubscribeRun`] with its texts as character sequences.
pub struct SubscribeView {
    pub plan: Plan,
    pub text: Seq<char>,
    pub user: Seq<char>,
    pub customer: Option<Seq<char>>,
}

impl View for SubscribeRun {
    type V = SubscribeView;

    closed spec fn view(&self) -> SubscribeView {
        SubscribeView {
            plan: self.plan,
            text: self.text@,
            user: self.user@,
            customer: opt_view(self.customer),
        }
    }
}

/// What is to be done next about `!subscribe`.
pub enum SubscribeAction {
    /// Answer with the text.
    Reply(String),
    /// Create a checkout session, and go on with how that ended.
    Create(SubscribeRun, FormRequest),
}

/// A [`SubscribeAction`] with its texts as character sequences.
pub enum SubscribeActionView {
    Reply(Seq<char>),
    Create(SubscribeView, RequestView),
}

impl View for SubscribeAction {
    type V = SubscribeActionView;

    open spec fn view(&self) -> SubscribeActionView {
        match *self {
            SubscribeAction::Reply(text) => SubscribeActionView::Reply(text@),
            SubscribeAction::Create(run, request) => SubscribeActionView::Create(run@, request@),
        }
    }
}

/// The answer to a user who has a plan.
pub open spec fn already_text(plan: Seq<char>) -> Seq<char> {
    "You're already on the **"@ + plan
        + "** plan! Send `!manage` to manage your subscription."@
}

/// What begins the list of plans.
pub open spec fn plans_head(limit: u32) -> Seq<char> {
    "**Upgrade Your Plan**\n\nYou're on the Free plan ("@ + decimal(limit as nat)
        + " messages/day).\n\n"@
}

/// The entry of a plan in the list of plans.
pub open spec fn plan_entry(plan: Plan, url: Option<Seq<char>>) -> Seq<char> {
    match url {
        Some(url) => (match plan {
            Plan::Premium => "**Premium** — $19/mo (unlimited messages)\n"@,
            Plan::Pro => "**Pro** — $49/mo (unlimited + team features)\n"@,
        }) + url + "\n\n"@,
        None => ""@,
    }
}

/// The price of a plan.
pub open spec fn price(config: StripeConfigView, plan: Plan) -> Option<Seq<char>> {
    match plan {
        Plan::Premium => config.premium_price_id,
        Plan::Pro => config.pro_price_id,
    }
}

/// The request for a checkout at the given price.
pub open spec fn checkout_request(
    secret: Seq<char>,
    config: StripeConfigView,
    price: Seq<char>,
    user: Seq<char>,
    customer: Option<Seq<char>>,
) -> RequestView {
    RequestView {
        url: STRIPE_API_BASE@ + "/checkout/sessions"@,
        username: secret,
        form: checkout_form(
            price,
            user,
            config.frontend_url + "?subscribed=true"@,
            config.frontend_url + "?canceled=true"@,
            customer,
        ),
    }
}

/// Asks for the checkout of a plan, where it has a price.
pub open spec fn asked(
    secret: Seq<char>,
    config: StripeConfigView,
    run: SubscribeView,
) -> SubscribeActionView {
    SubscribeActionView::Create(
        run,
        checkout_request(secret, config, price(config, run.plan)->0, run.user, run.customer),
    )
}

/// The first thing to do about `!subscribe` of a user with the given subscription.
pub open spec fn subscribe_start(
    secret: Seq<char>,
    config: StripeConfigView,
    user: Seq<char>,
    sub: SubscriptionView,
) -> SubscribeActionView {
    let run = SubscribeView {
        plan: Plan::Premium,
        text: plans_head(config.free_daily_messages),
        user,
        customer: sub.stripe_customer_id,
    };
    if sub.status.unlimited() {
        SubscribeActionView::Reply(already_text(sub.plan_name))
    } else if config.premium_price_id is Some {
        asked(secret, config, run)
    } else if config.pro_price_id is Some {
        asked(secret, config, SubscribeView { plan: Plan::Pro, ..run })
    } else {
        SubscribeActionView::Reply(NOT_CONFIGURED@)
    }
}

/// The address of a checkout that was created.
pub open spec fn session_url(session: CheckoutSession) -> Option<Seq<char>> {
    opt_view(session.url)
}

/// What to do once a checkout was created or not. That of the Premium plan is needed; that of the
/// Pro plan is left out where it fails.
pub open spec fn subscribe_next(
    secret: Seq<char>,
    config: StripeConfigView,
    run: SubscribeView,
    session: Result<CheckoutSession, StripeError>,
) -> SubscribeActionView {
    match (run.plan, session) {
        (Plan::Premium, Err(_)) => SubscribeActionView::Reply(CHECKOUT_ERROR@),
        (Plan::Premium, Ok(s)) => {
            let text = run.text + plan_entry(Plan::Premium, session_url(s));
            if config.pro_price_id is Some {
                asked(secret, config, SubscribeView { plan: Plan::Pro, text, ..run })
            } else {
                SubscribeActionView::Reply(text + PLANS_END@)
            }
        },
        (Plan::Pro, Err(_)) => SubscribeActionView::Reply(run.text + PLANS_END@),
        (Plan::Pro, Ok(s)) => SubscribeActionView::Reply(
            run.text + plan_entry(Plan::Pro, session_url(s)) + PLANS_END@,
        ),
    }
}

/// The handler of `!subscribe`.
pub struct SubscribeHandler {
    pub stripe_client: StripeClient,
    pub config: StripeConfig,
}

impl SubscribeHandler {
    pub fn new(stripe_client: StripeClient, config: StripeConfig) -> (r: Self)
        ensures
            r.stripe_client == stripe_client,
            r.config == config,
    {
        SubscribeHandler { stripe_client, config }
    }

    /// The command.
    pub fn trigger(&self) -> (r: Option<&'static str>)
        ensures
            r == Some("!subscribe"),
    {
        Some("!subscribe")
    }

    /// Starts to answer the command of a user with the given subscription.
    pub fn execute(&self, user_id: &str, sub: &UserSubscription) -> (r: SubscribeAction)
        ensures
            r@ == subscribe_start(self.stripe_client.secret(), self.config@, user_id@, sub@),
    {
        if sub.status.is_unlimited() {
            let mut m = "You're already on the **".to_owned();
            m.append(sub.plan_name.as_str());
            m.append("** plan! Send `!manage` to manage your subscription.");
            return SubscribeAction::Reply(m);
        }
        let mut text =
            "**Upgrade Your Plan**\n\nYou're on the Free plan (".to_owned();
        text.append(decimal_text(self.config.free_daily_messages as u64).as_str());
        text.append(" messages/day).\n\n");
        let customer = copy_opt(&sub.stripe_customer_id);
        let user = user_id.to_owned();
        if let Some(price_id) = &self.config.premium_price_id {
            return self.ask(
                SubscribeRun { plan: Plan::Premium, text, user, customer },
                price_id.as_str(),
            );
        }
        if let Some(price_id) = &self.config.pro_price_id {
            return self.ask(
                SubscribeRun { plan: Plan::Pro, text, user, customer },
                price_id.as_str(),
            );
        }
        SubscribeAction::Reply(NOT_CONFIGURED.to_owned())
    }

    /// Goes on once a checkout was created or not.
    pub fn created(&self, run: SubscribeRun, session: Result<CheckoutSession, StripeError>) -> (r:
        SubscribeAction)
        ensures
            r@ == subscribe_next(self.stripe_client.secret(), self.config@, run@, session),
    {
        match run.plan {
            Plan::Premium => {
                let session = match session {
                    Ok(s) => s,
                    Err(_) => return SubscribeAction::Reply(CHECKOUT_ERROR.to_owned()),
                };
                let mut text = run.text;
                text.append(entry(Plan::Premium, opt_str(&session.url)).as_str());
                if let Some(price_id) = &self.config.pro_price_id {
                    return self.ask(
                        SubscribeRun {
                            plan: Plan::Pro,
                            text,
                            user: run.user,
                            customer: run.customer,
                        },
                        price_id.as_str(),
                    );
                }
                text.append(PLANS_END);
                SubscribeAction::Reply(text)
            },
            Plan::Pro => {
                let mut text = run.text;
                if let Ok(s) = session {
                    text.append(entry(Plan::Pro, opt_str(&s.url)).as_str());
                }
                text.append(PLANS_END);
                SubscribeAction::Reply(text)
            },
        }
    }

    fn ask(&self, run: SubscribeRun, price_id: &str) -> (r: SubscribeAction)
        requires
            price(self.config@, run@.plan) == Some(price_id@),
        ensures
            r@ == asked(self.stripe_client.secret(), self.config@, run@),
    {
        let mut success_url = self.config.frontend_url.clone();
        success_url.append("?subscribed=true");
        let mut cancel_url = self.config.frontend_url.clone();
        cancel_url.append("?canceled=true");
        let request = self.stripe_client.create_checkout_session(
            price_id,
            run.user.as_str(),
            success_url.as_str(),
            cancel_url.as_str(),
            opt_str(&run.customer),
        );
        SubscribeAction::Create(run, request)
    }
}

fn entry(plan: Plan, url: Option<&str>) -> (r: String)
    ensures
        r@ == plan_entry(plan, crate::text::opt_str_view(url)),
{
    match url {
        Some(url) => {
            let mut m = (match plan {
                Plan::Premium => "**Premium** — $19/mo (unlimited messages)\n",
                Plan::Pro => "**Pro** — $49/mo (unlimited + team features)\n",
            }).to_owned();
            m.append(url);
            m.append("\n\n");
            m
        },
        None => "".to_owned(),
    }
}

/// What a user is told in the end, where `premium` and `pro` say how the checkouts of the two plans
/// end once they are asked for.
pub open spec fn subscribe_result(
    secret: Seq<char>,
    config: StripeConfigView,
    user: Seq<char>,
    sub: SubscriptionView,
    premium: Result<CheckoutSession, StripeError>,
    pro: Result<CheckoutSession, StripeError>,
) -> Seq<char> {
    let outcome = |run: SubscribeView|
        match run.plan {
            Plan::Premium => premium,
            Plan::Pro => pro,
        };
    match subscribe_start(secret, config, user, sub) {
        SubscribeActionView::Reply(text) => text,
        SubscribeActionView::Create(first, _) => match subscribe_next(
            secret,
            config,
            first,
            outcome(first),
        ) {
            SubscribeActionView::Reply(text) => text,
            SubscribeActionView::Create(second, _) => match subscribe_next(
                secret,
                config,
                second,
                outcome(second),
            ) {
                SubscribeActionView::Reply(text) => text,
                SubscribeActionView::Create(_, _) => arbitrary(),
            },
        },
    }
}

/// The entry of a plan that may have no price and whose checkout may have failed.
pub open spec fn listed(
    config: StripeConfigView,
    plan: Plan,
    session: Result<CheckoutSession, StripeError>,
) -> Seq<char> {
    match session {
        Ok(s) if price(config, plan) is Some => plan_entry(plan, session_url(s)),
        _ => Seq::empty(),
    }
}

/// A user without a plan gets the list of the plans, Premium first: each that has a price and
/// whose checkout was created stands in it with its address. There is no list where no plan has a
/// price, and none where Premium has a price and its checkout fails.
pub proof fn law_plans_are_listed(
    secret: Seq<char>,
    config: StripeConfigView,
    user: Seq<char>,
    sub: SubscriptionView,
    premium: Result<CheckoutSession, StripeError>,
    pro: Result<CheckoutSession, StripeError>,
)
    requires
        !sub.status.unlimited(),
    ensures
        subscribe_result(secret, config, user, sub, premium, pro) == (
        if config.premium_price_id is None && config.pro_price_id is None {
            NOT_CONFIGURED@
        } else if config.premium_price_id is Some && premium is Err {
            CHECKOUT_ERROR@
        } else {
            plans_head(config.free_daily_messages) + listed(config, Plan::Premium, premium)
                + listed(config, Plan::Pro, pro) + PLANS_END@
        }),
{
    let head = plans_head(config.free_daily_messages);
    let first = listed(config, Plan::Premium, premium);
    let second = listed(config, Plan::Pro, pro);
    assert(head + Seq::empty() =~= head);
    assert(head + first + Seq::empty() =~= head + first);
}

/// Every checkout that is asked for is for the user who sent the command, at the price of the
/// plan.
pub proof fn law_checkouts_are_for_the_sender(
    secret: Seq<char>,
    config: StripeConfigView,
    run: SubscribeView,
)
    ensures
        asked(secret, config, run) matches SubscribeActionView::Create(_, request) && {
            &&& request.username == secret
            &&& request.form[1] == ("line_items[0][price]"@, price(config, run.plan)->0)
            &&& request.form[5] == ("client_reference_id"@, run.user)
        },
{
}

/// How a user's subscription stands, for `!subscription`.
pub open spec fn subscription_text(sub: SubscriptionView, usage: UsageView, limit: u32) -> Seq<
    char,
> {
    let head = "**Your Subscription**\n\nPlan: "@ + sub.plan_name + "\n"@;
    let messages = "Messages today: "@ + decimal(usage.message_count as nat);
    match sub.status {
        SubscriptionStatus::Active => head + "Status: Active\n"@ + messages + "\n"@ + (
        match sub.current_period_end {
            Some(end) => "Renews: "@ + end.date() + "\n"@,
            None => ""@,
        }) + "\nSend `!manage` to change or cancel your plan."@,
        SubscriptionStatus::Free => head + messages + "/"@ + decimal(limit as nat)
            + "\n\nSend `!subscribe` to upgrade for unlimited messages."@,
        SubscriptionStatus::PastDue => head
            + "Status: Past Due (payment failed)\n\nSend `!manage` to update your payment method."@,
        SubscriptionStatus::Canceled => head
            + "Status: Canceled\n\nSend `!subscribe` to resubscribe."@,
        SubscriptionStatus::Trialing => head + "Status: Trial\n"@ + messages + "\n"@,
    }
}

/// The handler of `!subscription`.
pub struct SubscriptionHandler {
    pub free_daily_messages: u32,
}

impl SubscriptionHandler {
    pub fn new(free_daily_messages: u32) -> (r: Self)
        ensures
            r.free_daily_messages == free_daily_messages,
    {
        SubscriptionHandler { free_daily_messages }
    }

    /// The command.
    pub fn trigger(&self) -> (r: Option<&'static str>)
        ensures
            r == Some("!subscription"),
    {
        Some("!subscription")
    }

    /// The answer to the command of a user.
    pub fn execute(&self, store: &SubscriptionStore, user_id: &str) -> (r: String)
        ensures
            exists|now: Timestamp, today: Timestamp|
                {
                    &&& now.valid()
                    &&& today.valid()
                    &&& r@ == subscription_text(
                        #[trigger] store@.subscription_of(user_id@, now),
                        store@.usage_on(user_id@, #[trigger] today.date()),
                        self.free_daily_messages,
                    )
                },
    {
        let sub = store.get_subscription(user_id);
        let usage = store.get_daily_usage(user_id);
        self.describe(&sub, &usage)
    }

    /// How a subscription stands.
    pub fn describe(&self, sub: &UserSubscription, usage: &DailyUsage) -> (r: String)
        ensures
            r@ == subscription_text(sub@, usage@, self.free_daily_messages),
    {
        let mut messages = "Messages today: ".to_owned();
        messages.append(decimal_text(usage.message_count as u64).as_str());
        let mut m = "**Your Subscription**\n\nPlan: ".to_owned();
        m.append(sub.plan_name.as_str());
        m.append("\n");
        match sub.status {
            SubscriptionStatus::Active => {
                let mut renewal = "".to_owned();
                if let Some(end) = &sub.current_period_end {
                    renewal = "Renews: ".to_owned();
                    renewal.append(end.date_text().as_str());
                    renewal.append("\n");
                }
                m.append("Status: Active\n");
                m.append(messages.as_str());
                m.append("\n");
                m.append(renewal.as_str());
                m.append("\nSend `!manage` to change or cancel your plan.");
            },
            SubscriptionStatus::Free => {
                m.append(messages.as_str());
                m.append("/");
                m.append(decimal_text(self.free_daily_messages as u64).as_str());
                m.append("\n\nSend `!subscribe` to upgrade for unlimited messages.");
            },
            SubscriptionStatus::PastDue => {
                m.append(
                    "Status: Past Due (payment failed)\n\nSend `!manage` to update your payment method.",
                );
            },
            SubscriptionStatus::Canceled => {
                m.append("Status: Canceled\n\nSend `!subscribe` to resubscribe.");
            },
            SubscriptionStatus::Trialing => {
                m.append("Status: Trial\n");
                m.append(messages.as_str());
                m.append("\n");
            },
        }
        m
    }
}

/// What is to be done about `!manage`.
pub enum ManageAction {
    /// Answer with the text.
    Reply(String),
    /// Open the portal, and answer with how that ended.
    Open(FormRequest),
}

/// A [`ManageAction`] with its texts as character sequences.
pub enum ManageActionView {
    Reply(Seq<char>),
    Open(RequestView),
}

impl View for ManageAction {
    type V = ManageActionView;

    open spec fn view(&self) -> ManageActionView {
        match *self {
            ManageAction::Reply(text) => ManageActionView::Reply(text@),
            ManageAction::Open(request) => ManageActionView::Open(request@),
        }
    }
}

/// What is to be done about `!manage` of a user who is the given customer of Stripe's, or none.
pub open spec fn manage_start(
    secret: Seq<char>,
    config: StripeConfigView,
    customer: Option<Seq<char>>,
) -> ManageActionView {
    match customer {
        Some(id) => ManageActionView::Open(
            RequestView {
                url: STRIPE_API_BASE@ + "/billing_portal/sessions"@,
                username: secret,
                form: seq![("customer"@, id), ("return_url"@, config.frontend_url)],
            },
        ),
        None => ManageActionView::Reply(NO_SUBSCRIPTION@),
    }
}

/// The handler of `!manage`.
pub struct ManageHandler {
    pub stripe_client: StripeClient,
    pub config: StripeConfig,
}

impl ManageHandler {
    pub fn new(stripe_client: StripeClient, config: StripeConfig) -> (r: Self)
        ensures
            r.stripe_client == stripe_client,
            r.config == config,
    {
        ManageHandler { stripe_client, config }
    }

    /// The command.
    pub fn trigger(&self) -> (r: Option<&'static str>)
        ensures
            r == Some("!manage"),
    {
        Some("!manage")
    }

    /// Starts to answer the command of a user with the given subscription.
    pub fn execute(&self, sub: &UserSubscription) -> (r: ManageAction)
        ensures
            r@ == manage_start(
                self.stripe_client.secret(),
                self.config@,
                sub@.stripe_customer_id,
            ),
    {
        match &sub.stripe_customer_id {
            Some(id) => ManageAction::Open(
                self.stripe_client.create_portal_session(
                    id.as_str(),
                    self.config.frontend_url.as_str(),
                ),
            ),
            None => ManageAction::Reply(NO_SUBSCRIPTION.to_owned()),
        }
    }

    /// The answer once the portal was opened or not.
    pub fn opened(&self, session: Result<PortalSession, StripeError>) -> (r: String)
        ensures
            r@ == (match session {
                Ok(s) =>
                    "**Manage Subscription**\n\nClick to manage your plan, update payment, or cancel:\n"@
                    + s.url@,
                Err(_) => PORTAL_ERROR@,
            }),
    {
        match session {
            Ok(s) => {
                let mut m =
                    "**Manage Subscription**\n\nClick to manage your plan, update payment, or cancel:\n".to_owned();
                m.append(s.url.as_str());
                m
            },
            Err(_) => PORTAL_ERROR.to_owned(),
        }
    }
}

/// A user with a plan, paid or on trial, is told which one it is, and no checkout is asked for.
pub proof fn law_subscribers_are_told_their_plan(
    handler: &SubscribeHandler,
    user_id: &str,
    sub: &UserSubscription,
    r: SubscribeAction,
)
    requires
        call_ensures(SubscribeHandler::execute, (handler, user_id, sub), r),
        sub.status == SubscriptionStatus::Active || sub.status == SubscriptionStatus::Trialing,
    ensures
        r matches SubscribeAction::Reply(text) && text@ == "You're already on the **"@
            + sub.plan_name@ + "** plan! Send `!manage` to manage your subscription."@,
{
}

/// Anybody else is offered a checkout where a plan has a price, Premium before Pro, for themselves
/// and as the customer that they are; where no plan has one, they are told so.
pub proof fn law_others_are_offered_a_plan(
    handler: &SubscribeHandler,
    user_id: &str,
    sub: &UserSubscription,
    r: SubscribeAction,
)
    requires
        call_ensures(SubscribeHandler::execute, (handler, user_id, sub), r),
        sub.status == SubscriptionStatus::Free || sub.status == SubscriptionStatus::PastDue
            || sub.status == SubscriptionStatus::Canceled,
    ensures
        match (handler.config.premium_price_id, handler.config.pro_price_id) {
            (Some(price), _) => r matches SubscribeAction::Create(run, request) && run@.plan
                == Plan::Premium && run@.user == user_id@ && run@.customer == opt_view(
                sub.stripe_customer_id,
            ) && asks_for_checkout(
                request,
                handler,
                price@,
                user_id@,
                opt_view(sub.stripe_customer_id),
            ),
            (None, Some(price)) => r matches SubscribeAction::Create(run, request) && run@.plan
                == Plan::Pro && run@.user == user_id@ && run@.customer == opt_view(
                sub.stripe_customer_id,
            ) && asks_for_checkout(
                request,
                handler,
                price@,
                user_id@,
                opt_view(sub.stripe_customer_id),
            ),
            (None, None) => r matches SubscribeAction::Reply(text) && text@
                == "Subscriptions are not configured yet. Please try again later."@,
        },
{
    if let SubscribeAction::Create(run, request) = r {
        let form = fields(request.form@);
        assert(form[0] == ("mode"@, "subscription"@));
        assert(form[1].1 == price(handler.config@, run@.plan)->0);
        assert(form[2] == ("line_items[0][quantity]"@, "1"@));
        assert(form[3].1 == handler.config.frontend_url@ + "?subscribed=true"@);
        assert(form[4].1 == handler.config.frontend_url@ + "?canceled=true"@);
        assert(form[5].1 == user_id@);
        if let Some(id) = opt_view(sub.stripe_customer_id) {
            assert(form[6] == ("customer"@, id));
        }
    }
}

/// The request asks Stripe, under the handler's key, for one subscription at a price: for a user,
/// as the customer that they are if they are one, and back to the frontend in the end.
pub open spec fn asks_for_checkout(
    request: FormRequest,
    handler: &SubscribeHandler,
    price: Seq<char>,
    user: Seq<char>,
    customer: Option<Seq<char>>,
) -> bool {
    let form = fields(request.form@);
    &&& request.url@ == "https://api.stripe.com/v1"@ + "/checkout/sessions"@
    &&& request.username@ == handler.stripe_client.secret()
    &&& form.contains(("mode"@, "subscription"@))
    &&& form.contains(("line_items[0][price]"@, price))
    &&& form.contains(("line_items[0][quantity]"@, "1"@))
    &&& form.contains(
        ("success_url"@, handler.config.frontend_url@ + "?subscribed=true"@),
    )
    &&& form.contains(("cancel_url"@, handler.config.frontend_url@ + "?canceled=true"@))
    &&& form.contains(("client_reference_id"@, user))
    &&& customer matches Some(id) ==> form.contains(("customer"@, id))
    &&& form.len() == (if customer is Some {
        7int
    } else {
        6int
    })
}

/// Once the checkout of Premium was created, that of Pro is asked for where it has a price, for the
/// same user and customer; after that nothing more is asked for.
pub proof fn law_pro_follows_premium(
    handler: &SubscribeHandler,
    run: SubscribeRun,
    session: Result<CheckoutSession, StripeError>,
    r: SubscribeAction,
)
    requires
        call_ensures(SubscribeHandler::created, (handler, run, session), r),
    ensures
        r is Create <==> run@.plan == Plan::Premium && session is Ok
            && handler.config.pro_price_id is Some,
        r matches SubscribeAction::Create(next, request) ==> {
            &&& next@.plan == Plan::Pro
            &&& next@.user == run@.user
            &&& next@.customer == run@.customer
            &&& asks_for_checkout(
                request,
                handler,
                handler.config.pro_price_id->0@,
                run@.user,
                run@.customer,
            )
        },
        run@.plan == Plan::Premium && session is Err ==> (r matches SubscribeAction::Reply(text)
            && text@
            == "Sorry, there was an error creating the checkout session. Please try again."@),
{
    if let SubscribeAction::Create(next, request) = r {
        let form = fields(request.form@);
        assert(form[0] == ("mode"@, "subscription"@));
        assert(form[1].1 == handler.config.pro_price_id->0@);
        assert(form[2] == ("line_items[0][quantity]"@, "1"@));
        assert(form[3].1 == handler.config.frontend_url@ + "?subscribed=true"@);
        assert(form[4].1 == handler.config.frontend_url@ + "?canceled=true"@);
        assert(form[5].1 == run@.user);
        if let Some(id) = run@.customer {
            assert(form[6] == ("customer"@, id));
        }
    }
}

/// The list of plans begins with the number of free messages a day. Each plan that has a price and
/// whose checkout has an address follows with its name, its price and that address.
pub proof fn law_the_list_of_plans_reads(
    secret: Seq<char>,
    config: StripeConfigView,
    user: Seq<char>,
    sub: SubscriptionView,
    premium: Result<CheckoutSession, StripeError>,
    pro: Result<CheckoutSession, StripeError>,
)
    requires
        sub.status == SubscriptionStatus::Free || sub.status == SubscriptionStatus::PastDue
            || sub.status == SubscriptionStatus::Canceled,
        config.premium_price_id is Some || config.pro_price_id is Some,
        config.premium_price_id is Some ==> premium is Ok,
    ensures
        ({
            let first = if config.premium_price_id is Some && premium->Ok_0.url is Some {
                "**Premium** — $19/mo (unlimited messages)\n"@ + premium->Ok_0.url->0@ + "\n\n"@
            } else {
                Seq::empty()
            };
            let second = if config.pro_price_id is Some && pro is Ok && pro->Ok_0.url is Some {
                "**Pro** — $49/mo (unlimited + team features)\n"@ + pro->Ok_0.url->0@ + "\n\n"@
            } else {
                Seq::empty()
            };
            subscribe_result(secret, config, user, sub, premium, pro)
                == "**Upgrade Your Plan**\n\nYou're on the Free plan ("@ + decimal(
                config.free_daily_messages as nat,
            ) + " messages/day).\n\n"@ + first + second
                + "Click the link to complete your subscription in your browser."@
        }),
{
    law_plans_are_listed(secret, config, user, sub, premium, pro);
    reveal_strlit("");
    assert(""@ =~= Seq::empty());
}

/// The list grows by each plan whose checkout has an address, and ends with how to go on.
pub proof fn law_the_list_grows_by_each_plan(
    handler: &SubscribeHandler,
    user_id: &str,
    sub: &UserSubscription,
    started: SubscribeAction,
    run: SubscribeRun,
    session: Result<CheckoutSession, StripeError>,
    r: SubscribeAction,
)
    requires
        call_ensures(SubscribeHandler::execute, (handler, user_id, sub), started),
        call_ensures(SubscribeHandler::created, (handler, run, session), r),
        run@.plan == Plan::Premium ==> session is Ok,
    ensures
        started matches SubscribeAction::Create(first, _) ==> first@.text
            == "**Upgrade Your Plan**\n\nYou're on the Free plan ("@ + decimal(
            handler.config.free_daily_messages as nat,
        ) + " messages/day).\n\n"@,
        ({
            let entry = match (session, run@.plan) {
                (Ok(CheckoutSession { url: Some(url), .. }), Plan::Premium) =>
                    "**Premium** — $19/mo (unlimited messages)\n"@ + url@ + "\n\n"@,
                (Ok(CheckoutSession { url: Some(url), .. }), Plan::Pro) =>
                    "**Pro** — $49/mo (unlimited + team features)\n"@ + url@ + "\n\n"@,
                _ => Seq::empty(),
            };
            match r {
                SubscribeAction::Create(next, _) => next@.text == run@.text + entry,
                SubscribeAction::Reply(text) => text@ == run@.text + entry
                    + "Click the link to complete your subscription in your browser."@,
            }
        }),
{
    reveal_strlit("");
    assert(""@ =~= Seq::empty());
    assert(run@.text + Seq::empty() =~= run@.text);
}

/// What `!subscription` says of a subscription: the plan, where it stands, what was used today for
/// those who may send, and what to do next.
pub proof fn law_subscriptions_are_described(
    handler: &SubscriptionHandler,
    sub: &UserSubscription,
    usage: &DailyUsage,
    r: String,
)
    requires
        call_ensures(SubscriptionHandler::describe, (handler, sub, usage), r),
    ensures
        ({
            let plan = "**Your Subscription**\n\nPlan: "@ + sub.plan_name@ + "\n"@;
            let today = "Messages today: "@ + decimal(usage.message_count as nat);
            match sub.status {
                SubscriptionStatus::Free => r@ == plan + today + "/"@ + decimal(
                    handler.free_daily_messages as nat,
                ) + "\n\nSend `!subscribe` to upgrade for unlimited messages."@,
                SubscriptionStatus::Trialing => r@ == plan + "Status: Trial\n"@ + today + "\n"@,
                SubscriptionStatus::PastDue => r@ == plan
                    + "Status: Past Due (payment failed)\n\nSend `!manage` to update your payment method."@,
                SubscriptionStatus::Canceled => r@ == plan
                    + "Status: Canceled\n\nSend `!subscribe` to resubscribe."@,
                SubscriptionStatus::Active => r@ == plan + "Status: Active\n"@ + today + "\n"@ + (
                match sub.current_period_end {
                    Some(end) => "Renews: "@ + end.date() + "\n"@,
                    None => ""@,
                }) + "\nSend `!manage` to change or cancel your plan."@,
            }
        }),
{
}

/// `!subscription` tells of the sender's own subscription, and of what they have used today.
pub proof fn law_senders_are_told_of_their_own(
    handler: &SubscriptionHandler,
    store: &SubscriptionStore,
    user_id: &str,
    r: String,
)
    requires
        call_ensures(SubscriptionHandler::execute, (handler, store, user_id), r),
    ensures
        store@.subscriptions.contains_key(user_id@) ==> exists|today: Timestamp|
            {
                &&& today.valid()
                &&& r@ == subscription_text(
                    store@.subscriptions[user_id@],
                    if store@.usage.contains_key(user_id@) && store@.usage[user_id@].date
                        == #[trigger] today.date() {
                        store@.usage[user_id@]
                    } else {
                        UsageView {
                            date: today.date(),
                            message_count: 0,
                            prompt_tokens: 0,
                            completion_tokens: 0,
                        }
                    },
                    handler.free_daily_messages,
                )
            },
{
}

/// A user who is a customer of Stripe's gets into the portal as that customer, and comes back to
/// the frontend; any other user is sent to `!subscribe`.
pub proof fn law_customers_manage_their_own(
    handler: &ManageHandler,
    sub: &UserSubscription,
    r: ManageAction,
)
    requires
        call_ensures(ManageHandler::execute, (handler, sub), r),
    ensures
        match sub.stripe_customer_id {
            Some(id) => {
                &&& r matches ManageAction::Open(request)
                &&& request.url@ == "https://api.stripe.com/v1"@ + "/billing_portal/sessions"@
                &&& request.username@ == handler.stripe_client.secret()
                &&& fields(request.form@).len() == 2
                &&& fields(request.form@).contains(("customer"@, id@))
                &&& fields(request.form@).contains(("return_url"@, handler.config.frontend_url@))
            },
            None => r matches ManageAction::Reply(text) && text@
                == "You don't have an active subscription. Send `!subscribe` to get started."@,
        },
{
    if let ManageAction::Open(request) = r {
        let form = fields(request.form@);
        assert(form[0].1 == sub.stripe_customer_id->0@);
        assert(form[1].1 == handler.config.frontend_url@);
    }
}

/// The portal that was opened is where the user is sent.
pub proof fn law_the_portal_is_linked(
    handler: &ManageHandler,
    session: Result<PortalSession, StripeError>,
    r: String,
)
    requires
        call_ensures(ManageHandler::opened, (handler, session), r),
    ensures
        match session {
            Ok(s) => r@
                == "**Manage Subscription**\n\nClick to manage your plan, update payment, or cancel:\n"@
                + s.url@,
            Err(_) => r@ == "Sorry, there was an error. Please try again."@,
        },
{
}

/// Each command is called by its own name and works with the client and the configuration that it
/// was given.
pub proof fn law_commands_are_called_by_name(
    client: StripeClient,
    config: StripeConfig,
    free_daily_messages: u32,
    subscribe: SubscribeHandler,
    subscription: SubscriptionHandler,
    manage: ManageHandler,
    first: Option<&'static str>,
    second: Option<&'static str>,
    third: Option<&'static str>,
)
    requires
        call_ensures(SubscribeHandler::new, (client, config), subscribe),
        call_ensures(SubscriptionHandler::new, (free_daily_messages,), subscription),
        call_ensures(ManageHandler::new, (client, config), manage),
        call_ensures(SubscribeHandler::trigger, (&subscribe,), first),
        call_ensures(SubscriptionHandler::trigger, (&subscription,), second),
        call_ensures(ManageHandler::trigger, (&manage,), third),
    ensures
        subscribe.stripe_client == client && subscribe.config == config,
        subscription.free_daily_messages == free_daily_messages,
        manage.stripe_client == client && manage.config == config,
        first == Some("!subscribe"),
        second == Some("!subscription"),
        third == Some("!manage"),
{
}

} // verus!
