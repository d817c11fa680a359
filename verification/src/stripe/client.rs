//! Requests to Stripe's API, webhook signatures and the data of webhook events.
use vstd::prelude::*;
use vstd::string::*;
use vstd::utf8::*;

use crate::codec::{hex, hex_encode, lossy_text, utf8_lossy};
use crate::crypto::{hmac_code, hmac_sha256};
use crate::json::{first_of, integer_of, member, member_of, text_of, Json};
use crate::stripe::config::StripeConfig;
use crate::stripe::error::{StripeError, StripeErrorView};
use crate::text::{
    after_prefix, opt_str_view, opt_view, own_opt, same, split, split_on, strip_prefix, texts,
    trim, trimmed,
};

verus! {

/// The base of Stripe's API.
pub const STRIPE_API_BASE: &'static str = "https://api.stripe.com/v1";

/// Stripe's client: the keys that it works with.
pub struct StripeClient {
    secret_key: String,
    webhook_secret: String,
}

/// What Stripe answers to the creation of a checkout session.
#[derive(Debug)]
pub struct CheckoutSession {
    pub id: String,
    pub url: Option<String>,
}

/// What Stripe answers to the creation of a customer portal session.
#[derive(Debug)]
pub struct PortalSession {
    pub id: String,
    pub url: String,
}

/// A webhook event.
pub struct WebhookEvent {
    pub id: String,
    pub event_type: String,
    pub data: EventData,
}

/// The data of a webhook event.
pub struct EventData {
    pub object: Json,
}

/// What a webhook says of a subscription.
#[derive(Debug)]
pub struct SubscriptionEvent {
    pub customer_id: String,
    pub subscription_id: String,
    pub status: String,
    pub price_id: Option<String>,
    pub current_period_end: Option<i64>,
}

/// A [`SubscriptionEvent`] with its texts as character sequences.
pub struct SubscriptionEventView {
    pub customer_id: Seq<char>,
    pub subscription_id: Seq<char>,
    pub status: Seq<char>,
    pub price_id: Option<Seq<char>>,
    pub current_period_end: Option<i64>,
}

impl View for SubscriptionEvent {
    type V = SubscriptionEventView;

    open spec fn view(&self) -> SubscriptionEventView {
        SubscriptionEventView {
            customer_id: self.customer_id@,
            subscription_id: self.subscription_id@,
            status: self.status@,
            price_id: opt_view(self.price_id),
            current_period_end: self.current_period_end,
        }
    }
}

/// What a webhook says of a completed checkout.
#[derive(Debug)]
pub struct CheckoutCompleted {
    pub customer_id: String,
    pub subscription_id: Option<String>,
    /// The reference that was given with the checkout: the user's phone number.
    pub client_reference_id: Option<String>,
}

/// A [`CheckoutCompleted`] with its texts as character sequences.
pub struct CheckoutView {
    pub customer_id: Seq<char>,
    pub subscription_id: Option<Seq<char>>,
    pub client_reference_id: Option<Seq<char>>,
}

impl View for CheckoutCompleted {
    type V = CheckoutView;

    open spec fn view(&self) -> CheckoutView {
        CheckoutView {
            customer_id: self.customer_id@,
            subscription_id: opt_view(self.subscription_id),
            client_reference_id: opt_view(self.client_reference_id),
        }
    }
}

/// The checkout that an event object describes. It needs a customer.
pub open spec fn checkout_of(object: Json) -> Option<CheckoutView> {
    match text_of(member(object, "customer"@)) {
        Some(customer_id) => Some(
            CheckoutView {
                customer_id,
                subscription_id: text_of(member(object, "subscription"@)),
                client_reference_id: text_of(member(object, "client_reference_id"@)),
            },
        ),
        None => None,
    }
}

/// The price of the first item of a subscription object.
pub open spec fn price_of(object: Json) -> Option<Seq<char>> {
    let item = first_of(member_of(member(object, "items"@), "data"@));
    text_of(member_of(member_of(item, "price"@), "id"@))
}

/// The subscription that an event object describes. It needs a customer, an identifier and a
/// status.
pub open spec fn subscription_event_of(object: Json) -> Option<SubscriptionEventView> {
    match (
        text_of(member(object, "customer"@)),
        text_of(member(object, "id"@)),
        text_of(member(object, "status"@)),
    ) {
        (Some(customer_id), Some(subscription_id), Some(status)) => Some(
            SubscriptionEventView {
                customer_id,
                subscription_id,
                status,
                price_id: price_of(object),
                current_period_end: integer_of(member(object, "current_period_end"@)),
            },
        ),
        _ => None,
    }
}

/// A POST request with a form as its body. The user name of its basic authentication is the
/// secret key; there is no password.
pub struct FormRequest {
    pub url: String,
    pub username: String,
    pub form: Vec<(&'static str, String)>,
}

/// The fields of a form with their values as character sequences.
pub open spec fn fields(form: Seq<(&'static str, String)>) -> Seq<(Seq<char>, Seq<char>)> {
    form.map_values(|p: (&'static str, String)| (p.0@, p.1@))
}

/// The form of a request for a checkout session.
pub open spec fn checkout_form(
    price_id: Seq<char>,
    user_id: Seq<char>,
    success_url: Seq<char>,
    cancel_url: Seq<char>,
    customer_id: Option<Seq<char>>,
) -> Seq<(Seq<char>, Seq<char>)> {
    let base = seq![
        ("mode"@, "subscription"@),
        ("line_items[0][price]"@, price_id),
        ("line_items[0][quantity]"@, "1"@),
        ("success_url"@, success_url),
        ("cancel_url"@, cancel_url),
        ("client_reference_id"@, user_id),
    ];
    match customer_id {
        Some(c) => base.push(("customer"@, c)),
        None => base,
    }
}

/// How a call of Stripe's API ended.
pub enum ApiReply<T> {
    /// The request or the reading of the answer failed, for the given reason.
    Unreachable(String),
    /// Stripe refused the request; the body of the answer is given.
    Refused(String),
    /// Stripe answered.
    Answered(T),
}

/// The error of a call of Stripe's API that is described by `what`.
pub open spec fn api_failure<T>(reply: ApiReply<T>, what: Seq<char>) -> Option<StripeErrorView> {
    match reply {
        ApiReply::Unreachable(reason) => Some(StripeErrorView::StripeApi(reason@)),
        ApiReply::Refused(body) => Some(StripeErrorView::StripeApi(what + body@)),
        ApiReply::Answered(_) => None,
    }
}

fn read_reply<T>(reply: ApiReply<T>, what: &str) -> (r: Result<T, StripeError>)
    ensures
        match r {
            Ok(t) => reply == ApiReply::Answered(t),
            Err(e) => api_failure(reply, what@) == Some(e@),
        },
{
    match reply {
        ApiReply::Unreachable(reason) => Err(StripeError::StripeApi(reason)),
        ApiReply::Refused(body) => {
            let mut m = what.to_owned();
            m.append(body.as_str());
            Err(StripeError::StripeApi(m))
        },
        ApiReply::Answered(t) => Ok(t),
    }
}

/// The parts of a `Stripe-Signature` header, without the white space around them.
pub open spec fn header_parts(header: Seq<char>) -> Seq<Seq<char>> {
    split(header, ',').map_values(|part: Seq<char>| trimmed(part))
}

/// The time stamp of a `Stripe-Signature` header: that of the last part that has one.
pub open spec fn signed_time(parts: Seq<Seq<char>>) -> Option<Seq<char>>
    decreases parts.len(),
{
    if parts.len() == 0 {
        None
    } else if after_prefix(parts.last(), "t="@) is Some {
        after_prefix(parts.last(), "t="@)
    } else {
        signed_time(parts.drop_last())
    }
}

/// `sig` is one of the signatures of a `Stripe-Signature` header.
pub open spec fn offers_signature(parts: Seq<Seq<char>>, sig: Seq<char>) -> bool {
    exists|i: int| 0 <= i < parts.len() && #[trigger] is_signature(parts[i], sig)
}

/// The part holds the signature `sig`.
pub open spec fn is_signature(part: Seq<char>, sig: Seq<char>) -> bool {
    after_prefix(part, "t="@) is None && after_prefix(part, "v1="@) == Some(sig)
}

/// The signature that Stripe gives a payload at a time: the HMAC, in hexadecimal, of the time
/// stamp, a dot and the payload under the webhook secret.
pub open spec fn expected_signature(secret: Seq<char>, time: Seq<char>, payload: Seq<u8>) -> Seq<
    char,
> {
    hex(hmac_sha256(encode_utf8(secret), encode_utf8(time + "."@ + lossy_text(payload))))
}

/// The header bears a valid signature of the payload: it has a time stamp, and one of its
/// signatures is the expected one for that time.
pub open spec fn validly_signed(secret: Seq<char>, payload: Seq<u8>, header: Seq<char>) -> bool {
    let parts = header_parts(header);
    match signed_time(parts) {
        Some(time) => offers_signature(parts, expected_signature(secret, time, payload)),
        None => false,
    }
}

/// The outcome of a webhook's check with the error's text as a character sequence.
pub open spec fn event_result(r: Result<WebhookEvent, StripeError>) -> Result<
    WebhookEvent,
    StripeErrorView,
> {
    match r {
        Ok(event) => Ok(event),
        Err(e) => Err(e@),
    }
}

/// The event of a validly signed webhook, given what was read from its payload.
pub open spec fn event_read(event: Result<WebhookEvent, String>) -> Result<
    WebhookEvent,
    StripeErrorView,
> {
    match event {
        Ok(event) => Ok(event),
        Err(m) => Err(StripeErrorView::Serialization(m@)),
    }
}

impl StripeClient {
    /// Stripe's secret key.
    pub closed spec fn secret(&self) -> Seq<char> {
        self.secret_key@
    }

    /// The secret under which Stripe signs webhooks.
    pub closed spec fn webhook_secret(&self) -> Seq<char> {
        self.webhook_secret@
    }

    /// A client with the keys of a configuration.
    pub fn new(config: &StripeConfig) -> (r: Self)
        ensures
            r.secret() == config@.secret_key,
            r.webhook_secret() == config@.webhook_secret,
    {
        StripeClient {
            secret_key: config.secret_key.clone(),
            webhook_secret: config.webhook_secret.clone(),
        }
    }

    /// The request for a checkout session for a subscription.
    pub fn create_checkout_session(
        &self,
        price_id: &str,
        user_id: &str,
        success_url: &str,
        cancel_url: &str,
        customer_id: Option<&str>,
    ) -> (r: FormRequest)
        ensures
            r.url@ == STRIPE_API_BASE@ + "/checkout/sessions"@,
            r.username@ == self.secret(),
            fields(r.form@) == checkout_form(
                price_id@,
                user_id@,
                success_url@,
                cancel_url@,
                opt_str_view(customer_id),
            ),
    {
        let mut form: Vec<(&'static str, String)> = Vec::new();
        form.push(("mode", "subscription".to_owned()));
        form.push(("line_items[0][price]", price_id.to_owned()));
        form.push(("line_items[0][quantity]", "1".to_owned()));
        form.push(("success_url", success_url.to_owned()));
        form.push(("cancel_url", cancel_url.to_owned()));
        form.push(("client_reference_id", user_id.to_owned()));
        if let Some(c) = customer_id {
            form.push(("customer", c.to_owned()));
        }
        assert(fields(form@) =~= checkout_form(
            price_id@,
            user_id@,
            success_url@,
            cancel_url@,
            opt_str_view(customer_id),
        ));
        let mut url = STRIPE_API_BASE.to_owned();
        url.append("/checkout/sessions");
        FormRequest { url, username: self.secret_key.clone(), form }
    }

    /// The checkout session that Stripe answered with.
    pub fn checkout_session(reply: ApiReply<CheckoutSession>) -> (r: Result<
        CheckoutSession,
        StripeError,
    >)
        ensures
            match r {
                Ok(session) => reply == ApiReply::Answered(session),
                Err(e) => api_failure(reply, "Failed to create checkout session: "@) == Some(e@),
            },
    {
        read_reply(reply, "Failed to create checkout session: ")
    }

    /// The request for a customer portal session.
    pub fn create_portal_session(&self, customer_id: &str, return_url: &str) -> (r: FormRequest)
        ensures
            r.url@ == STRIPE_API_BASE@ + "/billing_portal/sessions"@,
            r.username@ == self.secret(),
            fields(r.form@) == seq![("customer"@, customer_id@), ("return_url"@, return_url@)],
    {
        let mut form: Vec<(&'static str, String)> = Vec::new();
        form.push(("customer", customer_id.to_owned()));
        form.push(("return_url", return_url.to_owned()));
        assert(fields(form@) =~= seq![
            ("customer"@, customer_id@),
            ("return_url"@, return_url@),
        ]);
        let mut url = STRIPE_API_BASE.to_owned();
        url.append("/billing_portal/sessions");
        FormRequest { url, username: self.secret_key.clone(), form }
    }

    /// The portal session that Stripe answered with.
    pub fn portal_session(reply: ApiReply<PortalSession>) -> (r: Result<
        PortalSession,
        StripeError,
    >)
        ensures
            match r {
                Ok(session) => reply == ApiReply::Answered(session),
                Err(e) => api_failure(reply, "Failed to create portal session: "@) == Some(e@),
            },
    {
        read_reply(reply, "Failed to create portal session: ")
    }

    /// Checks the signature of a webhook and returns its event, which `read` reads from the
    /// payload. A payload that is not validly signed is not read.
    pub fn verify_webhook<F: Fn(&[u8]) -> Result<WebhookEvent, String>>(
        &self,
        payload: &[u8],
        signature_header: &str,
        read: F,
    ) -> (r: Result<WebhookEvent, StripeError>)
        requires
            validly_signed(self.webhook_secret(), payload@, signature_header@) ==> call_requires(
                read,
                (payload,),
            ),
        ensures
            if validly_signed(self.webhook_secret(), payload@, signature_header@) {
                exists|event: Result<WebhookEvent, String>| #[trigger]
                    call_ensures(read, (payload,), event) && event_result(r) == event_read(event)
            } else {
                event_result(r) == Err::<WebhookEvent, StripeErrorView>(
                    StripeErrorView::InvalidSignature,
                )
            },
    {
        if !self.is_signed(payload, signature_header) {
            return Err(StripeError::InvalidSignature);
        }
        match read(payload) {
            Ok(event) => Ok(event),
            Err(m) => Err(StripeError::Serialization(m)),
        }
    }

    /// Whether a webhook is validly signed.
    pub fn is_signed(&self, payload: &[u8], signature_header: &str) -> (r: bool)
        ensures
            r == validly_signed(self.webhook_secret(), payload@, signature_header@),
    {
        let raw = split_on(signature_header, ',');
        let ghost parts = header_parts(signature_header@);
        let mut timestamp: Option<String> = None;
        let mut signatures: Vec<String> = Vec::new();
        let mut i: usize = 0;
        while i < raw.len()
            invariant
                i <= raw@.len(),
                texts(raw@) == split(signature_header@, ','),
                parts == header_parts(signature_header@),
                opt_view(timestamp) == signed_time(parts.take(i as int)),
                forall|sig: Seq<char>| #[trigger]
                    offers_signature(parts.take(i as int), sig) <==> texts(signatures@).contains(
                        sig,
                    ),
            decreases raw@.len() - i,
        {
            let part = trim(raw[i].as_str());
            proof {
                assert(texts(raw@)[i as int] == raw@[i as int]@);
                assert(part@ == parts[i as int]);
                assert(parts.take(i + 1).drop_last() =~= parts.take(i as int));
                assert(parts.take(i + 1).last() == part@);
            }
            let ghost before = texts(signatures@);
            let time = strip_prefix(part.as_str(), "t=");
            if time.is_some() {
                timestamp = time;
            } else if let Some(v1) = strip_prefix(part.as_str(), "v1=") {
                signatures.push(v1);
                assert(texts(signatures@) =~= before.push(v1@));
            }
            proof {
                let now = texts(signatures@);
                assert forall|sig: Seq<char>| #[trigger]
                    offers_signature(parts.take(i + 1), sig) <==> now.contains(sig) by {
                    lemma_offers_step(parts, i as int, sig);
                    if now.len() > before.len() {
                        let v = after_prefix(part@, "v1="@)->0;
                        assert(now == before.push(v));
                        if before.contains(sig) {
                            let j = before.index_of(sig);
                            assert(now[j] == sig);
                        }
                        assert(now[before.len() as int] == v);
                        if now.contains(sig) {
                            let j = now.index_of(sig);
                            if j < before.len() {
                                assert(before[j] == sig);
                            }
                        }
                    }
                }
            }
            i = i + 1;
        }
        assert(parts.take(parts.len() as int) =~= parts);
        let time = match timestamp {
            Some(t) => t,
            None => return false,
        };
        if signatures.len() == 0 {
            proof {
                let sig = expected_signature(self.webhook_secret(), time@, payload@);
                assert(offers_signature(parts, sig) <==> texts(signatures@).contains(sig));
            }
            return false;
        }
        let mut signed_payload = time.clone();
        signed_payload.append(".");
        signed_payload.append(utf8_lossy(payload).as_str());
        let code = match hmac_code(self.webhook_secret.as_str().as_bytes(), signed_payload.as_str().as_bytes()) {
            Ok(code) => code,
            Err(_) => return false,
        };
        let expected = hex_encode(code.as_slice());
        assert(expected@ == expected_signature(self.webhook_secret(), time@, payload@));
        assert(offers_signature(parts, expected@) <==> texts(signatures@).contains(expected@));
        for i in 0..signatures.len()
            invariant
                forall|j: int| 0 <= j < i ==> texts(signatures@)[j] != expected@,
                validly_signed(self.webhook_secret(), payload@, signature_header@) <==> texts(
                    signatures@,
                ).contains(expected@),
        {
            assert(texts(signatures@)[i as int] == signatures@[i as int]@);
            if same(signatures[i].as_str(), expected.as_str()) {
                return true;
            }
        }
        false
    }

    /// The checkout that an event of type `checkout.session.completed` describes.
    pub fn parse_checkout_completed(event: &WebhookEvent) -> (r: Option<CheckoutCompleted>)
        ensures
            match r {
                Some(c) => checkout_of(event.data.object) == Some(c@),
                None => checkout_of(event.data.object) is None,
            },
    {
        let object = &event.data.object;
        match text_member(object, "customer") {
            Some(customer_id) => Some(
                CheckoutCompleted {
                    customer_id,
                    subscription_id: text_member(object, "subscription"),
                    client_reference_id: text_member(object, "client_reference_id"),
                },
            ),
            None => None,
        }
    }

    /// The subscription that an event on a subscription describes.
    pub fn parse_subscription_event(event: &WebhookEvent) -> (r: Option<SubscriptionEvent>)
        ensures
            match r {
                Some(s) => subscription_event_of(event.data.object) == Some(s@),
                None => subscription_event_of(event.data.object) is None,
            },
    {
        let object = &event.data.object;
        let customer_id = match text_member(object, "customer") {
            Some(t) => t,
            None => return None,
        };
        let subscription_id = match text_member(object, "id") {
            Some(t) => t,
            None => return None,
        };
        let status = match text_member(object, "status") {
            Some(t) => t,
            None => return None,
        };
        let current_period_end = match object.get("current_period_end") {
            Some(v) => v.as_i64(),
            None => None,
        };
        Some(
            SubscriptionEvent {
                customer_id,
                subscription_id,
                status,
                price_id: first_price(object),
                current_period_end,
            },
        )
    }
}

/// One more part offers what the parts before offer, and its own signature.
proof fn lemma_offers_step(parts: Seq<Seq<char>>, i: int, sig: Seq<char>)
    requires
        0 <= i < parts.len(),
    ensures
        offers_signature(parts.take(i + 1), sig) <==> offers_signature(parts.take(i), sig)
            || is_signature(parts[i], sig),
{
    let a = parts.take(i);
    let b = parts.take(i + 1);
    if offers_signature(a, sig) {
        let k = choose|k: int| 0 <= k < a.len() && #[trigger] is_signature(a[k], sig);
        assert(is_signature(b[k], sig));
    }
    if is_signature(parts[i], sig) {
        assert(is_signature(b[i], sig));
    }
    if offers_signature(b, sig) {
        let k = choose|k: int| 0 <= k < b.len() && #[trigger] is_signature(b[k], sig);
        if k < i {
            assert(is_signature(a[k], sig));
        }
    }
}

/// The text of a member of an object.
pub(crate) fn text_member(object: &Json, name: &str) -> (r: Option<String>)
    ensures
        opt_view(r) == text_of(member(*object, name@)),
{
    match object.get(name) {
        Some(v) => own_opt(v.as_str()),
        None => None,
    }
}

fn first_price(object: &Json) -> (r: Option<String>)
    ensures
        opt_view(r) == price_of(*object),
{
    let items = match object.get("items") {
        Some(v) => v,
        None => return None,
    };
    let data = match items.get("data") {
        Some(v) => v,
        None => return None,
    };
    let item = match data.first() {
        Some(v) => v,
        None => return None,
    };
    match item.get("price") {
        Some(price) => text_member(price, "id"),
        None => None,
    }
}

} // verus!
