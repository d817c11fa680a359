//! The subscription store and its encrypted form.
//!
//! The store keeps each user's subscription, the users of Stripe's customers, and what each user
//! has used today. It is written to disk as JSON under AES-256-GCM, the nonce in front; the key
//! comes from the trusted execution environment.
use vstd::prelude::*;
use vstd::string::*;

use crate::clock::Timestamp;
use crate::crypto::{
    aes_decrypt, aes_encrypt, aes_opened, aes_sealed, random_nonce, sha256, sha256_digest,
    KEY_SIZE, NONCE_SIZE, PLAINTEXT_LIMIT,
};
use crate::stripe::error::{StripeError, StripeErrorView};
use crate::stripe::types::{
    free_subscription, no_usage, DailyUsage, SubscriptionStatus, SubscriptionView, UsageView,
    UserSubscription,
};
use crate::table::{lists, Table};
use crate::text::{decimal, decimal_text, opt_view};

verus! {

/// The path from which the key of the store is derived.
pub const KEY_DERIVATION_PATH: &'static str = "stripe-payments/subscription-store";

/// The version of the stored data.
pub const DATA_VERSION: u32 = 1;

/// What the store keeps.
pub struct SubscriptionStoreData {
    /// The version of the data.
    pub version: u32,
    /// The subscriptions by phone number.
    pub subscriptions: Table<UserSubscription>,
    /// The phone numbers by Stripe's customer identifier.
    pub customer_id_map: Table<String>,
    /// The daily usage by phone number.
    pub daily_usage: Table<DailyUsage>,
}

/// What the store keeps, as mathematical maps.
#[verifier::ext_equal]
pub struct StoreView {
    pub version: u32,
    pub subscriptions: Map<Seq<char>, SubscriptionView>,
    pub customers: Map<Seq<char>, Seq<char>>,
    pub usage: Map<Seq<char>, UsageView>,
}

impl View for SubscriptionStoreData {
    type V = StoreView;

    open spec fn view(&self) -> StoreView {
        StoreView {
            version: self.version,
            subscriptions: self.subscriptions@.map_values(|s: UserSubscription| s@),
            customers: self.customer_id_map@.map_values(|s: String| s@),
            usage: self.daily_usage@.map_values(|u: DailyUsage| u@),
        }
    }
}

/// A store that keeps nothing.
pub open spec fn empty_store() -> StoreView {
    StoreView {
        version: DATA_VERSION,
        subscriptions: Map::empty(),
        customers: Map::empty(),
        usage: Map::empty(),
    }
}

impl Default for SubscriptionStoreData {
    fn default() -> (r: Self)
        ensures
            r@ == empty_store(),
    {
        let r = SubscriptionStoreData {
            version: DATA_VERSION,
            subscriptions: Table::new(),
            customer_id_map: Table::new(),
            daily_usage: Table::new(),
        };
        assert(r@ =~= empty_store());
        r
    }
}

/// The refusal of a user whose subscription has lapsed.
pub open spec fn lapsed_text(status: SubscriptionStatus) -> Seq<char> {
    "Your subscription is "@ + (match status {
        SubscriptionStatus::PastDue => "past due"@,
        SubscriptionStatus::Canceled => "canceled"@,
        _ => "inactive"@,
    }) + ". Please renew to continue using the bot."@
}

/// The refusal of a user who has used up the free messages of the day.
pub open spec fn limit_text(limit: u32) -> Seq<char> {
    "You've used all "@ + decimal(limit as nat)
        + " free messages for today. Upgrade to Premium for unlimited messages!\n\nSend `!subscribe` to see plans."@
}

impl StoreView {
    /// The subscription of a user; one that the store does not know is in the free tier.
    pub open spec fn subscription_of(self, user: Seq<char>, now: Timestamp) -> SubscriptionView {
        if self.subscriptions.contains_key(user) {
            self.subscriptions[user]
        } else {
            free_subscription(user, now)
        }
    }

    /// Where the subscription of a user stands.
    pub open spec fn status_of(self, user: Seq<char>) -> SubscriptionStatus {
        if self.subscriptions.contains_key(user) {
            self.subscriptions[user].status
        } else {
            SubscriptionStatus::Free
        }
    }

    /// The user of a customer of Stripe.
    pub open spec fn user_of(self, customer: Seq<char>) -> Option<Seq<char>> {
        if self.customers.contains_key(customer) {
            Some(self.customers[customer])
        } else {
            None
        }
    }

    /// The store with a subscription set. Its customer, if it has one, is its user's.
    pub open spec fn with_subscription(self, sub: SubscriptionView) -> StoreView {
        StoreView {
            subscriptions: self.subscriptions.insert(sub.user_id, sub),
            customers: match sub.stripe_customer_id {
                Some(customer) => self.customers.insert(customer, sub.user_id),
                None => self.customers,
            },
            ..self
        }
    }

    /// What a user has used on the day `date`.
    pub open spec fn usage_on(self, user: Seq<char>, date: Seq<char>) -> UsageView {
        if self.usage.contains_key(user) && self.usage[user].date == date {
            self.usage[user]
        } else {
            no_usage(date)
        }
    }

    /// What a user has used on the day `date` after one more message.
    pub open spec fn next_usage(
        self,
        user: Seq<char>,
        prompt: int,
        completion: int,
        date: Seq<char>,
    ) -> UsageView {
        self.usage_on(user, date).after_message(prompt, completion)
    }

    /// The store after one more message of a user on the day `date`.
    pub open spec fn with_message(
        self,
        user: Seq<char>,
        prompt: int,
        completion: int,
        date: Seq<char>,
    ) -> StoreView {
        StoreView {
            usage: self.usage.insert(user, self.next_usage(user, prompt, completion, date)),
            ..self
        }
    }

    /// Whether a user may send a message on the day `date`, and the refusal if not.
    pub open spec fn verdict(self, user: Seq<char>, limit: u32, date: Seq<char>) -> Result<
        (),
        Seq<char>,
    > {
        let status = self.status_of(user);
        if !status.sends() {
            Err(lapsed_text(status))
        } else if status.unlimited() {
            Ok(())
        } else if self.usage_on(user, date).message_count >= limit {
            Err(limit_text(limit))
        } else {
            Ok(())
        }
    }

    /// The users whose subscription has the given status.
    pub open spec fn users_with(self, status: SubscriptionStatus) -> Set<Seq<char>> {
        self.subscriptions.dom().filter(|u: Seq<char>| self.subscriptions[u].status == status)
    }
}

/// The outcome of a check with its text as a character sequence.
pub open spec fn answer(r: Result<(), String>) -> Result<(), Seq<char>> {
    match r {
        Ok(()) => Ok(()),
        Err(m) => Err(m@),
    }
}

/// A summary of the store.
#[derive(Debug, Clone, Copy)]
pub struct StoreStats {
    pub total_users: usize,
    pub active_subscribers: usize,
    pub free_users: usize,
}

/// The subscription store.
pub struct SubscriptionStore {
    data: SubscriptionStoreData,
    cached_key: Option<[u8; KEY_SIZE]>,
}

impl View for SubscriptionStore {
    type V = StoreView;

    closed spec fn view(&self) -> StoreView {
        self.data@
    }
}

impl SubscriptionStore {
    /// The key that is in use, once it is known.
    pub closed spec fn key(&self) -> Option<Seq<u8>> {
        match self.cached_key {
            Some(k) => Some(k@),
            None => None,
        }
    }

    /// An empty store whose key is yet to be derived.
    pub fn new() -> (r: Self)
        ensures
            r@ == empty_store(),
            r.key() is None,
    {
        SubscriptionStore { data: SubscriptionStoreData::default(), cached_key: None }
    }

    /// An empty store with the given key.
    pub fn with_key(key: [u8; KEY_SIZE]) -> (r: Self)
        ensures
            r@ == empty_store(),
            r.key() == Some(key@),
    {
        SubscriptionStore { data: SubscriptionStoreData::default(), cached_key: Some(key) }
    }

    /// What the store keeps.
    pub fn data(&self) -> (r: &SubscriptionStoreData)
        ensures
            r@ == self@,
    {
        &self.data
    }

    /// Replaces what the store keeps.
    pub fn replace_data(&mut self, data: SubscriptionStoreData)
        ensures
            final(self)@ == data@,
            final(self).key() == old(self).key(),
    {
        self.data = data;
    }

    /// A user's subscription; the free tier where there is none.
    pub fn get_subscription(&self, user_id: &str) -> (r: UserSubscription)
        ensures
            exists|now: Timestamp|
                now.valid() && r@ == #[trigger] self@.subscription_of(user_id@, now),
    {
        let now = Timestamp::now();
        let r = self.get_subscription_at(user_id, now);
        assert(r@ == self@.subscription_of(user_id@, now));
        r
    }

    /// A user's subscription; the free tier, as of `now`, where there is none.
    pub fn get_subscription_at(&self, user_id: &str, now: Timestamp) -> (r: UserSubscription)
        ensures
            r@ == self@.subscription_of(user_id@, now),
    {
        match self.data.subscriptions.get(user_id) {
            Some(s) => s.clone(),
            None => UserSubscription::new_free_at(user_id.to_owned(), now),
        }
    }

    /// Where the subscription of a user stands.
    pub fn status(&self, user_id: &str) -> (r: SubscriptionStatus)
        ensures
            r == self@.status_of(user_id@),
    {
        match self.data.subscriptions.get(user_id) {
            Some(s) => s.status,
            None => SubscriptionStatus::Free,
        }
    }

    /// The user of a customer of Stripe.
    pub fn get_user_by_customer_id(&self, customer_id: &str) -> (r: Option<String>)
        ensures
            opt_view(r) == self@.user_of(customer_id@),
    {
        match self.data.customer_id_map.get(customer_id) {
            Some(user) => Some(user.clone()),
            None => None,
        }
    }

    /// Sets a user's subscription.
    pub fn set_subscription(&mut self, subscription: UserSubscription)
        ensures
            final(self)@ == old(self)@.with_subscription(subscription@),
            final(self).key() == old(self).key(),
    {
        let ghost before = self@;
        if let Some(customer) = &subscription.stripe_customer_id {
            self.data.customer_id_map.insert(customer.clone(), subscription.user_id.clone());
        }
        let ghost sub = subscription@;
        let user = subscription.user_id.clone();
        self.data.subscriptions.insert(user, subscription);
        assert(self@ =~= before.with_subscription(sub)) by {
            assert(self@.subscriptions =~= before.subscriptions.insert(sub.user_id, sub));
            assert(self@.customers =~= before.with_subscription(sub).customers);
        }
    }

    /// What a user has used today.
    pub fn get_daily_usage(&self, user_id: &str) -> (r: DailyUsage)
        ensures
            exists|now: Timestamp|
                now.valid() && r@ == self@.usage_on(user_id@, #[trigger] now.date()),
    {
        let now = Timestamp::now();
        let r = self.get_daily_usage_on(user_id, now.date_text().as_str());
        assert(r@ == self@.usage_on(user_id@, now.date()));
        r
    }

    /// What a user has used on the day `date`.
    pub fn get_daily_usage_on(&self, user_id: &str, date: &str) -> (r: DailyUsage)
        ensures
            r@ == self@.usage_on(user_id@, date@),
    {
        match self.data.daily_usage.get(user_id) {
            Some(usage) => {
                if usage.is_on(date) {
                    usage.clone()
                } else {
                    DailyUsage::new_on(date.to_owned())
                }
            },
            None => DailyUsage::new_on(date.to_owned()),
        }
    }

    /// Counts one more message of a user today and returns the usage. A counter that is full stays
    /// full.
    pub fn increment_usage(
        &mut self,
        user_id: &str,
        prompt_tokens: u32,
        completion_tokens: u32,
    ) -> (r: DailyUsage)
        ensures
            final(self).key() == old(self).key(),
            exists|now: Timestamp|
                {
                    &&& now.valid()
                    &&& r@ == old(self)@.next_usage(
                        user_id@,
                        prompt_tokens as int,
                        completion_tokens as int,
                        #[trigger] now.date(),
                    )
                    &&& final(self)@ == old(self)@.with_message(
                        user_id@,
                        prompt_tokens as int,
                        completion_tokens as int,
                        now.date(),
                    )
                },
    {
        let now = Timestamp::now();
        let date = now.date_text();
        let r = self.increment_usage_on(user_id, prompt_tokens, completion_tokens, date.as_str());
        assert(date@ == now.date());
        r
    }

    /// Counts one more message of a user on the day `date` and returns the usage.
    pub fn increment_usage_on(
        &mut self,
        user_id: &str,
        prompt_tokens: u32,
        completion_tokens: u32,
        date: &str,
    ) -> (r: DailyUsage)
        ensures
            r@ == old(self)@.next_usage(
                user_id@,
                prompt_tokens as int,
                completion_tokens as int,
                date@,
            ),
            final(self)@ == old(self)@.with_message(
                user_id@,
                prompt_tokens as int,
                completion_tokens as int,
                date@,
            ),
            final(self).key() == old(self).key(),
    {
        let ghost before = self@;
        let mut usage = self.get_daily_usage_on(user_id, date);
        usage.message_count = usage.message_count.saturating_add(1);
        usage.prompt_tokens = usage.prompt_tokens.saturating_add(prompt_tokens);
        usage.completion_tokens = usage.completion_tokens.saturating_add(completion_tokens);
        let r = usage.clone();
        self.data.daily_usage.insert(user_id.to_owned(), usage);
        assert(self@ =~= before.with_message(
            user_id@,
            prompt_tokens as int,
            completion_tokens as int,
            date@,
        )) by {
            assert(self@.usage =~= before.usage.insert(user_id@, r@));
        }
        r
    }

    /// Whether a user may send a message today, and the refusal if not.
    pub fn can_send_message(&self, user_id: &str, free_daily_limit: u32) -> (r: Result<
        (),
        String,
    >)
        ensures
            exists|now: Timestamp|
                now.valid() && answer(r) == self@.verdict(
                    user_id@,
                    free_daily_limit,
                    #[trigger] now.date(),
                ),
    {
        let now = Timestamp::now();
        let date = now.date_text();
        let r = self.can_send_message_on(user_id, free_daily_limit, date.as_str());
        assert(date@ == now.date());
        r
    }

    /// Whether a user may send a message on the day `date`, and the refusal if not.
    pub fn can_send_message_on(&self, user_id: &str, free_daily_limit: u32, date: &str) -> (r:
        Result<(), String>)
        ensures
            answer(r) == self@.verdict(user_id@, free_daily_limit, date@),
    {
        let status = self.status(user_id);
        if !status.can_send() {
            let mut m = "Your subscription is ".to_owned();
            m.append(
                match status {
                    SubscriptionStatus::PastDue => "past due",
                    SubscriptionStatus::Canceled => "canceled",
                    _ => "inactive",
                },
            );
            m.append(". Please renew to continue using the bot.");
            return Err(m);
        }
        if status.is_unlimited() {
            return Ok(());
        }
        let usage = self.get_daily_usage_on(user_id, date);
        if usage.message_count >= free_daily_limit {
            let mut m = "You've used all ".to_owned();
            m.append(decimal_text(free_daily_limit as u64).as_str());
            m.append(
                " free messages for today. Upgrade to Premium for unlimited messages!\n\nSend `!subscribe` to see plans.",
            );
            return Err(m);
        }
        Ok(())
    }

    /// A summary of the store.
    pub fn get_stats(&self) -> (r: StoreStats)
        ensures
            r.total_users == self@.subscriptions.dom().len(),
            r.active_subscribers == self@.users_with(SubscriptionStatus::Active).len(),
            r.free_users == self@.users_with(SubscriptionStatus::Free).len(),
    {
        let total = self.data.subscriptions.len();
        proof {
            assert(self@.subscriptions.dom() =~= self.data.subscriptions@.dom());
        }
        StoreStats {
            total_users: total,
            active_subscribers: self.count_with(SubscriptionStatus::Active),
            free_users: self.count_with(SubscriptionStatus::Free),
        }
    }

    /// The number of users whose subscription has the given status.
    fn count_with(&self, status: SubscriptionStatus) -> (r: usize)
        ensures
            r == self@.users_with(status).len(),
    {
        let table = &self.data.subscriptions;
        let n = table.len();
        let ghost rows = table.rows();
        let ghost mut seen: Set<Seq<char>> = Set::empty();
        let mut count: usize = 0;
        for i in 0..n
            invariant
                n == rows.len(),
                rows == table.rows(),
                lists(rows, table@),
                count <= i,
                seen.finite(),
                count == seen.len(),
                forall|k: Seq<char>| #[trigger]
                    seen.contains(k) <==> exists|j: int|
                        #![trigger rows[j]]
                        0 <= j < i && rows[j].key@ == k && rows[j].value.status == status,
        {
            let row = table.row(i);
            let ghost before = seen;
            if row.value.status == status {
                proof {
                    assert(!seen.contains(row.key@));
                    seen = seen.insert(row.key@);
                }
                count = count + 1;
            }
            proof {
                assert forall|k: Seq<char>| #[trigger] seen.contains(k) <==> exists|j: int|
                    #![trigger rows[j]]
                    0 <= j < i + 1 && rows[j].key@ == k && rows[j].value.status == status by {
                    if before.contains(k) {
                        let j = choose|j: int|
                            #![trigger rows[j]]
                            0 <= j < i && rows[j].key@ == k && rows[j].value.status == status;
                        assert(rows[j].key@ == k);
                    }
                    assert(rows[i as int].key@ == row.key@);
                }
            }
        }
        proof {
            assert(seen =~= self@.users_with(status)) by {
                assert forall|k: Seq<char>| #[trigger] self@.users_with(status).contains(
                    k,
                ) implies seen.contains(k) by {
                    assert(table@.contains_key(k));
                    let j = choose|j: int|
                        #![trigger rows[j]]
                        0 <= j < rows.len() && rows[j].key@ == k;
                    assert(rows[j].key@ == k);
                }
            }
        }
        count
    }
}

/// What the trusted execution environment says of the application.
pub struct AppInfo {
    pub compose_hash: Option<String>,
    pub app_id: Option<String>,
}

/// The input of the hash from which the key is made where the environment derives none: the
/// compose hash, the application's identifier and the derivation path.
pub open spec fn key_material(compose_hash: Option<Seq<char>>, app_id: Option<Seq<char>>) -> Seq<
    u8,
> {
    vstd::utf8::encode_utf8(compose_hash.unwrap_or("unknown"@)) + vstd::utf8::encode_utf8(
        app_id.unwrap_or("unknown"@),
    ) + vstd::utf8::encode_utf8(KEY_DERIVATION_PATH@)
}

/// A step on the way to the encryption key.
pub enum KeyEvent {
    /// The key is asked for.
    Wanted,
    /// The environment derived key bytes at the derivation path.
    Derived(Vec<u8>),
    /// The environment derives no keys.
    NotDerived,
    /// The environment told about the application.
    Informed(AppInfo),
    /// The environment told nothing about the application, for the given reason.
    NotInformed(String),
}

/// What is to be done next on the way to the encryption key.
pub enum KeyAction {
    /// The key is known.
    Use([u8; KEY_SIZE]),
    /// Have the environment derive key bytes at the derivation path.
    Derive,
    /// Ask the environment about the application.
    AskAppInfo,
    /// There is no key.
    Fail(StripeError),
}

/// A [`KeyAction`] with key and texts as sequences.
pub enum KeyActionView {
    Use(Seq<u8>),
    Derive,
    AskAppInfo,
    Fail(StripeErrorView),
}

impl View for KeyAction {
    type V = KeyActionView;

    open spec fn view(&self) -> KeyActionView {
        match *self {
            KeyAction::Use(k) => KeyActionView::Use(k@),
            KeyAction::Derive => KeyActionView::Derive,
            KeyAction::AskAppInfo => KeyActionView::AskAppInfo,
            KeyAction::Fail(e) => KeyActionView::Fail(e@),
        }
    }
}

/// The next action on the way to the key, where `cached` is the key that is already known.
pub open spec fn key_action(cached: Option<Seq<u8>>, event: KeyEvent) -> KeyActionView {
    match event {
        KeyEvent::Wanted => match cached {
            Some(k) => KeyActionView::Use(k),
            None => KeyActionView::Derive,
        },
        KeyEvent::Derived(bytes) => if bytes@.len() < KEY_SIZE {
            KeyActionView::Fail(
                StripeErrorView::Encryption(
                    "Derived key too short: "@ + decimal(bytes@.len()) + " bytes"@,
                ),
            )
        } else {
            KeyActionView::Use(bytes@.take(KEY_SIZE as int))
        },
        KeyEvent::NotDerived => KeyActionView::AskAppInfo,
        KeyEvent::Informed(info) => KeyActionView::Use(
            sha256(key_material(opt_view(info.compose_hash), opt_view(info.app_id))),
        ),
        KeyEvent::NotInformed(reason) => KeyActionView::Fail(
            StripeErrorView::Encryption("Failed to get AppInfo: "@ + reason@),
        ),
    }
}

fn first_bytes(bytes: &Vec<u8>) -> (r: [u8; KEY_SIZE])
    requires
        bytes@.len() >= KEY_SIZE,
    ensures
        r@ == bytes@.take(KEY_SIZE as int),
{
    let mut key = [0u8; KEY_SIZE];
    for i in 0..KEY_SIZE
        invariant
            bytes@.len() >= KEY_SIZE,
            forall|j: int| 0 <= j < i ==> key@[j] == bytes@[j],
    {
        key[i] = bytes[i];
    }
    assert(key@ =~= bytes@.take(KEY_SIZE as int));
    key
}

fn text_or_unknown(s: &Option<String>) -> (r: &str)
    ensures
        r@ == opt_view(*s).unwrap_or("unknown"@),
{
    match s {
        Some(t) => t.as_str(),
        None => "unknown",
    }
}

fn concat_bytes(a: &[u8], b: &[u8], c: &[u8]) -> (r: Vec<u8>)
    ensures
        r@ == a@ + b@ + c@,
{
    let mut v: Vec<u8> = Vec::new();
    v.extend_from_slice(a);
    assert(v@ =~= a@);
    v.extend_from_slice(b);
    assert(v@ =~= a@ + b@);
    v.extend_from_slice(c);
    assert(v@ =~= a@ + b@ + c@);
    v
}

impl SubscriptionStore {
    /// Takes one step on the way to the encryption key. A key that is found is kept: it answers
    /// every later request.
    pub fn derive_key(&mut self, event: KeyEvent) -> (r: KeyAction)
        ensures
            r@ == key_action(old(self).key(), event),
            final(self)@ == old(self)@,
            final(self).key() == (match r@ {
                KeyActionView::Use(k) => Some(k),
                _ => old(self).key(),
            }),
    {
        match event {
            KeyEvent::Wanted => match self.cached_key {
                Some(k) => KeyAction::Use(k),
                None => KeyAction::Derive,
            },
            KeyEvent::Derived(bytes) => {
                if bytes.len() < KEY_SIZE {
                    let mut m = "Derived key too short: ".to_owned();
                    m.append(decimal_text(bytes.len() as u64).as_str());
                    m.append(" bytes");
                    KeyAction::Fail(StripeError::Encryption(m))
                } else {
                    let key = first_bytes(&bytes);
                    self.cached_key = Some(key);
                    KeyAction::Use(key)
                }
            },
            KeyEvent::NotDerived => KeyAction::AskAppInfo,
            KeyEvent::Informed(info) => {
                let material = concat_bytes(
                    text_or_unknown(&info.compose_hash).as_bytes(),
                    text_or_unknown(&info.app_id).as_bytes(),
                    KEY_DERIVATION_PATH.as_bytes(),
                );
                let key = sha256_digest(material.as_slice());
                self.cached_key = Some(key);
                KeyAction::Use(key)
            },
            KeyEvent::NotInformed(reason) => {
                let mut m = "Failed to get AppInfo: ".to_owned();
                m.append(reason.as_str());
                KeyAction::Fail(StripeError::Encryption(m))
            },
        }
    }
}

/// What is written to disk: the nonce and the encrypted data.
pub open spec fn sealed(key: Seq<u8>, nonce: Seq<u8>, plaintext: Seq<u8>) -> Seq<u8> {
    nonce + aes_sealed(key, nonce, plaintext)
}

/// What is read back from disk: `None` where the file is too short to hold a nonce, so that the
/// store starts fresh, and an error where the data does not decrypt.
pub open spec fn unsealed(key: Seq<u8>, file: Seq<u8>) -> Result<Option<Seq<u8>>, StripeErrorView> {
    if file.len() < NONCE_SIZE {
        Ok(None)
    } else {
        match aes_opened(key, file.take(NONCE_SIZE as int), file.skip(NONCE_SIZE as int)) {
            Some(plaintext) => Ok(Some(plaintext)),
            None => Err(
                StripeErrorView::Encryption(
                    "Failed to decrypt subscription store. TEE deployment may have changed."@,
                ),
            ),
        }
    }
}

impl SubscriptionStore {
    /// Encrypts the serialized store under a fresh nonce.
    pub fn persist(key: &[u8; KEY_SIZE], plaintext: &[u8]) -> (r: Result<Vec<u8>, StripeError>)
        ensures
            r is Ok <==> plaintext@.len() <= PLAINTEXT_LIMIT,
            r matches Ok(file) ==> exists|nonce: Seq<u8>|
                nonce.len() == NONCE_SIZE && file@ == #[trigger] sealed(key@, nonce, plaintext@),
            r matches Ok(file) ==> unsealed(key@, file@) == Ok::<_, StripeErrorView>(
                Some(plaintext@),
            ),
            r matches Err(e) ==> e@ == StripeErrorView::Encryption("AES-GCM operation failed"@),
    {
        let nonce = random_nonce();
        SubscriptionStore::persist_with(key, &nonce, plaintext)
    }

    /// Encrypts the serialized store under the given nonce, which is put in front.
    pub fn persist_with(
        key: &[u8; KEY_SIZE],
        nonce: &[u8; NONCE_SIZE],
        plaintext: &[u8],
    ) -> (r: Result<Vec<u8>, StripeError>)
        ensures
            r is Ok <==> plaintext@.len() <= PLAINTEXT_LIMIT,
            r matches Ok(file) ==> file@ == sealed(key@, nonce@, plaintext@),
            r matches Ok(file) ==> unsealed(key@, file@) == Ok::<_, StripeErrorView>(
                Some(plaintext@),
            ),
            r matches Err(e) ==> e@ == StripeErrorView::Encryption("AES-GCM operation failed"@),
    {
        match aes_encrypt(key, nonce, plaintext) {
            Ok(ciphertext) => {
                let mut file: Vec<u8> = Vec::new();
                for i in 0..NONCE_SIZE
                    invariant
                        file@ == nonce@.take(i as int),
                {
                    file.push(nonce[i]);
                }
                let ghost tail = ciphertext@;
                let mut ciphertext = ciphertext;
                file.append(&mut ciphertext);
                assert(nonce@.take(NONCE_SIZE as int) =~= nonce@);
                assert(file@ =~= nonce@ + tail);
                assert(file@.take(NONCE_SIZE as int) =~= nonce@);
                assert(file@.skip(NONCE_SIZE as int) =~= tail);
                Ok(file)
            },
            Err(_) => Err(StripeError::Encryption("AES-GCM operation failed".to_owned())),
        }
    }

    /// Decrypts what was read from disk.
    pub fn load(key: &[u8; KEY_SIZE], file: &[u8]) -> (r: Result<Option<Vec<u8>>, StripeError>)
        ensures
            match r {
                Ok(Some(plaintext)) => unsealed(key@, file@) == Ok::<_, StripeErrorView>(
                    Some(plaintext@),
                ),
                Ok(None) => unsealed(key@, file@) == Ok::<Option<Seq<u8>>, StripeErrorView>(None),
                Err(e) => unsealed(key@, file@) == Err::<Option<Seq<u8>>, _>(e@),
            },
    {
        if file.len() < NONCE_SIZE {
            return Ok(None);
        }
        let mut nonce = [0u8; NONCE_SIZE];
        for i in 0..NONCE_SIZE
            invariant
                file@.len() >= NONCE_SIZE,
                forall|j: int| 0 <= j < i ==> nonce@[j] == file@[j],
        {
            nonce[i] = file[i];
        }
        let (_head, ciphertext) = file.split_at(NONCE_SIZE);
        assert(nonce@ =~= file@.take(NONCE_SIZE as int));
        assert(ciphertext@ =~= file@.skip(NONCE_SIZE as int));
        match aes_decrypt(key, &nonce, ciphertext) {
            Ok(plaintext) => Ok(Some(plaintext)),
            Err(_) => Err(
                StripeError::Encryption(
                    "Failed to decrypt subscription store. TEE deployment may have changed.".to_owned(),
                ),
            ),
        }
    }
}

} // verus!
