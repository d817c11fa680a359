//! Configuration of the payment system.
use vstd::prelude::*;

use crate::text::{copy_opt, opt_view};

verus! {

/// Configuration of the payment system.
#[derive(Debug)]
pub struct StripeConfig {
    /// Whether Stripe payments are enabled.
    pub enabled: bool,
    /// Stripe's secret key.
    pub secret_key: String,
    /// The secret under which Stripe signs webhooks.
    pub webhook_secret: String,
    /// The port of the HTTP server for webhooks.
    pub server_port: u16,
    /// Where the encrypted subscription store lies.
    pub storage_path: String,
    /// The number of free messages a day for users without a subscription.
    pub free_daily_messages: u32,
    /// Stripe's price identifier of the Premium plan.
    pub premium_price_id: Option<String>,
    /// Stripe's price identifier of the Pro plan.
    pub pro_price_id: Option<String>,
    /// The web frontend, to which Stripe sends users back.
    pub frontend_url: String,
}

/// A [`StripeConfig`] with its texts as character sequences.
pub struct StripeConfigView {
    pub enabled: bool,
    pub secret_key: Seq<char>,
    pub webhook_secret: Seq<char>,
    pub server_port: u16,
    pub storage_path: Seq<char>,
    pub free_daily_messages: u32,
    pub premium_price_id: Option<Seq<char>>,
    pub pro_price_id: Option<Seq<char>>,
    pub frontend_url: Seq<char>,
}

impl View for StripeConfig {
    type V = StripeConfigView;

    open spec fn view(&self) -> StripeConfigView {
        StripeConfigView {
            enabled: self.enabled,
            secret_key: self.secret_key@,
            webhook_secret: self.webhook_secret@,
            server_port: self.server_port,
            storage_path: self.storage_path@,
            free_daily_messages: self.free_daily_messages,
            premium_price_id: opt_view(self.premium_price_id),
            pro_price_id: opt_view(self.pro_price_id),
            frontend_url: self.frontend_url@,
        }
    }
}

/// The port where the configuration names none.
pub fn default_server_port() -> (r: u16)
    ensures
        r == 8082,
{
    8082
}

/// The storage path where the configuration names none.
pub fn default_storage_path() -> (r: String)
    ensures
        r@ == "/data/subscriptions.enc"@,
{
    "/data/subscriptions.enc".to_owned()
}

/// The number of free messages a day where the configuration names none.
pub fn default_free_daily_messages() -> (r: u32)
    ensures
        r == 15,
{
    15
}

/// The web frontend where the configuration names none.
pub fn default_frontend_url() -> (r: String)
    ensures
        r@ == "https://signal-tee-web.vercel.app"@,
{
    "https://signal-tee-web.vercel.app".to_owned()
}

/// The configuration that is used where none is given.
pub open spec fn default_config() -> StripeConfigView {
    StripeConfigView {
        enabled: false,
        secret_key: Seq::empty(),
        webhook_secret: Seq::empty(),
        server_port: 8082,
        storage_path: "/data/subscriptions.enc"@,
        free_daily_messages: 15,
        premium_price_id: None,
        pro_price_id: None,
        frontend_url: "https://signal-tee-web.vercel.app"@,
    }
}

impl Default for StripeConfig {
    fn default() -> (r: Self)
        ensures
            r@ == default_config(),
    {
        StripeConfig {
            enabled: false,
            secret_key: String::new(),
            webhook_secret: String::new(),
            server_port: default_server_port(),
            storage_path: default_storage_path(),
            free_daily_messages: default_free_daily_messages(),
            premium_price_id: None,
            pro_price_id: None,
            frontend_url: default_frontend_url(),
        }
    }
}

impl Clone for StripeConfig {
    fn clone(&self) -> (r: Self)
        ensures
            r@ == self@,
    {
        StripeConfig {
            enabled: self.enabled,
            secret_key: self.secret_key.clone(),
            webhook_secret: self.webhook_secret.clone(),
            server_port: self.server_port,
            storage_path: self.storage_path.clone(),
            free_daily_messages: self.free_daily_messages,
            premium_price_id: copy_opt(&self.premium_price_id),
            pro_price_id: copy_opt(&self.pro_price_id),
            frontend_url: self.frontend_url.clone(),
        }
    }
}

impl StripeConfigView {
    /// The configured plans, each with its price identifier: Premium, then Pro.
    pub open spec fn plans(self) -> Seq<(Seq<char>, Seq<char>)> {
        let premium = match self.premium_price_id {
            Some(id) => seq![("Premium"@, id)],
            None => Seq::empty(),
        };
        let pro = match self.pro_price_id {
            Some(id) => seq![("Pro"@, id)],
            None => Seq::empty(),
        };
        premium + pro
    }
}

impl StripeConfig {
    /// The configured plans, each with its price identifier.
    pub fn plan_price_ids(&self) -> (r: Vec<(&str, &str)>)
        ensures
            r@.map_values(|p: (&str, &str)| (p.0@, p.1@)) == self@.plans(),
    {
        let mut plans: Vec<(&str, &str)> = Vec::new();
        if let Some(id) = &self.premium_price_id {
            plans.push(("Premium", id.as_str()));
        }
        if let Some(id) = &self.pro_price_id {
            plans.push(("Pro", id.as_str()));
        }
        assert(plans@.map_values(|p: (&str, &str)| (p.0@, p.1@)) =~= self@.plans());
        plans
    }
}

/// A configuration is seen with all that it holds, and a copy of it holds the same.
pub proof fn law_configurations_are_seen_whole(config: &StripeConfig, copy: StripeConfig)
    requires
        call_ensures(StripeConfig::clone, (config,), copy),
    ensures
        config@.enabled == config.enabled && copy.enabled == config.enabled,
        config@.secret_key == config.secret_key@ && copy.secret_key@ == config.secret_key@,
        config@.webhook_secret == config.webhook_secret@ && copy.webhook_secret@
            == config.webhook_secret@,
        config@.server_port == config.server_port && copy.server_port == config.server_port,
        config@.storage_path == config.storage_path@ && copy.storage_path@ == config.storage_path@,
        config@.free_daily_messages == config.free_daily_messages && copy.free_daily_messages
            == config.free_daily_messages,
        config@.premium_price_id == opt_view(config.premium_price_id) && opt_view(
            copy.premium_price_id,
        ) == opt_view(config.premium_price_id),
        config@.pro_price_id == opt_view(config.pro_price_id) && opt_view(copy.pro_price_id)
            == opt_view(config.pro_price_id),
        config@.frontend_url == config.frontend_url@ && copy.frontend_url@ == config.frontend_url@,
{
}

/// What is usual where the configuration names nothing.
pub proof fn law_what_is_usual(port: u16, path: String, messages: u32, frontend: String)
    requires
        call_ensures(default_server_port, (), port),
        call_ensures(default_storage_path, (), path),
        call_ensures(default_free_daily_messages, (), messages),
        call_ensures(default_frontend_url, (), frontend),
    ensures
        port == 8082,
        path@ == "/data/subscriptions.enc"@,
        messages == 15,
        frontend@ == "https://signal-tee-web.vercel.app"@,
{
}

} // verus!
