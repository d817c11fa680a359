//! The configuration of each bot account.
//!
//! It comes from the registration proxy and is kept for a while. Where the proxy has none or does
//! not answer, the defaults stand in.
use vstd::prelude::*;
use vstd::string::*;

use crate::clock::Stopwatch;
use crate::codec::{percent_encoded, url_encode};
use crate::table::Table;
use crate::text::{copy_opt, opt_view, trim_tail, without_tail};

verus! {

/// How long a configuration is kept, in nanoseconds: five minutes.
pub const CACHE_TTL_NANOS: u128 = 300_000_000_000;

/// The configuration of a bot account.
#[derive(Debug)]
pub struct BotConfig {
    pub model: Option<String>,
    pub system_prompt: Option<String>,
}

/// A [`BotConfig`] with its texts as character sequences.
pub struct BotConfigView {
    pub model: Option<Seq<char>>,
    pub system_prompt: Option<Seq<char>>,
}

impl View for BotConfig {
    type V = BotConfigView;

    open spec fn view(&self) -> BotConfigView {
        BotConfigView { model: opt_view(self.model), system_prompt: opt_view(self.system_prompt) }
    }
}

impl Clone for BotConfig {
    fn clone(&self) -> (r: Self)
        ensures
            r@ == self@,
    {
        BotConfig {
            model: copy_opt(&self.model),
            system_prompt: copy_opt(&self.system_prompt),
        }
    }
}

/// What the proxy answered to a request for a configuration.
pub enum ConfigReply {
    /// The configuration.
    Found(BotConfig),
    /// A success that could not be read.
    Unreadable,
    /// No success.
    Refused,
    /// No answer.
    Unreachable,
}

/// Where a configuration comes from.
pub enum ConfigSource {
    /// It is known.
    Cached(BotConfig),
    /// It is to be had from the proxy at the given address.
    Proxy(String),
}

/// The configuration that is known of an account when the one that was fetched, if any, is `age`
/// nanoseconds old.
pub open spec fn served(
    fetched: Map<Seq<char>, BotConfigView>,
    phone_number: Seq<char>,
    age: u128,
) -> Option<BotConfigView> {
    if fetched.contains_key(phone_number) && age < CACHE_TTL_NANOS {
        Some(fetched[phone_number])
    } else {
        None
    }
}

/// A configuration that was fetched is served for five minutes and not after that, and has no
/// effect on other accounts.
pub proof fn law_configurations_are_served_for_a_while(
    fetched: Map<Seq<char>, BotConfigView>,
    phone_number: Seq<char>,
    config: BotConfigView,
    other: Seq<char>,
    age: u128,
)
    requires
        other != phone_number,
    ensures
        served(fetched.insert(phone_number, config), phone_number, age) == (if age
            < 300_000_000_000 {
            Some(config)
        } else {
            None
        }),
        served(fetched.insert(phone_number, config), other, age) == served(fetched, other, age),
{
}

struct CachedConfig {
    config: BotConfig,
    fetched_at: u128,
}

/// Provides the configuration of each bot account.
pub struct BotConfigProvider {
    proxy_url: String,
    cache: Table<CachedConfig>,
    clock: Stopwatch,
    default_model: String,
    default_system_prompt: String,
}

impl BotConfigProvider {
    /// The address of the proxy, without slashes at its end.
    pub closed spec fn proxy(&self) -> Seq<char> {
        self.proxy_url@
    }

    /// The model where no configuration names one.
    pub closed spec fn model_default(&self) -> Seq<char> {
        self.default_model@
    }

    /// The system prompt where no configuration has one.
    pub closed spec fn prompt_default(&self) -> Seq<char> {
        self.default_system_prompt@
    }

    /// The configurations that were fetched.
    pub closed spec fn fetched(&self) -> Map<Seq<char>, BotConfigView> {
        self.cache@.map_values(|c: CachedConfig| c.config@)
    }

    /// When the configurations were fetched, in nanoseconds.
    pub closed spec fn fetched_at(&self) -> Map<Seq<char>, u128> {
        self.cache@.map_values(|c: CachedConfig| c.fetched_at)
    }

    /// The last reading of the clock, in nanoseconds.
    pub closed spec fn reading(&self) -> u128 {
        self.clock.last_reading()
    }

    /// How old the configuration of an account is at `now`, where there is one.
    pub open spec fn age_at(&self, phone_number: Seq<char>, now: u128) -> u128 {
        if self.fetched_at().contains_key(phone_number) && now >= self.fetched_at()[phone_number] {
            (now - self.fetched_at()[phone_number]) as u128
        } else {
            0
        }
    }

    /// The configuration where the proxy gives none.
    pub open spec fn defaults(&self) -> BotConfigView {
        BotConfigView {
            model: Some(self.model_default()),
            system_prompt: Some(self.prompt_default()),
        }
    }

    /// The configuration that an answer of the proxy gives.
    pub open spec fn given(&self, reply: ConfigReply) -> BotConfigView {
        match reply {
            ConfigReply::Found(config) => config@,
            _ => self.defaults(),
        }
    }

    /// The address of a configuration.
    pub open spec fn address(&self, phone_number: Seq<char>) -> Seq<char> {
        self.proxy() + "/v1/bots/"@ + percent_encoded(
            vstd::utf8::encode_utf8(phone_number),
        )
    }

    /// A provider that has fetched nothing yet.
    pub fn new(proxy_url: &str, default_model: &str, default_system_prompt: &str) -> (r: Self)
        ensures
            r.proxy() == without_tail(proxy_url@, '/'),
            r.model_default() == default_model@,
            r.prompt_default() == default_system_prompt@,
            r.fetched() == Map::<Seq<char>, BotConfigView>::empty(),
            r.fetched_at() == Map::<Seq<char>, u128>::empty(),
            r.reading() == 0,
    {
        let r = BotConfigProvider {
            proxy_url: trim_tail(proxy_url, '/'),
            cache: Table::new(),
            clock: Stopwatch::start(),
            default_model: default_model.to_owned(),
            default_system_prompt: default_system_prompt.to_owned(),
        };
        assert(r.fetched() =~= Map::<Seq<char>, BotConfigView>::empty());
        assert(r.fetched_at() =~= Map::<Seq<char>, u128>::empty());
        r
    }

    /// The source is right for an account whose configuration is `age` nanoseconds old.
    pub open spec fn right_source(
        &self,
        source: ConfigSource,
        phone_number: Seq<char>,
        age: u128,
    ) -> bool {
        match source {
            ConfigSource::Cached(config) => served(self.fetched(), phone_number, age) == Some(
                config@,
            ),
            ConfigSource::Proxy(url) => served(self.fetched(), phone_number, age) is None && url@
                == self.address(phone_number),
        }
    }

    /// Where the configuration of an account comes from now.
    pub fn get_config(&mut self, phone_number: &str) -> (r: ConfigSource)
        ensures
            final(self).reading() >= old(self).reading(),
            old(self).right_source(
                r,
                phone_number@,
                old(self).age_at(phone_number@, final(self).reading()),
            ),
            final(self).fetched() == old(self).fetched(),
            final(self).fetched_at() == old(self).fetched_at(),
            final(self).proxy() == old(self).proxy(),
            final(self).model_default() == old(self).model_default(),
            final(self).prompt_default() == old(self).prompt_default(),
    {
        let now = self.clock.elapsed_nanos();
        let age: u128 = match self.cache.get(phone_number) {
            Some(cached) if now >= cached.fetched_at => now - cached.fetched_at,
            _ => 0,
        };
        self.get_config_at_age(phone_number, age)
    }

    /// Where the configuration of an account comes from when the one that was fetched, if any, is
    /// `age` nanoseconds old.
    pub fn get_config_at_age(&self, phone_number: &str, age: u128) -> (r: ConfigSource)
        ensures
            self.right_source(r, phone_number@, age),
    {
        if let Some(cached) = self.cache.get(phone_number) {
            if age < CACHE_TTL_NANOS {
                return ConfigSource::Cached(cached.config.clone());
            }
        }
        let mut url = self.proxy_url.clone();
        url.append("/v1/bots/");
        url.append(url_encode(phone_number).as_str());
        ConfigSource::Proxy(url)
    }

    /// Takes the answer of the proxy for an account, keeps it and returns the configuration.
    pub fn fetch_config(&mut self, phone_number: &str, reply: ConfigReply) -> (r: BotConfig)
        ensures
            r@ == old(self).given(reply),
            final(self).fetched() == old(self).fetched().insert(phone_number@, r@),
            final(self).reading() >= old(self).reading(),
            final(self).fetched_at() == old(self).fetched_at().insert(
                phone_number@,
                final(self).reading(),
            ),
            final(self).proxy() == old(self).proxy(),
            final(self).model_default() == old(self).model_default(),
            final(self).prompt_default() == old(self).prompt_default(),
    {
        let ghost before = *self;
        let config = match reply {
            ConfigReply::Found(config) => config,
            _ => self.default_config(),
        };
        let kept = config.clone();
        let now = self.clock.elapsed_nanos();
        self.cache.insert(
            phone_number.to_owned(),
            CachedConfig { config: kept, fetched_at: now },
        );
        assert(self.fetched() =~= before.fetched().insert(phone_number@, config@));
        assert(self.fetched_at() =~= before.fetched_at().insert(phone_number@, now));
        config
    }

    /// The system prompt of a configuration, or else the default.
    pub fn get_system_prompt(&self, config: &BotConfig) -> (r: String)
        ensures
            r@ == config@.system_prompt.unwrap_or(self.prompt_default()),
    {
        match &config.system_prompt {
            Some(p) => p.clone(),
            None => self.default_system_prompt.clone(),
        }
    }

    /// The model of a configuration, or else the default.
    pub fn get_model(&self, config: &BotConfig) -> (r: String)
        ensures
            r@ == config@.model.unwrap_or(self.model_default()),
    {
        match &config.model {
            Some(m) => m.clone(),
            None => self.default_model.clone(),
        }
    }

    fn default_config(&self) -> (r: BotConfig)
        ensures
            r@ == self.defaults(),
    {
        BotConfig {
            model: Some(self.default_model.clone()),
            system_prompt: Some(self.default_system_prompt.clone()),
        }
    }
}

/// What the proxy says of an account is its configuration; where the proxy says nothing, the model
/// and the system prompt are the usual ones.
pub proof fn law_configurations_come_from_the_proxy(
    provider: &mut BotConfigProvider,
    phone_number: &str,
    reply: ConfigReply,
    r: BotConfig,
)
    requires
        call_ensures(BotConfigProvider::fetch_config, (provider, phone_number, reply), r),
    ensures
        match reply {
            ConfigReply::Found(config) => opt_view(r.model) == opt_view(config.model) && opt_view(
                r.system_prompt,
            ) == opt_view(config.system_prompt),
            _ => opt_view(r.model) == Some(old(provider).model_default()) && opt_view(
                r.system_prompt,
            ) == Some(old(provider).prompt_default()),
        },
{
}

/// A configuration that was fetched for an account is the one that is served to it for five
/// minutes; after that, and for any account of which nothing was fetched, the proxy is asked at
/// the account's own address. Other accounts are served as before.
pub proof fn law_fetched_configurations_are_served(
    provider: &mut BotConfigProvider,
    phone_number: &str,
    reply: ConfigReply,
    config: BotConfig,
    age: u128,
    source: ConfigSource,
    other: &str,
    before: ConfigSource,
    after: ConfigSource,
)
    requires
        call_ensures(BotConfigProvider::get_config_at_age, (&*old(provider), other, age), before),
        call_ensures(BotConfigProvider::fetch_config, (provider, phone_number, reply), config),
        call_ensures(
            BotConfigProvider::get_config_at_age,
            (&*final(provider), phone_number, age),
            source,
        ),
        call_ensures(BotConfigProvider::get_config_at_age, (&*final(provider), other, age), after),
    ensures
        age < 300_000_000_000 ==> (source matches ConfigSource::Cached(served) && opt_view(
            served.model,
        ) == opt_view(config.model) && opt_view(served.system_prompt) == opt_view(
            config.system_prompt,
        )),
        age >= 300_000_000_000 ==> (source matches ConfigSource::Proxy(url) && url@ == old(provider).proxy() + "/v1/bots/"@ + percent_encoded(vstd::utf8::encode_utf8(phone_number@))),
        other@ != phone_number@ ==> match (before, after) {
            (ConfigSource::Cached(a), ConfigSource::Cached(b)) => a@ == b@,
            (ConfigSource::Proxy(a), ConfigSource::Proxy(b)) => a@ == b@,
            _ => false,
        },
{
}

/// A new provider has fetched nothing, asks the proxy without slashes at the end of its address, and
/// stands in with the model and the system prompt that it was given.
pub proof fn law_new_providers_ask_the_proxy(
    proxy_url: &str,
    default_model: &str,
    default_system_prompt: &str,
    provider: BotConfigProvider,
    phone_number: &str,
    age: u128,
    source: ConfigSource,
)
    requires
        call_ensures(
            BotConfigProvider::new,
            (proxy_url, default_model, default_system_prompt),
            provider,
        ),
        call_ensures(
            BotConfigProvider::get_config_at_age,
            (&provider, phone_number, age),
            source,
        ),
    ensures
        provider.model_default() == default_model@,
        provider.prompt_default() == default_system_prompt@,
        source matches ConfigSource::Proxy(url) && url@ == without_tail(proxy_url@, '/')
            + "/v1/bots/"@ + percent_encoded(vstd::utf8::encode_utf8(phone_number@)),
{
}

/// What a configuration leaves open is as usual.
pub proof fn law_configurations_are_completed(
    provider: &BotConfigProvider,
    config: &BotConfig,
    prompt: String,
    model: String,
)
    requires
        call_ensures(BotConfigProvider::get_system_prompt, (provider, config), prompt),
        call_ensures(BotConfigProvider::get_model, (provider, config), model),
    ensures
        config.system_prompt matches Some(own) ==> prompt@ == own@,
        config.system_prompt is None ==> prompt@ == provider.prompt_default(),
        config.model matches Some(own) ==> model@ == own@,
        config.model is None ==> model@ == provider.model_default(),
{
}

/// How old a configuration is goes by the clock since it was fetched.
pub proof fn law_configurations_age(provider: BotConfigProvider, phone_number: Seq<char>, now: u128)
    requires
        provider.fetched_at().contains_key(phone_number),
        now >= provider.fetched_at()[phone_number],
    ensures
        provider.fetched_at()[phone_number] + provider.age_at(phone_number, now) == now,
{
}

/// A configuration is seen with all that it holds, and a copy of it holds the same.
pub proof fn law_bot_configurations_are_seen_whole(config: &BotConfig, copy: BotConfig)
    requires
        call_ensures(BotConfig::clone, (config,), copy),
    ensures
        config@.model == opt_view(config.model) && opt_view(copy.model) == opt_view(config.model),
        config@.system_prompt == opt_view(config.system_prompt) && opt_view(copy.system_prompt)
            == opt_view(config.system_prompt),
{
}

/// What is served now is what was fetched less than five minutes ago; the proxy is asked where there
/// is none of that age.
pub proof fn law_configurations_are_served_now(
    provider: &mut BotConfigProvider,
    phone_number: &str,
    r: ConfigSource,
)
    requires
        call_ensures(BotConfigProvider::get_config, (provider, phone_number), r),
    ensures
        ({
            let number = phone_number@;
            let now = final(provider).reading();
            let kept = old(provider).fetched().contains_key(number);
            let fresh = kept && (!old(provider).fetched_at().contains_key(number) || now
                - old(provider).fetched_at()[number] < 300_000_000_000);
            &&& now >= old(provider).reading()
            &&& r is Cached <==> fresh
            &&& r matches ConfigSource::Cached(config) ==> {
                &&& opt_view(config.model) == old(provider).fetched()[number].model
                &&& opt_view(config.system_prompt) == old(provider).fetched()[number].system_prompt
            }
            &&& r matches ConfigSource::Proxy(url) ==> url@ == old(provider).proxy()
                + "/v1/bots/"@ + percent_encoded(vstd::utf8::encode_utf8(number))
        }),
        final(provider).fetched() == old(provider).fetched(),
        final(provider).fetched_at() == old(provider).fetched_at(),
{
}

} // verus!
