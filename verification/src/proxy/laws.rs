//! What holds of the registration proxy as a whole.
use vstd::prelude::*;
use vstd::utf8::*;

use crate::clock::{rfc3339, Timestamp};
use crate::codec::{base64url, base64url_decoded, json_string, percent_decoded};
use crate::crypto::hmac_sha256;
use crate::proxy::alerts::{
    alert_message, alert_sent, alert_sent_to, alert_target, alert_text, format_alert, icon,
    paragraph, recipient_of, webhook_grafana, GrafanaWebhookPayload, Recipient, WebhookAlertRequest,
    WebhookAlertResponse,
};
use crate::proxy::auth::{
    accept_claims_at, authenticate, extract_bearer_token, law_tokens_are_opened, opened, token_text, Claims, TokenManager,
};
use crate::proxy::error::{ProxyError, ProxyErrorView};
use crate::proxy::handlers::{
    account_adopted, adopt_account, bearer_claims, bot_config_updated, can_show, check_account,
    debug_force_unregister, delete_username, describe, force_unregistered, get_bot_config,
    get_dashboard, get_status, health, link_to, list_accounts, list_bots, login,
    number_unregistered, profile_updated, records_view, registration_verified, set_username,
    unregister, update_bot_config, update_bot_config_jwt, update_profile, username_deleted,
    username_set, verified_records, verify_registration, webhook_alert, webhook_alert_to,
    AccountsResponse, AdoptAccountRequest, AdoptedRecord, BotConfigResponse, BotInfo,
    DashboardResponse, HealthResponse, LoginResponse, OutgoingAlert, ProfileResponse,
    StatusResponse, UnaddressedAlert, UsernameResponse, VerifyResponse,
};
use crate::proxy::middleware::{
    answers, client_ip, rate_limit_middleware, rate_of, RateLimitState,
};
use crate::proxy::registry::{PhoneNumberRecord, RecordView, RegistrationStatus};
use crate::text::{
    after_prefix, decimal_int, digits, first_line, opt_str_view, opt_view, split, trimmed,
};

verus! {

/// The outcome of a request by which the owner of a number acts on it: a number that is none, that
/// is not registered as wanted, or that is not the sender's is refused, in this order; any other
/// is granted.
pub open spec fn for_owners(
    r: Result<String, ProxyError>,
    normalized: Result<String, String>,
    record: Option<&PhoneNumberRecord>,
    wanted: Option<RegistrationStatus>,
    owned: bool,
) -> bool {
    match normalized {
        Err(reason) => r matches Err(e) && e@ == ProxyErrorView::InvalidPhoneNumber(reason@),
        Ok(number) => {
            let registered = match (record, wanted) {
                (None, _) => false,
                (Some(_), None) => true,
                (Some(known), Some(status)) => known.status == status,
            };
            if !registered {
                r matches Err(e) && e@ == ProxyErrorView::NotFound(number@)
            } else if !owned {
                r matches Err(e) && e@ == ProxyErrorView::OwnershipProofMismatch
            } else {
                r matches Ok(n) && n@ == number@
            }
        },
    }
}

/// A pending number is verified by its owner; any number that is known is unregistered by its owner;
/// and only the owner of a registered number changes its profile, its user name and its
/// configuration.
pub proof fn law_owners_act_on_their_numbers(
    normalized: Result<String, String>,
    record: Option<&PhoneNumberRecord>,
    owned: bool,
    verified: Result<String, ProxyError>,
    removed: Result<String, ProxyError>,
    profile: Result<String, ProxyError>,
    named: Result<String, ProxyError>,
    unnamed: Result<String, ProxyError>,
    configured: Result<String, ProxyError>,
)
    requires
        call_ensures(verify_registration, (normalized, record, owned), verified),
        call_ensures(unregister, (normalized, record, owned), removed),
        call_ensures(update_profile, (normalized, record, owned), profile),
        call_ensures(set_username, (normalized, record, owned), named),
        call_ensures(delete_username, (normalized, record, owned), unnamed),
        call_ensures(update_bot_config, (normalized, record, owned), configured),
    ensures
        for_owners(verified, normalized, record, Some(RegistrationStatus::Pending), owned),
        for_owners(removed, normalized, record, None, owned),
        for_owners(profile, normalized, record, Some(RegistrationStatus::Verified), owned),
        for_owners(named, normalized, record, Some(RegistrationStatus::Verified), owned),
        for_owners(unnamed, normalized, record, Some(RegistrationStatus::Verified), owned),
        for_owners(configured, normalized, record, Some(RegistrationStatus::Verified), owned),
{
}

/// Any number can be removed by force, and nothing that is no number.
pub proof fn law_force_needs_a_number(
    normalized: Result<String, String>,
    r: Result<String, ProxyError>,
)
    requires
        call_ensures(debug_force_unregister, (normalized,), r),
    ensures
        match normalized {
            Ok(number) => r matches Ok(n) && n@ == number@,
            Err(reason) => r matches Err(e) && e@ == ProxyErrorView::InvalidPhoneNumber(reason@),
        },
{
}

/// Each change is answered for with the number that it was made to, and with what was done.
pub proof fn law_changes_are_answered_for(
    number: String,
    username: Option<String>,
    username_link: Option<String>,
    verified: VerifyResponse,
    removed: VerifyResponse,
    forced: VerifyResponse,
    adopted: VerifyResponse,
    profile: ProfileResponse,
    named: UsernameResponse,
    unnamed: UsernameResponse,
)
    requires
        call_ensures(registration_verified, (number,), verified),
        call_ensures(number_unregistered, (number,), removed),
        call_ensures(force_unregistered, (number,), forced),
        call_ensures(account_adopted, (number,), adopted),
        call_ensures(profile_updated, (number,), profile),
        call_ensures(username_set, (number, username, username_link), named),
        call_ensures(username_deleted, (number,), unnamed),
    ensures
        verified.phone_number@ == number@ && verified.status@ == "verified"@,
        verified.message@ == "Phone number registered successfully."@,
        removed.phone_number@ == number@ && removed.status@ == "unregistered"@,
        removed.message@ == "Phone number unregistered successfully."@,
        forced.phone_number@ == number@ && forced.status@ == "unregistered"@,
        forced.message@ == "Force unregistered from Signal CLI"@,
        adopted.phone_number@ == number@ && adopted.status@ == "verified"@,
        adopted.message@ == "Account adopted into registry successfully."@,
        profile.phone_number@ == number@ && profile.message@ == "Profile updated successfully."@,
        named.phone_number@ == number@ && named.message@ == "Username set successfully."@,
        opt_view(named.username) == opt_view(username),
        opt_view(named.username_link) == opt_view(username_link),
        unnamed.phone_number@ == number@ && unnamed.message@ == "Username deleted successfully."@,
        unnamed.username is None && unnamed.username_link is None,
{
}

/// The status of a number is that of its record, and an unknown number has none.
pub proof fn law_the_status_is_that_of_the_record(
    normalized: Result<String, String>,
    record: Option<&PhoneNumberRecord>,
    r: Result<StatusResponse, ProxyError>,
)
    requires
        call_ensures(get_status, (normalized, record), r),
    ensures
        match (normalized, record) {
            (Err(reason), _) => r matches Err(e) && e@ == ProxyErrorView::InvalidPhoneNumber(
                reason@,
            ),
            (Ok(number), None) => r matches Err(e) && e@ == ProxyErrorView::NotFound(number@),
            (Ok(_), Some(known)) => r matches Ok(s) && s.phone_number@ == known.phone_number@
                && s.status == known.status && opt_view(s.registered_at) == Some(
                rfc3339(known.registered_at.seconds(), known.registered_at.subsec_nanos()),
            ),
        },
{
}

/// The list of accounts tells of each record, in order.
pub proof fn law_accounts_are_listed(
    records: &Vec<PhoneNumberRecord>,
    r: AccountsResponse,
    i: int,
)
    requires
        call_ensures(list_accounts, (records,), r),
        0 <= i < records@.len(),
    ensures
        r.total == records@.len(),
        r.accounts@.len() == records@.len(),
        r.accounts@[i].phone_number@ == records@[i].phone_number@,
        r.accounts@[i].status == records@[i].status,
        opt_view(r.accounts@[i].model) == opt_view(records@[i].model),
        opt_view(r.accounts@[i].system_prompt) == opt_view(records@[i].system_prompt),
        opt_view(r.accounts@[i].username) == opt_view(records@[i].username),
        r.accounts@[i].registered_at@ == rfc3339(
            records@[i].registered_at.seconds(),
            records@[i].registered_at.subsec_nanos(),
        ),
{
}

/// An account is taken into the registry where it is not registered there yet and Signal has it. The
/// record then holds the request's secret, model and system prompt.
pub proof fn law_accounts_are_adopted(
    normalized: Result<String, String>,
    record: Option<&PhoneNumberRecord>,
    r: Result<String, ProxyError>,
    accounts: &Vec<String>,
    number: String,
    request: AdoptAccountRequest,
    adopted: Result<AdoptedRecord, ProxyError>,
)
    requires
        call_ensures(adopt_account, (normalized, record), r),
        call_ensures(check_account, (accounts, number, request), adopted),
    ensures
        match normalized {
            Err(reason) => r matches Err(e) && e@ == ProxyErrorView::InvalidPhoneNumber(reason@),
            Ok(n) => if record is Some && record->0.status == RegistrationStatus::Verified {
                r matches Err(e) && e@ == ProxyErrorView::AlreadyRegistered(n@)
            } else {
                r matches Ok(m) && m@ == n@
            },
        },
        adopted is Ok <==> exists|i: int|
            0 <= i < accounts@.len() && (#[trigger] accounts@[i])@ == number@,
        adopted matches Ok(a) ==> {
            &&& a.number@ == number@
            &&& opt_view(a.ownership_secret) == opt_view(request.ownership_secret)
            &&& opt_view(a.model) == opt_view(request.model)
            &&& opt_view(a.system_prompt) == opt_view(request.system_prompt)
        },
        adopted matches Err(e) ==> e@ == ProxyErrorView::SignalApi(
            "Account "@ + number@ + " not found in Signal CLI. Register it first."@,
        ),
{
}

/// The configuration of a registered bot is that of its record; no other number has one.
pub proof fn law_configurations_are_those_of_the_record(
    normalized: Result<String, String>,
    record: Option<&PhoneNumberRecord>,
    r: Result<BotConfigResponse, ProxyError>,
    number: String,
    updated: Result<BotConfigResponse, ProxyError>,
)
    requires
        call_ensures(get_bot_config, (normalized, record), r),
        call_ensures(bot_config_updated, (number, record), updated),
    ensures
        match normalized {
            Err(reason) => r matches Err(e) && e@ == ProxyErrorView::InvalidPhoneNumber(reason@),
            Ok(n) => if record is Some && record->0.status == RegistrationStatus::Verified {
                &&& r matches Ok(c)
                &&& c.phone_number@ == record->0.phone_number@
                &&& opt_view(c.model) == opt_view(record->0.model)
                &&& opt_view(c.system_prompt) == opt_view(record->0.system_prompt)
                &&& c.message@ == "Bot configuration retrieved."@
            } else {
                r matches Err(e) && e@ == ProxyErrorView::NotFound(n@)
            },
        },
        match record {
            None => updated matches Err(e) && e@ == ProxyErrorView::NotFound(number@),
            Some(known) => {
                &&& updated matches Ok(c)
                &&& c.phone_number@ == number@
                &&& opt_view(c.model) == opt_view(known.model)
                &&& opt_view(c.system_prompt) == opt_view(known.system_prompt)
                &&& c.message@ == "Bot configuration updated successfully."@
            },
        },
{
}

/// The link to a number on Signal holds the digits of the number and no other of its characters.
pub proof fn law_links_hold_the_digits(number: &str, r: String)
    requires
        call_ensures(link_to, (number,), r),
    ensures
        r@ == "https://signal.me/#p/+"@ + digits(number@),
{
}

/// A bot is described by the first line of its system prompt: whole where it has at most a hundred
/// bytes, and else by its first hundred bytes and an ellipsis.
pub proof fn law_bots_are_described_by_their_first_line(prompt: &Option<String>, r: Option<String>)
    requires
        call_ensures(describe, (prompt,), r),
    ensures
        match *prompt {
            None => r is None,
            Some(p) => match first_line(p@) {
                None => r is None,
                Some(line) => if encode_utf8(line).len() <= 100 {
                    r matches Some(d) && d@ == line
                } else {
                    r matches Some(d) && d@ == decode_utf8(encode_utf8(line).take(100)) + "..."@
                },
            },
        },
{
}

/// The bots are the registered ones of the records, all of them and in their order.
pub proof fn law_bots_are_the_registered_ones(
    records: &Vec<PhoneNumberRecord>,
    r: Vec<PhoneNumberRecord>,
    i: int,
)
    requires
        call_ensures(verified_records, (records,), r),
    ensures
        0 <= i < r@.len() ==> r@[i].status == RegistrationStatus::Verified && exists|j: int|
            0 <= j < records@.len() && r@[i]@ == (#[trigger] records@[j])@,
        0 <= i < records@.len() && records@[i].status == RegistrationStatus::Verified ==> exists|
            j: int,
        |
            0 <= j < r@.len() && (#[trigger] r@[j])@ == records@[i]@,
{
    let all = records_view(records@);
    let verified = |v: RecordView| v.status == RegistrationStatus::Verified;
    let kept = all.filter(verified);
    lemma_kept_and_only_those(all);
    assert(kept.len() == r@.len());
    if 0 <= i < r@.len() {
        assert(kept[i] == r@[i]@);
        assert(kept.contains(kept[i]));
        let j = choose|j: int| 0 <= j < all.len() && #[trigger] all[j] == kept[i];
        assert(records@[j]@ == kept[i]);
    }
    if 0 <= i < records@.len() && records@[i].status == RegistrationStatus::Verified {
        assert(all[i] == records@[i]@);
        assert(all.contains(all[i]));
        let j = choose|j: int| 0 <= j < kept.len() && #[trigger] kept[j] == all[i];
        assert(r@[j]@ == kept[j]);
    }
}

proof fn lemma_kept_and_only_those(all: Seq<RecordView>)
    ensures
        ({
            let kept = all.filter(|v: RecordView| v.status == RegistrationStatus::Verified);
            &&& forall|i: int|
                0 <= i < kept.len() ==> (#[trigger] kept[i]).status == RegistrationStatus::Verified
                    && all.contains(kept[i])
            &&& forall|i: int|
                0 <= i < all.len() && (#[trigger] all[i]).status == RegistrationStatus::Verified
                    ==> kept.contains(all[i])
        }),
    decreases all.len(),
{
    reveal(Seq::filter);
    let verified = |v: RecordView| v.status == RegistrationStatus::Verified;
    let kept = all.filter(verified);
    if all.len() > 0 {
        let init = all.drop_last();
        let before = init.filter(verified);
        lemma_kept_and_only_those(init);
        assert forall|i: int| 0 <= i < kept.len() implies (#[trigger] kept[i]).status
            == RegistrationStatus::Verified && all.contains(kept[i]) by {
            if i < before.len() {
                assert(before[i] == kept[i]);
                let k = choose|k: int| 0 <= k < init.len() && init[k] == before[i];
                assert(all[k] == kept[i]);
            } else {
                assert(all[all.len() - 1] == kept[i]);
            }
        }
        assert forall|i: int| 0 <= i < all.len() && (#[trigger] all[i]).status
            == RegistrationStatus::Verified implies kept.contains(all[i]) by {
            if i < init.len() {
                assert(init[i] == all[i]);
                let k = choose|k: int| 0 <= k < before.len() && before[k] == init[i];
                assert(kept[k] == all[i]);
            } else {
                assert(kept[kept.len() - 1] == all[i]);
            }
        }
    }
}

/// Each bot of the list is told with what its record says: under its user name, or under its number
/// where it has none, with the link to its number and the safety number that Signal tells.
pub proof fn law_bots_are_listed_with_their_record(
    records: &Vec<PhoneNumberRecord>,
    identity_keys: &Vec<Option<String>>,
    r: Vec<BotInfo>,
    i: int,
)
    requires
        call_ensures(list_bots, (records, identity_keys), r),
        0 <= i < records@.len(),
        identity_keys@.len() == records@.len(),
    ensures
        r@.len() == records@.len(),
        r@[i].phone_number@ == records@[i].phone_number@,
        r@[i].username@ == (match records@[i].username {
            Some(name) => name@,
            None => records@[i].phone_number@,
        }),
        r@[i].signal_link@ == "https://signal.me/#p/+"@ + digits(records@[i].phone_number@),
        r@[i].registered_at@ == rfc3339(
            records@[i].registered_at.seconds(),
            records@[i].registered_at.subsec_nanos(),
        ),
        opt_view(r@[i].model) == opt_view(records@[i].model),
        opt_view(r@[i].system_prompt) == opt_view(records@[i].system_prompt),
        opt_view(r@[i].identity_key) == opt_view(identity_keys@[i]),
        r@[i].description is Some <==> (records@[i].system_prompt matches Some(p) && p@.len() > 0),
        r@[i].description matches Some(d) ==> {
            let line = first_line(records@[i].system_prompt->0@)->0;
            d@ == (if encode_utf8(line).len() <= 100 {
                line
            } else {
                decode_utf8(encode_utf8(line).take(100)) + "..."@
            })
        },
{
}

/// The payload of a token for a number that is issued at a time: the number, a day later, and the
/// time.
pub open spec fn payload_for(number: Seq<char>, issued: int) -> Seq<u8> {
    encode_utf8(
        "{\"sub\":"@ + json_string(number) + ",\"exp\":"@ + decimal_int(issued + 86_400)
            + ",\"iat\":"@ + decimal_int(issued) + "}"@,
    )
}

/// A token is its header, its payload and their authentication code under the key, in base64url and
/// with dots between. Under that key it opens to that payload.
pub proof fn law_tokens_are_issued(
    manager: &TokenManager,
    phone_number: &str,
    now: Timestamp,
    r: Result<String, ProxyError>,
    token: &str,
    opened: Result<Vec<u8>, ProxyError>,
)
    requires
        call_ensures(TokenManager::create_token_at, (manager, phone_number, now), r),
        r is Ok ==> token@ == r->Ok_0@,
        call_ensures(TokenManager::open_token, (manager, token), opened),
    ensures
        r is Ok,
        ({
            let first = base64url(encode_utf8("{\"alg\":\"HS256\",\"typ\":\"JWT\"}"@)) + "."@
                + base64url(payload_for(phone_number@, now.seconds()));
            r->Ok_0@ == first + "."@ + base64url(hmac_sha256(manager.key(), encode_utf8(first)))
        }),
        opened matches Ok(payload) && payload@ == payload_for(phone_number@, now.seconds()),
{
    law_tokens_are_opened(manager.key(), payload_for(phone_number@, now.seconds()));
}

/// A token opens exactly where it has three parts, the third is the authentication code of the first
/// two under the key, and the second is base64url; what it opens to is the second part.
pub proof fn law_tokens_open_under_their_key(
    manager: &TokenManager,
    token: &str,
    r: Result<Vec<u8>, ProxyError>,
)
    requires
        call_ensures(TokenManager::open_token, (manager, token), r),
    ensures
        ({
            let parts = split(token@, '.');
            &&& r is Ok <==> parts.len() == 3 && base64url_decoded(parts[2]) == Some(
                hmac_sha256(manager.key(), encode_utf8(parts[0] + "."@ + parts[1])),
            ) && base64url_decoded(parts[1]) is Some
            &&& r matches Ok(payload) ==> base64url_decoded(parts[1]) == Some(payload@)
            &&& r matches Err(e) ==> e@ is Unauthorized
        }),
{
}

/// Claims are accepted up to and including the second at which they expire, and come out as they
/// were; claims that are none are not accepted.
pub proof fn law_claims_are_accepted_until_they_expire(
    claims: Option<Claims>,
    now: Timestamp,
    r: Result<Claims, ProxyError>,
)
    requires
        call_ensures(accept_claims_at, (claims, now), r),
    ensures
        match claims {
            None => r matches Err(e) && e@ == ProxyErrorView::Unauthorized("Invalid token claims"@),
            Some(c) => if now.seconds() <= c.exp {
                r matches Ok(d) && d.sub@ == c.sub@ && d.exp == c.exp && d.iat == c.iat
            } else {
                r matches Err(e) && e@ == ProxyErrorView::Unauthorized("Token expired"@)
            },
        },
{
}

/// Whoever has proved to own a number that is registered is logged in with a token for that number,
/// which is good for a day; nobody else is.
pub proof fn law_owners_are_logged_in(
    normalized: Result<String, String>,
    owned: Option<bool>,
    manager: &TokenManager,
    r: Result<LoginResponse, ProxyError>,
)
    requires
        call_ensures(login, (normalized, owned, manager), r),
    ensures
        match (normalized, owned) {
            (Err(reason), _) => r matches Err(e) && e@ == ProxyErrorView::InvalidPhoneNumber(
                reason@,
            ),
            (Ok(number), None) => r matches Err(e) && e@ == ProxyErrorView::NotFound(number@),
            (Ok(_), Some(false)) => r matches Err(e) && e@
                == ProxyErrorView::OwnershipProofMismatch,
            (Ok(number), Some(true)) => {
                &&& r matches Ok(answer)
                &&& answer.phone_number@ == number@
                &&& exists|now: Timestamp, then: Timestamp|
                    {
                        &&& now.valid()
                        &&& then.valid()
                        &&& opened(manager.key(), answer.token@) == Ok::<Seq<u8>, ProxyErrorView>(
                            payload_for(number@, #[trigger] now.seconds()),
                        )
                        &&& answer.expires_at == #[trigger] then.seconds() + 86_400
                    }
            },
        },
{
    if normalized is Ok && owned == Some(true) {
        let number = normalized->Ok_0@;
        let (now, then) = choose|now: Timestamp, then: Timestamp|
            {
                &&& now.valid()
                &&& then.valid()
                &&& r matches Ok(answer)
                &&& answer.phone_number@ == number
                &&& answer.token@ == token_text(
                    manager.key(),
                    payload_for(number, #[trigger] now.seconds()),
                )
                &&& answer.expires_at == #[trigger] then.seconds() + 86_400
            };
        law_tokens_are_opened(manager.key(), payload_for(number, now.seconds()));
    }
}

/// A request without an `Authorization` header, or with one that does not say "Bearer", bears no
/// claims, and neither does one whose token does not open; any other bears what is read from the
/// token, unless that has expired.
pub proof fn law_requests_bear_the_claims_of_their_token<F: Fn(Vec<u8>) -> Option<Claims>>(
    header: Option<&str>,
    manager: &TokenManager,
    read: F,
    r: Result<Claims, ProxyError>,
)
    requires
        call_ensures(bearer_claims::<F>, (header, manager, read), r),
    ensures
        match header {
            None => r matches Err(e) && e@ == ProxyErrorView::Unauthorized(
                "Missing Authorization header"@,
            ),
            Some(text) => match after_prefix(text@, "Bearer "@) {
                None => r matches Err(e) && e@ == ProxyErrorView::Unauthorized(
                    "Invalid Authorization header"@,
                ),
                Some(token) => match opened(manager.key(), token) {
                    Err(refusal) => r matches Err(e) && e@ == refusal,
                    Ok(bytes) => exists|payload: Vec<u8>, claims: Option<Claims>, now: Timestamp|
                        {
                            &&& payload@ == bytes
                            &&& now.valid()
                            &&& #[trigger] call_ensures(read, (payload,), claims)
                            &&& match claims {
                                None => r is Err,
                                Some(c) => if #[trigger] now.seconds() <= c.exp {
                                    r matches Ok(d) && d@ == c@
                                } else {
                                    r is Err
                                },
                            }
                        },
                },
            },
        },
{
}

/// The outcome of a request that is made with a token: it is refused for what is no number, for the
/// reason for which there are no claims, and for claims of another number, in this order.
pub open spec fn token_refusal(
    normalized: Result<String, String>,
    claims: Result<Claims, ProxyError>,
    mismatch: Seq<char>,
) -> Option<ProxyErrorView> {
    match (normalized, claims) {
        (Err(reason), _) => Some(ProxyErrorView::InvalidPhoneNumber(reason@)),
        (Ok(_), Err(e)) => Some(e@),
        (Ok(number), Ok(c)) => if c.sub@ == number@ {
            None
        } else {
            Some(ProxyErrorView::Unauthorized(mismatch))
        },
    }
}

/// The dashboard shows a number's record to whoever bears a token for the number, with a link to it
/// once it is registered.
pub proof fn law_the_dashboard_is_the_owners(
    normalized: Result<String, String>,
    claims: Result<Claims, ProxyError>,
    record: Option<&PhoneNumberRecord>,
    r: Result<DashboardResponse, ProxyError>,
)
    requires
        call_ensures(get_dashboard, (normalized, claims, record), r),
    ensures
        match token_refusal(normalized, claims, "Token does not match requested account"@) {
            Some(refusal) => r matches Err(e) && e@ == refusal,
            None => match record {
                None => r matches Err(e) && e@ == ProxyErrorView::NotFound(normalized->Ok_0@),
                Some(known) => {
                    &&& r matches Ok(d)
                    &&& d.phone_number@ == normalized->Ok_0@
                    &&& d.status == known.status
                    &&& d.registered_at@ == rfc3339(
                        known.registered_at.seconds(),
                        known.registered_at.subsec_nanos(),
                    )
                    &&& opt_view(d.model) == opt_view(known.model)
                    &&& opt_view(d.system_prompt) == opt_view(known.system_prompt)
                    &&& opt_view(d.username) == opt_view(known.username)
                    &&& d.signal_link is Some <==> known.status == RegistrationStatus::Verified
                    &&& d.signal_link matches Some(link) ==> link@ == "https://signal.me/#p/+"@
                        + digits(normalized->Ok_0@)
                },
            },
        },
{
}

/// With a token for a registered number, and not otherwise, its configuration is changed and alerts
/// are sent from it: to the number itself, or to the recipient that is named.
pub proof fn law_tokens_let_bots_act(
    normalized: Result<String, String>,
    claims: Result<Claims, ProxyError>,
    record: Option<&PhoneNumberRecord>,
    recipient: &str,
    request: &WebhookAlertRequest,
    configured: Result<String, ProxyError>,
    own: Result<OutgoingAlert, ProxyError>,
    other: Result<UnaddressedAlert, ProxyError>,
)
    requires
        call_ensures(update_bot_config_jwt, (normalized, claims, record), configured),
        call_ensures(webhook_alert, (normalized, claims, record, request), own),
        call_ensures(webhook_alert_to, (normalized, claims, record, recipient, request), other),
    ensures
        match token_refusal(normalized, claims, "Token does not match requested account"@) {
            Some(refusal) => configured matches Err(e) && e@ == refusal,
            None => if record is Some && record->0.status == RegistrationStatus::Verified {
                configured matches Ok(n) && n@ == normalized->Ok_0@
            } else {
                configured matches Err(e) && e@ == ProxyErrorView::NotFound(normalized->Ok_0@)
            },
        },
        match token_refusal(normalized, claims, "Token does not match target number"@) {
            Some(refusal) => own matches Err(e) && e@ == refusal,
            None => if record is Some && record->0.status == RegistrationStatus::Verified {
                own matches Ok(out) && out.from@ == normalized->Ok_0@ && out.to@
                    == normalized->Ok_0@ && out.text@ == alert_reads(request)
            } else {
                own matches Err(e) && e@ == ProxyErrorView::NotFound(normalized->Ok_0@)
            },
        },
        match token_refusal(normalized, claims, "Token does not match sender number"@) {
            Some(refusal) => other matches Err(e) && e@ == refusal,
            None => if record is Some && record->0.status == RegistrationStatus::Verified {
                other matches Ok(out) && out.from@ == normalized->Ok_0@ && out.text@ == alert_reads(request) && (
                match out.recipient {
                    Recipient::Group(id) => id@ == recipient@,
                    Recipient::Number(_) => true,
                })
            } else {
                other matches Err(e) && e@ == ProxyErrorView::NotFound(normalized->Ok_0@)
            },
        },
{
    lemma_alert_reads(request);
}

/// How an alert reads: a sign for its severity, its title, its source if it has one, and then its
/// body and its address, each in a paragraph of its own where there is one.
pub open spec fn alert_reads(alert: &WebhookAlertRequest) -> Seq<char> {
    let severity = match alert.severity {
        Some(s) => s@,
        None => "info"@,
    };
    let sign = if severity == "critical"@ || severity == "error"@ {
        "🔴"@
    } else if severity == "warning"@ || severity == "warn"@ {
        "🟡"@
    } else if severity == "ok"@ || severity == "resolved"@ {
        "🟢"@
    } else {
        "🔵"@
    };
    let title = sign + " **"@ + alert.title@ + "**"@;
    let sourced = match alert.source {
        Some(source) => title + " ("@ + source@ + ")"@,
        None => title,
    };
    let bodied = match alert.body {
        Some(body) if body@.len() > 0 => sourced + ("\n\n"@ + body@),
        _ => sourced,
    };
    match alert.url {
        Some(url) if url@.len() > 0 => bodied + ("\n\n"@ + url@),
        _ => bodied,
    }
}

/// An alert is formatted as it reads.
pub proof fn law_alerts_read_as_they_are_told(alert: &WebhookAlertRequest, r: String)
    requires
        call_ensures(alert_message, (alert,), r),
    ensures
        r@ == alert_reads(alert),
{
    lemma_alert_reads(alert);
}

proof fn lemma_alert_reads(alert: &WebhookAlertRequest)
    ensures
        alert_text(alert@) == alert_reads(alert),
{
    let head = icon(alert@.severity.unwrap_or("info"@)) + " **"@ + alert@.title + "**"@;
    let from = match alert@.source {
        Some(source) => head + " ("@ + source + ")"@,
        None => head,
    };
    let bodied = from + paragraph(alert@.body);
    assert(from + Seq::<char>::empty() =~= from);
    assert(bodied + Seq::<char>::empty() =~= bodied);
}

/// Grafana's alerts are titled by their rule, or else by their title; they are critical while they
/// alert, warnings while they are pending and fine once they are over; and their body and address
/// are Grafana's.
pub proof fn law_grafana_is_understood(payload: GrafanaWebhookPayload, r: WebhookAlertRequest)
    requires
        call_ensures(webhook_grafana, (payload,), r),
    ensures
        r.title@ == (match (payload.rule_name, payload.title) {
            (Some(name), _) => name@,
            (None, Some(title)) => title@,
            (None, None) => "Grafana Alert"@,
        }),
        opt_view(r.body) == opt_view(payload.message),
        opt_view(r.url) == opt_view(payload.rule_url),
        opt_view(r.source) == Some("Grafana"@),
        payload.state is None <==> r.severity is None,
        payload.state matches Some(state) ==> {
            let severity = r.severity->0@;
            &&& state@ == "alerting"@ ==> severity == "critical"@
            &&& state@ == "ok"@ || state@ == "resolved"@ ==> severity == "ok"@
            &&& state@ == "pending"@ ==> severity == "warning"@
            &&& state@ != "alerting"@ && state@ != "ok"@ && state@ != "resolved"@ && state@
                != "pending"@ ==> severity == "info"@
        },
{
    reveal_strlit("alerting");
    reveal_strlit("ok");
    reveal_strlit("resolved");
    reveal_strlit("pending");
    assert("alerting"@[0] == 'a' && "ok"@[0] == 'o' && "resolved"@[0] == 'r' && "pending"@[0]
        == 'p');
}

/// A recipient that begins with a plus sign, as it is or encoded, is a number, and is decoded where
/// that gives a text; any other is a group. A number is sent to in its normal form, or as it is
/// where it has none; a group is sent to under its own name.
pub proof fn law_recipients_are_numbers_or_groups(
    recipient: &str,
    r: Recipient,
    normalized: Option<String>,
    target: String,
)
    requires
        call_ensures(recipient_of, (recipient,), r),
        call_ensures(alert_target, (r, normalized), target),
    ensures
        r is Number <==> "+"@.is_prefix_of(recipient@) || "%2B"@.is_prefix_of(recipient@),
        r matches Recipient::Group(id) ==> id@ == recipient@ && target@ == recipient@,
        r matches Recipient::Number(text) ==> {
            let bytes = percent_decoded(encode_utf8(recipient@));
            &&& valid_utf8(bytes) ==> text@ == decode_utf8(bytes)
            &&& !valid_utf8(bytes) ==> text@ == recipient@
            &&& normalized matches Some(number) ==> target@ == number@
            &&& normalized is None ==> target@ == text@
        },
{
}

/// An alert that is addressed keeps its sender and its text, and goes to its recipient.
pub proof fn law_addressed_alerts_go_to_their_recipient(
    alert: UnaddressedAlert,
    normalized: Option<String>,
    r: OutgoingAlert,
)
    requires
        call_ensures(UnaddressedAlert::addressed, (alert, normalized), r),
    ensures
        r.from@ == alert.from@,
        r.text@ == alert.text@,
        match (alert.recipient, normalized) {
            (Recipient::Group(id), _) => r.to@ == id@,
            (Recipient::Number(_), Some(number)) => r.to@ == number@,
            (Recipient::Number(text), None) => r.to@ == text@,
        },
{
}

/// An alert is answered for with where it went.
pub proof fn law_alerts_are_answered_for(
    target: &str,
    own: WebhookAlertResponse,
    other: WebhookAlertResponse,
    count: usize,
    healthy: bool,
    state: HealthResponse,
)
    requires
        call_ensures(alert_sent, (), own),
        call_ensures(alert_sent_to, (target,), other),
        call_ensures(health, (count, healthy), state),
    ensures
        own.status@ == "sent"@ && own.message@ == "Alert delivered via Signal"@,
        other.status@ == "sent"@ && other.message@ == "Alert delivered to "@ + target@,
        state.status@ == "ok"@,
        state.registry_count == count,
        state.signal_api_healthy == healthy,
{
}

/// A request comes from the first address that it was forwarded for, without the white space around
/// it, or else from the address of its connection.
pub proof fn law_where_a_request_comes_from(
    forwarded: Option<&str>,
    connection: Option<&str>,
    r: String,
)
    requires
        call_ensures(client_ip, (forwarded, connection), r),
    ensures
        match (forwarded, connection) {
            (Some(header), _) => r@ == trimmed(split(header@, ',')[0]),
            (None, Some(address)) => r@ == address@,
            (None, None) => r@ == "unknown"@,
        },
{
}

/// The requests of an address that were counted in its open window at `now`.
pub open spec fn made_in_window(state: RateLimitState, ip: Seq<char>, now: u128) -> int {
    if state.buckets().contains_key(ip) && now - state.buckets()[ip].window_start
        < 60_000_000_000 {
        state.buckets()[ip].count as int
    } else {
        0
    }
}

/// A request of an address is let through exactly where fewer requests than the limit were made in
/// its window, which is a minute long. It is counted either way, and counts for no other address.
pub proof fn law_addresses_are_limited(
    state: &mut RateLimitState,
    ip: &str,
    now: u128,
    r: bool,
    other: Seq<char>,
    later: u128,
)
    requires
        call_ensures(RateLimitState::check_ip_at, (state, ip, now), r),
    ensures
        ({
            let made = made_in_window(*old(state), ip@, now);
            &&& r <==> made < old(state).limit()
            &&& made < u32::MAX ==> made_in_window(*final(state), ip@, now) == made + 1
            &&& made >= u32::MAX ==> made_in_window(*final(state), ip@, now) == made
            &&& made == 0 && !(old(state).buckets().contains_key(ip@) && now
                - old(state).buckets()[ip@].window_start < 60_000_000_000)
                ==> final(state).buckets()[ip@].window_start == now
        }),
        other != ip@ ==> made_in_window(*final(state), other, later) == made_in_window(
            *old(state),
            other,
            later,
        ),
        final(state).limit() == old(state).limit(),
        final(state).global() == old(state).global(),
{
}

/// Where no rate is given, ten requests a minute are let through together; an address has as many as
/// the rate says, and five at least.
pub proof fn law_rates_have_their_least(
    requests_per_minute: u32,
    state: RateLimitState,
    permissive: RateLimitState,
    ip: Seq<char>,
    now: u128,
)
    requires
        call_ensures(RateLimitState::new, (requests_per_minute,), state),
        call_ensures(RateLimitState::permissive, (), permissive),
    ensures
        requests_per_minute == 0 ==> rate_of(state.global()) == 10,
        requests_per_minute > 0 ==> rate_of(state.global()) == requests_per_minute,
        requests_per_minute < 5 ==> state.limit() == 5,
        requests_per_minute >= 5 ==> state.limit() == requests_per_minute,
        rate_of(permissive.global()) == 1000,
        permissive.limit() == 1000,
        answers(state.global()).len() == 0,
        made_in_window(state, ip, now) == 0,
{
}

/// A request passes where the limit for all requests together lets it through and that of its
/// address does; where the first stops it, it is not counted.
pub proof fn law_requests_pass_both_limits(
    state: &mut RateLimitState,
    global: bool,
    ip: &str,
    now: u128,
    r: Result<(), ProxyError>,
)
    requires
        call_ensures(RateLimitState::admit_at, (state, global, ip, now), r),
    ensures
        r is Ok <==> global && made_in_window(*old(state), ip@, now) < old(state).limit(),
        r matches Err(e) ==> e@ == ProxyErrorView::RateLimitExceeded,
        !global ==> final(state).buckets() == old(state).buckets(),
        global && made_in_window(*old(state), ip@, now) < u32::MAX ==> made_in_window(
            *final(state),
            ip@,
            now,
        ) == made_in_window(*old(state), ip@, now) + 1,
{
}

/// What the proxy does with a request now: it asks the common limit once, and goes by its answer and
/// by the address that the request comes from.
pub proof fn law_requests_are_admitted_now(
    state: &mut RateLimitState,
    forwarded: Option<&str>,
    connection: Option<&str>,
    r: Result<(), ProxyError>,
    ip: String,
)
    requires
        call_ensures(client_ip, (forwarded, connection), ip),
        call_ensures(rate_limit_middleware, (state, forwarded, connection), r),
    ensures
        ({
            let now = final(state).reading();
            let global = answers(final(state).global()).last();
            &&& now >= old(state).reading()
            &&& answers(final(state).global()).len() == answers(old(state).global()).len() + 1
            &&& answers(old(state).global()).len() < rate_of(old(state).global()) ==> global
            &&& r is Ok <==> global && made_in_window(*old(state), ip@, now) < old(state).limit()
            &&& !global ==> final(state).buckets() == old(state).buckets()
        }),
        r matches Err(e) ==> e@ == ProxyErrorView::RateLimitExceeded,
{
}

/// A request of an address is judged and counted at the time that the clock shows, which does not go
/// back.
pub proof fn law_addresses_are_limited_now(state: &mut RateLimitState, ip: &str, r: bool)
    requires
        call_ensures(RateLimitState::check_ip, (state, ip), r),
    ensures
        ({
            let now = final(state).reading();
            let made = made_in_window(*old(state), ip@, now);
            &&& now >= old(state).reading()
            &&& r <==> made < old(state).limit()
            &&& made < u32::MAX ==> made_in_window(*final(state), ip@, now) == made + 1
        }),
        final(state).limit() == old(state).limit(),
{
}

/// The common limit lets as many requests through from the start as there may be in a minute, and
/// what it says is remembered.
pub proof fn law_the_common_limit_is_asked_once(
    state: &mut RateLimitState,
    r: Result<(), ProxyError>,
    ip: &str,
    requests: u32,
)
    requires
        call_ensures(RateLimitState::check_global, (state,), r),
        call_ensures(RateLimitState::requests_from, (&*final(state), ip), requests),
    ensures
        answers(old(state).global()).len() < rate_of(old(state).global()) ==> r is Ok,
        answers(final(state).global()) == answers(old(state).global()).push(r is Ok),
        rate_of(final(state).global()) == rate_of(old(state).global()),
        r matches Err(e) ==> e@ == ProxyErrorView::RateLimitExceeded,
        final(state).buckets() == old(state).buckets(),
        old(state).buckets().contains_key(ip@) ==> requests == old(state).buckets()[ip@].count,
        !old(state).buckets().contains_key(ip@) ==> requests == 0,
{
}

/// A token that is issued now is for the number, and opens under the manager's key.
pub proof fn law_tokens_are_issued_now(
    key: [u8; 32],
    manager: TokenManager,
    phone_number: &str,
    r: Result<String, ProxyError>,
)
    requires
        call_ensures(TokenManager::new, (key,), manager),
        call_ensures(TokenManager::create_token, (&manager, phone_number), r),
    ensures
        r is Ok,
        exists|now: Timestamp|
            now.valid() && opened(key@, r->Ok_0@) == Ok::<Seq<u8>, ProxyErrorView>(
                payload_for(phone_number@, #[trigger] now.seconds()),
            ),
{
    let now = choose|now: Timestamp|
        {
            &&& now.valid()
            &&& r matches Ok(token)
            &&& token@ == token_text(
                manager.key(),
                payload_for(phone_number@, #[trigger] now.seconds()),
            )
        };
    law_tokens_are_opened(key@, payload_for(phone_number@, now.seconds()));
}

/// An alert of single parts reads as one of those parts does.
pub proof fn law_parts_of_alerts_read_as_the_alert(
    alert: &WebhookAlertRequest,
    title: &str,
    body: Option<&str>,
    severity: Option<&str>,
    source: Option<&str>,
    url: Option<&str>,
    r: String,
)
    requires
        call_ensures(format_alert, (title, body, severity, source, url), r),
        title@ == alert.title@,
        opt_str_view(body) == opt_view(alert.body),
        opt_str_view(severity) == opt_view(alert.severity),
        opt_str_view(source) == opt_view(alert.source),
        opt_str_view(url) == opt_view(alert.url),
    ensures
        r@ == alert_reads(alert),
{
    lemma_alert_reads(alert);
}

/// The first line of a system prompt can be shown where it has at most a hundred bytes, or where a
/// character ends with the hundredth.
pub proof fn law_what_can_be_shown(prompt: &Option<String>, r: bool)
    requires
        call_ensures(can_show, (prompt,), r),
    ensures
        r <==> match *prompt {
            None => true,
            Some(p) => match first_line(p@) {
                None => true,
                Some(line) => encode_utf8(line).len() <= 100 || is_char_boundary(
                    encode_utf8(line),
                    100,
                ),
            },
        },
{
}

/// Whoever has proved to own a number gets a token for it that opens under the manager's key, and is
/// told when it expires; nobody else gets one.
pub proof fn law_owners_get_a_token(
    phone_number: &str,
    owned: Option<bool>,
    manager: &TokenManager,
    r: Result<(String, i64), ProxyError>,
)
    requires
        call_ensures(authenticate, (phone_number, owned, manager), r),
    ensures
        owned is None ==> (r matches Err(e) && e@ == ProxyErrorView::NotFound(phone_number@)),
        owned == Some(false) ==> (r matches Err(e) && e@
            == ProxyErrorView::OwnershipProofMismatch),
        owned == Some(true) ==> r is Ok && exists|now: Timestamp, then: Timestamp|
            {
                &&& now.valid()
                &&& then.valid()
                &&& opened(manager.key(), r->Ok_0.0@) == Ok::<Seq<u8>, ProxyErrorView>(
                    payload_for(phone_number@, #[trigger] now.seconds()),
                )
                &&& r->Ok_0.1 == #[trigger] then.seconds() + 86_400
            },
{
    if owned == Some(true) {
        let (now, then) = choose|now: Timestamp, then: Timestamp|
            {
                &&& now.valid()
                &&& then.valid()
                &&& r matches Ok(answer)
                &&& answer.0@ == token_text(
                    manager.key(),
                    payload_for(phone_number@, #[trigger] now.seconds()),
                )
                &&& answer.1 == #[trigger] then.seconds() + 86_400
            };
        law_tokens_are_opened(manager.key(), payload_for(phone_number@, now.seconds()));
    }
}

/// A token gives the claims that are read from it, where it opens under the manager's key and the
/// claims have not expired.
pub proof fn law_tokens_give_their_claims<F: Fn(Vec<u8>) -> Option<Claims>>(
    manager: &TokenManager,
    token: &str,
    read: F,
    r: Result<Claims, ProxyError>,
    header: &str,
    borne: Result<Claims, ProxyError>,
)
    requires
        call_ensures(TokenManager::verify_token::<F>, (manager, token, read), r),
        call_ensures(extract_bearer_token::<F>, (header, manager, read), borne),
    ensures
        match opened(manager.key(), token@) {
            Err(refusal) => r matches Err(e) && e@ == refusal,
            Ok(bytes) => exists|payload: Vec<u8>, claims: Option<Claims>, now: Timestamp|
                {
                    &&& payload@ == bytes
                    &&& now.valid()
                    &&& #[trigger] call_ensures(read, (payload,), claims)
                    &&& match claims {
                        None => r is Err,
                        Some(c) => if #[trigger] now.seconds() <= c.exp {
                            r matches Ok(d) && d@ == c@
                        } else {
                            r is Err
                        },
                    }
                },
        },
        after_prefix(header@, "Bearer "@) is None ==> (borne matches Err(e) && e@
            == ProxyErrorView::Unauthorized("Invalid Authorization header"@)),
        borne is Ok ==> (after_prefix(header@, "Bearer "@) matches Some(t) && opened(
            manager.key(),
            t,
        ) is Ok),
{
}

} // verus!
