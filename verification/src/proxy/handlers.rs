//! The requests to the proxy: which are granted, and how they are answered.
//!
//! The registry, its storage and Signal are outside of this crate. A handler here says whether the
//! request is granted; once the work is done, a response says so.
use vstd::prelude::*;
use vstd::string::*;
use vstd::utf8::*;

use crate::clock::{rfc3339, Timestamp};
use crate::proxy::alerts::{
    alert_message, alert_target, alert_text, recipient_of, stands_for, target_of, Recipient,
    WebhookAlertRequest,
};
use crate::proxy::auth::{
    authenticate, bearer_token, claims_at, claims_json, claims_result, claims_verdict, claims_view,
    extract_bearer_token, opened, token_text, Claims, ClaimsView, TokenManager, TOKEN_LIFETIME,
};
use crate::proxy::error::{not_found, unauthorized, ProxyError, ProxyErrorView};
use crate::proxy::registry::{
    check_owner, named_number, normal_number, number_result, owned_number, record_view,
    PhoneNumberRecord, RecordView, RegistrationStatus,
};
use crate::text::{
    copy_opt, digits, digits_of, first_line, first_line_of, opt_view, same,
};

verus! {

/// How the proxy is.
#[derive(Debug)]
pub struct HealthResponse {
    pub status: String,
    pub registry_count: usize,
    pub signal_api_healthy: bool,
}

/// How the proxy is.
pub fn health(registry_count: usize, signal_api_healthy: bool) -> (r: HealthResponse)
    ensures
        r.status@ == "ok"@,
        r.registry_count == registry_count,
        r.signal_api_healthy == signal_api_healthy,
{
    HealthResponse { status: "ok".to_owned(), registry_count, signal_api_healthy }
}

/// The answer to a change of a registration.
#[derive(Debug)]
pub struct VerifyResponse {
    pub phone_number: String,
    pub status: String,
    pub message: String,
}

/// The number whose verification code is to be submitted: its registration must be pending.
pub fn verify_registration(
    normalized: Result<String, String>,
    record: Option<&PhoneNumberRecord>,
    owned: bool,
) -> (r: Result<String, ProxyError>)
    ensures
        number_result(r) == owned_number(
            normalized,
            record_view(record),
            Some(RegistrationStatus::Pending),
            owned,
        ),
{
    check_owner(normalized, record, Some(RegistrationStatus::Pending), owned)
}

/// The answer once a number is verified.
pub fn registration_verified(number: String) -> (r: VerifyResponse)
    ensures
        r.phone_number@ == number@,
        r.status@ == "verified"@,
        r.message@ == "Phone number registered successfully."@,
{
    VerifyResponse {
        phone_number: number,
        status: "verified".to_owned(),
        message: "Phone number registered successfully.".to_owned(),
    }
}

/// How the registration of a number stands.
#[derive(Debug)]
pub struct StatusResponse {
    pub phone_number: String,
    pub status: RegistrationStatus,
    pub registered_at: Option<String>,
}

/// When a record was made, as RFC 3339 writes it.
pub open spec fn registration_time(record: RecordView) -> Seq<char> {
    rfc3339(record.registered_at.seconds(), record.registered_at.subsec_nanos())
}

/// How the registration of a number stands.
pub fn get_status(normalized: Result<String, String>, record: Option<&PhoneNumberRecord>) -> (r:
    Result<StatusResponse, ProxyError>)
    ensures
        match named_number(normalized) {
            Err(e) => r matches Err(f) && f@ == e,
            Ok(number) => match record {
                None => r matches Err(f) && f@ == ProxyErrorView::NotFound(number),
                Some(record) => r matches Ok(s) && s.phone_number@ == record@.phone_number
                    && s.status == record.status && opt_view(s.registered_at) == Some(
                    registration_time(record@),
                ),
            },
        },
{
    let number = match normal_number(normalized) {
        Ok(number) => number,
        Err(e) => return Err(e),
    };
    match record {
        None => Err(not_found(number.as_str())),
        Some(record) => Ok(
            StatusResponse {
                phone_number: record.phone_number.clone(),
                status: record.status,
                registered_at: Some(record.registered_at.to_rfc3339()),
            },
        ),
    }
}

/// What is told of a record in the list of accounts.
#[derive(Debug)]
pub struct AccountInfo {
    pub phone_number: String,
    pub status: RegistrationStatus,
    pub registered_at: String,
    pub model: Option<String>,
    pub system_prompt: Option<String>,
    pub username: Option<String>,
}

/// The entry tells of the record.
pub open spec fn tells_of(info: AccountInfo, record: RecordView) -> bool {
    &&& info.phone_number@ == record.phone_number
    &&& info.status == record.status
    &&& info.registered_at@ == registration_time(record)
    &&& opt_view(info.model) == record.model
    &&& opt_view(info.system_prompt) == record.system_prompt
    &&& opt_view(info.username) == record.username
}

/// The list of accounts.
#[derive(Debug)]
pub struct AccountsResponse {
    pub accounts: Vec<AccountInfo>,
    pub total: usize,
}

/// The list of accounts: an entry for each record.
pub fn list_accounts(records: &Vec<PhoneNumberRecord>) -> (r: AccountsResponse)
    ensures
        r.total == records@.len(),
        r.accounts@.len() == records@.len(),
        forall|i: int|
            0 <= i < records@.len() ==> tells_of(#[trigger] r.accounts@[i], records@[i]@),
{
    let mut accounts: Vec<AccountInfo> = Vec::new();
    for i in 0..records.len()
        invariant
            accounts@.len() == i,
            forall|j: int| 0 <= j < i ==> tells_of(#[trigger] accounts@[j], records@[j]@),
    {
        let r = &records[i];
        accounts.push(
            AccountInfo {
                phone_number: r.phone_number.clone(),
                status: r.status,
                registered_at: r.registered_at.to_rfc3339(),
                model: copy_opt(&r.model),
                system_prompt: copy_opt(&r.system_prompt),
                username: copy_opt(&r.username),
            },
        );
    }
    let total = accounts.len();
    AccountsResponse { accounts, total }
}

/// The number that is to be removed from Signal and from the registry.
pub fn unregister(
    normalized: Result<String, String>,
    record: Option<&PhoneNumberRecord>,
    owned: bool,
) -> (r: Result<String, ProxyError>)
    ensures
        number_result(r) == owned_number(normalized, record_view(record), None, owned),
{
    check_owner(normalized, record, None, owned)
}

/// The answer once a number is removed.
pub fn number_unregistered(number: String) -> (r: VerifyResponse)
    ensures
        r.phone_number@ == number@,
        r.status@ == "unregistered"@,
        r.message@ == "Phone number unregistered successfully."@,
{
    VerifyResponse {
        phone_number: number,
        status: "unregistered".to_owned(),
        message: "Phone number unregistered successfully.".to_owned(),
    }
}

/// What is said of the list of Signal's accounts.
pub const SIGNAL_ACCOUNTS_NOTE: &'static str =
    "These are accounts Signal CLI knows about, not our proxy registry";

/// The number that is to be removed from Signal without any proof.
pub fn debug_force_unregister(normalized: Result<String, String>) -> (r: Result<
    String,
    ProxyError,
>)
    ensures
        number_result(r) == named_number(normalized),
{
    normal_number(normalized)
}

/// The answer once a number is removed from Signal without any proof.
pub fn force_unregistered(number: String) -> (r: VerifyResponse)
    ensures
        r.phone_number@ == number@,
        r.status@ == "unregistered"@,
        r.message@ == "Force unregistered from Signal CLI"@,
{
    VerifyResponse {
        phone_number: number,
        status: "unregistered".to_owned(),
        message: "Force unregistered from Signal CLI".to_owned(),
    }
}

/// The answer to a change of a profile.
#[derive(Debug)]
pub struct ProfileResponse {
    pub phone_number: String,
    pub message: String,
}

/// The number whose profile is to be changed.
pub fn update_profile(
    normalized: Result<String, String>,
    record: Option<&PhoneNumberRecord>,
    owned: bool,
) -> (r: Result<String, ProxyError>)
    ensures
        number_result(r) == owned_number(
            normalized,
            record_view(record),
            Some(RegistrationStatus::Verified),
            owned,
        ),
{
    check_owner(normalized, record, Some(RegistrationStatus::Verified), owned)
}

/// The answer once a profile is changed.
pub fn profile_updated(number: String) -> (r: ProfileResponse)
    ensures
        r.phone_number@ == number@,
        r.message@ == "Profile updated successfully."@,
{
    ProfileResponse { phone_number: number, message: "Profile updated successfully.".to_owned() }
}

/// The answer to a change of a user name.
#[derive(Debug)]
pub struct UsernameResponse {
    pub phone_number: String,
    pub username: Option<String>,
    pub username_link: Option<String>,
    pub message: String,
}

/// The number whose user name is to be set.
pub fn set_username(
    normalized: Result<String, String>,
    record: Option<&PhoneNumberRecord>,
    owned: bool,
) -> (r: Result<String, ProxyError>)
    ensures
        number_result(r) == owned_number(
            normalized,
            record_view(record),
            Some(RegistrationStatus::Verified),
            owned,
        ),
{
    check_owner(normalized, record, Some(RegistrationStatus::Verified), owned)
}

/// The answer once a user name is set, as Signal tells it.
pub fn username_set(number: String, username: Option<String>, username_link: Option<String>) -> (r:
    UsernameResponse)
    ensures
        r.phone_number@ == number@,
        r.username == username,
        r.username_link == username_link,
        r.message@ == "Username set successfully."@,
{
    UsernameResponse {
        phone_number: number,
        username,
        username_link,
        message: "Username set successfully.".to_owned(),
    }
}

/// The number whose user name is to be deleted.
pub fn delete_username(
    normalized: Result<String, String>,
    record: Option<&PhoneNumberRecord>,
    owned: bool,
) -> (r: Result<String, ProxyError>)
    ensures
        number_result(r) == owned_number(
            normalized,
            record_view(record),
            Some(RegistrationStatus::Verified),
            owned,
        ),
{
    check_owner(normalized, record, Some(RegistrationStatus::Verified), owned)
}

/// The answer once a user name is deleted.
pub fn username_deleted(number: String) -> (r: UsernameResponse)
    ensures
        r.phone_number@ == number@,
        r.username is None,
        r.username_link is None,
        r.message@ == "Username deleted successfully."@,
{
    UsernameResponse {
        phone_number: number,
        username: None,
        username_link: None,
        message: "Username deleted successfully.".to_owned(),
    }
}

/// The number of an account of Signal's that is to be taken into the registry: it must not be
/// registered already.
pub fn adopt_account(normalized: Result<String, String>, record: Option<&PhoneNumberRecord>) -> (r:
    Result<String, ProxyError>)
    ensures
        number_result(r) == (match named_number(normalized) {
            Err(e) => Err(e),
            Ok(number) => if record matches Some(record) && record.status
                == RegistrationStatus::Verified {
                Err(ProxyErrorView::AlreadyRegistered(number))
            } else {
                Ok(number)
            },
        }),
{
    let number = match normal_number(normalized) {
        Ok(number) => number,
        Err(e) => return Err(e),
    };
    if let Some(record) = record {
        if record.status == RegistrationStatus::Verified {
            return Err(ProxyError::AlreadyRegistered(number));
        }
    }
    Ok(number)
}

/// One of Signal's accounts has the number.
pub open spec fn has_account(accounts: Seq<String>, number: Seq<char>) -> bool {
    exists|i: int| 0 <= i < accounts.len() && (#[trigger] accounts[i])@ == number
}

/// A request to take an account of Signal's into the registry.
pub struct AdoptAccountRequest {
    pub ownership_secret: Option<String>,
    pub model: Option<String>,
    pub system_prompt: Option<String>,
}

/// What the registry is to record of an account that is taken into it, as verified.
pub struct AdoptedRecord {
    pub number: String,
    pub ownership_secret: Option<String>,
    pub model: Option<String>,
    pub system_prompt: Option<String>,
}

/// The record of an account that is to be taken into the registry, which must be one of Signal's.
pub fn check_account(accounts: &Vec<String>, number: String, request: AdoptAccountRequest) -> (r:
    Result<AdoptedRecord, ProxyError>)
    ensures
        r is Ok <==> has_account(accounts@, number@),
        r matches Ok(record) ==> {
            &&& record.number@ == number@
            &&& record.ownership_secret == request.ownership_secret
            &&& record.model == request.model
            &&& record.system_prompt == request.system_prompt
        },
        r matches Err(e) ==> e@ == ProxyErrorView::SignalApi(
            "Account "@ + number@ + " not found in Signal CLI. Register it first."@,
        ),
{
    for i in 0..accounts.len()
        invariant
            forall|j: int| 0 <= j < i ==> (#[trigger] accounts@[j])@ != number@,
    {
        if same(accounts[i].as_str(), number.as_str()) {
            return Ok(
                AdoptedRecord {
                    number,
                    ownership_secret: request.ownership_secret,
                    model: request.model,
                    system_prompt: request.system_prompt,
                },
            );
        }
    }
    let mut m = "Account ".to_owned();
    m.append(number.as_str());
    m.append(" not found in Signal CLI. Register it first.");
    Err(ProxyError::SignalApi(m))
}

/// The answer once an account is taken into the registry.
pub fn account_adopted(number: String) -> (r: VerifyResponse)
    ensures
        r.phone_number@ == number@,
        r.status@ == "verified"@,
        r.message@ == "Account adopted into registry successfully."@,
{
    VerifyResponse {
        phone_number: number,
        status: "verified".to_owned(),
        message: "Account adopted into registry successfully.".to_owned(),
    }
}

/// The configuration of a bot.
#[derive(Debug)]
pub struct BotConfigResponse {
    pub phone_number: String,
    pub model: Option<String>,
    pub system_prompt: Option<String>,
    pub message: String,
}

/// The number whose configuration is to be changed.
pub fn update_bot_config(
    normalized: Result<String, String>,
    record: Option<&PhoneNumberRecord>,
    owned: bool,
) -> (r: Result<String, ProxyError>)
    ensures
        number_result(r) == owned_number(
            normalized,
            record_view(record),
            Some(RegistrationStatus::Verified),
            owned,
        ),
{
    check_owner(normalized, record, Some(RegistrationStatus::Verified), owned)
}

/// The answer once a configuration is changed. `record` is the changed record, which is gone where
/// the number was removed in the meantime.
pub fn bot_config_updated(number: String, record: Option<&PhoneNumberRecord>) -> (r: Result<
    BotConfigResponse,
    ProxyError,
>)
    ensures
        match record {
            None => r matches Err(e) && e@ == ProxyErrorView::NotFound(number@),
            Some(record) => r matches Ok(c) && c.phone_number@ == number@ && opt_view(c.model)
                == record@.model && opt_view(c.system_prompt) == record@.system_prompt
                && c.message@ == "Bot configuration updated successfully."@,
        },
{
    match record {
        None => Err(not_found(number.as_str())),
        Some(record) => Ok(
            BotConfigResponse {
                phone_number: number,
                model: copy_opt(&record.model),
                system_prompt: copy_opt(&record.system_prompt),
                message: "Bot configuration updated successfully.".to_owned(),
            },
        ),
    }
}

/// The configuration of a registered bot.
pub fn get_bot_config(normalized: Result<String, String>, record: Option<&PhoneNumberRecord>) -> (r:
    Result<BotConfigResponse, ProxyError>)
    ensures
        match owned_number(
            normalized,
            record_view(record),
            Some(RegistrationStatus::Verified),
            true,
        ) {
            Err(e) => r matches Err(f) && f@ == e,
            Ok(_) => r matches Ok(c) && c.phone_number@ == record->0@.phone_number && opt_view(
                c.model,
            ) == record->0@.model && opt_view(c.system_prompt) == record->0@.system_prompt
                && c.message@ == "Bot configuration retrieved."@,
        },
{
    let number = match normal_number(normalized) {
        Ok(number) => number,
        Err(e) => return Err(e),
    };
    match record {
        Some(record) if record.status == RegistrationStatus::Verified => Ok(
            BotConfigResponse {
                phone_number: record.phone_number.clone(),
                model: copy_opt(&record.model),
                system_prompt: copy_opt(&record.system_prompt),
                message: "Bot configuration retrieved.".to_owned(),
            },
        ),
        _ => Err(not_found(number.as_str())),
    }
}

/// What is told of a bot in the list of bots.
#[derive(Debug)]
pub struct BotInfo {
    pub username: String,
    pub phone_number: String,
    pub signal_link: String,
    pub registered_at: String,
    pub model: Option<String>,
    pub description: Option<String>,
    pub system_prompt: Option<String>,
    pub identity_key: Option<String>,
}

/// The number of bytes of a system prompt that are shown at most.
pub const DESCRIPTION_LIMIT: usize = 100;

/// The link to a number on Signal.
pub open spec fn signal_link(number: Seq<char>) -> Seq<char> {
    "https://signal.me/#p/+"@ + digits(number)
}

/// The link to a number on Signal.
pub fn link_to(number: &str) -> (r: String)
    ensures
        r@ == signal_link(number@),
{
    let mut link = "https://signal.me/#p/+".to_owned();
    link.append(digits_of(number).as_str());
    link
}

/// The line can be shown: it is short, or a character ends where it is cut.
pub open spec fn line_showable(line: Seq<char>) -> bool {
    encode_utf8(line).len() > DESCRIPTION_LIMIT ==> is_char_boundary(
        encode_utf8(line),
        DESCRIPTION_LIMIT as int,
    )
}

/// The first line of a system prompt can be shown.
pub open spec fn showable(prompt: Option<Seq<char>>) -> bool {
    prompt matches Some(p) ==> (first_line(p) matches Some(line) ==> line_showable(line))
}

/// A line as it is shown: whole, or cut with an ellipsis.
pub open spec fn line_shown(line: Seq<char>) -> Seq<char> {
    if encode_utf8(line).len() > DESCRIPTION_LIMIT {
        decode_utf8(encode_utf8(line).take(DESCRIPTION_LIMIT as int)) + "..."@
    } else {
        line
    }
}

/// The description of a bot: the first line of its system prompt.
pub open spec fn description(prompt: Option<Seq<char>>) -> Option<Seq<char>> {
    match prompt {
        Some(p) => match first_line(p) {
            Some(line) => Some(line_shown(line)),
            None => None,
        },
        None => None,
    }
}

/// Whether the first line of a system prompt can be shown.
pub fn can_show(prompt: &Option<String>) -> (r: bool)
    ensures
        r == showable(opt_view(*prompt)),
{
    match prompt {
        Some(p) => match first_line_of(p.as_str()) {
            Some(line) => line.as_str().as_bytes().len() <= DESCRIPTION_LIMIT
                || line.as_str().is_char_boundary(DESCRIPTION_LIMIT),
            None => true,
        },
        None => true,
    }
}

/// The description of a bot.
pub fn describe(prompt: &Option<String>) -> (r: Option<String>)
    requires
        showable(opt_view(*prompt)),
    ensures
        opt_view(r) == description(opt_view(*prompt)),
{
    let line = match prompt {
        Some(p) => match first_line_of(p.as_str()) {
            Some(line) => line,
            None => return None,
        },
        None => return None,
    };
    if line.as_str().as_bytes().len() > DESCRIPTION_LIMIT {
        let (head, _tail) = line.as_str().split_at(DESCRIPTION_LIMIT);
        proof {
            encode_utf8_decode_utf8(head@);
            assert(encode_utf8(head@) =~= encode_utf8(line@).take(DESCRIPTION_LIMIT as int));
        }
        let mut shown = head.to_owned();
        shown.append("...");
        Some(shown)
    } else {
        Some(line)
    }
}

/// The records with their texts as character sequences.
pub open spec fn records_view(records: Seq<PhoneNumberRecord>) -> Seq<RecordView> {
    records.map_values(|r: PhoneNumberRecord| r@)
}

/// The records of registered bots, in their order.
pub fn verified_records(records: &Vec<PhoneNumberRecord>) -> (r: Vec<PhoneNumberRecord>)
    ensures
        records_view(r@) == records_view(records@).filter(
            |v: RecordView| v.status == RegistrationStatus::Verified,
        ),
{
    let ghost all = records_view(records@);
    let ghost verified = |v: RecordView| v.status == RegistrationStatus::Verified;
    let mut r: Vec<PhoneNumberRecord> = Vec::new();
    let mut i: usize = 0;
    proof {
        reveal(Seq::filter);
        assert(all.take(0) =~= Seq::empty());
        assert(records_view(r@) =~= all.take(0).filter(verified));
    }
    while i < records.len()
        invariant
            i <= records@.len(),
            all == records_view(records@),
            verified == (|v: RecordView| v.status == RegistrationStatus::Verified),
            records_view(r@) == all.take(i as int).filter(verified),
        decreases records@.len() - i,
    {
        let record = &records[i];
        let ghost before = records_view(r@);
        proof {
            reveal(Seq::filter);
            assert(all.take(i + 1).drop_last() =~= all.take(i as int));
            assert(all.take(i + 1).last() == record@);
        }
        if record.status == RegistrationStatus::Verified {
            let copy = record.clone();
            r.push(copy);
            assert(records_view(r@) =~= before.push(record@));
        }
        i = i + 1;
    }
    assert(all.take(i as int) =~= all);
    r
}

/// The entry tells of the bot with the given record and safety number.
pub open spec fn bot_info_of(info: BotInfo, record: RecordView, identity_key: Option<Seq<char>>) -> bool {
    &&& info.username@ == record.username.unwrap_or(record.phone_number)
    &&& info.phone_number@ == record.phone_number
    &&& info.signal_link@ == signal_link(record.phone_number)
    &&& info.registered_at@ == registration_time(record)
    &&& opt_view(info.model) == record.model
    &&& opt_view(info.description) == description(record.system_prompt)
    &&& opt_view(info.system_prompt) == record.system_prompt
    &&& opt_view(info.identity_key) == identity_key
}

fn bot_info(record: &PhoneNumberRecord, identity_key: &Option<String>) -> (r: BotInfo)
    requires
        showable(record@.system_prompt),
    ensures
        bot_info_of(r, record@, opt_view(*identity_key)),
{
    BotInfo {
        username: match &record.username {
            Some(name) => name.clone(),
            None => record.phone_number.clone(),
        },
        phone_number: record.phone_number.clone(),
        signal_link: link_to(record.phone_number.as_str()),
        registered_at: record.registered_at.to_rfc3339(),
        model: copy_opt(&record.model),
        description: describe(&record.system_prompt),
        system_prompt: copy_opt(&record.system_prompt),
        identity_key: copy_opt(identity_key),
    }
}

/// The list of bots: an entry for each of the given records, which are those of registered bots.
/// `identity_keys` are their safety numbers, where Signal tells them.
pub fn list_bots(records: &Vec<PhoneNumberRecord>, identity_keys: &Vec<Option<String>>) -> (r: Vec<
    BotInfo,
>)
    requires
        identity_keys@.len() == records@.len(),
        forall|i: int| 0 <= i < records@.len() ==> showable((#[trigger] records@[i])@.system_prompt),
    ensures
        r@.len() == records@.len(),
        forall|i: int|
            0 <= i < records@.len() ==> bot_info_of(
                #[trigger] r@[i],
                records@[i]@,
                opt_view(identity_keys@[i]),
            ),
{
    let mut bots: Vec<BotInfo> = Vec::new();
    for i in 0..records.len()
        invariant
            bots@.len() == i,
            identity_keys@.len() == records@.len(),
            forall|j: int|
                0 <= j < records@.len() ==> showable((#[trigger] records@[j])@.system_prompt),
            forall|j: int|
                0 <= j < i ==> bot_info_of(
                    #[trigger] bots@[j],
                    records@[j]@,
                    opt_view(identity_keys@[j]),
                ),
    {
        bots.push(bot_info(&records[i], &identity_keys[i]));
    }
    bots
}

/// The answer to a login.
#[derive(Debug)]
pub struct LoginResponse {
    pub token: String,
    pub phone_number: String,
    pub expires_at: i64,
}

/// Logs the owner of a number in. `owned` says whether the sender has proved to own the number;
/// there is nothing to say where it is not registered.
pub fn login(
    normalized: Result<String, String>,
    owned: Option<bool>,
    token_manager: &TokenManager,
) -> (r: Result<LoginResponse, ProxyError>)
    ensures
        match named_number(normalized) {
            Err(e) => r matches Err(f) && f@ == e,
            Ok(number) => match owned {
                None => r matches Err(e) && e@ == ProxyErrorView::NotFound(number),
                Some(false) => r matches Err(e) && e@ == ProxyErrorView::OwnershipProofMismatch,
                Some(true) => exists|now: Timestamp, then: Timestamp|
                    {
                        &&& now.valid()
                        &&& then.valid()
                        &&& r matches Ok(answer)
                        &&& answer.phone_number@ == number
                        &&& answer.token@ == token_text(
                            token_manager.key(),
                            encode_utf8(claims_json(claims_at(number, #[trigger] now.seconds()))),
                        )
                        &&& answer.expires_at == #[trigger] then.seconds() + TOKEN_LIFETIME
                    },
            },
        },
{
    let number = match normal_number(normalized) {
        Ok(number) => number,
        Err(e) => return Err(e),
    };
    match authenticate(number.as_str(), owned, token_manager) {
        Ok((token, expires_at)) => Ok(LoginResponse { token, phone_number: number, expires_at }),
        Err(e) => Err(e),
    }
}

/// The claims of the token that a request bears, which `read` reads from the payload.
/// `auth_header` is the `Authorization` header, where there is one that is text.
pub fn bearer_claims<F: Fn(Vec<u8>) -> Option<Claims>>(
    auth_header: Option<&str>,
    token_manager: &TokenManager,
    read: F,
) -> (r: Result<Claims, ProxyError>)
    requires
        forall|payload: Vec<u8>| call_requires(read, (payload,)),
    ensures
        match auth_header {
            None => claims_result(r) == Err::<ClaimsView, ProxyErrorView>(
                ProxyErrorView::Unauthorized("Missing Authorization header"@),
            ),
            Some(header) => match bearer_token(header@) {
                Err(e) => claims_result(r) == Err::<ClaimsView, ProxyErrorView>(e),
                Ok(token) => match opened(token_manager.key(), token) {
                    Err(e) => claims_result(r) == Err::<ClaimsView, ProxyErrorView>(e),
                    Ok(bytes) => exists|payload: Vec<u8>, claims: Option<Claims>, now: Timestamp|
                        {
                            &&& payload@ == bytes
                            &&& now.valid()
                            &&& #[trigger] call_ensures(read, (payload,), claims)
                            &&& claims_result(r) == claims_verdict(
                                claims_view(claims),
                                #[trigger] now.seconds(),
                            )
                        },
                },
            },
        },
{
    match auth_header {
        Some(header) => extract_bearer_token(header, token_manager, read),
        None => Err(unauthorized("Missing Authorization header")),
    }
}

/// The number that a request names, where the token that it bears is for that number.
pub open spec fn authorized_number(
    normalized: Result<String, String>,
    claims: Result<ClaimsView, ProxyErrorView>,
    mismatch: Seq<char>,
) -> Result<Seq<char>, ProxyErrorView> {
    match named_number(normalized) {
        Err(e) => Err(e),
        Ok(number) => match claims {
            Err(e) => Err(e),
            Ok(c) => if c.sub != number {
                Err(ProxyErrorView::Unauthorized(mismatch))
            } else {
                Ok(number)
            },
        },
    }
}

/// The number that a request names, where the token that it bears is for that number and the
/// number is registered.
pub open spec fn authorized_bot(
    normalized: Result<String, String>,
    claims: Result<ClaimsView, ProxyErrorView>,
    mismatch: Seq<char>,
    record: Option<RecordView>,
) -> Result<Seq<char>, ProxyErrorView> {
    match authorized_number(normalized, claims, mismatch) {
        Err(e) => Err(e),
        Ok(number) => if record matches Some(r) && r.status == RegistrationStatus::Verified {
            Ok(number)
        } else {
            Err(ProxyErrorView::NotFound(number))
        },
    }
}

fn authorize(
    normalized: Result<String, String>,
    claims: Result<Claims, ProxyError>,
    mismatch: &str,
) -> (r: Result<String, ProxyError>)
    ensures
        number_result(r) == authorized_number(normalized, claims_result(claims), mismatch@),
{
    let number = match normal_number(normalized) {
        Ok(number) => number,
        Err(e) => return Err(e),
    };
    let claims = match claims {
        Ok(claims) => claims,
        Err(e) => return Err(e),
    };
    if !same(claims.sub.as_str(), number.as_str()) {
        return Err(unauthorized(mismatch));
    }
    Ok(number)
}

fn authorize_bot(
    normalized: Result<String, String>,
    claims: Result<Claims, ProxyError>,
    mismatch: &str,
    record: Option<&PhoneNumberRecord>,
) -> (r: Result<String, ProxyError>)
    ensures
        number_result(r) == authorized_bot(
            normalized,
            claims_result(claims),
            mismatch@,
            record_view(record),
        ),
{
    let number = match authorize(normalized, claims, mismatch) {
        Ok(number) => number,
        Err(e) => return Err(e),
    };
    match record {
        Some(record) if record.status == RegistrationStatus::Verified => Ok(number),
        _ => Err(not_found(number.as_str())),
    }
}

/// How a bot stands, for its owner.
#[derive(Debug)]
pub struct DashboardResponse {
    pub phone_number: String,
    pub status: RegistrationStatus,
    pub registered_at: String,
    pub model: Option<String>,
    pub system_prompt: Option<String>,
    pub username: Option<String>,
    pub signal_link: Option<String>,
}

/// The refusal of a token for another account.
pub const OTHER_ACCOUNT: &'static str = "Token does not match requested account";

/// The refusal of a token for another target.
pub const OTHER_TARGET: &'static str = "Token does not match target number";

/// The refusal of a token for another sender.
pub const OTHER_SENDER: &'static str = "Token does not match sender number";

/// The response tells how the bot with the given record stands.
pub open spec fn dashboard_of(d: DashboardResponse, number: Seq<char>, record: RecordView) -> bool {
    &&& d.phone_number@ == number
    &&& d.status == record.status
    &&& d.registered_at@ == registration_time(record)
    &&& opt_view(d.model) == record.model
    &&& opt_view(d.system_prompt) == record.system_prompt
    &&& opt_view(d.username) == record.username
    &&& opt_view(d.signal_link) == (if record.status == RegistrationStatus::Verified {
        Some(signal_link(number))
    } else {
        None
    })
}

/// How a bot stands, for its owner. `claims` are those of the token that the request bears.
pub fn get_dashboard(
    normalized: Result<String, String>,
    claims: Result<Claims, ProxyError>,
    record: Option<&PhoneNumberRecord>,
) -> (r: Result<DashboardResponse, ProxyError>)
    ensures
        match authorized_number(normalized, claims_result(claims), OTHER_ACCOUNT@) {
            Err(e) => r matches Err(f) && f@ == e,
            Ok(number) => match record {
                None => r matches Err(f) && f@ == ProxyErrorView::NotFound(number),
                Some(record) => r matches Ok(d) && dashboard_of(d, number, record@),
            },
        },
{
    let number = match authorize(normalized, claims, OTHER_ACCOUNT) {
        Ok(number) => number,
        Err(e) => return Err(e),
    };
    let record = match record {
        Some(record) => record,
        None => return Err(not_found(number.as_str())),
    };
    let signal_link = if record.status == RegistrationStatus::Verified {
        Some(link_to(number.as_str()))
    } else {
        None
    };
    Ok(
        DashboardResponse {
            phone_number: number,
            status: record.status,
            registered_at: record.registered_at.to_rfc3339(),
            model: copy_opt(&record.model),
            system_prompt: copy_opt(&record.system_prompt),
            username: copy_opt(&record.username),
            signal_link,
        },
    )
}

/// The number whose configuration is to be changed from the dashboard.
pub fn update_bot_config_jwt(
    normalized: Result<String, String>,
    claims: Result<Claims, ProxyError>,
    record: Option<&PhoneNumberRecord>,
) -> (r: Result<String, ProxyError>)
    ensures
        number_result(r) == authorized_bot(
            normalized,
            claims_result(claims),
            OTHER_ACCOUNT@,
            record_view(record),
        ),
{
    authorize_bot(normalized, claims, OTHER_ACCOUNT, record)
}

/// A message that is to be sent over Signal.
#[derive(Debug)]
pub struct OutgoingAlert {
    pub from: String,
    pub to: String,
    pub text: String,
}

/// The message of an alert, from the owner's bot to the owner.
pub fn webhook_alert(
    normalized: Result<String, String>,
    claims: Result<Claims, ProxyError>,
    record: Option<&PhoneNumberRecord>,
    request: &WebhookAlertRequest,
) -> (r: Result<OutgoingAlert, ProxyError>)
    ensures
        match authorized_bot(
            normalized,
            claims_result(claims),
            OTHER_TARGET@,
            record_view(record),
        ) {
            Err(e) => r matches Err(f) && f@ == e,
            Ok(number) => r matches Ok(out) && out.from@ == number && out.to@ == number
                && out.text@ == alert_text(request@),
        },
{
    match authorize_bot(normalized, claims, OTHER_TARGET, record) {
        Ok(number) => Ok(
            OutgoingAlert {
                from: number.clone(),
                to: number,
                text: alert_message(request),
            },
        ),
        Err(e) => Err(e),
    }
}

/// A message that is to be sent over Signal once its recipient is in normal form.
pub struct UnaddressedAlert {
    pub from: String,
    pub recipient: Recipient,
    pub text: String,
}

/// The message of an alert, from the owner's bot to a recipient, which is looked at only once the
/// owner is known.
pub fn webhook_alert_to(
    normalized: Result<String, String>,
    claims: Result<Claims, ProxyError>,
    record: Option<&PhoneNumberRecord>,
    recipient: &str,
    request: &WebhookAlertRequest,
) -> (r: Result<UnaddressedAlert, ProxyError>)
    ensures
        match authorized_bot(
            normalized,
            claims_result(claims),
            OTHER_SENDER@,
            record_view(record),
        ) {
            Err(e) => r matches Err(f) && f@ == e,
            Ok(number) => r matches Ok(out) && out.from@ == number && stands_for(
                out.recipient,
                recipient@,
            ) && out.text@ == alert_text(request@),
        },
{
    match authorize_bot(normalized, claims, OTHER_SENDER, record) {
        Ok(number) => Ok(
            UnaddressedAlert {
                from: number,
                recipient: recipient_of(recipient),
                text: alert_message(request),
            },
        ),
        Err(e) => Err(e),
    }
}

impl UnaddressedAlert {
    /// The message, with the normal form of its recipient's number where that has one.
    pub fn addressed(self, normalized: Option<String>) -> (r: OutgoingAlert)
        ensures
            r.from@ == self.from@,
            r.to@ == target_of(self.recipient, opt_view(normalized)),
            r.text@ == self.text@,
    {
        OutgoingAlert {
            from: self.from,
            to: alert_target(self.recipient, normalized),
            text: self.text,
        }
    }
}

/// A token for one number gives no access to another.
pub proof fn law_tokens_are_for_one_number(
    normalized: Result<String, String>,
    claims: ClaimsView,
    mismatch: Seq<char>,
    record: Option<RecordView>,
)
    requires
        named_number(normalized) != Ok::<Seq<char>, ProxyErrorView>(claims.sub),
    ensures
        authorized_number(normalized, Ok(claims), mismatch) is Err,
        authorized_bot(normalized, Ok(claims), mismatch, record) is Err,
{
}

/// Without valid claims there is no access at all.
pub proof fn law_no_access_without_claims(
    normalized: Result<String, String>,
    reason: ProxyErrorView,
    mismatch: Seq<char>,
    record: Option<RecordView>,
)
    ensures
        authorized_number(normalized, Err(reason), mismatch) is Err,
        authorized_bot(normalized, Err(reason), mismatch, record) is Err,
{
}

} // verus!
