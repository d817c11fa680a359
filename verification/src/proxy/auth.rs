//! Authentication: whoever proves to own a number gets a signed token for it.
//!
//! A token is a JSON Web Token: a header, the claims and their authentication code, in base64url
//! with dots between.
use vstd::prelude::*;
use vstd::string::*;
use vstd::utf8::*;

use crate::clock::Timestamp;
use crate::codec::{
    base64url, base64url_decoded, base64url_encode, decode_base64url, json_quote, json_string,
    law_base64url_is_decoded, lemma_base64url_without_dot,
};
use crate::crypto::{hmac_code, hmac_sha256};
use crate::proxy::error::{not_found, unauthorized, ProxyError, ProxyErrorView};
use crate::text::{
    after_prefix, decimal_int, decimal_int_text, lemma_split_append, lemma_split_single, split,
    split_on, strip_prefix, texts,
};

verus! {

/// The header of every token.
pub const TOKEN_HEADER: &'static str = "{\"alg\":\"HS256\",\"typ\":\"JWT\"}";

/// How long a token is valid, in seconds: a day.
pub const TOKEN_LIFETIME: i64 = 86_400;

/// What a token claims.
#[derive(Debug)]
pub struct Claims {
    /// The phone number.
    pub sub: String,
    /// When the token expires, as a Unix time.
    pub exp: i64,
    /// When the token was issued, as a Unix time.
    pub iat: i64,
}

/// [`Claims`] with the number as a character sequence.
pub struct ClaimsView {
    pub sub: Seq<char>,
    pub exp: int,
    pub iat: int,
}

impl View for Claims {
    type V = ClaimsView;

    open spec fn view(&self) -> ClaimsView {
        ClaimsView { sub: self.sub@, exp: self.exp as int, iat: self.iat as int }
    }
}

impl Clone for Claims {
    fn clone(&self) -> (r: Self)
        ensures
            r@ == self@,
    {
        Claims { sub: self.sub.clone(), exp: self.exp, iat: self.iat }
    }
}

/// The claims of a token for a number that is issued at `now`.
pub open spec fn claims_at(phone_number: Seq<char>, now: int) -> ClaimsView {
    ClaimsView { sub: phone_number, exp: now + TOKEN_LIFETIME, iat: now }
}

/// The claims in JSON.
pub open spec fn claims_json(claims: ClaimsView) -> Seq<char> {
    "{\"sub\":"@ + json_string(claims.sub) + ",\"exp\":"@ + decimal_int(claims.exp) + ",\"iat\":"@
        + decimal_int(claims.iat) + "}"@
}

/// The first two parts of a token, which are signed.
pub open spec fn signing_input(payload: Seq<u8>) -> Seq<char> {
    base64url(encode_utf8(TOKEN_HEADER@)) + "."@ + base64url(payload)
}

/// The token with the given payload under a key.
pub open spec fn token_text(key: Seq<u8>, payload: Seq<u8>) -> Seq<char> {
    signing_input(payload) + "."@ + base64url(
        hmac_sha256(key, encode_utf8(signing_input(payload))),
    )
}

/// The payload of a token, if the token is signed under the key.
pub open spec fn opened(key: Seq<u8>, token: Seq<char>) -> Result<Seq<u8>, ProxyErrorView> {
    let parts = split(token, '.');
    if parts.len() != 3 {
        Err(ProxyErrorView::Unauthorized("Invalid token format"@))
    } else {
        match base64url_decoded(parts[2]) {
            None => Err(ProxyErrorView::Unauthorized("Invalid token signature encoding"@)),
            Some(signature) => if signature != hmac_sha256(
                key,
                encode_utf8(parts[0] + "."@ + parts[1]),
            ) {
                Err(ProxyErrorView::Unauthorized("Invalid token signature"@))
            } else {
                match base64url_decoded(parts[1]) {
                    None => Err(ProxyErrorView::Unauthorized("Invalid token payload encoding"@)),
                    Some(payload) => Ok(payload),
                }
            },
        }
    }
}

/// Whether claims that were read from a token, or not, are valid at `now`.
pub open spec fn claims_verdict(claims: Option<ClaimsView>, now: int) -> Result<
    ClaimsView,
    ProxyErrorView,
> {
    match claims {
        None => Err(ProxyErrorView::Unauthorized("Invalid token claims"@)),
        Some(c) => if c.exp < now {
            Err(ProxyErrorView::Unauthorized("Token expired"@))
        } else {
            Ok(c)
        },
    }
}

/// Claims, if there are any, with the number as a character sequence.
pub open spec fn claims_view(claims: Option<Claims>) -> Option<ClaimsView> {
    match claims {
        Some(c) => Some(c@),
        None => None,
    }
}

/// The outcome of a check of claims with its texts as character sequences.
pub open spec fn claims_result(r: Result<Claims, ProxyError>) -> Result<
    ClaimsView,
    ProxyErrorView,
> {
    match r {
        Ok(c) => Ok(c@),
        Err(e) => Err(e@),
    }
}

/// The outcome of the opening of a token with its texts as character sequences.
pub open spec fn payload_result(r: Result<Vec<u8>, ProxyError>) -> Result<
    Seq<u8>,
    ProxyErrorView,
> {
    match r {
        Ok(payload) => Ok(payload@),
        Err(e) => Err(e@),
    }
}

fn same_bytes(a: &Vec<u8>, b: &Vec<u8>) -> (r: bool)
    ensures
        r == (a@ == b@),
{
    if a.len() != b.len() {
        return false;
    }
    for i in 0..a.len()
        invariant
            a@.len() == b@.len(),
            forall|j: int| 0 <= j < i ==> a@[j] == b@[j],
    {
        if a[i] != b[i] {
            return false;
        }
    }
    assert(a@ =~= b@);
    true
}

/// Makes and checks tokens.
pub struct TokenManager {
    signing_key: [u8; 32],
}

impl TokenManager {
    /// The key under which tokens are signed.
    pub closed spec fn key(&self) -> Seq<u8> {
        self.signing_key@
    }

    /// A token manager with a key.
    pub fn new(signing_key: [u8; 32]) -> (r: Self)
        ensures
            r.key() == signing_key@,
    {
        TokenManager { signing_key }
    }

    /// A token for a number, issued now.
    pub fn create_token(&self, phone_number: &str) -> (r: Result<String, ProxyError>)
        ensures
            exists|now: Timestamp|
                {
                    &&& now.valid()
                    &&& r matches Ok(token)
                    &&& token@ == token_text(
                        self.key(),
                        encode_utf8(
                            claims_json(claims_at(phone_number@, #[trigger] now.seconds())),
                        ),
                    )
                },
    {
        let now = Timestamp::now();
        let r = self.create_token_at(phone_number, now);
        assert(now.seconds() == now.seconds());
        r
    }

    /// A token for a number, issued at `now`.
    pub fn create_token_at(&self, phone_number: &str, now: Timestamp) -> (r: Result<
        String,
        ProxyError,
    >)
        ensures
            r matches Ok(token) && token@ == token_text(
                self.key(),
                encode_utf8(claims_json(claims_at(phone_number@, now.seconds()))),
            ),
    {
        let iat = now.timestamp();
        let claims = Claims { sub: phone_number.to_owned(), exp: iat + TOKEN_LIFETIME, iat };
        let json = match to_json(&claims) {
            Ok(json) => json,
            Err(e) => return Err(e),
        };
        let mut token = base64url_encode(TOKEN_HEADER.as_bytes());
        token.append(".");
        token.append(base64url_encode(json.as_str().as_bytes()).as_str());
        let signature = match self.sign(token.as_str().as_bytes()) {
            Ok(signature) => signature,
            Err(e) => return Err(e),
        };
        token.append(".");
        token.append(base64url_encode(signature.as_slice()).as_str());
        Ok(token)
    }

    /// The payload of a token, if the token is signed under the key.
    pub fn open_token(&self, token: &str) -> (r: Result<Vec<u8>, ProxyError>)
        ensures
            payload_result(r) == opened(self.key(), token@),
    {
        let parts = split_on(token, '.');
        if parts.len() != 3 {
            return Err(unauthorized("Invalid token format"));
        }
        proof {
            assert(texts(parts@)[0] == parts@[0]@);
            assert(texts(parts@)[1] == parts@[1]@);
            assert(texts(parts@)[2] == parts@[2]@);
        }
        let mut input = parts[0].clone();
        input.append(".");
        input.append(parts[1].as_str());
        let signature = match decode_base64url(parts[2].as_str()) {
            Some(signature) => signature,
            None => return Err(unauthorized("Invalid token signature encoding")),
        };
        let expected = match self.sign(input.as_str().as_bytes()) {
            Ok(expected) => expected,
            Err(e) => return Err(e),
        };
        if !same_bytes(&signature, &expected) {
            return Err(unauthorized("Invalid token signature"));
        }
        match decode_base64url(parts[1].as_str()) {
            Some(payload) => Ok(payload),
            None => Err(unauthorized("Invalid token payload encoding")),
        }
    }

    /// Checks a token and returns its claims, which `read` reads from the payload.
    pub fn verify_token<F: Fn(Vec<u8>) -> Option<Claims>>(&self, token: &str, read: F) -> (r: Result<
        Claims,
        ProxyError,
    >)
        requires
            forall|payload: Vec<u8>| call_requires(read, (payload,)),
        ensures
            match opened(self.key(), token@) {
                Err(e) => claims_result(r) == Err::<ClaimsView, ProxyErrorView>(e),
                Ok(bytes) => exists|payload: Vec<u8>, claims: Option<Claims>, now: Timestamp|
                    {
                        &&& payload@ == bytes
                        &&& now.valid()
                        &&& #[trigger] call_ensures(read, (payload,), claims)
                        &&& claims_result(r) == claims_verdict(
                            claims_view(claims),
                            #[trigger] now.seconds(),
                        )
                    },
            },
    {
        let payload = match self.open_token(token) {
            Ok(payload) => payload,
            Err(e) => return Err(e),
        };
        let claims = read(payload);
        let now = Timestamp::now();
        let r = accept_claims_at(claims, now);
        assert(claims_result(r) == claims_verdict(claims_view(claims), now.seconds()));
        r
    }

    fn sign(&self, data: &[u8]) -> (r: Result<Vec<u8>, ProxyError>)
        ensures
            r matches Ok(code) && code@ == hmac_sha256(self.key(), data@),
    {
        match hmac_code(self.signing_key.as_slice(), data) {
            Ok(code) => Ok(code),
            Err(_) => Err(ProxyError::Internal("HMAC key error".to_owned())),
        }
    }
}

fn to_json(claims: &Claims) -> (r: Result<String, ProxyError>)
    ensures
        r matches Ok(json) && json@ == claims_json(claims@),
{
    let sub = match json_quote(claims.sub.as_str()) {
        Ok(sub) => sub,
        Err(_) => return Err(ProxyError::Internal("Failed to serialize claims".to_owned())),
    };
    let mut json = "{\"sub\":".to_owned();
    json.append(sub.as_str());
    json.append(",\"exp\":");
    json.append(decimal_int_text(claims.exp).as_str());
    json.append(",\"iat\":");
    json.append(decimal_int_text(claims.iat).as_str());
    json.append("}");
    Ok(json)
}

/// Whether claims that were read from a token, or not, are valid at `now`.
pub fn accept_claims_at(claims: Option<Claims>, now: Timestamp) -> (r: Result<Claims, ProxyError>)
    ensures
        claims_result(r) == claims_verdict(claims_view(claims), now.seconds()),
{
    match claims {
        None => Err(unauthorized("Invalid token claims")),
        Some(c) => if c.exp < now.timestamp() {
            Err(unauthorized("Token expired"))
        } else {
            Ok(c)
        },
    }
}

/// A token for a number and when it expires, once the sender has proved to own the number.
/// `owned` says whether they have; there is nothing to say where the number is not registered.
pub fn authenticate(phone_number: &str, owned: Option<bool>, token_manager: &TokenManager) -> (r:
    Result<(String, i64), ProxyError>)
    ensures
        match owned {
            None => r matches Err(e) && e@ == ProxyErrorView::NotFound(phone_number@),
            Some(false) => r matches Err(e) && e@ == ProxyErrorView::OwnershipProofMismatch,
            Some(true) => exists|now: Timestamp, then: Timestamp|
                {
                    &&& now.valid()
                    &&& then.valid()
                    &&& r matches Ok(answer)
                    &&& answer.0@ == token_text(
                        token_manager.key(),
                        encode_utf8(
                            claims_json(claims_at(phone_number@, #[trigger] now.seconds())),
                        ),
                    )
                    &&& answer.1 == #[trigger] then.seconds() + TOKEN_LIFETIME
                },
        },
{
    match owned {
        None => Err(not_found(phone_number)),
        Some(false) => Err(ProxyError::OwnershipProofMismatch),
        Some(true) => {
            let now = Timestamp::now();
            let token = match token_manager.create_token_at(phone_number, now) {
                Ok(token) => token,
                Err(e) => return Err(e),
            };
            let then = Timestamp::now();
            let expires_at = then.timestamp() + TOKEN_LIFETIME;
            assert(now.seconds() == now.seconds() && then.seconds() == then.seconds());
            Ok((token, expires_at))
        },
    }
}

/// The token of an `Authorization` header.
pub open spec fn bearer_token(header: Seq<char>) -> Result<Seq<char>, ProxyErrorView> {
    match after_prefix(header, "Bearer "@) {
        Some(token) => Ok(token),
        None => Err(ProxyErrorView::Unauthorized("Invalid Authorization header"@)),
    }
}

/// The claims of the token in an `Authorization` header, which `read` reads from the payload.
pub fn extract_bearer_token<F: Fn(Vec<u8>) -> Option<Claims>>(
    auth_header: &str,
    token_manager: &TokenManager,
    read: F,
) -> (r: Result<Claims, ProxyError>)
    requires
        forall|payload: Vec<u8>| call_requires(read, (payload,)),
    ensures
        match bearer_token(auth_header@) {
            Err(e) => claims_result(r) == Err::<ClaimsView, ProxyErrorView>(e),
            Ok(token) => match opened(token_manager.key(), token) {
                Err(e) => claims_result(r) == Err::<ClaimsView, ProxyErrorView>(e),
                Ok(bytes) => exists|payload: Vec<u8>, claims: Option<Claims>, now: Timestamp|
                    {
                        &&& payload@ == bytes
                        &&& now.valid()
                        &&& #[trigger] call_ensures(read, (payload,), claims)
                        &&& claims_result(r) == claims_verdict(
                            claims_view(claims),
                            #[trigger] now.seconds(),
                        )
                    },
            },
        },
{
    match strip_prefix(auth_header, "Bearer ") {
        Some(token) => token_manager.verify_token(token.as_str(), read),
        None => Err(unauthorized("Invalid Authorization header")),
    }
}

/// A token that was made under a key is opened under it, and holds the payload that it was made
/// with.
pub proof fn law_tokens_are_opened(key: Seq<u8>, payload: Seq<u8>)
    ensures
        opened(key, token_text(key, payload)) == Ok::<Seq<u8>, ProxyErrorView>(payload),
{
    let header = base64url(encode_utf8(TOKEN_HEADER@));
    let body = base64url(payload);
    let code = hmac_sha256(key, encode_utf8(signing_input(payload)));
    let signature = base64url(code);
    lemma_base64url_without_dot(encode_utf8(TOKEN_HEADER@));
    lemma_base64url_without_dot(payload);
    lemma_base64url_without_dot(code);
    law_base64url_is_decoded(payload);
    law_base64url_is_decoded(code);
    reveal_strlit(".");
    assert("."@ =~= seq!['.']);
    lemma_split_single(header, '.');
    lemma_split_append(header, body, '.');
    assert(signing_input(payload) =~= header.push('.') + body);
    lemma_split_append(signing_input(payload), signature, '.');
    assert(token_text(key, payload) =~= signing_input(payload).push('.') + signature);
    assert(split(token_text(key, payload), '.') =~= seq![header, body, signature]);
}

/// Whatever is opened under a key bears the authentication code of its first two parts under that
/// key.
pub proof fn law_opened_tokens_are_signed(key: Seq<u8>, token: Seq<char>)
    requires
        opened(key, token) is Ok,
    ensures
        ({
            let parts = split(token, '.');
            &&& parts.len() == 3
            &&& parts[2] == base64url(hmac_sha256(key, encode_utf8(parts[0] + "."@ + parts[1])))
            &&& parts[1] == base64url(opened(key, token)->Ok_0)
        }),
{
}

/// A token is valid until a day after it was issued, and not after that.
pub proof fn law_tokens_last_a_day(phone_number: Seq<char>, issued: int, now: int)
    ensures
        claims_verdict(Some(claims_at(phone_number, issued)), now) is Ok <==> now <= issued
            + 86_400,
{
}

/// Claims are seen with all that they hold, and a copy of them holds the same.
pub proof fn law_claims_are_seen_whole(claims: &Claims, copy: Claims)
    requires
        call_ensures(Claims::clone, (claims,), copy),
    ensures
        claims@.sub == claims.sub@ && copy.sub@ == claims.sub@,
        claims@.exp == claims.exp && copy.exp == claims.exp,
        claims@.iat == claims.iat && copy.iat == claims.iat,
{
}

} // verus!
