//! Signed, role-scoped, time-bounded bearer tokens (HMAC-SHA-512 JWTs).
use vstd::prelude::*;
use crate::entropy::random_alphanumeric;
use crate::error::{status_of, text_result, AuthError};
use crate::models::{AccessRequest, LoginResponse};
use crate::role::{parse_role, role_name, Role};
use crate::text::{has_prefix, same_text, starts_with};

verus! {

/// How long an access token stays valid: 30 minutes, in seconds.
pub const ACCESS_TTL: i64 = 1800;

/// How long a refresh token stays valid: 14 days, in seconds.
pub const REFRESH_TTL: i64 = 1209600;

/// The number of random bytes in a generated signing secret.
pub const SECRET_LEN: usize = 32;

/// The lifetime, in seconds, of a token issued with role `r`.
pub open spec fn ttl(r: Role) -> int {
    match r {
        Role::Refresh => REFRESH_TTL as int,
        _ => ACCESS_TTL as int,
    }
}

/// The token that jsonwebtoken's `encode` makes with an HS512 header, the
/// secret `key` and the claims `sub`, `role` and `exp`.
pub uninterp spec fn jwt_encoded(key: Seq<u8>, sub: Seq<char>, role: Seq<char>, exp: i64) -> Seq<char>;

/// The claims `(sub, role, exp)` that jsonwebtoken's `decode` reads from
/// `token` when it checks the HS512 signature under `key` and leaves the
/// expiry to the caller; `None` where it rejects the token or a claim is
/// absent or of another type.
pub uninterp spec fn jwt_claims(key: Seq<u8>, token: Seq<char>) -> Option<(Seq<char>, Seq<char>, i64)>;

#[verifier::external_type_specification]
#[verifier::external_body]
pub struct ExJwtError(jsonwebtoken::errors::Error);

/// The claims a token carries.
#[derive(Clone, Debug)]
pub struct Claims {
    pub sub: String,
    pub role: String,
    pub exp: i64,
}

/// The secret that signs and checks every token of one process.
pub struct SigningKey {
    secret: Vec<u8>,
}

impl View for SigningKey {
    type V = Seq<u8>;

    closed spec fn view(&self) -> Seq<u8> {
        self.secret@
    }
}

impl SigningKey {
    /// A key made of the given secret bytes.
    pub fn new(secret: Vec<u8>) -> (k: SigningKey)
        ensures
            k@ == secret@,
    {
        SigningKey { secret }
    }

    /// A fresh random key of `SECRET_LEN` ASCII letters and digits.
    pub fn generate() -> (k: SigningKey)
        ensures
            k@.len() == SECRET_LEN,
            forall|i: int| 0 <= i < k@.len() ==> crate::entropy::is_alphanumeric(#[trigger] k@[i]),
    {
        SigningKey { secret: random_alphanumeric(SECRET_LEN) }
    }
}

/// Relies on jsonwebtoken's `encode` with an HS512 header and an HMAC key
/// from `key`, on the claims object `{sub, role, exp}`. The key family always
/// matches the header's algorithm, and HMAC signing cannot fail, so the call
/// always succeeds.
#[verifier::external_body]
fn encode_jwt(key: &[u8], sub: &str, role: &str, exp: i64) -> (r: Result<String, jsonwebtoken::errors::Error>)
    ensures
        r is Ok,
        r matches Ok(t) ==> t@ == jwt_encoded(key@, sub@, role@, exp),
{
    let mut claims = serde_json::Map::new();
    claims.insert(String::from("sub"), serde_json::Value::from(sub));
    claims.insert(String::from("role"), serde_json::Value::from(role));
    claims.insert(String::from("exp"), serde_json::Value::from(exp));
    let header = jsonwebtoken::Header::new(jsonwebtoken::Algorithm::HS512);
    jsonwebtoken::encode(&header, &claims, &jsonwebtoken::EncodingKey::from_secret(key))
}

/// Relies on jsonwebtoken's `decode`, which accepts only tokens whose header
/// names HS512 and whose signature checks under `key`; its own expiry check
/// is switched off, as the caller compares `exp` with its clock. A token that
/// `encode` made under the same key, with a non-negative `exp`, passes the
/// signature, algorithm and required-claim checks and reads back the claims
/// it was made from.
#[verifier::external_body]
fn decode_jwt(key: &[u8], token: &str) -> (r: Option<Claims>)
    ensures
        r matches Some(c) ==> jwt_claims(key@, token@) == Some((c.sub@, c.role@, c.exp)),
        r is None ==> jwt_claims(key@, token@) is None,
        forall|s: Seq<char>, ro: Seq<char>, e: i64| 0 <= e && token@ == #[trigger] jwt_encoded(key@, s, ro, e)
            ==> r is Some && r->0.sub@ == s && r->0.role@ == ro && r->0.exp == e,
{
    let mut validation = jsonwebtoken::Validation::new(jsonwebtoken::Algorithm::HS512);
    validation.validate_exp = false;
    let key = jsonwebtoken::DecodingKey::from_secret(key);
    let data = jsonwebtoken::decode::<serde_json::Map<String, serde_json::Value>>(token, &key, &validation).ok()?;
    let sub = data.claims.get("sub")?.as_str()?.to_string();
    let role = data.claims.get("role")?.as_str()?.to_string();
    let exp = data.claims.get("exp")?.as_i64()?;
    Some(Claims { sub, role, exp })
}

/// Relies on chrono's `Utc::now`: the current time in seconds since the Unix epoch.
#[verifier::external_body]
fn now_seconds() -> (r: i64) {
    chrono::Utc::now().timestamp()
}

/// The claims of a token for `uid` with role `role`, issued at time `now`.
pub open spec fn issued_claims(uid: Seq<char>, role: Role, now: i64) -> (Seq<char>, Seq<char>, i64) {
    (uid, role_name(role), (now + ttl(role)) as i64)
}

/// The token `create_jwt_at` returns on success.
pub open spec fn token_for(key: Seq<u8>, uid: Seq<char>, role: Role, now: i64) -> Seq<char> {
    let c = issued_claims(uid, role, now);
    jwt_encoded(key, c.0, c.1, c.2)
}

/// Whether a token for `role` issued at `now` has an expiry time that fits.
pub open spec fn expiry_fits(role: Role, now: i64) -> bool {
    now + ttl(role) <= i64::MAX
}

/// Signs a token for `uid` with role `role`, issued at time `now` and expiring
/// `ttl(role)` seconds later.
pub fn create_jwt_at(key: &SigningKey, uid: &str, role: Role, now: i64) -> (r: Result<String, AuthError>)
    requires
        role != Role::Unauth,
    ensures
        expiry_fits(role, now) ==> (r matches Ok(t) && t@ == token_for(key@, uid@, role, now)),
        !expiry_fits(role, now) ==> r == Err::<String, AuthError>(AuthError::TokenCreationError),
{
    let lifetime: i64 = match role {
        Role::Refresh => REFRESH_TTL,
        _ => ACCESS_TTL,
    };
    let exp = match now.checked_add(lifetime) {
        Some(exp) => exp,
        None => return Err(AuthError::TokenCreationError),
    };
    let name = role.to_string();
    match encode_jwt(key.secret.as_slice(), uid, name.as_str(), exp) {
        Ok(t) => Ok(t),
        Err(_) => Err(AuthError::TokenCreationError),
    }
}

/// Signs a token for `uid` with role `role`, issued now.
pub fn create_jwt(key: &SigningKey, uid: &str, role: Role) -> (r: Result<String, AuthError>)
    requires
        role != Role::Unauth,
    ensures
        exists|now: i64|
            (expiry_fits(role, now) ==> (r matches Ok(t) && t@ == token_for(key@, uid@, role, now)))
            && (!expiry_fits(role, now) ==> r == Err::<String, AuthError>(AuthError::TokenCreationError)),
{
    create_jwt_at(key, uid, role, now_seconds())
}

/// The claims held in plain values.
pub open spec fn claims_view(c: Option<Claims>) -> Option<(Seq<char>, Seq<char>, i64)> {
    match c {
        Some(c) => Some((c.sub@, c.role@, c.exp)),
        None => None,
    }
}

/// What a token with claims `c` yields at time `now` where role `required`
/// is asked for: the subject, as long as the token has not expired and its
/// role is exactly the one required.
pub open spec fn claims_outcome(c: Option<(Seq<char>, Seq<char>, i64)>, required: Role, now: i64) -> Result<Seq<char>, AuthError> {
    match c {
        None => Err(AuthError::TokenInvalid),
        Some((sub, role, exp)) => if now >= exp {
            Err(AuthError::TokenInvalid)
        } else if parse_role(role) != required || required == Role::Unauth {
            Err(AuthError::InsufficientRole)
        } else {
            Ok(sub)
        },
    }
}

/// What verifying `token` under `key` for role `required` at time `now` yields.
pub open spec fn verify_outcome(key: Seq<u8>, token: Seq<char>, required: Role, now: i64) -> Result<Seq<char>, AuthError> {
    claims_outcome(jwt_claims(key, token), required, now)
}

/// Checks decoded claims against the required role and the time `now`.
pub fn check_claims(claims: Option<Claims>, required: Role, now: i64) -> (r: Result<String, AuthError>)
    ensures
        text_result(r) == claims_outcome(claims_view(claims), required, now),
{
    match claims {
        None => Err(AuthError::TokenInvalid),
        Some(c) => {
            if now >= c.exp {
                Err(AuthError::TokenInvalid)
            } else {
                let presented = Role::from_str(c.role.as_str());
                if presented != required || required == Role::Unauth {
                    Err(AuthError::InsufficientRole)
                } else {
                    Ok(c.sub)
                }
            }
        },
    }
}

/// Whether a token for `role` issued at `issued` can be made and read back:
/// an issuable role, and an expiry time that fits and is not negative.
pub open spec fn issuable(role: Role, issued: i64) -> bool {
    role != Role::Unauth && expiry_fits(role, issued) && 0 <= issued + ttl(role)
}

/// What presenting, at time `now` and where `required` is asked for, the
/// token issued for `uid` with role `role` at `issued` yields: the subject
/// while the token is unexpired and its role is the one required; a refusal
/// once it has expired, and wherever another role is required.
pub open spec fn issued_token_outcome(
    r: Result<Seq<char>, AuthError>,
    uid: Seq<char>,
    role: Role,
    issued: i64,
    required: Role,
    now: i64,
) -> bool {
    &&& (required == role && now < issued + ttl(role) ==> r == Ok::<Seq<char>, AuthError>(uid))
    &&& (now >= issued + ttl(role) ==> r == Err::<Seq<char>, AuthError>(AuthError::TokenInvalid))
    &&& (role != required ==> r is Err)
}

/// Verifies `token` for role `required` at time `now`: its signature and
/// algorithm, its expiry, and its role. Yields the subject it was issued for.
///
/// For a token that `create_jwt_at` issued under the same key, this yields
/// the subject while the token is unexpired and presented for its own role,
/// and refuses it once it has expired or where another role is required.
pub fn verify_jwt_at(key: &SigningKey, token: &str, required: Role, now: i64) -> (r: Result<String, AuthError>)
    ensures
        text_result(r) == verify_outcome(key@, token@, required, now),
        forall|uid: Seq<char>, role: Role, issued: i64|
            issuable(role, issued) && token@ == #[trigger] token_for(key@, uid, role, issued)
            ==> issued_token_outcome(text_result(r), uid, role, issued, required, now),
{
    let claims = decode_jwt(key.secret.as_slice(), token);
    let r = check_claims(claims, required, now);
    proof {
        assert forall|uid: Seq<char>, role: Role, issued: i64|
            issuable(role, issued) && token@ == #[trigger] token_for(key@, uid, role, issued)
            implies issued_token_outcome(text_result(r), uid, role, issued, required, now) by {
            let c = issued_claims(uid, role, issued);
            assert(token@ == jwt_encoded(key.secret@, c.0, c.1, c.2));
            crate::role::lemma_role_name_round_trip(role);
        }
    }
    r
}

/// Verifies `token` for role `required` against the current time.
pub fn verify_jwt(key: &SigningKey, token: &str, required: Role) -> (r: Result<String, AuthError>)
    ensures
        exists|now: i64| text_result(r) == verify_outcome(key@, token@, required, now),
{
    verify_jwt_at(key, token, required, now_seconds())
}

/// The authorization value held in plain values.
pub open spec fn header_view(h: Option<&str>) -> Option<Seq<char>> {
    match h {
        Some(s) => Some(s@),
        None => None,
    }
}

/// What a request's authorization value yields: the token after the literal
/// prefix `Bearer `.
pub open spec fn header_outcome(h: Option<Seq<char>>) -> Result<Seq<char>, AuthError> {
    match h {
        None => Err(AuthError::MissingAuthHeader),
        Some(s) => if starts_with(s, "Bearer "@) {
            Ok(s.subrange("Bearer "@.len() as int, s.len() as int))
        } else {
            Err(AuthError::MalformedAuthHeader)
        },
    }
}

/// Takes the bearer token out of a request's authorization value.
pub fn jwt_from_header(header: Option<&str>) -> (r: Result<String, AuthError>)
    ensures
        text_result(r) == header_outcome(header_view(header)),
{
    match header {
        None => Err(AuthError::MissingAuthHeader),
        Some(h) => {
            let bearer = "Bearer ";
            if has_prefix(h, bearer) {
                proof {
                    reveal_strlit("Bearer ");
                }
                let token = h.substring_char(7, h.unicode_len());
                Ok(String::from_str(token))
            } else {
                Err(AuthError::MalformedAuthHeader)
            }
        },
    }
}

/// What authorizing a request with authorization value `h` for role
/// `required` at time `now` yields.
pub open spec fn authorize_outcome(key: Seq<u8>, h: Option<Seq<char>>, required: Role, now: i64) -> Result<Seq<char>, AuthError> {
    match header_outcome(h) {
        Err(e) => Err(e),
        Ok(token) => verify_outcome(key, token, required, now),
    }
}

/// The single authorization step of every protected endpoint: takes the
/// bearer token out of the authorization value and verifies it for
/// `required` at time `now`. Yields the authenticated subject.
///
/// A request that carries `Bearer ` and a token that `create_jwt_at` issued
/// under the same key fares as `verify_jwt_at` says of that token.
pub fn authorize_at(key: &SigningKey, header: Option<&str>, required: Role, now: i64) -> (r: Result<String, AuthError>)
    ensures
        text_result(r) == authorize_outcome(key@, header_view(header), required, now),
        forall|uid: Seq<char>, role: Role, issued: i64|
            issuable(role, issued) && header_view(header) == Some("Bearer "@ + #[trigger] token_for(key@, uid, role, issued))
            ==> issued_token_outcome(text_result(r), uid, role, issued, required, now),
{
    match jwt_from_header(header) {
        Err(e) => {
            proof {
                assert forall|uid: Seq<char>, role: Role, issued: i64|
                    issuable(role, issued) && header_view(header) == Some("Bearer "@ + #[trigger] token_for(key@, uid, role, issued))
                    implies issued_token_outcome(text_result(Err::<String, AuthError>(e)), uid, role, issued, required, now) by {
                    lemma_bearer(token_for(key@, uid, role, issued));
                }
            }
            Err(e)
        },
        Ok(token) => {
            let r = verify_jwt_at(key, token.as_str(), required, now);
            proof {
                assert forall|uid: Seq<char>, role: Role, issued: i64|
                    issuable(role, issued) && header_view(header) == Some("Bearer "@ + #[trigger] token_for(key@, uid, role, issued))
                    implies issued_token_outcome(text_result(r), uid, role, issued, required, now) by {
                    lemma_bearer(token_for(key@, uid, role, issued));
                    assert(token@ == token_for(key@, uid, role, issued));
                }
            }
            r
        },
    }
}

/// The authorization value `Bearer ` followed by `t` yields the token `t`.
pub proof fn lemma_bearer(t: Seq<char>)
    ensures
        header_outcome(Some("Bearer "@ + t)) == Ok::<Seq<char>, AuthError>(t),
{
    reveal_strlit("Bearer ");
    let h = "Bearer "@ + t;
    assert(h.subrange(0, 7) =~= "Bearer "@);
    assert(h.subrange(7, h.len() as int) =~= t);
}

/// Authorizes a request for role `required` against the current time.
pub fn authorize(key: &SigningKey, header: Option<&str>, required: Role) -> (r: Result<String, AuthError>)
    ensures
        exists|now: i64| text_result(r) == authorize_outcome(key@, header_view(header), required, now),
{
    authorize_at(key, header, required, now_seconds())
}

/// Issues a refresh token and an access token for `uid`, both at time `now`.
/// Login and refresh hand out pairs made this way.
pub fn issue_pair_at(key: &SigningKey, uid: &str, now: i64) -> (r: Result<LoginResponse, AuthError>)
    ensures
        expiry_fits(Role::Refresh, now) ==> (r matches Ok(p)
            && p.refresh_token@ == token_for(key@, uid@, Role::Refresh, now)
            && p.access_token@ == token_for(key@, uid@, Role::Access, now)),
        !expiry_fits(Role::Refresh, now) ==> (r matches Err(e) && e == AuthError::TokenCreationError),
{
    let refresh_token = match create_jwt_at(key, uid, Role::Refresh, now) {
        Ok(t) => t,
        Err(e) => return Err(e),
    };
    let access_token = match create_jwt_at(key, uid, Role::Access, now) {
        Ok(t) => t,
        Err(e) => return Err(e),
    };
    Ok(LoginResponse { refresh_token, access_token })
}

/// Issues a token pair for `uid` at the current time.
pub fn issue_pair(key: &SigningKey, uid: &str) -> (r: Result<LoginResponse, AuthError>)
    ensures
        exists|now: i64|
            (expiry_fits(Role::Refresh, now) ==> (r matches Ok(p)
                && p.refresh_token@ == token_for(key@, uid@, Role::Refresh, now)
                && p.access_token@ == token_for(key@, uid@, Role::Access, now)))
            && (!expiry_fits(Role::Refresh, now) ==> (r matches Err(e) && e == AuthError::TokenCreationError)),
{
    issue_pair_at(key, uid, now_seconds())
}

/// What an access check of the resource owned by `owner` yields for the
/// authenticated subject `uid`.
pub open spec fn access_outcome(uid: Seq<char>, owner: Seq<char>) -> Result<Seq<char>, AuthError> {
    if uid == owner {
        Ok(uid)
    } else {
        Err(AuthError::InsufficientRole)
    }
}

/// Grants access to a resource only to the subject that owns it.
pub fn validate_user_access(uid: &str, body: &AccessRequest) -> (r: Result<String, AuthError>)
    ensures
        text_result(r) == access_outcome(uid@, body.uid@),
{
    if same_text(uid, body.uid.as_str()) {
        Ok(String::from_str(uid))
    } else {
        Err(AuthError::InsufficientRole)
    }
}

/// A token issued for `uid` with an issuable role, verified for that same
/// role before it expires, yields `uid`.
pub proof fn lemma_round_trip(uid: Seq<char>, role: Role, issued: i64, now: i64)
    requires
        role != Role::Unauth,
        expiry_fits(role, issued),
        now < issued + ttl(role),
    ensures
        claims_outcome(Some(issued_claims(uid, role, issued)), role, now) == Ok::<Seq<char>, AuthError>(uid),
{
    crate::role::lemma_role_name_round_trip(role);
}

/// A token is refused once its lifetime has passed: 30 minutes for an
/// access token, 14 days for a refresh token.
pub proof fn lemma_expiry(uid: Seq<char>, role: Role, issued: i64, now: i64)
    requires
        role != Role::Unauth,
        expiry_fits(role, issued),
        now >= issued + ttl(role),
    ensures
        claims_outcome(Some(issued_claims(uid, role, issued)), role, now) == Err::<Seq<char>, AuthError>(AuthError::TokenInvalid),
        ttl(Role::Access) == 30 * 60,
        ttl(Role::Refresh) == 14 * 24 * 60 * 60,
{
}

/// An access token never passes where a refresh token is required, nor a
/// refresh token where an access token is required.
pub proof fn lemma_role_separation(uid: Seq<char>, issued: i64, now: i64)
    requires
        expiry_fits(Role::Refresh, issued),
    ensures
        claims_outcome(Some(issued_claims(uid, Role::Access, issued)), Role::Refresh, now) is Err,
        claims_outcome(Some(issued_claims(uid, Role::Refresh, issued)), Role::Access, now) is Err,
        now < issued + ttl(Role::Access) ==> claims_outcome(Some(issued_claims(uid, Role::Access, issued)), Role::Refresh, now)
            == Err::<Seq<char>, AuthError>(AuthError::InsufficientRole),
{
    crate::role::lemma_role_name_round_trip(Role::Access);
    crate::role::lemma_role_name_round_trip(Role::Refresh);
}

/// The login, refresh and access flow: the refresh token of a pair issued
/// at `login` for `uid`, presented at `refresh` before it expires, yields
/// `uid`; the access token of the pair then issued, presented at `access`
/// before it expires, yields `uid` again; and the resource check that
/// follows grants exactly the resources that `uid` owns.
pub proof fn lemma_login_refresh_access(uid: Seq<char>, owner: Seq<char>, login: i64, refresh: i64, access: i64)
    requires
        expiry_fits(Role::Refresh, login),
        expiry_fits(Role::Refresh, refresh),
        refresh < login + ttl(Role::Refresh),
        access < refresh + ttl(Role::Access),
    ensures
        claims_outcome(Some(issued_claims(uid, Role::Refresh, login)), Role::Refresh, refresh) == Ok::<Seq<char>, AuthError>(uid),
        claims_outcome(Some(issued_claims(uid, Role::Access, refresh)), Role::Access, access) == Ok::<Seq<char>, AuthError>(uid),
        access_outcome(uid, owner) == (if owner == uid {
            Ok::<Seq<char>, AuthError>(uid)
        } else {
            Err::<Seq<char>, AuthError>(AuthError::InsufficientRole)
        }),
        status_of(AuthError::InsufficientRole) == 403,
{
    lemma_round_trip(uid, Role::Refresh, login, refresh);
    lemma_round_trip(uid, Role::Access, refresh, access);
}

} // verus!
