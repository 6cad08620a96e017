use vstd::prelude::*;
use vstd::string::StringSliceAdditionalSpecFns;
use vstd::utf8::{decode_utf8, encode_utf8, valid_utf8};

use crate::clock::{checked_add_seconds, is_clock_reading, read_clock, seconds_after, Timestamp, MAX_TIMESTAMP};
use crate::errors::AuthError;
use crate::models::User;
use crate::roles::{ascii_lowercase, lemma_role_text_round_trip, role_named, role_text, Role};

verus! {

/// The claims carried by an access token: the user's name, the user's role
/// name, and the expiry as seconds since the Unix epoch.
#[derive(Clone, Debug)]
pub struct Claims {
    pub sub: String,
    pub role: String,
    pub exp: usize,
}

/// How long an access token stays valid, in seconds.
pub const TOKEN_LIFETIME_SECS: i64 = 60;

/// Whether a holder of the role named `claims_role` may use a route that needs
/// `required`: the same role does, and an administrator may use every route.
pub open spec fn authorizes(required: Role, claims_role: Seq<char>) -> bool {
    role_named(claims_role) == required || role_named(claims_role) == Role::Admin
}

/// Decides whether the role named in a token's claims grants `role`.
pub fn is_auth(role: Role, claims_role: &str) -> (r: bool)
    ensures
        r == authorizes(role, claims_role@),
{
    let claims_role = Role::from_str(claims_role);
    role == claims_role || claims_role == Role::Admin
}

/// The scheme prefix of a bearer authorization header.
pub open spec fn bearer_prefix() -> Seq<char> {
    seq!['B', 'e', 'a', 'r', 'e', 'r', ' ']
}

/// Whether `s` starts with "Bearer ".
pub open spec fn starts_with_bearer(s: Seq<char>) -> bool {
    s.len() >= 7 && s.take(7) == bearer_prefix()
}

/// `s` with every leading "Bearer " removed, however many times it repeats.
pub open spec fn strip_bearer(s: Seq<char>) -> Seq<char>
    decreases s.len(),
{
    if starts_with_bearer(s) {
        strip_bearer(s.skip(7))
    } else {
        s
    }
}

/// The token an authorization header's text carries.
pub open spec fn bearer_token_of(header: Seq<char>) -> Result<Seq<char>, AuthError> {
    if starts_with_bearer(header) {
        Ok(strip_bearer(header))
    } else {
        Err(AuthError::InvalidAuthHeaderError)
    }
}

/// The token that the raw bytes of an `Authorization` header, if any, carry.
pub open spec fn header_token(header: Option<Seq<u8>>) -> Result<Seq<char>, AuthError> {
    match header {
        None => Err(AuthError::NoAuthHeaderError),
        Some(bytes) => if valid_utf8(bytes) {
            bearer_token_of(decode_utf8(bytes))
        } else {
            Err(AuthError::NoAuthHeaderError)
        },
    }
}

/// The bytes of an optional header value.
pub open spec fn header_bytes(h: Option<&[u8]>) -> Option<Seq<u8>> {
    match h {
        None => None,
        Some(b) => Some(b@),
    }
}

/// A string result matches a result over sequences of characters.
pub open spec fn same_result(r: Result<String, AuthError>, s: Result<Seq<char>, AuthError>) -> bool {
    match (r, s) {
        (Ok(a), Ok(b)) => a@ == b,
        (Err(a), Err(b)) => a == b,
        _ => false,
    }
}

/// Reads bytes as UTF-8 text with `std::str::from_utf8`.
///
/// Claimed, as std documents: the bytes are accepted exactly when they are
/// valid UTF-8, and the text returned is made of those very bytes.
#[verifier::external_body]
fn utf8_text(bytes: &[u8]) -> (r: Option<&str>)
    ensures
        r is Some <==> valid_utf8(bytes@),
        r matches Some(s) ==> s.spec_bytes() == bytes@,
{
    match std::str::from_utf8(bytes) {
        Ok(s) => Some(s),
        Err(_) => None,
    }
}

/// Whether the characters of `s` from `i` on start with "Bearer ".
fn bearer_at(s: &str, i: usize, n: usize) -> (r: bool)
    requires
        n == s@.len(),
        i <= n,
    ensures
        r == starts_with_bearer(s@.skip(i as int)),
{
    let ghost rest = s@.skip(i as int);
    if n - i < 7 {
        return false;
    }
    let r = s.get_char(i) == 'B' && s.get_char(i + 1) == 'e' && s.get_char(i + 2) == 'a'
        && s.get_char(i + 3) == 'r' && s.get_char(i + 4) == 'e' && s.get_char(i + 5) == 'r'
        && s.get_char(i + 6) == ' ';
    proof {
        if r {
            assert(rest.take(7) =~= bearer_prefix());
        } else {
            if rest.take(7) == bearer_prefix() {
                assert(rest.take(7)[0] == 'B' && rest.take(7)[1] == 'e' && rest.take(7)[2] == 'a');
                assert(rest.take(7)[3] == 'r' && rest.take(7)[4] == 'e' && rest.take(7)[5] == 'r');
                assert(rest.take(7)[6] == ' ');
            }
        }
    }
    r
}

/// Takes the token out of an authorization header's text: the text must start
/// with "Bearer ", and every leading "Bearer " is removed.
pub fn bearer_token(auth_header: &str) -> (r: Result<String, AuthError>)
    ensures
        same_result(r, bearer_token_of(auth_header@)),
{
    let n = auth_header.unicode_len();
    assert(auth_header@.skip(0) =~= auth_header@);
    if !bearer_at(auth_header, 0, n) {
        return Err(AuthError::InvalidAuthHeaderError);
    }
    let mut i: usize = 0;
    while bearer_at(auth_header, i, n)
        invariant
            n == auth_header@.len(),
            i <= n,
            strip_bearer(auth_header@.skip(i as int)) == strip_bearer(auth_header@),
        decreases n - i,
    {
        assert(auth_header@.skip(i as int).skip(7) =~= auth_header@.skip(i + 7));
        i = i + 7;
    }
    let token = auth_header.substring_char(i, n);
    assert(token@ =~= auth_header@.skip(i as int));
    Ok(token.to_owned())
}

/// Takes the bearer token out of the raw bytes of a request's `Authorization`
/// header (`None` where the request has none). A missing header or one that is
/// not UTF-8 is `NoAuthHeaderError`; one without the "Bearer " scheme is
/// `InvalidAuthHeaderError`.
pub fn jwt_from_header(authorization: Option<&[u8]>) -> (r: Result<String, AuthError>)
    ensures
        same_result(r, header_token(header_bytes(authorization))),
{
    match authorization {
        None => Err(AuthError::NoAuthHeaderError),
        Some(bytes) => match utf8_text(bytes) {
            None => Err(AuthError::NoAuthHeaderError),
            Some(text) => {
                proof {
                    vstd::utf8::encode_utf8_decode_utf8(text@);
                }
                bearer_token(text)
            },
        },
    }
}

/// The answer to a request on a route that needs `role`, once its token has been
/// decoded (`None` where the token was rejected): the token's subject where its
/// role grants `role`, `JWTTokenError` for a rejected token, and
/// `NotAuthorizedError` where the role does not grant it.
pub fn authorize_claims(role: Role, decoded: Option<Claims>) -> (r: Result<String, AuthError>)
    ensures
        match decoded {
            None => r == Err::<String, AuthError>(AuthError::JWTTokenError),
            Some(c) => if authorizes(role, c.role@) {
                r matches Ok(sub) && sub@ == c.sub@
            } else {
                r == Err::<String, AuthError>(AuthError::NotAuthorizedError)
            },
        },
{
    match decoded {
        None => Err(AuthError::JWTTokenError),
        Some(claims) => {
            if !is_auth(role, claims.role.as_str()) {
                return Err(AuthError::NotAuthorizedError);
            }
            Ok(claims.sub)
        },
    }
}

/// The claims of a token issued to `user` at time `now`: the user's name and
/// role, expiring `TOKEN_LIFETIME_SECS` later; `None` where that expiry is past
/// the last representable instant.
pub fn jwt_claims_at(user: &User, now: Timestamp) -> (r: Option<Claims>)
    requires
        0 <= now.secs <= MAX_TIMESTAMP,
    ensures
        match seconds_after(now.secs, TOKEN_LIFETIME_SECS) {
            None => r is None,
            Some(exp) => r matches Some(c) && c.sub@ == user.name@ && c.role@ == user.role@
                && c.exp == exp as usize,
        },
{
    match checked_add_seconds(now, TOKEN_LIFETIME_SECS) {
        None => None,
        Some(exp) => Some(Claims { sub: user.name.clone(), role: user.role.clone(), exp: exp as usize }),
    }
}

/// The token that `jsonwebtoken::encode` makes with the default header (HS256)
/// for the JSON claims `{"sub": sub, "role": role, "exp": exp}` under the HMAC
/// secret `secret`.
pub uninterp spec fn hs256_token(sub: Seq<char>, role: Seq<char>, exp: usize, secret: Seq<u8>) -> Seq<char>;

/// Signs the claims `{"sub", "role", "exp"}` with `jsonwebtoken::encode`, the
/// default header and `EncodingKey::from_secret`.
///
/// Claimed: the token is `hs256_token(sub, role, exp, secret)`. The source
/// fails only where the key's family differs from the header's algorithm, or
/// where the claims do not serialize; an HMAC key with the default HS256 header
/// and a JSON object of strings and a number meet neither case.
#[verifier::external_body]
fn encode_token(sub: &str, role: &str, exp: usize, secret: &[u8]) -> (t: String)
    ensures
        t@ == hs256_token(sub@, role@, exp, secret@),
{
    let mut claims = serde_json::Map::new();
    claims.insert("sub".to_owned(), serde_json::Value::from(sub));
    claims.insert("role".to_owned(), serde_json::Value::from(role));
    claims.insert("exp".to_owned(), serde_json::Value::from(exp));
    let key = jsonwebtoken::EncodingKey::from_secret(secret);
    match jsonwebtoken::encode(&jsonwebtoken::Header::default(), &claims, &key) {
        Ok(token) => token,
        Err(_) => String::new(),
    }
}

/// The token issued to `user` at time `now` under `secret`, if its expiry is
/// representable.
pub open spec fn token_at(user: User, now: i64, secret: Seq<u8>) -> Option<Seq<char>> {
    match seconds_after(now, TOKEN_LIFETIME_SECS) {
        None => None,
        Some(exp) => Some(hs256_token(user.name@, user.role@, exp as usize, secret)),
    }
}

/// Issues an access token to `user` at time `now`: its claims are the user's
/// name and role and an expiry `TOKEN_LIFETIME_SECS` later, signed with HS256
/// under `secret`; `None` where the expiry is not representable.
pub fn get_jwt_at(user: &User, now: Timestamp, secret: &[u8]) -> (r: Option<String>)
    requires
        0 <= now.secs <= MAX_TIMESTAMP,
    ensures
        match (r, token_at(*user, now.secs, secret@)) {
            (None, None) => true,
            (Some(t), Some(u)) => t@ == u,
            _ => false,
        },
{
    match jwt_claims_at(user, now) {
        None => None,
        Some(claims) => Some(encode_token(claims.sub.as_str(), claims.role.as_str(), claims.exp, secret)),
    }
}

/// Issues an access token to `user` now, signed under `secret`: the token made
/// from the user's name and role and an expiry `TOKEN_LIFETIME_SECS` after a
/// reading of the clock taken during the call.
pub fn get_jwt(user: &User, secret: &[u8]) -> (r: Option<String>)
    ensures
        exists|now: Timestamp|
            #![trigger is_clock_reading(now)]
            is_clock_reading(now) && 0 <= now.secs <= MAX_TIMESTAMP && match (r, token_at(*user, now.secs, secret@)) {
                (None, None) => true,
                (Some(t), Some(u)) => t@ == u,
                _ => false,
            },
        exists|now: i64|
            0 <= now <= MAX_TIMESTAMP && match (r, #[trigger] token_at(*user, now, secret@)) {
                (None, None) => true,
                (Some(t), Some(u)) => t@ == u,
                _ => false,
            },
{
    let now = read_clock();
    get_jwt_at(user, now, secret)
}

/// A token issued at `now` carries the user's name and role and expires
/// exactly `TOKEN_LIFETIME_SECS` after `now`; none is issued where that expiry
/// is past the last representable instant.
pub proof fn lemma_token_expires_one_lifetime_after_issue(user: User, now: i64, secret: Seq<u8>)
    requires
        0 <= now <= MAX_TIMESTAMP,
    ensures
        now + TOKEN_LIFETIME_SECS <= MAX_TIMESTAMP ==> token_at(user, now, secret) == Some(
            hs256_token(user.name@, user.role@, (now + TOKEN_LIFETIME_SECS) as usize, secret),
        ),
        now + TOKEN_LIFETIME_SECS > MAX_TIMESTAMP ==> token_at(user, now, secret) is None,
{
}

/// A token whose role names `Admin`, in whatever letter case, passes every
/// route.
pub proof fn lemma_admin_passes_every_route(required: Role, claims_role: Seq<char>)
    requires
        role_named(claims_role) == Role::Admin,
    ensures
        authorizes(required, claims_role),
{
}

/// A token whose role names `User` passes the routes that need `User` and no
/// route that needs `Admin`.
pub proof fn lemma_user_passes_only_user_routes(claims_role: Seq<char>)
    requires
        role_named(claims_role) == Role::User,
    ensures
        authorizes(Role::User, claims_role),
        !authorizes(Role::Admin, claims_role),
{
}

/// The decision depends on the token's role text only through the role it
/// names: two texts naming the same role are treated alike on every route.
pub proof fn lemma_authorization_depends_only_on_named_role(required: Role, a: Seq<char>, b: Seq<char>)
    requires
        role_named(a) == role_named(b),
    ensures
        authorizes(required, a) == authorizes(required, b),
{
}

/// The decision ignores ASCII letter case in the token's role text.
pub proof fn lemma_authorization_ignores_letter_case(required: Role, a: Seq<char>, b: Seq<char>)
    requires
        ascii_lowercase(a) == ascii_lowercase(b),
    ensures
        authorizes(required, a) == authorizes(required, b),
{
}

/// A token whose role is the display text of a role `held` grants exactly the
/// routes that need `held`, and every route when `held` is `Admin`.
pub proof fn lemma_displayed_role_authorizes(required: Role, held: Role)
    ensures
        authorizes(required, role_text(held)) <==> (held == required || held == Role::Admin),
{
    lemma_role_text_round_trip(held);
}

/// An authorization header "Bearer <token>", sent as UTF-8, carries `token`,
/// provided the token does not itself start with "Bearer ".
pub proof fn lemma_bearer_header_carries_token(token: Seq<char>)
    requires
        !starts_with_bearer(token),
    ensures
        bearer_token_of(bearer_prefix() + token) == Ok::<Seq<char>, AuthError>(token),
        header_token(Some(encode_utf8(bearer_prefix() + token))) == Ok::<Seq<char>, AuthError>(token),
{
    let h = bearer_prefix() + token;
    assert(h.take(7) =~= bearer_prefix());
    assert(h.skip(7) =~= token);
    assert(starts_with_bearer(h));
    assert(strip_bearer(token) == token);
    assert(strip_bearer(h) == strip_bearer(h.skip(7)));
    assert(bearer_token_of(h) == Ok::<Seq<char>, AuthError>(token));
    vstd::utf8::encode_utf8_valid_utf8(h);
    vstd::utf8::encode_utf8_decode_utf8(h);
}

} // verus!
