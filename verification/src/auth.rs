use vstd::prelude::*;

use jwt_simple::claims::Claims;
use jwt_simple::claims::JWTClaims;
use jwt_simple::claims::NoCustomClaims;
use jwt_simple::prelude::Duration;
use jwt_simple::prelude::HS256Key;
use jwt_simple::prelude::MACLike;

verus! {

/// How long an issued token stays valid, in seconds.
pub const TOKEN_DURATION_SECS: u64 = 300;

#[verifier::external_type_specification]
#[verifier::external_body]
pub struct ExHS256Key(HS256Key);

#[verifier::external_type_specification]
#[verifier::external_body]
#[verifier::reject_recursive_types(CustomClaims)]
pub struct ExJWTClaims<CustomClaims>(JWTClaims<CustomClaims>);

#[verifier::external_type_specification]
#[verifier::external_body]
pub struct ExNoCustomClaims(NoCustomClaims);

/// Relies on jwt_simple's HS256Key::generate: a fresh random symmetric
/// signing key.
#[verifier::external_body]
fn generate_key() -> (k: HS256Key) {
    HS256Key::generate()
}

/// Relies on jwt_simple's Claims::create: a claim set whose validity window
/// starts at the current time and lasts `valid_secs` seconds, with no custom
/// payload. The result depends on the clock, so nothing is stated of it.
/// The expiry is computed with an unchecked addition on the clock's ticks,
/// so the window is kept short enough (at most a year) for that sum never
/// to overflow.
#[verifier::external_body]
fn fresh_claims(valid_secs: u64) -> (c: JWTClaims<NoCustomClaims>)
    requires
        valid_secs <= 31_536_000,
{
    Claims::create(Duration::from_secs(valid_secs))
}

/// Relies on jwt_simple's MACLike::authenticate: serialises the claims and
/// signs them with `key`, returning the token string on success and the
/// signing error's message otherwise.
#[verifier::external_body]
fn sign_claims(key: &HS256Key, claims: JWTClaims<NoCustomClaims>) -> (r: Result<String, String>) {
    key.authenticate(claims).map_err(|e| e.to_string())
}

/// Relies on jwt_simple's MACLike::verify_token: true exactly when the token
/// parses as a JWT, its signature is valid under `key`, and the current time
/// lies within the claims' validity window (with the library's default time
/// tolerance). The result depends on the clock, so nothing is stated of it.
#[verifier::external_body]
fn token_valid(key: &HS256Key, token: &str) -> (ok: bool) {
    key.verify_token::<NoCustomClaims>(token, None).is_ok()
}

/// Mints and checks time-bounded signed bearer tokens with a single symmetric
/// key generated once and immutable afterwards. Tokens carry no payload
/// beyond their validity window; possession of a fresh one is the whole
/// credential.
pub struct TokenAuthority {
    key: HS256Key,
}

impl TokenAuthority {
    /// Generate the process-lifetime signing key.
    pub fn new() -> (a: TokenAuthority) {
        TokenAuthority { key: generate_key() }
    }

    /// Mint a token valid from now for `TOKEN_DURATION_SECS` seconds; on
    /// failure of the underlying signing call, its message.
    pub fn issue(&self) -> (r: Result<String, String>) {
        let claims = fresh_claims(TOKEN_DURATION_SECS);
        sign_claims(&self.key, claims)
    }

    /// Check a submitted token's signature and freshness. Read-only, so
    /// callers may share the authority freely.
    pub fn verify(&self, token: &str) -> (ok: bool) {
        token_valid(&self.key, token)
    }
}

} // verus!
