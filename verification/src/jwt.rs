use vstd::prelude::*;

use crate::error::AuthServiceError;

verus! {

/// Seconds an identity token stays valid: a fixed 24-hour window.
pub const TOKEN_VALIDITY_SECS: u64 = 24 * 3600;

/// The fixed development fallback signing secret, used when the environment
/// supplies none. Keeping this fallback is a deliberate simplicity trade-off
/// of this system, not an oversight to harden away.
pub open spec fn default_secret() -> Seq<char> {
    "secret"@
}

/// Decoded payload of an identity token.
#[derive(Debug, Clone)]
pub struct Claims {
    /// Subject: the stable identifier of the authenticated user.
    pub sub: String,
    /// Denormalized username, carried for display.
    pub username: String,
    /// Expiry timestamp, in seconds since the Unix epoch.
    pub exp: u64,
    /// Issued-at timestamp, in seconds since the Unix epoch.
    pub iat: u64,
}

/// Mathematical model of a claims payload.
pub struct ClaimsView {
    pub sub: Seq<char>,
    pub username: Seq<char>,
    pub exp: u64,
    pub iat: u64,
}

impl View for Claims {
    type V = ClaimsView;

    open spec fn view(&self) -> ClaimsView {
        ClaimsView { sub: self.sub@, username: self.username@, exp: self.exp, iat: self.iat }
    }
}

/// The serialized token that signing produces for a claims payload and a
/// secret. HMAC signing over a fixed header makes the result a function of
/// these two arguments alone.
pub uninterp spec fn jwt_encode_of(claims: ClaimsView, secret: Seq<char>) -> Seq<char>;

/// What decoding a serialized token with a secret yields: the embedded claims
/// when the structure parses and the signature matches the secret, nothing
/// otherwise. With time validation turned off this is a function of the two
/// arguments alone.
pub uninterp spec fn jwt_decode_of(token: Seq<char>, secret: Seq<char>) -> Option<ClaimsView>;

/// Relies on jsonwebtoken::encode with the default HS256 header: serialization
/// and HMAC signing are deterministic in the claims and the secret, the token
/// is never empty (three dot-separated parts), and jsonwebtoken::decode with
/// the same secret recovers exactly the claims that were encoded. On this
/// path the call cannot fail: the key family matches the default header's
/// algorithm, JSON serialization of the fixed payload shape cannot error, and
/// HMAC signing always returns a signature.
#[verifier::external_body]
fn jwt_encode(claims: &Claims, secret: &str) -> (r: Option<String>)
    ensures
        r is Some,
        r matches Some(t) ==> t@ == jwt_encode_of(claims@, secret@),
        r matches Some(t) ==> jwt_decode_of(t@, secret@) == Some(claims@),
        r matches Some(t) ==> t@.len() > 0,
{
    let mut payload = serde_json::Map::new();
    payload.insert("sub".to_owned(), serde_json::Value::from(claims.sub.clone()));
    payload.insert("username".to_owned(), serde_json::Value::from(claims.username.clone()));
    payload.insert("exp".to_owned(), serde_json::Value::from(claims.exp));
    payload.insert("iat".to_owned(), serde_json::Value::from(claims.iat));
    jsonwebtoken::encode(
        &jsonwebtoken::Header::default(),
        &serde_json::Value::Object(payload),
        &jsonwebtoken::EncodingKey::from_secret(secret.as_bytes()),
    )
    .ok()
}

/// Relies on jsonwebtoken::decode with HS256: with time validation turned off,
/// signature check and claim extraction depend on the token and the secret
/// alone, and fail together as one all-or-nothing outcome.
#[verifier::external_body]
fn jwt_decode(token: &str, secret: &str) -> (r: Option<Claims>)
    ensures
        r matches Some(c) ==> jwt_decode_of(token@, secret@) == Some(c@),
        r is None ==> jwt_decode_of(token@, secret@) is None,
{
    let mut validation = jsonwebtoken::Validation::new(jsonwebtoken::Algorithm::HS256);
    validation.validate_exp = false;
    let key = jsonwebtoken::DecodingKey::from_secret(secret.as_bytes());
    let data = jsonwebtoken::decode::<serde_json::Value>(token, &key, &validation).ok()?;
    let sub = data.claims.get("sub")?.as_str()?.to_owned();
    let username = data.claims.get("username")?.as_str()?.to_owned();
    let exp = data.claims.get("exp")?.as_u64()?;
    let iat = data.claims.get("iat")?.as_u64()?;
    Some(Claims { sub, username, exp, iat })
}

/// Relies on std::time::SystemTime::now, read as whole seconds since the Unix
/// epoch; yields nothing when the clock reports a time before the epoch.
#[verifier::external_body]
fn now_unix() -> (r: Option<u64>) {
    match std::time::SystemTime::now().duration_since(std::time::UNIX_EPOCH) {
        Ok(elapsed) => Some(elapsed.as_secs()),
        Err(_) => None,
    }
}

/// The claims payload issued at time `iat`: expiry is exactly the validity
/// window after issue.
pub open spec fn spec_claims(sub: Seq<char>, username: Seq<char>, iat: u64) -> ClaimsView {
    ClaimsView { sub, username, exp: (iat + TOKEN_VALIDITY_SECS) as u64, iat }
}

/// Outcome of verification at time `now`, given what the token decoded to:
/// all-or-nothing, and every failure is the same undifferentiated
/// `Unauthorized`.
pub open spec fn spec_verify(decoded: Option<ClaimsView>, now: u64) -> Result<
    ClaimsView,
    AuthServiceError,
> {
    match decoded {
        Some(c) => if now < c.exp {
            Ok(c)
        } else {
            Err(AuthServiceError::Unauthorized)
        },
        None => Err(AuthServiceError::Unauthorized),
    }
}

/// Applies the expiry rule to a decoded claims payload: accepted unchanged
/// exactly when the expiry lies strictly after `now`.
pub fn accept_claims(claims: Claims, now: u64) -> (r: Result<Claims, AuthServiceError>)
    ensures
        now < claims.exp ==> (r matches Ok(c) && c == claims),
        claims.exp <= now ==> r == Err::<Claims, AuthServiceError>(AuthServiceError::Unauthorized),
{
    if now < claims.exp {
        Ok(claims)
    } else {
        Err(AuthServiceError::Unauthorized)
    }
}

/// Issues and verifies signed, time-bounded identity tokens. The process-wide
/// signing secret is threaded in once, at construction, as an explicit
/// configuration value; its view is the secret.
pub struct TokenService {
    secret: String,
}

impl View for TokenService {
    type V = Seq<char>;

    closed spec fn view(&self) -> Seq<char> {
        self.secret@
    }
}

impl TokenService {
    /// Builds the service from an optional environment-supplied secret,
    /// falling back to the fixed development secret when none is given.
    pub fn new(secret: Option<String>) -> (svc: Self)
        ensures
            svc@ == match secret {
                Some(s) => s@,
                None => default_secret(),
            },
    {
        match secret {
            Some(s) => TokenService { secret: s },
            None => TokenService { secret: "secret".to_owned() },
        }
    }

    /// Builds, signs and serializes the token for `sub` issued at `now`:
    /// the payload carries {subject, username, issued-at, expiry} with expiry
    /// exactly the validity window after `now`. Issuance always succeeds:
    /// HMAC signing of this payload cannot fail.
    pub fn issue_at(&self, sub: &str, username: &str, now: u64) -> (r: Result<
        String,
        AuthServiceError,
    >)
        requires
            now + TOKEN_VALIDITY_SECS <= u64::MAX,
        ensures
            r is Ok,
            r matches Ok(t) ==> (t@ == jwt_encode_of(spec_claims(sub@, username@, now), self@)
                && jwt_decode_of(t@, self@) == Some(spec_claims(sub@, username@, now))
                && t@.len() > 0),
    {
        let claims = Claims {
            sub: sub.to_owned(),
            username: username.to_owned(),
            exp: now + TOKEN_VALIDITY_SECS,
            iat: now,
        };
        match jwt_encode(&claims, self.secret.as_str()) {
            Some(t) => Ok(t),
            None => Err(AuthServiceError::InternalError),
        }
    }

    /// Parses the token and validates signature and expiry against `now`.
    /// Verification never partially succeeds, and an expired token is
    /// indistinguishable from a tampered or malformed one.
    pub fn verify_at(&self, token: &str, now: u64) -> (r: Result<Claims, AuthServiceError>)
        ensures
            (match r {
                Ok(c) => spec_verify(jwt_decode_of(token@, self@), now) == Ok::<
                    ClaimsView,
                    AuthServiceError,
                >(c@),
                Err(e) => spec_verify(jwt_decode_of(token@, self@), now) == Err::<
                    ClaimsView,
                    AuthServiceError,
                >(e),
            }),
    {
        match jwt_decode(token, self.secret.as_str()) {
            Some(c) => accept_claims(c, now),
            None => Err(AuthServiceError::Unauthorized),
        }
    }

    /// Issues a token for the user at the current clock reading; a clock
    /// before the epoch or past the representable window is a server-side
    /// fault.
    pub fn generate_token(&self, user_id: &str, username: &str) -> (r: Result<
        String,
        AuthServiceError,
    >)
        ensures
            r matches Ok(t) ==> (t@.len() > 0 && exists|now: u64|
                now + TOKEN_VALIDITY_SECS <= u64::MAX && jwt_decode_of(t@, self@) == Some(
                    #[trigger] spec_claims(user_id@, username@, now),
                ) && t@ == jwt_encode_of(spec_claims(user_id@, username@, now), self@)),
            r matches Err(e) ==> e == AuthServiceError::InternalError,
    {
        let now = match now_unix() {
            Some(n) => n,
            None => return Err(AuthServiceError::InternalError),
        };
        if now > u64::MAX - TOKEN_VALIDITY_SECS {
            return Err(AuthServiceError::InternalError);
        }
        self.issue_at(user_id, username, now)
    }

    /// Verifies a token against the current clock reading. Success yields
    /// exactly the embedded claims; every failure is the same undifferentiated
    /// `Unauthorized`.
    pub fn verify_token(&self, token: &str) -> (r: Result<Claims, AuthServiceError>)
        ensures
            r matches Ok(c) ==> jwt_decode_of(token@, self@) == Some(c@),
            r matches Err(e) ==> e == AuthServiceError::Unauthorized,
            jwt_decode_of(token@, self@) is None ==> r is Err,
    {
        match now_unix() {
            Some(n) => self.verify_at(token, n),
            None => Err(AuthServiceError::Unauthorized),
        }
    }
}

/// True when the header value starts with the literal `"Bearer "` scheme
/// prefix.
pub open spec fn spec_has_bearer_prefix(h: Seq<char>) -> bool {
    h.len() >= 7 && h.subrange(0, 7) == "Bearer "@
}

/// The token part of a bearer header: what follows the prefix.
pub open spec fn spec_bearer_token(h: Seq<char>) -> Seq<char> {
    h.subrange(7, h.len() as int)
}

impl TokenService {
    /// Extracts the bearer token from an `Authorization` header value and
    /// verifies it at time `now`: a missing header and a value without the
    /// `"Bearer "` prefix are rejected outright, and the remainder goes
    /// through token verification unchanged.
    pub fn authenticate_at(&self, header: Option<&String>, now: u64) -> (r: Result<
        Claims,
        AuthServiceError,
    >)
        ensures
            (match header {
                None => r == Err::<Claims, AuthServiceError>(AuthServiceError::Unauthorized),
                Some(h) => if spec_has_bearer_prefix(h@) {
                    match r {
                        Ok(c) => spec_verify(jwt_decode_of(spec_bearer_token(h@), self@), now)
                            == Ok::<ClaimsView, AuthServiceError>(c@),
                        Err(e) => spec_verify(jwt_decode_of(spec_bearer_token(h@), self@), now)
                            == Err::<ClaimsView, AuthServiceError>(e),
                    }
                } else {
                    r == Err::<Claims, AuthServiceError>(AuthServiceError::Unauthorized)
                },
            }),
    {
        let h = match header {
            Some(h) => h,
            None => return Err(AuthServiceError::Unauthorized),
        };
        let len = h.as_str().unicode_len();
        if len < 7 {
            return Err(AuthServiceError::Unauthorized);
        }
        let prefix = h.as_str().substring_char(0, 7).to_owned();
        let bearer = "Bearer ".to_owned();
        if !(prefix == bearer) {
            return Err(AuthServiceError::Unauthorized);
        }
        let token = h.as_str().substring_char(7, len);
        self.verify_at(token, now)
    }

    /// Per-request validation gate: requires the `Authorization` header,
    /// requires the bearer scheme, and verifies the remaining token against
    /// the current clock reading.
    pub fn authenticate(&self, header: Option<&String>) -> (r: Result<Claims, AuthServiceError>)
        ensures
            header is None ==> r is Err,
            (header matches Some(h) && !spec_has_bearer_prefix(h@)) ==> r is Err,
            r matches Err(e) ==> e == AuthServiceError::Unauthorized,
            r matches Ok(c) ==> (header matches Some(h) && spec_has_bearer_prefix(h@)
                && jwt_decode_of(spec_bearer_token(h@), self@) == Some(c@)),
    {
        match now_unix() {
            Some(n) => self.authenticate_at(header, n),
            None => Err(AuthServiceError::Unauthorized),
        }
    }
}

/// Round-trip window law: the claims issued at `iat` carry that issued-at and
/// an expiry exactly the validity window later, and they pass verification at
/// a check time exactly when it lies strictly before that expiry.
pub proof fn lemma_issue_verify_window(sub: Seq<char>, username: Seq<char>, iat: u64, check: u64)
    requires
        iat + TOKEN_VALIDITY_SECS <= u64::MAX,
    ensures
        spec_claims(sub, username, iat).iat == iat,
        spec_claims(sub, username, iat).exp == iat + TOKEN_VALIDITY_SECS,
        check < iat + TOKEN_VALIDITY_SECS ==> spec_verify(
            Some(spec_claims(sub, username, iat)),
            check,
        ) == Ok::<ClaimsView, AuthServiceError>(spec_claims(sub, username, iat)),
        iat + TOKEN_VALIDITY_SECS <= check ==> spec_verify(
            Some(spec_claims(sub, username, iat)),
            check,
        ) == Err::<ClaimsView, AuthServiceError>(AuthServiceError::Unauthorized),
{
}

/// Non-distinguishing failure law: at any check time, decoded claims whose
/// expiry has passed fail verification with exactly the same outcome as a
/// token that does not decode at all (tampered signature or malformed
/// structure).
pub proof fn lemma_expired_like_invalid(c: ClaimsView, now: u64)
    requires
        c.exp <= now,
    ensures
        spec_verify(Some(c), now) == spec_verify(None::<ClaimsView>, now),
        spec_verify(Some(c), now) == Err::<ClaimsView, AuthServiceError>(
            AuthServiceError::Unauthorized,
        ),
{
}

} // verus!
