use vstd::prelude::*;
use vstd::string::StringExecFns;

verus! {

/// The claims carried by a bearer credential: whom it refers to and the
/// moment it expires, in seconds since the Unix epoch.
pub struct Claims {
    pub sub: String,
    pub exp: u64,
}

/// What the signed credential `token` decodes to under the HMAC secret
/// `secret`: its subject and expiry when the token is well formed, signed with
/// HS256 under that secret and carries both claims; nothing otherwise.
pub uninterp spec fn decoded_claims(token: Seq<char>, secret: Seq<char>) -> Option<(Seq<char>, u64)>;

/// Relies on `jsonwebtoken::decode` (with `DecodingKey::from_secret` and the
/// default `Validation` with its expiry check off): it checks the structure,
/// the algorithm (HS256) and the signature, and hands back the claims, from
/// which `sub` and `exp` are taken. With the expiry check off the outcome
/// depends on the token and the secret alone.
#[verifier::external_body]
fn decode_claims(token: &str, secret: &str) -> (r: Option<Claims>)
    ensures
        match r {
            Some(c) => decoded_claims(token@, secret@) == Some((c.sub@, c.exp)),
            None => decoded_claims(token@, secret@) is None,
        },
{
    let key = jsonwebtoken::DecodingKey::from_secret(secret.as_bytes());
    let validation = jsonwebtoken::Validation { validate_exp: false, ..Default::default() };
    let data = jsonwebtoken::decode::<std::collections::HashMap<String, serde_json::Value>>(
        token,
        &key,
        &validation,
    ).ok()?;
    let sub = data.claims.get("sub")?.as_str()?.to_string();
    let exp = data.claims.get("exp")?.as_u64()?;
    Some(Claims { sub, exp })
}

/// An expiry `exp` has not elapsed at `now` (no leeway).
pub open spec fn not_elapsed(exp: u64, now: u64) -> bool {
    exp >= now
}

/// Whether `token` is accepted under `secret` at time `now`: it decodes and
/// has not expired.
pub open spec fn accepts(token: Seq<char>, secret: Seq<char>, now: u64) -> bool {
    match decoded_claims(token, secret) {
        Some(c) => not_elapsed(c.1, now),
        None => false,
    }
}

/// The single outcome of a refused credential: the caller is unauthorized,
/// whatever the reason was.
pub struct AuthError;

impl AuthError {
    /// The HTTP status of the rejection.
    pub fn status(&self) -> (r: u16)
        ensures
            r == 401,
    {
        401
    }

    /// The scheme named in the `WWW-Authenticate` challenge of the rejection.
    pub fn challenge(&self) -> (r: String)
        ensures
            r@ == "Bearer"@,
    {
        String::from_str("Bearer")
    }
}

/// Decides on already decoded claims: accepted when there are claims and their
/// expiry has not elapsed at `now`.
pub fn check_claims(claims: &Option<Claims>, now: u64) -> (r: Result<(), AuthError>)
    ensures
        r is Ok <==> (match claims {
            Some(c) => not_elapsed(c.exp, now),
            None => false,
        }),
{
    match claims {
        Some(c) => {
            if c.exp >= now {
                Ok(())
            } else {
                Err(AuthError)
            }
        },
        None => Err(AuthError),
    }
}

/// Validates bearer credentials against a shared secret.
pub struct AuthTokenValidator {
    secret: String,
}

impl View for AuthTokenValidator {
    type V = Seq<char>;

    /// The secret that credentials are checked against.
    closed spec fn view(&self) -> Seq<char> {
        self.secret@
    }
}

impl AuthTokenValidator {
    /// A validator that checks credentials against `secret`.
    pub fn new(secret: &str) -> (r: Self)
        ensures
            r@ == secret@,
    {
        AuthTokenValidator { secret: String::from_str(secret) }
    }

    /// Validates a signed credential at time `now`: any structural, signature
    /// or expiry failure gives the same `AuthError`.
    pub fn validate_auth_token(&self, token: &str, now: u64) -> (r: Result<(), AuthError>)
        ensures
            r is Ok <==> accepts(token@, self@, now),
    {
        let claims = decode_claims(token, self.secret.as_str());
        check_claims(&claims, now)
    }

    /// The authentication gate: forwards `req` unchanged when a credential is
    /// present and valid at `now`, and rejects it otherwise, without telling a
    /// missing credential from an invalid one.
    pub fn validator<R>(&self, req: R, credential: Option<&str>, now: u64) -> (r: Result<R, AuthError>)
        ensures
            r is Ok <==> (match credential {
                Some(t) => accepts(t@, self@, now),
                None => false,
            }),
            r matches Ok(q) ==> q == req,
    {
        match credential {
            Some(token) => match self.validate_auth_token(token, now) {
                Ok(()) => Ok(req),
                Err(e) => Err(e),
            },
            None => Err(AuthError),
        }
    }
}

/// A credential whose expiry has passed is refused, whether or not its
/// signature is right: under any secret it either fails to decode or decodes
/// to an elapsed expiry.
pub proof fn lemma_expired_rejected(token: Seq<char>, secret: Seq<char>, now: u64)
    requires
        decoded_claims(token, secret) matches Some(c) ==> c.1 < now,
    ensures
        !accepts(token, secret, now),
{
}

/// A credential that does not verify under the configured secret (signed with
/// another one, or malformed) is refused at every time.
pub proof fn lemma_foreign_signature_rejected(token: Seq<char>, secret: Seq<char>, now: u64)
    requires
        decoded_claims(token, secret) is None,
    ensures
        !accepts(token, secret, now),
{
}

/// A credential that verifies under the configured secret and has not expired
/// is accepted.
pub proof fn lemma_valid_accepted(token: Seq<char>, secret: Seq<char>, sub: Seq<char>, exp: u64, now: u64)
    requires
        decoded_claims(token, secret) == Some((sub, exp)),
        not_elapsed(exp, now),
    ensures
        accepts(token, secret, now),
{
}

} // verus!
