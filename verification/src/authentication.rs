//! Session tokens and password hashing: the claims carried by a session
//! token, the register of pending account tokens, and the password-hashing
//! primitives the login and registration flows rely on.

use vstd::prelude::*;
use vstd::hash_map::StringHashMap;

use crate::models::User;
use crate::text::{i64_to_string, spec_i64_digits};

verus! {

/// How long a session token stays valid: fourteen days, in seconds.
pub const SESSION_LIFETIME_SECONDS: usize = 1209600;

/// The metadata of one RPC call: the bearer token of its caller, if the
/// transport carried one.
#[derive(Debug, Clone)]
pub struct Meta {
    pub jwt: Option<String>,
}

/// The claims of a session token: the subject — the user's id, in decimal —
/// and the expiry, in seconds since the epoch.
#[derive(Debug)]
pub struct Claims {
    pub sub: String,
    pub exp: usize,
}

/// A failure of the token machinery that the caller cannot mend.
#[derive(Clone, Copy, PartialEq, Eq, Structural, Debug)]
pub enum AuthError {
    /// The token could not be decoded, or its claims did not hold up.
    InvalidToken,
}

/// The error type of the password-hashing machinery.
#[verifier::external_type_specification]
#[verifier::external_body]
pub struct ExPasswordHashError(pbkdf2::password_hash::Error);

/// The error type of the token machinery.
#[verifier::external_type_specification]
#[verifier::external_body]
pub struct ExJwtError(jsonwebtoken::errors::Error);

/// The session token signed for the given subject, expiry and secret.
pub uninterp spec fn spec_jwt_of(sub: Seq<char>, exp: usize, secret: Seq<char>) -> Seq<char>;

/// Relies on jsonwebtoken::encode with the default header and a plain
/// secret key: the token is a function of the claims and the secret alone.
#[verifier::external_body]
fn jwt_encode(sub: &str, exp: usize, secret: &str) -> (r: Result<
    String,
    jsonwebtoken::errors::Error,
>)
    ensures
        r matches Ok(t) ==> t@ == spec_jwt_of(sub@, exp, secret@),
{
    let mut claims = serde_json::Map::new();
    claims.insert("sub".to_owned(), serde_json::Value::from(sub));
    claims.insert("exp".to_owned(), serde_json::Value::from(exp as u64));
    jsonwebtoken::encode(
        &jsonwebtoken::Header::default(),
        &serde_json::Value::Object(claims),
        &jsonwebtoken::EncodingKey::from_secret(secret.as_bytes()),
    )
}

/// Relies on jsonwebtoken::decode with a plain secret key: it checks the
/// signature against the secret and the expiry against the clock, so
/// nothing is promised of which tokens pass; what comes back on success
/// are the token's `sub` and `exp` claims.
#[verifier::external_body]
fn jwt_decode(token: &str, secret: &str) -> (r: Result<
    (String, u64),
    jsonwebtoken::errors::Error,
>) {
    let mut validation = jsonwebtoken::Validation::new(jsonwebtoken::Algorithm::HS256);
    validation.set_required_spec_claims(&["exp", "sub"]);
    let data = jsonwebtoken::decode::<serde_json::Value>(
        token,
        &jsonwebtoken::DecodingKey::from_secret(secret.as_bytes()),
        &validation,
    )?;
    let sub = data.claims.get("sub").and_then(|v| v.as_str()).ok_or(
        jsonwebtoken::errors::Error::from(jsonwebtoken::errors::ErrorKind::MissingRequiredClaim(
            "sub".to_owned(),
        )),
    )?;
    let exp = data.claims.get("exp").and_then(|v| v.as_u64()).unwrap_or(0);
    Ok((sub.to_owned(), exp))
}

impl Claims {
    /// Reads the claims out of a call's metadata: no token at all is a
    /// plain "not logged in", a token that does not decode or validate is
    /// an error.
    pub fn from_meta(meta: &Meta, secret: &str) -> (r: Result<Option<Claims>, AuthError>)
        ensures
            meta.jwt is None <==> r == Ok::<Option<Claims>, AuthError>(None),
    {
        match &meta.jwt {
            None => Ok(None),
            Some(t) => match jwt_decode(t.as_str(), secret) {
                Ok((sub, exp)) => Ok(
                    Some(Claims { sub, exp: #[verifier::truncate] (exp as usize) }),
                ),
                Err(_) => Err(AuthError::InvalidToken),
            },
        }
    }

    /// The claims of a fresh session for `user`, signed at time `now`
    /// (seconds since the epoch): the subject is the user's id in decimal,
    /// and the session lasts fourteen days.
    pub fn from_user(user: &User, now: usize) -> (c: Claims)
        requires
            now + SESSION_LIFETIME_SECONDS <= usize::MAX,
        ensures
            c.sub@ == spec_i64_digits(user.id as int),
            c.exp == now + SESSION_LIFETIME_SECONDS,
    {
        Claims { sub: i64_to_string(user.id), exp: now + SESSION_LIFETIME_SECONDS }
    }

    /// Signs these claims into a session token with the given secret.
    pub fn to_jwt(&self, secret: &str) -> (r: Result<String, AuthError>)
        ensures
            r matches Ok(t) ==> t@ == spec_jwt_of(self.sub@, self.exp, secret@),
    {
        match jwt_encode(self.sub.as_str(), self.exp, secret) {
            Ok(t) => Ok(t),
            Err(_) => Err(AuthError::InvalidToken),
        }
    }
}

/// The PHC string that PBKDF2 password hashing derives from a password and
/// a salt.
pub uninterp spec fn spec_pbkdf2_hash(password: Seq<char>, salt: Seq<char>) -> Seq<char>;

/// Whether a stored PHC string parses as a password hash.
pub uninterp spec fn spec_phc_parses(hash: Seq<char>) -> bool;

/// Whether a password verifies against a stored PHC string.
pub uninterp spec fn spec_pbkdf2_verifies(password: Seq<char>, hash: Seq<char>) -> bool;

/// Relies on pbkdf2's Pbkdf2.hash_password (PBKDF2-HMAC-SHA-256 with the
/// crate's default parameters): the PHC string is a function of password
/// and salt alone. The call fails when the salt is not an acceptable PHC
/// salt; which salts those are is left open here.
#[verifier::external_body]
pub fn hash_password(password: &str, salt: &str) -> (r: Result<
    String,
    pbkdf2::password_hash::Error,
>)
    ensures
        r matches Ok(h) ==> h@ == spec_pbkdf2_hash(password@, salt@),
{
    let salt = pbkdf2::password_hash::Salt::from_b64(salt)?;
    Ok(pbkdf2::password_hash::PasswordHasher::hash_password(
        &pbkdf2::Pbkdf2,
        password.as_bytes(),
        salt,
    )?.to_string())
}

/// Relies on password_hash's PasswordHash::new — whether a stored string
/// parses is a function of the string alone — and on Pbkdf2's
/// verify_password: whether the password matches is a function of the
/// password and the stored string alone.
#[verifier::external_body]
pub fn verify_password(password: &str, hash: &str) -> (r: Result<
    bool,
    pbkdf2::password_hash::Error,
>)
    ensures
        r matches Ok(b) ==> spec_phc_parses(hash@) && b == spec_pbkdf2_verifies(
            password@,
            hash@,
        ),
        r is Err ==> !spec_phc_parses(hash@),
{
    let parsed = pbkdf2::password_hash::PasswordHash::new(hash)?;
    Ok(pbkdf2::password_hash::PasswordVerifier::verify_password(
        &pbkdf2::Pbkdf2,
        password.as_bytes(),
        &parsed,
    ).is_ok())
}

/// The password-hashing function offered to the registration flows.
pub struct HashFunction {}

impl HashFunction {
    /// Hashes a password with the given salt; fails exactly as
    /// [`hash_password`] does, on salts the hashing refuses.
    pub fn hash_password(password: String, salt: String) -> (r: Result<
        String,
        pbkdf2::password_hash::Error,
    >)
        ensures
            r matches Ok(h) ==> h@ == spec_pbkdf2_hash(password@, salt@),
    {
        hash_password(password.as_str(), salt.as_str())
    }
}

/// The register of pending account tokens: each token issued at the first
/// registration step maps to the user row it will create.
pub struct Register {
    tokens: StringHashMap<User>,
}

impl View for Register {
    type V = Map<Seq<char>, User>;

    closed spec fn view(&self) -> Map<Seq<char>, User> {
        self.tokens@
    }
}

impl Register {
    /// An empty register.
    pub fn new() -> (r: Register)
        ensures
            r@ == Map::<Seq<char>, User>::empty(),
    {
        Register { tokens: StringHashMap::new() }
    }

    /// Records the user a fresh token stands for; an existing token is
    /// overwritten.
    pub fn put_user(&mut self, hash: String, user: User)
        ensures
            final(self)@ == old(self)@.insert(hash@, user),
    {
        self.tokens.insert(hash, user);
    }

    /// Whether a token is outstanding.
    pub fn contains(&self, hash: &str) -> (r: bool)
        ensures
            r == self@.contains_key(hash@),
    {
        self.tokens.contains_key(hash)
    }

    /// Reads the user a token stands for, without spending the token.
    pub fn get_user(&self, hash: &str) -> (r: Option<&User>)
        ensures
            match r {
                Some(u) => self@.contains_key(hash@) && *u == self@[hash@],
                None => !self@.contains_key(hash@),
            },
    {
        self.tokens.get(hash)
    }

    /// Spends a token: the user it stood for is handed out and the token
    /// stops being valid.
    pub fn take_user(&mut self, hash: &str) -> (r: Option<User>)
        ensures
            match r {
                Some(u) => old(self)@.contains_key(hash@) && u@ == old(self)@[hash@]@
                    && final(self)@ == old(self)@.remove(hash@),
                None => !old(self)@.contains_key(hash@) && final(self)@ == old(self)@,
            },
    {
        let found = match self.tokens.get(hash) {
            Some(u) => Some(u.duplicate()),
            None => None,
        };
        match found {
            Some(u) => {
                self.tokens.remove(hash);
                Some(u)
            },
            None => None,
        }
    }
}

} // verus!
