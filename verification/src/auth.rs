//! Authentication for the CRM front service: the signed-in user, the key
//! pair that tokens are signed and checked with, and the checks applied to
//! the `authorization` header of each call.

use vstd::prelude::*;

use crate::text::push_signed_decimal;
use crate::time::Timestamp;

verus! {

/// How long a token stays valid, in seconds (one week).
pub const JWT_DURATION: u64 = 60 * 60 * 24 * 7;

/// The issuer that tokens name.
pub const JWT_ISS: &'static str = "crm";

/// The audience that tokens name.
pub const JWT_AUD: &'static str = "crm_client";

/// The prefix of the `authorization` header before the token.
pub const BEARER_PREFIX: &'static str = "Bearer ";

/// A user of the CRM, as tokens carry it.
#[derive(Clone, Debug)]
pub struct User {
    pub id: i64,
    pub ws_id: i64,
    pub fullname: String,
    pub email: String,
    /// Never written into a token.
    pub password_hash: Option<String>,
    pub created_at: Timestamp,
}

impl Default for User {
    fn default() -> (u: Self)
        ensures
            u.id == 0,
            u.ws_id == 0,
            u.fullname@ == Seq::<char>::empty(),
            u.email@ == Seq::<char>::empty(),
            u.password_hash is None,
            u.created_at == (Timestamp { seconds: 0, nanos: 0 }),
    {
        User {
            id: 0,
            ws_id: 0,
            fullname: String::new(),
            email: String::new(),
            password_hash: None,
            created_at: Timestamp { seconds: 0, nanos: 0 },
        }
    }
}

/// `UserID: .., FullName: .., Email: ..`.
pub open spec fn user_text(u: User) -> Seq<char> {
    "UserID: "@ + crate::text::signed_decimal(u.id as int) + ", FullName: "@ + u.fullname@
        + ", Email: "@ + u.email@
}

impl User {
    /// The user as text: id, full name and e-mail.
    pub fn to_display_string(&self) -> (s: String)
        ensures
            s@ == user_text(*self),
    {
        let mut s = String::from_str("UserID: ");
        push_signed_decimal(&mut s, self.id);
        s.append(", FullName: ");
        s.append(self.fullname.as_str());
        s.append(", Email: ");
        s.append(self.email.as_str());
        s
    }
}

/// Why a call or a key was refused.
#[derive(Clone, Debug)]
pub enum AuthError {
    /// The call carried no readable `authorization` header.
    MissingToken,
    /// The header does not start with `Bearer `.
    InvalidTokenFormat,
    /// The token did not verify; the verifier's message.
    Rejected(String),
    /// A key could not be read; the reader's message.
    InvalidKey(String),
}

impl AuthError {
    /// The message the error is reported with.
    pub fn message(&self) -> (msg: String)
        ensures
            msg@ == match self {
                AuthError::MissingToken => "miss token"@,
                AuthError::InvalidTokenFormat => "invalid token format"@,
                AuthError::Rejected(m) => m@,
                AuthError::InvalidKey(m) => m@,
            },
    {
        match self {
            AuthError::MissingToken => String::from_str("miss token"),
            AuthError::InvalidTokenFormat => String::from_str("invalid token format"),
            AuthError::Rejected(m) => m.clone(),
            AuthError::InvalidKey(m) => m.clone(),
        }
    }
}

/// The token in an `authorization` header, if it has the bearer form.
pub open spec fn bearer_of(header: Seq<char>) -> Option<Seq<char>> {
    if header.len() >= BEARER_PREFIX@.len() && header.take(BEARER_PREFIX@.len() as int)
        == BEARER_PREFIX@ {
        Some(header.skip(BEARER_PREFIX@.len() as int))
    } else {
        None
    }
}

/// A header made of `Bearer ` and a token gives back that token, and a
/// header shorter than the prefix gives none.
pub proof fn bearer_header_round_trip(token: Seq<char>, short: Seq<char>)
    requires
        short.len() < 7,
    ensures
        bearer_of("Bearer "@ + token) == Some(token),
        bearer_of(short) is None,
{
    reveal_strlit("Bearer ");
    let header = "Bearer "@ + token;
    assert(header.take(7) =~= "Bearer "@);
    assert(header.skip(7) =~= token);
}

/// The token of a call: `MissingToken` without a header,
/// `InvalidTokenFormat` when the header does not start with `Bearer `,
/// else the rest of the header.
pub fn bearer_token(header: Option<&str>) -> (res: Result<String, AuthError>)
    ensures
        match header {
            None => res matches Err(AuthError::MissingToken),
            Some(h) => match bearer_of(h@) {
                Some(token) => res matches Ok(t) && t@ == token,
                None => res matches Err(AuthError::InvalidTokenFormat),
            },
        },
{
    let h = match header {
        None => {
            return Err(AuthError::MissingToken);
        },
        Some(h) => h,
    };
    proof { reveal_strlit("Bearer "); }
    let prefix = BEARER_PREFIX;
    let n = h.unicode_len();
    if n < 7 {
        return Err(AuthError::InvalidTokenFormat);
    }
    let mut i: usize = 0;
    while i < 7
        invariant
            0 <= i <= 7,
            header == Some(h),
            n == h@.len(),
            n >= 7,
            prefix@ == BEARER_PREFIX@,
            prefix@.len() == 7,
            forall|j: int| 0 <= j < i ==> h@[j] == prefix@[j],
        decreases 7 - i,
    {
        if h.get_char(i) != prefix.get_char(i) {
            assert(h@.take(7)[i as int] != BEARER_PREFIX@[i as int]);
            return Err(AuthError::InvalidTokenFormat);
        }
        i = i + 1;
    }
    assert(h@.take(7) =~= BEARER_PREFIX@);
    let token = h.substring_char(7, n);
    assert(token@ =~= h@.skip(7));
    Ok(String::from_str(token))
}

/// The user of a call once its token has been checked: the user the
/// token names, or `Rejected` with the verifier's message.
pub fn accept_verified(outcome: Result<User, String>) -> (res: Result<User, AuthError>)
    ensures
        match outcome {
            Ok(u) => res == Ok::<User, AuthError>(u),
            Err(m) => res matches Err(AuthError::Rejected(r)) && r == m,
        },
{
    match outcome {
        Ok(u) => Ok(u),
        Err(m) => Err(AuthError::Rejected(m)),
    }
}

// ----- keys -----

#[verifier::external_type_specification]
#[verifier::external_body]
pub struct ExEd25519KeyPair(jwt_simple::algorithms::Ed25519KeyPair);

#[verifier::external_type_specification]
#[verifier::external_body]
pub struct ExEd25519PublicKey(jwt_simple::algorithms::Ed25519PublicKey);

/// jwt-simple reads `pem` as an Ed25519 key pair.
pub uninterp spec fn key_pair_pem_accepted(pem: Seq<char>) -> bool;

/// jwt-simple reads `pem` as an Ed25519 public key.
pub uninterp spec fn public_key_pem_accepted(pem: Seq<char>) -> bool;

/// The message of the error jwt-simple gives when it cannot read `pem` as
/// an Ed25519 key pair.
pub uninterp spec fn key_pair_pem_error(pem: Seq<char>) -> Seq<char>;

/// The message of the error jwt-simple gives when it cannot read `pem` as
/// an Ed25519 public key.
pub uninterp spec fn public_key_pem_error(pem: Seq<char>) -> Seq<char>;

/// Trusted: `jwt_simple::algorithms::Ed25519KeyPair::from_pem`, its
/// `anyhow::Error` turned into its `Display` text. The parse depends on the
/// text alone: whether it succeeds is named `key_pair_pem_accepted`, the
/// error's text `key_pair_pem_error`; the key itself is opaque.
#[verifier::external_body]
fn key_pair_from_pem(pem: &str) -> (res: Result<jwt_simple::algorithms::Ed25519KeyPair, String>)
    ensures
        res is Ok <==> key_pair_pem_accepted(pem@),
        res matches Err(msg) ==> msg@ == key_pair_pem_error(pem@),
{
    match jwt_simple::algorithms::Ed25519KeyPair::from_pem(pem) {
        Ok(key) => Ok(key),
        Err(e) => Err(e.to_string()),
    }
}

/// Trusted: `jwt_simple::algorithms::Ed25519PublicKey::from_pem`, its
/// `anyhow::Error` turned into its `Display` text. The parse depends on the
/// text alone: whether it succeeds is named `public_key_pem_accepted`, the
/// error's text `public_key_pem_error`; the key itself is opaque.
#[verifier::external_body]
fn public_key_from_pem(pem: &str) -> (res: Result<jwt_simple::algorithms::Ed25519PublicKey, String>)
    ensures
        res is Ok <==> public_key_pem_accepted(pem@),
        res matches Err(msg) ==> msg@ == public_key_pem_error(pem@),
{
    match jwt_simple::algorithms::Ed25519PublicKey::from_pem(pem) {
        Ok(key) => Ok(key),
        Err(e) => Err(e.to_string()),
    }
}

/// The key pair that tokens are signed with and the public key that they
/// are checked against.
pub struct Jwt {
    en_key: jwt_simple::algorithms::Ed25519KeyPair,
    de_key: jwt_simple::algorithms::Ed25519PublicKey,
}

impl Jwt {
    /// The key pair that tokens are signed with.
    pub closed spec fn key_pair(&self) -> jwt_simple::algorithms::Ed25519KeyPair {
        self.en_key
    }

    /// The public key that tokens are checked against.
    pub closed spec fn public_key(&self) -> jwt_simple::algorithms::Ed25519PublicKey {
        self.de_key
    }

    /// Reads the signing key pair from `en_pem`, then the public key from
    /// `de_pem`; the first that cannot be read gives the error.
    pub fn new(en_pem: &str, de_pem: &str) -> (res: Result<Self, AuthError>)
        ensures
            res is Ok <==> key_pair_pem_accepted(en_pem@) && public_key_pem_accepted(de_pem@),
            !key_pair_pem_accepted(en_pem@) ==> (res matches Err(AuthError::InvalidKey(msg))
                && msg@ == key_pair_pem_error(en_pem@)),
            key_pair_pem_accepted(en_pem@) && !public_key_pem_accepted(de_pem@) ==> (res matches Err(
                AuthError::InvalidKey(msg),
            ) && msg@ == public_key_pem_error(de_pem@)),
    {
        let en_key = match key_pair_from_pem(en_pem) {
            Ok(k) => k,
            Err(e) => {
                return Err(AuthError::InvalidKey(e));
            },
        };
        let de_key = match public_key_from_pem(de_pem) {
            Ok(k) => k,
            Err(e) => {
                return Err(AuthError::InvalidKey(e));
            },
        };
        Ok(Jwt { en_key, de_key })
    }

    /// The key pair that tokens are signed with.
    pub fn signing_key(&self) -> (k: &jwt_simple::algorithms::Ed25519KeyPair)
        ensures
            *k == self.key_pair(),
    {
        &self.en_key
    }

    /// The public key that tokens are checked against.
    pub fn verifying_key(&self) -> (k: &jwt_simple::algorithms::Ed25519PublicKey)
        ensures
            *k == self.public_key(),
    {
        &self.de_key
    }
}

} // verus!
