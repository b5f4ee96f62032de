use vstd::prelude::*;
use vstd::slice::slice_to_vec;

verus! {

#[verifier::external_type_specification]
#[verifier::external_body]
pub struct ExDecodingKey(jsonwebtoken::DecodingKey);

#[verifier::external_type_specification]
#[verifier::external_body]
pub struct ExJwtError(jsonwebtoken::errors::Error);

/// The signature algorithms that this library checks tokens against.
#[derive(PartialEq, Eq, Structural, Debug, Clone, Copy)]
pub enum TokenAlgorithm {
    /// RSASSA-PKCS1-v1_5 with SHA-256.
    Rs256,
}

/// The checks that a token is decoded with: the one signature algorithm it
/// must carry, whether its expiry is checked against the clock, and whether
/// its audience is checked.
#[derive(PartialEq, Eq, Structural, Debug, Clone, Copy)]
pub struct TokenSettings {
    pub algorithm: TokenAlgorithm,
    pub validate_exp: bool,
    pub validate_aud: bool,
}

/// The claims of a decoded token that the library reads: `sub` and `email`,
/// each kept when it is a JSON string.
pub struct TokenClaims {
    pub sub: Option<String>,
    pub email: Option<String>,
}

/// An RSA public key read from PEM text, together with that text.
pub struct PublicKey {
    key: jsonwebtoken::DecodingKey,
    pem: Vec<u8>,
}

impl PublicKey {
    /// The PEM bytes the key was read from.
    pub closed spec fn pem_bytes(&self) -> Seq<u8> {
        self.pem@
    }
}

/// The number of `.` characters in `s`.
pub open spec fn dot_count(s: Seq<char>) -> nat
    decreases s.len(),
{
    if s.len() == 0 {
        0
    } else {
        dot_count(s.drop_last()) + if s.last() == '.' { 1nat } else { 0nat }
    }
}

/// Whether `jsonwebtoken::DecodingKey::from_rsa_pem` accepts these bytes as
/// an RSA key in PEM form.
pub uninterp spec fn rsa_pem_accepted(pem: Seq<u8>) -> bool;

/// What `jsonwebtoken::decode` reads from `token` before it looks at the
/// clock or at the audience: `Some((sub, email, exp))` when the token is
/// three `.`-separated parts whose header names `algorithm`, whose signature
/// verifies under the key read from `pem` with that algorithm, and whose
/// payload deserialises; `sub` and `email` are those claims when they are
/// JSON strings, `exp` the expiry claim when it is a number. `None` otherwise.
pub uninterp spec fn verified_payload(token: Seq<char>, pem: Seq<u8>, algorithm: TokenAlgorithm) -> Option<
    (Option<Seq<char>>, Option<Seq<char>>, Option<u64>),
>;

/// The view of an optional string.
pub open spec fn opt_string_view(o: Option<String>) -> Option<Seq<char>> {
    match o {
        Some(s) => Some(s@),
        None => None,
    }
}

/// Calls `jsonwebtoken::DecodingKey::from_rsa_pem`. Claimed: it succeeds or
/// fails according to the bytes alone (the crate parses the PEM text and
/// reads no other state), which `rsa_pem_accepted` names.
#[verifier::external_body]
fn decoding_key_from_rsa_pem(pem: &[u8]) -> (res: Result<
    jsonwebtoken::DecodingKey,
    jsonwebtoken::errors::Error,
>)
    ensures
        res is Ok <==> rsa_pem_accepted(pem@),
{
    jsonwebtoken::DecodingKey::from_rsa_pem(pem)
}

/// Reads an RSA public key from PEM bytes, keeping the bytes beside it:
/// `Ok` exactly when the bytes are accepted.
pub fn load_public_key(pem: &[u8]) -> (res: Result<PublicKey, jsonwebtoken::errors::Error>)
    ensures
        res is Ok <==> rsa_pem_accepted(pem@),
        res matches Ok(key) ==> key.pem_bytes() == pem@,
{
    match decoding_key_from_rsa_pem(pem) {
        Ok(key) => Ok(PublicKey { key, pem: slice_to_vec(pem) }),
        Err(e) => Err(e),
    }
}

/// The checks that callers are authenticated with: RS256 signatures, the
/// expiry checked, the audience not.
pub fn token_settings() -> (res: TokenSettings)
    ensures
        res == (TokenSettings { algorithm: TokenAlgorithm::Rs256, validate_exp: true, validate_aud: false }),
{
    TokenSettings { algorithm: TokenAlgorithm::Rs256, validate_exp: true, validate_aud: false }
}

/// Calls `jsonwebtoken::decode::<serde_json::Value>` with a
/// `jsonwebtoken::Validation` made from `settings` (`Validation::new` of the
/// algorithm, then its `validate_exp` and `validate_aud` fields), and reads
/// the `sub` and `email` claims of the result with `Value`'s index, keeping
/// each when it is a JSON string.
///
/// Claimed, from the crate's source: a token with fewer than two `.` is
/// refused (it is split at its last two `.`); a token is accepted only when
/// its header names the algorithm, its signature verifies under the key and
/// its payload deserialises (`verified_payload` names what is read then), and
/// only when it carries an `exp` claim, which `Validation::new` makes
/// required; the claims handed back are the ones read. Whether a token that
/// passes these is accepted also depends on the clock (the expiry), which no
/// clause states.
#[verifier::external_body]
pub(crate) fn decode_token(token: &str, key: &PublicKey, settings: TokenSettings) -> (res: Result<
    TokenClaims,
    jsonwebtoken::errors::Error,
>)
    ensures
        dot_count(token@) < 2 ==> res is Err,
        res matches Ok(claims) ==> verified_payload(token@, key.pem_bytes(), settings.algorithm)
            matches Some(payload) && payload.2 is Some && payload.0 == opt_string_view(claims.sub)
            && payload.1 == opt_string_view(claims.email),
{
    let mut validation = jsonwebtoken::Validation::new(match settings.algorithm {
        TokenAlgorithm::Rs256 => jsonwebtoken::Algorithm::RS256,
    });
    validation.validate_exp = settings.validate_exp;
    validation.validate_aud = settings.validate_aud;
    let data = jsonwebtoken::decode::<serde_json::Value>(token, &key.key, &validation)?;
    let sub = match &data.claims["sub"] {
        serde_json::Value::String(s) => Some(s.clone()),
        _ => None,
    };
    let email = match &data.claims["email"] {
        serde_json::Value::String(s) => Some(s.clone()),
        _ => None,
    };
    Ok(TokenClaims { sub, email })
}

} // verus!
