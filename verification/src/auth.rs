use vstd::prelude::*;
use vstd::string::*;

use crate::api::ApiError;
use crate::jwt::{
    decode_token, dot_count, load_public_key, opt_string_view, rsa_pem_accepted, token_settings,
    verified_payload, TokenAlgorithm, TokenClaims,
};

verus! {

/// The caller of a request, as its token names it.
pub struct AuthenticatedUser {
    pub clerk_id: String,
    pub email: String,
}

/// Why a request was not let through.
#[derive(PartialEq, Eq, Structural, Debug, Clone, Copy)]
pub enum AuthError {
    /// The `Authorization` header is missing or does not start with `Bearer `.
    MissingBearer,
    /// The server's public key could not be read.
    KeyConfiguration,
    /// The token failed decoding or validation.
    InvalidToken,
    /// The token's claims hold no string `sub`.
    MissingSubject,
}

/// The text before the token in an `Authorization` header.
pub open spec fn bearer_prefix() -> Seq<char> {
    seq!['B', 'e', 'a', 'r', 'e', 'r', ' ']
}

/// Whether a header value starts with `Bearer `.
pub open spec fn has_bearer_prefix(header: Seq<char>) -> bool {
    header.len() >= 7 && header.take(7) == bearer_prefix()
}

/// The token that an `Authorization` header carries, if it carries one.
pub open spec fn bearer_token_spec(header: Option<Seq<char>>) -> Option<Seq<char>> {
    match header {
        Some(h) => if has_bearer_prefix(h) {
            Some(h.skip(7))
        } else {
            None
        },
        None => None,
    }
}

/// The address used for a token whose claims hold no string `email`.
pub open spec fn default_email() -> Seq<char> {
    "brak_emaila@test.com"@
}

/// The view of an optional `&str`.
pub open spec fn opt_str_view(o: Option<&str>) -> Option<Seq<char>> {
    match o {
        Some(s) => Some(s@),
        None => None,
    }
}

impl AuthError {
    /// The HTTP status of the refusal.
    pub fn status(&self) -> (res: u16)
        ensures
            res == (if *self == AuthError::KeyConfiguration { 500u16 } else { 401u16 }),
    {
        match self {
            AuthError::KeyConfiguration => 500,
            _ => 401,
        }
    }

    /// The text of the refusal.
    pub fn message(&self) -> (res: String)
        ensures
            *self == AuthError::MissingBearer ==> res@ == "Brak tokenu Bearer"@,
            *self == AuthError::KeyConfiguration ==> res@ == "Błąd konfiguracji klucza serwera"@,
            *self == AuthError::InvalidToken ==> res@ == "Niewazny token"@,
            *self == AuthError::MissingSubject ==> res@ == "Brak pola sub w tokenie"@,
    {
        match self {
            AuthError::MissingBearer => "Brak tokenu Bearer".to_string(),
            AuthError::KeyConfiguration => "Błąd konfiguracji klucza serwera".to_string(),
            AuthError::InvalidToken => "Niewazny token".to_string(),
            AuthError::MissingSubject => "Brak pola sub w tokenie".to_string(),
        }
    }

    /// The refusal as an HTTP error answer.
    pub fn to_api_error(&self) -> (res: ApiError)
        ensures
            res.status == (if *self == AuthError::KeyConfiguration { 500u16 } else { 401u16 }),
            *self == AuthError::MissingBearer ==> res.message@ == "Brak tokenu Bearer"@,
            *self == AuthError::KeyConfiguration ==> res.message@
                == "Błąd konfiguracji klucza serwera"@,
            *self == AuthError::InvalidToken ==> res.message@ == "Niewazny token"@,
            *self == AuthError::MissingSubject ==> res.message@ == "Brak pola sub w tokenie"@,
    {
        ApiError { status: self.status(), message: self.message() }
    }
}

/// A header written as `Bearer ` followed by a token carries exactly that
/// token, whatever the token's text.
pub proof fn lemma_bearer_round_trip(token: Seq<char>)
    ensures
        bearer_token_spec(Some(bearer_prefix() + token)) == Some(token),
{
    let h = bearer_prefix() + token;
    assert(h.take(7) =~= bearer_prefix());
    assert(h.skip(7) =~= token);
}

/// A header carries a token exactly when it starts with `Bearer `, and the
/// token is everything after those seven characters: the header is
/// `Bearer ` followed by the token.
pub proof fn lemma_bearer_token_shape(header: Seq<char>)
    ensures
        bearer_token_spec(Some(header)) matches Some(token) ==> header == "Bearer "@ + token,
        bearer_token_spec(Some(header)) is Some <==> (header.len() >= 7 && header.take(7)
            == "Bearer "@),
        bearer_token_spec(None) is None,
{
    reveal_strlit("Bearer ");
    assert("Bearer "@ =~= bearer_prefix());
    if header.len() >= 7 {
        assert(header =~= header.take(7) + header.skip(7));
    }
}

/// Takes the token out of an `Authorization` header value: the text after
/// `Bearer `, or `MissingBearer` when there is no header or it does not
/// start so.
pub fn bearer_token(header: Option<&str>) -> (res: Result<String, AuthError>)
    ensures
        match bearer_token_spec(opt_str_view(header)) {
            Some(t) => res matches Ok(token) && token@ == t,
            None => res == Err::<String, AuthError>(AuthError::MissingBearer),
        },
{
    let h = match header {
        Some(h) => h,
        None => return Err(AuthError::MissingBearer),
    };
    let len = h.unicode_len();
    if len < 7 {
        return Err(AuthError::MissingBearer);
    }
    let start = h.substring_char(0, 7).to_string();
    let expected = "Bearer ".to_string();
    proof {
        reveal_strlit("Bearer ");
    }
    if start == expected {
        assert(h@.take(7) =~= bearer_prefix());
        let token = h.substring_char(7, len).to_string();
        assert(token@ =~= h@.skip(7));
        Ok(token)
    } else {
        assert(h@.subrange(0, 7) =~= h@.take(7));
        assert(expected@ =~= bearer_prefix());
        assert(start@ != expected@);
        Err(AuthError::MissingBearer)
    }
}

/// Builds the caller from the claims of a decoded token: `sub` is required
/// and becomes the user's id; a missing `email` is replaced by
/// `brak_emaila@test.com`.
pub fn user_from_claims(claims: TokenClaims) -> (res: Result<AuthenticatedUser, AuthError>)
    ensures
        match claims.sub {
            None => res == Err::<AuthenticatedUser, AuthError>(AuthError::MissingSubject),
            Some(s) => res matches Ok(user) && user.clerk_id@ == s@ && user.email@ == email_or_default(
                opt_string_view(claims.email),
            ),
        },
        claims.sub is Some ==> (claims.email matches Some(e) ==> (res matches Ok(user) && user.email@
            == e@)),
        (claims.sub is Some && claims.email is None) ==> (res matches Ok(user) && user.email@
            == "brak_emaila@test.com"@),
{
    let clerk_id = match claims.sub {
        Some(s) => s,
        None => return Err(AuthError::MissingSubject),
    };
    let email = match claims.email {
        Some(e) => e,
        None => "brak_emaila@test.com".to_string(),
    };
    Ok(AuthenticatedUser { clerk_id, email })
}

/// The email claim, or the default address when there is none.
pub open spec fn email_or_default(email: Option<Seq<char>>) -> Seq<char> {
    match email {
        Some(e) => e,
        None => default_email(),
    }
}

/// An email claim is the caller's email as it stands, whatever its text;
/// the default address stands in only for a missing claim.
pub proof fn lemma_email_claim_kept(email: Seq<char>)
    ensures
        email_or_default(Some(email)) == email,
        email_or_default(None) == "brak_emaila@test.com"@,
{
}

/// What a header and a key accept as the caller: the header's token must
/// carry an RS256 signature that verifies under the key, an `exp` claim and
/// a string `sub`, which becomes the user's id; its `email` (or the default
/// address) becomes the user's email.
pub open spec fn accepted_caller(
    header: Option<Seq<char>>,
    pem: Seq<u8>,
    user_id: Seq<char>,
    email: Seq<char>,
) -> bool {
    &&& bearer_token_spec(header) matches Some(token)
    &&& verified_payload(token, pem, TokenAlgorithm::Rs256) matches Some(payload)
    &&& payload.0 == Some(user_id)
    &&& payload.2 is Some
    &&& email == email_or_default(payload.1)
}

/// Authenticates a request from the value of its `Authorization` header and
/// the server's RSA public key in PEM form. The header is checked first,
/// then the key is read, then the token is decoded with the settings of
/// `token_settings` (RS256, expiry checked, audience not), and last its
/// claims become the caller.
///
/// A token that is accepted carries a verified RS256 signature, an `exp`
/// claim and a string `sub`, and the caller is read from its payload. Whether
/// a token with a verified signature is accepted also depends on the clock,
/// which no clause states.
pub fn authenticate(header: Option<&str>, pem: &[u8]) -> (res: Result<AuthenticatedUser, AuthError>)
    ensures
        bearer_token_spec(opt_str_view(header)) is None ==> res == Err::<
            AuthenticatedUser,
            AuthError,
        >(AuthError::MissingBearer),
        bearer_token_spec(opt_str_view(header)) is Some && !rsa_pem_accepted(pem@) ==> res
            == Err::<AuthenticatedUser, AuthError>(AuthError::KeyConfiguration),
        bearer_token_spec(opt_str_view(header)) is Some && rsa_pem_accepted(pem@) ==> {
            ||| res is Ok
            ||| res == Err::<AuthenticatedUser, AuthError>(AuthError::InvalidToken)
            ||| res == Err::<AuthenticatedUser, AuthError>(AuthError::MissingSubject)
        },
        bearer_token_spec(opt_str_view(header)) matches Some(t) && rsa_pem_accepted(pem@) && (
        dot_count(t) < 2 || verified_payload(t, pem@, TokenAlgorithm::Rs256) is None) ==> res
            == Err::<AuthenticatedUser, AuthError>(AuthError::InvalidToken),
        res matches Ok(user) ==> accepted_caller(opt_str_view(header), pem@, user.clerk_id@, user.email@),
        res == Err::<AuthenticatedUser, AuthError>(AuthError::MissingSubject) ==> (bearer_token_spec(
            opt_str_view(header),
        ) matches Some(t) && verified_payload(t, pem@, TokenAlgorithm::Rs256) matches Some(payload)
            && payload.0 is None),
{
    let token = bearer_token(header)?;
    let key = match load_public_key(pem) {
        Ok(key) => key,
        Err(_) => return Err(AuthError::KeyConfiguration),
    };
    let settings = token_settings();
    let claims = match decode_token(token.as_str(), &key, settings) {
        Ok(claims) => claims,
        Err(_) => return Err(AuthError::InvalidToken),
    };
    user_from_claims(claims)
}

} // verus!
