use vstd::prelude::*;

use crate::decimal::{decimal_text, lemma_parse_decimal_text, parse_i64, parse_i64_spec};

verus! {

/// Lifetime of an access token when `ACCESS_EXPIRY_SECS` is not set.
pub const DEFAULT_ACCESS_EXPIRY_SECS: i64 = 900;

/// Lifetime of a refresh token when `REFRESH_EXPIRY_SECS` is not set.
pub const DEFAULT_REFRESH_EXPIRY_SECS: i64 = 604800;

/// The server's token settings.
#[derive(Clone)]
pub struct Config {
    pub access_secret: String,
    pub refresh_secret: String,
    pub access_token_expiry_secs: i64,
    pub refresh_token_expiry_secs: i64,
}

/// The number of seconds that an expiry setting gives: the default when the
/// variable is unset, the number it holds otherwise (nothing if it holds no
/// `i64`).
pub open spec fn expiry_setting(raw: Option<Seq<char>>, default: i64) -> Option<i64> {
    match raw {
        None => Some(default),
        Some(text) => parse_i64_spec(text),
    }
}

/// The view of an optional string.
pub open spec fn opt_view(o: Option<String>) -> Option<Seq<char>> {
    match o {
        Some(s) => Some(s@),
        None => None,
    }
}

/// Reads one expiry setting: the default when it is unset, its number
/// otherwise, `None` when it is set but holds no `i64`.
pub fn expiry_from(raw: Option<String>, default: i64) -> (res: Option<i64>)
    ensures
        res == expiry_setting(opt_view(raw), default),
        raw is None ==> res == Some(default),
        raw matches Some(text) ==> res == parse_i64_spec(text@),
{
    match raw {
        None => Some(default),
        Some(text) => parse_i64(text.as_str()),
    }
}

/// A set expiry is the number its text denotes, whatever that number is;
/// the default stands in only for an unset variable.
pub proof fn lemma_expiry_setting(text: Seq<char>, default: i64)
    ensures
        expiry_setting(Some(text), default) == parse_i64_spec(text),
        expiry_setting(None, default) == Some(default),
{
}

/// An expiry set to the decimal text of a number is that number.
pub proof fn lemma_expiry_reads_its_number(seconds: i64, default: i64)
    ensures
        expiry_setting(Some(decimal_text(seconds as int)), default) == Some(seconds),
{
    lemma_parse_decimal_text(seconds as int);
}

impl Config {
    /// Builds the settings from the values of the variables `ACCESS_SECRET`,
    /// `REFRESH_SECRET`, `ACCESS_EXPIRY_SECS` and `REFRESH_EXPIRY_SECS`
    /// (`None` for an expiry that is unset). Both secrets must be set, and an
    /// expiry that is set must hold an `i64`: the server stops otherwise, so
    /// the caller tests these first (`expiry_from` tells an expiry that
    /// holds no number). An unset expiry takes its default.
    pub fn from_env(
        access_secret: String,
        refresh_secret: String,
        access_expiry: Option<String>,
        refresh_expiry: Option<String>,
    ) -> (res: Config)
        requires
            expiry_setting(opt_view(access_expiry), DEFAULT_ACCESS_EXPIRY_SECS) is Some,
            expiry_setting(opt_view(refresh_expiry), DEFAULT_REFRESH_EXPIRY_SECS) is Some,
        ensures
            res.access_secret == access_secret,
            res.refresh_secret == refresh_secret,
            expiry_setting(opt_view(access_expiry), DEFAULT_ACCESS_EXPIRY_SECS) == Some(
                res.access_token_expiry_secs,
            ),
            expiry_setting(opt_view(refresh_expiry), DEFAULT_REFRESH_EXPIRY_SECS) == Some(
                res.refresh_token_expiry_secs,
            ),
    {
        let access_token_expiry_secs = expiry_from(access_expiry, DEFAULT_ACCESS_EXPIRY_SECS).unwrap();
        let refresh_token_expiry_secs = expiry_from(refresh_expiry, DEFAULT_REFRESH_EXPIRY_SECS).unwrap();
        Config { access_secret, refresh_secret, access_token_expiry_secs, refresh_token_expiry_secs }
    }
}

} // verus!
