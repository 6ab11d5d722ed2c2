use vstd::prelude::*;

use crate::text::has_prefix;
use crate::text::all_ascii_digits;
use crate::text::is_all_ascii_digits;

verus! {

/// `url::Url`, a parsed URL, carried through unopened.
#[verifier::external_type_specification]
#[verifier::external_body]
pub struct ExUrl(url::Url);

/// `url::ParseError`, why a text is not a URL; only told apart from success.
#[verifier::external_type_specification]
#[verifier::external_body]
pub struct ExParseError(url::ParseError);

/// Whether the `url` crate accepts `s` as an absolute URL.
pub uninterp spec fn url_accepts(s: Seq<char>) -> bool;

/// Relies on `url::Url::parse`: it accepts or rejects a text as an absolute
/// URL by the text alone.
#[verifier::external_body]
fn parse_absolute_url(s: &str) -> (r: Result<url::Url, url::ParseError>)
    ensures
        r is Ok == url_accepts(s@),
{
    url::Url::parse(s)
}

/// How many characters a one-time token has.
pub const TOKEN_LENGTH: usize = 6;

/// The address of an instance as typed: `https://` is put in front unless it
/// already begins with `http`.
pub open spec fn with_scheme(input: Seq<char>) -> Seq<char> {
    if input.len() >= 4 && input.subrange(0, 4) == "http"@ {
        input
    } else {
        "https://"@ + input
    }
}

/// The address of an instance as typed, with a scheme.
pub fn instance_address(input: &str) -> (r: String)
    ensures
        r@ == with_scheme(input@),
{
    proof {
        reveal_strlit("http");
    }
    if has_prefix(input, "http") {
        String::from_str(input)
    } else {
        let mut r = String::from_str("https://");
        r.append(input);
        r
    }
}

/// The URL of an instance as typed, or `None` when it is not a valid URL even
/// with a scheme.
pub fn instance_url(input: &str) -> (r: Option<url::Url>)
    ensures
        r is Some == url_accepts(with_scheme(input@)),
{
    let address = instance_address(input);
    match parse_absolute_url(address.as_str()) {
        Ok(url) => Some(url),
        Err(_) => None,
    }
}

/// The reply to a one-time token that has the wrong length.
pub open spec fn token_length_text() -> Seq<char> {
    "2FA Token should be 6 characters"@
}

/// The reply to a one-time token that is not a number.
pub open spec fn token_number_text() -> Seq<char> {
    "2FA Token should be a number"@
}

/// Checks a one-time token as typed: none given is `None`; otherwise it must
/// be six ASCII digits, with no sign or other character.
pub fn evaluate_two_factor_token(token: &str) -> (r: Result<Option<String>, &'static str>)
    ensures
        token@.len() == 0 ==> r matches Ok(None),
        token@.len() != 0 && token@.len() != TOKEN_LENGTH ==> (r matches Err(m)
            && m@ == token_length_text()),
        token@.len() == TOKEN_LENGTH && !all_ascii_digits(token@) ==> (r matches Err(m) && m@
            == token_number_text()),
        token@.len() == TOKEN_LENGTH && all_ascii_digits(token@) ==> (r matches Ok(Some(t)) && t@
            == token@),
{
    let n = token.unicode_len();
    if n == 0 {
        return Ok(None);
    }
    if n != TOKEN_LENGTH {
        return Err("2FA Token should be 6 characters");
    }
    if is_all_ascii_digits(token) {
        Ok(Some(String::from_str(token)))
    } else {
        Err("2FA Token should be a number")
    }
}

} // verus!
