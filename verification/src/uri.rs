//! Server URIs. Parsing a URI and resolving a reference against a base are
//! left to the `url` crate; the contracts of the four calls into it are taken
//! on trust, and say no more than that each result is a function of the
//! texts that go in.

use crate::text::outcome;
use url::{ParseError, Url};
use vstd::prelude::*;

verus! {

#[verifier::external_type_specification]
#[verifier::external_body]
pub struct ExUrl(url::Url);

#[verifier::external_type_specification]
#[verifier::external_body]
pub struct ExParseError(url::ParseError);

/// The serialization of a parsed URL.
pub uninterp spec fn url_text(u: Url) -> Seq<char>;

/// The description of a parse error.
pub uninterp spec fn parse_error_text(e: ParseError) -> Seq<char>;

/// What parsing `input` as an absolute URL gives: the serialization of the
/// URL, or the description of the error.
pub uninterp spec fn parsed_url(input: Seq<char>) -> Result<Seq<char>, Seq<char>>;

/// What resolving `reference` against the URL that is serialized as `base`
/// gives: the serialization of the resulting URL, or the description of the
/// error.
pub uninterp spec fn joined_url(base: Seq<char>, reference: Seq<char>) -> Result<
    Seq<char>,
    Seq<char>,
>;

/// `url::Url::parse`. It parses `input` as an absolute URL; the contract
/// names the outcome `parsed_url`, as a function of `input` alone.
#[verifier::external_body]
fn parse_url(input: &str) -> (r: Result<Url, ParseError>)
    ensures
        match r {
            Ok(u) => parsed_url(input@) == Ok::<Seq<char>, Seq<char>>(url_text(u)),
            Err(e) => parsed_url(input@) == Err::<Seq<char>, Seq<char>>(parse_error_text(e)),
        },
{
    Url::parse(input)
}

/// `url::Url::join`. It parses `reference` with `base` as the base URL; the
/// contract names the outcome `joined_url`, as a function of the
/// serialization of `base` and of `reference`.
#[verifier::external_body]
fn join_url(base: &Url, reference: &str) -> (r: Result<Url, ParseError>)
    ensures
        match r {
            Ok(u) => joined_url(url_text(*base), reference@) == Ok::<Seq<char>, Seq<char>>(
                url_text(u),
            ),
            Err(e) => joined_url(url_text(*base), reference@) == Err::<Seq<char>, Seq<char>>(
                parse_error_text(e),
            ),
        },
{
    base.join(reference)
}

/// `url::Url::as_str`. It gives the serialization that the URL holds, here
/// as an owned text; the contract names it `url_text`.
#[verifier::external_body]
fn url_to_text(u: &Url) -> (s: String)
    ensures
        s@ == url_text(*u),
{
    u.as_str().to_owned()
}

/// The `Display` of `url::ParseError`, through `to_string`. It gives the
/// fixed description of the error; the contract names it `parse_error_text`.
#[verifier::external_body]
fn parse_error_to_text(e: &ParseError) -> (s: String)
    ensures
        s@ == parse_error_text(*e),
{
    e.to_string()
}

/// What resolving `reference` against the base URI `base` gives, where
/// `base` is yet to be parsed: an error of the base comes first.
pub open spec fn resolved_url(base: Seq<char>, reference: Seq<char>) -> Result<
    Seq<char>,
    Seq<char>,
> {
    match parsed_url(base) {
        Ok(b) => joined_url(b, reference),
        Err(e) => Err(e),
    }
}

/// Parses `input` as an absolute URI and gives its serialization, or the
/// description of what is wrong with it.
pub fn parse_uri(input: &str) -> (r: Result<String, String>)
    ensures
        outcome(r) == parsed_url(input@),
{
    match parse_url(input) {
        Ok(u) => Ok(url_to_text(&u)),
        Err(e) => Err(parse_error_to_text(&e)),
    }
}

/// Resolves `reference` against the base URI `base` and gives the
/// serialization of the result, or the description of what is wrong with
/// the base or with the reference.
pub fn resolve_uri(base: &str, reference: &str) -> (r: Result<String, String>)
    ensures
        outcome(r) == resolved_url(base@, reference@),
{
    match parse_url(base) {
        Ok(b) => match join_url(&b, reference) {
            Ok(u) => Ok(url_to_text(&u)),
            Err(e) => Err(parse_error_to_text(&e)),
        },
        Err(e) => Err(parse_error_to_text(&e)),
    }
}

} // verus!
