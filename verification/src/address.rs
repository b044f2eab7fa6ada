//! Joining the reference found in a playlist against the address that the
//! playlist was fetched from.
//!
//! URL parsing and joining are the work of the `url` crate. What it returns
//! is a function of the text handed to it, so each of its results has a
//! name here, and the contracts of this module speak of those names.

use crate::plan::PlaylistError;
use crate::text::{starts_with, strip_leading, without_leading};
use vstd::prelude::*;
use vstd::string::StringExecFns;

verus! {

/// The serialization of the absolute URL that `text` parses to, if it
/// parses to one.
pub uninterp spec fn url_parsed(text: Seq<char>) -> Option<Seq<char>>;

/// The serialization of the URL that `reference` resolves to against the
/// absolute URL `base`, if `base` parses and `reference` resolves.
pub uninterp spec fn url_joined(base: Seq<char>, reference: Seq<char>) -> Option<Seq<char>>;

/// The scheme of the absolute URL that `text` parses to, if it parses to
/// one.
pub uninterp spec fn url_scheme(text: Seq<char>) -> Option<Seq<char>>;

/// The host of the absolute URL that `text` parses to, if it parses to one
/// that has a host.
pub uninterp spec fn url_host(text: Seq<char>) -> Option<Seq<char>>;

/// `Url::parse`, with the URL handed back as its serialization. Claims that
/// the outcome is `url_parsed` of the text.
#[verifier::external_body]
fn parse_url(text: &str) -> (url: Option<String>)
    ensures
        url.deep_view() == url_parsed(text@),
{
    match url::Url::parse(text) {
        Ok(parsed) => Some(String::from(parsed)),
        Err(_) => None,
    }
}

/// `Url::join` on the URL that `base` parses to, with the URL handed back
/// as its serialization. Claims that the outcome is `url_joined` of the two
/// texts.
#[verifier::external_body]
fn join_url(base: &str, reference: &str) -> (url: Option<String>)
    ensures
        url.deep_view() == url_joined(base@, reference@),
{
    match url::Url::parse(base) {
        Ok(parsed) => match parsed.join(reference) {
            Ok(joined) => Some(String::from(joined)),
            Err(_) => None,
        },
        Err(_) => None,
    }
}

/// `Url::scheme` on the URL that `text` parses to. Claims that the outcome
/// is `url_scheme` of the text.
#[verifier::external_body]
fn scheme_of(text: &str) -> (scheme: Option<String>)
    ensures
        scheme.deep_view() == url_scheme(text@),
{
    match url::Url::parse(text) {
        Ok(parsed) => Some(String::from(parsed.scheme())),
        Err(_) => None,
    }
}

/// `Url::host_str` on the URL that `text` parses to. Claims that the
/// outcome is `url_host` of the text.
#[verifier::external_body]
fn host_of(text: &str) -> (host: Option<String>)
    ensures
        host.deep_view() == url_host(text@),
{
    match url::Url::parse(text) {
        Ok(parsed) => match parsed.host_str() {
            Some(host) => Some(String::from(host)),
            None => None,
        },
        Err(_) => None,
    }
}

/// The shapes in which a playlist refers to another resource.
#[derive(Debug, Clone, Copy, PartialEq, Eq, Structural)]
pub enum ReferenceForm {
    /// `:///` and a path: relative to the authority of the playlist's own
    /// address.
    Rooted,
    /// A complete `https://` address.
    Absolute,
    /// Anything else: resolved against the playlist's own address.
    Relative,
}

/// The form of the reference `uri`.
pub open spec fn form_of(uri: Seq<char>) -> ReferenceForm {
    if ":///"@.is_prefix_of(uri) {
        ReferenceForm::Rooted
    } else if "https://"@.is_prefix_of(uri) {
        ReferenceForm::Absolute
    } else {
        ReferenceForm::Relative
    }
}

/// The scheme and host of `base`, written as the address of its root:
/// scheme, `://`, host.
pub open spec fn authority_root(base: Seq<char>) -> Option<Seq<char>> {
    match (url_scheme(base), url_host(base)) {
        (Some(scheme), Some(host)) => Some(scheme + "://"@ + host),
        _ => None,
    }
}

/// The address that the reference `uri`, found in the playlist fetched from
/// `base`, stands for.
pub open spec fn resolved_reference(uri: Seq<char>, base: Seq<char>) -> Option<Seq<char>> {
    match form_of(uri) {
        ReferenceForm::Rooted => match authority_root(base) {
            Some(root) => url_joined(root, without_leading(uri, ":///"@)),
            None => None,
        },
        ReferenceForm::Absolute => url_parsed(uri),
        ReferenceForm::Relative => url_joined(base, uri),
    }
}

/// Tells the form of the reference `uri`.
pub fn reference_form(uri: &str) -> (form: ReferenceForm)
    ensures
        form == form_of(uri@),
{
    if starts_with(uri, ":///") {
        ReferenceForm::Rooted
    } else if starts_with(uri, "https://") {
        ReferenceForm::Absolute
    } else {
        ReferenceForm::Relative
    }
}

/// The root of `base`: its scheme, `://`, and its host.
fn root_of(base: &str) -> (root: Option<String>)
    ensures
        root.deep_view() == authority_root(base@),
{
    match scheme_of(base) {
        Some(scheme) => match host_of(base) {
            Some(host) => {
                let mut root = scheme;
                root.append("://");
                root.append(host.as_str());
                Some(root)
            },
            None => None,
        },
        None => None,
    }
}

/// Resolves the reference `uri`, found in the playlist that was fetched
/// from `station`, to an absolute address.
///
/// A reference that starts with `:///` is joined to the scheme and host of
/// `station`; one that starts with `https://` stands for itself; any other
/// is joined to `station`. Fails with `ParseError` where the URL parser
/// rejects an address, or `station` has no host for a rooted reference.
pub fn parse_station(uri: &str, station: &str) -> (address: Result<String, PlaylistError>)
    ensures
        match resolved_reference(uri@, station@) {
            Some(target) => address matches Ok(found) && found@ == target,
            None => address == Err::<String, PlaylistError>(PlaylistError::ParseError),
        },
{
    let joined = match reference_form(uri) {
        ReferenceForm::Rooted => match root_of(station) {
            Some(root) => {
                let path = strip_leading(uri, ":///");
                join_url(root.as_str(), path.as_str())
            },
            None => None,
        },
        ReferenceForm::Absolute => parse_url(uri),
        ReferenceForm::Relative => join_url(station, uri),
    };
    match joined {
        Some(found) => Ok(found),
        None => Err(PlaylistError::ParseError),
    }
}

} // verus!
