//! Relay addresses: the form an operator types, the canonical HTTP form,
//! and the WebSocket address derived from it.
//!
//! URL syntax is left to the `url` crate. Its parser and setters are
//! believed, not proved: each is described by what it does to the URL's
//! text, the serialization that `Url::as_str` returns.

use crate::text::{chars_of, has_prefix, same_text, starts_with, string_of, trimmed, trimmed_chars};
use vstd::prelude::*;
use vstd::string::StringExecFns;
use vstd::string::StringSliceAdditionalSpecFns;
use vstd::utf8::encode_utf8;

verus! {

/// The path every relay serves its WebSocket endpoint on.
pub const WS_PATH: &'static str = "/ws";

/// Longest URL, in bytes, that is rewritten. The `url` crate keeps
/// positions in 32 bits; a URL of this size still has room for the new
/// scheme and the new path.
pub const MAX_URL_BYTES: usize = 0xffff_ffb5;

/// `url::Url`, a parsed URL. Nothing of its inside is visible here.
#[verifier::external_type_specification]
#[verifier::external_body]
pub struct ExUrl(url::Url);

/// `url::ParseError`, the reason a text is no URL. It is only passed on.
#[verifier::external_type_specification]
#[verifier::external_body]
pub struct ExUrlParseError(url::ParseError);

/// The serialization of a URL: the text `Url::as_str` returns. A `Url`
/// holds nothing that its serialization does not determine.
pub uninterp spec fn url_text(url: url::Url) -> Seq<char>;

/// The serialization of the URL that `input` parses to, or `None` where
/// `input` is no absolute URL.
pub uninterp spec fn parsed_url(input: Seq<char>) -> Option<Seq<char>>;

/// The URL `text` with its scheme changed to `scheme`, or `None` where the
/// URL standard forbids the change.
pub uninterp spec fn url_with_scheme(text: Seq<char>, scheme: Seq<char>) -> Option<Seq<char>>;

/// The URL `text` with its path replaced by `path`.
pub uninterp spec fn url_with_path(text: Seq<char>, path: Seq<char>) -> Seq<char>;

/// The URL `text` with its query replaced by `query`, or removed.
pub uninterp spec fn url_with_query(text: Seq<char>, query: Option<Seq<char>>) -> Seq<char>;

/// The URL `text` with its fragment replaced by `fragment`, or removed.
pub uninterp spec fn url_with_fragment(text: Seq<char>, fragment: Option<Seq<char>>) -> Seq<char>;

/// The host of the URL `text` as it is written there, if it has one.
pub uninterp spec fn url_host(text: Seq<char>) -> Option<Seq<char>>;

/// The port of the URL `text`: the one written there, else the default
/// port of its scheme where the scheme has one.
pub uninterp spec fn url_port(text: Seq<char>) -> Option<u16>;

/// The size of the URL `text` in bytes.
pub open spec fn url_size(text: Seq<char>) -> nat {
    encode_utf8(text).len()
}

/// Number of characters of `text` before its first `:`.
pub open spec fn scheme_len(text: Seq<char>) -> nat
    decreases text.len(),
{
    if text.len() == 0 || text[0] == ':' {
        0
    } else {
        1 + scheme_len(text.drop_first())
    }
}

/// The scheme of a URL with the serialization `text`: what stands before
/// the first `:`.
pub open spec fn scheme_of(text: Seq<char>) -> Seq<char> {
    text.take(scheme_len(text) as int)
}

/// The model of an optional string slice.
pub open spec fn option_text(text: Option<&str>) -> Option<Seq<char>> {
    match text {
        Some(text) => Some(text@),
        None => None,
    }
}

/// `Url::parse`: whether and to what `input` parses is a function of
/// `input`.
pub assume_specification[ url::Url::parse ](input: &str) -> (r: Result<url::Url, url::ParseError>)
    ensures
        match r {
            Ok(url) => parsed_url(input@) == Some(url_text(url)),
            Err(_) => parsed_url(input@) is None,
        },
;

/// `Url::as_str`: the serialization.
pub assume_specification[ url::Url::as_str ](url: &url::Url) -> (text: &str)
    ensures
        text@ == url_text(*url),
;

/// `Url::scheme`: a serialization starts with the scheme and a `:`, and a
/// scheme holds no `:`.
pub assume_specification[ url::Url::scheme ](url: &url::Url) -> (scheme: &str)
    ensures
        scheme@ == scheme_of(url_text(*url)),
;

/// `Url::host_str`: a function of the serialization.
pub assume_specification[ url::Url::host_str ](url: &url::Url) -> (host: Option<&str>)
    ensures
        option_text(host) == url_host(url_text(*url)),
;

/// `Url::port_or_known_default`: a function of the serialization.
pub assume_specification[ url::Url::port_or_known_default ](url: &url::Url) -> (port: Option<u16>)
    ensures
        port == url_port(url_text(*url)),
;

/// Most bytes that writing `part` into a URL can add: each character may
/// take four bytes, each byte may be percent-encoded into three, and one
/// delimiter may come before it.
pub open spec fn room_for(part: Seq<char>) -> nat {
    12 * part.len() + 1
}

/// Most bytes that writing an optional part into a URL can add.
pub open spec fn room_for_optional(part: Option<Seq<char>>) -> nat {
    match part {
        Some(part) => room_for(part),
        None => 0,
    }
}

/// `Url::set_scheme`: whether the change is allowed and what it gives is a
/// function of the serialization and the new scheme; a refused change
/// leaves the URL as it was. The new scheme takes the place of the old,
/// so the URL grows by the new scheme at most. The setter panics where
/// the new serialization reaches past 32-bit positions.
pub assume_specification[ url::Url::set_scheme ](url: &mut url::Url, scheme: &str) -> (r: Result<
    (),
    (),
>)
    requires
        url_size(url_text(*old(url))) + room_for(scheme@) <= u32::MAX,
    ensures
        match r {
            Ok(_) => url_with_scheme(url_text(*old(url)), scheme@) == Some(url_text(*final(url))),
            Err(_) => url_with_scheme(url_text(*old(url)), scheme@) is None && url_text(
                *final(url),
            ) == url_text(*old(url)),
        },
        url_size(url_text(*final(url))) <= url_size(url_text(*old(url))) + room_for(scheme@),
;

/// `Url::set_path`: the new serialization is a function of the old one
/// and the path. The path is written percent-encoded in the place of the
/// old one. The setter panics where the new serialization reaches past
/// 32-bit positions.
pub assume_specification[ url::Url::set_path ](url: &mut url::Url, path: &str)
    requires
        url_size(url_text(*old(url))) + room_for(path@) <= u32::MAX,
    ensures
        url_text(*final(url)) == url_with_path(url_text(*old(url)), path@),
        url_size(url_text(*final(url))) <= url_size(url_text(*old(url))) + room_for(path@),
;

/// `Url::set_query`: the new serialization is a function of the old one
/// and the query. The setter panics where the new serialization reaches
/// past 32-bit positions.
pub assume_specification[ url::Url::set_query ](url: &mut url::Url, query: Option<&str>)
    requires
        url_size(url_text(*old(url))) + room_for_optional(option_text(query)) <= u32::MAX,
    ensures
        url_text(*final(url)) == url_with_query(url_text(*old(url)), option_text(query)),
        url_size(url_text(*final(url))) <= url_size(url_text(*old(url))) + room_for_optional(
            option_text(query),
        ),
;

/// `Url::set_fragment`: the new serialization is a function of the old one
/// and the fragment. The setter panics where the new serialization
/// reaches past 32-bit positions.
pub assume_specification[ url::Url::set_fragment ](url: &mut url::Url, fragment: Option<&str>)
    requires
        url_size(url_text(*old(url))) + room_for_optional(option_text(fragment)) <= u32::MAX,
    ensures
        url_text(*final(url)) == url_with_fragment(url_text(*old(url)), option_text(fragment)),
        url_size(url_text(*final(url))) <= url_size(url_text(*old(url))) + room_for_optional(
            option_text(fragment),
        ),
;

/// The canonical HTTP form of an address as typed: trimmed, and with the
/// scheme `http` where none of `http` and `https` is given.
pub open spec fn normalized_http_endpoint(endpoint: Seq<char>) -> Seq<char> {
    let kept = trimmed(endpoint);
    if has_prefix(kept, "http://"@) || has_prefix(kept, "https://"@) {
        kept
    } else {
        "http://"@ + kept
    }
}

/// The WebSocket scheme that goes with an HTTP scheme.
pub open spec fn ws_scheme(scheme: Seq<char>) -> Option<Seq<char>> {
    if scheme == "http"@ {
        Some("ws"@)
    } else if scheme == "https"@ {
        Some("wss"@)
    } else {
        None
    }
}

/// The URL `text` moved to `scheme` and pointed at the relay's WebSocket
/// path, without query and fragment; `None` where the scheme cannot be
/// changed.
pub open spec fn ws_target(text: Seq<char>, scheme: Seq<char>) -> Option<Seq<char>> {
    match url_with_scheme(text, scheme) {
        None => None,
        Some(switched) => Some(
            url_with_fragment(url_with_query(url_with_path(switched, WS_PATH@), None), None),
        ),
    }
}

/// The WebSocket address of a relay given by its HTTP address. An address
/// that is no URL, is too long to be rewritten, or has no WebSocket
/// counterpart, is handed back as it came.
pub open spec fn ws_endpoint(http_like: Seq<char>) -> Seq<char> {
    match parsed_url(normalized_http_endpoint(http_like)) {
        None => http_like,
        Some(text) => if url_size(text) > MAX_URL_BYTES {
            http_like
        } else {
            match ws_scheme(scheme_of(text)) {
                None => http_like,
                Some(scheme) => match ws_target(text, scheme) {
                    None => http_like,
                    Some(target) => target,
                },
            }
        },
    }
}

/// Brings an address as typed into its canonical HTTP form.
pub fn normalize_http_endpoint(endpoint: &str) -> (normalized: String)
    ensures
        normalized@ == normalized_http_endpoint(endpoint@),
{
    let kept = trimmed_chars(endpoint);
    let http = chars_of("http://");
    let https = chars_of("https://");
    if starts_with(&kept, &http) || starts_with(&kept, &https) {
        string_of(&kept)
    } else {
        let mut normalized = "http://".to_owned();
        let rest = string_of(&kept);
        normalized.append(rest.as_str());
        normalized
    }
}

/// Maps an HTTP scheme to the WebSocket scheme that goes with it.
pub fn ws_scheme_for(scheme: &str) -> (r: Option<&'static str>)
    ensures
        option_text(r) == ws_scheme(scheme@),
{
    if same_text(scheme, "http") {
        Some("ws")
    } else if same_text(scheme, "https") {
        Some("wss")
    } else {
        None
    }
}

/// Derives the WebSocket address of a relay from its HTTP address: scheme
/// `ws` for `http` and `wss` for `https`, the path `/ws`, no query, no
/// fragment.
pub fn to_ws_endpoint(http_like: &str) -> (ws: String)
    ensures
        ws@ == ws_endpoint(http_like@),
{
    let normalized = normalize_http_endpoint(http_like);
    let mut url = match url::Url::parse(normalized.as_str()) {
        Ok(url) => url,
        Err(_) => {
            return http_like.to_owned();
        },
    };
    if url.as_str().as_bytes().len() > MAX_URL_BYTES {
        return http_like.to_owned();
    }
    let next_scheme = match ws_scheme_for(url.scheme()) {
        Some(scheme) => scheme,
        None => {
            return http_like.to_owned();
        },
    };
    proof {
        reveal_strlit("ws");
        reveal_strlit("wss");
        reveal_strlit("/ws");
    }
    if url.set_scheme(next_scheme).is_err() {
        return http_like.to_owned();
    }
    url.set_path(WS_PATH);
    url.set_query(None);
    url.set_fragment(None);
    url.as_str().to_owned()
}

} // verus!
