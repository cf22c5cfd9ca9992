//! The callback-URI codec: action identifier and metadata are carried
//! through the one opaque string a native activation returns, as
//! `<scheme>://<notification-id>/<action-token>?<base64(json(metadata))>`,
//! and recovered from it exactly.

use vstd::prelude::*;
use vstd::utf8::*;

use base64::Engine;

use crate::error::Error;
use crate::notify::NotifyResponse;
use crate::notify::NotifyResponseAction;
use crate::notify::UserMetadata;
use crate::strutil::find_char;
use crate::strutil::find_char_in;
use crate::strutil::find_scheme_sep;
use crate::strutil::find_scheme_sep_in;
use crate::strutil::lemma_find_char_least;
use crate::strutil::lemma_find_char_props;
use crate::strutil::lemma_find_scheme_sep_least;
use crate::strutil::lemma_find_scheme_sep_props;
use crate::strutil::scheme_sep_at;
use crate::strutil::str_eq;

verus! {

// ---------------------------------------------------------------------------
// Trusted bridges to the serialization crates
// ---------------------------------------------------------------------------
/// The JSON text that a string-to-string mapping serializes to, with the
/// keys in sorted order.
pub uninterp spec fn json_of_map(m: Map<Seq<char>, Seq<char>>) -> Seq<char>;

/// The standard (padded) base64 text of a byte string.
pub uninterp spec fn base64_of(b: Seq<u8>) -> Seq<char>;

/// Relies on serde_json::to_string over a sorted string-to-string map, which
/// serializes such a map as one JSON object and cannot fail for string keys
/// and values; the entries are collected into a B-tree map first, so the
/// result depends only on the mapping, not on the entry order.
#[verifier::external_body]
pub(crate) fn metadata_to_json(m: &UserMetadata) -> (r: String)
    ensures
        r@ == json_of_map(m@),
{
    let map: std::collections::BTreeMap<String, String> = m.entries.iter().cloned().collect();
    serde_json::to_string(&map).unwrap_or_else(|_| "{}".to_string())
}

/// Relies on serde_json::from_slice parsing a JSON object back into the
/// string-to-string map it was serialized from.
#[verifier::external_body]
pub(crate) fn metadata_from_json_bytes(bytes: &[u8]) -> (r: Option<UserMetadata>)
    ensures
        match r {
            Some(u) => forall|m: Map<Seq<char>, Seq<char>>|
                bytes@ == encode_utf8(json_of_map(m)) ==> u@ == m,
            None => forall|m: Map<Seq<char>, Seq<char>>| bytes@ != encode_utf8(json_of_map(m)),
        },
{
    match serde_json::from_slice::<std::collections::BTreeMap<String, String>>(bytes) {
        Ok(map) => Some(UserMetadata { entries: map.into_iter().collect() }),
        Err(_) => None,
    }
}

/// Relies on the base64 crate's standard engine for encoding.
#[verifier::external_body]
pub(crate) fn b64_encode(bytes: &[u8]) -> (r: String)
    ensures
        r@ == base64_of(bytes@),
{
    base64::prelude::BASE64_STANDARD.encode(bytes)
}

/// Relies on the base64 crate's standard engine: decoding inverts its own
/// encoding, byte for byte.
#[verifier::external_body]
pub(crate) fn b64_decode(s: &str) -> (r: Result<Vec<u8>, String>)
    ensures
        match r {
            Ok(v) => forall|b: Seq<u8>| s@ == base64_of(b) ==> v@ == b,
            Err(_) => forall|b: Seq<u8>| s@ != base64_of(b),
        },
{
    match base64::prelude::BASE64_STANDARD.decode(s) {
        Ok(v) => Ok(v),
        Err(e) => Err(e.to_string()),
    }
}

// ---------------------------------------------------------------------------
// The callback-URI grammar
// ---------------------------------------------------------------------------
/// The reserved token that stands for a tap on the notification itself.
pub open spec fn default_token() -> Seq<char> {
    "__default__"@
}

/// The reserved token that stands for dismissing the notification.
pub open spec fn dismiss_token() -> Seq<char> {
    "__dismiss__"@
}

/// The token a response action is carried as: one of the two reserved
/// literals, or the raw action identifier.
pub open spec fn action_token(a: NotifyResponseAction) -> Seq<char> {
    match a {
        NotifyResponseAction::Default => default_token(),
        NotifyResponseAction::Dismiss => dismiss_token(),
        NotifyResponseAction::Other(s) => s@,
    }
}

/// True when `a` is the action that the token decodes to.
pub open spec fn action_matches(a: NotifyResponseAction, token: Seq<char>) -> bool {
    if token == default_token() {
        a matches NotifyResponseAction::Default
    } else if token == dismiss_token() {
        a matches NotifyResponseAction::Dismiss
    } else {
        a matches NotifyResponseAction::Other(s) && s@ == token
    }
}

/// True when two response actions carry the same interaction.
pub open spec fn same_action(a: NotifyResponseAction, b: NotifyResponseAction) -> bool {
    match (a, b) {
        (NotifyResponseAction::Default, NotifyResponseAction::Default) => true,
        (NotifyResponseAction::Dismiss, NotifyResponseAction::Dismiss) => true,
        (NotifyResponseAction::Other(x), NotifyResponseAction::Other(y)) => x@ == y@,
        _ => false,
    }
}

/// A callback URI assembled from its four parts:
/// `<scheme>://<id>/<token>?<query>`.
pub open spec fn deeplink_of(
    scheme: Seq<char>,
    id: Seq<char>,
    token: Seq<char>,
    query: Seq<char>,
) -> Seq<char> {
    scheme + "://"@ + id + "/"@ + token + "?"@ + query
}

/// The parts a callback URI splits into.
pub struct DeeplinkParts {
    pub scheme: Seq<char>,
    pub id: Seq<char>,
    pub token: Seq<char>,
    pub query: Option<Seq<char>>,
}

/// Splits a string at its first `://`, the first `/` after that, and the
/// first `?` after that: `<scheme>://<id>/<token>[?<query>]`. A string
/// without `://`, or without a `/` after it, is not a callback URI.
pub open spec fn spec_parse_deeplink(s: Seq<char>) -> Option<DeeplinkParts> {
    match find_scheme_sep(s) {
        None => None,
        Some(k) => {
            let scheme = s.subrange(0, k);
            let rest = s.subrange(k + 3, s.len() as int);
            match find_char(rest, '/') {
                None => None,
                Some(h) => {
                    let id = rest.subrange(0, h);
                    let pathq = rest.subrange(h + 1, rest.len() as int);
                    match find_char(pathq, '?') {
                        None => Some(
                            DeeplinkParts { scheme, id, token: pathq, query: None },
                        ),
                        Some(q) => Some(
                            DeeplinkParts {
                                scheme,
                                id,
                                token: pathq.subrange(0, q),
                                query: Some(pathq.subrange(q + 1, pathq.len() as int)),
                            },
                        ),
                    }
                },
            }
        },
    }
}

// ---------------------------------------------------------------------------
// Executable encoder and decoder
// ---------------------------------------------------------------------------
/// Encodes a response as a callback URI,
/// `<scheme>://<id>/<token>?<base64(json(metadata))>`, so that the one
/// opaque string a native activation carries can identify the notification,
/// the action taken and the caller's metadata.
pub fn encode_deeplink(scheme: &str, response: &NotifyResponse) -> (r: String)
    ensures
        r@ == deeplink_of(
            scheme@,
            response.notification_id@,
            action_token(response.action),
            base64_of(encode_utf8(json_of_map(response.user_metadata@))),
        ),
{
    let json = metadata_to_json(&response.user_metadata);
    let attribute = b64_encode(json.as_str().as_bytes());
    let mut out = String::new();
    out.append(scheme);
    out.append("://");
    out.append(response.notification_id.as_str());
    out.append("/");
    match &response.action {
        NotifyResponseAction::Default => out.append("__default__"),
        NotifyResponseAction::Dismiss => out.append("__dismiss__"),
        NotifyResponseAction::Other(s) => out.append(s.as_str()),
    }
    out.append("?");
    out.append(attribute.as_str());
    out
}

/// Splits a callback URI into its notification id, action token and query.
fn parse_deeplink_fields(link: &str) -> (r: Option<(String, String, Option<String>)>)
    ensures
        match spec_parse_deeplink(link@) {
            Some(p) => r matches Some(t) && t.0@ == p.id && t.1@ == p.token && (match (
                t.2,
                p.query,
            ) {
                (Some(q), Some(pq)) => q@ == pq,
                (None, None) => true,
                _ => false,
            }),
            None => r is None,
        },
{
    let len = link.unicode_len();
    let sep = match find_scheme_sep_in(link) {
        None => {
            return None;
        },
        Some(k) => k,
    };
    proof {
        lemma_find_scheme_sep_props(link@);
    }
    let rest = link.substring_char(sep + 3, len);
    let rest_len = rest.unicode_len();
    let slash = match find_char_in(rest, '/') {
        None => {
            return None;
        },
        Some(h) => h,
    };
    proof {
        lemma_find_char_props(rest@, '/');
    }
    let id = rest.substring_char(0, slash).to_owned();
    let pathq = rest.substring_char(slash + 1, rest_len);
    let pathq_len = pathq.unicode_len();
    match find_char_in(pathq, '?') {
        None => Some((id, pathq.to_owned(), None)),
        Some(q) => {
            proof {
                lemma_find_char_props(pathq@, '?');
            }
            let token = pathq.substring_char(0, q).to_owned();
            let query = pathq.substring_char(q + 1, pathq_len).to_owned();
            Some((id, token, Some(query)))
        },
    }
}

/// Maps an action token back to the response action it stands for.
fn action_of_token(token: String) -> (r: NotifyResponseAction)
    ensures
        action_matches(r, token@),
{
    if str_eq(token.as_str(), "__default__") {
        NotifyResponseAction::Default
    } else if str_eq(token.as_str(), "__dismiss__") {
        NotifyResponseAction::Dismiss
    } else {
        NotifyResponseAction::Other(token)
    }
}

/// Decodes a callback URI produced by `encode_deeplink` back into a
/// response: the notification id, the action taken, and the metadata
/// mapping recovered from the query component. A string that does not
/// split as a callback URI is rejected; a missing query decodes to empty
/// metadata.
pub fn decode_deeplink(link: &str) -> (r: Result<NotifyResponse, Error>)
    ensures
        spec_parse_deeplink(link@) is None <==> (r matches Err(e) && e matches Error::UrlParse(_)),
        spec_parse_deeplink(link@) matches Some(p) ==> {
            &&& (r matches Ok(resp) ==> {
                &&& resp.notification_id@ == p.id
                &&& action_matches(resp.action, p.token)
                &&& resp.user_input is None
            })
            &&& (p.query is None ==> (r matches Ok(resp) && resp.user_metadata@ == Map::<
                Seq<char>,
                Seq<char>,
            >::empty()))
            &&& (p.query matches Some(q) ==> forall|m: Map<Seq<char>, Seq<char>>|
                q == base64_of(encode_utf8(json_of_map(m))) ==> (r matches Ok(resp)
                    && resp.user_metadata@ == m))
        },
{
    let parsed = match parse_deeplink_fields(link) {
        None => {
            return Err(
                Error::UrlParse("notification deeplink does not have the expected shape".to_owned()),
            );
        },
        Some(t) => t,
    };
    let (id, token, query) = parsed;
    let user_metadata = match query {
        None => UserMetadata::new(),
        Some(q) => {
            let bytes = match b64_decode(q.as_str()) {
                Err(msg) => {
                    return Err(Error::Base64Decode(msg));
                },
                Ok(v) => v,
            };
            match metadata_from_json_bytes(bytes.as_slice()) {
                None => {
                    return Err(Error::FailedToParseUserInfo(q));
                },
                Some(u) => u,
            }
        },
    };
    let action = action_of_token(token);
    Ok(NotifyResponse { notification_id: id, action, user_input: None, user_metadata })
}

// ---------------------------------------------------------------------------
// The round-trip law
// ---------------------------------------------------------------------------
/// Round-trip law: a callback URI assembled from a notification id, an
/// action and any query splits back into exactly those parts, and the
/// action token decodes to the action it was made from. Together with the
/// contracts of `encode_deeplink` and `decode_deeplink` this says that
/// decoding an encoded response recovers the notification id, the action
/// and the metadata mapping.
///
/// The scheme must not contain `:`, the id must not contain `/` or `?`,
/// and an `Other` action identifier must not contain `?` nor collide with
/// one of the two reserved tokens; the encoding is not injective beyond
/// that boundary.
pub proof fn lemma_deeplink_round_trip(
    scheme: Seq<char>,
    id: Seq<char>,
    a: NotifyResponseAction,
    query: Seq<char>,
)
    requires
        !scheme.contains(':'),
        !id.contains('/'),
        !id.contains('?'),
        a matches NotifyResponseAction::Other(s) ==> !s@.contains('?') && s@ != default_token()
            && s@ != dismiss_token(),
    ensures
        spec_parse_deeplink(deeplink_of(scheme, id, action_token(a), query)) == Some(
            DeeplinkParts { scheme, id, token: action_token(a), query: Some(query) },
        ),
        forall|b: NotifyResponseAction|
            #[trigger] action_matches(b, action_token(a)) ==> same_action(b, a),
{
    reveal_strlit("://");
    reveal_strlit("/");
    reveal_strlit("?");
    reveal_strlit("__default__");
    reveal_strlit("__dismiss__");
    let token = action_token(a);
    let s = deeplink_of(scheme, id, token, query);
    assert(!token.contains('?')) by {
        match a {
            NotifyResponseAction::Other(_) => {},
            _ => {
                if token.contains('?') {
                    let i = choose|i: int| 0 <= i < token.len() && token[i] == '?';
                    assert(false);
                }
            },
        }
    }
    // The first `://` stands at the end of the scheme.
    let k = scheme.len() as int;
    assert(scheme_sep_at(s, k)) by {
        assert(s[k] == ':');
        assert(s[k + 1] == '/');
        assert(s[k + 2] == '/');
    }
    assert forall|j: int| 0 <= j < k implies !scheme_sep_at(s, j) by {
        assert(s[j] == scheme[j]);
        assert(!scheme.contains(':') ==> scheme[j] != ':');
        if scheme[j] == ':' {
            assert(scheme.contains(':'));
        }
    }
    lemma_find_scheme_sep_least(s, k);
    assert(s.subrange(0, k) =~= scheme);
    let rest = s.subrange(k + 3, s.len() as int);
    assert(rest =~= id + "/"@ + token + "?"@ + query);
    // The first `/` after the separator stands at the end of the id.
    let h = id.len() as int;
    assert(rest[h] == '/');
    assert forall|j: int| 0 <= j < h implies rest[j] != '/' by {
        assert(rest[j] == id[j]);
        if id[j] == '/' {
            assert(id.contains('/'));
        }
    }
    lemma_find_char_least(rest, '/', h);
    assert(rest.subrange(0, h) =~= id);
    let pathq = rest.subrange(h + 1, rest.len() as int);
    assert(pathq =~= token + "?"@ + query);
    // The first `?` after that stands at the end of the token.
    let q = token.len() as int;
    assert(pathq[q] == '?');
    assert forall|j: int| 0 <= j < q implies pathq[j] != '?' by {
        assert(pathq[j] == token[j]);
        if token[j] == '?' {
            assert(token.contains('?'));
        }
    }
    lemma_find_char_least(pathq, '?', q);
    assert(pathq.subrange(0, q) =~= token);
    assert(pathq.subrange(q + 1, pathq.len() as int) =~= query);
    // The token decodes back to the action it was made from.
    assert(default_token() != dismiss_token()) by {
        assert(default_token()[2] == 'd');
        assert(dismiss_token()[2] == 'd');
        assert(default_token()[3] == 'e');
        assert(dismiss_token()[3] == 'i');
    }
    assert forall|b: NotifyResponseAction|
        #[trigger] action_matches(b, action_token(a)) implies same_action(b, a) by {
        match a {
            NotifyResponseAction::Default => {},
            NotifyResponseAction::Dismiss => {},
            NotifyResponseAction::Other(_) => {},
        }
    }
}

} // verus!
