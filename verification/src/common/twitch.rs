//! Twitch: the broadcaster id inside a stream key, and the title of a broadcast.
use vstd::prelude::*;
use crate::common::effect::opt_view;
use crate::text::{push_str, string_of};
use crate::text::{all_digits, chars_of, digits_only, find_char, find_char_from, has_prefix, lemma_find_from, lemma_find_skip, starts_with, string_from_chars};

verus! {

/// The broadcaster id of a stream key `live_<id>_<token>`: the digits between
/// `live_` and the next `_` (or the end), when there is at least one and all
/// are ASCII digits.
pub open spec fn broadcaster_id_spec(key: Seq<char>) -> Option<Seq<char>> {
    if has_prefix(key, "live_"@) {
        let rest = key.skip("live_"@.len() as int);
        let id = rest.take(find_char(rest, '_'));
        if id.len() > 0 && all_digits(id) {
            Some(id)
        } else {
            None
        }
    } else {
        None
    }
}

/// Parses the broadcaster id out of a stream key; `None` when it has none.
pub fn parse_broadcaster_id(stream_key: &str) -> (r: Option<String>)
    ensures
        r matches Some(id) ==> broadcaster_id_spec(stream_key@) == Some(id@),
        r is None <==> broadcaster_id_spec(stream_key@) is None,
{
    let v = chars_of(stream_key);
    if !starts_with(&v, "live_") {
        return None;
    }
    proof {
        reveal_strlit("live_");
    }
    let k = find_char_from(&v, '_', 5);
    proof {
        lemma_find_from(v@, '_', 5);
        lemma_find_skip(v@, '_', 5);
        assert(v@.skip(5).take(k - 5) =~= v@.subrange(5, k as int));
    }
    if k > 5 && digits_only(&v, 5, k) {
        Some(string_from_chars(&v, 5, k))
    } else {
        None
    }
}

} // verus!

verus! {

/// The public client id sent with Twitch GQL requests.
pub const TWITCH_GQL_CLIENT_ID: &'static str = "kimne78kx3ncx6brgo4mv6wki5h1ko";

/// The Twitch GQL endpoint.
pub const TWITCH_GQL_URL: &'static str = "https://gql.twitch.tv/gql";

/// The GQL query for the title of a user's last broadcast.
pub const TITLE_QUERY: &'static str = "query($id:ID!){ user(id:$id){ lastBroadcast { title } } }";

/// A text written as a JSON string literal by serde_json: quoted, with the
/// characters that JSON requires escaped.
pub uninterp spec fn json_string_of(text: Seq<char>) -> Seq<char>;

/// serde_json (`Value::String`, its `Display`): `text` as a JSON string
/// literal. The contract only names the result; writing a string value cannot fail.
#[verifier::external_body]
fn json_string(text: &str) -> (r: String)
    ensures
        r@ == json_string_of(text@),
{
    serde_json::Value::String(text.to_string()).to_string()
}

/// The JSON body of a GQL request with one variable `id`:
/// `{"query":<query>,"variables":{"id":<id>}}`, written compactly with its
/// keys in order, as serde_json writes that object.
pub open spec fn gql_body_spec(query: Seq<char>, id: Seq<char>) -> Seq<char> {
    "{\"query\":"@ + json_string_of(query) + ",\"variables\":{\"id\":"@ + json_string_of(id) + "}}"@
}

/// The body of the request for the title of `broadcaster_id`'s last broadcast.
pub fn title_request_body(broadcaster_id: &str) -> (r: String)
    ensures
        r@ == gql_body_spec(TITLE_QUERY@, broadcaster_id@),
{
    let mut r = string_of("{\"query\":");
    let q = json_string(TITLE_QUERY);
    push_str(&mut r, q.as_str());
    push_str(&mut r, ",\"variables\":{\"id\":");
    let i = json_string(broadcaster_id);
    push_str(&mut r, i.as_str());
    push_str(&mut r, "}}");
    r
}

/// Where the title stands in a GQL answer, as a JSON pointer:
/// `data.user.lastBroadcast.title`.
pub const TITLE_POINTER: &'static str = "/data/user/lastBroadcast/title";

/// The string that the JSON pointer `pointer` reaches in a JSON text, as
/// serde_json reads it: none when the text is not JSON, the pointer reaches
/// nothing, or what it reaches is no string.
pub uninterp spec fn json_str_at_of(text: Seq<char>, pointer: Seq<char>) -> Option<Seq<char>>;

/// serde_json (`from_str` into a `Value`, `Value::pointer`, `as_str`): the
/// string at `pointer` in a JSON text. The contract only names the result;
/// `pointer` gives `None` for a missing key or a non-object rather than panicking.
#[verifier::external_body]
fn json_str_at(text: &str, pointer: &str) -> (r: Option<String>)
    ensures
        opt_view(r) == json_str_at_of(text@, pointer@),
{
    match serde_json::from_str::<serde_json::Value>(text) {
        Ok(v) => v.pointer(pointer).and_then(|x| x.as_str()).map(|t| t.to_string()),
        Err(_) => None,
    }
}

/// A title counts when it is not empty.
pub open spec fn title_of_field(f: Option<Seq<char>>) -> Option<Seq<char>> {
    match f {
        Some(t) => if t.len() > 0 {
            Some(t)
        } else {
            None
        },
        None => None,
    }
}

/// The broadcast title from the title field of the answer.
pub fn title_from_field(field: Option<String>) -> (r: Option<String>)
    ensures
        opt_view(r) == title_of_field(opt_view(field)),
{
    match field {
        Some(t) => if t.as_str().is_empty() {
            None
        } else {
            Some(t)
        },
        None => None,
    }
}

/// The title of the last broadcast in the body of a Twitch GQL answer; none
/// when the body is not JSON, has no title string, or the title is empty.
pub fn live_title_from_body(body: &str) -> (r: Option<String>)
    ensures
        opt_view(r) == title_of_field(json_str_at_of(body@, TITLE_POINTER@)),
{
    title_from_field(json_str_at(body, TITLE_POINTER))
}

} // verus!
