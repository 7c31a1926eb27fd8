//! The management-server side of direct volumes: routing a request to its
//! handler, reading the volume path out of a query string, and building the
//! request line the client sends. The HTTP transport itself stays outside
//! this layer.

use vstd::prelude::*;
use vstd::string::StringExecFns;
use vstd::utf8::encode_utf8;

use crate::volume::b64url_unescaped;

verus! {

/// Where a management request is dispatched, by method and path.
#[derive(Debug, Clone, Copy, PartialEq, Eq, Structural)]
pub enum MgmtRoute {
    AgentUrl,
    DirectVolumeStats,
    DirectVolumeResize,
    NotFound,
}

/// The dispatch rule of the management server.
pub open spec fn route_spec(method: Seq<char>, path: Seq<char>) -> MgmtRoute {
    if method == "GET"@ && path == "/agent-url"@ {
        MgmtRoute::AgentUrl
    } else if method == "GET"@ && path == "/direct-volume/stats"@ {
        MgmtRoute::DirectVolumeStats
    } else if method == "POST"@ && path == "/direct-volume/resize"@ {
        MgmtRoute::DirectVolumeResize
    } else {
        MgmtRoute::NotFound
    }
}

/// Dispatches one request by method and path: the agent-url query and the
/// volume stats are reads, a volume resize is a post; everything else is
/// not found.
pub fn route(method: &str, path: &str) -> (r: MgmtRoute)
    ensures
        r == route_spec(method@, path@),
{
    let m = String::from_str(method);
    let p = String::from_str(path);
    if m == String::from_str("GET") && p == String::from_str("/agent-url") {
        MgmtRoute::AgentUrl
    } else if m == String::from_str("GET") && p == String::from_str("/direct-volume/stats") {
        MgmtRoute::DirectVolumeStats
    } else if m == String::from_str("POST") && p == String::from_str("/direct-volume/resize") {
        MgmtRoute::DirectVolumeResize
    } else {
        MgmtRoute::NotFound
    }
}

/// The stats endpoint's path.
pub fn direct_volume_stat_url() -> (r: &'static str)
    ensures
        r@ == "/direct-volume/stats"@,
{
    "/direct-volume/stats"
}

/// The resize endpoint's path.
pub fn direct_volume_resize_url() -> (r: &'static str)
    ensures
        r@ == "/direct-volume/resize"@,
{
    "/direct-volume/resize"
}

/// The query key the volume path travels under.
pub fn direct_volume_path_key() -> (r: &'static str)
    ensures
        r@ == "path"@,
{
    "path"
}

/// What `url::form_urlencoded::parse` makes of a query string's bytes: its
/// `key=value` pairs, percent-decoded.
pub uninterp spec fn parsed_query_pairs(q: Seq<u8>) -> Seq<(Seq<char>, Seq<char>)>;

/// Relies on `url::form_urlencoded::parse`: it splits the query's bytes
/// into `key=value` pairs on `'&'` and percent-decodes both sides; the
/// result is a function of the bytes alone.
#[verifier::external_body]
fn parse_query_pairs(query: &str) -> (r: Vec<(String, String)>)
    ensures
        r@.map_values(|p: (String, String)| (p.0@, p.1@)) == parsed_query_pairs(
            encode_utf8(query@),
        ),
{
    url::form_urlencoded::parse(query.as_bytes()).into_owned().collect()
}

/// The value under the first occurrence of `key`, if any.
pub open spec fn first_query_value(pairs: Seq<(Seq<char>, Seq<char>)>, key: Seq<char>) -> Option<
    Seq<char>,
>
    decreases pairs.len(),
{
    if pairs.len() == 0 {
        None
    } else if pairs[0].0 == key {
        Some(pairs[0].1)
    } else {
        first_query_value(pairs.drop_first(), key)
    }
}

proof fn lemma_first_query_value_none(pairs: Seq<(Seq<char>, Seq<char>)>, key: Seq<char>)
    requires
        forall|j: int| 0 <= j < pairs.len() ==> (#[trigger] pairs[j]).0 != key,
    ensures
        first_query_value(pairs, key) is None,
    decreases pairs.len(),
{
    if pairs.len() > 0 {
        assert forall|j: int| 0 <= j < pairs.drop_first().len() implies (#[trigger] pairs.drop_first()[j]).0
            != key by {
            assert(pairs.drop_first()[j] == pairs[j + 1]);
        }
        lemma_first_query_value_none(pairs.drop_first(), key);
    }
}

proof fn lemma_first_query_value_found(pairs: Seq<(Seq<char>, Seq<char>)>, key: Seq<char>, i: int)
    requires
        0 <= i < pairs.len(),
        pairs[i].0 == key,
        forall|j: int| 0 <= j < i ==> (#[trigger] pairs[j]).0 != key,
    ensures
        first_query_value(pairs, key) == Some(pairs[i].1),
    decreases i,
{
    if i > 0 {
        assert(pairs[0].0 != key);
        assert forall|j: int| 0 <= j < i - 1 implies (#[trigger] pairs.drop_first()[j]).0 != key by {
            assert(pairs.drop_first()[j] == pairs[j + 1]);
        }
        assert(pairs.drop_first()[i - 1] == pairs[i]);
        lemma_first_query_value_found(pairs.drop_first(), key, i - 1);
    }
}

/// Looks `key` up among decoded query pairs; returns the value under its
/// first occurrence, exactly when one exists.
pub fn find_query_value(pairs: &Vec<(String, String)>, key: &str) -> (r: Option<String>)
    ensures
        ({
            let ps = pairs@.map_values(|p: (String, String)| (p.0@, p.1@));
            match first_query_value(ps, key@) {
                None => r is None,
                Some(v) => r matches Some(s) && s@ == v,
            }
        }),
{
    let ghost ps = pairs@.map_values(|p: (String, String)| (p.0@, p.1@));
    let k = String::from_str(key);
    let mut i: usize = 0;
    while i < pairs.len()
        invariant
            i <= pairs@.len(),
            k@ == key@,
            ps == pairs@.map_values(|p: (String, String)| (p.0@, p.1@)),
            forall|j: int| 0 <= j < i ==> (#[trigger] ps[j]).0 != key@,
        decreases pairs@.len() - i,
    {
        proof {
            assert(ps[i as int] == (pairs@[i as int].0@, pairs@[i as int].1@));
        }
        if pairs[i].0 == k {
            let r = Some(pairs[i].1.clone());
            proof {
                lemma_first_query_value_found(ps, key@, i as int);
            }
            return r;
        }
        i += 1;
    }
    proof {
        lemma_first_query_value_none(ps, key@);
    }
    None
}

/// Reads the volume path out of a stats request's query string: the value
/// under the first `path` key, decoded from its url-safe base64 form.
/// Returns `Some` exactly when the query carries a `path` key.
pub fn stats_volume_path(query: &str) -> (r: Option<String>)
    ensures
        ({
            let ps = parsed_query_pairs(encode_utf8(query@));
            match first_query_value(ps, "path"@) {
                None => r is None,
                Some(v) => r matches Some(s) && s@ == b64url_unescaped(
                    v,
                    encode_utf8(v).len() as nat,
                ),
            }
        }),
{
    let pairs = parse_query_pairs(query);
    match find_query_value(&pairs, direct_volume_path_key()) {
        Some(p) => Some(crate::volume::unescape_volume_path(&p)),
        None => None,
    }
}

/// What `url::form_urlencoded` serialization makes of one string: its
/// characters percent-encoded for a query component. The encoding is a
/// function of the characters alone.
pub uninterp spec fn form_urlencoded_of(s: Seq<char>) -> Seq<char>;

/// Relies on `url::form_urlencoded::Serializer::append_pair`: it appends
/// `key=value` to the target, percent-encoding key and value, with a `'&'`
/// separator when the target is not empty.
#[verifier::external_body]
fn append_urlencoded_pair(target: String, key: &str, value: &str) -> (r: String)
    ensures
        r@ == target@ + (if target@.len() > 0 {
            "&"@
        } else {
            Seq::<char>::empty()
        }) + form_urlencoded_of(key@) + "="@ + form_urlencoded_of(value@),
{
    url::form_urlencoded::Serializer::new(target).append_pair(key, value).finish()
}

/// Builds the request line the client sends to fetch a volume's stats: the
/// stats path with the device appended under the `path` key.
pub fn stats_request_url(device: &str) -> (r: String)
    ensures
        r@ == "/direct-volume/stats"@ + "&"@ + form_urlencoded_of("path"@) + "="@
            + form_urlencoded_of(device@),
{
    proof {
        reveal_strlit("/direct-volume/stats");
    }
    append_urlencoded_pair(String::from_str(direct_volume_stat_url()), direct_volume_path_key(), device)
}

} // verus!
