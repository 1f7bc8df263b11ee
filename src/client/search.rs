//! Requests of the search operations.
use vstd::prelude::*;
use super::{join, percent_encode, percent_encoded, ApiRequest, BeeperClient, HttpMethod};

verus! {

/// The query of a search: the query text first, then the optional cursor and
/// direction, each joined with `&`.
pub open spec fn search_query(
    query: Seq<char>,
    cursor: Option<Seq<char>>,
    direction: Option<Seq<char>>,
) -> Seq<char> {
    "?q="@ + percent_encoded(query) + match cursor {
        Some(c) => "&cursor="@ + percent_encoded(c),
        None => Seq::empty(),
    } + match direction {
        Some(d) => "&direction="@ + d,
        None => Seq::empty(),
    }
}

/// Appends the search query for `query`, `cursor` and `direction` to `url`.
fn append_search_query(url: &mut String, query: &str, cursor: Option<&str>, direction: Option<&str>)
    ensures
        final(url)@ == old(url)@ + search_query(query@, cursor.deep_view(), direction.deep_view()),
{
    let ghost u = url@;
    url.append("?q=");
    let q = percent_encode(query);
    url.append(q.as_str());
    let ghost with_q = url@;
    let ghost c_part = match cursor.deep_view() {
        Some(c) => "&cursor="@ + percent_encoded(c),
        None => Seq::<char>::empty(),
    };
    let ghost d_part = match direction.deep_view() {
        Some(d) => "&direction="@ + d,
        None => Seq::<char>::empty(),
    };
    if let Some(c) = cursor {
        url.append("&cursor=");
        let e = percent_encode(c);
        url.append(e.as_str());
    }
    assert(url@ =~= with_q + c_part);
    let ghost with_c = url@;
    if let Some(d) = direction {
        url.append("&direction=");
        url.append(d);
    }
    assert(url@ =~= with_c + d_part);
    assert(url@ =~= u + ("?q="@ + percent_encoded(query@) + c_part + d_part));
}

impl BeeperClient {
    /// Searches messages across chats:
    /// `GET /v1/messages/search?q={query}[&cursor=][&direction=]`.
    pub fn search_messages(&self, query: &str, cursor: Option<&str>, direction: Option<&str>) -> (r:
        ApiRequest)
        ensures
            r.method == HttpMethod::Get,
            r.url@ == self@.base_url + "/v1/messages/search"@ + search_query(
                query@,
                cursor.deep_view(),
                direction.deep_view(),
            ),
            r.authorization@ == "Bearer "@ + self@.token,
            r.body is None,
    {
        let mut url = join(self.get_base_url(), "/v1/messages/search");
        append_search_query(&mut url, query, cursor, direction);
        self.request(HttpMethod::Get, url, None)
    }

    /// Searches chats by title, network, or participants:
    /// `GET /v1/chats/search?q={query}[&cursor=][&direction=]`.
    pub fn search_chats(&self, query: &str, cursor: Option<&str>, direction: Option<&str>) -> (r:
        ApiRequest)
        ensures
            r.method == HttpMethod::Get,
            r.url@ == self@.base_url + "/v1/chats/search"@ + search_query(
                query@,
                cursor.deep_view(),
                direction.deep_view(),
            ),
            r.authorization@ == "Bearer "@ + self@.token,
            r.body is None,
    {
        let mut url = join(self.get_base_url(), "/v1/chats/search");
        append_search_query(&mut url, query, cursor, direction);
        self.request(HttpMethod::Get, url, None)
    }
}

} // verus!
