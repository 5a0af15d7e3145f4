//! Building the requests that the article endpoints take.
//!
//! A request is plain data: method, URL, query pairs and headers. The
//! builders here state exactly which URL a client targets and which query
//! pairs each parameter contributes, and that the configured credential is
//! attached to every request an authenticated client builds.

use vstd::prelude::*;

use crate::config::Client;

verus! {

/// The model of an optional borrowed string.
pub open spec fn opt_ref_str_view(v: Option<&str>) -> Option<Seq<char>> {
    match v {
        Some(s) => Some(s@),
        None => None,
    }
}

/// The model of a list of string pairs.
pub open spec fn pairs_view(v: Seq<(String, String)>) -> Seq<(Seq<char>, Seq<char>)> {
    v.map_values(|p: (String, String)| (p.0@, p.1@))
}

// ---------------------------------------------------------------------------
// Decimal formatting
// ---------------------------------------------------------------------------

/// The decimal digit character for `d`.
pub open spec fn spec_digit_char(d: int) -> char {
    if d == 0 { '0' }
    else if d == 1 { '1' }
    else if d == 2 { '2' }
    else if d == 3 { '3' }
    else if d == 4 { '4' }
    else if d == 5 { '5' }
    else if d == 6 { '6' }
    else if d == 7 { '7' }
    else if d == 8 { '8' }
    else { '9' }
}

/// The decimal notation of `n`, most significant digit first, with no
/// leading zeros.
pub open spec fn spec_u32_str(n: int) -> Seq<char>
    decreases n,
{
    if n < 10 {
        seq![spec_digit_char(n)]
    } else {
        spec_u32_str(n / 10).push(spec_digit_char(n % 10))
    }
}

/// The decimal digit character for `d`.
fn digit_char(d: u32) -> (c: char)
    requires
        d < 10,
    ensures
        c == spec_digit_char(d as int),
{
    match d {
        0 => '0',
        1 => '1',
        2 => '2',
        3 => '3',
        4 => '4',
        5 => '5',
        6 => '6',
        7 => '7',
        8 => '8',
        _ => '9',
    }
}

/// Appends the decimal notation of `n` to `out`.
fn push_u32_chars(n: u32, out: &mut Vec<char>)
    ensures
        final(out)@ == old(out)@ + spec_u32_str(n as int),
    decreases n,
{
    if n < 10 {
        out.push(digit_char(n));
        proof {
            assert(final(out)@ =~= old(out)@ + spec_u32_str(n as int));
        }
    } else {
        push_u32_chars(n / 10, out);
        out.push(digit_char(n % 10));
        proof {
            assert(final(out)@ =~= old(out)@ + spec_u32_str(n as int));
        }
    }
}

/// Formats `n` in decimal.
pub fn u32_to_string(n: u32) -> (r: String)
    ensures
        r@ == spec_u32_str(n as int),
{
    let mut chars: Vec<char> = Vec::new();
    push_u32_chars(n, &mut chars);
    proof {
        assert(chars@ =~= spec_u32_str(n as int));
    }
    crate::json::chars_to_string(&chars)
}

// ---------------------------------------------------------------------------
// Requests
// ---------------------------------------------------------------------------

/// A request to the API, as plain data for whatever transport sends it.
pub struct ApiRequest {
    pub method: String,
    pub url: String,
    pub query: Vec<(String, String)>,
    pub headers: Vec<(String, String)>,
}

/// The model of a request.
#[verifier::ext_equal]
pub struct ApiRequestV {
    pub method: Seq<char>,
    pub url: Seq<char>,
    pub query: Seq<(Seq<char>, Seq<char>)>,
    pub headers: Seq<(Seq<char>, Seq<char>)>,
}

impl View for ApiRequest {
    type V = ApiRequestV;

    open spec fn view(&self) -> ApiRequestV {
        ApiRequestV {
            method: self.method@,
            url: self.url@,
            query: pairs_view(self.query@),
            headers: pairs_view(self.headers@),
        }
    }
}

/// The headers a client attaches: the credential header exactly when a
/// credential is configured.
pub open spec fn spec_auth_headers(api_key: Option<Seq<char>>) -> Seq<(Seq<char>, Seq<char>)> {
    match api_key {
        Some(k) => seq![("api-key"@, k)],
        None => Seq::<(Seq<char>, Seq<char>)>::empty(),
    }
}

/// Law: a client configured with a credential attaches it, under the
/// `api-key` header, to every request it builds. Both request builders
/// return headers equal to `spec_auth_headers` of the client's
/// configuration, and those headers carry the credential.
pub proof fn lemma_auth_header_attached(c: crate::config::ClientV, api_key: Seq<char>)
    requires
        c.api_key == Some(api_key),
    ensures
        spec_auth_headers(c.api_key).contains(("api-key"@, api_key)),
{
    assert(spec_auth_headers(c.api_key)[0] == ("api-key"@, api_key));
}

/// The parameters of the article list endpoint, each sent as a query pair
/// when present.
pub struct ArticlesQuery {
    pub collection_id: Option<u32>,
    pub page: Option<u32>,
    pub per_page: Option<u32>,
    pub state: Option<String>,
    pub tag: Option<String>,
    pub tags: Option<String>,
    pub tags_exclude: Option<String>,
    pub top: Option<u32>,
    pub username: Option<String>,
}

/// The model of the article list parameters.
#[verifier::ext_equal]
pub struct ArticlesQueryV {
    pub collection_id: Option<int>,
    pub page: Option<int>,
    pub per_page: Option<int>,
    pub state: Option<Seq<char>>,
    pub tag: Option<Seq<char>>,
    pub tags: Option<Seq<char>>,
    pub tags_exclude: Option<Seq<char>>,
    pub top: Option<int>,
    pub username: Option<Seq<char>>,
}

impl View for ArticlesQuery {
    type V = ArticlesQueryV;

    open spec fn view(&self) -> ArticlesQueryV {
        ArticlesQueryV {
            collection_id: crate::articles::opt_u32_view(self.collection_id),
            page: crate::articles::opt_u32_view(self.page),
            per_page: crate::articles::opt_u32_view(self.per_page),
            state: crate::articles::opt_str_view(self.state),
            tag: crate::articles::opt_str_view(self.tag),
            tags: crate::articles::opt_str_view(self.tags),
            tags_exclude: crate::articles::opt_str_view(self.tags_exclude),
            top: crate::articles::opt_u32_view(self.top),
            username: crate::articles::opt_str_view(self.username),
        }
    }
}

impl ArticlesQuery {
    /// No parameters: the endpoint's defaults.
    pub fn none() -> (r: ArticlesQuery)
        ensures
            r@ == (ArticlesQueryV {
                collection_id: None::<int>,
                page: None::<int>,
                per_page: None::<int>,
                state: None::<Seq<char>>,
                tag: None::<Seq<char>>,
                tags: None::<Seq<char>>,
                tags_exclude: None::<Seq<char>>,
                top: None::<int>,
                username: None::<Seq<char>>,
            }),
    {
        ArticlesQuery {
            collection_id: None,
            page: None,
            per_page: None,
            state: None,
            tag: None,
            tags: None,
            tags_exclude: None,
            top: None,
            username: None,
        }
    }
}

/// The query pair an optional numeric parameter contributes.
pub open spec fn opt_num_entry(k: Seq<char>, v: Option<int>) -> Seq<(Seq<char>, Seq<char>)> {
    match v {
        Some(n) => seq![(k, spec_u32_str(n))],
        None => Seq::<(Seq<char>, Seq<char>)>::empty(),
    }
}

/// The query pair an optional string parameter contributes.
pub open spec fn opt_str_entry(k: Seq<char>, v: Option<Seq<char>>) -> Seq<(Seq<char>, Seq<char>)> {
    match v {
        Some(s) => seq![(k, s)],
        None => Seq::<(Seq<char>, Seq<char>)>::empty(),
    }
}

/// The query pairs of the article list endpoint: one pair per present
/// parameter, in a fixed order.
pub open spec fn spec_articles_query(q: ArticlesQueryV) -> Seq<(Seq<char>, Seq<char>)> {
    opt_num_entry("collection_id"@, q.collection_id)
        + opt_num_entry("page"@, q.page)
        + opt_num_entry("per_page"@, q.per_page)
        + opt_str_entry("state"@, q.state)
        + opt_str_entry("tag"@, q.tag)
        + opt_str_entry("tags"@, q.tags)
        + opt_str_entry("tags_exclude"@, q.tags_exclude)
        + opt_num_entry("top"@, q.top)
        + opt_str_entry("username"@, q.username)
}

/// Pushes a numeric parameter's pair, when present.
fn push_num_param(out: &mut Vec<(String, String)>, k: &str, v: &Option<u32>)
    ensures
        pairs_view(final(out)@) == pairs_view(old(out)@)
            + opt_num_entry(k@, crate::articles::opt_u32_view(*v)),
{
    match v {
        Some(n) => {
            out.push((k.to_owned(), u32_to_string(*n)));
        },
        None => {},
    }
    proof {
        assert(pairs_view(final(out)@) =~= pairs_view(old(out)@)
            + opt_num_entry(k@, crate::articles::opt_u32_view(*v)));
    }
}

/// Pushes a string parameter's pair, when present.
fn push_str_param(out: &mut Vec<(String, String)>, k: &str, v: &Option<String>)
    ensures
        pairs_view(final(out)@) == pairs_view(old(out)@)
            + opt_str_entry(k@, crate::articles::opt_str_view(*v)),
{
    match v {
        Some(s) => {
            out.push((k.to_owned(), s.clone()));
        },
        None => {},
    }
    proof {
        assert(pairs_view(final(out)@) =~= pairs_view(old(out)@)
            + opt_str_entry(k@, crate::articles::opt_str_view(*v)));
    }
}

impl Client {
    /// The request of the article list endpoint: `GET {base}/articles`,
    /// one query pair per present parameter, the credential attached when
    /// one is configured.
    pub fn get_articles_request(&self, q: &ArticlesQuery) -> (r: ApiRequest)
        ensures
            r@ == (ApiRequestV {
                method: "GET"@,
                url: self@.base_url + "/articles"@,
                query: spec_articles_query(q@),
                headers: spec_auth_headers(self@.api_key),
            }),
    {
        let mut url = self.base_url().to_owned();
        url.append("/articles");
        let mut query: Vec<(String, String)> = Vec::new();
        push_num_param(&mut query, "collection_id", &q.collection_id);
        push_num_param(&mut query, "page", &q.page);
        push_num_param(&mut query, "per_page", &q.per_page);
        push_str_param(&mut query, "state", &q.state);
        push_str_param(&mut query, "tag", &q.tag);
        push_str_param(&mut query, "tags", &q.tags);
        push_str_param(&mut query, "tags_exclude", &q.tags_exclude);
        push_num_param(&mut query, "top", &q.top);
        push_str_param(&mut query, "username", &q.username);
        let r = ApiRequest {
            method: "GET".to_owned(),
            url,
            query,
            headers: self.auth_headers(),
        };
        proof {
            assert(pairs_view(Seq::<(String, String)>::empty())
                =~= Seq::<(Seq<char>, Seq<char>)>::empty());
            assert(r@.query =~= spec_articles_query(q@));
            assert(r@ =~= (ApiRequestV {
                method: "GET"@,
                url: self@.base_url + "/articles"@,
                query: spec_articles_query(q@),
                headers: spec_auth_headers(self@.api_key),
            }));
        }
        r
    }

    /// The request of the by-id endpoint: `GET {base}/articles/{id}`, the
    /// credential attached when one is configured.
    pub fn get_article_by_id_request(&self, id: u32) -> (r: ApiRequest)
        ensures
            r@ == (ApiRequestV {
                method: "GET"@,
                url: self@.base_url + "/articles/"@ + spec_u32_str(id as int),
                query: Seq::<(Seq<char>, Seq<char>)>::empty(),
                headers: spec_auth_headers(self@.api_key),
            }),
    {
        let mut url = self.base_url().to_owned();
        url.append("/articles/");
        let id_str = u32_to_string(id);
        url.append(id_str.as_str());
        let r = ApiRequest {
            method: "GET".to_owned(),
            url,
            query: Vec::new(),
            headers: self.auth_headers(),
        };
        proof {
            assert(r@ =~= (ApiRequestV {
                method: "GET"@,
                url: self@.base_url + "/articles/"@ + spec_u32_str(id as int),
                query: Seq::<(Seq<char>, Seq<char>)>::empty(),
                headers: spec_auth_headers(self@.api_key),
            }));
        }
        r
    }

    /// The headers this client attaches to a request it builds.
    pub fn auth_headers(&self) -> (r: Vec<(String, String)>)
        ensures
            pairs_view(r@) == spec_auth_headers(self@.api_key),
    {
        let mut r: Vec<(String, String)> = Vec::new();
        match self.api_key() {
            Some(k) => {
                r.push(("api-key".to_owned(), k.to_owned()));
            },
            None => {},
        }
        proof {
            assert(pairs_view(r@) =~= spec_auth_headers(self@.api_key));
        }
        r
    }
}

} // verus!
