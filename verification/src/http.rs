//! The HTTP requests the client makes, described as plain values: method,
//! URL, headers and JSON body. Sending them is left to the caller.
use vstd::prelude::*;

use crate::error::OpenRouterError;
use crate::text::{join, join_spec, push_str, strings_view};

verus! {

/// HTTP methods used by the client.
#[derive(Debug, Clone, Copy, PartialEq, Eq, Structural)]
pub enum HttpMethod {
    Get,
    Post,
}

/// One HTTP request to send: method, URL, headers in order, and an optional
/// JSON body.
#[derive(Debug, Clone)]
pub struct HttpRequestPlan {
    pub method: HttpMethod,
    pub url: String,
    pub headers: Vec<(String, String)>,
    pub body: Option<serde_json::Value>,
}

/// Header name/value pairs taken by their views.
pub open spec fn headers_view(h: Seq<(String, String)>) -> Seq<(Seq<char>, Seq<char>)> {
    h.map_values(|p: (String, String)| (p.0@, p.1@))
}

/// The bearer authorization header for a key.
pub open spec fn bearer_header(api_key: Seq<char>) -> (Seq<char>, Seq<char>) {
    ("Authorization"@, "Bearer "@ + api_key)
}

/// The request metadata headers: `HTTP-Referer` where a referer is set,
/// `X-Title` and `X-OpenRouter-Title` where a title is set, and
/// `X-OpenRouter-Categories` (the categories joined by commas) where at least
/// one category is set.
pub open spec fn metadata_headers(
    x_title: Option<Seq<char>>,
    http_referer: Option<Seq<char>>,
    categories: Option<Seq<Seq<char>>>,
) -> Seq<(Seq<char>, Seq<char>)> {
    let referer = match http_referer {
        Some(r) => seq![("HTTP-Referer"@, r)],
        None => Seq::empty(),
    };
    let title = match x_title {
        Some(t) => seq![("X-Title"@, t), ("X-OpenRouter-Title"@, t)],
        None => Seq::empty(),
    };
    let cats = match categories {
        Some(c) => if c.len() > 0 {
            seq![("X-OpenRouter-Categories"@, join_spec(c, ","@))]
        } else {
            Seq::empty()
        },
        None => Seq::empty(),
    };
    referer + title + cats
}

/// The headers of a request made on behalf of a client: bearer
/// authorization, then the metadata headers.
pub open spec fn client_headers(
    api_key: Seq<char>,
    x_title: Option<Seq<char>>,
    http_referer: Option<Seq<char>>,
    categories: Option<Seq<Seq<char>>>,
) -> Seq<(Seq<char>, Seq<char>)> {
    seq![bearer_header(api_key)] + metadata_headers(x_title, http_referer, categories)
}

/// The view of an optional list of texts.
pub open spec fn opt_strings_view(o: Option<Vec<String>>) -> Option<Seq<Seq<char>>> {
    match o {
        Some(v) => Some(strings_view(v@)),
        None => None,
    }
}

/// The view of an optional text.
pub open spec fn opt_text(o: Option<String>) -> Option<Seq<char>> {
    match o {
        Some(s) => Some(s@),
        None => None,
    }
}

/// The bearer authorization header for a key.
pub fn bearer_auth_header(api_key: &str) -> (r: (String, String))
    ensures
        (r.0@, r.1@) == bearer_header(api_key@),
{
    let mut value = "Bearer ".to_string();
    push_str(&mut value, api_key);
    ("Authorization".to_string(), value)
}

/// Appends the request metadata headers.
pub fn push_metadata_headers(
    headers: &mut Vec<(String, String)>,
    x_title: &Option<String>,
    http_referer: &Option<String>,
    app_categories: &Option<Vec<String>>,
)
    ensures
        headers_view(final(headers)@) == headers_view(old(headers)@) + metadata_headers(
            opt_text(*x_title),
            opt_text(*http_referer),
            opt_strings_view(*app_categories),
        ),
{
    let ghost start = headers_view(headers@);
    if let Some(r) = http_referer {
        headers.push(("HTTP-Referer".to_string(), r.clone()));
    }
    let ghost after_referer = headers_view(headers@);
    if let Some(t) = x_title {
        headers.push(("X-Title".to_string(), t.clone()));
        headers.push(("X-OpenRouter-Title".to_string(), t.clone()));
    }
    let ghost after_title = headers_view(headers@);
    if let Some(c) = app_categories {
        if c.len() > 0 {
            headers.push(("X-OpenRouter-Categories".to_string(), join(c, ",")));
        }
    }
    proof {
        let referer = match opt_text(*http_referer) {
            Some(r) => seq![("HTTP-Referer"@, r)],
            None => Seq::<(Seq<char>, Seq<char>)>::empty(),
        };
        let title = match opt_text(*x_title) {
            Some(t) => seq![("X-Title"@, t), ("X-OpenRouter-Title"@, t)],
            None => Seq::<(Seq<char>, Seq<char>)>::empty(),
        };
        assert(after_referer =~= start + referer);
        assert(after_title =~= start + referer + title);
        assert(headers_view(headers@) =~= start + metadata_headers(
            opt_text(*x_title),
            opt_text(*http_referer),
            opt_strings_view(*app_categories),
        ));
    }
}

/// The headers of a request made on behalf of a client: bearer
/// authorization, then the metadata headers.
pub fn client_request_headers(
    api_key: &str,
    x_title: &Option<String>,
    http_referer: &Option<String>,
    app_categories: &Option<Vec<String>>,
) -> (r: Vec<(String, String)>)
    ensures
        headers_view(r@) == client_headers(
            api_key@,
            opt_text(*x_title),
            opt_text(*http_referer),
            opt_strings_view(*app_categories),
        ),
{
    let mut headers: Vec<(String, String)> = Vec::new();
    headers.push(bearer_auth_header(api_key));
    assert(headers_view(headers@) =~= seq![bearer_header(api_key@)]);
    push_metadata_headers(&mut headers, x_title, http_referer, app_categories);
    headers
}

/// The headers of a request that carries only bearer authorization.
pub fn bearer_request_headers(api_key: &str) -> (r: Vec<(String, String)>)
    ensures
        headers_view(r@) == seq![bearer_header(api_key@)],
{
    let mut headers: Vec<(String, String)> = Vec::new();
    headers.push(bearer_auth_header(api_key));
    assert(headers_view(headers@) =~= seq![bearer_header(api_key@)]);
    headers
}


/// Whether an HTTP status code is a success: from 200 to 299.
pub fn is_success_status(status: u16) -> (b: bool)
    ensures
        b == (200 <= status <= 299),
{
    200 <= status && status <= 299
}

/// The body of a reply where its status is a success; else the API error
/// that holds the status and the body.
pub fn reply_body(status: u16, body: String) -> (r: Result<String, OpenRouterError>)
    ensures
        200 <= status <= 299 ==> r == Ok::<String, OpenRouterError>(body),
        !(200 <= status <= 299) ==> r == Err::<String, OpenRouterError>(OpenRouterError::Api { status, body }),
{
    if is_success_status(status) {
        Ok(body)
    } else {
        Err(OpenRouterError::Api { status, body })
    }
}

/// The headers of a request made for a client: the bearer authorization
/// with the key comes first and only there; `HTTP-Referer` is sent exactly
/// where a referer is given, with it; `X-Title` and `X-OpenRouter-Title`
/// exactly where a title is given, both with it; `X-OpenRouter-Categories`
/// exactly where at least one category is given, with the categories joined
/// by commas.
pub proof fn lemma_client_headers_fields(
    k: Seq<char>,
    t: Option<Seq<char>>,
    r: Option<Seq<char>>,
    c: Option<Seq<Seq<char>>>,
)
    ensures
        client_headers(k, t, r, c).len() >= 1,
        client_headers(k, t, r, c)[0] == ("Authorization"@, "Bearer "@ + k),
        forall|i: int|
            1 <= i < client_headers(k, t, r, c).len() ==> (#[trigger] client_headers(k, t, r, c)[i]).0
                != "Authorization"@,
        r matches Some(x) ==> client_headers(k, t, r, c).contains(("HTTP-Referer"@, x)),
        r is None ==> forall|i: int|
            0 <= i < client_headers(k, t, r, c).len() ==> (#[trigger] client_headers(k, t, r, c)[i]).0
                != "HTTP-Referer"@,
        t matches Some(x) ==> client_headers(k, t, r, c).contains(("X-Title"@, x))
            && client_headers(k, t, r, c).contains(("X-OpenRouter-Title"@, x)),
        t is None ==> forall|i: int|
            0 <= i < client_headers(k, t, r, c).len() ==> (#[trigger] client_headers(k, t, r, c)[i]).0
                != "X-Title"@ && client_headers(k, t, r, c)[i].0 != "X-OpenRouter-Title"@,
        c matches Some(cs) ==> (cs.len() > 0 ==> client_headers(k, t, r, c).contains(
            ("X-OpenRouter-Categories"@, join_spec(cs, ","@)),
        )),
        !(c matches Some(cs) && cs.len() > 0) ==> forall|i: int|
            0 <= i < client_headers(k, t, r, c).len() ==> (#[trigger] client_headers(k, t, r, c)[i]).0
                != "X-OpenRouter-Categories"@,
{
    reveal_strlit("Authorization");
    reveal_strlit("HTTP-Referer");
    reveal_strlit("X-Title");
    reveal_strlit("X-OpenRouter-Title");
    reveal_strlit("X-OpenRouter-Categories");
    assert("Authorization"@[0] != "HTTP-Referer"@[0]);
    assert("Authorization"@[0] != "X-Title"@[0]);
    assert("Authorization"@[0] != "X-OpenRouter-Title"@[0]);
    assert("Authorization"@[0] != "X-OpenRouter-Categories"@[0]);
    assert("HTTP-Referer"@[0] != "X-Title"@[0]);
    assert("HTTP-Referer"@[0] != "X-OpenRouter-Title"@[0]);
    assert("HTTP-Referer"@[0] != "X-OpenRouter-Categories"@[0]);
    assert("X-Title"@.len() != "X-OpenRouter-Title"@.len());
    assert("X-Title"@.len() != "X-OpenRouter-Categories"@.len());
    assert("X-OpenRouter-Title"@.len() != "X-OpenRouter-Categories"@.len());
    let h = client_headers(k, t, r, c);
    let referer: Seq<(Seq<char>, Seq<char>)> = match r {
        Some(x) => seq![("HTTP-Referer"@, x)],
        None => Seq::empty(),
    };
    let title: Seq<(Seq<char>, Seq<char>)> = match t {
        Some(x) => seq![("X-Title"@, x), ("X-OpenRouter-Title"@, x)],
        None => Seq::empty(),
    };
    let cats: Seq<(Seq<char>, Seq<char>)> = match c {
        Some(cs) => if cs.len() > 0 {
            seq![("X-OpenRouter-Categories"@, join_spec(cs, ","@))]
        } else {
            Seq::empty()
        },
        None => Seq::empty(),
    };
    assert(metadata_headers(t, r, c) == referer + title + cats);
    let n1: int = 1 + referer.len() as int;
    let n2: int = n1 + title.len() as int;
    assert(h == seq![bearer_header(k)] + referer + title + cats);
    assert forall|i: int| 0 <= i < h.len() implies {
        let name = (#[trigger] h[i]).0;
        &&& (i == 0 ==> name == "Authorization"@)
        &&& (1 <= i < n1 ==> name == "HTTP-Referer"@)
        &&& (n1 <= i < n2 ==> name == "X-Title"@ || name == "X-OpenRouter-Title"@)
        &&& (n2 <= i ==> name == "X-OpenRouter-Categories"@)
    } by {
        if i == 0 {
        } else if i < n1 {
            assert(h[i] == referer[i - 1]);
        } else if i < n2 {
            assert(h[i] == title[i - n1]);
        } else {
            assert(h[i] == cats[i - n2]);
        }
    }
    if let Some(x) = r {
        assert(h[1] == ("HTTP-Referer"@, x));
    }
    if let Some(x) = t {
        assert(h[n1] == ("X-Title"@, x));
        assert(h[n1 + 1] == ("X-OpenRouter-Title"@, x));
    }
    if let Some(cs) = c {
        if cs.len() > 0 {
            assert(h[n2] == ("X-OpenRouter-Categories"@, join_spec(cs, ","@)));
        }
    }
}


} // verus!
