use vstd::prelude::*;

verus! {

/// The filters of a List, as far as they reach the query string.
#[derive(Debug, Clone, Default, PartialEq, Eq)]
pub struct ListParams {
    pub label_selector: Option<String>,
    pub field_selector: Option<String>,
    pub limit: Option<u32>,
    pub continue_token: Option<String>,
}

/// A request builder for one resource collection.
#[derive(Debug, Clone, PartialEq, Eq)]
pub struct RequestBuilder {
    pub url_path: String,
}

/// Building an HTTP request failed.
#[derive(Debug)]
pub enum RequestError {
    BuildRequest(http::Error),
}

/// The `application/x-www-form-urlencoded` form of a name or a value.
pub uninterp spec fn urlencoded(s: Seq<char>) -> Seq<char>;

/// Whether `http` accepts the text as a request URI.
pub uninterp spec fn accepts_uri(s: Seq<char>) -> bool;

/// A name/value pair added to an encoded query, `&`-separated from what the
/// query already holds.
pub open spec fn with_pair(q: Seq<char>, name: Seq<char>, value: Seq<char>) -> Seq<char> {
    q + (if q.len() > 0 {
        seq!['&']
    } else {
        seq![]
    }) + urlencoded(name) + seq!['='] + urlencoded(value)
}

pub open spec fn with_opt_pair(q: Seq<char>, name: Seq<char>, value: Option<String>) -> Seq<char> {
    match value {
        Some(v) => with_pair(q, name, v@),
        None => q,
    }
}

pub open spec fn digit_char(d: nat) -> char {
    seq!['0', '1', '2', '3', '4', '5', '6', '7', '8', '9'][d as int]
}

/// The decimal digits of `n`.
pub open spec fn decimal(n: nat) -> Seq<char>
    decreases n,
{
    if n < 10 {
        seq![digit_char(n)]
    } else {
        decimal(n / 10).push(digit_char(n % 10))
    }
}

/// The URI of a List of `path` with the filters of `lp`, from position `version`.
pub open spec fn list_uri(path: Seq<char>, lp: ListParams, version: Seq<char>) -> Seq<char> {
    let q0 = path.push('?');
    let q1 = with_opt_pair(q0, "fieldSelector"@, lp.field_selector);
    let q2 = with_opt_pair(q1, "labelSelector"@, lp.label_selector);
    let q3 = match lp.limit {
        Some(n) => with_pair(q2, "limit"@, decimal(n as nat)),
        None => q2,
    };
    let q4 = with_opt_pair(q3, "continue"@, lp.continue_token);
    with_pair(q4, "resourceVersion"@, version)
}

/// Relies on form_urlencoded::Serializer (`new`, `append_pair`, `finish`): a
/// serializer over a non-empty target appends `&`, then the encoded name, `=`
/// and the encoded value.
#[verifier::external_body]
fn append_pair(target: String, name: &str, value: &str) -> (r: String)
    ensures
        r@ == target@ + (if target@.len() > 0 {
            seq!['&']
        } else {
            seq![]
        }) + urlencoded(name@) + seq!['='] + urlencoded(value@),
{
    let mut qp = form_urlencoded::Serializer::new(target);
    qp.append_pair(name, value);
    qp.finish()
}

/// Relies on `u32`'s `Display`: the decimal digits, without sign or padding.
#[verifier::external_body]
fn u32_to_string(n: u32) -> (r: String)
    ensures
        r@ == decimal(n as nat),
{
    n.to_string()
}

/// Relies on http::Request::get and Builder::body: a GET request with an empty
/// body, which fails exactly when the URI does not parse.
#[verifier::external_body]
fn get_request(uri: String) -> (r: Result<http::Request<Vec<u8>>, http::Error>)
    ensures
        r is Ok <==> accepts_uri(uri@),
{
    http::Request::get(uri).body(vec![])
}

impl RequestBuilder {
    /// The URI of a List from position `version`: the path, `?`, then the
    /// filters that are set and the position, each form-encoded.
    pub fn list_with_version_uri(&self, lp: &ListParams, version: &str) -> (r: String)
        ensures
            r@ == list_uri(self.url_path@, *lp, version@),
    {
        let mut q = self.url_path.clone();
        q.append("?");
        proof {
            reveal_strlit("?");
        }
        assert(q@ =~= self.url_path@.push('?'));
        if let Some(fields) = &lp.field_selector {
            q = append_pair(q, "fieldSelector", fields.as_str());
        }
        if let Some(labels) = &lp.label_selector {
            q = append_pair(q, "labelSelector", labels.as_str());
        }
        if let Some(limit) = &lp.limit {
            let s = u32_to_string(*limit);
            q = append_pair(q, "limit", s.as_str());
        }
        if let Some(continue_token) = &lp.continue_token {
            q = append_pair(q, "continue", continue_token.as_str());
        }
        append_pair(q, "resourceVersion", version)
    }

    /// A GET request for a List from position `version`, with an empty body.
    pub fn list_with_version(&self, lp: &ListParams, version: &str) -> (r: Result<
        http::Request<Vec<u8>>,
        RequestError,
    >)
        ensures
            r is Ok <==> accepts_uri(list_uri(self.url_path@, *lp, version@)),
    {
        let uri = self.list_with_version_uri(lp, version);
        match get_request(uri) {
            Ok(req) => Ok(req),
            Err(e) => Err(RequestError::BuildRequest(e)),
        }
    }
}

} // verus!
