//! Building the address of a request to the statistics service.

use vstd::prelude::*;

verus! {

/// Host of the statistics service.
pub const BASE_URL: &'static str = "https://statsapi.mlb.com";

/// Prefix of the versioned API, inserted between the host and the endpoint.
pub const DEFAULT_API: &'static str = "api/v1/";

#[verifier::external_type_specification]
#[verifier::external_body]
pub struct ExUrl(reqwest::Url);

/// The serialization of the URL that `url::Url::parse` makes of a text;
/// none where the text is rejected.
pub uninterp spec fn parsed_text(s: Seq<char>) -> Option<Seq<char>>;

/// The serialization of the URL that `url::Url::parse_with_params` makes of
/// a text and query pairs; none where the text is rejected.
pub uninterp spec fn parsed_text_with(s: Seq<char>, pairs: Seq<(Seq<char>, Seq<char>)>) -> Option<
    Seq<char>,
>;

/// The views of query pairs.
pub open spec fn pairs_view(pairs: Seq<(String, String)>) -> Seq<(Seq<char>, Seq<char>)> {
    pairs.map_values(|p: (String, String)| (p.0@, p.1@))
}

/// A parsed address and its text, as the URL serializes itself.
pub struct Address {
    pub url: reqwest::Url,
    pub text: String,
}

/// Relies on `url::Url::parse` (re-exported as `reqwest::Url`) and
/// `Url::as_str`: the URL and its serialization depend on the text alone.
#[verifier::external_body]
fn parse_url(s: &str) -> (r: Option<Address>)
    ensures
        r is Some == parsed_text(s@) is Some,
        r is Some ==> r->Some_0.text@ == parsed_text(s@)->Some_0,
{
    match reqwest::Url::parse(s) {
        Ok(url) => {
            let text = url.as_str().to_string();
            Some(Address { url, text })
        },
        Err(_) => None,
    }
}

/// Relies on `url::Url::parse_with_params` and `Url::as_str`: it parses the
/// text as `Url::parse` does, so it fails exactly where that fails, and on
/// success appends the pairs to the query.
#[verifier::external_body]
fn parse_url_with_params(s: &str, params: &Vec<(String, String)>) -> (r: Option<Address>)
    ensures
        r is Some == parsed_text(s@) is Some,
        r is Some == parsed_text_with(s@, pairs_view(params@)) is Some,
        r is Some ==> r->Some_0.text@ == parsed_text_with(s@, pairs_view(params@))->Some_0,
{
    match reqwest::Url::parse_with_params(s, params) {
        Ok(url) => {
            let text = url.as_str().to_string();
            Some(Address { url, text })
        },
        Err(_) => None,
    }
}

/// Why a fetch from the statistics service failed.
#[derive(Debug, Clone, Copy, PartialEq, Eq, Structural)]
pub enum FetchError {
    /// The address could not be built; no request was sent.
    Url,
    /// The connection failed (DNS, TLS, socket).
    Transport,
    /// The service answered with a status outside 2xx.
    HttpStatus,
    /// The body does not have the expected shape.
    Decode,
}

/// A request to the statistics service: host, API prefix, endpoint and
/// query parameters, in insertion order.
pub struct Request {
    pub base_url: String,
    pub api: String,
    pub endpoint: String,
    pub params: Vec<(String, String)>,
}

/// The text of the address before the query: `host/api endpoint`.
pub open spec fn base_text(base_url: Seq<char>, api: Seq<char>, endpoint: Seq<char>) -> Seq<char> {
    base_url + seq!['/'] + api + endpoint
}

impl Request {
    /// The address text of this request, without its query.
    pub open spec fn address_text(&self) -> Seq<char> {
        base_text(self.base_url@, self.api@, self.endpoint@)
    }

    /// A request to the default API of the service, with an empty endpoint
    /// and no parameters.
    pub fn new() -> (r: Self)
        ensures
            r.base_url@ == BASE_URL@,
            r.api@ == DEFAULT_API@,
            r.endpoint@ == Seq::<char>::empty(),
            r.params@.len() == 0,
    {
        proof {
            reveal_strlit("");
        }
        Request {
            base_url: String::from_str(BASE_URL),
            api: String::from_str(DEFAULT_API),
            endpoint: String::from_str(""),
            params: Vec::new(),
        }
    }

    /// The same request with another endpoint.
    pub fn with_endpoint(self, endpoint: &str) -> (r: Self)
        ensures
            r.endpoint@ == endpoint@,
            r.base_url == self.base_url,
            r.api == self.api,
            r.params == self.params,
    {
        Request { endpoint: String::from_str(endpoint), ..self }
    }

    /// The same request with these query parameters, in this order, in place
    /// of the earlier ones.
    pub fn with_params(self, params: Vec<(&str, &str)>) -> (r: Self)
        ensures
            r.params@.len() == params@.len(),
            forall|i: int|
                0 <= i < params@.len() ==> (#[trigger] r.params@[i]).0@ == params@[i].0@
                    && r.params@[i].1@ == params@[i].1@,
            r.base_url == self.base_url,
            r.api == self.api,
            r.endpoint == self.endpoint,
    {
        let mut owned: Vec<(String, String)> = Vec::new();
        let mut i: usize = 0;
        while i < params.len()
            invariant
                i <= params@.len(),
                owned@.len() == i,
                forall|j: int|
                    0 <= j < i ==> (#[trigger] owned@[j]).0@ == params@[j].0@ && owned@[j].1@
                        == params@[j].1@,
            decreases params@.len() - i,
        {
            let (k, v) = params[i];
            owned.push((String::from_str(k), String::from_str(v)));
            i = i + 1;
        }
        Request { params: owned, ..self }
    }

    /// The same request under another API prefix.
    pub fn with_api(self, api: &str) -> (r: Self)
        ensures
            r.api@ == api@,
            r.base_url == self.base_url,
            r.endpoint == self.endpoint,
            r.params == self.params,
    {
        Request { api: String::from_str(api), ..self }
    }

    /// The address text `host/api endpoint`, before any query.
    pub fn base(&self) -> (r: String)
        ensures
            r@ == self.address_text(),
    {
        proof {
            reveal_strlit("/");
            assert("/"@ =~= seq!['/']);
        }
        let s = self.base_url.clone().concat("/");
        let s = s.concat(self.api.as_str());
        s.concat(self.endpoint.as_str())
    }

    /// The text of the parsed address: the address text as `Url::parse`
    /// serializes it, or, with query parameters, as `Url::parse_with_params`
    /// does with the parameters in insertion order.
    pub open spec fn parsed_address(&self) -> Option<Seq<char>> {
        if self.params@.len() == 0 {
            parsed_text(self.address_text())
        } else {
            parsed_text_with(self.address_text(), pairs_view(self.params@))
        }
    }

    /// The parsed address of this request, with the query parameters appended
    /// in insertion order when there are any. Fails with `FetchError::Url`,
    /// before anything is sent, exactly when the address text is not a valid
    /// URL.
    pub fn address(&self) -> (r: Result<Address, FetchError>)
        ensures
            r is Ok == parsed_text(self.address_text()) is Some,
            r is Ok ==> self.parsed_address() is Some && r->Ok_0.text@ == self.parsed_address()->Some_0,
            r is Err ==> r->Err_0 == FetchError::Url,
    {
        let base = self.base();
        let parsed = if self.params.len() == 0 {
            parse_url(base.as_str())
        } else {
            parse_url_with_params(base.as_str(), &self.params)
        };
        match parsed {
            Some(address) => Ok(address),
            None => Err(FetchError::Url),
        }
    }
}

impl Default for Request {
    fn default() -> (r: Self)
        ensures
            r.base_url@ == BASE_URL@,
            r.api@ == DEFAULT_API@,
            r.endpoint@ == Seq::<char>::empty(),
            r.params@.len() == 0,
    {
        Request::new()
    }
}

}
