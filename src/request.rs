//! The request executor's decisions: the client's fixed configuration, the
//! shape of every outgoing request, and how a response status is classified.

use vstd::prelude::*;
use vstd::utf8::encode_utf8;
use crate::error::{ApiResult, Error};
use crate::text::{header_value_ok, is_valid_header_value};
use crate::types::RequestDetails;

verus! {

/// The header that carries the API identifier.
pub const API_ID_HEADER: &'static str = "X-VO-Api-Id";

/// The header that carries the API key.
pub const API_KEY_HEADER: &'static str = "X-VO-Api-Key";

/// The content-type header, sent with every request.
pub const CONTENT_TYPE_HEADER: &'static str = "Content-Type";

/// The content type of every request.
pub const JSON_CONTENT_TYPE: &'static str = "application/json";

/// The path between the base address and an endpoint.
pub const API_PREFIX: &'static str = "/api-public/";

/// The request body sent when an operation has none.
pub const EMPTY_BODY: &'static str = "{}";

/// The reason given when a credential is refused as a header value.
pub const HEADER_VALUE_REASON: &'static str = "failed to parse header value";

/// The timeout of each exchange, in seconds, unless the client sets one.
pub const DEFAULT_TIMEOUT_SECS: u64 = 30;

/// An HTTP method.
#[derive(Debug, Clone, Copy, PartialEq, Eq, Structural)]
pub enum Method {
    Get,
    Post,
    Put,
    Patch,
    Delete,
}

/// A text pair seen as two character sequences.
pub type PairView = (Seq<char>, Seq<char>);

/// What an outgoing request is made of.
pub struct PreparedView {
    pub method: Method,
    pub url: Seq<char>,
    pub headers: Seq<PairView>,
    pub query: Seq<PairView>,
    pub body: Seq<char>,
}

/// One outgoing request, complete but for sending.
#[derive(Debug, Clone)]
pub struct PreparedRequest {
    pub method: Method,
    /// The absolute URL, before the query string.
    pub url: String,
    /// Header names and values, in the order they are set.
    pub headers: Vec<(String, String)>,
    /// Query parameters, to be appended to the URL; empty for none.
    pub query: Vec<(String, String)>,
    /// The JSON body text that is sent.
    pub body: String,
}

/// The view of an optional body.
pub open spec fn body_view(body: Option<String>) -> Option<Seq<char>> {
    match body {
        Some(b) => Some(b@),
        None => None,
    }
}

/// The view of a list of text pairs.
pub open spec fn pairs_view(v: Seq<(String, String)>) -> Seq<PairView> {
    v.map_values(|p: (String, String)| (p.0@, p.1@))
}

impl View for PreparedRequest {
    type V = PreparedView;

    open spec fn view(&self) -> PreparedView {
        PreparedView {
            method: self.method,
            url: self.url@,
            headers: pairs_view(self.headers@),
            query: pairs_view(self.query@),
            body: self.body@,
        }
    }
}

/// The immutable configuration of a client: credentials, base address and
/// the timeout of each exchange (`None`: `DEFAULT_TIMEOUT_SECS`).
#[derive(Debug, Clone)]
pub struct Client {
    pub pub_base_url: String,
    pub api_id: String,
    pub api_key: String,
    pub timeout: Option<std::time::Duration>,
}

impl Client {
    /// Whether both credentials are acceptable header values.
    pub open spec fn credentials_ok(&self) -> bool {
        header_value_ok(encode_utf8(self.api_id@)) && header_value_ok(encode_utf8(self.api_key@))
    }

    /// The absolute URL of an endpoint.
    pub open spec fn url_for(&self, endpoint: Seq<char>) -> Seq<char> {
        self.pub_base_url@ + API_PREFIX@ + endpoint
    }

    /// The headers of every request: the two credentials, then the content
    /// type.
    pub open spec fn headers_view(&self) -> Seq<PairView> {
        seq![
            (API_ID_HEADER@, self.api_id@),
            (API_KEY_HEADER@, self.api_key@),
            (CONTENT_TYPE_HEADER@, JSON_CONTENT_TYPE@),
        ]
    }

    /// Whether `r` is what the executor makes of an exchange with this
    /// method, endpoint, body and query: the complete request when both
    /// credentials are valid header values, else a header-value error.
    pub open spec fn plans(
        &self,
        r: ApiResult<PreparedRequest>,
        method: Method,
        endpoint: Seq<char>,
        body: Option<Seq<char>>,
        query: Seq<PairView>,
    ) -> bool {
        match r {
            Ok(p) => self.credentials_ok() && p@ == (PreparedView {
                method,
                url: self.url_for(endpoint),
                headers: self.headers_view(),
                query,
                body: match body {
                    Some(b) => b,
                    None => EMPTY_BODY@,
                },
            }),
            Err(e) => !self.credentials_ok() && match e {
                Error::InvalidHeaderValue(m) => m@ == HEADER_VALUE_REASON@,
                _ => false,
            },
        }
    }

    /// A client with the default timeout.
    pub fn new(api_id: String, api_key: String, pub_base_url: String) -> (r: ApiResult<Client>)
        ensures
            r matches Ok(c) && c.api_id == api_id && c.api_key == api_key && c.pub_base_url
                == pub_base_url && c.timeout is None,
    {
        Ok(Client { pub_base_url, api_id, api_key, timeout: None })
    }

    /// A client whose exchanges each time out after `timeout`.
    pub fn with_timeout(
        api_id: String,
        api_key: String,
        pub_base_url: String,
        timeout: std::time::Duration,
    ) -> (r: ApiResult<Client>)
        ensures
            r matches Ok(c) && c.api_id == api_id && c.api_key == api_key && c.pub_base_url
                == pub_base_url && c.timeout == Some(timeout),
    {
        Ok(Client { pub_base_url, api_id, api_key, timeout: Some(timeout) })
    }

    /// A one-line description naming the base address.
    pub fn description(&self) -> (r: String)
        ensures
            r@ == "VictorOps Client: publicBaseURL: "@ + self.pub_base_url@,
    {
        let mut out = String::from_str("VictorOps Client: publicBaseURL: ");
        out.append(self.pub_base_url.as_str());
        out
    }

    /// Builds the request for one exchange: the URL joins the base address,
    /// the API prefix and the endpoint; the two credential headers and the
    /// JSON content type are always set; a missing body is sent as `{}`.
    pub fn prepare(
        &self,
        method: Method,
        endpoint: String,
        body: Option<String>,
        query: Vec<(String, String)>,
    ) -> (r: ApiResult<PreparedRequest>)
        ensures
            self.plans(r, method, endpoint@, body_view(body), pairs_view(query@)),
    {
        if !is_valid_header_value(self.api_id.as_str())
            || !is_valid_header_value(self.api_key.as_str()) {
            return Err(Error::InvalidHeaderValue(String::from_str(HEADER_VALUE_REASON)));
        }
        let mut url = self.pub_base_url.clone();
        url.append(API_PREFIX);
        url.append(endpoint.as_str());
        let mut headers: Vec<(String, String)> = Vec::new();
        headers.push((String::from_str(API_ID_HEADER), self.api_id.clone()));
        headers.push((String::from_str(API_KEY_HEADER), self.api_key.clone()));
        headers.push((String::from_str(CONTENT_TYPE_HEADER), String::from_str(JSON_CONTENT_TYPE)));
        let body_text = match body {
            Some(b) => b,
            None => String::from_str(EMPTY_BODY),
        };
        let p = PreparedRequest { method, url, headers, query, body: body_text };
        assert(pairs_view(p.headers@) =~= self.headers_view());
        Ok(p)
    }
}

/// Classifies a completed exchange: a status of 400 or above is an `Api`
/// error carrying the status and the response text verbatim; any other
/// status yields the exchange record.
pub fn finish_exchange(status: u16, request_body: String, response_body: String) -> (r: ApiResult<
    RequestDetails,
>)
    ensures
        status >= 400 ==> r == Err::<RequestDetails, Error>(
            Error::Api { status, message: response_body },
        ),
        status < 400 ==> r == Ok::<RequestDetails, Error>(
            RequestDetails { status_code: status, response_body, request_body },
        ),
{
    if status >= 400 {
        return Err(Error::Api { status, message: response_body });
    }
    Ok(RequestDetails { status_code: status, response_body, request_body })
}

} // verus!
