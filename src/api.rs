use vstd::prelude::*;

use crate::auth::Auth;
use crate::config::Config;
use crate::error::{Error, Result};
use crate::json::object_text;
use crate::models::{job_status_fields, ApiResponse, JobStatusRequest};
use crate::timestamp::Timestamp;

verus! {

pub const CONTENT_TYPE_HEADER: &'static str = "Content-Type";

pub const JSON_CONTENT_TYPE: &'static str = "application/json";

pub const PARTNER_ID_HEADER: &'static str = "X-Smile-Partner-ID";

pub const SIGNATURE_HEADER: &'static str = "X-Smile-Signature";

pub const TIMESTAMP_HEADER: &'static str = "X-Smile-Timestamp";

pub const JOB_STATUS_PATH: &'static str = "/job_status";

/// The root that every endpoint path is appended to: `{base_url}/v{version}`.
pub open spec fn endpoint_root(config: Config) -> Seq<char> {
    config.base_url@ + seq!['/', 'v'] + config.version@
}

/// Name and value of each header, in order.
pub open spec fn header_views(headers: Seq<(String, String)>) -> Seq<(Seq<char>, Seq<char>)> {
    headers.map_values(|h: (String, String)| (h.0@, h.1@))
}

/// The headers of a request signed with `signature` at the instant whose
/// text is `timestamp`.
pub open spec fn request_headers(partner_id: Seq<char>, signature: Seq<char>, timestamp: Seq<char>) -> Seq<(Seq<char>, Seq<char>)> {
    seq![
        (CONTENT_TYPE_HEADER@, JSON_CONTENT_TYPE@),
        (PARTNER_ID_HEADER@, partner_id),
        (SIGNATURE_HEADER@, signature),
        (TIMESTAMP_HEADER@, timestamp),
    ]
}

/// A POST request ready for the transport: where it goes, its headers, and
/// the body that was signed.
#[derive(Clone, Debug)]
pub struct SignedRequest {
    pub url: String,
    pub headers: Vec<(String, String)>,
    pub body: String,
}

/// Whether a transport status code reports success (2xx).
pub open spec fn is_success(status: u16) -> bool {
    200 <= status <= 299
}

/// What a parsed envelope yields: its payload, unless its own status code
/// reports a failure.
pub open spec fn envelope_outcome<T>(envelope: ApiResponse<T>) -> Result<T> {
    if envelope.status_code >= 400 {
        Err(Error::Api { status_code: envelope.status_code, message: envelope.message })
    } else {
        Ok(envelope.data)
    }
}

/// What a call yields once the body was parsed (or failed to parse).
pub open spec fn parsed_outcome<T>(parsed: Result<ApiResponse<T>>) -> Result<T> {
    match parsed {
        Ok(envelope) => envelope_outcome(envelope),
        Err(e) => Err(e),
    }
}

impl<T> ApiResponse<T> {
    /// The payload, or the failure that the envelope's status code reports.
    pub fn into_result(self) -> (r: Result<T>)
        ensures
            r == envelope_outcome(self),
    {
        if self.status_code >= 400 {
            Err(Error::Api { status_code: self.status_code, message: self.message })
        } else {
            Ok(self.data)
        }
    }
}

/// Classifies a response. A non-2xx transport status fails with that status
/// and the raw body, and `parse` is not called; otherwise the body is parsed
/// as an envelope and its own status code decides.
pub fn decode_response<T, F: FnOnce(String) -> Result<ApiResponse<T>>>(status: u16, body: String, parse: F) -> (r: Result<T>)
    requires
        forall|s: String| call_requires(parse, (s,)),
    ensures
        !is_success(status) ==> r == Err::<T, Error>(Error::Api { status_code: status, message: body }),
        is_success(status) ==> exists|p: Result<ApiResponse<T>>| call_ensures(parse, (body,), p) && r == parsed_outcome(p),
{
    if status < 200 || status > 299 {
        return Err(Error::Api { status_code: status, message: body });
    }
    let ghost sent = body;
    let parsed = parse(body);
    let ghost p = parsed;
    let r = match parsed {
        Ok(envelope) => envelope.into_result(),
        Err(e) => Err(e),
    };
    assert(call_ensures(parse, (sent,), p) && r == parsed_outcome(p));
    r
}

/// The fixed parts of every call: the credentials and the settings.
#[derive(Clone, Debug)]
pub struct ApiClient<'a> {
    auth: Auth,
    config: &'a Config,
}

impl<'a> ApiClient<'a> {
    pub closed spec fn spec_auth(&self) -> Auth {
        self.auth
    }

    pub closed spec fn spec_config(&self) -> Config {
        *self.config
    }

    pub fn new(config: &'a Config) -> (r: ApiClient<'a>)
        ensures
            r.spec_config() == *config,
            r.spec_auth().key() == config.api_key@,
            r.spec_auth().partner() == config.partner_id@,
    {
        let auth = Auth::new(config.api_key.as_str(), config.partner_id.as_str());
        ApiClient { auth, config }
    }

    pub fn auth(&self) -> (r: &Auth)
        ensures
            *r == self.spec_auth(),
    {
        &self.auth
    }

    pub fn config(&self) -> (r: &Config)
        ensures
            *r == self.spec_config(),
    {
        self.config
    }

    /// The headers of a request with body `body`, signed at the instant whose
    /// text is `timestamp`.
    pub open spec fn spec_headers(&self, timestamp: Seq<char>, body: Seq<char>) -> Seq<(Seq<char>, Seq<char>)> {
        request_headers(self.spec_auth().partner(), self.spec_auth().spec_signature(timestamp, body), timestamp)
    }

    /// Whether `req` is a POST of `body` to the endpoint at `path`, signed at
    /// the instant whose text is `timestamp`.
    pub open spec fn is_post_to(&self, path: Seq<char>, body: Seq<char>, timestamp: Seq<char>, req: SignedRequest) -> bool {
        &&& req.url@ == endpoint_root(self.spec_config()) + path
        &&& req.body@ == body
        &&& header_views(req.headers@) == self.spec_headers(timestamp, body)
    }

    /// The endpoint root, `{base_url}/v{version}`.
    pub fn base_url(&self) -> (r: String)
        ensures
            r@ == endpoint_root(self.spec_config()),
    {
        proof {
            reveal_strlit("/v");
        }
        let mut url = self.config.base_url.clone();
        url.append("/v");
        url.append(self.config.version.as_str());
        assert(url@ =~= endpoint_root(self.spec_config()));
        url
    }

    /// The address of the endpoint at `path` under the root.
    pub fn endpoint(&self, path: &str) -> (r: String)
        ensures
            r@ == endpoint_root(self.spec_config()) + path@,
    {
        let mut url = self.base_url();
        url.append(path);
        url
    }

    /// Signs `body` for the instant `timestamp` and frames the POST to `url`:
    /// the headers carry the partner id, the signature and the same
    /// timestamp text that was signed.
    pub fn prepare_post(&self, url: &str, body: String, timestamp: &Timestamp) -> (r: Result<SignedRequest>)
        ensures
            r matches Ok(req) && req.url@ == url@ && req.body == body
                && header_views(req.headers@) == self.spec_headers(timestamp.spec_text(), body@),
    {
        let ts = timestamp.to_rfc3339();
        let signature = self.auth.sign_text(ts.as_str(), body.as_str())?;
        let mut headers: Vec<(String, String)> = Vec::new();
        headers.push((String::from_str(CONTENT_TYPE_HEADER), String::from_str(JSON_CONTENT_TYPE)));
        headers.push((String::from_str(PARTNER_ID_HEADER), self.auth.partner_id().to_owned()));
        headers.push((String::from_str(SIGNATURE_HEADER), signature));
        headers.push((String::from_str(TIMESTAMP_HEADER), ts));
        assert(header_views(headers@) =~= self.spec_headers(timestamp.spec_text(), body@));
        Ok(SignedRequest { url: url.to_owned(), headers, body })
    }

    /// Signs `body` at `timestamp` for the endpoint at `path`.
    pub fn post_to(&self, path: &str, body: String, timestamp: &Timestamp) -> (r: Result<SignedRequest>)
        ensures
            r matches Ok(req) && self.is_post_to(path@, body@, timestamp.spec_text(), req),
    {
        let url = self.endpoint(path);
        self.prepare_post(url.as_str(), body, timestamp)
    }

    /// The request of a job status query: its body, signed at `timestamp`,
    /// to the job status endpoint.
    pub fn prepare_job_status(
        &self,
        user_id: &str,
        job_id: &str,
        include_history: Option<bool>,
        include_image_links: Option<bool>,
        timestamp: &Timestamp,
    ) -> (r: Result<SignedRequest>)
        ensures
            r matches Ok(req) && self.is_post_to(
                JOB_STATUS_PATH@,
                object_text(job_status_fields(user_id@, job_id@, include_history, include_image_links)),
                timestamp.spec_text(),
                req,
            ),
    {
        let request = JobStatusRequest {
            user_id: user_id.to_owned(),
            job_id: job_id.to_owned(),
            include_history,
            include_image_links,
        };
        self.post_to(JOB_STATUS_PATH, request.to_json(), timestamp)
    }
}

} // verus!
