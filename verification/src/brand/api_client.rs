//! Planning and concluding the calls of the brand API.
//!
//! A call is planned as plain data: address, headers, body and time limit.
//! Whoever owns the transport sends it and hands back what happened; the
//! outcome is then turned into the body of the response or into an [`Error`].

use std::time::Duration;
use vstd::prelude::*;
use crate::brand::endpoints::{BrandApiEndpoint, HttpMethod};
use crate::brand::errors::{text_or_none, Error, ErrorKind, ErrorView};
use crate::text::{clone_opt_text, lemma_occurs_in_middle, occurs_in, opt_text};

verus! {

/// Where the API lives and how to authenticate. Implemented by the user of the
/// client.
pub trait BrandApiConfig {
    /// Scheme and host of the API, without a trailing slash.
    fn get_api_url(&self) -> String;

    /// The key sent in the `brand-api-key` header.
    fn get_api_key(&self) -> String;

    /// The time limit of one call.
    fn get_timeout(&self) -> Duration;
}

/// The address of an operation: host, path and, where there is one, the query.
pub open spec fn full_url(
    base_url: Seq<char>,
    endpoint: BrandApiEndpoint,
    query_string: Option<Seq<char>>,
) -> Seq<char> {
    match query_string {
        Some(query) => base_url + endpoint.path() + "?"@ + query,
        None => base_url + endpoint.path(),
    }
}

/// The query of a call: only calls sent with `GET` have one.
pub open spec fn query_of(endpoint: BrandApiEndpoint, query_string: Seq<char>) -> Option<
    Seq<char>,
> {
    if endpoint.http_method() == HttpMethod::Get {
        Some(query_string)
    } else {
        None
    }
}

/// One `key=value` pair of a query.
pub open spec fn pair_text(pair: (&str, &str)) -> Seq<char> {
    pair.0@ + "="@ + pair.1@
}

/// The pairs written as `key=value`, with `&` between them.
pub open spec fn joined_pairs(params: Seq<(&str, &str)>) -> Seq<char>
    decreases params.len(),
{
    if params.len() == 0 {
        Seq::empty()
    } else if params.len() == 1 {
        pair_text(params[0])
    } else {
        joined_pairs(params.drop_last()) + "&"@ + pair_text(params.last())
    }
}

/// The texts of a list of headers.
pub open spec fn header_texts(headers: Seq<(String, String)>) -> Seq<(Seq<char>, Seq<char>)> {
    headers.map_values(|header: (String, String)| (header.0@, header.1@))
}

/// The headers of every call: JSON in both directions and the API key, then
/// the idempotency key where the caller gave one.
pub open spec fn call_headers(api_key: Seq<char>, idempotency_key: Option<Seq<char>>) -> Seq<
    (Seq<char>, Seq<char>),
> {
    let fixed = seq![
        ("Content-Type"@, "application/json"@),
        ("Accept"@, "application/json"@),
        ("brand-api-key"@, api_key),
    ];
    match idempotency_key {
        Some(key) => fixed.push(("Idempotency-Key"@, key)),
        None => fixed,
    }
}

/// The text of an optional string slice.
pub open spec fn opt_str(value: Option<&str>) -> Option<Seq<char>> {
    match value {
        Some(text) => Some(text@),
        None => None,
    }
}

/// A call that is ready to be sent.
#[derive(Debug)]
pub struct CallPlan {
    pub endpoint: BrandApiEndpoint,
    pub url: String,
    pub headers: Vec<(String, String)>,
    pub timeout: Duration,
    /// The request as JSON, where the operation takes one.
    pub request_json: Option<String>,
}

/// What became of a call that was sent.
#[derive(Debug, Clone, PartialEq, Eq)]
pub enum CallOutcome {
    /// The time limit passed first.
    TimedOut,
    /// The transport gave up before a response arrived; holds its report.
    SendFailed(String),
    /// A response with this status arrived, but reading its body failed.
    BodyFailed(u16, String),
    /// A response with this status and body arrived.
    Responded(u16, String),
}

/// How a status is classified: `None` for the three that mean success.
pub open spec fn status_fault(status: u16) -> Option<ErrorKind> {
    if status == 200 || status == 201 || status == 204 {
        None
    } else if status == 500 {
        Some(ErrorKind::ServerError)
    } else if status == 503 {
        Some(ErrorKind::ServiceUnavailable)
    } else if status == 401 || status == 403 {
        Some(ErrorKind::Unauthorized)
    } else if status == 400 {
        Some(ErrorKind::BadRequest)
    } else {
        Some(ErrorKind::UnexpectedStatus)
    }
}

/// What a response comes to: its body on success, else an error that keeps
/// the address, the status and both bodies.
pub open spec fn classified(
    status: u16,
    body: Seq<char>,
    request_json: Option<Seq<char>>,
    request_url: Seq<char>,
    endpoint: BrandApiEndpoint,
) -> Result<Seq<char>, ErrorView> {
    match status_fault(status) {
        None => Ok(body),
        Some(kind) => Err(
            ErrorView {
                kind,
                endpoint,
                url: request_url,
                status: Some(status),
                request_body: request_json,
                response_body: Some(body),
                detail: None,
            },
        ),
    }
}

/// The mathematical content of the result of a call.
pub open spec fn result_view(result: Result<String, Error>) -> Result<Seq<char>, ErrorView> {
    match result {
        Ok(body) => Ok(body@),
        Err(error) => Err(error@),
    }
}

/// Classifies a response by its status. 200, 201 and 204 hand the body on;
/// every other status is an error that carries the body with it.
pub fn handle_flurl_text(
    status: u16,
    body: String,
    request_json: &Option<String>,
    request_url: &str,
    endpoint: BrandApiEndpoint,
) -> (result: Result<String, Error>)
    ensures
        result_view(result) == classified(
            status,
            body@,
            opt_text(*request_json),
            request_url@,
            endpoint,
        ),
{
    let kind = if status == 200 || status == 201 || status == 204 {
        return Ok(body);
    } else if status == 500 {
        ErrorKind::ServerError
    } else if status == 503 {
        ErrorKind::ServiceUnavailable
    } else if status == 401 || status == 403 {
        ErrorKind::Unauthorized
    } else if status == 400 {
        ErrorKind::BadRequest
    } else {
        ErrorKind::UnexpectedStatus
    };
    Err(
        Error {
            kind,
            endpoint,
            url: request_url.to_owned(),
            status: Some(status),
            request_body: clone_opt_text(request_json),
            response_body: Some(body),
            detail: None,
        },
    )
}

impl CallPlan {
    /// The error of this call that has the given kind and no response.
    pub open spec fn failure(&self, kind: ErrorKind, status: Option<u16>, detail: Option<Seq<char>>)
        -> ErrorView {
        ErrorView {
            kind,
            endpoint: self.endpoint,
            url: self.url@,
            status,
            request_body: opt_text(self.request_json),
            response_body: None,
            detail,
        }
    }

    /// What the outcome of the call comes to.
    pub open spec fn concluded(&self, outcome: CallOutcome) -> Result<Seq<char>, ErrorView> {
        match outcome {
            CallOutcome::TimedOut => Err(self.failure(ErrorKind::Timeout, None, None)),
            CallOutcome::SendFailed(report) => Err(
                self.failure(ErrorKind::Transport, None, Some(report@)),
            ),
            CallOutcome::BodyFailed(status, report) => Err(
                self.failure(ErrorKind::BodyRead, Some(status), Some(report@)),
            ),
            CallOutcome::Responded(status, body) => classified(
                status,
                body@,
                opt_text(self.request_json),
                self.url@,
                self.endpoint,
            ),
        }
    }

    /// The bytes that travel in the body of the call: the request, for the
    /// verbs that carry one.
    pub open spec fn body_bytes(&self) -> Option<Seq<u8>> {
        match self.request_json {
            Some(json) if self.endpoint.http_method().has_body() => Some(
                vstd::utf8::encode_utf8(json@),
            ),
            _ => None,
        }
    }

    /// Whether this is the plan of a call of `endpoint` with these values: the
    /// address is made of host, path and, for `GET`, the query; the headers
    /// are those of every call; time limit and request are the given ones.
    pub open spec fn is_plan_of(
        &self,
        base_url: Seq<char>,
        api_key: Seq<char>,
        timeout: Duration,
        endpoint: BrandApiEndpoint,
        request_json: Option<String>,
        query_string: Seq<char>,
        idempotency_key: Option<Seq<char>>,
    ) -> bool {
        &&& self.endpoint == endpoint
        &&& self.url@ == full_url(base_url, endpoint, query_of(endpoint, query_string))
        &&& header_texts(self.headers@) == call_headers(api_key, idempotency_key)
        &&& self.timeout == timeout
        &&& self.request_json == request_json
    }

    /// Plans a call from the values of the configuration.
    pub fn new(
        base_url: &str,
        api_key: &str,
        timeout: Duration,
        endpoint: BrandApiEndpoint,
        request_json: Option<String>,
        query_string: &str,
        idempotency_key: Option<&str>,
    ) -> (plan: Self)
        ensures
            plan.is_plan_of(
                base_url@,
                api_key@,
                timeout,
                endpoint,
                request_json,
                query_string@,
                opt_str(idempotency_key),
            ),
    {
        let path = endpoint.to_path();
        let url = match endpoint.get_http_method() {
            HttpMethod::Get => base_url.to_owned().concat(path.as_str()).concat("?").concat(
                query_string,
            ),
            _ => base_url.to_owned().concat(path.as_str()),
        };
        CallPlan {
            endpoint,
            url,
            headers: headers_for(api_key, idempotency_key),
            timeout,
            request_json,
        }
    }

    /// The verb of the call.
    pub fn method(&self) -> (method: HttpMethod)
        ensures
            method == self.endpoint.http_method(),
    {
        self.endpoint.get_http_method()
    }

    /// The body of the call, encoded as UTF-8. `GET` carries none.
    pub fn body(&self) -> (bytes: Option<Vec<u8>>)
        ensures
            match bytes {
                Some(bytes) => self.body_bytes() == Some(bytes@),
                None => self.body_bytes() is None,
            },
    {
        if self.endpoint.get_http_method().carries_body() {
            match &self.request_json {
                Some(json) => Some(json.as_str().as_bytes_vec()),
                None => None,
            }
        } else {
            None
        }
    }

    /// Turns the outcome of the call into its result.
    pub fn conclude(&self, outcome: CallOutcome) -> (result: Result<String, Error>)
        ensures
            result_view(result) == self.concluded(outcome),
    {
        match outcome {
            CallOutcome::TimedOut => Err(self.fail(ErrorKind::Timeout, None, None)),
            CallOutcome::SendFailed(report) => Err(
                self.fail(ErrorKind::Transport, None, Some(report)),
            ),
            CallOutcome::BodyFailed(status, report) => Err(
                self.fail(ErrorKind::BodyRead, Some(status), Some(report)),
            ),
            CallOutcome::Responded(status, body) => handle_flurl_text(
                status,
                body,
                &self.request_json,
                self.url.as_str(),
                self.endpoint,
            ),
        }
    }

    /// The error for a response whose body does not have the shape that the
    /// operation returns.
    pub fn deserialize_failure(&self, response: String) -> (error: Error)
        ensures
            error@ == (ErrorView {
                response_body: Some(response@),
                ..self.failure(ErrorKind::Deserialize, None, None)
            }),
    {
        Error {
            kind: ErrorKind::Deserialize,
            endpoint: self.endpoint,
            url: self.url.clone(),
            status: None,
            request_body: clone_opt_text(&self.request_json),
            response_body: Some(response),
            detail: None,
        }
    }

    fn fail(&self, kind: ErrorKind, status: Option<u16>, detail: Option<String>) -> (error: Error)
        ensures
            error@ == self.failure(kind, status, opt_text(detail)),
    {
        Error {
            kind,
            endpoint: self.endpoint,
            url: self.url.clone(),
            status,
            request_body: clone_opt_text(&self.request_json),
            response_body: None,
            detail,
        }
    }
}

/// Builds the headers of a call.
pub fn headers_for(api_key: &str, idempotency_key: Option<&str>) -> (headers: Vec<(String, String)>)
    ensures
        header_texts(headers@) == call_headers(api_key@, opt_str(idempotency_key)),
{
    let json_content = "application/json";
    let mut headers: Vec<(String, String)> = Vec::new();
    headers.push(("Content-Type".to_owned(), json_content.to_owned()));
    headers.push(("Accept".to_owned(), json_content.to_owned()));
    headers.push(("brand-api-key".to_owned(), api_key.to_owned()));
    if let Some(key) = idempotency_key {
        headers.push(("Idempotency-Key".to_owned(), key.to_owned()));
    }
    assert(header_texts(headers@) =~= call_headers(api_key@, opt_str(idempotency_key)));
    headers
}

/// Whether the body of the liveness probe says that the API is up.
pub fn alive_from_body(body: &str) -> (alive: bool)
    ensures
        alive == (body@ == "1"@),
{
    body.to_owned() == "1".to_owned()
}

/// Client of the brand API.
pub struct BrandApiClient<C: BrandApiConfig> {
    config: C,
}

impl<C: BrandApiConfig> BrandApiClient<C> {
    /// The configuration that the client was made with.
    pub closed spec fn config(&self) -> C {
        self.config
    }

    /// A client that reads its address, key and time limit from `config`.
    pub fn new(config: C) -> (client: Self)
        ensures
            client.config() == config,
    {
        Self { config }
    }

    /// Joins host, path and query into the address of an operation.
    pub fn build_full_url(
        &self,
        base_url: &str,
        endpoint: &BrandApiEndpoint,
        query_string: Option<String>,
    ) -> (url: String)
        ensures
            url@ == full_url(base_url@, *endpoint, opt_text(query_string)),
    {
        let endpoint_str = String::from(endpoint);
        if let Some(query_string) = query_string {
            base_url.to_owned().concat(endpoint_str.as_str()).concat("?").concat(
                query_string.as_str(),
            )
        } else {
            base_url.to_owned().concat(endpoint_str.as_str())
        }
    }

    /// Writes the pairs as a query: `key=value` joined by `&`, nothing encoded.
    pub fn build_query_string(&self, params: Vec<(&str, &str)>) -> (query_string: String)
        ensures
            query_string@ == joined_pairs(params@),
    {
        let mut query_string = String::new();
        let mut i: usize = 0;
        while i < params.len()
            invariant
                i <= params.len(),
                query_string@ == joined_pairs(params@.take(i as int)),
            decreases params.len() - i,
        {
            proof {
                let next = params@.take(i + 1);
                assert(next.drop_last() == params@.take(i as int));
                assert(next.last() == params@[i as int]);
                if i == 0 {
                    assert(query_string@ + pair_text(params@[0]) == pair_text(params@[0]));
                }
            }
            if i > 0 {
                query_string.append("&");
            }
            query_string.append(params[i].0);
            query_string.append("=");
            query_string.append(params[i].1);
            i += 1;
        }
        proof {
            assert(params@.take(i as int) == params@);
        }
        query_string
    }

    /// The headers of a call of this client, with the key that the
    /// configuration answers when it is asked for it.
    pub fn add_headers(&self, idempotency_key: Option<&str>) -> (headers: Vec<(String, String)>)
        ensures
            exists|api_key: String|
                #![trigger call_ensures(C::get_api_key, (&self.config(),), api_key)]
                call_ensures(C::get_api_key, (&self.config(),), api_key) && header_texts(headers@)
                    == call_headers(api_key@, opt_str(idempotency_key)),
    {
        let api_key = self.config.get_api_key();
        let headers = headers_for(api_key.as_str(), idempotency_key);
        assert(call_ensures(C::get_api_key, (&self.config(),), api_key) && header_texts(headers@)
            == call_headers(api_key@, opt_str(idempotency_key)));
        headers
    }

    /// Plans a call of `endpoint` and returns the plan with its address.
    ///
    /// `request_json` and `query_string` are the two renderings of the request;
    /// the query is read for `GET` only. Address, key and time limit are those
    /// that the configuration answers when it is asked for them.
    pub fn build_flurl(
        &self,
        endpoint: &BrandApiEndpoint,
        request_json: Option<String>,
        query_string: &str,
        idempotency_key: Option<&str>,
    ) -> (planned: (CallPlan, String))
        ensures
            planned.1@ == planned.0.url@,
            exists|base_url: String, api_key: String, timeout: Duration|
                #![trigger call_ensures(C::get_api_url, (&self.config(),), base_url), call_ensures(C::get_api_key, (&self.config(),), api_key), call_ensures(C::get_timeout, (&self.config(),), timeout)]
                call_ensures(C::get_api_url, (&self.config(),), base_url) && call_ensures(
                    C::get_api_key,
                    (&self.config(),),
                    api_key,
                ) && call_ensures(C::get_timeout, (&self.config(),), timeout)
                    && planned.0.is_plan_of(
                    base_url@,
                    api_key@,
                    timeout,
                    *endpoint,
                    request_json,
                    query_string@,
                    opt_str(idempotency_key),
                ),
    {
        let base_url = self.config.get_api_url();
        let api_key = self.config.get_api_key();
        let timeout = self.config.get_timeout();
        let plan = CallPlan::new(
            base_url.as_str(),
            api_key.as_str(),
            timeout,
            *endpoint,
            request_json,
            query_string,
            idempotency_key,
        );
        let url = plan.url.clone();
        assert(call_ensures(C::get_api_url, (&self.config(),), base_url) && call_ensures(
            C::get_api_key,
            (&self.config(),),
            api_key,
        ) && call_ensures(C::get_timeout, (&self.config(),), timeout) && plan.is_plan_of(
            base_url@,
            api_key@,
            timeout,
            *endpoint,
            request_json,
            query_string@,
            opt_str(idempotency_key),
        ));
        (plan, url)
    }
}

/// A response with status 400 comes to an error that keeps both bodies as
/// they were: the request as it was serialized and the response as the
/// server sent it. Both stand in the fields of the error and, letter for
/// letter, in its message.
pub proof fn lemma_bad_request_keeps_both_bodies(
    body: Seq<char>,
    request_json: Option<Seq<char>>,
    request_url: Seq<char>,
    endpoint: BrandApiEndpoint,
)
    ensures
        classified(400, body, request_json, request_url, endpoint) matches Err(error)
            && error.kind == ErrorKind::BadRequest && error.request_body == request_json
            && error.response_body == Some(body) && occurs_in(body, error.message()) && (
        request_json matches Some(request) ==> occurs_in(request, error.message())),
{
    let error = classified(400, body, request_json, request_url, endpoint)->Err_0;
    let head = "Received bad request status. Url: "@ + error.target() + ". Request: "@;
    let request = text_or_none(request_json);
    let middle = ". Response: "@;
    assert(error.message() == head + request + middle + body);
    lemma_occurs_in_middle(head + request + middle, body, Seq::empty());
    assert(head + request + middle + body + Seq::<char>::empty() == error.message());
    lemma_occurs_in_middle(head, request, middle + body);
    assert(head + request + (middle + body) == error.message());
}

/// Every failed status keeps the address, the status and both bodies in the
/// error, whatever the status is.
pub proof fn lemma_failed_status_keeps_context(
    status: u16,
    body: Seq<char>,
    request_json: Option<Seq<char>>,
    request_url: Seq<char>,
    endpoint: BrandApiEndpoint,
)
    requires
        status != 200 && status != 201 && status != 204,
    ensures
        classified(status, body, request_json, request_url, endpoint) matches Err(error)
            && error.endpoint == endpoint && error.url == request_url && error.status == Some(
            status,
        ) && error.request_body == request_json && error.response_body == Some(body),
{
}

/// A call that ran out of time fails as a timeout, and a call whose
/// transport failed does not: the two are told apart by the kind of the error,
/// whatever the plan and whatever the transport reports. The timeout needs no
/// failure of the transport to be reported.
pub proof fn lemma_timeout_is_no_transport_failure(plan: CallPlan, report: String)
    ensures
        plan.concluded(CallOutcome::TimedOut) matches Err(error) && error.kind
            == ErrorKind::Timeout,
        plan.concluded(CallOutcome::SendFailed(report)) matches Err(error) && error.kind
            != ErrorKind::Timeout,
        forall|outcome: CallOutcome|
            (#[trigger] plan.concluded(outcome) matches Err(error) && error.kind
                == ErrorKind::Timeout) <==> outcome is TimedOut,
{
    assert forall|outcome: CallOutcome|
        (#[trigger] plan.concluded(outcome) matches Err(error) && error.kind
            == ErrorKind::Timeout) <==> outcome is TimedOut by {
        match outcome {
            CallOutcome::Responded(status, body) => {
                assert(status_fault(status) != Some(ErrorKind::Timeout));
            },
            _ => {},
        }
    }
}

} // verus!
