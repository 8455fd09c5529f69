//! The collection API: what is sent to it and how its answers are read.
//!
//! The requests themselves are sent by the program.  This module says where
//! each one goes and with which headers, and turns what came back into the
//! result of the call.

use crate::config::Config;
use crate::http::{
    build_http_client, field, field_texts, http_error_text, is_success_status, success_status,
    Field,
};
use crate::metadata::InstanceMetadata;
use crate::text::{clone_optional_text, concat2, concat4, decimal, decimal_text, owned};
use vstd::prelude::*;

verus! {

/// What the platform is told about the host that registers.
#[derive(Debug)]
pub struct ResourceRegistration {
    pub hostname: String,
    pub agent_version: String,
    pub platform: String,
    pub arch: String,
    pub instance_metadata: InstanceMetadata,
}

/// What the platform answers to a registration.
#[derive(Debug)]
pub struct ResourceRegistrationResponse {
    pub resource_id: String,
    pub status: String,
    pub message: Option<String>,
}

/// Why a call to the collection API failed.
#[derive(Debug)]
pub enum ApiError {
    /// No HTTP client could be built.
    ClientCreation(String),
    /// The request did not complete.
    Request(String),
    /// The answer was accepted but its payload could not be parsed.
    Parse(String),
    /// The server answered with a status outside the range of success.
    Response { status: u16, body: String },
}

impl ApiError {
    /// The text that describes the error.
    pub open spec fn message_text(self) -> Seq<char> {
        match self {
            ApiError::ClientCreation(detail) => "Failed to create HTTP client: "@ + detail@,
            ApiError::Request(detail) => "Request failed: "@ + detail@,
            ApiError::Parse(detail) => "Failed to parse response: "@ + detail@,
            ApiError::Response { status, body } => "API returned error status "@ + decimal_text(
                status as nat,
            ) + ": "@ + body@,
        }
    }

    /// Describes the error in words.
    pub fn message(&self) -> (out: String)
        ensures
            out@ == self.message_text(),
    {
        match self {
            ApiError::ClientCreation(detail) => concat2(
                "Failed to create HTTP client: ",
                detail.as_str(),
            ),
            ApiError::Request(detail) => concat2("Request failed: ", detail.as_str()),
            ApiError::Parse(detail) => concat2("Failed to parse response: ", detail.as_str()),
            ApiError::Response { status, body } => {
                let code: String = decimal(*status as u64);
                concat4("API returned error status ", code.as_str(), ": ", body.as_str())
            },
        }
    }
}

/// Where a request goes and the headers that it carries.
#[derive(Debug)]
pub struct ApiRequest {
    pub url: String,
    pub headers: Vec<Field>,
}

/// What to do once a request has been sent.
#[derive(Debug)]
pub enum ReplyStep {
    /// The request did not complete; the call fails with this error.
    Failed(ApiError),
    /// The server refused with this status; its body describes why.
    ReadErrorBody(u16),
    /// The server accepted; its body is the payload of the answer.
    ReadPayload,
}

/// The text that stands for the body of a refusal that could not be read.
pub open spec fn unreadable_body() -> Seq<char> {
    "Unable to read response body"@
}

/// The headers of a request to the collection API: JSON goes out, JSON is
/// wanted back, and the API key, where there is one, goes along as a bearer
/// token.
pub open spec fn api_headers(api_key: Option<String>) -> Seq<(Seq<char>, Seq<char>)> {
    let fixed = seq![
        ("Content-Type"@, "application/json"@),
        ("Accept"@, "application/json"@),
    ];
    match api_key {
        Some(key) => fixed.push(("Authorization"@, "Bearer "@ + key@)),
        None => fixed,
    }
}

/// The client of the collection API.
pub struct ApiClient {
    client: reqwest::Client,
    endpoint: String,
    api_key: Option<String>,
}

impl ApiClient {
    /// The address of the API.
    pub closed spec fn endpoint_text(&self) -> Seq<char> {
        self.endpoint@
    }

    /// The API key that the client authenticates with, if any.
    pub closed spec fn key(&self) -> Option<String> {
        self.api_key
    }

    /// The HTTP client that the requests go through.
    pub closed spec fn http_client(&self) -> reqwest::Client {
        self.client
    }

    /// A client for the API that `config` names, around the HTTP client that
    /// was built for it, or the failure to build one.
    pub fn with_http_client(
        built: Result<reqwest::Client, reqwest::Error>,
        config: &Config,
    ) -> (made: Result<Self, ApiError>)
        ensures
            built is Ok <==> made is Ok,
            made is Ok ==> made->Ok_0.endpoint_text() == config.api.endpoint@ && made->Ok_0.key()
                == config.api.api_key && made->Ok_0.http_client() == built->Ok_0,
            made is Err ==> made->Err_0 is ClientCreation,
    {
        match built {
            Ok(client) => Ok(
                ApiClient {
                    client,
                    endpoint: config.api.endpoint.clone(),
                    api_key: clone_optional_text(&config.api.api_key),
                },
            ),
            Err(error) => Err(ApiError::ClientCreation(http_error_text(&error))),
        }
    }

    /// A client for the API that `config` names, with the configured
    /// timeout.  It fails only where no HTTP client can be built.
    pub fn new(config: &Config) -> (made: Result<Self, ApiError>)
        ensures
            made is Ok ==> made->Ok_0.endpoint_text() == config.api.endpoint@ && made->Ok_0.key()
                == config.api.api_key,
            made is Err ==> made->Err_0 is ClientCreation,
    {
        Self::with_http_client(build_http_client(config.get_api_timeout_seconds()), config)
    }

    pub fn endpoint(&self) -> (endpoint: &str)
        ensures
            endpoint@ == self.endpoint_text(),
    {
        self.endpoint.as_str()
    }

    /// The HTTP client that the requests are to be sent with.
    pub fn http(&self) -> (client: &reqwest::Client)
        ensures
            *client == self.http_client(),
    {
        &self.client
    }

    fn request_to(&self, path: &str) -> (request: ApiRequest)
        ensures
            request.url@ == self.endpoint_text() + path@,
            field_texts(request.headers@) == api_headers(self.key()),
    {
        let mut headers: Vec<Field> = Vec::new();
        headers.push(field("Content-Type", "application/json"));
        headers.push(field("Accept", "application/json"));
        if let Some(api_key) = &self.api_key {
            let value: String = concat2("Bearer ", api_key.as_str());
            headers.push(Field { name: owned("Authorization"), value });
        }
        assert(field_texts(headers@) =~= api_headers(self.key()));
        ApiRequest { url: concat2(self.endpoint.as_str(), path), headers }
    }

    /// The request that carries a batch of metrics.
    pub fn metrics_request(&self) -> (request: ApiRequest)
        ensures
            request.url@ == self.endpoint_text() + "/api/v1/metrics"@,
            field_texts(request.headers@) == api_headers(self.key()),
    {
        self.request_to("/api/v1/metrics")
    }

    /// The request that registers the host.
    pub fn registration_request(&self) -> (request: ApiRequest)
        ensures
            request.url@ == self.endpoint_text() + "/api/v1/resources"@,
            field_texts(request.headers@) == api_headers(self.key()),
    {
        self.request_to("/api/v1/resources")
    }

    /// What follows once a request was sent: `sent` holds the status code of
    /// the answer, or the reason why there was none.
    pub fn reply_step(sent: Result<u16, String>) -> (step: ReplyStep)
        ensures
            match sent {
                Err(reason) => step matches ReplyStep::Failed(ApiError::Request(detail)) && detail
                    == reason,
                Ok(status) => if success_status(status) {
                    step is ReadPayload
                } else {
                    step == ReplyStep::ReadErrorBody(status)
                },
            },
    {
        match sent {
            Err(reason) => ReplyStep::Failed(ApiError::Request(reason)),
            Ok(status) => if is_success_status(status) {
                ReplyStep::ReadPayload
            } else {
                ReplyStep::ReadErrorBody(status)
            },
        }
    }

    /// The error of a call that the server refused with `status`; `body` is
    /// what the server said, where that could be read.
    pub fn rejection(status: u16, body: Option<String>) -> (error: ApiError)
        ensures
            error matches ApiError::Response { status: code, body: said } && code == status && said@
                == (match body {
                Some(text) => text@,
                None => unreadable_body(),
            }),
    {
        match body {
            Some(text) => ApiError::Response { status, body: text },
            None => ApiError::Response { status, body: owned("Unable to read response body") },
        }
    }

    /// The result of sending metrics, from what `reply_step` and the reading
    /// of a refusal's body gave: a call that the server accepted succeeds.
    pub fn send_metrics(sent: Result<u16, String>, error_body: Option<String>) -> (outcome: Result<
        (),
        ApiError,
    >)
        ensures
            match sent {
                Err(reason) => outcome matches Err(ApiError::Request(detail)) && detail == reason,
                Ok(status) => if success_status(status) {
                    outcome is Ok
                } else {
                    outcome matches Err(ApiError::Response { status: code, body: said }) && code
                        == status && said@ == (match error_body {
                        Some(text) => text@,
                        None => unreadable_body(),
                    })
                },
            },
    {
        match Self::reply_step(sent) {
            ReplyStep::Failed(error) => Err(error),
            ReplyStep::ReadErrorBody(status) => Err(Self::rejection(status, error_body)),
            ReplyStep::ReadPayload => Ok(()),
        }
    }

    /// The result of a registration: as for `send_metrics`, but an accepted
    /// call succeeds only where its payload could be parsed; `parsed` holds
    /// the payload or the reason why there is none.
    pub fn register_resource(
        sent: Result<u16, String>,
        error_body: Option<String>,
        parsed: Result<ResourceRegistrationResponse, String>,
    ) -> (outcome: Result<ResourceRegistrationResponse, ApiError>)
        ensures
            match sent {
                Err(reason) => outcome matches Err(ApiError::Request(detail)) && detail == reason,
                Ok(status) => if success_status(status) {
                    match parsed {
                        Ok(response) => outcome == Ok::<ResourceRegistrationResponse, ApiError>(
                            response,
                        ),
                        Err(reason) => outcome matches Err(ApiError::Parse(detail)) && detail
                            == reason,
                    }
                } else {
                    outcome matches Err(ApiError::Response { status: code, body: said }) && code
                        == status && said@ == (match error_body {
                        Some(text) => text@,
                        None => unreadable_body(),
                    })
                },
            },
    {
        match Self::reply_step(sent) {
            ReplyStep::Failed(error) => Err(error),
            ReplyStep::ReadErrorBody(status) => Err(Self::rejection(status, error_body)),
            ReplyStep::ReadPayload => match parsed {
                Ok(response) => Ok(response),
                Err(reason) => Err(ApiError::Parse(reason)),
            },
        }
    }
}

} // verus!
