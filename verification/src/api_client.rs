//! The exchanges with the control plane: what to ask and how to read the
//! answers.

use crate::config::Config;
use crate::decimal::{decimal_text, render_u64};
use crate::error::{ErrorKind, UpdateError};
use vstd::prelude::*;
use vstd::string::*;

verus! {

/// The newest version that the control plane offers.
#[derive(Clone, Debug, PartialEq, Eq)]
pub struct UpdateInfo {
    pub version_code: i32,
    pub file_url: String,
}

/// The body of an answer that refuses a request.
#[derive(Clone, Debug, PartialEq, Eq)]
pub struct UpdateErr {
    pub message: String,
}

/// The agent's side of the protocol: the settings and the credential.
pub struct ApiClient {
    pub config: Config,
    pub token: String,
}

/// A status in the range that HTTP reserves for success.
pub open spec fn is_success(status: u16) -> bool {
    200 <= status <= 299
}

/// The status that announces the whole content.
pub const STATUS_OK: u16 = 200;

pub fn status_is_success(status: u16) -> (b: bool)
    ensures
        b == is_success(status),
{
    200 <= status && status <= 299
}

/// The reason phrase that goes with an HTTP status code, where one is
/// registered for it.
pub uninterp spec fn canonical_reason(code: u16) -> Option<Seq<char>>;

/// `reqwest::StatusCode::canonical_reason`, for the status code that
/// `reqwest::StatusCode::from_u16` makes of `code`. The result is the phrase
/// of the crate's table; there is none for a number that is no status code
/// or has no registered phrase.
#[verifier::external_body]
fn reason_phrase(code: u16) -> (reason: Option<String>)
    ensures
        reason is Some == canonical_reason(code) is Some,
        reason matches Some(r) ==> canonical_reason(code) == Some(r@),
{
    reqwest::StatusCode::from_u16(code).ok().and_then(|status| status.canonical_reason()).map(
        String::from,
    )
}

/// A status as it is written in messages: the number, a space, and the
/// reason phrase or a placeholder.
pub open spec fn status_line(code: u16) -> Seq<char> {
    decimal_text(code as nat) + " "@ + match canonical_reason(code) {
        Some(reason) => reason,
        None => "<unknown status code>"@,
    }
}

/// Writes a status as `status_line` has it.
pub fn describe_status(code: u16) -> (line: String)
    ensures
        line@ == status_line(code),
{
    let mut line = render_u64(code as u64);
    line.append(" ");
    match reason_phrase(code) {
        Some(reason) => line.append(reason.as_str()),
        None => line.append("<unknown status code>"),
    }
    line
}

/// The header that carries the device's credential.
pub const TOKEN_HEADER: &'static str = "device-token";

/// The header of a probe's answer that tells the artifact's size.
pub const SIZE_HEADER: &'static str = "x-content-length";

/// The header of a probe's answer that tells whether ranges are served.
pub const RANGE_SUPPORT_HEADER: &'static str = "accept-ranges";

/// The header of a fetch that asks for a range.
pub const RANGE_HEADER: &'static str = "range";

/// Seconds that the agent waits for a connection.
pub const CONNECT_TIMEOUT_SECONDS: u64 = 10;

/// Seconds that the agent waits for the next bytes of an answer.
pub const READ_TIMEOUT_SECONDS: u64 = 10;

#[derive(Clone, Copy, Debug, PartialEq, Eq, Structural)]
pub enum HttpMethod {
    Get,
    Put,
}

/// The body of a status report.
#[derive(Clone, Debug, PartialEq, Eq)]
pub struct StatusReportPayload {
    pub version_code: i32,
    pub status_message: String,
}

/// A request to the control plane.
#[derive(Debug, PartialEq, Eq)]
pub struct ApiRequest {
    pub method: HttpMethod,
    pub url: String,
    /// The one header that carries the device's credential.
    pub header_name: String,
    pub header_value: String,
    pub payload: Option<StatusReportPayload>,
}

/// The body of an answer to the check, as far as it could be decoded.
#[derive(Clone, Debug, PartialEq, Eq)]
pub enum CheckBody {
    Update(UpdateInfo),
    Refusal(UpdateErr),
    Undecodable(String),
}

/// What came of the check.
#[derive(Clone, Debug, PartialEq, Eq)]
pub enum CheckReply {
    /// The request got no answer.
    Unanswered(String),
    Answered { status: u16, body: CheckBody },
}

/// What came of a status report.
#[derive(Clone, Debug, PartialEq, Eq)]
pub enum ReportReply {
    /// The request got no answer.
    Unanswered(String),
    /// The answer's status and its body, where it could be read as text.
    Answered { status: u16, body: Option<String> },
}

/// What `check_for_updates` makes of a reply. A success carries the
/// offered update, any other status the control plane's refusal; a body of
/// the other kind counts as one that could not be decoded.
pub open spec fn check_outcome(reply: CheckReply, r: Result<UpdateInfo, UpdateError>) -> bool {
    match reply {
        CheckReply::Unanswered(reason) => r matches Err(e) && e.has(ErrorKind::ApiClient, reason@),
        CheckReply::Answered { status, body } => match body {
            CheckBody::Undecodable(reason) => r matches Err(e) && e.has(
                ErrorKind::ApiClient,
                reason@,
            ),
            CheckBody::Update(info) => if is_success(status) {
                r == Ok::<UpdateInfo, UpdateError>(info)
            } else {
                r matches Err(e) && e.has(ErrorKind::ApiClient, "unexpected response body"@)
            },
            CheckBody::Refusal(refusal) => if is_success(status) {
                r matches Err(e) && e.has(ErrorKind::ApiClient, "unexpected response body"@)
            } else {
                &&& r matches Err(UpdateError::ApiRequestFailed { status: s, message })
                &&& s == status
                &&& message@ == refusal.message@
            },
        },
    }
}

/// What `report_status` makes of a reply.
pub open spec fn report_outcome(reply: ReportReply, r: Result<(), UpdateError>) -> bool {
    match reply {
        ReportReply::Unanswered(reason) => r matches Err(e) && e.has(ErrorKind::ApiClient, reason@),
        ReportReply::Answered { status, body } => if is_success(status) {
            r == Ok::<(), UpdateError>(())
        } else {
            &&& r matches Err(UpdateError::ApiRequestFailed { status: s, message })
            &&& s == status
            &&& message@ == match body {
                Some(text) => text@,
                None => "Unknown error"@,
            }
        },
    }
}

impl ApiClient {
    pub fn new(config: Config, token: String) -> (client: ApiClient)
        ensures
            client.config == config,
            client.token == token,
    {
        ApiClient { config, token }
    }

    /// Whether the body of an answer to the check is to be decoded as an
    /// offered update, and not as a refusal.
    pub fn offers_update(status: u16) -> (b: bool)
        ensures
            b == is_success(status),
    {
        status_is_success(status)
    }

    /// The request that asks for the newest version.
    pub fn check_request(&self) -> (request: ApiRequest)
        ensures
            request.method == HttpMethod::Get,
            request.url@ == self.config.update_check_api_url@,
            request.header_name@ == TOKEN_HEADER@,
            request.header_value@ == self.token@,
            request.payload is None,
    {
        ApiRequest {
            method: HttpMethod::Get,
            url: self.config.update_check_api_url.clone(),
            header_name: String::from_str(TOKEN_HEADER),
            header_value: self.token.clone(),
            payload: None,
        }
    }

    /// The newest version that the control plane offers, from what came of
    /// the check.
    pub fn check_for_updates(&self, reply: CheckReply) -> (r: Result<UpdateInfo, UpdateError>)
        ensures
            check_outcome(reply, r),
    {
        match reply {
            CheckReply::Unanswered(reason) => Err(UpdateError::ApiClientError(reason)),
            CheckReply::Answered { status, body } => match body {
                CheckBody::Undecodable(reason) => Err(UpdateError::ApiClientError(reason)),
                CheckBody::Update(info) => {
                    if status_is_success(status) {
                        Ok(info)
                    } else {
                        Err(
                            UpdateError::ApiClientError(
                                String::from_str("unexpected response body"),
                            ),
                        )
                    }
                },
                CheckBody::Refusal(refusal) => {
                    if status_is_success(status) {
                        Err(
                            UpdateError::ApiClientError(
                                String::from_str("unexpected response body"),
                            ),
                        )
                    } else {
                        Err(UpdateError::ApiRequestFailed { status, message: refusal.message })
                    }
                },
            },
        }
    }

    /// The request that reports `status_message` for `version_code`.
    pub fn report_request(&self, version_code: i32, status_message: String) -> (request: ApiRequest)
        ensures
            request.method == HttpMethod::Put,
            request.url@ == self.config.status_report_api_url@,
            request.header_name@ == TOKEN_HEADER@,
            request.header_value@ == self.token@,
            request.payload == Some(StatusReportPayload { version_code, status_message }),
    {
        ApiRequest {
            method: HttpMethod::Put,
            url: self.config.status_report_api_url.clone(),
            header_name: String::from_str(TOKEN_HEADER),
            header_value: self.token.clone(),
            payload: Some(StatusReportPayload { version_code, status_message }),
        }
    }

    /// Whether a status report got through, from what came of it.
    pub fn report_status(&self, reply: ReportReply) -> (r: Result<(), UpdateError>)
        ensures
            report_outcome(reply, r),
    {
        match reply {
            ReportReply::Unanswered(reason) => Err(UpdateError::ApiClientError(reason)),
            ReportReply::Answered { status, body } => {
                if status_is_success(status) {
                    Ok(())
                } else {
                    let message = match body {
                        Some(text) => text,
                        None => String::from_str("Unknown error"),
                    };
                    Err(UpdateError::ApiRequestFailed { status, message })
                }
            },
        }
    }
}

} // verus!
