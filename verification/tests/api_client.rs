use embedded_updater::api_client::{
    status_is_success, ApiClient, ApiRequest, CheckBody, CheckReply, HttpMethod, ReportReply,
    StatusReportPayload, UpdateErr, UpdateInfo, CONNECT_TIMEOUT_SECONDS, RANGE_HEADER,
    RANGE_SUPPORT_HEADER, READ_TIMEOUT_SECONDS, SIZE_HEADER, STATUS_OK,
    TOKEN_HEADER,
};
use embedded_updater::config::Config;
use embedded_updater::error::UpdateError;

fn client() -> ApiClient {
    let config = Config {
        service_name: "svc".to_string(),
        current_version_file: "/etc/svc/version".to_string(),
        update_check_api_url: "https://cp/check".to_string(),
        status_report_api_url: "https://cp/status".to_string(),
        poll_interval_seconds: 60,
        download_base_dir: "/var/dl".to_string(),
        decryption_key_hex: String::new(),
        update_script_name: "install.sh".to_string(),
        device_token: "unused".to_string(),
        db_password: "secret".to_string(),
    };
    ApiClient::new(config, "device-123".to_string())
}

fn answered(status: u16, body: CheckBody) -> CheckReply {
    CheckReply::Answered { status, body }
}

#[test]
fn new_keeps_settings_and_credential() {
    let client = client();
    assert_eq!(client.token, "device-123");
    assert_eq!(client.config.update_check_api_url, "https://cp/check");
}

#[test]
fn protocol_constants() {
    assert_eq!(TOKEN_HEADER, "device-token");
    assert_eq!(SIZE_HEADER, "x-content-length");
    assert_eq!(RANGE_SUPPORT_HEADER, "accept-ranges");
    assert_eq!(RANGE_HEADER, "range");
    assert_eq!(STATUS_OK, 200);
    assert_eq!(CONNECT_TIMEOUT_SECONDS, 10);
    assert_eq!(READ_TIMEOUT_SECONDS, 10);
}

#[test]
fn success_is_the_range_from_200_to_299() {
    for status in [0u16, 100, 199, 300, 304, 404, 500, 999, u16::MAX] {
        assert!(!status_is_success(status), "{}", status);
        assert!(!ApiClient::offers_update(status));
    }
    for status in [200u16, 201, 204, 206, 299] {
        assert!(status_is_success(status), "{}", status);
        assert!(ApiClient::offers_update(status));
    }
}

#[test]
fn check_request_carries_the_credential() {
    assert_eq!(
        client().check_request(),
        ApiRequest {
            method: HttpMethod::Get,
            url: "https://cp/check".to_string(),
            header_name: "device-token".to_string(),
            header_value: "device-123".to_string(),
            payload: None,
        }
    );
}

#[test]
fn report_request_carries_version_and_message() {
    assert_eq!(
        client().report_request(3, "version 5 downloaded successfully".to_string()),
        ApiRequest {
            method: HttpMethod::Put,
            url: "https://cp/status".to_string(),
            header_name: "device-token".to_string(),
            header_value: "device-123".to_string(),
            payload: Some(StatusReportPayload {
                version_code: 3,
                status_message: "version 5 downloaded successfully".to_string(),
            }),
        }
    );
}

#[test]
fn accepted_check_gives_the_offer() {
    let info = UpdateInfo { version_code: 5, file_url: "https://cdn/files/app-5".to_string() };
    assert_eq!(
        client().check_for_updates(answered(200, CheckBody::Update(info.clone()))),
        Ok(info)
    );
}

#[test]
fn refused_check_gives_status_and_message() {
    let refusal = UpdateErr { message: "unknown device".to_string() };
    assert_eq!(
        client().check_for_updates(answered(403, CheckBody::Refusal(refusal))),
        Err(UpdateError::ApiRequestFailed { status: 403, message: "unknown device".to_string() })
    );
}

#[test]
fn undecodable_check_body_is_a_client_error() {
    for status in [200u16, 500] {
        assert_eq!(
            client().check_for_updates(answered(
                status,
                CheckBody::Undecodable("error decoding response body".to_string())
            )),
            Err(UpdateError::ApiClientError("error decoding response body".to_string()))
        );
    }
}

#[test]
fn check_body_of_the_wrong_kind_is_a_client_error() {
    let info = UpdateInfo { version_code: 5, file_url: "u".to_string() };
    let refusal = UpdateErr { message: "m".to_string() };
    let expected = Err(UpdateError::ApiClientError("unexpected response body".to_string()));
    assert_eq!(client().check_for_updates(answered(500, CheckBody::Update(info))), expected);
    assert_eq!(client().check_for_updates(answered(200, CheckBody::Refusal(refusal))), expected);
}

#[test]
fn unanswered_check_is_a_client_error() {
    assert_eq!(
        client().check_for_updates(CheckReply::Unanswered("error sending request".to_string())),
        Err(UpdateError::ApiClientError("error sending request".to_string()))
    );
}

#[test]
fn accepted_report_is_fine_whatever_its_body() {
    assert_eq!(client().report_status(ReportReply::Answered { status: 200, body: None }), Ok(()));
    assert_eq!(
        client().report_status(ReportReply::Answered { status: 204, body: Some("ok".to_string()) }),
        Ok(())
    );
}

#[test]
fn refused_report_gives_status_and_body() {
    assert_eq!(
        client().report_status(ReportReply::Answered {
            status: 500,
            body: Some("database down".to_string())
        }),
        Err(UpdateError::ApiRequestFailed { status: 500, message: "database down".to_string() })
    );
    assert_eq!(
        client().report_status(ReportReply::Answered { status: 401, body: None }),
        Err(UpdateError::ApiRequestFailed { status: 401, message: "Unknown error".to_string() })
    );
}

#[test]
fn unanswered_report_is_a_client_error() {
    assert_eq!(
        client().report_status(ReportReply::Unanswered("connection refused".to_string())),
        Err(UpdateError::ApiClientError("connection refused".to_string()))
    );
}
