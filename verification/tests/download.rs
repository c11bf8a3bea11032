use embedded_updater::api_client::ApiClient;
use embedded_updater::config::Config;
use embedded_updater::download::{
    range_header, read_announced_size, read_announces_ranges, DownloadAction, DownloadEvent,
    DownloadStage, DownloadState, WriteMode,
};
use embedded_updater::error::UpdateError;

fn downloader() -> ApiClient {
    let config = Config {
        service_name: "svc".to_string(),
        current_version_file: "/etc/svc/version".to_string(),
        update_check_api_url: "https://cp/check".to_string(),
        status_report_api_url: "https://cp/status".to_string(),
        poll_interval_seconds: 60,
        download_base_dir: "/var/dl".to_string(),
        decryption_key_hex: String::new(),
        update_script_name: "install.sh".to_string(),
        device_token: "token".to_string(),
        db_password: "secret".to_string(),
    };
    ApiClient::new(config, "token".to_string())
}

fn measuring(total_size: Option<u64>) -> DownloadStage {
    DownloadStage::Measuring { total_size, range_supported: true }
}

fn requesting(local_offset: u64) -> DownloadStage {
    DownloadStage::Requesting {
        state: DownloadState { total_size: Some(1000), range_supported: true, local_offset },
    }
}

fn step(stage: DownloadStage, event: DownloadEvent) -> (DownloadStage, DownloadAction) {
    downloader().download_update("/var/dl/app-5.zip", stage, event)
}

fn failure(error: UpdateError) -> (DownloadStage, DownloadAction) {
    (DownloadStage::Finished, DownloadAction::Finish(Err(error)))
}

#[test]
fn download_starts_with_the_directory() {
    assert_eq!(
        DownloadStage::start(),
        (DownloadStage::PreparingDirectory, DownloadAction::EnsureDirectory)
    );
    assert_eq!(
        step(DownloadStage::PreparingDirectory, DownloadEvent::DirectoryReady),
        (DownloadStage::Probing, DownloadAction::Probe)
    );
}

#[test]
fn download_fails_without_its_directory() {
    assert_eq!(
        step(
            DownloadStage::PreparingDirectory,
            DownloadEvent::DirectoryFailed("Permission denied (os error 13)".to_string())
        ),
        failure(UpdateError::FileSystemError(
            "Failed to create parent directory for download: Permission denied (os error 13)"
                .to_string()
        ))
    );
}

#[test]
fn probe_answer_gives_size_and_range_support() {
    let event = DownloadEvent::ProbeAnswered {
        status: 200,
        content_length: Some("1000".to_string()),
        accept_ranges: Some("bytes".to_string()),
    };
    assert_eq!(
        step(DownloadStage::Probing, event),
        (
            DownloadStage::Measuring { total_size: Some(1000), range_supported: true },
            DownloadAction::MeasureLocal
        )
    );
}

#[test]
fn probe_answer_without_usable_headers_leaves_the_size_open() {
    let event = DownloadEvent::ProbeAnswered {
        status: 204,
        content_length: Some("1000 bytes".to_string()),
        accept_ranges: Some("none".to_string()),
    };
    assert_eq!(
        step(DownloadStage::Probing, event),
        (
            DownloadStage::Measuring { total_size: None, range_supported: false },
            DownloadAction::MeasureLocal
        )
    );
    let event = DownloadEvent::ProbeAnswered { status: 200, content_length: None, accept_ranges: None };
    assert_eq!(
        step(DownloadStage::Probing, event),
        (
            DownloadStage::Measuring { total_size: None, range_supported: false },
            DownloadAction::MeasureLocal
        )
    );
}

#[test]
fn refused_probe_is_a_head_error() {
    let event = DownloadEvent::ProbeAnswered {
        status: 404,
        content_length: Some("1000".to_string()),
        accept_ranges: None,
    };
    assert_eq!(
        step(DownloadStage::Probing, event),
        failure(UpdateError::HeadError("Head request failed with status: 404 Not Found".to_string()))
    );
    let event = DownloadEvent::ProbeAnswered { status: 301, content_length: None, accept_ranges: None };
    assert_eq!(
        step(DownloadStage::Probing, event),
        failure(UpdateError::HeadError(
            "Head request failed with status: 301 Moved Permanently".to_string()
        ))
    );
}

#[test]
fn unanswered_request_is_a_client_error() {
    assert_eq!(
        step(DownloadStage::Probing, DownloadEvent::RequestFailed("error sending request".to_string())),
        failure(UpdateError::ApiClientError("error sending request".to_string()))
    );
    assert_eq!(
        step(requesting(0), DownloadEvent::RequestFailed("error sending request".to_string())),
        failure(UpdateError::ApiClientError("error sending request".to_string()))
    );
}

#[test]
fn complete_file_is_not_fetched_again() {
    let done = (DownloadStage::Finished, DownloadAction::Finish(Ok(())));
    assert_eq!(step(measuring(Some(1000)), DownloadEvent::LocalSize(Some(1000))), done);
    assert_eq!(step(measuring(Some(1000)), DownloadEvent::LocalSize(Some(1001))), done);
    assert_eq!(step(measuring(Some(1)), DownloadEvent::LocalSize(Some(u64::MAX))), done);
}

#[test]
fn file_of_unknown_or_zero_size_is_fetched() {
    let (stage, action) = step(measuring(None), DownloadEvent::LocalSize(Some(500)));
    assert_eq!(
        stage,
        DownloadStage::Requesting {
            state: DownloadState { total_size: None, range_supported: true, local_offset: 500 }
        }
    );
    assert_eq!(action, DownloadAction::Fetch { range: Some("bytes=500-".to_string()) });
    let (_, action) = step(measuring(Some(0)), DownloadEvent::LocalSize(Some(0)));
    assert_eq!(action, DownloadAction::Fetch { range: None });
    let (_, action) = step(measuring(Some(0)), DownloadEvent::LocalSize(Some(7)));
    assert_eq!(action, DownloadAction::Fetch { range: Some("bytes=7-".to_string()) });
}

#[test]
fn missing_file_is_fetched_from_the_start() {
    let (stage, action) = step(measuring(Some(1000)), DownloadEvent::LocalSize(None));
    assert_eq!(
        stage,
        DownloadStage::Requesting {
            state: DownloadState { total_size: Some(1000), range_supported: true, local_offset: 0 }
        }
    );
    assert_eq!(action, DownloadAction::Fetch { range: None });
}

#[test]
fn partial_file_is_resumed_at_its_length() {
    let (stage, action) = step(measuring(Some(1000)), DownloadEvent::LocalSize(Some(999)));
    assert_eq!(stage, requesting(999));
    assert_eq!(action, DownloadAction::Fetch { range: Some("bytes=999-".to_string()) });
}

#[test]
fn unexaminable_file_is_a_file_system_error() {
    assert_eq!(
        step(measuring(Some(1000)), DownloadEvent::LocalSizeFailed("Input/output error".to_string())),
        failure(UpdateError::FileSystemError(
            "Failed to get metadata for existing file /var/dl/app-5.zip: Input/output error"
                .to_string()
        ))
    );
}

#[test]
fn full_content_truncates_whatever_the_offset() {
    for offset in [0u64, 1, 999, 5000] {
        assert_eq!(
            step(requesting(offset), DownloadEvent::FetchAnswered { status: 200 }),
            (
                DownloadStage::Opening { mode: WriteMode::Truncate },
                DownloadAction::Open(WriteMode::Truncate)
            )
        );
    }
}

#[test]
fn partial_content_appends() {
    assert_eq!(
        step(requesting(400), DownloadEvent::FetchAnswered { status: 206 }),
        (DownloadStage::Opening { mode: WriteMode::Append }, DownloadAction::Open(WriteMode::Append))
    );
}

#[test]
fn other_success_status_appends() {
    assert_eq!(
        step(requesting(0), DownloadEvent::FetchAnswered { status: 204 }),
        (DownloadStage::Opening { mode: WriteMode::Append }, DownloadAction::Open(WriteMode::Append))
    );
}

#[test]
fn refused_fetch_is_a_download_error() {
    assert_eq!(
        step(requesting(400), DownloadEvent::FetchAnswered { status: 416 }),
        failure(UpdateError::DownloadError(
            "Download request failed with status: 416 Range Not Satisfiable".to_string()
        ))
    );
    assert_eq!(
        step(requesting(0), DownloadEvent::FetchAnswered { status: 503 }),
        failure(UpdateError::DownloadError(
            "Download request failed with status: 503 Service Unavailable".to_string()
        ))
    );
}

#[test]
fn destination_that_cannot_be_opened_is_an_io_error() {
    assert_eq!(
        step(
            DownloadStage::Opening { mode: WriteMode::Append },
            DownloadEvent::OpenFailed("Read-only file system (os error 30)".to_string())
        ),
        failure(UpdateError::FileIOError(
            "Failed to create destination file \"/var/dl/app-5.zip\": Read-only file system (os error 30)"
                .to_string()
        ))
    );
}

#[test]
fn chunks_are_written_as_they_arrive() {
    assert_eq!(
        step(DownloadStage::Opening { mode: WriteMode::Truncate }, DownloadEvent::Opened),
        (DownloadStage::Receiving, DownloadAction::AwaitChunk)
    );
    assert_eq!(
        step(DownloadStage::Receiving, DownloadEvent::ChunkReceived),
        (DownloadStage::Writing, DownloadAction::WriteChunk)
    );
    assert_eq!(
        step(DownloadStage::Writing, DownloadEvent::ChunkWritten),
        (DownloadStage::Receiving, DownloadAction::AwaitChunk)
    );
    assert_eq!(
        step(DownloadStage::Receiving, DownloadEvent::StreamEnded),
        (DownloadStage::Finished, DownloadAction::Finish(Ok(())))
    );
}

#[test]
fn chunk_that_cannot_be_written_is_an_io_error() {
    assert_eq!(
        step(DownloadStage::Writing, DownloadEvent::WriteFailed("No space left on device".to_string())),
        failure(UpdateError::FileIOError(
            "Failed to write chunk to file: No space left on device".to_string()
        ))
    );
}

#[test]
fn body_decode_failure_is_a_timeout() {
    assert_eq!(
        step(
            DownloadStage::Receiving,
            DownloadEvent::StreamFailed("error decoding response body".to_string())
        ),
        failure(UpdateError::TimeoutError)
    );
}

#[test]
fn other_stream_failure_is_a_download_error() {
    assert_eq!(
        step(
            DownloadStage::Receiving,
            DownloadEvent::StreamFailed("error decoding response body: eof".to_string())
        ),
        failure(UpdateError::DownloadError(
            "Error reading download stream: error decoding response body: eof".to_string()
        ))
    );
    assert_eq!(
        step(DownloadStage::Receiving, DownloadEvent::StreamFailed("connection reset".to_string())),
        failure(UpdateError::DownloadError(
            "Error reading download stream: connection reset".to_string()
        ))
    );
}

#[test]
fn event_out_of_order_ends_the_transfer() {
    let expected = failure(UpdateError::DownloadError("Download event out of order".to_string()));
    assert_eq!(step(DownloadStage::Probing, DownloadEvent::Opened), expected);
    assert_eq!(step(DownloadStage::Finished, DownloadEvent::StreamEnded), expected);
    assert_eq!(step(DownloadStage::Writing, DownloadEvent::ChunkReceived), expected);
    assert_eq!(step(requesting(0), DownloadEvent::LocalSize(Some(1))), expected);
}

#[test]
fn whole_transfer_of_a_fresh_file() {
    let api = downloader();
    let path = "/var/dl/app-5.zip";
    let events = vec![
        DownloadEvent::DirectoryReady,
        DownloadEvent::ProbeAnswered {
            status: 200,
            content_length: Some("12".to_string()),
            accept_ranges: Some("bytes".to_string()),
        },
        DownloadEvent::LocalSize(None),
        DownloadEvent::FetchAnswered { status: 200 },
        DownloadEvent::Opened,
        DownloadEvent::ChunkReceived,
        DownloadEvent::ChunkWritten,
        DownloadEvent::ChunkReceived,
        DownloadEvent::ChunkWritten,
        DownloadEvent::StreamEnded,
    ];
    let (mut stage, first) = DownloadStage::start();
    let mut actions = vec![first];
    for event in events {
        let (next, action) = api.download_update(path, stage, event);
        stage = next;
        actions.push(action);
    }
    assert_eq!(stage, DownloadStage::Finished);
    assert_eq!(
        actions,
        vec![
            DownloadAction::EnsureDirectory,
            DownloadAction::Probe,
            DownloadAction::MeasureLocal,
            DownloadAction::Fetch { range: None },
            DownloadAction::Open(WriteMode::Truncate),
            DownloadAction::AwaitChunk,
            DownloadAction::WriteChunk,
            DownloadAction::AwaitChunk,
            DownloadAction::WriteChunk,
            DownloadAction::AwaitChunk,
            DownloadAction::Finish(Ok(())),
        ]
    );
}

#[test]
fn download_state_knows_when_it_is_complete() {
    let state = |total_size, local_offset| DownloadState { total_size, range_supported: false, local_offset };
    assert!(state(Some(10), 10).complete());
    assert!(state(Some(10), 11).complete());
    assert!(!state(Some(10), 9).complete());
    assert!(!state(Some(0), 0).complete());
    assert!(!state(Some(0), 5).complete());
    assert!(!state(None, 5).complete());
}

#[test]
fn announced_size_is_a_plain_decimal() {
    assert_eq!(read_announced_size(&Some("1048576".to_string())), Some(1048576));
    assert_eq!(read_announced_size(&Some("+5".to_string())), Some(5));
    assert_eq!(read_announced_size(&Some("0".to_string())), Some(0));
    assert_eq!(read_announced_size(&Some(" 5".to_string())), None);
    assert_eq!(read_announced_size(&Some("-5".to_string())), None);
    assert_eq!(read_announced_size(&Some("".to_string())), None);
    assert_eq!(read_announced_size(&Some("18446744073709551616".to_string())), None);
    assert_eq!(read_announced_size(&None), None);
}

#[test]
fn range_support_needs_the_word_bytes() {
    assert!(read_announces_ranges(&Some("bytes".to_string())));
    assert!(read_announces_ranges(&Some("none, bytes".to_string())));
    assert!(!read_announces_ranges(&Some("none".to_string())));
    assert!(!read_announces_ranges(&Some("Bytes".to_string())));
    assert!(!read_announces_ranges(&None));
}

#[test]
fn range_header_asks_from_the_offset_on() {
    assert_eq!(range_header(0), "bytes=0-");
    assert_eq!(range_header(1024), "bytes=1024-");
    assert_eq!(range_header(u64::MAX), "bytes=18446744073709551615-");
}
