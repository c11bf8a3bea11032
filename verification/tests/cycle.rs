use embedded_updater::api_client::{ApiClient, UpdateInfo};
use embedded_updater::archive::{unzip_update, ArchiveSource};
use embedded_updater::config::Config;
use embedded_updater::cycle::{
    downloaded_report, extracted_report, failed_report, plan_update, run_update_cycle,
    updated_report, CycleAction, CycleEvent, CycleOutcome, CycleState, UpdateJob,
    DEFAULT_POLL_INTERVAL_SECONDS, FAST_RETRY_INTERVAL_SECONDS,
};
use embedded_updater::download::{DownloadAction, DownloadEvent, DownloadStage};
use embedded_updater::error::UpdateError;

fn settings(poll_interval_seconds: u64) -> Config {
    Config {
        service_name: "svc".to_string(),
        current_version_file: "/etc/svc/version".to_string(),
        update_check_api_url: "https://cp/check".to_string(),
        status_report_api_url: "https://cp/status".to_string(),
        poll_interval_seconds,
        download_base_dir: "/var/dl".to_string(),
        decryption_key_hex: String::new(),
        update_script_name: "install.sh".to_string(),
        device_token: "token".to_string(),
        db_password: "secret".to_string(),
    }
}

fn offer(version_code: i32) -> UpdateInfo {
    UpdateInfo { version_code, file_url: "https://cdn/files/app-5".to_string() }
}

fn job_3_to_5() -> UpdateJob {
    UpdateJob {
        current_version: 3,
        version_code: 5,
        file_url: "https://cdn/files/app-5".to_string(),
        archive_path: "/var/dl/app-5.zip".to_string(),
        extract_dir: "/var/dl/app-5".to_string(),
        script_path: "/var/dl/app-5/install.sh".to_string(),
    }
}

fn drive(cfg: &mut Config, current_version: i32, events: Vec<CycleEvent>) -> (CycleState, Vec<CycleAction>) {
    let (mut state, first) = CycleState::start(current_version);
    let mut actions = vec![first];
    for event in events {
        let (next, action) = run_update_cycle(cfg, state, event);
        state = next;
        actions.push(action);
    }
    (state, actions)
}

fn reports_of(actions: &[CycleAction]) -> Vec<(i32, String)> {
    let mut reports = Vec::new();
    for action in actions {
        if let CycleAction::Report { version_code, message } = action {
            reports.push((*version_code, message.clone()));
        }
    }
    reports
}

#[test]
fn constants_are_the_documented_delays() {
    assert_eq!(DEFAULT_POLL_INTERVAL_SECONDS, 300);
    assert_eq!(FAST_RETRY_INTERVAL_SECONDS, 1);
}

#[test]
fn plan_names_the_files_after_the_last_segment() {
    assert_eq!(plan_update(&settings(60), 3, offer(5)), job_3_to_5());
}

#[test]
fn successful_update_sends_three_reports_in_order() {
    let mut cfg = settings(60);
    let events = vec![
        CycleEvent::Checked(Ok(offer(5))),
        CycleEvent::Downloaded(Ok(())),
        CycleEvent::Reported,
        CycleEvent::Extracted(Ok(())),
        CycleEvent::Reported,
        CycleEvent::Installed(Ok(())),
        CycleEvent::Reported,
    ];
    let (state, actions) = drive(&mut cfg, 3, events);
    assert_eq!(state, CycleState::Idle);
    assert_eq!(
        actions,
        vec![
            CycleAction::Check,
            CycleAction::Download {
                url: "https://cdn/files/app-5".to_string(),
                destination: "/var/dl/app-5.zip".to_string(),
            },
            CycleAction::Report {
                version_code: 3,
                message: "version 5 downloaded successfully".to_string(),
            },
            CycleAction::Extract {
                archive: "/var/dl/app-5.zip".to_string(),
                destination: "/var/dl/app-5".to_string(),
            },
            CycleAction::Report {
                version_code: 3,
                message: "file 5 is extracted successfully".to_string(),
            },
            CycleAction::Install {
                script: "/var/dl/app-5/install.sh".to_string(),
                working_dir: "/var/dl/app-5".to_string(),
            },
            CycleAction::Report {
                version_code: 3,
                message: "updated successfully from 3 to 5".to_string(),
            },
            CycleAction::Finish(CycleOutcome::Installed),
        ]
    );
    assert_eq!(
        reports_of(&actions),
        vec![
            (3, "version 5 downloaded successfully".to_string()),
            (3, "file 5 is extracted successfully".to_string()),
            (3, "updated successfully from 3 to 5".to_string()),
        ]
    );
    assert_eq!(cfg.poll_interval_seconds, 300);
    assert_eq!(cfg, settings(300));
}

#[test]
fn timed_out_download_ends_the_cycle_with_fast_retry() {
    let mut cfg = settings(300);
    let events =
        vec![CycleEvent::Checked(Ok(offer(5))), CycleEvent::Downloaded(Err(UpdateError::TimeoutError))];
    let (state, actions) = drive(&mut cfg, 3, events);
    assert_eq!(state, CycleState::Idle);
    assert_eq!(actions.last(), Some(&CycleAction::Finish(CycleOutcome::DownloadTimedOut)));
    assert_eq!(reports_of(&actions), Vec::<(i32, String)>::new());
    assert_eq!(cfg.poll_interval_seconds, 1);
    assert_eq!(cfg, settings(1));
}

#[test]
fn failed_download_ends_the_cycle_with_the_default_delay() {
    for error in [
        UpdateError::DownloadError("Download request failed with status: 500".to_string()),
        UpdateError::HeadError("Head request failed with status: 404 Not Found".to_string()),
        UpdateError::FileIOError("Failed to write chunk to file: full".to_string()),
        UpdateError::ApiClientError("error sending request".to_string()),
    ] {
        let mut cfg = settings(1);
        let events = vec![CycleEvent::Checked(Ok(offer(5))), CycleEvent::Downloaded(Err(error))];
        let (state, actions) = drive(&mut cfg, 3, events);
        assert_eq!(state, CycleState::Idle);
        assert_eq!(actions.last(), Some(&CycleAction::Finish(CycleOutcome::DownloadFailed)));
        assert_eq!(reports_of(&actions), Vec::<(i32, String)>::new());
        assert_eq!(cfg.poll_interval_seconds, 300);
    }
}

#[test]
fn failed_extraction_is_cleaned_up_and_nothing_is_installed() {
    let mut cfg = settings(60);
    let events = vec![
        CycleEvent::Checked(Ok(offer(5))),
        CycleEvent::Downloaded(Ok(())),
        CycleEvent::Reported,
        CycleEvent::Extracted(Err(UpdateError::ArchiveError(
            "Failed to extract zipped files: invalid Zip archive".to_string(),
        ))),
        CycleEvent::CleanedUp,
    ];
    let (state, actions) = drive(&mut cfg, 3, events);
    assert_eq!(state, CycleState::Idle);
    assert_eq!(
        &actions[4..],
        &[
            CycleAction::CleanUp {
                archive: "/var/dl/app-5.zip".to_string(),
                directory: "/var/dl/app-5".to_string(),
            },
            CycleAction::Finish(CycleOutcome::ExtractionFailed),
        ]
    );
    assert!(actions.iter().all(|action| !matches!(action, CycleAction::Install { .. })));
    assert_eq!(reports_of(&actions), vec![(3, "version 5 downloaded successfully".to_string())]);
    assert_eq!(cfg.poll_interval_seconds, 300);
}

#[test]
fn every_extraction_failure_is_cleaned_up() {
    let mut cfg = settings(60);
    let (state, action) = run_update_cycle(
        &mut cfg,
        CycleState::Extracting { job: job_3_to_5() },
        CycleEvent::Extracted(Err(UpdateError::ArchiveError(
            "Failed to open zipped files: gone".to_string(),
        ))),
    );
    assert_eq!(state, CycleState::CleaningUp);
    assert_eq!(
        action,
        CycleAction::CleanUp {
            archive: "/var/dl/app-5.zip".to_string(),
            directory: "/var/dl/app-5".to_string(),
        }
    );
    assert_eq!(cfg.poll_interval_seconds, 300);
}

#[test]
fn failed_install_is_reported_with_its_reason() {
    let mut cfg = settings(60);
    let (state, action) = run_update_cycle(
        &mut cfg,
        CycleState::Installing { job: job_3_to_5() },
        CycleEvent::Installed(Err(UpdateError::ScriptError(
            "Update script failed with status: Some(2).\nSTDOUT:\n\nSTDERR:\nno".to_string(),
        ))),
    );
    assert_eq!(state, CycleState::ReportingOutcome { outcome: CycleOutcome::InstallFailed });
    assert_eq!(
        action,
        CycleAction::Report {
            version_code: 3,
            message: "update 5 failed: Update script failed with status: Some(2).\nSTDOUT:\n\nSTDERR:\nno"
                .to_string(),
        }
    );
    assert_eq!(cfg.poll_interval_seconds, 300);
    let (state, action) = run_update_cycle(&mut cfg, state, CycleEvent::Reported);
    assert_eq!(state, CycleState::Idle);
    assert_eq!(action, CycleAction::Finish(CycleOutcome::InstallFailed));
    assert_eq!(cfg.poll_interval_seconds, 300);
}

#[test]
fn equal_or_lower_offer_is_a_no_op() {
    for (current, offered) in [(5, 5), (5, 4), (0, 0), (0, -1), (i32::MAX, i32::MIN)] {
        for interval in [1u64, 60, 300] {
            let mut cfg = settings(interval);
            let (state, actions) = drive(&mut cfg, current, vec![CycleEvent::Checked(Ok(offer(offered)))]);
            assert_eq!(state, CycleState::Idle);
            assert_eq!(
                actions,
                vec![CycleAction::Check, CycleAction::Finish(CycleOutcome::UpToDate)]
            );
            assert_eq!(cfg, settings(interval));
        }
    }
}

#[test]
fn higher_offer_is_fetched() {
    for (current, offered) in [(0, 1), (3, 5), (-1, 0), (i32::MIN, i32::MAX)] {
        let mut cfg = settings(60);
        let (state, actions) = drive(&mut cfg, current, vec![CycleEvent::Checked(Ok(offer(offered)))]);
        assert!(matches!(state, CycleState::Downloading { .. }));
        assert!(matches!(actions[1], CycleAction::Download { .. }));
        assert_eq!(cfg, settings(60));
    }
}

#[test]
fn failed_check_leaves_the_delay_alone() {
    for interval in [1u64, 60, 300] {
        let mut cfg = settings(interval);
        let events = vec![CycleEvent::Checked(Err(UpdateError::ApiRequestFailed {
            status: 503,
            message: "maintenance".to_string(),
        }))];
        let (state, actions) = drive(&mut cfg, 3, events);
        assert_eq!(state, CycleState::Idle);
        assert_eq!(actions, vec![CycleAction::Check, CycleAction::Finish(CycleOutcome::CheckFailed)]);
        assert_eq!(cfg, settings(interval));
    }
}

#[test]
fn cycle_event_out_of_order_ends_the_cycle() {
    let mut cfg = settings(60);
    let (state, action) =
        run_update_cycle(&mut cfg, CycleState::Checking { current_version: 3 }, CycleEvent::Reported);
    assert_eq!(state, CycleState::Idle);
    assert_eq!(action, CycleAction::Finish(CycleOutcome::OutOfOrder));
    assert_eq!(cfg, settings(60));
    let (state, action) = run_update_cycle(&mut cfg, CycleState::Idle, CycleEvent::CleanedUp);
    assert_eq!((state, action), (CycleState::Idle, CycleAction::Finish(CycleOutcome::OutOfOrder)));
}

#[test]
fn report_texts_are_exact() {
    assert_eq!(downloaded_report(5), "version 5 downloaded successfully");
    assert_eq!(extracted_report(-12), "file -12 is extracted successfully");
    assert_eq!(failed_report(7, "no space"), "update 7 failed: no space");
    assert_eq!(updated_report(3, 5), "updated successfully from 3 to 5");
    assert_eq!(updated_report(i32::MIN, i32::MAX), "updated successfully from -2147483648 to 2147483647");
}

#[test]
fn plan_keeps_an_installer_path_that_starts_at_the_root() {
    let mut cfg = settings(60);
    cfg.update_script_name = "/opt/tools/install.sh".to_string();
    cfg.download_base_dir = "/var/dl/".to_string();
    let job = plan_update(&cfg, 1, UpdateInfo { version_code: 2, file_url: "pkg".to_string() });
    assert_eq!(job.archive_path, "/var/dl/pkg.zip");
    assert_eq!(job.extract_dir, "/var/dl/pkg");
    assert_eq!(job.script_path, "/opt/tools/install.sh");
}

#[test]
fn body_decode_failure_mid_transfer_leads_to_fast_retry() {
    let mut cfg = settings(300);
    let api = ApiClient::new(cfg.clone(), "token".to_string());
    let (state, action) = drive(&mut cfg, 3, vec![CycleEvent::Checked(Ok(offer(5)))]);
    let destination = match &action[1] {
        CycleAction::Download { destination, .. } => destination.clone(),
        other => panic!("no download: {:?}", other),
    };
    let transfer = vec![
        DownloadEvent::DirectoryReady,
        DownloadEvent::ProbeAnswered {
            status: 200,
            content_length: Some("4096".to_string()),
            accept_ranges: Some("bytes".to_string()),
        },
        DownloadEvent::LocalSize(Some(1024)),
        DownloadEvent::FetchAnswered { status: 206 },
        DownloadEvent::Opened,
        DownloadEvent::ChunkReceived,
        DownloadEvent::ChunkWritten,
        DownloadEvent::StreamFailed("error decoding response body".to_string()),
    ];
    let (mut stage, mut step) = DownloadStage::start();
    for event in transfer {
        let next = api.download_update(&destination, stage, event);
        stage = next.0;
        step = next.1;
    }
    let downloaded = match step {
        DownloadAction::Finish(result) => result,
        other => panic!("transfer goes on: {:?}", other),
    };
    assert_eq!(downloaded, Err(UpdateError::TimeoutError));
    let (state, last) = run_update_cycle(&mut cfg, state, CycleEvent::Downloaded(downloaded));
    assert_eq!(state, CycleState::Idle);
    assert_eq!(last, CycleAction::Finish(CycleOutcome::DownloadTimedOut));
    assert_eq!(cfg.poll_interval_seconds, 1);
}

#[test]
fn artifact_that_is_no_archive_is_removed_and_not_installed() {
    let mut cfg = settings(1);
    let events =
        vec![CycleEvent::Checked(Ok(offer(5))), CycleEvent::Downloaded(Ok(())), CycleEvent::Reported];
    let (state, actions) = drive(&mut cfg, 3, events);
    let destination = match actions.last() {
        Some(CycleAction::Extract { destination, .. }) => destination.clone(),
        other => panic!("no unpacking: {:?}", other),
    };
    let extracted =
        unzip_update(ArchiveSource::Bytes(b"<html>not found</html>".to_vec()), &destination)
            .map(|_| ());
    assert!(matches!(extracted, Err(UpdateError::ArchiveError(_))));
    let (state, action) = run_update_cycle(&mut cfg, state, CycleEvent::Extracted(extracted));
    assert_eq!(
        action,
        CycleAction::CleanUp {
            archive: "/var/dl/app-5.zip".to_string(),
            directory: "/var/dl/app-5".to_string(),
        }
    );
    let (state, action) = run_update_cycle(&mut cfg, state, CycleEvent::CleanedUp);
    assert_eq!(state, CycleState::Idle);
    assert_eq!(action, CycleAction::Finish(CycleOutcome::ExtractionFailed));
    assert_eq!(cfg.poll_interval_seconds, 300);
}

#[test]
fn artifact_that_cannot_be_read_is_removed_and_not_installed() {
    let mut cfg = settings(60);
    let extracted = unzip_update(
        ArchiveSource::Unreadable("No such file or directory (os error 2)".to_string()),
        "/var/dl/app-5",
    )
    .map(|_| ());
    assert!(matches!(extracted, Err(UpdateError::ArchiveError(_))));
    let (state, action) = run_update_cycle(
        &mut cfg,
        CycleState::Extracting { job: job_3_to_5() },
        CycleEvent::Extracted(extracted),
    );
    assert_eq!(state, CycleState::CleaningUp);
    assert!(matches!(action, CycleAction::CleanUp { .. }));
    let (state, action) = run_update_cycle(&mut cfg, state, CycleEvent::CleanedUp);
    assert_eq!((state, action), (CycleState::Idle, CycleAction::Finish(CycleOutcome::ExtractionFailed)));
    assert_eq!(cfg.poll_interval_seconds, 300);
}
