use channel_proxy::config::Config;
use channel_proxy::coordinator::{Coordinator, TriggerOutcome};
use channel_proxy::errors::{AppError, ExitStatus};
use channel_proxy::job::{
    build_result, download_result, event_matches_phase, extract_result, step,
    validate_unpack_listing, Action, Event, JobPaths, Phase,
};
use channel_proxy::store::ArtifactStore;

fn no_build_config() -> Config {
    Config::from_settings(
        Some("https://example.test/channel".to_string()),
        Some("/var/lib/artifact.tar.xz".to_string()),
        None,
    )
}

fn build_config() -> Config {
    Config::from_settings(
        Some("https://example.test/channel".to_string()),
        Some("/var/lib/artifact.tar.xz".to_string()),
        Some("(import <nixpkgs> {}).hello".to_string()),
    )
}

#[test]
fn job_paths_layout() {
    let paths = JobPaths::new("/tmp/job7".to_string());
    assert_eq!(paths.tmp_dir, "/tmp/job7");
    assert_eq!(paths.archive_path, "/tmp/job7/nixexprs.tar.xz");
    assert_eq!(paths.unpack_dir, "/tmp/job7/unpack");
}

#[test]
fn run_without_build_expression_publishes_download() {
    let cfg = no_build_config();
    let paths = JobPaths::new("/tmp/job1".to_string());

    let (phase, action) = step(&cfg, &paths, Phase::Ready, Event::Start);
    assert!(matches!(phase, Phase::Fetching));
    match &action {
        Action::Fetch { url, dest } => {
            assert_eq!(url, "https://example.test/channel/nixexprs.tar.xz");
            assert_eq!(dest, "/tmp/job1/nixexprs.tar.xz");
        }
        _ => panic!("expected a fetch action"),
    }

    let (phase, action) = step(&cfg, &paths, phase, Event::Fetched { result: Ok(()) });
    assert!(matches!(phase, Phase::Publishing));
    match &action {
        Action::Publish { src, dest } => {
            assert_eq!(src, "/tmp/job1/nixexprs.tar.xz");
            assert_eq!(dest, "/var/lib/artifact.tar.xz");
        }
        _ => panic!("expected a publish action: the build stage must be skipped"),
    }

    let (phase, action) = step(&cfg, &paths, phase, Event::Published { result: Ok(()) });
    assert!(matches!(action, Action::Cleanup));
    assert!(matches!(phase, Phase::Finished { result: Ok(()) }));
}

#[test]
fn run_with_build_expression_unpacks_and_builds() {
    let cfg = build_config();
    let paths = JobPaths::new("/tmp/job2".to_string());

    let (phase, _action) = step(&cfg, &paths, Phase::Ready, Event::Start);
    let (phase, action) = step(&cfg, &paths, phase, Event::Fetched { result: Ok(()) });
    match &action {
        Action::Unpack { archive, dest_dir } => {
            assert_eq!(archive, "/tmp/job2/nixexprs.tar.xz");
            assert_eq!(dest_dir, "/tmp/job2/unpack");
        }
        _ => panic!("expected an unpack action"),
    }

    let root = "/tmp/job2/unpack/nixos-19.03".to_string();
    let (phase, action) = step(&cfg, &paths, phase, Event::Unpacked { result: Ok(root) });
    match &action {
        Action::Build { root, expression } => {
            assert_eq!(root, "/tmp/job2/unpack/nixos-19.03");
            assert_eq!(expression, "(import <nixpkgs> {}).hello");
        }
        _ => panic!("expected a build action"),
    }

    let (phase, action) = step(&cfg, &paths, phase, Event::Built { result: Ok(()) });
    match &action {
        Action::Publish { src, dest } => {
            assert_eq!(src, "/tmp/job2/nixexprs.tar.xz");
            assert_eq!(dest, "/var/lib/artifact.tar.xz");
        }
        _ => panic!("expected a publish action"),
    }

    let (phase, action) = step(&cfg, &paths, phase, Event::Published { result: Ok(()) });
    assert!(matches!(action, Action::Cleanup));
    assert!(matches!(phase, Phase::Finished { result: Ok(()) }));
}

#[test]
fn failed_fetch_ends_the_job() {
    let cfg = no_build_config();
    let paths = JobPaths::new("/tmp/job3".to_string());
    let (phase, _action) = step(&cfg, &paths, Phase::Ready, Event::Start);
    let err = AppError::DownloadStatus {
        url: "https://example.test/channel/nixexprs.tar.xz".to_string(),
        dest: "/tmp/job3/nixexprs.tar.xz".to_string(),
        status: ExitStatus { code: Some(22) },
    };
    let (phase, action) = step(&cfg, &paths, phase, Event::Fetched { result: Err(err) });
    assert!(matches!(action, Action::Cleanup));
    assert!(matches!(
        phase,
        Phase::Finished { result: Err(AppError::DownloadStatus { .. }) }
    ));
}

#[test]
fn unpack_listing_with_no_entry_is_too_few() {
    let entries: Vec<String> = Vec::new();
    let r = validate_unpack_listing("/tmp/job4/unpack", &entries);
    match r {
        Err(AppError::TooFewEntries { dir }) => assert_eq!(dir, "/tmp/job4/unpack"),
        _ => panic!("expected the too-few-entries error"),
    }
}

#[test]
fn unpack_listing_with_two_entries_is_too_many() {
    let entries = vec![
        "/tmp/job4/unpack/a".to_string(),
        "/tmp/job4/unpack/b".to_string(),
    ];
    let r = validate_unpack_listing("/tmp/job4/unpack", &entries);
    match r {
        Err(AppError::TooManyEntries { dir }) => assert_eq!(dir, "/tmp/job4/unpack"),
        _ => panic!("expected the too-many-entries error"),
    }
}

#[test]
fn unpack_listing_with_one_entry_names_the_root() {
    let entries = vec!["/tmp/job4/unpack/nixos-19.03".to_string()];
    let r = validate_unpack_listing("/tmp/job4/unpack", &entries);
    assert_eq!(r.ok().as_deref(), Some("/tmp/job4/unpack/nixos-19.03"));
}

#[test]
fn entry_count_failure_leaves_artifact_unchanged() {
    let cfg = build_config();
    let paths = JobPaths::new("/tmp/job5".to_string());
    let mut store = ArtifactStore::new();
    store.publish(vec![1, 2, 3]);

    let (phase, _action) = step(&cfg, &paths, Phase::Ready, Event::Start);
    let (phase, _action) = step(&cfg, &paths, phase, Event::Fetched { result: Ok(()) });
    let entries: Vec<String> = Vec::new();
    let unpack = validate_unpack_listing("/tmp/job5/unpack", &entries);
    let err = unpack.err().expect("an empty unpack directory is rejected");
    let (phase, action) = step(&cfg, &paths, phase, Event::Unpacked { result: Err(err) });
    assert!(matches!(action, Action::Cleanup));
    assert!(matches!(
        phase,
        Phase::Finished { result: Err(AppError::TooFewEntries { .. }) }
    ));
    assert_eq!(store.read().map(|b| b.as_slice()), Some([1u8, 2, 3].as_slice()));
}

#[test]
fn failed_build_leaves_artifact_unchanged() {
    let cfg = build_config();
    let paths = JobPaths::new("/tmp/job6".to_string());
    let mut store = ArtifactStore::new();
    store.publish(vec![9, 9, 9]);

    let (phase, _action) = step(&cfg, &paths, Phase::Ready, Event::Start);
    let (phase, _action) = step(&cfg, &paths, phase, Event::Fetched { result: Ok(()) });
    let root = "/tmp/job6/unpack/nixos-19.03".to_string();
    let (phase, _action) = step(&cfg, &paths, phase, Event::Unpacked { result: Ok(root) });
    let err = build_result(ExitStatus { code: Some(100) }).err().unwrap();
    let (phase, action) = step(&cfg, &paths, phase, Event::Built { result: Err(err) });
    assert!(matches!(action, Action::Cleanup));
    assert!(matches!(
        phase,
        Phase::Finished { result: Err(AppError::BuildStatus { .. }) }
    ));
    assert_eq!(store.read().map(|b| b.as_slice()), Some([9u8, 9, 9].as_slice()));
}

#[test]
fn failed_publish_ends_the_job_with_the_rename_error() {
    let cfg = no_build_config();
    let paths = JobPaths::new("/tmp/job8".to_string());
    let (phase, _action) = step(&cfg, &paths, Phase::Ready, Event::Start);
    let (phase, _action) = step(&cfg, &paths, phase, Event::Fetched { result: Ok(()) });
    let err = AppError::Rename {
        src: "/tmp/job8/nixexprs.tar.xz".to_string(),
        dest: "/var/lib/artifact.tar.xz".to_string(),
        cause: "cross-device link".to_string(),
    };
    let (phase, action) = step(&cfg, &paths, phase, Event::Published { result: Err(err) });
    assert!(matches!(action, Action::Cleanup));
    assert!(matches!(
        phase,
        Phase::Finished { result: Err(AppError::Rename { .. }) }
    ));
}

#[test]
fn stage_outcome_mappings() {
    assert!(download_result("u", "d", ExitStatus { code: Some(0) }).is_ok());
    match download_result("u", "d", ExitStatus { code: Some(6) }) {
        Err(AppError::DownloadStatus { url, dest, status }) => {
            assert_eq!(url, "u");
            assert_eq!(dest, "d");
            assert_eq!(status.code, Some(6));
        }
        _ => panic!("a non-zero exit must be a download-status error"),
    }
    assert!(extract_result("f", "d", ExitStatus { code: Some(0) }).is_ok());
    assert!(matches!(
        extract_result("f", "d", ExitStatus { code: None }),
        Err(AppError::ExtractStatus { .. })
    ));
    assert!(build_result(ExitStatus { code: Some(0) }).is_ok());
    assert!(matches!(
        build_result(ExitStatus { code: Some(1) }),
        Err(AppError::BuildStatus { .. })
    ));
}

#[test]
fn event_phase_fit_is_checked() {
    let ready = Phase::Ready;
    assert!(event_matches_phase(&ready, &Event::Start));
    assert!(!event_matches_phase(&ready, &Event::Fetched { result: Ok(()) }));
    let fetching = Phase::Fetching;
    assert!(event_matches_phase(&fetching, &Event::Fetched { result: Ok(()) }));
    assert!(!event_matches_phase(&fetching, &Event::Start));
    let done = Phase::Finished { result: Ok(()) };
    assert!(!event_matches_phase(&done, &Event::Published { result: Ok(()) }));
}

#[test]
fn two_triggers_start_exactly_one_job() {
    let mut coord = Coordinator::new();
    let first = coord.trigger();
    let second = coord.trigger();
    assert!(matches!(first, TriggerOutcome::Started));
    assert!(matches!(second, TriggerOutcome::Coalesced));
    assert!(coord.in_flight);

    coord.finish(Ok(()));
    assert!(!coord.in_flight);
    assert!(matches!(coord.last_outcome, Some(Ok(()))));
    let third = coord.trigger();
    assert!(matches!(third, TriggerOutcome::Started));
}

#[test]
fn republishing_identical_bytes_changes_nothing() {
    let data = vec![42u8; 16];
    let mut once = ArtifactStore::new();
    once.publish(data.clone());
    let mut twice = ArtifactStore::new();
    twice.publish(data.clone());
    twice.publish(data.clone());
    assert_eq!(once.read(), twice.read());
    assert_eq!(twice.read().map(|b| b.len()), Some(16));
}

#[test]
fn store_reads_complete_content() {
    let mut store = ArtifactStore::new();
    assert!(store.read().is_none());
    store.publish(vec![1, 2, 3, 4]);
    assert_eq!(store.read().map(|b| b.as_slice()), Some([1u8, 2, 3, 4].as_slice()));
    store.publish(vec![5, 6]);
    assert_eq!(store.read().map(|b| b.as_slice()), Some([5u8, 6].as_slice()));
}
