use cm_launcher::errors::UpdateError;
use cm_launcher::pipeline::{step, Action, Config, Event, State, VersionRequest};
use cm_launcher::platform::Platform;

fn config() -> Config {
    Config {
        platform: Platform::Other,
        channel: String::from("stable"),
        version: VersionRequest::Latest,
        keep_download_file: false,
        verbose: false,
    }
}

fn gzip(bytes: &[u8]) -> Vec<u8> {
    let mut encoder = flate2::write::GzEncoder::new(Vec::new(), flate2::Compression::default());
    std::io::Write::write_all(&mut encoder, bytes).unwrap();
    encoder.finish().unwrap()
}

fn fixture_archive() -> Vec<u8> {
    let data = b"binary";
    let mut header = tar::Header::new_gnu();
    header.set_size(data.len() as u64);
    header.set_mode(0o755);
    header.set_cksum();
    let mut builder = tar::Builder::new(Vec::new());
    builder
        .append_data(&mut header, "chromapper/ChroMapper", &data[..])
        .unwrap();
    gzip(&builder.into_inner().unwrap())
}

#[test]
fn latest_request_asks_the_channel_endpoint() {
    let cfg = config();
    let (state, action) = step(&cfg, State::Start, Event::Begin);
    assert_eq!(state, State::FetchingVersion);
    assert_eq!(
        action,
        Action::GetText { url: String::from("https://cm.topc.at/stable") }
    );
}

#[test]
fn stubbed_body_42_resolves_version_42() {
    let cfg = config();
    let event = Event::TextResponse { status: 200, body: String::from("42") };
    let (state, action) = step(&cfg, State::FetchingVersion, event);
    assert_eq!(state, State::FetchingArchive { version: 42 });
    assert_eq!(
        action,
        Action::GetBytes { url: String::from("https://cm.topc.at/nix/42/Linux.tar.gz") }
    );
}

#[test]
fn non_numeric_body_aborts_before_any_download() {
    let cfg = config();
    let event = Event::TextResponse { status: 200, body: String::from("latest") };
    let (state, action) = step(&cfg, State::FetchingVersion, event);
    assert_eq!(state, State::Failed { error: UpdateError::Format });
    assert_eq!(action, Action::Finish { error: Some(UpdateError::Format) });
}

#[test]
fn version_transport_failure_is_a_network_error() {
    let cfg = config();
    let (state, action) = step(&cfg, State::FetchingVersion, Event::TransportFailed);
    assert_eq!(state, State::Failed { error: UpdateError::Network });
    assert_eq!(action, Action::Finish { error: Some(UpdateError::Network) });
}

#[test]
fn version_error_status_is_a_network_error() {
    let cfg = config();
    let event = Event::TextResponse { status: 404, body: String::from("42") };
    let (state, action) = step(&cfg, State::FetchingVersion, event);
    assert_eq!(state, State::Failed { error: UpdateError::Network });
    assert_eq!(action, Action::Finish { error: Some(UpdateError::Network) });
}

#[test]
fn archive_status_503_fails_and_extraction_is_never_invoked() {
    let cfg = config();
    let event = Event::BytesResponse { status: 503, body: vec![1, 2, 3] };
    let (state, action) = step(&cfg, State::FetchingArchive { version: 7 }, event);
    assert_eq!(state, State::Failed { error: UpdateError::Network });
    assert_eq!(action, Action::Finish { error: Some(UpdateError::Network) });
    let (state, action) = step(&cfg, state, Event::FileDeleted);
    assert_eq!(state, State::Failed { error: UpdateError::Network });
    assert_eq!(action, Action::Hold);
}

#[test]
fn explicit_version_skips_the_version_resolver() {
    let mut cfg = config();
    cfg.version = VersionRequest::Explicit(7);
    let (state, action) = step(&cfg, State::Start, Event::Begin);
    assert_eq!(state, State::FetchingArchive { version: 7 });
    let url = match action {
        Action::GetBytes { url } => url,
        other => panic!("expected an archive request, got {:?}", other),
    };
    assert_eq!(url, "https://cm.topc.at/nix/7/Linux.tar.gz");
    assert_eq!(url.matches('7').count(), 1);
}

#[test]
fn successful_run_without_retention_deletes_the_download() {
    let cfg = config();
    let archive = fixture_archive();

    let (state, action) = step(&cfg, State::Start, Event::Begin);
    assert_eq!(state, State::FetchingVersion);
    assert!(matches!(action, Action::GetText { .. }));

    let event = Event::TextResponse { status: 200, body: String::from("7") };
    let (state, action) = step(&cfg, state, event);
    assert_eq!(state, State::FetchingArchive { version: 7 });
    assert!(matches!(action, Action::GetBytes { .. }));

    let event = Event::BytesResponse { status: 200, body: archive.clone() };
    let (state, action) = step(&cfg, state, event);
    assert_eq!(state, State::SavingArchive);
    assert_eq!(
        action,
        Action::SaveArchive { path: String::from("download.tar.gz"), bytes: archive.clone() }
    );

    let (state, action) = step(&cfg, state, Event::Saved { ok: true });
    assert_eq!(state, State::PreparingDir);
    assert_eq!(action, Action::RemoveDir { path: String::from("chromapper") });

    let (state, action) = step(&cfg, state, Event::DirRemoved);
    assert_eq!(state, State::LoadingArchive);
    assert_eq!(action, Action::LoadArchive { path: String::from("download.tar.gz") });

    let event = Event::ArchiveLoaded { bytes: Some(archive) };
    let (state, action) = step(&cfg, state, event);
    assert_eq!(state, State::WritingEntries);
    let entries = match action {
        Action::WriteEntries { entries } => entries,
        other => panic!("expected entries, got {:?}", other),
    };
    assert_eq!(entries.len(), 1);
    assert_eq!(entries[0].path, "chromapper/ChroMapper");
    assert_eq!(entries[0].mode, 0o755);

    let (state, action) = step(&cfg, state, Event::EntriesWritten { ok: true });
    assert_eq!(state, State::Cleaning);
    assert_eq!(action, Action::DeleteFile { path: String::from("download.tar.gz") });

    let (state, action) = step(&cfg, state, Event::FileDeleted);
    assert_eq!(state, State::Launching);
    assert_eq!(action, Action::Launch { path: String::from("./chromapper/ChroMapper") });

    let (state, action) = step(&cfg, state, Event::Launched { ok: true });
    assert_eq!(state, State::Done);
    assert_eq!(action, Action::Finish { error: None });
}

#[test]
fn retention_flag_keeps_the_download() {
    let mut cfg = config();
    cfg.keep_download_file = true;
    let (state, action) = step(&cfg, State::WritingEntries, Event::EntriesWritten { ok: true });
    assert_eq!(state, State::Launching);
    assert_eq!(action, Action::Launch { path: String::from("./chromapper/ChroMapper") });
}

/// A raw 512-byte tar file header plus padded data, for paths that tar's
/// own builder refuses to write.
fn raw_file_entry(path: &str, data: &[u8]) -> Vec<u8> {
    let mut h = vec![0u8; 512];
    h[..path.len()].copy_from_slice(path.as_bytes());
    h[100..108].copy_from_slice(b"0000644\0");
    h[108..116].copy_from_slice(b"0000000\0");
    h[116..124].copy_from_slice(b"0000000\0");
    let size = format!("{:011o}\0", data.len());
    h[124..136].copy_from_slice(size.as_bytes());
    h[136..148].copy_from_slice(b"00000000000\0");
    h[156] = b'0';
    h[148..156].copy_from_slice(b"        ");
    let sum: u32 = h.iter().map(|b| u32::from(*b)).sum();
    let checksum = format!("{:06o}\0 ", sum);
    h[148..156].copy_from_slice(checksum.as_bytes());
    h.extend_from_slice(data);
    while h.len() % 512 != 0 {
        h.push(0);
    }
    h
}

#[test]
fn unsafe_entries_never_reach_the_write_action() {
    let cfg = config();
    let mut tar_bytes = raw_file_entry("../evil.txt", b"owned");
    tar_bytes.extend(raw_file_entry("chromapper/ok.txt", b"fine"));
    tar_bytes.extend_from_slice(&[0u8; 1024]);
    let archive = gzip(&tar_bytes);
    let event = Event::ArchiveLoaded { bytes: Some(archive) };
    let (state, action) = step(&cfg, State::LoadingArchive, event);
    assert_eq!(state, State::WritingEntries);
    let entries = match action {
        Action::WriteEntries { entries } => entries,
        other => panic!("expected entries, got {:?}", other),
    };
    assert_eq!(entries.len(), 1);
    assert_eq!(entries[0].path, "chromapper/ok.txt");
}

#[test]
fn corrupt_archive_fails_and_cleans_up_the_download() {
    let cfg = config();
    let event = Event::ArchiveLoaded { bytes: Some(vec![0, 1, 2, 3]) };
    let (state, action) = step(&cfg, State::LoadingArchive, event);
    assert_eq!(state, State::CleaningAfterFailure { error: UpdateError::LocalIo });
    assert_eq!(action, Action::DeleteFile { path: String::from("download.tar.gz") });
    let (state, action) = step(&cfg, state, Event::FileDeleted);
    assert_eq!(state, State::Failed { error: UpdateError::LocalIo });
    assert_eq!(action, Action::Finish { error: Some(UpdateError::LocalIo) });
}

#[test]
fn corrupt_archive_with_retention_keeps_the_download() {
    let mut cfg = config();
    cfg.keep_download_file = true;
    let event = Event::ArchiveLoaded { bytes: Some(vec![0, 1, 2, 3]) };
    let (state, action) = step(&cfg, State::LoadingArchive, event);
    assert_eq!(state, State::Failed { error: UpdateError::LocalIo });
    assert_eq!(action, Action::Finish { error: Some(UpdateError::LocalIo) });
}

#[test]
fn save_failure_aborts_with_cleanup() {
    let cfg = config();
    let (state, action) = step(&cfg, State::SavingArchive, Event::Saved { ok: false });
    assert_eq!(state, State::CleaningAfterFailure { error: UpdateError::LocalIo });
    assert_eq!(action, Action::DeleteFile { path: String::from("download.tar.gz") });
}

#[test]
fn launch_failure_is_reported() {
    let cfg = config();
    let (state, action) = step(&cfg, State::Launching, Event::Launched { ok: false });
    assert_eq!(state, State::Failed { error: UpdateError::LocalIo });
    assert_eq!(action, Action::Finish { error: Some(UpdateError::LocalIo) });
}

#[test]
fn terminal_states_hold() {
    let cfg = config();
    let (state, action) = step(&cfg, State::Done, Event::Begin);
    assert_eq!(state, State::Done);
    assert_eq!(action, Action::Hold);
    let failed = State::Failed { error: UpdateError::Network };
    let (state, action) = step(&cfg, failed, Event::Begin);
    assert_eq!(state, failed);
    assert_eq!(action, Action::Hold);
}
