use cm_launcher::errors::UpdateError;
use cm_launcher::numbers::{format_version, parse_version};
use cm_launcher::platform::{get_os_specifics, Platform};
use cm_launcher::urls::{download_url, version_url};

#[test]
fn platform_table_windows() {
    let (prefix, filename) = get_os_specifics(Platform::Windows);
    assert_eq!(prefix, "win/");
    assert_eq!(filename, "Win64.zip");
}

#[test]
fn platform_table_macos() {
    let (prefix, filename) = get_os_specifics(Platform::MacOs);
    assert_eq!(prefix, "osx/");
    assert_eq!(filename, "MacOS.tar.gz");
}

#[test]
fn platform_table_other_takes_nix_row() {
    let (prefix, filename) = get_os_specifics(Platform::Other);
    assert_eq!(prefix, "nix/");
    assert_eq!(filename, "Linux.tar.gz");
}

#[test]
fn parse_plain_number() {
    assert_eq!(parse_version("42"), Ok(42));
}

#[test]
fn parse_signed_numbers() {
    assert_eq!(parse_version("-1"), Ok(-1));
    assert_eq!(parse_version("+7"), Ok(7));
    assert_eq!(parse_version("007"), Ok(7));
    assert_eq!(parse_version("0"), Ok(0));
}

#[test]
fn parse_non_numeric_body_is_format_error() {
    assert_eq!(parse_version("latest"), Err(UpdateError::Format));
}

#[test]
fn parse_rejects_malformed_text() {
    assert_eq!(parse_version(""), Err(UpdateError::Format));
    assert_eq!(parse_version("-"), Err(UpdateError::Format));
    assert_eq!(parse_version("+"), Err(UpdateError::Format));
    assert_eq!(parse_version(" 42"), Err(UpdateError::Format));
    assert_eq!(parse_version("42 "), Err(UpdateError::Format));
    assert_eq!(parse_version("4.2"), Err(UpdateError::Format));
    assert_eq!(parse_version("--7"), Err(UpdateError::Format));
}

#[test]
fn parse_respects_version_range() {
    assert_eq!(parse_version("2147483647"), Ok(2147483647));
    assert_eq!(parse_version("2147483648"), Err(UpdateError::Format));
    assert_eq!(parse_version("-2147483648"), Ok(-2147483648));
    assert_eq!(parse_version("-2147483649"), Err(UpdateError::Format));
    assert_eq!(parse_version("99999999999999999999"), Err(UpdateError::Format));
}

#[test]
fn format_renders_decimal_text() {
    assert_eq!(format_version(0), "0");
    assert_eq!(format_version(7), "7");
    assert_eq!(format_version(-1), "-1");
    assert_eq!(format_version(1234567), "1234567");
    assert_eq!(format_version(-2147483648), "-2147483648");
}

#[test]
fn format_then_parse_round_trips() {
    for v in [0, 1, -1, 7, 42, 2147483647, -2147483648] {
        assert_eq!(parse_version(&format_version(v)), Ok(v));
    }
}

#[test]
fn version_url_appends_channel() {
    assert_eq!(version_url("stable"), "https://cm.topc.at/stable");
    assert_eq!(version_url("dev"), "https://cm.topc.at/dev");
}

#[test]
fn download_url_holds_version_once() {
    let url = download_url(Platform::Other, 7);
    assert_eq!(url, "https://cm.topc.at/nix/7/Linux.tar.gz");
    assert_eq!(url.matches('7').count(), 1);
    assert_eq!(
        download_url(Platform::Windows, 42),
        "https://cm.topc.at/win/42/Win64.zip"
    );
    assert_eq!(
        download_url(Platform::MacOs, 13),
        "https://cm.topc.at/osx/13/MacOS.tar.gz"
    );
}

#[test]
fn error_messages_are_distinct() {
    let network = UpdateError::Network.message();
    let format = UpdateError::Format.message();
    let local = UpdateError::LocalIo.message();
    assert!(!network.is_empty() && !format.is_empty() && !local.is_empty());
    assert_ne!(network, format);
    assert_ne!(network, local);
    assert_ne!(format, local);
}
