//! The two request URLs of the update endpoint, built from the base address,
//! the channel, the platform table and the version number.

use vstd::prelude::*;
use crate::numbers::{dec_chars, format_version};
use crate::platform::{filename_chars, get_os_specifics, prefix_chars, Platform};

verus! {

/// The fixed base address of the update endpoint.
pub open spec fn base_url_chars() -> Seq<char> {
    "https://cm.topc.at"@
}

/// The URL that reports the newest version of a channel:
/// `<base>/<channel>`.
pub open spec fn version_url_chars(channel: Seq<char>) -> Seq<char> {
    base_url_chars() + "/"@ + channel
}

/// The URL of the release archive for one platform and version:
/// `<base>/<prefix><version>/<filename>`.
pub open spec fn archive_url_chars(p: Platform, version: int) -> Seq<char> {
    base_url_chars() + "/"@ + prefix_chars(p) + dec_chars(version) + "/"@ + filename_chars(p)
}

/// Builds the version-request URL for a channel.
pub fn version_url(channel: &str) -> (r: String)
    ensures
        r@ == version_url_chars(channel@),
{
    let mut url = String::from_str("https://cm.topc.at");
    url.append("/");
    url.append(channel);
    proof {
        assert(url@ =~= version_url_chars(channel@));
    }
    url
}

/// Builds the archive-download URL for a platform and version.
pub fn download_url(p: Platform, version: i32) -> (r: String)
    ensures
        r@ == archive_url_chars(p, version as int),
{
    let specifics = get_os_specifics(p);
    let mut url = String::from_str("https://cm.topc.at");
    url.append("/");
    url.append(specifics.0.as_str());
    let digits = format_version(version);
    url.append(digits.as_str());
    url.append("/");
    url.append(specifics.1.as_str());
    proof {
        assert(url@ =~= archive_url_chars(p, version as int));
    }
    url
}

} // verus!
