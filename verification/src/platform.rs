//! The platform table: which archive prefix and archive filename the update
//! endpoint serves for each host operating system.

use vstd::prelude::*;

verus! {

/// The three platform variants the update endpoint distinguishes.  Anything
/// that is neither Windows nor macOS takes the `Other` ("nix") row.
#[derive(Clone, Copy, PartialEq, Eq, Structural, Debug)]
pub enum Platform {
    Windows,
    MacOs,
    Other,
}

/// The archive-name prefix of one row of the platform table.
pub open spec fn prefix_chars(p: Platform) -> Seq<char> {
    match p {
        Platform::Windows => "win/"@,
        Platform::MacOs => "osx/"@,
        Platform::Other => "nix/"@,
    }
}

/// The archive filename of one row of the platform table.
pub open spec fn filename_chars(p: Platform) -> Seq<char> {
    match p {
        Platform::Windows => "Win64.zip"@,
        Platform::MacOs => "MacOS.tar.gz"@,
        Platform::Other => "Linux.tar.gz"@,
    }
}

/// Selects the (archive prefix, archive filename) pair for a platform.
pub fn get_os_specifics(p: Platform) -> (r: (String, String))
    ensures
        r.0@ == prefix_chars(p),
        r.1@ == filename_chars(p),
{
    match p {
        Platform::Windows => (String::from_str("win/"), String::from_str("Win64.zip")),
        Platform::MacOs => (String::from_str("osx/"), String::from_str("MacOS.tar.gz")),
        Platform::Other => (String::from_str("nix/"), String::from_str("Linux.tar.gz")),
    }
}

/// Law: the resolver is total and exact.  Every platform maps to exactly one
/// row of the table — its own — and any platform that is neither Windows nor
/// macOS maps to the "nix" row.
pub proof fn lemma_platform_resolution(p: Platform)
    ensures
        prefix_chars(p) == "win/"@ <==> p == Platform::Windows,
        prefix_chars(p) == "osx/"@ <==> p == Platform::MacOs,
        prefix_chars(p) == "nix/"@ <==> (p != Platform::Windows && p != Platform::MacOs),
        filename_chars(p) == "Win64.zip"@ <==> p == Platform::Windows,
        filename_chars(p) == "MacOS.tar.gz"@ <==> p == Platform::MacOs,
        filename_chars(p) == "Linux.tar.gz"@ <==> (p != Platform::Windows && p != Platform::MacOs),
{
    reveal_strlit("win/");
    reveal_strlit("osx/");
    reveal_strlit("nix/");
    reveal_strlit("Win64.zip");
    reveal_strlit("MacOS.tar.gz");
    reveal_strlit("Linux.tar.gz");
    assert("win/"@[0] == 'w' && "osx/"@[0] == 'o' && "nix/"@[0] == 'n');
    assert("Win64.zip"@[0] == 'W' && "MacOS.tar.gz"@[0] == 'M' && "Linux.tar.gz"@[0] == 'L');
}

} // verus!
