//! The two host-environment lookups: the user's home directory and the
//! iCloud Drive directory expected under it.
//!
//! Where the home directory lies is the host's to answer, through the
//! `dirs` crate; whether the iCloud directory is present on disk is probed
//! by the caller. Everything decided from those answers is verified here.

use vstd::prelude::*;

use crate::paths::join_path;
use crate::paths::join_spec;

verus! {

/// Relies on `dirs::home_dir`, which looks the user's home directory up in
/// the host environment. Nothing is promised of the value it reports.
#[verifier::external_body]
fn host_home_dir() -> (r: Option<String>) {
    match dirs::home_dir() {
        Some(p) => Some(p.to_string_lossy().into_owned()),
        None => None,
    }
}

/// The reply of the home-directory handler for a reported home: the
/// directory itself, or a fixed error when the host reported none.
pub fn home_dir_result(home: Option<String>) -> (r: Result<String, String>)
    ensures
        (match r {
            Ok(h) => home is Some && h@ == home.unwrap()@,
            Err(msg) => home is None && msg@ == "Could not find home directory"@,
        }),
{
    match home {
        Some(h) => Ok(h),
        None => Err("Could not find home directory".to_owned()),
    }
}

/// The home-directory handler: asks the host and replies with what it
/// reported, or with a fixed error when it reported no home directory.
pub fn get_home_dir() -> (r: Result<String, String>)
    ensures
        (match r {
            Ok(_) => true,
            Err(msg) => msg@ == "Could not find home directory"@,
        }),
{
    home_dir_result(host_home_dir())
}

/// Where iCloud Drive would lie under a reported home directory: the fixed
/// relative path joined onto it; a fixed error when no home was reported.
pub fn icloud_candidate(home: Option<String>) -> (r: Result<String, String>)
    ensures
        (match r {
            Ok(p) => home is Some && p@ == join_spec(
                home.unwrap()@,
                "Library/Mobile Documents/com~apple~CloudDocs"@,
            ),
            Err(msg) => home is None && msg@ == "No home dir"@,
        }),
{
    match home {
        Some(h) => Ok(join_path(h.as_str(), "Library/Mobile Documents/com~apple~CloudDocs")),
        None => Err("No home dir".to_owned()),
    }
}

/// Asks the host for the home directory and replies with the path iCloud
/// Drive would lie at under it, for the caller to probe on disk.
pub fn get_icloud_candidate() -> (r: Result<String, String>)
    ensures
        (match r {
            Ok(p) => exists|h: Seq<char>|
                p@ == join_spec(h, "Library/Mobile Documents/com~apple~CloudDocs"@),
            Err(msg) => msg@ == "No home dir"@,
        }),
{
    let home = host_home_dir();
    let r = icloud_candidate(home);
    proof {
        if r is Ok {
            assert(r->Ok_0@ == join_spec(
                home.unwrap()@,
                "Library/Mobile Documents/com~apple~CloudDocs"@,
            ));
        }
    }
    r
}

/// The reply of the iCloud handler once the candidate path has been probed:
/// the path itself when the directory is present, a fixed error otherwise.
pub fn icloud_result(path: String, present: bool) -> (r: Result<String, String>)
    ensures
        (match r {
            Ok(p) => present && p@ == path@,
            Err(msg) => !present && msg@ == "iCloud Drive not found"@,
        }),
{
    if present {
        Ok(path)
    } else {
        Err("iCloud Drive not found".to_owned())
    }
}

} // verus!
