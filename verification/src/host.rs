//! What the agent learns from the machine it runs on.
//!
//! Every function here hands one question to the machine back as plain
//! values: its name, its clock, its disks, the directories of its user and
//! the way in which it writes paths.  Their bodies are not verified.  What
//! depends on the machine or on the moment is promised nothing about: the
//! callers are verified for every value that may come back.  The three
//! functions on paths depend on their arguments alone, on the platform that
//! the library is built for; what they give has a name, so that the callers
//! can say which path they made.
//!
//! One of them can panic: `gethostname` panics where the system refuses to
//! tell the name of the host.  None of the others panics on what it is
//! allowed to be given.

use crate::metrics::DiskReading;
use vstd::prelude::*;

verus! {

/// Calls `gethostname::gethostname` and converts the name to text, lossily
/// where it is not valid Unicode.  Nothing is promised of the name.
/// `gethostname` panics where the system call fails, which it does not do on
/// a buffer of the largest size that a name may have.
#[verifier::external_body]
pub(crate) fn system_hostname() -> String {
    gethostname::gethostname().to_string_lossy().to_string()
}

/// Calls `sysinfo::System::boot_time`: the time at which the system booted,
/// in seconds since the Unix epoch.  Nothing is promised of the number.
#[verifier::external_body]
pub(crate) fn system_boot_time() -> u64 {
    sysinfo::System::boot_time()
}

/// Calls `sysinfo::System::uptime`: the seconds for which the system has
/// been up.  Nothing is promised of the number.
#[verifier::external_body]
pub(crate) fn system_uptime() -> u64 {
    sysinfo::System::uptime()
}

/// Reads the clock with `std::time::SystemTime::now` and hands back the whole
/// seconds since the Unix epoch, or `None` where the clock stands before the
/// epoch.  Nothing is promised of the number.
#[verifier::external_body]
pub(crate) fn unix_time_seconds() -> Option<u64> {
    match std::time::SystemTime::now().duration_since(std::time::UNIX_EPOCH) {
        Ok(elapsed) => Some(elapsed.as_secs()),
        Err(_) => None,
    }
}

/// Lists the disks with `sysinfo::Disks::new_with_refreshed_list` and hands
/// each one back as plain values: `Disk::name`, `Disk::mount_point`,
/// `Disk::total_space` and `Disk::available_space`, the two names converted
/// to text lossily.  Nothing is promised of the list.
#[verifier::external_body]
pub(crate) fn disk_readings() -> Vec<DiskReading> {
    sysinfo::Disks::new_with_refreshed_list()
        .list()
        .iter()
        .map(|disk| DiskReading {
            name: disk.name().to_string_lossy().to_string(),
            mount_point: disk.mount_point().to_string_lossy().to_string(),
            total_space: disk.total_space(),
            available_space: disk.available_space(),
        })
        .collect()
}

/// The current time, written out by chrono: the clock is read with
/// `std::time::SystemTime::now`, made a time of day by
/// `chrono::DateTime::from_timestamp` and written out by
/// `DateTime::to_rfc3339`.  There is no text where the clock stands before
/// the Unix epoch or beyond the dates that chrono knows.  Nothing is
/// promised of the text.
#[verifier::external_body]
pub(crate) fn now_rfc3339() -> Option<String> {
    let elapsed = std::time::SystemTime::now().duration_since(std::time::UNIX_EPOCH).ok()?;
    let seconds = i64::try_from(elapsed.as_secs()).ok()?;
    let instant = chrono::DateTime::from_timestamp(seconds, elapsed.subsec_nanos())?;
    Some(instant.to_rfc3339())
}

/// Calls `dirs::config_dir`: the directory for the user's configuration,
/// where the platform names one, converted to text lossily.  It depends on
/// the environment, so nothing is promised of it.
#[verifier::external_body]
pub(crate) fn user_config_dir() -> Option<String> {
    match dirs::config_dir() {
        Some(dir) => Some(dir.to_string_lossy().to_string()),
        None => None,
    }
}

/// Calls `dirs::home_dir`: the home directory of the user, where one can be
/// found, converted to text lossily.  It depends on the environment, so
/// nothing is promised of it.
#[verifier::external_body]
pub(crate) fn user_home_dir() -> Option<String> {
    match dirs::home_dir() {
        Some(dir) => Some(dir.to_string_lossy().to_string()),
        None => None,
    }
}

/// Calls `dirs::cache_dir`: the directory for the user's cached files, where
/// the platform names one, converted to text lossily.  It depends on the
/// environment, so nothing is promised of it.
#[verifier::external_body]
pub(crate) fn user_cache_dir() -> Option<String> {
    match dirs::cache_dir() {
        Some(dir) => Some(dir.to_string_lossy().to_string()),
        None => None,
    }
}

/// What `std::path::Path::join` gives: the path `child` below `base`, as
/// the platform that the library is built for writes it.
pub uninterp spec fn joined_path(base: Seq<char>, child: Seq<char>) -> Seq<char>;

/// What `std::path::Path::parent` gives: the directory that holds `path`,
/// where it has one.
pub uninterp spec fn parent_path(path: Seq<char>) -> Option<Seq<char>>;

/// What `std::path::Path::with_extension` gives: `path` with its extension
/// replaced by `extension`.
pub uninterp spec fn extension_replaced(path: Seq<char>, extension: Seq<char>) -> Seq<char>;

/// `std::path::Path::join`: the path `child` below `base`.  The result
/// depends on the two texts alone and is `joined_path` of them; no more is
/// said of it.
#[verifier::external_body]
pub(crate) fn path_join(base: &str, child: &str) -> (out: String)
    ensures
        out@ == joined_path(base@, child@),
{
    std::path::Path::new(base).join(child).to_string_lossy().to_string()
}

/// `std::path::Path::parent`: the directory that holds `path`, where it has
/// one.  The result depends on the text alone and is `parent_path` of it; no
/// more is said of it.
#[verifier::external_body]
pub(crate) fn path_parent(path: &str) -> (out: Option<String>)
    ensures
        match parent_path(path@) {
            Some(parent) => out is Some && out->0@ == parent,
            None => out is None,
        },
{
    match std::path::Path::new(path).parent() {
        Some(parent) => Some(parent.to_string_lossy().to_string()),
        None => None,
    }
}

/// The characters that separate the parts of a path on some platform.
pub open spec fn is_path_separator(c: char) -> bool {
    c == '/' || c == '\\'
}

/// `std::path::Path::with_extension`: `path` with its extension replaced by
/// `extension`.  The standard library panics on an extension that holds a
/// path separator, so there must be none in it.  The result depends on the
/// two texts alone and is `extension_replaced` of them; no more is said of
/// it.
#[verifier::external_body]
pub(crate) fn path_with_extension(path: &str, extension: &str) -> (out: String)
    requires
        forall|i: int| 0 <= i < extension@.len() ==> !is_path_separator(#[trigger] extension@[i]),
    ensures
        out@ == extension_replaced(path@, extension@),
{
    std::path::Path::new(path).with_extension(extension).to_string_lossy().to_string()
}

} // verus!
