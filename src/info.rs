//! The info page: who and where the process runs, the whitelisted part of
//! its environment, and a snapshot of the machine.
use crate::environment::{exposed_environment, exposed_key, exposed_pairs, pair_view};
use crate::landing::{host_or_unknown, shown_host};
use vstd::prelude::*;
use vstd::string::*;

verus! {

/// Bytes in one mebibyte.
pub const BYTES_PER_MB: u64 = 1024 * 1024;

/// Whole mebibytes in `bytes`, rounded down.
pub fn bytes_to_mb(bytes: u64) -> (r: u64)
    ensures
        r == bytes / BYTES_PER_MB,
{
    bytes / BYTES_PER_MB
}

/// The text of an optional reading, empty when the system gave none.
pub open spec fn text_or_empty(t: Option<Seq<char>>) -> Seq<char> {
    match t {
        Some(s) => s,
        None => Seq::empty(),
    }
}

/// The view of an optional text.
pub open spec fn opt_view(t: Option<String>) -> Option<Seq<char>> {
    match t {
        Some(s) => Some(s@),
        None => None,
    }
}

fn or_empty(t: Option<String>) -> (r: String)
    ensures
        r@ == text_or_empty(opt_view(t)),
{
    match t {
        Some(s) => s,
        None => String::new(),
    }
}

/// What the info page tells of the machine.
#[derive(Debug)]
pub struct SystemSnapshot {
    pub os_name: String,
    pub os_version: String,
    pub kernel_version: String,
    pub cpu_count: u64,
    pub total_memory_mb: u64,
    pub used_memory_mb: u64,
}

impl SystemSnapshot {
    /// Builds the snapshot from the system's readings: a missing text reads
    /// as empty, memory is given in bytes and shown in whole mebibytes.
    pub fn from_readings(
        os_name: Option<String>,
        os_version: Option<String>,
        kernel_version: Option<String>,
        cpu_count: u64,
        total_memory_bytes: u64,
        used_memory_bytes: u64,
    ) -> (r: SystemSnapshot)
        ensures
            r.os_name@ == text_or_empty(opt_view(os_name)),
            r.os_version@ == text_or_empty(opt_view(os_version)),
            r.kernel_version@ == text_or_empty(opt_view(kernel_version)),
            r.cpu_count == cpu_count,
            r.total_memory_mb == total_memory_bytes / BYTES_PER_MB,
            r.used_memory_mb == used_memory_bytes / BYTES_PER_MB,
    {
        SystemSnapshot {
            os_name: or_empty(os_name),
            os_version: or_empty(os_version),
            kernel_version: or_empty(kernel_version),
            cpu_count,
            total_memory_mb: bytes_to_mb(total_memory_bytes),
            used_memory_mb: bytes_to_mb(used_memory_bytes),
        }
    }
}

/// The info page's content.
#[derive(Debug)]
pub struct ContainerInfo {
    pub hostname: String,
    pub user_id: u32,
    pub group_id: u32,
    /// Whitelisted variables, in the order the process environment gave them.
    pub environment: Vec<(String, String)>,
    pub system: SystemSnapshot,
}

impl ContainerInfo {
    /// Gathers the info page from the readings: the host name (or
    /// `unknown`), the user and group ids, the variables of `vars` that the
    /// whitelist lets through, and the machine snapshot.
    pub fn gather(
        host: Option<String>,
        user_id: u32,
        group_id: u32,
        vars: &Vec<(String, String)>,
        system: SystemSnapshot,
    ) -> (r: ContainerInfo)
        ensures
            r.hostname@ == shown_host(opt_view(host)),
            r.user_id == user_id,
            r.group_id == group_id,
            r.environment@.map_values(|p: (String, String)| pair_view(p)) == exposed_pairs(
                vars@.map_values(|p: (String, String)| pair_view(p)),
            ),
            forall|i: int|
                0 <= i < r.environment.len() ==> exposed_key(#[trigger] r.environment@[i].0@),
            r.system == system,
    {
        ContainerInfo {
            hostname: host_or_unknown(host),
            user_id,
            group_id,
            environment: exposed_environment(vars),
            system,
        }
    }
}

} // verus!
