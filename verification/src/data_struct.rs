//! The records that the agent reports, and how the one-shot snapshot is put
//! together and its delivery judged.

use vstd::prelude::*;
use vstd::string::StringExecFns;
use crate::http::{is_success, status_is_success};

verus! {

/// The name under which the agent reports itself, before its version.
pub const AGENT_NAME: &'static str = "komari-monitor-rs";

/// The `User-Agent` that the snapshot is posted with.
pub const USER_AGENT: &'static str = "curl/11.45.14-rs";

/// The one-shot description of the host.
#[derive(Clone, Debug, PartialEq, Eq)]
pub struct BasicInfo {
    pub arch: String,
    pub cpu_cores: u64,
    pub cpu_name: String,
    /// Not collected: always empty.
    pub gpu_name: String,
    pub disk_total: u64,
    pub swap_total: u64,
    pub mem_total: u64,
    pub ipv4: Option<String>,
    pub ipv6: Option<String>,
    pub os: String,
    pub version: String,
    pub virtualization: String,
}

/// What the probes found on the host, as plain values. The counts are the
/// ones to report, after any scaling that the operator asked for.
#[derive(Clone, Debug, PartialEq, Eq)]
pub struct HostFacts {
    pub arch: String,
    pub cpu_name: String,
    pub cpu_cores: u64,
    pub disk_total: u64,
    pub swap_total: u64,
    pub mem_total: u64,
    pub ipv4: Option<String>,
    pub ipv6: Option<String>,
    pub os: String,
    pub os_version: String,
    pub virtualization: String,
}

/// Why a snapshot did not arrive.
#[derive(Clone, Copy, Debug, PartialEq, Eq, Structural)]
pub enum PushError {
    /// The request failed: no response came that could be judged.
    Post,
    /// The response came with a status outside 200..=299.
    Status,
}

/// The verdict on a delivery: `response` is the status of the response, or
/// `None` where the request failed before one came.
pub open spec fn push_outcome(response: Option<u16>) -> Result<(), PushError> {
    match response {
        None => Err(PushError::Post),
        Some(status) => if is_success(status) {
            Ok(())
        } else {
            Err(PushError::Status)
        },
    }
}

impl PushError {
    /// The text that is logged for this error.
    pub open spec fn text(self) -> Seq<char> {
        match self {
            PushError::Post => "推送 Basic Info Post 时发生错误"@,
            PushError::Status => "推送 Basic Info 时发生错误"@,
        }
    }

    /// The text that is logged for this error.
    pub fn message(&self) -> (s: String)
        ensures
            s@ == self.text(),
    {
        match self {
            PushError::Post => String::from_str("推送 Basic Info Post 时发生错误"),
            PushError::Status => String::from_str("推送 Basic Info 时发生错误"),
        }
    }
}

impl BasicInfo {
    /// Puts the snapshot together. The operating system and its version are
    /// joined by one space, the agent reports itself as [`AGENT_NAME`], a
    /// space and `agent_version`, the GPU name stays empty, and every other
    /// field is handed through.
    pub fn build(facts: HostFacts, agent_version: &str) -> (info: BasicInfo)
        ensures
            info.arch@ == facts.arch@,
            info.cpu_cores == facts.cpu_cores,
            info.cpu_name@ == facts.cpu_name@,
            info.gpu_name@ == Seq::<char>::empty(),
            info.disk_total == facts.disk_total,
            info.swap_total == facts.swap_total,
            info.mem_total == facts.mem_total,
            info.ipv4.deep_view() == facts.ipv4.deep_view(),
            info.ipv6.deep_view() == facts.ipv6.deep_view(),
            info.os@ == facts.os@ + seq![' '] + facts.os_version@,
            info.version@ == AGENT_NAME@ + seq![' '] + agent_version@,
            info.virtualization@ == facts.virtualization@,
    {
        proof {
            reveal_strlit(" ");
        }
        assert(" "@ =~= seq![' ']);
        let os = facts.os.concat(" ").concat(facts.os_version.as_str());
        let version = String::from_str(AGENT_NAME).concat(" ").concat(agent_version);
        BasicInfo {
            arch: facts.arch,
            cpu_cores: facts.cpu_cores,
            cpu_name: facts.cpu_name,
            gpu_name: String::new(),
            disk_total: facts.disk_total,
            swap_total: facts.swap_total,
            mem_total: facts.mem_total,
            ipv4: facts.ipv4,
            ipv6: facts.ipv6,
            os,
            version,
            virtualization: facts.virtualization,
        }
    }

    /// Judges a delivery of the snapshot by the response that came back.
    pub fn push(response: Option<u16>) -> (r: Result<(), PushError>)
        ensures
            r == push_outcome(response),
    {
        match response {
            None => Err(PushError::Post),
            Some(status) => if status_is_success(status) {
                Ok(())
            } else {
                Err(PushError::Status)
            },
        }
    }
}

/// Memory in use, in bytes.
#[derive(Clone, Copy, Debug, PartialEq, Eq, Structural)]
pub struct Ram {
    pub used: u64,
}

/// Swap in use, in bytes.
#[derive(Clone, Copy, Debug, PartialEq, Eq, Structural)]
pub struct Swap {
    pub used: u64,
}

/// Disk space in use, in bytes.
#[derive(Clone, Copy, Debug, PartialEq, Eq, Structural)]
pub struct Disk {
    pub used: u64,
}

/// Network traffic: current rates and totals since boot, in bytes.
#[derive(Clone, Copy, Debug, PartialEq, Eq, Structural)]
pub struct Network {
    pub up: u64,
    pub down: u64,
    pub total_up: u64,
    pub total_down: u64,
}

/// Open connections by protocol.
#[derive(Clone, Copy, Debug, PartialEq, Eq, Structural)]
pub struct Connections {
    pub tcp: u64,
    pub udp: u64,
}

} // verus!
