//! The settings each program takes from its environment, with their defaults.

use vstd::prelude::*;
use vstd::string::*;
use crate::decimal::{parse_unsigned, parse_unsigned_text};

verus! {

/// The value of a setting: the one given, or the default.
pub fn setting_or(value: Option<String>, default: &str) -> (s: String)
    ensures
        s@ == match value {
            Some(v) => v@,
            None => default@,
        },
{
    match value {
        Some(v) => v,
        None => String::from_str(default),
    }
}

/// The idle timeout of group processes that the supervisor hands on: the given
/// value when it reads as a number, 300 seconds otherwise.
pub fn idle_secs_setting(value: Option<String>) -> (secs: u64)
    ensures
        secs == match value {
            Some(v) => match parse_unsigned(v@, u64::MAX as nat) {
                Some(n) => n as u64,
                None => 300,
            },
            None => 300,
        },
{
    match value {
        Some(v) => match parse_unsigned_text(v.as_str(), u64::MAX) {
            Some(n) => n,
            None => 300,
        },
        None => 300,
    }
}

/// Where the gateway listens and where it finds the supervisor.
pub struct GatewaySettings {
    pub bind: String,
    pub supervisor_url: String,
}

impl GatewaySettings {
    /// From `GAMEFORGE_GATEWAY_BIND` and `GAMEFORGE_SUPERVISOR_URL`, defaulting to
    /// `0.0.0.0:8787` and `http://127.0.0.1:8788`.
    pub fn from_values(bind: Option<String>, supervisor_url: Option<String>) -> (s: GatewaySettings)
        ensures
            s.bind@ == match bind {
                Some(v) => v@,
                None => "0.0.0.0:8787"@,
            },
            s.supervisor_url@ == match supervisor_url {
                Some(v) => v@,
                None => "http://127.0.0.1:8788"@,
            },
    {
        GatewaySettings {
            bind: setting_or(bind, "0.0.0.0:8787"),
            supervisor_url: setting_or(supervisor_url, "http://127.0.0.1:8788"),
        }
    }
}

/// Where the supervisor listens, where group databases live, how long groups may
/// idle and which program serves a group.
pub struct SupervisorSettings {
    pub bind: String,
    pub data_root: String,
    pub idle_secs: u64,
    pub group_binary: String,
}

impl SupervisorSettings {
    /// From `GAMEFORGE_SUPERVISOR_BIND`, `GAMEFORGE_DATA_ROOT`,
    /// `GAMEFORGE_GROUP_IDLE_SECONDS` and `GAMEFORGE_GROUP_SERVER`, defaulting to
    /// `127.0.0.1:8788`, `./data/groups`, 300 seconds and `default_binary`.
    pub fn from_values(
        bind: Option<String>,
        data_root: Option<String>,
        idle_secs: Option<String>,
        group_binary: Option<String>,
        default_binary: String,
    ) -> (s: SupervisorSettings)
        ensures
            s.bind@ == match bind {
                Some(v) => v@,
                None => "127.0.0.1:8788"@,
            },
            s.data_root@ == match data_root {
                Some(v) => v@,
                None => "./data/groups"@,
            },
            s.idle_secs == match idle_secs {
                Some(v) => match parse_unsigned(v@, u64::MAX as nat) {
                    Some(n) => n as u64,
                    None => 300,
                },
                None => 300,
            },
            s.group_binary@ == match group_binary {
                Some(v) => v@,
                None => default_binary@,
            },
    {
        SupervisorSettings {
            bind: setting_or(bind, "127.0.0.1:8788"),
            data_root: setting_or(data_root, "./data/groups"),
            idle_secs: idle_secs_setting(idle_secs),
            group_binary: match group_binary {
                Some(v) => v,
                None => default_binary,
            },
        }
    }
}

} // verus!
