//! Per-group configuration and the bot's tunable constants.

use vstd::prelude::*;

verus! {

pub const DEFAULT_ALERT_COLOR: u32 = 3447003;
pub const DEFAULT_ACTIVE_ELO: bool = false;
pub const DEFAULT_QUOTA: u8 = 8;
/// Seconds for players to join voice when the queue goes hot
pub const DEFAULT_HOT_JOIN_TIMEOUT: u16 = 300;
/// Seconds between inactive DM clean-ups
pub const CLEANUP_INTERVAL_SECS: u64 = 60;
/// Seconds of DM inactivity before tracked DMs are deleted
pub const INACTIVITY_TIMEOUT_SECS: u64 = 600;
/// Default user queue expiry, in minutes
pub const DEFAULT_TIMEOUT: u8 = 120;
/// Maximum user queue expiry, in minutes
pub const MAX_TIMEOUT: u8 = 240;
/// Minimum user queue expiry, in minutes
pub const MIN_TIMEOUT: u8 = 30;
/// Maximum score per team in a match
pub const MAX_MATCH_SCORE: u8 = 5;
/// Default seconds players have to join a hot game
pub const DEFAULT_JOIN_TIMEOUT: u16 = 120;

/// Configuration key-value pair.
#[derive(Debug)]
pub struct ConfigFormat {
    pub key: String,
    pub value: Option<String>,
    pub description: Option<String>,
}

/// Channel and role configuration of a queue group.
#[derive(Debug, Clone, Copy, PartialEq, Eq)]
pub struct GroupConfig {
    pub guild_id: u64,
    pub group_id: u64,
    pub runner_r_id: u64,
    pub admin_r_id: u64,
    pub dashboard_tc_id: u64,
    pub queue_tc_id: u64,
    pub queue_vc_id: u64,
    pub log_tc_id: u64,
    pub red_vc_id: u64,
    pub blu_vc_id: u64,
    pub join_timeout: u16,
}

impl GroupConfig {
    /// A group configuration with the given ids and the default join
    /// timeout of 120 seconds.
    pub fn new(
        guild_id: u64,
        group_id: u64,
        runner_r_id: u64,
        admin_r_id: u64,
        dashboard_tc_id: u64,
        queue_tc_id: u64,
        queue_vc_id: u64,
        log_tc_id: u64,
        red_vc_id: u64,
        blu_vc_id: u64,
    ) -> (r: Self)
        ensures
            r == (GroupConfig {
                guild_id,
                group_id,
                runner_r_id,
                admin_r_id,
                dashboard_tc_id,
                queue_tc_id,
                queue_vc_id,
                log_tc_id,
                red_vc_id,
                blu_vc_id,
                join_timeout: DEFAULT_JOIN_TIMEOUT,
            }),
    {
        GroupConfig {
            guild_id,
            group_id,
            runner_r_id,
            admin_r_id,
            dashboard_tc_id,
            queue_tc_id,
            queue_vc_id,
            log_tc_id,
            red_vc_id,
            blu_vc_id,
            join_timeout: DEFAULT_JOIN_TIMEOUT,
        }
    }

    /// A group configuration with no roles or channels set (all 0) and the
    /// default join timeout of 120 seconds.
    pub fn empty(guild_id: u64, group_id: u64) -> (r: Self)
        ensures
            r == (GroupConfig {
                guild_id,
                group_id,
                runner_r_id: 0,
                admin_r_id: 0,
                dashboard_tc_id: 0,
                queue_tc_id: 0,
                queue_vc_id: 0,
                log_tc_id: 0,
                red_vc_id: 0,
                blu_vc_id: 0,
                join_timeout: DEFAULT_JOIN_TIMEOUT,
            }),
    {
        GroupConfig::new(guild_id, group_id, 0, 0, 0, 0, 0, 0, 0, 0)
    }
}

} // verus!
