//! The options of a node.

use vstd::prelude::*;

verus! {

/// Everything about a node that can be tuned.
#[derive(Debug, Clone, Copy, PartialEq, Eq)]
pub struct S2cOptions {
    pub max_message_size: usize,
    pub snapshotting_threshold: u64,
    pub flush_interval_ms: u64,
    pub batch_min_count: usize,
    pub request_timeout_ms: u64,
    pub leader_heartbeat_timeout_ms: u64,
    pub max_missed_heartbeats: u32,
    pub max_concurrent_state_requests_handling: usize,
    pub leadership_delay_ms: u64,
    pub log_lru_cache_size: usize,
    pub max_batches_pending_for_apply: usize,
    pub max_deduplicated_clients: usize,
    pub read_index: bool,
    pub log_node_identity: bool,
    pub network: S2cNetworkOptions,
    pub retry: S2cRetryOptions,
    pub exactly_once: S2cExactlyOnceOptions,
}

impl Default for S2cOptions {
    fn default() -> (options: Self)
        ensures
            options.max_message_size == 512_000,
            options.snapshotting_threshold == 100,
            options.flush_interval_ms == 2_000,
            options.batch_min_count == 100,
            options.request_timeout_ms == 10_000,
            options.leader_heartbeat_timeout_ms == 5_000,
            options.max_missed_heartbeats == 10,
            options.max_concurrent_state_requests_handling == 100,
            options.leadership_delay_ms == 3_000,
            options.log_lru_cache_size == 1_000,
            options.max_batches_pending_for_apply == 1_000,
            options.max_deduplicated_clients == 1_000,
            options.read_index,
            !options.log_node_identity,
            options.network == default_network_options(),
            options.retry == default_retry_options(),
            options.exactly_once == default_exactly_once_options(),
    {
        S2cOptions {
            max_message_size: 500 * 1024,
            snapshotting_threshold: 100,
            flush_interval_ms: 2_000,
            batch_min_count: 100,
            request_timeout_ms: 10_000,
            leader_heartbeat_timeout_ms: 5_000,
            max_missed_heartbeats: 10,
            max_concurrent_state_requests_handling: 100,
            leadership_delay_ms: 3_000,
            log_lru_cache_size: 1_000,
            max_batches_pending_for_apply: 1_000,
            max_deduplicated_clients: 1_000,
            read_index: true,
            log_node_identity: false,
            network: S2cNetworkOptions::default(),
            retry: S2cRetryOptions::default(),
            exactly_once: S2cExactlyOnceOptions::default(),
        }
    }
}

/// Limits and delays of the connections.
#[derive(Debug, Clone, Copy, PartialEq, Eq)]
pub struct S2cNetworkOptions {
    pub connect_timeout_ms: u64,
    pub throttle_delay_ms: u64,
    pub handshake_timeout_ms: u64,
    pub max_pending_reqs_per_client: usize,
    pub max_pending_resps_per_client: usize,
    pub max_pending_server_responses: usize,
}

/// The limits and delays that hold unless others are chosen.
pub open spec fn default_network_options() -> S2cNetworkOptions {
    S2cNetworkOptions {
        connect_timeout_ms: 10_000,
        throttle_delay_ms: 10_000,
        handshake_timeout_ms: 10_000,
        max_pending_reqs_per_client: 1_000,
        max_pending_resps_per_client: 1_000,
        max_pending_server_responses: 1_000,
    }
}

impl Default for S2cNetworkOptions {
    fn default() -> (options: Self)
        ensures
            options == default_network_options(),
    {
        S2cNetworkOptions {
            connect_timeout_ms: 10_000,
            throttle_delay_ms: 10_000,
            handshake_timeout_ms: 10_000,
            max_pending_reqs_per_client: 1_000,
            max_pending_resps_per_client: 1_000,
            max_pending_server_responses: 1_000,
        }
    }
}

/// How often and after what delays a failed operation is tried again.
#[derive(Debug, Clone, Copy, PartialEq, Eq)]
pub struct S2cRetryOptions {
    pub max_delay_seconds: u64,
    pub base_delay_ms: u64,
    /// How many attempts there may be; without a number there is no limit.
    pub max_attempts: Option<u32>,
}

/// The retry policy that holds unless another is chosen.
pub open spec fn default_retry_options() -> S2cRetryOptions {
    S2cRetryOptions { max_delay_seconds: 5, base_delay_ms: 300, max_attempts: Some(3) }
}

impl Default for S2cRetryOptions {
    fn default() -> (options: Self)
        ensures
            options == default_retry_options(),
    {
        S2cRetryOptions { max_delay_seconds: 5, base_delay_ms: 300, max_attempts: Some(3) }
    }
}

/// How requests are kept from taking effect twice.
#[derive(Debug, Clone, Copy, PartialEq, Eq)]
pub struct S2cExactlyOnceOptions {
    pub out_of_seq_buffer_size: usize,
    pub out_of_seq_buffer_gc_delay_sec: u64,
    pub enabled: bool,
}

/// What holds of exactly-once handling unless something else is chosen.
pub open spec fn default_exactly_once_options() -> S2cExactlyOnceOptions {
    S2cExactlyOnceOptions {
        out_of_seq_buffer_size: 1_000,
        out_of_seq_buffer_gc_delay_sec: 30,
        enabled: true,
    }
}

impl Default for S2cExactlyOnceOptions {
    fn default() -> (options: Self)
        ensures
            options == default_exactly_once_options(),
    {
        S2cExactlyOnceOptions {
            out_of_seq_buffer_size: 1_000,
            out_of_seq_buffer_gc_delay_sec: 30,
            enabled: true,
        }
    }
}

/// What holds unless something else is chosen: a server is waited for ten seconds, a pause and a
/// handshake take as long, and queues hold a thousand messages; a failed operation is tried again
/// three times, after delays from 300 milliseconds to five seconds; and exactly-once handling is
/// on.
pub proof fn law_defaults()
    ensures
        default_network_options().connect_timeout_ms == 10_000,
        default_network_options().throttle_delay_ms == 10_000,
        default_network_options().handshake_timeout_ms == 10_000,
        default_network_options().max_pending_reqs_per_client == 1_000,
        default_network_options().max_pending_resps_per_client == 1_000,
        default_network_options().max_pending_server_responses == 1_000,
        default_retry_options().max_delay_seconds == 5,
        default_retry_options().base_delay_ms == 300,
        default_retry_options().max_attempts == Some(3u32),
        default_exactly_once_options().out_of_seq_buffer_size == 1_000,
        default_exactly_once_options().out_of_seq_buffer_gc_delay_sec == 30,
        default_exactly_once_options().enabled,
{
}

} // verus!
