use s2c::config::{S2cExactlyOnceOptions, S2cNetworkOptions, S2cOptions, S2cRetryOptions};

#[test]
fn default_options() {
    let options = S2cOptions::default();
    assert_eq!(options.max_message_size, 500 * 1024);
    assert_eq!(options.snapshotting_threshold, 100);
    assert_eq!(options.flush_interval_ms, 2_000);
    assert_eq!(options.batch_min_count, 100);
    assert_eq!(options.request_timeout_ms, 10_000);
    assert_eq!(options.leader_heartbeat_timeout_ms, 5_000);
    assert_eq!(options.max_missed_heartbeats, 10);
    assert_eq!(options.max_concurrent_state_requests_handling, 100);
    assert_eq!(options.leadership_delay_ms, 3_000);
    assert_eq!(options.log_lru_cache_size, 1_000);
    assert_eq!(options.max_batches_pending_for_apply, 1_000);
    assert_eq!(options.max_deduplicated_clients, 1_000);
    assert!(options.read_index);
    assert!(!options.log_node_identity);
    assert_eq!(options.network, S2cNetworkOptions::default());
    assert_eq!(options.retry, S2cRetryOptions::default());
    assert_eq!(options.exactly_once, S2cExactlyOnceOptions::default());
}

#[test]
fn default_network_options() {
    let options = S2cNetworkOptions::default();
    assert_eq!(options.connect_timeout_ms, 10_000);
    assert_eq!(options.throttle_delay_ms, 10_000);
    assert_eq!(options.handshake_timeout_ms, 10_000);
    assert_eq!(options.max_pending_reqs_per_client, 1_000);
    assert_eq!(options.max_pending_resps_per_client, 1_000);
    assert_eq!(options.max_pending_server_responses, 1_000);
}

#[test]
fn default_retry_options() {
    let options = S2cRetryOptions::default();
    assert_eq!(options.max_delay_seconds, 5);
    assert_eq!(options.base_delay_ms, 300);
    assert_eq!(options.max_attempts, Some(3));
}

#[test]
fn default_exactly_once_options() {
    let options = S2cExactlyOnceOptions::default();
    assert_eq!(options.out_of_seq_buffer_size, 1_000);
    assert_eq!(options.out_of_seq_buffer_gc_delay_sec, 30);
    assert!(options.enabled);
}
