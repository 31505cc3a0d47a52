use solace_semp_client::models::MsgVpnClientProfile;
use solace_semp_client::models::EventThreshold;
use solace_semp_client::models::EventThresholdByPercent;

fn msg_vpn_client_profile_all_set(alt: usize) -> MsgVpnClientProfile {
    let mut m = MsgVpnClientProfile::new();
    if alt == 0 {
        m.set_allow_bridge_connections_enabled(true);
        m.set_allow_cut_through_forwarding_enabled(false);
        m.set_allow_guaranteed_endpoint_create_enabled(true);
        m.set_allow_guaranteed_msg_receive_enabled(false);
        m.set_allow_guaranteed_msg_send_enabled(true);
        m.set_allow_transacted_sessions_enabled(false);
        m.set_api_queue_management_copy_from_on_create_name("apiQueueManagementCopyFromOnCreateName-0".to_string());
        m.set_api_topic_endpoint_management_copy_from_on_create_name("apiTopicEndpointManagementCopyFromOnCreateName-0".to_string());
        m.set_client_profile_name("clientProfileName-0".to_string());
        m.set_compression_enabled(false);
        m.set_eliding_delay(10017);
        m.set_eliding_enabled(false);
        m.set_eliding_max_topic_count(12017);
        m.set_event_client_provisioned_endpoint_spool_usage_threshold(EventThresholdByPercent { clear_percent: Some(50), set_percent: Some(103) });
        m.set_event_connection_count_per_client_username_threshold(EventThreshold { clear_percent: Some(60), clear_value: None, set_percent: Some(94), set_value: Some(140) });
        m.set_event_egress_flow_count_threshold(EventThreshold { clear_percent: Some(60), clear_value: None, set_percent: Some(95), set_value: Some(150) });
        m.set_event_endpoint_count_per_client_username_threshold(EventThreshold { clear_percent: Some(60), clear_value: None, set_percent: Some(96), set_value: Some(160) });
        m.set_event_ingress_flow_count_threshold(EventThreshold { clear_percent: Some(60), clear_value: None, set_percent: Some(97), set_value: Some(170) });
        m.set_event_service_smf_connection_count_per_client_username_threshold(EventThreshold { clear_percent: Some(60), clear_value: None, set_percent: Some(98), set_value: Some(180) });
        m.set_event_service_web_connection_count_per_client_username_threshold(EventThreshold { clear_percent: Some(60), clear_value: None, set_percent: Some(99), set_value: Some(190) });
        m.set_event_subscription_count_threshold(EventThreshold { clear_percent: Some(60), clear_value: None, set_percent: Some(100), set_value: Some(200) });
        m.set_event_transacted_session_count_threshold(EventThreshold { clear_percent: Some(60), clear_value: None, set_percent: Some(101), set_value: Some(210) });
        m.set_event_transaction_count_threshold(EventThreshold { clear_percent: Some(60), clear_value: None, set_percent: Some(102), set_value: Some(220) });
        m.set_max_connection_count_per_client_username(23017);
        m.set_max_egress_flow_count(24017);
        m.set_max_endpoint_count_per_client_username(25017);
        m.set_max_ingress_flow_count(26017);
        m.set_max_subscription_count(27017);
        m.set_max_transacted_session_count(28017);
        m.set_max_transaction_count(29017);
        m.set_msg_vpn_name("msgVpnName-0".to_string());
        m.set_queue_control1_max_depth(220);
        m.set_queue_control1_min_msg_burst(227);
        m.set_queue_direct1_max_depth(234);
        m.set_queue_direct1_min_msg_burst(241);
        m.set_queue_direct2_max_depth(248);
        m.set_queue_direct2_min_msg_burst(255);
        m.set_queue_direct3_max_depth(262);
        m.set_queue_direct3_min_msg_burst(269);
        m.set_queue_guaranteed1_max_depth(276);
        m.set_queue_guaranteed1_min_msg_burst(283);
        m.set_reject_msg_to_sender_on_no_subscription_match_enabled(false);
        m.set_replication_allow_client_connect_when_standby_enabled(true);
        m.set_service_smf_max_connection_count_per_client_username(43017);
        m.set_service_web_inactive_timeout(44017);
        m.set_service_web_max_connection_count_per_client_username(45017);
        m.set_service_web_max_payload(46017);
        m.set_tcp_congestion_window_size(47017);
        m.set_tcp_keepalive_count(48017);
        m.set_tcp_keepalive_idle_time(49017);
        m.set_tcp_keepalive_interval(50017);
        m.set_tcp_max_segment_size(51017);
        m.set_tcp_max_window_size(52017);
        m.set_tls_allow_downgrade_to_plain_text_enabled(false);
    } else {
        m.set_allow_bridge_connections_enabled(false);
        m.set_allow_cut_through_forwarding_enabled(true);
        m.set_allow_guaranteed_endpoint_create_enabled(false);
        m.set_allow_guaranteed_msg_receive_enabled(true);
        m.set_allow_guaranteed_msg_send_enabled(false);
        m.set_allow_transacted_sessions_enabled(true);
        m.set_api_queue_management_copy_from_on_create_name("apiQueueManagementCopyFromOnCreateName-1".to_string());
        m.set_api_topic_endpoint_management_copy_from_on_create_name("apiTopicEndpointManagementCopyFromOnCreateName-1".to_string());
        m.set_client_profile_name("clientProfileName-1".to_string());
        m.set_compression_enabled(true);
        m.set_eliding_delay(10018);
        m.set_eliding_enabled(true);
        m.set_eliding_max_topic_count(12018);
        m.set_event_client_provisioned_endpoint_spool_usage_threshold(EventThresholdByPercent { clear_percent: Some(51), set_percent: Some(103) });
        m.set_event_connection_count_per_client_username_threshold(EventThreshold { clear_percent: Some(61), clear_value: None, set_percent: Some(94), set_value: Some(141) });
        m.set_event_egress_flow_count_threshold(EventThreshold { clear_percent: Some(61), clear_value: None, set_percent: Some(95), set_value: Some(151) });
        m.set_event_endpoint_count_per_client_username_threshold(EventThreshold { clear_percent: Some(61), clear_value: None, set_percent: Some(96), set_value: Some(161) });
        m.set_event_ingress_flow_count_threshold(EventThreshold { clear_percent: Some(61), clear_value: None, set_percent: Some(97), set_value: Some(171) });
        m.set_event_service_smf_connection_count_per_client_username_threshold(EventThreshold { clear_percent: Some(61), clear_value: None, set_percent: Some(98), set_value: Some(181) });
        m.set_event_service_web_connection_count_per_client_username_threshold(EventThreshold { clear_percent: Some(61), clear_value: None, set_percent: Some(99), set_value: Some(191) });
        m.set_event_subscription_count_threshold(EventThreshold { clear_percent: Some(61), clear_value: None, set_percent: Some(100), set_value: Some(201) });
        m.set_event_transacted_session_count_threshold(EventThreshold { clear_percent: Some(61), clear_value: None, set_percent: Some(101), set_value: Some(211) });
        m.set_event_transaction_count_threshold(EventThreshold { clear_percent: Some(61), clear_value: None, set_percent: Some(102), set_value: Some(221) });
        m.set_max_connection_count_per_client_username(23018);
        m.set_max_egress_flow_count(24018);
        m.set_max_endpoint_count_per_client_username(25018);
        m.set_max_ingress_flow_count(26018);
        m.set_max_subscription_count(27018);
        m.set_max_transacted_session_count(28018);
        m.set_max_transaction_count(29018);
        m.set_msg_vpn_name("msgVpnName-1".to_string());
        m.set_queue_control1_max_depth(221);
        m.set_queue_control1_min_msg_burst(228);
        m.set_queue_direct1_max_depth(235);
        m.set_queue_direct1_min_msg_burst(242);
        m.set_queue_direct2_max_depth(249);
        m.set_queue_direct2_min_msg_burst(256);
        m.set_queue_direct3_max_depth(263);
        m.set_queue_direct3_min_msg_burst(270);
        m.set_queue_guaranteed1_max_depth(277);
        m.set_queue_guaranteed1_min_msg_burst(284);
        m.set_reject_msg_to_sender_on_no_subscription_match_enabled(true);
        m.set_replication_allow_client_connect_when_standby_enabled(false);
        m.set_service_smf_max_connection_count_per_client_username(43018);
        m.set_service_web_inactive_timeout(44018);
        m.set_service_web_max_connection_count_per_client_username(45018);
        m.set_service_web_max_payload(46018);
        m.set_tcp_congestion_window_size(47018);
        m.set_tcp_keepalive_count(48018);
        m.set_tcp_keepalive_idle_time(49018);
        m.set_tcp_keepalive_interval(50018);
        m.set_tcp_max_segment_size(51018);
        m.set_tcp_max_window_size(52018);
        m.set_tls_allow_downgrade_to_plain_text_enabled(true);
    }
    m
}

#[test]
fn msg_vpn_client_profile_new_has_no_attributes() {
    let m = MsgVpnClientProfile::new();
    assert_eq!(m.allow_bridge_connections_enabled(), None);
    assert_eq!(m.allow_cut_through_forwarding_enabled(), None);
    assert_eq!(m.allow_guaranteed_endpoint_create_enabled(), None);
    assert_eq!(m.allow_guaranteed_msg_receive_enabled(), None);
    assert_eq!(m.allow_guaranteed_msg_send_enabled(), None);
    assert_eq!(m.allow_transacted_sessions_enabled(), None);
    assert_eq!(m.api_queue_management_copy_from_on_create_name(), None);
    assert_eq!(m.api_topic_endpoint_management_copy_from_on_create_name(), None);
    assert_eq!(m.client_profile_name(), None);
    assert_eq!(m.compression_enabled(), None);
    assert_eq!(m.eliding_delay(), None);
    assert_eq!(m.eliding_enabled(), None);
    assert_eq!(m.eliding_max_topic_count(), None);
    assert_eq!(m.event_client_provisioned_endpoint_spool_usage_threshold(), None);
    assert_eq!(m.event_connection_count_per_client_username_threshold(), None);
    assert_eq!(m.event_egress_flow_count_threshold(), None);
    assert_eq!(m.event_endpoint_count_per_client_username_threshold(), None);
    assert_eq!(m.event_ingress_flow_count_threshold(), None);
    assert_eq!(m.event_service_smf_connection_count_per_client_username_threshold(), None);
    assert_eq!(m.event_service_web_connection_count_per_client_username_threshold(), None);
    assert_eq!(m.event_subscription_count_threshold(), None);
    assert_eq!(m.event_transacted_session_count_threshold(), None);
    assert_eq!(m.event_transaction_count_threshold(), None);
    assert_eq!(m.max_connection_count_per_client_username(), None);
    assert_eq!(m.max_egress_flow_count(), None);
    assert_eq!(m.max_endpoint_count_per_client_username(), None);
    assert_eq!(m.max_ingress_flow_count(), None);
    assert_eq!(m.max_subscription_count(), None);
    assert_eq!(m.max_transacted_session_count(), None);
    assert_eq!(m.max_transaction_count(), None);
    assert_eq!(m.msg_vpn_name(), None);
    assert_eq!(m.queue_control1_max_depth(), None);
    assert_eq!(m.queue_control1_min_msg_burst(), None);
    assert_eq!(m.queue_direct1_max_depth(), None);
    assert_eq!(m.queue_direct1_min_msg_burst(), None);
    assert_eq!(m.queue_direct2_max_depth(), None);
    assert_eq!(m.queue_direct2_min_msg_burst(), None);
    assert_eq!(m.queue_direct3_max_depth(), None);
    assert_eq!(m.queue_direct3_min_msg_burst(), None);
    assert_eq!(m.queue_guaranteed1_max_depth(), None);
    assert_eq!(m.queue_guaranteed1_min_msg_burst(), None);
    assert_eq!(m.reject_msg_to_sender_on_no_subscription_match_enabled(), None);
    assert_eq!(m.replication_allow_client_connect_when_standby_enabled(), None);
    assert_eq!(m.service_smf_max_connection_count_per_client_username(), None);
    assert_eq!(m.service_web_inactive_timeout(), None);
    assert_eq!(m.service_web_max_connection_count_per_client_username(), None);
    assert_eq!(m.service_web_max_payload(), None);
    assert_eq!(m.tcp_congestion_window_size(), None);
    assert_eq!(m.tcp_keepalive_count(), None);
    assert_eq!(m.tcp_keepalive_idle_time(), None);
    assert_eq!(m.tcp_keepalive_interval(), None);
    assert_eq!(m.tcp_max_segment_size(), None);
    assert_eq!(m.tcp_max_window_size(), None);
    assert_eq!(m.tls_allow_downgrade_to_plain_text_enabled(), None);
}

#[test]
fn msg_vpn_client_profile_set_then_get() {
    let m = msg_vpn_client_profile_all_set(0);
    assert_eq!(m.allow_bridge_connections_enabled(), Some(&true));
    assert_eq!(m.allow_cut_through_forwarding_enabled(), Some(&false));
    assert_eq!(m.allow_guaranteed_endpoint_create_enabled(), Some(&true));
    assert_eq!(m.allow_guaranteed_msg_receive_enabled(), Some(&false));
    assert_eq!(m.allow_guaranteed_msg_send_enabled(), Some(&true));
    assert_eq!(m.allow_transacted_sessions_enabled(), Some(&false));
    assert_eq!(m.api_queue_management_copy_from_on_create_name(), Some(&"apiQueueManagementCopyFromOnCreateName-0".to_string()));
    assert_eq!(m.api_topic_endpoint_management_copy_from_on_create_name(), Some(&"apiTopicEndpointManagementCopyFromOnCreateName-0".to_string()));
    assert_eq!(m.client_profile_name(), Some(&"clientProfileName-0".to_string()));
    assert_eq!(m.compression_enabled(), Some(&false));
    assert_eq!(m.eliding_delay(), Some(&10017));
    assert_eq!(m.eliding_enabled(), Some(&false));
    assert_eq!(m.eliding_max_topic_count(), Some(&12017));
    assert_eq!(m.event_client_provisioned_endpoint_spool_usage_threshold(), Some(&EventThresholdByPercent { clear_percent: Some(50), set_percent: Some(103) }));
    assert_eq!(m.event_connection_count_per_client_username_threshold(), Some(&EventThreshold { clear_percent: Some(60), clear_value: None, set_percent: Some(94), set_value: Some(140) }));
    assert_eq!(m.event_egress_flow_count_threshold(), Some(&EventThreshold { clear_percent: Some(60), clear_value: None, set_percent: Some(95), set_value: Some(150) }));
    assert_eq!(m.event_endpoint_count_per_client_username_threshold(), Some(&EventThreshold { clear_percent: Some(60), clear_value: None, set_percent: Some(96), set_value: Some(160) }));
    assert_eq!(m.event_ingress_flow_count_threshold(), Some(&EventThreshold { clear_percent: Some(60), clear_value: None, set_percent: Some(97), set_value: Some(170) }));
    assert_eq!(m.event_service_smf_connection_count_per_client_username_threshold(), Some(&EventThreshold { clear_percent: Some(60), clear_value: None, set_percent: Some(98), set_value: Some(180) }));
    assert_eq!(m.event_service_web_connection_count_per_client_username_threshold(), Some(&EventThreshold { clear_percent: Some(60), clear_value: None, set_percent: Some(99), set_value: Some(190) }));
    assert_eq!(m.event_subscription_count_threshold(), Some(&EventThreshold { clear_percent: Some(60), clear_value: None, set_percent: Some(100), set_value: Some(200) }));
    assert_eq!(m.event_transacted_session_count_threshold(), Some(&EventThreshold { clear_percent: Some(60), clear_value: None, set_percent: Some(101), set_value: Some(210) }));
    assert_eq!(m.event_transaction_count_threshold(), Some(&EventThreshold { clear_percent: Some(60), clear_value: None, set_percent: Some(102), set_value: Some(220) }));
    assert_eq!(m.max_connection_count_per_client_username(), Some(&23017));
    assert_eq!(m.max_egress_flow_count(), Some(&24017));
    assert_eq!(m.max_endpoint_count_per_client_username(), Some(&25017));
    assert_eq!(m.max_ingress_flow_count(), Some(&26017));
    assert_eq!(m.max_subscription_count(), Some(&27017));
    assert_eq!(m.max_transacted_session_count(), Some(&28017));
    assert_eq!(m.max_transaction_count(), Some(&29017));
    assert_eq!(m.msg_vpn_name(), Some(&"msgVpnName-0".to_string()));
    assert_eq!(m.queue_control1_max_depth(), Some(&220));
    assert_eq!(m.queue_control1_min_msg_burst(), Some(&227));
    assert_eq!(m.queue_direct1_max_depth(), Some(&234));
    assert_eq!(m.queue_direct1_min_msg_burst(), Some(&241));
    assert_eq!(m.queue_direct2_max_depth(), Some(&248));
    assert_eq!(m.queue_direct2_min_msg_burst(), Some(&255));
    assert_eq!(m.queue_direct3_max_depth(), Some(&262));
    assert_eq!(m.queue_direct3_min_msg_burst(), Some(&269));
    assert_eq!(m.queue_guaranteed1_max_depth(), Some(&276));
    assert_eq!(m.queue_guaranteed1_min_msg_burst(), Some(&283));
    assert_eq!(m.reject_msg_to_sender_on_no_subscription_match_enabled(), Some(&false));
    assert_eq!(m.replication_allow_client_connect_when_standby_enabled(), Some(&true));
    assert_eq!(m.service_smf_max_connection_count_per_client_username(), Some(&43017));
    assert_eq!(m.service_web_inactive_timeout(), Some(&44017));
    assert_eq!(m.service_web_max_connection_count_per_client_username(), Some(&45017));
    assert_eq!(m.service_web_max_payload(), Some(&46017));
    assert_eq!(m.tcp_congestion_window_size(), Some(&47017));
    assert_eq!(m.tcp_keepalive_count(), Some(&48017));
    assert_eq!(m.tcp_keepalive_idle_time(), Some(&49017));
    assert_eq!(m.tcp_keepalive_interval(), Some(&50017));
    assert_eq!(m.tcp_max_segment_size(), Some(&51017));
    assert_eq!(m.tcp_max_window_size(), Some(&52017));
    assert_eq!(m.tls_allow_downgrade_to_plain_text_enabled(), Some(&false));
}

#[test]
fn msg_vpn_client_profile_with_agrees_with_set() {
    let m = MsgVpnClientProfile::new()
        .with_allow_bridge_connections_enabled(false)
        .with_allow_cut_through_forwarding_enabled(true)
        .with_allow_guaranteed_endpoint_create_enabled(false)
        .with_allow_guaranteed_msg_receive_enabled(true)
        .with_allow_guaranteed_msg_send_enabled(false)
        .with_allow_transacted_sessions_enabled(true)
        .with_api_queue_management_copy_from_on_create_name("apiQueueManagementCopyFromOnCreateName-1".to_string())
        .with_api_topic_endpoint_management_copy_from_on_create_name("apiTopicEndpointManagementCopyFromOnCreateName-1".to_string())
        .with_client_profile_name("clientProfileName-1".to_string())
        .with_compression_enabled(true)
        .with_eliding_delay(10018)
        .with_eliding_enabled(true)
        .with_eliding_max_topic_count(12018)
        .with_event_client_provisioned_endpoint_spool_usage_threshold(EventThresholdByPercent { clear_percent: Some(51), set_percent: Some(103) })
        .with_event_connection_count_per_client_username_threshold(EventThreshold { clear_percent: Some(61), clear_value: None, set_percent: Some(94), set_value: Some(141) })
        .with_event_egress_flow_count_threshold(EventThreshold { clear_percent: Some(61), clear_value: None, set_percent: Some(95), set_value: Some(151) })
        .with_event_endpoint_count_per_client_username_threshold(EventThreshold { clear_percent: Some(61), clear_value: None, set_percent: Some(96), set_value: Some(161) })
        .with_event_ingress_flow_count_threshold(EventThreshold { clear_percent: Some(61), clear_value: None, set_percent: Some(97), set_value: Some(171) })
        .with_event_service_smf_connection_count_per_client_username_threshold(EventThreshold { clear_percent: Some(61), clear_value: None, set_percent: Some(98), set_value: Some(181) })
        .with_event_service_web_connection_count_per_client_username_threshold(EventThreshold { clear_percent: Some(61), clear_value: None, set_percent: Some(99), set_value: Some(191) })
        .with_event_subscription_count_threshold(EventThreshold { clear_percent: Some(61), clear_value: None, set_percent: Some(100), set_value: Some(201) })
        .with_event_transacted_session_count_threshold(EventThreshold { clear_percent: Some(61), clear_value: None, set_percent: Some(101), set_value: Some(211) })
        .with_event_transaction_count_threshold(EventThreshold { clear_percent: Some(61), clear_value: None, set_percent: Some(102), set_value: Some(221) })
        .with_max_connection_count_per_client_username(23018)
        .with_max_egress_flow_count(24018)
        .with_max_endpoint_count_per_client_username(25018)
        .with_max_ingress_flow_count(26018)
        .with_max_subscription_count(27018)
        .with_max_transacted_session_count(28018)
        .with_max_transaction_count(29018)
        .with_msg_vpn_name("msgVpnName-1".to_string())
        .with_queue_control1_max_depth(221)
        .with_queue_control1_min_msg_burst(228)
        .with_queue_direct1_max_depth(235)
        .with_queue_direct1_min_msg_burst(242)
        .with_queue_direct2_max_depth(249)
        .with_queue_direct2_min_msg_burst(256)
        .with_queue_direct3_max_depth(263)
        .with_queue_direct3_min_msg_burst(270)
        .with_queue_guaranteed1_max_depth(277)
        .with_queue_guaranteed1_min_msg_burst(284)
        .with_reject_msg_to_sender_on_no_subscription_match_enabled(true)
        .with_replication_allow_client_connect_when_standby_enabled(false)
        .with_service_smf_max_connection_count_per_client_username(43018)
        .with_service_web_inactive_timeout(44018)
        .with_service_web_max_connection_count_per_client_username(45018)
        .with_service_web_max_payload(46018)
        .with_tcp_congestion_window_size(47018)
        .with_tcp_keepalive_count(48018)
        .with_tcp_keepalive_idle_time(49018)
        .with_tcp_keepalive_interval(50018)
        .with_tcp_max_segment_size(51018)
        .with_tcp_max_window_size(52018)
        .with_tls_allow_downgrade_to_plain_text_enabled(true)
        ;
    assert_eq!(m.allow_bridge_connections_enabled(), Some(&false));
    assert_eq!(m.allow_cut_through_forwarding_enabled(), Some(&true));
    assert_eq!(m.allow_guaranteed_endpoint_create_enabled(), Some(&false));
    assert_eq!(m.allow_guaranteed_msg_receive_enabled(), Some(&true));
    assert_eq!(m.allow_guaranteed_msg_send_enabled(), Some(&false));
    assert_eq!(m.allow_transacted_sessions_enabled(), Some(&true));
    assert_eq!(m.api_queue_management_copy_from_on_create_name(), Some(&"apiQueueManagementCopyFromOnCreateName-1".to_string()));
    assert_eq!(m.api_topic_endpoint_management_copy_from_on_create_name(), Some(&"apiTopicEndpointManagementCopyFromOnCreateName-1".to_string()));
    assert_eq!(m.client_profile_name(), Some(&"clientProfileName-1".to_string()));
    assert_eq!(m.compression_enabled(), Some(&true));
    assert_eq!(m.eliding_delay(), Some(&10018));
    assert_eq!(m.eliding_enabled(), Some(&true));
    assert_eq!(m.eliding_max_topic_count(), Some(&12018));
    assert_eq!(m.event_client_provisioned_endpoint_spool_usage_threshold(), Some(&EventThresholdByPercent { clear_percent: Some(51), set_percent: Some(103) }));
    assert_eq!(m.event_connection_count_per_client_username_threshold(), Some(&EventThreshold { clear_percent: Some(61), clear_value: None, set_percent: Some(94), set_value: Some(141) }));
    assert_eq!(m.event_egress_flow_count_threshold(), Some(&EventThreshold { clear_percent: Some(61), clear_value: None, set_percent: Some(95), set_value: Some(151) }));
    assert_eq!(m.event_endpoint_count_per_client_username_threshold(), Some(&EventThreshold { clear_percent: Some(61), clear_value: None, set_percent: Some(96), set_value: Some(161) }));
    assert_eq!(m.event_ingress_flow_count_threshold(), Some(&EventThreshold { clear_percent: Some(61), clear_value: None, set_percent: Some(97), set_value: Some(171) }));
    assert_eq!(m.event_service_smf_connection_count_per_client_username_threshold(), Some(&EventThreshold { clear_percent: Some(61), clear_value: None, set_percent: Some(98), set_value: Some(181) }));
    assert_eq!(m.event_service_web_connection_count_per_client_username_threshold(), Some(&EventThreshold { clear_percent: Some(61), clear_value: None, set_percent: Some(99), set_value: Some(191) }));
    assert_eq!(m.event_subscription_count_threshold(), Some(&EventThreshold { clear_percent: Some(61), clear_value: None, set_percent: Some(100), set_value: Some(201) }));
    assert_eq!(m.event_transacted_session_count_threshold(), Some(&EventThreshold { clear_percent: Some(61), clear_value: None, set_percent: Some(101), set_value: Some(211) }));
    assert_eq!(m.event_transaction_count_threshold(), Some(&EventThreshold { clear_percent: Some(61), clear_value: None, set_percent: Some(102), set_value: Some(221) }));
    assert_eq!(m.max_connection_count_per_client_username(), Some(&23018));
    assert_eq!(m.max_egress_flow_count(), Some(&24018));
    assert_eq!(m.max_endpoint_count_per_client_username(), Some(&25018));
    assert_eq!(m.max_ingress_flow_count(), Some(&26018));
    assert_eq!(m.max_subscription_count(), Some(&27018));
    assert_eq!(m.max_transacted_session_count(), Some(&28018));
    assert_eq!(m.max_transaction_count(), Some(&29018));
    assert_eq!(m.msg_vpn_name(), Some(&"msgVpnName-1".to_string()));
    assert_eq!(m.queue_control1_max_depth(), Some(&221));
    assert_eq!(m.queue_control1_min_msg_burst(), Some(&228));
    assert_eq!(m.queue_direct1_max_depth(), Some(&235));
    assert_eq!(m.queue_direct1_min_msg_burst(), Some(&242));
    assert_eq!(m.queue_direct2_max_depth(), Some(&249));
    assert_eq!(m.queue_direct2_min_msg_burst(), Some(&256));
    assert_eq!(m.queue_direct3_max_depth(), Some(&263));
    assert_eq!(m.queue_direct3_min_msg_burst(), Some(&270));
    assert_eq!(m.queue_guaranteed1_max_depth(), Some(&277));
    assert_eq!(m.queue_guaranteed1_min_msg_burst(), Some(&284));
    assert_eq!(m.reject_msg_to_sender_on_no_subscription_match_enabled(), Some(&true));
    assert_eq!(m.replication_allow_client_connect_when_standby_enabled(), Some(&false));
    assert_eq!(m.service_smf_max_connection_count_per_client_username(), Some(&43018));
    assert_eq!(m.service_web_inactive_timeout(), Some(&44018));
    assert_eq!(m.service_web_max_connection_count_per_client_username(), Some(&45018));
    assert_eq!(m.service_web_max_payload(), Some(&46018));
    assert_eq!(m.tcp_congestion_window_size(), Some(&47018));
    assert_eq!(m.tcp_keepalive_count(), Some(&48018));
    assert_eq!(m.tcp_keepalive_idle_time(), Some(&49018));
    assert_eq!(m.tcp_keepalive_interval(), Some(&50018));
    assert_eq!(m.tcp_max_segment_size(), Some(&51018));
    assert_eq!(m.tcp_max_window_size(), Some(&52018));
    assert_eq!(m.tls_allow_downgrade_to_plain_text_enabled(), Some(&true));
    let n = msg_vpn_client_profile_all_set(1);
    assert_eq!(m.allow_bridge_connections_enabled(), n.allow_bridge_connections_enabled());
    assert_eq!(m.allow_cut_through_forwarding_enabled(), n.allow_cut_through_forwarding_enabled());
    assert_eq!(m.allow_guaranteed_endpoint_create_enabled(), n.allow_guaranteed_endpoint_create_enabled());
    assert_eq!(m.allow_guaranteed_msg_receive_enabled(), n.allow_guaranteed_msg_receive_enabled());
    assert_eq!(m.allow_guaranteed_msg_send_enabled(), n.allow_guaranteed_msg_send_enabled());
    assert_eq!(m.allow_transacted_sessions_enabled(), n.allow_transacted_sessions_enabled());
    assert_eq!(m.api_queue_management_copy_from_on_create_name(), n.api_queue_management_copy_from_on_create_name());
    assert_eq!(m.api_topic_endpoint_management_copy_from_on_create_name(), n.api_topic_endpoint_management_copy_from_on_create_name());
    assert_eq!(m.client_profile_name(), n.client_profile_name());
    assert_eq!(m.compression_enabled(), n.compression_enabled());
    assert_eq!(m.eliding_delay(), n.eliding_delay());
    assert_eq!(m.eliding_enabled(), n.eliding_enabled());
    assert_eq!(m.eliding_max_topic_count(), n.eliding_max_topic_count());
    assert_eq!(m.event_client_provisioned_endpoint_spool_usage_threshold(), n.event_client_provisioned_endpoint_spool_usage_threshold());
    assert_eq!(m.event_connection_count_per_client_username_threshold(), n.event_connection_count_per_client_username_threshold());
    assert_eq!(m.event_egress_flow_count_threshold(), n.event_egress_flow_count_threshold());
    assert_eq!(m.event_endpoint_count_per_client_username_threshold(), n.event_endpoint_count_per_client_username_threshold());
    assert_eq!(m.event_ingress_flow_count_threshold(), n.event_ingress_flow_count_threshold());
    assert_eq!(m.event_service_smf_connection_count_per_client_username_threshold(), n.event_service_smf_connection_count_per_client_username_threshold());
    assert_eq!(m.event_service_web_connection_count_per_client_username_threshold(), n.event_service_web_connection_count_per_client_username_threshold());
    assert_eq!(m.event_subscription_count_threshold(), n.event_subscription_count_threshold());
    assert_eq!(m.event_transacted_session_count_threshold(), n.event_transacted_session_count_threshold());
    assert_eq!(m.event_transaction_count_threshold(), n.event_transaction_count_threshold());
    assert_eq!(m.max_connection_count_per_client_username(), n.max_connection_count_per_client_username());
    assert_eq!(m.max_egress_flow_count(), n.max_egress_flow_count());
    assert_eq!(m.max_endpoint_count_per_client_username(), n.max_endpoint_count_per_client_username());
    assert_eq!(m.max_ingress_flow_count(), n.max_ingress_flow_count());
    assert_eq!(m.max_subscription_count(), n.max_subscription_count());
    assert_eq!(m.max_transacted_session_count(), n.max_transacted_session_count());
    assert_eq!(m.max_transaction_count(), n.max_transaction_count());
    assert_eq!(m.msg_vpn_name(), n.msg_vpn_name());
    assert_eq!(m.queue_control1_max_depth(), n.queue_control1_max_depth());
    assert_eq!(m.queue_control1_min_msg_burst(), n.queue_control1_min_msg_burst());
    assert_eq!(m.queue_direct1_max_depth(), n.queue_direct1_max_depth());
    assert_eq!(m.queue_direct1_min_msg_burst(), n.queue_direct1_min_msg_burst());
    assert_eq!(m.queue_direct2_max_depth(), n.queue_direct2_max_depth());
    assert_eq!(m.queue_direct2_min_msg_burst(), n.queue_direct2_min_msg_burst());
    assert_eq!(m.queue_direct3_max_depth(), n.queue_direct3_max_depth());
    assert_eq!(m.queue_direct3_min_msg_burst(), n.queue_direct3_min_msg_burst());
    assert_eq!(m.queue_guaranteed1_max_depth(), n.queue_guaranteed1_max_depth());
    assert_eq!(m.queue_guaranteed1_min_msg_burst(), n.queue_guaranteed1_min_msg_burst());
    assert_eq!(m.reject_msg_to_sender_on_no_subscription_match_enabled(), n.reject_msg_to_sender_on_no_subscription_match_enabled());
    assert_eq!(m.replication_allow_client_connect_when_standby_enabled(), n.replication_allow_client_connect_when_standby_enabled());
    assert_eq!(m.service_smf_max_connection_count_per_client_username(), n.service_smf_max_connection_count_per_client_username());
    assert_eq!(m.service_web_inactive_timeout(), n.service_web_inactive_timeout());
    assert_eq!(m.service_web_max_connection_count_per_client_username(), n.service_web_max_connection_count_per_client_username());
    assert_eq!(m.service_web_max_payload(), n.service_web_max_payload());
    assert_eq!(m.tcp_congestion_window_size(), n.tcp_congestion_window_size());
    assert_eq!(m.tcp_keepalive_count(), n.tcp_keepalive_count());
    assert_eq!(m.tcp_keepalive_idle_time(), n.tcp_keepalive_idle_time());
    assert_eq!(m.tcp_keepalive_interval(), n.tcp_keepalive_interval());
    assert_eq!(m.tcp_max_segment_size(), n.tcp_max_segment_size());
    assert_eq!(m.tcp_max_window_size(), n.tcp_max_window_size());
    assert_eq!(m.tls_allow_downgrade_to_plain_text_enabled(), n.tls_allow_downgrade_to_plain_text_enabled());
}

#[test]
fn msg_vpn_client_profile_reset_clears_only_its_attribute() {
    let mut m = msg_vpn_client_profile_all_set(0);
    m.reset_allow_bridge_connections_enabled();
    assert_eq!(m.allow_bridge_connections_enabled(), None);
    assert_eq!(m.allow_cut_through_forwarding_enabled(), Some(&false));
    assert_eq!(m.allow_guaranteed_endpoint_create_enabled(), Some(&true));
    assert_eq!(m.allow_guaranteed_msg_receive_enabled(), Some(&false));
    assert_eq!(m.allow_guaranteed_msg_send_enabled(), Some(&true));
    assert_eq!(m.allow_transacted_sessions_enabled(), Some(&false));
    assert_eq!(m.api_queue_management_copy_from_on_create_name(), Some(&"apiQueueManagementCopyFromOnCreateName-0".to_string()));
    assert_eq!(m.api_topic_endpoint_management_copy_from_on_create_name(), Some(&"apiTopicEndpointManagementCopyFromOnCreateName-0".to_string()));
    assert_eq!(m.client_profile_name(), Some(&"clientProfileName-0".to_string()));
    assert_eq!(m.compression_enabled(), Some(&false));
    assert_eq!(m.eliding_delay(), Some(&10017));
    assert_eq!(m.eliding_enabled(), Some(&false));
    assert_eq!(m.eliding_max_topic_count(), Some(&12017));
    assert_eq!(m.event_client_provisioned_endpoint_spool_usage_threshold(), Some(&EventThresholdByPercent { clear_percent: Some(50), set_percent: Some(103) }));
    assert_eq!(m.event_connection_count_per_client_username_threshold(), Some(&EventThreshold { clear_percent: Some(60), clear_value: None, set_percent: Some(94), set_value: Some(140) }));
    assert_eq!(m.event_egress_flow_count_threshold(), Some(&EventThreshold { clear_percent: Some(60), clear_value: None, set_percent: Some(95), set_value: Some(150) }));
    assert_eq!(m.event_endpoint_count_per_client_username_threshold(), Some(&EventThreshold { clear_percent: Some(60), clear_value: None, set_percent: Some(96), set_value: Some(160) }));
    assert_eq!(m.event_ingress_flow_count_threshold(), Some(&EventThreshold { clear_percent: Some(60), clear_value: None, set_percent: Some(97), set_value: Some(170) }));
    assert_eq!(m.event_service_smf_connection_count_per_client_username_threshold(), Some(&EventThreshold { clear_percent: Some(60), clear_value: None, set_percent: Some(98), set_value: Some(180) }));
    assert_eq!(m.event_service_web_connection_count_per_client_username_threshold(), Some(&EventThreshold { clear_percent: Some(60), clear_value: None, set_percent: Some(99), set_value: Some(190) }));
    assert_eq!(m.event_subscription_count_threshold(), Some(&EventThreshold { clear_percent: Some(60), clear_value: None, set_percent: Some(100), set_value: Some(200) }));
    assert_eq!(m.event_transacted_session_count_threshold(), Some(&EventThreshold { clear_percent: Some(60), clear_value: None, set_percent: Some(101), set_value: Some(210) }));
    assert_eq!(m.event_transaction_count_threshold(), Some(&EventThreshold { clear_percent: Some(60), clear_value: None, set_percent: Some(102), set_value: Some(220) }));
    assert_eq!(m.max_connection_count_per_client_username(), Some(&23017));
    assert_eq!(m.max_egress_flow_count(), Some(&24017));
    assert_eq!(m.max_endpoint_count_per_client_username(), Some(&25017));
    assert_eq!(m.max_ingress_flow_count(), Some(&26017));
    assert_eq!(m.max_subscription_count(), Some(&27017));
    assert_eq!(m.max_transacted_session_count(), Some(&28017));
    assert_eq!(m.max_transaction_count(), Some(&29017));
    assert_eq!(m.msg_vpn_name(), Some(&"msgVpnName-0".to_string()));
    assert_eq!(m.queue_control1_max_depth(), Some(&220));
    assert_eq!(m.queue_control1_min_msg_burst(), Some(&227));
    assert_eq!(m.queue_direct1_max_depth(), Some(&234));
    assert_eq!(m.queue_direct1_min_msg_burst(), Some(&241));
    assert_eq!(m.queue_direct2_max_depth(), Some(&248));
    assert_eq!(m.queue_direct2_min_msg_burst(), Some(&255));
    assert_eq!(m.queue_direct3_max_depth(), Some(&262));
    assert_eq!(m.queue_direct3_min_msg_burst(), Some(&269));
    assert_eq!(m.queue_guaranteed1_max_depth(), Some(&276));
    assert_eq!(m.queue_guaranteed1_min_msg_burst(), Some(&283));
    assert_eq!(m.reject_msg_to_sender_on_no_subscription_match_enabled(), Some(&false));
    assert_eq!(m.replication_allow_client_connect_when_standby_enabled(), Some(&true));
    assert_eq!(m.service_smf_max_connection_count_per_client_username(), Some(&43017));
    assert_eq!(m.service_web_inactive_timeout(), Some(&44017));
    assert_eq!(m.service_web_max_connection_count_per_client_username(), Some(&45017));
    assert_eq!(m.service_web_max_payload(), Some(&46017));
    assert_eq!(m.tcp_congestion_window_size(), Some(&47017));
    assert_eq!(m.tcp_keepalive_count(), Some(&48017));
    assert_eq!(m.tcp_keepalive_idle_time(), Some(&49017));
    assert_eq!(m.tcp_keepalive_interval(), Some(&50017));
    assert_eq!(m.tcp_max_segment_size(), Some(&51017));
    assert_eq!(m.tcp_max_window_size(), Some(&52017));
    assert_eq!(m.tls_allow_downgrade_to_plain_text_enabled(), Some(&false));
    let mut m = msg_vpn_client_profile_all_set(0);
    m.reset_max_subscription_count();
    assert_eq!(m.allow_bridge_connections_enabled(), Some(&true));
    assert_eq!(m.allow_cut_through_forwarding_enabled(), Some(&false));
    assert_eq!(m.allow_guaranteed_endpoint_create_enabled(), Some(&true));
    assert_eq!(m.allow_guaranteed_msg_receive_enabled(), Some(&false));
    assert_eq!(m.allow_guaranteed_msg_send_enabled(), Some(&true));
    assert_eq!(m.allow_transacted_sessions_enabled(), Some(&false));
    assert_eq!(m.api_queue_management_copy_from_on_create_name(), Some(&"apiQueueManagementCopyFromOnCreateName-0".to_string()));
    assert_eq!(m.api_topic_endpoint_management_copy_from_on_create_name(), Some(&"apiTopicEndpointManagementCopyFromOnCreateName-0".to_string()));
    assert_eq!(m.client_profile_name(), Some(&"clientProfileName-0".to_string()));
    assert_eq!(m.compression_enabled(), Some(&false));
    assert_eq!(m.eliding_delay(), Some(&10017));
    assert_eq!(m.eliding_enabled(), Some(&false));
    assert_eq!(m.eliding_max_topic_count(), Some(&12017));
    assert_eq!(m.event_client_provisioned_endpoint_spool_usage_threshold(), Some(&EventThresholdByPercent { clear_percent: Some(50), set_percent: Some(103) }));
    assert_eq!(m.event_connection_count_per_client_username_threshold(), Some(&EventThreshold { clear_percent: Some(60), clear_value: None, set_percent: Some(94), set_value: Some(140) }));
    assert_eq!(m.event_egress_flow_count_threshold(), Some(&EventThreshold { clear_percent: Some(60), clear_value: None, set_percent: Some(95), set_value: Some(150) }));
    assert_eq!(m.event_endpoint_count_per_client_username_threshold(), Some(&EventThreshold { clear_percent: Some(60), clear_value: None, set_percent: Some(96), set_value: Some(160) }));
    assert_eq!(m.event_ingress_flow_count_threshold(), Some(&EventThreshold { clear_percent: Some(60), clear_value: None, set_percent: Some(97), set_value: Some(170) }));
    assert_eq!(m.event_service_smf_connection_count_per_client_username_threshold(), Some(&EventThreshold { clear_percent: Some(60), clear_value: None, set_percent: Some(98), set_value: Some(180) }));
    assert_eq!(m.event_service_web_connection_count_per_client_username_threshold(), Some(&EventThreshold { clear_percent: Some(60), clear_value: None, set_percent: Some(99), set_value: Some(190) }));
    assert_eq!(m.event_subscription_count_threshold(), Some(&EventThreshold { clear_percent: Some(60), clear_value: None, set_percent: Some(100), set_value: Some(200) }));
    assert_eq!(m.event_transacted_session_count_threshold(), Some(&EventThreshold { clear_percent: Some(60), clear_value: None, set_percent: Some(101), set_value: Some(210) }));
    assert_eq!(m.event_transaction_count_threshold(), Some(&EventThreshold { clear_percent: Some(60), clear_value: None, set_percent: Some(102), set_value: Some(220) }));
    assert_eq!(m.max_connection_count_per_client_username(), Some(&23017));
    assert_eq!(m.max_egress_flow_count(), Some(&24017));
    assert_eq!(m.max_endpoint_count_per_client_username(), Some(&25017));
    assert_eq!(m.max_ingress_flow_count(), Some(&26017));
    assert_eq!(m.max_subscription_count(), None);
    assert_eq!(m.max_transacted_session_count(), Some(&28017));
    assert_eq!(m.max_transaction_count(), Some(&29017));
    assert_eq!(m.msg_vpn_name(), Some(&"msgVpnName-0".to_string()));
    assert_eq!(m.queue_control1_max_depth(), Some(&220));
    assert_eq!(m.queue_control1_min_msg_burst(), Some(&227));
    assert_eq!(m.queue_direct1_max_depth(), Some(&234));
    assert_eq!(m.queue_direct1_min_msg_burst(), Some(&241));
    assert_eq!(m.queue_direct2_max_depth(), Some(&248));
    assert_eq!(m.queue_direct2_min_msg_burst(), Some(&255));
    assert_eq!(m.queue_direct3_max_depth(), Some(&262));
    assert_eq!(m.queue_direct3_min_msg_burst(), Some(&269));
    assert_eq!(m.queue_guaranteed1_max_depth(), Some(&276));
    assert_eq!(m.queue_guaranteed1_min_msg_burst(), Some(&283));
    assert_eq!(m.reject_msg_to_sender_on_no_subscription_match_enabled(), Some(&false));
    assert_eq!(m.replication_allow_client_connect_when_standby_enabled(), Some(&true));
    assert_eq!(m.service_smf_max_connection_count_per_client_username(), Some(&43017));
    assert_eq!(m.service_web_inactive_timeout(), Some(&44017));
    assert_eq!(m.service_web_max_connection_count_per_client_username(), Some(&45017));
    assert_eq!(m.service_web_max_payload(), Some(&46017));
    assert_eq!(m.tcp_congestion_window_size(), Some(&47017));
    assert_eq!(m.tcp_keepalive_count(), Some(&48017));
    assert_eq!(m.tcp_keepalive_idle_time(), Some(&49017));
    assert_eq!(m.tcp_keepalive_interval(), Some(&50017));
    assert_eq!(m.tcp_max_segment_size(), Some(&51017));
    assert_eq!(m.tcp_max_window_size(), Some(&52017));
    assert_eq!(m.tls_allow_downgrade_to_plain_text_enabled(), Some(&false));
    let mut m = msg_vpn_client_profile_all_set(0);
    m.reset_tls_allow_downgrade_to_plain_text_enabled();
    assert_eq!(m.allow_bridge_connections_enabled(), Some(&true));
    assert_eq!(m.allow_cut_through_forwarding_enabled(), Some(&false));
    assert_eq!(m.allow_guaranteed_endpoint_create_enabled(), Some(&true));
    assert_eq!(m.allow_guaranteed_msg_receive_enabled(), Some(&false));
    assert_eq!(m.allow_guaranteed_msg_send_enabled(), Some(&true));
    assert_eq!(m.allow_transacted_sessions_enabled(), Some(&false));
    assert_eq!(m.api_queue_management_copy_from_on_create_name(), Some(&"apiQueueManagementCopyFromOnCreateName-0".to_string()));
    assert_eq!(m.api_topic_endpoint_management_copy_from_on_create_name(), Some(&"apiTopicEndpointManagementCopyFromOnCreateName-0".to_string()));
    assert_eq!(m.client_profile_name(), Some(&"clientProfileName-0".to_string()));
    assert_eq!(m.compression_enabled(), Some(&false));
    assert_eq!(m.eliding_delay(), Some(&10017));
    assert_eq!(m.eliding_enabled(), Some(&false));
    assert_eq!(m.eliding_max_topic_count(), Some(&12017));
    assert_eq!(m.event_client_provisioned_endpoint_spool_usage_threshold(), Some(&EventThresholdByPercent { clear_percent: Some(50), set_percent: Some(103) }));
    assert_eq!(m.event_connection_count_per_client_username_threshold(), Some(&EventThreshold { clear_percent: Some(60), clear_value: None, set_percent: Some(94), set_value: Some(140) }));
    assert_eq!(m.event_egress_flow_count_threshold(), Some(&EventThreshold { clear_percent: Some(60), clear_value: None, set_percent: Some(95), set_value: Some(150) }));
    assert_eq!(m.event_endpoint_count_per_client_username_threshold(), Some(&EventThreshold { clear_percent: Some(60), clear_value: None, set_percent: Some(96), set_value: Some(160) }));
    assert_eq!(m.event_ingress_flow_count_threshold(), Some(&EventThreshold { clear_percent: Some(60), clear_value: None, set_percent: Some(97), set_value: Some(170) }));
    assert_eq!(m.event_service_smf_connection_count_per_client_username_threshold(), Some(&EventThreshold { clear_percent: Some(60), clear_value: None, set_percent: Some(98), set_value: Some(180) }));
    assert_eq!(m.event_service_web_connection_count_per_client_username_threshold(), Some(&EventThreshold { clear_percent: Some(60), clear_value: None, set_percent: Some(99), set_value: Some(190) }));
    assert_eq!(m.event_subscription_count_threshold(), Some(&EventThreshold { clear_percent: Some(60), clear_value: None, set_percent: Some(100), set_value: Some(200) }));
    assert_eq!(m.event_transacted_session_count_threshold(), Some(&EventThreshold { clear_percent: Some(60), clear_value: None, set_percent: Some(101), set_value: Some(210) }));
    assert_eq!(m.event_transaction_count_threshold(), Some(&EventThreshold { clear_percent: Some(60), clear_value: None, set_percent: Some(102), set_value: Some(220) }));
    assert_eq!(m.max_connection_count_per_client_username(), Some(&23017));
    assert_eq!(m.max_egress_flow_count(), Some(&24017));
    assert_eq!(m.max_endpoint_count_per_client_username(), Some(&25017));
    assert_eq!(m.max_ingress_flow_count(), Some(&26017));
    assert_eq!(m.max_subscription_count(), Some(&27017));
    assert_eq!(m.max_transacted_session_count(), Some(&28017));
    assert_eq!(m.max_transaction_count(), Some(&29017));
    assert_eq!(m.msg_vpn_name(), Some(&"msgVpnName-0".to_string()));
    assert_eq!(m.queue_control1_max_depth(), Some(&220));
    assert_eq!(m.queue_control1_min_msg_burst(), Some(&227));
    assert_eq!(m.queue_direct1_max_depth(), Some(&234));
    assert_eq!(m.queue_direct1_min_msg_burst(), Some(&241));
    assert_eq!(m.queue_direct2_max_depth(), Some(&248));
    assert_eq!(m.queue_direct2_min_msg_burst(), Some(&255));
    assert_eq!(m.queue_direct3_max_depth(), Some(&262));
    assert_eq!(m.queue_direct3_min_msg_burst(), Some(&269));
    assert_eq!(m.queue_guaranteed1_max_depth(), Some(&276));
    assert_eq!(m.queue_guaranteed1_min_msg_burst(), Some(&283));
    assert_eq!(m.reject_msg_to_sender_on_no_subscription_match_enabled(), Some(&false));
    assert_eq!(m.replication_allow_client_connect_when_standby_enabled(), Some(&true));
    assert_eq!(m.service_smf_max_connection_count_per_client_username(), Some(&43017));
    assert_eq!(m.service_web_inactive_timeout(), Some(&44017));
    assert_eq!(m.service_web_max_connection_count_per_client_username(), Some(&45017));
    assert_eq!(m.service_web_max_payload(), Some(&46017));
    assert_eq!(m.tcp_congestion_window_size(), Some(&47017));
    assert_eq!(m.tcp_keepalive_count(), Some(&48017));
    assert_eq!(m.tcp_keepalive_idle_time(), Some(&49017));
    assert_eq!(m.tcp_keepalive_interval(), Some(&50017));
    assert_eq!(m.tcp_max_segment_size(), Some(&51017));
    assert_eq!(m.tcp_max_window_size(), Some(&52017));
    assert_eq!(m.tls_allow_downgrade_to_plain_text_enabled(), None);
    let mut m = msg_vpn_client_profile_all_set(0);
    m.reset_allow_bridge_connections_enabled();
    m.reset_allow_cut_through_forwarding_enabled();
    m.reset_allow_guaranteed_endpoint_create_enabled();
    m.reset_allow_guaranteed_msg_receive_enabled();
    m.reset_allow_guaranteed_msg_send_enabled();
    m.reset_allow_transacted_sessions_enabled();
    m.reset_api_queue_management_copy_from_on_create_name();
    m.reset_api_topic_endpoint_management_copy_from_on_create_name();
    m.reset_client_profile_name();
    m.reset_compression_enabled();
    m.reset_eliding_delay();
    m.reset_eliding_enabled();
    m.reset_eliding_max_topic_count();
    m.reset_event_client_provisioned_endpoint_spool_usage_threshold();
    m.reset_event_connection_count_per_client_username_threshold();
    m.reset_event_egress_flow_count_threshold();
    m.reset_event_endpoint_count_per_client_username_threshold();
    m.reset_event_ingress_flow_count_threshold();
    m.reset_event_service_smf_connection_count_per_client_username_threshold();
    m.reset_event_service_web_connection_count_per_client_username_threshold();
    m.reset_event_subscription_count_threshold();
    m.reset_event_transacted_session_count_threshold();
    m.reset_event_transaction_count_threshold();
    m.reset_max_connection_count_per_client_username();
    m.reset_max_egress_flow_count();
    m.reset_max_endpoint_count_per_client_username();
    m.reset_max_ingress_flow_count();
    m.reset_max_subscription_count();
    m.reset_max_transacted_session_count();
    m.reset_max_transaction_count();
    m.reset_msg_vpn_name();
    m.reset_queue_control1_max_depth();
    m.reset_queue_control1_min_msg_burst();
    m.reset_queue_direct1_max_depth();
    m.reset_queue_direct1_min_msg_burst();
    m.reset_queue_direct2_max_depth();
    m.reset_queue_direct2_min_msg_burst();
    m.reset_queue_direct3_max_depth();
    m.reset_queue_direct3_min_msg_burst();
    m.reset_queue_guaranteed1_max_depth();
    m.reset_queue_guaranteed1_min_msg_burst();
    m.reset_reject_msg_to_sender_on_no_subscription_match_enabled();
    m.reset_replication_allow_client_connect_when_standby_enabled();
    m.reset_service_smf_max_connection_count_per_client_username();
    m.reset_service_web_inactive_timeout();
    m.reset_service_web_max_connection_count_per_client_username();
    m.reset_service_web_max_payload();
    m.reset_tcp_congestion_window_size();
    m.reset_tcp_keepalive_count();
    m.reset_tcp_keepalive_idle_time();
    m.reset_tcp_keepalive_interval();
    m.reset_tcp_max_segment_size();
    m.reset_tcp_max_window_size();
    m.reset_tls_allow_downgrade_to_plain_text_enabled();
    assert_eq!(m.allow_bridge_connections_enabled(), None);
    assert_eq!(m.allow_cut_through_forwarding_enabled(), None);
    assert_eq!(m.allow_guaranteed_endpoint_create_enabled(), None);
    assert_eq!(m.allow_guaranteed_msg_receive_enabled(), None);
    assert_eq!(m.allow_guaranteed_msg_send_enabled(), None);
    assert_eq!(m.allow_transacted_sessions_enabled(), None);
    assert_eq!(m.api_queue_management_copy_from_on_create_name(), None);
    assert_eq!(m.api_topic_endpoint_management_copy_from_on_create_name(), None);
    assert_eq!(m.client_profile_name(), None);
    assert_eq!(m.compression_enabled(), None);
    assert_eq!(m.eliding_delay(), None);
    assert_eq!(m.eliding_enabled(), None);
    assert_eq!(m.eliding_max_topic_count(), None);
    assert_eq!(m.event_client_provisioned_endpoint_spool_usage_threshold(), None);
    assert_eq!(m.event_connection_count_per_client_username_threshold(), None);
    assert_eq!(m.event_egress_flow_count_threshold(), None);
    assert_eq!(m.event_endpoint_count_per_client_username_threshold(), None);
    assert_eq!(m.event_ingress_flow_count_threshold(), None);
    assert_eq!(m.event_service_smf_connection_count_per_client_username_threshold(), None);
    assert_eq!(m.event_service_web_connection_count_per_client_username_threshold(), None);
    assert_eq!(m.event_subscription_count_threshold(), None);
    assert_eq!(m.event_transacted_session_count_threshold(), None);
    assert_eq!(m.event_transaction_count_threshold(), None);
    assert_eq!(m.max_connection_count_per_client_username(), None);
    assert_eq!(m.max_egress_flow_count(), None);
    assert_eq!(m.max_endpoint_count_per_client_username(), None);
    assert_eq!(m.max_ingress_flow_count(), None);
    assert_eq!(m.max_subscription_count(), None);
    assert_eq!(m.max_transacted_session_count(), None);
    assert_eq!(m.max_transaction_count(), None);
    assert_eq!(m.msg_vpn_name(), None);
    assert_eq!(m.queue_control1_max_depth(), None);
    assert_eq!(m.queue_control1_min_msg_burst(), None);
    assert_eq!(m.queue_direct1_max_depth(), None);
    assert_eq!(m.queue_direct1_min_msg_burst(), None);
    assert_eq!(m.queue_direct2_max_depth(), None);
    assert_eq!(m.queue_direct2_min_msg_burst(), None);
    assert_eq!(m.queue_direct3_max_depth(), None);
    assert_eq!(m.queue_direct3_min_msg_burst(), None);
    assert_eq!(m.queue_guaranteed1_max_depth(), None);
    assert_eq!(m.queue_guaranteed1_min_msg_burst(), None);
    assert_eq!(m.reject_msg_to_sender_on_no_subscription_match_enabled(), None);
    assert_eq!(m.replication_allow_client_connect_when_standby_enabled(), None);
    assert_eq!(m.service_smf_max_connection_count_per_client_username(), None);
    assert_eq!(m.service_web_inactive_timeout(), None);
    assert_eq!(m.service_web_max_connection_count_per_client_username(), None);
    assert_eq!(m.service_web_max_payload(), None);
    assert_eq!(m.tcp_congestion_window_size(), None);
    assert_eq!(m.tcp_keepalive_count(), None);
    assert_eq!(m.tcp_keepalive_idle_time(), None);
    assert_eq!(m.tcp_keepalive_interval(), None);
    assert_eq!(m.tcp_max_segment_size(), None);
    assert_eq!(m.tcp_max_window_size(), None);
    assert_eq!(m.tls_allow_downgrade_to_plain_text_enabled(), None);
}

#[test]
fn msg_vpn_client_profile_last_write_wins() {
    let mut m = msg_vpn_client_profile_all_set(0);
    m.set_allow_bridge_connections_enabled(false);
    m.set_allow_cut_through_forwarding_enabled(true);
    m.set_allow_guaranteed_endpoint_create_enabled(false);
    m.set_allow_guaranteed_msg_receive_enabled(true);
    m.set_allow_guaranteed_msg_send_enabled(false);
    m.set_allow_transacted_sessions_enabled(true);
    m.set_api_queue_management_copy_from_on_create_name("apiQueueManagementCopyFromOnCreateName-1".to_string());
    m.set_api_topic_endpoint_management_copy_from_on_create_name("apiTopicEndpointManagementCopyFromOnCreateName-1".to_string());
    m.set_client_profile_name("clientProfileName-1".to_string());
    m.set_compression_enabled(true);
    m.set_eliding_delay(10018);
    m.set_eliding_enabled(true);
    m.set_eliding_max_topic_count(12018);
    m.set_event_client_provisioned_endpoint_spool_usage_threshold(EventThresholdByPercent { clear_percent: Some(51), set_percent: Some(103) });
    m.set_event_connection_count_per_client_username_threshold(EventThreshold { clear_percent: Some(61), clear_value: None, set_percent: Some(94), set_value: Some(141) });
    m.set_event_egress_flow_count_threshold(EventThreshold { clear_percent: Some(61), clear_value: None, set_percent: Some(95), set_value: Some(151) });
    m.set_event_endpoint_count_per_client_username_threshold(EventThreshold { clear_percent: Some(61), clear_value: None, set_percent: Some(96), set_value: Some(161) });
    m.set_event_ingress_flow_count_threshold(EventThreshold { clear_percent: Some(61), clear_value: None, set_percent: Some(97), set_value: Some(171) });
    m.set_event_service_smf_connection_count_per_client_username_threshold(EventThreshold { clear_percent: Some(61), clear_value: None, set_percent: Some(98), set_value: Some(181) });
    m.set_event_service_web_connection_count_per_client_username_threshold(EventThreshold { clear_percent: Some(61), clear_value: None, set_percent: Some(99), set_value: Some(191) });
    m.set_event_subscription_count_threshold(EventThreshold { clear_percent: Some(61), clear_value: None, set_percent: Some(100), set_value: Some(201) });
    m.set_event_transacted_session_count_threshold(EventThreshold { clear_percent: Some(61), clear_value: None, set_percent: Some(101), set_value: Some(211) });
    m.set_event_transaction_count_threshold(EventThreshold { clear_percent: Some(61), clear_value: None, set_percent: Some(102), set_value: Some(221) });
    m.set_max_connection_count_per_client_username(23018);
    m.set_max_egress_flow_count(24018);
    m.set_max_endpoint_count_per_client_username(25018);
    m.set_max_ingress_flow_count(26018);
    m.set_max_subscription_count(27018);
    m.set_max_transacted_session_count(28018);
    m.set_max_transaction_count(29018);
    m.set_msg_vpn_name("msgVpnName-1".to_string());
    m.set_queue_control1_max_depth(221);
    m.set_queue_control1_min_msg_burst(228);
    m.set_queue_direct1_max_depth(235);
    m.set_queue_direct1_min_msg_burst(242);
    m.set_queue_direct2_max_depth(249);
    m.set_queue_direct2_min_msg_burst(256);
    m.set_queue_direct3_max_depth(263);
    m.set_queue_direct3_min_msg_burst(270);
    m.set_queue_guaranteed1_max_depth(277);
    m.set_queue_guaranteed1_min_msg_burst(284);
    m.set_reject_msg_to_sender_on_no_subscription_match_enabled(true);
    m.set_replication_allow_client_connect_when_standby_enabled(false);
    m.set_service_smf_max_connection_count_per_client_username(43018);
    m.set_service_web_inactive_timeout(44018);
    m.set_service_web_max_connection_count_per_client_username(45018);
    m.set_service_web_max_payload(46018);
    m.set_tcp_congestion_window_size(47018);
    m.set_tcp_keepalive_count(48018);
    m.set_tcp_keepalive_idle_time(49018);
    m.set_tcp_keepalive_interval(50018);
    m.set_tcp_max_segment_size(51018);
    m.set_tcp_max_window_size(52018);
    m.set_tls_allow_downgrade_to_plain_text_enabled(true);
    assert_eq!(m.allow_bridge_connections_enabled(), Some(&false));
    assert_eq!(m.allow_cut_through_forwarding_enabled(), Some(&true));
    assert_eq!(m.allow_guaranteed_endpoint_create_enabled(), Some(&false));
    assert_eq!(m.allow_guaranteed_msg_receive_enabled(), Some(&true));
    assert_eq!(m.allow_guaranteed_msg_send_enabled(), Some(&false));
    assert_eq!(m.allow_transacted_sessions_enabled(), Some(&true));
    assert_eq!(m.api_queue_management_copy_from_on_create_name(), Some(&"apiQueueManagementCopyFromOnCreateName-1".to_string()));
    assert_eq!(m.api_topic_endpoint_management_copy_from_on_create_name(), Some(&"apiTopicEndpointManagementCopyFromOnCreateName-1".to_string()));
    assert_eq!(m.client_profile_name(), Some(&"clientProfileName-1".to_string()));
    assert_eq!(m.compression_enabled(), Some(&true));
    assert_eq!(m.eliding_delay(), Some(&10018));
    assert_eq!(m.eliding_enabled(), Some(&true));
    assert_eq!(m.eliding_max_topic_count(), Some(&12018));
    assert_eq!(m.event_client_provisioned_endpoint_spool_usage_threshold(), Some(&EventThresholdByPercent { clear_percent: Some(51), set_percent: Some(103) }));
    assert_eq!(m.event_connection_count_per_client_username_threshold(), Some(&EventThreshold { clear_percent: Some(61), clear_value: None, set_percent: Some(94), set_value: Some(141) }));
    assert_eq!(m.event_egress_flow_count_threshold(), Some(&EventThreshold { clear_percent: Some(61), clear_value: None, set_percent: Some(95), set_value: Some(151) }));
    assert_eq!(m.event_endpoint_count_per_client_username_threshold(), Some(&EventThreshold { clear_percent: Some(61), clear_value: None, set_percent: Some(96), set_value: Some(161) }));
    assert_eq!(m.event_ingress_flow_count_threshold(), Some(&EventThreshold { clear_percent: Some(61), clear_value: None, set_percent: Some(97), set_value: Some(171) }));
    assert_eq!(m.event_service_smf_connection_count_per_client_username_threshold(), Some(&EventThreshold { clear_percent: Some(61), clear_value: None, set_percent: Some(98), set_value: Some(181) }));
    assert_eq!(m.event_service_web_connection_count_per_client_username_threshold(), Some(&EventThreshold { clear_percent: Some(61), clear_value: None, set_percent: Some(99), set_value: Some(191) }));
    assert_eq!(m.event_subscription_count_threshold(), Some(&EventThreshold { clear_percent: Some(61), clear_value: None, set_percent: Some(100), set_value: Some(201) }));
    assert_eq!(m.event_transacted_session_count_threshold(), Some(&EventThreshold { clear_percent: Some(61), clear_value: None, set_percent: Some(101), set_value: Some(211) }));
    assert_eq!(m.event_transaction_count_threshold(), Some(&EventThreshold { clear_percent: Some(61), clear_value: None, set_percent: Some(102), set_value: Some(221) }));
    assert_eq!(m.max_connection_count_per_client_username(), Some(&23018));
    assert_eq!(m.max_egress_flow_count(), Some(&24018));
    assert_eq!(m.max_endpoint_count_per_client_username(), Some(&25018));
    assert_eq!(m.max_ingress_flow_count(), Some(&26018));
    assert_eq!(m.max_subscription_count(), Some(&27018));
    assert_eq!(m.max_transacted_session_count(), Some(&28018));
    assert_eq!(m.max_transaction_count(), Some(&29018));
    assert_eq!(m.msg_vpn_name(), Some(&"msgVpnName-1".to_string()));
    assert_eq!(m.queue_control1_max_depth(), Some(&221));
    assert_eq!(m.queue_control1_min_msg_burst(), Some(&228));
    assert_eq!(m.queue_direct1_max_depth(), Some(&235));
    assert_eq!(m.queue_direct1_min_msg_burst(), Some(&242));
    assert_eq!(m.queue_direct2_max_depth(), Some(&249));
    assert_eq!(m.queue_direct2_min_msg_burst(), Some(&256));
    assert_eq!(m.queue_direct3_max_depth(), Some(&263));
    assert_eq!(m.queue_direct3_min_msg_burst(), Some(&270));
    assert_eq!(m.queue_guaranteed1_max_depth(), Some(&277));
    assert_eq!(m.queue_guaranteed1_min_msg_burst(), Some(&284));
    assert_eq!(m.reject_msg_to_sender_on_no_subscription_match_enabled(), Some(&true));
    assert_eq!(m.replication_allow_client_connect_when_standby_enabled(), Some(&false));
    assert_eq!(m.service_smf_max_connection_count_per_client_username(), Some(&43018));
    assert_eq!(m.service_web_inactive_timeout(), Some(&44018));
    assert_eq!(m.service_web_max_connection_count_per_client_username(), Some(&45018));
    assert_eq!(m.service_web_max_payload(), Some(&46018));
    assert_eq!(m.tcp_congestion_window_size(), Some(&47018));
    assert_eq!(m.tcp_keepalive_count(), Some(&48018));
    assert_eq!(m.tcp_keepalive_idle_time(), Some(&49018));
    assert_eq!(m.tcp_keepalive_interval(), Some(&50018));
    assert_eq!(m.tcp_max_segment_size(), Some(&51018));
    assert_eq!(m.tcp_max_window_size(), Some(&52018));
    assert_eq!(m.tls_allow_downgrade_to_plain_text_enabled(), Some(&true));
}

#[test]
fn msg_vpn_client_profile_reset_twice_and_rewrite() {
    let mut m = msg_vpn_client_profile_all_set(0);
    m.reset_allow_bridge_connections_enabled();
    m.reset_allow_bridge_connections_enabled();
    m.set_allow_bridge_connections_enabled(true);
    m.set_allow_bridge_connections_enabled(true);
    m.reset_allow_cut_through_forwarding_enabled();
    m.reset_allow_cut_through_forwarding_enabled();
    m.set_allow_cut_through_forwarding_enabled(false);
    m.set_allow_cut_through_forwarding_enabled(false);
    m.reset_allow_guaranteed_endpoint_create_enabled();
    m.reset_allow_guaranteed_endpoint_create_enabled();
    m.set_allow_guaranteed_endpoint_create_enabled(true);
    m.set_allow_guaranteed_endpoint_create_enabled(true);
    m.reset_allow_guaranteed_msg_receive_enabled();
    m.reset_allow_guaranteed_msg_receive_enabled();
    m.set_allow_guaranteed_msg_receive_enabled(false);
    m.set_allow_guaranteed_msg_receive_enabled(false);
    m.reset_allow_guaranteed_msg_send_enabled();
    m.reset_allow_guaranteed_msg_send_enabled();
    m.set_allow_guaranteed_msg_send_enabled(true);
    m.set_allow_guaranteed_msg_send_enabled(true);
    m.reset_allow_transacted_sessions_enabled();
    m.reset_allow_transacted_sessions_enabled();
    m.set_allow_transacted_sessions_enabled(false);
    m.set_allow_transacted_sessions_enabled(false);
    m.reset_api_queue_management_copy_from_on_create_name();
    m.reset_api_queue_management_copy_from_on_create_name();
    m.set_api_queue_management_copy_from_on_create_name("apiQueueManagementCopyFromOnCreateName-0".to_string());
    m.set_api_queue_management_copy_from_on_create_name("apiQueueManagementCopyFromOnCreateName-0".to_string());
    m.reset_api_topic_endpoint_management_copy_from_on_create_name();
    m.reset_api_topic_endpoint_management_copy_from_on_create_name();
    m.set_api_topic_endpoint_management_copy_from_on_create_name("apiTopicEndpointManagementCopyFromOnCreateName-0".to_string());
    m.set_api_topic_endpoint_management_copy_from_on_create_name("apiTopicEndpointManagementCopyFromOnCreateName-0".to_string());
    m.reset_client_profile_name();
    m.reset_client_profile_name();
    m.set_client_profile_name("clientProfileName-0".to_string());
    m.set_client_profile_name("clientProfileName-0".to_string());
    m.reset_compression_enabled();
    m.reset_compression_enabled();
    m.set_compression_enabled(false);
    m.set_compression_enabled(false);
    m.reset_eliding_delay();
    m.reset_eliding_delay();
    m.set_eliding_delay(10017);
    m.set_eliding_delay(10017);
    m.reset_eliding_enabled();
    m.reset_eliding_enabled();
    m.set_eliding_enabled(false);
    m.set_eliding_enabled(false);
    m.reset_eliding_max_topic_count();
    m.reset_eliding_max_topic_count();
    m.set_eliding_max_topic_count(12017);
    m.set_eliding_max_topic_count(12017);
    m.reset_event_client_provisioned_endpoint_spool_usage_threshold();
    m.reset_event_client_provisioned_endpoint_spool_usage_threshold();
    m.set_event_client_provisioned_endpoint_spool_usage_threshold(EventThresholdByPercent { clear_percent: Some(50), set_percent: Some(103) });
    m.set_event_client_provisioned_endpoint_spool_usage_threshold(EventThresholdByPercent { clear_percent: Some(50), set_percent: Some(103) });
    m.reset_event_connection_count_per_client_username_threshold();
    m.reset_event_connection_count_per_client_username_threshold();
    m.set_event_connection_count_per_client_username_threshold(EventThreshold { clear_percent: Some(60), clear_value: None, set_percent: Some(94), set_value: Some(140) });
    m.set_event_connection_count_per_client_username_threshold(EventThreshold { clear_percent: Some(60), clear_value: None, set_percent: Some(94), set_value: Some(140) });
    m.reset_event_egress_flow_count_threshold();
    m.reset_event_egress_flow_count_threshold();
    m.set_event_egress_flow_count_threshold(EventThreshold { clear_percent: Some(60), clear_value: None, set_percent: Some(95), set_value: Some(150) });
    m.set_event_egress_flow_count_threshold(EventThreshold { clear_percent: Some(60), clear_value: None, set_percent: Some(95), set_value: Some(150) });
    m.reset_event_endpoint_count_per_client_username_threshold();
    m.reset_event_endpoint_count_per_client_username_threshold();
    m.set_event_endpoint_count_per_client_username_threshold(EventThreshold { clear_percent: Some(60), clear_value: None, set_percent: Some(96), set_value: Some(160) });
    m.set_event_endpoint_count_per_client_username_threshold(EventThreshold { clear_percent: Some(60), clear_value: None, set_percent: Some(96), set_value: Some(160) });
    m.reset_event_ingress_flow_count_threshold();
    m.reset_event_ingress_flow_count_threshold();
    m.set_event_ingress_flow_count_threshold(EventThreshold { clear_percent: Some(60), clear_value: None, set_percent: Some(97), set_value: Some(170) });
    m.set_event_ingress_flow_count_threshold(EventThreshold { clear_percent: Some(60), clear_value: None, set_percent: Some(97), set_value: Some(170) });
    m.reset_event_service_smf_connection_count_per_client_username_threshold();
    m.reset_event_service_smf_connection_count_per_client_username_threshold();
    m.set_event_service_smf_connection_count_per_client_username_threshold(EventThreshold { clear_percent: Some(60), clear_value: None, set_percent: Some(98), set_value: Some(180) });
    m.set_event_service_smf_connection_count_per_client_username_threshold(EventThreshold { clear_percent: Some(60), clear_value: None, set_percent: Some(98), set_value: Some(180) });
    m.reset_event_service_web_connection_count_per_client_username_threshold();
    m.reset_event_service_web_connection_count_per_client_username_threshold();
    m.set_event_service_web_connection_count_per_client_username_threshold(EventThreshold { clear_percent: Some(60), clear_value: None, set_percent: Some(99), set_value: Some(190) });
    m.set_event_service_web_connection_count_per_client_username_threshold(EventThreshold { clear_percent: Some(60), clear_value: None, set_percent: Some(99), set_value: Some(190) });
    m.reset_event_subscription_count_threshold();
    m.reset_event_subscription_count_threshold();
    m.set_event_subscription_count_threshold(EventThreshold { clear_percent: Some(60), clear_value: None, set_percent: Some(100), set_value: Some(200) });
    m.set_event_subscription_count_threshold(EventThreshold { clear_percent: Some(60), clear_value: None, set_percent: Some(100), set_value: Some(200) });
    m.reset_event_transacted_session_count_threshold();
    m.reset_event_transacted_session_count_threshold();
    m.set_event_transacted_session_count_threshold(EventThreshold { clear_percent: Some(60), clear_value: None, set_percent: Some(101), set_value: Some(210) });
    m.set_event_transacted_session_count_threshold(EventThreshold { clear_percent: Some(60), clear_value: None, set_percent: Some(101), set_value: Some(210) });
    m.reset_event_transaction_count_threshold();
    m.reset_event_transaction_count_threshold();
    m.set_event_transaction_count_threshold(EventThreshold { clear_percent: Some(60), clear_value: None, set_percent: Some(102), set_value: Some(220) });
    m.set_event_transaction_count_threshold(EventThreshold { clear_percent: Some(60), clear_value: None, set_percent: Some(102), set_value: Some(220) });
    m.reset_max_connection_count_per_client_username();
    m.reset_max_connection_count_per_client_username();
    m.set_max_connection_count_per_client_username(23017);
    m.set_max_connection_count_per_client_username(23017);
    m.reset_max_egress_flow_count();
    m.reset_max_egress_flow_count();
    m.set_max_egress_flow_count(24017);
    m.set_max_egress_flow_count(24017);
    m.reset_max_endpoint_count_per_client_username();
    m.reset_max_endpoint_count_per_client_username();
    m.set_max_endpoint_count_per_client_username(25017);
    m.set_max_endpoint_count_per_client_username(25017);
    m.reset_max_ingress_flow_count();
    m.reset_max_ingress_flow_count();
    m.set_max_ingress_flow_count(26017);
    m.set_max_ingress_flow_count(26017);
    m.reset_max_subscription_count();
    m.reset_max_subscription_count();
    m.set_max_subscription_count(27017);
    m.set_max_subscription_count(27017);
    m.reset_max_transacted_session_count();
    m.reset_max_transacted_session_count();
    m.set_max_transacted_session_count(28017);
    m.set_max_transacted_session_count(28017);
    m.reset_max_transaction_count();
    m.reset_max_transaction_count();
    m.set_max_transaction_count(29017);
    m.set_max_transaction_count(29017);
    m.reset_msg_vpn_name();
    m.reset_msg_vpn_name();
    m.set_msg_vpn_name("msgVpnName-0".to_string());
    m.set_msg_vpn_name("msgVpnName-0".to_string());
    m.reset_queue_control1_max_depth();
    m.reset_queue_control1_max_depth();
    m.set_queue_control1_max_depth(220);
    m.set_queue_control1_max_depth(220);
    m.reset_queue_control1_min_msg_burst();
    m.reset_queue_control1_min_msg_burst();
    m.set_queue_control1_min_msg_burst(227);
    m.set_queue_control1_min_msg_burst(227);
    m.reset_queue_direct1_max_depth();
    m.reset_queue_direct1_max_depth();
    m.set_queue_direct1_max_depth(234);
    m.set_queue_direct1_max_depth(234);
    m.reset_queue_direct1_min_msg_burst();
    m.reset_queue_direct1_min_msg_burst();
    m.set_queue_direct1_min_msg_burst(241);
    m.set_queue_direct1_min_msg_burst(241);
    m.reset_queue_direct2_max_depth();
    m.reset_queue_direct2_max_depth();
    m.set_queue_direct2_max_depth(248);
    m.set_queue_direct2_max_depth(248);
    m.reset_queue_direct2_min_msg_burst();
    m.reset_queue_direct2_min_msg_burst();
    m.set_queue_direct2_min_msg_burst(255);
    m.set_queue_direct2_min_msg_burst(255);
    m.reset_queue_direct3_max_depth();
    m.reset_queue_direct3_max_depth();
    m.set_queue_direct3_max_depth(262);
    m.set_queue_direct3_max_depth(262);
    m.reset_queue_direct3_min_msg_burst();
    m.reset_queue_direct3_min_msg_burst();
    m.set_queue_direct3_min_msg_burst(269);
    m.set_queue_direct3_min_msg_burst(269);
    m.reset_queue_guaranteed1_max_depth();
    m.reset_queue_guaranteed1_max_depth();
    m.set_queue_guaranteed1_max_depth(276);
    m.set_queue_guaranteed1_max_depth(276);
    m.reset_queue_guaranteed1_min_msg_burst();
    m.reset_queue_guaranteed1_min_msg_burst();
    m.set_queue_guaranteed1_min_msg_burst(283);
    m.set_queue_guaranteed1_min_msg_burst(283);
    m.reset_reject_msg_to_sender_on_no_subscription_match_enabled();
    m.reset_reject_msg_to_sender_on_no_subscription_match_enabled();
    m.set_reject_msg_to_sender_on_no_subscription_match_enabled(false);
    m.set_reject_msg_to_sender_on_no_subscription_match_enabled(false);
    m.reset_replication_allow_client_connect_when_standby_enabled();
    m.reset_replication_allow_client_connect_when_standby_enabled();
    m.set_replication_allow_client_connect_when_standby_enabled(true);
    m.set_replication_allow_client_connect_when_standby_enabled(true);
    m.reset_service_smf_max_connection_count_per_client_username();
    m.reset_service_smf_max_connection_count_per_client_username();
    m.set_service_smf_max_connection_count_per_client_username(43017);
    m.set_service_smf_max_connection_count_per_client_username(43017);
    m.reset_service_web_inactive_timeout();
    m.reset_service_web_inactive_timeout();
    m.set_service_web_inactive_timeout(44017);
    m.set_service_web_inactive_timeout(44017);
    m.reset_service_web_max_connection_count_per_client_username();
    m.reset_service_web_max_connection_count_per_client_username();
    m.set_service_web_max_connection_count_per_client_username(45017);
    m.set_service_web_max_connection_count_per_client_username(45017);
    m.reset_service_web_max_payload();
    m.reset_service_web_max_payload();
    m.set_service_web_max_payload(46017);
    m.set_service_web_max_payload(46017);
    m.reset_tcp_congestion_window_size();
    m.reset_tcp_congestion_window_size();
    m.set_tcp_congestion_window_size(47017);
    m.set_tcp_congestion_window_size(47017);
    m.reset_tcp_keepalive_count();
    m.reset_tcp_keepalive_count();
    m.set_tcp_keepalive_count(48017);
    m.set_tcp_keepalive_count(48017);
    m.reset_tcp_keepalive_idle_time();
    m.reset_tcp_keepalive_idle_time();
    m.set_tcp_keepalive_idle_time(49017);
    m.set_tcp_keepalive_idle_time(49017);
    m.reset_tcp_keepalive_interval();
    m.reset_tcp_keepalive_interval();
    m.set_tcp_keepalive_interval(50017);
    m.set_tcp_keepalive_interval(50017);
    m.reset_tcp_max_segment_size();
    m.reset_tcp_max_segment_size();
    m.set_tcp_max_segment_size(51017);
    m.set_tcp_max_segment_size(51017);
    m.reset_tcp_max_window_size();
    m.reset_tcp_max_window_size();
    m.set_tcp_max_window_size(52017);
    m.set_tcp_max_window_size(52017);
    m.reset_tls_allow_downgrade_to_plain_text_enabled();
    m.reset_tls_allow_downgrade_to_plain_text_enabled();
    m.set_tls_allow_downgrade_to_plain_text_enabled(false);
    m.set_tls_allow_downgrade_to_plain_text_enabled(false);
    assert_eq!(m.allow_bridge_connections_enabled(), Some(&true));
    assert_eq!(m.allow_cut_through_forwarding_enabled(), Some(&false));
    assert_eq!(m.allow_guaranteed_endpoint_create_enabled(), Some(&true));
    assert_eq!(m.allow_guaranteed_msg_receive_enabled(), Some(&false));
    assert_eq!(m.allow_guaranteed_msg_send_enabled(), Some(&true));
    assert_eq!(m.allow_transacted_sessions_enabled(), Some(&false));
    assert_eq!(m.api_queue_management_copy_from_on_create_name(), Some(&"apiQueueManagementCopyFromOnCreateName-0".to_string()));
    assert_eq!(m.api_topic_endpoint_management_copy_from_on_create_name(), Some(&"apiTopicEndpointManagementCopyFromOnCreateName-0".to_string()));
    assert_eq!(m.client_profile_name(), Some(&"clientProfileName-0".to_string()));
    assert_eq!(m.compression_enabled(), Some(&false));
    assert_eq!(m.eliding_delay(), Some(&10017));
    assert_eq!(m.eliding_enabled(), Some(&false));
    assert_eq!(m.eliding_max_topic_count(), Some(&12017));
    assert_eq!(m.event_client_provisioned_endpoint_spool_usage_threshold(), Some(&EventThresholdByPercent { clear_percent: Some(50), set_percent: Some(103) }));
    assert_eq!(m.event_connection_count_per_client_username_threshold(), Some(&EventThreshold { clear_percent: Some(60), clear_value: None, set_percent: Some(94), set_value: Some(140) }));
    assert_eq!(m.event_egress_flow_count_threshold(), Some(&EventThreshold { clear_percent: Some(60), clear_value: None, set_percent: Some(95), set_value: Some(150) }));
    assert_eq!(m.event_endpoint_count_per_client_username_threshold(), Some(&EventThreshold { clear_percent: Some(60), clear_value: None, set_percent: Some(96), set_value: Some(160) }));
    assert_eq!(m.event_ingress_flow_count_threshold(), Some(&EventThreshold { clear_percent: Some(60), clear_value: None, set_percent: Some(97), set_value: Some(170) }));
    assert_eq!(m.event_service_smf_connection_count_per_client_username_threshold(), Some(&EventThreshold { clear_percent: Some(60), clear_value: None, set_percent: Some(98), set_value: Some(180) }));
    assert_eq!(m.event_service_web_connection_count_per_client_username_threshold(), Some(&EventThreshold { clear_percent: Some(60), clear_value: None, set_percent: Some(99), set_value: Some(190) }));
    assert_eq!(m.event_subscription_count_threshold(), Some(&EventThreshold { clear_percent: Some(60), clear_value: None, set_percent: Some(100), set_value: Some(200) }));
    assert_eq!(m.event_transacted_session_count_threshold(), Some(&EventThreshold { clear_percent: Some(60), clear_value: None, set_percent: Some(101), set_value: Some(210) }));
    assert_eq!(m.event_transaction_count_threshold(), Some(&EventThreshold { clear_percent: Some(60), clear_value: None, set_percent: Some(102), set_value: Some(220) }));
    assert_eq!(m.max_connection_count_per_client_username(), Some(&23017));
    assert_eq!(m.max_egress_flow_count(), Some(&24017));
    assert_eq!(m.max_endpoint_count_per_client_username(), Some(&25017));
    assert_eq!(m.max_ingress_flow_count(), Some(&26017));
    assert_eq!(m.max_subscription_count(), Some(&27017));
    assert_eq!(m.max_transacted_session_count(), Some(&28017));
    assert_eq!(m.max_transaction_count(), Some(&29017));
    assert_eq!(m.msg_vpn_name(), Some(&"msgVpnName-0".to_string()));
    assert_eq!(m.queue_control1_max_depth(), Some(&220));
    assert_eq!(m.queue_control1_min_msg_burst(), Some(&227));
    assert_eq!(m.queue_direct1_max_depth(), Some(&234));
    assert_eq!(m.queue_direct1_min_msg_burst(), Some(&241));
    assert_eq!(m.queue_direct2_max_depth(), Some(&248));
    assert_eq!(m.queue_direct2_min_msg_burst(), Some(&255));
    assert_eq!(m.queue_direct3_max_depth(), Some(&262));
    assert_eq!(m.queue_direct3_min_msg_burst(), Some(&269));
    assert_eq!(m.queue_guaranteed1_max_depth(), Some(&276));
    assert_eq!(m.queue_guaranteed1_min_msg_burst(), Some(&283));
    assert_eq!(m.reject_msg_to_sender_on_no_subscription_match_enabled(), Some(&false));
    assert_eq!(m.replication_allow_client_connect_when_standby_enabled(), Some(&true));
    assert_eq!(m.service_smf_max_connection_count_per_client_username(), Some(&43017));
    assert_eq!(m.service_web_inactive_timeout(), Some(&44017));
    assert_eq!(m.service_web_max_connection_count_per_client_username(), Some(&45017));
    assert_eq!(m.service_web_max_payload(), Some(&46017));
    assert_eq!(m.tcp_congestion_window_size(), Some(&47017));
    assert_eq!(m.tcp_keepalive_count(), Some(&48017));
    assert_eq!(m.tcp_keepalive_idle_time(), Some(&49017));
    assert_eq!(m.tcp_keepalive_interval(), Some(&50017));
    assert_eq!(m.tcp_max_segment_size(), Some(&51017));
    assert_eq!(m.tcp_max_window_size(), Some(&52017));
    assert_eq!(m.tls_allow_downgrade_to_plain_text_enabled(), Some(&false));
}
