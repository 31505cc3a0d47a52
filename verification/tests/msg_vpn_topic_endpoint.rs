use solace_semp_client::models::MsgVpnTopicEndpoint;
use solace_semp_client::models::EventThreshold;

fn msg_vpn_topic_endpoint_all_set(alt: usize) -> MsgVpnTopicEndpoint {
    let mut m = MsgVpnTopicEndpoint::new();
    if alt == 0 {
        m.set_access_type("accessType-0".to_string());
        m.set_consumer_ack_propagation_enabled(false);
        m.set_dead_msg_queue("deadMsgQueue-0".to_string());
        m.set_egress_enabled(false);
        m.set_event_bind_count_threshold(EventThreshold { clear_percent: Some(60), clear_value: None, set_percent: Some(84), set_value: Some(40) });
        m.set_event_reject_low_priority_msg_limit_threshold(EventThreshold { clear_percent: Some(60), clear_value: None, set_percent: Some(85), set_value: Some(50) });
        m.set_event_spool_usage_threshold(EventThreshold { clear_percent: Some(60), clear_value: None, set_percent: Some(86), set_value: Some(60) });
        m.set_ingress_enabled(false);
        m.set_max_bind_count(8017);
        m.set_max_delivered_unacked_msgs_per_flow(9017);
        m.set_max_msg_size(73);
        m.set_max_redelivery_count(11017);
        m.set_max_spool_usage(12017);
        m.set_max_ttl(13017);
        m.set_msg_vpn_name("msgVpnName-0".to_string());
        m.set_owner("owner-0".to_string());
        m.set_permission("permission-0".to_string());
        m.set_reject_low_priority_msg_enabled(false);
        m.set_reject_low_priority_msg_limit(18017);
        m.set_reject_msg_to_sender_on_discard_behavior("rejectMsgToSenderOnDiscardBehavior-0".to_string());
        m.set_respect_msg_priority_enabled(true);
        m.set_respect_ttl_enabled(false);
        m.set_topic_endpoint_name("topicEndpointName-0".to_string());
    } else {
        m.set_access_type("accessType-1".to_string());
        m.set_consumer_ack_propagation_enabled(true);
        m.set_dead_msg_queue("deadMsgQueue-1".to_string());
        m.set_egress_enabled(true);
        m.set_event_bind_count_threshold(EventThreshold { clear_percent: Some(61), clear_value: None, set_percent: Some(84), set_value: Some(41) });
        m.set_event_reject_low_priority_msg_limit_threshold(EventThreshold { clear_percent: Some(61), clear_value: None, set_percent: Some(85), set_value: Some(51) });
        m.set_event_spool_usage_threshold(EventThreshold { clear_percent: Some(61), clear_value: None, set_percent: Some(86), set_value: Some(61) });
        m.set_ingress_enabled(true);
        m.set_max_bind_count(8018);
        m.set_max_delivered_unacked_msgs_per_flow(9018);
        m.set_max_msg_size(74);
        m.set_max_redelivery_count(11018);
        m.set_max_spool_usage(12018);
        m.set_max_ttl(13018);
        m.set_msg_vpn_name("msgVpnName-1".to_string());
        m.set_owner("owner-1".to_string());
        m.set_permission("permission-1".to_string());
        m.set_reject_low_priority_msg_enabled(true);
        m.set_reject_low_priority_msg_limit(18018);
        m.set_reject_msg_to_sender_on_discard_behavior("rejectMsgToSenderOnDiscardBehavior-1".to_string());
        m.set_respect_msg_priority_enabled(false);
        m.set_respect_ttl_enabled(true);
        m.set_topic_endpoint_name("topicEndpointName-1".to_string());
    }
    m
}

#[test]
fn msg_vpn_topic_endpoint_new_has_no_attributes() {
    let m = MsgVpnTopicEndpoint::new();
    assert_eq!(m.access_type(), None);
    assert_eq!(m.consumer_ack_propagation_enabled(), None);
    assert_eq!(m.dead_msg_queue(), None);
    assert_eq!(m.egress_enabled(), None);
    assert_eq!(m.event_bind_count_threshold(), None);
    assert_eq!(m.event_reject_low_priority_msg_limit_threshold(), None);
    assert_eq!(m.event_spool_usage_threshold(), None);
    assert_eq!(m.ingress_enabled(), None);
    assert_eq!(m.max_bind_count(), None);
    assert_eq!(m.max_delivered_unacked_msgs_per_flow(), None);
    assert_eq!(m.max_msg_size(), None);
    assert_eq!(m.max_redelivery_count(), None);
    assert_eq!(m.max_spool_usage(), None);
    assert_eq!(m.max_ttl(), None);
    assert_eq!(m.msg_vpn_name(), None);
    assert_eq!(m.owner(), None);
    assert_eq!(m.permission(), None);
    assert_eq!(m.reject_low_priority_msg_enabled(), None);
    assert_eq!(m.reject_low_priority_msg_limit(), None);
    assert_eq!(m.reject_msg_to_sender_on_discard_behavior(), None);
    assert_eq!(m.respect_msg_priority_enabled(), None);
    assert_eq!(m.respect_ttl_enabled(), None);
    assert_eq!(m.topic_endpoint_name(), None);
}

#[test]
fn msg_vpn_topic_endpoint_set_then_get() {
    let m = msg_vpn_topic_endpoint_all_set(0);
    assert_eq!(m.access_type(), Some(&"accessType-0".to_string()));
    assert_eq!(m.consumer_ack_propagation_enabled(), Some(&false));
    assert_eq!(m.dead_msg_queue(), Some(&"deadMsgQueue-0".to_string()));
    assert_eq!(m.egress_enabled(), Some(&false));
    assert_eq!(m.event_bind_count_threshold(), Some(&EventThreshold { clear_percent: Some(60), clear_value: None, set_percent: Some(84), set_value: Some(40) }));
    assert_eq!(m.event_reject_low_priority_msg_limit_threshold(), Some(&EventThreshold { clear_percent: Some(60), clear_value: None, set_percent: Some(85), set_value: Some(50) }));
    assert_eq!(m.event_spool_usage_threshold(), Some(&EventThreshold { clear_percent: Some(60), clear_value: None, set_percent: Some(86), set_value: Some(60) }));
    assert_eq!(m.ingress_enabled(), Some(&false));
    assert_eq!(m.max_bind_count(), Some(&8017));
    assert_eq!(m.max_delivered_unacked_msgs_per_flow(), Some(&9017));
    assert_eq!(m.max_msg_size(), Some(&73));
    assert_eq!(m.max_redelivery_count(), Some(&11017));
    assert_eq!(m.max_spool_usage(), Some(&12017));
    assert_eq!(m.max_ttl(), Some(&13017));
    assert_eq!(m.msg_vpn_name(), Some(&"msgVpnName-0".to_string()));
    assert_eq!(m.owner(), Some(&"owner-0".to_string()));
    assert_eq!(m.permission(), Some(&"permission-0".to_string()));
    assert_eq!(m.reject_low_priority_msg_enabled(), Some(&false));
    assert_eq!(m.reject_low_priority_msg_limit(), Some(&18017));
    assert_eq!(m.reject_msg_to_sender_on_discard_behavior(), Some(&"rejectMsgToSenderOnDiscardBehavior-0".to_string()));
    assert_eq!(m.respect_msg_priority_enabled(), Some(&true));
    assert_eq!(m.respect_ttl_enabled(), Some(&false));
    assert_eq!(m.topic_endpoint_name(), Some(&"topicEndpointName-0".to_string()));
}

#[test]
fn msg_vpn_topic_endpoint_with_agrees_with_set() {
    let m = MsgVpnTopicEndpoint::new()
        .with_access_type("accessType-1".to_string())
        .with_consumer_ack_propagation_enabled(true)
        .with_dead_msg_queue("deadMsgQueue-1".to_string())
        .with_egress_enabled(true)
        .with_event_bind_count_threshold(EventThreshold { clear_percent: Some(61), clear_value: None, set_percent: Some(84), set_value: Some(41) })
        .with_event_reject_low_priority_msg_limit_threshold(EventThreshold { clear_percent: Some(61), clear_value: None, set_percent: Some(85), set_value: Some(51) })
        .with_event_spool_usage_threshold(EventThreshold { clear_percent: Some(61), clear_value: None, set_percent: Some(86), set_value: Some(61) })
        .with_ingress_enabled(true)
        .with_max_bind_count(8018)
        .with_max_delivered_unacked_msgs_per_flow(9018)
        .with_max_msg_size(74)
        .with_max_redelivery_count(11018)
        .with_max_spool_usage(12018)
        .with_max_ttl(13018)
        .with_msg_vpn_name("msgVpnName-1".to_string())
        .with_owner("owner-1".to_string())
        .with_permission("permission-1".to_string())
        .with_reject_low_priority_msg_enabled(true)
        .with_reject_low_priority_msg_limit(18018)
        .with_reject_msg_to_sender_on_discard_behavior("rejectMsgToSenderOnDiscardBehavior-1".to_string())
        .with_respect_msg_priority_enabled(false)
        .with_respect_ttl_enabled(true)
        .with_topic_endpoint_name("topicEndpointName-1".to_string())
        ;
    assert_eq!(m.access_type(), Some(&"accessType-1".to_string()));
    assert_eq!(m.consumer_ack_propagation_enabled(), Some(&true));
    assert_eq!(m.dead_msg_queue(), Some(&"deadMsgQueue-1".to_string()));
    assert_eq!(m.egress_enabled(), Some(&true));
    assert_eq!(m.event_bind_count_threshold(), Some(&EventThreshold { clear_percent: Some(61), clear_value: None, set_percent: Some(84), set_value: Some(41) }));
    assert_eq!(m.event_reject_low_priority_msg_limit_threshold(), Some(&EventThreshold { clear_percent: Some(61), clear_value: None, set_percent: Some(85), set_value: Some(51) }));
    assert_eq!(m.event_spool_usage_threshold(), Some(&EventThreshold { clear_percent: Some(61), clear_value: None, set_percent: Some(86), set_value: Some(61) }));
    assert_eq!(m.ingress_enabled(), Some(&true));
    assert_eq!(m.max_bind_count(), Some(&8018));
    assert_eq!(m.max_delivered_unacked_msgs_per_flow(), Some(&9018));
    assert_eq!(m.max_msg_size(), Some(&74));
    assert_eq!(m.max_redelivery_count(), Some(&11018));
    assert_eq!(m.max_spool_usage(), Some(&12018));
    assert_eq!(m.max_ttl(), Some(&13018));
    assert_eq!(m.msg_vpn_name(), Some(&"msgVpnName-1".to_string()));
    assert_eq!(m.owner(), Some(&"owner-1".to_string()));
    assert_eq!(m.permission(), Some(&"permission-1".to_string()));
    assert_eq!(m.reject_low_priority_msg_enabled(), Some(&true));
    assert_eq!(m.reject_low_priority_msg_limit(), Some(&18018));
    assert_eq!(m.reject_msg_to_sender_on_discard_behavior(), Some(&"rejectMsgToSenderOnDiscardBehavior-1".to_string()));
    assert_eq!(m.respect_msg_priority_enabled(), Some(&false));
    assert_eq!(m.respect_ttl_enabled(), Some(&true));
    assert_eq!(m.topic_endpoint_name(), Some(&"topicEndpointName-1".to_string()));
    let n = msg_vpn_topic_endpoint_all_set(1);
    assert_eq!(m.access_type(), n.access_type());
    assert_eq!(m.consumer_ack_propagation_enabled(), n.consumer_ack_propagation_enabled());
    assert_eq!(m.dead_msg_queue(), n.dead_msg_queue());
    assert_eq!(m.egress_enabled(), n.egress_enabled());
    assert_eq!(m.event_bind_count_threshold(), n.event_bind_count_threshold());
    assert_eq!(m.event_reject_low_priority_msg_limit_threshold(), n.event_reject_low_priority_msg_limit_threshold());
    assert_eq!(m.event_spool_usage_threshold(), n.event_spool_usage_threshold());
    assert_eq!(m.ingress_enabled(), n.ingress_enabled());
    assert_eq!(m.max_bind_count(), n.max_bind_count());
    assert_eq!(m.max_delivered_unacked_msgs_per_flow(), n.max_delivered_unacked_msgs_per_flow());
    assert_eq!(m.max_msg_size(), n.max_msg_size());
    assert_eq!(m.max_redelivery_count(), n.max_redelivery_count());
    assert_eq!(m.max_spool_usage(), n.max_spool_usage());
    assert_eq!(m.max_ttl(), n.max_ttl());
    assert_eq!(m.msg_vpn_name(), n.msg_vpn_name());
    assert_eq!(m.owner(), n.owner());
    assert_eq!(m.permission(), n.permission());
    assert_eq!(m.reject_low_priority_msg_enabled(), n.reject_low_priority_msg_enabled());
    assert_eq!(m.reject_low_priority_msg_limit(), n.reject_low_priority_msg_limit());
    assert_eq!(m.reject_msg_to_sender_on_discard_behavior(), n.reject_msg_to_sender_on_discard_behavior());
    assert_eq!(m.respect_msg_priority_enabled(), n.respect_msg_priority_enabled());
    assert_eq!(m.respect_ttl_enabled(), n.respect_ttl_enabled());
    assert_eq!(m.topic_endpoint_name(), n.topic_endpoint_name());
}

#[test]
fn msg_vpn_topic_endpoint_reset_clears_only_its_attribute() {
    let mut m = msg_vpn_topic_endpoint_all_set(0);
    m.reset_access_type();
    assert_eq!(m.access_type(), None);
    assert_eq!(m.consumer_ack_propagation_enabled(), Some(&false));
    assert_eq!(m.dead_msg_queue(), Some(&"deadMsgQueue-0".to_string()));
    assert_eq!(m.egress_enabled(), Some(&false));
    assert_eq!(m.event_bind_count_threshold(), Some(&EventThreshold { clear_percent: Some(60), clear_value: None, set_percent: Some(84), set_value: Some(40) }));
    assert_eq!(m.event_reject_low_priority_msg_limit_threshold(), Some(&EventThreshold { clear_percent: Some(60), clear_value: None, set_percent: Some(85), set_value: Some(50) }));
    assert_eq!(m.event_spool_usage_threshold(), Some(&EventThreshold { clear_percent: Some(60), clear_value: None, set_percent: Some(86), set_value: Some(60) }));
    assert_eq!(m.ingress_enabled(), Some(&false));
    assert_eq!(m.max_bind_count(), Some(&8017));
    assert_eq!(m.max_delivered_unacked_msgs_per_flow(), Some(&9017));
    assert_eq!(m.max_msg_size(), Some(&73));
    assert_eq!(m.max_redelivery_count(), Some(&11017));
    assert_eq!(m.max_spool_usage(), Some(&12017));
    assert_eq!(m.max_ttl(), Some(&13017));
    assert_eq!(m.msg_vpn_name(), Some(&"msgVpnName-0".to_string()));
    assert_eq!(m.owner(), Some(&"owner-0".to_string()));
    assert_eq!(m.permission(), Some(&"permission-0".to_string()));
    assert_eq!(m.reject_low_priority_msg_enabled(), Some(&false));
    assert_eq!(m.reject_low_priority_msg_limit(), Some(&18017));
    assert_eq!(m.reject_msg_to_sender_on_discard_behavior(), Some(&"rejectMsgToSenderOnDiscardBehavior-0".to_string()));
    assert_eq!(m.respect_msg_priority_enabled(), Some(&true));
    assert_eq!(m.respect_ttl_enabled(), Some(&false));
    assert_eq!(m.topic_endpoint_name(), Some(&"topicEndpointName-0".to_string()));
    let mut m = msg_vpn_topic_endpoint_all_set(0);
    m.reset_max_redelivery_count();
    assert_eq!(m.access_type(), Some(&"accessType-0".to_string()));
    assert_eq!(m.consumer_ack_propagation_enabled(), Some(&false));
    assert_eq!(m.dead_msg_queue(), Some(&"deadMsgQueue-0".to_string()));
    assert_eq!(m.egress_enabled(), Some(&false));
    assert_eq!(m.event_bind_count_threshold(), Some(&EventThreshold { clear_percent: Some(60), clear_value: None, set_percent: Some(84), set_value: Some(40) }));
    assert_eq!(m.event_reject_low_priority_msg_limit_threshold(), Some(&EventThreshold { clear_percent: Some(60), clear_value: None, set_percent: Some(85), set_value: Some(50) }));
    assert_eq!(m.event_spool_usage_threshold(), Some(&EventThreshold { clear_percent: Some(60), clear_value: None, set_percent: Some(86), set_value: Some(60) }));
    assert_eq!(m.ingress_enabled(), Some(&false));
    assert_eq!(m.max_bind_count(), Some(&8017));
    assert_eq!(m.max_delivered_unacked_msgs_per_flow(), Some(&9017));
    assert_eq!(m.max_msg_size(), Some(&73));
    assert_eq!(m.max_redelivery_count(), None);
    assert_eq!(m.max_spool_usage(), Some(&12017));
    assert_eq!(m.max_ttl(), Some(&13017));
    assert_eq!(m.msg_vpn_name(), Some(&"msgVpnName-0".to_string()));
    assert_eq!(m.owner(), Some(&"owner-0".to_string()));
    assert_eq!(m.permission(), Some(&"permission-0".to_string()));
    assert_eq!(m.reject_low_priority_msg_enabled(), Some(&false));
    assert_eq!(m.reject_low_priority_msg_limit(), Some(&18017));
    assert_eq!(m.reject_msg_to_sender_on_discard_behavior(), Some(&"rejectMsgToSenderOnDiscardBehavior-0".to_string()));
    assert_eq!(m.respect_msg_priority_enabled(), Some(&true));
    assert_eq!(m.respect_ttl_enabled(), Some(&false));
    assert_eq!(m.topic_endpoint_name(), Some(&"topicEndpointName-0".to_string()));
    let mut m = msg_vpn_topic_endpoint_all_set(0);
    m.reset_topic_endpoint_name();
    assert_eq!(m.access_type(), Some(&"accessType-0".to_string()));
    assert_eq!(m.consumer_ack_propagation_enabled(), Some(&false));
    assert_eq!(m.dead_msg_queue(), Some(&"deadMsgQueue-0".to_string()));
    assert_eq!(m.egress_enabled(), Some(&false));
    assert_eq!(m.event_bind_count_threshold(), Some(&EventThreshold { clear_percent: Some(60), clear_value: None, set_percent: Some(84), set_value: Some(40) }));
    assert_eq!(m.event_reject_low_priority_msg_limit_threshold(), Some(&EventThreshold { clear_percent: Some(60), clear_value: None, set_percent: Some(85), set_value: Some(50) }));
    assert_eq!(m.event_spool_usage_threshold(), Some(&EventThreshold { clear_percent: Some(60), clear_value: None, set_percent: Some(86), set_value: Some(60) }));
    assert_eq!(m.ingress_enabled(), Some(&false));
    assert_eq!(m.max_bind_count(), Some(&8017));
    assert_eq!(m.max_delivered_unacked_msgs_per_flow(), Some(&9017));
    assert_eq!(m.max_msg_size(), Some(&73));
    assert_eq!(m.max_redelivery_count(), Some(&11017));
    assert_eq!(m.max_spool_usage(), Some(&12017));
    assert_eq!(m.max_ttl(), Some(&13017));
    assert_eq!(m.msg_vpn_name(), Some(&"msgVpnName-0".to_string()));
    assert_eq!(m.owner(), Some(&"owner-0".to_string()));
    assert_eq!(m.permission(), Some(&"permission-0".to_string()));
    assert_eq!(m.reject_low_priority_msg_enabled(), Some(&false));
    assert_eq!(m.reject_low_priority_msg_limit(), Some(&18017));
    assert_eq!(m.reject_msg_to_sender_on_discard_behavior(), Some(&"rejectMsgToSenderOnDiscardBehavior-0".to_string()));
    assert_eq!(m.respect_msg_priority_enabled(), Some(&true));
    assert_eq!(m.respect_ttl_enabled(), Some(&false));
    assert_eq!(m.topic_endpoint_name(), None);
    let mut m = msg_vpn_topic_endpoint_all_set(0);
    m.reset_access_type();
    m.reset_consumer_ack_propagation_enabled();
    m.reset_dead_msg_queue();
    m.reset_egress_enabled();
    m.reset_event_bind_count_threshold();
    m.reset_event_reject_low_priority_msg_limit_threshold();
    m.reset_event_spool_usage_threshold();
    m.reset_ingress_enabled();
    m.reset_max_bind_count();
    m.reset_max_delivered_unacked_msgs_per_flow();
    m.reset_max_msg_size();
    m.reset_max_redelivery_count();
    m.reset_max_spool_usage();
    m.reset_max_ttl();
    m.reset_msg_vpn_name();
    m.reset_owner();
    m.reset_permission();
    m.reset_reject_low_priority_msg_enabled();
    m.reset_reject_low_priority_msg_limit();
    m.reset_reject_msg_to_sender_on_discard_behavior();
    m.reset_respect_msg_priority_enabled();
    m.reset_respect_ttl_enabled();
    m.reset_topic_endpoint_name();
    assert_eq!(m.access_type(), None);
    assert_eq!(m.consumer_ack_propagation_enabled(), None);
    assert_eq!(m.dead_msg_queue(), None);
    assert_eq!(m.egress_enabled(), None);
    assert_eq!(m.event_bind_count_threshold(), None);
    assert_eq!(m.event_reject_low_priority_msg_limit_threshold(), None);
    assert_eq!(m.event_spool_usage_threshold(), None);
    assert_eq!(m.ingress_enabled(), None);
    assert_eq!(m.max_bind_count(), None);
    assert_eq!(m.max_delivered_unacked_msgs_per_flow(), None);
    assert_eq!(m.max_msg_size(), None);
    assert_eq!(m.max_redelivery_count(), None);
    assert_eq!(m.max_spool_usage(), None);
    assert_eq!(m.max_ttl(), None);
    assert_eq!(m.msg_vpn_name(), None);
    assert_eq!(m.owner(), None);
    assert_eq!(m.permission(), None);
    assert_eq!(m.reject_low_priority_msg_enabled(), None);
    assert_eq!(m.reject_low_priority_msg_limit(), None);
    assert_eq!(m.reject_msg_to_sender_on_discard_behavior(), None);
    assert_eq!(m.respect_msg_priority_enabled(), None);
    assert_eq!(m.respect_ttl_enabled(), None);
    assert_eq!(m.topic_endpoint_name(), None);
}

#[test]
fn msg_vpn_topic_endpoint_last_write_wins() {
    let mut m = msg_vpn_topic_endpoint_all_set(0);
    m.set_access_type("accessType-1".to_string());
    m.set_consumer_ack_propagation_enabled(true);
    m.set_dead_msg_queue("deadMsgQueue-1".to_string());
    m.set_egress_enabled(true);
    m.set_event_bind_count_threshold(EventThreshold { clear_percent: Some(61), clear_value: None, set_percent: Some(84), set_value: Some(41) });
    m.set_event_reject_low_priority_msg_limit_threshold(EventThreshold { clear_percent: Some(61), clear_value: None, set_percent: Some(85), set_value: Some(51) });
    m.set_event_spool_usage_threshold(EventThreshold { clear_percent: Some(61), clear_value: None, set_percent: Some(86), set_value: Some(61) });
    m.set_ingress_enabled(true);
    m.set_max_bind_count(8018);
    m.set_max_delivered_unacked_msgs_per_flow(9018);
    m.set_max_msg_size(74);
    m.set_max_redelivery_count(11018);
    m.set_max_spool_usage(12018);
    m.set_max_ttl(13018);
    m.set_msg_vpn_name("msgVpnName-1".to_string());
    m.set_owner("owner-1".to_string());
    m.set_permission("permission-1".to_string());
    m.set_reject_low_priority_msg_enabled(true);
    m.set_reject_low_priority_msg_limit(18018);
    m.set_reject_msg_to_sender_on_discard_behavior("rejectMsgToSenderOnDiscardBehavior-1".to_string());
    m.set_respect_msg_priority_enabled(false);
    m.set_respect_ttl_enabled(true);
    m.set_topic_endpoint_name("topicEndpointName-1".to_string());
    assert_eq!(m.access_type(), Some(&"accessType-1".to_string()));
    assert_eq!(m.consumer_ack_propagation_enabled(), Some(&true));
    assert_eq!(m.dead_msg_queue(), Some(&"deadMsgQueue-1".to_string()));
    assert_eq!(m.egress_enabled(), Some(&true));
    assert_eq!(m.event_bind_count_threshold(), Some(&EventThreshold { clear_percent: Some(61), clear_value: None, set_percent: Some(84), set_value: Some(41) }));
    assert_eq!(m.event_reject_low_priority_msg_limit_threshold(), Some(&EventThreshold { clear_percent: Some(61), clear_value: None, set_percent: Some(85), set_value: Some(51) }));
    assert_eq!(m.event_spool_usage_threshold(), Some(&EventThreshold { clear_percent: Some(61), clear_value: None, set_percent: Some(86), set_value: Some(61) }));
    assert_eq!(m.ingress_enabled(), Some(&true));
    assert_eq!(m.max_bind_count(), Some(&8018));
    assert_eq!(m.max_delivered_unacked_msgs_per_flow(), Some(&9018));
    assert_eq!(m.max_msg_size(), Some(&74));
    assert_eq!(m.max_redelivery_count(), Some(&11018));
    assert_eq!(m.max_spool_usage(), Some(&12018));
    assert_eq!(m.max_ttl(), Some(&13018));
    assert_eq!(m.msg_vpn_name(), Some(&"msgVpnName-1".to_string()));
    assert_eq!(m.owner(), Some(&"owner-1".to_string()));
    assert_eq!(m.permission(), Some(&"permission-1".to_string()));
    assert_eq!(m.reject_low_priority_msg_enabled(), Some(&true));
    assert_eq!(m.reject_low_priority_msg_limit(), Some(&18018));
    assert_eq!(m.reject_msg_to_sender_on_discard_behavior(), Some(&"rejectMsgToSenderOnDiscardBehavior-1".to_string()));
    assert_eq!(m.respect_msg_priority_enabled(), Some(&false));
    assert_eq!(m.respect_ttl_enabled(), Some(&true));
    assert_eq!(m.topic_endpoint_name(), Some(&"topicEndpointName-1".to_string()));
}

#[test]
fn msg_vpn_topic_endpoint_reset_twice_and_rewrite() {
    let mut m = msg_vpn_topic_endpoint_all_set(0);
    m.reset_access_type();
    m.reset_access_type();
    m.set_access_type("accessType-0".to_string());
    m.set_access_type("accessType-0".to_string());
    m.reset_consumer_ack_propagation_enabled();
    m.reset_consumer_ack_propagation_enabled();
    m.set_consumer_ack_propagation_enabled(false);
    m.set_consumer_ack_propagation_enabled(false);
    m.reset_dead_msg_queue();
    m.reset_dead_msg_queue();
    m.set_dead_msg_queue("deadMsgQueue-0".to_string());
    m.set_dead_msg_queue("deadMsgQueue-0".to_string());
    m.reset_egress_enabled();
    m.reset_egress_enabled();
    m.set_egress_enabled(false);
    m.set_egress_enabled(false);
    m.reset_event_bind_count_threshold();
    m.reset_event_bind_count_threshold();
    m.set_event_bind_count_threshold(EventThreshold { clear_percent: Some(60), clear_value: None, set_percent: Some(84), set_value: Some(40) });
    m.set_event_bind_count_threshold(EventThreshold { clear_percent: Some(60), clear_value: None, set_percent: Some(84), set_value: Some(40) });
    m.reset_event_reject_low_priority_msg_limit_threshold();
    m.reset_event_reject_low_priority_msg_limit_threshold();
    m.set_event_reject_low_priority_msg_limit_threshold(EventThreshold { clear_percent: Some(60), clear_value: None, set_percent: Some(85), set_value: Some(50) });
    m.set_event_reject_low_priority_msg_limit_threshold(EventThreshold { clear_percent: Some(60), clear_value: None, set_percent: Some(85), set_value: Some(50) });
    m.reset_event_spool_usage_threshold();
    m.reset_event_spool_usage_threshold();
    m.set_event_spool_usage_threshold(EventThreshold { clear_percent: Some(60), clear_value: None, set_percent: Some(86), set_value: Some(60) });
    m.set_event_spool_usage_threshold(EventThreshold { clear_percent: Some(60), clear_value: None, set_percent: Some(86), set_value: Some(60) });
    m.reset_ingress_enabled();
    m.reset_ingress_enabled();
    m.set_ingress_enabled(false);
    m.set_ingress_enabled(false);
    m.reset_max_bind_count();
    m.reset_max_bind_count();
    m.set_max_bind_count(8017);
    m.set_max_bind_count(8017);
    m.reset_max_delivered_unacked_msgs_per_flow();
    m.reset_max_delivered_unacked_msgs_per_flow();
    m.set_max_delivered_unacked_msgs_per_flow(9017);
    m.set_max_delivered_unacked_msgs_per_flow(9017);
    m.reset_max_msg_size();
    m.reset_max_msg_size();
    m.set_max_msg_size(73);
    m.set_max_msg_size(73);
    m.reset_max_redelivery_count();
    m.reset_max_redelivery_count();
    m.set_max_redelivery_count(11017);
    m.set_max_redelivery_count(11017);
    m.reset_max_spool_usage();
    m.reset_max_spool_usage();
    m.set_max_spool_usage(12017);
    m.set_max_spool_usage(12017);
    m.reset_max_ttl();
    m.reset_max_ttl();
    m.set_max_ttl(13017);
    m.set_max_ttl(13017);
    m.reset_msg_vpn_name();
    m.reset_msg_vpn_name();
    m.set_msg_vpn_name("msgVpnName-0".to_string());
    m.set_msg_vpn_name("msgVpnName-0".to_string());
    m.reset_owner();
    m.reset_owner();
    m.set_owner("owner-0".to_string());
    m.set_owner("owner-0".to_string());
    m.reset_permission();
    m.reset_permission();
    m.set_permission("permission-0".to_string());
    m.set_permission("permission-0".to_string());
    m.reset_reject_low_priority_msg_enabled();
    m.reset_reject_low_priority_msg_enabled();
    m.set_reject_low_priority_msg_enabled(false);
    m.set_reject_low_priority_msg_enabled(false);
    m.reset_reject_low_priority_msg_limit();
    m.reset_reject_low_priority_msg_limit();
    m.set_reject_low_priority_msg_limit(18017);
    m.set_reject_low_priority_msg_limit(18017);
    m.reset_reject_msg_to_sender_on_discard_behavior();
    m.reset_reject_msg_to_sender_on_discard_behavior();
    m.set_reject_msg_to_sender_on_discard_behavior("rejectMsgToSenderOnDiscardBehavior-0".to_string());
    m.set_reject_msg_to_sender_on_discard_behavior("rejectMsgToSenderOnDiscardBehavior-0".to_string());
    m.reset_respect_msg_priority_enabled();
    m.reset_respect_msg_priority_enabled();
    m.set_respect_msg_priority_enabled(true);
    m.set_respect_msg_priority_enabled(true);
    m.reset_respect_ttl_enabled();
    m.reset_respect_ttl_enabled();
    m.set_respect_ttl_enabled(false);
    m.set_respect_ttl_enabled(false);
    m.reset_topic_endpoint_name();
    m.reset_topic_endpoint_name();
    m.set_topic_endpoint_name("topicEndpointName-0".to_string());
    m.set_topic_endpoint_name("topicEndpointName-0".to_string());
    assert_eq!(m.access_type(), Some(&"accessType-0".to_string()));
    assert_eq!(m.consumer_ack_propagation_enabled(), Some(&false));
    assert_eq!(m.dead_msg_queue(), Some(&"deadMsgQueue-0".to_string()));
    assert_eq!(m.egress_enabled(), Some(&false));
    assert_eq!(m.event_bind_count_threshold(), Some(&EventThreshold { clear_percent: Some(60), clear_value: None, set_percent: Some(84), set_value: Some(40) }));
    assert_eq!(m.event_reject_low_priority_msg_limit_threshold(), Some(&EventThreshold { clear_percent: Some(60), clear_value: None, set_percent: Some(85), set_value: Some(50) }));
    assert_eq!(m.event_spool_usage_threshold(), Some(&EventThreshold { clear_percent: Some(60), clear_value: None, set_percent: Some(86), set_value: Some(60) }));
    assert_eq!(m.ingress_enabled(), Some(&false));
    assert_eq!(m.max_bind_count(), Some(&8017));
    assert_eq!(m.max_delivered_unacked_msgs_per_flow(), Some(&9017));
    assert_eq!(m.max_msg_size(), Some(&73));
    assert_eq!(m.max_redelivery_count(), Some(&11017));
    assert_eq!(m.max_spool_usage(), Some(&12017));
    assert_eq!(m.max_ttl(), Some(&13017));
    assert_eq!(m.msg_vpn_name(), Some(&"msgVpnName-0".to_string()));
    assert_eq!(m.owner(), Some(&"owner-0".to_string()));
    assert_eq!(m.permission(), Some(&"permission-0".to_string()));
    assert_eq!(m.reject_low_priority_msg_enabled(), Some(&false));
    assert_eq!(m.reject_low_priority_msg_limit(), Some(&18017));
    assert_eq!(m.reject_msg_to_sender_on_discard_behavior(), Some(&"rejectMsgToSenderOnDiscardBehavior-0".to_string()));
    assert_eq!(m.respect_msg_priority_enabled(), Some(&true));
    assert_eq!(m.respect_ttl_enabled(), Some(&false));
    assert_eq!(m.topic_endpoint_name(), Some(&"topicEndpointName-0".to_string()));
}
