use vstd::prelude::*;
use crate::models::attribute::AttributeValue;
use crate::models::event_threshold::EventThreshold;
use crate::models::event_threshold::EventThresholdByPercent;

verus! {

/// A Client Profile of a Message VPN, with each of its configuration attributes present or absent.
#[derive(Debug)]
pub struct MsgVpnClientProfile {
    /// Allow or deny Bridge clients to connect. Changing this setting does not affect existing Bridge client connections. The default value is `false`.
    allow_bridge_connections_enabled: Option<bool>,
    /// Allow or deny clients to bind to topic endpoints or queues with the cut-through delivery mode. Changing this setting does not affect existing client connections. The default value is `false`.
    allow_cut_through_forwarding_enabled: Option<bool>,
    /// Allow or deny clients to create topic endponts or queues. Changing this setting does not affect existing client connections. The default value is `false`.
    allow_guaranteed_endpoint_create_enabled: Option<bool>,
    /// Allow or deny clients to receive guaranteed messages. Changing this setting does not affect existing client connections. The default value is `false`.
    allow_guaranteed_msg_receive_enabled: Option<bool>,
    /// Allow or deny clients to send guaranteed messages. Changing this setting does not affect existing client connections. The default value is `false`.
    allow_guaranteed_msg_send_enabled: Option<bool>,
    /// Allow or deny clients to establish transacted sessions. Changing this setting does not affect existing client connections. The default value is `false`.
    allow_transacted_sessions_enabled: Option<bool>,
    /// The name of a Queue to copy settings from when a new Queue is created by an API. The referenced Queue must exist on the Message VPN. The default value is `""`.
    api_queue_management_copy_from_on_create_name: Option<String>,
    /// The name of a Topic Endpoint to copy settings from when a new Topic Endpoint is created by an API. The referenced Topic Endpoint must exist on the Message VPN. The default value is `""`.
    api_topic_endpoint_management_copy_from_on_create_name: Option<String>,
    /// The Client Profile name.
    client_profile_name: Option<String>,
    /// Enable or disable whether connected clients are allowed to use compression. The default value is `true`. Available since 2.10.
    compression_enabled: Option<bool>,
    /// The amount of time to delay the delivery of messages to clients after the initial message has been delivered (the eliding delay interval), in milliseconds. Zero value means there is no delay in delivering messages to clients. The default value is `0`.
    eliding_delay: Option<i64>,
    /// Enable or disable the Message Eliding. The default value is `false`.
    eliding_enabled: Option<bool>,
    /// The maximum number of topics tracked for Message Eliding per one Client connection. The default value is `256`.
    eliding_max_topic_count: Option<i64>,
    /// The thresholds at which the client provisioned endpoint spool usage event is raised and cleared.
    event_client_provisioned_endpoint_spool_usage_threshold: Option<EventThresholdByPercent>,
    /// The thresholds at which the connection count per client username event is raised and cleared.
    event_connection_count_per_client_username_threshold: Option<EventThreshold>,
    /// The thresholds at which the egress flow count event is raised and cleared.
    event_egress_flow_count_threshold: Option<EventThreshold>,
    /// The thresholds at which the endpoint count per client username event is raised and cleared.
    event_endpoint_count_per_client_username_threshold: Option<EventThreshold>,
    /// The thresholds at which the ingress flow count event is raised and cleared.
    event_ingress_flow_count_threshold: Option<EventThreshold>,
    /// The thresholds at which the service smf connection count per client username event is raised and cleared.
    event_service_smf_connection_count_per_client_username_threshold: Option<EventThreshold>,
    /// The thresholds at which the service web connection count per client username event is raised and cleared.
    event_service_web_connection_count_per_client_username_threshold: Option<EventThreshold>,
    /// The thresholds at which the subscription count event is raised and cleared.
    event_subscription_count_threshold: Option<EventThreshold>,
    /// The thresholds at which the transacted session count event is raised and cleared.
    event_transacted_session_count_threshold: Option<EventThreshold>,
    /// The thresholds at which the transaction count event is raised and cleared.
    event_transaction_count_threshold: Option<EventThreshold>,
    /// The maximum number of client connections that can be simultaneously connected with the same Client Username. The default is the max value supported by the hardware.
    max_connection_count_per_client_username: Option<i64>,
    /// The maximum number of egress flows that can be created by one client. The default is the max value supported by the hardware.
    max_egress_flow_count: Option<i64>,
    /// The maximum number of queues and topic endpoints that can be created by clients with the same Client Username. The default is the max value supported by the hardware.
    max_endpoint_count_per_client_username: Option<i64>,
    /// The maximum number of ingress flows that can be created by one client. The default is the max value supported by the hardware.
    max_ingress_flow_count: Option<i64>,
    /// The maximum number of subscriptions that can be created by one client. The default varies by platform.
    max_subscription_count: Option<i64>,
    /// The maximum number of transacted sessions that can be created by one client. The default value is `10`.
    max_transacted_session_count: Option<i64>,
    /// The maximum number of transactions that can be created by one client. The default varies by platform.
    max_transaction_count: Option<i64>,
    /// The name of the Message VPN.
    msg_vpn_name: Option<String>,
    /// The maximum depth of the "Control 1" (C-1) priority queue, in work units. Each work unit is 2048 bytes of message data. The default value is `20000`.
    queue_control1_max_depth: Option<i32>,
    /// The number of messages that are always allowed entry into the "Control 1" (C-1) priority queue, regardless of the "queueControl1MaxDepth" value. The default value is `4`.
    queue_control1_min_msg_burst: Option<i32>,
    /// The maximum depth of the "Direct 1" (D-1) priority queue, in work units. Each work unit is 2048 bytes of message data. The default value is `20000`.
    queue_direct1_max_depth: Option<i32>,
    /// The number of messages that are always allowed entry into the "Direct 1" (D-1) priority queue, regardless of the "queueDirect1MaxDepth" value. The default value is `4`.
    queue_direct1_min_msg_burst: Option<i32>,
    /// The maximum depth of the "Direct 2" (D-2) priority queue, in work units. Each work unit is 2048 bytes of message data. The default value is `20000`.
    queue_direct2_max_depth: Option<i32>,
    /// The number of messages that are always allowed entry into the "Direct 2" (D-2) priority queue, regardless of the "queueDirect2MaxDepth" value. The default value is `4`.
    queue_direct2_min_msg_burst: Option<i32>,
    /// The maximum depth of the "Direct 3" (D-3) priority queue, in work units. Each work unit is 2048 bytes of message data. The default value is `20000`.
    queue_direct3_max_depth: Option<i32>,
    /// The number of messages that are always allowed entry into the "Direct 3" (D-3) priority queue, regardless of the "queueDirect3MaxDepth" value. The default value is `4`.
    queue_direct3_min_msg_burst: Option<i32>,
    /// The maximum depth of the "Guaranteed 1" (G-1) priority queue, in work units. Each work unit is 2048 bytes of message data. The default value is `20000`.
    queue_guaranteed1_max_depth: Option<i32>,
    /// The number of messages that are always allowed entry into the "Guaranteed 1" (G-3) priority queue, regardless of the "queueGuaranteed1MaxDepth" value. The default value is `255`.
    queue_guaranteed1_min_msg_burst: Option<i32>,
    /// Enable or disable sending of a negative acknowledgement (NACK) on the discard of a message because of a message subscription was not found. The default value is `false`. Available since 2.2.
    reject_msg_to_sender_on_no_subscription_match_enabled: Option<bool>,
    /// Allow or deny clients to connect to the Message VPN if its Replication state is standby. The default value is `false`.
    replication_allow_client_connect_when_standby_enabled: Option<bool>,
    /// The maximum number of SMF client connections that can be simultaneously connected with the same Client Username. The default is the max value supported by the hardware.
    service_smf_max_connection_count_per_client_username: Option<i64>,
    /// The timeout for inactive Web Transport client sessions, in seconds. The default value is `30`.
    service_web_inactive_timeout: Option<i64>,
    /// The maximum number of Web Transport client connections that can be simultaneously connected with the same Client Username. The default is the max value supported by the hardware.
    service_web_max_connection_count_per_client_username: Option<i64>,
    /// The maximum Web Transport payload size before its fragmentation occurs, in bytes. The size of the header is not included. The default value is `1000000`.
    service_web_max_payload: Option<i64>,
    /// The TCP initial congestion window size, in multiple of the TCP Maximum Segment Size (MSS). Changing the value from its default of 2 results in non-compliance with RFC 2581. Contact Solace Support before changing this value. The default value is `2`.
    tcp_congestion_window_size: Option<i64>,
    /// The number of TCP keepalive retransmissions to be carried out before declaring that the remote end is not available. The default value is `5`.
    tcp_keepalive_count: Option<i64>,
    /// The amount of time a connection must remain idle before TCP begins sending keepalive probes, in seconds. The default value is `3`.
    tcp_keepalive_idle_time: Option<i64>,
    /// The amount of time between TCP keepalive retransmissions when no acknowledgement is received, in seconds. The default value is `1`.
    tcp_keepalive_interval: Option<i64>,
    /// The TCP maximum segment size, in kilobytes. Changes are applied to all existing connections. The default value is `1460`.
    tcp_max_segment_size: Option<i64>,
    /// The TCP maximum window size, in kilobytes. Changes are applied to all existing connections. The default value is `256`.
    tcp_max_window_size: Option<i64>,
    /// Enable or disable allowing a client to downgrade an encrypted connection to plain text. The default value is `true`. Available since 2.8.
    tls_allow_downgrade_to_plain_text_enabled: Option<bool>,
}

/// The abstract value of a [`MsgVpnClientProfile`]: each attribute, present with its value or absent.
/// Text attributes are held as sequences of characters.
pub struct MsgVpnClientProfileView {
    pub allow_bridge_connections_enabled: Option<bool>,
    pub allow_cut_through_forwarding_enabled: Option<bool>,
    pub allow_guaranteed_endpoint_create_enabled: Option<bool>,
    pub allow_guaranteed_msg_receive_enabled: Option<bool>,
    pub allow_guaranteed_msg_send_enabled: Option<bool>,
    pub allow_transacted_sessions_enabled: Option<bool>,
    pub api_queue_management_copy_from_on_create_name: Option<Seq<char>>,
    pub api_topic_endpoint_management_copy_from_on_create_name: Option<Seq<char>>,
    pub client_profile_name: Option<Seq<char>>,
    pub compression_enabled: Option<bool>,
    pub eliding_delay: Option<i64>,
    pub eliding_enabled: Option<bool>,
    pub eliding_max_topic_count: Option<i64>,
    pub event_client_provisioned_endpoint_spool_usage_threshold: Option<EventThresholdByPercent>,
    pub event_connection_count_per_client_username_threshold: Option<EventThreshold>,
    pub event_egress_flow_count_threshold: Option<EventThreshold>,
    pub event_endpoint_count_per_client_username_threshold: Option<EventThreshold>,
    pub event_ingress_flow_count_threshold: Option<EventThreshold>,
    pub event_service_smf_connection_count_per_client_username_threshold: Option<EventThreshold>,
    pub event_service_web_connection_count_per_client_username_threshold: Option<EventThreshold>,
    pub event_subscription_count_threshold: Option<EventThreshold>,
    pub event_transacted_session_count_threshold: Option<EventThreshold>,
    pub event_transaction_count_threshold: Option<EventThreshold>,
    pub max_connection_count_per_client_username: Option<i64>,
    pub max_egress_flow_count: Option<i64>,
    pub max_endpoint_count_per_client_username: Option<i64>,
    pub max_ingress_flow_count: Option<i64>,
    pub max_subscription_count: Option<i64>,
    pub max_transacted_session_count: Option<i64>,
    pub max_transaction_count: Option<i64>,
    pub msg_vpn_name: Option<Seq<char>>,
    pub queue_control1_max_depth: Option<i32>,
    pub queue_control1_min_msg_burst: Option<i32>,
    pub queue_direct1_max_depth: Option<i32>,
    pub queue_direct1_min_msg_burst: Option<i32>,
    pub queue_direct2_max_depth: Option<i32>,
    pub queue_direct2_min_msg_burst: Option<i32>,
    pub queue_direct3_max_depth: Option<i32>,
    pub queue_direct3_min_msg_burst: Option<i32>,
    pub queue_guaranteed1_max_depth: Option<i32>,
    pub queue_guaranteed1_min_msg_burst: Option<i32>,
    pub reject_msg_to_sender_on_no_subscription_match_enabled: Option<bool>,
    pub replication_allow_client_connect_when_standby_enabled: Option<bool>,
    pub service_smf_max_connection_count_per_client_username: Option<i64>,
    pub service_web_inactive_timeout: Option<i64>,
    pub service_web_max_connection_count_per_client_username: Option<i64>,
    pub service_web_max_payload: Option<i64>,
    pub tcp_congestion_window_size: Option<i64>,
    pub tcp_keepalive_count: Option<i64>,
    pub tcp_keepalive_idle_time: Option<i64>,
    pub tcp_keepalive_interval: Option<i64>,
    pub tcp_max_segment_size: Option<i64>,
    pub tcp_max_window_size: Option<i64>,
    pub tls_allow_downgrade_to_plain_text_enabled: Option<bool>,
}

impl MsgVpnClientProfileView {
    /// The value with every attribute absent.
    pub open spec fn empty() -> MsgVpnClientProfileView {
        MsgVpnClientProfileView {
            allow_bridge_connections_enabled: None,
            allow_cut_through_forwarding_enabled: None,
            allow_guaranteed_endpoint_create_enabled: None,
            allow_guaranteed_msg_receive_enabled: None,
            allow_guaranteed_msg_send_enabled: None,
            allow_transacted_sessions_enabled: None,
            api_queue_management_copy_from_on_create_name: None,
            api_topic_endpoint_management_copy_from_on_create_name: None,
            client_profile_name: None,
            compression_enabled: None,
            eliding_delay: None,
            eliding_enabled: None,
            eliding_max_topic_count: None,
            event_client_provisioned_endpoint_spool_usage_threshold: None,
            event_connection_count_per_client_username_threshold: None,
            event_egress_flow_count_threshold: None,
            event_endpoint_count_per_client_username_threshold: None,
            event_ingress_flow_count_threshold: None,
            event_service_smf_connection_count_per_client_username_threshold: None,
            event_service_web_connection_count_per_client_username_threshold: None,
            event_subscription_count_threshold: None,
            event_transacted_session_count_threshold: None,
            event_transaction_count_threshold: None,
            max_connection_count_per_client_username: None,
            max_egress_flow_count: None,
            max_endpoint_count_per_client_username: None,
            max_ingress_flow_count: None,
            max_subscription_count: None,
            max_transacted_session_count: None,
            max_transaction_count: None,
            msg_vpn_name: None,
            queue_control1_max_depth: None,
            queue_control1_min_msg_burst: None,
            queue_direct1_max_depth: None,
            queue_direct1_min_msg_burst: None,
            queue_direct2_max_depth: None,
            queue_direct2_min_msg_burst: None,
            queue_direct3_max_depth: None,
            queue_direct3_min_msg_burst: None,
            queue_guaranteed1_max_depth: None,
            queue_guaranteed1_min_msg_burst: None,
            reject_msg_to_sender_on_no_subscription_match_enabled: None,
            replication_allow_client_connect_when_standby_enabled: None,
            service_smf_max_connection_count_per_client_username: None,
            service_web_inactive_timeout: None,
            service_web_max_connection_count_per_client_username: None,
            service_web_max_payload: None,
            tcp_congestion_window_size: None,
            tcp_keepalive_count: None,
            tcp_keepalive_idle_time: None,
            tcp_keepalive_interval: None,
            tcp_max_segment_size: None,
            tcp_max_window_size: None,
            tls_allow_downgrade_to_plain_text_enabled: None,
        }
    }

    /// This value with `allowBridgeConnectionsEnabled` present and equal to `v`.
    pub open spec fn with_allow_bridge_connections_enabled(self, v: bool) -> MsgVpnClientProfileView {
        MsgVpnClientProfileView { allow_bridge_connections_enabled: Some(v), ..self }
    }

    /// This value with `allowBridgeConnectionsEnabled` absent.
    pub open spec fn without_allow_bridge_connections_enabled(self) -> MsgVpnClientProfileView {
        MsgVpnClientProfileView { allow_bridge_connections_enabled: None, ..self }
    }

    /// This value with `allowCutThroughForwardingEnabled` present and equal to `v`.
    pub open spec fn with_allow_cut_through_forwarding_enabled(self, v: bool) -> MsgVpnClientProfileView {
        MsgVpnClientProfileView { allow_cut_through_forwarding_enabled: Some(v), ..self }
    }

    /// This value with `allowCutThroughForwardingEnabled` absent.
    pub open spec fn without_allow_cut_through_forwarding_enabled(self) -> MsgVpnClientProfileView {
        MsgVpnClientProfileView { allow_cut_through_forwarding_enabled: None, ..self }
    }

    /// This value with `allowGuaranteedEndpointCreateEnabled` present and equal to `v`.
    pub open spec fn with_allow_guaranteed_endpoint_create_enabled(self, v: bool) -> MsgVpnClientProfileView {
        MsgVpnClientProfileView { allow_guaranteed_endpoint_create_enabled: Some(v), ..self }
    }

    /// This value with `allowGuaranteedEndpointCreateEnabled` absent.
    pub open spec fn without_allow_guaranteed_endpoint_create_enabled(self) -> MsgVpnClientProfileView {
        MsgVpnClientProfileView { allow_guaranteed_endpoint_create_enabled: None, ..self }
    }

    /// This value with `allowGuaranteedMsgReceiveEnabled` present and equal to `v`.
    pub open spec fn with_allow_guaranteed_msg_receive_enabled(self, v: bool) -> MsgVpnClientProfileView {
        MsgVpnClientProfileView { allow_guaranteed_msg_receive_enabled: Some(v), ..self }
    }

    /// This value with `allowGuaranteedMsgReceiveEnabled` absent.
    pub open spec fn without_allow_guaranteed_msg_receive_enabled(self) -> MsgVpnClientProfileView {
        MsgVpnClientProfileView { allow_guaranteed_msg_receive_enabled: None, ..self }
    }

    /// This value with `allowGuaranteedMsgSendEnabled` present and equal to `v`.
    pub open spec fn with_allow_guaranteed_msg_send_enabled(self, v: bool) -> MsgVpnClientProfileView {
        MsgVpnClientProfileView { allow_guaranteed_msg_send_enabled: Some(v), ..self }
    }

    /// This value with `allowGuaranteedMsgSendEnabled` absent.
    pub open spec fn without_allow_guaranteed_msg_send_enabled(self) -> MsgVpnClientProfileView {
        MsgVpnClientProfileView { allow_guaranteed_msg_send_enabled: None, ..self }
    }

    /// This value with `allowTransactedSessionsEnabled` present and equal to `v`.
    pub open spec fn with_allow_transacted_sessions_enabled(self, v: bool) -> MsgVpnClientProfileView {
        MsgVpnClientProfileView { allow_transacted_sessions_enabled: Some(v), ..self }
    }

    /// This value with `allowTransactedSessionsEnabled` absent.
    pub open spec fn without_allow_transacted_sessions_enabled(self) -> MsgVpnClientProfileView {
        MsgVpnClientProfileView { allow_transacted_sessions_enabled: None, ..self }
    }

    /// This value with `apiQueueManagementCopyFromOnCreateName` present and equal to `v`.
    pub open spec fn with_api_queue_management_copy_from_on_create_name(self, v: Seq<char>) -> MsgVpnClientProfileView {
        MsgVpnClientProfileView { api_queue_management_copy_from_on_create_name: Some(v), ..self }
    }

    /// This value with `apiQueueManagementCopyFromOnCreateName` absent.
    pub open spec fn without_api_queue_management_copy_from_on_create_name(self) -> MsgVpnClientProfileView {
        MsgVpnClientProfileView { api_queue_management_copy_from_on_create_name: None, ..self }
    }

    /// This value with `apiTopicEndpointManagementCopyFromOnCreateName` present and equal to `v`.
    pub open spec fn with_api_topic_endpoint_management_copy_from_on_create_name(self, v: Seq<char>) -> MsgVpnClientProfileView {
        MsgVpnClientProfileView { api_topic_endpoint_management_copy_from_on_create_name: Some(v), ..self }
    }

    /// This value with `apiTopicEndpointManagementCopyFromOnCreateName` absent.
    pub open spec fn without_api_topic_endpoint_management_copy_from_on_create_name(self) -> MsgVpnClientProfileView {
        MsgVpnClientProfileView { api_topic_endpoint_management_copy_from_on_create_name: None, ..self }
    }

    /// This value with `clientProfileName` present and equal to `v`.
    pub open spec fn with_client_profile_name(self, v: Seq<char>) -> MsgVpnClientProfileView {
        MsgVpnClientProfileView { client_profile_name: Some(v), ..self }
    }

    /// This value with `clientProfileName` absent.
    pub open spec fn without_client_profile_name(self) -> MsgVpnClientProfileView {
        MsgVpnClientProfileView { client_profile_name: None, ..self }
    }

    /// This value with `compressionEnabled` present and equal to `v`.
    pub open spec fn with_compression_enabled(self, v: bool) -> MsgVpnClientProfileView {
        MsgVpnClientProfileView { compression_enabled: Some(v), ..self }
    }

    /// This value with `compressionEnabled` absent.
    pub open spec fn without_compression_enabled(self) -> MsgVpnClientProfileView {
        MsgVpnClientProfileView { compression_enabled: None, ..self }
    }

    /// This value with `elidingDelay` present and equal to `v`.
    pub open spec fn with_eliding_delay(self, v: i64) -> MsgVpnClientProfileView {
        MsgVpnClientProfileView { eliding_delay: Some(v), ..self }
    }

    /// This value with `elidingDelay` absent.
    pub open spec fn without_eliding_delay(self) -> MsgVpnClientProfileView {
        MsgVpnClientProfileView { eliding_delay: None, ..self }
    }

    /// This value with `elidingEnabled` present and equal to `v`.
    pub open spec fn with_eliding_enabled(self, v: bool) -> MsgVpnClientProfileView {
        MsgVpnClientProfileView { eliding_enabled: Some(v), ..self }
    }

    /// This value with `elidingEnabled` absent.
    pub open spec fn without_eliding_enabled(self) -> MsgVpnClientProfileView {
        MsgVpnClientProfileView { eliding_enabled: None, ..self }
    }

    /// This value with `elidingMaxTopicCount` present and equal to `v`.
    pub open spec fn with_eliding_max_topic_count(self, v: i64) -> MsgVpnClientProfileView {
        MsgVpnClientProfileView { eliding_max_topic_count: Some(v), ..self }
    }

    /// This value with `elidingMaxTopicCount` absent.
    pub open spec fn without_eliding_max_topic_count(self) -> MsgVpnClientProfileView {
        MsgVpnClientProfileView { eliding_max_topic_count: None, ..self }
    }

    /// This value with `eventClientProvisionedEndpointSpoolUsageThreshold` present and equal to `v`.
    pub open spec fn with_event_client_provisioned_endpoint_spool_usage_threshold(self, v: EventThresholdByPercent) -> MsgVpnClientProfileView {
        MsgVpnClientProfileView { event_client_provisioned_endpoint_spool_usage_threshold: Some(v), ..self }
    }

    /// This value with `eventClientProvisionedEndpointSpoolUsageThreshold` absent.
    pub open spec fn without_event_client_provisioned_endpoint_spool_usage_threshold(self) -> MsgVpnClientProfileView {
        MsgVpnClientProfileView { event_client_provisioned_endpoint_spool_usage_threshold: None, ..self }
    }

    /// This value with `eventConnectionCountPerClientUsernameThreshold` present and equal to `v`.
    pub open spec fn with_event_connection_count_per_client_username_threshold(self, v: EventThreshold) -> MsgVpnClientProfileView {
        MsgVpnClientProfileView { event_connection_count_per_client_username_threshold: Some(v), ..self }
    }

    /// This value with `eventConnectionCountPerClientUsernameThreshold` absent.
    pub open spec fn without_event_connection_count_per_client_username_threshold(self) -> MsgVpnClientProfileView {
        MsgVpnClientProfileView { event_connection_count_per_client_username_threshold: None, ..self }
    }

    /// This value with `eventEgressFlowCountThreshold` present and equal to `v`.
    pub open spec fn with_event_egress_flow_count_threshold(self, v: EventThreshold) -> MsgVpnClientProfileView {
        MsgVpnClientProfileView { event_egress_flow_count_threshold: Some(v), ..self }
    }

    /// This value with `eventEgressFlowCountThreshold` absent.
    pub open spec fn without_event_egress_flow_count_threshold(self) -> MsgVpnClientProfileView {
        MsgVpnClientProfileView { event_egress_flow_count_threshold: None, ..self }
    }

    /// This value with `eventEndpointCountPerClientUsernameThreshold` present and equal to `v`.
    pub open spec fn with_event_endpoint_count_per_client_username_threshold(self, v: EventThreshold) -> MsgVpnClientProfileView {
        MsgVpnClientProfileView { event_endpoint_count_per_client_username_threshold: Some(v), ..self }
    }

    /// This value with `eventEndpointCountPerClientUsernameThreshold` absent.
    pub open spec fn without_event_endpoint_count_per_client_username_threshold(self) -> MsgVpnClientProfileView {
        MsgVpnClientProfileView { event_endpoint_count_per_client_username_threshold: None, ..self }
    }

    /// This value with `eventIngressFlowCountThreshold` present and equal to `v`.
    pub open spec fn with_event_ingress_flow_count_threshold(self, v: EventThreshold) -> MsgVpnClientProfileView {
        MsgVpnClientProfileView { event_ingress_flow_count_threshold: Some(v), ..self }
    }

    /// This value with `eventIngressFlowCountThreshold` absent.
    pub open spec fn without_event_ingress_flow_count_threshold(self) -> MsgVpnClientProfileView {
        MsgVpnClientProfileView { event_ingress_flow_count_threshold: None, ..self }
    }

    /// This value with `eventServiceSmfConnectionCountPerClientUsernameThreshold` present and equal to `v`.
    pub open spec fn with_event_service_smf_connection_count_per_client_username_threshold(self, v: EventThreshold) -> MsgVpnClientProfileView {
        MsgVpnClientProfileView { event_service_smf_connection_count_per_client_username_threshold: Some(v), ..self }
    }

    /// This value with `eventServiceSmfConnectionCountPerClientUsernameThreshold` absent.
    pub open spec fn without_event_service_smf_connection_count_per_client_username_threshold(self) -> MsgVpnClientProfileView {
        MsgVpnClientProfileView { event_service_smf_connection_count_per_client_username_threshold: None, ..self }
    }

    /// This value with `eventServiceWebConnectionCountPerClientUsernameThreshold` present and equal to `v`.
    pub open spec fn with_event_service_web_connection_count_per_client_username_threshold(self, v: EventThreshold) -> MsgVpnClientProfileView {
        MsgVpnClientProfileView { event_service_web_connection_count_per_client_username_threshold: Some(v), ..self }
    }

    /// This value with `eventServiceWebConnectionCountPerClientUsernameThreshold` absent.
    pub open spec fn without_event_service_web_connection_count_per_client_username_threshold(self) -> MsgVpnClientProfileView {
        MsgVpnClientProfileView { event_service_web_connection_count_per_client_username_threshold: None, ..self }
    }

    /// This value with `eventSubscriptionCountThreshold` present and equal to `v`.
    pub open spec fn with_event_subscription_count_threshold(self, v: EventThreshold) -> MsgVpnClientProfileView {
        MsgVpnClientProfileView { event_subscription_count_threshold: Some(v), ..self }
    }

    /// This value with `eventSubscriptionCountThreshold` absent.
    pub open spec fn without_event_subscription_count_threshold(self) -> MsgVpnClientProfileView {
        MsgVpnClientProfileView { event_subscription_count_threshold: None, ..self }
    }

    /// This value with `eventTransactedSessionCountThreshold` present and equal to `v`.
    pub open spec fn with_event_transacted_session_count_threshold(self, v: EventThreshold) -> MsgVpnClientProfileView {
        MsgVpnClientProfileView { event_transacted_session_count_threshold: Some(v), ..self }
    }

    /// This value with `eventTransactedSessionCountThreshold` absent.
    pub open spec fn without_event_transacted_session_count_threshold(self) -> MsgVpnClientProfileView {
        MsgVpnClientProfileView { event_transacted_session_count_threshold: None, ..self }
    }

    /// This value with `eventTransactionCountThreshold` present and equal to `v`.
    pub open spec fn with_event_transaction_count_threshold(self, v: EventThreshold) -> MsgVpnClientProfileView {
        MsgVpnClientProfileView { event_transaction_count_threshold: Some(v), ..self }
    }

    /// This value with `eventTransactionCountThreshold` absent.
    pub open spec fn without_event_transaction_count_threshold(self) -> MsgVpnClientProfileView {
        MsgVpnClientProfileView { event_transaction_count_threshold: None, ..self }
    }

    /// This value with `maxConnectionCountPerClientUsername` present and equal to `v`.
    pub open spec fn with_max_connection_count_per_client_username(self, v: i64) -> MsgVpnClientProfileView {
        MsgVpnClientProfileView { max_connection_count_per_client_username: Some(v), ..self }
    }

    /// This value with `maxConnectionCountPerClientUsername` absent.
    pub open spec fn without_max_connection_count_per_client_username(self) -> MsgVpnClientProfileView {
        MsgVpnClientProfileView { max_connection_count_per_client_username: None, ..self }
    }

    /// This value with `maxEgressFlowCount` present and equal to `v`.
    pub open spec fn with_max_egress_flow_count(self, v: i64) -> MsgVpnClientProfileView {
        MsgVpnClientProfileView { max_egress_flow_count: Some(v), ..self }
    }

    /// This value with `maxEgressFlowCount` absent.
    pub open spec fn without_max_egress_flow_count(self) -> MsgVpnClientProfileView {
        MsgVpnClientProfileView { max_egress_flow_count: None, ..self }
    }

    /// This value with `maxEndpointCountPerClientUsername` present and equal to `v`.
    pub open spec fn with_max_endpoint_count_per_client_username(self, v: i64) -> MsgVpnClientProfileView {
        MsgVpnClientProfileView { max_endpoint_count_per_client_username: Some(v), ..self }
    }

    /// This value with `maxEndpointCountPerClientUsername` absent.
    pub open spec fn without_max_endpoint_count_per_client_username(self) -> MsgVpnClientProfileView {
        MsgVpnClientProfileView { max_endpoint_count_per_client_username: None, ..self }
    }

    /// This value with `maxIngressFlowCount` present and equal to `v`.
    pub open spec fn with_max_ingress_flow_count(self, v: i64) -> MsgVpnClientProfileView {
        MsgVpnClientProfileView { max_ingress_flow_count: Some(v), ..self }
    }

    /// This value with `maxIngressFlowCount` absent.
    pub open spec fn without_max_ingress_flow_count(self) -> MsgVpnClientProfileView {
        MsgVpnClientProfileView { max_ingress_flow_count: None, ..self }
    }

    /// This value with `maxSubscriptionCount` present and equal to `v`.
    pub open spec fn with_max_subscription_count(self, v: i64) -> MsgVpnClientProfileView {
        MsgVpnClientProfileView { max_subscription_count: Some(v), ..self }
    }

    /// This value with `maxSubscriptionCount` absent.
    pub open spec fn without_max_subscription_count(self) -> MsgVpnClientProfileView {
        MsgVpnClientProfileView { max_subscription_count: None, ..self }
    }

    /// This value with `maxTransactedSessionCount` present and equal to `v`.
    pub open spec fn with_max_transacted_session_count(self, v: i64) -> MsgVpnClientProfileView {
        MsgVpnClientProfileView { max_transacted_session_count: Some(v), ..self }
    }

    /// This value with `maxTransactedSessionCount` absent.
    pub open spec fn without_max_transacted_session_count(self) -> MsgVpnClientProfileView {
        MsgVpnClientProfileView { max_transacted_session_count: None, ..self }
    }

    /// This value with `maxTransactionCount` present and equal to `v`.
    pub open spec fn with_max_transaction_count(self, v: i64) -> MsgVpnClientProfileView {
        MsgVpnClientProfileView { max_transaction_count: Some(v), ..self }
    }

    /// This value with `maxTransactionCount` absent.
    pub open spec fn without_max_transaction_count(self) -> MsgVpnClientProfileView {
        MsgVpnClientProfileView { max_transaction_count: None, ..self }
    }

    /// This value with `msgVpnName` present and equal to `v`.
    pub open spec fn with_msg_vpn_name(self, v: Seq<char>) -> MsgVpnClientProfileView {
        MsgVpnClientProfileView { msg_vpn_name: Some(v), ..self }
    }

    /// This value with `msgVpnName` absent.
    pub open spec fn without_msg_vpn_name(self) -> MsgVpnClientProfileView {
        MsgVpnClientProfileView { msg_vpn_name: None, ..self }
    }

    /// This value with `queueControl1MaxDepth` present and equal to `v`.
    pub open spec fn with_queue_control1_max_depth(self, v: i32) -> MsgVpnClientProfileView {
        MsgVpnClientProfileView { queue_control1_max_depth: Some(v), ..self }
    }

    /// This value with `queueControl1MaxDepth` absent.
    pub open spec fn without_queue_control1_max_depth(self) -> MsgVpnClientProfileView {
        MsgVpnClientProfileView { queue_control1_max_depth: None, ..self }
    }

    /// This value with `queueControl1MinMsgBurst` present and equal to `v`.
    pub open spec fn with_queue_control1_min_msg_burst(self, v: i32) -> MsgVpnClientProfileView {
        MsgVpnClientProfileView { queue_control1_min_msg_burst: Some(v), ..self }
    }

    /// This value with `queueControl1MinMsgBurst` absent.
    pub open spec fn without_queue_control1_min_msg_burst(self) -> MsgVpnClientProfileView {
        MsgVpnClientProfileView { queue_control1_min_msg_burst: None, ..self }
    }

    /// This value with `queueDirect1MaxDepth` present and equal to `v`.
    pub open spec fn with_queue_direct1_max_depth(self, v: i32) -> MsgVpnClientProfileView {
        MsgVpnClientProfileView { queue_direct1_max_depth: Some(v), ..self }
    }

    /// This value with `queueDirect1MaxDepth` absent.
    pub open spec fn without_queue_direct1_max_depth(self) -> MsgVpnClientProfileView {
        MsgVpnClientProfileView { queue_direct1_max_depth: None, ..self }
    }

    /// This value with `queueDirect1MinMsgBurst` present and equal to `v`.
    pub open spec fn with_queue_direct1_min_msg_burst(self, v: i32) -> MsgVpnClientProfileView {
        MsgVpnClientProfileView { queue_direct1_min_msg_burst: Some(v), ..self }
    }

    /// This value with `queueDirect1MinMsgBurst` absent.
    pub open spec fn without_queue_direct1_min_msg_burst(self) -> MsgVpnClientProfileView {
        MsgVpnClientProfileView { queue_direct1_min_msg_burst: None, ..self }
    }

    /// This value with `queueDirect2MaxDepth` present and equal to `v`.
    pub open spec fn with_queue_direct2_max_depth(self, v: i32) -> MsgVpnClientProfileView {
        MsgVpnClientProfileView { queue_direct2_max_depth: Some(v), ..self }
    }

    /// This value with `queueDirect2MaxDepth` absent.
    pub open spec fn without_queue_direct2_max_depth(self) -> MsgVpnClientProfileView {
        MsgVpnClientProfileView { queue_direct2_max_depth: None, ..self }
    }

    /// This value with `queueDirect2MinMsgBurst` present and equal to `v`.
    pub open spec fn with_queue_direct2_min_msg_burst(self, v: i32) -> MsgVpnClientProfileView {
        MsgVpnClientProfileView { queue_direct2_min_msg_burst: Some(v), ..self }
    }

    /// This value with `queueDirect2MinMsgBurst` absent.
    pub open spec fn without_queue_direct2_min_msg_burst(self) -> MsgVpnClientProfileView {
        MsgVpnClientProfileView { queue_direct2_min_msg_burst: None, ..self }
    }

    /// This value with `queueDirect3MaxDepth` present and equal to `v`.
    pub open spec fn with_queue_direct3_max_depth(self, v: i32) -> MsgVpnClientProfileView {
        MsgVpnClientProfileView { queue_direct3_max_depth: Some(v), ..self }
    }

    /// This value with `queueDirect3MaxDepth` absent.
    pub open spec fn without_queue_direct3_max_depth(self) -> MsgVpnClientProfileView {
        MsgVpnClientProfileView { queue_direct3_max_depth: None, ..self }
    }

    /// This value with `queueDirect3MinMsgBurst` present and equal to `v`.
    pub open spec fn with_queue_direct3_min_msg_burst(self, v: i32) -> MsgVpnClientProfileView {
        MsgVpnClientProfileView { queue_direct3_min_msg_burst: Some(v), ..self }
    }

    /// This value with `queueDirect3MinMsgBurst` absent.
    pub open spec fn without_queue_direct3_min_msg_burst(self) -> MsgVpnClientProfileView {
        MsgVpnClientProfileView { queue_direct3_min_msg_burst: None, ..self }
    }

    /// This value with `queueGuaranteed1MaxDepth` present and equal to `v`.
    pub open spec fn with_queue_guaranteed1_max_depth(self, v: i32) -> MsgVpnClientProfileView {
        MsgVpnClientProfileView { queue_guaranteed1_max_depth: Some(v), ..self }
    }

    /// This value with `queueGuaranteed1MaxDepth` absent.
    pub open spec fn without_queue_guaranteed1_max_depth(self) -> MsgVpnClientProfileView {
        MsgVpnClientProfileView { queue_guaranteed1_max_depth: None, ..self }
    }

    /// This value with `queueGuaranteed1MinMsgBurst` present and equal to `v`.
    pub open spec fn with_queue_guaranteed1_min_msg_burst(self, v: i32) -> MsgVpnClientProfileView {
        MsgVpnClientProfileView { queue_guaranteed1_min_msg_burst: Some(v), ..self }
    }

    /// This value with `queueGuaranteed1MinMsgBurst` absent.
    pub open spec fn without_queue_guaranteed1_min_msg_burst(self) -> MsgVpnClientProfileView {
        MsgVpnClientProfileView { queue_guaranteed1_min_msg_burst: None, ..self }
    }

    /// This value with `rejectMsgToSenderOnNoSubscriptionMatchEnabled` present and equal to `v`.
    pub open spec fn with_reject_msg_to_sender_on_no_subscription_match_enabled(self, v: bool) -> MsgVpnClientProfileView {
        MsgVpnClientProfileView { reject_msg_to_sender_on_no_subscription_match_enabled: Some(v), ..self }
    }

    /// This value with `rejectMsgToSenderOnNoSubscriptionMatchEnabled` absent.
    pub open spec fn without_reject_msg_to_sender_on_no_subscription_match_enabled(self) -> MsgVpnClientProfileView {
        MsgVpnClientProfileView { reject_msg_to_sender_on_no_subscription_match_enabled: None, ..self }
    }

    /// This value with `replicationAllowClientConnectWhenStandbyEnabled` present and equal to `v`.
    pub open spec fn with_replication_allow_client_connect_when_standby_enabled(self, v: bool) -> MsgVpnClientProfileView {
        MsgVpnClientProfileView { replication_allow_client_connect_when_standby_enabled: Some(v), ..self }
    }

    /// This value with `replicationAllowClientConnectWhenStandbyEnabled` absent.
    pub open spec fn without_replication_allow_client_connect_when_standby_enabled(self) -> MsgVpnClientProfileView {
        MsgVpnClientProfileView { replication_allow_client_connect_when_standby_enabled: None, ..self }
    }

    /// This value with `serviceSmfMaxConnectionCountPerClientUsername` present and equal to `v`.
    pub open spec fn with_service_smf_max_connection_count_per_client_username(self, v: i64) -> MsgVpnClientProfileView {
        MsgVpnClientProfileView { service_smf_max_connection_count_per_client_username: Some(v), ..self }
    }

    /// This value with `serviceSmfMaxConnectionCountPerClientUsername` absent.
    pub open spec fn without_service_smf_max_connection_count_per_client_username(self) -> MsgVpnClientProfileView {
        MsgVpnClientProfileView { service_smf_max_connection_count_per_client_username: None, ..self }
    }

    /// This value with `serviceWebInactiveTimeout` present and equal to `v`.
    pub open spec fn with_service_web_inactive_timeout(self, v: i64) -> MsgVpnClientProfileView {
        MsgVpnClientProfileView { service_web_inactive_timeout: Some(v), ..self }
    }

    /// This value with `serviceWebInactiveTimeout` absent.
    pub open spec fn without_service_web_inactive_timeout(self) -> MsgVpnClientProfileView {
        MsgVpnClientProfileView { service_web_inactive_timeout: None, ..self }
    }

    /// This value with `serviceWebMaxConnectionCountPerClientUsername` present and equal to `v`.
    pub open spec fn with_service_web_max_connection_count_per_client_username(self, v: i64) -> MsgVpnClientProfileView {
        MsgVpnClientProfileView { service_web_max_connection_count_per_client_username: Some(v), ..self }
    }

    /// This value with `serviceWebMaxConnectionCountPerClientUsername` absent.
    pub open spec fn without_service_web_max_connection_count_per_client_username(self) -> MsgVpnClientProfileView {
        MsgVpnClientProfileView { service_web_max_connection_count_per_client_username: None, ..self }
    }

    /// This value with `serviceWebMaxPayload` present and equal to `v`.
    pub open spec fn with_service_web_max_payload(self, v: i64) -> MsgVpnClientProfileView {
        MsgVpnClientProfileView { service_web_max_payload: Some(v), ..self }
    }

    /// This value with `serviceWebMaxPayload` absent.
    pub open spec fn without_service_web_max_payload(self) -> MsgVpnClientProfileView {
        MsgVpnClientProfileView { service_web_max_payload: None, ..self }
    }

    /// This value with `tcpCongestionWindowSize` present and equal to `v`.
    pub open spec fn with_tcp_congestion_window_size(self, v: i64) -> MsgVpnClientProfileView {
        MsgVpnClientProfileView { tcp_congestion_window_size: Some(v), ..self }
    }

    /// This value with `tcpCongestionWindowSize` absent.
    pub open spec fn without_tcp_congestion_window_size(self) -> MsgVpnClientProfileView {
        MsgVpnClientProfileView { tcp_congestion_window_size: None, ..self }
    }

    /// This value with `tcpKeepaliveCount` present and equal to `v`.
    pub open spec fn with_tcp_keepalive_count(self, v: i64) -> MsgVpnClientProfileView {
        MsgVpnClientProfileView { tcp_keepalive_count: Some(v), ..self }
    }

    /// This value with `tcpKeepaliveCount` absent.
    pub open spec fn without_tcp_keepalive_count(self) -> MsgVpnClientProfileView {
        MsgVpnClientProfileView { tcp_keepalive_count: None, ..self }
    }

    /// This value with `tcpKeepaliveIdleTime` present and equal to `v`.
    pub open spec fn with_tcp_keepalive_idle_time(self, v: i64) -> MsgVpnClientProfileView {
        MsgVpnClientProfileView { tcp_keepalive_idle_time: Some(v), ..self }
    }

    /// This value with `tcpKeepaliveIdleTime` absent.
    pub open spec fn without_tcp_keepalive_idle_time(self) -> MsgVpnClientProfileView {
        MsgVpnClientProfileView { tcp_keepalive_idle_time: None, ..self }
    }

    /// This value with `tcpKeepaliveInterval` present and equal to `v`.
    pub open spec fn with_tcp_keepalive_interval(self, v: i64) -> MsgVpnClientProfileView {
        MsgVpnClientProfileView { tcp_keepalive_interval: Some(v), ..self }
    }

    /// This value with `tcpKeepaliveInterval` absent.
    pub open spec fn without_tcp_keepalive_interval(self) -> MsgVpnClientProfileView {
        MsgVpnClientProfileView { tcp_keepalive_interval: None, ..self }
    }

    /// This value with `tcpMaxSegmentSize` present and equal to `v`.
    pub open spec fn with_tcp_max_segment_size(self, v: i64) -> MsgVpnClientProfileView {
        MsgVpnClientProfileView { tcp_max_segment_size: Some(v), ..self }
    }

    /// This value with `tcpMaxSegmentSize` absent.
    pub open spec fn without_tcp_max_segment_size(self) -> MsgVpnClientProfileView {
        MsgVpnClientProfileView { tcp_max_segment_size: None, ..self }
    }

    /// This value with `tcpMaxWindowSize` present and equal to `v`.
    pub open spec fn with_tcp_max_window_size(self, v: i64) -> MsgVpnClientProfileView {
        MsgVpnClientProfileView { tcp_max_window_size: Some(v), ..self }
    }

    /// This value with `tcpMaxWindowSize` absent.
    pub open spec fn without_tcp_max_window_size(self) -> MsgVpnClientProfileView {
        MsgVpnClientProfileView { tcp_max_window_size: None, ..self }
    }

    /// This value with `tlsAllowDowngradeToPlainTextEnabled` present and equal to `v`.
    pub open spec fn with_tls_allow_downgrade_to_plain_text_enabled(self, v: bool) -> MsgVpnClientProfileView {
        MsgVpnClientProfileView { tls_allow_downgrade_to_plain_text_enabled: Some(v), ..self }
    }

    /// This value with `tlsAllowDowngradeToPlainTextEnabled` absent.
    pub open spec fn without_tls_allow_downgrade_to_plain_text_enabled(self) -> MsgVpnClientProfileView {
        MsgVpnClientProfileView { tls_allow_downgrade_to_plain_text_enabled: None, ..self }
    }
}

impl View for MsgVpnClientProfile {
    type V = MsgVpnClientProfileView;

    closed spec fn view(&self) -> MsgVpnClientProfileView {
        MsgVpnClientProfileView {
            allow_bridge_connections_enabled: self.allow_bridge_connections_enabled.deep_view(),
            allow_cut_through_forwarding_enabled: self.allow_cut_through_forwarding_enabled.deep_view(),
            allow_guaranteed_endpoint_create_enabled: self.allow_guaranteed_endpoint_create_enabled.deep_view(),
            allow_guaranteed_msg_receive_enabled: self.allow_guaranteed_msg_receive_enabled.deep_view(),
            allow_guaranteed_msg_send_enabled: self.allow_guaranteed_msg_send_enabled.deep_view(),
            allow_transacted_sessions_enabled: self.allow_transacted_sessions_enabled.deep_view(),
            api_queue_management_copy_from_on_create_name: self.api_queue_management_copy_from_on_create_name.deep_view(),
            api_topic_endpoint_management_copy_from_on_create_name: self.api_topic_endpoint_management_copy_from_on_create_name.deep_view(),
            client_profile_name: self.client_profile_name.deep_view(),
            compression_enabled: self.compression_enabled.deep_view(),
            eliding_delay: self.eliding_delay.deep_view(),
            eliding_enabled: self.eliding_enabled.deep_view(),
            eliding_max_topic_count: self.eliding_max_topic_count.deep_view(),
            event_client_provisioned_endpoint_spool_usage_threshold: self.event_client_provisioned_endpoint_spool_usage_threshold.deep_view(),
            event_connection_count_per_client_username_threshold: self.event_connection_count_per_client_username_threshold.deep_view(),
            event_egress_flow_count_threshold: self.event_egress_flow_count_threshold.deep_view(),
            event_endpoint_count_per_client_username_threshold: self.event_endpoint_count_per_client_username_threshold.deep_view(),
            event_ingress_flow_count_threshold: self.event_ingress_flow_count_threshold.deep_view(),
            event_service_smf_connection_count_per_client_username_threshold: self.event_service_smf_connection_count_per_client_username_threshold.deep_view(),
            event_service_web_connection_count_per_client_username_threshold: self.event_service_web_connection_count_per_client_username_threshold.deep_view(),
            event_subscription_count_threshold: self.event_subscription_count_threshold.deep_view(),
            event_transacted_session_count_threshold: self.event_transacted_session_count_threshold.deep_view(),
            event_transaction_count_threshold: self.event_transaction_count_threshold.deep_view(),
            max_connection_count_per_client_username: self.max_connection_count_per_client_username.deep_view(),
            max_egress_flow_count: self.max_egress_flow_count.deep_view(),
            max_endpoint_count_per_client_username: self.max_endpoint_count_per_client_username.deep_view(),
            max_ingress_flow_count: self.max_ingress_flow_count.deep_view(),
            max_subscription_count: self.max_subscription_count.deep_view(),
            max_transacted_session_count: self.max_transacted_session_count.deep_view(),
            max_transaction_count: self.max_transaction_count.deep_view(),
            msg_vpn_name: self.msg_vpn_name.deep_view(),
            queue_control1_max_depth: self.queue_control1_max_depth.deep_view(),
            queue_control1_min_msg_burst: self.queue_control1_min_msg_burst.deep_view(),
            queue_direct1_max_depth: self.queue_direct1_max_depth.deep_view(),
            queue_direct1_min_msg_burst: self.queue_direct1_min_msg_burst.deep_view(),
            queue_direct2_max_depth: self.queue_direct2_max_depth.deep_view(),
            queue_direct2_min_msg_burst: self.queue_direct2_min_msg_burst.deep_view(),
            queue_direct3_max_depth: self.queue_direct3_max_depth.deep_view(),
            queue_direct3_min_msg_burst: self.queue_direct3_min_msg_burst.deep_view(),
            queue_guaranteed1_max_depth: self.queue_guaranteed1_max_depth.deep_view(),
            queue_guaranteed1_min_msg_burst: self.queue_guaranteed1_min_msg_burst.deep_view(),
            reject_msg_to_sender_on_no_subscription_match_enabled: self.reject_msg_to_sender_on_no_subscription_match_enabled.deep_view(),
            replication_allow_client_connect_when_standby_enabled: self.replication_allow_client_connect_when_standby_enabled.deep_view(),
            service_smf_max_connection_count_per_client_username: self.service_smf_max_connection_count_per_client_username.deep_view(),
            service_web_inactive_timeout: self.service_web_inactive_timeout.deep_view(),
            service_web_max_connection_count_per_client_username: self.service_web_max_connection_count_per_client_username.deep_view(),
            service_web_max_payload: self.service_web_max_payload.deep_view(),
            tcp_congestion_window_size: self.tcp_congestion_window_size.deep_view(),
            tcp_keepalive_count: self.tcp_keepalive_count.deep_view(),
            tcp_keepalive_idle_time: self.tcp_keepalive_idle_time.deep_view(),
            tcp_keepalive_interval: self.tcp_keepalive_interval.deep_view(),
            tcp_max_segment_size: self.tcp_max_segment_size.deep_view(),
            tcp_max_window_size: self.tcp_max_window_size.deep_view(),
            tls_allow_downgrade_to_plain_text_enabled: self.tls_allow_downgrade_to_plain_text_enabled.deep_view(),
        }
    }
}

impl MsgVpnClientProfile {
    /// Returns a value with every attribute absent.
    pub fn new() -> (r: MsgVpnClientProfile)
        ensures
            r@ == MsgVpnClientProfileView::empty(),
    {
        MsgVpnClientProfile {
            allow_bridge_connections_enabled: None,
            allow_cut_through_forwarding_enabled: None,
            allow_guaranteed_endpoint_create_enabled: None,
            allow_guaranteed_msg_receive_enabled: None,
            allow_guaranteed_msg_send_enabled: None,
            allow_transacted_sessions_enabled: None,
            api_queue_management_copy_from_on_create_name: None,
            api_topic_endpoint_management_copy_from_on_create_name: None,
            client_profile_name: None,
            compression_enabled: None,
            eliding_delay: None,
            eliding_enabled: None,
            eliding_max_topic_count: None,
            event_client_provisioned_endpoint_spool_usage_threshold: None,
            event_connection_count_per_client_username_threshold: None,
            event_egress_flow_count_threshold: None,
            event_endpoint_count_per_client_username_threshold: None,
            event_ingress_flow_count_threshold: None,
            event_service_smf_connection_count_per_client_username_threshold: None,
            event_service_web_connection_count_per_client_username_threshold: None,
            event_subscription_count_threshold: None,
            event_transacted_session_count_threshold: None,
            event_transaction_count_threshold: None,
            max_connection_count_per_client_username: None,
            max_egress_flow_count: None,
            max_endpoint_count_per_client_username: None,
            max_ingress_flow_count: None,
            max_subscription_count: None,
            max_transacted_session_count: None,
            max_transaction_count: None,
            msg_vpn_name: None,
            queue_control1_max_depth: None,
            queue_control1_min_msg_burst: None,
            queue_direct1_max_depth: None,
            queue_direct1_min_msg_burst: None,
            queue_direct2_max_depth: None,
            queue_direct2_min_msg_burst: None,
            queue_direct3_max_depth: None,
            queue_direct3_min_msg_burst: None,
            queue_guaranteed1_max_depth: None,
            queue_guaranteed1_min_msg_burst: None,
            reject_msg_to_sender_on_no_subscription_match_enabled: None,
            replication_allow_client_connect_when_standby_enabled: None,
            service_smf_max_connection_count_per_client_username: None,
            service_web_inactive_timeout: None,
            service_web_max_connection_count_per_client_username: None,
            service_web_max_payload: None,
            tcp_congestion_window_size: None,
            tcp_keepalive_count: None,
            tcp_keepalive_idle_time: None,
            tcp_keepalive_interval: None,
            tcp_max_segment_size: None,
            tcp_max_window_size: None,
            tls_allow_downgrade_to_plain_text_enabled: None,
        }
    }

    /// Sets `allowBridgeConnectionsEnabled` to the given value; every other attribute is left as it was.
    pub fn set_allow_bridge_connections_enabled(&mut self, allow_bridge_connections_enabled: bool)
        ensures
            final(self)@ == old(self)@.with_allow_bridge_connections_enabled(allow_bridge_connections_enabled),
    {
        self.allow_bridge_connections_enabled = Some(allow_bridge_connections_enabled);
    }

    /// Returns this value with `allowBridgeConnectionsEnabled` set to the given value.
    pub fn with_allow_bridge_connections_enabled(self, allow_bridge_connections_enabled: bool) -> (r: MsgVpnClientProfile)
        ensures
            r@ == self@.with_allow_bridge_connections_enabled(allow_bridge_connections_enabled),
    {
        let mut r = self;
        r.allow_bridge_connections_enabled = Some(allow_bridge_connections_enabled);
        r
    }

    /// Returns `allowBridgeConnectionsEnabled` if it is present.
    pub fn allow_bridge_connections_enabled(&self) -> (r: Option<&bool>)
        ensures
            r.deep_view() == self@.allow_bridge_connections_enabled,
    {
        self.allow_bridge_connections_enabled.as_ref()
    }

    /// Removes `allowBridgeConnectionsEnabled`; every other attribute is left as it was.
    pub fn reset_allow_bridge_connections_enabled(&mut self)
        ensures
            final(self)@ == old(self)@.without_allow_bridge_connections_enabled(),
    {
        self.allow_bridge_connections_enabled = None;
    }

    /// Sets `allowCutThroughForwardingEnabled` to the given value; every other attribute is left as it was.
    pub fn set_allow_cut_through_forwarding_enabled(&mut self, allow_cut_through_forwarding_enabled: bool)
        ensures
            final(self)@ == old(self)@.with_allow_cut_through_forwarding_enabled(allow_cut_through_forwarding_enabled),
    {
        self.allow_cut_through_forwarding_enabled = Some(allow_cut_through_forwarding_enabled);
    }

    /// Returns this value with `allowCutThroughForwardingEnabled` set to the given value.
    pub fn with_allow_cut_through_forwarding_enabled(self, allow_cut_through_forwarding_enabled: bool) -> (r: MsgVpnClientProfile)
        ensures
            r@ == self@.with_allow_cut_through_forwarding_enabled(allow_cut_through_forwarding_enabled),
    {
        let mut r = self;
        r.allow_cut_through_forwarding_enabled = Some(allow_cut_through_forwarding_enabled);
        r
    }

    /// Returns `allowCutThroughForwardingEnabled` if it is present.
    pub fn allow_cut_through_forwarding_enabled(&self) -> (r: Option<&bool>)
        ensures
            r.deep_view() == self@.allow_cut_through_forwarding_enabled,
    {
        self.allow_cut_through_forwarding_enabled.as_ref()
    }

    /// Removes `allowCutThroughForwardingEnabled`; every other attribute is left as it was.
    pub fn reset_allow_cut_through_forwarding_enabled(&mut self)
        ensures
            final(self)@ == old(self)@.without_allow_cut_through_forwarding_enabled(),
    {
        self.allow_cut_through_forwarding_enabled = None;
    }

    /// Sets `allowGuaranteedEndpointCreateEnabled` to the given value; every other attribute is left as it was.
    pub fn set_allow_guaranteed_endpoint_create_enabled(&mut self, allow_guaranteed_endpoint_create_enabled: bool)
        ensures
            final(self)@ == old(self)@.with_allow_guaranteed_endpoint_create_enabled(allow_guaranteed_endpoint_create_enabled),
    {
        self.allow_guaranteed_endpoint_create_enabled = Some(allow_guaranteed_endpoint_create_enabled);
    }

    /// Returns this value with `allowGuaranteedEndpointCreateEnabled` set to the given value.
    pub fn with_allow_guaranteed_endpoint_create_enabled(self, allow_guaranteed_endpoint_create_enabled: bool) -> (r: MsgVpnClientProfile)
        ensures
            r@ == self@.with_allow_guaranteed_endpoint_create_enabled(allow_guaranteed_endpoint_create_enabled),
    {
        let mut r = self;
        r.allow_guaranteed_endpoint_create_enabled = Some(allow_guaranteed_endpoint_create_enabled);
        r
    }

    /// Returns `allowGuaranteedEndpointCreateEnabled` if it is present.
    pub fn allow_guaranteed_endpoint_create_enabled(&self) -> (r: Option<&bool>)
        ensures
            r.deep_view() == self@.allow_guaranteed_endpoint_create_enabled,
    {
        self.allow_guaranteed_endpoint_create_enabled.as_ref()
    }

    /// Removes `allowGuaranteedEndpointCreateEnabled`; every other attribute is left as it was.
    pub fn reset_allow_guaranteed_endpoint_create_enabled(&mut self)
        ensures
            final(self)@ == old(self)@.without_allow_guaranteed_endpoint_create_enabled(),
    {
        self.allow_guaranteed_endpoint_create_enabled = None;
    }

    /// Sets `allowGuaranteedMsgReceiveEnabled` to the given value; every other attribute is left as it was.
    pub fn set_allow_guaranteed_msg_receive_enabled(&mut self, allow_guaranteed_msg_receive_enabled: bool)
        ensures
            final(self)@ == old(self)@.with_allow_guaranteed_msg_receive_enabled(allow_guaranteed_msg_receive_enabled),
    {
        self.allow_guaranteed_msg_receive_enabled = Some(allow_guaranteed_msg_receive_enabled);
    }

    /// Returns this value with `allowGuaranteedMsgReceiveEnabled` set to the given value.
    pub fn with_allow_guaranteed_msg_receive_enabled(self, allow_guaranteed_msg_receive_enabled: bool) -> (r: MsgVpnClientProfile)
        ensures
            r@ == self@.with_allow_guaranteed_msg_receive_enabled(allow_guaranteed_msg_receive_enabled),
    {
        let mut r = self;
        r.allow_guaranteed_msg_receive_enabled = Some(allow_guaranteed_msg_receive_enabled);
        r
    }

    /// Returns `allowGuaranteedMsgReceiveEnabled` if it is present.
    pub fn allow_guaranteed_msg_receive_enabled(&self) -> (r: Option<&bool>)
        ensures
            r.deep_view() == self@.allow_guaranteed_msg_receive_enabled,
    {
        self.allow_guaranteed_msg_receive_enabled.as_ref()
    }

    /// Removes `allowGuaranteedMsgReceiveEnabled`; every other attribute is left as it was.
    pub fn reset_allow_guaranteed_msg_receive_enabled(&mut self)
        ensures
            final(self)@ == old(self)@.without_allow_guaranteed_msg_receive_enabled(),
    {
        self.allow_guaranteed_msg_receive_enabled = None;
    }

    /// Sets `allowGuaranteedMsgSendEnabled` to the given value; every other attribute is left as it was.
    pub fn set_allow_guaranteed_msg_send_enabled(&mut self, allow_guaranteed_msg_send_enabled: bool)
        ensures
            final(self)@ == old(self)@.with_allow_guaranteed_msg_send_enabled(allow_guaranteed_msg_send_enabled),
    {
        self.allow_guaranteed_msg_send_enabled = Some(allow_guaranteed_msg_send_enabled);
    }

    /// Returns this value with `allowGuaranteedMsgSendEnabled` set to the given value.
    pub fn with_allow_guaranteed_msg_send_enabled(self, allow_guaranteed_msg_send_enabled: bool) -> (r: MsgVpnClientProfile)
        ensures
            r@ == self@.with_allow_guaranteed_msg_send_enabled(allow_guaranteed_msg_send_enabled),
    {
        let mut r = self;
        r.allow_guaranteed_msg_send_enabled = Some(allow_guaranteed_msg_send_enabled);
        r
    }

    /// Returns `allowGuaranteedMsgSendEnabled` if it is present.
    pub fn allow_guaranteed_msg_send_enabled(&self) -> (r: Option<&bool>)
        ensures
            r.deep_view() == self@.allow_guaranteed_msg_send_enabled,
    {
        self.allow_guaranteed_msg_send_enabled.as_ref()
    }

    /// Removes `allowGuaranteedMsgSendEnabled`; every other attribute is left as it was.
    pub fn reset_allow_guaranteed_msg_send_enabled(&mut self)
        ensures
            final(self)@ == old(self)@.without_allow_guaranteed_msg_send_enabled(),
    {
        self.allow_guaranteed_msg_send_enabled = None;
    }

    /// Sets `allowTransactedSessionsEnabled` to the given value; every other attribute is left as it was.
    pub fn set_allow_transacted_sessions_enabled(&mut self, allow_transacted_sessions_enabled: bool)
        ensures
            final(self)@ == old(self)@.with_allow_transacted_sessions_enabled(allow_transacted_sessions_enabled),
    {
        self.allow_transacted_sessions_enabled = Some(allow_transacted_sessions_enabled);
    }

    /// Returns this value with `allowTransactedSessionsEnabled` set to the given value.
    pub fn with_allow_transacted_sessions_enabled(self, allow_transacted_sessions_enabled: bool) -> (r: MsgVpnClientProfile)
        ensures
            r@ == self@.with_allow_transacted_sessions_enabled(allow_transacted_sessions_enabled),
    {
        let mut r = self;
        r.allow_transacted_sessions_enabled = Some(allow_transacted_sessions_enabled);
        r
    }

    /// Returns `allowTransactedSessionsEnabled` if it is present.
    pub fn allow_transacted_sessions_enabled(&self) -> (r: Option<&bool>)
        ensures
            r.deep_view() == self@.allow_transacted_sessions_enabled,
    {
        self.allow_transacted_sessions_enabled.as_ref()
    }

    /// Removes `allowTransactedSessionsEnabled`; every other attribute is left as it was.
    pub fn reset_allow_transacted_sessions_enabled(&mut self)
        ensures
            final(self)@ == old(self)@.without_allow_transacted_sessions_enabled(),
    {
        self.allow_transacted_sessions_enabled = None;
    }

    /// Sets `apiQueueManagementCopyFromOnCreateName` to the given value; every other attribute is left as it was.
    pub fn set_api_queue_management_copy_from_on_create_name(&mut self, api_queue_management_copy_from_on_create_name: String)
        ensures
            final(self)@ == old(self)@.with_api_queue_management_copy_from_on_create_name(api_queue_management_copy_from_on_create_name@),
    {
        self.api_queue_management_copy_from_on_create_name = Some(api_queue_management_copy_from_on_create_name);
    }

    /// Returns this value with `apiQueueManagementCopyFromOnCreateName` set to the given value.
    pub fn with_api_queue_management_copy_from_on_create_name(self, api_queue_management_copy_from_on_create_name: String) -> (r: MsgVpnClientProfile)
        ensures
            r@ == self@.with_api_queue_management_copy_from_on_create_name(api_queue_management_copy_from_on_create_name@),
    {
        let mut r = self;
        r.api_queue_management_copy_from_on_create_name = Some(api_queue_management_copy_from_on_create_name);
        r
    }

    /// Returns `apiQueueManagementCopyFromOnCreateName` if it is present.
    pub fn api_queue_management_copy_from_on_create_name(&self) -> (r: Option<&String>)
        ensures
            r.deep_view() == self@.api_queue_management_copy_from_on_create_name,
    {
        self.api_queue_management_copy_from_on_create_name.as_ref()
    }

    /// Removes `apiQueueManagementCopyFromOnCreateName`; every other attribute is left as it was.
    pub fn reset_api_queue_management_copy_from_on_create_name(&mut self)
        ensures
            final(self)@ == old(self)@.without_api_queue_management_copy_from_on_create_name(),
    {
        self.api_queue_management_copy_from_on_create_name = None;
    }

    /// Sets `apiTopicEndpointManagementCopyFromOnCreateName` to the given value; every other attribute is left as it was.
    pub fn set_api_topic_endpoint_management_copy_from_on_create_name(&mut self, api_topic_endpoint_management_copy_from_on_create_name: String)
        ensures
            final(self)@ == old(self)@.with_api_topic_endpoint_management_copy_from_on_create_name(api_topic_endpoint_management_copy_from_on_create_name@),
    {
        self.api_topic_endpoint_management_copy_from_on_create_name = Some(api_topic_endpoint_management_copy_from_on_create_name);
    }

    /// Returns this value with `apiTopicEndpointManagementCopyFromOnCreateName` set to the given value.
    pub fn with_api_topic_endpoint_management_copy_from_on_create_name(self, api_topic_endpoint_management_copy_from_on_create_name: String) -> (r: MsgVpnClientProfile)
        ensures
            r@ == self@.with_api_topic_endpoint_management_copy_from_on_create_name(api_topic_endpoint_management_copy_from_on_create_name@),
    {
        let mut r = self;
        r.api_topic_endpoint_management_copy_from_on_create_name = Some(api_topic_endpoint_management_copy_from_on_create_name);
        r
    }

    /// Returns `apiTopicEndpointManagementCopyFromOnCreateName` if it is present.
    pub fn api_topic_endpoint_management_copy_from_on_create_name(&self) -> (r: Option<&String>)
        ensures
            r.deep_view() == self@.api_topic_endpoint_management_copy_from_on_create_name,
    {
        self.api_topic_endpoint_management_copy_from_on_create_name.as_ref()
    }

    /// Removes `apiTopicEndpointManagementCopyFromOnCreateName`; every other attribute is left as it was.
    pub fn reset_api_topic_endpoint_management_copy_from_on_create_name(&mut self)
        ensures
            final(self)@ == old(self)@.without_api_topic_endpoint_management_copy_from_on_create_name(),
    {
        self.api_topic_endpoint_management_copy_from_on_create_name = None;
    }

    /// Sets `clientProfileName` to the given value; every other attribute is left as it was.
    pub fn set_client_profile_name(&mut self, client_profile_name: String)
        ensures
            final(self)@ == old(self)@.with_client_profile_name(client_profile_name@),
    {
        self.client_profile_name = Some(client_profile_name);
    }

    /// Returns this value with `clientProfileName` set to the given value.
    pub fn with_client_profile_name(self, client_profile_name: String) -> (r: MsgVpnClientProfile)
        ensures
            r@ == self@.with_client_profile_name(client_profile_name@),
    {
        let mut r = self;
        r.client_profile_name = Some(client_profile_name);
        r
    }

    /// Returns `clientProfileName` if it is present.
    pub fn client_profile_name(&self) -> (r: Option<&String>)
        ensures
            r.deep_view() == self@.client_profile_name,
    {
        self.client_profile_name.as_ref()
    }

    /// Removes `clientProfileName`; every other attribute is left as it was.
    pub fn reset_client_profile_name(&mut self)
        ensures
            final(self)@ == old(self)@.without_client_profile_name(),
    {
        self.client_profile_name = None;
    }

    /// Sets `compressionEnabled` to the given value; every other attribute is left as it was.
    pub fn set_compression_enabled(&mut self, compression_enabled: bool)
        ensures
            final(self)@ == old(self)@.with_compression_enabled(compression_enabled),
    {
        self.compression_enabled = Some(compression_enabled);
    }

    /// Returns this value with `compressionEnabled` set to the given value.
    pub fn with_compression_enabled(self, compression_enabled: bool) -> (r: MsgVpnClientProfile)
        ensures
            r@ == self@.with_compression_enabled(compression_enabled),
    {
        let mut r = self;
        r.compression_enabled = Some(compression_enabled);
        r
    }

    /// Returns `compressionEnabled` if it is present.
    pub fn compression_enabled(&self) -> (r: Option<&bool>)
        ensures
            r.deep_view() == self@.compression_enabled,
    {
        self.compression_enabled.as_ref()
    }

    /// Removes `compressionEnabled`; every other attribute is left as it was.
    pub fn reset_compression_enabled(&mut self)
        ensures
            final(self)@ == old(self)@.without_compression_enabled(),
    {
        self.compression_enabled = None;
    }

    /// Sets `elidingDelay` to the given value; every other attribute is left as it was.
    pub fn set_eliding_delay(&mut self, eliding_delay: i64)
        ensures
            final(self)@ == old(self)@.with_eliding_delay(eliding_delay),
    {
        self.eliding_delay = Some(eliding_delay);
    }

    /// Returns this value with `elidingDelay` set to the given value.
    pub fn with_eliding_delay(self, eliding_delay: i64) -> (r: MsgVpnClientProfile)
        ensures
            r@ == self@.with_eliding_delay(eliding_delay),
    {
        let mut r = self;
        r.eliding_delay = Some(eliding_delay);
        r
    }

    /// Returns `elidingDelay` if it is present.
    pub fn eliding_delay(&self) -> (r: Option<&i64>)
        ensures
            r.deep_view() == self@.eliding_delay,
    {
        self.eliding_delay.as_ref()
    }

    /// Removes `elidingDelay`; every other attribute is left as it was.
    pub fn reset_eliding_delay(&mut self)
        ensures
            final(self)@ == old(self)@.without_eliding_delay(),
    {
        self.eliding_delay = None;
    }

    /// Sets `elidingEnabled` to the given value; every other attribute is left as it was.
    pub fn set_eliding_enabled(&mut self, eliding_enabled: bool)
        ensures
            final(self)@ == old(self)@.with_eliding_enabled(eliding_enabled),
    {
        self.eliding_enabled = Some(eliding_enabled);
    }

    /// Returns this value with `elidingEnabled` set to the given value.
    pub fn with_eliding_enabled(self, eliding_enabled: bool) -> (r: MsgVpnClientProfile)
        ensures
            r@ == self@.with_eliding_enabled(eliding_enabled),
    {
        let mut r = self;
        r.eliding_enabled = Some(eliding_enabled);
        r
    }

    /// Returns `elidingEnabled` if it is present.
    pub fn eliding_enabled(&self) -> (r: Option<&bool>)
        ensures
            r.deep_view() == self@.eliding_enabled,
    {
        self.eliding_enabled.as_ref()
    }

    /// Removes `elidingEnabled`; every other attribute is left as it was.
    pub fn reset_eliding_enabled(&mut self)
        ensures
            final(self)@ == old(self)@.without_eliding_enabled(),
    {
        self.eliding_enabled = None;
    }

    /// Sets `elidingMaxTopicCount` to the given value; every other attribute is left as it was.
    pub fn set_eliding_max_topic_count(&mut self, eliding_max_topic_count: i64)
        ensures
            final(self)@ == old(self)@.with_eliding_max_topic_count(eliding_max_topic_count),
    {
        self.eliding_max_topic_count = Some(eliding_max_topic_count);
    }

    /// Returns this value with `elidingMaxTopicCount` set to the given value.
    pub fn with_eliding_max_topic_count(self, eliding_max_topic_count: i64) -> (r: MsgVpnClientProfile)
        ensures
            r@ == self@.with_eliding_max_topic_count(eliding_max_topic_count),
    {
        let mut r = self;
        r.eliding_max_topic_count = Some(eliding_max_topic_count);
        r
    }

    /// Returns `elidingMaxTopicCount` if it is present.
    pub fn eliding_max_topic_count(&self) -> (r: Option<&i64>)
        ensures
            r.deep_view() == self@.eliding_max_topic_count,
    {
        self.eliding_max_topic_count.as_ref()
    }

    /// Removes `elidingMaxTopicCount`; every other attribute is left as it was.
    pub fn reset_eliding_max_topic_count(&mut self)
        ensures
            final(self)@ == old(self)@.without_eliding_max_topic_count(),
    {
        self.eliding_max_topic_count = None;
    }

    /// Sets `eventClientProvisionedEndpointSpoolUsageThreshold` to the given value; every other attribute is left as it was.
    pub fn set_event_client_provisioned_endpoint_spool_usage_threshold(&mut self, event_client_provisioned_endpoint_spool_usage_threshold: EventThresholdByPercent)
        ensures
            final(self)@ == old(self)@.with_event_client_provisioned_endpoint_spool_usage_threshold(event_client_provisioned_endpoint_spool_usage_threshold),
    {
        self.event_client_provisioned_endpoint_spool_usage_threshold = Some(event_client_provisioned_endpoint_spool_usage_threshold);
    }

    /// Returns this value with `eventClientProvisionedEndpointSpoolUsageThreshold` set to the given value.
    pub fn with_event_client_provisioned_endpoint_spool_usage_threshold(self, event_client_provisioned_endpoint_spool_usage_threshold: EventThresholdByPercent) -> (r: MsgVpnClientProfile)
        ensures
            r@ == self@.with_event_client_provisioned_endpoint_spool_usage_threshold(event_client_provisioned_endpoint_spool_usage_threshold),
    {
        let mut r = self;
        r.event_client_provisioned_endpoint_spool_usage_threshold = Some(event_client_provisioned_endpoint_spool_usage_threshold);
        r
    }

    /// Returns `eventClientProvisionedEndpointSpoolUsageThreshold` if it is present.
    pub fn event_client_provisioned_endpoint_spool_usage_threshold(&self) -> (r: Option<&EventThresholdByPercent>)
        ensures
            r.deep_view() == self@.event_client_provisioned_endpoint_spool_usage_threshold,
    {
        self.event_client_provisioned_endpoint_spool_usage_threshold.as_ref()
    }

    /// Removes `eventClientProvisionedEndpointSpoolUsageThreshold`; every other attribute is left as it was.
    pub fn reset_event_client_provisioned_endpoint_spool_usage_threshold(&mut self)
        ensures
            final(self)@ == old(self)@.without_event_client_provisioned_endpoint_spool_usage_threshold(),
    {
        self.event_client_provisioned_endpoint_spool_usage_threshold = None;
    }

    /// Sets `eventConnectionCountPerClientUsernameThreshold` to the given value; every other attribute is left as it was.
    pub fn set_event_connection_count_per_client_username_threshold(&mut self, event_connection_count_per_client_username_threshold: EventThreshold)
        ensures
            final(self)@ == old(self)@.with_event_connection_count_per_client_username_threshold(event_connection_count_per_client_username_threshold),
    {
        self.event_connection_count_per_client_username_threshold = Some(event_connection_count_per_client_username_threshold);
    }

    /// Returns this value with `eventConnectionCountPerClientUsernameThreshold` set to the given value.
    pub fn with_event_connection_count_per_client_username_threshold(self, event_connection_count_per_client_username_threshold: EventThreshold) -> (r: MsgVpnClientProfile)
        ensures
            r@ == self@.with_event_connection_count_per_client_username_threshold(event_connection_count_per_client_username_threshold),
    {
        let mut r = self;
        r.event_connection_count_per_client_username_threshold = Some(event_connection_count_per_client_username_threshold);
        r
    }

    /// Returns `eventConnectionCountPerClientUsernameThreshold` if it is present.
    pub fn event_connection_count_per_client_username_threshold(&self) -> (r: Option<&EventThreshold>)
        ensures
            r.deep_view() == self@.event_connection_count_per_client_username_threshold,
    {
        self.event_connection_count_per_client_username_threshold.as_ref()
    }

    /// Removes `eventConnectionCountPerClientUsernameThreshold`; every other attribute is left as it was.
    pub fn reset_event_connection_count_per_client_username_threshold(&mut self)
        ensures
            final(self)@ == old(self)@.without_event_connection_count_per_client_username_threshold(),
    {
        self.event_connection_count_per_client_username_threshold = None;
    }

    /// Sets `eventEgressFlowCountThreshold` to the given value; every other attribute is left as it was.
    pub fn set_event_egress_flow_count_threshold(&mut self, event_egress_flow_count_threshold: EventThreshold)
        ensures
            final(self)@ == old(self)@.with_event_egress_flow_count_threshold(event_egress_flow_count_threshold),
    {
        self.event_egress_flow_count_threshold = Some(event_egress_flow_count_threshold);
    }

    /// Returns this value with `eventEgressFlowCountThreshold` set to the given value.
    pub fn with_event_egress_flow_count_threshold(self, event_egress_flow_count_threshold: EventThreshold) -> (r: MsgVpnClientProfile)
        ensures
            r@ == self@.with_event_egress_flow_count_threshold(event_egress_flow_count_threshold),
    {
        let mut r = self;
        r.event_egress_flow_count_threshold = Some(event_egress_flow_count_threshold);
        r
    }

    /// Returns `eventEgressFlowCountThreshold` if it is present.
    pub fn event_egress_flow_count_threshold(&self) -> (r: Option<&EventThreshold>)
        ensures
            r.deep_view() == self@.event_egress_flow_count_threshold,
    {
        self.event_egress_flow_count_threshold.as_ref()
    }

    /// Removes `eventEgressFlowCountThreshold`; every other attribute is left as it was.
    pub fn reset_event_egress_flow_count_threshold(&mut self)
        ensures
            final(self)@ == old(self)@.without_event_egress_flow_count_threshold(),
    {
        self.event_egress_flow_count_threshold = None;
    }

    /// Sets `eventEndpointCountPerClientUsernameThreshold` to the given value; every other attribute is left as it was.
    pub fn set_event_endpoint_count_per_client_username_threshold(&mut self, event_endpoint_count_per_client_username_threshold: EventThreshold)
        ensures
            final(self)@ == old(self)@.with_event_endpoint_count_per_client_username_threshold(event_endpoint_count_per_client_username_threshold),
    {
        self.event_endpoint_count_per_client_username_threshold = Some(event_endpoint_count_per_client_username_threshold);
    }

    /// Returns this value with `eventEndpointCountPerClientUsernameThreshold` set to the given value.
    pub fn with_event_endpoint_count_per_client_username_threshold(self, event_endpoint_count_per_client_username_threshold: EventThreshold) -> (r: MsgVpnClientProfile)
        ensures
            r@ == self@.with_event_endpoint_count_per_client_username_threshold(event_endpoint_count_per_client_username_threshold),
    {
        let mut r = self;
        r.event_endpoint_count_per_client_username_threshold = Some(event_endpoint_count_per_client_username_threshold);
        r
    }

    /// Returns `eventEndpointCountPerClientUsernameThreshold` if it is present.
    pub fn event_endpoint_count_per_client_username_threshold(&self) -> (r: Option<&EventThreshold>)
        ensures
            r.deep_view() == self@.event_endpoint_count_per_client_username_threshold,
    {
        self.event_endpoint_count_per_client_username_threshold.as_ref()
    }

    /// Removes `eventEndpointCountPerClientUsernameThreshold`; every other attribute is left as it was.
    pub fn reset_event_endpoint_count_per_client_username_threshold(&mut self)
        ensures
            final(self)@ == old(self)@.without_event_endpoint_count_per_client_username_threshold(),
    {
        self.event_endpoint_count_per_client_username_threshold = None;
    }

    /// Sets `eventIngressFlowCountThreshold` to the given value; every other attribute is left as it was.
    pub fn set_event_ingress_flow_count_threshold(&mut self, event_ingress_flow_count_threshold: EventThreshold)
        ensures
            final(self)@ == old(self)@.with_event_ingress_flow_count_threshold(event_ingress_flow_count_threshold),
    {
        self.event_ingress_flow_count_threshold = Some(event_ingress_flow_count_threshold);
    }

    /// Returns this value with `eventIngressFlowCountThreshold` set to the given value.
    pub fn with_event_ingress_flow_count_threshold(self, event_ingress_flow_count_threshold: EventThreshold) -> (r: MsgVpnClientProfile)
        ensures
            r@ == self@.with_event_ingress_flow_count_threshold(event_ingress_flow_count_threshold),
    {
        let mut r = self;
        r.event_ingress_flow_count_threshold = Some(event_ingress_flow_count_threshold);
        r
    }

    /// Returns `eventIngressFlowCountThreshold` if it is present.
    pub fn event_ingress_flow_count_threshold(&self) -> (r: Option<&EventThreshold>)
        ensures
            r.deep_view() == self@.event_ingress_flow_count_threshold,
    {
        self.event_ingress_flow_count_threshold.as_ref()
    }

    /// Removes `eventIngressFlowCountThreshold`; every other attribute is left as it was.
    pub fn reset_event_ingress_flow_count_threshold(&mut self)
        ensures
            final(self)@ == old(self)@.without_event_ingress_flow_count_threshold(),
    {
        self.event_ingress_flow_count_threshold = None;
    }

    /// Sets `eventServiceSmfConnectionCountPerClientUsernameThreshold` to the given value; every other attribute is left as it was.
    pub fn set_event_service_smf_connection_count_per_client_username_threshold(&mut self, event_service_smf_connection_count_per_client_username_threshold: EventThreshold)
        ensures
            final(self)@ == old(self)@.with_event_service_smf_connection_count_per_client_username_threshold(event_service_smf_connection_count_per_client_username_threshold),
    {
        self.event_service_smf_connection_count_per_client_username_threshold = Some(event_service_smf_connection_count_per_client_username_threshold);
    }

    /// Returns this value with `eventServiceSmfConnectionCountPerClientUsernameThreshold` set to the given value.
    pub fn with_event_service_smf_connection_count_per_client_username_threshold(self, event_service_smf_connection_count_per_client_username_threshold: EventThreshold) -> (r: MsgVpnClientProfile)
        ensures
            r@ == self@.with_event_service_smf_connection_count_per_client_username_threshold(event_service_smf_connection_count_per_client_username_threshold),
    {
        let mut r = self;
        r.event_service_smf_connection_count_per_client_username_threshold = Some(event_service_smf_connection_count_per_client_username_threshold);
        r
    }

    /// Returns `eventServiceSmfConnectionCountPerClientUsernameThreshold` if it is present.
    pub fn event_service_smf_connection_count_per_client_username_threshold(&self) -> (r: Option<&EventThreshold>)
        ensures
            r.deep_view() == self@.event_service_smf_connection_count_per_client_username_threshold,
    {
        self.event_service_smf_connection_count_per_client_username_threshold.as_ref()
    }

    /// Removes `eventServiceSmfConnectionCountPerClientUsernameThreshold`; every other attribute is left as it was.
    pub fn reset_event_service_smf_connection_count_per_client_username_threshold(&mut self)
        ensures
            final(self)@ == old(self)@.without_event_service_smf_connection_count_per_client_username_threshold(),
    {
        self.event_service_smf_connection_count_per_client_username_threshold = None;
    }

    /// Sets `eventServiceWebConnectionCountPerClientUsernameThreshold` to the given value; every other attribute is left as it was.
    pub fn set_event_service_web_connection_count_per_client_username_threshold(&mut self, event_service_web_connection_count_per_client_username_threshold: EventThreshold)
        ensures
            final(self)@ == old(self)@.with_event_service_web_connection_count_per_client_username_threshold(event_service_web_connection_count_per_client_username_threshold),
    {
        self.event_service_web_connection_count_per_client_username_threshold = Some(event_service_web_connection_count_per_client_username_threshold);
    }

    /// Returns this value with `eventServiceWebConnectionCountPerClientUsernameThreshold` set to the given value.
    pub fn with_event_service_web_connection_count_per_client_username_threshold(self, event_service_web_connection_count_per_client_username_threshold: EventThreshold) -> (r: MsgVpnClientProfile)
        ensures
            r@ == self@.with_event_service_web_connection_count_per_client_username_threshold(event_service_web_connection_count_per_client_username_threshold),
    {
        let mut r = self;
        r.event_service_web_connection_count_per_client_username_threshold = Some(event_service_web_connection_count_per_client_username_threshold);
        r
    }

    /// Returns `eventServiceWebConnectionCountPerClientUsernameThreshold` if it is present.
    pub fn event_service_web_connection_count_per_client_username_threshold(&self) -> (r: Option<&EventThreshold>)
        ensures
            r.deep_view() == self@.event_service_web_connection_count_per_client_username_threshold,
    {
        self.event_service_web_connection_count_per_client_username_threshold.as_ref()
    }

    /// Removes `eventServiceWebConnectionCountPerClientUsernameThreshold`; every other attribute is left as it was.
    pub fn reset_event_service_web_connection_count_per_client_username_threshold(&mut self)
        ensures
            final(self)@ == old(self)@.without_event_service_web_connection_count_per_client_username_threshold(),
    {
        self.event_service_web_connection_count_per_client_username_threshold = None;
    }

    /// Sets `eventSubscriptionCountThreshold` to the given value; every other attribute is left as it was.
    pub fn set_event_subscription_count_threshold(&mut self, event_subscription_count_threshold: EventThreshold)
        ensures
            final(self)@ == old(self)@.with_event_subscription_count_threshold(event_subscription_count_threshold),
    {
        self.event_subscription_count_threshold = Some(event_subscription_count_threshold);
    }

    /// Returns this value with `eventSubscriptionCountThreshold` set to the given value.
    pub fn with_event_subscription_count_threshold(self, event_subscription_count_threshold: EventThreshold) -> (r: MsgVpnClientProfile)
        ensures
            r@ == self@.with_event_subscription_count_threshold(event_subscription_count_threshold),
    {
        let mut r = self;
        r.event_subscription_count_threshold = Some(event_subscription_count_threshold);
        r
    }

    /// Returns `eventSubscriptionCountThreshold` if it is present.
    pub fn event_subscription_count_threshold(&self) -> (r: Option<&EventThreshold>)
        ensures
            r.deep_view() == self@.event_subscription_count_threshold,
    {
        self.event_subscription_count_threshold.as_ref()
    }

    /// Removes `eventSubscriptionCountThreshold`; every other attribute is left as it was.
    pub fn reset_event_subscription_count_threshold(&mut self)
        ensures
            final(self)@ == old(self)@.without_event_subscription_count_threshold(),
    {
        self.event_subscription_count_threshold = None;
    }

    /// Sets `eventTransactedSessionCountThreshold` to the given value; every other attribute is left as it was.
    pub fn set_event_transacted_session_count_threshold(&mut self, event_transacted_session_count_threshold: EventThreshold)
        ensures
            final(self)@ == old(self)@.with_event_transacted_session_count_threshold(event_transacted_session_count_threshold),
    {
        self.event_transacted_session_count_threshold = Some(event_transacted_session_count_threshold);
    }

    /// Returns this value with `eventTransactedSessionCountThreshold` set to the given value.
    pub fn with_event_transacted_session_count_threshold(self, event_transacted_session_count_threshold: EventThreshold) -> (r: MsgVpnClientProfile)
        ensures
            r@ == self@.with_event_transacted_session_count_threshold(event_transacted_session_count_threshold),
    {
        let mut r = self;
        r.event_transacted_session_count_threshold = Some(event_transacted_session_count_threshold);
        r
    }

    /// Returns `eventTransactedSessionCountThreshold` if it is present.
    pub fn event_transacted_session_count_threshold(&self) -> (r: Option<&EventThreshold>)
        ensures
            r.deep_view() == self@.event_transacted_session_count_threshold,
    {
        self.event_transacted_session_count_threshold.as_ref()
    }

    /// Removes `eventTransactedSessionCountThreshold`; every other attribute is left as it was.
    pub fn reset_event_transacted_session_count_threshold(&mut self)
        ensures
            final(self)@ == old(self)@.without_event_transacted_session_count_threshold(),
    {
        self.event_transacted_session_count_threshold = None;
    }

    /// Sets `eventTransactionCountThreshold` to the given value; every other attribute is left as it was.
    pub fn set_event_transaction_count_threshold(&mut self, event_transaction_count_threshold: EventThreshold)
        ensures
            final(self)@ == old(self)@.with_event_transaction_count_threshold(event_transaction_count_threshold),
    {
        self.event_transaction_count_threshold = Some(event_transaction_count_threshold);
    }

    /// Returns this value with `eventTransactionCountThreshold` set to the given value.
    pub fn with_event_transaction_count_threshold(self, event_transaction_count_threshold: EventThreshold) -> (r: MsgVpnClientProfile)
        ensures
            r@ == self@.with_event_transaction_count_threshold(event_transaction_count_threshold),
    {
        let mut r = self;
        r.event_transaction_count_threshold = Some(event_transaction_count_threshold);
        r
    }

    /// Returns `eventTransactionCountThreshold` if it is present.
    pub fn event_transaction_count_threshold(&self) -> (r: Option<&EventThreshold>)
        ensures
            r.deep_view() == self@.event_transaction_count_threshold,
    {
        self.event_transaction_count_threshold.as_ref()
    }

    /// Removes `eventTransactionCountThreshold`; every other attribute is left as it was.
    pub fn reset_event_transaction_count_threshold(&mut self)
        ensures
            final(self)@ == old(self)@.without_event_transaction_count_threshold(),
    {
        self.event_transaction_count_threshold = None;
    }

    /// Sets `maxConnectionCountPerClientUsername` to the given value; every other attribute is left as it was.
    pub fn set_max_connection_count_per_client_username(&mut self, max_connection_count_per_client_username: i64)
        ensures
            final(self)@ == old(self)@.with_max_connection_count_per_client_username(max_connection_count_per_client_username),
    {
        self.max_connection_count_per_client_username = Some(max_connection_count_per_client_username);
    }

    /// Returns this value with `maxConnectionCountPerClientUsername` set to the given value.
    pub fn with_max_connection_count_per_client_username(self, max_connection_count_per_client_username: i64) -> (r: MsgVpnClientProfile)
        ensures
            r@ == self@.with_max_connection_count_per_client_username(max_connection_count_per_client_username),
    {
        let mut r = self;
        r.max_connection_count_per_client_username = Some(max_connection_count_per_client_username);
        r
    }

    /// Returns `maxConnectionCountPerClientUsername` if it is present.
    pub fn max_connection_count_per_client_username(&self) -> (r: Option<&i64>)
        ensures
            r.deep_view() == self@.max_connection_count_per_client_username,
    {
        self.max_connection_count_per_client_username.as_ref()
    }

    /// Removes `maxConnectionCountPerClientUsername`; every other attribute is left as it was.
    pub fn reset_max_connection_count_per_client_username(&mut self)
        ensures
            final(self)@ == old(self)@.without_max_connection_count_per_client_username(),
    {
        self.max_connection_count_per_client_username = None;
    }

    /// Sets `maxEgressFlowCount` to the given value; every other attribute is left as it was.
    pub fn set_max_egress_flow_count(&mut self, max_egress_flow_count: i64)
        ensures
            final(self)@ == old(self)@.with_max_egress_flow_count(max_egress_flow_count),
    {
        self.max_egress_flow_count = Some(max_egress_flow_count);
    }

    /// Returns this value with `maxEgressFlowCount` set to the given value.
    pub fn with_max_egress_flow_count(self, max_egress_flow_count: i64) -> (r: MsgVpnClientProfile)
        ensures
            r@ == self@.with_max_egress_flow_count(max_egress_flow_count),
    {
        let mut r = self;
        r.max_egress_flow_count = Some(max_egress_flow_count);
        r
    }

    /// Returns `maxEgressFlowCount` if it is present.
    pub fn max_egress_flow_count(&self) -> (r: Option<&i64>)
        ensures
            r.deep_view() == self@.max_egress_flow_count,
    {
        self.max_egress_flow_count.as_ref()
    }

    /// Removes `maxEgressFlowCount`; every other attribute is left as it was.
    pub fn reset_max_egress_flow_count(&mut self)
        ensures
            final(self)@ == old(self)@.without_max_egress_flow_count(),
    {
        self.max_egress_flow_count = None;
    }

    /// Sets `maxEndpointCountPerClientUsername` to the given value; every other attribute is left as it was.
    pub fn set_max_endpoint_count_per_client_username(&mut self, max_endpoint_count_per_client_username: i64)
        ensures
            final(self)@ == old(self)@.with_max_endpoint_count_per_client_username(max_endpoint_count_per_client_username),
    {
        self.max_endpoint_count_per_client_username = Some(max_endpoint_count_per_client_username);
    }

    /// Returns this value with `maxEndpointCountPerClientUsername` set to the given value.
    pub fn with_max_endpoint_count_per_client_username(self, max_endpoint_count_per_client_username: i64) -> (r: MsgVpnClientProfile)
        ensures
            r@ == self@.with_max_endpoint_count_per_client_username(max_endpoint_count_per_client_username),
    {
        let mut r = self;
        r.max_endpoint_count_per_client_username = Some(max_endpoint_count_per_client_username);
        r
    }

    /// Returns `maxEndpointCountPerClientUsername` if it is present.
    pub fn max_endpoint_count_per_client_username(&self) -> (r: Option<&i64>)
        ensures
            r.deep_view() == self@.max_endpoint_count_per_client_username,
    {
        self.max_endpoint_count_per_client_username.as_ref()
    }

    /// Removes `maxEndpointCountPerClientUsername`; every other attribute is left as it was.
    pub fn reset_max_endpoint_count_per_client_username(&mut self)
        ensures
            final(self)@ == old(self)@.without_max_endpoint_count_per_client_username(),
    {
        self.max_endpoint_count_per_client_username = None;
    }

    /// Sets `maxIngressFlowCount` to the given value; every other attribute is left as it was.
    pub fn set_max_ingress_flow_count(&mut self, max_ingress_flow_count: i64)
        ensures
            final(self)@ == old(self)@.with_max_ingress_flow_count(max_ingress_flow_count),
    {
        self.max_ingress_flow_count = Some(max_ingress_flow_count);
    }

    /// Returns this value with `maxIngressFlowCount` set to the given value.
    pub fn with_max_ingress_flow_count(self, max_ingress_flow_count: i64) -> (r: MsgVpnClientProfile)
        ensures
            r@ == self@.with_max_ingress_flow_count(max_ingress_flow_count),
    {
        let mut r = self;
        r.max_ingress_flow_count = Some(max_ingress_flow_count);
        r
    }

    /// Returns `maxIngressFlowCount` if it is present.
    pub fn max_ingress_flow_count(&self) -> (r: Option<&i64>)
        ensures
            r.deep_view() == self@.max_ingress_flow_count,
    {
        self.max_ingress_flow_count.as_ref()
    }

    /// Removes `maxIngressFlowCount`; every other attribute is left as it was.
    pub fn reset_max_ingress_flow_count(&mut self)
        ensures
            final(self)@ == old(self)@.without_max_ingress_flow_count(),
    {
        self.max_ingress_flow_count = None;
    }

    /// Sets `maxSubscriptionCount` to the given value; every other attribute is left as it was.
    pub fn set_max_subscription_count(&mut self, max_subscription_count: i64)
        ensures
            final(self)@ == old(self)@.with_max_subscription_count(max_subscription_count),
    {
        self.max_subscription_count = Some(max_subscription_count);
    }

    /// Returns this value with `maxSubscriptionCount` set to the given value.
    pub fn with_max_subscription_count(self, max_subscription_count: i64) -> (r: MsgVpnClientProfile)
        ensures
            r@ == self@.with_max_subscription_count(max_subscription_count),
    {
        let mut r = self;
        r.max_subscription_count = Some(max_subscription_count);
        r
    }

    /// Returns `maxSubscriptionCount` if it is present.
    pub fn max_subscription_count(&self) -> (r: Option<&i64>)
        ensures
            r.deep_view() == self@.max_subscription_count,
    {
        self.max_subscription_count.as_ref()
    }

    /// Removes `maxSubscriptionCount`; every other attribute is left as it was.
    pub fn reset_max_subscription_count(&mut self)
        ensures
            final(self)@ == old(self)@.without_max_subscription_count(),
    {
        self.max_subscription_count = None;
    }

    /// Sets `maxTransactedSessionCount` to the given value; every other attribute is left as it was.
    pub fn set_max_transacted_session_count(&mut self, max_transacted_session_count: i64)
        ensures
            final(self)@ == old(self)@.with_max_transacted_session_count(max_transacted_session_count),
    {
        self.max_transacted_session_count = Some(max_transacted_session_count);
    }

    /// Returns this value with `maxTransactedSessionCount` set to the given value.
    pub fn with_max_transacted_session_count(self, max_transacted_session_count: i64) -> (r: MsgVpnClientProfile)
        ensures
            r@ == self@.with_max_transacted_session_count(max_transacted_session_count),
    {
        let mut r = self;
        r.max_transacted_session_count = Some(max_transacted_session_count);
        r
    }

    /// Returns `maxTransactedSessionCount` if it is present.
    pub fn max_transacted_session_count(&self) -> (r: Option<&i64>)
        ensures
            r.deep_view() == self@.max_transacted_session_count,
    {
        self.max_transacted_session_count.as_ref()
    }

    /// Removes `maxTransactedSessionCount`; every other attribute is left as it was.
    pub fn reset_max_transacted_session_count(&mut self)
        ensures
            final(self)@ == old(self)@.without_max_transacted_session_count(),
    {
        self.max_transacted_session_count = None;
    }

    /// Sets `maxTransactionCount` to the given value; every other attribute is left as it was.
    pub fn set_max_transaction_count(&mut self, max_transaction_count: i64)
        ensures
            final(self)@ == old(self)@.with_max_transaction_count(max_transaction_count),
    {
        self.max_transaction_count = Some(max_transaction_count);
    }

    /// Returns this value with `maxTransactionCount` set to the given value.
    pub fn with_max_transaction_count(self, max_transaction_count: i64) -> (r: MsgVpnClientProfile)
        ensures
            r@ == self@.with_max_transaction_count(max_transaction_count),
    {
        let mut r = self;
        r.max_transaction_count = Some(max_transaction_count);
        r
    }

    /// Returns `maxTransactionCount` if it is present.
    pub fn max_transaction_count(&self) -> (r: Option<&i64>)
        ensures
            r.deep_view() == self@.max_transaction_count,
    {
        self.max_transaction_count.as_ref()
    }

    /// Removes `maxTransactionCount`; every other attribute is left as it was.
    pub fn reset_max_transaction_count(&mut self)
        ensures
            final(self)@ == old(self)@.without_max_transaction_count(),
    {
        self.max_transaction_count = None;
    }

    /// Sets `msgVpnName` to the given value; every other attribute is left as it was.
    pub fn set_msg_vpn_name(&mut self, msg_vpn_name: String)
        ensures
            final(self)@ == old(self)@.with_msg_vpn_name(msg_vpn_name@),
    {
        self.msg_vpn_name = Some(msg_vpn_name);
    }

    /// Returns this value with `msgVpnName` set to the given value.
    pub fn with_msg_vpn_name(self, msg_vpn_name: String) -> (r: MsgVpnClientProfile)
        ensures
            r@ == self@.with_msg_vpn_name(msg_vpn_name@),
    {
        let mut r = self;
        r.msg_vpn_name = Some(msg_vpn_name);
        r
    }

    /// Returns `msgVpnName` if it is present.
    pub fn msg_vpn_name(&self) -> (r: Option<&String>)
        ensures
            r.deep_view() == self@.msg_vpn_name,
    {
        self.msg_vpn_name.as_ref()
    }

    /// Removes `msgVpnName`; every other attribute is left as it was.
    pub fn reset_msg_vpn_name(&mut self)
        ensures
            final(self)@ == old(self)@.without_msg_vpn_name(),
    {
        self.msg_vpn_name = None;
    }

    /// Sets `queueControl1MaxDepth` to the given value; every other attribute is left as it was.
    pub fn set_queue_control1_max_depth(&mut self, queue_control1_max_depth: i32)
        ensures
            final(self)@ == old(self)@.with_queue_control1_max_depth(queue_control1_max_depth),
    {
        self.queue_control1_max_depth = Some(queue_control1_max_depth);
    }

    /// Returns this value with `queueControl1MaxDepth` set to the given value.
    pub fn with_queue_control1_max_depth(self, queue_control1_max_depth: i32) -> (r: MsgVpnClientProfile)
        ensures
            r@ == self@.with_queue_control1_max_depth(queue_control1_max_depth),
    {
        let mut r = self;
        r.queue_control1_max_depth = Some(queue_control1_max_depth);
        r
    }

    /// Returns `queueControl1MaxDepth` if it is present.
    pub fn queue_control1_max_depth(&self) -> (r: Option<&i32>)
        ensures
            r.deep_view() == self@.queue_control1_max_depth,
    {
        self.queue_control1_max_depth.as_ref()
    }

    /// Removes `queueControl1MaxDepth`; every other attribute is left as it was.
    pub fn reset_queue_control1_max_depth(&mut self)
        ensures
            final(self)@ == old(self)@.without_queue_control1_max_depth(),
    {
        self.queue_control1_max_depth = None;
    }

    /// Sets `queueControl1MinMsgBurst` to the given value; every other attribute is left as it was.
    pub fn set_queue_control1_min_msg_burst(&mut self, queue_control1_min_msg_burst: i32)
        ensures
            final(self)@ == old(self)@.with_queue_control1_min_msg_burst(queue_control1_min_msg_burst),
    {
        self.queue_control1_min_msg_burst = Some(queue_control1_min_msg_burst);
    }

    /// Returns this value with `queueControl1MinMsgBurst` set to the given value.
    pub fn with_queue_control1_min_msg_burst(self, queue_control1_min_msg_burst: i32) -> (r: MsgVpnClientProfile)
        ensures
            r@ == self@.with_queue_control1_min_msg_burst(queue_control1_min_msg_burst),
    {
        let mut r = self;
        r.queue_control1_min_msg_burst = Some(queue_control1_min_msg_burst);
        r
    }

    /// Returns `queueControl1MinMsgBurst` if it is present.
    pub fn queue_control1_min_msg_burst(&self) -> (r: Option<&i32>)
        ensures
            r.deep_view() == self@.queue_control1_min_msg_burst,
    {
        self.queue_control1_min_msg_burst.as_ref()
    }

    /// Removes `queueControl1MinMsgBurst`; every other attribute is left as it was.
    pub fn reset_queue_control1_min_msg_burst(&mut self)
        ensures
            final(self)@ == old(self)@.without_queue_control1_min_msg_burst(),
    {
        self.queue_control1_min_msg_burst = None;
    }

    /// Sets `queueDirect1MaxDepth` to the given value; every other attribute is left as it was.
    pub fn set_queue_direct1_max_depth(&mut self, queue_direct1_max_depth: i32)
        ensures
            final(self)@ == old(self)@.with_queue_direct1_max_depth(queue_direct1_max_depth),
    {
        self.queue_direct1_max_depth = Some(queue_direct1_max_depth);
    }

    /// Returns this value with `queueDirect1MaxDepth` set to the given value.
    pub fn with_queue_direct1_max_depth(self, queue_direct1_max_depth: i32) -> (r: MsgVpnClientProfile)
        ensures
            r@ == self@.with_queue_direct1_max_depth(queue_direct1_max_depth),
    {
        let mut r = self;
        r.queue_direct1_max_depth = Some(queue_direct1_max_depth);
        r
    }

    /// Returns `queueDirect1MaxDepth` if it is present.
    pub fn queue_direct1_max_depth(&self) -> (r: Option<&i32>)
        ensures
            r.deep_view() == self@.queue_direct1_max_depth,
    {
        self.queue_direct1_max_depth.as_ref()
    }

    /// Removes `queueDirect1MaxDepth`; every other attribute is left as it was.
    pub fn reset_queue_direct1_max_depth(&mut self)
        ensures
            final(self)@ == old(self)@.without_queue_direct1_max_depth(),
    {
        self.queue_direct1_max_depth = None;
    }

    /// Sets `queueDirect1MinMsgBurst` to the given value; every other attribute is left as it was.
    pub fn set_queue_direct1_min_msg_burst(&mut self, queue_direct1_min_msg_burst: i32)
        ensures
            final(self)@ == old(self)@.with_queue_direct1_min_msg_burst(queue_direct1_min_msg_burst),
    {
        self.queue_direct1_min_msg_burst = Some(queue_direct1_min_msg_burst);
    }

    /// Returns this value with `queueDirect1MinMsgBurst` set to the given value.
    pub fn with_queue_direct1_min_msg_burst(self, queue_direct1_min_msg_burst: i32) -> (r: MsgVpnClientProfile)
        ensures
            r@ == self@.with_queue_direct1_min_msg_burst(queue_direct1_min_msg_burst),
    {
        let mut r = self;
        r.queue_direct1_min_msg_burst = Some(queue_direct1_min_msg_burst);
        r
    }

    /// Returns `queueDirect1MinMsgBurst` if it is present.
    pub fn queue_direct1_min_msg_burst(&self) -> (r: Option<&i32>)
        ensures
            r.deep_view() == self@.queue_direct1_min_msg_burst,
    {
        self.queue_direct1_min_msg_burst.as_ref()
    }

    /// Removes `queueDirect1MinMsgBurst`; every other attribute is left as it was.
    pub fn reset_queue_direct1_min_msg_burst(&mut self)
        ensures
            final(self)@ == old(self)@.without_queue_direct1_min_msg_burst(),
    {
        self.queue_direct1_min_msg_burst = None;
    }

    /// Sets `queueDirect2MaxDepth` to the given value; every other attribute is left as it was.
    pub fn set_queue_direct2_max_depth(&mut self, queue_direct2_max_depth: i32)
        ensures
            final(self)@ == old(self)@.with_queue_direct2_max_depth(queue_direct2_max_depth),
    {
        self.queue_direct2_max_depth = Some(queue_direct2_max_depth);
    }

    /// Returns this value with `queueDirect2MaxDepth` set to the given value.
    pub fn with_queue_direct2_max_depth(self, queue_direct2_max_depth: i32) -> (r: MsgVpnClientProfile)
        ensures
            r@ == self@.with_queue_direct2_max_depth(queue_direct2_max_depth),
    {
        let mut r = self;
        r.queue_direct2_max_depth = Some(queue_direct2_max_depth);
        r
    }

    /// Returns `queueDirect2MaxDepth` if it is present.
    pub fn queue_direct2_max_depth(&self) -> (r: Option<&i32>)
        ensures
            r.deep_view() == self@.queue_direct2_max_depth,
    {
        self.queue_direct2_max_depth.as_ref()
    }

    /// Removes `queueDirect2MaxDepth`; every other attribute is left as it was.
    pub fn reset_queue_direct2_max_depth(&mut self)
        ensures
            final(self)@ == old(self)@.without_queue_direct2_max_depth(),
    {
        self.queue_direct2_max_depth = None;
    }

    /// Sets `queueDirect2MinMsgBurst` to the given value; every other attribute is left as it was.
    pub fn set_queue_direct2_min_msg_burst(&mut self, queue_direct2_min_msg_burst: i32)
        ensures
            final(self)@ == old(self)@.with_queue_direct2_min_msg_burst(queue_direct2_min_msg_burst),
    {
        self.queue_direct2_min_msg_burst = Some(queue_direct2_min_msg_burst);
    }

    /// Returns this value with `queueDirect2MinMsgBurst` set to the given value.
    pub fn with_queue_direct2_min_msg_burst(self, queue_direct2_min_msg_burst: i32) -> (r: MsgVpnClientProfile)
        ensures
            r@ == self@.with_queue_direct2_min_msg_burst(queue_direct2_min_msg_burst),
    {
        let mut r = self;
        r.queue_direct2_min_msg_burst = Some(queue_direct2_min_msg_burst);
        r
    }

    /// Returns `queueDirect2MinMsgBurst` if it is present.
    pub fn queue_direct2_min_msg_burst(&self) -> (r: Option<&i32>)
        ensures
            r.deep_view() == self@.queue_direct2_min_msg_burst,
    {
        self.queue_direct2_min_msg_burst.as_ref()
    }

    /// Removes `queueDirect2MinMsgBurst`; every other attribute is left as it was.
    pub fn reset_queue_direct2_min_msg_burst(&mut self)
        ensures
            final(self)@ == old(self)@.without_queue_direct2_min_msg_burst(),
    {
        self.queue_direct2_min_msg_burst = None;
    }

    /// Sets `queueDirect3MaxDepth` to the given value; every other attribute is left as it was.
    pub fn set_queue_direct3_max_depth(&mut self, queue_direct3_max_depth: i32)
        ensures
            final(self)@ == old(self)@.with_queue_direct3_max_depth(queue_direct3_max_depth),
    {
        self.queue_direct3_max_depth = Some(queue_direct3_max_depth);
    }

    /// Returns this value with `queueDirect3MaxDepth` set to the given value.
    pub fn with_queue_direct3_max_depth(self, queue_direct3_max_depth: i32) -> (r: MsgVpnClientProfile)
        ensures
            r@ == self@.with_queue_direct3_max_depth(queue_direct3_max_depth),
    {
        let mut r = self;
        r.queue_direct3_max_depth = Some(queue_direct3_max_depth);
        r
    }

    /// Returns `queueDirect3MaxDepth` if it is present.
    pub fn queue_direct3_max_depth(&self) -> (r: Option<&i32>)
        ensures
            r.deep_view() == self@.queue_direct3_max_depth,
    {
        self.queue_direct3_max_depth.as_ref()
    }

    /// Removes `queueDirect3MaxDepth`; every other attribute is left as it was.
    pub fn reset_queue_direct3_max_depth(&mut self)
        ensures
            final(self)@ == old(self)@.without_queue_direct3_max_depth(),
    {
        self.queue_direct3_max_depth = None;
    }

    /// Sets `queueDirect3MinMsgBurst` to the given value; every other attribute is left as it was.
    pub fn set_queue_direct3_min_msg_burst(&mut self, queue_direct3_min_msg_burst: i32)
        ensures
            final(self)@ == old(self)@.with_queue_direct3_min_msg_burst(queue_direct3_min_msg_burst),
    {
        self.queue_direct3_min_msg_burst = Some(queue_direct3_min_msg_burst);
    }

    /// Returns this value with `queueDirect3MinMsgBurst` set to the given value.
    pub fn with_queue_direct3_min_msg_burst(self, queue_direct3_min_msg_burst: i32) -> (r: MsgVpnClientProfile)
        ensures
            r@ == self@.with_queue_direct3_min_msg_burst(queue_direct3_min_msg_burst),
    {
        let mut r = self;
        r.queue_direct3_min_msg_burst = Some(queue_direct3_min_msg_burst);
        r
    }

    /// Returns `queueDirect3MinMsgBurst` if it is present.
    pub fn queue_direct3_min_msg_burst(&self) -> (r: Option<&i32>)
        ensures
            r.deep_view() == self@.queue_direct3_min_msg_burst,
    {
        self.queue_direct3_min_msg_burst.as_ref()
    }

    /// Removes `queueDirect3MinMsgBurst`; every other attribute is left as it was.
    pub fn reset_queue_direct3_min_msg_burst(&mut self)
        ensures
            final(self)@ == old(self)@.without_queue_direct3_min_msg_burst(),
    {
        self.queue_direct3_min_msg_burst = None;
    }

    /// Sets `queueGuaranteed1MaxDepth` to the given value; every other attribute is left as it was.
    pub fn set_queue_guaranteed1_max_depth(&mut self, queue_guaranteed1_max_depth: i32)
        ensures
            final(self)@ == old(self)@.with_queue_guaranteed1_max_depth(queue_guaranteed1_max_depth),
    {
        self.queue_guaranteed1_max_depth = Some(queue_guaranteed1_max_depth);
    }

    /// Returns this value with `queueGuaranteed1MaxDepth` set to the given value.
    pub fn with_queue_guaranteed1_max_depth(self, queue_guaranteed1_max_depth: i32) -> (r: MsgVpnClientProfile)
        ensures
            r@ == self@.with_queue_guaranteed1_max_depth(queue_guaranteed1_max_depth),
    {
        let mut r = self;
        r.queue_guaranteed1_max_depth = Some(queue_guaranteed1_max_depth);
        r
    }

    /// Returns `queueGuaranteed1MaxDepth` if it is present.
    pub fn queue_guaranteed1_max_depth(&self) -> (r: Option<&i32>)
        ensures
            r.deep_view() == self@.queue_guaranteed1_max_depth,
    {
        self.queue_guaranteed1_max_depth.as_ref()
    }

    /// Removes `queueGuaranteed1MaxDepth`; every other attribute is left as it was.
    pub fn reset_queue_guaranteed1_max_depth(&mut self)
        ensures
            final(self)@ == old(self)@.without_queue_guaranteed1_max_depth(),
    {
        self.queue_guaranteed1_max_depth = None;
    }

    /// Sets `queueGuaranteed1MinMsgBurst` to the given value; every other attribute is left as it was.
    pub fn set_queue_guaranteed1_min_msg_burst(&mut self, queue_guaranteed1_min_msg_burst: i32)
        ensures
            final(self)@ == old(self)@.with_queue_guaranteed1_min_msg_burst(queue_guaranteed1_min_msg_burst),
    {
        self.queue_guaranteed1_min_msg_burst = Some(queue_guaranteed1_min_msg_burst);
    }

    /// Returns this value with `queueGuaranteed1MinMsgBurst` set to the given value.
    pub fn with_queue_guaranteed1_min_msg_burst(self, queue_guaranteed1_min_msg_burst: i32) -> (r: MsgVpnClientProfile)
        ensures
            r@ == self@.with_queue_guaranteed1_min_msg_burst(queue_guaranteed1_min_msg_burst),
    {
        let mut r = self;
        r.queue_guaranteed1_min_msg_burst = Some(queue_guaranteed1_min_msg_burst);
        r
    }

    /// Returns `queueGuaranteed1MinMsgBurst` if it is present.
    pub fn queue_guaranteed1_min_msg_burst(&self) -> (r: Option<&i32>)
        ensures
            r.deep_view() == self@.queue_guaranteed1_min_msg_burst,
    {
        self.queue_guaranteed1_min_msg_burst.as_ref()
    }

    /// Removes `queueGuaranteed1MinMsgBurst`; every other attribute is left as it was.
    pub fn reset_queue_guaranteed1_min_msg_burst(&mut self)
        ensures
            final(self)@ == old(self)@.without_queue_guaranteed1_min_msg_burst(),
    {
        self.queue_guaranteed1_min_msg_burst = None;
    }

    /// Sets `rejectMsgToSenderOnNoSubscriptionMatchEnabled` to the given value; every other attribute is left as it was.
    pub fn set_reject_msg_to_sender_on_no_subscription_match_enabled(&mut self, reject_msg_to_sender_on_no_subscription_match_enabled: bool)
        ensures
            final(self)@ == old(self)@.with_reject_msg_to_sender_on_no_subscription_match_enabled(reject_msg_to_sender_on_no_subscription_match_enabled),
    {
        self.reject_msg_to_sender_on_no_subscription_match_enabled = Some(reject_msg_to_sender_on_no_subscription_match_enabled);
    }

    /// Returns this value with `rejectMsgToSenderOnNoSubscriptionMatchEnabled` set to the given value.
    pub fn with_reject_msg_to_sender_on_no_subscription_match_enabled(self, reject_msg_to_sender_on_no_subscription_match_enabled: bool) -> (r: MsgVpnClientProfile)
        ensures
            r@ == self@.with_reject_msg_to_sender_on_no_subscription_match_enabled(reject_msg_to_sender_on_no_subscription_match_enabled),
    {
        let mut r = self;
        r.reject_msg_to_sender_on_no_subscription_match_enabled = Some(reject_msg_to_sender_on_no_subscription_match_enabled);
        r
    }

    /// Returns `rejectMsgToSenderOnNoSubscriptionMatchEnabled` if it is present.
    pub fn reject_msg_to_sender_on_no_subscription_match_enabled(&self) -> (r: Option<&bool>)
        ensures
            r.deep_view() == self@.reject_msg_to_sender_on_no_subscription_match_enabled,
    {
        self.reject_msg_to_sender_on_no_subscription_match_enabled.as_ref()
    }

    /// Removes `rejectMsgToSenderOnNoSubscriptionMatchEnabled`; every other attribute is left as it was.
    pub fn reset_reject_msg_to_sender_on_no_subscription_match_enabled(&mut self)
        ensures
            final(self)@ == old(self)@.without_reject_msg_to_sender_on_no_subscription_match_enabled(),
    {
        self.reject_msg_to_sender_on_no_subscription_match_enabled = None;
    }

    /// Sets `replicationAllowClientConnectWhenStandbyEnabled` to the given value; every other attribute is left as it was.
    pub fn set_replication_allow_client_connect_when_standby_enabled(&mut self, replication_allow_client_connect_when_standby_enabled: bool)
        ensures
            final(self)@ == old(self)@.with_replication_allow_client_connect_when_standby_enabled(replication_allow_client_connect_when_standby_enabled),
    {
        self.replication_allow_client_connect_when_standby_enabled = Some(replication_allow_client_connect_when_standby_enabled);
    }

    /// Returns this value with `replicationAllowClientConnectWhenStandbyEnabled` set to the given value.
    pub fn with_replication_allow_client_connect_when_standby_enabled(self, replication_allow_client_connect_when_standby_enabled: bool) -> (r: MsgVpnClientProfile)
        ensures
            r@ == self@.with_replication_allow_client_connect_when_standby_enabled(replication_allow_client_connect_when_standby_enabled),
    {
        let mut r = self;
        r.replication_allow_client_connect_when_standby_enabled = Some(replication_allow_client_connect_when_standby_enabled);
        r
    }

    /// Returns `replicationAllowClientConnectWhenStandbyEnabled` if it is present.
    pub fn replication_allow_client_connect_when_standby_enabled(&self) -> (r: Option<&bool>)
        ensures
            r.deep_view() == self@.replication_allow_client_connect_when_standby_enabled,
    {
        self.replication_allow_client_connect_when_standby_enabled.as_ref()
    }

    /// Removes `replicationAllowClientConnectWhenStandbyEnabled`; every other attribute is left as it was.
    pub fn reset_replication_allow_client_connect_when_standby_enabled(&mut self)
        ensures
            final(self)@ == old(self)@.without_replication_allow_client_connect_when_standby_enabled(),
    {
        self.replication_allow_client_connect_when_standby_enabled = None;
    }

    /// Sets `serviceSmfMaxConnectionCountPerClientUsername` to the given value; every other attribute is left as it was.
    pub fn set_service_smf_max_connection_count_per_client_username(&mut self, service_smf_max_connection_count_per_client_username: i64)
        ensures
            final(self)@ == old(self)@.with_service_smf_max_connection_count_per_client_username(service_smf_max_connection_count_per_client_username),
    {
        self.service_smf_max_connection_count_per_client_username = Some(service_smf_max_connection_count_per_client_username);
    }

    /// Returns this value with `serviceSmfMaxConnectionCountPerClientUsername` set to the given value.
    pub fn with_service_smf_max_connection_count_per_client_username(self, service_smf_max_connection_count_per_client_username: i64) -> (r: MsgVpnClientProfile)
        ensures
            r@ == self@.with_service_smf_max_connection_count_per_client_username(service_smf_max_connection_count_per_client_username),
    {
        let mut r = self;
        r.service_smf_max_connection_count_per_client_username = Some(service_smf_max_connection_count_per_client_username);
        r
    }

    /// Returns `serviceSmfMaxConnectionCountPerClientUsername` if it is present.
    pub fn service_smf_max_connection_count_per_client_username(&self) -> (r: Option<&i64>)
        ensures
            r.deep_view() == self@.service_smf_max_connection_count_per_client_username,
    {
        self.service_smf_max_connection_count_per_client_username.as_ref()
    }

    /// Removes `serviceSmfMaxConnectionCountPerClientUsername`; every other attribute is left as it was.
    pub fn reset_service_smf_max_connection_count_per_client_username(&mut self)
        ensures
            final(self)@ == old(self)@.without_service_smf_max_connection_count_per_client_username(),
    {
        self.service_smf_max_connection_count_per_client_username = None;
    }

    /// Sets `serviceWebInactiveTimeout` to the given value; every other attribute is left as it was.
    pub fn set_service_web_inactive_timeout(&mut self, service_web_inactive_timeout: i64)
        ensures
            final(self)@ == old(self)@.with_service_web_inactive_timeout(service_web_inactive_timeout),
    {
        self.service_web_inactive_timeout = Some(service_web_inactive_timeout);
    }

    /// Returns this value with `serviceWebInactiveTimeout` set to the given value.
    pub fn with_service_web_inactive_timeout(self, service_web_inactive_timeout: i64) -> (r: MsgVpnClientProfile)
        ensures
            r@ == self@.with_service_web_inactive_timeout(service_web_inactive_timeout),
    {
        let mut r = self;
        r.service_web_inactive_timeout = Some(service_web_inactive_timeout);
        r
    }

    /// Returns `serviceWebInactiveTimeout` if it is present.
    pub fn service_web_inactive_timeout(&self) -> (r: Option<&i64>)
        ensures
            r.deep_view() == self@.service_web_inactive_timeout,
    {
        self.service_web_inactive_timeout.as_ref()
    }

    /// Removes `serviceWebInactiveTimeout`; every other attribute is left as it was.
    pub fn reset_service_web_inactive_timeout(&mut self)
        ensures
            final(self)@ == old(self)@.without_service_web_inactive_timeout(),
    {
        self.service_web_inactive_timeout = None;
    }

    /// Sets `serviceWebMaxConnectionCountPerClientUsername` to the given value; every other attribute is left as it was.
    pub fn set_service_web_max_connection_count_per_client_username(&mut self, service_web_max_connection_count_per_client_username: i64)
        ensures
            final(self)@ == old(self)@.with_service_web_max_connection_count_per_client_username(service_web_max_connection_count_per_client_username),
    {
        self.service_web_max_connection_count_per_client_username = Some(service_web_max_connection_count_per_client_username);
    }

    /// Returns this value with `serviceWebMaxConnectionCountPerClientUsername` set to the given value.
    pub fn with_service_web_max_connection_count_per_client_username(self, service_web_max_connection_count_per_client_username: i64) -> (r: MsgVpnClientProfile)
        ensures
            r@ == self@.with_service_web_max_connection_count_per_client_username(service_web_max_connection_count_per_client_username),
    {
        let mut r = self;
        r.service_web_max_connection_count_per_client_username = Some(service_web_max_connection_count_per_client_username);
        r
    }

    /// Returns `serviceWebMaxConnectionCountPerClientUsername` if it is present.
    pub fn service_web_max_connection_count_per_client_username(&self) -> (r: Option<&i64>)
        ensures
            r.deep_view() == self@.service_web_max_connection_count_per_client_username,
    {
        self.service_web_max_connection_count_per_client_username.as_ref()
    }

    /// Removes `serviceWebMaxConnectionCountPerClientUsername`; every other attribute is left as it was.
    pub fn reset_service_web_max_connection_count_per_client_username(&mut self)
        ensures
            final(self)@ == old(self)@.without_service_web_max_connection_count_per_client_username(),
    {
        self.service_web_max_connection_count_per_client_username = None;
    }

    /// Sets `serviceWebMaxPayload` to the given value; every other attribute is left as it was.
    pub fn set_service_web_max_payload(&mut self, service_web_max_payload: i64)
        ensures
            final(self)@ == old(self)@.with_service_web_max_payload(service_web_max_payload),
    {
        self.service_web_max_payload = Some(service_web_max_payload);
    }

    /// Returns this value with `serviceWebMaxPayload` set to the given value.
    pub fn with_service_web_max_payload(self, service_web_max_payload: i64) -> (r: MsgVpnClientProfile)
        ensures
            r@ == self@.with_service_web_max_payload(service_web_max_payload),
    {
        let mut r = self;
        r.service_web_max_payload = Some(service_web_max_payload);
        r
    }

    /// Returns `serviceWebMaxPayload` if it is present.
    pub fn service_web_max_payload(&self) -> (r: Option<&i64>)
        ensures
            r.deep_view() == self@.service_web_max_payload,
    {
        self.service_web_max_payload.as_ref()
    }

    /// Removes `serviceWebMaxPayload`; every other attribute is left as it was.
    pub fn reset_service_web_max_payload(&mut self)
        ensures
            final(self)@ == old(self)@.without_service_web_max_payload(),
    {
        self.service_web_max_payload = None;
    }

    /// Sets `tcpCongestionWindowSize` to the given value; every other attribute is left as it was.
    pub fn set_tcp_congestion_window_size(&mut self, tcp_congestion_window_size: i64)
        ensures
            final(self)@ == old(self)@.with_tcp_congestion_window_size(tcp_congestion_window_size),
    {
        self.tcp_congestion_window_size = Some(tcp_congestion_window_size);
    }

    /// Returns this value with `tcpCongestionWindowSize` set to the given value.
    pub fn with_tcp_congestion_window_size(self, tcp_congestion_window_size: i64) -> (r: MsgVpnClientProfile)
        ensures
            r@ == self@.with_tcp_congestion_window_size(tcp_congestion_window_size),
    {
        let mut r = self;
        r.tcp_congestion_window_size = Some(tcp_congestion_window_size);
        r
    }

    /// Returns `tcpCongestionWindowSize` if it is present.
    pub fn tcp_congestion_window_size(&self) -> (r: Option<&i64>)
        ensures
            r.deep_view() == self@.tcp_congestion_window_size,
    {
        self.tcp_congestion_window_size.as_ref()
    }

    /// Removes `tcpCongestionWindowSize`; every other attribute is left as it was.
    pub fn reset_tcp_congestion_window_size(&mut self)
        ensures
            final(self)@ == old(self)@.without_tcp_congestion_window_size(),
    {
        self.tcp_congestion_window_size = None;
    }

    /// Sets `tcpKeepaliveCount` to the given value; every other attribute is left as it was.
    pub fn set_tcp_keepalive_count(&mut self, tcp_keepalive_count: i64)
        ensures
            final(self)@ == old(self)@.with_tcp_keepalive_count(tcp_keepalive_count),
    {
        self.tcp_keepalive_count = Some(tcp_keepalive_count);
    }

    /// Returns this value with `tcpKeepaliveCount` set to the given value.
    pub fn with_tcp_keepalive_count(self, tcp_keepalive_count: i64) -> (r: MsgVpnClientProfile)
        ensures
            r@ == self@.with_tcp_keepalive_count(tcp_keepalive_count),
    {
        let mut r = self;
        r.tcp_keepalive_count = Some(tcp_keepalive_count);
        r
    }

    /// Returns `tcpKeepaliveCount` if it is present.
    pub fn tcp_keepalive_count(&self) -> (r: Option<&i64>)
        ensures
            r.deep_view() == self@.tcp_keepalive_count,
    {
        self.tcp_keepalive_count.as_ref()
    }

    /// Removes `tcpKeepaliveCount`; every other attribute is left as it was.
    pub fn reset_tcp_keepalive_count(&mut self)
        ensures
            final(self)@ == old(self)@.without_tcp_keepalive_count(),
    {
        self.tcp_keepalive_count = None;
    }

    /// Sets `tcpKeepaliveIdleTime` to the given value; every other attribute is left as it was.
    pub fn set_tcp_keepalive_idle_time(&mut self, tcp_keepalive_idle_time: i64)
        ensures
            final(self)@ == old(self)@.with_tcp_keepalive_idle_time(tcp_keepalive_idle_time),
    {
        self.tcp_keepalive_idle_time = Some(tcp_keepalive_idle_time);
    }

    /// Returns this value with `tcpKeepaliveIdleTime` set to the given value.
    pub fn with_tcp_keepalive_idle_time(self, tcp_keepalive_idle_time: i64) -> (r: MsgVpnClientProfile)
        ensures
            r@ == self@.with_tcp_keepalive_idle_time(tcp_keepalive_idle_time),
    {
        let mut r = self;
        r.tcp_keepalive_idle_time = Some(tcp_keepalive_idle_time);
        r
    }

    /// Returns `tcpKeepaliveIdleTime` if it is present.
    pub fn tcp_keepalive_idle_time(&self) -> (r: Option<&i64>)
        ensures
            r.deep_view() == self@.tcp_keepalive_idle_time,
    {
        self.tcp_keepalive_idle_time.as_ref()
    }

    /// Removes `tcpKeepaliveIdleTime`; every other attribute is left as it was.
    pub fn reset_tcp_keepalive_idle_time(&mut self)
        ensures
            final(self)@ == old(self)@.without_tcp_keepalive_idle_time(),
    {
        self.tcp_keepalive_idle_time = None;
    }

    /// Sets `tcpKeepaliveInterval` to the given value; every other attribute is left as it was.
    pub fn set_tcp_keepalive_interval(&mut self, tcp_keepalive_interval: i64)
        ensures
            final(self)@ == old(self)@.with_tcp_keepalive_interval(tcp_keepalive_interval),
    {
        self.tcp_keepalive_interval = Some(tcp_keepalive_interval);
    }

    /// Returns this value with `tcpKeepaliveInterval` set to the given value.
    pub fn with_tcp_keepalive_interval(self, tcp_keepalive_interval: i64) -> (r: MsgVpnClientProfile)
        ensures
            r@ == self@.with_tcp_keepalive_interval(tcp_keepalive_interval),
    {
        let mut r = self;
        r.tcp_keepalive_interval = Some(tcp_keepalive_interval);
        r
    }

    /// Returns `tcpKeepaliveInterval` if it is present.
    pub fn tcp_keepalive_interval(&self) -> (r: Option<&i64>)
        ensures
            r.deep_view() == self@.tcp_keepalive_interval,
    {
        self.tcp_keepalive_interval.as_ref()
    }

    /// Removes `tcpKeepaliveInterval`; every other attribute is left as it was.
    pub fn reset_tcp_keepalive_interval(&mut self)
        ensures
            final(self)@ == old(self)@.without_tcp_keepalive_interval(),
    {
        self.tcp_keepalive_interval = None;
    }

    /// Sets `tcpMaxSegmentSize` to the given value; every other attribute is left as it was.
    pub fn set_tcp_max_segment_size(&mut self, tcp_max_segment_size: i64)
        ensures
            final(self)@ == old(self)@.with_tcp_max_segment_size(tcp_max_segment_size),
    {
        self.tcp_max_segment_size = Some(tcp_max_segment_size);
    }

    /// Returns this value with `tcpMaxSegmentSize` set to the given value.
    pub fn with_tcp_max_segment_size(self, tcp_max_segment_size: i64) -> (r: MsgVpnClientProfile)
        ensures
            r@ == self@.with_tcp_max_segment_size(tcp_max_segment_size),
    {
        let mut r = self;
        r.tcp_max_segment_size = Some(tcp_max_segment_size);
        r
    }

    /// Returns `tcpMaxSegmentSize` if it is present.
    pub fn tcp_max_segment_size(&self) -> (r: Option<&i64>)
        ensures
            r.deep_view() == self@.tcp_max_segment_size,
    {
        self.tcp_max_segment_size.as_ref()
    }

    /// Removes `tcpMaxSegmentSize`; every other attribute is left as it was.
    pub fn reset_tcp_max_segment_size(&mut self)
        ensures
            final(self)@ == old(self)@.without_tcp_max_segment_size(),
    {
        self.tcp_max_segment_size = None;
    }

    /// Sets `tcpMaxWindowSize` to the given value; every other attribute is left as it was.
    pub fn set_tcp_max_window_size(&mut self, tcp_max_window_size: i64)
        ensures
            final(self)@ == old(self)@.with_tcp_max_window_size(tcp_max_window_size),
    {
        self.tcp_max_window_size = Some(tcp_max_window_size);
    }

    /// Returns this value with `tcpMaxWindowSize` set to the given value.
    pub fn with_tcp_max_window_size(self, tcp_max_window_size: i64) -> (r: MsgVpnClientProfile)
        ensures
            r@ == self@.with_tcp_max_window_size(tcp_max_window_size),
    {
        let mut r = self;
        r.tcp_max_window_size = Some(tcp_max_window_size);
        r
    }

    /// Returns `tcpMaxWindowSize` if it is present.
    pub fn tcp_max_window_size(&self) -> (r: Option<&i64>)
        ensures
            r.deep_view() == self@.tcp_max_window_size,
    {
        self.tcp_max_window_size.as_ref()
    }

    /// Removes `tcpMaxWindowSize`; every other attribute is left as it was.
    pub fn reset_tcp_max_window_size(&mut self)
        ensures
            final(self)@ == old(self)@.without_tcp_max_window_size(),
    {
        self.tcp_max_window_size = None;
    }

    /// Sets `tlsAllowDowngradeToPlainTextEnabled` to the given value; every other attribute is left as it was.
    pub fn set_tls_allow_downgrade_to_plain_text_enabled(&mut self, tls_allow_downgrade_to_plain_text_enabled: bool)
        ensures
            final(self)@ == old(self)@.with_tls_allow_downgrade_to_plain_text_enabled(tls_allow_downgrade_to_plain_text_enabled),
    {
        self.tls_allow_downgrade_to_plain_text_enabled = Some(tls_allow_downgrade_to_plain_text_enabled);
    }

    /// Returns this value with `tlsAllowDowngradeToPlainTextEnabled` set to the given value.
    pub fn with_tls_allow_downgrade_to_plain_text_enabled(self, tls_allow_downgrade_to_plain_text_enabled: bool) -> (r: MsgVpnClientProfile)
        ensures
            r@ == self@.with_tls_allow_downgrade_to_plain_text_enabled(tls_allow_downgrade_to_plain_text_enabled),
    {
        let mut r = self;
        r.tls_allow_downgrade_to_plain_text_enabled = Some(tls_allow_downgrade_to_plain_text_enabled);
        r
    }

    /// Returns `tlsAllowDowngradeToPlainTextEnabled` if it is present.
    pub fn tls_allow_downgrade_to_plain_text_enabled(&self) -> (r: Option<&bool>)
        ensures
            r.deep_view() == self@.tls_allow_downgrade_to_plain_text_enabled,
    {
        self.tls_allow_downgrade_to_plain_text_enabled.as_ref()
    }

    /// Removes `tlsAllowDowngradeToPlainTextEnabled`; every other attribute is left as it was.
    pub fn reset_tls_allow_downgrade_to_plain_text_enabled(&mut self)
        ensures
            final(self)@ == old(self)@.without_tls_allow_downgrade_to_plain_text_enabled(),
    {
        self.tls_allow_downgrade_to_plain_text_enabled = None;
    }
}

/// A freshly made value has no attribute present: every read of a new value gives nothing.
pub proof fn lemma_msg_vpn_client_profile_new_is_empty()
    ensures
        MsgVpnClientProfileView::empty().allow_bridge_connections_enabled is None,
        MsgVpnClientProfileView::empty().allow_cut_through_forwarding_enabled is None,
        MsgVpnClientProfileView::empty().allow_guaranteed_endpoint_create_enabled is None,
        MsgVpnClientProfileView::empty().allow_guaranteed_msg_receive_enabled is None,
        MsgVpnClientProfileView::empty().allow_guaranteed_msg_send_enabled is None,
        MsgVpnClientProfileView::empty().allow_transacted_sessions_enabled is None,
        MsgVpnClientProfileView::empty().api_queue_management_copy_from_on_create_name is None,
        MsgVpnClientProfileView::empty().api_topic_endpoint_management_copy_from_on_create_name is None,
        MsgVpnClientProfileView::empty().client_profile_name is None,
        MsgVpnClientProfileView::empty().compression_enabled is None,
        MsgVpnClientProfileView::empty().eliding_delay is None,
        MsgVpnClientProfileView::empty().eliding_enabled is None,
        MsgVpnClientProfileView::empty().eliding_max_topic_count is None,
        MsgVpnClientProfileView::empty().event_client_provisioned_endpoint_spool_usage_threshold is None,
        MsgVpnClientProfileView::empty().event_connection_count_per_client_username_threshold is None,
        MsgVpnClientProfileView::empty().event_egress_flow_count_threshold is None,
        MsgVpnClientProfileView::empty().event_endpoint_count_per_client_username_threshold is None,
        MsgVpnClientProfileView::empty().event_ingress_flow_count_threshold is None,
        MsgVpnClientProfileView::empty().event_service_smf_connection_count_per_client_username_threshold is None,
        MsgVpnClientProfileView::empty().event_service_web_connection_count_per_client_username_threshold is None,
        MsgVpnClientProfileView::empty().event_subscription_count_threshold is None,
        MsgVpnClientProfileView::empty().event_transacted_session_count_threshold is None,
        MsgVpnClientProfileView::empty().event_transaction_count_threshold is None,
        MsgVpnClientProfileView::empty().max_connection_count_per_client_username is None,
        MsgVpnClientProfileView::empty().max_egress_flow_count is None,
        MsgVpnClientProfileView::empty().max_endpoint_count_per_client_username is None,
        MsgVpnClientProfileView::empty().max_ingress_flow_count is None,
        MsgVpnClientProfileView::empty().max_subscription_count is None,
        MsgVpnClientProfileView::empty().max_transacted_session_count is None,
        MsgVpnClientProfileView::empty().max_transaction_count is None,
        MsgVpnClientProfileView::empty().msg_vpn_name is None,
        MsgVpnClientProfileView::empty().queue_control1_max_depth is None,
        MsgVpnClientProfileView::empty().queue_control1_min_msg_burst is None,
        MsgVpnClientProfileView::empty().queue_direct1_max_depth is None,
        MsgVpnClientProfileView::empty().queue_direct1_min_msg_burst is None,
        MsgVpnClientProfileView::empty().queue_direct2_max_depth is None,
        MsgVpnClientProfileView::empty().queue_direct2_min_msg_burst is None,
        MsgVpnClientProfileView::empty().queue_direct3_max_depth is None,
        MsgVpnClientProfileView::empty().queue_direct3_min_msg_burst is None,
        MsgVpnClientProfileView::empty().queue_guaranteed1_max_depth is None,
        MsgVpnClientProfileView::empty().queue_guaranteed1_min_msg_burst is None,
        MsgVpnClientProfileView::empty().reject_msg_to_sender_on_no_subscription_match_enabled is None,
        MsgVpnClientProfileView::empty().replication_allow_client_connect_when_standby_enabled is None,
        MsgVpnClientProfileView::empty().service_smf_max_connection_count_per_client_username is None,
        MsgVpnClientProfileView::empty().service_web_inactive_timeout is None,
        MsgVpnClientProfileView::empty().service_web_max_connection_count_per_client_username is None,
        MsgVpnClientProfileView::empty().service_web_max_payload is None,
        MsgVpnClientProfileView::empty().tcp_congestion_window_size is None,
        MsgVpnClientProfileView::empty().tcp_keepalive_count is None,
        MsgVpnClientProfileView::empty().tcp_keepalive_idle_time is None,
        MsgVpnClientProfileView::empty().tcp_keepalive_interval is None,
        MsgVpnClientProfileView::empty().tcp_max_segment_size is None,
        MsgVpnClientProfileView::empty().tcp_max_window_size is None,
        MsgVpnClientProfileView::empty().tls_allow_downgrade_to_plain_text_enabled is None,
{
}

/// Reading an attribute right after writing it gives the value written,
/// and reading it right after removing it gives nothing.
pub proof fn lemma_msg_vpn_client_profile_read_after_write(m: MsgVpnClientProfileView, flag: bool, text: Seq<char>, number: i64, by_percent: EventThresholdByPercent, threshold: EventThreshold, small: i32)
    ensures
        m.with_allow_bridge_connections_enabled(flag).allow_bridge_connections_enabled == Some(flag) && m.without_allow_bridge_connections_enabled().allow_bridge_connections_enabled is None,
        m.with_allow_cut_through_forwarding_enabled(flag).allow_cut_through_forwarding_enabled == Some(flag) && m.without_allow_cut_through_forwarding_enabled().allow_cut_through_forwarding_enabled is None,
        m.with_allow_guaranteed_endpoint_create_enabled(flag).allow_guaranteed_endpoint_create_enabled == Some(flag) && m.without_allow_guaranteed_endpoint_create_enabled().allow_guaranteed_endpoint_create_enabled is None,
        m.with_allow_guaranteed_msg_receive_enabled(flag).allow_guaranteed_msg_receive_enabled == Some(flag) && m.without_allow_guaranteed_msg_receive_enabled().allow_guaranteed_msg_receive_enabled is None,
        m.with_allow_guaranteed_msg_send_enabled(flag).allow_guaranteed_msg_send_enabled == Some(flag) && m.without_allow_guaranteed_msg_send_enabled().allow_guaranteed_msg_send_enabled is None,
        m.with_allow_transacted_sessions_enabled(flag).allow_transacted_sessions_enabled == Some(flag) && m.without_allow_transacted_sessions_enabled().allow_transacted_sessions_enabled is None,
        m.with_api_queue_management_copy_from_on_create_name(text).api_queue_management_copy_from_on_create_name == Some(text) && m.without_api_queue_management_copy_from_on_create_name().api_queue_management_copy_from_on_create_name is None,
        m.with_api_topic_endpoint_management_copy_from_on_create_name(text).api_topic_endpoint_management_copy_from_on_create_name == Some(text) && m.without_api_topic_endpoint_management_copy_from_on_create_name().api_topic_endpoint_management_copy_from_on_create_name is None,
        m.with_client_profile_name(text).client_profile_name == Some(text) && m.without_client_profile_name().client_profile_name is None,
        m.with_compression_enabled(flag).compression_enabled == Some(flag) && m.without_compression_enabled().compression_enabled is None,
        m.with_eliding_delay(number).eliding_delay == Some(number) && m.without_eliding_delay().eliding_delay is None,
        m.with_eliding_enabled(flag).eliding_enabled == Some(flag) && m.without_eliding_enabled().eliding_enabled is None,
        m.with_eliding_max_topic_count(number).eliding_max_topic_count == Some(number) && m.without_eliding_max_topic_count().eliding_max_topic_count is None,
        m.with_event_client_provisioned_endpoint_spool_usage_threshold(by_percent).event_client_provisioned_endpoint_spool_usage_threshold == Some(by_percent) && m.without_event_client_provisioned_endpoint_spool_usage_threshold().event_client_provisioned_endpoint_spool_usage_threshold is None,
        m.with_event_connection_count_per_client_username_threshold(threshold).event_connection_count_per_client_username_threshold == Some(threshold) && m.without_event_connection_count_per_client_username_threshold().event_connection_count_per_client_username_threshold is None,
        m.with_event_egress_flow_count_threshold(threshold).event_egress_flow_count_threshold == Some(threshold) && m.without_event_egress_flow_count_threshold().event_egress_flow_count_threshold is None,
        m.with_event_endpoint_count_per_client_username_threshold(threshold).event_endpoint_count_per_client_username_threshold == Some(threshold) && m.without_event_endpoint_count_per_client_username_threshold().event_endpoint_count_per_client_username_threshold is None,
        m.with_event_ingress_flow_count_threshold(threshold).event_ingress_flow_count_threshold == Some(threshold) && m.without_event_ingress_flow_count_threshold().event_ingress_flow_count_threshold is None,
        m.with_event_service_smf_connection_count_per_client_username_threshold(threshold).event_service_smf_connection_count_per_client_username_threshold == Some(threshold) && m.without_event_service_smf_connection_count_per_client_username_threshold().event_service_smf_connection_count_per_client_username_threshold is None,
        m.with_event_service_web_connection_count_per_client_username_threshold(threshold).event_service_web_connection_count_per_client_username_threshold == Some(threshold) && m.without_event_service_web_connection_count_per_client_username_threshold().event_service_web_connection_count_per_client_username_threshold is None,
        m.with_event_subscription_count_threshold(threshold).event_subscription_count_threshold == Some(threshold) && m.without_event_subscription_count_threshold().event_subscription_count_threshold is None,
        m.with_event_transacted_session_count_threshold(threshold).event_transacted_session_count_threshold == Some(threshold) && m.without_event_transacted_session_count_threshold().event_transacted_session_count_threshold is None,
        m.with_event_transaction_count_threshold(threshold).event_transaction_count_threshold == Some(threshold) && m.without_event_transaction_count_threshold().event_transaction_count_threshold is None,
        m.with_max_connection_count_per_client_username(number).max_connection_count_per_client_username == Some(number) && m.without_max_connection_count_per_client_username().max_connection_count_per_client_username is None,
        m.with_max_egress_flow_count(number).max_egress_flow_count == Some(number) && m.without_max_egress_flow_count().max_egress_flow_count is None,
        m.with_max_endpoint_count_per_client_username(number).max_endpoint_count_per_client_username == Some(number) && m.without_max_endpoint_count_per_client_username().max_endpoint_count_per_client_username is None,
        m.with_max_ingress_flow_count(number).max_ingress_flow_count == Some(number) && m.without_max_ingress_flow_count().max_ingress_flow_count is None,
        m.with_max_subscription_count(number).max_subscription_count == Some(number) && m.without_max_subscription_count().max_subscription_count is None,
        m.with_max_transacted_session_count(number).max_transacted_session_count == Some(number) && m.without_max_transacted_session_count().max_transacted_session_count is None,
        m.with_max_transaction_count(number).max_transaction_count == Some(number) && m.without_max_transaction_count().max_transaction_count is None,
        m.with_msg_vpn_name(text).msg_vpn_name == Some(text) && m.without_msg_vpn_name().msg_vpn_name is None,
        m.with_queue_control1_max_depth(small).queue_control1_max_depth == Some(small) && m.without_queue_control1_max_depth().queue_control1_max_depth is None,
        m.with_queue_control1_min_msg_burst(small).queue_control1_min_msg_burst == Some(small) && m.without_queue_control1_min_msg_burst().queue_control1_min_msg_burst is None,
        m.with_queue_direct1_max_depth(small).queue_direct1_max_depth == Some(small) && m.without_queue_direct1_max_depth().queue_direct1_max_depth is None,
        m.with_queue_direct1_min_msg_burst(small).queue_direct1_min_msg_burst == Some(small) && m.without_queue_direct1_min_msg_burst().queue_direct1_min_msg_burst is None,
        m.with_queue_direct2_max_depth(small).queue_direct2_max_depth == Some(small) && m.without_queue_direct2_max_depth().queue_direct2_max_depth is None,
        m.with_queue_direct2_min_msg_burst(small).queue_direct2_min_msg_burst == Some(small) && m.without_queue_direct2_min_msg_burst().queue_direct2_min_msg_burst is None,
        m.with_queue_direct3_max_depth(small).queue_direct3_max_depth == Some(small) && m.without_queue_direct3_max_depth().queue_direct3_max_depth is None,
        m.with_queue_direct3_min_msg_burst(small).queue_direct3_min_msg_burst == Some(small) && m.without_queue_direct3_min_msg_burst().queue_direct3_min_msg_burst is None,
        m.with_queue_guaranteed1_max_depth(small).queue_guaranteed1_max_depth == Some(small) && m.without_queue_guaranteed1_max_depth().queue_guaranteed1_max_depth is None,
        m.with_queue_guaranteed1_min_msg_burst(small).queue_guaranteed1_min_msg_burst == Some(small) && m.without_queue_guaranteed1_min_msg_burst().queue_guaranteed1_min_msg_burst is None,
        m.with_reject_msg_to_sender_on_no_subscription_match_enabled(flag).reject_msg_to_sender_on_no_subscription_match_enabled == Some(flag) && m.without_reject_msg_to_sender_on_no_subscription_match_enabled().reject_msg_to_sender_on_no_subscription_match_enabled is None,
        m.with_replication_allow_client_connect_when_standby_enabled(flag).replication_allow_client_connect_when_standby_enabled == Some(flag) && m.without_replication_allow_client_connect_when_standby_enabled().replication_allow_client_connect_when_standby_enabled is None,
        m.with_service_smf_max_connection_count_per_client_username(number).service_smf_max_connection_count_per_client_username == Some(number) && m.without_service_smf_max_connection_count_per_client_username().service_smf_max_connection_count_per_client_username is None,
        m.with_service_web_inactive_timeout(number).service_web_inactive_timeout == Some(number) && m.without_service_web_inactive_timeout().service_web_inactive_timeout is None,
        m.with_service_web_max_connection_count_per_client_username(number).service_web_max_connection_count_per_client_username == Some(number) && m.without_service_web_max_connection_count_per_client_username().service_web_max_connection_count_per_client_username is None,
        m.with_service_web_max_payload(number).service_web_max_payload == Some(number) && m.without_service_web_max_payload().service_web_max_payload is None,
        m.with_tcp_congestion_window_size(number).tcp_congestion_window_size == Some(number) && m.without_tcp_congestion_window_size().tcp_congestion_window_size is None,
        m.with_tcp_keepalive_count(number).tcp_keepalive_count == Some(number) && m.without_tcp_keepalive_count().tcp_keepalive_count is None,
        m.with_tcp_keepalive_idle_time(number).tcp_keepalive_idle_time == Some(number) && m.without_tcp_keepalive_idle_time().tcp_keepalive_idle_time is None,
        m.with_tcp_keepalive_interval(number).tcp_keepalive_interval == Some(number) && m.without_tcp_keepalive_interval().tcp_keepalive_interval is None,
        m.with_tcp_max_segment_size(number).tcp_max_segment_size == Some(number) && m.without_tcp_max_segment_size().tcp_max_segment_size is None,
        m.with_tcp_max_window_size(number).tcp_max_window_size == Some(number) && m.without_tcp_max_window_size().tcp_max_window_size is None,
        m.with_tls_allow_downgrade_to_plain_text_enabled(flag).tls_allow_downgrade_to_plain_text_enabled == Some(flag) && m.without_tls_allow_downgrade_to_plain_text_enabled().tls_allow_downgrade_to_plain_text_enabled is None,
{
}

/// Of two writes to the same attribute, the later one wins.
pub proof fn lemma_msg_vpn_client_profile_last_write_wins(m: MsgVpnClientProfileView, flag_a: bool, flag_b: bool, text_a: Seq<char>, text_b: Seq<char>, number_a: i64, number_b: i64, by_percent_a: EventThresholdByPercent, by_percent_b: EventThresholdByPercent, threshold_a: EventThreshold, threshold_b: EventThreshold, small_a: i32, small_b: i32)
    ensures
        m.with_allow_bridge_connections_enabled(flag_a).with_allow_bridge_connections_enabled(flag_b) == m.with_allow_bridge_connections_enabled(flag_b),
        m.with_allow_cut_through_forwarding_enabled(flag_a).with_allow_cut_through_forwarding_enabled(flag_b) == m.with_allow_cut_through_forwarding_enabled(flag_b),
        m.with_allow_guaranteed_endpoint_create_enabled(flag_a).with_allow_guaranteed_endpoint_create_enabled(flag_b) == m.with_allow_guaranteed_endpoint_create_enabled(flag_b),
        m.with_allow_guaranteed_msg_receive_enabled(flag_a).with_allow_guaranteed_msg_receive_enabled(flag_b) == m.with_allow_guaranteed_msg_receive_enabled(flag_b),
        m.with_allow_guaranteed_msg_send_enabled(flag_a).with_allow_guaranteed_msg_send_enabled(flag_b) == m.with_allow_guaranteed_msg_send_enabled(flag_b),
        m.with_allow_transacted_sessions_enabled(flag_a).with_allow_transacted_sessions_enabled(flag_b) == m.with_allow_transacted_sessions_enabled(flag_b),
        m.with_api_queue_management_copy_from_on_create_name(text_a).with_api_queue_management_copy_from_on_create_name(text_b) == m.with_api_queue_management_copy_from_on_create_name(text_b),
        m.with_api_topic_endpoint_management_copy_from_on_create_name(text_a).with_api_topic_endpoint_management_copy_from_on_create_name(text_b) == m.with_api_topic_endpoint_management_copy_from_on_create_name(text_b),
        m.with_client_profile_name(text_a).with_client_profile_name(text_b) == m.with_client_profile_name(text_b),
        m.with_compression_enabled(flag_a).with_compression_enabled(flag_b) == m.with_compression_enabled(flag_b),
        m.with_eliding_delay(number_a).with_eliding_delay(number_b) == m.with_eliding_delay(number_b),
        m.with_eliding_enabled(flag_a).with_eliding_enabled(flag_b) == m.with_eliding_enabled(flag_b),
        m.with_eliding_max_topic_count(number_a).with_eliding_max_topic_count(number_b) == m.with_eliding_max_topic_count(number_b),
        m.with_event_client_provisioned_endpoint_spool_usage_threshold(by_percent_a).with_event_client_provisioned_endpoint_spool_usage_threshold(by_percent_b) == m.with_event_client_provisioned_endpoint_spool_usage_threshold(by_percent_b),
        m.with_event_connection_count_per_client_username_threshold(threshold_a).with_event_connection_count_per_client_username_threshold(threshold_b) == m.with_event_connection_count_per_client_username_threshold(threshold_b),
        m.with_event_egress_flow_count_threshold(threshold_a).with_event_egress_flow_count_threshold(threshold_b) == m.with_event_egress_flow_count_threshold(threshold_b),
        m.with_event_endpoint_count_per_client_username_threshold(threshold_a).with_event_endpoint_count_per_client_username_threshold(threshold_b) == m.with_event_endpoint_count_per_client_username_threshold(threshold_b),
        m.with_event_ingress_flow_count_threshold(threshold_a).with_event_ingress_flow_count_threshold(threshold_b) == m.with_event_ingress_flow_count_threshold(threshold_b),
        m.with_event_service_smf_connection_count_per_client_username_threshold(threshold_a).with_event_service_smf_connection_count_per_client_username_threshold(threshold_b) == m.with_event_service_smf_connection_count_per_client_username_threshold(threshold_b),
        m.with_event_service_web_connection_count_per_client_username_threshold(threshold_a).with_event_service_web_connection_count_per_client_username_threshold(threshold_b) == m.with_event_service_web_connection_count_per_client_username_threshold(threshold_b),
        m.with_event_subscription_count_threshold(threshold_a).with_event_subscription_count_threshold(threshold_b) == m.with_event_subscription_count_threshold(threshold_b),
        m.with_event_transacted_session_count_threshold(threshold_a).with_event_transacted_session_count_threshold(threshold_b) == m.with_event_transacted_session_count_threshold(threshold_b),
        m.with_event_transaction_count_threshold(threshold_a).with_event_transaction_count_threshold(threshold_b) == m.with_event_transaction_count_threshold(threshold_b),
        m.with_max_connection_count_per_client_username(number_a).with_max_connection_count_per_client_username(number_b) == m.with_max_connection_count_per_client_username(number_b),
        m.with_max_egress_flow_count(number_a).with_max_egress_flow_count(number_b) == m.with_max_egress_flow_count(number_b),
        m.with_max_endpoint_count_per_client_username(number_a).with_max_endpoint_count_per_client_username(number_b) == m.with_max_endpoint_count_per_client_username(number_b),
        m.with_max_ingress_flow_count(number_a).with_max_ingress_flow_count(number_b) == m.with_max_ingress_flow_count(number_b),
        m.with_max_subscription_count(number_a).with_max_subscription_count(number_b) == m.with_max_subscription_count(number_b),
        m.with_max_transacted_session_count(number_a).with_max_transacted_session_count(number_b) == m.with_max_transacted_session_count(number_b),
        m.with_max_transaction_count(number_a).with_max_transaction_count(number_b) == m.with_max_transaction_count(number_b),
        m.with_msg_vpn_name(text_a).with_msg_vpn_name(text_b) == m.with_msg_vpn_name(text_b),
        m.with_queue_control1_max_depth(small_a).with_queue_control1_max_depth(small_b) == m.with_queue_control1_max_depth(small_b),
        m.with_queue_control1_min_msg_burst(small_a).with_queue_control1_min_msg_burst(small_b) == m.with_queue_control1_min_msg_burst(small_b),
        m.with_queue_direct1_max_depth(small_a).with_queue_direct1_max_depth(small_b) == m.with_queue_direct1_max_depth(small_b),
        m.with_queue_direct1_min_msg_burst(small_a).with_queue_direct1_min_msg_burst(small_b) == m.with_queue_direct1_min_msg_burst(small_b),
        m.with_queue_direct2_max_depth(small_a).with_queue_direct2_max_depth(small_b) == m.with_queue_direct2_max_depth(small_b),
        m.with_queue_direct2_min_msg_burst(small_a).with_queue_direct2_min_msg_burst(small_b) == m.with_queue_direct2_min_msg_burst(small_b),
        m.with_queue_direct3_max_depth(small_a).with_queue_direct3_max_depth(small_b) == m.with_queue_direct3_max_depth(small_b),
        m.with_queue_direct3_min_msg_burst(small_a).with_queue_direct3_min_msg_burst(small_b) == m.with_queue_direct3_min_msg_burst(small_b),
        m.with_queue_guaranteed1_max_depth(small_a).with_queue_guaranteed1_max_depth(small_b) == m.with_queue_guaranteed1_max_depth(small_b),
        m.with_queue_guaranteed1_min_msg_burst(small_a).with_queue_guaranteed1_min_msg_burst(small_b) == m.with_queue_guaranteed1_min_msg_burst(small_b),
        m.with_reject_msg_to_sender_on_no_subscription_match_enabled(flag_a).with_reject_msg_to_sender_on_no_subscription_match_enabled(flag_b) == m.with_reject_msg_to_sender_on_no_subscription_match_enabled(flag_b),
        m.with_replication_allow_client_connect_when_standby_enabled(flag_a).with_replication_allow_client_connect_when_standby_enabled(flag_b) == m.with_replication_allow_client_connect_when_standby_enabled(flag_b),
        m.with_service_smf_max_connection_count_per_client_username(number_a).with_service_smf_max_connection_count_per_client_username(number_b) == m.with_service_smf_max_connection_count_per_client_username(number_b),
        m.with_service_web_inactive_timeout(number_a).with_service_web_inactive_timeout(number_b) == m.with_service_web_inactive_timeout(number_b),
        m.with_service_web_max_connection_count_per_client_username(number_a).with_service_web_max_connection_count_per_client_username(number_b) == m.with_service_web_max_connection_count_per_client_username(number_b),
        m.with_service_web_max_payload(number_a).with_service_web_max_payload(number_b) == m.with_service_web_max_payload(number_b),
        m.with_tcp_congestion_window_size(number_a).with_tcp_congestion_window_size(number_b) == m.with_tcp_congestion_window_size(number_b),
        m.with_tcp_keepalive_count(number_a).with_tcp_keepalive_count(number_b) == m.with_tcp_keepalive_count(number_b),
        m.with_tcp_keepalive_idle_time(number_a).with_tcp_keepalive_idle_time(number_b) == m.with_tcp_keepalive_idle_time(number_b),
        m.with_tcp_keepalive_interval(number_a).with_tcp_keepalive_interval(number_b) == m.with_tcp_keepalive_interval(number_b),
        m.with_tcp_max_segment_size(number_a).with_tcp_max_segment_size(number_b) == m.with_tcp_max_segment_size(number_b),
        m.with_tcp_max_window_size(number_a).with_tcp_max_window_size(number_b) == m.with_tcp_max_window_size(number_b),
        m.with_tls_allow_downgrade_to_plain_text_enabled(flag_a).with_tls_allow_downgrade_to_plain_text_enabled(flag_b) == m.with_tls_allow_downgrade_to_plain_text_enabled(flag_b),
{
}

/// Writing an attribute changes no other attribute: once that attribute is removed again,
/// the result is the starting value with that attribute removed.
pub proof fn lemma_msg_vpn_client_profile_write_touches_one_attribute(m: MsgVpnClientProfileView, flag: bool, text: Seq<char>, number: i64, by_percent: EventThresholdByPercent, threshold: EventThreshold, small: i32)
    ensures
        m.with_allow_bridge_connections_enabled(flag).without_allow_bridge_connections_enabled() == m.without_allow_bridge_connections_enabled(),
        m.with_allow_cut_through_forwarding_enabled(flag).without_allow_cut_through_forwarding_enabled() == m.without_allow_cut_through_forwarding_enabled(),
        m.with_allow_guaranteed_endpoint_create_enabled(flag).without_allow_guaranteed_endpoint_create_enabled() == m.without_allow_guaranteed_endpoint_create_enabled(),
        m.with_allow_guaranteed_msg_receive_enabled(flag).without_allow_guaranteed_msg_receive_enabled() == m.without_allow_guaranteed_msg_receive_enabled(),
        m.with_allow_guaranteed_msg_send_enabled(flag).without_allow_guaranteed_msg_send_enabled() == m.without_allow_guaranteed_msg_send_enabled(),
        m.with_allow_transacted_sessions_enabled(flag).without_allow_transacted_sessions_enabled() == m.without_allow_transacted_sessions_enabled(),
        m.with_api_queue_management_copy_from_on_create_name(text).without_api_queue_management_copy_from_on_create_name() == m.without_api_queue_management_copy_from_on_create_name(),
        m.with_api_topic_endpoint_management_copy_from_on_create_name(text).without_api_topic_endpoint_management_copy_from_on_create_name() == m.without_api_topic_endpoint_management_copy_from_on_create_name(),
        m.with_client_profile_name(text).without_client_profile_name() == m.without_client_profile_name(),
        m.with_compression_enabled(flag).without_compression_enabled() == m.without_compression_enabled(),
        m.with_eliding_delay(number).without_eliding_delay() == m.without_eliding_delay(),
        m.with_eliding_enabled(flag).without_eliding_enabled() == m.without_eliding_enabled(),
        m.with_eliding_max_topic_count(number).without_eliding_max_topic_count() == m.without_eliding_max_topic_count(),
        m.with_event_client_provisioned_endpoint_spool_usage_threshold(by_percent).without_event_client_provisioned_endpoint_spool_usage_threshold() == m.without_event_client_provisioned_endpoint_spool_usage_threshold(),
        m.with_event_connection_count_per_client_username_threshold(threshold).without_event_connection_count_per_client_username_threshold() == m.without_event_connection_count_per_client_username_threshold(),
        m.with_event_egress_flow_count_threshold(threshold).without_event_egress_flow_count_threshold() == m.without_event_egress_flow_count_threshold(),
        m.with_event_endpoint_count_per_client_username_threshold(threshold).without_event_endpoint_count_per_client_username_threshold() == m.without_event_endpoint_count_per_client_username_threshold(),
        m.with_event_ingress_flow_count_threshold(threshold).without_event_ingress_flow_count_threshold() == m.without_event_ingress_flow_count_threshold(),
        m.with_event_service_smf_connection_count_per_client_username_threshold(threshold).without_event_service_smf_connection_count_per_client_username_threshold() == m.without_event_service_smf_connection_count_per_client_username_threshold(),
        m.with_event_service_web_connection_count_per_client_username_threshold(threshold).without_event_service_web_connection_count_per_client_username_threshold() == m.without_event_service_web_connection_count_per_client_username_threshold(),
        m.with_event_subscription_count_threshold(threshold).without_event_subscription_count_threshold() == m.without_event_subscription_count_threshold(),
        m.with_event_transacted_session_count_threshold(threshold).without_event_transacted_session_count_threshold() == m.without_event_transacted_session_count_threshold(),
        m.with_event_transaction_count_threshold(threshold).without_event_transaction_count_threshold() == m.without_event_transaction_count_threshold(),
        m.with_max_connection_count_per_client_username(number).without_max_connection_count_per_client_username() == m.without_max_connection_count_per_client_username(),
        m.with_max_egress_flow_count(number).without_max_egress_flow_count() == m.without_max_egress_flow_count(),
        m.with_max_endpoint_count_per_client_username(number).without_max_endpoint_count_per_client_username() == m.without_max_endpoint_count_per_client_username(),
        m.with_max_ingress_flow_count(number).without_max_ingress_flow_count() == m.without_max_ingress_flow_count(),
        m.with_max_subscription_count(number).without_max_subscription_count() == m.without_max_subscription_count(),
        m.with_max_transacted_session_count(number).without_max_transacted_session_count() == m.without_max_transacted_session_count(),
        m.with_max_transaction_count(number).without_max_transaction_count() == m.without_max_transaction_count(),
        m.with_msg_vpn_name(text).without_msg_vpn_name() == m.without_msg_vpn_name(),
        m.with_queue_control1_max_depth(small).without_queue_control1_max_depth() == m.without_queue_control1_max_depth(),
        m.with_queue_control1_min_msg_burst(small).without_queue_control1_min_msg_burst() == m.without_queue_control1_min_msg_burst(),
        m.with_queue_direct1_max_depth(small).without_queue_direct1_max_depth() == m.without_queue_direct1_max_depth(),
        m.with_queue_direct1_min_msg_burst(small).without_queue_direct1_min_msg_burst() == m.without_queue_direct1_min_msg_burst(),
        m.with_queue_direct2_max_depth(small).without_queue_direct2_max_depth() == m.without_queue_direct2_max_depth(),
        m.with_queue_direct2_min_msg_burst(small).without_queue_direct2_min_msg_burst() == m.without_queue_direct2_min_msg_burst(),
        m.with_queue_direct3_max_depth(small).without_queue_direct3_max_depth() == m.without_queue_direct3_max_depth(),
        m.with_queue_direct3_min_msg_burst(small).without_queue_direct3_min_msg_burst() == m.without_queue_direct3_min_msg_burst(),
        m.with_queue_guaranteed1_max_depth(small).without_queue_guaranteed1_max_depth() == m.without_queue_guaranteed1_max_depth(),
        m.with_queue_guaranteed1_min_msg_burst(small).without_queue_guaranteed1_min_msg_burst() == m.without_queue_guaranteed1_min_msg_burst(),
        m.with_reject_msg_to_sender_on_no_subscription_match_enabled(flag).without_reject_msg_to_sender_on_no_subscription_match_enabled() == m.without_reject_msg_to_sender_on_no_subscription_match_enabled(),
        m.with_replication_allow_client_connect_when_standby_enabled(flag).without_replication_allow_client_connect_when_standby_enabled() == m.without_replication_allow_client_connect_when_standby_enabled(),
        m.with_service_smf_max_connection_count_per_client_username(number).without_service_smf_max_connection_count_per_client_username() == m.without_service_smf_max_connection_count_per_client_username(),
        m.with_service_web_inactive_timeout(number).without_service_web_inactive_timeout() == m.without_service_web_inactive_timeout(),
        m.with_service_web_max_connection_count_per_client_username(number).without_service_web_max_connection_count_per_client_username() == m.without_service_web_max_connection_count_per_client_username(),
        m.with_service_web_max_payload(number).without_service_web_max_payload() == m.without_service_web_max_payload(),
        m.with_tcp_congestion_window_size(number).without_tcp_congestion_window_size() == m.without_tcp_congestion_window_size(),
        m.with_tcp_keepalive_count(number).without_tcp_keepalive_count() == m.without_tcp_keepalive_count(),
        m.with_tcp_keepalive_idle_time(number).without_tcp_keepalive_idle_time() == m.without_tcp_keepalive_idle_time(),
        m.with_tcp_keepalive_interval(number).without_tcp_keepalive_interval() == m.without_tcp_keepalive_interval(),
        m.with_tcp_max_segment_size(number).without_tcp_max_segment_size() == m.without_tcp_max_segment_size(),
        m.with_tcp_max_window_size(number).without_tcp_max_window_size() == m.without_tcp_max_window_size(),
        m.with_tls_allow_downgrade_to_plain_text_enabled(flag).without_tls_allow_downgrade_to_plain_text_enabled() == m.without_tls_allow_downgrade_to_plain_text_enabled(),
{
}

/// Removing an attribute that was absent before a write undoes that write.
pub proof fn lemma_msg_vpn_client_profile_reset_undoes_write(m: MsgVpnClientProfileView, flag: bool, text: Seq<char>, number: i64, by_percent: EventThresholdByPercent, threshold: EventThreshold, small: i32)
    ensures
        m.allow_bridge_connections_enabled is None ==> m.with_allow_bridge_connections_enabled(flag).without_allow_bridge_connections_enabled() == m,
        m.allow_cut_through_forwarding_enabled is None ==> m.with_allow_cut_through_forwarding_enabled(flag).without_allow_cut_through_forwarding_enabled() == m,
        m.allow_guaranteed_endpoint_create_enabled is None ==> m.with_allow_guaranteed_endpoint_create_enabled(flag).without_allow_guaranteed_endpoint_create_enabled() == m,
        m.allow_guaranteed_msg_receive_enabled is None ==> m.with_allow_guaranteed_msg_receive_enabled(flag).without_allow_guaranteed_msg_receive_enabled() == m,
        m.allow_guaranteed_msg_send_enabled is None ==> m.with_allow_guaranteed_msg_send_enabled(flag).without_allow_guaranteed_msg_send_enabled() == m,
        m.allow_transacted_sessions_enabled is None ==> m.with_allow_transacted_sessions_enabled(flag).without_allow_transacted_sessions_enabled() == m,
        m.api_queue_management_copy_from_on_create_name is None ==> m.with_api_queue_management_copy_from_on_create_name(text).without_api_queue_management_copy_from_on_create_name() == m,
        m.api_topic_endpoint_management_copy_from_on_create_name is None ==> m.with_api_topic_endpoint_management_copy_from_on_create_name(text).without_api_topic_endpoint_management_copy_from_on_create_name() == m,
        m.client_profile_name is None ==> m.with_client_profile_name(text).without_client_profile_name() == m,
        m.compression_enabled is None ==> m.with_compression_enabled(flag).without_compression_enabled() == m,
        m.eliding_delay is None ==> m.with_eliding_delay(number).without_eliding_delay() == m,
        m.eliding_enabled is None ==> m.with_eliding_enabled(flag).without_eliding_enabled() == m,
        m.eliding_max_topic_count is None ==> m.with_eliding_max_topic_count(number).without_eliding_max_topic_count() == m,
        m.event_client_provisioned_endpoint_spool_usage_threshold is None ==> m.with_event_client_provisioned_endpoint_spool_usage_threshold(by_percent).without_event_client_provisioned_endpoint_spool_usage_threshold() == m,
        m.event_connection_count_per_client_username_threshold is None ==> m.with_event_connection_count_per_client_username_threshold(threshold).without_event_connection_count_per_client_username_threshold() == m,
        m.event_egress_flow_count_threshold is None ==> m.with_event_egress_flow_count_threshold(threshold).without_event_egress_flow_count_threshold() == m,
        m.event_endpoint_count_per_client_username_threshold is None ==> m.with_event_endpoint_count_per_client_username_threshold(threshold).without_event_endpoint_count_per_client_username_threshold() == m,
        m.event_ingress_flow_count_threshold is None ==> m.with_event_ingress_flow_count_threshold(threshold).without_event_ingress_flow_count_threshold() == m,
        m.event_service_smf_connection_count_per_client_username_threshold is None ==> m.with_event_service_smf_connection_count_per_client_username_threshold(threshold).without_event_service_smf_connection_count_per_client_username_threshold() == m,
        m.event_service_web_connection_count_per_client_username_threshold is None ==> m.with_event_service_web_connection_count_per_client_username_threshold(threshold).without_event_service_web_connection_count_per_client_username_threshold() == m,
        m.event_subscription_count_threshold is None ==> m.with_event_subscription_count_threshold(threshold).without_event_subscription_count_threshold() == m,
        m.event_transacted_session_count_threshold is None ==> m.with_event_transacted_session_count_threshold(threshold).without_event_transacted_session_count_threshold() == m,
        m.event_transaction_count_threshold is None ==> m.with_event_transaction_count_threshold(threshold).without_event_transaction_count_threshold() == m,
        m.max_connection_count_per_client_username is None ==> m.with_max_connection_count_per_client_username(number).without_max_connection_count_per_client_username() == m,
        m.max_egress_flow_count is None ==> m.with_max_egress_flow_count(number).without_max_egress_flow_count() == m,
        m.max_endpoint_count_per_client_username is None ==> m.with_max_endpoint_count_per_client_username(number).without_max_endpoint_count_per_client_username() == m,
        m.max_ingress_flow_count is None ==> m.with_max_ingress_flow_count(number).without_max_ingress_flow_count() == m,
        m.max_subscription_count is None ==> m.with_max_subscription_count(number).without_max_subscription_count() == m,
        m.max_transacted_session_count is None ==> m.with_max_transacted_session_count(number).without_max_transacted_session_count() == m,
        m.max_transaction_count is None ==> m.with_max_transaction_count(number).without_max_transaction_count() == m,
        m.msg_vpn_name is None ==> m.with_msg_vpn_name(text).without_msg_vpn_name() == m,
        m.queue_control1_max_depth is None ==> m.with_queue_control1_max_depth(small).without_queue_control1_max_depth() == m,
        m.queue_control1_min_msg_burst is None ==> m.with_queue_control1_min_msg_burst(small).without_queue_control1_min_msg_burst() == m,
        m.queue_direct1_max_depth is None ==> m.with_queue_direct1_max_depth(small).without_queue_direct1_max_depth() == m,
        m.queue_direct1_min_msg_burst is None ==> m.with_queue_direct1_min_msg_burst(small).without_queue_direct1_min_msg_burst() == m,
        m.queue_direct2_max_depth is None ==> m.with_queue_direct2_max_depth(small).without_queue_direct2_max_depth() == m,
        m.queue_direct2_min_msg_burst is None ==> m.with_queue_direct2_min_msg_burst(small).without_queue_direct2_min_msg_burst() == m,
        m.queue_direct3_max_depth is None ==> m.with_queue_direct3_max_depth(small).without_queue_direct3_max_depth() == m,
        m.queue_direct3_min_msg_burst is None ==> m.with_queue_direct3_min_msg_burst(small).without_queue_direct3_min_msg_burst() == m,
        m.queue_guaranteed1_max_depth is None ==> m.with_queue_guaranteed1_max_depth(small).without_queue_guaranteed1_max_depth() == m,
        m.queue_guaranteed1_min_msg_burst is None ==> m.with_queue_guaranteed1_min_msg_burst(small).without_queue_guaranteed1_min_msg_burst() == m,
        m.reject_msg_to_sender_on_no_subscription_match_enabled is None ==> m.with_reject_msg_to_sender_on_no_subscription_match_enabled(flag).without_reject_msg_to_sender_on_no_subscription_match_enabled() == m,
        m.replication_allow_client_connect_when_standby_enabled is None ==> m.with_replication_allow_client_connect_when_standby_enabled(flag).without_replication_allow_client_connect_when_standby_enabled() == m,
        m.service_smf_max_connection_count_per_client_username is None ==> m.with_service_smf_max_connection_count_per_client_username(number).without_service_smf_max_connection_count_per_client_username() == m,
        m.service_web_inactive_timeout is None ==> m.with_service_web_inactive_timeout(number).without_service_web_inactive_timeout() == m,
        m.service_web_max_connection_count_per_client_username is None ==> m.with_service_web_max_connection_count_per_client_username(number).without_service_web_max_connection_count_per_client_username() == m,
        m.service_web_max_payload is None ==> m.with_service_web_max_payload(number).without_service_web_max_payload() == m,
        m.tcp_congestion_window_size is None ==> m.with_tcp_congestion_window_size(number).without_tcp_congestion_window_size() == m,
        m.tcp_keepalive_count is None ==> m.with_tcp_keepalive_count(number).without_tcp_keepalive_count() == m,
        m.tcp_keepalive_idle_time is None ==> m.with_tcp_keepalive_idle_time(number).without_tcp_keepalive_idle_time() == m,
        m.tcp_keepalive_interval is None ==> m.with_tcp_keepalive_interval(number).without_tcp_keepalive_interval() == m,
        m.tcp_max_segment_size is None ==> m.with_tcp_max_segment_size(number).without_tcp_max_segment_size() == m,
        m.tcp_max_window_size is None ==> m.with_tcp_max_window_size(number).without_tcp_max_window_size() == m,
        m.tls_allow_downgrade_to_plain_text_enabled is None ==> m.with_tls_allow_downgrade_to_plain_text_enabled(flag).without_tls_allow_downgrade_to_plain_text_enabled() == m,
{
}

/// Removing an attribute twice is the same as removing it once, and removing an absent
/// attribute changes nothing.
pub proof fn lemma_msg_vpn_client_profile_reset_idempotent(m: MsgVpnClientProfileView)
    ensures
        m.without_allow_bridge_connections_enabled().without_allow_bridge_connections_enabled() == m.without_allow_bridge_connections_enabled() && (m.allow_bridge_connections_enabled is None ==> m.without_allow_bridge_connections_enabled() == m),
        m.without_allow_cut_through_forwarding_enabled().without_allow_cut_through_forwarding_enabled() == m.without_allow_cut_through_forwarding_enabled() && (m.allow_cut_through_forwarding_enabled is None ==> m.without_allow_cut_through_forwarding_enabled() == m),
        m.without_allow_guaranteed_endpoint_create_enabled().without_allow_guaranteed_endpoint_create_enabled() == m.without_allow_guaranteed_endpoint_create_enabled() && (m.allow_guaranteed_endpoint_create_enabled is None ==> m.without_allow_guaranteed_endpoint_create_enabled() == m),
        m.without_allow_guaranteed_msg_receive_enabled().without_allow_guaranteed_msg_receive_enabled() == m.without_allow_guaranteed_msg_receive_enabled() && (m.allow_guaranteed_msg_receive_enabled is None ==> m.without_allow_guaranteed_msg_receive_enabled() == m),
        m.without_allow_guaranteed_msg_send_enabled().without_allow_guaranteed_msg_send_enabled() == m.without_allow_guaranteed_msg_send_enabled() && (m.allow_guaranteed_msg_send_enabled is None ==> m.without_allow_guaranteed_msg_send_enabled() == m),
        m.without_allow_transacted_sessions_enabled().without_allow_transacted_sessions_enabled() == m.without_allow_transacted_sessions_enabled() && (m.allow_transacted_sessions_enabled is None ==> m.without_allow_transacted_sessions_enabled() == m),
        m.without_api_queue_management_copy_from_on_create_name().without_api_queue_management_copy_from_on_create_name() == m.without_api_queue_management_copy_from_on_create_name() && (m.api_queue_management_copy_from_on_create_name is None ==> m.without_api_queue_management_copy_from_on_create_name() == m),
        m.without_api_topic_endpoint_management_copy_from_on_create_name().without_api_topic_endpoint_management_copy_from_on_create_name() == m.without_api_topic_endpoint_management_copy_from_on_create_name() && (m.api_topic_endpoint_management_copy_from_on_create_name is None ==> m.without_api_topic_endpoint_management_copy_from_on_create_name() == m),
        m.without_client_profile_name().without_client_profile_name() == m.without_client_profile_name() && (m.client_profile_name is None ==> m.without_client_profile_name() == m),
        m.without_compression_enabled().without_compression_enabled() == m.without_compression_enabled() && (m.compression_enabled is None ==> m.without_compression_enabled() == m),
        m.without_eliding_delay().without_eliding_delay() == m.without_eliding_delay() && (m.eliding_delay is None ==> m.without_eliding_delay() == m),
        m.without_eliding_enabled().without_eliding_enabled() == m.without_eliding_enabled() && (m.eliding_enabled is None ==> m.without_eliding_enabled() == m),
        m.without_eliding_max_topic_count().without_eliding_max_topic_count() == m.without_eliding_max_topic_count() && (m.eliding_max_topic_count is None ==> m.without_eliding_max_topic_count() == m),
        m.without_event_client_provisioned_endpoint_spool_usage_threshold().without_event_client_provisioned_endpoint_spool_usage_threshold() == m.without_event_client_provisioned_endpoint_spool_usage_threshold() && (m.event_client_provisioned_endpoint_spool_usage_threshold is None ==> m.without_event_client_provisioned_endpoint_spool_usage_threshold() == m),
        m.without_event_connection_count_per_client_username_threshold().without_event_connection_count_per_client_username_threshold() == m.without_event_connection_count_per_client_username_threshold() && (m.event_connection_count_per_client_username_threshold is None ==> m.without_event_connection_count_per_client_username_threshold() == m),
        m.without_event_egress_flow_count_threshold().without_event_egress_flow_count_threshold() == m.without_event_egress_flow_count_threshold() && (m.event_egress_flow_count_threshold is None ==> m.without_event_egress_flow_count_threshold() == m),
        m.without_event_endpoint_count_per_client_username_threshold().without_event_endpoint_count_per_client_username_threshold() == m.without_event_endpoint_count_per_client_username_threshold() && (m.event_endpoint_count_per_client_username_threshold is None ==> m.without_event_endpoint_count_per_client_username_threshold() == m),
        m.without_event_ingress_flow_count_threshold().without_event_ingress_flow_count_threshold() == m.without_event_ingress_flow_count_threshold() && (m.event_ingress_flow_count_threshold is None ==> m.without_event_ingress_flow_count_threshold() == m),
        m.without_event_service_smf_connection_count_per_client_username_threshold().without_event_service_smf_connection_count_per_client_username_threshold() == m.without_event_service_smf_connection_count_per_client_username_threshold() && (m.event_service_smf_connection_count_per_client_username_threshold is None ==> m.without_event_service_smf_connection_count_per_client_username_threshold() == m),
        m.without_event_service_web_connection_count_per_client_username_threshold().without_event_service_web_connection_count_per_client_username_threshold() == m.without_event_service_web_connection_count_per_client_username_threshold() && (m.event_service_web_connection_count_per_client_username_threshold is None ==> m.without_event_service_web_connection_count_per_client_username_threshold() == m),
        m.without_event_subscription_count_threshold().without_event_subscription_count_threshold() == m.without_event_subscription_count_threshold() && (m.event_subscription_count_threshold is None ==> m.without_event_subscription_count_threshold() == m),
        m.without_event_transacted_session_count_threshold().without_event_transacted_session_count_threshold() == m.without_event_transacted_session_count_threshold() && (m.event_transacted_session_count_threshold is None ==> m.without_event_transacted_session_count_threshold() == m),
        m.without_event_transaction_count_threshold().without_event_transaction_count_threshold() == m.without_event_transaction_count_threshold() && (m.event_transaction_count_threshold is None ==> m.without_event_transaction_count_threshold() == m),
        m.without_max_connection_count_per_client_username().without_max_connection_count_per_client_username() == m.without_max_connection_count_per_client_username() && (m.max_connection_count_per_client_username is None ==> m.without_max_connection_count_per_client_username() == m),
        m.without_max_egress_flow_count().without_max_egress_flow_count() == m.without_max_egress_flow_count() && (m.max_egress_flow_count is None ==> m.without_max_egress_flow_count() == m),
        m.without_max_endpoint_count_per_client_username().without_max_endpoint_count_per_client_username() == m.without_max_endpoint_count_per_client_username() && (m.max_endpoint_count_per_client_username is None ==> m.without_max_endpoint_count_per_client_username() == m),
        m.without_max_ingress_flow_count().without_max_ingress_flow_count() == m.without_max_ingress_flow_count() && (m.max_ingress_flow_count is None ==> m.without_max_ingress_flow_count() == m),
        m.without_max_subscription_count().without_max_subscription_count() == m.without_max_subscription_count() && (m.max_subscription_count is None ==> m.without_max_subscription_count() == m),
        m.without_max_transacted_session_count().without_max_transacted_session_count() == m.without_max_transacted_session_count() && (m.max_transacted_session_count is None ==> m.without_max_transacted_session_count() == m),
        m.without_max_transaction_count().without_max_transaction_count() == m.without_max_transaction_count() && (m.max_transaction_count is None ==> m.without_max_transaction_count() == m),
        m.without_msg_vpn_name().without_msg_vpn_name() == m.without_msg_vpn_name() && (m.msg_vpn_name is None ==> m.without_msg_vpn_name() == m),
        m.without_queue_control1_max_depth().without_queue_control1_max_depth() == m.without_queue_control1_max_depth() && (m.queue_control1_max_depth is None ==> m.without_queue_control1_max_depth() == m),
        m.without_queue_control1_min_msg_burst().without_queue_control1_min_msg_burst() == m.without_queue_control1_min_msg_burst() && (m.queue_control1_min_msg_burst is None ==> m.without_queue_control1_min_msg_burst() == m),
        m.without_queue_direct1_max_depth().without_queue_direct1_max_depth() == m.without_queue_direct1_max_depth() && (m.queue_direct1_max_depth is None ==> m.without_queue_direct1_max_depth() == m),
        m.without_queue_direct1_min_msg_burst().without_queue_direct1_min_msg_burst() == m.without_queue_direct1_min_msg_burst() && (m.queue_direct1_min_msg_burst is None ==> m.without_queue_direct1_min_msg_burst() == m),
        m.without_queue_direct2_max_depth().without_queue_direct2_max_depth() == m.without_queue_direct2_max_depth() && (m.queue_direct2_max_depth is None ==> m.without_queue_direct2_max_depth() == m),
        m.without_queue_direct2_min_msg_burst().without_queue_direct2_min_msg_burst() == m.without_queue_direct2_min_msg_burst() && (m.queue_direct2_min_msg_burst is None ==> m.without_queue_direct2_min_msg_burst() == m),
        m.without_queue_direct3_max_depth().without_queue_direct3_max_depth() == m.without_queue_direct3_max_depth() && (m.queue_direct3_max_depth is None ==> m.without_queue_direct3_max_depth() == m),
        m.without_queue_direct3_min_msg_burst().without_queue_direct3_min_msg_burst() == m.without_queue_direct3_min_msg_burst() && (m.queue_direct3_min_msg_burst is None ==> m.without_queue_direct3_min_msg_burst() == m),
        m.without_queue_guaranteed1_max_depth().without_queue_guaranteed1_max_depth() == m.without_queue_guaranteed1_max_depth() && (m.queue_guaranteed1_max_depth is None ==> m.without_queue_guaranteed1_max_depth() == m),
        m.without_queue_guaranteed1_min_msg_burst().without_queue_guaranteed1_min_msg_burst() == m.without_queue_guaranteed1_min_msg_burst() && (m.queue_guaranteed1_min_msg_burst is None ==> m.without_queue_guaranteed1_min_msg_burst() == m),
        m.without_reject_msg_to_sender_on_no_subscription_match_enabled().without_reject_msg_to_sender_on_no_subscription_match_enabled() == m.without_reject_msg_to_sender_on_no_subscription_match_enabled() && (m.reject_msg_to_sender_on_no_subscription_match_enabled is None ==> m.without_reject_msg_to_sender_on_no_subscription_match_enabled() == m),
        m.without_replication_allow_client_connect_when_standby_enabled().without_replication_allow_client_connect_when_standby_enabled() == m.without_replication_allow_client_connect_when_standby_enabled() && (m.replication_allow_client_connect_when_standby_enabled is None ==> m.without_replication_allow_client_connect_when_standby_enabled() == m),
        m.without_service_smf_max_connection_count_per_client_username().without_service_smf_max_connection_count_per_client_username() == m.without_service_smf_max_connection_count_per_client_username() && (m.service_smf_max_connection_count_per_client_username is None ==> m.without_service_smf_max_connection_count_per_client_username() == m),
        m.without_service_web_inactive_timeout().without_service_web_inactive_timeout() == m.without_service_web_inactive_timeout() && (m.service_web_inactive_timeout is None ==> m.without_service_web_inactive_timeout() == m),
        m.without_service_web_max_connection_count_per_client_username().without_service_web_max_connection_count_per_client_username() == m.without_service_web_max_connection_count_per_client_username() && (m.service_web_max_connection_count_per_client_username is None ==> m.without_service_web_max_connection_count_per_client_username() == m),
        m.without_service_web_max_payload().without_service_web_max_payload() == m.without_service_web_max_payload() && (m.service_web_max_payload is None ==> m.without_service_web_max_payload() == m),
        m.without_tcp_congestion_window_size().without_tcp_congestion_window_size() == m.without_tcp_congestion_window_size() && (m.tcp_congestion_window_size is None ==> m.without_tcp_congestion_window_size() == m),
        m.without_tcp_keepalive_count().without_tcp_keepalive_count() == m.without_tcp_keepalive_count() && (m.tcp_keepalive_count is None ==> m.without_tcp_keepalive_count() == m),
        m.without_tcp_keepalive_idle_time().without_tcp_keepalive_idle_time() == m.without_tcp_keepalive_idle_time() && (m.tcp_keepalive_idle_time is None ==> m.without_tcp_keepalive_idle_time() == m),
        m.without_tcp_keepalive_interval().without_tcp_keepalive_interval() == m.without_tcp_keepalive_interval() && (m.tcp_keepalive_interval is None ==> m.without_tcp_keepalive_interval() == m),
        m.without_tcp_max_segment_size().without_tcp_max_segment_size() == m.without_tcp_max_segment_size() && (m.tcp_max_segment_size is None ==> m.without_tcp_max_segment_size() == m),
        m.without_tcp_max_window_size().without_tcp_max_window_size() == m.without_tcp_max_window_size() && (m.tcp_max_window_size is None ==> m.without_tcp_max_window_size() == m),
        m.without_tls_allow_downgrade_to_plain_text_enabled().without_tls_allow_downgrade_to_plain_text_enabled() == m.without_tls_allow_downgrade_to_plain_text_enabled() && (m.tls_allow_downgrade_to_plain_text_enabled is None ==> m.without_tls_allow_downgrade_to_plain_text_enabled() == m),
{
}

/// Writing the value an attribute already holds changes nothing.
pub proof fn lemma_msg_vpn_client_profile_rewrite_is_no_op(m: MsgVpnClientProfileView, flag: bool, text: Seq<char>, number: i64, by_percent: EventThresholdByPercent, threshold: EventThreshold, small: i32)
    ensures
        m.allow_bridge_connections_enabled == Some(flag) ==> m.with_allow_bridge_connections_enabled(flag) == m,
        m.allow_cut_through_forwarding_enabled == Some(flag) ==> m.with_allow_cut_through_forwarding_enabled(flag) == m,
        m.allow_guaranteed_endpoint_create_enabled == Some(flag) ==> m.with_allow_guaranteed_endpoint_create_enabled(flag) == m,
        m.allow_guaranteed_msg_receive_enabled == Some(flag) ==> m.with_allow_guaranteed_msg_receive_enabled(flag) == m,
        m.allow_guaranteed_msg_send_enabled == Some(flag) ==> m.with_allow_guaranteed_msg_send_enabled(flag) == m,
        m.allow_transacted_sessions_enabled == Some(flag) ==> m.with_allow_transacted_sessions_enabled(flag) == m,
        m.api_queue_management_copy_from_on_create_name == Some(text) ==> m.with_api_queue_management_copy_from_on_create_name(text) == m,
        m.api_topic_endpoint_management_copy_from_on_create_name == Some(text) ==> m.with_api_topic_endpoint_management_copy_from_on_create_name(text) == m,
        m.client_profile_name == Some(text) ==> m.with_client_profile_name(text) == m,
        m.compression_enabled == Some(flag) ==> m.with_compression_enabled(flag) == m,
        m.eliding_delay == Some(number) ==> m.with_eliding_delay(number) == m,
        m.eliding_enabled == Some(flag) ==> m.with_eliding_enabled(flag) == m,
        m.eliding_max_topic_count == Some(number) ==> m.with_eliding_max_topic_count(number) == m,
        m.event_client_provisioned_endpoint_spool_usage_threshold == Some(by_percent) ==> m.with_event_client_provisioned_endpoint_spool_usage_threshold(by_percent) == m,
        m.event_connection_count_per_client_username_threshold == Some(threshold) ==> m.with_event_connection_count_per_client_username_threshold(threshold) == m,
        m.event_egress_flow_count_threshold == Some(threshold) ==> m.with_event_egress_flow_count_threshold(threshold) == m,
        m.event_endpoint_count_per_client_username_threshold == Some(threshold) ==> m.with_event_endpoint_count_per_client_username_threshold(threshold) == m,
        m.event_ingress_flow_count_threshold == Some(threshold) ==> m.with_event_ingress_flow_count_threshold(threshold) == m,
        m.event_service_smf_connection_count_per_client_username_threshold == Some(threshold) ==> m.with_event_service_smf_connection_count_per_client_username_threshold(threshold) == m,
        m.event_service_web_connection_count_per_client_username_threshold == Some(threshold) ==> m.with_event_service_web_connection_count_per_client_username_threshold(threshold) == m,
        m.event_subscription_count_threshold == Some(threshold) ==> m.with_event_subscription_count_threshold(threshold) == m,
        m.event_transacted_session_count_threshold == Some(threshold) ==> m.with_event_transacted_session_count_threshold(threshold) == m,
        m.event_transaction_count_threshold == Some(threshold) ==> m.with_event_transaction_count_threshold(threshold) == m,
        m.max_connection_count_per_client_username == Some(number) ==> m.with_max_connection_count_per_client_username(number) == m,
        m.max_egress_flow_count == Some(number) ==> m.with_max_egress_flow_count(number) == m,
        m.max_endpoint_count_per_client_username == Some(number) ==> m.with_max_endpoint_count_per_client_username(number) == m,
        m.max_ingress_flow_count == Some(number) ==> m.with_max_ingress_flow_count(number) == m,
        m.max_subscription_count == Some(number) ==> m.with_max_subscription_count(number) == m,
        m.max_transacted_session_count == Some(number) ==> m.with_max_transacted_session_count(number) == m,
        m.max_transaction_count == Some(number) ==> m.with_max_transaction_count(number) == m,
        m.msg_vpn_name == Some(text) ==> m.with_msg_vpn_name(text) == m,
        m.queue_control1_max_depth == Some(small) ==> m.with_queue_control1_max_depth(small) == m,
        m.queue_control1_min_msg_burst == Some(small) ==> m.with_queue_control1_min_msg_burst(small) == m,
        m.queue_direct1_max_depth == Some(small) ==> m.with_queue_direct1_max_depth(small) == m,
        m.queue_direct1_min_msg_burst == Some(small) ==> m.with_queue_direct1_min_msg_burst(small) == m,
        m.queue_direct2_max_depth == Some(small) ==> m.with_queue_direct2_max_depth(small) == m,
        m.queue_direct2_min_msg_burst == Some(small) ==> m.with_queue_direct2_min_msg_burst(small) == m,
        m.queue_direct3_max_depth == Some(small) ==> m.with_queue_direct3_max_depth(small) == m,
        m.queue_direct3_min_msg_burst == Some(small) ==> m.with_queue_direct3_min_msg_burst(small) == m,
        m.queue_guaranteed1_max_depth == Some(small) ==> m.with_queue_guaranteed1_max_depth(small) == m,
        m.queue_guaranteed1_min_msg_burst == Some(small) ==> m.with_queue_guaranteed1_min_msg_burst(small) == m,
        m.reject_msg_to_sender_on_no_subscription_match_enabled == Some(flag) ==> m.with_reject_msg_to_sender_on_no_subscription_match_enabled(flag) == m,
        m.replication_allow_client_connect_when_standby_enabled == Some(flag) ==> m.with_replication_allow_client_connect_when_standby_enabled(flag) == m,
        m.service_smf_max_connection_count_per_client_username == Some(number) ==> m.with_service_smf_max_connection_count_per_client_username(number) == m,
        m.service_web_inactive_timeout == Some(number) ==> m.with_service_web_inactive_timeout(number) == m,
        m.service_web_max_connection_count_per_client_username == Some(number) ==> m.with_service_web_max_connection_count_per_client_username(number) == m,
        m.service_web_max_payload == Some(number) ==> m.with_service_web_max_payload(number) == m,
        m.tcp_congestion_window_size == Some(number) ==> m.with_tcp_congestion_window_size(number) == m,
        m.tcp_keepalive_count == Some(number) ==> m.with_tcp_keepalive_count(number) == m,
        m.tcp_keepalive_idle_time == Some(number) ==> m.with_tcp_keepalive_idle_time(number) == m,
        m.tcp_keepalive_interval == Some(number) ==> m.with_tcp_keepalive_interval(number) == m,
        m.tcp_max_segment_size == Some(number) ==> m.with_tcp_max_segment_size(number) == m,
        m.tcp_max_window_size == Some(number) ==> m.with_tcp_max_window_size(number) == m,
        m.tls_allow_downgrade_to_plain_text_enabled == Some(flag) ==> m.with_tls_allow_downgrade_to_plain_text_enabled(flag) == m,
{
}

/// The name of one attribute of a [`MsgVpnClientProfile`].
pub enum MsgVpnClientProfileAttribute {
    /// `allowBridgeConnectionsEnabled`
    AllowBridgeConnectionsEnabled,
    /// `allowCutThroughForwardingEnabled`
    AllowCutThroughForwardingEnabled,
    /// `allowGuaranteedEndpointCreateEnabled`
    AllowGuaranteedEndpointCreateEnabled,
    /// `allowGuaranteedMsgReceiveEnabled`
    AllowGuaranteedMsgReceiveEnabled,
    /// `allowGuaranteedMsgSendEnabled`
    AllowGuaranteedMsgSendEnabled,
    /// `allowTransactedSessionsEnabled`
    AllowTransactedSessionsEnabled,
    /// `apiQueueManagementCopyFromOnCreateName`
    ApiQueueManagementCopyFromOnCreateName,
    /// `apiTopicEndpointManagementCopyFromOnCreateName`
    ApiTopicEndpointManagementCopyFromOnCreateName,
    /// `clientProfileName`
    ClientProfileName,
    /// `compressionEnabled`
    CompressionEnabled,
    /// `elidingDelay`
    ElidingDelay,
    /// `elidingEnabled`
    ElidingEnabled,
    /// `elidingMaxTopicCount`
    ElidingMaxTopicCount,
    /// `eventClientProvisionedEndpointSpoolUsageThreshold`
    EventClientProvisionedEndpointSpoolUsageThreshold,
    /// `eventConnectionCountPerClientUsernameThreshold`
    EventConnectionCountPerClientUsernameThreshold,
    /// `eventEgressFlowCountThreshold`
    EventEgressFlowCountThreshold,
    /// `eventEndpointCountPerClientUsernameThreshold`
    EventEndpointCountPerClientUsernameThreshold,
    /// `eventIngressFlowCountThreshold`
    EventIngressFlowCountThreshold,
    /// `eventServiceSmfConnectionCountPerClientUsernameThreshold`
    EventServiceSmfConnectionCountPerClientUsernameThreshold,
    /// `eventServiceWebConnectionCountPerClientUsernameThreshold`
    EventServiceWebConnectionCountPerClientUsernameThreshold,
    /// `eventSubscriptionCountThreshold`
    EventSubscriptionCountThreshold,
    /// `eventTransactedSessionCountThreshold`
    EventTransactedSessionCountThreshold,
    /// `eventTransactionCountThreshold`
    EventTransactionCountThreshold,
    /// `maxConnectionCountPerClientUsername`
    MaxConnectionCountPerClientUsername,
    /// `maxEgressFlowCount`
    MaxEgressFlowCount,
    /// `maxEndpointCountPerClientUsername`
    MaxEndpointCountPerClientUsername,
    /// `maxIngressFlowCount`
    MaxIngressFlowCount,
    /// `maxSubscriptionCount`
    MaxSubscriptionCount,
    /// `maxTransactedSessionCount`
    MaxTransactedSessionCount,
    /// `maxTransactionCount`
    MaxTransactionCount,
    /// `msgVpnName`
    MsgVpnName,
    /// `queueControl1MaxDepth`
    QueueControl1MaxDepth,
    /// `queueControl1MinMsgBurst`
    QueueControl1MinMsgBurst,
    /// `queueDirect1MaxDepth`
    QueueDirect1MaxDepth,
    /// `queueDirect1MinMsgBurst`
    QueueDirect1MinMsgBurst,
    /// `queueDirect2MaxDepth`
    QueueDirect2MaxDepth,
    /// `queueDirect2MinMsgBurst`
    QueueDirect2MinMsgBurst,
    /// `queueDirect3MaxDepth`
    QueueDirect3MaxDepth,
    /// `queueDirect3MinMsgBurst`
    QueueDirect3MinMsgBurst,
    /// `queueGuaranteed1MaxDepth`
    QueueGuaranteed1MaxDepth,
    /// `queueGuaranteed1MinMsgBurst`
    QueueGuaranteed1MinMsgBurst,
    /// `rejectMsgToSenderOnNoSubscriptionMatchEnabled`
    RejectMsgToSenderOnNoSubscriptionMatchEnabled,
    /// `replicationAllowClientConnectWhenStandbyEnabled`
    ReplicationAllowClientConnectWhenStandbyEnabled,
    /// `serviceSmfMaxConnectionCountPerClientUsername`
    ServiceSmfMaxConnectionCountPerClientUsername,
    /// `serviceWebInactiveTimeout`
    ServiceWebInactiveTimeout,
    /// `serviceWebMaxConnectionCountPerClientUsername`
    ServiceWebMaxConnectionCountPerClientUsername,
    /// `serviceWebMaxPayload`
    ServiceWebMaxPayload,
    /// `tcpCongestionWindowSize`
    TcpCongestionWindowSize,
    /// `tcpKeepaliveCount`
    TcpKeepaliveCount,
    /// `tcpKeepaliveIdleTime`
    TcpKeepaliveIdleTime,
    /// `tcpKeepaliveInterval`
    TcpKeepaliveInterval,
    /// `tcpMaxSegmentSize`
    TcpMaxSegmentSize,
    /// `tcpMaxWindowSize`
    TcpMaxWindowSize,
    /// `tlsAllowDowngradeToPlainTextEnabled`
    TlsAllowDowngradeToPlainTextEnabled,
}

impl MsgVpnClientProfileView {
    /// The value of the named attribute, present or absent.
    pub open spec fn attribute(self, a: MsgVpnClientProfileAttribute) -> AttributeValue {
        match a {
            MsgVpnClientProfileAttribute::AllowBridgeConnectionsEnabled => AttributeValue::Flag(self.allow_bridge_connections_enabled),
            MsgVpnClientProfileAttribute::AllowCutThroughForwardingEnabled => AttributeValue::Flag(self.allow_cut_through_forwarding_enabled),
            MsgVpnClientProfileAttribute::AllowGuaranteedEndpointCreateEnabled => AttributeValue::Flag(self.allow_guaranteed_endpoint_create_enabled),
            MsgVpnClientProfileAttribute::AllowGuaranteedMsgReceiveEnabled => AttributeValue::Flag(self.allow_guaranteed_msg_receive_enabled),
            MsgVpnClientProfileAttribute::AllowGuaranteedMsgSendEnabled => AttributeValue::Flag(self.allow_guaranteed_msg_send_enabled),
            MsgVpnClientProfileAttribute::AllowTransactedSessionsEnabled => AttributeValue::Flag(self.allow_transacted_sessions_enabled),
            MsgVpnClientProfileAttribute::ApiQueueManagementCopyFromOnCreateName => AttributeValue::Text(self.api_queue_management_copy_from_on_create_name),
            MsgVpnClientProfileAttribute::ApiTopicEndpointManagementCopyFromOnCreateName => AttributeValue::Text(self.api_topic_endpoint_management_copy_from_on_create_name),
            MsgVpnClientProfileAttribute::ClientProfileName => AttributeValue::Text(self.client_profile_name),
            MsgVpnClientProfileAttribute::CompressionEnabled => AttributeValue::Flag(self.compression_enabled),
            MsgVpnClientProfileAttribute::ElidingDelay => AttributeValue::Int64(self.eliding_delay),
            MsgVpnClientProfileAttribute::ElidingEnabled => AttributeValue::Flag(self.eliding_enabled),
            MsgVpnClientProfileAttribute::ElidingMaxTopicCount => AttributeValue::Int64(self.eliding_max_topic_count),
            MsgVpnClientProfileAttribute::EventClientProvisionedEndpointSpoolUsageThreshold => AttributeValue::ThresholdByPercent(self.event_client_provisioned_endpoint_spool_usage_threshold),
            MsgVpnClientProfileAttribute::EventConnectionCountPerClientUsernameThreshold => AttributeValue::Threshold(self.event_connection_count_per_client_username_threshold),
            MsgVpnClientProfileAttribute::EventEgressFlowCountThreshold => AttributeValue::Threshold(self.event_egress_flow_count_threshold),
            MsgVpnClientProfileAttribute::EventEndpointCountPerClientUsernameThreshold => AttributeValue::Threshold(self.event_endpoint_count_per_client_username_threshold),
            MsgVpnClientProfileAttribute::EventIngressFlowCountThreshold => AttributeValue::Threshold(self.event_ingress_flow_count_threshold),
            MsgVpnClientProfileAttribute::EventServiceSmfConnectionCountPerClientUsernameThreshold => AttributeValue::Threshold(self.event_service_smf_connection_count_per_client_username_threshold),
            MsgVpnClientProfileAttribute::EventServiceWebConnectionCountPerClientUsernameThreshold => AttributeValue::Threshold(self.event_service_web_connection_count_per_client_username_threshold),
            MsgVpnClientProfileAttribute::EventSubscriptionCountThreshold => AttributeValue::Threshold(self.event_subscription_count_threshold),
            MsgVpnClientProfileAttribute::EventTransactedSessionCountThreshold => AttributeValue::Threshold(self.event_transacted_session_count_threshold),
            MsgVpnClientProfileAttribute::EventTransactionCountThreshold => AttributeValue::Threshold(self.event_transaction_count_threshold),
            MsgVpnClientProfileAttribute::MaxConnectionCountPerClientUsername => AttributeValue::Int64(self.max_connection_count_per_client_username),
            MsgVpnClientProfileAttribute::MaxEgressFlowCount => AttributeValue::Int64(self.max_egress_flow_count),
            MsgVpnClientProfileAttribute::MaxEndpointCountPerClientUsername => AttributeValue::Int64(self.max_endpoint_count_per_client_username),
            MsgVpnClientProfileAttribute::MaxIngressFlowCount => AttributeValue::Int64(self.max_ingress_flow_count),
            MsgVpnClientProfileAttribute::MaxSubscriptionCount => AttributeValue::Int64(self.max_subscription_count),
            MsgVpnClientProfileAttribute::MaxTransactedSessionCount => AttributeValue::Int64(self.max_transacted_session_count),
            MsgVpnClientProfileAttribute::MaxTransactionCount => AttributeValue::Int64(self.max_transaction_count),
            MsgVpnClientProfileAttribute::MsgVpnName => AttributeValue::Text(self.msg_vpn_name),
            MsgVpnClientProfileAttribute::QueueControl1MaxDepth => AttributeValue::Int32(self.queue_control1_max_depth),
            MsgVpnClientProfileAttribute::QueueControl1MinMsgBurst => AttributeValue::Int32(self.queue_control1_min_msg_burst),
            MsgVpnClientProfileAttribute::QueueDirect1MaxDepth => AttributeValue::Int32(self.queue_direct1_max_depth),
            MsgVpnClientProfileAttribute::QueueDirect1MinMsgBurst => AttributeValue::Int32(self.queue_direct1_min_msg_burst),
            MsgVpnClientProfileAttribute::QueueDirect2MaxDepth => AttributeValue::Int32(self.queue_direct2_max_depth),
            MsgVpnClientProfileAttribute::QueueDirect2MinMsgBurst => AttributeValue::Int32(self.queue_direct2_min_msg_burst),
            MsgVpnClientProfileAttribute::QueueDirect3MaxDepth => AttributeValue::Int32(self.queue_direct3_max_depth),
            MsgVpnClientProfileAttribute::QueueDirect3MinMsgBurst => AttributeValue::Int32(self.queue_direct3_min_msg_burst),
            MsgVpnClientProfileAttribute::QueueGuaranteed1MaxDepth => AttributeValue::Int32(self.queue_guaranteed1_max_depth),
            MsgVpnClientProfileAttribute::QueueGuaranteed1MinMsgBurst => AttributeValue::Int32(self.queue_guaranteed1_min_msg_burst),
            MsgVpnClientProfileAttribute::RejectMsgToSenderOnNoSubscriptionMatchEnabled => AttributeValue::Flag(self.reject_msg_to_sender_on_no_subscription_match_enabled),
            MsgVpnClientProfileAttribute::ReplicationAllowClientConnectWhenStandbyEnabled => AttributeValue::Flag(self.replication_allow_client_connect_when_standby_enabled),
            MsgVpnClientProfileAttribute::ServiceSmfMaxConnectionCountPerClientUsername => AttributeValue::Int64(self.service_smf_max_connection_count_per_client_username),
            MsgVpnClientProfileAttribute::ServiceWebInactiveTimeout => AttributeValue::Int64(self.service_web_inactive_timeout),
            MsgVpnClientProfileAttribute::ServiceWebMaxConnectionCountPerClientUsername => AttributeValue::Int64(self.service_web_max_connection_count_per_client_username),
            MsgVpnClientProfileAttribute::ServiceWebMaxPayload => AttributeValue::Int64(self.service_web_max_payload),
            MsgVpnClientProfileAttribute::TcpCongestionWindowSize => AttributeValue::Int64(self.tcp_congestion_window_size),
            MsgVpnClientProfileAttribute::TcpKeepaliveCount => AttributeValue::Int64(self.tcp_keepalive_count),
            MsgVpnClientProfileAttribute::TcpKeepaliveIdleTime => AttributeValue::Int64(self.tcp_keepalive_idle_time),
            MsgVpnClientProfileAttribute::TcpKeepaliveInterval => AttributeValue::Int64(self.tcp_keepalive_interval),
            MsgVpnClientProfileAttribute::TcpMaxSegmentSize => AttributeValue::Int64(self.tcp_max_segment_size),
            MsgVpnClientProfileAttribute::TcpMaxWindowSize => AttributeValue::Int64(self.tcp_max_window_size),
            MsgVpnClientProfileAttribute::TlsAllowDowngradeToPlainTextEnabled => AttributeValue::Flag(self.tls_allow_downgrade_to_plain_text_enabled),
        }
    }
}

/// Writing an attribute gives it the value written and leaves every other attribute
/// exactly as it was.
#[verifier::rlimit(100)]
pub proof fn lemma_msg_vpn_client_profile_write_changes_only_its_attribute(m: MsgVpnClientProfileView, flag: bool, text: Seq<char>, number: i64, by_percent: EventThresholdByPercent, threshold: EventThreshold, small: i32)
    ensures
        m.with_allow_bridge_connections_enabled(flag).attribute(MsgVpnClientProfileAttribute::AllowBridgeConnectionsEnabled) == AttributeValue::Flag(Some(flag)),
        forall|a: MsgVpnClientProfileAttribute| a != MsgVpnClientProfileAttribute::AllowBridgeConnectionsEnabled ==> #[trigger] m.with_allow_bridge_connections_enabled(flag).attribute(a) == m.attribute(a),
        m.with_allow_cut_through_forwarding_enabled(flag).attribute(MsgVpnClientProfileAttribute::AllowCutThroughForwardingEnabled) == AttributeValue::Flag(Some(flag)),
        forall|a: MsgVpnClientProfileAttribute| a != MsgVpnClientProfileAttribute::AllowCutThroughForwardingEnabled ==> #[trigger] m.with_allow_cut_through_forwarding_enabled(flag).attribute(a) == m.attribute(a),
        m.with_allow_guaranteed_endpoint_create_enabled(flag).attribute(MsgVpnClientProfileAttribute::AllowGuaranteedEndpointCreateEnabled) == AttributeValue::Flag(Some(flag)),
        forall|a: MsgVpnClientProfileAttribute| a != MsgVpnClientProfileAttribute::AllowGuaranteedEndpointCreateEnabled ==> #[trigger] m.with_allow_guaranteed_endpoint_create_enabled(flag).attribute(a) == m.attribute(a),
        m.with_allow_guaranteed_msg_receive_enabled(flag).attribute(MsgVpnClientProfileAttribute::AllowGuaranteedMsgReceiveEnabled) == AttributeValue::Flag(Some(flag)),
        forall|a: MsgVpnClientProfileAttribute| a != MsgVpnClientProfileAttribute::AllowGuaranteedMsgReceiveEnabled ==> #[trigger] m.with_allow_guaranteed_msg_receive_enabled(flag).attribute(a) == m.attribute(a),
        m.with_allow_guaranteed_msg_send_enabled(flag).attribute(MsgVpnClientProfileAttribute::AllowGuaranteedMsgSendEnabled) == AttributeValue::Flag(Some(flag)),
        forall|a: MsgVpnClientProfileAttribute| a != MsgVpnClientProfileAttribute::AllowGuaranteedMsgSendEnabled ==> #[trigger] m.with_allow_guaranteed_msg_send_enabled(flag).attribute(a) == m.attribute(a),
        m.with_allow_transacted_sessions_enabled(flag).attribute(MsgVpnClientProfileAttribute::AllowTransactedSessionsEnabled) == AttributeValue::Flag(Some(flag)),
        forall|a: MsgVpnClientProfileAttribute| a != MsgVpnClientProfileAttribute::AllowTransactedSessionsEnabled ==> #[trigger] m.with_allow_transacted_sessions_enabled(flag).attribute(a) == m.attribute(a),
        m.with_api_queue_management_copy_from_on_create_name(text).attribute(MsgVpnClientProfileAttribute::ApiQueueManagementCopyFromOnCreateName) == AttributeValue::Text(Some(text)),
        forall|a: MsgVpnClientProfileAttribute| a != MsgVpnClientProfileAttribute::ApiQueueManagementCopyFromOnCreateName ==> #[trigger] m.with_api_queue_management_copy_from_on_create_name(text).attribute(a) == m.attribute(a),
        m.with_api_topic_endpoint_management_copy_from_on_create_name(text).attribute(MsgVpnClientProfileAttribute::ApiTopicEndpointManagementCopyFromOnCreateName) == AttributeValue::Text(Some(text)),
        forall|a: MsgVpnClientProfileAttribute| a != MsgVpnClientProfileAttribute::ApiTopicEndpointManagementCopyFromOnCreateName ==> #[trigger] m.with_api_topic_endpoint_management_copy_from_on_create_name(text).attribute(a) == m.attribute(a),
        m.with_client_profile_name(text).attribute(MsgVpnClientProfileAttribute::ClientProfileName) == AttributeValue::Text(Some(text)),
        forall|a: MsgVpnClientProfileAttribute| a != MsgVpnClientProfileAttribute::ClientProfileName ==> #[trigger] m.with_client_profile_name(text).attribute(a) == m.attribute(a),
        m.with_compression_enabled(flag).attribute(MsgVpnClientProfileAttribute::CompressionEnabled) == AttributeValue::Flag(Some(flag)),
        forall|a: MsgVpnClientProfileAttribute| a != MsgVpnClientProfileAttribute::CompressionEnabled ==> #[trigger] m.with_compression_enabled(flag).attribute(a) == m.attribute(a),
        m.with_eliding_delay(number).attribute(MsgVpnClientProfileAttribute::ElidingDelay) == AttributeValue::Int64(Some(number)),
        forall|a: MsgVpnClientProfileAttribute| a != MsgVpnClientProfileAttribute::ElidingDelay ==> #[trigger] m.with_eliding_delay(number).attribute(a) == m.attribute(a),
        m.with_eliding_enabled(flag).attribute(MsgVpnClientProfileAttribute::ElidingEnabled) == AttributeValue::Flag(Some(flag)),
        forall|a: MsgVpnClientProfileAttribute| a != MsgVpnClientProfileAttribute::ElidingEnabled ==> #[trigger] m.with_eliding_enabled(flag).attribute(a) == m.attribute(a),
        m.with_eliding_max_topic_count(number).attribute(MsgVpnClientProfileAttribute::ElidingMaxTopicCount) == AttributeValue::Int64(Some(number)),
        forall|a: MsgVpnClientProfileAttribute| a != MsgVpnClientProfileAttribute::ElidingMaxTopicCount ==> #[trigger] m.with_eliding_max_topic_count(number).attribute(a) == m.attribute(a),
        m.with_event_client_provisioned_endpoint_spool_usage_threshold(by_percent).attribute(MsgVpnClientProfileAttribute::EventClientProvisionedEndpointSpoolUsageThreshold) == AttributeValue::ThresholdByPercent(Some(by_percent)),
        forall|a: MsgVpnClientProfileAttribute| a != MsgVpnClientProfileAttribute::EventClientProvisionedEndpointSpoolUsageThreshold ==> #[trigger] m.with_event_client_provisioned_endpoint_spool_usage_threshold(by_percent).attribute(a) == m.attribute(a),
        m.with_event_connection_count_per_client_username_threshold(threshold).attribute(MsgVpnClientProfileAttribute::EventConnectionCountPerClientUsernameThreshold) == AttributeValue::Threshold(Some(threshold)),
        forall|a: MsgVpnClientProfileAttribute| a != MsgVpnClientProfileAttribute::EventConnectionCountPerClientUsernameThreshold ==> #[trigger] m.with_event_connection_count_per_client_username_threshold(threshold).attribute(a) == m.attribute(a),
        m.with_event_egress_flow_count_threshold(threshold).attribute(MsgVpnClientProfileAttribute::EventEgressFlowCountThreshold) == AttributeValue::Threshold(Some(threshold)),
        forall|a: MsgVpnClientProfileAttribute| a != MsgVpnClientProfileAttribute::EventEgressFlowCountThreshold ==> #[trigger] m.with_event_egress_flow_count_threshold(threshold).attribute(a) == m.attribute(a),
        m.with_event_endpoint_count_per_client_username_threshold(threshold).attribute(MsgVpnClientProfileAttribute::EventEndpointCountPerClientUsernameThreshold) == AttributeValue::Threshold(Some(threshold)),
        forall|a: MsgVpnClientProfileAttribute| a != MsgVpnClientProfileAttribute::EventEndpointCountPerClientUsernameThreshold ==> #[trigger] m.with_event_endpoint_count_per_client_username_threshold(threshold).attribute(a) == m.attribute(a),
        m.with_event_ingress_flow_count_threshold(threshold).attribute(MsgVpnClientProfileAttribute::EventIngressFlowCountThreshold) == AttributeValue::Threshold(Some(threshold)),
        forall|a: MsgVpnClientProfileAttribute| a != MsgVpnClientProfileAttribute::EventIngressFlowCountThreshold ==> #[trigger] m.with_event_ingress_flow_count_threshold(threshold).attribute(a) == m.attribute(a),
        m.with_event_service_smf_connection_count_per_client_username_threshold(threshold).attribute(MsgVpnClientProfileAttribute::EventServiceSmfConnectionCountPerClientUsernameThreshold) == AttributeValue::Threshold(Some(threshold)),
        forall|a: MsgVpnClientProfileAttribute| a != MsgVpnClientProfileAttribute::EventServiceSmfConnectionCountPerClientUsernameThreshold ==> #[trigger] m.with_event_service_smf_connection_count_per_client_username_threshold(threshold).attribute(a) == m.attribute(a),
        m.with_event_service_web_connection_count_per_client_username_threshold(threshold).attribute(MsgVpnClientProfileAttribute::EventServiceWebConnectionCountPerClientUsernameThreshold) == AttributeValue::Threshold(Some(threshold)),
        forall|a: MsgVpnClientProfileAttribute| a != MsgVpnClientProfileAttribute::EventServiceWebConnectionCountPerClientUsernameThreshold ==> #[trigger] m.with_event_service_web_connection_count_per_client_username_threshold(threshold).attribute(a) == m.attribute(a),
        m.with_event_subscription_count_threshold(threshold).attribute(MsgVpnClientProfileAttribute::EventSubscriptionCountThreshold) == AttributeValue::Threshold(Some(threshold)),
        forall|a: MsgVpnClientProfileAttribute| a != MsgVpnClientProfileAttribute::EventSubscriptionCountThreshold ==> #[trigger] m.with_event_subscription_count_threshold(threshold).attribute(a) == m.attribute(a),
        m.with_event_transacted_session_count_threshold(threshold).attribute(MsgVpnClientProfileAttribute::EventTransactedSessionCountThreshold) == AttributeValue::Threshold(Some(threshold)),
        forall|a: MsgVpnClientProfileAttribute| a != MsgVpnClientProfileAttribute::EventTransactedSessionCountThreshold ==> #[trigger] m.with_event_transacted_session_count_threshold(threshold).attribute(a) == m.attribute(a),
        m.with_event_transaction_count_threshold(threshold).attribute(MsgVpnClientProfileAttribute::EventTransactionCountThreshold) == AttributeValue::Threshold(Some(threshold)),
        forall|a: MsgVpnClientProfileAttribute| a != MsgVpnClientProfileAttribute::EventTransactionCountThreshold ==> #[trigger] m.with_event_transaction_count_threshold(threshold).attribute(a) == m.attribute(a),
        m.with_max_connection_count_per_client_username(number).attribute(MsgVpnClientProfileAttribute::MaxConnectionCountPerClientUsername) == AttributeValue::Int64(Some(number)),
        forall|a: MsgVpnClientProfileAttribute| a != MsgVpnClientProfileAttribute::MaxConnectionCountPerClientUsername ==> #[trigger] m.with_max_connection_count_per_client_username(number).attribute(a) == m.attribute(a),
        m.with_max_egress_flow_count(number).attribute(MsgVpnClientProfileAttribute::MaxEgressFlowCount) == AttributeValue::Int64(Some(number)),
        forall|a: MsgVpnClientProfileAttribute| a != MsgVpnClientProfileAttribute::MaxEgressFlowCount ==> #[trigger] m.with_max_egress_flow_count(number).attribute(a) == m.attribute(a),
        m.with_max_endpoint_count_per_client_username(number).attribute(MsgVpnClientProfileAttribute::MaxEndpointCountPerClientUsername) == AttributeValue::Int64(Some(number)),
        forall|a: MsgVpnClientProfileAttribute| a != MsgVpnClientProfileAttribute::MaxEndpointCountPerClientUsername ==> #[trigger] m.with_max_endpoint_count_per_client_username(number).attribute(a) == m.attribute(a),
        m.with_max_ingress_flow_count(number).attribute(MsgVpnClientProfileAttribute::MaxIngressFlowCount) == AttributeValue::Int64(Some(number)),
        forall|a: MsgVpnClientProfileAttribute| a != MsgVpnClientProfileAttribute::MaxIngressFlowCount ==> #[trigger] m.with_max_ingress_flow_count(number).attribute(a) == m.attribute(a),
        m.with_max_subscription_count(number).attribute(MsgVpnClientProfileAttribute::MaxSubscriptionCount) == AttributeValue::Int64(Some(number)),
        forall|a: MsgVpnClientProfileAttribute| a != MsgVpnClientProfileAttribute::MaxSubscriptionCount ==> #[trigger] m.with_max_subscription_count(number).attribute(a) == m.attribute(a),
        m.with_max_transacted_session_count(number).attribute(MsgVpnClientProfileAttribute::MaxTransactedSessionCount) == AttributeValue::Int64(Some(number)),
        forall|a: MsgVpnClientProfileAttribute| a != MsgVpnClientProfileAttribute::MaxTransactedSessionCount ==> #[trigger] m.with_max_transacted_session_count(number).attribute(a) == m.attribute(a),
        m.with_max_transaction_count(number).attribute(MsgVpnClientProfileAttribute::MaxTransactionCount) == AttributeValue::Int64(Some(number)),
        forall|a: MsgVpnClientProfileAttribute| a != MsgVpnClientProfileAttribute::MaxTransactionCount ==> #[trigger] m.with_max_transaction_count(number).attribute(a) == m.attribute(a),
        m.with_msg_vpn_name(text).attribute(MsgVpnClientProfileAttribute::MsgVpnName) == AttributeValue::Text(Some(text)),
        forall|a: MsgVpnClientProfileAttribute| a != MsgVpnClientProfileAttribute::MsgVpnName ==> #[trigger] m.with_msg_vpn_name(text).attribute(a) == m.attribute(a),
        m.with_queue_control1_max_depth(small).attribute(MsgVpnClientProfileAttribute::QueueControl1MaxDepth) == AttributeValue::Int32(Some(small)),
        forall|a: MsgVpnClientProfileAttribute| a != MsgVpnClientProfileAttribute::QueueControl1MaxDepth ==> #[trigger] m.with_queue_control1_max_depth(small).attribute(a) == m.attribute(a),
        m.with_queue_control1_min_msg_burst(small).attribute(MsgVpnClientProfileAttribute::QueueControl1MinMsgBurst) == AttributeValue::Int32(Some(small)),
        forall|a: MsgVpnClientProfileAttribute| a != MsgVpnClientProfileAttribute::QueueControl1MinMsgBurst ==> #[trigger] m.with_queue_control1_min_msg_burst(small).attribute(a) == m.attribute(a),
        m.with_queue_direct1_max_depth(small).attribute(MsgVpnClientProfileAttribute::QueueDirect1MaxDepth) == AttributeValue::Int32(Some(small)),
        forall|a: MsgVpnClientProfileAttribute| a != MsgVpnClientProfileAttribute::QueueDirect1MaxDepth ==> #[trigger] m.with_queue_direct1_max_depth(small).attribute(a) == m.attribute(a),
        m.with_queue_direct1_min_msg_burst(small).attribute(MsgVpnClientProfileAttribute::QueueDirect1MinMsgBurst) == AttributeValue::Int32(Some(small)),
        forall|a: MsgVpnClientProfileAttribute| a != MsgVpnClientProfileAttribute::QueueDirect1MinMsgBurst ==> #[trigger] m.with_queue_direct1_min_msg_burst(small).attribute(a) == m.attribute(a),
        m.with_queue_direct2_max_depth(small).attribute(MsgVpnClientProfileAttribute::QueueDirect2MaxDepth) == AttributeValue::Int32(Some(small)),
        forall|a: MsgVpnClientProfileAttribute| a != MsgVpnClientProfileAttribute::QueueDirect2MaxDepth ==> #[trigger] m.with_queue_direct2_max_depth(small).attribute(a) == m.attribute(a),
        m.with_queue_direct2_min_msg_burst(small).attribute(MsgVpnClientProfileAttribute::QueueDirect2MinMsgBurst) == AttributeValue::Int32(Some(small)),
        forall|a: MsgVpnClientProfileAttribute| a != MsgVpnClientProfileAttribute::QueueDirect2MinMsgBurst ==> #[trigger] m.with_queue_direct2_min_msg_burst(small).attribute(a) == m.attribute(a),
        m.with_queue_direct3_max_depth(small).attribute(MsgVpnClientProfileAttribute::QueueDirect3MaxDepth) == AttributeValue::Int32(Some(small)),
        forall|a: MsgVpnClientProfileAttribute| a != MsgVpnClientProfileAttribute::QueueDirect3MaxDepth ==> #[trigger] m.with_queue_direct3_max_depth(small).attribute(a) == m.attribute(a),
        m.with_queue_direct3_min_msg_burst(small).attribute(MsgVpnClientProfileAttribute::QueueDirect3MinMsgBurst) == AttributeValue::Int32(Some(small)),
        forall|a: MsgVpnClientProfileAttribute| a != MsgVpnClientProfileAttribute::QueueDirect3MinMsgBurst ==> #[trigger] m.with_queue_direct3_min_msg_burst(small).attribute(a) == m.attribute(a),
        m.with_queue_guaranteed1_max_depth(small).attribute(MsgVpnClientProfileAttribute::QueueGuaranteed1MaxDepth) == AttributeValue::Int32(Some(small)),
        forall|a: MsgVpnClientProfileAttribute| a != MsgVpnClientProfileAttribute::QueueGuaranteed1MaxDepth ==> #[trigger] m.with_queue_guaranteed1_max_depth(small).attribute(a) == m.attribute(a),
        m.with_queue_guaranteed1_min_msg_burst(small).attribute(MsgVpnClientProfileAttribute::QueueGuaranteed1MinMsgBurst) == AttributeValue::Int32(Some(small)),
        forall|a: MsgVpnClientProfileAttribute| a != MsgVpnClientProfileAttribute::QueueGuaranteed1MinMsgBurst ==> #[trigger] m.with_queue_guaranteed1_min_msg_burst(small).attribute(a) == m.attribute(a),
        m.with_reject_msg_to_sender_on_no_subscription_match_enabled(flag).attribute(MsgVpnClientProfileAttribute::RejectMsgToSenderOnNoSubscriptionMatchEnabled) == AttributeValue::Flag(Some(flag)),
        forall|a: MsgVpnClientProfileAttribute| a != MsgVpnClientProfileAttribute::RejectMsgToSenderOnNoSubscriptionMatchEnabled ==> #[trigger] m.with_reject_msg_to_sender_on_no_subscription_match_enabled(flag).attribute(a) == m.attribute(a),
        m.with_replication_allow_client_connect_when_standby_enabled(flag).attribute(MsgVpnClientProfileAttribute::ReplicationAllowClientConnectWhenStandbyEnabled) == AttributeValue::Flag(Some(flag)),
        forall|a: MsgVpnClientProfileAttribute| a != MsgVpnClientProfileAttribute::ReplicationAllowClientConnectWhenStandbyEnabled ==> #[trigger] m.with_replication_allow_client_connect_when_standby_enabled(flag).attribute(a) == m.attribute(a),
        m.with_service_smf_max_connection_count_per_client_username(number).attribute(MsgVpnClientProfileAttribute::ServiceSmfMaxConnectionCountPerClientUsername) == AttributeValue::Int64(Some(number)),
        forall|a: MsgVpnClientProfileAttribute| a != MsgVpnClientProfileAttribute::ServiceSmfMaxConnectionCountPerClientUsername ==> #[trigger] m.with_service_smf_max_connection_count_per_client_username(number).attribute(a) == m.attribute(a),
        m.with_service_web_inactive_timeout(number).attribute(MsgVpnClientProfileAttribute::ServiceWebInactiveTimeout) == AttributeValue::Int64(Some(number)),
        forall|a: MsgVpnClientProfileAttribute| a != MsgVpnClientProfileAttribute::ServiceWebInactiveTimeout ==> #[trigger] m.with_service_web_inactive_timeout(number).attribute(a) == m.attribute(a),
        m.with_service_web_max_connection_count_per_client_username(number).attribute(MsgVpnClientProfileAttribute::ServiceWebMaxConnectionCountPerClientUsername) == AttributeValue::Int64(Some(number)),
        forall|a: MsgVpnClientProfileAttribute| a != MsgVpnClientProfileAttribute::ServiceWebMaxConnectionCountPerClientUsername ==> #[trigger] m.with_service_web_max_connection_count_per_client_username(number).attribute(a) == m.attribute(a),
        m.with_service_web_max_payload(number).attribute(MsgVpnClientProfileAttribute::ServiceWebMaxPayload) == AttributeValue::Int64(Some(number)),
        forall|a: MsgVpnClientProfileAttribute| a != MsgVpnClientProfileAttribute::ServiceWebMaxPayload ==> #[trigger] m.with_service_web_max_payload(number).attribute(a) == m.attribute(a),
        m.with_tcp_congestion_window_size(number).attribute(MsgVpnClientProfileAttribute::TcpCongestionWindowSize) == AttributeValue::Int64(Some(number)),
        forall|a: MsgVpnClientProfileAttribute| a != MsgVpnClientProfileAttribute::TcpCongestionWindowSize ==> #[trigger] m.with_tcp_congestion_window_size(number).attribute(a) == m.attribute(a),
        m.with_tcp_keepalive_count(number).attribute(MsgVpnClientProfileAttribute::TcpKeepaliveCount) == AttributeValue::Int64(Some(number)),
        forall|a: MsgVpnClientProfileAttribute| a != MsgVpnClientProfileAttribute::TcpKeepaliveCount ==> #[trigger] m.with_tcp_keepalive_count(number).attribute(a) == m.attribute(a),
        m.with_tcp_keepalive_idle_time(number).attribute(MsgVpnClientProfileAttribute::TcpKeepaliveIdleTime) == AttributeValue::Int64(Some(number)),
        forall|a: MsgVpnClientProfileAttribute| a != MsgVpnClientProfileAttribute::TcpKeepaliveIdleTime ==> #[trigger] m.with_tcp_keepalive_idle_time(number).attribute(a) == m.attribute(a),
        m.with_tcp_keepalive_interval(number).attribute(MsgVpnClientProfileAttribute::TcpKeepaliveInterval) == AttributeValue::Int64(Some(number)),
        forall|a: MsgVpnClientProfileAttribute| a != MsgVpnClientProfileAttribute::TcpKeepaliveInterval ==> #[trigger] m.with_tcp_keepalive_interval(number).attribute(a) == m.attribute(a),
        m.with_tcp_max_segment_size(number).attribute(MsgVpnClientProfileAttribute::TcpMaxSegmentSize) == AttributeValue::Int64(Some(number)),
        forall|a: MsgVpnClientProfileAttribute| a != MsgVpnClientProfileAttribute::TcpMaxSegmentSize ==> #[trigger] m.with_tcp_max_segment_size(number).attribute(a) == m.attribute(a),
        m.with_tcp_max_window_size(number).attribute(MsgVpnClientProfileAttribute::TcpMaxWindowSize) == AttributeValue::Int64(Some(number)),
        forall|a: MsgVpnClientProfileAttribute| a != MsgVpnClientProfileAttribute::TcpMaxWindowSize ==> #[trigger] m.with_tcp_max_window_size(number).attribute(a) == m.attribute(a),
        m.with_tls_allow_downgrade_to_plain_text_enabled(flag).attribute(MsgVpnClientProfileAttribute::TlsAllowDowngradeToPlainTextEnabled) == AttributeValue::Flag(Some(flag)),
        forall|a: MsgVpnClientProfileAttribute| a != MsgVpnClientProfileAttribute::TlsAllowDowngradeToPlainTextEnabled ==> #[trigger] m.with_tls_allow_downgrade_to_plain_text_enabled(flag).attribute(a) == m.attribute(a),
{
}

/// Removing an attribute makes it absent and leaves every other attribute exactly as it was.
#[verifier::rlimit(100)]
pub proof fn lemma_msg_vpn_client_profile_reset_changes_only_its_attribute(m: MsgVpnClientProfileView)
    ensures
        m.without_allow_bridge_connections_enabled().attribute(MsgVpnClientProfileAttribute::AllowBridgeConnectionsEnabled) == AttributeValue::Flag(None),
        forall|a: MsgVpnClientProfileAttribute| a != MsgVpnClientProfileAttribute::AllowBridgeConnectionsEnabled ==> #[trigger] m.without_allow_bridge_connections_enabled().attribute(a) == m.attribute(a),
        m.without_allow_cut_through_forwarding_enabled().attribute(MsgVpnClientProfileAttribute::AllowCutThroughForwardingEnabled) == AttributeValue::Flag(None),
        forall|a: MsgVpnClientProfileAttribute| a != MsgVpnClientProfileAttribute::AllowCutThroughForwardingEnabled ==> #[trigger] m.without_allow_cut_through_forwarding_enabled().attribute(a) == m.attribute(a),
        m.without_allow_guaranteed_endpoint_create_enabled().attribute(MsgVpnClientProfileAttribute::AllowGuaranteedEndpointCreateEnabled) == AttributeValue::Flag(None),
        forall|a: MsgVpnClientProfileAttribute| a != MsgVpnClientProfileAttribute::AllowGuaranteedEndpointCreateEnabled ==> #[trigger] m.without_allow_guaranteed_endpoint_create_enabled().attribute(a) == m.attribute(a),
        m.without_allow_guaranteed_msg_receive_enabled().attribute(MsgVpnClientProfileAttribute::AllowGuaranteedMsgReceiveEnabled) == AttributeValue::Flag(None),
        forall|a: MsgVpnClientProfileAttribute| a != MsgVpnClientProfileAttribute::AllowGuaranteedMsgReceiveEnabled ==> #[trigger] m.without_allow_guaranteed_msg_receive_enabled().attribute(a) == m.attribute(a),
        m.without_allow_guaranteed_msg_send_enabled().attribute(MsgVpnClientProfileAttribute::AllowGuaranteedMsgSendEnabled) == AttributeValue::Flag(None),
        forall|a: MsgVpnClientProfileAttribute| a != MsgVpnClientProfileAttribute::AllowGuaranteedMsgSendEnabled ==> #[trigger] m.without_allow_guaranteed_msg_send_enabled().attribute(a) == m.attribute(a),
        m.without_allow_transacted_sessions_enabled().attribute(MsgVpnClientProfileAttribute::AllowTransactedSessionsEnabled) == AttributeValue::Flag(None),
        forall|a: MsgVpnClientProfileAttribute| a != MsgVpnClientProfileAttribute::AllowTransactedSessionsEnabled ==> #[trigger] m.without_allow_transacted_sessions_enabled().attribute(a) == m.attribute(a),
        m.without_api_queue_management_copy_from_on_create_name().attribute(MsgVpnClientProfileAttribute::ApiQueueManagementCopyFromOnCreateName) == AttributeValue::Text(None),
        forall|a: MsgVpnClientProfileAttribute| a != MsgVpnClientProfileAttribute::ApiQueueManagementCopyFromOnCreateName ==> #[trigger] m.without_api_queue_management_copy_from_on_create_name().attribute(a) == m.attribute(a),
        m.without_api_topic_endpoint_management_copy_from_on_create_name().attribute(MsgVpnClientProfileAttribute::ApiTopicEndpointManagementCopyFromOnCreateName) == AttributeValue::Text(None),
        forall|a: MsgVpnClientProfileAttribute| a != MsgVpnClientProfileAttribute::ApiTopicEndpointManagementCopyFromOnCreateName ==> #[trigger] m.without_api_topic_endpoint_management_copy_from_on_create_name().attribute(a) == m.attribute(a),
        m.without_client_profile_name().attribute(MsgVpnClientProfileAttribute::ClientProfileName) == AttributeValue::Text(None),
        forall|a: MsgVpnClientProfileAttribute| a != MsgVpnClientProfileAttribute::ClientProfileName ==> #[trigger] m.without_client_profile_name().attribute(a) == m.attribute(a),
        m.without_compression_enabled().attribute(MsgVpnClientProfileAttribute::CompressionEnabled) == AttributeValue::Flag(None),
        forall|a: MsgVpnClientProfileAttribute| a != MsgVpnClientProfileAttribute::CompressionEnabled ==> #[trigger] m.without_compression_enabled().attribute(a) == m.attribute(a),
        m.without_eliding_delay().attribute(MsgVpnClientProfileAttribute::ElidingDelay) == AttributeValue::Int64(None),
        forall|a: MsgVpnClientProfileAttribute| a != MsgVpnClientProfileAttribute::ElidingDelay ==> #[trigger] m.without_eliding_delay().attribute(a) == m.attribute(a),
        m.without_eliding_enabled().attribute(MsgVpnClientProfileAttribute::ElidingEnabled) == AttributeValue::Flag(None),
        forall|a: MsgVpnClientProfileAttribute| a != MsgVpnClientProfileAttribute::ElidingEnabled ==> #[trigger] m.without_eliding_enabled().attribute(a) == m.attribute(a),
        m.without_eliding_max_topic_count().attribute(MsgVpnClientProfileAttribute::ElidingMaxTopicCount) == AttributeValue::Int64(None),
        forall|a: MsgVpnClientProfileAttribute| a != MsgVpnClientProfileAttribute::ElidingMaxTopicCount ==> #[trigger] m.without_eliding_max_topic_count().attribute(a) == m.attribute(a),
        m.without_event_client_provisioned_endpoint_spool_usage_threshold().attribute(MsgVpnClientProfileAttribute::EventClientProvisionedEndpointSpoolUsageThreshold) == AttributeValue::ThresholdByPercent(None),
        forall|a: MsgVpnClientProfileAttribute| a != MsgVpnClientProfileAttribute::EventClientProvisionedEndpointSpoolUsageThreshold ==> #[trigger] m.without_event_client_provisioned_endpoint_spool_usage_threshold().attribute(a) == m.attribute(a),
        m.without_event_connection_count_per_client_username_threshold().attribute(MsgVpnClientProfileAttribute::EventConnectionCountPerClientUsernameThreshold) == AttributeValue::Threshold(None),
        forall|a: MsgVpnClientProfileAttribute| a != MsgVpnClientProfileAttribute::EventConnectionCountPerClientUsernameThreshold ==> #[trigger] m.without_event_connection_count_per_client_username_threshold().attribute(a) == m.attribute(a),
        m.without_event_egress_flow_count_threshold().attribute(MsgVpnClientProfileAttribute::EventEgressFlowCountThreshold) == AttributeValue::Threshold(None),
        forall|a: MsgVpnClientProfileAttribute| a != MsgVpnClientProfileAttribute::EventEgressFlowCountThreshold ==> #[trigger] m.without_event_egress_flow_count_threshold().attribute(a) == m.attribute(a),
        m.without_event_endpoint_count_per_client_username_threshold().attribute(MsgVpnClientProfileAttribute::EventEndpointCountPerClientUsernameThreshold) == AttributeValue::Threshold(None),
        forall|a: MsgVpnClientProfileAttribute| a != MsgVpnClientProfileAttribute::EventEndpointCountPerClientUsernameThreshold ==> #[trigger] m.without_event_endpoint_count_per_client_username_threshold().attribute(a) == m.attribute(a),
        m.without_event_ingress_flow_count_threshold().attribute(MsgVpnClientProfileAttribute::EventIngressFlowCountThreshold) == AttributeValue::Threshold(None),
        forall|a: MsgVpnClientProfileAttribute| a != MsgVpnClientProfileAttribute::EventIngressFlowCountThreshold ==> #[trigger] m.without_event_ingress_flow_count_threshold().attribute(a) == m.attribute(a),
        m.without_event_service_smf_connection_count_per_client_username_threshold().attribute(MsgVpnClientProfileAttribute::EventServiceSmfConnectionCountPerClientUsernameThreshold) == AttributeValue::Threshold(None),
        forall|a: MsgVpnClientProfileAttribute| a != MsgVpnClientProfileAttribute::EventServiceSmfConnectionCountPerClientUsernameThreshold ==> #[trigger] m.without_event_service_smf_connection_count_per_client_username_threshold().attribute(a) == m.attribute(a),
        m.without_event_service_web_connection_count_per_client_username_threshold().attribute(MsgVpnClientProfileAttribute::EventServiceWebConnectionCountPerClientUsernameThreshold) == AttributeValue::Threshold(None),
        forall|a: MsgVpnClientProfileAttribute| a != MsgVpnClientProfileAttribute::EventServiceWebConnectionCountPerClientUsernameThreshold ==> #[trigger] m.without_event_service_web_connection_count_per_client_username_threshold().attribute(a) == m.attribute(a),
        m.without_event_subscription_count_threshold().attribute(MsgVpnClientProfileAttribute::EventSubscriptionCountThreshold) == AttributeValue::Threshold(None),
        forall|a: MsgVpnClientProfileAttribute| a != MsgVpnClientProfileAttribute::EventSubscriptionCountThreshold ==> #[trigger] m.without_event_subscription_count_threshold().attribute(a) == m.attribute(a),
        m.without_event_transacted_session_count_threshold().attribute(MsgVpnClientProfileAttribute::EventTransactedSessionCountThreshold) == AttributeValue::Threshold(None),
        forall|a: MsgVpnClientProfileAttribute| a != MsgVpnClientProfileAttribute::EventTransactedSessionCountThreshold ==> #[trigger] m.without_event_transacted_session_count_threshold().attribute(a) == m.attribute(a),
        m.without_event_transaction_count_threshold().attribute(MsgVpnClientProfileAttribute::EventTransactionCountThreshold) == AttributeValue::Threshold(None),
        forall|a: MsgVpnClientProfileAttribute| a != MsgVpnClientProfileAttribute::EventTransactionCountThreshold ==> #[trigger] m.without_event_transaction_count_threshold().attribute(a) == m.attribute(a),
        m.without_max_connection_count_per_client_username().attribute(MsgVpnClientProfileAttribute::MaxConnectionCountPerClientUsername) == AttributeValue::Int64(None),
        forall|a: MsgVpnClientProfileAttribute| a != MsgVpnClientProfileAttribute::MaxConnectionCountPerClientUsername ==> #[trigger] m.without_max_connection_count_per_client_username().attribute(a) == m.attribute(a),
        m.without_max_egress_flow_count().attribute(MsgVpnClientProfileAttribute::MaxEgressFlowCount) == AttributeValue::Int64(None),
        forall|a: MsgVpnClientProfileAttribute| a != MsgVpnClientProfileAttribute::MaxEgressFlowCount ==> #[trigger] m.without_max_egress_flow_count().attribute(a) == m.attribute(a),
        m.without_max_endpoint_count_per_client_username().attribute(MsgVpnClientProfileAttribute::MaxEndpointCountPerClientUsername) == AttributeValue::Int64(None),
        forall|a: MsgVpnClientProfileAttribute| a != MsgVpnClientProfileAttribute::MaxEndpointCountPerClientUsername ==> #[trigger] m.without_max_endpoint_count_per_client_username().attribute(a) == m.attribute(a),
        m.without_max_ingress_flow_count().attribute(MsgVpnClientProfileAttribute::MaxIngressFlowCount) == AttributeValue::Int64(None),
        forall|a: MsgVpnClientProfileAttribute| a != MsgVpnClientProfileAttribute::MaxIngressFlowCount ==> #[trigger] m.without_max_ingress_flow_count().attribute(a) == m.attribute(a),
        m.without_max_subscription_count().attribute(MsgVpnClientProfileAttribute::MaxSubscriptionCount) == AttributeValue::Int64(None),
        forall|a: MsgVpnClientProfileAttribute| a != MsgVpnClientProfileAttribute::MaxSubscriptionCount ==> #[trigger] m.without_max_subscription_count().attribute(a) == m.attribute(a),
        m.without_max_transacted_session_count().attribute(MsgVpnClientProfileAttribute::MaxTransactedSessionCount) == AttributeValue::Int64(None),
        forall|a: MsgVpnClientProfileAttribute| a != MsgVpnClientProfileAttribute::MaxTransactedSessionCount ==> #[trigger] m.without_max_transacted_session_count().attribute(a) == m.attribute(a),
        m.without_max_transaction_count().attribute(MsgVpnClientProfileAttribute::MaxTransactionCount) == AttributeValue::Int64(None),
        forall|a: MsgVpnClientProfileAttribute| a != MsgVpnClientProfileAttribute::MaxTransactionCount ==> #[trigger] m.without_max_transaction_count().attribute(a) == m.attribute(a),
        m.without_msg_vpn_name().attribute(MsgVpnClientProfileAttribute::MsgVpnName) == AttributeValue::Text(None),
        forall|a: MsgVpnClientProfileAttribute| a != MsgVpnClientProfileAttribute::MsgVpnName ==> #[trigger] m.without_msg_vpn_name().attribute(a) == m.attribute(a),
        m.without_queue_control1_max_depth().attribute(MsgVpnClientProfileAttribute::QueueControl1MaxDepth) == AttributeValue::Int32(None),
        forall|a: MsgVpnClientProfileAttribute| a != MsgVpnClientProfileAttribute::QueueControl1MaxDepth ==> #[trigger] m.without_queue_control1_max_depth().attribute(a) == m.attribute(a),
        m.without_queue_control1_min_msg_burst().attribute(MsgVpnClientProfileAttribute::QueueControl1MinMsgBurst) == AttributeValue::Int32(None),
        forall|a: MsgVpnClientProfileAttribute| a != MsgVpnClientProfileAttribute::QueueControl1MinMsgBurst ==> #[trigger] m.without_queue_control1_min_msg_burst().attribute(a) == m.attribute(a),
        m.without_queue_direct1_max_depth().attribute(MsgVpnClientProfileAttribute::QueueDirect1MaxDepth) == AttributeValue::Int32(None),
        forall|a: MsgVpnClientProfileAttribute| a != MsgVpnClientProfileAttribute::QueueDirect1MaxDepth ==> #[trigger] m.without_queue_direct1_max_depth().attribute(a) == m.attribute(a),
        m.without_queue_direct1_min_msg_burst().attribute(MsgVpnClientProfileAttribute::QueueDirect1MinMsgBurst) == AttributeValue::Int32(None),
        forall|a: MsgVpnClientProfileAttribute| a != MsgVpnClientProfileAttribute::QueueDirect1MinMsgBurst ==> #[trigger] m.without_queue_direct1_min_msg_burst().attribute(a) == m.attribute(a),
        m.without_queue_direct2_max_depth().attribute(MsgVpnClientProfileAttribute::QueueDirect2MaxDepth) == AttributeValue::Int32(None),
        forall|a: MsgVpnClientProfileAttribute| a != MsgVpnClientProfileAttribute::QueueDirect2MaxDepth ==> #[trigger] m.without_queue_direct2_max_depth().attribute(a) == m.attribute(a),
        m.without_queue_direct2_min_msg_burst().attribute(MsgVpnClientProfileAttribute::QueueDirect2MinMsgBurst) == AttributeValue::Int32(None),
        forall|a: MsgVpnClientProfileAttribute| a != MsgVpnClientProfileAttribute::QueueDirect2MinMsgBurst ==> #[trigger] m.without_queue_direct2_min_msg_burst().attribute(a) == m.attribute(a),
        m.without_queue_direct3_max_depth().attribute(MsgVpnClientProfileAttribute::QueueDirect3MaxDepth) == AttributeValue::Int32(None),
        forall|a: MsgVpnClientProfileAttribute| a != MsgVpnClientProfileAttribute::QueueDirect3MaxDepth ==> #[trigger] m.without_queue_direct3_max_depth().attribute(a) == m.attribute(a),
        m.without_queue_direct3_min_msg_burst().attribute(MsgVpnClientProfileAttribute::QueueDirect3MinMsgBurst) == AttributeValue::Int32(None),
        forall|a: MsgVpnClientProfileAttribute| a != MsgVpnClientProfileAttribute::QueueDirect3MinMsgBurst ==> #[trigger] m.without_queue_direct3_min_msg_burst().attribute(a) == m.attribute(a),
        m.without_queue_guaranteed1_max_depth().attribute(MsgVpnClientProfileAttribute::QueueGuaranteed1MaxDepth) == AttributeValue::Int32(None),
        forall|a: MsgVpnClientProfileAttribute| a != MsgVpnClientProfileAttribute::QueueGuaranteed1MaxDepth ==> #[trigger] m.without_queue_guaranteed1_max_depth().attribute(a) == m.attribute(a),
        m.without_queue_guaranteed1_min_msg_burst().attribute(MsgVpnClientProfileAttribute::QueueGuaranteed1MinMsgBurst) == AttributeValue::Int32(None),
        forall|a: MsgVpnClientProfileAttribute| a != MsgVpnClientProfileAttribute::QueueGuaranteed1MinMsgBurst ==> #[trigger] m.without_queue_guaranteed1_min_msg_burst().attribute(a) == m.attribute(a),
        m.without_reject_msg_to_sender_on_no_subscription_match_enabled().attribute(MsgVpnClientProfileAttribute::RejectMsgToSenderOnNoSubscriptionMatchEnabled) == AttributeValue::Flag(None),
        forall|a: MsgVpnClientProfileAttribute| a != MsgVpnClientProfileAttribute::RejectMsgToSenderOnNoSubscriptionMatchEnabled ==> #[trigger] m.without_reject_msg_to_sender_on_no_subscription_match_enabled().attribute(a) == m.attribute(a),
        m.without_replication_allow_client_connect_when_standby_enabled().attribute(MsgVpnClientProfileAttribute::ReplicationAllowClientConnectWhenStandbyEnabled) == AttributeValue::Flag(None),
        forall|a: MsgVpnClientProfileAttribute| a != MsgVpnClientProfileAttribute::ReplicationAllowClientConnectWhenStandbyEnabled ==> #[trigger] m.without_replication_allow_client_connect_when_standby_enabled().attribute(a) == m.attribute(a),
        m.without_service_smf_max_connection_count_per_client_username().attribute(MsgVpnClientProfileAttribute::ServiceSmfMaxConnectionCountPerClientUsername) == AttributeValue::Int64(None),
        forall|a: MsgVpnClientProfileAttribute| a != MsgVpnClientProfileAttribute::ServiceSmfMaxConnectionCountPerClientUsername ==> #[trigger] m.without_service_smf_max_connection_count_per_client_username().attribute(a) == m.attribute(a),
        m.without_service_web_inactive_timeout().attribute(MsgVpnClientProfileAttribute::ServiceWebInactiveTimeout) == AttributeValue::Int64(None),
        forall|a: MsgVpnClientProfileAttribute| a != MsgVpnClientProfileAttribute::ServiceWebInactiveTimeout ==> #[trigger] m.without_service_web_inactive_timeout().attribute(a) == m.attribute(a),
        m.without_service_web_max_connection_count_per_client_username().attribute(MsgVpnClientProfileAttribute::ServiceWebMaxConnectionCountPerClientUsername) == AttributeValue::Int64(None),
        forall|a: MsgVpnClientProfileAttribute| a != MsgVpnClientProfileAttribute::ServiceWebMaxConnectionCountPerClientUsername ==> #[trigger] m.without_service_web_max_connection_count_per_client_username().attribute(a) == m.attribute(a),
        m.without_service_web_max_payload().attribute(MsgVpnClientProfileAttribute::ServiceWebMaxPayload) == AttributeValue::Int64(None),
        forall|a: MsgVpnClientProfileAttribute| a != MsgVpnClientProfileAttribute::ServiceWebMaxPayload ==> #[trigger] m.without_service_web_max_payload().attribute(a) == m.attribute(a),
        m.without_tcp_congestion_window_size().attribute(MsgVpnClientProfileAttribute::TcpCongestionWindowSize) == AttributeValue::Int64(None),
        forall|a: MsgVpnClientProfileAttribute| a != MsgVpnClientProfileAttribute::TcpCongestionWindowSize ==> #[trigger] m.without_tcp_congestion_window_size().attribute(a) == m.attribute(a),
        m.without_tcp_keepalive_count().attribute(MsgVpnClientProfileAttribute::TcpKeepaliveCount) == AttributeValue::Int64(None),
        forall|a: MsgVpnClientProfileAttribute| a != MsgVpnClientProfileAttribute::TcpKeepaliveCount ==> #[trigger] m.without_tcp_keepalive_count().attribute(a) == m.attribute(a),
        m.without_tcp_keepalive_idle_time().attribute(MsgVpnClientProfileAttribute::TcpKeepaliveIdleTime) == AttributeValue::Int64(None),
        forall|a: MsgVpnClientProfileAttribute| a != MsgVpnClientProfileAttribute::TcpKeepaliveIdleTime ==> #[trigger] m.without_tcp_keepalive_idle_time().attribute(a) == m.attribute(a),
        m.without_tcp_keepalive_interval().attribute(MsgVpnClientProfileAttribute::TcpKeepaliveInterval) == AttributeValue::Int64(None),
        forall|a: MsgVpnClientProfileAttribute| a != MsgVpnClientProfileAttribute::TcpKeepaliveInterval ==> #[trigger] m.without_tcp_keepalive_interval().attribute(a) == m.attribute(a),
        m.without_tcp_max_segment_size().attribute(MsgVpnClientProfileAttribute::TcpMaxSegmentSize) == AttributeValue::Int64(None),
        forall|a: MsgVpnClientProfileAttribute| a != MsgVpnClientProfileAttribute::TcpMaxSegmentSize ==> #[trigger] m.without_tcp_max_segment_size().attribute(a) == m.attribute(a),
        m.without_tcp_max_window_size().attribute(MsgVpnClientProfileAttribute::TcpMaxWindowSize) == AttributeValue::Int64(None),
        forall|a: MsgVpnClientProfileAttribute| a != MsgVpnClientProfileAttribute::TcpMaxWindowSize ==> #[trigger] m.without_tcp_max_window_size().attribute(a) == m.attribute(a),
        m.without_tls_allow_downgrade_to_plain_text_enabled().attribute(MsgVpnClientProfileAttribute::TlsAllowDowngradeToPlainTextEnabled) == AttributeValue::Flag(None),
        forall|a: MsgVpnClientProfileAttribute| a != MsgVpnClientProfileAttribute::TlsAllowDowngradeToPlainTextEnabled ==> #[trigger] m.without_tls_allow_downgrade_to_plain_text_enabled().attribute(a) == m.attribute(a),
{
}

} // verus!
