use vstd::prelude::*;
use crate::models::attribute::AttributeValue;

verus! {

/// A JNDI Connection Factory of a Message VPN, with each of its configuration attributes present or absent.
#[derive(Debug)]
pub struct MsgVpnJndiConnectionFactory {
    /// Enable or disable whether new JMS connections can use the same Client identifier (ID) as an existing connection. The default value is `false`. Available since 2.3.
    allow_duplicate_client_id_enabled: Option<bool>,
    /// The description of the Client. The default value is `""`.
    client_description: Option<String>,
    /// The Client identifier (ID). If not specified, a unique value for it will be generated. The default value is `""`.
    client_id: Option<String>,
    /// The name of the JMS Connection Factory.
    connection_factory_name: Option<String>,
    /// Enable or disable overriding by the Subscriber (Consumer) of the deliver-to-one (DTO) property on messages. When enabled, the Subscriber can receive all DTO tagged messages. The default value is `true`.
    dto_receive_override_enabled: Option<bool>,
    /// The priority for receiving deliver-to-one (DTO) messages by the Subscriber (Consumer) if the messages are published on the local Router that the Subscriber is directly connected to. The default value is `1`.
    dto_receive_subscriber_local_priority: Option<i32>,
    /// The priority for receiving deliver-to-one (DTO) messages by the Subscriber (Consumer) if the messages are published on a remote Router. The default value is `1`.
    dto_receive_subscriber_network_priority: Option<i32>,
    /// Enable or disable the deliver-to-one (DTO) property on messages sent by the Publisher (Producer). The default value is `false`.
    dto_send_enabled: Option<bool>,
    /// Enable or disable whether a durable endpoint will be dynamically created on the Router when the client calls "Session.createDurableSubscriber()" or "Session.createQueue()". The created endpoint respects the message time-to-live (TTL) according to the "dynamicEndpointRespectTtlEnabled" property. The default value is `false`.
    dynamic_endpoint_create_durable_enabled: Option<bool>,
    /// Enable or disable whether dynamically created durable and non-durable endpoints respect the message time-to-live (TTL) property. The default value is `true`.
    dynamic_endpoint_respect_ttl_enabled: Option<bool>,
    /// The timeout for sending the acknowledgement (ACK) for guaranteed messages received by the Subscriber (Consumer), in milliseconds. The default value is `1000`.
    guaranteed_receive_ack_timeout: Option<i32>,
    /// The size of the window for guaranteed messages received by the Subscriber (Consumer), in messages. The default value is `18`.
    guaranteed_receive_window_size: Option<i32>,
    /// The threshold for sending the acknowledgement (ACK) for guaranteed messages received by the Subscriber (Consumer) as a percentage of the "guaranteedReceiveWindowSize" value. The default value is `60`.
    guaranteed_receive_window_size_ack_threshold: Option<i32>,
    /// The timeout for receiving the acknowledgement (ACK) for guaranteed messages sent by the Publisher (Producer), in milliseconds. The default value is `2000`.
    guaranteed_send_ack_timeout: Option<i32>,
    /// The size of the window for non-persistent guaranteed messages sent by the Publisher (Producer), in messages. For persistent messages the window size is fixed at 1. The default value is `255`.
    guaranteed_send_window_size: Option<i32>,
    /// The default delivery mode for messages sent by the Publisher (Producer). The default value is `"persistent"`. The allowed values and their meaning are:  <pre> "persistent" - Router spools messages (persists in the Message Spool) as part of the send operation. "non-persistent" - Router does not spool messages (does not persist in the Message Spool) as part of the send operation. </pre>
    messaging_default_delivery_mode: Option<String>,
    /// Enable or disable whether messages sent by the Publisher (Producer) are Dead Message Queue (DMQ) eligible by default. The default value is `false`.
    messaging_default_dmq_eligible_enabled: Option<bool>,
    /// Enable or disable whether messages sent by the Publisher (Producer) are Eliding eligible by default. The default value is `false`.
    messaging_default_eliding_eligible_enabled: Option<bool>,
    /// Enable or disable inclusion (adding or replacing) of the JMSXUserID property in messages sent by the Publisher (Producer). The default value is `false`.
    messaging_jmsx_user_id_enabled: Option<bool>,
    /// Enable or disable encoding of JMS text messages in Publisher (Producer) messages as XML payload. When disabled, JMS text messages are encoded as a binary attachment. The default value is `true`.
    messaging_text_in_xml_payload_enabled: Option<bool>,
    /// The name of the Message VPN.
    msg_vpn_name: Option<String>,
    /// The ZLIB compression level for the connection to the Router. The value "0" means no compression, and the value "-1" means the compression level is specified in the JNDI Properties file. The default value is `-1`.
    transport_compression_level: Option<i32>,
    /// The maximum number of retry attempts to establish an initial connection to the host (Router) or list of hosts (Routers). The value "0" means a single attempt (no retries), and the value "-1" means to retry forever. The default value is `0`.
    transport_connect_retry_count: Option<i32>,
    /// The maximum number of retry attempts to establish an initial connection to each host (Router) on the list of hosts (Routers). The value "0" means a single attempt (no retries), and the value "-1" means to retry forever. The default value is `0`.
    transport_connect_retry_per_host_count: Option<i32>,
    /// The timeout for establishing an initial connection to the Router, in milliseconds. The default value is `30000`.
    transport_connect_timeout: Option<i32>,
    /// Enable or disable usage of the Direct Transport mode for sending non-persistent messages. When disabled, the Guaranteed Transport mode is used. The default value is `true`.
    transport_direct_transport_enabled: Option<bool>,
    /// The maximum number of consecutive application-level keepalive messages sent without the Router response before the connection to the Router is closed. The default value is `3`.
    transport_keepalive_count: Option<i32>,
    /// Enable or disable usage of application-level keepalive messages to maintain a connection with the Router. The default value is `true`.
    transport_keepalive_enabled: Option<bool>,
    /// The interval between application-level keepalive messages, in milliseconds. The default value is `3000`.
    transport_keepalive_interval: Option<i32>,
    /// Enable or disable delivery of asynchronous messages directly from the I/O thread. Contact Solace Support before enabling this property. The default value is `false`.
    transport_msg_callback_on_io_thread_enabled: Option<bool>,
    /// Enable or disable optimization for the Direct Transport delivery mode. If enabled, the client application is limited to one Publisher (Producer) and one non-durable Subscriber (Consumer). The default value is `false`.
    transport_optimize_direct_enabled: Option<bool>,
    /// The connection port number on the Router for SMF clients. The value "-1" means the port is specified in the JNDI Properties file. The default value is `-1`.
    transport_port: Option<i32>,
    /// The timeout for reading a reply from the Router, in milliseconds. The default value is `10000`.
    transport_read_timeout: Option<i32>,
    /// The size of the receive socket buffer, in bytes. It corresponds to the SO_RCVBUF socket option. The default value is `65536`.
    transport_receive_buffer_size: Option<i32>,
    /// The maximum number of attempts to reconnect to the host (Router) or list of hosts (Routers) after the connection has been lost. The value "-1" means to retry forever. The default value is `3`.
    transport_reconnect_retry_count: Option<i32>,
    /// The amount of time before making another attempt to connect or reconnect to the host (Router) after the connection has been lost, in milliseconds. The default value is `3000`.
    transport_reconnect_retry_wait: Option<i32>,
    /// The size of the send socket buffer, in bytes. It corresponds to the SO_SNDBUF socket option. The default value is `65536`.
    transport_send_buffer_size: Option<i32>,
    /// Enable or disable the TCP_NODELAY option. When enabled, Nagle's algorithm for TCP/IP congestion control (RFC 896) is disabled. The default value is `true`.
    transport_tcp_no_delay_enabled: Option<bool>,
    /// Enable or disable this as an XA Connection Factory. When enabled, the Connection Factory can be cast to "XAConnectionFactory", "XAQueueConnectionFactory" or "XATopicConnectionFactory". The default value is `false`.
    xa_enabled: Option<bool>,
}

/// The abstract value of a [`MsgVpnJndiConnectionFactory`]: each attribute, present with its value or absent.
/// Text attributes are held as sequences of characters.
pub struct MsgVpnJndiConnectionFactoryView {
    pub allow_duplicate_client_id_enabled: Option<bool>,
    pub client_description: Option<Seq<char>>,
    pub client_id: Option<Seq<char>>,
    pub connection_factory_name: Option<Seq<char>>,
    pub dto_receive_override_enabled: Option<bool>,
    pub dto_receive_subscriber_local_priority: Option<i32>,
    pub dto_receive_subscriber_network_priority: Option<i32>,
    pub dto_send_enabled: Option<bool>,
    pub dynamic_endpoint_create_durable_enabled: Option<bool>,
    pub dynamic_endpoint_respect_ttl_enabled: Option<bool>,
    pub guaranteed_receive_ack_timeout: Option<i32>,
    pub guaranteed_receive_window_size: Option<i32>,
    pub guaranteed_receive_window_size_ack_threshold: Option<i32>,
    pub guaranteed_send_ack_timeout: Option<i32>,
    pub guaranteed_send_window_size: Option<i32>,
    pub messaging_default_delivery_mode: Option<Seq<char>>,
    pub messaging_default_dmq_eligible_enabled: Option<bool>,
    pub messaging_default_eliding_eligible_enabled: Option<bool>,
    pub messaging_jmsx_user_id_enabled: Option<bool>,
    pub messaging_text_in_xml_payload_enabled: Option<bool>,
    pub msg_vpn_name: Option<Seq<char>>,
    pub transport_compression_level: Option<i32>,
    pub transport_connect_retry_count: Option<i32>,
    pub transport_connect_retry_per_host_count: Option<i32>,
    pub transport_connect_timeout: Option<i32>,
    pub transport_direct_transport_enabled: Option<bool>,
    pub transport_keepalive_count: Option<i32>,
    pub transport_keepalive_enabled: Option<bool>,
    pub transport_keepalive_interval: Option<i32>,
    pub transport_msg_callback_on_io_thread_enabled: Option<bool>,
    pub transport_optimize_direct_enabled: Option<bool>,
    pub transport_port: Option<i32>,
    pub transport_read_timeout: Option<i32>,
    pub transport_receive_buffer_size: Option<i32>,
    pub transport_reconnect_retry_count: Option<i32>,
    pub transport_reconnect_retry_wait: Option<i32>,
    pub transport_send_buffer_size: Option<i32>,
    pub transport_tcp_no_delay_enabled: Option<bool>,
    pub xa_enabled: Option<bool>,
}

impl MsgVpnJndiConnectionFactoryView {
    /// The value with every attribute absent.
    pub open spec fn empty() -> MsgVpnJndiConnectionFactoryView {
        MsgVpnJndiConnectionFactoryView {
            allow_duplicate_client_id_enabled: None,
            client_description: None,
            client_id: None,
            connection_factory_name: None,
            dto_receive_override_enabled: None,
            dto_receive_subscriber_local_priority: None,
            dto_receive_subscriber_network_priority: None,
            dto_send_enabled: None,
            dynamic_endpoint_create_durable_enabled: None,
            dynamic_endpoint_respect_ttl_enabled: None,
            guaranteed_receive_ack_timeout: None,
            guaranteed_receive_window_size: None,
            guaranteed_receive_window_size_ack_threshold: None,
            guaranteed_send_ack_timeout: None,
            guaranteed_send_window_size: None,
            messaging_default_delivery_mode: None,
            messaging_default_dmq_eligible_enabled: None,
            messaging_default_eliding_eligible_enabled: None,
            messaging_jmsx_user_id_enabled: None,
            messaging_text_in_xml_payload_enabled: None,
            msg_vpn_name: None,
            transport_compression_level: None,
            transport_connect_retry_count: None,
            transport_connect_retry_per_host_count: None,
            transport_connect_timeout: None,
            transport_direct_transport_enabled: None,
            transport_keepalive_count: None,
            transport_keepalive_enabled: None,
            transport_keepalive_interval: None,
            transport_msg_callback_on_io_thread_enabled: None,
            transport_optimize_direct_enabled: None,
            transport_port: None,
            transport_read_timeout: None,
            transport_receive_buffer_size: None,
            transport_reconnect_retry_count: None,
            transport_reconnect_retry_wait: None,
            transport_send_buffer_size: None,
            transport_tcp_no_delay_enabled: None,
            xa_enabled: None,
        }
    }

    /// This value with `allowDuplicateClientIdEnabled` present and equal to `v`.
    pub open spec fn with_allow_duplicate_client_id_enabled(self, v: bool) -> MsgVpnJndiConnectionFactoryView {
        MsgVpnJndiConnectionFactoryView { allow_duplicate_client_id_enabled: Some(v), ..self }
    }

    /// This value with `allowDuplicateClientIdEnabled` absent.
    pub open spec fn without_allow_duplicate_client_id_enabled(self) -> MsgVpnJndiConnectionFactoryView {
        MsgVpnJndiConnectionFactoryView { allow_duplicate_client_id_enabled: None, ..self }
    }

    /// This value with `clientDescription` present and equal to `v`.
    pub open spec fn with_client_description(self, v: Seq<char>) -> MsgVpnJndiConnectionFactoryView {
        MsgVpnJndiConnectionFactoryView { client_description: Some(v), ..self }
    }

    /// This value with `clientDescription` absent.
    pub open spec fn without_client_description(self) -> MsgVpnJndiConnectionFactoryView {
        MsgVpnJndiConnectionFactoryView { client_description: None, ..self }
    }

    /// This value with `clientId` present and equal to `v`.
    pub open spec fn with_client_id(self, v: Seq<char>) -> MsgVpnJndiConnectionFactoryView {
        MsgVpnJndiConnectionFactoryView { client_id: Some(v), ..self }
    }

    /// This value with `clientId` absent.
    pub open spec fn without_client_id(self) -> MsgVpnJndiConnectionFactoryView {
        MsgVpnJndiConnectionFactoryView { client_id: None, ..self }
    }

    /// This value with `connectionFactoryName` present and equal to `v`.
    pub open spec fn with_connection_factory_name(self, v: Seq<char>) -> MsgVpnJndiConnectionFactoryView {
        MsgVpnJndiConnectionFactoryView { connection_factory_name: Some(v), ..self }
    }

    /// This value with `connectionFactoryName` absent.
    pub open spec fn without_connection_factory_name(self) -> MsgVpnJndiConnectionFactoryView {
        MsgVpnJndiConnectionFactoryView { connection_factory_name: None, ..self }
    }

    /// This value with `dtoReceiveOverrideEnabled` present and equal to `v`.
    pub open spec fn with_dto_receive_override_enabled(self, v: bool) -> MsgVpnJndiConnectionFactoryView {
        MsgVpnJndiConnectionFactoryView { dto_receive_override_enabled: Some(v), ..self }
    }

    /// This value with `dtoReceiveOverrideEnabled` absent.
    pub open spec fn without_dto_receive_override_enabled(self) -> MsgVpnJndiConnectionFactoryView {
        MsgVpnJndiConnectionFactoryView { dto_receive_override_enabled: None, ..self }
    }

    /// This value with `dtoReceiveSubscriberLocalPriority` present and equal to `v`.
    pub open spec fn with_dto_receive_subscriber_local_priority(self, v: i32) -> MsgVpnJndiConnectionFactoryView {
        MsgVpnJndiConnectionFactoryView { dto_receive_subscriber_local_priority: Some(v), ..self }
    }

    /// This value with `dtoReceiveSubscriberLocalPriority` absent.
    pub open spec fn without_dto_receive_subscriber_local_priority(self) -> MsgVpnJndiConnectionFactoryView {
        MsgVpnJndiConnectionFactoryView { dto_receive_subscriber_local_priority: None, ..self }
    }

    /// This value with `dtoReceiveSubscriberNetworkPriority` present and equal to `v`.
    pub open spec fn with_dto_receive_subscriber_network_priority(self, v: i32) -> MsgVpnJndiConnectionFactoryView {
        MsgVpnJndiConnectionFactoryView { dto_receive_subscriber_network_priority: Some(v), ..self }
    }

    /// This value with `dtoReceiveSubscriberNetworkPriority` absent.
    pub open spec fn without_dto_receive_subscriber_network_priority(self) -> MsgVpnJndiConnectionFactoryView {
        MsgVpnJndiConnectionFactoryView { dto_receive_subscriber_network_priority: None, ..self }
    }

    /// This value with `dtoSendEnabled` present and equal to `v`.
    pub open spec fn with_dto_send_enabled(self, v: bool) -> MsgVpnJndiConnectionFactoryView {
        MsgVpnJndiConnectionFactoryView { dto_send_enabled: Some(v), ..self }
    }

    /// This value with `dtoSendEnabled` absent.
    pub open spec fn without_dto_send_enabled(self) -> MsgVpnJndiConnectionFactoryView {
        MsgVpnJndiConnectionFactoryView { dto_send_enabled: None, ..self }
    }

    /// This value with `dynamicEndpointCreateDurableEnabled` present and equal to `v`.
    pub open spec fn with_dynamic_endpoint_create_durable_enabled(self, v: bool) -> MsgVpnJndiConnectionFactoryView {
        MsgVpnJndiConnectionFactoryView { dynamic_endpoint_create_durable_enabled: Some(v), ..self }
    }

    /// This value with `dynamicEndpointCreateDurableEnabled` absent.
    pub open spec fn without_dynamic_endpoint_create_durable_enabled(self) -> MsgVpnJndiConnectionFactoryView {
        MsgVpnJndiConnectionFactoryView { dynamic_endpoint_create_durable_enabled: None, ..self }
    }

    /// This value with `dynamicEndpointRespectTtlEnabled` present and equal to `v`.
    pub open spec fn with_dynamic_endpoint_respect_ttl_enabled(self, v: bool) -> MsgVpnJndiConnectionFactoryView {
        MsgVpnJndiConnectionFactoryView { dynamic_endpoint_respect_ttl_enabled: Some(v), ..self }
    }

    /// This value with `dynamicEndpointRespectTtlEnabled` absent.
    pub open spec fn without_dynamic_endpoint_respect_ttl_enabled(self) -> MsgVpnJndiConnectionFactoryView {
        MsgVpnJndiConnectionFactoryView { dynamic_endpoint_respect_ttl_enabled: None, ..self }
    }

    /// This value with `guaranteedReceiveAckTimeout` present and equal to `v`.
    pub open spec fn with_guaranteed_receive_ack_timeout(self, v: i32) -> MsgVpnJndiConnectionFactoryView {
        MsgVpnJndiConnectionFactoryView { guaranteed_receive_ack_timeout: Some(v), ..self }
    }

    /// This value with `guaranteedReceiveAckTimeout` absent.
    pub open spec fn without_guaranteed_receive_ack_timeout(self) -> MsgVpnJndiConnectionFactoryView {
        MsgVpnJndiConnectionFactoryView { guaranteed_receive_ack_timeout: None, ..self }
    }

    /// This value with `guaranteedReceiveWindowSize` present and equal to `v`.
    pub open spec fn with_guaranteed_receive_window_size(self, v: i32) -> MsgVpnJndiConnectionFactoryView {
        MsgVpnJndiConnectionFactoryView { guaranteed_receive_window_size: Some(v), ..self }
    }

    /// This value with `guaranteedReceiveWindowSize` absent.
    pub open spec fn without_guaranteed_receive_window_size(self) -> MsgVpnJndiConnectionFactoryView {
        MsgVpnJndiConnectionFactoryView { guaranteed_receive_window_size: None, ..self }
    }

    /// This value with `guaranteedReceiveWindowSizeAckThreshold` present and equal to `v`.
    pub open spec fn with_guaranteed_receive_window_size_ack_threshold(self, v: i32) -> MsgVpnJndiConnectionFactoryView {
        MsgVpnJndiConnectionFactoryView { guaranteed_receive_window_size_ack_threshold: Some(v), ..self }
    }

    /// This value with `guaranteedReceiveWindowSizeAckThreshold` absent.
    pub open spec fn without_guaranteed_receive_window_size_ack_threshold(self) -> MsgVpnJndiConnectionFactoryView {
        MsgVpnJndiConnectionFactoryView { guaranteed_receive_window_size_ack_threshold: None, ..self }
    }

    /// This value with `guaranteedSendAckTimeout` present and equal to `v`.
    pub open spec fn with_guaranteed_send_ack_timeout(self, v: i32) -> MsgVpnJndiConnectionFactoryView {
        MsgVpnJndiConnectionFactoryView { guaranteed_send_ack_timeout: Some(v), ..self }
    }

    /// This value with `guaranteedSendAckTimeout` absent.
    pub open spec fn without_guaranteed_send_ack_timeout(self) -> MsgVpnJndiConnectionFactoryView {
        MsgVpnJndiConnectionFactoryView { guaranteed_send_ack_timeout: None, ..self }
    }

    /// This value with `guaranteedSendWindowSize` present and equal to `v`.
    pub open spec fn with_guaranteed_send_window_size(self, v: i32) -> MsgVpnJndiConnectionFactoryView {
        MsgVpnJndiConnectionFactoryView { guaranteed_send_window_size: Some(v), ..self }
    }

    /// This value with `guaranteedSendWindowSize` absent.
    pub open spec fn without_guaranteed_send_window_size(self) -> MsgVpnJndiConnectionFactoryView {
        MsgVpnJndiConnectionFactoryView { guaranteed_send_window_size: None, ..self }
    }

    /// This value with `messagingDefaultDeliveryMode` present and equal to `v`.
    pub open spec fn with_messaging_default_delivery_mode(self, v: Seq<char>) -> MsgVpnJndiConnectionFactoryView {
        MsgVpnJndiConnectionFactoryView { messaging_default_delivery_mode: Some(v), ..self }
    }

    /// This value with `messagingDefaultDeliveryMode` absent.
    pub open spec fn without_messaging_default_delivery_mode(self) -> MsgVpnJndiConnectionFactoryView {
        MsgVpnJndiConnectionFactoryView { messaging_default_delivery_mode: None, ..self }
    }

    /// This value with `messagingDefaultDmqEligibleEnabled` present and equal to `v`.
    pub open spec fn with_messaging_default_dmq_eligible_enabled(self, v: bool) -> MsgVpnJndiConnectionFactoryView {
        MsgVpnJndiConnectionFactoryView { messaging_default_dmq_eligible_enabled: Some(v), ..self }
    }

    /// This value with `messagingDefaultDmqEligibleEnabled` absent.
    pub open spec fn without_messaging_default_dmq_eligible_enabled(self) -> MsgVpnJndiConnectionFactoryView {
        MsgVpnJndiConnectionFactoryView { messaging_default_dmq_eligible_enabled: None, ..self }
    }

    /// This value with `messagingDefaultElidingEligibleEnabled` present and equal to `v`.
    pub open spec fn with_messaging_default_eliding_eligible_enabled(self, v: bool) -> MsgVpnJndiConnectionFactoryView {
        MsgVpnJndiConnectionFactoryView { messaging_default_eliding_eligible_enabled: Some(v), ..self }
    }

    /// This value with `messagingDefaultElidingEligibleEnabled` absent.
    pub open spec fn without_messaging_default_eliding_eligible_enabled(self) -> MsgVpnJndiConnectionFactoryView {
        MsgVpnJndiConnectionFactoryView { messaging_default_eliding_eligible_enabled: None, ..self }
    }

    /// This value with `messagingJmsxUserIdEnabled` present and equal to `v`.
    pub open spec fn with_messaging_jmsx_user_id_enabled(self, v: bool) -> MsgVpnJndiConnectionFactoryView {
        MsgVpnJndiConnectionFactoryView { messaging_jmsx_user_id_enabled: Some(v), ..self }
    }

    /// This value with `messagingJmsxUserIdEnabled` absent.
    pub open spec fn without_messaging_jmsx_user_id_enabled(self) -> MsgVpnJndiConnectionFactoryView {
        MsgVpnJndiConnectionFactoryView { messaging_jmsx_user_id_enabled: None, ..self }
    }

    /// This value with `messagingTextInXmlPayloadEnabled` present and equal to `v`.
    pub open spec fn with_messaging_text_in_xml_payload_enabled(self, v: bool) -> MsgVpnJndiConnectionFactoryView {
        MsgVpnJndiConnectionFactoryView { messaging_text_in_xml_payload_enabled: Some(v), ..self }
    }

    /// This value with `messagingTextInXmlPayloadEnabled` absent.
    pub open spec fn without_messaging_text_in_xml_payload_enabled(self) -> MsgVpnJndiConnectionFactoryView {
        MsgVpnJndiConnectionFactoryView { messaging_text_in_xml_payload_enabled: None, ..self }
    }

    /// This value with `msgVpnName` present and equal to `v`.
    pub open spec fn with_msg_vpn_name(self, v: Seq<char>) -> MsgVpnJndiConnectionFactoryView {
        MsgVpnJndiConnectionFactoryView { msg_vpn_name: Some(v), ..self }
    }

    /// This value with `msgVpnName` absent.
    pub open spec fn without_msg_vpn_name(self) -> MsgVpnJndiConnectionFactoryView {
        MsgVpnJndiConnectionFactoryView { msg_vpn_name: None, ..self }
    }

    /// This value with `transportCompressionLevel` present and equal to `v`.
    pub open spec fn with_transport_compression_level(self, v: i32) -> MsgVpnJndiConnectionFactoryView {
        MsgVpnJndiConnectionFactoryView { transport_compression_level: Some(v), ..self }
    }

    /// This value with `transportCompressionLevel` absent.
    pub open spec fn without_transport_compression_level(self) -> MsgVpnJndiConnectionFactoryView {
        MsgVpnJndiConnectionFactoryView { transport_compression_level: None, ..self }
    }

    /// This value with `transportConnectRetryCount` present and equal to `v`.
    pub open spec fn with_transport_connect_retry_count(self, v: i32) -> MsgVpnJndiConnectionFactoryView {
        MsgVpnJndiConnectionFactoryView { transport_connect_retry_count: Some(v), ..self }
    }

    /// This value with `transportConnectRetryCount` absent.
    pub open spec fn without_transport_connect_retry_count(self) -> MsgVpnJndiConnectionFactoryView {
        MsgVpnJndiConnectionFactoryView { transport_connect_retry_count: None, ..self }
    }

    /// This value with `transportConnectRetryPerHostCount` present and equal to `v`.
    pub open spec fn with_transport_connect_retry_per_host_count(self, v: i32) -> MsgVpnJndiConnectionFactoryView {
        MsgVpnJndiConnectionFactoryView { transport_connect_retry_per_host_count: Some(v), ..self }
    }

    /// This value with `transportConnectRetryPerHostCount` absent.
    pub open spec fn without_transport_connect_retry_per_host_count(self) -> MsgVpnJndiConnectionFactoryView {
        MsgVpnJndiConnectionFactoryView { transport_connect_retry_per_host_count: None, ..self }
    }

    /// This value with `transportConnectTimeout` present and equal to `v`.
    pub open spec fn with_transport_connect_timeout(self, v: i32) -> MsgVpnJndiConnectionFactoryView {
        MsgVpnJndiConnectionFactoryView { transport_connect_timeout: Some(v), ..self }
    }

    /// This value with `transportConnectTimeout` absent.
    pub open spec fn without_transport_connect_timeout(self) -> MsgVpnJndiConnectionFactoryView {
        MsgVpnJndiConnectionFactoryView { transport_connect_timeout: None, ..self }
    }

    /// This value with `transportDirectTransportEnabled` present and equal to `v`.
    pub open spec fn with_transport_direct_transport_enabled(self, v: bool) -> MsgVpnJndiConnectionFactoryView {
        MsgVpnJndiConnectionFactoryView { transport_direct_transport_enabled: Some(v), ..self }
    }

    /// This value with `transportDirectTransportEnabled` absent.
    pub open spec fn without_transport_direct_transport_enabled(self) -> MsgVpnJndiConnectionFactoryView {
        MsgVpnJndiConnectionFactoryView { transport_direct_transport_enabled: None, ..self }
    }

    /// This value with `transportKeepaliveCount` present and equal to `v`.
    pub open spec fn with_transport_keepalive_count(self, v: i32) -> MsgVpnJndiConnectionFactoryView {
        MsgVpnJndiConnectionFactoryView { transport_keepalive_count: Some(v), ..self }
    }

    /// This value with `transportKeepaliveCount` absent.
    pub open spec fn without_transport_keepalive_count(self) -> MsgVpnJndiConnectionFactoryView {
        MsgVpnJndiConnectionFactoryView { transport_keepalive_count: None, ..self }
    }

    /// This value with `transportKeepaliveEnabled` present and equal to `v`.
    pub open spec fn with_transport_keepalive_enabled(self, v: bool) -> MsgVpnJndiConnectionFactoryView {
        MsgVpnJndiConnectionFactoryView { transport_keepalive_enabled: Some(v), ..self }
    }

    /// This value with `transportKeepaliveEnabled` absent.
    pub open spec fn without_transport_keepalive_enabled(self) -> MsgVpnJndiConnectionFactoryView {
        MsgVpnJndiConnectionFactoryView { transport_keepalive_enabled: None, ..self }
    }

    /// This value with `transportKeepaliveInterval` present and equal to `v`.
    pub open spec fn with_transport_keepalive_interval(self, v: i32) -> MsgVpnJndiConnectionFactoryView {
        MsgVpnJndiConnectionFactoryView { transport_keepalive_interval: Some(v), ..self }
    }

    /// This value with `transportKeepaliveInterval` absent.
    pub open spec fn without_transport_keepalive_interval(self) -> MsgVpnJndiConnectionFactoryView {
        MsgVpnJndiConnectionFactoryView { transport_keepalive_interval: None, ..self }
    }

    /// This value with `transportMsgCallbackOnIoThreadEnabled` present and equal to `v`.
    pub open spec fn with_transport_msg_callback_on_io_thread_enabled(self, v: bool) -> MsgVpnJndiConnectionFactoryView {
        MsgVpnJndiConnectionFactoryView { transport_msg_callback_on_io_thread_enabled: Some(v), ..self }
    }

    /// This value with `transportMsgCallbackOnIoThreadEnabled` absent.
    pub open spec fn without_transport_msg_callback_on_io_thread_enabled(self) -> MsgVpnJndiConnectionFactoryView {
        MsgVpnJndiConnectionFactoryView { transport_msg_callback_on_io_thread_enabled: None, ..self }
    }

    /// This value with `transportOptimizeDirectEnabled` present and equal to `v`.
    pub open spec fn with_transport_optimize_direct_enabled(self, v: bool) -> MsgVpnJndiConnectionFactoryView {
        MsgVpnJndiConnectionFactoryView { transport_optimize_direct_enabled: Some(v), ..self }
    }

    /// This value with `transportOptimizeDirectEnabled` absent.
    pub open spec fn without_transport_optimize_direct_enabled(self) -> MsgVpnJndiConnectionFactoryView {
        MsgVpnJndiConnectionFactoryView { transport_optimize_direct_enabled: None, ..self }
    }

    /// This value with `transportPort` present and equal to `v`.
    pub open spec fn with_transport_port(self, v: i32) -> MsgVpnJndiConnectionFactoryView {
        MsgVpnJndiConnectionFactoryView { transport_port: Some(v), ..self }
    }

    /// This value with `transportPort` absent.
    pub open spec fn without_transport_port(self) -> MsgVpnJndiConnectionFactoryView {
        MsgVpnJndiConnectionFactoryView { transport_port: None, ..self }
    }

    /// This value with `transportReadTimeout` present and equal to `v`.
    pub open spec fn with_transport_read_timeout(self, v: i32) -> MsgVpnJndiConnectionFactoryView {
        MsgVpnJndiConnectionFactoryView { transport_read_timeout: Some(v), ..self }
    }

    /// This value with `transportReadTimeout` absent.
    pub open spec fn without_transport_read_timeout(self) -> MsgVpnJndiConnectionFactoryView {
        MsgVpnJndiConnectionFactoryView { transport_read_timeout: None, ..self }
    }

    /// This value with `transportReceiveBufferSize` present and equal to `v`.
    pub open spec fn with_transport_receive_buffer_size(self, v: i32) -> MsgVpnJndiConnectionFactoryView {
        MsgVpnJndiConnectionFactoryView { transport_receive_buffer_size: Some(v), ..self }
    }

    /// This value with `transportReceiveBufferSize` absent.
    pub open spec fn without_transport_receive_buffer_size(self) -> MsgVpnJndiConnectionFactoryView {
        MsgVpnJndiConnectionFactoryView { transport_receive_buffer_size: None, ..self }
    }

    /// This value with `transportReconnectRetryCount` present and equal to `v`.
    pub open spec fn with_transport_reconnect_retry_count(self, v: i32) -> MsgVpnJndiConnectionFactoryView {
        MsgVpnJndiConnectionFactoryView { transport_reconnect_retry_count: Some(v), ..self }
    }

    /// This value with `transportReconnectRetryCount` absent.
    pub open spec fn without_transport_reconnect_retry_count(self) -> MsgVpnJndiConnectionFactoryView {
        MsgVpnJndiConnectionFactoryView { transport_reconnect_retry_count: None, ..self }
    }

    /// This value with `transportReconnectRetryWait` present and equal to `v`.
    pub open spec fn with_transport_reconnect_retry_wait(self, v: i32) -> MsgVpnJndiConnectionFactoryView {
        MsgVpnJndiConnectionFactoryView { transport_reconnect_retry_wait: Some(v), ..self }
    }

    /// This value with `transportReconnectRetryWait` absent.
    pub open spec fn without_transport_reconnect_retry_wait(self) -> MsgVpnJndiConnectionFactoryView {
        MsgVpnJndiConnectionFactoryView { transport_reconnect_retry_wait: None, ..self }
    }

    /// This value with `transportSendBufferSize` present and equal to `v`.
    pub open spec fn with_transport_send_buffer_size(self, v: i32) -> MsgVpnJndiConnectionFactoryView {
        MsgVpnJndiConnectionFactoryView { transport_send_buffer_size: Some(v), ..self }
    }

    /// This value with `transportSendBufferSize` absent.
    pub open spec fn without_transport_send_buffer_size(self) -> MsgVpnJndiConnectionFactoryView {
        MsgVpnJndiConnectionFactoryView { transport_send_buffer_size: None, ..self }
    }

    /// This value with `transportTcpNoDelayEnabled` present and equal to `v`.
    pub open spec fn with_transport_tcp_no_delay_enabled(self, v: bool) -> MsgVpnJndiConnectionFactoryView {
        MsgVpnJndiConnectionFactoryView { transport_tcp_no_delay_enabled: Some(v), ..self }
    }

    /// This value with `transportTcpNoDelayEnabled` absent.
    pub open spec fn without_transport_tcp_no_delay_enabled(self) -> MsgVpnJndiConnectionFactoryView {
        MsgVpnJndiConnectionFactoryView { transport_tcp_no_delay_enabled: None, ..self }
    }

    /// This value with `xaEnabled` present and equal to `v`.
    pub open spec fn with_xa_enabled(self, v: bool) -> MsgVpnJndiConnectionFactoryView {
        MsgVpnJndiConnectionFactoryView { xa_enabled: Some(v), ..self }
    }

    /// This value with `xaEnabled` absent.
    pub open spec fn without_xa_enabled(self) -> MsgVpnJndiConnectionFactoryView {
        MsgVpnJndiConnectionFactoryView { xa_enabled: None, ..self }
    }
}

impl View for MsgVpnJndiConnectionFactory {
    type V = MsgVpnJndiConnectionFactoryView;

    closed spec fn view(&self) -> MsgVpnJndiConnectionFactoryView {
        MsgVpnJndiConnectionFactoryView {
            allow_duplicate_client_id_enabled: self.allow_duplicate_client_id_enabled.deep_view(),
            client_description: self.client_description.deep_view(),
            client_id: self.client_id.deep_view(),
            connection_factory_name: self.connection_factory_name.deep_view(),
            dto_receive_override_enabled: self.dto_receive_override_enabled.deep_view(),
            dto_receive_subscriber_local_priority: self.dto_receive_subscriber_local_priority.deep_view(),
            dto_receive_subscriber_network_priority: self.dto_receive_subscriber_network_priority.deep_view(),
            dto_send_enabled: self.dto_send_enabled.deep_view(),
            dynamic_endpoint_create_durable_enabled: self.dynamic_endpoint_create_durable_enabled.deep_view(),
            dynamic_endpoint_respect_ttl_enabled: self.dynamic_endpoint_respect_ttl_enabled.deep_view(),
            guaranteed_receive_ack_timeout: self.guaranteed_receive_ack_timeout.deep_view(),
            guaranteed_receive_window_size: self.guaranteed_receive_window_size.deep_view(),
            guaranteed_receive_window_size_ack_threshold: self.guaranteed_receive_window_size_ack_threshold.deep_view(),
            guaranteed_send_ack_timeout: self.guaranteed_send_ack_timeout.deep_view(),
            guaranteed_send_window_size: self.guaranteed_send_window_size.deep_view(),
            messaging_default_delivery_mode: self.messaging_default_delivery_mode.deep_view(),
            messaging_default_dmq_eligible_enabled: self.messaging_default_dmq_eligible_enabled.deep_view(),
            messaging_default_eliding_eligible_enabled: self.messaging_default_eliding_eligible_enabled.deep_view(),
            messaging_jmsx_user_id_enabled: self.messaging_jmsx_user_id_enabled.deep_view(),
            messaging_text_in_xml_payload_enabled: self.messaging_text_in_xml_payload_enabled.deep_view(),
            msg_vpn_name: self.msg_vpn_name.deep_view(),
            transport_compression_level: self.transport_compression_level.deep_view(),
            transport_connect_retry_count: self.transport_connect_retry_count.deep_view(),
            transport_connect_retry_per_host_count: self.transport_connect_retry_per_host_count.deep_view(),
            transport_connect_timeout: self.transport_connect_timeout.deep_view(),
            transport_direct_transport_enabled: self.transport_direct_transport_enabled.deep_view(),
            transport_keepalive_count: self.transport_keepalive_count.deep_view(),
            transport_keepalive_enabled: self.transport_keepalive_enabled.deep_view(),
            transport_keepalive_interval: self.transport_keepalive_interval.deep_view(),
            transport_msg_callback_on_io_thread_enabled: self.transport_msg_callback_on_io_thread_enabled.deep_view(),
            transport_optimize_direct_enabled: self.transport_optimize_direct_enabled.deep_view(),
            transport_port: self.transport_port.deep_view(),
            transport_read_timeout: self.transport_read_timeout.deep_view(),
            transport_receive_buffer_size: self.transport_receive_buffer_size.deep_view(),
            transport_reconnect_retry_count: self.transport_reconnect_retry_count.deep_view(),
            transport_reconnect_retry_wait: self.transport_reconnect_retry_wait.deep_view(),
            transport_send_buffer_size: self.transport_send_buffer_size.deep_view(),
            transport_tcp_no_delay_enabled: self.transport_tcp_no_delay_enabled.deep_view(),
            xa_enabled: self.xa_enabled.deep_view(),
        }
    }
}

impl MsgVpnJndiConnectionFactory {
    /// Returns a value with every attribute absent.
    pub fn new() -> (r: MsgVpnJndiConnectionFactory)
        ensures
            r@ == MsgVpnJndiConnectionFactoryView::empty(),
    {
        MsgVpnJndiConnectionFactory {
            allow_duplicate_client_id_enabled: None,
            client_description: None,
            client_id: None,
            connection_factory_name: None,
            dto_receive_override_enabled: None,
            dto_receive_subscriber_local_priority: None,
            dto_receive_subscriber_network_priority: None,
            dto_send_enabled: None,
            dynamic_endpoint_create_durable_enabled: None,
            dynamic_endpoint_respect_ttl_enabled: None,
            guaranteed_receive_ack_timeout: None,
            guaranteed_receive_window_size: None,
            guaranteed_receive_window_size_ack_threshold: None,
            guaranteed_send_ack_timeout: None,
            guaranteed_send_window_size: None,
            messaging_default_delivery_mode: None,
            messaging_default_dmq_eligible_enabled: None,
            messaging_default_eliding_eligible_enabled: None,
            messaging_jmsx_user_id_enabled: None,
            messaging_text_in_xml_payload_enabled: None,
            msg_vpn_name: None,
            transport_compression_level: None,
            transport_connect_retry_count: None,
            transport_connect_retry_per_host_count: None,
            transport_connect_timeout: None,
            transport_direct_transport_enabled: None,
            transport_keepalive_count: None,
            transport_keepalive_enabled: None,
            transport_keepalive_interval: None,
            transport_msg_callback_on_io_thread_enabled: None,
            transport_optimize_direct_enabled: None,
            transport_port: None,
            transport_read_timeout: None,
            transport_receive_buffer_size: None,
            transport_reconnect_retry_count: None,
            transport_reconnect_retry_wait: None,
            transport_send_buffer_size: None,
            transport_tcp_no_delay_enabled: None,
            xa_enabled: None,
        }
    }

    /// Sets `allowDuplicateClientIdEnabled` to the given value; every other attribute is left as it was.
    pub fn set_allow_duplicate_client_id_enabled(&mut self, allow_duplicate_client_id_enabled: bool)
        ensures
            final(self)@ == old(self)@.with_allow_duplicate_client_id_enabled(allow_duplicate_client_id_enabled),
    {
        self.allow_duplicate_client_id_enabled = Some(allow_duplicate_client_id_enabled);
    }

    /// Returns this value with `allowDuplicateClientIdEnabled` set to the given value.
    pub fn with_allow_duplicate_client_id_enabled(self, allow_duplicate_client_id_enabled: bool) -> (r: MsgVpnJndiConnectionFactory)
        ensures
            r@ == self@.with_allow_duplicate_client_id_enabled(allow_duplicate_client_id_enabled),
    {
        let mut r = self;
        r.allow_duplicate_client_id_enabled = Some(allow_duplicate_client_id_enabled);
        r
    }

    /// Returns `allowDuplicateClientIdEnabled` if it is present.
    pub fn allow_duplicate_client_id_enabled(&self) -> (r: Option<&bool>)
        ensures
            r.deep_view() == self@.allow_duplicate_client_id_enabled,
    {
        self.allow_duplicate_client_id_enabled.as_ref()
    }

    /// Removes `allowDuplicateClientIdEnabled`; every other attribute is left as it was.
    pub fn reset_allow_duplicate_client_id_enabled(&mut self)
        ensures
            final(self)@ == old(self)@.without_allow_duplicate_client_id_enabled(),
    {
        self.allow_duplicate_client_id_enabled = None;
    }

    /// Sets `clientDescription` to the given value; every other attribute is left as it was.
    pub fn set_client_description(&mut self, client_description: String)
        ensures
            final(self)@ == old(self)@.with_client_description(client_description@),
    {
        self.client_description = Some(client_description);
    }

    /// Returns this value with `clientDescription` set to the given value.
    pub fn with_client_description(self, client_description: String) -> (r: MsgVpnJndiConnectionFactory)
        ensures
            r@ == self@.with_client_description(client_description@),
    {
        let mut r = self;
        r.client_description = Some(client_description);
        r
    }

    /// Returns `clientDescription` if it is present.
    pub fn client_description(&self) -> (r: Option<&String>)
        ensures
            r.deep_view() == self@.client_description,
    {
        self.client_description.as_ref()
    }

    /// Removes `clientDescription`; every other attribute is left as it was.
    pub fn reset_client_description(&mut self)
        ensures
            final(self)@ == old(self)@.without_client_description(),
    {
        self.client_description = None;
    }

    /// Sets `clientId` to the given value; every other attribute is left as it was.
    pub fn set_client_id(&mut self, client_id: String)
        ensures
            final(self)@ == old(self)@.with_client_id(client_id@),
    {
        self.client_id = Some(client_id);
    }

    /// Returns this value with `clientId` set to the given value.
    pub fn with_client_id(self, client_id: String) -> (r: MsgVpnJndiConnectionFactory)
        ensures
            r@ == self@.with_client_id(client_id@),
    {
        let mut r = self;
        r.client_id = Some(client_id);
        r
    }

    /// Returns `clientId` if it is present.
    pub fn client_id(&self) -> (r: Option<&String>)
        ensures
            r.deep_view() == self@.client_id,
    {
        self.client_id.as_ref()
    }

    /// Removes `clientId`; every other attribute is left as it was.
    pub fn reset_client_id(&mut self)
        ensures
            final(self)@ == old(self)@.without_client_id(),
    {
        self.client_id = None;
    }

    /// Sets `connectionFactoryName` to the given value; every other attribute is left as it was.
    pub fn set_connection_factory_name(&mut self, connection_factory_name: String)
        ensures
            final(self)@ == old(self)@.with_connection_factory_name(connection_factory_name@),
    {
        self.connection_factory_name = Some(connection_factory_name);
    }

    /// Returns this value with `connectionFactoryName` set to the given value.
    pub fn with_connection_factory_name(self, connection_factory_name: String) -> (r: MsgVpnJndiConnectionFactory)
        ensures
            r@ == self@.with_connection_factory_name(connection_factory_name@),
    {
        let mut r = self;
        r.connection_factory_name = Some(connection_factory_name);
        r
    }

    /// Returns `connectionFactoryName` if it is present.
    pub fn connection_factory_name(&self) -> (r: Option<&String>)
        ensures
            r.deep_view() == self@.connection_factory_name,
    {
        self.connection_factory_name.as_ref()
    }

    /// Removes `connectionFactoryName`; every other attribute is left as it was.
    pub fn reset_connection_factory_name(&mut self)
        ensures
            final(self)@ == old(self)@.without_connection_factory_name(),
    {
        self.connection_factory_name = None;
    }

    /// Sets `dtoReceiveOverrideEnabled` to the given value; every other attribute is left as it was.
    pub fn set_dto_receive_override_enabled(&mut self, dto_receive_override_enabled: bool)
        ensures
            final(self)@ == old(self)@.with_dto_receive_override_enabled(dto_receive_override_enabled),
    {
        self.dto_receive_override_enabled = Some(dto_receive_override_enabled);
    }

    /// Returns this value with `dtoReceiveOverrideEnabled` set to the given value.
    pub fn with_dto_receive_override_enabled(self, dto_receive_override_enabled: bool) -> (r: MsgVpnJndiConnectionFactory)
        ensures
            r@ == self@.with_dto_receive_override_enabled(dto_receive_override_enabled),
    {
        let mut r = self;
        r.dto_receive_override_enabled = Some(dto_receive_override_enabled);
        r
    }

    /// Returns `dtoReceiveOverrideEnabled` if it is present.
    pub fn dto_receive_override_enabled(&self) -> (r: Option<&bool>)
        ensures
            r.deep_view() == self@.dto_receive_override_enabled,
    {
        self.dto_receive_override_enabled.as_ref()
    }

    /// Removes `dtoReceiveOverrideEnabled`; every other attribute is left as it was.
    pub fn reset_dto_receive_override_enabled(&mut self)
        ensures
            final(self)@ == old(self)@.without_dto_receive_override_enabled(),
    {
        self.dto_receive_override_enabled = None;
    }

    /// Sets `dtoReceiveSubscriberLocalPriority` to the given value; every other attribute is left as it was.
    pub fn set_dto_receive_subscriber_local_priority(&mut self, dto_receive_subscriber_local_priority: i32)
        ensures
            final(self)@ == old(self)@.with_dto_receive_subscriber_local_priority(dto_receive_subscriber_local_priority),
    {
        self.dto_receive_subscriber_local_priority = Some(dto_receive_subscriber_local_priority);
    }

    /// Returns this value with `dtoReceiveSubscriberLocalPriority` set to the given value.
    pub fn with_dto_receive_subscriber_local_priority(self, dto_receive_subscriber_local_priority: i32) -> (r: MsgVpnJndiConnectionFactory)
        ensures
            r@ == self@.with_dto_receive_subscriber_local_priority(dto_receive_subscriber_local_priority),
    {
        let mut r = self;
        r.dto_receive_subscriber_local_priority = Some(dto_receive_subscriber_local_priority);
        r
    }

    /// Returns `dtoReceiveSubscriberLocalPriority` if it is present.
    pub fn dto_receive_subscriber_local_priority(&self) -> (r: Option<&i32>)
        ensures
            r.deep_view() == self@.dto_receive_subscriber_local_priority,
    {
        self.dto_receive_subscriber_local_priority.as_ref()
    }

    /// Removes `dtoReceiveSubscriberLocalPriority`; every other attribute is left as it was.
    pub fn reset_dto_receive_subscriber_local_priority(&mut self)
        ensures
            final(self)@ == old(self)@.without_dto_receive_subscriber_local_priority(),
    {
        self.dto_receive_subscriber_local_priority = None;
    }

    /// Sets `dtoReceiveSubscriberNetworkPriority` to the given value; every other attribute is left as it was.
    pub fn set_dto_receive_subscriber_network_priority(&mut self, dto_receive_subscriber_network_priority: i32)
        ensures
            final(self)@ == old(self)@.with_dto_receive_subscriber_network_priority(dto_receive_subscriber_network_priority),
    {
        self.dto_receive_subscriber_network_priority = Some(dto_receive_subscriber_network_priority);
    }

    /// Returns this value with `dtoReceiveSubscriberNetworkPriority` set to the given value.
    pub fn with_dto_receive_subscriber_network_priority(self, dto_receive_subscriber_network_priority: i32) -> (r: MsgVpnJndiConnectionFactory)
        ensures
            r@ == self@.with_dto_receive_subscriber_network_priority(dto_receive_subscriber_network_priority),
    {
        let mut r = self;
        r.dto_receive_subscriber_network_priority = Some(dto_receive_subscriber_network_priority);
        r
    }

    /// Returns `dtoReceiveSubscriberNetworkPriority` if it is present.
    pub fn dto_receive_subscriber_network_priority(&self) -> (r: Option<&i32>)
        ensures
            r.deep_view() == self@.dto_receive_subscriber_network_priority,
    {
        self.dto_receive_subscriber_network_priority.as_ref()
    }

    /// Removes `dtoReceiveSubscriberNetworkPriority`; every other attribute is left as it was.
    pub fn reset_dto_receive_subscriber_network_priority(&mut self)
        ensures
            final(self)@ == old(self)@.without_dto_receive_subscriber_network_priority(),
    {
        self.dto_receive_subscriber_network_priority = None;
    }

    /// Sets `dtoSendEnabled` to the given value; every other attribute is left as it was.
    pub fn set_dto_send_enabled(&mut self, dto_send_enabled: bool)
        ensures
            final(self)@ == old(self)@.with_dto_send_enabled(dto_send_enabled),
    {
        self.dto_send_enabled = Some(dto_send_enabled);
    }

    /// Returns this value with `dtoSendEnabled` set to the given value.
    pub fn with_dto_send_enabled(self, dto_send_enabled: bool) -> (r: MsgVpnJndiConnectionFactory)
        ensures
            r@ == self@.with_dto_send_enabled(dto_send_enabled),
    {
        let mut r = self;
        r.dto_send_enabled = Some(dto_send_enabled);
        r
    }

    /// Returns `dtoSendEnabled` if it is present.
    pub fn dto_send_enabled(&self) -> (r: Option<&bool>)
        ensures
            r.deep_view() == self@.dto_send_enabled,
    {
        self.dto_send_enabled.as_ref()
    }

    /// Removes `dtoSendEnabled`; every other attribute is left as it was.
    pub fn reset_dto_send_enabled(&mut self)
        ensures
            final(self)@ == old(self)@.without_dto_send_enabled(),
    {
        self.dto_send_enabled = None;
    }

    /// Sets `dynamicEndpointCreateDurableEnabled` to the given value; every other attribute is left as it was.
    pub fn set_dynamic_endpoint_create_durable_enabled(&mut self, dynamic_endpoint_create_durable_enabled: bool)
        ensures
            final(self)@ == old(self)@.with_dynamic_endpoint_create_durable_enabled(dynamic_endpoint_create_durable_enabled),
    {
        self.dynamic_endpoint_create_durable_enabled = Some(dynamic_endpoint_create_durable_enabled);
    }

    /// Returns this value with `dynamicEndpointCreateDurableEnabled` set to the given value.
    pub fn with_dynamic_endpoint_create_durable_enabled(self, dynamic_endpoint_create_durable_enabled: bool) -> (r: MsgVpnJndiConnectionFactory)
        ensures
            r@ == self@.with_dynamic_endpoint_create_durable_enabled(dynamic_endpoint_create_durable_enabled),
    {
        let mut r = self;
        r.dynamic_endpoint_create_durable_enabled = Some(dynamic_endpoint_create_durable_enabled);
        r
    }

    /// Returns `dynamicEndpointCreateDurableEnabled` if it is present.
    pub fn dynamic_endpoint_create_durable_enabled(&self) -> (r: Option<&bool>)
        ensures
            r.deep_view() == self@.dynamic_endpoint_create_durable_enabled,
    {
        self.dynamic_endpoint_create_durable_enabled.as_ref()
    }

    /// Removes `dynamicEndpointCreateDurableEnabled`; every other attribute is left as it was.
    pub fn reset_dynamic_endpoint_create_durable_enabled(&mut self)
        ensures
            final(self)@ == old(self)@.without_dynamic_endpoint_create_durable_enabled(),
    {
        self.dynamic_endpoint_create_durable_enabled = None;
    }

    /// Sets `dynamicEndpointRespectTtlEnabled` to the given value; every other attribute is left as it was.
    pub fn set_dynamic_endpoint_respect_ttl_enabled(&mut self, dynamic_endpoint_respect_ttl_enabled: bool)
        ensures
            final(self)@ == old(self)@.with_dynamic_endpoint_respect_ttl_enabled(dynamic_endpoint_respect_ttl_enabled),
    {
        self.dynamic_endpoint_respect_ttl_enabled = Some(dynamic_endpoint_respect_ttl_enabled);
    }

    /// Returns this value with `dynamicEndpointRespectTtlEnabled` set to the given value.
    pub fn with_dynamic_endpoint_respect_ttl_enabled(self, dynamic_endpoint_respect_ttl_enabled: bool) -> (r: MsgVpnJndiConnectionFactory)
        ensures
            r@ == self@.with_dynamic_endpoint_respect_ttl_enabled(dynamic_endpoint_respect_ttl_enabled),
    {
        let mut r = self;
        r.dynamic_endpoint_respect_ttl_enabled = Some(dynamic_endpoint_respect_ttl_enabled);
        r
    }

    /// Returns `dynamicEndpointRespectTtlEnabled` if it is present.
    pub fn dynamic_endpoint_respect_ttl_enabled(&self) -> (r: Option<&bool>)
        ensures
            r.deep_view() == self@.dynamic_endpoint_respect_ttl_enabled,
    {
        self.dynamic_endpoint_respect_ttl_enabled.as_ref()
    }

    /// Removes `dynamicEndpointRespectTtlEnabled`; every other attribute is left as it was.
    pub fn reset_dynamic_endpoint_respect_ttl_enabled(&mut self)
        ensures
            final(self)@ == old(self)@.without_dynamic_endpoint_respect_ttl_enabled(),
    {
        self.dynamic_endpoint_respect_ttl_enabled = None;
    }

    /// Sets `guaranteedReceiveAckTimeout` to the given value; every other attribute is left as it was.
    pub fn set_guaranteed_receive_ack_timeout(&mut self, guaranteed_receive_ack_timeout: i32)
        ensures
            final(self)@ == old(self)@.with_guaranteed_receive_ack_timeout(guaranteed_receive_ack_timeout),
    {
        self.guaranteed_receive_ack_timeout = Some(guaranteed_receive_ack_timeout);
    }

    /// Returns this value with `guaranteedReceiveAckTimeout` set to the given value.
    pub fn with_guaranteed_receive_ack_timeout(self, guaranteed_receive_ack_timeout: i32) -> (r: MsgVpnJndiConnectionFactory)
        ensures
            r@ == self@.with_guaranteed_receive_ack_timeout(guaranteed_receive_ack_timeout),
    {
        let mut r = self;
        r.guaranteed_receive_ack_timeout = Some(guaranteed_receive_ack_timeout);
        r
    }

    /// Returns `guaranteedReceiveAckTimeout` if it is present.
    pub fn guaranteed_receive_ack_timeout(&self) -> (r: Option<&i32>)
        ensures
            r.deep_view() == self@.guaranteed_receive_ack_timeout,
    {
        self.guaranteed_receive_ack_timeout.as_ref()
    }

    /// Removes `guaranteedReceiveAckTimeout`; every other attribute is left as it was.
    pub fn reset_guaranteed_receive_ack_timeout(&mut self)
        ensures
            final(self)@ == old(self)@.without_guaranteed_receive_ack_timeout(),
    {
        self.guaranteed_receive_ack_timeout = None;
    }

    /// Sets `guaranteedReceiveWindowSize` to the given value; every other attribute is left as it was.
    pub fn set_guaranteed_receive_window_size(&mut self, guaranteed_receive_window_size: i32)
        ensures
            final(self)@ == old(self)@.with_guaranteed_receive_window_size(guaranteed_receive_window_size),
    {
        self.guaranteed_receive_window_size = Some(guaranteed_receive_window_size);
    }

    /// Returns this value with `guaranteedReceiveWindowSize` set to the given value.
    pub fn with_guaranteed_receive_window_size(self, guaranteed_receive_window_size: i32) -> (r: MsgVpnJndiConnectionFactory)
        ensures
            r@ == self@.with_guaranteed_receive_window_size(guaranteed_receive_window_size),
    {
        let mut r = self;
        r.guaranteed_receive_window_size = Some(guaranteed_receive_window_size);
        r
    }

    /// Returns `guaranteedReceiveWindowSize` if it is present.
    pub fn guaranteed_receive_window_size(&self) -> (r: Option<&i32>)
        ensures
            r.deep_view() == self@.guaranteed_receive_window_size,
    {
        self.guaranteed_receive_window_size.as_ref()
    }

    /// Removes `guaranteedReceiveWindowSize`; every other attribute is left as it was.
    pub fn reset_guaranteed_receive_window_size(&mut self)
        ensures
            final(self)@ == old(self)@.without_guaranteed_receive_window_size(),
    {
        self.guaranteed_receive_window_size = None;
    }

    /// Sets `guaranteedReceiveWindowSizeAckThreshold` to the given value; every other attribute is left as it was.
    pub fn set_guaranteed_receive_window_size_ack_threshold(&mut self, guaranteed_receive_window_size_ack_threshold: i32)
        ensures
            final(self)@ == old(self)@.with_guaranteed_receive_window_size_ack_threshold(guaranteed_receive_window_size_ack_threshold),
    {
        self.guaranteed_receive_window_size_ack_threshold = Some(guaranteed_receive_window_size_ack_threshold);
    }

    /// Returns this value with `guaranteedReceiveWindowSizeAckThreshold` set to the given value.
    pub fn with_guaranteed_receive_window_size_ack_threshold(self, guaranteed_receive_window_size_ack_threshold: i32) -> (r: MsgVpnJndiConnectionFactory)
        ensures
            r@ == self@.with_guaranteed_receive_window_size_ack_threshold(guaranteed_receive_window_size_ack_threshold),
    {
        let mut r = self;
        r.guaranteed_receive_window_size_ack_threshold = Some(guaranteed_receive_window_size_ack_threshold);
        r
    }

    /// Returns `guaranteedReceiveWindowSizeAckThreshold` if it is present.
    pub fn guaranteed_receive_window_size_ack_threshold(&self) -> (r: Option<&i32>)
        ensures
            r.deep_view() == self@.guaranteed_receive_window_size_ack_threshold,
    {
        self.guaranteed_receive_window_size_ack_threshold.as_ref()
    }

    /// Removes `guaranteedReceiveWindowSizeAckThreshold`; every other attribute is left as it was.
    pub fn reset_guaranteed_receive_window_size_ack_threshold(&mut self)
        ensures
            final(self)@ == old(self)@.without_guaranteed_receive_window_size_ack_threshold(),
    {
        self.guaranteed_receive_window_size_ack_threshold = None;
    }

    /// Sets `guaranteedSendAckTimeout` to the given value; every other attribute is left as it was.
    pub fn set_guaranteed_send_ack_timeout(&mut self, guaranteed_send_ack_timeout: i32)
        ensures
            final(self)@ == old(self)@.with_guaranteed_send_ack_timeout(guaranteed_send_ack_timeout),
    {
        self.guaranteed_send_ack_timeout = Some(guaranteed_send_ack_timeout);
    }

    /// Returns this value with `guaranteedSendAckTimeout` set to the given value.
    pub fn with_guaranteed_send_ack_timeout(self, guaranteed_send_ack_timeout: i32) -> (r: MsgVpnJndiConnectionFactory)
        ensures
            r@ == self@.with_guaranteed_send_ack_timeout(guaranteed_send_ack_timeout),
    {
        let mut r = self;
        r.guaranteed_send_ack_timeout = Some(guaranteed_send_ack_timeout);
        r
    }

    /// Returns `guaranteedSendAckTimeout` if it is present.
    pub fn guaranteed_send_ack_timeout(&self) -> (r: Option<&i32>)
        ensures
            r.deep_view() == self@.guaranteed_send_ack_timeout,
    {
        self.guaranteed_send_ack_timeout.as_ref()
    }

    /// Removes `guaranteedSendAckTimeout`; every other attribute is left as it was.
    pub fn reset_guaranteed_send_ack_timeout(&mut self)
        ensures
            final(self)@ == old(self)@.without_guaranteed_send_ack_timeout(),
    {
        self.guaranteed_send_ack_timeout = None;
    }

    /// Sets `guaranteedSendWindowSize` to the given value; every other attribute is left as it was.
    pub fn set_guaranteed_send_window_size(&mut self, guaranteed_send_window_size: i32)
        ensures
            final(self)@ == old(self)@.with_guaranteed_send_window_size(guaranteed_send_window_size),
    {
        self.guaranteed_send_window_size = Some(guaranteed_send_window_size);
    }

    /// Returns this value with `guaranteedSendWindowSize` set to the given value.
    pub fn with_guaranteed_send_window_size(self, guaranteed_send_window_size: i32) -> (r: MsgVpnJndiConnectionFactory)
        ensures
            r@ == self@.with_guaranteed_send_window_size(guaranteed_send_window_size),
    {
        let mut r = self;
        r.guaranteed_send_window_size = Some(guaranteed_send_window_size);
        r
    }

    /// Returns `guaranteedSendWindowSize` if it is present.
    pub fn guaranteed_send_window_size(&self) -> (r: Option<&i32>)
        ensures
            r.deep_view() == self@.guaranteed_send_window_size,
    {
        self.guaranteed_send_window_size.as_ref()
    }

    /// Removes `guaranteedSendWindowSize`; every other attribute is left as it was.
    pub fn reset_guaranteed_send_window_size(&mut self)
        ensures
            final(self)@ == old(self)@.without_guaranteed_send_window_size(),
    {
        self.guaranteed_send_window_size = None;
    }

    /// Sets `messagingDefaultDeliveryMode` to the given value; every other attribute is left as it was.
    pub fn set_messaging_default_delivery_mode(&mut self, messaging_default_delivery_mode: String)
        ensures
            final(self)@ == old(self)@.with_messaging_default_delivery_mode(messaging_default_delivery_mode@),
    {
        self.messaging_default_delivery_mode = Some(messaging_default_delivery_mode);
    }

    /// Returns this value with `messagingDefaultDeliveryMode` set to the given value.
    pub fn with_messaging_default_delivery_mode(self, messaging_default_delivery_mode: String) -> (r: MsgVpnJndiConnectionFactory)
        ensures
            r@ == self@.with_messaging_default_delivery_mode(messaging_default_delivery_mode@),
    {
        let mut r = self;
        r.messaging_default_delivery_mode = Some(messaging_default_delivery_mode);
        r
    }

    /// Returns `messagingDefaultDeliveryMode` if it is present.
    pub fn messaging_default_delivery_mode(&self) -> (r: Option<&String>)
        ensures
            r.deep_view() == self@.messaging_default_delivery_mode,
    {
        self.messaging_default_delivery_mode.as_ref()
    }

    /// Removes `messagingDefaultDeliveryMode`; every other attribute is left as it was.
    pub fn reset_messaging_default_delivery_mode(&mut self)
        ensures
            final(self)@ == old(self)@.without_messaging_default_delivery_mode(),
    {
        self.messaging_default_delivery_mode = None;
    }

    /// Sets `messagingDefaultDmqEligibleEnabled` to the given value; every other attribute is left as it was.
    pub fn set_messaging_default_dmq_eligible_enabled(&mut self, messaging_default_dmq_eligible_enabled: bool)
        ensures
            final(self)@ == old(self)@.with_messaging_default_dmq_eligible_enabled(messaging_default_dmq_eligible_enabled),
    {
        self.messaging_default_dmq_eligible_enabled = Some(messaging_default_dmq_eligible_enabled);
    }

    /// Returns this value with `messagingDefaultDmqEligibleEnabled` set to the given value.
    pub fn with_messaging_default_dmq_eligible_enabled(self, messaging_default_dmq_eligible_enabled: bool) -> (r: MsgVpnJndiConnectionFactory)
        ensures
            r@ == self@.with_messaging_default_dmq_eligible_enabled(messaging_default_dmq_eligible_enabled),
    {
        let mut r = self;
        r.messaging_default_dmq_eligible_enabled = Some(messaging_default_dmq_eligible_enabled);
        r
    }

    /// Returns `messagingDefaultDmqEligibleEnabled` if it is present.
    pub fn messaging_default_dmq_eligible_enabled(&self) -> (r: Option<&bool>)
        ensures
            r.deep_view() == self@.messaging_default_dmq_eligible_enabled,
    {
        self.messaging_default_dmq_eligible_enabled.as_ref()
    }

    /// Removes `messagingDefaultDmqEligibleEnabled`; every other attribute is left as it was.
    pub fn reset_messaging_default_dmq_eligible_enabled(&mut self)
        ensures
            final(self)@ == old(self)@.without_messaging_default_dmq_eligible_enabled(),
    {
        self.messaging_default_dmq_eligible_enabled = None;
    }

    /// Sets `messagingDefaultElidingEligibleEnabled` to the given value; every other attribute is left as it was.
    pub fn set_messaging_default_eliding_eligible_enabled(&mut self, messaging_default_eliding_eligible_enabled: bool)
        ensures
            final(self)@ == old(self)@.with_messaging_default_eliding_eligible_enabled(messaging_default_eliding_eligible_enabled),
    {
        self.messaging_default_eliding_eligible_enabled = Some(messaging_default_eliding_eligible_enabled);
    }

    /// Returns this value with `messagingDefaultElidingEligibleEnabled` set to the given value.
    pub fn with_messaging_default_eliding_eligible_enabled(self, messaging_default_eliding_eligible_enabled: bool) -> (r: MsgVpnJndiConnectionFactory)
        ensures
            r@ == self@.with_messaging_default_eliding_eligible_enabled(messaging_default_eliding_eligible_enabled),
    {
        let mut r = self;
        r.messaging_default_eliding_eligible_enabled = Some(messaging_default_eliding_eligible_enabled);
        r
    }

    /// Returns `messagingDefaultElidingEligibleEnabled` if it is present.
    pub fn messaging_default_eliding_eligible_enabled(&self) -> (r: Option<&bool>)
        ensures
            r.deep_view() == self@.messaging_default_eliding_eligible_enabled,
    {
        self.messaging_default_eliding_eligible_enabled.as_ref()
    }

    /// Removes `messagingDefaultElidingEligibleEnabled`; every other attribute is left as it was.
    pub fn reset_messaging_default_eliding_eligible_enabled(&mut self)
        ensures
            final(self)@ == old(self)@.without_messaging_default_eliding_eligible_enabled(),
    {
        self.messaging_default_eliding_eligible_enabled = None;
    }

    /// Sets `messagingJmsxUserIdEnabled` to the given value; every other attribute is left as it was.
    pub fn set_messaging_jmsx_user_id_enabled(&mut self, messaging_jmsx_user_id_enabled: bool)
        ensures
            final(self)@ == old(self)@.with_messaging_jmsx_user_id_enabled(messaging_jmsx_user_id_enabled),
    {
        self.messaging_jmsx_user_id_enabled = Some(messaging_jmsx_user_id_enabled);
    }

    /// Returns this value with `messagingJmsxUserIdEnabled` set to the given value.
    pub fn with_messaging_jmsx_user_id_enabled(self, messaging_jmsx_user_id_enabled: bool) -> (r: MsgVpnJndiConnectionFactory)
        ensures
            r@ == self@.with_messaging_jmsx_user_id_enabled(messaging_jmsx_user_id_enabled),
    {
        let mut r = self;
        r.messaging_jmsx_user_id_enabled = Some(messaging_jmsx_user_id_enabled);
        r
    }

    /// Returns `messagingJmsxUserIdEnabled` if it is present.
    pub fn messaging_jmsx_user_id_enabled(&self) -> (r: Option<&bool>)
        ensures
            r.deep_view() == self@.messaging_jmsx_user_id_enabled,
    {
        self.messaging_jmsx_user_id_enabled.as_ref()
    }

    /// Removes `messagingJmsxUserIdEnabled`; every other attribute is left as it was.
    pub fn reset_messaging_jmsx_user_id_enabled(&mut self)
        ensures
            final(self)@ == old(self)@.without_messaging_jmsx_user_id_enabled(),
    {
        self.messaging_jmsx_user_id_enabled = None;
    }

    /// Sets `messagingTextInXmlPayloadEnabled` to the given value; every other attribute is left as it was.
    pub fn set_messaging_text_in_xml_payload_enabled(&mut self, messaging_text_in_xml_payload_enabled: bool)
        ensures
            final(self)@ == old(self)@.with_messaging_text_in_xml_payload_enabled(messaging_text_in_xml_payload_enabled),
    {
        self.messaging_text_in_xml_payload_enabled = Some(messaging_text_in_xml_payload_enabled);
    }

    /// Returns this value with `messagingTextInXmlPayloadEnabled` set to the given value.
    pub fn with_messaging_text_in_xml_payload_enabled(self, messaging_text_in_xml_payload_enabled: bool) -> (r: MsgVpnJndiConnectionFactory)
        ensures
            r@ == self@.with_messaging_text_in_xml_payload_enabled(messaging_text_in_xml_payload_enabled),
    {
        let mut r = self;
        r.messaging_text_in_xml_payload_enabled = Some(messaging_text_in_xml_payload_enabled);
        r
    }

    /// Returns `messagingTextInXmlPayloadEnabled` if it is present.
    pub fn messaging_text_in_xml_payload_enabled(&self) -> (r: Option<&bool>)
        ensures
            r.deep_view() == self@.messaging_text_in_xml_payload_enabled,
    {
        self.messaging_text_in_xml_payload_enabled.as_ref()
    }

    /// Removes `messagingTextInXmlPayloadEnabled`; every other attribute is left as it was.
    pub fn reset_messaging_text_in_xml_payload_enabled(&mut self)
        ensures
            final(self)@ == old(self)@.without_messaging_text_in_xml_payload_enabled(),
    {
        self.messaging_text_in_xml_payload_enabled = None;
    }

    /// Sets `msgVpnName` to the given value; every other attribute is left as it was.
    pub fn set_msg_vpn_name(&mut self, msg_vpn_name: String)
        ensures
            final(self)@ == old(self)@.with_msg_vpn_name(msg_vpn_name@),
    {
        self.msg_vpn_name = Some(msg_vpn_name);
    }

    /// Returns this value with `msgVpnName` set to the given value.
    pub fn with_msg_vpn_name(self, msg_vpn_name: String) -> (r: MsgVpnJndiConnectionFactory)
        ensures
            r@ == self@.with_msg_vpn_name(msg_vpn_name@),
    {
        let mut r = self;
        r.msg_vpn_name = Some(msg_vpn_name);
        r
    }

    /// Returns `msgVpnName` if it is present.
    pub fn msg_vpn_name(&self) -> (r: Option<&String>)
        ensures
            r.deep_view() == self@.msg_vpn_name,
    {
        self.msg_vpn_name.as_ref()
    }

    /// Removes `msgVpnName`; every other attribute is left as it was.
    pub fn reset_msg_vpn_name(&mut self)
        ensures
            final(self)@ == old(self)@.without_msg_vpn_name(),
    {
        self.msg_vpn_name = None;
    }

    /// Sets `transportCompressionLevel` to the given value; every other attribute is left as it was.
    pub fn set_transport_compression_level(&mut self, transport_compression_level: i32)
        ensures
            final(self)@ == old(self)@.with_transport_compression_level(transport_compression_level),
    {
        self.transport_compression_level = Some(transport_compression_level);
    }

    /// Returns this value with `transportCompressionLevel` set to the given value.
    pub fn with_transport_compression_level(self, transport_compression_level: i32) -> (r: MsgVpnJndiConnectionFactory)
        ensures
            r@ == self@.with_transport_compression_level(transport_compression_level),
    {
        let mut r = self;
        r.transport_compression_level = Some(transport_compression_level);
        r
    }

    /// Returns `transportCompressionLevel` if it is present.
    pub fn transport_compression_level(&self) -> (r: Option<&i32>)
        ensures
            r.deep_view() == self@.transport_compression_level,
    {
        self.transport_compression_level.as_ref()
    }

    /// Removes `transportCompressionLevel`; every other attribute is left as it was.
    pub fn reset_transport_compression_level(&mut self)
        ensures
            final(self)@ == old(self)@.without_transport_compression_level(),
    {
        self.transport_compression_level = None;
    }

    /// Sets `transportConnectRetryCount` to the given value; every other attribute is left as it was.
    pub fn set_transport_connect_retry_count(&mut self, transport_connect_retry_count: i32)
        ensures
            final(self)@ == old(self)@.with_transport_connect_retry_count(transport_connect_retry_count),
    {
        self.transport_connect_retry_count = Some(transport_connect_retry_count);
    }

    /// Returns this value with `transportConnectRetryCount` set to the given value.
    pub fn with_transport_connect_retry_count(self, transport_connect_retry_count: i32) -> (r: MsgVpnJndiConnectionFactory)
        ensures
            r@ == self@.with_transport_connect_retry_count(transport_connect_retry_count),
    {
        let mut r = self;
        r.transport_connect_retry_count = Some(transport_connect_retry_count);
        r
    }

    /// Returns `transportConnectRetryCount` if it is present.
    pub fn transport_connect_retry_count(&self) -> (r: Option<&i32>)
        ensures
            r.deep_view() == self@.transport_connect_retry_count,
    {
        self.transport_connect_retry_count.as_ref()
    }

    /// Removes `transportConnectRetryCount`; every other attribute is left as it was.
    pub fn reset_transport_connect_retry_count(&mut self)
        ensures
            final(self)@ == old(self)@.without_transport_connect_retry_count(),
    {
        self.transport_connect_retry_count = None;
    }

    /// Sets `transportConnectRetryPerHostCount` to the given value; every other attribute is left as it was.
    pub fn set_transport_connect_retry_per_host_count(&mut self, transport_connect_retry_per_host_count: i32)
        ensures
            final(self)@ == old(self)@.with_transport_connect_retry_per_host_count(transport_connect_retry_per_host_count),
    {
        self.transport_connect_retry_per_host_count = Some(transport_connect_retry_per_host_count);
    }

    /// Returns this value with `transportConnectRetryPerHostCount` set to the given value.
    pub fn with_transport_connect_retry_per_host_count(self, transport_connect_retry_per_host_count: i32) -> (r: MsgVpnJndiConnectionFactory)
        ensures
            r@ == self@.with_transport_connect_retry_per_host_count(transport_connect_retry_per_host_count),
    {
        let mut r = self;
        r.transport_connect_retry_per_host_count = Some(transport_connect_retry_per_host_count);
        r
    }

    /// Returns `transportConnectRetryPerHostCount` if it is present.
    pub fn transport_connect_retry_per_host_count(&self) -> (r: Option<&i32>)
        ensures
            r.deep_view() == self@.transport_connect_retry_per_host_count,
    {
        self.transport_connect_retry_per_host_count.as_ref()
    }

    /// Removes `transportConnectRetryPerHostCount`; every other attribute is left as it was.
    pub fn reset_transport_connect_retry_per_host_count(&mut self)
        ensures
            final(self)@ == old(self)@.without_transport_connect_retry_per_host_count(),
    {
        self.transport_connect_retry_per_host_count = None;
    }

    /// Sets `transportConnectTimeout` to the given value; every other attribute is left as it was.
    pub fn set_transport_connect_timeout(&mut self, transport_connect_timeout: i32)
        ensures
            final(self)@ == old(self)@.with_transport_connect_timeout(transport_connect_timeout),
    {
        self.transport_connect_timeout = Some(transport_connect_timeout);
    }

    /// Returns this value with `transportConnectTimeout` set to the given value.
    pub fn with_transport_connect_timeout(self, transport_connect_timeout: i32) -> (r: MsgVpnJndiConnectionFactory)
        ensures
            r@ == self@.with_transport_connect_timeout(transport_connect_timeout),
    {
        let mut r = self;
        r.transport_connect_timeout = Some(transport_connect_timeout);
        r
    }

    /// Returns `transportConnectTimeout` if it is present.
    pub fn transport_connect_timeout(&self) -> (r: Option<&i32>)
        ensures
            r.deep_view() == self@.transport_connect_timeout,
    {
        self.transport_connect_timeout.as_ref()
    }

    /// Removes `transportConnectTimeout`; every other attribute is left as it was.
    pub fn reset_transport_connect_timeout(&mut self)
        ensures
            final(self)@ == old(self)@.without_transport_connect_timeout(),
    {
        self.transport_connect_timeout = None;
    }

    /// Sets `transportDirectTransportEnabled` to the given value; every other attribute is left as it was.
    pub fn set_transport_direct_transport_enabled(&mut self, transport_direct_transport_enabled: bool)
        ensures
            final(self)@ == old(self)@.with_transport_direct_transport_enabled(transport_direct_transport_enabled),
    {
        self.transport_direct_transport_enabled = Some(transport_direct_transport_enabled);
    }

    /// Returns this value with `transportDirectTransportEnabled` set to the given value.
    pub fn with_transport_direct_transport_enabled(self, transport_direct_transport_enabled: bool) -> (r: MsgVpnJndiConnectionFactory)
        ensures
            r@ == self@.with_transport_direct_transport_enabled(transport_direct_transport_enabled),
    {
        let mut r = self;
        r.transport_direct_transport_enabled = Some(transport_direct_transport_enabled);
        r
    }

    /// Returns `transportDirectTransportEnabled` if it is present.
    pub fn transport_direct_transport_enabled(&self) -> (r: Option<&bool>)
        ensures
            r.deep_view() == self@.transport_direct_transport_enabled,
    {
        self.transport_direct_transport_enabled.as_ref()
    }

    /// Removes `transportDirectTransportEnabled`; every other attribute is left as it was.
    pub fn reset_transport_direct_transport_enabled(&mut self)
        ensures
            final(self)@ == old(self)@.without_transport_direct_transport_enabled(),
    {
        self.transport_direct_transport_enabled = None;
    }

    /// Sets `transportKeepaliveCount` to the given value; every other attribute is left as it was.
    pub fn set_transport_keepalive_count(&mut self, transport_keepalive_count: i32)
        ensures
            final(self)@ == old(self)@.with_transport_keepalive_count(transport_keepalive_count),
    {
        self.transport_keepalive_count = Some(transport_keepalive_count);
    }

    /// Returns this value with `transportKeepaliveCount` set to the given value.
    pub fn with_transport_keepalive_count(self, transport_keepalive_count: i32) -> (r: MsgVpnJndiConnectionFactory)
        ensures
            r@ == self@.with_transport_keepalive_count(transport_keepalive_count),
    {
        let mut r = self;
        r.transport_keepalive_count = Some(transport_keepalive_count);
        r
    }

    /// Returns `transportKeepaliveCount` if it is present.
    pub fn transport_keepalive_count(&self) -> (r: Option<&i32>)
        ensures
            r.deep_view() == self@.transport_keepalive_count,
    {
        self.transport_keepalive_count.as_ref()
    }

    /// Removes `transportKeepaliveCount`; every other attribute is left as it was.
    pub fn reset_transport_keepalive_count(&mut self)
        ensures
            final(self)@ == old(self)@.without_transport_keepalive_count(),
    {
        self.transport_keepalive_count = None;
    }

    /// Sets `transportKeepaliveEnabled` to the given value; every other attribute is left as it was.
    pub fn set_transport_keepalive_enabled(&mut self, transport_keepalive_enabled: bool)
        ensures
            final(self)@ == old(self)@.with_transport_keepalive_enabled(transport_keepalive_enabled),
    {
        self.transport_keepalive_enabled = Some(transport_keepalive_enabled);
    }

    /// Returns this value with `transportKeepaliveEnabled` set to the given value.
    pub fn with_transport_keepalive_enabled(self, transport_keepalive_enabled: bool) -> (r: MsgVpnJndiConnectionFactory)
        ensures
            r@ == self@.with_transport_keepalive_enabled(transport_keepalive_enabled),
    {
        let mut r = self;
        r.transport_keepalive_enabled = Some(transport_keepalive_enabled);
        r
    }

    /// Returns `transportKeepaliveEnabled` if it is present.
    pub fn transport_keepalive_enabled(&self) -> (r: Option<&bool>)
        ensures
            r.deep_view() == self@.transport_keepalive_enabled,
    {
        self.transport_keepalive_enabled.as_ref()
    }

    /// Removes `transportKeepaliveEnabled`; every other attribute is left as it was.
    pub fn reset_transport_keepalive_enabled(&mut self)
        ensures
            final(self)@ == old(self)@.without_transport_keepalive_enabled(),
    {
        self.transport_keepalive_enabled = None;
    }

    /// Sets `transportKeepaliveInterval` to the given value; every other attribute is left as it was.
    pub fn set_transport_keepalive_interval(&mut self, transport_keepalive_interval: i32)
        ensures
            final(self)@ == old(self)@.with_transport_keepalive_interval(transport_keepalive_interval),
    {
        self.transport_keepalive_interval = Some(transport_keepalive_interval);
    }

    /// Returns this value with `transportKeepaliveInterval` set to the given value.
    pub fn with_transport_keepalive_interval(self, transport_keepalive_interval: i32) -> (r: MsgVpnJndiConnectionFactory)
        ensures
            r@ == self@.with_transport_keepalive_interval(transport_keepalive_interval),
    {
        let mut r = self;
        r.transport_keepalive_interval = Some(transport_keepalive_interval);
        r
    }

    /// Returns `transportKeepaliveInterval` if it is present.
    pub fn transport_keepalive_interval(&self) -> (r: Option<&i32>)
        ensures
            r.deep_view() == self@.transport_keepalive_interval,
    {
        self.transport_keepalive_interval.as_ref()
    }

    /// Removes `transportKeepaliveInterval`; every other attribute is left as it was.
    pub fn reset_transport_keepalive_interval(&mut self)
        ensures
            final(self)@ == old(self)@.without_transport_keepalive_interval(),
    {
        self.transport_keepalive_interval = None;
    }

    /// Sets `transportMsgCallbackOnIoThreadEnabled` to the given value; every other attribute is left as it was.
    pub fn set_transport_msg_callback_on_io_thread_enabled(&mut self, transport_msg_callback_on_io_thread_enabled: bool)
        ensures
            final(self)@ == old(self)@.with_transport_msg_callback_on_io_thread_enabled(transport_msg_callback_on_io_thread_enabled),
    {
        self.transport_msg_callback_on_io_thread_enabled = Some(transport_msg_callback_on_io_thread_enabled);
    }

    /// Returns this value with `transportMsgCallbackOnIoThreadEnabled` set to the given value.
    pub fn with_transport_msg_callback_on_io_thread_enabled(self, transport_msg_callback_on_io_thread_enabled: bool) -> (r: MsgVpnJndiConnectionFactory)
        ensures
            r@ == self@.with_transport_msg_callback_on_io_thread_enabled(transport_msg_callback_on_io_thread_enabled),
    {
        let mut r = self;
        r.transport_msg_callback_on_io_thread_enabled = Some(transport_msg_callback_on_io_thread_enabled);
        r
    }

    /// Returns `transportMsgCallbackOnIoThreadEnabled` if it is present.
    pub fn transport_msg_callback_on_io_thread_enabled(&self) -> (r: Option<&bool>)
        ensures
            r.deep_view() == self@.transport_msg_callback_on_io_thread_enabled,
    {
        self.transport_msg_callback_on_io_thread_enabled.as_ref()
    }

    /// Removes `transportMsgCallbackOnIoThreadEnabled`; every other attribute is left as it was.
    pub fn reset_transport_msg_callback_on_io_thread_enabled(&mut self)
        ensures
            final(self)@ == old(self)@.without_transport_msg_callback_on_io_thread_enabled(),
    {
        self.transport_msg_callback_on_io_thread_enabled = None;
    }

    /// Sets `transportOptimizeDirectEnabled` to the given value; every other attribute is left as it was.
    pub fn set_transport_optimize_direct_enabled(&mut self, transport_optimize_direct_enabled: bool)
        ensures
            final(self)@ == old(self)@.with_transport_optimize_direct_enabled(transport_optimize_direct_enabled),
    {
        self.transport_optimize_direct_enabled = Some(transport_optimize_direct_enabled);
    }

    /// Returns this value with `transportOptimizeDirectEnabled` set to the given value.
    pub fn with_transport_optimize_direct_enabled(self, transport_optimize_direct_enabled: bool) -> (r: MsgVpnJndiConnectionFactory)
        ensures
            r@ == self@.with_transport_optimize_direct_enabled(transport_optimize_direct_enabled),
    {
        let mut r = self;
        r.transport_optimize_direct_enabled = Some(transport_optimize_direct_enabled);
        r
    }

    /// Returns `transportOptimizeDirectEnabled` if it is present.
    pub fn transport_optimize_direct_enabled(&self) -> (r: Option<&bool>)
        ensures
            r.deep_view() == self@.transport_optimize_direct_enabled,
    {
        self.transport_optimize_direct_enabled.as_ref()
    }

    /// Removes `transportOptimizeDirectEnabled`; every other attribute is left as it was.
    pub fn reset_transport_optimize_direct_enabled(&mut self)
        ensures
            final(self)@ == old(self)@.without_transport_optimize_direct_enabled(),
    {
        self.transport_optimize_direct_enabled = None;
    }

    /// Sets `transportPort` to the given value; every other attribute is left as it was.
    pub fn set_transport_port(&mut self, transport_port: i32)
        ensures
            final(self)@ == old(self)@.with_transport_port(transport_port),
    {
        self.transport_port = Some(transport_port);
    }

    /// Returns this value with `transportPort` set to the given value.
    pub fn with_transport_port(self, transport_port: i32) -> (r: MsgVpnJndiConnectionFactory)
        ensures
            r@ == self@.with_transport_port(transport_port),
    {
        let mut r = self;
        r.transport_port = Some(transport_port);
        r
    }

    /// Returns `transportPort` if it is present.
    pub fn transport_port(&self) -> (r: Option<&i32>)
        ensures
            r.deep_view() == self@.transport_port,
    {
        self.transport_port.as_ref()
    }

    /// Removes `transportPort`; every other attribute is left as it was.
    pub fn reset_transport_port(&mut self)
        ensures
            final(self)@ == old(self)@.without_transport_port(),
    {
        self.transport_port = None;
    }

    /// Sets `transportReadTimeout` to the given value; every other attribute is left as it was.
    pub fn set_transport_read_timeout(&mut self, transport_read_timeout: i32)
        ensures
            final(self)@ == old(self)@.with_transport_read_timeout(transport_read_timeout),
    {
        self.transport_read_timeout = Some(transport_read_timeout);
    }

    /// Returns this value with `transportReadTimeout` set to the given value.
    pub fn with_transport_read_timeout(self, transport_read_timeout: i32) -> (r: MsgVpnJndiConnectionFactory)
        ensures
            r@ == self@.with_transport_read_timeout(transport_read_timeout),
    {
        let mut r = self;
        r.transport_read_timeout = Some(transport_read_timeout);
        r
    }

    /// Returns `transportReadTimeout` if it is present.
    pub fn transport_read_timeout(&self) -> (r: Option<&i32>)
        ensures
            r.deep_view() == self@.transport_read_timeout,
    {
        self.transport_read_timeout.as_ref()
    }

    /// Removes `transportReadTimeout`; every other attribute is left as it was.
    pub fn reset_transport_read_timeout(&mut self)
        ensures
            final(self)@ == old(self)@.without_transport_read_timeout(),
    {
        self.transport_read_timeout = None;
    }

    /// Sets `transportReceiveBufferSize` to the given value; every other attribute is left as it was.
    pub fn set_transport_receive_buffer_size(&mut self, transport_receive_buffer_size: i32)
        ensures
            final(self)@ == old(self)@.with_transport_receive_buffer_size(transport_receive_buffer_size),
    {
        self.transport_receive_buffer_size = Some(transport_receive_buffer_size);
    }

    /// Returns this value with `transportReceiveBufferSize` set to the given value.
    pub fn with_transport_receive_buffer_size(self, transport_receive_buffer_size: i32) -> (r: MsgVpnJndiConnectionFactory)
        ensures
            r@ == self@.with_transport_receive_buffer_size(transport_receive_buffer_size),
    {
        let mut r = self;
        r.transport_receive_buffer_size = Some(transport_receive_buffer_size);
        r
    }

    /// Returns `transportReceiveBufferSize` if it is present.
    pub fn transport_receive_buffer_size(&self) -> (r: Option<&i32>)
        ensures
            r.deep_view() == self@.transport_receive_buffer_size,
    {
        self.transport_receive_buffer_size.as_ref()
    }

    /// Removes `transportReceiveBufferSize`; every other attribute is left as it was.
    pub fn reset_transport_receive_buffer_size(&mut self)
        ensures
            final(self)@ == old(self)@.without_transport_receive_buffer_size(),
    {
        self.transport_receive_buffer_size = None;
    }

    /// Sets `transportReconnectRetryCount` to the given value; every other attribute is left as it was.
    pub fn set_transport_reconnect_retry_count(&mut self, transport_reconnect_retry_count: i32)
        ensures
            final(self)@ == old(self)@.with_transport_reconnect_retry_count(transport_reconnect_retry_count),
    {
        self.transport_reconnect_retry_count = Some(transport_reconnect_retry_count);
    }

    /// Returns this value with `transportReconnectRetryCount` set to the given value.
    pub fn with_transport_reconnect_retry_count(self, transport_reconnect_retry_count: i32) -> (r: MsgVpnJndiConnectionFactory)
        ensures
            r@ == self@.with_transport_reconnect_retry_count(transport_reconnect_retry_count),
    {
        let mut r = self;
        r.transport_reconnect_retry_count = Some(transport_reconnect_retry_count);
        r
    }

    /// Returns `transportReconnectRetryCount` if it is present.
    pub fn transport_reconnect_retry_count(&self) -> (r: Option<&i32>)
        ensures
            r.deep_view() == self@.transport_reconnect_retry_count,
    {
        self.transport_reconnect_retry_count.as_ref()
    }

    /// Removes `transportReconnectRetryCount`; every other attribute is left as it was.
    pub fn reset_transport_reconnect_retry_count(&mut self)
        ensures
            final(self)@ == old(self)@.without_transport_reconnect_retry_count(),
    {
        self.transport_reconnect_retry_count = None;
    }

    /// Sets `transportReconnectRetryWait` to the given value; every other attribute is left as it was.
    pub fn set_transport_reconnect_retry_wait(&mut self, transport_reconnect_retry_wait: i32)
        ensures
            final(self)@ == old(self)@.with_transport_reconnect_retry_wait(transport_reconnect_retry_wait),
    {
        self.transport_reconnect_retry_wait = Some(transport_reconnect_retry_wait);
    }

    /// Returns this value with `transportReconnectRetryWait` set to the given value.
    pub fn with_transport_reconnect_retry_wait(self, transport_reconnect_retry_wait: i32) -> (r: MsgVpnJndiConnectionFactory)
        ensures
            r@ == self@.with_transport_reconnect_retry_wait(transport_reconnect_retry_wait),
    {
        let mut r = self;
        r.transport_reconnect_retry_wait = Some(transport_reconnect_retry_wait);
        r
    }

    /// Returns `transportReconnectRetryWait` if it is present.
    pub fn transport_reconnect_retry_wait(&self) -> (r: Option<&i32>)
        ensures
            r.deep_view() == self@.transport_reconnect_retry_wait,
    {
        self.transport_reconnect_retry_wait.as_ref()
    }

    /// Removes `transportReconnectRetryWait`; every other attribute is left as it was.
    pub fn reset_transport_reconnect_retry_wait(&mut self)
        ensures
            final(self)@ == old(self)@.without_transport_reconnect_retry_wait(),
    {
        self.transport_reconnect_retry_wait = None;
    }

    /// Sets `transportSendBufferSize` to the given value; every other attribute is left as it was.
    pub fn set_transport_send_buffer_size(&mut self, transport_send_buffer_size: i32)
        ensures
            final(self)@ == old(self)@.with_transport_send_buffer_size(transport_send_buffer_size),
    {
        self.transport_send_buffer_size = Some(transport_send_buffer_size);
    }

    /// Returns this value with `transportSendBufferSize` set to the given value.
    pub fn with_transport_send_buffer_size(self, transport_send_buffer_size: i32) -> (r: MsgVpnJndiConnectionFactory)
        ensures
            r@ == self@.with_transport_send_buffer_size(transport_send_buffer_size),
    {
        let mut r = self;
        r.transport_send_buffer_size = Some(transport_send_buffer_size);
        r
    }

    /// Returns `transportSendBufferSize` if it is present.
    pub fn transport_send_buffer_size(&self) -> (r: Option<&i32>)
        ensures
            r.deep_view() == self@.transport_send_buffer_size,
    {
        self.transport_send_buffer_size.as_ref()
    }

    /// Removes `transportSendBufferSize`; every other attribute is left as it was.
    pub fn reset_transport_send_buffer_size(&mut self)
        ensures
            final(self)@ == old(self)@.without_transport_send_buffer_size(),
    {
        self.transport_send_buffer_size = None;
    }

    /// Sets `transportTcpNoDelayEnabled` to the given value; every other attribute is left as it was.
    pub fn set_transport_tcp_no_delay_enabled(&mut self, transport_tcp_no_delay_enabled: bool)
        ensures
            final(self)@ == old(self)@.with_transport_tcp_no_delay_enabled(transport_tcp_no_delay_enabled),
    {
        self.transport_tcp_no_delay_enabled = Some(transport_tcp_no_delay_enabled);
    }

    /// Returns this value with `transportTcpNoDelayEnabled` set to the given value.
    pub fn with_transport_tcp_no_delay_enabled(self, transport_tcp_no_delay_enabled: bool) -> (r: MsgVpnJndiConnectionFactory)
        ensures
            r@ == self@.with_transport_tcp_no_delay_enabled(transport_tcp_no_delay_enabled),
    {
        let mut r = self;
        r.transport_tcp_no_delay_enabled = Some(transport_tcp_no_delay_enabled);
        r
    }

    /// Returns `transportTcpNoDelayEnabled` if it is present.
    pub fn transport_tcp_no_delay_enabled(&self) -> (r: Option<&bool>)
        ensures
            r.deep_view() == self@.transport_tcp_no_delay_enabled,
    {
        self.transport_tcp_no_delay_enabled.as_ref()
    }

    /// Removes `transportTcpNoDelayEnabled`; every other attribute is left as it was.
    pub fn reset_transport_tcp_no_delay_enabled(&mut self)
        ensures
            final(self)@ == old(self)@.without_transport_tcp_no_delay_enabled(),
    {
        self.transport_tcp_no_delay_enabled = None;
    }

    /// Sets `xaEnabled` to the given value; every other attribute is left as it was.
    pub fn set_xa_enabled(&mut self, xa_enabled: bool)
        ensures
            final(self)@ == old(self)@.with_xa_enabled(xa_enabled),
    {
        self.xa_enabled = Some(xa_enabled);
    }

    /// Returns this value with `xaEnabled` set to the given value.
    pub fn with_xa_enabled(self, xa_enabled: bool) -> (r: MsgVpnJndiConnectionFactory)
        ensures
            r@ == self@.with_xa_enabled(xa_enabled),
    {
        let mut r = self;
        r.xa_enabled = Some(xa_enabled);
        r
    }

    /// Returns `xaEnabled` if it is present.
    pub fn xa_enabled(&self) -> (r: Option<&bool>)
        ensures
            r.deep_view() == self@.xa_enabled,
    {
        self.xa_enabled.as_ref()
    }

    /// Removes `xaEnabled`; every other attribute is left as it was.
    pub fn reset_xa_enabled(&mut self)
        ensures
            final(self)@ == old(self)@.without_xa_enabled(),
    {
        self.xa_enabled = None;
    }
}

/// A freshly made value has no attribute present: every read of a new value gives nothing.
pub proof fn lemma_msg_vpn_jndi_connection_factory_new_is_empty()
    ensures
        MsgVpnJndiConnectionFactoryView::empty().allow_duplicate_client_id_enabled is None,
        MsgVpnJndiConnectionFactoryView::empty().client_description is None,
        MsgVpnJndiConnectionFactoryView::empty().client_id is None,
        MsgVpnJndiConnectionFactoryView::empty().connection_factory_name is None,
        MsgVpnJndiConnectionFactoryView::empty().dto_receive_override_enabled is None,
        MsgVpnJndiConnectionFactoryView::empty().dto_receive_subscriber_local_priority is None,
        MsgVpnJndiConnectionFactoryView::empty().dto_receive_subscriber_network_priority is None,
        MsgVpnJndiConnectionFactoryView::empty().dto_send_enabled is None,
        MsgVpnJndiConnectionFactoryView::empty().dynamic_endpoint_create_durable_enabled is None,
        MsgVpnJndiConnectionFactoryView::empty().dynamic_endpoint_respect_ttl_enabled is None,
        MsgVpnJndiConnectionFactoryView::empty().guaranteed_receive_ack_timeout is None,
        MsgVpnJndiConnectionFactoryView::empty().guaranteed_receive_window_size is None,
        MsgVpnJndiConnectionFactoryView::empty().guaranteed_receive_window_size_ack_threshold is None,
        MsgVpnJndiConnectionFactoryView::empty().guaranteed_send_ack_timeout is None,
        MsgVpnJndiConnectionFactoryView::empty().guaranteed_send_window_size is None,
        MsgVpnJndiConnectionFactoryView::empty().messaging_default_delivery_mode is None,
        MsgVpnJndiConnectionFactoryView::empty().messaging_default_dmq_eligible_enabled is None,
        MsgVpnJndiConnectionFactoryView::empty().messaging_default_eliding_eligible_enabled is None,
        MsgVpnJndiConnectionFactoryView::empty().messaging_jmsx_user_id_enabled is None,
        MsgVpnJndiConnectionFactoryView::empty().messaging_text_in_xml_payload_enabled is None,
        MsgVpnJndiConnectionFactoryView::empty().msg_vpn_name is None,
        MsgVpnJndiConnectionFactoryView::empty().transport_compression_level is None,
        MsgVpnJndiConnectionFactoryView::empty().transport_connect_retry_count is None,
        MsgVpnJndiConnectionFactoryView::empty().transport_connect_retry_per_host_count is None,
        MsgVpnJndiConnectionFactoryView::empty().transport_connect_timeout is None,
        MsgVpnJndiConnectionFactoryView::empty().transport_direct_transport_enabled is None,
        MsgVpnJndiConnectionFactoryView::empty().transport_keepalive_count is None,
        MsgVpnJndiConnectionFactoryView::empty().transport_keepalive_enabled is None,
        MsgVpnJndiConnectionFactoryView::empty().transport_keepalive_interval is None,
        MsgVpnJndiConnectionFactoryView::empty().transport_msg_callback_on_io_thread_enabled is None,
        MsgVpnJndiConnectionFactoryView::empty().transport_optimize_direct_enabled is None,
        MsgVpnJndiConnectionFactoryView::empty().transport_port is None,
        MsgVpnJndiConnectionFactoryView::empty().transport_read_timeout is None,
        MsgVpnJndiConnectionFactoryView::empty().transport_receive_buffer_size is None,
        MsgVpnJndiConnectionFactoryView::empty().transport_reconnect_retry_count is None,
        MsgVpnJndiConnectionFactoryView::empty().transport_reconnect_retry_wait is None,
        MsgVpnJndiConnectionFactoryView::empty().transport_send_buffer_size is None,
        MsgVpnJndiConnectionFactoryView::empty().transport_tcp_no_delay_enabled is None,
        MsgVpnJndiConnectionFactoryView::empty().xa_enabled is None,
{
}

/// Reading an attribute right after writing it gives the value written,
/// and reading it right after removing it gives nothing.
pub proof fn lemma_msg_vpn_jndi_connection_factory_read_after_write(m: MsgVpnJndiConnectionFactoryView, flag: bool, text: Seq<char>, small: i32)
    ensures
        m.with_allow_duplicate_client_id_enabled(flag).allow_duplicate_client_id_enabled == Some(flag) && m.without_allow_duplicate_client_id_enabled().allow_duplicate_client_id_enabled is None,
        m.with_client_description(text).client_description == Some(text) && m.without_client_description().client_description is None,
        m.with_client_id(text).client_id == Some(text) && m.without_client_id().client_id is None,
        m.with_connection_factory_name(text).connection_factory_name == Some(text) && m.without_connection_factory_name().connection_factory_name is None,
        m.with_dto_receive_override_enabled(flag).dto_receive_override_enabled == Some(flag) && m.without_dto_receive_override_enabled().dto_receive_override_enabled is None,
        m.with_dto_receive_subscriber_local_priority(small).dto_receive_subscriber_local_priority == Some(small) && m.without_dto_receive_subscriber_local_priority().dto_receive_subscriber_local_priority is None,
        m.with_dto_receive_subscriber_network_priority(small).dto_receive_subscriber_network_priority == Some(small) && m.without_dto_receive_subscriber_network_priority().dto_receive_subscriber_network_priority is None,
        m.with_dto_send_enabled(flag).dto_send_enabled == Some(flag) && m.without_dto_send_enabled().dto_send_enabled is None,
        m.with_dynamic_endpoint_create_durable_enabled(flag).dynamic_endpoint_create_durable_enabled == Some(flag) && m.without_dynamic_endpoint_create_durable_enabled().dynamic_endpoint_create_durable_enabled is None,
        m.with_dynamic_endpoint_respect_ttl_enabled(flag).dynamic_endpoint_respect_ttl_enabled == Some(flag) && m.without_dynamic_endpoint_respect_ttl_enabled().dynamic_endpoint_respect_ttl_enabled is None,
        m.with_guaranteed_receive_ack_timeout(small).guaranteed_receive_ack_timeout == Some(small) && m.without_guaranteed_receive_ack_timeout().guaranteed_receive_ack_timeout is None,
        m.with_guaranteed_receive_window_size(small).guaranteed_receive_window_size == Some(small) && m.without_guaranteed_receive_window_size().guaranteed_receive_window_size is None,
        m.with_guaranteed_receive_window_size_ack_threshold(small).guaranteed_receive_window_size_ack_threshold == Some(small) && m.without_guaranteed_receive_window_size_ack_threshold().guaranteed_receive_window_size_ack_threshold is None,
        m.with_guaranteed_send_ack_timeout(small).guaranteed_send_ack_timeout == Some(small) && m.without_guaranteed_send_ack_timeout().guaranteed_send_ack_timeout is None,
        m.with_guaranteed_send_window_size(small).guaranteed_send_window_size == Some(small) && m.without_guaranteed_send_window_size().guaranteed_send_window_size is None,
        m.with_messaging_default_delivery_mode(text).messaging_default_delivery_mode == Some(text) && m.without_messaging_default_delivery_mode().messaging_default_delivery_mode is None,
        m.with_messaging_default_dmq_eligible_enabled(flag).messaging_default_dmq_eligible_enabled == Some(flag) && m.without_messaging_default_dmq_eligible_enabled().messaging_default_dmq_eligible_enabled is None,
        m.with_messaging_default_eliding_eligible_enabled(flag).messaging_default_eliding_eligible_enabled == Some(flag) && m.without_messaging_default_eliding_eligible_enabled().messaging_default_eliding_eligible_enabled is None,
        m.with_messaging_jmsx_user_id_enabled(flag).messaging_jmsx_user_id_enabled == Some(flag) && m.without_messaging_jmsx_user_id_enabled().messaging_jmsx_user_id_enabled is None,
        m.with_messaging_text_in_xml_payload_enabled(flag).messaging_text_in_xml_payload_enabled == Some(flag) && m.without_messaging_text_in_xml_payload_enabled().messaging_text_in_xml_payload_enabled is None,
        m.with_msg_vpn_name(text).msg_vpn_name == Some(text) && m.without_msg_vpn_name().msg_vpn_name is None,
        m.with_transport_compression_level(small).transport_compression_level == Some(small) && m.without_transport_compression_level().transport_compression_level is None,
        m.with_transport_connect_retry_count(small).transport_connect_retry_count == Some(small) && m.without_transport_connect_retry_count().transport_connect_retry_count is None,
        m.with_transport_connect_retry_per_host_count(small).transport_connect_retry_per_host_count == Some(small) && m.without_transport_connect_retry_per_host_count().transport_connect_retry_per_host_count is None,
        m.with_transport_connect_timeout(small).transport_connect_timeout == Some(small) && m.without_transport_connect_timeout().transport_connect_timeout is None,
        m.with_transport_direct_transport_enabled(flag).transport_direct_transport_enabled == Some(flag) && m.without_transport_direct_transport_enabled().transport_direct_transport_enabled is None,
        m.with_transport_keepalive_count(small).transport_keepalive_count == Some(small) && m.without_transport_keepalive_count().transport_keepalive_count is None,
        m.with_transport_keepalive_enabled(flag).transport_keepalive_enabled == Some(flag) && m.without_transport_keepalive_enabled().transport_keepalive_enabled is None,
        m.with_transport_keepalive_interval(small).transport_keepalive_interval == Some(small) && m.without_transport_keepalive_interval().transport_keepalive_interval is None,
        m.with_transport_msg_callback_on_io_thread_enabled(flag).transport_msg_callback_on_io_thread_enabled == Some(flag) && m.without_transport_msg_callback_on_io_thread_enabled().transport_msg_callback_on_io_thread_enabled is None,
        m.with_transport_optimize_direct_enabled(flag).transport_optimize_direct_enabled == Some(flag) && m.without_transport_optimize_direct_enabled().transport_optimize_direct_enabled is None,
        m.with_transport_port(small).transport_port == Some(small) && m.without_transport_port().transport_port is None,
        m.with_transport_read_timeout(small).transport_read_timeout == Some(small) && m.without_transport_read_timeout().transport_read_timeout is None,
        m.with_transport_receive_buffer_size(small).transport_receive_buffer_size == Some(small) && m.without_transport_receive_buffer_size().transport_receive_buffer_size is None,
        m.with_transport_reconnect_retry_count(small).transport_reconnect_retry_count == Some(small) && m.without_transport_reconnect_retry_count().transport_reconnect_retry_count is None,
        m.with_transport_reconnect_retry_wait(small).transport_reconnect_retry_wait == Some(small) && m.without_transport_reconnect_retry_wait().transport_reconnect_retry_wait is None,
        m.with_transport_send_buffer_size(small).transport_send_buffer_size == Some(small) && m.without_transport_send_buffer_size().transport_send_buffer_size is None,
        m.with_transport_tcp_no_delay_enabled(flag).transport_tcp_no_delay_enabled == Some(flag) && m.without_transport_tcp_no_delay_enabled().transport_tcp_no_delay_enabled is None,
        m.with_xa_enabled(flag).xa_enabled == Some(flag) && m.without_xa_enabled().xa_enabled is None,
{
}

/// Of two writes to the same attribute, the later one wins.
pub proof fn lemma_msg_vpn_jndi_connection_factory_last_write_wins(m: MsgVpnJndiConnectionFactoryView, flag_a: bool, flag_b: bool, text_a: Seq<char>, text_b: Seq<char>, small_a: i32, small_b: i32)
    ensures
        m.with_allow_duplicate_client_id_enabled(flag_a).with_allow_duplicate_client_id_enabled(flag_b) == m.with_allow_duplicate_client_id_enabled(flag_b),
        m.with_client_description(text_a).with_client_description(text_b) == m.with_client_description(text_b),
        m.with_client_id(text_a).with_client_id(text_b) == m.with_client_id(text_b),
        m.with_connection_factory_name(text_a).with_connection_factory_name(text_b) == m.with_connection_factory_name(text_b),
        m.with_dto_receive_override_enabled(flag_a).with_dto_receive_override_enabled(flag_b) == m.with_dto_receive_override_enabled(flag_b),
        m.with_dto_receive_subscriber_local_priority(small_a).with_dto_receive_subscriber_local_priority(small_b) == m.with_dto_receive_subscriber_local_priority(small_b),
        m.with_dto_receive_subscriber_network_priority(small_a).with_dto_receive_subscriber_network_priority(small_b) == m.with_dto_receive_subscriber_network_priority(small_b),
        m.with_dto_send_enabled(flag_a).with_dto_send_enabled(flag_b) == m.with_dto_send_enabled(flag_b),
        m.with_dynamic_endpoint_create_durable_enabled(flag_a).with_dynamic_endpoint_create_durable_enabled(flag_b) == m.with_dynamic_endpoint_create_durable_enabled(flag_b),
        m.with_dynamic_endpoint_respect_ttl_enabled(flag_a).with_dynamic_endpoint_respect_ttl_enabled(flag_b) == m.with_dynamic_endpoint_respect_ttl_enabled(flag_b),
        m.with_guaranteed_receive_ack_timeout(small_a).with_guaranteed_receive_ack_timeout(small_b) == m.with_guaranteed_receive_ack_timeout(small_b),
        m.with_guaranteed_receive_window_size(small_a).with_guaranteed_receive_window_size(small_b) == m.with_guaranteed_receive_window_size(small_b),
        m.with_guaranteed_receive_window_size_ack_threshold(small_a).with_guaranteed_receive_window_size_ack_threshold(small_b) == m.with_guaranteed_receive_window_size_ack_threshold(small_b),
        m.with_guaranteed_send_ack_timeout(small_a).with_guaranteed_send_ack_timeout(small_b) == m.with_guaranteed_send_ack_timeout(small_b),
        m.with_guaranteed_send_window_size(small_a).with_guaranteed_send_window_size(small_b) == m.with_guaranteed_send_window_size(small_b),
        m.with_messaging_default_delivery_mode(text_a).with_messaging_default_delivery_mode(text_b) == m.with_messaging_default_delivery_mode(text_b),
        m.with_messaging_default_dmq_eligible_enabled(flag_a).with_messaging_default_dmq_eligible_enabled(flag_b) == m.with_messaging_default_dmq_eligible_enabled(flag_b),
        m.with_messaging_default_eliding_eligible_enabled(flag_a).with_messaging_default_eliding_eligible_enabled(flag_b) == m.with_messaging_default_eliding_eligible_enabled(flag_b),
        m.with_messaging_jmsx_user_id_enabled(flag_a).with_messaging_jmsx_user_id_enabled(flag_b) == m.with_messaging_jmsx_user_id_enabled(flag_b),
        m.with_messaging_text_in_xml_payload_enabled(flag_a).with_messaging_text_in_xml_payload_enabled(flag_b) == m.with_messaging_text_in_xml_payload_enabled(flag_b),
        m.with_msg_vpn_name(text_a).with_msg_vpn_name(text_b) == m.with_msg_vpn_name(text_b),
        m.with_transport_compression_level(small_a).with_transport_compression_level(small_b) == m.with_transport_compression_level(small_b),
        m.with_transport_connect_retry_count(small_a).with_transport_connect_retry_count(small_b) == m.with_transport_connect_retry_count(small_b),
        m.with_transport_connect_retry_per_host_count(small_a).with_transport_connect_retry_per_host_count(small_b) == m.with_transport_connect_retry_per_host_count(small_b),
        m.with_transport_connect_timeout(small_a).with_transport_connect_timeout(small_b) == m.with_transport_connect_timeout(small_b),
        m.with_transport_direct_transport_enabled(flag_a).with_transport_direct_transport_enabled(flag_b) == m.with_transport_direct_transport_enabled(flag_b),
        m.with_transport_keepalive_count(small_a).with_transport_keepalive_count(small_b) == m.with_transport_keepalive_count(small_b),
        m.with_transport_keepalive_enabled(flag_a).with_transport_keepalive_enabled(flag_b) == m.with_transport_keepalive_enabled(flag_b),
        m.with_transport_keepalive_interval(small_a).with_transport_keepalive_interval(small_b) == m.with_transport_keepalive_interval(small_b),
        m.with_transport_msg_callback_on_io_thread_enabled(flag_a).with_transport_msg_callback_on_io_thread_enabled(flag_b) == m.with_transport_msg_callback_on_io_thread_enabled(flag_b),
        m.with_transport_optimize_direct_enabled(flag_a).with_transport_optimize_direct_enabled(flag_b) == m.with_transport_optimize_direct_enabled(flag_b),
        m.with_transport_port(small_a).with_transport_port(small_b) == m.with_transport_port(small_b),
        m.with_transport_read_timeout(small_a).with_transport_read_timeout(small_b) == m.with_transport_read_timeout(small_b),
        m.with_transport_receive_buffer_size(small_a).with_transport_receive_buffer_size(small_b) == m.with_transport_receive_buffer_size(small_b),
        m.with_transport_reconnect_retry_count(small_a).with_transport_reconnect_retry_count(small_b) == m.with_transport_reconnect_retry_count(small_b),
        m.with_transport_reconnect_retry_wait(small_a).with_transport_reconnect_retry_wait(small_b) == m.with_transport_reconnect_retry_wait(small_b),
        m.with_transport_send_buffer_size(small_a).with_transport_send_buffer_size(small_b) == m.with_transport_send_buffer_size(small_b),
        m.with_transport_tcp_no_delay_enabled(flag_a).with_transport_tcp_no_delay_enabled(flag_b) == m.with_transport_tcp_no_delay_enabled(flag_b),
        m.with_xa_enabled(flag_a).with_xa_enabled(flag_b) == m.with_xa_enabled(flag_b),
{
}

/// Writing an attribute changes no other attribute: once that attribute is removed again,
/// the result is the starting value with that attribute removed.
pub proof fn lemma_msg_vpn_jndi_connection_factory_write_touches_one_attribute(m: MsgVpnJndiConnectionFactoryView, flag: bool, text: Seq<char>, small: i32)
    ensures
        m.with_allow_duplicate_client_id_enabled(flag).without_allow_duplicate_client_id_enabled() == m.without_allow_duplicate_client_id_enabled(),
        m.with_client_description(text).without_client_description() == m.without_client_description(),
        m.with_client_id(text).without_client_id() == m.without_client_id(),
        m.with_connection_factory_name(text).without_connection_factory_name() == m.without_connection_factory_name(),
        m.with_dto_receive_override_enabled(flag).without_dto_receive_override_enabled() == m.without_dto_receive_override_enabled(),
        m.with_dto_receive_subscriber_local_priority(small).without_dto_receive_subscriber_local_priority() == m.without_dto_receive_subscriber_local_priority(),
        m.with_dto_receive_subscriber_network_priority(small).without_dto_receive_subscriber_network_priority() == m.without_dto_receive_subscriber_network_priority(),
        m.with_dto_send_enabled(flag).without_dto_send_enabled() == m.without_dto_send_enabled(),
        m.with_dynamic_endpoint_create_durable_enabled(flag).without_dynamic_endpoint_create_durable_enabled() == m.without_dynamic_endpoint_create_durable_enabled(),
        m.with_dynamic_endpoint_respect_ttl_enabled(flag).without_dynamic_endpoint_respect_ttl_enabled() == m.without_dynamic_endpoint_respect_ttl_enabled(),
        m.with_guaranteed_receive_ack_timeout(small).without_guaranteed_receive_ack_timeout() == m.without_guaranteed_receive_ack_timeout(),
        m.with_guaranteed_receive_window_size(small).without_guaranteed_receive_window_size() == m.without_guaranteed_receive_window_size(),
        m.with_guaranteed_receive_window_size_ack_threshold(small).without_guaranteed_receive_window_size_ack_threshold() == m.without_guaranteed_receive_window_size_ack_threshold(),
        m.with_guaranteed_send_ack_timeout(small).without_guaranteed_send_ack_timeout() == m.without_guaranteed_send_ack_timeout(),
        m.with_guaranteed_send_window_size(small).without_guaranteed_send_window_size() == m.without_guaranteed_send_window_size(),
        m.with_messaging_default_delivery_mode(text).without_messaging_default_delivery_mode() == m.without_messaging_default_delivery_mode(),
        m.with_messaging_default_dmq_eligible_enabled(flag).without_messaging_default_dmq_eligible_enabled() == m.without_messaging_default_dmq_eligible_enabled(),
        m.with_messaging_default_eliding_eligible_enabled(flag).without_messaging_default_eliding_eligible_enabled() == m.without_messaging_default_eliding_eligible_enabled(),
        m.with_messaging_jmsx_user_id_enabled(flag).without_messaging_jmsx_user_id_enabled() == m.without_messaging_jmsx_user_id_enabled(),
        m.with_messaging_text_in_xml_payload_enabled(flag).without_messaging_text_in_xml_payload_enabled() == m.without_messaging_text_in_xml_payload_enabled(),
        m.with_msg_vpn_name(text).without_msg_vpn_name() == m.without_msg_vpn_name(),
        m.with_transport_compression_level(small).without_transport_compression_level() == m.without_transport_compression_level(),
        m.with_transport_connect_retry_count(small).without_transport_connect_retry_count() == m.without_transport_connect_retry_count(),
        m.with_transport_connect_retry_per_host_count(small).without_transport_connect_retry_per_host_count() == m.without_transport_connect_retry_per_host_count(),
        m.with_transport_connect_timeout(small).without_transport_connect_timeout() == m.without_transport_connect_timeout(),
        m.with_transport_direct_transport_enabled(flag).without_transport_direct_transport_enabled() == m.without_transport_direct_transport_enabled(),
        m.with_transport_keepalive_count(small).without_transport_keepalive_count() == m.without_transport_keepalive_count(),
        m.with_transport_keepalive_enabled(flag).without_transport_keepalive_enabled() == m.without_transport_keepalive_enabled(),
        m.with_transport_keepalive_interval(small).without_transport_keepalive_interval() == m.without_transport_keepalive_interval(),
        m.with_transport_msg_callback_on_io_thread_enabled(flag).without_transport_msg_callback_on_io_thread_enabled() == m.without_transport_msg_callback_on_io_thread_enabled(),
        m.with_transport_optimize_direct_enabled(flag).without_transport_optimize_direct_enabled() == m.without_transport_optimize_direct_enabled(),
        m.with_transport_port(small).without_transport_port() == m.without_transport_port(),
        m.with_transport_read_timeout(small).without_transport_read_timeout() == m.without_transport_read_timeout(),
        m.with_transport_receive_buffer_size(small).without_transport_receive_buffer_size() == m.without_transport_receive_buffer_size(),
        m.with_transport_reconnect_retry_count(small).without_transport_reconnect_retry_count() == m.without_transport_reconnect_retry_count(),
        m.with_transport_reconnect_retry_wait(small).without_transport_reconnect_retry_wait() == m.without_transport_reconnect_retry_wait(),
        m.with_transport_send_buffer_size(small).without_transport_send_buffer_size() == m.without_transport_send_buffer_size(),
        m.with_transport_tcp_no_delay_enabled(flag).without_transport_tcp_no_delay_enabled() == m.without_transport_tcp_no_delay_enabled(),
        m.with_xa_enabled(flag).without_xa_enabled() == m.without_xa_enabled(),
{
}

/// Removing an attribute that was absent before a write undoes that write.
pub proof fn lemma_msg_vpn_jndi_connection_factory_reset_undoes_write(m: MsgVpnJndiConnectionFactoryView, flag: bool, text: Seq<char>, small: i32)
    ensures
        m.allow_duplicate_client_id_enabled is None ==> m.with_allow_duplicate_client_id_enabled(flag).without_allow_duplicate_client_id_enabled() == m,
        m.client_description is None ==> m.with_client_description(text).without_client_description() == m,
        m.client_id is None ==> m.with_client_id(text).without_client_id() == m,
        m.connection_factory_name is None ==> m.with_connection_factory_name(text).without_connection_factory_name() == m,
        m.dto_receive_override_enabled is None ==> m.with_dto_receive_override_enabled(flag).without_dto_receive_override_enabled() == m,
        m.dto_receive_subscriber_local_priority is None ==> m.with_dto_receive_subscriber_local_priority(small).without_dto_receive_subscriber_local_priority() == m,
        m.dto_receive_subscriber_network_priority is None ==> m.with_dto_receive_subscriber_network_priority(small).without_dto_receive_subscriber_network_priority() == m,
        m.dto_send_enabled is None ==> m.with_dto_send_enabled(flag).without_dto_send_enabled() == m,
        m.dynamic_endpoint_create_durable_enabled is None ==> m.with_dynamic_endpoint_create_durable_enabled(flag).without_dynamic_endpoint_create_durable_enabled() == m,
        m.dynamic_endpoint_respect_ttl_enabled is None ==> m.with_dynamic_endpoint_respect_ttl_enabled(flag).without_dynamic_endpoint_respect_ttl_enabled() == m,
        m.guaranteed_receive_ack_timeout is None ==> m.with_guaranteed_receive_ack_timeout(small).without_guaranteed_receive_ack_timeout() == m,
        m.guaranteed_receive_window_size is None ==> m.with_guaranteed_receive_window_size(small).without_guaranteed_receive_window_size() == m,
        m.guaranteed_receive_window_size_ack_threshold is None ==> m.with_guaranteed_receive_window_size_ack_threshold(small).without_guaranteed_receive_window_size_ack_threshold() == m,
        m.guaranteed_send_ack_timeout is None ==> m.with_guaranteed_send_ack_timeout(small).without_guaranteed_send_ack_timeout() == m,
        m.guaranteed_send_window_size is None ==> m.with_guaranteed_send_window_size(small).without_guaranteed_send_window_size() == m,
        m.messaging_default_delivery_mode is None ==> m.with_messaging_default_delivery_mode(text).without_messaging_default_delivery_mode() == m,
        m.messaging_default_dmq_eligible_enabled is None ==> m.with_messaging_default_dmq_eligible_enabled(flag).without_messaging_default_dmq_eligible_enabled() == m,
        m.messaging_default_eliding_eligible_enabled is None ==> m.with_messaging_default_eliding_eligible_enabled(flag).without_messaging_default_eliding_eligible_enabled() == m,
        m.messaging_jmsx_user_id_enabled is None ==> m.with_messaging_jmsx_user_id_enabled(flag).without_messaging_jmsx_user_id_enabled() == m,
        m.messaging_text_in_xml_payload_enabled is None ==> m.with_messaging_text_in_xml_payload_enabled(flag).without_messaging_text_in_xml_payload_enabled() == m,
        m.msg_vpn_name is None ==> m.with_msg_vpn_name(text).without_msg_vpn_name() == m,
        m.transport_compression_level is None ==> m.with_transport_compression_level(small).without_transport_compression_level() == m,
        m.transport_connect_retry_count is None ==> m.with_transport_connect_retry_count(small).without_transport_connect_retry_count() == m,
        m.transport_connect_retry_per_host_count is None ==> m.with_transport_connect_retry_per_host_count(small).without_transport_connect_retry_per_host_count() == m,
        m.transport_connect_timeout is None ==> m.with_transport_connect_timeout(small).without_transport_connect_timeout() == m,
        m.transport_direct_transport_enabled is None ==> m.with_transport_direct_transport_enabled(flag).without_transport_direct_transport_enabled() == m,
        m.transport_keepalive_count is None ==> m.with_transport_keepalive_count(small).without_transport_keepalive_count() == m,
        m.transport_keepalive_enabled is None ==> m.with_transport_keepalive_enabled(flag).without_transport_keepalive_enabled() == m,
        m.transport_keepalive_interval is None ==> m.with_transport_keepalive_interval(small).without_transport_keepalive_interval() == m,
        m.transport_msg_callback_on_io_thread_enabled is None ==> m.with_transport_msg_callback_on_io_thread_enabled(flag).without_transport_msg_callback_on_io_thread_enabled() == m,
        m.transport_optimize_direct_enabled is None ==> m.with_transport_optimize_direct_enabled(flag).without_transport_optimize_direct_enabled() == m,
        m.transport_port is None ==> m.with_transport_port(small).without_transport_port() == m,
        m.transport_read_timeout is None ==> m.with_transport_read_timeout(small).without_transport_read_timeout() == m,
        m.transport_receive_buffer_size is None ==> m.with_transport_receive_buffer_size(small).without_transport_receive_buffer_size() == m,
        m.transport_reconnect_retry_count is None ==> m.with_transport_reconnect_retry_count(small).without_transport_reconnect_retry_count() == m,
        m.transport_reconnect_retry_wait is None ==> m.with_transport_reconnect_retry_wait(small).without_transport_reconnect_retry_wait() == m,
        m.transport_send_buffer_size is None ==> m.with_transport_send_buffer_size(small).without_transport_send_buffer_size() == m,
        m.transport_tcp_no_delay_enabled is None ==> m.with_transport_tcp_no_delay_enabled(flag).without_transport_tcp_no_delay_enabled() == m,
        m.xa_enabled is None ==> m.with_xa_enabled(flag).without_xa_enabled() == m,
{
}

/// Removing an attribute twice is the same as removing it once, and removing an absent
/// attribute changes nothing.
pub proof fn lemma_msg_vpn_jndi_connection_factory_reset_idempotent(m: MsgVpnJndiConnectionFactoryView)
    ensures
        m.without_allow_duplicate_client_id_enabled().without_allow_duplicate_client_id_enabled() == m.without_allow_duplicate_client_id_enabled() && (m.allow_duplicate_client_id_enabled is None ==> m.without_allow_duplicate_client_id_enabled() == m),
        m.without_client_description().without_client_description() == m.without_client_description() && (m.client_description is None ==> m.without_client_description() == m),
        m.without_client_id().without_client_id() == m.without_client_id() && (m.client_id is None ==> m.without_client_id() == m),
        m.without_connection_factory_name().without_connection_factory_name() == m.without_connection_factory_name() && (m.connection_factory_name is None ==> m.without_connection_factory_name() == m),
        m.without_dto_receive_override_enabled().without_dto_receive_override_enabled() == m.without_dto_receive_override_enabled() && (m.dto_receive_override_enabled is None ==> m.without_dto_receive_override_enabled() == m),
        m.without_dto_receive_subscriber_local_priority().without_dto_receive_subscriber_local_priority() == m.without_dto_receive_subscriber_local_priority() && (m.dto_receive_subscriber_local_priority is None ==> m.without_dto_receive_subscriber_local_priority() == m),
        m.without_dto_receive_subscriber_network_priority().without_dto_receive_subscriber_network_priority() == m.without_dto_receive_subscriber_network_priority() && (m.dto_receive_subscriber_network_priority is None ==> m.without_dto_receive_subscriber_network_priority() == m),
        m.without_dto_send_enabled().without_dto_send_enabled() == m.without_dto_send_enabled() && (m.dto_send_enabled is None ==> m.without_dto_send_enabled() == m),
        m.without_dynamic_endpoint_create_durable_enabled().without_dynamic_endpoint_create_durable_enabled() == m.without_dynamic_endpoint_create_durable_enabled() && (m.dynamic_endpoint_create_durable_enabled is None ==> m.without_dynamic_endpoint_create_durable_enabled() == m),
        m.without_dynamic_endpoint_respect_ttl_enabled().without_dynamic_endpoint_respect_ttl_enabled() == m.without_dynamic_endpoint_respect_ttl_enabled() && (m.dynamic_endpoint_respect_ttl_enabled is None ==> m.without_dynamic_endpoint_respect_ttl_enabled() == m),
        m.without_guaranteed_receive_ack_timeout().without_guaranteed_receive_ack_timeout() == m.without_guaranteed_receive_ack_timeout() && (m.guaranteed_receive_ack_timeout is None ==> m.without_guaranteed_receive_ack_timeout() == m),
        m.without_guaranteed_receive_window_size().without_guaranteed_receive_window_size() == m.without_guaranteed_receive_window_size() && (m.guaranteed_receive_window_size is None ==> m.without_guaranteed_receive_window_size() == m),
        m.without_guaranteed_receive_window_size_ack_threshold().without_guaranteed_receive_window_size_ack_threshold() == m.without_guaranteed_receive_window_size_ack_threshold() && (m.guaranteed_receive_window_size_ack_threshold is None ==> m.without_guaranteed_receive_window_size_ack_threshold() == m),
        m.without_guaranteed_send_ack_timeout().without_guaranteed_send_ack_timeout() == m.without_guaranteed_send_ack_timeout() && (m.guaranteed_send_ack_timeout is None ==> m.without_guaranteed_send_ack_timeout() == m),
        m.without_guaranteed_send_window_size().without_guaranteed_send_window_size() == m.without_guaranteed_send_window_size() && (m.guaranteed_send_window_size is None ==> m.without_guaranteed_send_window_size() == m),
        m.without_messaging_default_delivery_mode().without_messaging_default_delivery_mode() == m.without_messaging_default_delivery_mode() && (m.messaging_default_delivery_mode is None ==> m.without_messaging_default_delivery_mode() == m),
        m.without_messaging_default_dmq_eligible_enabled().without_messaging_default_dmq_eligible_enabled() == m.without_messaging_default_dmq_eligible_enabled() && (m.messaging_default_dmq_eligible_enabled is None ==> m.without_messaging_default_dmq_eligible_enabled() == m),
        m.without_messaging_default_eliding_eligible_enabled().without_messaging_default_eliding_eligible_enabled() == m.without_messaging_default_eliding_eligible_enabled() && (m.messaging_default_eliding_eligible_enabled is None ==> m.without_messaging_default_eliding_eligible_enabled() == m),
        m.without_messaging_jmsx_user_id_enabled().without_messaging_jmsx_user_id_enabled() == m.without_messaging_jmsx_user_id_enabled() && (m.messaging_jmsx_user_id_enabled is None ==> m.without_messaging_jmsx_user_id_enabled() == m),
        m.without_messaging_text_in_xml_payload_enabled().without_messaging_text_in_xml_payload_enabled() == m.without_messaging_text_in_xml_payload_enabled() && (m.messaging_text_in_xml_payload_enabled is None ==> m.without_messaging_text_in_xml_payload_enabled() == m),
        m.without_msg_vpn_name().without_msg_vpn_name() == m.without_msg_vpn_name() && (m.msg_vpn_name is None ==> m.without_msg_vpn_name() == m),
        m.without_transport_compression_level().without_transport_compression_level() == m.without_transport_compression_level() && (m.transport_compression_level is None ==> m.without_transport_compression_level() == m),
        m.without_transport_connect_retry_count().without_transport_connect_retry_count() == m.without_transport_connect_retry_count() && (m.transport_connect_retry_count is None ==> m.without_transport_connect_retry_count() == m),
        m.without_transport_connect_retry_per_host_count().without_transport_connect_retry_per_host_count() == m.without_transport_connect_retry_per_host_count() && (m.transport_connect_retry_per_host_count is None ==> m.without_transport_connect_retry_per_host_count() == m),
        m.without_transport_connect_timeout().without_transport_connect_timeout() == m.without_transport_connect_timeout() && (m.transport_connect_timeout is None ==> m.without_transport_connect_timeout() == m),
        m.without_transport_direct_transport_enabled().without_transport_direct_transport_enabled() == m.without_transport_direct_transport_enabled() && (m.transport_direct_transport_enabled is None ==> m.without_transport_direct_transport_enabled() == m),
        m.without_transport_keepalive_count().without_transport_keepalive_count() == m.without_transport_keepalive_count() && (m.transport_keepalive_count is None ==> m.without_transport_keepalive_count() == m),
        m.without_transport_keepalive_enabled().without_transport_keepalive_enabled() == m.without_transport_keepalive_enabled() && (m.transport_keepalive_enabled is None ==> m.without_transport_keepalive_enabled() == m),
        m.without_transport_keepalive_interval().without_transport_keepalive_interval() == m.without_transport_keepalive_interval() && (m.transport_keepalive_interval is None ==> m.without_transport_keepalive_interval() == m),
        m.without_transport_msg_callback_on_io_thread_enabled().without_transport_msg_callback_on_io_thread_enabled() == m.without_transport_msg_callback_on_io_thread_enabled() && (m.transport_msg_callback_on_io_thread_enabled is None ==> m.without_transport_msg_callback_on_io_thread_enabled() == m),
        m.without_transport_optimize_direct_enabled().without_transport_optimize_direct_enabled() == m.without_transport_optimize_direct_enabled() && (m.transport_optimize_direct_enabled is None ==> m.without_transport_optimize_direct_enabled() == m),
        m.without_transport_port().without_transport_port() == m.without_transport_port() && (m.transport_port is None ==> m.without_transport_port() == m),
        m.without_transport_read_timeout().without_transport_read_timeout() == m.without_transport_read_timeout() && (m.transport_read_timeout is None ==> m.without_transport_read_timeout() == m),
        m.without_transport_receive_buffer_size().without_transport_receive_buffer_size() == m.without_transport_receive_buffer_size() && (m.transport_receive_buffer_size is None ==> m.without_transport_receive_buffer_size() == m),
        m.without_transport_reconnect_retry_count().without_transport_reconnect_retry_count() == m.without_transport_reconnect_retry_count() && (m.transport_reconnect_retry_count is None ==> m.without_transport_reconnect_retry_count() == m),
        m.without_transport_reconnect_retry_wait().without_transport_reconnect_retry_wait() == m.without_transport_reconnect_retry_wait() && (m.transport_reconnect_retry_wait is None ==> m.without_transport_reconnect_retry_wait() == m),
        m.without_transport_send_buffer_size().without_transport_send_buffer_size() == m.without_transport_send_buffer_size() && (m.transport_send_buffer_size is None ==> m.without_transport_send_buffer_size() == m),
        m.without_transport_tcp_no_delay_enabled().without_transport_tcp_no_delay_enabled() == m.without_transport_tcp_no_delay_enabled() && (m.transport_tcp_no_delay_enabled is None ==> m.without_transport_tcp_no_delay_enabled() == m),
        m.without_xa_enabled().without_xa_enabled() == m.without_xa_enabled() && (m.xa_enabled is None ==> m.without_xa_enabled() == m),
{
}

/// Writing the value an attribute already holds changes nothing.
pub proof fn lemma_msg_vpn_jndi_connection_factory_rewrite_is_no_op(m: MsgVpnJndiConnectionFactoryView, flag: bool, text: Seq<char>, small: i32)
    ensures
        m.allow_duplicate_client_id_enabled == Some(flag) ==> m.with_allow_duplicate_client_id_enabled(flag) == m,
        m.client_description == Some(text) ==> m.with_client_description(text) == m,
        m.client_id == Some(text) ==> m.with_client_id(text) == m,
        m.connection_factory_name == Some(text) ==> m.with_connection_factory_name(text) == m,
        m.dto_receive_override_enabled == Some(flag) ==> m.with_dto_receive_override_enabled(flag) == m,
        m.dto_receive_subscriber_local_priority == Some(small) ==> m.with_dto_receive_subscriber_local_priority(small) == m,
        m.dto_receive_subscriber_network_priority == Some(small) ==> m.with_dto_receive_subscriber_network_priority(small) == m,
        m.dto_send_enabled == Some(flag) ==> m.with_dto_send_enabled(flag) == m,
        m.dynamic_endpoint_create_durable_enabled == Some(flag) ==> m.with_dynamic_endpoint_create_durable_enabled(flag) == m,
        m.dynamic_endpoint_respect_ttl_enabled == Some(flag) ==> m.with_dynamic_endpoint_respect_ttl_enabled(flag) == m,
        m.guaranteed_receive_ack_timeout == Some(small) ==> m.with_guaranteed_receive_ack_timeout(small) == m,
        m.guaranteed_receive_window_size == Some(small) ==> m.with_guaranteed_receive_window_size(small) == m,
        m.guaranteed_receive_window_size_ack_threshold == Some(small) ==> m.with_guaranteed_receive_window_size_ack_threshold(small) == m,
        m.guaranteed_send_ack_timeout == Some(small) ==> m.with_guaranteed_send_ack_timeout(small) == m,
        m.guaranteed_send_window_size == Some(small) ==> m.with_guaranteed_send_window_size(small) == m,
        m.messaging_default_delivery_mode == Some(text) ==> m.with_messaging_default_delivery_mode(text) == m,
        m.messaging_default_dmq_eligible_enabled == Some(flag) ==> m.with_messaging_default_dmq_eligible_enabled(flag) == m,
        m.messaging_default_eliding_eligible_enabled == Some(flag) ==> m.with_messaging_default_eliding_eligible_enabled(flag) == m,
        m.messaging_jmsx_user_id_enabled == Some(flag) ==> m.with_messaging_jmsx_user_id_enabled(flag) == m,
        m.messaging_text_in_xml_payload_enabled == Some(flag) ==> m.with_messaging_text_in_xml_payload_enabled(flag) == m,
        m.msg_vpn_name == Some(text) ==> m.with_msg_vpn_name(text) == m,
        m.transport_compression_level == Some(small) ==> m.with_transport_compression_level(small) == m,
        m.transport_connect_retry_count == Some(small) ==> m.with_transport_connect_retry_count(small) == m,
        m.transport_connect_retry_per_host_count == Some(small) ==> m.with_transport_connect_retry_per_host_count(small) == m,
        m.transport_connect_timeout == Some(small) ==> m.with_transport_connect_timeout(small) == m,
        m.transport_direct_transport_enabled == Some(flag) ==> m.with_transport_direct_transport_enabled(flag) == m,
        m.transport_keepalive_count == Some(small) ==> m.with_transport_keepalive_count(small) == m,
        m.transport_keepalive_enabled == Some(flag) ==> m.with_transport_keepalive_enabled(flag) == m,
        m.transport_keepalive_interval == Some(small) ==> m.with_transport_keepalive_interval(small) == m,
        m.transport_msg_callback_on_io_thread_enabled == Some(flag) ==> m.with_transport_msg_callback_on_io_thread_enabled(flag) == m,
        m.transport_optimize_direct_enabled == Some(flag) ==> m.with_transport_optimize_direct_enabled(flag) == m,
        m.transport_port == Some(small) ==> m.with_transport_port(small) == m,
        m.transport_read_timeout == Some(small) ==> m.with_transport_read_timeout(small) == m,
        m.transport_receive_buffer_size == Some(small) ==> m.with_transport_receive_buffer_size(small) == m,
        m.transport_reconnect_retry_count == Some(small) ==> m.with_transport_reconnect_retry_count(small) == m,
        m.transport_reconnect_retry_wait == Some(small) ==> m.with_transport_reconnect_retry_wait(small) == m,
        m.transport_send_buffer_size == Some(small) ==> m.with_transport_send_buffer_size(small) == m,
        m.transport_tcp_no_delay_enabled == Some(flag) ==> m.with_transport_tcp_no_delay_enabled(flag) == m,
        m.xa_enabled == Some(flag) ==> m.with_xa_enabled(flag) == m,
{
}

/// The name of one attribute of a [`MsgVpnJndiConnectionFactory`].
pub enum MsgVpnJndiConnectionFactoryAttribute {
    /// `allowDuplicateClientIdEnabled`
    AllowDuplicateClientIdEnabled,
    /// `clientDescription`
    ClientDescription,
    /// `clientId`
    ClientId,
    /// `connectionFactoryName`
    ConnectionFactoryName,
    /// `dtoReceiveOverrideEnabled`
    DtoReceiveOverrideEnabled,
    /// `dtoReceiveSubscriberLocalPriority`
    DtoReceiveSubscriberLocalPriority,
    /// `dtoReceiveSubscriberNetworkPriority`
    DtoReceiveSubscriberNetworkPriority,
    /// `dtoSendEnabled`
    DtoSendEnabled,
    /// `dynamicEndpointCreateDurableEnabled`
    DynamicEndpointCreateDurableEnabled,
    /// `dynamicEndpointRespectTtlEnabled`
    DynamicEndpointRespectTtlEnabled,
    /// `guaranteedReceiveAckTimeout`
    GuaranteedReceiveAckTimeout,
    /// `guaranteedReceiveWindowSize`
    GuaranteedReceiveWindowSize,
    /// `guaranteedReceiveWindowSizeAckThreshold`
    GuaranteedReceiveWindowSizeAckThreshold,
    /// `guaranteedSendAckTimeout`
    GuaranteedSendAckTimeout,
    /// `guaranteedSendWindowSize`
    GuaranteedSendWindowSize,
    /// `messagingDefaultDeliveryMode`
    MessagingDefaultDeliveryMode,
    /// `messagingDefaultDmqEligibleEnabled`
    MessagingDefaultDmqEligibleEnabled,
    /// `messagingDefaultElidingEligibleEnabled`
    MessagingDefaultElidingEligibleEnabled,
    /// `messagingJmsxUserIdEnabled`
    MessagingJmsxUserIdEnabled,
    /// `messagingTextInXmlPayloadEnabled`
    MessagingTextInXmlPayloadEnabled,
    /// `msgVpnName`
    MsgVpnName,
    /// `transportCompressionLevel`
    TransportCompressionLevel,
    /// `transportConnectRetryCount`
    TransportConnectRetryCount,
    /// `transportConnectRetryPerHostCount`
    TransportConnectRetryPerHostCount,
    /// `transportConnectTimeout`
    TransportConnectTimeout,
    /// `transportDirectTransportEnabled`
    TransportDirectTransportEnabled,
    /// `transportKeepaliveCount`
    TransportKeepaliveCount,
    /// `transportKeepaliveEnabled`
    TransportKeepaliveEnabled,
    /// `transportKeepaliveInterval`
    TransportKeepaliveInterval,
    /// `transportMsgCallbackOnIoThreadEnabled`
    TransportMsgCallbackOnIoThreadEnabled,
    /// `transportOptimizeDirectEnabled`
    TransportOptimizeDirectEnabled,
    /// `transportPort`
    TransportPort,
    /// `transportReadTimeout`
    TransportReadTimeout,
    /// `transportReceiveBufferSize`
    TransportReceiveBufferSize,
    /// `transportReconnectRetryCount`
    TransportReconnectRetryCount,
    /// `transportReconnectRetryWait`
    TransportReconnectRetryWait,
    /// `transportSendBufferSize`
    TransportSendBufferSize,
    /// `transportTcpNoDelayEnabled`
    TransportTcpNoDelayEnabled,
    /// `xaEnabled`
    XaEnabled,
}

impl MsgVpnJndiConnectionFactoryView {
    /// The value of the named attribute, present or absent.
    pub open spec fn attribute(self, a: MsgVpnJndiConnectionFactoryAttribute) -> AttributeValue {
        match a {
            MsgVpnJndiConnectionFactoryAttribute::AllowDuplicateClientIdEnabled => AttributeValue::Flag(self.allow_duplicate_client_id_enabled),
            MsgVpnJndiConnectionFactoryAttribute::ClientDescription => AttributeValue::Text(self.client_description),
            MsgVpnJndiConnectionFactoryAttribute::ClientId => AttributeValue::Text(self.client_id),
            MsgVpnJndiConnectionFactoryAttribute::ConnectionFactoryName => AttributeValue::Text(self.connection_factory_name),
            MsgVpnJndiConnectionFactoryAttribute::DtoReceiveOverrideEnabled => AttributeValue::Flag(self.dto_receive_override_enabled),
            MsgVpnJndiConnectionFactoryAttribute::DtoReceiveSubscriberLocalPriority => AttributeValue::Int32(self.dto_receive_subscriber_local_priority),
            MsgVpnJndiConnectionFactoryAttribute::DtoReceiveSubscriberNetworkPriority => AttributeValue::Int32(self.dto_receive_subscriber_network_priority),
            MsgVpnJndiConnectionFactoryAttribute::DtoSendEnabled => AttributeValue::Flag(self.dto_send_enabled),
            MsgVpnJndiConnectionFactoryAttribute::DynamicEndpointCreateDurableEnabled => AttributeValue::Flag(self.dynamic_endpoint_create_durable_enabled),
            MsgVpnJndiConnectionFactoryAttribute::DynamicEndpointRespectTtlEnabled => AttributeValue::Flag(self.dynamic_endpoint_respect_ttl_enabled),
            MsgVpnJndiConnectionFactoryAttribute::GuaranteedReceiveAckTimeout => AttributeValue::Int32(self.guaranteed_receive_ack_timeout),
            MsgVpnJndiConnectionFactoryAttribute::GuaranteedReceiveWindowSize => AttributeValue::Int32(self.guaranteed_receive_window_size),
            MsgVpnJndiConnectionFactoryAttribute::GuaranteedReceiveWindowSizeAckThreshold => AttributeValue::Int32(self.guaranteed_receive_window_size_ack_threshold),
            MsgVpnJndiConnectionFactoryAttribute::GuaranteedSendAckTimeout => AttributeValue::Int32(self.guaranteed_send_ack_timeout),
            MsgVpnJndiConnectionFactoryAttribute::GuaranteedSendWindowSize => AttributeValue::Int32(self.guaranteed_send_window_size),
            MsgVpnJndiConnectionFactoryAttribute::MessagingDefaultDeliveryMode => AttributeValue::Text(self.messaging_default_delivery_mode),
            MsgVpnJndiConnectionFactoryAttribute::MessagingDefaultDmqEligibleEnabled => AttributeValue::Flag(self.messaging_default_dmq_eligible_enabled),
            MsgVpnJndiConnectionFactoryAttribute::MessagingDefaultElidingEligibleEnabled => AttributeValue::Flag(self.messaging_default_eliding_eligible_enabled),
            MsgVpnJndiConnectionFactoryAttribute::MessagingJmsxUserIdEnabled => AttributeValue::Flag(self.messaging_jmsx_user_id_enabled),
            MsgVpnJndiConnectionFactoryAttribute::MessagingTextInXmlPayloadEnabled => AttributeValue::Flag(self.messaging_text_in_xml_payload_enabled),
            MsgVpnJndiConnectionFactoryAttribute::MsgVpnName => AttributeValue::Text(self.msg_vpn_name),
            MsgVpnJndiConnectionFactoryAttribute::TransportCompressionLevel => AttributeValue::Int32(self.transport_compression_level),
            MsgVpnJndiConnectionFactoryAttribute::TransportConnectRetryCount => AttributeValue::Int32(self.transport_connect_retry_count),
            MsgVpnJndiConnectionFactoryAttribute::TransportConnectRetryPerHostCount => AttributeValue::Int32(self.transport_connect_retry_per_host_count),
            MsgVpnJndiConnectionFactoryAttribute::TransportConnectTimeout => AttributeValue::Int32(self.transport_connect_timeout),
            MsgVpnJndiConnectionFactoryAttribute::TransportDirectTransportEnabled => AttributeValue::Flag(self.transport_direct_transport_enabled),
            MsgVpnJndiConnectionFactoryAttribute::TransportKeepaliveCount => AttributeValue::Int32(self.transport_keepalive_count),
            MsgVpnJndiConnectionFactoryAttribute::TransportKeepaliveEnabled => AttributeValue::Flag(self.transport_keepalive_enabled),
            MsgVpnJndiConnectionFactoryAttribute::TransportKeepaliveInterval => AttributeValue::Int32(self.transport_keepalive_interval),
            MsgVpnJndiConnectionFactoryAttribute::TransportMsgCallbackOnIoThreadEnabled => AttributeValue::Flag(self.transport_msg_callback_on_io_thread_enabled),
            MsgVpnJndiConnectionFactoryAttribute::TransportOptimizeDirectEnabled => AttributeValue::Flag(self.transport_optimize_direct_enabled),
            MsgVpnJndiConnectionFactoryAttribute::TransportPort => AttributeValue::Int32(self.transport_port),
            MsgVpnJndiConnectionFactoryAttribute::TransportReadTimeout => AttributeValue::Int32(self.transport_read_timeout),
            MsgVpnJndiConnectionFactoryAttribute::TransportReceiveBufferSize => AttributeValue::Int32(self.transport_receive_buffer_size),
            MsgVpnJndiConnectionFactoryAttribute::TransportReconnectRetryCount => AttributeValue::Int32(self.transport_reconnect_retry_count),
            MsgVpnJndiConnectionFactoryAttribute::TransportReconnectRetryWait => AttributeValue::Int32(self.transport_reconnect_retry_wait),
            MsgVpnJndiConnectionFactoryAttribute::TransportSendBufferSize => AttributeValue::Int32(self.transport_send_buffer_size),
            MsgVpnJndiConnectionFactoryAttribute::TransportTcpNoDelayEnabled => AttributeValue::Flag(self.transport_tcp_no_delay_enabled),
            MsgVpnJndiConnectionFactoryAttribute::XaEnabled => AttributeValue::Flag(self.xa_enabled),
        }
    }
}

/// Writing an attribute gives it the value written and leaves every other attribute
/// exactly as it was.
#[verifier::rlimit(100)]
pub proof fn lemma_msg_vpn_jndi_connection_factory_write_changes_only_its_attribute(m: MsgVpnJndiConnectionFactoryView, flag: bool, text: Seq<char>, small: i32)
    ensures
        m.with_allow_duplicate_client_id_enabled(flag).attribute(MsgVpnJndiConnectionFactoryAttribute::AllowDuplicateClientIdEnabled) == AttributeValue::Flag(Some(flag)),
        forall|a: MsgVpnJndiConnectionFactoryAttribute| a != MsgVpnJndiConnectionFactoryAttribute::AllowDuplicateClientIdEnabled ==> #[trigger] m.with_allow_duplicate_client_id_enabled(flag).attribute(a) == m.attribute(a),
        m.with_client_description(text).attribute(MsgVpnJndiConnectionFactoryAttribute::ClientDescription) == AttributeValue::Text(Some(text)),
        forall|a: MsgVpnJndiConnectionFactoryAttribute| a != MsgVpnJndiConnectionFactoryAttribute::ClientDescription ==> #[trigger] m.with_client_description(text).attribute(a) == m.attribute(a),
        m.with_client_id(text).attribute(MsgVpnJndiConnectionFactoryAttribute::ClientId) == AttributeValue::Text(Some(text)),
        forall|a: MsgVpnJndiConnectionFactoryAttribute| a != MsgVpnJndiConnectionFactoryAttribute::ClientId ==> #[trigger] m.with_client_id(text).attribute(a) == m.attribute(a),
        m.with_connection_factory_name(text).attribute(MsgVpnJndiConnectionFactoryAttribute::ConnectionFactoryName) == AttributeValue::Text(Some(text)),
        forall|a: MsgVpnJndiConnectionFactoryAttribute| a != MsgVpnJndiConnectionFactoryAttribute::ConnectionFactoryName ==> #[trigger] m.with_connection_factory_name(text).attribute(a) == m.attribute(a),
        m.with_dto_receive_override_enabled(flag).attribute(MsgVpnJndiConnectionFactoryAttribute::DtoReceiveOverrideEnabled) == AttributeValue::Flag(Some(flag)),
        forall|a: MsgVpnJndiConnectionFactoryAttribute| a != MsgVpnJndiConnectionFactoryAttribute::DtoReceiveOverrideEnabled ==> #[trigger] m.with_dto_receive_override_enabled(flag).attribute(a) == m.attribute(a),
        m.with_dto_receive_subscriber_local_priority(small).attribute(MsgVpnJndiConnectionFactoryAttribute::DtoReceiveSubscriberLocalPriority) == AttributeValue::Int32(Some(small)),
        forall|a: MsgVpnJndiConnectionFactoryAttribute| a != MsgVpnJndiConnectionFactoryAttribute::DtoReceiveSubscriberLocalPriority ==> #[trigger] m.with_dto_receive_subscriber_local_priority(small).attribute(a) == m.attribute(a),
        m.with_dto_receive_subscriber_network_priority(small).attribute(MsgVpnJndiConnectionFactoryAttribute::DtoReceiveSubscriberNetworkPriority) == AttributeValue::Int32(Some(small)),
        forall|a: MsgVpnJndiConnectionFactoryAttribute| a != MsgVpnJndiConnectionFactoryAttribute::DtoReceiveSubscriberNetworkPriority ==> #[trigger] m.with_dto_receive_subscriber_network_priority(small).attribute(a) == m.attribute(a),
        m.with_dto_send_enabled(flag).attribute(MsgVpnJndiConnectionFactoryAttribute::DtoSendEnabled) == AttributeValue::Flag(Some(flag)),
        forall|a: MsgVpnJndiConnectionFactoryAttribute| a != MsgVpnJndiConnectionFactoryAttribute::DtoSendEnabled ==> #[trigger] m.with_dto_send_enabled(flag).attribute(a) == m.attribute(a),
        m.with_dynamic_endpoint_create_durable_enabled(flag).attribute(MsgVpnJndiConnectionFactoryAttribute::DynamicEndpointCreateDurableEnabled) == AttributeValue::Flag(Some(flag)),
        forall|a: MsgVpnJndiConnectionFactoryAttribute| a != MsgVpnJndiConnectionFactoryAttribute::DynamicEndpointCreateDurableEnabled ==> #[trigger] m.with_dynamic_endpoint_create_durable_enabled(flag).attribute(a) == m.attribute(a),
        m.with_dynamic_endpoint_respect_ttl_enabled(flag).attribute(MsgVpnJndiConnectionFactoryAttribute::DynamicEndpointRespectTtlEnabled) == AttributeValue::Flag(Some(flag)),
        forall|a: MsgVpnJndiConnectionFactoryAttribute| a != MsgVpnJndiConnectionFactoryAttribute::DynamicEndpointRespectTtlEnabled ==> #[trigger] m.with_dynamic_endpoint_respect_ttl_enabled(flag).attribute(a) == m.attribute(a),
        m.with_guaranteed_receive_ack_timeout(small).attribute(MsgVpnJndiConnectionFactoryAttribute::GuaranteedReceiveAckTimeout) == AttributeValue::Int32(Some(small)),
        forall|a: MsgVpnJndiConnectionFactoryAttribute| a != MsgVpnJndiConnectionFactoryAttribute::GuaranteedReceiveAckTimeout ==> #[trigger] m.with_guaranteed_receive_ack_timeout(small).attribute(a) == m.attribute(a),
        m.with_guaranteed_receive_window_size(small).attribute(MsgVpnJndiConnectionFactoryAttribute::GuaranteedReceiveWindowSize) == AttributeValue::Int32(Some(small)),
        forall|a: MsgVpnJndiConnectionFactoryAttribute| a != MsgVpnJndiConnectionFactoryAttribute::GuaranteedReceiveWindowSize ==> #[trigger] m.with_guaranteed_receive_window_size(small).attribute(a) == m.attribute(a),
        m.with_guaranteed_receive_window_size_ack_threshold(small).attribute(MsgVpnJndiConnectionFactoryAttribute::GuaranteedReceiveWindowSizeAckThreshold) == AttributeValue::Int32(Some(small)),
        forall|a: MsgVpnJndiConnectionFactoryAttribute| a != MsgVpnJndiConnectionFactoryAttribute::GuaranteedReceiveWindowSizeAckThreshold ==> #[trigger] m.with_guaranteed_receive_window_size_ack_threshold(small).attribute(a) == m.attribute(a),
        m.with_guaranteed_send_ack_timeout(small).attribute(MsgVpnJndiConnectionFactoryAttribute::GuaranteedSendAckTimeout) == AttributeValue::Int32(Some(small)),
        forall|a: MsgVpnJndiConnectionFactoryAttribute| a != MsgVpnJndiConnectionFactoryAttribute::GuaranteedSendAckTimeout ==> #[trigger] m.with_guaranteed_send_ack_timeout(small).attribute(a) == m.attribute(a),
        m.with_guaranteed_send_window_size(small).attribute(MsgVpnJndiConnectionFactoryAttribute::GuaranteedSendWindowSize) == AttributeValue::Int32(Some(small)),
        forall|a: MsgVpnJndiConnectionFactoryAttribute| a != MsgVpnJndiConnectionFactoryAttribute::GuaranteedSendWindowSize ==> #[trigger] m.with_guaranteed_send_window_size(small).attribute(a) == m.attribute(a),
        m.with_messaging_default_delivery_mode(text).attribute(MsgVpnJndiConnectionFactoryAttribute::MessagingDefaultDeliveryMode) == AttributeValue::Text(Some(text)),
        forall|a: MsgVpnJndiConnectionFactoryAttribute| a != MsgVpnJndiConnectionFactoryAttribute::MessagingDefaultDeliveryMode ==> #[trigger] m.with_messaging_default_delivery_mode(text).attribute(a) == m.attribute(a),
        m.with_messaging_default_dmq_eligible_enabled(flag).attribute(MsgVpnJndiConnectionFactoryAttribute::MessagingDefaultDmqEligibleEnabled) == AttributeValue::Flag(Some(flag)),
        forall|a: MsgVpnJndiConnectionFactoryAttribute| a != MsgVpnJndiConnectionFactoryAttribute::MessagingDefaultDmqEligibleEnabled ==> #[trigger] m.with_messaging_default_dmq_eligible_enabled(flag).attribute(a) == m.attribute(a),
        m.with_messaging_default_eliding_eligible_enabled(flag).attribute(MsgVpnJndiConnectionFactoryAttribute::MessagingDefaultElidingEligibleEnabled) == AttributeValue::Flag(Some(flag)),
        forall|a: MsgVpnJndiConnectionFactoryAttribute| a != MsgVpnJndiConnectionFactoryAttribute::MessagingDefaultElidingEligibleEnabled ==> #[trigger] m.with_messaging_default_eliding_eligible_enabled(flag).attribute(a) == m.attribute(a),
        m.with_messaging_jmsx_user_id_enabled(flag).attribute(MsgVpnJndiConnectionFactoryAttribute::MessagingJmsxUserIdEnabled) == AttributeValue::Flag(Some(flag)),
        forall|a: MsgVpnJndiConnectionFactoryAttribute| a != MsgVpnJndiConnectionFactoryAttribute::MessagingJmsxUserIdEnabled ==> #[trigger] m.with_messaging_jmsx_user_id_enabled(flag).attribute(a) == m.attribute(a),
        m.with_messaging_text_in_xml_payload_enabled(flag).attribute(MsgVpnJndiConnectionFactoryAttribute::MessagingTextInXmlPayloadEnabled) == AttributeValue::Flag(Some(flag)),
        forall|a: MsgVpnJndiConnectionFactoryAttribute| a != MsgVpnJndiConnectionFactoryAttribute::MessagingTextInXmlPayloadEnabled ==> #[trigger] m.with_messaging_text_in_xml_payload_enabled(flag).attribute(a) == m.attribute(a),
        m.with_msg_vpn_name(text).attribute(MsgVpnJndiConnectionFactoryAttribute::MsgVpnName) == AttributeValue::Text(Some(text)),
        forall|a: MsgVpnJndiConnectionFactoryAttribute| a != MsgVpnJndiConnectionFactoryAttribute::MsgVpnName ==> #[trigger] m.with_msg_vpn_name(text).attribute(a) == m.attribute(a),
        m.with_transport_compression_level(small).attribute(MsgVpnJndiConnectionFactoryAttribute::TransportCompressionLevel) == AttributeValue::Int32(Some(small)),
        forall|a: MsgVpnJndiConnectionFactoryAttribute| a != MsgVpnJndiConnectionFactoryAttribute::TransportCompressionLevel ==> #[trigger] m.with_transport_compression_level(small).attribute(a) == m.attribute(a),
        m.with_transport_connect_retry_count(small).attribute(MsgVpnJndiConnectionFactoryAttribute::TransportConnectRetryCount) == AttributeValue::Int32(Some(small)),
        forall|a: MsgVpnJndiConnectionFactoryAttribute| a != MsgVpnJndiConnectionFactoryAttribute::TransportConnectRetryCount ==> #[trigger] m.with_transport_connect_retry_count(small).attribute(a) == m.attribute(a),
        m.with_transport_connect_retry_per_host_count(small).attribute(MsgVpnJndiConnectionFactoryAttribute::TransportConnectRetryPerHostCount) == AttributeValue::Int32(Some(small)),
        forall|a: MsgVpnJndiConnectionFactoryAttribute| a != MsgVpnJndiConnectionFactoryAttribute::TransportConnectRetryPerHostCount ==> #[trigger] m.with_transport_connect_retry_per_host_count(small).attribute(a) == m.attribute(a),
        m.with_transport_connect_timeout(small).attribute(MsgVpnJndiConnectionFactoryAttribute::TransportConnectTimeout) == AttributeValue::Int32(Some(small)),
        forall|a: MsgVpnJndiConnectionFactoryAttribute| a != MsgVpnJndiConnectionFactoryAttribute::TransportConnectTimeout ==> #[trigger] m.with_transport_connect_timeout(small).attribute(a) == m.attribute(a),
        m.with_transport_direct_transport_enabled(flag).attribute(MsgVpnJndiConnectionFactoryAttribute::TransportDirectTransportEnabled) == AttributeValue::Flag(Some(flag)),
        forall|a: MsgVpnJndiConnectionFactoryAttribute| a != MsgVpnJndiConnectionFactoryAttribute::TransportDirectTransportEnabled ==> #[trigger] m.with_transport_direct_transport_enabled(flag).attribute(a) == m.attribute(a),
        m.with_transport_keepalive_count(small).attribute(MsgVpnJndiConnectionFactoryAttribute::TransportKeepaliveCount) == AttributeValue::Int32(Some(small)),
        forall|a: MsgVpnJndiConnectionFactoryAttribute| a != MsgVpnJndiConnectionFactoryAttribute::TransportKeepaliveCount ==> #[trigger] m.with_transport_keepalive_count(small).attribute(a) == m.attribute(a),
        m.with_transport_keepalive_enabled(flag).attribute(MsgVpnJndiConnectionFactoryAttribute::TransportKeepaliveEnabled) == AttributeValue::Flag(Some(flag)),
        forall|a: MsgVpnJndiConnectionFactoryAttribute| a != MsgVpnJndiConnectionFactoryAttribute::TransportKeepaliveEnabled ==> #[trigger] m.with_transport_keepalive_enabled(flag).attribute(a) == m.attribute(a),
        m.with_transport_keepalive_interval(small).attribute(MsgVpnJndiConnectionFactoryAttribute::TransportKeepaliveInterval) == AttributeValue::Int32(Some(small)),
        forall|a: MsgVpnJndiConnectionFactoryAttribute| a != MsgVpnJndiConnectionFactoryAttribute::TransportKeepaliveInterval ==> #[trigger] m.with_transport_keepalive_interval(small).attribute(a) == m.attribute(a),
        m.with_transport_msg_callback_on_io_thread_enabled(flag).attribute(MsgVpnJndiConnectionFactoryAttribute::TransportMsgCallbackOnIoThreadEnabled) == AttributeValue::Flag(Some(flag)),
        forall|a: MsgVpnJndiConnectionFactoryAttribute| a != MsgVpnJndiConnectionFactoryAttribute::TransportMsgCallbackOnIoThreadEnabled ==> #[trigger] m.with_transport_msg_callback_on_io_thread_enabled(flag).attribute(a) == m.attribute(a),
        m.with_transport_optimize_direct_enabled(flag).attribute(MsgVpnJndiConnectionFactoryAttribute::TransportOptimizeDirectEnabled) == AttributeValue::Flag(Some(flag)),
        forall|a: MsgVpnJndiConnectionFactoryAttribute| a != MsgVpnJndiConnectionFactoryAttribute::TransportOptimizeDirectEnabled ==> #[trigger] m.with_transport_optimize_direct_enabled(flag).attribute(a) == m.attribute(a),
        m.with_transport_port(small).attribute(MsgVpnJndiConnectionFactoryAttribute::TransportPort) == AttributeValue::Int32(Some(small)),
        forall|a: MsgVpnJndiConnectionFactoryAttribute| a != MsgVpnJndiConnectionFactoryAttribute::TransportPort ==> #[trigger] m.with_transport_port(small).attribute(a) == m.attribute(a),
        m.with_transport_read_timeout(small).attribute(MsgVpnJndiConnectionFactoryAttribute::TransportReadTimeout) == AttributeValue::Int32(Some(small)),
        forall|a: MsgVpnJndiConnectionFactoryAttribute| a != MsgVpnJndiConnectionFactoryAttribute::TransportReadTimeout ==> #[trigger] m.with_transport_read_timeout(small).attribute(a) == m.attribute(a),
        m.with_transport_receive_buffer_size(small).attribute(MsgVpnJndiConnectionFactoryAttribute::TransportReceiveBufferSize) == AttributeValue::Int32(Some(small)),
        forall|a: MsgVpnJndiConnectionFactoryAttribute| a != MsgVpnJndiConnectionFactoryAttribute::TransportReceiveBufferSize ==> #[trigger] m.with_transport_receive_buffer_size(small).attribute(a) == m.attribute(a),
        m.with_transport_reconnect_retry_count(small).attribute(MsgVpnJndiConnectionFactoryAttribute::TransportReconnectRetryCount) == AttributeValue::Int32(Some(small)),
        forall|a: MsgVpnJndiConnectionFactoryAttribute| a != MsgVpnJndiConnectionFactoryAttribute::TransportReconnectRetryCount ==> #[trigger] m.with_transport_reconnect_retry_count(small).attribute(a) == m.attribute(a),
        m.with_transport_reconnect_retry_wait(small).attribute(MsgVpnJndiConnectionFactoryAttribute::TransportReconnectRetryWait) == AttributeValue::Int32(Some(small)),
        forall|a: MsgVpnJndiConnectionFactoryAttribute| a != MsgVpnJndiConnectionFactoryAttribute::TransportReconnectRetryWait ==> #[trigger] m.with_transport_reconnect_retry_wait(small).attribute(a) == m.attribute(a),
        m.with_transport_send_buffer_size(small).attribute(MsgVpnJndiConnectionFactoryAttribute::TransportSendBufferSize) == AttributeValue::Int32(Some(small)),
        forall|a: MsgVpnJndiConnectionFactoryAttribute| a != MsgVpnJndiConnectionFactoryAttribute::TransportSendBufferSize ==> #[trigger] m.with_transport_send_buffer_size(small).attribute(a) == m.attribute(a),
        m.with_transport_tcp_no_delay_enabled(flag).attribute(MsgVpnJndiConnectionFactoryAttribute::TransportTcpNoDelayEnabled) == AttributeValue::Flag(Some(flag)),
        forall|a: MsgVpnJndiConnectionFactoryAttribute| a != MsgVpnJndiConnectionFactoryAttribute::TransportTcpNoDelayEnabled ==> #[trigger] m.with_transport_tcp_no_delay_enabled(flag).attribute(a) == m.attribute(a),
        m.with_xa_enabled(flag).attribute(MsgVpnJndiConnectionFactoryAttribute::XaEnabled) == AttributeValue::Flag(Some(flag)),
        forall|a: MsgVpnJndiConnectionFactoryAttribute| a != MsgVpnJndiConnectionFactoryAttribute::XaEnabled ==> #[trigger] m.with_xa_enabled(flag).attribute(a) == m.attribute(a),
{
}

/// Removing an attribute makes it absent and leaves every other attribute exactly as it was.
#[verifier::rlimit(100)]
pub proof fn lemma_msg_vpn_jndi_connection_factory_reset_changes_only_its_attribute(m: MsgVpnJndiConnectionFactoryView)
    ensures
        m.without_allow_duplicate_client_id_enabled().attribute(MsgVpnJndiConnectionFactoryAttribute::AllowDuplicateClientIdEnabled) == AttributeValue::Flag(None),
        forall|a: MsgVpnJndiConnectionFactoryAttribute| a != MsgVpnJndiConnectionFactoryAttribute::AllowDuplicateClientIdEnabled ==> #[trigger] m.without_allow_duplicate_client_id_enabled().attribute(a) == m.attribute(a),
        m.without_client_description().attribute(MsgVpnJndiConnectionFactoryAttribute::ClientDescription) == AttributeValue::Text(None),
        forall|a: MsgVpnJndiConnectionFactoryAttribute| a != MsgVpnJndiConnectionFactoryAttribute::ClientDescription ==> #[trigger] m.without_client_description().attribute(a) == m.attribute(a),
        m.without_client_id().attribute(MsgVpnJndiConnectionFactoryAttribute::ClientId) == AttributeValue::Text(None),
        forall|a: MsgVpnJndiConnectionFactoryAttribute| a != MsgVpnJndiConnectionFactoryAttribute::ClientId ==> #[trigger] m.without_client_id().attribute(a) == m.attribute(a),
        m.without_connection_factory_name().attribute(MsgVpnJndiConnectionFactoryAttribute::ConnectionFactoryName) == AttributeValue::Text(None),
        forall|a: MsgVpnJndiConnectionFactoryAttribute| a != MsgVpnJndiConnectionFactoryAttribute::ConnectionFactoryName ==> #[trigger] m.without_connection_factory_name().attribute(a) == m.attribute(a),
        m.without_dto_receive_override_enabled().attribute(MsgVpnJndiConnectionFactoryAttribute::DtoReceiveOverrideEnabled) == AttributeValue::Flag(None),
        forall|a: MsgVpnJndiConnectionFactoryAttribute| a != MsgVpnJndiConnectionFactoryAttribute::DtoReceiveOverrideEnabled ==> #[trigger] m.without_dto_receive_override_enabled().attribute(a) == m.attribute(a),
        m.without_dto_receive_subscriber_local_priority().attribute(MsgVpnJndiConnectionFactoryAttribute::DtoReceiveSubscriberLocalPriority) == AttributeValue::Int32(None),
        forall|a: MsgVpnJndiConnectionFactoryAttribute| a != MsgVpnJndiConnectionFactoryAttribute::DtoReceiveSubscriberLocalPriority ==> #[trigger] m.without_dto_receive_subscriber_local_priority().attribute(a) == m.attribute(a),
        m.without_dto_receive_subscriber_network_priority().attribute(MsgVpnJndiConnectionFactoryAttribute::DtoReceiveSubscriberNetworkPriority) == AttributeValue::Int32(None),
        forall|a: MsgVpnJndiConnectionFactoryAttribute| a != MsgVpnJndiConnectionFactoryAttribute::DtoReceiveSubscriberNetworkPriority ==> #[trigger] m.without_dto_receive_subscriber_network_priority().attribute(a) == m.attribute(a),
        m.without_dto_send_enabled().attribute(MsgVpnJndiConnectionFactoryAttribute::DtoSendEnabled) == AttributeValue::Flag(None),
        forall|a: MsgVpnJndiConnectionFactoryAttribute| a != MsgVpnJndiConnectionFactoryAttribute::DtoSendEnabled ==> #[trigger] m.without_dto_send_enabled().attribute(a) == m.attribute(a),
        m.without_dynamic_endpoint_create_durable_enabled().attribute(MsgVpnJndiConnectionFactoryAttribute::DynamicEndpointCreateDurableEnabled) == AttributeValue::Flag(None),
        forall|a: MsgVpnJndiConnectionFactoryAttribute| a != MsgVpnJndiConnectionFactoryAttribute::DynamicEndpointCreateDurableEnabled ==> #[trigger] m.without_dynamic_endpoint_create_durable_enabled().attribute(a) == m.attribute(a),
        m.without_dynamic_endpoint_respect_ttl_enabled().attribute(MsgVpnJndiConnectionFactoryAttribute::DynamicEndpointRespectTtlEnabled) == AttributeValue::Flag(None),
        forall|a: MsgVpnJndiConnectionFactoryAttribute| a != MsgVpnJndiConnectionFactoryAttribute::DynamicEndpointRespectTtlEnabled ==> #[trigger] m.without_dynamic_endpoint_respect_ttl_enabled().attribute(a) == m.attribute(a),
        m.without_guaranteed_receive_ack_timeout().attribute(MsgVpnJndiConnectionFactoryAttribute::GuaranteedReceiveAckTimeout) == AttributeValue::Int32(None),
        forall|a: MsgVpnJndiConnectionFactoryAttribute| a != MsgVpnJndiConnectionFactoryAttribute::GuaranteedReceiveAckTimeout ==> #[trigger] m.without_guaranteed_receive_ack_timeout().attribute(a) == m.attribute(a),
        m.without_guaranteed_receive_window_size().attribute(MsgVpnJndiConnectionFactoryAttribute::GuaranteedReceiveWindowSize) == AttributeValue::Int32(None),
        forall|a: MsgVpnJndiConnectionFactoryAttribute| a != MsgVpnJndiConnectionFactoryAttribute::GuaranteedReceiveWindowSize ==> #[trigger] m.without_guaranteed_receive_window_size().attribute(a) == m.attribute(a),
        m.without_guaranteed_receive_window_size_ack_threshold().attribute(MsgVpnJndiConnectionFactoryAttribute::GuaranteedReceiveWindowSizeAckThreshold) == AttributeValue::Int32(None),
        forall|a: MsgVpnJndiConnectionFactoryAttribute| a != MsgVpnJndiConnectionFactoryAttribute::GuaranteedReceiveWindowSizeAckThreshold ==> #[trigger] m.without_guaranteed_receive_window_size_ack_threshold().attribute(a) == m.attribute(a),
        m.without_guaranteed_send_ack_timeout().attribute(MsgVpnJndiConnectionFactoryAttribute::GuaranteedSendAckTimeout) == AttributeValue::Int32(None),
        forall|a: MsgVpnJndiConnectionFactoryAttribute| a != MsgVpnJndiConnectionFactoryAttribute::GuaranteedSendAckTimeout ==> #[trigger] m.without_guaranteed_send_ack_timeout().attribute(a) == m.attribute(a),
        m.without_guaranteed_send_window_size().attribute(MsgVpnJndiConnectionFactoryAttribute::GuaranteedSendWindowSize) == AttributeValue::Int32(None),
        forall|a: MsgVpnJndiConnectionFactoryAttribute| a != MsgVpnJndiConnectionFactoryAttribute::GuaranteedSendWindowSize ==> #[trigger] m.without_guaranteed_send_window_size().attribute(a) == m.attribute(a),
        m.without_messaging_default_delivery_mode().attribute(MsgVpnJndiConnectionFactoryAttribute::MessagingDefaultDeliveryMode) == AttributeValue::Text(None),
        forall|a: MsgVpnJndiConnectionFactoryAttribute| a != MsgVpnJndiConnectionFactoryAttribute::MessagingDefaultDeliveryMode ==> #[trigger] m.without_messaging_default_delivery_mode().attribute(a) == m.attribute(a),
        m.without_messaging_default_dmq_eligible_enabled().attribute(MsgVpnJndiConnectionFactoryAttribute::MessagingDefaultDmqEligibleEnabled) == AttributeValue::Flag(None),
        forall|a: MsgVpnJndiConnectionFactoryAttribute| a != MsgVpnJndiConnectionFactoryAttribute::MessagingDefaultDmqEligibleEnabled ==> #[trigger] m.without_messaging_default_dmq_eligible_enabled().attribute(a) == m.attribute(a),
        m.without_messaging_default_eliding_eligible_enabled().attribute(MsgVpnJndiConnectionFactoryAttribute::MessagingDefaultElidingEligibleEnabled) == AttributeValue::Flag(None),
        forall|a: MsgVpnJndiConnectionFactoryAttribute| a != MsgVpnJndiConnectionFactoryAttribute::MessagingDefaultElidingEligibleEnabled ==> #[trigger] m.without_messaging_default_eliding_eligible_enabled().attribute(a) == m.attribute(a),
        m.without_messaging_jmsx_user_id_enabled().attribute(MsgVpnJndiConnectionFactoryAttribute::MessagingJmsxUserIdEnabled) == AttributeValue::Flag(None),
        forall|a: MsgVpnJndiConnectionFactoryAttribute| a != MsgVpnJndiConnectionFactoryAttribute::MessagingJmsxUserIdEnabled ==> #[trigger] m.without_messaging_jmsx_user_id_enabled().attribute(a) == m.attribute(a),
        m.without_messaging_text_in_xml_payload_enabled().attribute(MsgVpnJndiConnectionFactoryAttribute::MessagingTextInXmlPayloadEnabled) == AttributeValue::Flag(None),
        forall|a: MsgVpnJndiConnectionFactoryAttribute| a != MsgVpnJndiConnectionFactoryAttribute::MessagingTextInXmlPayloadEnabled ==> #[trigger] m.without_messaging_text_in_xml_payload_enabled().attribute(a) == m.attribute(a),
        m.without_msg_vpn_name().attribute(MsgVpnJndiConnectionFactoryAttribute::MsgVpnName) == AttributeValue::Text(None),
        forall|a: MsgVpnJndiConnectionFactoryAttribute| a != MsgVpnJndiConnectionFactoryAttribute::MsgVpnName ==> #[trigger] m.without_msg_vpn_name().attribute(a) == m.attribute(a),
        m.without_transport_compression_level().attribute(MsgVpnJndiConnectionFactoryAttribute::TransportCompressionLevel) == AttributeValue::Int32(None),
        forall|a: MsgVpnJndiConnectionFactoryAttribute| a != MsgVpnJndiConnectionFactoryAttribute::TransportCompressionLevel ==> #[trigger] m.without_transport_compression_level().attribute(a) == m.attribute(a),
        m.without_transport_connect_retry_count().attribute(MsgVpnJndiConnectionFactoryAttribute::TransportConnectRetryCount) == AttributeValue::Int32(None),
        forall|a: MsgVpnJndiConnectionFactoryAttribute| a != MsgVpnJndiConnectionFactoryAttribute::TransportConnectRetryCount ==> #[trigger] m.without_transport_connect_retry_count().attribute(a) == m.attribute(a),
        m.without_transport_connect_retry_per_host_count().attribute(MsgVpnJndiConnectionFactoryAttribute::TransportConnectRetryPerHostCount) == AttributeValue::Int32(None),
        forall|a: MsgVpnJndiConnectionFactoryAttribute| a != MsgVpnJndiConnectionFactoryAttribute::TransportConnectRetryPerHostCount ==> #[trigger] m.without_transport_connect_retry_per_host_count().attribute(a) == m.attribute(a),
        m.without_transport_connect_timeout().attribute(MsgVpnJndiConnectionFactoryAttribute::TransportConnectTimeout) == AttributeValue::Int32(None),
        forall|a: MsgVpnJndiConnectionFactoryAttribute| a != MsgVpnJndiConnectionFactoryAttribute::TransportConnectTimeout ==> #[trigger] m.without_transport_connect_timeout().attribute(a) == m.attribute(a),
        m.without_transport_direct_transport_enabled().attribute(MsgVpnJndiConnectionFactoryAttribute::TransportDirectTransportEnabled) == AttributeValue::Flag(None),
        forall|a: MsgVpnJndiConnectionFactoryAttribute| a != MsgVpnJndiConnectionFactoryAttribute::TransportDirectTransportEnabled ==> #[trigger] m.without_transport_direct_transport_enabled().attribute(a) == m.attribute(a),
        m.without_transport_keepalive_count().attribute(MsgVpnJndiConnectionFactoryAttribute::TransportKeepaliveCount) == AttributeValue::Int32(None),
        forall|a: MsgVpnJndiConnectionFactoryAttribute| a != MsgVpnJndiConnectionFactoryAttribute::TransportKeepaliveCount ==> #[trigger] m.without_transport_keepalive_count().attribute(a) == m.attribute(a),
        m.without_transport_keepalive_enabled().attribute(MsgVpnJndiConnectionFactoryAttribute::TransportKeepaliveEnabled) == AttributeValue::Flag(None),
        forall|a: MsgVpnJndiConnectionFactoryAttribute| a != MsgVpnJndiConnectionFactoryAttribute::TransportKeepaliveEnabled ==> #[trigger] m.without_transport_keepalive_enabled().attribute(a) == m.attribute(a),
        m.without_transport_keepalive_interval().attribute(MsgVpnJndiConnectionFactoryAttribute::TransportKeepaliveInterval) == AttributeValue::Int32(None),
        forall|a: MsgVpnJndiConnectionFactoryAttribute| a != MsgVpnJndiConnectionFactoryAttribute::TransportKeepaliveInterval ==> #[trigger] m.without_transport_keepalive_interval().attribute(a) == m.attribute(a),
        m.without_transport_msg_callback_on_io_thread_enabled().attribute(MsgVpnJndiConnectionFactoryAttribute::TransportMsgCallbackOnIoThreadEnabled) == AttributeValue::Flag(None),
        forall|a: MsgVpnJndiConnectionFactoryAttribute| a != MsgVpnJndiConnectionFactoryAttribute::TransportMsgCallbackOnIoThreadEnabled ==> #[trigger] m.without_transport_msg_callback_on_io_thread_enabled().attribute(a) == m.attribute(a),
        m.without_transport_optimize_direct_enabled().attribute(MsgVpnJndiConnectionFactoryAttribute::TransportOptimizeDirectEnabled) == AttributeValue::Flag(None),
        forall|a: MsgVpnJndiConnectionFactoryAttribute| a != MsgVpnJndiConnectionFactoryAttribute::TransportOptimizeDirectEnabled ==> #[trigger] m.without_transport_optimize_direct_enabled().attribute(a) == m.attribute(a),
        m.without_transport_port().attribute(MsgVpnJndiConnectionFactoryAttribute::TransportPort) == AttributeValue::Int32(None),
        forall|a: MsgVpnJndiConnectionFactoryAttribute| a != MsgVpnJndiConnectionFactoryAttribute::TransportPort ==> #[trigger] m.without_transport_port().attribute(a) == m.attribute(a),
        m.without_transport_read_timeout().attribute(MsgVpnJndiConnectionFactoryAttribute::TransportReadTimeout) == AttributeValue::Int32(None),
        forall|a: MsgVpnJndiConnectionFactoryAttribute| a != MsgVpnJndiConnectionFactoryAttribute::TransportReadTimeout ==> #[trigger] m.without_transport_read_timeout().attribute(a) == m.attribute(a),
        m.without_transport_receive_buffer_size().attribute(MsgVpnJndiConnectionFactoryAttribute::TransportReceiveBufferSize) == AttributeValue::Int32(None),
        forall|a: MsgVpnJndiConnectionFactoryAttribute| a != MsgVpnJndiConnectionFactoryAttribute::TransportReceiveBufferSize ==> #[trigger] m.without_transport_receive_buffer_size().attribute(a) == m.attribute(a),
        m.without_transport_reconnect_retry_count().attribute(MsgVpnJndiConnectionFactoryAttribute::TransportReconnectRetryCount) == AttributeValue::Int32(None),
        forall|a: MsgVpnJndiConnectionFactoryAttribute| a != MsgVpnJndiConnectionFactoryAttribute::TransportReconnectRetryCount ==> #[trigger] m.without_transport_reconnect_retry_count().attribute(a) == m.attribute(a),
        m.without_transport_reconnect_retry_wait().attribute(MsgVpnJndiConnectionFactoryAttribute::TransportReconnectRetryWait) == AttributeValue::Int32(None),
        forall|a: MsgVpnJndiConnectionFactoryAttribute| a != MsgVpnJndiConnectionFactoryAttribute::TransportReconnectRetryWait ==> #[trigger] m.without_transport_reconnect_retry_wait().attribute(a) == m.attribute(a),
        m.without_transport_send_buffer_size().attribute(MsgVpnJndiConnectionFactoryAttribute::TransportSendBufferSize) == AttributeValue::Int32(None),
        forall|a: MsgVpnJndiConnectionFactoryAttribute| a != MsgVpnJndiConnectionFactoryAttribute::TransportSendBufferSize ==> #[trigger] m.without_transport_send_buffer_size().attribute(a) == m.attribute(a),
        m.without_transport_tcp_no_delay_enabled().attribute(MsgVpnJndiConnectionFactoryAttribute::TransportTcpNoDelayEnabled) == AttributeValue::Flag(None),
        forall|a: MsgVpnJndiConnectionFactoryAttribute| a != MsgVpnJndiConnectionFactoryAttribute::TransportTcpNoDelayEnabled ==> #[trigger] m.without_transport_tcp_no_delay_enabled().attribute(a) == m.attribute(a),
        m.without_xa_enabled().attribute(MsgVpnJndiConnectionFactoryAttribute::XaEnabled) == AttributeValue::Flag(None),
        forall|a: MsgVpnJndiConnectionFactoryAttribute| a != MsgVpnJndiConnectionFactoryAttribute::XaEnabled ==> #[trigger] m.without_xa_enabled().attribute(a) == m.attribute(a),
{
}

} // verus!
