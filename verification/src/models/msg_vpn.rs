use vstd::prelude::*;
use crate::models::attribute::AttributeValue;
use crate::models::event_threshold::EventThreshold;
use crate::models::event_threshold::EventThresholdByValue;

verus! {

/// A Message VPN, with each of its configuration attributes present or absent.
#[derive(Debug)]
pub struct MsgVpn {
    /// Enable or disable Basic Authentication for clients connecting to the Message VPN. The default value is `true`.
    authentication_basic_enabled: Option<bool>,
    /// The name of the RADIUS or LDAP Profile to use when "authenticationBasicType" is "radius" or "ldap" respectively. The default value is `"default"`.
    authentication_basic_profile_name: Option<String>,
    /// The RADIUS domain string to use when "authenticationBasicType" is "radius". The default value is `""`.
    authentication_basic_radius_domain: Option<String>,
    /// Authentication mechanism to be used for Basic Authentication of clients connecting to the Message VPN. The default value is `"radius"`. The allowed values and their meaning are:  <pre> "internal" - Internal database. Authentication is against Client Usernames. "ldap" - LDAP authentication. An LDAP profile name must be provided. "radius" - RADIUS authentication. A RADIUS profile name must be provided. "none" - No authentication. Anonymous login allowed. </pre>
    authentication_basic_type: Option<String>,
    /// When enabled, if the client specifies a Client Username via the API connect method, the client provided Username is used instead of the CN (Common Name) field of the certificate"s subject. When disabled, the certificate CN is always used as the Client Username. The default value is `false`.
    authentication_client_cert_allow_api_provided_username_enabled: Option<bool>,
    /// Enable or disable the Client Certificate client Authentication for the Message VPN. The default value is `false`.
    authentication_client_cert_enabled: Option<bool>,
    /// The maximum depth for the client certificate chain. The depth of the chain is defined as the number of signing CA certificates that are present in the chain back to the trusted self-signed root CA certificate. The default value is `3`.
    authentication_client_cert_max_chain_depth: Option<i64>,
    /// Define overrides for certificate revocation checking. For "allow-all" setting, the result of the client certificate revocation check is ignored. For "allow-unknown" setting, the client is authenticated even if the revocation status of his certificate cannot be determined. For "allow-valid" setting, the client is only authenticated if the revocation check returned an explicit positive response. The default value is `"allow-valid"`. The allowed values and their meaning are:  <pre> "allow-all" - Allow the client to authenticate, the result of client certificate revocation check is ingored. "allow-unknown" - Allow the client to authenticate even if the revocation status of his certificate cannot be determined. "allow-valid" - Allow the client to authenticate only when the revocation check returned an explicit positive response. </pre>  Available since 2.6.
    authentication_client_cert_revocation_check_mode: Option<String>,
    /// The field from the client certificate to use as the client username. The default value is `"common-name"`. The allowed values and their meaning are:  <pre> "common-name" - the username is extracted from the certificate's Common Name. "subject-alternate-name-msupn" - the username is extracted from the certificate's Other Name type of the Subject Alternative Name and must have the msUPN signature. </pre>  Available since 2.5.
    authentication_client_cert_username_source: Option<String>,
    /// Enable or disable validation of the "Not Before" and "Not After" validity dates in the client certificate. When disabled, a certificate will be accepted even if the certificate is not valid according to the "Not Before" and "Not After" validity dates in the certificate. The default value is `true`.
    authentication_client_cert_validate_date_enabled: Option<bool>,
    /// When enabled, if the client specifies a Client Username via the API connect method, the client provided Username is used instead of the Kerberos Principal name in Kerberos token. When disabled, the Kerberos Principal name is always used as the Client Username. The default value is `false`.
    authentication_kerberos_allow_api_provided_username_enabled: Option<bool>,
    /// Enable or disable Kerberos Authentication for clients in the Message VPN. If a user provides credentials for a different authentication scheme, this setting is not applicable. The default value is `false`.
    authentication_kerberos_enabled: Option<bool>,
    /// The name of the attribute that should be retrieved from the LDAP server as part of the LDAP search when authorizing a client. It indicates that the client belongs to a particular group (i.e. the value associated with this attribute). The default value is `"memberOf"`.
    authorization_ldap_group_membership_attribute_name: Option<String>,
    /// The LDAP Profile name to be used when "authorizationType" is "ldap". The default value is `""`.
    authorization_profile_name: Option<String>,
    /// Authorization mechanism to be used for clients connecting to the Message VPN. The default value is `"internal"`. The allowed values and their meaning are:  <pre> "ldap" - LDAP authorization. "internal" - Internal authorization. </pre>
    authorization_type: Option<String>,
    /// Enable or disable validation of the Common Name (CN) in the server certificate from the Remote Router. If enabled, the Common Name is checked against the list of Trusted Common Names configured for the Bridge. The default value is `true`.
    bridging_tls_server_cert_enforce_trusted_common_name_enabled: Option<bool>,
    /// The maximum depth for the server certificate chain. The depth of the chain is defined as the number of signing CA certificates that are present in the chain back to the trusted self-signed root CA certificate. The default value is `3`.
    bridging_tls_server_cert_max_chain_depth: Option<i64>,
    /// Enable or disable validation of the "Not Before" and "Not After" validity dates in the server certificate. When disabled, a certificate will be accepted even if the certificate is not valid according to the "Not Before" and "Not After" validity dates in the certificate. The default value is `true`.
    bridging_tls_server_cert_validate_date_enabled: Option<bool>,
    /// Enable or disable managing of cache instances over the message bus. The default value is `true`.
    distributed_cache_management_enabled: Option<bool>,
    /// Enable or disable the Message VPN. The default value is `false`.
    enabled: Option<bool>,
    /// The thresholds at which the connection count event is raised and cleared.
    event_connection_count_threshold: Option<EventThreshold>,
    /// The thresholds at which the egress flow count event is raised and cleared.
    event_egress_flow_count_threshold: Option<EventThreshold>,
    /// The thresholds at which the egress msg rate event is raised and cleared.
    event_egress_msg_rate_threshold: Option<EventThresholdByValue>,
    /// The thresholds at which the endpoint count event is raised and cleared.
    event_endpoint_count_threshold: Option<EventThreshold>,
    /// The thresholds at which the ingress flow count event is raised and cleared.
    event_ingress_flow_count_threshold: Option<EventThreshold>,
    /// The thresholds at which the ingress msg rate event is raised and cleared.
    event_ingress_msg_rate_threshold: Option<EventThresholdByValue>,
    /// Size in KB for what is being considered a large message for the Message VPN. The default value is `1024`.
    event_large_msg_threshold: Option<i64>,
    /// A prefix applied to all published Events in the Message VPN. The default value is `""`.
    event_log_tag: Option<String>,
    /// The thresholds at which the msg spool usage event is raised and cleared.
    event_msg_spool_usage_threshold: Option<EventThreshold>,
    /// Enable or disable Client level Event message publishing. The default value is `false`.
    event_publish_client_enabled: Option<bool>,
    /// Enable or disable Message VPN level Event message publishing. The default value is `false`.
    event_publish_msg_vpn_enabled: Option<bool>,
    /// Subscription level Event message publishing mode. The default value is `"off"`. The allowed values and their meaning are:  <pre> "off" - Disable client level event message publishing. "on-with-format-v1" - Enable client level event message publishing with format v1. "on-with-no-unsubscribe-events-on-disconnect-format-v1" - As "on-with-format-v1", but unsubscribe events are not generated when a client disconnects. Unsubscribe events are still raised when a client explicitly unsubscribes from its subscriptions. "on-with-format-v2" - Enable client level event message publishing with format v2. "on-with-no-unsubscribe-events-on-disconnect-format-v2" - As "on-with-format-v2", but unsubscribe events are not generated when a client disconnects. Unsubscribe events are still raised when a client explicitly unsubscribes from its subscriptions. </pre>
    event_publish_subscription_mode: Option<String>,
    /// Enable or disable Event publish topics in MQTT format. The default value is `false`.
    event_publish_topic_format_mqtt_enabled: Option<bool>,
    /// Enable or disable Event publish topics in SMF format. The default value is `true`.
    event_publish_topic_format_smf_enabled: Option<bool>,
    /// The thresholds at which the service amqp connection count event is raised and cleared.
    event_service_amqp_connection_count_threshold: Option<EventThreshold>,
    /// The thresholds at which the service mqtt connection count event is raised and cleared.
    event_service_mqtt_connection_count_threshold: Option<EventThreshold>,
    /// The thresholds at which the service rest incoming connection count event is raised and cleared.
    event_service_rest_incoming_connection_count_threshold: Option<EventThreshold>,
    /// The thresholds at which the service smf connection count event is raised and cleared.
    event_service_smf_connection_count_threshold: Option<EventThreshold>,
    /// The thresholds at which the service web connection count event is raised and cleared.
    event_service_web_connection_count_threshold: Option<EventThreshold>,
    /// The thresholds at which the subscription count event is raised and cleared.
    event_subscription_count_threshold: Option<EventThreshold>,
    /// The thresholds at which the transacted session count event is raised and cleared.
    event_transacted_session_count_threshold: Option<EventThreshold>,
    /// The thresholds at which the transaction count event is raised and cleared.
    event_transaction_count_threshold: Option<EventThreshold>,
    /// Enable or disable the export of subscriptions in the Message VPN to other routers in the network over Neighbor links. The default value is `false`.
    export_subscriptions_enabled: Option<bool>,
    /// Enable or disable JNDI access for clients in the Message VPN. The default value is `false`. Available since 2.2.
    jndi_enabled: Option<bool>,
    /// The maximum number of client connections that can be simultaneously connected to the Message VPN. This value may be higher than supported by the hardware. The default is the maximum value supported by the hardware. The default is the max value supported by the hardware.
    max_connection_count: Option<i64>,
    /// The maximum number of egress flows that can be created in the Message VPN. The default value is `16000`.
    max_egress_flow_count: Option<i64>,
    /// The maximum number of Queues and Topic Endpoints that can be created in the Message VPN. The default value is `16000`.
    max_endpoint_count: Option<i64>,
    /// The maximum number of ingress flows that can be created in the Message VPN. The default value is `16000`.
    max_ingress_flow_count: Option<i64>,
    /// The maximum Message Spool usage by the Message VPN, in megabytes. The default value is `0`.
    max_msg_spool_usage: Option<i64>,
    /// The maximum number of local client subscriptions (both primary and backup) that can be added to the Message VPN. The default varies by platform. The default varies by platform.
    max_subscription_count: Option<i64>,
    /// The maximum number of transacted sessions for the Message VPN. The default varies by platform. The default varies by platform.
    max_transacted_session_count: Option<i64>,
    /// The maximum number of transactions for the Message VPN. The default varies by platform. The default varies by platform.
    max_transaction_count: Option<i64>,
    /// The name of the Message VPN.
    msg_vpn_name: Option<String>,
    /// The acknowledgement (ACK) propagation interval for the Replication Bridge, in number of replicated messages. The default value is `20`.
    replication_ack_propagation_interval_msg_count: Option<i64>,
    /// The Client Username the Replication Bridge uses to login to the Remote Message VPN on the Replication mate. The default value is `""`.
    replication_bridge_authentication_basic_client_username: Option<String>,
    /// The password the Replication Bridge uses to login to the Remote Message VPN on the Replication mate. The default is to have no password. The default is to have no `replicationBridgeAuthenticationBasicPassword`.
    replication_bridge_authentication_basic_password: Option<String>,
    /// The PEM formatted content for the client certificate used by this bridge to login to the Remote Message VPN. It must consist of a private key and between one and three certificates comprising the certificate trust chain. The default value is `""`. Available since 2.9.
    replication_bridge_authentication_client_cert_content: Option<String>,
    /// The password for the client certificate used by this bridge to login to the Remote Message VPN. The default value is `""`. Available since 2.9.
    replication_bridge_authentication_client_cert_password: Option<String>,
    /// The Authentication Scheme for the Replication Bridge in the Message VPN. The default value is `"basic"`. The allowed values and their meaning are:  <pre> "basic" - Basic Authentication Scheme (via username and password). "client-certificate" - Client Certificate Authentication Scheme (via certificate file or content). </pre>
    replication_bridge_authentication_scheme: Option<String>,
    /// Whether compression is used for the Replication Bridge. The default value is `false`.
    replication_bridge_compressed_data_enabled: Option<bool>,
    /// The size of the window used for guaranteed messages published to the Replication Bridge, in messages. The default value is `255`.
    replication_bridge_egress_flow_window_size: Option<i64>,
    /// Number of seconds that must pass before retrying the Replication Bridge connection. The default value is `3`.
    replication_bridge_retry_delay: Option<i64>,
    /// Enable or disable use of TLS for the Replication Bridge connection. The default value is `false`.
    replication_bridge_tls_enabled: Option<bool>,
    /// The Client Profile for the Unidirectional Replication Bridge. The Client Profile must exist in the local Message VPN, and it is used only for the TCP parameters. The default value is `"#client-profile"`.
    replication_bridge_unidirectional_client_profile_name: Option<String>,
    /// Enable or disable the Replication feature for the Message VPN. The default value is `false`.
    replication_enabled: Option<bool>,
    /// The behavior to take when enabling the Replication feature for the Message VPN, depending on the existence of the Replication Queue. The default value is `"fail-on-existing-queue"`. The allowed values and their meaning are:  <pre> "fail-on-existing-queue" - The data replication queue must not already exist. "force-use-existing-queue" - The data replication queue must already exist. Any data messages on the Queue will be forwarded to interested applications. IMPORTANT: Before using this mode be certain that the messages are not stale or otherwise unsuitable to be forwarded. This mode can only be specified when the existing queue is configured the same as is currently specified under replication configuration otherwise the enabling of replication will fail. "force-recreate-queue" - The data replication queue must already exist. Any data messages on the Queue will be discarded. IMPORTANT: Before using this mode be certain that the messages on the existing data replication queue are not needed by interested applications. </pre>
    replication_enabled_queue_behavior: Option<String>,
    /// The maximum Message Spool usage by the Replication Bridge Queue (quota), in megabytes. The default value is `60000`.
    replication_queue_max_msg_spool_usage: Option<i64>,
    /// Assign the message discard behavior, that is the circumstances under which a negative acknowledgement (NACK) is sent to the Client on the Replication Bridge Queue discards. The default value is `true`.
    replication_queue_reject_msg_to_sender_on_discard_enabled: Option<bool>,
    /// Enable or disable the synchronously replicated topics ineligible behavior of the Replication Bridge. If enabled and the synchronous replication becomes ineligible, guaranteed messages published to synchronously replicated topics will be rejected back to the sender as a negative acknowledgement (NACK). If disabled, the synchronous replication will revert to the asynchronous one. The default value is `false`.
    replication_reject_msg_when_sync_ineligible_enabled: Option<bool>,
    /// The replication role for the Message VPN. The default value is `"standby"`. The allowed values and their meaning are:  <pre> "active" - Assume the Active role in Replication for the Message VPN. "standby" - Assume the Standby role in Replication for the Message VPN. </pre>
    replication_role: Option<String>,
    /// The transaction replication mode for all transactions within the Message VPN. When mode is asynchronous, all transactions originated by clients are replicated to the standby site using the asynchronous replication. When mode is synchronous, all transactions originated by clients are replicated to the standby site using the synchronous replication. Changing this value during operation will not affect existing transactions, it is only used upon starting a transaction. The default value is `"async"`. The allowed values and their meaning are:  <pre> "sync" - Synchronous replication-mode. Published messages are acknowledged when they are spooled on the standby site. "async" - Asynchronous replication-mode. Published messages are acknowledged when they are spooled locally. </pre>
    replication_transaction_mode: Option<String>,
    /// Enable or disable validation of the Common Name (CN) in the server certificate from the remote REST Consumer. If enabled, the Common Name is checked against the list of Trusted Common Names configured for the REST Consumer. The default value is `true`.
    rest_tls_server_cert_enforce_trusted_common_name_enabled: Option<bool>,
    /// The maximum depth for the server certificate from the remote REST Consumer chain. The depth of the chain is defined as the number of signing CA certificates that are present in the chain back to the trusted self-signed root CA certificate. The default value is `3`.
    rest_tls_server_cert_max_chain_depth: Option<i64>,
    /// Enable or disable validation of the "Not Before" and "Not After" validity dates in the server certificate from the remote REST Consumer. When disabled, a certificate will be accepted even if the certificate is not valid according to the "Not Before" and "Not After" validity dates in the certificate. The default value is `true`.
    rest_tls_server_cert_validate_date_enabled: Option<bool>,
    /// Enable or disable "admin client" SEMP over the message bus commands for the current Message VPN. The default value is `false`.
    semp_over_msg_bus_admin_client_enabled: Option<bool>,
    /// Enable or disable "admin distributed-cache" SEMP over the message bus commands for the current Message VPN. The default value is `false`.
    semp_over_msg_bus_admin_distributed_cache_enabled: Option<bool>,
    /// Enable or disable "admin" SEMP over the message bus commands for the current Message VPN. The default value is `false`.
    semp_over_msg_bus_admin_enabled: Option<bool>,
    /// Enable or disable SEMP over the message bus for the current Message VPN. The default value is `true`.
    semp_over_msg_bus_enabled: Option<bool>,
    /// Enable or disable "show" SEMP over the message bus commands for the current Message VPN. The default value is `false`.
    semp_over_msg_bus_show_enabled: Option<bool>,
    /// The maximum number of AMQP client connections that can be simultaneously connected to the Message VPN. The default is the max value supported by the hardware. Available since 2.2.
    service_amqp_max_connection_count: Option<i64>,
    /// Enable or disable the plain-text AMQP service in the Message VPN. Disabling causes clients connected to the corresponding listen-port to be disconnected. The default value is `false`. Available since 2.2.
    service_amqp_plain_text_enabled: Option<bool>,
    /// The port number for plain-text AMQP clients that connect to the Message VPN. The default is to have no `serviceAmqpPlainTextListenPort`. Available since 2.2.
    service_amqp_plain_text_listen_port: Option<i64>,
    /// Enable or disable the use of TLS for the AMQP service in the Message VPN. Disabling causes clients currently connected over TLS to be disconnected. The default value is `false`. Available since 2.2.
    service_amqp_tls_enabled: Option<bool>,
    /// The port number for AMQP clients that connect to the Message VPN over TLS. The default is to have no `serviceAmqpTlsListenPort`. Available since 2.2.
    service_amqp_tls_listen_port: Option<i64>,
    /// The maximum number of MQTT client connections that can be simultaneously connected to the Message VPN. The default is the max value supported by the hardware. Available since 2.1.
    service_mqtt_max_connection_count: Option<i64>,
    /// Enable or disable the plain-text MQTT service in the Message VPN. Disabling causes clients currently connected to be disconnected. The default value is `false`. Available since 2.1.
    service_mqtt_plain_text_enabled: Option<bool>,
    /// The port number for plain-text MQTT clients that connect to the Message VPN. The default value is `0`. Available since 2.1.
    service_mqtt_plain_text_listen_port: Option<i64>,
    /// Enable or disable the use of TLS for the MQTT service in the Message VPN. Disabling causes clients currently connected over TLS to be disconnected. The default value is `false`. Available since 2.1.
    service_mqtt_tls_enabled: Option<bool>,
    /// The port number for MQTT clients that connect to the Message VPN over TLS. The default value is `0`. Available since 2.1.
    service_mqtt_tls_listen_port: Option<i64>,
    /// Enable or disable the use of WebSocket over TLS for the MQTT service in the Message VPN. Disabling causes clients currently connected by WebSocket over TLS to be disconnected. The default value is `false`. Available since 2.1.
    service_mqtt_tls_web_socket_enabled: Option<bool>,
    /// The port number for MQTT clients that connect to the Message VPN using WebSocket over TLS. The default value is `0`. Available since 2.1.
    service_mqtt_tls_web_socket_listen_port: Option<i64>,
    /// Enable or disable the use of WebSocket for the MQTT service in the Message VPN. Disabling causes clients currently connected by WebSocket to be disconnected. The default value is `false`. Available since 2.1.
    service_mqtt_web_socket_enabled: Option<bool>,
    /// The port number for plain-text MQTT clients that connect to the Message VPN using WebSocket. The default value is `0`. Available since 2.1.
    service_mqtt_web_socket_listen_port: Option<i64>,
    /// The maximum number of REST incoming client connections that can be simultaneously connected to the Message VPN. The default is the max value supported by the hardware.
    service_rest_incoming_max_connection_count: Option<i64>,
    /// Enable or disable the plain-text REST service for incoming clients in the Message VPN. Disabling causes clients currently connected to be disconnected. The default value is `false`.
    service_rest_incoming_plain_text_enabled: Option<bool>,
    /// The port number for incoming plain-text REST clients that connect to the Message VPN. The default value is `0`.
    service_rest_incoming_plain_text_listen_port: Option<i64>,
    /// Enable or disable the use of TLS for the REST service for incoming clients in the Message VPN. Disabling causes clients currently connected over TLS to be disconnected. The default value is `false`.
    service_rest_incoming_tls_enabled: Option<bool>,
    /// The port number for incoming REST clients that connect to the Message VPN over TLS. The default value is `0`.
    service_rest_incoming_tls_listen_port: Option<i64>,
    /// The REST service mode for incoming REST clients that connect to the Message VPN. The default value is `"messaging"`. The allowed values and their meaning are:  <pre> "gateway" - Act as a message gateway through which REST messages are propagated. "messaging" - Act as a message router on which REST messages are queued. </pre>  Available since 2.6.
    service_rest_mode: Option<String>,
    /// The maximum number of REST Consumer (outgoing) client connections that can be simultaneously connected to the Message VPN. The default varies by platform.
    service_rest_outgoing_max_connection_count: Option<i64>,
    /// The maximum number of SMF client connections that can be simultaneously connected to the Message VPN. The default is the max value supported by the hardware.
    service_smf_max_connection_count: Option<i64>,
    /// Enable or disable the plain-text SMF service in the Message VPN. Disabling causes clients currently connected to be disconnected. The default value is `true`.
    service_smf_plain_text_enabled: Option<bool>,
    /// Enable or disable the use of TLS for the SMF service in the Message VPN. Disabling causes clients currently connected over TLS to be disconnected. The default value is `true`.
    service_smf_tls_enabled: Option<bool>,
    /// The maximum number of Web Transport client connections that can be simultaneously connected to the Message VPN. The default is the max value supported by the hardware.
    service_web_max_connection_count: Option<i64>,
    /// Enable or disable the plain-text Web Transport service in the Message VPN. Disabling causes clients currently connected to be disconnected. The default value is `true`.
    service_web_plain_text_enabled: Option<bool>,
    /// Enable or disable the use of TLS for the Web Transport service in the Message VPN. Disabling causes clients currently connected over TLS to be disconnected. The default value is `true`.
    service_web_tls_enabled: Option<bool>,
    /// Enable or disable the allowing of TLS SMF clients to downgrade their connections to plain-text connections. Changing this will not affect existing connections. The default value is `false`.
    tls_allow_downgrade_to_plain_text_enabled: Option<bool>,
}

/// The abstract value of a [`MsgVpn`]: each attribute, present with its value or absent.
/// Text attributes are held as sequences of characters.
pub struct MsgVpnView {
    pub authentication_basic_enabled: Option<bool>,
    pub authentication_basic_profile_name: Option<Seq<char>>,
    pub authentication_basic_radius_domain: Option<Seq<char>>,
    pub authentication_basic_type: Option<Seq<char>>,
    pub authentication_client_cert_allow_api_provided_username_enabled: Option<bool>,
    pub authentication_client_cert_enabled: Option<bool>,
    pub authentication_client_cert_max_chain_depth: Option<i64>,
    pub authentication_client_cert_revocation_check_mode: Option<Seq<char>>,
    pub authentication_client_cert_username_source: Option<Seq<char>>,
    pub authentication_client_cert_validate_date_enabled: Option<bool>,
    pub authentication_kerberos_allow_api_provided_username_enabled: Option<bool>,
    pub authentication_kerberos_enabled: Option<bool>,
    pub authorization_ldap_group_membership_attribute_name: Option<Seq<char>>,
    pub authorization_profile_name: Option<Seq<char>>,
    pub authorization_type: Option<Seq<char>>,
    pub bridging_tls_server_cert_enforce_trusted_common_name_enabled: Option<bool>,
    pub bridging_tls_server_cert_max_chain_depth: Option<i64>,
    pub bridging_tls_server_cert_validate_date_enabled: Option<bool>,
    pub distributed_cache_management_enabled: Option<bool>,
    pub enabled: Option<bool>,
    pub event_connection_count_threshold: Option<EventThreshold>,
    pub event_egress_flow_count_threshold: Option<EventThreshold>,
    pub event_egress_msg_rate_threshold: Option<EventThresholdByValue>,
    pub event_endpoint_count_threshold: Option<EventThreshold>,
    pub event_ingress_flow_count_threshold: Option<EventThreshold>,
    pub event_ingress_msg_rate_threshold: Option<EventThresholdByValue>,
    pub event_large_msg_threshold: Option<i64>,
    pub event_log_tag: Option<Seq<char>>,
    pub event_msg_spool_usage_threshold: Option<EventThreshold>,
    pub event_publish_client_enabled: Option<bool>,
    pub event_publish_msg_vpn_enabled: Option<bool>,
    pub event_publish_subscription_mode: Option<Seq<char>>,
    pub event_publish_topic_format_mqtt_enabled: Option<bool>,
    pub event_publish_topic_format_smf_enabled: Option<bool>,
    pub event_service_amqp_connection_count_threshold: Option<EventThreshold>,
    pub event_service_mqtt_connection_count_threshold: Option<EventThreshold>,
    pub event_service_rest_incoming_connection_count_threshold: Option<EventThreshold>,
    pub event_service_smf_connection_count_threshold: Option<EventThreshold>,
    pub event_service_web_connection_count_threshold: Option<EventThreshold>,
    pub event_subscription_count_threshold: Option<EventThreshold>,
    pub event_transacted_session_count_threshold: Option<EventThreshold>,
    pub event_transaction_count_threshold: Option<EventThreshold>,
    pub export_subscriptions_enabled: Option<bool>,
    pub jndi_enabled: Option<bool>,
    pub max_connection_count: Option<i64>,
    pub max_egress_flow_count: Option<i64>,
    pub max_endpoint_count: Option<i64>,
    pub max_ingress_flow_count: Option<i64>,
    pub max_msg_spool_usage: Option<i64>,
    pub max_subscription_count: Option<i64>,
    pub max_transacted_session_count: Option<i64>,
    pub max_transaction_count: Option<i64>,
    pub msg_vpn_name: Option<Seq<char>>,
    pub replication_ack_propagation_interval_msg_count: Option<i64>,
    pub replication_bridge_authentication_basic_client_username: Option<Seq<char>>,
    pub replication_bridge_authentication_basic_password: Option<Seq<char>>,
    pub replication_bridge_authentication_client_cert_content: Option<Seq<char>>,
    pub replication_bridge_authentication_client_cert_password: Option<Seq<char>>,
    pub replication_bridge_authentication_scheme: Option<Seq<char>>,
    pub replication_bridge_compressed_data_enabled: Option<bool>,
    pub replication_bridge_egress_flow_window_size: Option<i64>,
    pub replication_bridge_retry_delay: Option<i64>,
    pub replication_bridge_tls_enabled: Option<bool>,
    pub replication_bridge_unidirectional_client_profile_name: Option<Seq<char>>,
    pub replication_enabled: Option<bool>,
    pub replication_enabled_queue_behavior: Option<Seq<char>>,
    pub replication_queue_max_msg_spool_usage: Option<i64>,
    pub replication_queue_reject_msg_to_sender_on_discard_enabled: Option<bool>,
    pub replication_reject_msg_when_sync_ineligible_enabled: Option<bool>,
    pub replication_role: Option<Seq<char>>,
    pub replication_transaction_mode: Option<Seq<char>>,
    pub rest_tls_server_cert_enforce_trusted_common_name_enabled: Option<bool>,
    pub rest_tls_server_cert_max_chain_depth: Option<i64>,
    pub rest_tls_server_cert_validate_date_enabled: Option<bool>,
    pub semp_over_msg_bus_admin_client_enabled: Option<bool>,
    pub semp_over_msg_bus_admin_distributed_cache_enabled: Option<bool>,
    pub semp_over_msg_bus_admin_enabled: Option<bool>,
    pub semp_over_msg_bus_enabled: Option<bool>,
    pub semp_over_msg_bus_show_enabled: Option<bool>,
    pub service_amqp_max_connection_count: Option<i64>,
    pub service_amqp_plain_text_enabled: Option<bool>,
    pub service_amqp_plain_text_listen_port: Option<i64>,
    pub service_amqp_tls_enabled: Option<bool>,
    pub service_amqp_tls_listen_port: Option<i64>,
    pub service_mqtt_max_connection_count: Option<i64>,
    pub service_mqtt_plain_text_enabled: Option<bool>,
    pub service_mqtt_plain_text_listen_port: Option<i64>,
    pub service_mqtt_tls_enabled: Option<bool>,
    pub service_mqtt_tls_listen_port: Option<i64>,
    pub service_mqtt_tls_web_socket_enabled: Option<bool>,
    pub service_mqtt_tls_web_socket_listen_port: Option<i64>,
    pub service_mqtt_web_socket_enabled: Option<bool>,
    pub service_mqtt_web_socket_listen_port: Option<i64>,
    pub service_rest_incoming_max_connection_count: Option<i64>,
    pub service_rest_incoming_plain_text_enabled: Option<bool>,
    pub service_rest_incoming_plain_text_listen_port: Option<i64>,
    pub service_rest_incoming_tls_enabled: Option<bool>,
    pub service_rest_incoming_tls_listen_port: Option<i64>,
    pub service_rest_mode: Option<Seq<char>>,
    pub service_rest_outgoing_max_connection_count: Option<i64>,
    pub service_smf_max_connection_count: Option<i64>,
    pub service_smf_plain_text_enabled: Option<bool>,
    pub service_smf_tls_enabled: Option<bool>,
    pub service_web_max_connection_count: Option<i64>,
    pub service_web_plain_text_enabled: Option<bool>,
    pub service_web_tls_enabled: Option<bool>,
    pub tls_allow_downgrade_to_plain_text_enabled: Option<bool>,
}

impl MsgVpnView {
    /// The value with every attribute absent.
    pub open spec fn empty() -> MsgVpnView {
        MsgVpnView {
            authentication_basic_enabled: None,
            authentication_basic_profile_name: None,
            authentication_basic_radius_domain: None,
            authentication_basic_type: None,
            authentication_client_cert_allow_api_provided_username_enabled: None,
            authentication_client_cert_enabled: None,
            authentication_client_cert_max_chain_depth: None,
            authentication_client_cert_revocation_check_mode: None,
            authentication_client_cert_username_source: None,
            authentication_client_cert_validate_date_enabled: None,
            authentication_kerberos_allow_api_provided_username_enabled: None,
            authentication_kerberos_enabled: None,
            authorization_ldap_group_membership_attribute_name: None,
            authorization_profile_name: None,
            authorization_type: None,
            bridging_tls_server_cert_enforce_trusted_common_name_enabled: None,
            bridging_tls_server_cert_max_chain_depth: None,
            bridging_tls_server_cert_validate_date_enabled: None,
            distributed_cache_management_enabled: None,
            enabled: None,
            event_connection_count_threshold: None,
            event_egress_flow_count_threshold: None,
            event_egress_msg_rate_threshold: None,
            event_endpoint_count_threshold: None,
            event_ingress_flow_count_threshold: None,
            event_ingress_msg_rate_threshold: None,
            event_large_msg_threshold: None,
            event_log_tag: None,
            event_msg_spool_usage_threshold: None,
            event_publish_client_enabled: None,
            event_publish_msg_vpn_enabled: None,
            event_publish_subscription_mode: None,
            event_publish_topic_format_mqtt_enabled: None,
            event_publish_topic_format_smf_enabled: None,
            event_service_amqp_connection_count_threshold: None,
            event_service_mqtt_connection_count_threshold: None,
            event_service_rest_incoming_connection_count_threshold: None,
            event_service_smf_connection_count_threshold: None,
            event_service_web_connection_count_threshold: None,
            event_subscription_count_threshold: None,
            event_transacted_session_count_threshold: None,
            event_transaction_count_threshold: None,
            export_subscriptions_enabled: None,
            jndi_enabled: None,
            max_connection_count: None,
            max_egress_flow_count: None,
            max_endpoint_count: None,
            max_ingress_flow_count: None,
            max_msg_spool_usage: None,
            max_subscription_count: None,
            max_transacted_session_count: None,
            max_transaction_count: None,
            msg_vpn_name: None,
            replication_ack_propagation_interval_msg_count: None,
            replication_bridge_authentication_basic_client_username: None,
            replication_bridge_authentication_basic_password: None,
            replication_bridge_authentication_client_cert_content: None,
            replication_bridge_authentication_client_cert_password: None,
            replication_bridge_authentication_scheme: None,
            replication_bridge_compressed_data_enabled: None,
            replication_bridge_egress_flow_window_size: None,
            replication_bridge_retry_delay: None,
            replication_bridge_tls_enabled: None,
            replication_bridge_unidirectional_client_profile_name: None,
            replication_enabled: None,
            replication_enabled_queue_behavior: None,
            replication_queue_max_msg_spool_usage: None,
            replication_queue_reject_msg_to_sender_on_discard_enabled: None,
            replication_reject_msg_when_sync_ineligible_enabled: None,
            replication_role: None,
            replication_transaction_mode: None,
            rest_tls_server_cert_enforce_trusted_common_name_enabled: None,
            rest_tls_server_cert_max_chain_depth: None,
            rest_tls_server_cert_validate_date_enabled: None,
            semp_over_msg_bus_admin_client_enabled: None,
            semp_over_msg_bus_admin_distributed_cache_enabled: None,
            semp_over_msg_bus_admin_enabled: None,
            semp_over_msg_bus_enabled: None,
            semp_over_msg_bus_show_enabled: None,
            service_amqp_max_connection_count: None,
            service_amqp_plain_text_enabled: None,
            service_amqp_plain_text_listen_port: None,
            service_amqp_tls_enabled: None,
            service_amqp_tls_listen_port: None,
            service_mqtt_max_connection_count: None,
            service_mqtt_plain_text_enabled: None,
            service_mqtt_plain_text_listen_port: None,
            service_mqtt_tls_enabled: None,
            service_mqtt_tls_listen_port: None,
            service_mqtt_tls_web_socket_enabled: None,
            service_mqtt_tls_web_socket_listen_port: None,
            service_mqtt_web_socket_enabled: None,
            service_mqtt_web_socket_listen_port: None,
            service_rest_incoming_max_connection_count: None,
            service_rest_incoming_plain_text_enabled: None,
            service_rest_incoming_plain_text_listen_port: None,
            service_rest_incoming_tls_enabled: None,
            service_rest_incoming_tls_listen_port: None,
            service_rest_mode: None,
            service_rest_outgoing_max_connection_count: None,
            service_smf_max_connection_count: None,
            service_smf_plain_text_enabled: None,
            service_smf_tls_enabled: None,
            service_web_max_connection_count: None,
            service_web_plain_text_enabled: None,
            service_web_tls_enabled: None,
            tls_allow_downgrade_to_plain_text_enabled: None,
        }
    }

    /// This value with `authenticationBasicEnabled` present and equal to `v`.
    pub open spec fn with_authentication_basic_enabled(self, v: bool) -> MsgVpnView {
        MsgVpnView { authentication_basic_enabled: Some(v), ..self }
    }

    /// This value with `authenticationBasicEnabled` absent.
    pub open spec fn without_authentication_basic_enabled(self) -> MsgVpnView {
        MsgVpnView { authentication_basic_enabled: None, ..self }
    }

    /// This value with `authenticationBasicProfileName` present and equal to `v`.
    pub open spec fn with_authentication_basic_profile_name(self, v: Seq<char>) -> MsgVpnView {
        MsgVpnView { authentication_basic_profile_name: Some(v), ..self }
    }

    /// This value with `authenticationBasicProfileName` absent.
    pub open spec fn without_authentication_basic_profile_name(self) -> MsgVpnView {
        MsgVpnView { authentication_basic_profile_name: None, ..self }
    }

    /// This value with `authenticationBasicRadiusDomain` present and equal to `v`.
    pub open spec fn with_authentication_basic_radius_domain(self, v: Seq<char>) -> MsgVpnView {
        MsgVpnView { authentication_basic_radius_domain: Some(v), ..self }
    }

    /// This value with `authenticationBasicRadiusDomain` absent.
    pub open spec fn without_authentication_basic_radius_domain(self) -> MsgVpnView {
        MsgVpnView { authentication_basic_radius_domain: None, ..self }
    }

    /// This value with `authenticationBasicType` present and equal to `v`.
    pub open spec fn with_authentication_basic_type(self, v: Seq<char>) -> MsgVpnView {
        MsgVpnView { authentication_basic_type: Some(v), ..self }
    }

    /// This value with `authenticationBasicType` absent.
    pub open spec fn without_authentication_basic_type(self) -> MsgVpnView {
        MsgVpnView { authentication_basic_type: None, ..self }
    }

    /// This value with `authenticationClientCertAllowApiProvidedUsernameEnabled` present and equal to `v`.
    pub open spec fn with_authentication_client_cert_allow_api_provided_username_enabled(self, v: bool) -> MsgVpnView {
        MsgVpnView { authentication_client_cert_allow_api_provided_username_enabled: Some(v), ..self }
    }

    /// This value with `authenticationClientCertAllowApiProvidedUsernameEnabled` absent.
    pub open spec fn without_authentication_client_cert_allow_api_provided_username_enabled(self) -> MsgVpnView {
        MsgVpnView { authentication_client_cert_allow_api_provided_username_enabled: None, ..self }
    }

    /// This value with `authenticationClientCertEnabled` present and equal to `v`.
    pub open spec fn with_authentication_client_cert_enabled(self, v: bool) -> MsgVpnView {
        MsgVpnView { authentication_client_cert_enabled: Some(v), ..self }
    }

    /// This value with `authenticationClientCertEnabled` absent.
    pub open spec fn without_authentication_client_cert_enabled(self) -> MsgVpnView {
        MsgVpnView { authentication_client_cert_enabled: None, ..self }
    }

    /// This value with `authenticationClientCertMaxChainDepth` present and equal to `v`.
    pub open spec fn with_authentication_client_cert_max_chain_depth(self, v: i64) -> MsgVpnView {
        MsgVpnView { authentication_client_cert_max_chain_depth: Some(v), ..self }
    }

    /// This value with `authenticationClientCertMaxChainDepth` absent.
    pub open spec fn without_authentication_client_cert_max_chain_depth(self) -> MsgVpnView {
        MsgVpnView { authentication_client_cert_max_chain_depth: None, ..self }
    }

    /// This value with `authenticationClientCertRevocationCheckMode` present and equal to `v`.
    pub open spec fn with_authentication_client_cert_revocation_check_mode(self, v: Seq<char>) -> MsgVpnView {
        MsgVpnView { authentication_client_cert_revocation_check_mode: Some(v), ..self }
    }

    /// This value with `authenticationClientCertRevocationCheckMode` absent.
    pub open spec fn without_authentication_client_cert_revocation_check_mode(self) -> MsgVpnView {
        MsgVpnView { authentication_client_cert_revocation_check_mode: None, ..self }
    }

    /// This value with `authenticationClientCertUsernameSource` present and equal to `v`.
    pub open spec fn with_authentication_client_cert_username_source(self, v: Seq<char>) -> MsgVpnView {
        MsgVpnView { authentication_client_cert_username_source: Some(v), ..self }
    }

    /// This value with `authenticationClientCertUsernameSource` absent.
    pub open spec fn without_authentication_client_cert_username_source(self) -> MsgVpnView {
        MsgVpnView { authentication_client_cert_username_source: None, ..self }
    }

    /// This value with `authenticationClientCertValidateDateEnabled` present and equal to `v`.
    pub open spec fn with_authentication_client_cert_validate_date_enabled(self, v: bool) -> MsgVpnView {
        MsgVpnView { authentication_client_cert_validate_date_enabled: Some(v), ..self }
    }

    /// This value with `authenticationClientCertValidateDateEnabled` absent.
    pub open spec fn without_authentication_client_cert_validate_date_enabled(self) -> MsgVpnView {
        MsgVpnView { authentication_client_cert_validate_date_enabled: None, ..self }
    }

    /// This value with `authenticationKerberosAllowApiProvidedUsernameEnabled` present and equal to `v`.
    pub open spec fn with_authentication_kerberos_allow_api_provided_username_enabled(self, v: bool) -> MsgVpnView {
        MsgVpnView { authentication_kerberos_allow_api_provided_username_enabled: Some(v), ..self }
    }

    /// This value with `authenticationKerberosAllowApiProvidedUsernameEnabled` absent.
    pub open spec fn without_authentication_kerberos_allow_api_provided_username_enabled(self) -> MsgVpnView {
        MsgVpnView { authentication_kerberos_allow_api_provided_username_enabled: None, ..self }
    }

    /// This value with `authenticationKerberosEnabled` present and equal to `v`.
    pub open spec fn with_authentication_kerberos_enabled(self, v: bool) -> MsgVpnView {
        MsgVpnView { authentication_kerberos_enabled: Some(v), ..self }
    }

    /// This value with `authenticationKerberosEnabled` absent.
    pub open spec fn without_authentication_kerberos_enabled(self) -> MsgVpnView {
        MsgVpnView { authentication_kerberos_enabled: None, ..self }
    }

    /// This value with `authorizationLdapGroupMembershipAttributeName` present and equal to `v`.
    pub open spec fn with_authorization_ldap_group_membership_attribute_name(self, v: Seq<char>) -> MsgVpnView {
        MsgVpnView { authorization_ldap_group_membership_attribute_name: Some(v), ..self }
    }

    /// This value with `authorizationLdapGroupMembershipAttributeName` absent.
    pub open spec fn without_authorization_ldap_group_membership_attribute_name(self) -> MsgVpnView {
        MsgVpnView { authorization_ldap_group_membership_attribute_name: None, ..self }
    }

    /// This value with `authorizationProfileName` present and equal to `v`.
    pub open spec fn with_authorization_profile_name(self, v: Seq<char>) -> MsgVpnView {
        MsgVpnView { authorization_profile_name: Some(v), ..self }
    }

    /// This value with `authorizationProfileName` absent.
    pub open spec fn without_authorization_profile_name(self) -> MsgVpnView {
        MsgVpnView { authorization_profile_name: None, ..self }
    }

    /// This value with `authorizationType` present and equal to `v`.
    pub open spec fn with_authorization_type(self, v: Seq<char>) -> MsgVpnView {
        MsgVpnView { authorization_type: Some(v), ..self }
    }

    /// This value with `authorizationType` absent.
    pub open spec fn without_authorization_type(self) -> MsgVpnView {
        MsgVpnView { authorization_type: None, ..self }
    }

    /// This value with `bridgingTlsServerCertEnforceTrustedCommonNameEnabled` present and equal to `v`.
    pub open spec fn with_bridging_tls_server_cert_enforce_trusted_common_name_enabled(self, v: bool) -> MsgVpnView {
        MsgVpnView { bridging_tls_server_cert_enforce_trusted_common_name_enabled: Some(v), ..self }
    }

    /// This value with `bridgingTlsServerCertEnforceTrustedCommonNameEnabled` absent.
    pub open spec fn without_bridging_tls_server_cert_enforce_trusted_common_name_enabled(self) -> MsgVpnView {
        MsgVpnView { bridging_tls_server_cert_enforce_trusted_common_name_enabled: None, ..self }
    }

    /// This value with `bridgingTlsServerCertMaxChainDepth` present and equal to `v`.
    pub open spec fn with_bridging_tls_server_cert_max_chain_depth(self, v: i64) -> MsgVpnView {
        MsgVpnView { bridging_tls_server_cert_max_chain_depth: Some(v), ..self }
    }

    /// This value with `bridgingTlsServerCertMaxChainDepth` absent.
    pub open spec fn without_bridging_tls_server_cert_max_chain_depth(self) -> MsgVpnView {
        MsgVpnView { bridging_tls_server_cert_max_chain_depth: None, ..self }
    }

    /// This value with `bridgingTlsServerCertValidateDateEnabled` present and equal to `v`.
    pub open spec fn with_bridging_tls_server_cert_validate_date_enabled(self, v: bool) -> MsgVpnView {
        MsgVpnView { bridging_tls_server_cert_validate_date_enabled: Some(v), ..self }
    }

    /// This value with `bridgingTlsServerCertValidateDateEnabled` absent.
    pub open spec fn without_bridging_tls_server_cert_validate_date_enabled(self) -> MsgVpnView {
        MsgVpnView { bridging_tls_server_cert_validate_date_enabled: None, ..self }
    }

    /// This value with `distributedCacheManagementEnabled` present and equal to `v`.
    pub open spec fn with_distributed_cache_management_enabled(self, v: bool) -> MsgVpnView {
        MsgVpnView { distributed_cache_management_enabled: Some(v), ..self }
    }

    /// This value with `distributedCacheManagementEnabled` absent.
    pub open spec fn without_distributed_cache_management_enabled(self) -> MsgVpnView {
        MsgVpnView { distributed_cache_management_enabled: None, ..self }
    }

    /// This value with `enabled` present and equal to `v`.
    pub open spec fn with_enabled(self, v: bool) -> MsgVpnView {
        MsgVpnView { enabled: Some(v), ..self }
    }

    /// This value with `enabled` absent.
    pub open spec fn without_enabled(self) -> MsgVpnView {
        MsgVpnView { enabled: None, ..self }
    }

    /// This value with `eventConnectionCountThreshold` present and equal to `v`.
    pub open spec fn with_event_connection_count_threshold(self, v: EventThreshold) -> MsgVpnView {
        MsgVpnView { event_connection_count_threshold: Some(v), ..self }
    }

    /// This value with `eventConnectionCountThreshold` absent.
    pub open spec fn without_event_connection_count_threshold(self) -> MsgVpnView {
        MsgVpnView { event_connection_count_threshold: None, ..self }
    }

    /// This value with `eventEgressFlowCountThreshold` present and equal to `v`.
    pub open spec fn with_event_egress_flow_count_threshold(self, v: EventThreshold) -> MsgVpnView {
        MsgVpnView { event_egress_flow_count_threshold: Some(v), ..self }
    }

    /// This value with `eventEgressFlowCountThreshold` absent.
    pub open spec fn without_event_egress_flow_count_threshold(self) -> MsgVpnView {
        MsgVpnView { event_egress_flow_count_threshold: None, ..self }
    }

    /// This value with `eventEgressMsgRateThreshold` present and equal to `v`.
    pub open spec fn with_event_egress_msg_rate_threshold(self, v: EventThresholdByValue) -> MsgVpnView {
        MsgVpnView { event_egress_msg_rate_threshold: Some(v), ..self }
    }

    /// This value with `eventEgressMsgRateThreshold` absent.
    pub open spec fn without_event_egress_msg_rate_threshold(self) -> MsgVpnView {
        MsgVpnView { event_egress_msg_rate_threshold: None, ..self }
    }

    /// This value with `eventEndpointCountThreshold` present and equal to `v`.
    pub open spec fn with_event_endpoint_count_threshold(self, v: EventThreshold) -> MsgVpnView {
        MsgVpnView { event_endpoint_count_threshold: Some(v), ..self }
    }

    /// This value with `eventEndpointCountThreshold` absent.
    pub open spec fn without_event_endpoint_count_threshold(self) -> MsgVpnView {
        MsgVpnView { event_endpoint_count_threshold: None, ..self }
    }

    /// This value with `eventIngressFlowCountThreshold` present and equal to `v`.
    pub open spec fn with_event_ingress_flow_count_threshold(self, v: EventThreshold) -> MsgVpnView {
        MsgVpnView { event_ingress_flow_count_threshold: Some(v), ..self }
    }

    /// This value with `eventIngressFlowCountThreshold` absent.
    pub open spec fn without_event_ingress_flow_count_threshold(self) -> MsgVpnView {
        MsgVpnView { event_ingress_flow_count_threshold: None, ..self }
    }

    /// This value with `eventIngressMsgRateThreshold` present and equal to `v`.
    pub open spec fn with_event_ingress_msg_rate_threshold(self, v: EventThresholdByValue) -> MsgVpnView {
        MsgVpnView { event_ingress_msg_rate_threshold: Some(v), ..self }
    }

    /// This value with `eventIngressMsgRateThreshold` absent.
    pub open spec fn without_event_ingress_msg_rate_threshold(self) -> MsgVpnView {
        MsgVpnView { event_ingress_msg_rate_threshold: None, ..self }
    }

    /// This value with `eventLargeMsgThreshold` present and equal to `v`.
    pub open spec fn with_event_large_msg_threshold(self, v: i64) -> MsgVpnView {
        MsgVpnView { event_large_msg_threshold: Some(v), ..self }
    }

    /// This value with `eventLargeMsgThreshold` absent.
    pub open spec fn without_event_large_msg_threshold(self) -> MsgVpnView {
        MsgVpnView { event_large_msg_threshold: None, ..self }
    }

    /// This value with `eventLogTag` present and equal to `v`.
    pub open spec fn with_event_log_tag(self, v: Seq<char>) -> MsgVpnView {
        MsgVpnView { event_log_tag: Some(v), ..self }
    }

    /// This value with `eventLogTag` absent.
    pub open spec fn without_event_log_tag(self) -> MsgVpnView {
        MsgVpnView { event_log_tag: None, ..self }
    }

    /// This value with `eventMsgSpoolUsageThreshold` present and equal to `v`.
    pub open spec fn with_event_msg_spool_usage_threshold(self, v: EventThreshold) -> MsgVpnView {
        MsgVpnView { event_msg_spool_usage_threshold: Some(v), ..self }
    }

    /// This value with `eventMsgSpoolUsageThreshold` absent.
    pub open spec fn without_event_msg_spool_usage_threshold(self) -> MsgVpnView {
        MsgVpnView { event_msg_spool_usage_threshold: None, ..self }
    }

    /// This value with `eventPublishClientEnabled` present and equal to `v`.
    pub open spec fn with_event_publish_client_enabled(self, v: bool) -> MsgVpnView {
        MsgVpnView { event_publish_client_enabled: Some(v), ..self }
    }

    /// This value with `eventPublishClientEnabled` absent.
    pub open spec fn without_event_publish_client_enabled(self) -> MsgVpnView {
        MsgVpnView { event_publish_client_enabled: None, ..self }
    }

    /// This value with `eventPublishMsgVpnEnabled` present and equal to `v`.
    pub open spec fn with_event_publish_msg_vpn_enabled(self, v: bool) -> MsgVpnView {
        MsgVpnView { event_publish_msg_vpn_enabled: Some(v), ..self }
    }

    /// This value with `eventPublishMsgVpnEnabled` absent.
    pub open spec fn without_event_publish_msg_vpn_enabled(self) -> MsgVpnView {
        MsgVpnView { event_publish_msg_vpn_enabled: None, ..self }
    }

    /// This value with `eventPublishSubscriptionMode` present and equal to `v`.
    pub open spec fn with_event_publish_subscription_mode(self, v: Seq<char>) -> MsgVpnView {
        MsgVpnView { event_publish_subscription_mode: Some(v), ..self }
    }

    /// This value with `eventPublishSubscriptionMode` absent.
    pub open spec fn without_event_publish_subscription_mode(self) -> MsgVpnView {
        MsgVpnView { event_publish_subscription_mode: None, ..self }
    }

    /// This value with `eventPublishTopicFormatMqttEnabled` present and equal to `v`.
    pub open spec fn with_event_publish_topic_format_mqtt_enabled(self, v: bool) -> MsgVpnView {
        MsgVpnView { event_publish_topic_format_mqtt_enabled: Some(v), ..self }
    }

    /// This value with `eventPublishTopicFormatMqttEnabled` absent.
    pub open spec fn without_event_publish_topic_format_mqtt_enabled(self) -> MsgVpnView {
        MsgVpnView { event_publish_topic_format_mqtt_enabled: None, ..self }
    }

    /// This value with `eventPublishTopicFormatSmfEnabled` present and equal to `v`.
    pub open spec fn with_event_publish_topic_format_smf_enabled(self, v: bool) -> MsgVpnView {
        MsgVpnView { event_publish_topic_format_smf_enabled: Some(v), ..self }
    }

    /// This value with `eventPublishTopicFormatSmfEnabled` absent.
    pub open spec fn without_event_publish_topic_format_smf_enabled(self) -> MsgVpnView {
        MsgVpnView { event_publish_topic_format_smf_enabled: None, ..self }
    }

    /// This value with `eventServiceAmqpConnectionCountThreshold` present and equal to `v`.
    pub open spec fn with_event_service_amqp_connection_count_threshold(self, v: EventThreshold) -> MsgVpnView {
        MsgVpnView { event_service_amqp_connection_count_threshold: Some(v), ..self }
    }

    /// This value with `eventServiceAmqpConnectionCountThreshold` absent.
    pub open spec fn without_event_service_amqp_connection_count_threshold(self) -> MsgVpnView {
        MsgVpnView { event_service_amqp_connection_count_threshold: None, ..self }
    }

    /// This value with `eventServiceMqttConnectionCountThreshold` present and equal to `v`.
    pub open spec fn with_event_service_mqtt_connection_count_threshold(self, v: EventThreshold) -> MsgVpnView {
        MsgVpnView { event_service_mqtt_connection_count_threshold: Some(v), ..self }
    }

    /// This value with `eventServiceMqttConnectionCountThreshold` absent.
    pub open spec fn without_event_service_mqtt_connection_count_threshold(self) -> MsgVpnView {
        MsgVpnView { event_service_mqtt_connection_count_threshold: None, ..self }
    }

    /// This value with `eventServiceRestIncomingConnectionCountThreshold` present and equal to `v`.
    pub open spec fn with_event_service_rest_incoming_connection_count_threshold(self, v: EventThreshold) -> MsgVpnView {
        MsgVpnView { event_service_rest_incoming_connection_count_threshold: Some(v), ..self }
    }

    /// This value with `eventServiceRestIncomingConnectionCountThreshold` absent.
    pub open spec fn without_event_service_rest_incoming_connection_count_threshold(self) -> MsgVpnView {
        MsgVpnView { event_service_rest_incoming_connection_count_threshold: None, ..self }
    }

    /// This value with `eventServiceSmfConnectionCountThreshold` present and equal to `v`.
    pub open spec fn with_event_service_smf_connection_count_threshold(self, v: EventThreshold) -> MsgVpnView {
        MsgVpnView { event_service_smf_connection_count_threshold: Some(v), ..self }
    }

    /// This value with `eventServiceSmfConnectionCountThreshold` absent.
    pub open spec fn without_event_service_smf_connection_count_threshold(self) -> MsgVpnView {
        MsgVpnView { event_service_smf_connection_count_threshold: None, ..self }
    }

    /// This value with `eventServiceWebConnectionCountThreshold` present and equal to `v`.
    pub open spec fn with_event_service_web_connection_count_threshold(self, v: EventThreshold) -> MsgVpnView {
        MsgVpnView { event_service_web_connection_count_threshold: Some(v), ..self }
    }

    /// This value with `eventServiceWebConnectionCountThreshold` absent.
    pub open spec fn without_event_service_web_connection_count_threshold(self) -> MsgVpnView {
        MsgVpnView { event_service_web_connection_count_threshold: None, ..self }
    }

    /// This value with `eventSubscriptionCountThreshold` present and equal to `v`.
    pub open spec fn with_event_subscription_count_threshold(self, v: EventThreshold) -> MsgVpnView {
        MsgVpnView { event_subscription_count_threshold: Some(v), ..self }
    }

    /// This value with `eventSubscriptionCountThreshold` absent.
    pub open spec fn without_event_subscription_count_threshold(self) -> MsgVpnView {
        MsgVpnView { event_subscription_count_threshold: None, ..self }
    }

    /// This value with `eventTransactedSessionCountThreshold` present and equal to `v`.
    pub open spec fn with_event_transacted_session_count_threshold(self, v: EventThreshold) -> MsgVpnView {
        MsgVpnView { event_transacted_session_count_threshold: Some(v), ..self }
    }

    /// This value with `eventTransactedSessionCountThreshold` absent.
    pub open spec fn without_event_transacted_session_count_threshold(self) -> MsgVpnView {
        MsgVpnView { event_transacted_session_count_threshold: None, ..self }
    }

    /// This value with `eventTransactionCountThreshold` present and equal to `v`.
    pub open spec fn with_event_transaction_count_threshold(self, v: EventThreshold) -> MsgVpnView {
        MsgVpnView { event_transaction_count_threshold: Some(v), ..self }
    }

    /// This value with `eventTransactionCountThreshold` absent.
    pub open spec fn without_event_transaction_count_threshold(self) -> MsgVpnView {
        MsgVpnView { event_transaction_count_threshold: None, ..self }
    }

    /// This value with `exportSubscriptionsEnabled` present and equal to `v`.
    pub open spec fn with_export_subscriptions_enabled(self, v: bool) -> MsgVpnView {
        MsgVpnView { export_subscriptions_enabled: Some(v), ..self }
    }

    /// This value with `exportSubscriptionsEnabled` absent.
    pub open spec fn without_export_subscriptions_enabled(self) -> MsgVpnView {
        MsgVpnView { export_subscriptions_enabled: None, ..self }
    }

    /// This value with `jndiEnabled` present and equal to `v`.
    pub open spec fn with_jndi_enabled(self, v: bool) -> MsgVpnView {
        MsgVpnView { jndi_enabled: Some(v), ..self }
    }

    /// This value with `jndiEnabled` absent.
    pub open spec fn without_jndi_enabled(self) -> MsgVpnView {
        MsgVpnView { jndi_enabled: None, ..self }
    }

    /// This value with `maxConnectionCount` present and equal to `v`.
    pub open spec fn with_max_connection_count(self, v: i64) -> MsgVpnView {
        MsgVpnView { max_connection_count: Some(v), ..self }
    }

    /// This value with `maxConnectionCount` absent.
    pub open spec fn without_max_connection_count(self) -> MsgVpnView {
        MsgVpnView { max_connection_count: None, ..self }
    }

    /// This value with `maxEgressFlowCount` present and equal to `v`.
    pub open spec fn with_max_egress_flow_count(self, v: i64) -> MsgVpnView {
        MsgVpnView { max_egress_flow_count: Some(v), ..self }
    }

    /// This value with `maxEgressFlowCount` absent.
    pub open spec fn without_max_egress_flow_count(self) -> MsgVpnView {
        MsgVpnView { max_egress_flow_count: None, ..self }
    }

    /// This value with `maxEndpointCount` present and equal to `v`.
    pub open spec fn with_max_endpoint_count(self, v: i64) -> MsgVpnView {
        MsgVpnView { max_endpoint_count: Some(v), ..self }
    }

    /// This value with `maxEndpointCount` absent.
    pub open spec fn without_max_endpoint_count(self) -> MsgVpnView {
        MsgVpnView { max_endpoint_count: None, ..self }
    }

    /// This value with `maxIngressFlowCount` present and equal to `v`.
    pub open spec fn with_max_ingress_flow_count(self, v: i64) -> MsgVpnView {
        MsgVpnView { max_ingress_flow_count: Some(v), ..self }
    }

    /// This value with `maxIngressFlowCount` absent.
    pub open spec fn without_max_ingress_flow_count(self) -> MsgVpnView {
        MsgVpnView { max_ingress_flow_count: None, ..self }
    }

    /// This value with `maxMsgSpoolUsage` present and equal to `v`.
    pub open spec fn with_max_msg_spool_usage(self, v: i64) -> MsgVpnView {
        MsgVpnView { max_msg_spool_usage: Some(v), ..self }
    }

    /// This value with `maxMsgSpoolUsage` absent.
    pub open spec fn without_max_msg_spool_usage(self) -> MsgVpnView {
        MsgVpnView { max_msg_spool_usage: None, ..self }
    }

    /// This value with `maxSubscriptionCount` present and equal to `v`.
    pub open spec fn with_max_subscription_count(self, v: i64) -> MsgVpnView {
        MsgVpnView { max_subscription_count: Some(v), ..self }
    }

    /// This value with `maxSubscriptionCount` absent.
    pub open spec fn without_max_subscription_count(self) -> MsgVpnView {
        MsgVpnView { max_subscription_count: None, ..self }
    }

    /// This value with `maxTransactedSessionCount` present and equal to `v`.
    pub open spec fn with_max_transacted_session_count(self, v: i64) -> MsgVpnView {
        MsgVpnView { max_transacted_session_count: Some(v), ..self }
    }

    /// This value with `maxTransactedSessionCount` absent.
    pub open spec fn without_max_transacted_session_count(self) -> MsgVpnView {
        MsgVpnView { max_transacted_session_count: None, ..self }
    }

    /// This value with `maxTransactionCount` present and equal to `v`.
    pub open spec fn with_max_transaction_count(self, v: i64) -> MsgVpnView {
        MsgVpnView { max_transaction_count: Some(v), ..self }
    }

    /// This value with `maxTransactionCount` absent.
    pub open spec fn without_max_transaction_count(self) -> MsgVpnView {
        MsgVpnView { max_transaction_count: None, ..self }
    }

    /// This value with `msgVpnName` present and equal to `v`.
    pub open spec fn with_msg_vpn_name(self, v: Seq<char>) -> MsgVpnView {
        MsgVpnView { msg_vpn_name: Some(v), ..self }
    }

    /// This value with `msgVpnName` absent.
    pub open spec fn without_msg_vpn_name(self) -> MsgVpnView {
        MsgVpnView { msg_vpn_name: None, ..self }
    }

    /// This value with `replicationAckPropagationIntervalMsgCount` present and equal to `v`.
    pub open spec fn with_replication_ack_propagation_interval_msg_count(self, v: i64) -> MsgVpnView {
        MsgVpnView { replication_ack_propagation_interval_msg_count: Some(v), ..self }
    }

    /// This value with `replicationAckPropagationIntervalMsgCount` absent.
    pub open spec fn without_replication_ack_propagation_interval_msg_count(self) -> MsgVpnView {
        MsgVpnView { replication_ack_propagation_interval_msg_count: None, ..self }
    }

    /// This value with `replicationBridgeAuthenticationBasicClientUsername` present and equal to `v`.
    pub open spec fn with_replication_bridge_authentication_basic_client_username(self, v: Seq<char>) -> MsgVpnView {
        MsgVpnView { replication_bridge_authentication_basic_client_username: Some(v), ..self }
    }

    /// This value with `replicationBridgeAuthenticationBasicClientUsername` absent.
    pub open spec fn without_replication_bridge_authentication_basic_client_username(self) -> MsgVpnView {
        MsgVpnView { replication_bridge_authentication_basic_client_username: None, ..self }
    }

    /// This value with `replicationBridgeAuthenticationBasicPassword` present and equal to `v`.
    pub open spec fn with_replication_bridge_authentication_basic_password(self, v: Seq<char>) -> MsgVpnView {
        MsgVpnView { replication_bridge_authentication_basic_password: Some(v), ..self }
    }

    /// This value with `replicationBridgeAuthenticationBasicPassword` absent.
    pub open spec fn without_replication_bridge_authentication_basic_password(self) -> MsgVpnView {
        MsgVpnView { replication_bridge_authentication_basic_password: None, ..self }
    }

    /// This value with `replicationBridgeAuthenticationClientCertContent` present and equal to `v`.
    pub open spec fn with_replication_bridge_authentication_client_cert_content(self, v: Seq<char>) -> MsgVpnView {
        MsgVpnView { replication_bridge_authentication_client_cert_content: Some(v), ..self }
    }

    /// This value with `replicationBridgeAuthenticationClientCertContent` absent.
    pub open spec fn without_replication_bridge_authentication_client_cert_content(self) -> MsgVpnView {
        MsgVpnView { replication_bridge_authentication_client_cert_content: None, ..self }
    }

    /// This value with `replicationBridgeAuthenticationClientCertPassword` present and equal to `v`.
    pub open spec fn with_replication_bridge_authentication_client_cert_password(self, v: Seq<char>) -> MsgVpnView {
        MsgVpnView { replication_bridge_authentication_client_cert_password: Some(v), ..self }
    }

    /// This value with `replicationBridgeAuthenticationClientCertPassword` absent.
    pub open spec fn without_replication_bridge_authentication_client_cert_password(self) -> MsgVpnView {
        MsgVpnView { replication_bridge_authentication_client_cert_password: None, ..self }
    }

    /// This value with `replicationBridgeAuthenticationScheme` present and equal to `v`.
    pub open spec fn with_replication_bridge_authentication_scheme(self, v: Seq<char>) -> MsgVpnView {
        MsgVpnView { replication_bridge_authentication_scheme: Some(v), ..self }
    }

    /// This value with `replicationBridgeAuthenticationScheme` absent.
    pub open spec fn without_replication_bridge_authentication_scheme(self) -> MsgVpnView {
        MsgVpnView { replication_bridge_authentication_scheme: None, ..self }
    }

    /// This value with `replicationBridgeCompressedDataEnabled` present and equal to `v`.
    pub open spec fn with_replication_bridge_compressed_data_enabled(self, v: bool) -> MsgVpnView {
        MsgVpnView { replication_bridge_compressed_data_enabled: Some(v), ..self }
    }

    /// This value with `replicationBridgeCompressedDataEnabled` absent.
    pub open spec fn without_replication_bridge_compressed_data_enabled(self) -> MsgVpnView {
        MsgVpnView { replication_bridge_compressed_data_enabled: None, ..self }
    }

    /// This value with `replicationBridgeEgressFlowWindowSize` present and equal to `v`.
    pub open spec fn with_replication_bridge_egress_flow_window_size(self, v: i64) -> MsgVpnView {
        MsgVpnView { replication_bridge_egress_flow_window_size: Some(v), ..self }
    }

    /// This value with `replicationBridgeEgressFlowWindowSize` absent.
    pub open spec fn without_replication_bridge_egress_flow_window_size(self) -> MsgVpnView {
        MsgVpnView { replication_bridge_egress_flow_window_size: None, ..self }
    }

    /// This value with `replicationBridgeRetryDelay` present and equal to `v`.
    pub open spec fn with_replication_bridge_retry_delay(self, v: i64) -> MsgVpnView {
        MsgVpnView { replication_bridge_retry_delay: Some(v), ..self }
    }

    /// This value with `replicationBridgeRetryDelay` absent.
    pub open spec fn without_replication_bridge_retry_delay(self) -> MsgVpnView {
        MsgVpnView { replication_bridge_retry_delay: None, ..self }
    }

    /// This value with `replicationBridgeTlsEnabled` present and equal to `v`.
    pub open spec fn with_replication_bridge_tls_enabled(self, v: bool) -> MsgVpnView {
        MsgVpnView { replication_bridge_tls_enabled: Some(v), ..self }
    }

    /// This value with `replicationBridgeTlsEnabled` absent.
    pub open spec fn without_replication_bridge_tls_enabled(self) -> MsgVpnView {
        MsgVpnView { replication_bridge_tls_enabled: None, ..self }
    }

    /// This value with `replicationBridgeUnidirectionalClientProfileName` present and equal to `v`.
    pub open spec fn with_replication_bridge_unidirectional_client_profile_name(self, v: Seq<char>) -> MsgVpnView {
        MsgVpnView { replication_bridge_unidirectional_client_profile_name: Some(v), ..self }
    }

    /// This value with `replicationBridgeUnidirectionalClientProfileName` absent.
    pub open spec fn without_replication_bridge_unidirectional_client_profile_name(self) -> MsgVpnView {
        MsgVpnView { replication_bridge_unidirectional_client_profile_name: None, ..self }
    }

    /// This value with `replicationEnabled` present and equal to `v`.
    pub open spec fn with_replication_enabled(self, v: bool) -> MsgVpnView {
        MsgVpnView { replication_enabled: Some(v), ..self }
    }

    /// This value with `replicationEnabled` absent.
    pub open spec fn without_replication_enabled(self) -> MsgVpnView {
        MsgVpnView { replication_enabled: None, ..self }
    }

    /// This value with `replicationEnabledQueueBehavior` present and equal to `v`.
    pub open spec fn with_replication_enabled_queue_behavior(self, v: Seq<char>) -> MsgVpnView {
        MsgVpnView { replication_enabled_queue_behavior: Some(v), ..self }
    }

    /// This value with `replicationEnabledQueueBehavior` absent.
    pub open spec fn without_replication_enabled_queue_behavior(self) -> MsgVpnView {
        MsgVpnView { replication_enabled_queue_behavior: None, ..self }
    }

    /// This value with `replicationQueueMaxMsgSpoolUsage` present and equal to `v`.
    pub open spec fn with_replication_queue_max_msg_spool_usage(self, v: i64) -> MsgVpnView {
        MsgVpnView { replication_queue_max_msg_spool_usage: Some(v), ..self }
    }

    /// This value with `replicationQueueMaxMsgSpoolUsage` absent.
    pub open spec fn without_replication_queue_max_msg_spool_usage(self) -> MsgVpnView {
        MsgVpnView { replication_queue_max_msg_spool_usage: None, ..self }
    }

    /// This value with `replicationQueueRejectMsgToSenderOnDiscardEnabled` present and equal to `v`.
    pub open spec fn with_replication_queue_reject_msg_to_sender_on_discard_enabled(self, v: bool) -> MsgVpnView {
        MsgVpnView { replication_queue_reject_msg_to_sender_on_discard_enabled: Some(v), ..self }
    }

    /// This value with `replicationQueueRejectMsgToSenderOnDiscardEnabled` absent.
    pub open spec fn without_replication_queue_reject_msg_to_sender_on_discard_enabled(self) -> MsgVpnView {
        MsgVpnView { replication_queue_reject_msg_to_sender_on_discard_enabled: None, ..self }
    }

    /// This value with `replicationRejectMsgWhenSyncIneligibleEnabled` present and equal to `v`.
    pub open spec fn with_replication_reject_msg_when_sync_ineligible_enabled(self, v: bool) -> MsgVpnView {
        MsgVpnView { replication_reject_msg_when_sync_ineligible_enabled: Some(v), ..self }
    }

    /// This value with `replicationRejectMsgWhenSyncIneligibleEnabled` absent.
    pub open spec fn without_replication_reject_msg_when_sync_ineligible_enabled(self) -> MsgVpnView {
        MsgVpnView { replication_reject_msg_when_sync_ineligible_enabled: None, ..self }
    }

    /// This value with `replicationRole` present and equal to `v`.
    pub open spec fn with_replication_role(self, v: Seq<char>) -> MsgVpnView {
        MsgVpnView { replication_role: Some(v), ..self }
    }

    /// This value with `replicationRole` absent.
    pub open spec fn without_replication_role(self) -> MsgVpnView {
        MsgVpnView { replication_role: None, ..self }
    }

    /// This value with `replicationTransactionMode` present and equal to `v`.
    pub open spec fn with_replication_transaction_mode(self, v: Seq<char>) -> MsgVpnView {
        MsgVpnView { replication_transaction_mode: Some(v), ..self }
    }

    /// This value with `replicationTransactionMode` absent.
    pub open spec fn without_replication_transaction_mode(self) -> MsgVpnView {
        MsgVpnView { replication_transaction_mode: None, ..self }
    }

    /// This value with `restTlsServerCertEnforceTrustedCommonNameEnabled` present and equal to `v`.
    pub open spec fn with_rest_tls_server_cert_enforce_trusted_common_name_enabled(self, v: bool) -> MsgVpnView {
        MsgVpnView { rest_tls_server_cert_enforce_trusted_common_name_enabled: Some(v), ..self }
    }

    /// This value with `restTlsServerCertEnforceTrustedCommonNameEnabled` absent.
    pub open spec fn without_rest_tls_server_cert_enforce_trusted_common_name_enabled(self) -> MsgVpnView {
        MsgVpnView { rest_tls_server_cert_enforce_trusted_common_name_enabled: None, ..self }
    }

    /// This value with `restTlsServerCertMaxChainDepth` present and equal to `v`.
    pub open spec fn with_rest_tls_server_cert_max_chain_depth(self, v: i64) -> MsgVpnView {
        MsgVpnView { rest_tls_server_cert_max_chain_depth: Some(v), ..self }
    }

    /// This value with `restTlsServerCertMaxChainDepth` absent.
    pub open spec fn without_rest_tls_server_cert_max_chain_depth(self) -> MsgVpnView {
        MsgVpnView { rest_tls_server_cert_max_chain_depth: None, ..self }
    }

    /// This value with `restTlsServerCertValidateDateEnabled` present and equal to `v`.
    pub open spec fn with_rest_tls_server_cert_validate_date_enabled(self, v: bool) -> MsgVpnView {
        MsgVpnView { rest_tls_server_cert_validate_date_enabled: Some(v), ..self }
    }

    /// This value with `restTlsServerCertValidateDateEnabled` absent.
    pub open spec fn without_rest_tls_server_cert_validate_date_enabled(self) -> MsgVpnView {
        MsgVpnView { rest_tls_server_cert_validate_date_enabled: None, ..self }
    }

    /// This value with `sempOverMsgBusAdminClientEnabled` present and equal to `v`.
    pub open spec fn with_semp_over_msg_bus_admin_client_enabled(self, v: bool) -> MsgVpnView {
        MsgVpnView { semp_over_msg_bus_admin_client_enabled: Some(v), ..self }
    }

    /// This value with `sempOverMsgBusAdminClientEnabled` absent.
    pub open spec fn without_semp_over_msg_bus_admin_client_enabled(self) -> MsgVpnView {
        MsgVpnView { semp_over_msg_bus_admin_client_enabled: None, ..self }
    }

    /// This value with `sempOverMsgBusAdminDistributedCacheEnabled` present and equal to `v`.
    pub open spec fn with_semp_over_msg_bus_admin_distributed_cache_enabled(self, v: bool) -> MsgVpnView {
        MsgVpnView { semp_over_msg_bus_admin_distributed_cache_enabled: Some(v), ..self }
    }

    /// This value with `sempOverMsgBusAdminDistributedCacheEnabled` absent.
    pub open spec fn without_semp_over_msg_bus_admin_distributed_cache_enabled(self) -> MsgVpnView {
        MsgVpnView { semp_over_msg_bus_admin_distributed_cache_enabled: None, ..self }
    }

    /// This value with `sempOverMsgBusAdminEnabled` present and equal to `v`.
    pub open spec fn with_semp_over_msg_bus_admin_enabled(self, v: bool) -> MsgVpnView {
        MsgVpnView { semp_over_msg_bus_admin_enabled: Some(v), ..self }
    }

    /// This value with `sempOverMsgBusAdminEnabled` absent.
    pub open spec fn without_semp_over_msg_bus_admin_enabled(self) -> MsgVpnView {
        MsgVpnView { semp_over_msg_bus_admin_enabled: None, ..self }
    }

    /// This value with `sempOverMsgBusEnabled` present and equal to `v`.
    pub open spec fn with_semp_over_msg_bus_enabled(self, v: bool) -> MsgVpnView {
        MsgVpnView { semp_over_msg_bus_enabled: Some(v), ..self }
    }

    /// This value with `sempOverMsgBusEnabled` absent.
    pub open spec fn without_semp_over_msg_bus_enabled(self) -> MsgVpnView {
        MsgVpnView { semp_over_msg_bus_enabled: None, ..self }
    }

    /// This value with `sempOverMsgBusShowEnabled` present and equal to `v`.
    pub open spec fn with_semp_over_msg_bus_show_enabled(self, v: bool) -> MsgVpnView {
        MsgVpnView { semp_over_msg_bus_show_enabled: Some(v), ..self }
    }

    /// This value with `sempOverMsgBusShowEnabled` absent.
    pub open spec fn without_semp_over_msg_bus_show_enabled(self) -> MsgVpnView {
        MsgVpnView { semp_over_msg_bus_show_enabled: None, ..self }
    }

    /// This value with `serviceAmqpMaxConnectionCount` present and equal to `v`.
    pub open spec fn with_service_amqp_max_connection_count(self, v: i64) -> MsgVpnView {
        MsgVpnView { service_amqp_max_connection_count: Some(v), ..self }
    }

    /// This value with `serviceAmqpMaxConnectionCount` absent.
    pub open spec fn without_service_amqp_max_connection_count(self) -> MsgVpnView {
        MsgVpnView { service_amqp_max_connection_count: None, ..self }
    }

    /// This value with `serviceAmqpPlainTextEnabled` present and equal to `v`.
    pub open spec fn with_service_amqp_plain_text_enabled(self, v: bool) -> MsgVpnView {
        MsgVpnView { service_amqp_plain_text_enabled: Some(v), ..self }
    }

    /// This value with `serviceAmqpPlainTextEnabled` absent.
    pub open spec fn without_service_amqp_plain_text_enabled(self) -> MsgVpnView {
        MsgVpnView { service_amqp_plain_text_enabled: None, ..self }
    }

    /// This value with `serviceAmqpPlainTextListenPort` present and equal to `v`.
    pub open spec fn with_service_amqp_plain_text_listen_port(self, v: i64) -> MsgVpnView {
        MsgVpnView { service_amqp_plain_text_listen_port: Some(v), ..self }
    }

    /// This value with `serviceAmqpPlainTextListenPort` absent.
    pub open spec fn without_service_amqp_plain_text_listen_port(self) -> MsgVpnView {
        MsgVpnView { service_amqp_plain_text_listen_port: None, ..self }
    }

    /// This value with `serviceAmqpTlsEnabled` present and equal to `v`.
    pub open spec fn with_service_amqp_tls_enabled(self, v: bool) -> MsgVpnView {
        MsgVpnView { service_amqp_tls_enabled: Some(v), ..self }
    }

    /// This value with `serviceAmqpTlsEnabled` absent.
    pub open spec fn without_service_amqp_tls_enabled(self) -> MsgVpnView {
        MsgVpnView { service_amqp_tls_enabled: None, ..self }
    }

    /// This value with `serviceAmqpTlsListenPort` present and equal to `v`.
    pub open spec fn with_service_amqp_tls_listen_port(self, v: i64) -> MsgVpnView {
        MsgVpnView { service_amqp_tls_listen_port: Some(v), ..self }
    }

    /// This value with `serviceAmqpTlsListenPort` absent.
    pub open spec fn without_service_amqp_tls_listen_port(self) -> MsgVpnView {
        MsgVpnView { service_amqp_tls_listen_port: None, ..self }
    }

    /// This value with `serviceMqttMaxConnectionCount` present and equal to `v`.
    pub open spec fn with_service_mqtt_max_connection_count(self, v: i64) -> MsgVpnView {
        MsgVpnView { service_mqtt_max_connection_count: Some(v), ..self }
    }

    /// This value with `serviceMqttMaxConnectionCount` absent.
    pub open spec fn without_service_mqtt_max_connection_count(self) -> MsgVpnView {
        MsgVpnView { service_mqtt_max_connection_count: None, ..self }
    }

    /// This value with `serviceMqttPlainTextEnabled` present and equal to `v`.
    pub open spec fn with_service_mqtt_plain_text_enabled(self, v: bool) -> MsgVpnView {
        MsgVpnView { service_mqtt_plain_text_enabled: Some(v), ..self }
    }

    /// This value with `serviceMqttPlainTextEnabled` absent.
    pub open spec fn without_service_mqtt_plain_text_enabled(self) -> MsgVpnView {
        MsgVpnView { service_mqtt_plain_text_enabled: None, ..self }
    }

    /// This value with `serviceMqttPlainTextListenPort` present and equal to `v`.
    pub open spec fn with_service_mqtt_plain_text_listen_port(self, v: i64) -> MsgVpnView {
        MsgVpnView { service_mqtt_plain_text_listen_port: Some(v), ..self }
    }

    /// This value with `serviceMqttPlainTextListenPort` absent.
    pub open spec fn without_service_mqtt_plain_text_listen_port(self) -> MsgVpnView {
        MsgVpnView { service_mqtt_plain_text_listen_port: None, ..self }
    }

    /// This value with `serviceMqttTlsEnabled` present and equal to `v`.
    pub open spec fn with_service_mqtt_tls_enabled(self, v: bool) -> MsgVpnView {
        MsgVpnView { service_mqtt_tls_enabled: Some(v), ..self }
    }

    /// This value with `serviceMqttTlsEnabled` absent.
    pub open spec fn without_service_mqtt_tls_enabled(self) -> MsgVpnView {
        MsgVpnView { service_mqtt_tls_enabled: None, ..self }
    }

    /// This value with `serviceMqttTlsListenPort` present and equal to `v`.
    pub open spec fn with_service_mqtt_tls_listen_port(self, v: i64) -> MsgVpnView {
        MsgVpnView { service_mqtt_tls_listen_port: Some(v), ..self }
    }

    /// This value with `serviceMqttTlsListenPort` absent.
    pub open spec fn without_service_mqtt_tls_listen_port(self) -> MsgVpnView {
        MsgVpnView { service_mqtt_tls_listen_port: None, ..self }
    }

    /// This value with `serviceMqttTlsWebSocketEnabled` present and equal to `v`.
    pub open spec fn with_service_mqtt_tls_web_socket_enabled(self, v: bool) -> MsgVpnView {
        MsgVpnView { service_mqtt_tls_web_socket_enabled: Some(v), ..self }
    }

    /// This value with `serviceMqttTlsWebSocketEnabled` absent.
    pub open spec fn without_service_mqtt_tls_web_socket_enabled(self) -> MsgVpnView {
        MsgVpnView { service_mqtt_tls_web_socket_enabled: None, ..self }
    }

    /// This value with `serviceMqttTlsWebSocketListenPort` present and equal to `v`.
    pub open spec fn with_service_mqtt_tls_web_socket_listen_port(self, v: i64) -> MsgVpnView {
        MsgVpnView { service_mqtt_tls_web_socket_listen_port: Some(v), ..self }
    }

    /// This value with `serviceMqttTlsWebSocketListenPort` absent.
    pub open spec fn without_service_mqtt_tls_web_socket_listen_port(self) -> MsgVpnView {
        MsgVpnView { service_mqtt_tls_web_socket_listen_port: None, ..self }
    }

    /// This value with `serviceMqttWebSocketEnabled` present and equal to `v`.
    pub open spec fn with_service_mqtt_web_socket_enabled(self, v: bool) -> MsgVpnView {
        MsgVpnView { service_mqtt_web_socket_enabled: Some(v), ..self }
    }

    /// This value with `serviceMqttWebSocketEnabled` absent.
    pub open spec fn without_service_mqtt_web_socket_enabled(self) -> MsgVpnView {
        MsgVpnView { service_mqtt_web_socket_enabled: None, ..self }
    }

    /// This value with `serviceMqttWebSocketListenPort` present and equal to `v`.
    pub open spec fn with_service_mqtt_web_socket_listen_port(self, v: i64) -> MsgVpnView {
        MsgVpnView { service_mqtt_web_socket_listen_port: Some(v), ..self }
    }

    /// This value with `serviceMqttWebSocketListenPort` absent.
    pub open spec fn without_service_mqtt_web_socket_listen_port(self) -> MsgVpnView {
        MsgVpnView { service_mqtt_web_socket_listen_port: None, ..self }
    }

    /// This value with `serviceRestIncomingMaxConnectionCount` present and equal to `v`.
    pub open spec fn with_service_rest_incoming_max_connection_count(self, v: i64) -> MsgVpnView {
        MsgVpnView { service_rest_incoming_max_connection_count: Some(v), ..self }
    }

    /// This value with `serviceRestIncomingMaxConnectionCount` absent.
    pub open spec fn without_service_rest_incoming_max_connection_count(self) -> MsgVpnView {
        MsgVpnView { service_rest_incoming_max_connection_count: None, ..self }
    }

    /// This value with `serviceRestIncomingPlainTextEnabled` present and equal to `v`.
    pub open spec fn with_service_rest_incoming_plain_text_enabled(self, v: bool) -> MsgVpnView {
        MsgVpnView { service_rest_incoming_plain_text_enabled: Some(v), ..self }
    }

    /// This value with `serviceRestIncomingPlainTextEnabled` absent.
    pub open spec fn without_service_rest_incoming_plain_text_enabled(self) -> MsgVpnView {
        MsgVpnView { service_rest_incoming_plain_text_enabled: None, ..self }
    }

    /// This value with `serviceRestIncomingPlainTextListenPort` present and equal to `v`.
    pub open spec fn with_service_rest_incoming_plain_text_listen_port(self, v: i64) -> MsgVpnView {
        MsgVpnView { service_rest_incoming_plain_text_listen_port: Some(v), ..self }
    }

    /// This value with `serviceRestIncomingPlainTextListenPort` absent.
    pub open spec fn without_service_rest_incoming_plain_text_listen_port(self) -> MsgVpnView {
        MsgVpnView { service_rest_incoming_plain_text_listen_port: None, ..self }
    }

    /// This value with `serviceRestIncomingTlsEnabled` present and equal to `v`.
    pub open spec fn with_service_rest_incoming_tls_enabled(self, v: bool) -> MsgVpnView {
        MsgVpnView { service_rest_incoming_tls_enabled: Some(v), ..self }
    }

    /// This value with `serviceRestIncomingTlsEnabled` absent.
    pub open spec fn without_service_rest_incoming_tls_enabled(self) -> MsgVpnView {
        MsgVpnView { service_rest_incoming_tls_enabled: None, ..self }
    }

    /// This value with `serviceRestIncomingTlsListenPort` present and equal to `v`.
    pub open spec fn with_service_rest_incoming_tls_listen_port(self, v: i64) -> MsgVpnView {
        MsgVpnView { service_rest_incoming_tls_listen_port: Some(v), ..self }
    }

    /// This value with `serviceRestIncomingTlsListenPort` absent.
    pub open spec fn without_service_rest_incoming_tls_listen_port(self) -> MsgVpnView {
        MsgVpnView { service_rest_incoming_tls_listen_port: None, ..self }
    }

    /// This value with `serviceRestMode` present and equal to `v`.
    pub open spec fn with_service_rest_mode(self, v: Seq<char>) -> MsgVpnView {
        MsgVpnView { service_rest_mode: Some(v), ..self }
    }

    /// This value with `serviceRestMode` absent.
    pub open spec fn without_service_rest_mode(self) -> MsgVpnView {
        MsgVpnView { service_rest_mode: None, ..self }
    }

    /// This value with `serviceRestOutgoingMaxConnectionCount` present and equal to `v`.
    pub open spec fn with_service_rest_outgoing_max_connection_count(self, v: i64) -> MsgVpnView {
        MsgVpnView { service_rest_outgoing_max_connection_count: Some(v), ..self }
    }

    /// This value with `serviceRestOutgoingMaxConnectionCount` absent.
    pub open spec fn without_service_rest_outgoing_max_connection_count(self) -> MsgVpnView {
        MsgVpnView { service_rest_outgoing_max_connection_count: None, ..self }
    }

    /// This value with `serviceSmfMaxConnectionCount` present and equal to `v`.
    pub open spec fn with_service_smf_max_connection_count(self, v: i64) -> MsgVpnView {
        MsgVpnView { service_smf_max_connection_count: Some(v), ..self }
    }

    /// This value with `serviceSmfMaxConnectionCount` absent.
    pub open spec fn without_service_smf_max_connection_count(self) -> MsgVpnView {
        MsgVpnView { service_smf_max_connection_count: None, ..self }
    }

    /// This value with `serviceSmfPlainTextEnabled` present and equal to `v`.
    pub open spec fn with_service_smf_plain_text_enabled(self, v: bool) -> MsgVpnView {
        MsgVpnView { service_smf_plain_text_enabled: Some(v), ..self }
    }

    /// This value with `serviceSmfPlainTextEnabled` absent.
    pub open spec fn without_service_smf_plain_text_enabled(self) -> MsgVpnView {
        MsgVpnView { service_smf_plain_text_enabled: None, ..self }
    }

    /// This value with `serviceSmfTlsEnabled` present and equal to `v`.
    pub open spec fn with_service_smf_tls_enabled(self, v: bool) -> MsgVpnView {
        MsgVpnView { service_smf_tls_enabled: Some(v), ..self }
    }

    /// This value with `serviceSmfTlsEnabled` absent.
    pub open spec fn without_service_smf_tls_enabled(self) -> MsgVpnView {
        MsgVpnView { service_smf_tls_enabled: None, ..self }
    }

    /// This value with `serviceWebMaxConnectionCount` present and equal to `v`.
    pub open spec fn with_service_web_max_connection_count(self, v: i64) -> MsgVpnView {
        MsgVpnView { service_web_max_connection_count: Some(v), ..self }
    }

    /// This value with `serviceWebMaxConnectionCount` absent.
    pub open spec fn without_service_web_max_connection_count(self) -> MsgVpnView {
        MsgVpnView { service_web_max_connection_count: None, ..self }
    }

    /// This value with `serviceWebPlainTextEnabled` present and equal to `v`.
    pub open spec fn with_service_web_plain_text_enabled(self, v: bool) -> MsgVpnView {
        MsgVpnView { service_web_plain_text_enabled: Some(v), ..self }
    }

    /// This value with `serviceWebPlainTextEnabled` absent.
    pub open spec fn without_service_web_plain_text_enabled(self) -> MsgVpnView {
        MsgVpnView { service_web_plain_text_enabled: None, ..self }
    }

    /// This value with `serviceWebTlsEnabled` present and equal to `v`.
    pub open spec fn with_service_web_tls_enabled(self, v: bool) -> MsgVpnView {
        MsgVpnView { service_web_tls_enabled: Some(v), ..self }
    }

    /// This value with `serviceWebTlsEnabled` absent.
    pub open spec fn without_service_web_tls_enabled(self) -> MsgVpnView {
        MsgVpnView { service_web_tls_enabled: None, ..self }
    }

    /// This value with `tlsAllowDowngradeToPlainTextEnabled` present and equal to `v`.
    pub open spec fn with_tls_allow_downgrade_to_plain_text_enabled(self, v: bool) -> MsgVpnView {
        MsgVpnView { tls_allow_downgrade_to_plain_text_enabled: Some(v), ..self }
    }

    /// This value with `tlsAllowDowngradeToPlainTextEnabled` absent.
    pub open spec fn without_tls_allow_downgrade_to_plain_text_enabled(self) -> MsgVpnView {
        MsgVpnView { tls_allow_downgrade_to_plain_text_enabled: None, ..self }
    }
}

impl View for MsgVpn {
    type V = MsgVpnView;

    closed spec fn view(&self) -> MsgVpnView {
        MsgVpnView {
            authentication_basic_enabled: self.authentication_basic_enabled.deep_view(),
            authentication_basic_profile_name: self.authentication_basic_profile_name.deep_view(),
            authentication_basic_radius_domain: self.authentication_basic_radius_domain.deep_view(),
            authentication_basic_type: self.authentication_basic_type.deep_view(),
            authentication_client_cert_allow_api_provided_username_enabled: self.authentication_client_cert_allow_api_provided_username_enabled.deep_view(),
            authentication_client_cert_enabled: self.authentication_client_cert_enabled.deep_view(),
            authentication_client_cert_max_chain_depth: self.authentication_client_cert_max_chain_depth.deep_view(),
            authentication_client_cert_revocation_check_mode: self.authentication_client_cert_revocation_check_mode.deep_view(),
            authentication_client_cert_username_source: self.authentication_client_cert_username_source.deep_view(),
            authentication_client_cert_validate_date_enabled: self.authentication_client_cert_validate_date_enabled.deep_view(),
            authentication_kerberos_allow_api_provided_username_enabled: self.authentication_kerberos_allow_api_provided_username_enabled.deep_view(),
            authentication_kerberos_enabled: self.authentication_kerberos_enabled.deep_view(),
            authorization_ldap_group_membership_attribute_name: self.authorization_ldap_group_membership_attribute_name.deep_view(),
            authorization_profile_name: self.authorization_profile_name.deep_view(),
            authorization_type: self.authorization_type.deep_view(),
            bridging_tls_server_cert_enforce_trusted_common_name_enabled: self.bridging_tls_server_cert_enforce_trusted_common_name_enabled.deep_view(),
            bridging_tls_server_cert_max_chain_depth: self.bridging_tls_server_cert_max_chain_depth.deep_view(),
            bridging_tls_server_cert_validate_date_enabled: self.bridging_tls_server_cert_validate_date_enabled.deep_view(),
            distributed_cache_management_enabled: self.distributed_cache_management_enabled.deep_view(),
            enabled: self.enabled.deep_view(),
            event_connection_count_threshold: self.event_connection_count_threshold.deep_view(),
            event_egress_flow_count_threshold: self.event_egress_flow_count_threshold.deep_view(),
            event_egress_msg_rate_threshold: self.event_egress_msg_rate_threshold.deep_view(),
            event_endpoint_count_threshold: self.event_endpoint_count_threshold.deep_view(),
            event_ingress_flow_count_threshold: self.event_ingress_flow_count_threshold.deep_view(),
            event_ingress_msg_rate_threshold: self.event_ingress_msg_rate_threshold.deep_view(),
            event_large_msg_threshold: self.event_large_msg_threshold.deep_view(),
            event_log_tag: self.event_log_tag.deep_view(),
            event_msg_spool_usage_threshold: self.event_msg_spool_usage_threshold.deep_view(),
            event_publish_client_enabled: self.event_publish_client_enabled.deep_view(),
            event_publish_msg_vpn_enabled: self.event_publish_msg_vpn_enabled.deep_view(),
            event_publish_subscription_mode: self.event_publish_subscription_mode.deep_view(),
            event_publish_topic_format_mqtt_enabled: self.event_publish_topic_format_mqtt_enabled.deep_view(),
            event_publish_topic_format_smf_enabled: self.event_publish_topic_format_smf_enabled.deep_view(),
            event_service_amqp_connection_count_threshold: self.event_service_amqp_connection_count_threshold.deep_view(),
            event_service_mqtt_connection_count_threshold: self.event_service_mqtt_connection_count_threshold.deep_view(),
            event_service_rest_incoming_connection_count_threshold: self.event_service_rest_incoming_connection_count_threshold.deep_view(),
            event_service_smf_connection_count_threshold: self.event_service_smf_connection_count_threshold.deep_view(),
            event_service_web_connection_count_threshold: self.event_service_web_connection_count_threshold.deep_view(),
            event_subscription_count_threshold: self.event_subscription_count_threshold.deep_view(),
            event_transacted_session_count_threshold: self.event_transacted_session_count_threshold.deep_view(),
            event_transaction_count_threshold: self.event_transaction_count_threshold.deep_view(),
            export_subscriptions_enabled: self.export_subscriptions_enabled.deep_view(),
            jndi_enabled: self.jndi_enabled.deep_view(),
            max_connection_count: self.max_connection_count.deep_view(),
            max_egress_flow_count: self.max_egress_flow_count.deep_view(),
            max_endpoint_count: self.max_endpoint_count.deep_view(),
            max_ingress_flow_count: self.max_ingress_flow_count.deep_view(),
            max_msg_spool_usage: self.max_msg_spool_usage.deep_view(),
            max_subscription_count: self.max_subscription_count.deep_view(),
            max_transacted_session_count: self.max_transacted_session_count.deep_view(),
            max_transaction_count: self.max_transaction_count.deep_view(),
            msg_vpn_name: self.msg_vpn_name.deep_view(),
            replication_ack_propagation_interval_msg_count: self.replication_ack_propagation_interval_msg_count.deep_view(),
            replication_bridge_authentication_basic_client_username: self.replication_bridge_authentication_basic_client_username.deep_view(),
            replication_bridge_authentication_basic_password: self.replication_bridge_authentication_basic_password.deep_view(),
            replication_bridge_authentication_client_cert_content: self.replication_bridge_authentication_client_cert_content.deep_view(),
            replication_bridge_authentication_client_cert_password: self.replication_bridge_authentication_client_cert_password.deep_view(),
            replication_bridge_authentication_scheme: self.replication_bridge_authentication_scheme.deep_view(),
            replication_bridge_compressed_data_enabled: self.replication_bridge_compressed_data_enabled.deep_view(),
            replication_bridge_egress_flow_window_size: self.replication_bridge_egress_flow_window_size.deep_view(),
            replication_bridge_retry_delay: self.replication_bridge_retry_delay.deep_view(),
            replication_bridge_tls_enabled: self.replication_bridge_tls_enabled.deep_view(),
            replication_bridge_unidirectional_client_profile_name: self.replication_bridge_unidirectional_client_profile_name.deep_view(),
            replication_enabled: self.replication_enabled.deep_view(),
            replication_enabled_queue_behavior: self.replication_enabled_queue_behavior.deep_view(),
            replication_queue_max_msg_spool_usage: self.replication_queue_max_msg_spool_usage.deep_view(),
            replication_queue_reject_msg_to_sender_on_discard_enabled: self.replication_queue_reject_msg_to_sender_on_discard_enabled.deep_view(),
            replication_reject_msg_when_sync_ineligible_enabled: self.replication_reject_msg_when_sync_ineligible_enabled.deep_view(),
            replication_role: self.replication_role.deep_view(),
            replication_transaction_mode: self.replication_transaction_mode.deep_view(),
            rest_tls_server_cert_enforce_trusted_common_name_enabled: self.rest_tls_server_cert_enforce_trusted_common_name_enabled.deep_view(),
            rest_tls_server_cert_max_chain_depth: self.rest_tls_server_cert_max_chain_depth.deep_view(),
            rest_tls_server_cert_validate_date_enabled: self.rest_tls_server_cert_validate_date_enabled.deep_view(),
            semp_over_msg_bus_admin_client_enabled: self.semp_over_msg_bus_admin_client_enabled.deep_view(),
            semp_over_msg_bus_admin_distributed_cache_enabled: self.semp_over_msg_bus_admin_distributed_cache_enabled.deep_view(),
            semp_over_msg_bus_admin_enabled: self.semp_over_msg_bus_admin_enabled.deep_view(),
            semp_over_msg_bus_enabled: self.semp_over_msg_bus_enabled.deep_view(),
            semp_over_msg_bus_show_enabled: self.semp_over_msg_bus_show_enabled.deep_view(),
            service_amqp_max_connection_count: self.service_amqp_max_connection_count.deep_view(),
            service_amqp_plain_text_enabled: self.service_amqp_plain_text_enabled.deep_view(),
            service_amqp_plain_text_listen_port: self.service_amqp_plain_text_listen_port.deep_view(),
            service_amqp_tls_enabled: self.service_amqp_tls_enabled.deep_view(),
            service_amqp_tls_listen_port: self.service_amqp_tls_listen_port.deep_view(),
            service_mqtt_max_connection_count: self.service_mqtt_max_connection_count.deep_view(),
            service_mqtt_plain_text_enabled: self.service_mqtt_plain_text_enabled.deep_view(),
            service_mqtt_plain_text_listen_port: self.service_mqtt_plain_text_listen_port.deep_view(),
            service_mqtt_tls_enabled: self.service_mqtt_tls_enabled.deep_view(),
            service_mqtt_tls_listen_port: self.service_mqtt_tls_listen_port.deep_view(),
            service_mqtt_tls_web_socket_enabled: self.service_mqtt_tls_web_socket_enabled.deep_view(),
            service_mqtt_tls_web_socket_listen_port: self.service_mqtt_tls_web_socket_listen_port.deep_view(),
            service_mqtt_web_socket_enabled: self.service_mqtt_web_socket_enabled.deep_view(),
            service_mqtt_web_socket_listen_port: self.service_mqtt_web_socket_listen_port.deep_view(),
            service_rest_incoming_max_connection_count: self.service_rest_incoming_max_connection_count.deep_view(),
            service_rest_incoming_plain_text_enabled: self.service_rest_incoming_plain_text_enabled.deep_view(),
            service_rest_incoming_plain_text_listen_port: self.service_rest_incoming_plain_text_listen_port.deep_view(),
            service_rest_incoming_tls_enabled: self.service_rest_incoming_tls_enabled.deep_view(),
            service_rest_incoming_tls_listen_port: self.service_rest_incoming_tls_listen_port.deep_view(),
            service_rest_mode: self.service_rest_mode.deep_view(),
            service_rest_outgoing_max_connection_count: self.service_rest_outgoing_max_connection_count.deep_view(),
            service_smf_max_connection_count: self.service_smf_max_connection_count.deep_view(),
            service_smf_plain_text_enabled: self.service_smf_plain_text_enabled.deep_view(),
            service_smf_tls_enabled: self.service_smf_tls_enabled.deep_view(),
            service_web_max_connection_count: self.service_web_max_connection_count.deep_view(),
            service_web_plain_text_enabled: self.service_web_plain_text_enabled.deep_view(),
            service_web_tls_enabled: self.service_web_tls_enabled.deep_view(),
            tls_allow_downgrade_to_plain_text_enabled: self.tls_allow_downgrade_to_plain_text_enabled.deep_view(),
        }
    }
}

impl MsgVpn {
    /// Returns a value with every attribute absent.
    pub fn new() -> (r: MsgVpn)
        ensures
            r@ == MsgVpnView::empty(),
    {
        MsgVpn {
            authentication_basic_enabled: None,
            authentication_basic_profile_name: None,
            authentication_basic_radius_domain: None,
            authentication_basic_type: None,
            authentication_client_cert_allow_api_provided_username_enabled: None,
            authentication_client_cert_enabled: None,
            authentication_client_cert_max_chain_depth: None,
            authentication_client_cert_revocation_check_mode: None,
            authentication_client_cert_username_source: None,
            authentication_client_cert_validate_date_enabled: None,
            authentication_kerberos_allow_api_provided_username_enabled: None,
            authentication_kerberos_enabled: None,
            authorization_ldap_group_membership_attribute_name: None,
            authorization_profile_name: None,
            authorization_type: None,
            bridging_tls_server_cert_enforce_trusted_common_name_enabled: None,
            bridging_tls_server_cert_max_chain_depth: None,
            bridging_tls_server_cert_validate_date_enabled: None,
            distributed_cache_management_enabled: None,
            enabled: None,
            event_connection_count_threshold: None,
            event_egress_flow_count_threshold: None,
            event_egress_msg_rate_threshold: None,
            event_endpoint_count_threshold: None,
            event_ingress_flow_count_threshold: None,
            event_ingress_msg_rate_threshold: None,
            event_large_msg_threshold: None,
            event_log_tag: None,
            event_msg_spool_usage_threshold: None,
            event_publish_client_enabled: None,
            event_publish_msg_vpn_enabled: None,
            event_publish_subscription_mode: None,
            event_publish_topic_format_mqtt_enabled: None,
            event_publish_topic_format_smf_enabled: None,
            event_service_amqp_connection_count_threshold: None,
            event_service_mqtt_connection_count_threshold: None,
            event_service_rest_incoming_connection_count_threshold: None,
            event_service_smf_connection_count_threshold: None,
            event_service_web_connection_count_threshold: None,
            event_subscription_count_threshold: None,
            event_transacted_session_count_threshold: None,
            event_transaction_count_threshold: None,
            export_subscriptions_enabled: None,
            jndi_enabled: None,
            max_connection_count: None,
            max_egress_flow_count: None,
            max_endpoint_count: None,
            max_ingress_flow_count: None,
            max_msg_spool_usage: None,
            max_subscription_count: None,
            max_transacted_session_count: None,
            max_transaction_count: None,
            msg_vpn_name: None,
            replication_ack_propagation_interval_msg_count: None,
            replication_bridge_authentication_basic_client_username: None,
            replication_bridge_authentication_basic_password: None,
            replication_bridge_authentication_client_cert_content: None,
            replication_bridge_authentication_client_cert_password: None,
            replication_bridge_authentication_scheme: None,
            replication_bridge_compressed_data_enabled: None,
            replication_bridge_egress_flow_window_size: None,
            replication_bridge_retry_delay: None,
            replication_bridge_tls_enabled: None,
            replication_bridge_unidirectional_client_profile_name: None,
            replication_enabled: None,
            replication_enabled_queue_behavior: None,
            replication_queue_max_msg_spool_usage: None,
            replication_queue_reject_msg_to_sender_on_discard_enabled: None,
            replication_reject_msg_when_sync_ineligible_enabled: None,
            replication_role: None,
            replication_transaction_mode: None,
            rest_tls_server_cert_enforce_trusted_common_name_enabled: None,
            rest_tls_server_cert_max_chain_depth: None,
            rest_tls_server_cert_validate_date_enabled: None,
            semp_over_msg_bus_admin_client_enabled: None,
            semp_over_msg_bus_admin_distributed_cache_enabled: None,
            semp_over_msg_bus_admin_enabled: None,
            semp_over_msg_bus_enabled: None,
            semp_over_msg_bus_show_enabled: None,
            service_amqp_max_connection_count: None,
            service_amqp_plain_text_enabled: None,
            service_amqp_plain_text_listen_port: None,
            service_amqp_tls_enabled: None,
            service_amqp_tls_listen_port: None,
            service_mqtt_max_connection_count: None,
            service_mqtt_plain_text_enabled: None,
            service_mqtt_plain_text_listen_port: None,
            service_mqtt_tls_enabled: None,
            service_mqtt_tls_listen_port: None,
            service_mqtt_tls_web_socket_enabled: None,
            service_mqtt_tls_web_socket_listen_port: None,
            service_mqtt_web_socket_enabled: None,
            service_mqtt_web_socket_listen_port: None,
            service_rest_incoming_max_connection_count: None,
            service_rest_incoming_plain_text_enabled: None,
            service_rest_incoming_plain_text_listen_port: None,
            service_rest_incoming_tls_enabled: None,
            service_rest_incoming_tls_listen_port: None,
            service_rest_mode: None,
            service_rest_outgoing_max_connection_count: None,
            service_smf_max_connection_count: None,
            service_smf_plain_text_enabled: None,
            service_smf_tls_enabled: None,
            service_web_max_connection_count: None,
            service_web_plain_text_enabled: None,
            service_web_tls_enabled: None,
            tls_allow_downgrade_to_plain_text_enabled: None,
        }
    }

    /// Sets `authenticationBasicEnabled` to the given value; every other attribute is left as it was.
    pub fn set_authentication_basic_enabled(&mut self, authentication_basic_enabled: bool)
        ensures
            final(self)@ == old(self)@.with_authentication_basic_enabled(authentication_basic_enabled),
    {
        self.authentication_basic_enabled = Some(authentication_basic_enabled);
    }

    /// Returns this value with `authenticationBasicEnabled` set to the given value.
    pub fn with_authentication_basic_enabled(self, authentication_basic_enabled: bool) -> (r: MsgVpn)
        ensures
            r@ == self@.with_authentication_basic_enabled(authentication_basic_enabled),
    {
        let mut r = self;
        r.authentication_basic_enabled = Some(authentication_basic_enabled);
        r
    }

    /// Returns `authenticationBasicEnabled` if it is present.
    pub fn authentication_basic_enabled(&self) -> (r: Option<&bool>)
        ensures
            r.deep_view() == self@.authentication_basic_enabled,
    {
        self.authentication_basic_enabled.as_ref()
    }

    /// Removes `authenticationBasicEnabled`; every other attribute is left as it was.
    pub fn reset_authentication_basic_enabled(&mut self)
        ensures
            final(self)@ == old(self)@.without_authentication_basic_enabled(),
    {
        self.authentication_basic_enabled = None;
    }

    /// Sets `authenticationBasicProfileName` to the given value; every other attribute is left as it was.
    pub fn set_authentication_basic_profile_name(&mut self, authentication_basic_profile_name: String)
        ensures
            final(self)@ == old(self)@.with_authentication_basic_profile_name(authentication_basic_profile_name@),
    {
        self.authentication_basic_profile_name = Some(authentication_basic_profile_name);
    }

    /// Returns this value with `authenticationBasicProfileName` set to the given value.
    pub fn with_authentication_basic_profile_name(self, authentication_basic_profile_name: String) -> (r: MsgVpn)
        ensures
            r@ == self@.with_authentication_basic_profile_name(authentication_basic_profile_name@),
    {
        let mut r = self;
        r.authentication_basic_profile_name = Some(authentication_basic_profile_name);
        r
    }

    /// Returns `authenticationBasicProfileName` if it is present.
    pub fn authentication_basic_profile_name(&self) -> (r: Option<&String>)
        ensures
            r.deep_view() == self@.authentication_basic_profile_name,
    {
        self.authentication_basic_profile_name.as_ref()
    }

    /// Removes `authenticationBasicProfileName`; every other attribute is left as it was.
    pub fn reset_authentication_basic_profile_name(&mut self)
        ensures
            final(self)@ == old(self)@.without_authentication_basic_profile_name(),
    {
        self.authentication_basic_profile_name = None;
    }

    /// Sets `authenticationBasicRadiusDomain` to the given value; every other attribute is left as it was.
    pub fn set_authentication_basic_radius_domain(&mut self, authentication_basic_radius_domain: String)
        ensures
            final(self)@ == old(self)@.with_authentication_basic_radius_domain(authentication_basic_radius_domain@),
    {
        self.authentication_basic_radius_domain = Some(authentication_basic_radius_domain);
    }

    /// Returns this value with `authenticationBasicRadiusDomain` set to the given value.
    pub fn with_authentication_basic_radius_domain(self, authentication_basic_radius_domain: String) -> (r: MsgVpn)
        ensures
            r@ == self@.with_authentication_basic_radius_domain(authentication_basic_radius_domain@),
    {
        let mut r = self;
        r.authentication_basic_radius_domain = Some(authentication_basic_radius_domain);
        r
    }

    /// Returns `authenticationBasicRadiusDomain` if it is present.
    pub fn authentication_basic_radius_domain(&self) -> (r: Option<&String>)
        ensures
            r.deep_view() == self@.authentication_basic_radius_domain,
    {
        self.authentication_basic_radius_domain.as_ref()
    }

    /// Removes `authenticationBasicRadiusDomain`; every other attribute is left as it was.
    pub fn reset_authentication_basic_radius_domain(&mut self)
        ensures
            final(self)@ == old(self)@.without_authentication_basic_radius_domain(),
    {
        self.authentication_basic_radius_domain = None;
    }

    /// Sets `authenticationBasicType` to the given value; every other attribute is left as it was.
    pub fn set_authentication_basic_type(&mut self, authentication_basic_type: String)
        ensures
            final(self)@ == old(self)@.with_authentication_basic_type(authentication_basic_type@),
    {
        self.authentication_basic_type = Some(authentication_basic_type);
    }

    /// Returns this value with `authenticationBasicType` set to the given value.
    pub fn with_authentication_basic_type(self, authentication_basic_type: String) -> (r: MsgVpn)
        ensures
            r@ == self@.with_authentication_basic_type(authentication_basic_type@),
    {
        let mut r = self;
        r.authentication_basic_type = Some(authentication_basic_type);
        r
    }

    /// Returns `authenticationBasicType` if it is present.
    pub fn authentication_basic_type(&self) -> (r: Option<&String>)
        ensures
            r.deep_view() == self@.authentication_basic_type,
    {
        self.authentication_basic_type.as_ref()
    }

    /// Removes `authenticationBasicType`; every other attribute is left as it was.
    pub fn reset_authentication_basic_type(&mut self)
        ensures
            final(self)@ == old(self)@.without_authentication_basic_type(),
    {
        self.authentication_basic_type = None;
    }

    /// Sets `authenticationClientCertAllowApiProvidedUsernameEnabled` to the given value; every other attribute is left as it was.
    pub fn set_authentication_client_cert_allow_api_provided_username_enabled(&mut self, authentication_client_cert_allow_api_provided_username_enabled: bool)
        ensures
            final(self)@ == old(self)@.with_authentication_client_cert_allow_api_provided_username_enabled(authentication_client_cert_allow_api_provided_username_enabled),
    {
        self.authentication_client_cert_allow_api_provided_username_enabled = Some(authentication_client_cert_allow_api_provided_username_enabled);
    }

    /// Returns this value with `authenticationClientCertAllowApiProvidedUsernameEnabled` set to the given value.
    pub fn with_authentication_client_cert_allow_api_provided_username_enabled(self, authentication_client_cert_allow_api_provided_username_enabled: bool) -> (r: MsgVpn)
        ensures
            r@ == self@.with_authentication_client_cert_allow_api_provided_username_enabled(authentication_client_cert_allow_api_provided_username_enabled),
    {
        let mut r = self;
        r.authentication_client_cert_allow_api_provided_username_enabled = Some(authentication_client_cert_allow_api_provided_username_enabled);
        r
    }

    /// Returns `authenticationClientCertAllowApiProvidedUsernameEnabled` if it is present.
    pub fn authentication_client_cert_allow_api_provided_username_enabled(&self) -> (r: Option<&bool>)
        ensures
            r.deep_view() == self@.authentication_client_cert_allow_api_provided_username_enabled,
    {
        self.authentication_client_cert_allow_api_provided_username_enabled.as_ref()
    }

    /// Removes `authenticationClientCertAllowApiProvidedUsernameEnabled`; every other attribute is left as it was.
    pub fn reset_authentication_client_cert_allow_api_provided_username_enabled(&mut self)
        ensures
            final(self)@ == old(self)@.without_authentication_client_cert_allow_api_provided_username_enabled(),
    {
        self.authentication_client_cert_allow_api_provided_username_enabled = None;
    }

    /// Sets `authenticationClientCertEnabled` to the given value; every other attribute is left as it was.
    pub fn set_authentication_client_cert_enabled(&mut self, authentication_client_cert_enabled: bool)
        ensures
            final(self)@ == old(self)@.with_authentication_client_cert_enabled(authentication_client_cert_enabled),
    {
        self.authentication_client_cert_enabled = Some(authentication_client_cert_enabled);
    }

    /// Returns this value with `authenticationClientCertEnabled` set to the given value.
    pub fn with_authentication_client_cert_enabled(self, authentication_client_cert_enabled: bool) -> (r: MsgVpn)
        ensures
            r@ == self@.with_authentication_client_cert_enabled(authentication_client_cert_enabled),
    {
        let mut r = self;
        r.authentication_client_cert_enabled = Some(authentication_client_cert_enabled);
        r
    }

    /// Returns `authenticationClientCertEnabled` if it is present.
    pub fn authentication_client_cert_enabled(&self) -> (r: Option<&bool>)
        ensures
            r.deep_view() == self@.authentication_client_cert_enabled,
    {
        self.authentication_client_cert_enabled.as_ref()
    }

    /// Removes `authenticationClientCertEnabled`; every other attribute is left as it was.
    pub fn reset_authentication_client_cert_enabled(&mut self)
        ensures
            final(self)@ == old(self)@.without_authentication_client_cert_enabled(),
    {
        self.authentication_client_cert_enabled = None;
    }

    /// Sets `authenticationClientCertMaxChainDepth` to the given value; every other attribute is left as it was.
    pub fn set_authentication_client_cert_max_chain_depth(&mut self, authentication_client_cert_max_chain_depth: i64)
        ensures
            final(self)@ == old(self)@.with_authentication_client_cert_max_chain_depth(authentication_client_cert_max_chain_depth),
    {
        self.authentication_client_cert_max_chain_depth = Some(authentication_client_cert_max_chain_depth);
    }

    /// Returns this value with `authenticationClientCertMaxChainDepth` set to the given value.
    pub fn with_authentication_client_cert_max_chain_depth(self, authentication_client_cert_max_chain_depth: i64) -> (r: MsgVpn)
        ensures
            r@ == self@.with_authentication_client_cert_max_chain_depth(authentication_client_cert_max_chain_depth),
    {
        let mut r = self;
        r.authentication_client_cert_max_chain_depth = Some(authentication_client_cert_max_chain_depth);
        r
    }

    /// Returns `authenticationClientCertMaxChainDepth` if it is present.
    pub fn authentication_client_cert_max_chain_depth(&self) -> (r: Option<&i64>)
        ensures
            r.deep_view() == self@.authentication_client_cert_max_chain_depth,
    {
        self.authentication_client_cert_max_chain_depth.as_ref()
    }

    /// Removes `authenticationClientCertMaxChainDepth`; every other attribute is left as it was.
    pub fn reset_authentication_client_cert_max_chain_depth(&mut self)
        ensures
            final(self)@ == old(self)@.without_authentication_client_cert_max_chain_depth(),
    {
        self.authentication_client_cert_max_chain_depth = None;
    }

    /// Sets `authenticationClientCertRevocationCheckMode` to the given value; every other attribute is left as it was.
    pub fn set_authentication_client_cert_revocation_check_mode(&mut self, authentication_client_cert_revocation_check_mode: String)
        ensures
            final(self)@ == old(self)@.with_authentication_client_cert_revocation_check_mode(authentication_client_cert_revocation_check_mode@),
    {
        self.authentication_client_cert_revocation_check_mode = Some(authentication_client_cert_revocation_check_mode);
    }

    /// Returns this value with `authenticationClientCertRevocationCheckMode` set to the given value.
    pub fn with_authentication_client_cert_revocation_check_mode(self, authentication_client_cert_revocation_check_mode: String) -> (r: MsgVpn)
        ensures
            r@ == self@.with_authentication_client_cert_revocation_check_mode(authentication_client_cert_revocation_check_mode@),
    {
        let mut r = self;
        r.authentication_client_cert_revocation_check_mode = Some(authentication_client_cert_revocation_check_mode);
        r
    }

    /// Returns `authenticationClientCertRevocationCheckMode` if it is present.
    pub fn authentication_client_cert_revocation_check_mode(&self) -> (r: Option<&String>)
        ensures
            r.deep_view() == self@.authentication_client_cert_revocation_check_mode,
    {
        self.authentication_client_cert_revocation_check_mode.as_ref()
    }

    /// Removes `authenticationClientCertRevocationCheckMode`; every other attribute is left as it was.
    pub fn reset_authentication_client_cert_revocation_check_mode(&mut self)
        ensures
            final(self)@ == old(self)@.without_authentication_client_cert_revocation_check_mode(),
    {
        self.authentication_client_cert_revocation_check_mode = None;
    }

    /// Sets `authenticationClientCertUsernameSource` to the given value; every other attribute is left as it was.
    pub fn set_authentication_client_cert_username_source(&mut self, authentication_client_cert_username_source: String)
        ensures
            final(self)@ == old(self)@.with_authentication_client_cert_username_source(authentication_client_cert_username_source@),
    {
        self.authentication_client_cert_username_source = Some(authentication_client_cert_username_source);
    }

    /// Returns this value with `authenticationClientCertUsernameSource` set to the given value.
    pub fn with_authentication_client_cert_username_source(self, authentication_client_cert_username_source: String) -> (r: MsgVpn)
        ensures
            r@ == self@.with_authentication_client_cert_username_source(authentication_client_cert_username_source@),
    {
        let mut r = self;
        r.authentication_client_cert_username_source = Some(authentication_client_cert_username_source);
        r
    }

    /// Returns `authenticationClientCertUsernameSource` if it is present.
    pub fn authentication_client_cert_username_source(&self) -> (r: Option<&String>)
        ensures
            r.deep_view() == self@.authentication_client_cert_username_source,
    {
        self.authentication_client_cert_username_source.as_ref()
    }

    /// Removes `authenticationClientCertUsernameSource`; every other attribute is left as it was.
    pub fn reset_authentication_client_cert_username_source(&mut self)
        ensures
            final(self)@ == old(self)@.without_authentication_client_cert_username_source(),
    {
        self.authentication_client_cert_username_source = None;
    }

    /// Sets `authenticationClientCertValidateDateEnabled` to the given value; every other attribute is left as it was.
    pub fn set_authentication_client_cert_validate_date_enabled(&mut self, authentication_client_cert_validate_date_enabled: bool)
        ensures
            final(self)@ == old(self)@.with_authentication_client_cert_validate_date_enabled(authentication_client_cert_validate_date_enabled),
    {
        self.authentication_client_cert_validate_date_enabled = Some(authentication_client_cert_validate_date_enabled);
    }

    /// Returns this value with `authenticationClientCertValidateDateEnabled` set to the given value.
    pub fn with_authentication_client_cert_validate_date_enabled(self, authentication_client_cert_validate_date_enabled: bool) -> (r: MsgVpn)
        ensures
            r@ == self@.with_authentication_client_cert_validate_date_enabled(authentication_client_cert_validate_date_enabled),
    {
        let mut r = self;
        r.authentication_client_cert_validate_date_enabled = Some(authentication_client_cert_validate_date_enabled);
        r
    }

    /// Returns `authenticationClientCertValidateDateEnabled` if it is present.
    pub fn authentication_client_cert_validate_date_enabled(&self) -> (r: Option<&bool>)
        ensures
            r.deep_view() == self@.authentication_client_cert_validate_date_enabled,
    {
        self.authentication_client_cert_validate_date_enabled.as_ref()
    }

    /// Removes `authenticationClientCertValidateDateEnabled`; every other attribute is left as it was.
    pub fn reset_authentication_client_cert_validate_date_enabled(&mut self)
        ensures
            final(self)@ == old(self)@.without_authentication_client_cert_validate_date_enabled(),
    {
        self.authentication_client_cert_validate_date_enabled = None;
    }

    /// Sets `authenticationKerberosAllowApiProvidedUsernameEnabled` to the given value; every other attribute is left as it was.
    pub fn set_authentication_kerberos_allow_api_provided_username_enabled(&mut self, authentication_kerberos_allow_api_provided_username_enabled: bool)
        ensures
            final(self)@ == old(self)@.with_authentication_kerberos_allow_api_provided_username_enabled(authentication_kerberos_allow_api_provided_username_enabled),
    {
        self.authentication_kerberos_allow_api_provided_username_enabled = Some(authentication_kerberos_allow_api_provided_username_enabled);
    }

    /// Returns this value with `authenticationKerberosAllowApiProvidedUsernameEnabled` set to the given value.
    pub fn with_authentication_kerberos_allow_api_provided_username_enabled(self, authentication_kerberos_allow_api_provided_username_enabled: bool) -> (r: MsgVpn)
        ensures
            r@ == self@.with_authentication_kerberos_allow_api_provided_username_enabled(authentication_kerberos_allow_api_provided_username_enabled),
    {
        let mut r = self;
        r.authentication_kerberos_allow_api_provided_username_enabled = Some(authentication_kerberos_allow_api_provided_username_enabled);
        r
    }

    /// Returns `authenticationKerberosAllowApiProvidedUsernameEnabled` if it is present.
    pub fn authentication_kerberos_allow_api_provided_username_enabled(&self) -> (r: Option<&bool>)
        ensures
            r.deep_view() == self@.authentication_kerberos_allow_api_provided_username_enabled,
    {
        self.authentication_kerberos_allow_api_provided_username_enabled.as_ref()
    }

    /// Removes `authenticationKerberosAllowApiProvidedUsernameEnabled`; every other attribute is left as it was.
    pub fn reset_authentication_kerberos_allow_api_provided_username_enabled(&mut self)
        ensures
            final(self)@ == old(self)@.without_authentication_kerberos_allow_api_provided_username_enabled(),
    {
        self.authentication_kerberos_allow_api_provided_username_enabled = None;
    }

    /// Sets `authenticationKerberosEnabled` to the given value; every other attribute is left as it was.
    pub fn set_authentication_kerberos_enabled(&mut self, authentication_kerberos_enabled: bool)
        ensures
            final(self)@ == old(self)@.with_authentication_kerberos_enabled(authentication_kerberos_enabled),
    {
        self.authentication_kerberos_enabled = Some(authentication_kerberos_enabled);
    }

    /// Returns this value with `authenticationKerberosEnabled` set to the given value.
    pub fn with_authentication_kerberos_enabled(self, authentication_kerberos_enabled: bool) -> (r: MsgVpn)
        ensures
            r@ == self@.with_authentication_kerberos_enabled(authentication_kerberos_enabled),
    {
        let mut r = self;
        r.authentication_kerberos_enabled = Some(authentication_kerberos_enabled);
        r
    }

    /// Returns `authenticationKerberosEnabled` if it is present.
    pub fn authentication_kerberos_enabled(&self) -> (r: Option<&bool>)
        ensures
            r.deep_view() == self@.authentication_kerberos_enabled,
    {
        self.authentication_kerberos_enabled.as_ref()
    }

    /// Removes `authenticationKerberosEnabled`; every other attribute is left as it was.
    pub fn reset_authentication_kerberos_enabled(&mut self)
        ensures
            final(self)@ == old(self)@.without_authentication_kerberos_enabled(),
    {
        self.authentication_kerberos_enabled = None;
    }

    /// Sets `authorizationLdapGroupMembershipAttributeName` to the given value; every other attribute is left as it was.
    pub fn set_authorization_ldap_group_membership_attribute_name(&mut self, authorization_ldap_group_membership_attribute_name: String)
        ensures
            final(self)@ == old(self)@.with_authorization_ldap_group_membership_attribute_name(authorization_ldap_group_membership_attribute_name@),
    {
        self.authorization_ldap_group_membership_attribute_name = Some(authorization_ldap_group_membership_attribute_name);
    }

    /// Returns this value with `authorizationLdapGroupMembershipAttributeName` set to the given value.
    pub fn with_authorization_ldap_group_membership_attribute_name(self, authorization_ldap_group_membership_attribute_name: String) -> (r: MsgVpn)
        ensures
            r@ == self@.with_authorization_ldap_group_membership_attribute_name(authorization_ldap_group_membership_attribute_name@),
    {
        let mut r = self;
        r.authorization_ldap_group_membership_attribute_name = Some(authorization_ldap_group_membership_attribute_name);
        r
    }

    /// Returns `authorizationLdapGroupMembershipAttributeName` if it is present.
    pub fn authorization_ldap_group_membership_attribute_name(&self) -> (r: Option<&String>)
        ensures
            r.deep_view() == self@.authorization_ldap_group_membership_attribute_name,
    {
        self.authorization_ldap_group_membership_attribute_name.as_ref()
    }

    /// Removes `authorizationLdapGroupMembershipAttributeName`; every other attribute is left as it was.
    pub fn reset_authorization_ldap_group_membership_attribute_name(&mut self)
        ensures
            final(self)@ == old(self)@.without_authorization_ldap_group_membership_attribute_name(),
    {
        self.authorization_ldap_group_membership_attribute_name = None;
    }

    /// Sets `authorizationProfileName` to the given value; every other attribute is left as it was.
    pub fn set_authorization_profile_name(&mut self, authorization_profile_name: String)
        ensures
            final(self)@ == old(self)@.with_authorization_profile_name(authorization_profile_name@),
    {
        self.authorization_profile_name = Some(authorization_profile_name);
    }

    /// Returns this value with `authorizationProfileName` set to the given value.
    pub fn with_authorization_profile_name(self, authorization_profile_name: String) -> (r: MsgVpn)
        ensures
            r@ == self@.with_authorization_profile_name(authorization_profile_name@),
    {
        let mut r = self;
        r.authorization_profile_name = Some(authorization_profile_name);
        r
    }

    /// Returns `authorizationProfileName` if it is present.
    pub fn authorization_profile_name(&self) -> (r: Option<&String>)
        ensures
            r.deep_view() == self@.authorization_profile_name,
    {
        self.authorization_profile_name.as_ref()
    }

    /// Removes `authorizationProfileName`; every other attribute is left as it was.
    pub fn reset_authorization_profile_name(&mut self)
        ensures
            final(self)@ == old(self)@.without_authorization_profile_name(),
    {
        self.authorization_profile_name = None;
    }

    /// Sets `authorizationType` to the given value; every other attribute is left as it was.
    pub fn set_authorization_type(&mut self, authorization_type: String)
        ensures
            final(self)@ == old(self)@.with_authorization_type(authorization_type@),
    {
        self.authorization_type = Some(authorization_type);
    }

    /// Returns this value with `authorizationType` set to the given value.
    pub fn with_authorization_type(self, authorization_type: String) -> (r: MsgVpn)
        ensures
            r@ == self@.with_authorization_type(authorization_type@),
    {
        let mut r = self;
        r.authorization_type = Some(authorization_type);
        r
    }

    /// Returns `authorizationType` if it is present.
    pub fn authorization_type(&self) -> (r: Option<&String>)
        ensures
            r.deep_view() == self@.authorization_type,
    {
        self.authorization_type.as_ref()
    }

    /// Removes `authorizationType`; every other attribute is left as it was.
    pub fn reset_authorization_type(&mut self)
        ensures
            final(self)@ == old(self)@.without_authorization_type(),
    {
        self.authorization_type = None;
    }

    /// Sets `bridgingTlsServerCertEnforceTrustedCommonNameEnabled` to the given value; every other attribute is left as it was.
    pub fn set_bridging_tls_server_cert_enforce_trusted_common_name_enabled(&mut self, bridging_tls_server_cert_enforce_trusted_common_name_enabled: bool)
        ensures
            final(self)@ == old(self)@.with_bridging_tls_server_cert_enforce_trusted_common_name_enabled(bridging_tls_server_cert_enforce_trusted_common_name_enabled),
    {
        self.bridging_tls_server_cert_enforce_trusted_common_name_enabled = Some(bridging_tls_server_cert_enforce_trusted_common_name_enabled);
    }

    /// Returns this value with `bridgingTlsServerCertEnforceTrustedCommonNameEnabled` set to the given value.
    pub fn with_bridging_tls_server_cert_enforce_trusted_common_name_enabled(self, bridging_tls_server_cert_enforce_trusted_common_name_enabled: bool) -> (r: MsgVpn)
        ensures
            r@ == self@.with_bridging_tls_server_cert_enforce_trusted_common_name_enabled(bridging_tls_server_cert_enforce_trusted_common_name_enabled),
    {
        let mut r = self;
        r.bridging_tls_server_cert_enforce_trusted_common_name_enabled = Some(bridging_tls_server_cert_enforce_trusted_common_name_enabled);
        r
    }

    /// Returns `bridgingTlsServerCertEnforceTrustedCommonNameEnabled` if it is present.
    pub fn bridging_tls_server_cert_enforce_trusted_common_name_enabled(&self) -> (r: Option<&bool>)
        ensures
            r.deep_view() == self@.bridging_tls_server_cert_enforce_trusted_common_name_enabled,
    {
        self.bridging_tls_server_cert_enforce_trusted_common_name_enabled.as_ref()
    }

    /// Removes `bridgingTlsServerCertEnforceTrustedCommonNameEnabled`; every other attribute is left as it was.
    pub fn reset_bridging_tls_server_cert_enforce_trusted_common_name_enabled(&mut self)
        ensures
            final(self)@ == old(self)@.without_bridging_tls_server_cert_enforce_trusted_common_name_enabled(),
    {
        self.bridging_tls_server_cert_enforce_trusted_common_name_enabled = None;
    }

    /// Sets `bridgingTlsServerCertMaxChainDepth` to the given value; every other attribute is left as it was.
    pub fn set_bridging_tls_server_cert_max_chain_depth(&mut self, bridging_tls_server_cert_max_chain_depth: i64)
        ensures
            final(self)@ == old(self)@.with_bridging_tls_server_cert_max_chain_depth(bridging_tls_server_cert_max_chain_depth),
    {
        self.bridging_tls_server_cert_max_chain_depth = Some(bridging_tls_server_cert_max_chain_depth);
    }

    /// Returns this value with `bridgingTlsServerCertMaxChainDepth` set to the given value.
    pub fn with_bridging_tls_server_cert_max_chain_depth(self, bridging_tls_server_cert_max_chain_depth: i64) -> (r: MsgVpn)
        ensures
            r@ == self@.with_bridging_tls_server_cert_max_chain_depth(bridging_tls_server_cert_max_chain_depth),
    {
        let mut r = self;
        r.bridging_tls_server_cert_max_chain_depth = Some(bridging_tls_server_cert_max_chain_depth);
        r
    }

    /// Returns `bridgingTlsServerCertMaxChainDepth` if it is present.
    pub fn bridging_tls_server_cert_max_chain_depth(&self) -> (r: Option<&i64>)
        ensures
            r.deep_view() == self@.bridging_tls_server_cert_max_chain_depth,
    {
        self.bridging_tls_server_cert_max_chain_depth.as_ref()
    }

    /// Removes `bridgingTlsServerCertMaxChainDepth`; every other attribute is left as it was.
    pub fn reset_bridging_tls_server_cert_max_chain_depth(&mut self)
        ensures
            final(self)@ == old(self)@.without_bridging_tls_server_cert_max_chain_depth(),
    {
        self.bridging_tls_server_cert_max_chain_depth = None;
    }

    /// Sets `bridgingTlsServerCertValidateDateEnabled` to the given value; every other attribute is left as it was.
    pub fn set_bridging_tls_server_cert_validate_date_enabled(&mut self, bridging_tls_server_cert_validate_date_enabled: bool)
        ensures
            final(self)@ == old(self)@.with_bridging_tls_server_cert_validate_date_enabled(bridging_tls_server_cert_validate_date_enabled),
    {
        self.bridging_tls_server_cert_validate_date_enabled = Some(bridging_tls_server_cert_validate_date_enabled);
    }

    /// Returns this value with `bridgingTlsServerCertValidateDateEnabled` set to the given value.
    pub fn with_bridging_tls_server_cert_validate_date_enabled(self, bridging_tls_server_cert_validate_date_enabled: bool) -> (r: MsgVpn)
        ensures
            r@ == self@.with_bridging_tls_server_cert_validate_date_enabled(bridging_tls_server_cert_validate_date_enabled),
    {
        let mut r = self;
        r.bridging_tls_server_cert_validate_date_enabled = Some(bridging_tls_server_cert_validate_date_enabled);
        r
    }

    /// Returns `bridgingTlsServerCertValidateDateEnabled` if it is present.
    pub fn bridging_tls_server_cert_validate_date_enabled(&self) -> (r: Option<&bool>)
        ensures
            r.deep_view() == self@.bridging_tls_server_cert_validate_date_enabled,
    {
        self.bridging_tls_server_cert_validate_date_enabled.as_ref()
    }

    /// Removes `bridgingTlsServerCertValidateDateEnabled`; every other attribute is left as it was.
    pub fn reset_bridging_tls_server_cert_validate_date_enabled(&mut self)
        ensures
            final(self)@ == old(self)@.without_bridging_tls_server_cert_validate_date_enabled(),
    {
        self.bridging_tls_server_cert_validate_date_enabled = None;
    }

    /// Sets `distributedCacheManagementEnabled` to the given value; every other attribute is left as it was.
    pub fn set_distributed_cache_management_enabled(&mut self, distributed_cache_management_enabled: bool)
        ensures
            final(self)@ == old(self)@.with_distributed_cache_management_enabled(distributed_cache_management_enabled),
    {
        self.distributed_cache_management_enabled = Some(distributed_cache_management_enabled);
    }

    /// Returns this value with `distributedCacheManagementEnabled` set to the given value.
    pub fn with_distributed_cache_management_enabled(self, distributed_cache_management_enabled: bool) -> (r: MsgVpn)
        ensures
            r@ == self@.with_distributed_cache_management_enabled(distributed_cache_management_enabled),
    {
        let mut r = self;
        r.distributed_cache_management_enabled = Some(distributed_cache_management_enabled);
        r
    }

    /// Returns `distributedCacheManagementEnabled` if it is present.
    pub fn distributed_cache_management_enabled(&self) -> (r: Option<&bool>)
        ensures
            r.deep_view() == self@.distributed_cache_management_enabled,
    {
        self.distributed_cache_management_enabled.as_ref()
    }

    /// Removes `distributedCacheManagementEnabled`; every other attribute is left as it was.
    pub fn reset_distributed_cache_management_enabled(&mut self)
        ensures
            final(self)@ == old(self)@.without_distributed_cache_management_enabled(),
    {
        self.distributed_cache_management_enabled = None;
    }

    /// Sets `enabled` to the given value; every other attribute is left as it was.
    pub fn set_enabled(&mut self, enabled: bool)
        ensures
            final(self)@ == old(self)@.with_enabled(enabled),
    {
        self.enabled = Some(enabled);
    }

    /// Returns this value with `enabled` set to the given value.
    pub fn with_enabled(self, enabled: bool) -> (r: MsgVpn)
        ensures
            r@ == self@.with_enabled(enabled),
    {
        let mut r = self;
        r.enabled = Some(enabled);
        r
    }

    /// Returns `enabled` if it is present.
    pub fn enabled(&self) -> (r: Option<&bool>)
        ensures
            r.deep_view() == self@.enabled,
    {
        self.enabled.as_ref()
    }

    /// Removes `enabled`; every other attribute is left as it was.
    pub fn reset_enabled(&mut self)
        ensures
            final(self)@ == old(self)@.without_enabled(),
    {
        self.enabled = None;
    }

    /// Sets `eventConnectionCountThreshold` to the given value; every other attribute is left as it was.
    pub fn set_event_connection_count_threshold(&mut self, event_connection_count_threshold: EventThreshold)
        ensures
            final(self)@ == old(self)@.with_event_connection_count_threshold(event_connection_count_threshold),
    {
        self.event_connection_count_threshold = Some(event_connection_count_threshold);
    }

    /// Returns this value with `eventConnectionCountThreshold` set to the given value.
    pub fn with_event_connection_count_threshold(self, event_connection_count_threshold: EventThreshold) -> (r: MsgVpn)
        ensures
            r@ == self@.with_event_connection_count_threshold(event_connection_count_threshold),
    {
        let mut r = self;
        r.event_connection_count_threshold = Some(event_connection_count_threshold);
        r
    }

    /// Returns `eventConnectionCountThreshold` if it is present.
    pub fn event_connection_count_threshold(&self) -> (r: Option<&EventThreshold>)
        ensures
            r.deep_view() == self@.event_connection_count_threshold,
    {
        self.event_connection_count_threshold.as_ref()
    }

    /// Removes `eventConnectionCountThreshold`; every other attribute is left as it was.
    pub fn reset_event_connection_count_threshold(&mut self)
        ensures
            final(self)@ == old(self)@.without_event_connection_count_threshold(),
    {
        self.event_connection_count_threshold = None;
    }

    /// Sets `eventEgressFlowCountThreshold` to the given value; every other attribute is left as it was.
    pub fn set_event_egress_flow_count_threshold(&mut self, event_egress_flow_count_threshold: EventThreshold)
        ensures
            final(self)@ == old(self)@.with_event_egress_flow_count_threshold(event_egress_flow_count_threshold),
    {
        self.event_egress_flow_count_threshold = Some(event_egress_flow_count_threshold);
    }

    /// Returns this value with `eventEgressFlowCountThreshold` set to the given value.
    pub fn with_event_egress_flow_count_threshold(self, event_egress_flow_count_threshold: EventThreshold) -> (r: MsgVpn)
        ensures
            r@ == self@.with_event_egress_flow_count_threshold(event_egress_flow_count_threshold),
    {
        let mut r = self;
        r.event_egress_flow_count_threshold = Some(event_egress_flow_count_threshold);
        r
    }

    /// Returns `eventEgressFlowCountThreshold` if it is present.
    pub fn event_egress_flow_count_threshold(&self) -> (r: Option<&EventThreshold>)
        ensures
            r.deep_view() == self@.event_egress_flow_count_threshold,
    {
        self.event_egress_flow_count_threshold.as_ref()
    }

    /// Removes `eventEgressFlowCountThreshold`; every other attribute is left as it was.
    pub fn reset_event_egress_flow_count_threshold(&mut self)
        ensures
            final(self)@ == old(self)@.without_event_egress_flow_count_threshold(),
    {
        self.event_egress_flow_count_threshold = None;
    }

    /// Sets `eventEgressMsgRateThreshold` to the given value; every other attribute is left as it was.
    pub fn set_event_egress_msg_rate_threshold(&mut self, event_egress_msg_rate_threshold: EventThresholdByValue)
        ensures
            final(self)@ == old(self)@.with_event_egress_msg_rate_threshold(event_egress_msg_rate_threshold),
    {
        self.event_egress_msg_rate_threshold = Some(event_egress_msg_rate_threshold);
    }

    /// Returns this value with `eventEgressMsgRateThreshold` set to the given value.
    pub fn with_event_egress_msg_rate_threshold(self, event_egress_msg_rate_threshold: EventThresholdByValue) -> (r: MsgVpn)
        ensures
            r@ == self@.with_event_egress_msg_rate_threshold(event_egress_msg_rate_threshold),
    {
        let mut r = self;
        r.event_egress_msg_rate_threshold = Some(event_egress_msg_rate_threshold);
        r
    }

    /// Returns `eventEgressMsgRateThreshold` if it is present.
    pub fn event_egress_msg_rate_threshold(&self) -> (r: Option<&EventThresholdByValue>)
        ensures
            r.deep_view() == self@.event_egress_msg_rate_threshold,
    {
        self.event_egress_msg_rate_threshold.as_ref()
    }

    /// Removes `eventEgressMsgRateThreshold`; every other attribute is left as it was.
    pub fn reset_event_egress_msg_rate_threshold(&mut self)
        ensures
            final(self)@ == old(self)@.without_event_egress_msg_rate_threshold(),
    {
        self.event_egress_msg_rate_threshold = None;
    }

    /// Sets `eventEndpointCountThreshold` to the given value; every other attribute is left as it was.
    pub fn set_event_endpoint_count_threshold(&mut self, event_endpoint_count_threshold: EventThreshold)
        ensures
            final(self)@ == old(self)@.with_event_endpoint_count_threshold(event_endpoint_count_threshold),
    {
        self.event_endpoint_count_threshold = Some(event_endpoint_count_threshold);
    }

    /// Returns this value with `eventEndpointCountThreshold` set to the given value.
    pub fn with_event_endpoint_count_threshold(self, event_endpoint_count_threshold: EventThreshold) -> (r: MsgVpn)
        ensures
            r@ == self@.with_event_endpoint_count_threshold(event_endpoint_count_threshold),
    {
        let mut r = self;
        r.event_endpoint_count_threshold = Some(event_endpoint_count_threshold);
        r
    }

    /// Returns `eventEndpointCountThreshold` if it is present.
    pub fn event_endpoint_count_threshold(&self) -> (r: Option<&EventThreshold>)
        ensures
            r.deep_view() == self@.event_endpoint_count_threshold,
    {
        self.event_endpoint_count_threshold.as_ref()
    }

    /// Removes `eventEndpointCountThreshold`; every other attribute is left as it was.
    pub fn reset_event_endpoint_count_threshold(&mut self)
        ensures
            final(self)@ == old(self)@.without_event_endpoint_count_threshold(),
    {
        self.event_endpoint_count_threshold = None;
    }

    /// Sets `eventIngressFlowCountThreshold` to the given value; every other attribute is left as it was.
    pub fn set_event_ingress_flow_count_threshold(&mut self, event_ingress_flow_count_threshold: EventThreshold)
        ensures
            final(self)@ == old(self)@.with_event_ingress_flow_count_threshold(event_ingress_flow_count_threshold),
    {
        self.event_ingress_flow_count_threshold = Some(event_ingress_flow_count_threshold);
    }

    /// Returns this value with `eventIngressFlowCountThreshold` set to the given value.
    pub fn with_event_ingress_flow_count_threshold(self, event_ingress_flow_count_threshold: EventThreshold) -> (r: MsgVpn)
        ensures
            r@ == self@.with_event_ingress_flow_count_threshold(event_ingress_flow_count_threshold),
    {
        let mut r = self;
        r.event_ingress_flow_count_threshold = Some(event_ingress_flow_count_threshold);
        r
    }

    /// Returns `eventIngressFlowCountThreshold` if it is present.
    pub fn event_ingress_flow_count_threshold(&self) -> (r: Option<&EventThreshold>)
        ensures
            r.deep_view() == self@.event_ingress_flow_count_threshold,
    {
        self.event_ingress_flow_count_threshold.as_ref()
    }

    /// Removes `eventIngressFlowCountThreshold`; every other attribute is left as it was.
    pub fn reset_event_ingress_flow_count_threshold(&mut self)
        ensures
            final(self)@ == old(self)@.without_event_ingress_flow_count_threshold(),
    {
        self.event_ingress_flow_count_threshold = None;
    }

    /// Sets `eventIngressMsgRateThreshold` to the given value; every other attribute is left as it was.
    pub fn set_event_ingress_msg_rate_threshold(&mut self, event_ingress_msg_rate_threshold: EventThresholdByValue)
        ensures
            final(self)@ == old(self)@.with_event_ingress_msg_rate_threshold(event_ingress_msg_rate_threshold),
    {
        self.event_ingress_msg_rate_threshold = Some(event_ingress_msg_rate_threshold);
    }

    /// Returns this value with `eventIngressMsgRateThreshold` set to the given value.
    pub fn with_event_ingress_msg_rate_threshold(self, event_ingress_msg_rate_threshold: EventThresholdByValue) -> (r: MsgVpn)
        ensures
            r@ == self@.with_event_ingress_msg_rate_threshold(event_ingress_msg_rate_threshold),
    {
        let mut r = self;
        r.event_ingress_msg_rate_threshold = Some(event_ingress_msg_rate_threshold);
        r
    }

    /// Returns `eventIngressMsgRateThreshold` if it is present.
    pub fn event_ingress_msg_rate_threshold(&self) -> (r: Option<&EventThresholdByValue>)
        ensures
            r.deep_view() == self@.event_ingress_msg_rate_threshold,
    {
        self.event_ingress_msg_rate_threshold.as_ref()
    }

    /// Removes `eventIngressMsgRateThreshold`; every other attribute is left as it was.
    pub fn reset_event_ingress_msg_rate_threshold(&mut self)
        ensures
            final(self)@ == old(self)@.without_event_ingress_msg_rate_threshold(),
    {
        self.event_ingress_msg_rate_threshold = None;
    }

    /// Sets `eventLargeMsgThreshold` to the given value; every other attribute is left as it was.
    pub fn set_event_large_msg_threshold(&mut self, event_large_msg_threshold: i64)
        ensures
            final(self)@ == old(self)@.with_event_large_msg_threshold(event_large_msg_threshold),
    {
        self.event_large_msg_threshold = Some(event_large_msg_threshold);
    }

    /// Returns this value with `eventLargeMsgThreshold` set to the given value.
    pub fn with_event_large_msg_threshold(self, event_large_msg_threshold: i64) -> (r: MsgVpn)
        ensures
            r@ == self@.with_event_large_msg_threshold(event_large_msg_threshold),
    {
        let mut r = self;
        r.event_large_msg_threshold = Some(event_large_msg_threshold);
        r
    }

    /// Returns `eventLargeMsgThreshold` if it is present.
    pub fn event_large_msg_threshold(&self) -> (r: Option<&i64>)
        ensures
            r.deep_view() == self@.event_large_msg_threshold,
    {
        self.event_large_msg_threshold.as_ref()
    }

    /// Removes `eventLargeMsgThreshold`; every other attribute is left as it was.
    pub fn reset_event_large_msg_threshold(&mut self)
        ensures
            final(self)@ == old(self)@.without_event_large_msg_threshold(),
    {
        self.event_large_msg_threshold = None;
    }

    /// Sets `eventLogTag` to the given value; every other attribute is left as it was.
    pub fn set_event_log_tag(&mut self, event_log_tag: String)
        ensures
            final(self)@ == old(self)@.with_event_log_tag(event_log_tag@),
    {
        self.event_log_tag = Some(event_log_tag);
    }

    /// Returns this value with `eventLogTag` set to the given value.
    pub fn with_event_log_tag(self, event_log_tag: String) -> (r: MsgVpn)
        ensures
            r@ == self@.with_event_log_tag(event_log_tag@),
    {
        let mut r = self;
        r.event_log_tag = Some(event_log_tag);
        r
    }

    /// Returns `eventLogTag` if it is present.
    pub fn event_log_tag(&self) -> (r: Option<&String>)
        ensures
            r.deep_view() == self@.event_log_tag,
    {
        self.event_log_tag.as_ref()
    }

    /// Removes `eventLogTag`; every other attribute is left as it was.
    pub fn reset_event_log_tag(&mut self)
        ensures
            final(self)@ == old(self)@.without_event_log_tag(),
    {
        self.event_log_tag = None;
    }

    /// Sets `eventMsgSpoolUsageThreshold` to the given value; every other attribute is left as it was.
    pub fn set_event_msg_spool_usage_threshold(&mut self, event_msg_spool_usage_threshold: EventThreshold)
        ensures
            final(self)@ == old(self)@.with_event_msg_spool_usage_threshold(event_msg_spool_usage_threshold),
    {
        self.event_msg_spool_usage_threshold = Some(event_msg_spool_usage_threshold);
    }

    /// Returns this value with `eventMsgSpoolUsageThreshold` set to the given value.
    pub fn with_event_msg_spool_usage_threshold(self, event_msg_spool_usage_threshold: EventThreshold) -> (r: MsgVpn)
        ensures
            r@ == self@.with_event_msg_spool_usage_threshold(event_msg_spool_usage_threshold),
    {
        let mut r = self;
        r.event_msg_spool_usage_threshold = Some(event_msg_spool_usage_threshold);
        r
    }

    /// Returns `eventMsgSpoolUsageThreshold` if it is present.
    pub fn event_msg_spool_usage_threshold(&self) -> (r: Option<&EventThreshold>)
        ensures
            r.deep_view() == self@.event_msg_spool_usage_threshold,
    {
        self.event_msg_spool_usage_threshold.as_ref()
    }

    /// Removes `eventMsgSpoolUsageThreshold`; every other attribute is left as it was.
    pub fn reset_event_msg_spool_usage_threshold(&mut self)
        ensures
            final(self)@ == old(self)@.without_event_msg_spool_usage_threshold(),
    {
        self.event_msg_spool_usage_threshold = None;
    }

    /// Sets `eventPublishClientEnabled` to the given value; every other attribute is left as it was.
    pub fn set_event_publish_client_enabled(&mut self, event_publish_client_enabled: bool)
        ensures
            final(self)@ == old(self)@.with_event_publish_client_enabled(event_publish_client_enabled),
    {
        self.event_publish_client_enabled = Some(event_publish_client_enabled);
    }

    /// Returns this value with `eventPublishClientEnabled` set to the given value.
    pub fn with_event_publish_client_enabled(self, event_publish_client_enabled: bool) -> (r: MsgVpn)
        ensures
            r@ == self@.with_event_publish_client_enabled(event_publish_client_enabled),
    {
        let mut r = self;
        r.event_publish_client_enabled = Some(event_publish_client_enabled);
        r
    }

    /// Returns `eventPublishClientEnabled` if it is present.
    pub fn event_publish_client_enabled(&self) -> (r: Option<&bool>)
        ensures
            r.deep_view() == self@.event_publish_client_enabled,
    {
        self.event_publish_client_enabled.as_ref()
    }

    /// Removes `eventPublishClientEnabled`; every other attribute is left as it was.
    pub fn reset_event_publish_client_enabled(&mut self)
        ensures
            final(self)@ == old(self)@.without_event_publish_client_enabled(),
    {
        self.event_publish_client_enabled = None;
    }

    /// Sets `eventPublishMsgVpnEnabled` to the given value; every other attribute is left as it was.
    pub fn set_event_publish_msg_vpn_enabled(&mut self, event_publish_msg_vpn_enabled: bool)
        ensures
            final(self)@ == old(self)@.with_event_publish_msg_vpn_enabled(event_publish_msg_vpn_enabled),
    {
        self.event_publish_msg_vpn_enabled = Some(event_publish_msg_vpn_enabled);
    }

    /// Returns this value with `eventPublishMsgVpnEnabled` set to the given value.
    pub fn with_event_publish_msg_vpn_enabled(self, event_publish_msg_vpn_enabled: bool) -> (r: MsgVpn)
        ensures
            r@ == self@.with_event_publish_msg_vpn_enabled(event_publish_msg_vpn_enabled),
    {
        let mut r = self;
        r.event_publish_msg_vpn_enabled = Some(event_publish_msg_vpn_enabled);
        r
    }

    /// Returns `eventPublishMsgVpnEnabled` if it is present.
    pub fn event_publish_msg_vpn_enabled(&self) -> (r: Option<&bool>)
        ensures
            r.deep_view() == self@.event_publish_msg_vpn_enabled,
    {
        self.event_publish_msg_vpn_enabled.as_ref()
    }

    /// Removes `eventPublishMsgVpnEnabled`; every other attribute is left as it was.
    pub fn reset_event_publish_msg_vpn_enabled(&mut self)
        ensures
            final(self)@ == old(self)@.without_event_publish_msg_vpn_enabled(),
    {
        self.event_publish_msg_vpn_enabled = None;
    }

    /// Sets `eventPublishSubscriptionMode` to the given value; every other attribute is left as it was.
    pub fn set_event_publish_subscription_mode(&mut self, event_publish_subscription_mode: String)
        ensures
            final(self)@ == old(self)@.with_event_publish_subscription_mode(event_publish_subscription_mode@),
    {
        self.event_publish_subscription_mode = Some(event_publish_subscription_mode);
    }

    /// Returns this value with `eventPublishSubscriptionMode` set to the given value.
    pub fn with_event_publish_subscription_mode(self, event_publish_subscription_mode: String) -> (r: MsgVpn)
        ensures
            r@ == self@.with_event_publish_subscription_mode(event_publish_subscription_mode@),
    {
        let mut r = self;
        r.event_publish_subscription_mode = Some(event_publish_subscription_mode);
        r
    }

    /// Returns `eventPublishSubscriptionMode` if it is present.
    pub fn event_publish_subscription_mode(&self) -> (r: Option<&String>)
        ensures
            r.deep_view() == self@.event_publish_subscription_mode,
    {
        self.event_publish_subscription_mode.as_ref()
    }

    /// Removes `eventPublishSubscriptionMode`; every other attribute is left as it was.
    pub fn reset_event_publish_subscription_mode(&mut self)
        ensures
            final(self)@ == old(self)@.without_event_publish_subscription_mode(),
    {
        self.event_publish_subscription_mode = None;
    }

    /// Sets `eventPublishTopicFormatMqttEnabled` to the given value; every other attribute is left as it was.
    pub fn set_event_publish_topic_format_mqtt_enabled(&mut self, event_publish_topic_format_mqtt_enabled: bool)
        ensures
            final(self)@ == old(self)@.with_event_publish_topic_format_mqtt_enabled(event_publish_topic_format_mqtt_enabled),
    {
        self.event_publish_topic_format_mqtt_enabled = Some(event_publish_topic_format_mqtt_enabled);
    }

    /// Returns this value with `eventPublishTopicFormatMqttEnabled` set to the given value.
    pub fn with_event_publish_topic_format_mqtt_enabled(self, event_publish_topic_format_mqtt_enabled: bool) -> (r: MsgVpn)
        ensures
            r@ == self@.with_event_publish_topic_format_mqtt_enabled(event_publish_topic_format_mqtt_enabled),
    {
        let mut r = self;
        r.event_publish_topic_format_mqtt_enabled = Some(event_publish_topic_format_mqtt_enabled);
        r
    }

    /// Returns `eventPublishTopicFormatMqttEnabled` if it is present.
    pub fn event_publish_topic_format_mqtt_enabled(&self) -> (r: Option<&bool>)
        ensures
            r.deep_view() == self@.event_publish_topic_format_mqtt_enabled,
    {
        self.event_publish_topic_format_mqtt_enabled.as_ref()
    }

    /// Removes `eventPublishTopicFormatMqttEnabled`; every other attribute is left as it was.
    pub fn reset_event_publish_topic_format_mqtt_enabled(&mut self)
        ensures
            final(self)@ == old(self)@.without_event_publish_topic_format_mqtt_enabled(),
    {
        self.event_publish_topic_format_mqtt_enabled = None;
    }

    /// Sets `eventPublishTopicFormatSmfEnabled` to the given value; every other attribute is left as it was.
    pub fn set_event_publish_topic_format_smf_enabled(&mut self, event_publish_topic_format_smf_enabled: bool)
        ensures
            final(self)@ == old(self)@.with_event_publish_topic_format_smf_enabled(event_publish_topic_format_smf_enabled),
    {
        self.event_publish_topic_format_smf_enabled = Some(event_publish_topic_format_smf_enabled);
    }

    /// Returns this value with `eventPublishTopicFormatSmfEnabled` set to the given value.
    pub fn with_event_publish_topic_format_smf_enabled(self, event_publish_topic_format_smf_enabled: bool) -> (r: MsgVpn)
        ensures
            r@ == self@.with_event_publish_topic_format_smf_enabled(event_publish_topic_format_smf_enabled),
    {
        let mut r = self;
        r.event_publish_topic_format_smf_enabled = Some(event_publish_topic_format_smf_enabled);
        r
    }

    /// Returns `eventPublishTopicFormatSmfEnabled` if it is present.
    pub fn event_publish_topic_format_smf_enabled(&self) -> (r: Option<&bool>)
        ensures
            r.deep_view() == self@.event_publish_topic_format_smf_enabled,
    {
        self.event_publish_topic_format_smf_enabled.as_ref()
    }

    /// Removes `eventPublishTopicFormatSmfEnabled`; every other attribute is left as it was.
    pub fn reset_event_publish_topic_format_smf_enabled(&mut self)
        ensures
            final(self)@ == old(self)@.without_event_publish_topic_format_smf_enabled(),
    {
        self.event_publish_topic_format_smf_enabled = None;
    }

    /// Sets `eventServiceAmqpConnectionCountThreshold` to the given value; every other attribute is left as it was.
    pub fn set_event_service_amqp_connection_count_threshold(&mut self, event_service_amqp_connection_count_threshold: EventThreshold)
        ensures
            final(self)@ == old(self)@.with_event_service_amqp_connection_count_threshold(event_service_amqp_connection_count_threshold),
    {
        self.event_service_amqp_connection_count_threshold = Some(event_service_amqp_connection_count_threshold);
    }

    /// Returns this value with `eventServiceAmqpConnectionCountThreshold` set to the given value.
    pub fn with_event_service_amqp_connection_count_threshold(self, event_service_amqp_connection_count_threshold: EventThreshold) -> (r: MsgVpn)
        ensures
            r@ == self@.with_event_service_amqp_connection_count_threshold(event_service_amqp_connection_count_threshold),
    {
        let mut r = self;
        r.event_service_amqp_connection_count_threshold = Some(event_service_amqp_connection_count_threshold);
        r
    }

    /// Returns `eventServiceAmqpConnectionCountThreshold` if it is present.
    pub fn event_service_amqp_connection_count_threshold(&self) -> (r: Option<&EventThreshold>)
        ensures
            r.deep_view() == self@.event_service_amqp_connection_count_threshold,
    {
        self.event_service_amqp_connection_count_threshold.as_ref()
    }

    /// Removes `eventServiceAmqpConnectionCountThreshold`; every other attribute is left as it was.
    pub fn reset_event_service_amqp_connection_count_threshold(&mut self)
        ensures
            final(self)@ == old(self)@.without_event_service_amqp_connection_count_threshold(),
    {
        self.event_service_amqp_connection_count_threshold = None;
    }

    /// Sets `eventServiceMqttConnectionCountThreshold` to the given value; every other attribute is left as it was.
    pub fn set_event_service_mqtt_connection_count_threshold(&mut self, event_service_mqtt_connection_count_threshold: EventThreshold)
        ensures
            final(self)@ == old(self)@.with_event_service_mqtt_connection_count_threshold(event_service_mqtt_connection_count_threshold),
    {
        self.event_service_mqtt_connection_count_threshold = Some(event_service_mqtt_connection_count_threshold);
    }

    /// Returns this value with `eventServiceMqttConnectionCountThreshold` set to the given value.
    pub fn with_event_service_mqtt_connection_count_threshold(self, event_service_mqtt_connection_count_threshold: EventThreshold) -> (r: MsgVpn)
        ensures
            r@ == self@.with_event_service_mqtt_connection_count_threshold(event_service_mqtt_connection_count_threshold),
    {
        let mut r = self;
        r.event_service_mqtt_connection_count_threshold = Some(event_service_mqtt_connection_count_threshold);
        r
    }

    /// Returns `eventServiceMqttConnectionCountThreshold` if it is present.
    pub fn event_service_mqtt_connection_count_threshold(&self) -> (r: Option<&EventThreshold>)
        ensures
            r.deep_view() == self@.event_service_mqtt_connection_count_threshold,
    {
        self.event_service_mqtt_connection_count_threshold.as_ref()
    }

    /// Removes `eventServiceMqttConnectionCountThreshold`; every other attribute is left as it was.
    pub fn reset_event_service_mqtt_connection_count_threshold(&mut self)
        ensures
            final(self)@ == old(self)@.without_event_service_mqtt_connection_count_threshold(),
    {
        self.event_service_mqtt_connection_count_threshold = None;
    }

    /// Sets `eventServiceRestIncomingConnectionCountThreshold` to the given value; every other attribute is left as it was.
    pub fn set_event_service_rest_incoming_connection_count_threshold(&mut self, event_service_rest_incoming_connection_count_threshold: EventThreshold)
        ensures
            final(self)@ == old(self)@.with_event_service_rest_incoming_connection_count_threshold(event_service_rest_incoming_connection_count_threshold),
    {
        self.event_service_rest_incoming_connection_count_threshold = Some(event_service_rest_incoming_connection_count_threshold);
    }

    /// Returns this value with `eventServiceRestIncomingConnectionCountThreshold` set to the given value.
    pub fn with_event_service_rest_incoming_connection_count_threshold(self, event_service_rest_incoming_connection_count_threshold: EventThreshold) -> (r: MsgVpn)
        ensures
            r@ == self@.with_event_service_rest_incoming_connection_count_threshold(event_service_rest_incoming_connection_count_threshold),
    {
        let mut r = self;
        r.event_service_rest_incoming_connection_count_threshold = Some(event_service_rest_incoming_connection_count_threshold);
        r
    }

    /// Returns `eventServiceRestIncomingConnectionCountThreshold` if it is present.
    pub fn event_service_rest_incoming_connection_count_threshold(&self) -> (r: Option<&EventThreshold>)
        ensures
            r.deep_view() == self@.event_service_rest_incoming_connection_count_threshold,
    {
        self.event_service_rest_incoming_connection_count_threshold.as_ref()
    }

    /// Removes `eventServiceRestIncomingConnectionCountThreshold`; every other attribute is left as it was.
    pub fn reset_event_service_rest_incoming_connection_count_threshold(&mut self)
        ensures
            final(self)@ == old(self)@.without_event_service_rest_incoming_connection_count_threshold(),
    {
        self.event_service_rest_incoming_connection_count_threshold = None;
    }

    /// Sets `eventServiceSmfConnectionCountThreshold` to the given value; every other attribute is left as it was.
    pub fn set_event_service_smf_connection_count_threshold(&mut self, event_service_smf_connection_count_threshold: EventThreshold)
        ensures
            final(self)@ == old(self)@.with_event_service_smf_connection_count_threshold(event_service_smf_connection_count_threshold),
    {
        self.event_service_smf_connection_count_threshold = Some(event_service_smf_connection_count_threshold);
    }

    /// Returns this value with `eventServiceSmfConnectionCountThreshold` set to the given value.
    pub fn with_event_service_smf_connection_count_threshold(self, event_service_smf_connection_count_threshold: EventThreshold) -> (r: MsgVpn)
        ensures
            r@ == self@.with_event_service_smf_connection_count_threshold(event_service_smf_connection_count_threshold),
    {
        let mut r = self;
        r.event_service_smf_connection_count_threshold = Some(event_service_smf_connection_count_threshold);
        r
    }

    /// Returns `eventServiceSmfConnectionCountThreshold` if it is present.
    pub fn event_service_smf_connection_count_threshold(&self) -> (r: Option<&EventThreshold>)
        ensures
            r.deep_view() == self@.event_service_smf_connection_count_threshold,
    {
        self.event_service_smf_connection_count_threshold.as_ref()
    }

    /// Removes `eventServiceSmfConnectionCountThreshold`; every other attribute is left as it was.
    pub fn reset_event_service_smf_connection_count_threshold(&mut self)
        ensures
            final(self)@ == old(self)@.without_event_service_smf_connection_count_threshold(),
    {
        self.event_service_smf_connection_count_threshold = None;
    }

    /// Sets `eventServiceWebConnectionCountThreshold` to the given value; every other attribute is left as it was.
    pub fn set_event_service_web_connection_count_threshold(&mut self, event_service_web_connection_count_threshold: EventThreshold)
        ensures
            final(self)@ == old(self)@.with_event_service_web_connection_count_threshold(event_service_web_connection_count_threshold),
    {
        self.event_service_web_connection_count_threshold = Some(event_service_web_connection_count_threshold);
    }

    /// Returns this value with `eventServiceWebConnectionCountThreshold` set to the given value.
    pub fn with_event_service_web_connection_count_threshold(self, event_service_web_connection_count_threshold: EventThreshold) -> (r: MsgVpn)
        ensures
            r@ == self@.with_event_service_web_connection_count_threshold(event_service_web_connection_count_threshold),
    {
        let mut r = self;
        r.event_service_web_connection_count_threshold = Some(event_service_web_connection_count_threshold);
        r
    }

    /// Returns `eventServiceWebConnectionCountThreshold` if it is present.
    pub fn event_service_web_connection_count_threshold(&self) -> (r: Option<&EventThreshold>)
        ensures
            r.deep_view() == self@.event_service_web_connection_count_threshold,
    {
        self.event_service_web_connection_count_threshold.as_ref()
    }

    /// Removes `eventServiceWebConnectionCountThreshold`; every other attribute is left as it was.
    pub fn reset_event_service_web_connection_count_threshold(&mut self)
        ensures
            final(self)@ == old(self)@.without_event_service_web_connection_count_threshold(),
    {
        self.event_service_web_connection_count_threshold = None;
    }

    /// Sets `eventSubscriptionCountThreshold` to the given value; every other attribute is left as it was.
    pub fn set_event_subscription_count_threshold(&mut self, event_subscription_count_threshold: EventThreshold)
        ensures
            final(self)@ == old(self)@.with_event_subscription_count_threshold(event_subscription_count_threshold),
    {
        self.event_subscription_count_threshold = Some(event_subscription_count_threshold);
    }

    /// Returns this value with `eventSubscriptionCountThreshold` set to the given value.
    pub fn with_event_subscription_count_threshold(self, event_subscription_count_threshold: EventThreshold) -> (r: MsgVpn)
        ensures
            r@ == self@.with_event_subscription_count_threshold(event_subscription_count_threshold),
    {
        let mut r = self;
        r.event_subscription_count_threshold = Some(event_subscription_count_threshold);
        r
    }

    /// Returns `eventSubscriptionCountThreshold` if it is present.
    pub fn event_subscription_count_threshold(&self) -> (r: Option<&EventThreshold>)
        ensures
            r.deep_view() == self@.event_subscription_count_threshold,
    {
        self.event_subscription_count_threshold.as_ref()
    }

    /// Removes `eventSubscriptionCountThreshold`; every other attribute is left as it was.
    pub fn reset_event_subscription_count_threshold(&mut self)
        ensures
            final(self)@ == old(self)@.without_event_subscription_count_threshold(),
    {
        self.event_subscription_count_threshold = None;
    }

    /// Sets `eventTransactedSessionCountThreshold` to the given value; every other attribute is left as it was.
    pub fn set_event_transacted_session_count_threshold(&mut self, event_transacted_session_count_threshold: EventThreshold)
        ensures
            final(self)@ == old(self)@.with_event_transacted_session_count_threshold(event_transacted_session_count_threshold),
    {
        self.event_transacted_session_count_threshold = Some(event_transacted_session_count_threshold);
    }

    /// Returns this value with `eventTransactedSessionCountThreshold` set to the given value.
    pub fn with_event_transacted_session_count_threshold(self, event_transacted_session_count_threshold: EventThreshold) -> (r: MsgVpn)
        ensures
            r@ == self@.with_event_transacted_session_count_threshold(event_transacted_session_count_threshold),
    {
        let mut r = self;
        r.event_transacted_session_count_threshold = Some(event_transacted_session_count_threshold);
        r
    }

    /// Returns `eventTransactedSessionCountThreshold` if it is present.
    pub fn event_transacted_session_count_threshold(&self) -> (r: Option<&EventThreshold>)
        ensures
            r.deep_view() == self@.event_transacted_session_count_threshold,
    {
        self.event_transacted_session_count_threshold.as_ref()
    }

    /// Removes `eventTransactedSessionCountThreshold`; every other attribute is left as it was.
    pub fn reset_event_transacted_session_count_threshold(&mut self)
        ensures
            final(self)@ == old(self)@.without_event_transacted_session_count_threshold(),
    {
        self.event_transacted_session_count_threshold = None;
    }

    /// Sets `eventTransactionCountThreshold` to the given value; every other attribute is left as it was.
    pub fn set_event_transaction_count_threshold(&mut self, event_transaction_count_threshold: EventThreshold)
        ensures
            final(self)@ == old(self)@.with_event_transaction_count_threshold(event_transaction_count_threshold),
    {
        self.event_transaction_count_threshold = Some(event_transaction_count_threshold);
    }

    /// Returns this value with `eventTransactionCountThreshold` set to the given value.
    pub fn with_event_transaction_count_threshold(self, event_transaction_count_threshold: EventThreshold) -> (r: MsgVpn)
        ensures
            r@ == self@.with_event_transaction_count_threshold(event_transaction_count_threshold),
    {
        let mut r = self;
        r.event_transaction_count_threshold = Some(event_transaction_count_threshold);
        r
    }

    /// Returns `eventTransactionCountThreshold` if it is present.
    pub fn event_transaction_count_threshold(&self) -> (r: Option<&EventThreshold>)
        ensures
            r.deep_view() == self@.event_transaction_count_threshold,
    {
        self.event_transaction_count_threshold.as_ref()
    }

    /// Removes `eventTransactionCountThreshold`; every other attribute is left as it was.
    pub fn reset_event_transaction_count_threshold(&mut self)
        ensures
            final(self)@ == old(self)@.without_event_transaction_count_threshold(),
    {
        self.event_transaction_count_threshold = None;
    }

    /// Sets `exportSubscriptionsEnabled` to the given value; every other attribute is left as it was.
    pub fn set_export_subscriptions_enabled(&mut self, export_subscriptions_enabled: bool)
        ensures
            final(self)@ == old(self)@.with_export_subscriptions_enabled(export_subscriptions_enabled),
    {
        self.export_subscriptions_enabled = Some(export_subscriptions_enabled);
    }

    /// Returns this value with `exportSubscriptionsEnabled` set to the given value.
    pub fn with_export_subscriptions_enabled(self, export_subscriptions_enabled: bool) -> (r: MsgVpn)
        ensures
            r@ == self@.with_export_subscriptions_enabled(export_subscriptions_enabled),
    {
        let mut r = self;
        r.export_subscriptions_enabled = Some(export_subscriptions_enabled);
        r
    }

    /// Returns `exportSubscriptionsEnabled` if it is present.
    pub fn export_subscriptions_enabled(&self) -> (r: Option<&bool>)
        ensures
            r.deep_view() == self@.export_subscriptions_enabled,
    {
        self.export_subscriptions_enabled.as_ref()
    }

    /// Removes `exportSubscriptionsEnabled`; every other attribute is left as it was.
    pub fn reset_export_subscriptions_enabled(&mut self)
        ensures
            final(self)@ == old(self)@.without_export_subscriptions_enabled(),
    {
        self.export_subscriptions_enabled = None;
    }

    /// Sets `jndiEnabled` to the given value; every other attribute is left as it was.
    pub fn set_jndi_enabled(&mut self, jndi_enabled: bool)
        ensures
            final(self)@ == old(self)@.with_jndi_enabled(jndi_enabled),
    {
        self.jndi_enabled = Some(jndi_enabled);
    }

    /// Returns this value with `jndiEnabled` set to the given value.
    pub fn with_jndi_enabled(self, jndi_enabled: bool) -> (r: MsgVpn)
        ensures
            r@ == self@.with_jndi_enabled(jndi_enabled),
    {
        let mut r = self;
        r.jndi_enabled = Some(jndi_enabled);
        r
    }

    /// Returns `jndiEnabled` if it is present.
    pub fn jndi_enabled(&self) -> (r: Option<&bool>)
        ensures
            r.deep_view() == self@.jndi_enabled,
    {
        self.jndi_enabled.as_ref()
    }

    /// Removes `jndiEnabled`; every other attribute is left as it was.
    pub fn reset_jndi_enabled(&mut self)
        ensures
            final(self)@ == old(self)@.without_jndi_enabled(),
    {
        self.jndi_enabled = None;
    }

    /// Sets `maxConnectionCount` to the given value; every other attribute is left as it was.
    pub fn set_max_connection_count(&mut self, max_connection_count: i64)
        ensures
            final(self)@ == old(self)@.with_max_connection_count(max_connection_count),
    {
        self.max_connection_count = Some(max_connection_count);
    }

    /// Returns this value with `maxConnectionCount` set to the given value.
    pub fn with_max_connection_count(self, max_connection_count: i64) -> (r: MsgVpn)
        ensures
            r@ == self@.with_max_connection_count(max_connection_count),
    {
        let mut r = self;
        r.max_connection_count = Some(max_connection_count);
        r
    }

    /// Returns `maxConnectionCount` if it is present.
    pub fn max_connection_count(&self) -> (r: Option<&i64>)
        ensures
            r.deep_view() == self@.max_connection_count,
    {
        self.max_connection_count.as_ref()
    }

    /// Removes `maxConnectionCount`; every other attribute is left as it was.
    pub fn reset_max_connection_count(&mut self)
        ensures
            final(self)@ == old(self)@.without_max_connection_count(),
    {
        self.max_connection_count = None;
    }

    /// Sets `maxEgressFlowCount` to the given value; every other attribute is left as it was.
    pub fn set_max_egress_flow_count(&mut self, max_egress_flow_count: i64)
        ensures
            final(self)@ == old(self)@.with_max_egress_flow_count(max_egress_flow_count),
    {
        self.max_egress_flow_count = Some(max_egress_flow_count);
    }

    /// Returns this value with `maxEgressFlowCount` set to the given value.
    pub fn with_max_egress_flow_count(self, max_egress_flow_count: i64) -> (r: MsgVpn)
        ensures
            r@ == self@.with_max_egress_flow_count(max_egress_flow_count),
    {
        let mut r = self;
        r.max_egress_flow_count = Some(max_egress_flow_count);
        r
    }

    /// Returns `maxEgressFlowCount` if it is present.
    pub fn max_egress_flow_count(&self) -> (r: Option<&i64>)
        ensures
            r.deep_view() == self@.max_egress_flow_count,
    {
        self.max_egress_flow_count.as_ref()
    }

    /// Removes `maxEgressFlowCount`; every other attribute is left as it was.
    pub fn reset_max_egress_flow_count(&mut self)
        ensures
            final(self)@ == old(self)@.without_max_egress_flow_count(),
    {
        self.max_egress_flow_count = None;
    }

    /// Sets `maxEndpointCount` to the given value; every other attribute is left as it was.
    pub fn set_max_endpoint_count(&mut self, max_endpoint_count: i64)
        ensures
            final(self)@ == old(self)@.with_max_endpoint_count(max_endpoint_count),
    {
        self.max_endpoint_count = Some(max_endpoint_count);
    }

    /// Returns this value with `maxEndpointCount` set to the given value.
    pub fn with_max_endpoint_count(self, max_endpoint_count: i64) -> (r: MsgVpn)
        ensures
            r@ == self@.with_max_endpoint_count(max_endpoint_count),
    {
        let mut r = self;
        r.max_endpoint_count = Some(max_endpoint_count);
        r
    }

    /// Returns `maxEndpointCount` if it is present.
    pub fn max_endpoint_count(&self) -> (r: Option<&i64>)
        ensures
            r.deep_view() == self@.max_endpoint_count,
    {
        self.max_endpoint_count.as_ref()
    }

    /// Removes `maxEndpointCount`; every other attribute is left as it was.
    pub fn reset_max_endpoint_count(&mut self)
        ensures
            final(self)@ == old(self)@.without_max_endpoint_count(),
    {
        self.max_endpoint_count = None;
    }

    /// Sets `maxIngressFlowCount` to the given value; every other attribute is left as it was.
    pub fn set_max_ingress_flow_count(&mut self, max_ingress_flow_count: i64)
        ensures
            final(self)@ == old(self)@.with_max_ingress_flow_count(max_ingress_flow_count),
    {
        self.max_ingress_flow_count = Some(max_ingress_flow_count);
    }

    /// Returns this value with `maxIngressFlowCount` set to the given value.
    pub fn with_max_ingress_flow_count(self, max_ingress_flow_count: i64) -> (r: MsgVpn)
        ensures
            r@ == self@.with_max_ingress_flow_count(max_ingress_flow_count),
    {
        let mut r = self;
        r.max_ingress_flow_count = Some(max_ingress_flow_count);
        r
    }

    /// Returns `maxIngressFlowCount` if it is present.
    pub fn max_ingress_flow_count(&self) -> (r: Option<&i64>)
        ensures
            r.deep_view() == self@.max_ingress_flow_count,
    {
        self.max_ingress_flow_count.as_ref()
    }

    /// Removes `maxIngressFlowCount`; every other attribute is left as it was.
    pub fn reset_max_ingress_flow_count(&mut self)
        ensures
            final(self)@ == old(self)@.without_max_ingress_flow_count(),
    {
        self.max_ingress_flow_count = None;
    }

    /// Sets `maxMsgSpoolUsage` to the given value; every other attribute is left as it was.
    pub fn set_max_msg_spool_usage(&mut self, max_msg_spool_usage: i64)
        ensures
            final(self)@ == old(self)@.with_max_msg_spool_usage(max_msg_spool_usage),
    {
        self.max_msg_spool_usage = Some(max_msg_spool_usage);
    }

    /// Returns this value with `maxMsgSpoolUsage` set to the given value.
    pub fn with_max_msg_spool_usage(self, max_msg_spool_usage: i64) -> (r: MsgVpn)
        ensures
            r@ == self@.with_max_msg_spool_usage(max_msg_spool_usage),
    {
        let mut r = self;
        r.max_msg_spool_usage = Some(max_msg_spool_usage);
        r
    }

    /// Returns `maxMsgSpoolUsage` if it is present.
    pub fn max_msg_spool_usage(&self) -> (r: Option<&i64>)
        ensures
            r.deep_view() == self@.max_msg_spool_usage,
    {
        self.max_msg_spool_usage.as_ref()
    }

    /// Removes `maxMsgSpoolUsage`; every other attribute is left as it was.
    pub fn reset_max_msg_spool_usage(&mut self)
        ensures
            final(self)@ == old(self)@.without_max_msg_spool_usage(),
    {
        self.max_msg_spool_usage = None;
    }

    /// Sets `maxSubscriptionCount` to the given value; every other attribute is left as it was.
    pub fn set_max_subscription_count(&mut self, max_subscription_count: i64)
        ensures
            final(self)@ == old(self)@.with_max_subscription_count(max_subscription_count),
    {
        self.max_subscription_count = Some(max_subscription_count);
    }

    /// Returns this value with `maxSubscriptionCount` set to the given value.
    pub fn with_max_subscription_count(self, max_subscription_count: i64) -> (r: MsgVpn)
        ensures
            r@ == self@.with_max_subscription_count(max_subscription_count),
    {
        let mut r = self;
        r.max_subscription_count = Some(max_subscription_count);
        r
    }

    /// Returns `maxSubscriptionCount` if it is present.
    pub fn max_subscription_count(&self) -> (r: Option<&i64>)
        ensures
            r.deep_view() == self@.max_subscription_count,
    {
        self.max_subscription_count.as_ref()
    }

    /// Removes `maxSubscriptionCount`; every other attribute is left as it was.
    pub fn reset_max_subscription_count(&mut self)
        ensures
            final(self)@ == old(self)@.without_max_subscription_count(),
    {
        self.max_subscription_count = None;
    }

    /// Sets `maxTransactedSessionCount` to the given value; every other attribute is left as it was.
    pub fn set_max_transacted_session_count(&mut self, max_transacted_session_count: i64)
        ensures
            final(self)@ == old(self)@.with_max_transacted_session_count(max_transacted_session_count),
    {
        self.max_transacted_session_count = Some(max_transacted_session_count);
    }

    /// Returns this value with `maxTransactedSessionCount` set to the given value.
    pub fn with_max_transacted_session_count(self, max_transacted_session_count: i64) -> (r: MsgVpn)
        ensures
            r@ == self@.with_max_transacted_session_count(max_transacted_session_count),
    {
        let mut r = self;
        r.max_transacted_session_count = Some(max_transacted_session_count);
        r
    }

    /// Returns `maxTransactedSessionCount` if it is present.
    pub fn max_transacted_session_count(&self) -> (r: Option<&i64>)
        ensures
            r.deep_view() == self@.max_transacted_session_count,
    {
        self.max_transacted_session_count.as_ref()
    }

    /// Removes `maxTransactedSessionCount`; every other attribute is left as it was.
    pub fn reset_max_transacted_session_count(&mut self)
        ensures
            final(self)@ == old(self)@.without_max_transacted_session_count(),
    {
        self.max_transacted_session_count = None;
    }

    /// Sets `maxTransactionCount` to the given value; every other attribute is left as it was.
    pub fn set_max_transaction_count(&mut self, max_transaction_count: i64)
        ensures
            final(self)@ == old(self)@.with_max_transaction_count(max_transaction_count),
    {
        self.max_transaction_count = Some(max_transaction_count);
    }

    /// Returns this value with `maxTransactionCount` set to the given value.
    pub fn with_max_transaction_count(self, max_transaction_count: i64) -> (r: MsgVpn)
        ensures
            r@ == self@.with_max_transaction_count(max_transaction_count),
    {
        let mut r = self;
        r.max_transaction_count = Some(max_transaction_count);
        r
    }

    /// Returns `maxTransactionCount` if it is present.
    pub fn max_transaction_count(&self) -> (r: Option<&i64>)
        ensures
            r.deep_view() == self@.max_transaction_count,
    {
        self.max_transaction_count.as_ref()
    }

    /// Removes `maxTransactionCount`; every other attribute is left as it was.
    pub fn reset_max_transaction_count(&mut self)
        ensures
            final(self)@ == old(self)@.without_max_transaction_count(),
    {
        self.max_transaction_count = None;
    }

    /// Sets `msgVpnName` to the given value; every other attribute is left as it was.
    pub fn set_msg_vpn_name(&mut self, msg_vpn_name: String)
        ensures
            final(self)@ == old(self)@.with_msg_vpn_name(msg_vpn_name@),
    {
        self.msg_vpn_name = Some(msg_vpn_name);
    }

    /// Returns this value with `msgVpnName` set to the given value.
    pub fn with_msg_vpn_name(self, msg_vpn_name: String) -> (r: MsgVpn)
        ensures
            r@ == self@.with_msg_vpn_name(msg_vpn_name@),
    {
        let mut r = self;
        r.msg_vpn_name = Some(msg_vpn_name);
        r
    }

    /// Returns `msgVpnName` if it is present.
    pub fn msg_vpn_name(&self) -> (r: Option<&String>)
        ensures
            r.deep_view() == self@.msg_vpn_name,
    {
        self.msg_vpn_name.as_ref()
    }

    /// Removes `msgVpnName`; every other attribute is left as it was.
    pub fn reset_msg_vpn_name(&mut self)
        ensures
            final(self)@ == old(self)@.without_msg_vpn_name(),
    {
        self.msg_vpn_name = None;
    }

    /// Sets `replicationAckPropagationIntervalMsgCount` to the given value; every other attribute is left as it was.
    pub fn set_replication_ack_propagation_interval_msg_count(&mut self, replication_ack_propagation_interval_msg_count: i64)
        ensures
            final(self)@ == old(self)@.with_replication_ack_propagation_interval_msg_count(replication_ack_propagation_interval_msg_count),
    {
        self.replication_ack_propagation_interval_msg_count = Some(replication_ack_propagation_interval_msg_count);
    }

    /// Returns this value with `replicationAckPropagationIntervalMsgCount` set to the given value.
    pub fn with_replication_ack_propagation_interval_msg_count(self, replication_ack_propagation_interval_msg_count: i64) -> (r: MsgVpn)
        ensures
            r@ == self@.with_replication_ack_propagation_interval_msg_count(replication_ack_propagation_interval_msg_count),
    {
        let mut r = self;
        r.replication_ack_propagation_interval_msg_count = Some(replication_ack_propagation_interval_msg_count);
        r
    }

    /// Returns `replicationAckPropagationIntervalMsgCount` if it is present.
    pub fn replication_ack_propagation_interval_msg_count(&self) -> (r: Option<&i64>)
        ensures
            r.deep_view() == self@.replication_ack_propagation_interval_msg_count,
    {
        self.replication_ack_propagation_interval_msg_count.as_ref()
    }

    /// Removes `replicationAckPropagationIntervalMsgCount`; every other attribute is left as it was.
    pub fn reset_replication_ack_propagation_interval_msg_count(&mut self)
        ensures
            final(self)@ == old(self)@.without_replication_ack_propagation_interval_msg_count(),
    {
        self.replication_ack_propagation_interval_msg_count = None;
    }

    /// Sets `replicationBridgeAuthenticationBasicClientUsername` to the given value; every other attribute is left as it was.
    pub fn set_replication_bridge_authentication_basic_client_username(&mut self, replication_bridge_authentication_basic_client_username: String)
        ensures
            final(self)@ == old(self)@.with_replication_bridge_authentication_basic_client_username(replication_bridge_authentication_basic_client_username@),
    {
        self.replication_bridge_authentication_basic_client_username = Some(replication_bridge_authentication_basic_client_username);
    }

    /// Returns this value with `replicationBridgeAuthenticationBasicClientUsername` set to the given value.
    pub fn with_replication_bridge_authentication_basic_client_username(self, replication_bridge_authentication_basic_client_username: String) -> (r: MsgVpn)
        ensures
            r@ == self@.with_replication_bridge_authentication_basic_client_username(replication_bridge_authentication_basic_client_username@),
    {
        let mut r = self;
        r.replication_bridge_authentication_basic_client_username = Some(replication_bridge_authentication_basic_client_username);
        r
    }

    /// Returns `replicationBridgeAuthenticationBasicClientUsername` if it is present.
    pub fn replication_bridge_authentication_basic_client_username(&self) -> (r: Option<&String>)
        ensures
            r.deep_view() == self@.replication_bridge_authentication_basic_client_username,
    {
        self.replication_bridge_authentication_basic_client_username.as_ref()
    }

    /// Removes `replicationBridgeAuthenticationBasicClientUsername`; every other attribute is left as it was.
    pub fn reset_replication_bridge_authentication_basic_client_username(&mut self)
        ensures
            final(self)@ == old(self)@.without_replication_bridge_authentication_basic_client_username(),
    {
        self.replication_bridge_authentication_basic_client_username = None;
    }

    /// Sets `replicationBridgeAuthenticationBasicPassword` to the given value; every other attribute is left as it was.
    pub fn set_replication_bridge_authentication_basic_password(&mut self, replication_bridge_authentication_basic_password: String)
        ensures
            final(self)@ == old(self)@.with_replication_bridge_authentication_basic_password(replication_bridge_authentication_basic_password@),
    {
        self.replication_bridge_authentication_basic_password = Some(replication_bridge_authentication_basic_password);
    }

    /// Returns this value with `replicationBridgeAuthenticationBasicPassword` set to the given value.
    pub fn with_replication_bridge_authentication_basic_password(self, replication_bridge_authentication_basic_password: String) -> (r: MsgVpn)
        ensures
            r@ == self@.with_replication_bridge_authentication_basic_password(replication_bridge_authentication_basic_password@),
    {
        let mut r = self;
        r.replication_bridge_authentication_basic_password = Some(replication_bridge_authentication_basic_password);
        r
    }

    /// Returns `replicationBridgeAuthenticationBasicPassword` if it is present.
    pub fn replication_bridge_authentication_basic_password(&self) -> (r: Option<&String>)
        ensures
            r.deep_view() == self@.replication_bridge_authentication_basic_password,
    {
        self.replication_bridge_authentication_basic_password.as_ref()
    }

    /// Removes `replicationBridgeAuthenticationBasicPassword`; every other attribute is left as it was.
    pub fn reset_replication_bridge_authentication_basic_password(&mut self)
        ensures
            final(self)@ == old(self)@.without_replication_bridge_authentication_basic_password(),
    {
        self.replication_bridge_authentication_basic_password = None;
    }

    /// Sets `replicationBridgeAuthenticationClientCertContent` to the given value; every other attribute is left as it was.
    pub fn set_replication_bridge_authentication_client_cert_content(&mut self, replication_bridge_authentication_client_cert_content: String)
        ensures
            final(self)@ == old(self)@.with_replication_bridge_authentication_client_cert_content(replication_bridge_authentication_client_cert_content@),
    {
        self.replication_bridge_authentication_client_cert_content = Some(replication_bridge_authentication_client_cert_content);
    }

    /// Returns this value with `replicationBridgeAuthenticationClientCertContent` set to the given value.
    pub fn with_replication_bridge_authentication_client_cert_content(self, replication_bridge_authentication_client_cert_content: String) -> (r: MsgVpn)
        ensures
            r@ == self@.with_replication_bridge_authentication_client_cert_content(replication_bridge_authentication_client_cert_content@),
    {
        let mut r = self;
        r.replication_bridge_authentication_client_cert_content = Some(replication_bridge_authentication_client_cert_content);
        r
    }

    /// Returns `replicationBridgeAuthenticationClientCertContent` if it is present.
    pub fn replication_bridge_authentication_client_cert_content(&self) -> (r: Option<&String>)
        ensures
            r.deep_view() == self@.replication_bridge_authentication_client_cert_content,
    {
        self.replication_bridge_authentication_client_cert_content.as_ref()
    }

    /// Removes `replicationBridgeAuthenticationClientCertContent`; every other attribute is left as it was.
    pub fn reset_replication_bridge_authentication_client_cert_content(&mut self)
        ensures
            final(self)@ == old(self)@.without_replication_bridge_authentication_client_cert_content(),
    {
        self.replication_bridge_authentication_client_cert_content = None;
    }

    /// Sets `replicationBridgeAuthenticationClientCertPassword` to the given value; every other attribute is left as it was.
    pub fn set_replication_bridge_authentication_client_cert_password(&mut self, replication_bridge_authentication_client_cert_password: String)
        ensures
            final(self)@ == old(self)@.with_replication_bridge_authentication_client_cert_password(replication_bridge_authentication_client_cert_password@),
    {
        self.replication_bridge_authentication_client_cert_password = Some(replication_bridge_authentication_client_cert_password);
    }

    /// Returns this value with `replicationBridgeAuthenticationClientCertPassword` set to the given value.
    pub fn with_replication_bridge_authentication_client_cert_password(self, replication_bridge_authentication_client_cert_password: String) -> (r: MsgVpn)
        ensures
            r@ == self@.with_replication_bridge_authentication_client_cert_password(replication_bridge_authentication_client_cert_password@),
    {
        let mut r = self;
        r.replication_bridge_authentication_client_cert_password = Some(replication_bridge_authentication_client_cert_password);
        r
    }

    /// Returns `replicationBridgeAuthenticationClientCertPassword` if it is present.
    pub fn replication_bridge_authentication_client_cert_password(&self) -> (r: Option<&String>)
        ensures
            r.deep_view() == self@.replication_bridge_authentication_client_cert_password,
    {
        self.replication_bridge_authentication_client_cert_password.as_ref()
    }

    /// Removes `replicationBridgeAuthenticationClientCertPassword`; every other attribute is left as it was.
    pub fn reset_replication_bridge_authentication_client_cert_password(&mut self)
        ensures
            final(self)@ == old(self)@.without_replication_bridge_authentication_client_cert_password(),
    {
        self.replication_bridge_authentication_client_cert_password = None;
    }

    /// Sets `replicationBridgeAuthenticationScheme` to the given value; every other attribute is left as it was.
    pub fn set_replication_bridge_authentication_scheme(&mut self, replication_bridge_authentication_scheme: String)
        ensures
            final(self)@ == old(self)@.with_replication_bridge_authentication_scheme(replication_bridge_authentication_scheme@),
    {
        self.replication_bridge_authentication_scheme = Some(replication_bridge_authentication_scheme);
    }

    /// Returns this value with `replicationBridgeAuthenticationScheme` set to the given value.
    pub fn with_replication_bridge_authentication_scheme(self, replication_bridge_authentication_scheme: String) -> (r: MsgVpn)
        ensures
            r@ == self@.with_replication_bridge_authentication_scheme(replication_bridge_authentication_scheme@),
    {
        let mut r = self;
        r.replication_bridge_authentication_scheme = Some(replication_bridge_authentication_scheme);
        r
    }

    /// Returns `replicationBridgeAuthenticationScheme` if it is present.
    pub fn replication_bridge_authentication_scheme(&self) -> (r: Option<&String>)
        ensures
            r.deep_view() == self@.replication_bridge_authentication_scheme,
    {
        self.replication_bridge_authentication_scheme.as_ref()
    }

    /// Removes `replicationBridgeAuthenticationScheme`; every other attribute is left as it was.
    pub fn reset_replication_bridge_authentication_scheme(&mut self)
        ensures
            final(self)@ == old(self)@.without_replication_bridge_authentication_scheme(),
    {
        self.replication_bridge_authentication_scheme = None;
    }

    /// Sets `replicationBridgeCompressedDataEnabled` to the given value; every other attribute is left as it was.
    pub fn set_replication_bridge_compressed_data_enabled(&mut self, replication_bridge_compressed_data_enabled: bool)
        ensures
            final(self)@ == old(self)@.with_replication_bridge_compressed_data_enabled(replication_bridge_compressed_data_enabled),
    {
        self.replication_bridge_compressed_data_enabled = Some(replication_bridge_compressed_data_enabled);
    }

    /// Returns this value with `replicationBridgeCompressedDataEnabled` set to the given value.
    pub fn with_replication_bridge_compressed_data_enabled(self, replication_bridge_compressed_data_enabled: bool) -> (r: MsgVpn)
        ensures
            r@ == self@.with_replication_bridge_compressed_data_enabled(replication_bridge_compressed_data_enabled),
    {
        let mut r = self;
        r.replication_bridge_compressed_data_enabled = Some(replication_bridge_compressed_data_enabled);
        r
    }

    /// Returns `replicationBridgeCompressedDataEnabled` if it is present.
    pub fn replication_bridge_compressed_data_enabled(&self) -> (r: Option<&bool>)
        ensures
            r.deep_view() == self@.replication_bridge_compressed_data_enabled,
    {
        self.replication_bridge_compressed_data_enabled.as_ref()
    }

    /// Removes `replicationBridgeCompressedDataEnabled`; every other attribute is left as it was.
    pub fn reset_replication_bridge_compressed_data_enabled(&mut self)
        ensures
            final(self)@ == old(self)@.without_replication_bridge_compressed_data_enabled(),
    {
        self.replication_bridge_compressed_data_enabled = None;
    }

    /// Sets `replicationBridgeEgressFlowWindowSize` to the given value; every other attribute is left as it was.
    pub fn set_replication_bridge_egress_flow_window_size(&mut self, replication_bridge_egress_flow_window_size: i64)
        ensures
            final(self)@ == old(self)@.with_replication_bridge_egress_flow_window_size(replication_bridge_egress_flow_window_size),
    {
        self.replication_bridge_egress_flow_window_size = Some(replication_bridge_egress_flow_window_size);
    }

    /// Returns this value with `replicationBridgeEgressFlowWindowSize` set to the given value.
    pub fn with_replication_bridge_egress_flow_window_size(self, replication_bridge_egress_flow_window_size: i64) -> (r: MsgVpn)
        ensures
            r@ == self@.with_replication_bridge_egress_flow_window_size(replication_bridge_egress_flow_window_size),
    {
        let mut r = self;
        r.replication_bridge_egress_flow_window_size = Some(replication_bridge_egress_flow_window_size);
        r
    }

    /// Returns `replicationBridgeEgressFlowWindowSize` if it is present.
    pub fn replication_bridge_egress_flow_window_size(&self) -> (r: Option<&i64>)
        ensures
            r.deep_view() == self@.replication_bridge_egress_flow_window_size,
    {
        self.replication_bridge_egress_flow_window_size.as_ref()
    }

    /// Removes `replicationBridgeEgressFlowWindowSize`; every other attribute is left as it was.
    pub fn reset_replication_bridge_egress_flow_window_size(&mut self)
        ensures
            final(self)@ == old(self)@.without_replication_bridge_egress_flow_window_size(),
    {
        self.replication_bridge_egress_flow_window_size = None;
    }

    /// Sets `replicationBridgeRetryDelay` to the given value; every other attribute is left as it was.
    pub fn set_replication_bridge_retry_delay(&mut self, replication_bridge_retry_delay: i64)
        ensures
            final(self)@ == old(self)@.with_replication_bridge_retry_delay(replication_bridge_retry_delay),
    {
        self.replication_bridge_retry_delay = Some(replication_bridge_retry_delay);
    }

    /// Returns this value with `replicationBridgeRetryDelay` set to the given value.
    pub fn with_replication_bridge_retry_delay(self, replication_bridge_retry_delay: i64) -> (r: MsgVpn)
        ensures
            r@ == self@.with_replication_bridge_retry_delay(replication_bridge_retry_delay),
    {
        let mut r = self;
        r.replication_bridge_retry_delay = Some(replication_bridge_retry_delay);
        r
    }

    /// Returns `replicationBridgeRetryDelay` if it is present.
    pub fn replication_bridge_retry_delay(&self) -> (r: Option<&i64>)
        ensures
            r.deep_view() == self@.replication_bridge_retry_delay,
    {
        self.replication_bridge_retry_delay.as_ref()
    }

    /// Removes `replicationBridgeRetryDelay`; every other attribute is left as it was.
    pub fn reset_replication_bridge_retry_delay(&mut self)
        ensures
            final(self)@ == old(self)@.without_replication_bridge_retry_delay(),
    {
        self.replication_bridge_retry_delay = None;
    }

    /// Sets `replicationBridgeTlsEnabled` to the given value; every other attribute is left as it was.
    pub fn set_replication_bridge_tls_enabled(&mut self, replication_bridge_tls_enabled: bool)
        ensures
            final(self)@ == old(self)@.with_replication_bridge_tls_enabled(replication_bridge_tls_enabled),
    {
        self.replication_bridge_tls_enabled = Some(replication_bridge_tls_enabled);
    }

    /// Returns this value with `replicationBridgeTlsEnabled` set to the given value.
    pub fn with_replication_bridge_tls_enabled(self, replication_bridge_tls_enabled: bool) -> (r: MsgVpn)
        ensures
            r@ == self@.with_replication_bridge_tls_enabled(replication_bridge_tls_enabled),
    {
        let mut r = self;
        r.replication_bridge_tls_enabled = Some(replication_bridge_tls_enabled);
        r
    }

    /// Returns `replicationBridgeTlsEnabled` if it is present.
    pub fn replication_bridge_tls_enabled(&self) -> (r: Option<&bool>)
        ensures
            r.deep_view() == self@.replication_bridge_tls_enabled,
    {
        self.replication_bridge_tls_enabled.as_ref()
    }

    /// Removes `replicationBridgeTlsEnabled`; every other attribute is left as it was.
    pub fn reset_replication_bridge_tls_enabled(&mut self)
        ensures
            final(self)@ == old(self)@.without_replication_bridge_tls_enabled(),
    {
        self.replication_bridge_tls_enabled = None;
    }

    /// Sets `replicationBridgeUnidirectionalClientProfileName` to the given value; every other attribute is left as it was.
    pub fn set_replication_bridge_unidirectional_client_profile_name(&mut self, replication_bridge_unidirectional_client_profile_name: String)
        ensures
            final(self)@ == old(self)@.with_replication_bridge_unidirectional_client_profile_name(replication_bridge_unidirectional_client_profile_name@),
    {
        self.replication_bridge_unidirectional_client_profile_name = Some(replication_bridge_unidirectional_client_profile_name);
    }

    /// Returns this value with `replicationBridgeUnidirectionalClientProfileName` set to the given value.
    pub fn with_replication_bridge_unidirectional_client_profile_name(self, replication_bridge_unidirectional_client_profile_name: String) -> (r: MsgVpn)
        ensures
            r@ == self@.with_replication_bridge_unidirectional_client_profile_name(replication_bridge_unidirectional_client_profile_name@),
    {
        let mut r = self;
        r.replication_bridge_unidirectional_client_profile_name = Some(replication_bridge_unidirectional_client_profile_name);
        r
    }

    /// Returns `replicationBridgeUnidirectionalClientProfileName` if it is present.
    pub fn replication_bridge_unidirectional_client_profile_name(&self) -> (r: Option<&String>)
        ensures
            r.deep_view() == self@.replication_bridge_unidirectional_client_profile_name,
    {
        self.replication_bridge_unidirectional_client_profile_name.as_ref()
    }

    /// Removes `replicationBridgeUnidirectionalClientProfileName`; every other attribute is left as it was.
    pub fn reset_replication_bridge_unidirectional_client_profile_name(&mut self)
        ensures
            final(self)@ == old(self)@.without_replication_bridge_unidirectional_client_profile_name(),
    {
        self.replication_bridge_unidirectional_client_profile_name = None;
    }

    /// Sets `replicationEnabled` to the given value; every other attribute is left as it was.
    pub fn set_replication_enabled(&mut self, replication_enabled: bool)
        ensures
            final(self)@ == old(self)@.with_replication_enabled(replication_enabled),
    {
        self.replication_enabled = Some(replication_enabled);
    }

    /// Returns this value with `replicationEnabled` set to the given value.
    pub fn with_replication_enabled(self, replication_enabled: bool) -> (r: MsgVpn)
        ensures
            r@ == self@.with_replication_enabled(replication_enabled),
    {
        let mut r = self;
        r.replication_enabled = Some(replication_enabled);
        r
    }

    /// Returns `replicationEnabled` if it is present.
    pub fn replication_enabled(&self) -> (r: Option<&bool>)
        ensures
            r.deep_view() == self@.replication_enabled,
    {
        self.replication_enabled.as_ref()
    }

    /// Removes `replicationEnabled`; every other attribute is left as it was.
    pub fn reset_replication_enabled(&mut self)
        ensures
            final(self)@ == old(self)@.without_replication_enabled(),
    {
        self.replication_enabled = None;
    }

    /// Sets `replicationEnabledQueueBehavior` to the given value; every other attribute is left as it was.
    pub fn set_replication_enabled_queue_behavior(&mut self, replication_enabled_queue_behavior: String)
        ensures
            final(self)@ == old(self)@.with_replication_enabled_queue_behavior(replication_enabled_queue_behavior@),
    {
        self.replication_enabled_queue_behavior = Some(replication_enabled_queue_behavior);
    }

    /// Returns this value with `replicationEnabledQueueBehavior` set to the given value.
    pub fn with_replication_enabled_queue_behavior(self, replication_enabled_queue_behavior: String) -> (r: MsgVpn)
        ensures
            r@ == self@.with_replication_enabled_queue_behavior(replication_enabled_queue_behavior@),
    {
        let mut r = self;
        r.replication_enabled_queue_behavior = Some(replication_enabled_queue_behavior);
        r
    }

    /// Returns `replicationEnabledQueueBehavior` if it is present.
    pub fn replication_enabled_queue_behavior(&self) -> (r: Option<&String>)
        ensures
            r.deep_view() == self@.replication_enabled_queue_behavior,
    {
        self.replication_enabled_queue_behavior.as_ref()
    }

    /// Removes `replicationEnabledQueueBehavior`; every other attribute is left as it was.
    pub fn reset_replication_enabled_queue_behavior(&mut self)
        ensures
            final(self)@ == old(self)@.without_replication_enabled_queue_behavior(),
    {
        self.replication_enabled_queue_behavior = None;
    }

    /// Sets `replicationQueueMaxMsgSpoolUsage` to the given value; every other attribute is left as it was.
    pub fn set_replication_queue_max_msg_spool_usage(&mut self, replication_queue_max_msg_spool_usage: i64)
        ensures
            final(self)@ == old(self)@.with_replication_queue_max_msg_spool_usage(replication_queue_max_msg_spool_usage),
    {
        self.replication_queue_max_msg_spool_usage = Some(replication_queue_max_msg_spool_usage);
    }

    /// Returns this value with `replicationQueueMaxMsgSpoolUsage` set to the given value.
    pub fn with_replication_queue_max_msg_spool_usage(self, replication_queue_max_msg_spool_usage: i64) -> (r: MsgVpn)
        ensures
            r@ == self@.with_replication_queue_max_msg_spool_usage(replication_queue_max_msg_spool_usage),
    {
        let mut r = self;
        r.replication_queue_max_msg_spool_usage = Some(replication_queue_max_msg_spool_usage);
        r
    }

    /// Returns `replicationQueueMaxMsgSpoolUsage` if it is present.
    pub fn replication_queue_max_msg_spool_usage(&self) -> (r: Option<&i64>)
        ensures
            r.deep_view() == self@.replication_queue_max_msg_spool_usage,
    {
        self.replication_queue_max_msg_spool_usage.as_ref()
    }

    /// Removes `replicationQueueMaxMsgSpoolUsage`; every other attribute is left as it was.
    pub fn reset_replication_queue_max_msg_spool_usage(&mut self)
        ensures
            final(self)@ == old(self)@.without_replication_queue_max_msg_spool_usage(),
    {
        self.replication_queue_max_msg_spool_usage = None;
    }

    /// Sets `replicationQueueRejectMsgToSenderOnDiscardEnabled` to the given value; every other attribute is left as it was.
    pub fn set_replication_queue_reject_msg_to_sender_on_discard_enabled(&mut self, replication_queue_reject_msg_to_sender_on_discard_enabled: bool)
        ensures
            final(self)@ == old(self)@.with_replication_queue_reject_msg_to_sender_on_discard_enabled(replication_queue_reject_msg_to_sender_on_discard_enabled),
    {
        self.replication_queue_reject_msg_to_sender_on_discard_enabled = Some(replication_queue_reject_msg_to_sender_on_discard_enabled);
    }

    /// Returns this value with `replicationQueueRejectMsgToSenderOnDiscardEnabled` set to the given value.
    pub fn with_replication_queue_reject_msg_to_sender_on_discard_enabled(self, replication_queue_reject_msg_to_sender_on_discard_enabled: bool) -> (r: MsgVpn)
        ensures
            r@ == self@.with_replication_queue_reject_msg_to_sender_on_discard_enabled(replication_queue_reject_msg_to_sender_on_discard_enabled),
    {
        let mut r = self;
        r.replication_queue_reject_msg_to_sender_on_discard_enabled = Some(replication_queue_reject_msg_to_sender_on_discard_enabled);
        r
    }

    /// Returns `replicationQueueRejectMsgToSenderOnDiscardEnabled` if it is present.
    pub fn replication_queue_reject_msg_to_sender_on_discard_enabled(&self) -> (r: Option<&bool>)
        ensures
            r.deep_view() == self@.replication_queue_reject_msg_to_sender_on_discard_enabled,
    {
        self.replication_queue_reject_msg_to_sender_on_discard_enabled.as_ref()
    }

    /// Removes `replicationQueueRejectMsgToSenderOnDiscardEnabled`; every other attribute is left as it was.
    pub fn reset_replication_queue_reject_msg_to_sender_on_discard_enabled(&mut self)
        ensures
            final(self)@ == old(self)@.without_replication_queue_reject_msg_to_sender_on_discard_enabled(),
    {
        self.replication_queue_reject_msg_to_sender_on_discard_enabled = None;
    }

    /// Sets `replicationRejectMsgWhenSyncIneligibleEnabled` to the given value; every other attribute is left as it was.
    pub fn set_replication_reject_msg_when_sync_ineligible_enabled(&mut self, replication_reject_msg_when_sync_ineligible_enabled: bool)
        ensures
            final(self)@ == old(self)@.with_replication_reject_msg_when_sync_ineligible_enabled(replication_reject_msg_when_sync_ineligible_enabled),
    {
        self.replication_reject_msg_when_sync_ineligible_enabled = Some(replication_reject_msg_when_sync_ineligible_enabled);
    }

    /// Returns this value with `replicationRejectMsgWhenSyncIneligibleEnabled` set to the given value.
    pub fn with_replication_reject_msg_when_sync_ineligible_enabled(self, replication_reject_msg_when_sync_ineligible_enabled: bool) -> (r: MsgVpn)
        ensures
            r@ == self@.with_replication_reject_msg_when_sync_ineligible_enabled(replication_reject_msg_when_sync_ineligible_enabled),
    {
        let mut r = self;
        r.replication_reject_msg_when_sync_ineligible_enabled = Some(replication_reject_msg_when_sync_ineligible_enabled);
        r
    }

    /// Returns `replicationRejectMsgWhenSyncIneligibleEnabled` if it is present.
    pub fn replication_reject_msg_when_sync_ineligible_enabled(&self) -> (r: Option<&bool>)
        ensures
            r.deep_view() == self@.replication_reject_msg_when_sync_ineligible_enabled,
    {
        self.replication_reject_msg_when_sync_ineligible_enabled.as_ref()
    }

    /// Removes `replicationRejectMsgWhenSyncIneligibleEnabled`; every other attribute is left as it was.
    pub fn reset_replication_reject_msg_when_sync_ineligible_enabled(&mut self)
        ensures
            final(self)@ == old(self)@.without_replication_reject_msg_when_sync_ineligible_enabled(),
    {
        self.replication_reject_msg_when_sync_ineligible_enabled = None;
    }

    /// Sets `replicationRole` to the given value; every other attribute is left as it was.
    pub fn set_replication_role(&mut self, replication_role: String)
        ensures
            final(self)@ == old(self)@.with_replication_role(replication_role@),
    {
        self.replication_role = Some(replication_role);
    }

    /// Returns this value with `replicationRole` set to the given value.
    pub fn with_replication_role(self, replication_role: String) -> (r: MsgVpn)
        ensures
            r@ == self@.with_replication_role(replication_role@),
    {
        let mut r = self;
        r.replication_role = Some(replication_role);
        r
    }

    /// Returns `replicationRole` if it is present.
    pub fn replication_role(&self) -> (r: Option<&String>)
        ensures
            r.deep_view() == self@.replication_role,
    {
        self.replication_role.as_ref()
    }

    /// Removes `replicationRole`; every other attribute is left as it was.
    pub fn reset_replication_role(&mut self)
        ensures
            final(self)@ == old(self)@.without_replication_role(),
    {
        self.replication_role = None;
    }

    /// Sets `replicationTransactionMode` to the given value; every other attribute is left as it was.
    pub fn set_replication_transaction_mode(&mut self, replication_transaction_mode: String)
        ensures
            final(self)@ == old(self)@.with_replication_transaction_mode(replication_transaction_mode@),
    {
        self.replication_transaction_mode = Some(replication_transaction_mode);
    }

    /// Returns this value with `replicationTransactionMode` set to the given value.
    pub fn with_replication_transaction_mode(self, replication_transaction_mode: String) -> (r: MsgVpn)
        ensures
            r@ == self@.with_replication_transaction_mode(replication_transaction_mode@),
    {
        let mut r = self;
        r.replication_transaction_mode = Some(replication_transaction_mode);
        r
    }

    /// Returns `replicationTransactionMode` if it is present.
    pub fn replication_transaction_mode(&self) -> (r: Option<&String>)
        ensures
            r.deep_view() == self@.replication_transaction_mode,
    {
        self.replication_transaction_mode.as_ref()
    }

    /// Removes `replicationTransactionMode`; every other attribute is left as it was.
    pub fn reset_replication_transaction_mode(&mut self)
        ensures
            final(self)@ == old(self)@.without_replication_transaction_mode(),
    {
        self.replication_transaction_mode = None;
    }

    /// Sets `restTlsServerCertEnforceTrustedCommonNameEnabled` to the given value; every other attribute is left as it was.
    pub fn set_rest_tls_server_cert_enforce_trusted_common_name_enabled(&mut self, rest_tls_server_cert_enforce_trusted_common_name_enabled: bool)
        ensures
            final(self)@ == old(self)@.with_rest_tls_server_cert_enforce_trusted_common_name_enabled(rest_tls_server_cert_enforce_trusted_common_name_enabled),
    {
        self.rest_tls_server_cert_enforce_trusted_common_name_enabled = Some(rest_tls_server_cert_enforce_trusted_common_name_enabled);
    }

    /// Returns this value with `restTlsServerCertEnforceTrustedCommonNameEnabled` set to the given value.
    pub fn with_rest_tls_server_cert_enforce_trusted_common_name_enabled(self, rest_tls_server_cert_enforce_trusted_common_name_enabled: bool) -> (r: MsgVpn)
        ensures
            r@ == self@.with_rest_tls_server_cert_enforce_trusted_common_name_enabled(rest_tls_server_cert_enforce_trusted_common_name_enabled),
    {
        let mut r = self;
        r.rest_tls_server_cert_enforce_trusted_common_name_enabled = Some(rest_tls_server_cert_enforce_trusted_common_name_enabled);
        r
    }

    /// Returns `restTlsServerCertEnforceTrustedCommonNameEnabled` if it is present.
    pub fn rest_tls_server_cert_enforce_trusted_common_name_enabled(&self) -> (r: Option<&bool>)
        ensures
            r.deep_view() == self@.rest_tls_server_cert_enforce_trusted_common_name_enabled,
    {
        self.rest_tls_server_cert_enforce_trusted_common_name_enabled.as_ref()
    }

    /// Removes `restTlsServerCertEnforceTrustedCommonNameEnabled`; every other attribute is left as it was.
    pub fn reset_rest_tls_server_cert_enforce_trusted_common_name_enabled(&mut self)
        ensures
            final(self)@ == old(self)@.without_rest_tls_server_cert_enforce_trusted_common_name_enabled(),
    {
        self.rest_tls_server_cert_enforce_trusted_common_name_enabled = None;
    }

    /// Sets `restTlsServerCertMaxChainDepth` to the given value; every other attribute is left as it was.
    pub fn set_rest_tls_server_cert_max_chain_depth(&mut self, rest_tls_server_cert_max_chain_depth: i64)
        ensures
            final(self)@ == old(self)@.with_rest_tls_server_cert_max_chain_depth(rest_tls_server_cert_max_chain_depth),
    {
        self.rest_tls_server_cert_max_chain_depth = Some(rest_tls_server_cert_max_chain_depth);
    }

    /// Returns this value with `restTlsServerCertMaxChainDepth` set to the given value.
    pub fn with_rest_tls_server_cert_max_chain_depth(self, rest_tls_server_cert_max_chain_depth: i64) -> (r: MsgVpn)
        ensures
            r@ == self@.with_rest_tls_server_cert_max_chain_depth(rest_tls_server_cert_max_chain_depth),
    {
        let mut r = self;
        r.rest_tls_server_cert_max_chain_depth = Some(rest_tls_server_cert_max_chain_depth);
        r
    }

    /// Returns `restTlsServerCertMaxChainDepth` if it is present.
    pub fn rest_tls_server_cert_max_chain_depth(&self) -> (r: Option<&i64>)
        ensures
            r.deep_view() == self@.rest_tls_server_cert_max_chain_depth,
    {
        self.rest_tls_server_cert_max_chain_depth.as_ref()
    }

    /// Removes `restTlsServerCertMaxChainDepth`; every other attribute is left as it was.
    pub fn reset_rest_tls_server_cert_max_chain_depth(&mut self)
        ensures
            final(self)@ == old(self)@.without_rest_tls_server_cert_max_chain_depth(),
    {
        self.rest_tls_server_cert_max_chain_depth = None;
    }

    /// Sets `restTlsServerCertValidateDateEnabled` to the given value; every other attribute is left as it was.
    pub fn set_rest_tls_server_cert_validate_date_enabled(&mut self, rest_tls_server_cert_validate_date_enabled: bool)
        ensures
            final(self)@ == old(self)@.with_rest_tls_server_cert_validate_date_enabled(rest_tls_server_cert_validate_date_enabled),
    {
        self.rest_tls_server_cert_validate_date_enabled = Some(rest_tls_server_cert_validate_date_enabled);
    }

    /// Returns this value with `restTlsServerCertValidateDateEnabled` set to the given value.
    pub fn with_rest_tls_server_cert_validate_date_enabled(self, rest_tls_server_cert_validate_date_enabled: bool) -> (r: MsgVpn)
        ensures
            r@ == self@.with_rest_tls_server_cert_validate_date_enabled(rest_tls_server_cert_validate_date_enabled),
    {
        let mut r = self;
        r.rest_tls_server_cert_validate_date_enabled = Some(rest_tls_server_cert_validate_date_enabled);
        r
    }

    /// Returns `restTlsServerCertValidateDateEnabled` if it is present.
    pub fn rest_tls_server_cert_validate_date_enabled(&self) -> (r: Option<&bool>)
        ensures
            r.deep_view() == self@.rest_tls_server_cert_validate_date_enabled,
    {
        self.rest_tls_server_cert_validate_date_enabled.as_ref()
    }

    /// Removes `restTlsServerCertValidateDateEnabled`; every other attribute is left as it was.
    pub fn reset_rest_tls_server_cert_validate_date_enabled(&mut self)
        ensures
            final(self)@ == old(self)@.without_rest_tls_server_cert_validate_date_enabled(),
    {
        self.rest_tls_server_cert_validate_date_enabled = None;
    }

    /// Sets `sempOverMsgBusAdminClientEnabled` to the given value; every other attribute is left as it was.
    pub fn set_semp_over_msg_bus_admin_client_enabled(&mut self, semp_over_msg_bus_admin_client_enabled: bool)
        ensures
            final(self)@ == old(self)@.with_semp_over_msg_bus_admin_client_enabled(semp_over_msg_bus_admin_client_enabled),
    {
        self.semp_over_msg_bus_admin_client_enabled = Some(semp_over_msg_bus_admin_client_enabled);
    }

    /// Returns this value with `sempOverMsgBusAdminClientEnabled` set to the given value.
    pub fn with_semp_over_msg_bus_admin_client_enabled(self, semp_over_msg_bus_admin_client_enabled: bool) -> (r: MsgVpn)
        ensures
            r@ == self@.with_semp_over_msg_bus_admin_client_enabled(semp_over_msg_bus_admin_client_enabled),
    {
        let mut r = self;
        r.semp_over_msg_bus_admin_client_enabled = Some(semp_over_msg_bus_admin_client_enabled);
        r
    }

    /// Returns `sempOverMsgBusAdminClientEnabled` if it is present.
    pub fn semp_over_msg_bus_admin_client_enabled(&self) -> (r: Option<&bool>)
        ensures
            r.deep_view() == self@.semp_over_msg_bus_admin_client_enabled,
    {
        self.semp_over_msg_bus_admin_client_enabled.as_ref()
    }

    /// Removes `sempOverMsgBusAdminClientEnabled`; every other attribute is left as it was.
    pub fn reset_semp_over_msg_bus_admin_client_enabled(&mut self)
        ensures
            final(self)@ == old(self)@.without_semp_over_msg_bus_admin_client_enabled(),
    {
        self.semp_over_msg_bus_admin_client_enabled = None;
    }

    /// Sets `sempOverMsgBusAdminDistributedCacheEnabled` to the given value; every other attribute is left as it was.
    pub fn set_semp_over_msg_bus_admin_distributed_cache_enabled(&mut self, semp_over_msg_bus_admin_distributed_cache_enabled: bool)
        ensures
            final(self)@ == old(self)@.with_semp_over_msg_bus_admin_distributed_cache_enabled(semp_over_msg_bus_admin_distributed_cache_enabled),
    {
        self.semp_over_msg_bus_admin_distributed_cache_enabled = Some(semp_over_msg_bus_admin_distributed_cache_enabled);
    }

    /// Returns this value with `sempOverMsgBusAdminDistributedCacheEnabled` set to the given value.
    pub fn with_semp_over_msg_bus_admin_distributed_cache_enabled(self, semp_over_msg_bus_admin_distributed_cache_enabled: bool) -> (r: MsgVpn)
        ensures
            r@ == self@.with_semp_over_msg_bus_admin_distributed_cache_enabled(semp_over_msg_bus_admin_distributed_cache_enabled),
    {
        let mut r = self;
        r.semp_over_msg_bus_admin_distributed_cache_enabled = Some(semp_over_msg_bus_admin_distributed_cache_enabled);
        r
    }

    /// Returns `sempOverMsgBusAdminDistributedCacheEnabled` if it is present.
    pub fn semp_over_msg_bus_admin_distributed_cache_enabled(&self) -> (r: Option<&bool>)
        ensures
            r.deep_view() == self@.semp_over_msg_bus_admin_distributed_cache_enabled,
    {
        self.semp_over_msg_bus_admin_distributed_cache_enabled.as_ref()
    }

    /// Removes `sempOverMsgBusAdminDistributedCacheEnabled`; every other attribute is left as it was.
    pub fn reset_semp_over_msg_bus_admin_distributed_cache_enabled(&mut self)
        ensures
            final(self)@ == old(self)@.without_semp_over_msg_bus_admin_distributed_cache_enabled(),
    {
        self.semp_over_msg_bus_admin_distributed_cache_enabled = None;
    }

    /// Sets `sempOverMsgBusAdminEnabled` to the given value; every other attribute is left as it was.
    pub fn set_semp_over_msg_bus_admin_enabled(&mut self, semp_over_msg_bus_admin_enabled: bool)
        ensures
            final(self)@ == old(self)@.with_semp_over_msg_bus_admin_enabled(semp_over_msg_bus_admin_enabled),
    {
        self.semp_over_msg_bus_admin_enabled = Some(semp_over_msg_bus_admin_enabled);
    }

    /// Returns this value with `sempOverMsgBusAdminEnabled` set to the given value.
    pub fn with_semp_over_msg_bus_admin_enabled(self, semp_over_msg_bus_admin_enabled: bool) -> (r: MsgVpn)
        ensures
            r@ == self@.with_semp_over_msg_bus_admin_enabled(semp_over_msg_bus_admin_enabled),
    {
        let mut r = self;
        r.semp_over_msg_bus_admin_enabled = Some(semp_over_msg_bus_admin_enabled);
        r
    }

    /// Returns `sempOverMsgBusAdminEnabled` if it is present.
    pub fn semp_over_msg_bus_admin_enabled(&self) -> (r: Option<&bool>)
        ensures
            r.deep_view() == self@.semp_over_msg_bus_admin_enabled,
    {
        self.semp_over_msg_bus_admin_enabled.as_ref()
    }

    /// Removes `sempOverMsgBusAdminEnabled`; every other attribute is left as it was.
    pub fn reset_semp_over_msg_bus_admin_enabled(&mut self)
        ensures
            final(self)@ == old(self)@.without_semp_over_msg_bus_admin_enabled(),
    {
        self.semp_over_msg_bus_admin_enabled = None;
    }

    /// Sets `sempOverMsgBusEnabled` to the given value; every other attribute is left as it was.
    pub fn set_semp_over_msg_bus_enabled(&mut self, semp_over_msg_bus_enabled: bool)
        ensures
            final(self)@ == old(self)@.with_semp_over_msg_bus_enabled(semp_over_msg_bus_enabled),
    {
        self.semp_over_msg_bus_enabled = Some(semp_over_msg_bus_enabled);
    }

    /// Returns this value with `sempOverMsgBusEnabled` set to the given value.
    pub fn with_semp_over_msg_bus_enabled(self, semp_over_msg_bus_enabled: bool) -> (r: MsgVpn)
        ensures
            r@ == self@.with_semp_over_msg_bus_enabled(semp_over_msg_bus_enabled),
    {
        let mut r = self;
        r.semp_over_msg_bus_enabled = Some(semp_over_msg_bus_enabled);
        r
    }

    /// Returns `sempOverMsgBusEnabled` if it is present.
    pub fn semp_over_msg_bus_enabled(&self) -> (r: Option<&bool>)
        ensures
            r.deep_view() == self@.semp_over_msg_bus_enabled,
    {
        self.semp_over_msg_bus_enabled.as_ref()
    }

    /// Removes `sempOverMsgBusEnabled`; every other attribute is left as it was.
    pub fn reset_semp_over_msg_bus_enabled(&mut self)
        ensures
            final(self)@ == old(self)@.without_semp_over_msg_bus_enabled(),
    {
        self.semp_over_msg_bus_enabled = None;
    }

    /// Sets `sempOverMsgBusShowEnabled` to the given value; every other attribute is left as it was.
    pub fn set_semp_over_msg_bus_show_enabled(&mut self, semp_over_msg_bus_show_enabled: bool)
        ensures
            final(self)@ == old(self)@.with_semp_over_msg_bus_show_enabled(semp_over_msg_bus_show_enabled),
    {
        self.semp_over_msg_bus_show_enabled = Some(semp_over_msg_bus_show_enabled);
    }

    /// Returns this value with `sempOverMsgBusShowEnabled` set to the given value.
    pub fn with_semp_over_msg_bus_show_enabled(self, semp_over_msg_bus_show_enabled: bool) -> (r: MsgVpn)
        ensures
            r@ == self@.with_semp_over_msg_bus_show_enabled(semp_over_msg_bus_show_enabled),
    {
        let mut r = self;
        r.semp_over_msg_bus_show_enabled = Some(semp_over_msg_bus_show_enabled);
        r
    }

    /// Returns `sempOverMsgBusShowEnabled` if it is present.
    pub fn semp_over_msg_bus_show_enabled(&self) -> (r: Option<&bool>)
        ensures
            r.deep_view() == self@.semp_over_msg_bus_show_enabled,
    {
        self.semp_over_msg_bus_show_enabled.as_ref()
    }

    /// Removes `sempOverMsgBusShowEnabled`; every other attribute is left as it was.
    pub fn reset_semp_over_msg_bus_show_enabled(&mut self)
        ensures
            final(self)@ == old(self)@.without_semp_over_msg_bus_show_enabled(),
    {
        self.semp_over_msg_bus_show_enabled = None;
    }

    /// Sets `serviceAmqpMaxConnectionCount` to the given value; every other attribute is left as it was.
    pub fn set_service_amqp_max_connection_count(&mut self, service_amqp_max_connection_count: i64)
        ensures
            final(self)@ == old(self)@.with_service_amqp_max_connection_count(service_amqp_max_connection_count),
    {
        self.service_amqp_max_connection_count = Some(service_amqp_max_connection_count);
    }

    /// Returns this value with `serviceAmqpMaxConnectionCount` set to the given value.
    pub fn with_service_amqp_max_connection_count(self, service_amqp_max_connection_count: i64) -> (r: MsgVpn)
        ensures
            r@ == self@.with_service_amqp_max_connection_count(service_amqp_max_connection_count),
    {
        let mut r = self;
        r.service_amqp_max_connection_count = Some(service_amqp_max_connection_count);
        r
    }

    /// Returns `serviceAmqpMaxConnectionCount` if it is present.
    pub fn service_amqp_max_connection_count(&self) -> (r: Option<&i64>)
        ensures
            r.deep_view() == self@.service_amqp_max_connection_count,
    {
        self.service_amqp_max_connection_count.as_ref()
    }

    /// Removes `serviceAmqpMaxConnectionCount`; every other attribute is left as it was.
    pub fn reset_service_amqp_max_connection_count(&mut self)
        ensures
            final(self)@ == old(self)@.without_service_amqp_max_connection_count(),
    {
        self.service_amqp_max_connection_count = None;
    }

    /// Sets `serviceAmqpPlainTextEnabled` to the given value; every other attribute is left as it was.
    pub fn set_service_amqp_plain_text_enabled(&mut self, service_amqp_plain_text_enabled: bool)
        ensures
            final(self)@ == old(self)@.with_service_amqp_plain_text_enabled(service_amqp_plain_text_enabled),
    {
        self.service_amqp_plain_text_enabled = Some(service_amqp_plain_text_enabled);
    }

    /// Returns this value with `serviceAmqpPlainTextEnabled` set to the given value.
    pub fn with_service_amqp_plain_text_enabled(self, service_amqp_plain_text_enabled: bool) -> (r: MsgVpn)
        ensures
            r@ == self@.with_service_amqp_plain_text_enabled(service_amqp_plain_text_enabled),
    {
        let mut r = self;
        r.service_amqp_plain_text_enabled = Some(service_amqp_plain_text_enabled);
        r
    }

    /// Returns `serviceAmqpPlainTextEnabled` if it is present.
    pub fn service_amqp_plain_text_enabled(&self) -> (r: Option<&bool>)
        ensures
            r.deep_view() == self@.service_amqp_plain_text_enabled,
    {
        self.service_amqp_plain_text_enabled.as_ref()
    }

    /// Removes `serviceAmqpPlainTextEnabled`; every other attribute is left as it was.
    pub fn reset_service_amqp_plain_text_enabled(&mut self)
        ensures
            final(self)@ == old(self)@.without_service_amqp_plain_text_enabled(),
    {
        self.service_amqp_plain_text_enabled = None;
    }

    /// Sets `serviceAmqpPlainTextListenPort` to the given value; every other attribute is left as it was.
    pub fn set_service_amqp_plain_text_listen_port(&mut self, service_amqp_plain_text_listen_port: i64)
        ensures
            final(self)@ == old(self)@.with_service_amqp_plain_text_listen_port(service_amqp_plain_text_listen_port),
    {
        self.service_amqp_plain_text_listen_port = Some(service_amqp_plain_text_listen_port);
    }

    /// Returns this value with `serviceAmqpPlainTextListenPort` set to the given value.
    pub fn with_service_amqp_plain_text_listen_port(self, service_amqp_plain_text_listen_port: i64) -> (r: MsgVpn)
        ensures
            r@ == self@.with_service_amqp_plain_text_listen_port(service_amqp_plain_text_listen_port),
    {
        let mut r = self;
        r.service_amqp_plain_text_listen_port = Some(service_amqp_plain_text_listen_port);
        r
    }

    /// Returns `serviceAmqpPlainTextListenPort` if it is present.
    pub fn service_amqp_plain_text_listen_port(&self) -> (r: Option<&i64>)
        ensures
            r.deep_view() == self@.service_amqp_plain_text_listen_port,
    {
        self.service_amqp_plain_text_listen_port.as_ref()
    }

    /// Removes `serviceAmqpPlainTextListenPort`; every other attribute is left as it was.
    pub fn reset_service_amqp_plain_text_listen_port(&mut self)
        ensures
            final(self)@ == old(self)@.without_service_amqp_plain_text_listen_port(),
    {
        self.service_amqp_plain_text_listen_port = None;
    }

    /// Sets `serviceAmqpTlsEnabled` to the given value; every other attribute is left as it was.
    pub fn set_service_amqp_tls_enabled(&mut self, service_amqp_tls_enabled: bool)
        ensures
            final(self)@ == old(self)@.with_service_amqp_tls_enabled(service_amqp_tls_enabled),
    {
        self.service_amqp_tls_enabled = Some(service_amqp_tls_enabled);
    }

    /// Returns this value with `serviceAmqpTlsEnabled` set to the given value.
    pub fn with_service_amqp_tls_enabled(self, service_amqp_tls_enabled: bool) -> (r: MsgVpn)
        ensures
            r@ == self@.with_service_amqp_tls_enabled(service_amqp_tls_enabled),
    {
        let mut r = self;
        r.service_amqp_tls_enabled = Some(service_amqp_tls_enabled);
        r
    }

    /// Returns `serviceAmqpTlsEnabled` if it is present.
    pub fn service_amqp_tls_enabled(&self) -> (r: Option<&bool>)
        ensures
            r.deep_view() == self@.service_amqp_tls_enabled,
    {
        self.service_amqp_tls_enabled.as_ref()
    }

    /// Removes `serviceAmqpTlsEnabled`; every other attribute is left as it was.
    pub fn reset_service_amqp_tls_enabled(&mut self)
        ensures
            final(self)@ == old(self)@.without_service_amqp_tls_enabled(),
    {
        self.service_amqp_tls_enabled = None;
    }

    /// Sets `serviceAmqpTlsListenPort` to the given value; every other attribute is left as it was.
    pub fn set_service_amqp_tls_listen_port(&mut self, service_amqp_tls_listen_port: i64)
        ensures
            final(self)@ == old(self)@.with_service_amqp_tls_listen_port(service_amqp_tls_listen_port),
    {
        self.service_amqp_tls_listen_port = Some(service_amqp_tls_listen_port);
    }

    /// Returns this value with `serviceAmqpTlsListenPort` set to the given value.
    pub fn with_service_amqp_tls_listen_port(self, service_amqp_tls_listen_port: i64) -> (r: MsgVpn)
        ensures
            r@ == self@.with_service_amqp_tls_listen_port(service_amqp_tls_listen_port),
    {
        let mut r = self;
        r.service_amqp_tls_listen_port = Some(service_amqp_tls_listen_port);
        r
    }

    /// Returns `serviceAmqpTlsListenPort` if it is present.
    pub fn service_amqp_tls_listen_port(&self) -> (r: Option<&i64>)
        ensures
            r.deep_view() == self@.service_amqp_tls_listen_port,
    {
        self.service_amqp_tls_listen_port.as_ref()
    }

    /// Removes `serviceAmqpTlsListenPort`; every other attribute is left as it was.
    pub fn reset_service_amqp_tls_listen_port(&mut self)
        ensures
            final(self)@ == old(self)@.without_service_amqp_tls_listen_port(),
    {
        self.service_amqp_tls_listen_port = None;
    }

    /// Sets `serviceMqttMaxConnectionCount` to the given value; every other attribute is left as it was.
    pub fn set_service_mqtt_max_connection_count(&mut self, service_mqtt_max_connection_count: i64)
        ensures
            final(self)@ == old(self)@.with_service_mqtt_max_connection_count(service_mqtt_max_connection_count),
    {
        self.service_mqtt_max_connection_count = Some(service_mqtt_max_connection_count);
    }

    /// Returns this value with `serviceMqttMaxConnectionCount` set to the given value.
    pub fn with_service_mqtt_max_connection_count(self, service_mqtt_max_connection_count: i64) -> (r: MsgVpn)
        ensures
            r@ == self@.with_service_mqtt_max_connection_count(service_mqtt_max_connection_count),
    {
        let mut r = self;
        r.service_mqtt_max_connection_count = Some(service_mqtt_max_connection_count);
        r
    }

    /// Returns `serviceMqttMaxConnectionCount` if it is present.
    pub fn service_mqtt_max_connection_count(&self) -> (r: Option<&i64>)
        ensures
            r.deep_view() == self@.service_mqtt_max_connection_count,
    {
        self.service_mqtt_max_connection_count.as_ref()
    }

    /// Removes `serviceMqttMaxConnectionCount`; every other attribute is left as it was.
    pub fn reset_service_mqtt_max_connection_count(&mut self)
        ensures
            final(self)@ == old(self)@.without_service_mqtt_max_connection_count(),
    {
        self.service_mqtt_max_connection_count = None;
    }

    /// Sets `serviceMqttPlainTextEnabled` to the given value; every other attribute is left as it was.
    pub fn set_service_mqtt_plain_text_enabled(&mut self, service_mqtt_plain_text_enabled: bool)
        ensures
            final(self)@ == old(self)@.with_service_mqtt_plain_text_enabled(service_mqtt_plain_text_enabled),
    {
        self.service_mqtt_plain_text_enabled = Some(service_mqtt_plain_text_enabled);
    }

    /// Returns this value with `serviceMqttPlainTextEnabled` set to the given value.
    pub fn with_service_mqtt_plain_text_enabled(self, service_mqtt_plain_text_enabled: bool) -> (r: MsgVpn)
        ensures
            r@ == self@.with_service_mqtt_plain_text_enabled(service_mqtt_plain_text_enabled),
    {
        let mut r = self;
        r.service_mqtt_plain_text_enabled = Some(service_mqtt_plain_text_enabled);
        r
    }

    /// Returns `serviceMqttPlainTextEnabled` if it is present.
    pub fn service_mqtt_plain_text_enabled(&self) -> (r: Option<&bool>)
        ensures
            r.deep_view() == self@.service_mqtt_plain_text_enabled,
    {
        self.service_mqtt_plain_text_enabled.as_ref()
    }

    /// Removes `serviceMqttPlainTextEnabled`; every other attribute is left as it was.
    pub fn reset_service_mqtt_plain_text_enabled(&mut self)
        ensures
            final(self)@ == old(self)@.without_service_mqtt_plain_text_enabled(),
    {
        self.service_mqtt_plain_text_enabled = None;
    }

    /// Sets `serviceMqttPlainTextListenPort` to the given value; every other attribute is left as it was.
    pub fn set_service_mqtt_plain_text_listen_port(&mut self, service_mqtt_plain_text_listen_port: i64)
        ensures
            final(self)@ == old(self)@.with_service_mqtt_plain_text_listen_port(service_mqtt_plain_text_listen_port),
    {
        self.service_mqtt_plain_text_listen_port = Some(service_mqtt_plain_text_listen_port);
    }

    /// Returns this value with `serviceMqttPlainTextListenPort` set to the given value.
    pub fn with_service_mqtt_plain_text_listen_port(self, service_mqtt_plain_text_listen_port: i64) -> (r: MsgVpn)
        ensures
            r@ == self@.with_service_mqtt_plain_text_listen_port(service_mqtt_plain_text_listen_port),
    {
        let mut r = self;
        r.service_mqtt_plain_text_listen_port = Some(service_mqtt_plain_text_listen_port);
        r
    }

    /// Returns `serviceMqttPlainTextListenPort` if it is present.
    pub fn service_mqtt_plain_text_listen_port(&self) -> (r: Option<&i64>)
        ensures
            r.deep_view() == self@.service_mqtt_plain_text_listen_port,
    {
        self.service_mqtt_plain_text_listen_port.as_ref()
    }

    /// Removes `serviceMqttPlainTextListenPort`; every other attribute is left as it was.
    pub fn reset_service_mqtt_plain_text_listen_port(&mut self)
        ensures
            final(self)@ == old(self)@.without_service_mqtt_plain_text_listen_port(),
    {
        self.service_mqtt_plain_text_listen_port = None;
    }

    /// Sets `serviceMqttTlsEnabled` to the given value; every other attribute is left as it was.
    pub fn set_service_mqtt_tls_enabled(&mut self, service_mqtt_tls_enabled: bool)
        ensures
            final(self)@ == old(self)@.with_service_mqtt_tls_enabled(service_mqtt_tls_enabled),
    {
        self.service_mqtt_tls_enabled = Some(service_mqtt_tls_enabled);
    }

    /// Returns this value with `serviceMqttTlsEnabled` set to the given value.
    pub fn with_service_mqtt_tls_enabled(self, service_mqtt_tls_enabled: bool) -> (r: MsgVpn)
        ensures
            r@ == self@.with_service_mqtt_tls_enabled(service_mqtt_tls_enabled),
    {
        let mut r = self;
        r.service_mqtt_tls_enabled = Some(service_mqtt_tls_enabled);
        r
    }

    /// Returns `serviceMqttTlsEnabled` if it is present.
    pub fn service_mqtt_tls_enabled(&self) -> (r: Option<&bool>)
        ensures
            r.deep_view() == self@.service_mqtt_tls_enabled,
    {
        self.service_mqtt_tls_enabled.as_ref()
    }

    /// Removes `serviceMqttTlsEnabled`; every other attribute is left as it was.
    pub fn reset_service_mqtt_tls_enabled(&mut self)
        ensures
            final(self)@ == old(self)@.without_service_mqtt_tls_enabled(),
    {
        self.service_mqtt_tls_enabled = None;
    }

    /// Sets `serviceMqttTlsListenPort` to the given value; every other attribute is left as it was.
    pub fn set_service_mqtt_tls_listen_port(&mut self, service_mqtt_tls_listen_port: i64)
        ensures
            final(self)@ == old(self)@.with_service_mqtt_tls_listen_port(service_mqtt_tls_listen_port),
    {
        self.service_mqtt_tls_listen_port = Some(service_mqtt_tls_listen_port);
    }

    /// Returns this value with `serviceMqttTlsListenPort` set to the given value.
    pub fn with_service_mqtt_tls_listen_port(self, service_mqtt_tls_listen_port: i64) -> (r: MsgVpn)
        ensures
            r@ == self@.with_service_mqtt_tls_listen_port(service_mqtt_tls_listen_port),
    {
        let mut r = self;
        r.service_mqtt_tls_listen_port = Some(service_mqtt_tls_listen_port);
        r
    }

    /// Returns `serviceMqttTlsListenPort` if it is present.
    pub fn service_mqtt_tls_listen_port(&self) -> (r: Option<&i64>)
        ensures
            r.deep_view() == self@.service_mqtt_tls_listen_port,
    {
        self.service_mqtt_tls_listen_port.as_ref()
    }

    /// Removes `serviceMqttTlsListenPort`; every other attribute is left as it was.
    pub fn reset_service_mqtt_tls_listen_port(&mut self)
        ensures
            final(self)@ == old(self)@.without_service_mqtt_tls_listen_port(),
    {
        self.service_mqtt_tls_listen_port = None;
    }

    /// Sets `serviceMqttTlsWebSocketEnabled` to the given value; every other attribute is left as it was.
    pub fn set_service_mqtt_tls_web_socket_enabled(&mut self, service_mqtt_tls_web_socket_enabled: bool)
        ensures
            final(self)@ == old(self)@.with_service_mqtt_tls_web_socket_enabled(service_mqtt_tls_web_socket_enabled),
    {
        self.service_mqtt_tls_web_socket_enabled = Some(service_mqtt_tls_web_socket_enabled);
    }

    /// Returns this value with `serviceMqttTlsWebSocketEnabled` set to the given value.
    pub fn with_service_mqtt_tls_web_socket_enabled(self, service_mqtt_tls_web_socket_enabled: bool) -> (r: MsgVpn)
        ensures
            r@ == self@.with_service_mqtt_tls_web_socket_enabled(service_mqtt_tls_web_socket_enabled),
    {
        let mut r = self;
        r.service_mqtt_tls_web_socket_enabled = Some(service_mqtt_tls_web_socket_enabled);
        r
    }

    /// Returns `serviceMqttTlsWebSocketEnabled` if it is present.
    pub fn service_mqtt_tls_web_socket_enabled(&self) -> (r: Option<&bool>)
        ensures
            r.deep_view() == self@.service_mqtt_tls_web_socket_enabled,
    {
        self.service_mqtt_tls_web_socket_enabled.as_ref()
    }

    /// Removes `serviceMqttTlsWebSocketEnabled`; every other attribute is left as it was.
    pub fn reset_service_mqtt_tls_web_socket_enabled(&mut self)
        ensures
            final(self)@ == old(self)@.without_service_mqtt_tls_web_socket_enabled(),
    {
        self.service_mqtt_tls_web_socket_enabled = None;
    }

    /// Sets `serviceMqttTlsWebSocketListenPort` to the given value; every other attribute is left as it was.
    pub fn set_service_mqtt_tls_web_socket_listen_port(&mut self, service_mqtt_tls_web_socket_listen_port: i64)
        ensures
            final(self)@ == old(self)@.with_service_mqtt_tls_web_socket_listen_port(service_mqtt_tls_web_socket_listen_port),
    {
        self.service_mqtt_tls_web_socket_listen_port = Some(service_mqtt_tls_web_socket_listen_port);
    }

    /// Returns this value with `serviceMqttTlsWebSocketListenPort` set to the given value.
    pub fn with_service_mqtt_tls_web_socket_listen_port(self, service_mqtt_tls_web_socket_listen_port: i64) -> (r: MsgVpn)
        ensures
            r@ == self@.with_service_mqtt_tls_web_socket_listen_port(service_mqtt_tls_web_socket_listen_port),
    {
        let mut r = self;
        r.service_mqtt_tls_web_socket_listen_port = Some(service_mqtt_tls_web_socket_listen_port);
        r
    }

    /// Returns `serviceMqttTlsWebSocketListenPort` if it is present.
    pub fn service_mqtt_tls_web_socket_listen_port(&self) -> (r: Option<&i64>)
        ensures
            r.deep_view() == self@.service_mqtt_tls_web_socket_listen_port,
    {
        self.service_mqtt_tls_web_socket_listen_port.as_ref()
    }

    /// Removes `serviceMqttTlsWebSocketListenPort`; every other attribute is left as it was.
    pub fn reset_service_mqtt_tls_web_socket_listen_port(&mut self)
        ensures
            final(self)@ == old(self)@.without_service_mqtt_tls_web_socket_listen_port(),
    {
        self.service_mqtt_tls_web_socket_listen_port = None;
    }

    /// Sets `serviceMqttWebSocketEnabled` to the given value; every other attribute is left as it was.
    pub fn set_service_mqtt_web_socket_enabled(&mut self, service_mqtt_web_socket_enabled: bool)
        ensures
            final(self)@ == old(self)@.with_service_mqtt_web_socket_enabled(service_mqtt_web_socket_enabled),
    {
        self.service_mqtt_web_socket_enabled = Some(service_mqtt_web_socket_enabled);
    }

    /// Returns this value with `serviceMqttWebSocketEnabled` set to the given value.
    pub fn with_service_mqtt_web_socket_enabled(self, service_mqtt_web_socket_enabled: bool) -> (r: MsgVpn)
        ensures
            r@ == self@.with_service_mqtt_web_socket_enabled(service_mqtt_web_socket_enabled),
    {
        let mut r = self;
        r.service_mqtt_web_socket_enabled = Some(service_mqtt_web_socket_enabled);
        r
    }

    /// Returns `serviceMqttWebSocketEnabled` if it is present.
    pub fn service_mqtt_web_socket_enabled(&self) -> (r: Option<&bool>)
        ensures
            r.deep_view() == self@.service_mqtt_web_socket_enabled,
    {
        self.service_mqtt_web_socket_enabled.as_ref()
    }

    /// Removes `serviceMqttWebSocketEnabled`; every other attribute is left as it was.
    pub fn reset_service_mqtt_web_socket_enabled(&mut self)
        ensures
            final(self)@ == old(self)@.without_service_mqtt_web_socket_enabled(),
    {
        self.service_mqtt_web_socket_enabled = None;
    }

    /// Sets `serviceMqttWebSocketListenPort` to the given value; every other attribute is left as it was.
    pub fn set_service_mqtt_web_socket_listen_port(&mut self, service_mqtt_web_socket_listen_port: i64)
        ensures
            final(self)@ == old(self)@.with_service_mqtt_web_socket_listen_port(service_mqtt_web_socket_listen_port),
    {
        self.service_mqtt_web_socket_listen_port = Some(service_mqtt_web_socket_listen_port);
    }

    /// Returns this value with `serviceMqttWebSocketListenPort` set to the given value.
    pub fn with_service_mqtt_web_socket_listen_port(self, service_mqtt_web_socket_listen_port: i64) -> (r: MsgVpn)
        ensures
            r@ == self@.with_service_mqtt_web_socket_listen_port(service_mqtt_web_socket_listen_port),
    {
        let mut r = self;
        r.service_mqtt_web_socket_listen_port = Some(service_mqtt_web_socket_listen_port);
        r
    }

    /// Returns `serviceMqttWebSocketListenPort` if it is present.
    pub fn service_mqtt_web_socket_listen_port(&self) -> (r: Option<&i64>)
        ensures
            r.deep_view() == self@.service_mqtt_web_socket_listen_port,
    {
        self.service_mqtt_web_socket_listen_port.as_ref()
    }

    /// Removes `serviceMqttWebSocketListenPort`; every other attribute is left as it was.
    pub fn reset_service_mqtt_web_socket_listen_port(&mut self)
        ensures
            final(self)@ == old(self)@.without_service_mqtt_web_socket_listen_port(),
    {
        self.service_mqtt_web_socket_listen_port = None;
    }

    /// Sets `serviceRestIncomingMaxConnectionCount` to the given value; every other attribute is left as it was.
    pub fn set_service_rest_incoming_max_connection_count(&mut self, service_rest_incoming_max_connection_count: i64)
        ensures
            final(self)@ == old(self)@.with_service_rest_incoming_max_connection_count(service_rest_incoming_max_connection_count),
    {
        self.service_rest_incoming_max_connection_count = Some(service_rest_incoming_max_connection_count);
    }

    /// Returns this value with `serviceRestIncomingMaxConnectionCount` set to the given value.
    pub fn with_service_rest_incoming_max_connection_count(self, service_rest_incoming_max_connection_count: i64) -> (r: MsgVpn)
        ensures
            r@ == self@.with_service_rest_incoming_max_connection_count(service_rest_incoming_max_connection_count),
    {
        let mut r = self;
        r.service_rest_incoming_max_connection_count = Some(service_rest_incoming_max_connection_count);
        r
    }

    /// Returns `serviceRestIncomingMaxConnectionCount` if it is present.
    pub fn service_rest_incoming_max_connection_count(&self) -> (r: Option<&i64>)
        ensures
            r.deep_view() == self@.service_rest_incoming_max_connection_count,
    {
        self.service_rest_incoming_max_connection_count.as_ref()
    }

    /// Removes `serviceRestIncomingMaxConnectionCount`; every other attribute is left as it was.
    pub fn reset_service_rest_incoming_max_connection_count(&mut self)
        ensures
            final(self)@ == old(self)@.without_service_rest_incoming_max_connection_count(),
    {
        self.service_rest_incoming_max_connection_count = None;
    }

    /// Sets `serviceRestIncomingPlainTextEnabled` to the given value; every other attribute is left as it was.
    pub fn set_service_rest_incoming_plain_text_enabled(&mut self, service_rest_incoming_plain_text_enabled: bool)
        ensures
            final(self)@ == old(self)@.with_service_rest_incoming_plain_text_enabled(service_rest_incoming_plain_text_enabled),
    {
        self.service_rest_incoming_plain_text_enabled = Some(service_rest_incoming_plain_text_enabled);
    }

    /// Returns this value with `serviceRestIncomingPlainTextEnabled` set to the given value.
    pub fn with_service_rest_incoming_plain_text_enabled(self, service_rest_incoming_plain_text_enabled: bool) -> (r: MsgVpn)
        ensures
            r@ == self@.with_service_rest_incoming_plain_text_enabled(service_rest_incoming_plain_text_enabled),
    {
        let mut r = self;
        r.service_rest_incoming_plain_text_enabled = Some(service_rest_incoming_plain_text_enabled);
        r
    }

    /// Returns `serviceRestIncomingPlainTextEnabled` if it is present.
    pub fn service_rest_incoming_plain_text_enabled(&self) -> (r: Option<&bool>)
        ensures
            r.deep_view() == self@.service_rest_incoming_plain_text_enabled,
    {
        self.service_rest_incoming_plain_text_enabled.as_ref()
    }

    /// Removes `serviceRestIncomingPlainTextEnabled`; every other attribute is left as it was.
    pub fn reset_service_rest_incoming_plain_text_enabled(&mut self)
        ensures
            final(self)@ == old(self)@.without_service_rest_incoming_plain_text_enabled(),
    {
        self.service_rest_incoming_plain_text_enabled = None;
    }

    /// Sets `serviceRestIncomingPlainTextListenPort` to the given value; every other attribute is left as it was.
    pub fn set_service_rest_incoming_plain_text_listen_port(&mut self, service_rest_incoming_plain_text_listen_port: i64)
        ensures
            final(self)@ == old(self)@.with_service_rest_incoming_plain_text_listen_port(service_rest_incoming_plain_text_listen_port),
    {
        self.service_rest_incoming_plain_text_listen_port = Some(service_rest_incoming_plain_text_listen_port);
    }

    /// Returns this value with `serviceRestIncomingPlainTextListenPort` set to the given value.
    pub fn with_service_rest_incoming_plain_text_listen_port(self, service_rest_incoming_plain_text_listen_port: i64) -> (r: MsgVpn)
        ensures
            r@ == self@.with_service_rest_incoming_plain_text_listen_port(service_rest_incoming_plain_text_listen_port),
    {
        let mut r = self;
        r.service_rest_incoming_plain_text_listen_port = Some(service_rest_incoming_plain_text_listen_port);
        r
    }

    /// Returns `serviceRestIncomingPlainTextListenPort` if it is present.
    pub fn service_rest_incoming_plain_text_listen_port(&self) -> (r: Option<&i64>)
        ensures
            r.deep_view() == self@.service_rest_incoming_plain_text_listen_port,
    {
        self.service_rest_incoming_plain_text_listen_port.as_ref()
    }

    /// Removes `serviceRestIncomingPlainTextListenPort`; every other attribute is left as it was.
    pub fn reset_service_rest_incoming_plain_text_listen_port(&mut self)
        ensures
            final(self)@ == old(self)@.without_service_rest_incoming_plain_text_listen_port(),
    {
        self.service_rest_incoming_plain_text_listen_port = None;
    }

    /// Sets `serviceRestIncomingTlsEnabled` to the given value; every other attribute is left as it was.
    pub fn set_service_rest_incoming_tls_enabled(&mut self, service_rest_incoming_tls_enabled: bool)
        ensures
            final(self)@ == old(self)@.with_service_rest_incoming_tls_enabled(service_rest_incoming_tls_enabled),
    {
        self.service_rest_incoming_tls_enabled = Some(service_rest_incoming_tls_enabled);
    }

    /// Returns this value with `serviceRestIncomingTlsEnabled` set to the given value.
    pub fn with_service_rest_incoming_tls_enabled(self, service_rest_incoming_tls_enabled: bool) -> (r: MsgVpn)
        ensures
            r@ == self@.with_service_rest_incoming_tls_enabled(service_rest_incoming_tls_enabled),
    {
        let mut r = self;
        r.service_rest_incoming_tls_enabled = Some(service_rest_incoming_tls_enabled);
        r
    }

    /// Returns `serviceRestIncomingTlsEnabled` if it is present.
    pub fn service_rest_incoming_tls_enabled(&self) -> (r: Option<&bool>)
        ensures
            r.deep_view() == self@.service_rest_incoming_tls_enabled,
    {
        self.service_rest_incoming_tls_enabled.as_ref()
    }

    /// Removes `serviceRestIncomingTlsEnabled`; every other attribute is left as it was.
    pub fn reset_service_rest_incoming_tls_enabled(&mut self)
        ensures
            final(self)@ == old(self)@.without_service_rest_incoming_tls_enabled(),
    {
        self.service_rest_incoming_tls_enabled = None;
    }

    /// Sets `serviceRestIncomingTlsListenPort` to the given value; every other attribute is left as it was.
    pub fn set_service_rest_incoming_tls_listen_port(&mut self, service_rest_incoming_tls_listen_port: i64)
        ensures
            final(self)@ == old(self)@.with_service_rest_incoming_tls_listen_port(service_rest_incoming_tls_listen_port),
    {
        self.service_rest_incoming_tls_listen_port = Some(service_rest_incoming_tls_listen_port);
    }

    /// Returns this value with `serviceRestIncomingTlsListenPort` set to the given value.
    pub fn with_service_rest_incoming_tls_listen_port(self, service_rest_incoming_tls_listen_port: i64) -> (r: MsgVpn)
        ensures
            r@ == self@.with_service_rest_incoming_tls_listen_port(service_rest_incoming_tls_listen_port),
    {
        let mut r = self;
        r.service_rest_incoming_tls_listen_port = Some(service_rest_incoming_tls_listen_port);
        r
    }

    /// Returns `serviceRestIncomingTlsListenPort` if it is present.
    pub fn service_rest_incoming_tls_listen_port(&self) -> (r: Option<&i64>)
        ensures
            r.deep_view() == self@.service_rest_incoming_tls_listen_port,
    {
        self.service_rest_incoming_tls_listen_port.as_ref()
    }

    /// Removes `serviceRestIncomingTlsListenPort`; every other attribute is left as it was.
    pub fn reset_service_rest_incoming_tls_listen_port(&mut self)
        ensures
            final(self)@ == old(self)@.without_service_rest_incoming_tls_listen_port(),
    {
        self.service_rest_incoming_tls_listen_port = None;
    }

    /// Sets `serviceRestMode` to the given value; every other attribute is left as it was.
    pub fn set_service_rest_mode(&mut self, service_rest_mode: String)
        ensures
            final(self)@ == old(self)@.with_service_rest_mode(service_rest_mode@),
    {
        self.service_rest_mode = Some(service_rest_mode);
    }

    /// Returns this value with `serviceRestMode` set to the given value.
    pub fn with_service_rest_mode(self, service_rest_mode: String) -> (r: MsgVpn)
        ensures
            r@ == self@.with_service_rest_mode(service_rest_mode@),
    {
        let mut r = self;
        r.service_rest_mode = Some(service_rest_mode);
        r
    }

    /// Returns `serviceRestMode` if it is present.
    pub fn service_rest_mode(&self) -> (r: Option<&String>)
        ensures
            r.deep_view() == self@.service_rest_mode,
    {
        self.service_rest_mode.as_ref()
    }

    /// Removes `serviceRestMode`; every other attribute is left as it was.
    pub fn reset_service_rest_mode(&mut self)
        ensures
            final(self)@ == old(self)@.without_service_rest_mode(),
    {
        self.service_rest_mode = None;
    }

    /// Sets `serviceRestOutgoingMaxConnectionCount` to the given value; every other attribute is left as it was.
    pub fn set_service_rest_outgoing_max_connection_count(&mut self, service_rest_outgoing_max_connection_count: i64)
        ensures
            final(self)@ == old(self)@.with_service_rest_outgoing_max_connection_count(service_rest_outgoing_max_connection_count),
    {
        self.service_rest_outgoing_max_connection_count = Some(service_rest_outgoing_max_connection_count);
    }

    /// Returns this value with `serviceRestOutgoingMaxConnectionCount` set to the given value.
    pub fn with_service_rest_outgoing_max_connection_count(self, service_rest_outgoing_max_connection_count: i64) -> (r: MsgVpn)
        ensures
            r@ == self@.with_service_rest_outgoing_max_connection_count(service_rest_outgoing_max_connection_count),
    {
        let mut r = self;
        r.service_rest_outgoing_max_connection_count = Some(service_rest_outgoing_max_connection_count);
        r
    }

    /// Returns `serviceRestOutgoingMaxConnectionCount` if it is present.
    pub fn service_rest_outgoing_max_connection_count(&self) -> (r: Option<&i64>)
        ensures
            r.deep_view() == self@.service_rest_outgoing_max_connection_count,
    {
        self.service_rest_outgoing_max_connection_count.as_ref()
    }

    /// Removes `serviceRestOutgoingMaxConnectionCount`; every other attribute is left as it was.
    pub fn reset_service_rest_outgoing_max_connection_count(&mut self)
        ensures
            final(self)@ == old(self)@.without_service_rest_outgoing_max_connection_count(),
    {
        self.service_rest_outgoing_max_connection_count = None;
    }

    /// Sets `serviceSmfMaxConnectionCount` to the given value; every other attribute is left as it was.
    pub fn set_service_smf_max_connection_count(&mut self, service_smf_max_connection_count: i64)
        ensures
            final(self)@ == old(self)@.with_service_smf_max_connection_count(service_smf_max_connection_count),
    {
        self.service_smf_max_connection_count = Some(service_smf_max_connection_count);
    }

    /// Returns this value with `serviceSmfMaxConnectionCount` set to the given value.
    pub fn with_service_smf_max_connection_count(self, service_smf_max_connection_count: i64) -> (r: MsgVpn)
        ensures
            r@ == self@.with_service_smf_max_connection_count(service_smf_max_connection_count),
    {
        let mut r = self;
        r.service_smf_max_connection_count = Some(service_smf_max_connection_count);
        r
    }

    /// Returns `serviceSmfMaxConnectionCount` if it is present.
    pub fn service_smf_max_connection_count(&self) -> (r: Option<&i64>)
        ensures
            r.deep_view() == self@.service_smf_max_connection_count,
    {
        self.service_smf_max_connection_count.as_ref()
    }

    /// Removes `serviceSmfMaxConnectionCount`; every other attribute is left as it was.
    pub fn reset_service_smf_max_connection_count(&mut self)
        ensures
            final(self)@ == old(self)@.without_service_smf_max_connection_count(),
    {
        self.service_smf_max_connection_count = None;
    }

    /// Sets `serviceSmfPlainTextEnabled` to the given value; every other attribute is left as it was.
    pub fn set_service_smf_plain_text_enabled(&mut self, service_smf_plain_text_enabled: bool)
        ensures
            final(self)@ == old(self)@.with_service_smf_plain_text_enabled(service_smf_plain_text_enabled),
    {
        self.service_smf_plain_text_enabled = Some(service_smf_plain_text_enabled);
    }

    /// Returns this value with `serviceSmfPlainTextEnabled` set to the given value.
    pub fn with_service_smf_plain_text_enabled(self, service_smf_plain_text_enabled: bool) -> (r: MsgVpn)
        ensures
            r@ == self@.with_service_smf_plain_text_enabled(service_smf_plain_text_enabled),
    {
        let mut r = self;
        r.service_smf_plain_text_enabled = Some(service_smf_plain_text_enabled);
        r
    }

    /// Returns `serviceSmfPlainTextEnabled` if it is present.
    pub fn service_smf_plain_text_enabled(&self) -> (r: Option<&bool>)
        ensures
            r.deep_view() == self@.service_smf_plain_text_enabled,
    {
        self.service_smf_plain_text_enabled.as_ref()
    }

    /// Removes `serviceSmfPlainTextEnabled`; every other attribute is left as it was.
    pub fn reset_service_smf_plain_text_enabled(&mut self)
        ensures
            final(self)@ == old(self)@.without_service_smf_plain_text_enabled(),
    {
        self.service_smf_plain_text_enabled = None;
    }

    /// Sets `serviceSmfTlsEnabled` to the given value; every other attribute is left as it was.
    pub fn set_service_smf_tls_enabled(&mut self, service_smf_tls_enabled: bool)
        ensures
            final(self)@ == old(self)@.with_service_smf_tls_enabled(service_smf_tls_enabled),
    {
        self.service_smf_tls_enabled = Some(service_smf_tls_enabled);
    }

    /// Returns this value with `serviceSmfTlsEnabled` set to the given value.
    pub fn with_service_smf_tls_enabled(self, service_smf_tls_enabled: bool) -> (r: MsgVpn)
        ensures
            r@ == self@.with_service_smf_tls_enabled(service_smf_tls_enabled),
    {
        let mut r = self;
        r.service_smf_tls_enabled = Some(service_smf_tls_enabled);
        r
    }

    /// Returns `serviceSmfTlsEnabled` if it is present.
    pub fn service_smf_tls_enabled(&self) -> (r: Option<&bool>)
        ensures
            r.deep_view() == self@.service_smf_tls_enabled,
    {
        self.service_smf_tls_enabled.as_ref()
    }

    /// Removes `serviceSmfTlsEnabled`; every other attribute is left as it was.
    pub fn reset_service_smf_tls_enabled(&mut self)
        ensures
            final(self)@ == old(self)@.without_service_smf_tls_enabled(),
    {
        self.service_smf_tls_enabled = None;
    }

    /// Sets `serviceWebMaxConnectionCount` to the given value; every other attribute is left as it was.
    pub fn set_service_web_max_connection_count(&mut self, service_web_max_connection_count: i64)
        ensures
            final(self)@ == old(self)@.with_service_web_max_connection_count(service_web_max_connection_count),
    {
        self.service_web_max_connection_count = Some(service_web_max_connection_count);
    }

    /// Returns this value with `serviceWebMaxConnectionCount` set to the given value.
    pub fn with_service_web_max_connection_count(self, service_web_max_connection_count: i64) -> (r: MsgVpn)
        ensures
            r@ == self@.with_service_web_max_connection_count(service_web_max_connection_count),
    {
        let mut r = self;
        r.service_web_max_connection_count = Some(service_web_max_connection_count);
        r
    }

    /// Returns `serviceWebMaxConnectionCount` if it is present.
    pub fn service_web_max_connection_count(&self) -> (r: Option<&i64>)
        ensures
            r.deep_view() == self@.service_web_max_connection_count,
    {
        self.service_web_max_connection_count.as_ref()
    }

    /// Removes `serviceWebMaxConnectionCount`; every other attribute is left as it was.
    pub fn reset_service_web_max_connection_count(&mut self)
        ensures
            final(self)@ == old(self)@.without_service_web_max_connection_count(),
    {
        self.service_web_max_connection_count = None;
    }

    /// Sets `serviceWebPlainTextEnabled` to the given value; every other attribute is left as it was.
    pub fn set_service_web_plain_text_enabled(&mut self, service_web_plain_text_enabled: bool)
        ensures
            final(self)@ == old(self)@.with_service_web_plain_text_enabled(service_web_plain_text_enabled),
    {
        self.service_web_plain_text_enabled = Some(service_web_plain_text_enabled);
    }

    /// Returns this value with `serviceWebPlainTextEnabled` set to the given value.
    pub fn with_service_web_plain_text_enabled(self, service_web_plain_text_enabled: bool) -> (r: MsgVpn)
        ensures
            r@ == self@.with_service_web_plain_text_enabled(service_web_plain_text_enabled),
    {
        let mut r = self;
        r.service_web_plain_text_enabled = Some(service_web_plain_text_enabled);
        r
    }

    /// Returns `serviceWebPlainTextEnabled` if it is present.
    pub fn service_web_plain_text_enabled(&self) -> (r: Option<&bool>)
        ensures
            r.deep_view() == self@.service_web_plain_text_enabled,
    {
        self.service_web_plain_text_enabled.as_ref()
    }

    /// Removes `serviceWebPlainTextEnabled`; every other attribute is left as it was.
    pub fn reset_service_web_plain_text_enabled(&mut self)
        ensures
            final(self)@ == old(self)@.without_service_web_plain_text_enabled(),
    {
        self.service_web_plain_text_enabled = None;
    }

    /// Sets `serviceWebTlsEnabled` to the given value; every other attribute is left as it was.
    pub fn set_service_web_tls_enabled(&mut self, service_web_tls_enabled: bool)
        ensures
            final(self)@ == old(self)@.with_service_web_tls_enabled(service_web_tls_enabled),
    {
        self.service_web_tls_enabled = Some(service_web_tls_enabled);
    }

    /// Returns this value with `serviceWebTlsEnabled` set to the given value.
    pub fn with_service_web_tls_enabled(self, service_web_tls_enabled: bool) -> (r: MsgVpn)
        ensures
            r@ == self@.with_service_web_tls_enabled(service_web_tls_enabled),
    {
        let mut r = self;
        r.service_web_tls_enabled = Some(service_web_tls_enabled);
        r
    }

    /// Returns `serviceWebTlsEnabled` if it is present.
    pub fn service_web_tls_enabled(&self) -> (r: Option<&bool>)
        ensures
            r.deep_view() == self@.service_web_tls_enabled,
    {
        self.service_web_tls_enabled.as_ref()
    }

    /// Removes `serviceWebTlsEnabled`; every other attribute is left as it was.
    pub fn reset_service_web_tls_enabled(&mut self)
        ensures
            final(self)@ == old(self)@.without_service_web_tls_enabled(),
    {
        self.service_web_tls_enabled = None;
    }

    /// Sets `tlsAllowDowngradeToPlainTextEnabled` to the given value; every other attribute is left as it was.
    pub fn set_tls_allow_downgrade_to_plain_text_enabled(&mut self, tls_allow_downgrade_to_plain_text_enabled: bool)
        ensures
            final(self)@ == old(self)@.with_tls_allow_downgrade_to_plain_text_enabled(tls_allow_downgrade_to_plain_text_enabled),
    {
        self.tls_allow_downgrade_to_plain_text_enabled = Some(tls_allow_downgrade_to_plain_text_enabled);
    }

    /// Returns this value with `tlsAllowDowngradeToPlainTextEnabled` set to the given value.
    pub fn with_tls_allow_downgrade_to_plain_text_enabled(self, tls_allow_downgrade_to_plain_text_enabled: bool) -> (r: MsgVpn)
        ensures
            r@ == self@.with_tls_allow_downgrade_to_plain_text_enabled(tls_allow_downgrade_to_plain_text_enabled),
    {
        let mut r = self;
        r.tls_allow_downgrade_to_plain_text_enabled = Some(tls_allow_downgrade_to_plain_text_enabled);
        r
    }

    /// Returns `tlsAllowDowngradeToPlainTextEnabled` if it is present.
    pub fn tls_allow_downgrade_to_plain_text_enabled(&self) -> (r: Option<&bool>)
        ensures
            r.deep_view() == self@.tls_allow_downgrade_to_plain_text_enabled,
    {
        self.tls_allow_downgrade_to_plain_text_enabled.as_ref()
    }

    /// Removes `tlsAllowDowngradeToPlainTextEnabled`; every other attribute is left as it was.
    pub fn reset_tls_allow_downgrade_to_plain_text_enabled(&mut self)
        ensures
            final(self)@ == old(self)@.without_tls_allow_downgrade_to_plain_text_enabled(),
    {
        self.tls_allow_downgrade_to_plain_text_enabled = None;
    }
}

/// A freshly made value has no attribute present: every read of a new value gives nothing.
pub proof fn lemma_msg_vpn_new_is_empty()
    ensures
        MsgVpnView::empty().authentication_basic_enabled is None,
        MsgVpnView::empty().authentication_basic_profile_name is None,
        MsgVpnView::empty().authentication_basic_radius_domain is None,
        MsgVpnView::empty().authentication_basic_type is None,
        MsgVpnView::empty().authentication_client_cert_allow_api_provided_username_enabled is None,
        MsgVpnView::empty().authentication_client_cert_enabled is None,
        MsgVpnView::empty().authentication_client_cert_max_chain_depth is None,
        MsgVpnView::empty().authentication_client_cert_revocation_check_mode is None,
        MsgVpnView::empty().authentication_client_cert_username_source is None,
        MsgVpnView::empty().authentication_client_cert_validate_date_enabled is None,
        MsgVpnView::empty().authentication_kerberos_allow_api_provided_username_enabled is None,
        MsgVpnView::empty().authentication_kerberos_enabled is None,
        MsgVpnView::empty().authorization_ldap_group_membership_attribute_name is None,
        MsgVpnView::empty().authorization_profile_name is None,
        MsgVpnView::empty().authorization_type is None,
        MsgVpnView::empty().bridging_tls_server_cert_enforce_trusted_common_name_enabled is None,
        MsgVpnView::empty().bridging_tls_server_cert_max_chain_depth is None,
        MsgVpnView::empty().bridging_tls_server_cert_validate_date_enabled is None,
        MsgVpnView::empty().distributed_cache_management_enabled is None,
        MsgVpnView::empty().enabled is None,
        MsgVpnView::empty().event_connection_count_threshold is None,
        MsgVpnView::empty().event_egress_flow_count_threshold is None,
        MsgVpnView::empty().event_egress_msg_rate_threshold is None,
        MsgVpnView::empty().event_endpoint_count_threshold is None,
        MsgVpnView::empty().event_ingress_flow_count_threshold is None,
        MsgVpnView::empty().event_ingress_msg_rate_threshold is None,
        MsgVpnView::empty().event_large_msg_threshold is None,
        MsgVpnView::empty().event_log_tag is None,
        MsgVpnView::empty().event_msg_spool_usage_threshold is None,
        MsgVpnView::empty().event_publish_client_enabled is None,
        MsgVpnView::empty().event_publish_msg_vpn_enabled is None,
        MsgVpnView::empty().event_publish_subscription_mode is None,
        MsgVpnView::empty().event_publish_topic_format_mqtt_enabled is None,
        MsgVpnView::empty().event_publish_topic_format_smf_enabled is None,
        MsgVpnView::empty().event_service_amqp_connection_count_threshold is None,
        MsgVpnView::empty().event_service_mqtt_connection_count_threshold is None,
        MsgVpnView::empty().event_service_rest_incoming_connection_count_threshold is None,
        MsgVpnView::empty().event_service_smf_connection_count_threshold is None,
        MsgVpnView::empty().event_service_web_connection_count_threshold is None,
        MsgVpnView::empty().event_subscription_count_threshold is None,
        MsgVpnView::empty().event_transacted_session_count_threshold is None,
        MsgVpnView::empty().event_transaction_count_threshold is None,
        MsgVpnView::empty().export_subscriptions_enabled is None,
        MsgVpnView::empty().jndi_enabled is None,
        MsgVpnView::empty().max_connection_count is None,
        MsgVpnView::empty().max_egress_flow_count is None,
        MsgVpnView::empty().max_endpoint_count is None,
        MsgVpnView::empty().max_ingress_flow_count is None,
        MsgVpnView::empty().max_msg_spool_usage is None,
        MsgVpnView::empty().max_subscription_count is None,
        MsgVpnView::empty().max_transacted_session_count is None,
        MsgVpnView::empty().max_transaction_count is None,
        MsgVpnView::empty().msg_vpn_name is None,
        MsgVpnView::empty().replication_ack_propagation_interval_msg_count is None,
        MsgVpnView::empty().replication_bridge_authentication_basic_client_username is None,
        MsgVpnView::empty().replication_bridge_authentication_basic_password is None,
        MsgVpnView::empty().replication_bridge_authentication_client_cert_content is None,
        MsgVpnView::empty().replication_bridge_authentication_client_cert_password is None,
        MsgVpnView::empty().replication_bridge_authentication_scheme is None,
        MsgVpnView::empty().replication_bridge_compressed_data_enabled is None,
        MsgVpnView::empty().replication_bridge_egress_flow_window_size is None,
        MsgVpnView::empty().replication_bridge_retry_delay is None,
        MsgVpnView::empty().replication_bridge_tls_enabled is None,
        MsgVpnView::empty().replication_bridge_unidirectional_client_profile_name is None,
        MsgVpnView::empty().replication_enabled is None,
        MsgVpnView::empty().replication_enabled_queue_behavior is None,
        MsgVpnView::empty().replication_queue_max_msg_spool_usage is None,
        MsgVpnView::empty().replication_queue_reject_msg_to_sender_on_discard_enabled is None,
        MsgVpnView::empty().replication_reject_msg_when_sync_ineligible_enabled is None,
        MsgVpnView::empty().replication_role is None,
        MsgVpnView::empty().replication_transaction_mode is None,
        MsgVpnView::empty().rest_tls_server_cert_enforce_trusted_common_name_enabled is None,
        MsgVpnView::empty().rest_tls_server_cert_max_chain_depth is None,
        MsgVpnView::empty().rest_tls_server_cert_validate_date_enabled is None,
        MsgVpnView::empty().semp_over_msg_bus_admin_client_enabled is None,
        MsgVpnView::empty().semp_over_msg_bus_admin_distributed_cache_enabled is None,
        MsgVpnView::empty().semp_over_msg_bus_admin_enabled is None,
        MsgVpnView::empty().semp_over_msg_bus_enabled is None,
        MsgVpnView::empty().semp_over_msg_bus_show_enabled is None,
        MsgVpnView::empty().service_amqp_max_connection_count is None,
        MsgVpnView::empty().service_amqp_plain_text_enabled is None,
        MsgVpnView::empty().service_amqp_plain_text_listen_port is None,
        MsgVpnView::empty().service_amqp_tls_enabled is None,
        MsgVpnView::empty().service_amqp_tls_listen_port is None,
        MsgVpnView::empty().service_mqtt_max_connection_count is None,
        MsgVpnView::empty().service_mqtt_plain_text_enabled is None,
        MsgVpnView::empty().service_mqtt_plain_text_listen_port is None,
        MsgVpnView::empty().service_mqtt_tls_enabled is None,
        MsgVpnView::empty().service_mqtt_tls_listen_port is None,
        MsgVpnView::empty().service_mqtt_tls_web_socket_enabled is None,
        MsgVpnView::empty().service_mqtt_tls_web_socket_listen_port is None,
        MsgVpnView::empty().service_mqtt_web_socket_enabled is None,
        MsgVpnView::empty().service_mqtt_web_socket_listen_port is None,
        MsgVpnView::empty().service_rest_incoming_max_connection_count is None,
        MsgVpnView::empty().service_rest_incoming_plain_text_enabled is None,
        MsgVpnView::empty().service_rest_incoming_plain_text_listen_port is None,
        MsgVpnView::empty().service_rest_incoming_tls_enabled is None,
        MsgVpnView::empty().service_rest_incoming_tls_listen_port is None,
        MsgVpnView::empty().service_rest_mode is None,
        MsgVpnView::empty().service_rest_outgoing_max_connection_count is None,
        MsgVpnView::empty().service_smf_max_connection_count is None,
        MsgVpnView::empty().service_smf_plain_text_enabled is None,
        MsgVpnView::empty().service_smf_tls_enabled is None,
        MsgVpnView::empty().service_web_max_connection_count is None,
        MsgVpnView::empty().service_web_plain_text_enabled is None,
        MsgVpnView::empty().service_web_tls_enabled is None,
        MsgVpnView::empty().tls_allow_downgrade_to_plain_text_enabled is None,
{
}

/// Reading an attribute right after writing it gives the value written,
/// and reading it right after removing it gives nothing.
pub proof fn lemma_msg_vpn_read_after_write(m: MsgVpnView, flag: bool, text: Seq<char>, number: i64, threshold: EventThreshold, by_value: EventThresholdByValue)
    ensures
        m.with_authentication_basic_enabled(flag).authentication_basic_enabled == Some(flag) && m.without_authentication_basic_enabled().authentication_basic_enabled is None,
        m.with_authentication_basic_profile_name(text).authentication_basic_profile_name == Some(text) && m.without_authentication_basic_profile_name().authentication_basic_profile_name is None,
        m.with_authentication_basic_radius_domain(text).authentication_basic_radius_domain == Some(text) && m.without_authentication_basic_radius_domain().authentication_basic_radius_domain is None,
        m.with_authentication_basic_type(text).authentication_basic_type == Some(text) && m.without_authentication_basic_type().authentication_basic_type is None,
        m.with_authentication_client_cert_allow_api_provided_username_enabled(flag).authentication_client_cert_allow_api_provided_username_enabled == Some(flag) && m.without_authentication_client_cert_allow_api_provided_username_enabled().authentication_client_cert_allow_api_provided_username_enabled is None,
        m.with_authentication_client_cert_enabled(flag).authentication_client_cert_enabled == Some(flag) && m.without_authentication_client_cert_enabled().authentication_client_cert_enabled is None,
        m.with_authentication_client_cert_max_chain_depth(number).authentication_client_cert_max_chain_depth == Some(number) && m.without_authentication_client_cert_max_chain_depth().authentication_client_cert_max_chain_depth is None,
        m.with_authentication_client_cert_revocation_check_mode(text).authentication_client_cert_revocation_check_mode == Some(text) && m.without_authentication_client_cert_revocation_check_mode().authentication_client_cert_revocation_check_mode is None,
        m.with_authentication_client_cert_username_source(text).authentication_client_cert_username_source == Some(text) && m.without_authentication_client_cert_username_source().authentication_client_cert_username_source is None,
        m.with_authentication_client_cert_validate_date_enabled(flag).authentication_client_cert_validate_date_enabled == Some(flag) && m.without_authentication_client_cert_validate_date_enabled().authentication_client_cert_validate_date_enabled is None,
        m.with_authentication_kerberos_allow_api_provided_username_enabled(flag).authentication_kerberos_allow_api_provided_username_enabled == Some(flag) && m.without_authentication_kerberos_allow_api_provided_username_enabled().authentication_kerberos_allow_api_provided_username_enabled is None,
        m.with_authentication_kerberos_enabled(flag).authentication_kerberos_enabled == Some(flag) && m.without_authentication_kerberos_enabled().authentication_kerberos_enabled is None,
        m.with_authorization_ldap_group_membership_attribute_name(text).authorization_ldap_group_membership_attribute_name == Some(text) && m.without_authorization_ldap_group_membership_attribute_name().authorization_ldap_group_membership_attribute_name is None,
        m.with_authorization_profile_name(text).authorization_profile_name == Some(text) && m.without_authorization_profile_name().authorization_profile_name is None,
        m.with_authorization_type(text).authorization_type == Some(text) && m.without_authorization_type().authorization_type is None,
        m.with_bridging_tls_server_cert_enforce_trusted_common_name_enabled(flag).bridging_tls_server_cert_enforce_trusted_common_name_enabled == Some(flag) && m.without_bridging_tls_server_cert_enforce_trusted_common_name_enabled().bridging_tls_server_cert_enforce_trusted_common_name_enabled is None,
        m.with_bridging_tls_server_cert_max_chain_depth(number).bridging_tls_server_cert_max_chain_depth == Some(number) && m.without_bridging_tls_server_cert_max_chain_depth().bridging_tls_server_cert_max_chain_depth is None,
        m.with_bridging_tls_server_cert_validate_date_enabled(flag).bridging_tls_server_cert_validate_date_enabled == Some(flag) && m.without_bridging_tls_server_cert_validate_date_enabled().bridging_tls_server_cert_validate_date_enabled is None,
        m.with_distributed_cache_management_enabled(flag).distributed_cache_management_enabled == Some(flag) && m.without_distributed_cache_management_enabled().distributed_cache_management_enabled is None,
        m.with_enabled(flag).enabled == Some(flag) && m.without_enabled().enabled is None,
        m.with_event_connection_count_threshold(threshold).event_connection_count_threshold == Some(threshold) && m.without_event_connection_count_threshold().event_connection_count_threshold is None,
        m.with_event_egress_flow_count_threshold(threshold).event_egress_flow_count_threshold == Some(threshold) && m.without_event_egress_flow_count_threshold().event_egress_flow_count_threshold is None,
        m.with_event_egress_msg_rate_threshold(by_value).event_egress_msg_rate_threshold == Some(by_value) && m.without_event_egress_msg_rate_threshold().event_egress_msg_rate_threshold is None,
        m.with_event_endpoint_count_threshold(threshold).event_endpoint_count_threshold == Some(threshold) && m.without_event_endpoint_count_threshold().event_endpoint_count_threshold is None,
        m.with_event_ingress_flow_count_threshold(threshold).event_ingress_flow_count_threshold == Some(threshold) && m.without_event_ingress_flow_count_threshold().event_ingress_flow_count_threshold is None,
        m.with_event_ingress_msg_rate_threshold(by_value).event_ingress_msg_rate_threshold == Some(by_value) && m.without_event_ingress_msg_rate_threshold().event_ingress_msg_rate_threshold is None,
        m.with_event_large_msg_threshold(number).event_large_msg_threshold == Some(number) && m.without_event_large_msg_threshold().event_large_msg_threshold is None,
        m.with_event_log_tag(text).event_log_tag == Some(text) && m.without_event_log_tag().event_log_tag is None,
        m.with_event_msg_spool_usage_threshold(threshold).event_msg_spool_usage_threshold == Some(threshold) && m.without_event_msg_spool_usage_threshold().event_msg_spool_usage_threshold is None,
        m.with_event_publish_client_enabled(flag).event_publish_client_enabled == Some(flag) && m.without_event_publish_client_enabled().event_publish_client_enabled is None,
        m.with_event_publish_msg_vpn_enabled(flag).event_publish_msg_vpn_enabled == Some(flag) && m.without_event_publish_msg_vpn_enabled().event_publish_msg_vpn_enabled is None,
        m.with_event_publish_subscription_mode(text).event_publish_subscription_mode == Some(text) && m.without_event_publish_subscription_mode().event_publish_subscription_mode is None,
        m.with_event_publish_topic_format_mqtt_enabled(flag).event_publish_topic_format_mqtt_enabled == Some(flag) && m.without_event_publish_topic_format_mqtt_enabled().event_publish_topic_format_mqtt_enabled is None,
        m.with_event_publish_topic_format_smf_enabled(flag).event_publish_topic_format_smf_enabled == Some(flag) && m.without_event_publish_topic_format_smf_enabled().event_publish_topic_format_smf_enabled is None,
        m.with_event_service_amqp_connection_count_threshold(threshold).event_service_amqp_connection_count_threshold == Some(threshold) && m.without_event_service_amqp_connection_count_threshold().event_service_amqp_connection_count_threshold is None,
        m.with_event_service_mqtt_connection_count_threshold(threshold).event_service_mqtt_connection_count_threshold == Some(threshold) && m.without_event_service_mqtt_connection_count_threshold().event_service_mqtt_connection_count_threshold is None,
        m.with_event_service_rest_incoming_connection_count_threshold(threshold).event_service_rest_incoming_connection_count_threshold == Some(threshold) && m.without_event_service_rest_incoming_connection_count_threshold().event_service_rest_incoming_connection_count_threshold is None,
        m.with_event_service_smf_connection_count_threshold(threshold).event_service_smf_connection_count_threshold == Some(threshold) && m.without_event_service_smf_connection_count_threshold().event_service_smf_connection_count_threshold is None,
        m.with_event_service_web_connection_count_threshold(threshold).event_service_web_connection_count_threshold == Some(threshold) && m.without_event_service_web_connection_count_threshold().event_service_web_connection_count_threshold is None,
        m.with_event_subscription_count_threshold(threshold).event_subscription_count_threshold == Some(threshold) && m.without_event_subscription_count_threshold().event_subscription_count_threshold is None,
        m.with_event_transacted_session_count_threshold(threshold).event_transacted_session_count_threshold == Some(threshold) && m.without_event_transacted_session_count_threshold().event_transacted_session_count_threshold is None,
        m.with_event_transaction_count_threshold(threshold).event_transaction_count_threshold == Some(threshold) && m.without_event_transaction_count_threshold().event_transaction_count_threshold is None,
        m.with_export_subscriptions_enabled(flag).export_subscriptions_enabled == Some(flag) && m.without_export_subscriptions_enabled().export_subscriptions_enabled is None,
        m.with_jndi_enabled(flag).jndi_enabled == Some(flag) && m.without_jndi_enabled().jndi_enabled is None,
        m.with_max_connection_count(number).max_connection_count == Some(number) && m.without_max_connection_count().max_connection_count is None,
        m.with_max_egress_flow_count(number).max_egress_flow_count == Some(number) && m.without_max_egress_flow_count().max_egress_flow_count is None,
        m.with_max_endpoint_count(number).max_endpoint_count == Some(number) && m.without_max_endpoint_count().max_endpoint_count is None,
        m.with_max_ingress_flow_count(number).max_ingress_flow_count == Some(number) && m.without_max_ingress_flow_count().max_ingress_flow_count is None,
        m.with_max_msg_spool_usage(number).max_msg_spool_usage == Some(number) && m.without_max_msg_spool_usage().max_msg_spool_usage is None,
        m.with_max_subscription_count(number).max_subscription_count == Some(number) && m.without_max_subscription_count().max_subscription_count is None,
        m.with_max_transacted_session_count(number).max_transacted_session_count == Some(number) && m.without_max_transacted_session_count().max_transacted_session_count is None,
        m.with_max_transaction_count(number).max_transaction_count == Some(number) && m.without_max_transaction_count().max_transaction_count is None,
        m.with_msg_vpn_name(text).msg_vpn_name == Some(text) && m.without_msg_vpn_name().msg_vpn_name is None,
        m.with_replication_ack_propagation_interval_msg_count(number).replication_ack_propagation_interval_msg_count == Some(number) && m.without_replication_ack_propagation_interval_msg_count().replication_ack_propagation_interval_msg_count is None,
        m.with_replication_bridge_authentication_basic_client_username(text).replication_bridge_authentication_basic_client_username == Some(text) && m.without_replication_bridge_authentication_basic_client_username().replication_bridge_authentication_basic_client_username is None,
        m.with_replication_bridge_authentication_basic_password(text).replication_bridge_authentication_basic_password == Some(text) && m.without_replication_bridge_authentication_basic_password().replication_bridge_authentication_basic_password is None,
        m.with_replication_bridge_authentication_client_cert_content(text).replication_bridge_authentication_client_cert_content == Some(text) && m.without_replication_bridge_authentication_client_cert_content().replication_bridge_authentication_client_cert_content is None,
        m.with_replication_bridge_authentication_client_cert_password(text).replication_bridge_authentication_client_cert_password == Some(text) && m.without_replication_bridge_authentication_client_cert_password().replication_bridge_authentication_client_cert_password is None,
        m.with_replication_bridge_authentication_scheme(text).replication_bridge_authentication_scheme == Some(text) && m.without_replication_bridge_authentication_scheme().replication_bridge_authentication_scheme is None,
        m.with_replication_bridge_compressed_data_enabled(flag).replication_bridge_compressed_data_enabled == Some(flag) && m.without_replication_bridge_compressed_data_enabled().replication_bridge_compressed_data_enabled is None,
        m.with_replication_bridge_egress_flow_window_size(number).replication_bridge_egress_flow_window_size == Some(number) && m.without_replication_bridge_egress_flow_window_size().replication_bridge_egress_flow_window_size is None,
        m.with_replication_bridge_retry_delay(number).replication_bridge_retry_delay == Some(number) && m.without_replication_bridge_retry_delay().replication_bridge_retry_delay is None,
        m.with_replication_bridge_tls_enabled(flag).replication_bridge_tls_enabled == Some(flag) && m.without_replication_bridge_tls_enabled().replication_bridge_tls_enabled is None,
        m.with_replication_bridge_unidirectional_client_profile_name(text).replication_bridge_unidirectional_client_profile_name == Some(text) && m.without_replication_bridge_unidirectional_client_profile_name().replication_bridge_unidirectional_client_profile_name is None,
        m.with_replication_enabled(flag).replication_enabled == Some(flag) && m.without_replication_enabled().replication_enabled is None,
        m.with_replication_enabled_queue_behavior(text).replication_enabled_queue_behavior == Some(text) && m.without_replication_enabled_queue_behavior().replication_enabled_queue_behavior is None,
        m.with_replication_queue_max_msg_spool_usage(number).replication_queue_max_msg_spool_usage == Some(number) && m.without_replication_queue_max_msg_spool_usage().replication_queue_max_msg_spool_usage is None,
        m.with_replication_queue_reject_msg_to_sender_on_discard_enabled(flag).replication_queue_reject_msg_to_sender_on_discard_enabled == Some(flag) && m.without_replication_queue_reject_msg_to_sender_on_discard_enabled().replication_queue_reject_msg_to_sender_on_discard_enabled is None,
        m.with_replication_reject_msg_when_sync_ineligible_enabled(flag).replication_reject_msg_when_sync_ineligible_enabled == Some(flag) && m.without_replication_reject_msg_when_sync_ineligible_enabled().replication_reject_msg_when_sync_ineligible_enabled is None,
        m.with_replication_role(text).replication_role == Some(text) && m.without_replication_role().replication_role is None,
        m.with_replication_transaction_mode(text).replication_transaction_mode == Some(text) && m.without_replication_transaction_mode().replication_transaction_mode is None,
        m.with_rest_tls_server_cert_enforce_trusted_common_name_enabled(flag).rest_tls_server_cert_enforce_trusted_common_name_enabled == Some(flag) && m.without_rest_tls_server_cert_enforce_trusted_common_name_enabled().rest_tls_server_cert_enforce_trusted_common_name_enabled is None,
        m.with_rest_tls_server_cert_max_chain_depth(number).rest_tls_server_cert_max_chain_depth == Some(number) && m.without_rest_tls_server_cert_max_chain_depth().rest_tls_server_cert_max_chain_depth is None,
        m.with_rest_tls_server_cert_validate_date_enabled(flag).rest_tls_server_cert_validate_date_enabled == Some(flag) && m.without_rest_tls_server_cert_validate_date_enabled().rest_tls_server_cert_validate_date_enabled is None,
        m.with_semp_over_msg_bus_admin_client_enabled(flag).semp_over_msg_bus_admin_client_enabled == Some(flag) && m.without_semp_over_msg_bus_admin_client_enabled().semp_over_msg_bus_admin_client_enabled is None,
        m.with_semp_over_msg_bus_admin_distributed_cache_enabled(flag).semp_over_msg_bus_admin_distributed_cache_enabled == Some(flag) && m.without_semp_over_msg_bus_admin_distributed_cache_enabled().semp_over_msg_bus_admin_distributed_cache_enabled is None,
        m.with_semp_over_msg_bus_admin_enabled(flag).semp_over_msg_bus_admin_enabled == Some(flag) && m.without_semp_over_msg_bus_admin_enabled().semp_over_msg_bus_admin_enabled is None,
        m.with_semp_over_msg_bus_enabled(flag).semp_over_msg_bus_enabled == Some(flag) && m.without_semp_over_msg_bus_enabled().semp_over_msg_bus_enabled is None,
        m.with_semp_over_msg_bus_show_enabled(flag).semp_over_msg_bus_show_enabled == Some(flag) && m.without_semp_over_msg_bus_show_enabled().semp_over_msg_bus_show_enabled is None,
        m.with_service_amqp_max_connection_count(number).service_amqp_max_connection_count == Some(number) && m.without_service_amqp_max_connection_count().service_amqp_max_connection_count is None,
        m.with_service_amqp_plain_text_enabled(flag).service_amqp_plain_text_enabled == Some(flag) && m.without_service_amqp_plain_text_enabled().service_amqp_plain_text_enabled is None,
        m.with_service_amqp_plain_text_listen_port(number).service_amqp_plain_text_listen_port == Some(number) && m.without_service_amqp_plain_text_listen_port().service_amqp_plain_text_listen_port is None,
        m.with_service_amqp_tls_enabled(flag).service_amqp_tls_enabled == Some(flag) && m.without_service_amqp_tls_enabled().service_amqp_tls_enabled is None,
        m.with_service_amqp_tls_listen_port(number).service_amqp_tls_listen_port == Some(number) && m.without_service_amqp_tls_listen_port().service_amqp_tls_listen_port is None,
        m.with_service_mqtt_max_connection_count(number).service_mqtt_max_connection_count == Some(number) && m.without_service_mqtt_max_connection_count().service_mqtt_max_connection_count is None,
        m.with_service_mqtt_plain_text_enabled(flag).service_mqtt_plain_text_enabled == Some(flag) && m.without_service_mqtt_plain_text_enabled().service_mqtt_plain_text_enabled is None,
        m.with_service_mqtt_plain_text_listen_port(number).service_mqtt_plain_text_listen_port == Some(number) && m.without_service_mqtt_plain_text_listen_port().service_mqtt_plain_text_listen_port is None,
        m.with_service_mqtt_tls_enabled(flag).service_mqtt_tls_enabled == Some(flag) && m.without_service_mqtt_tls_enabled().service_mqtt_tls_enabled is None,
        m.with_service_mqtt_tls_listen_port(number).service_mqtt_tls_listen_port == Some(number) && m.without_service_mqtt_tls_listen_port().service_mqtt_tls_listen_port is None,
        m.with_service_mqtt_tls_web_socket_enabled(flag).service_mqtt_tls_web_socket_enabled == Some(flag) && m.without_service_mqtt_tls_web_socket_enabled().service_mqtt_tls_web_socket_enabled is None,
        m.with_service_mqtt_tls_web_socket_listen_port(number).service_mqtt_tls_web_socket_listen_port == Some(number) && m.without_service_mqtt_tls_web_socket_listen_port().service_mqtt_tls_web_socket_listen_port is None,
        m.with_service_mqtt_web_socket_enabled(flag).service_mqtt_web_socket_enabled == Some(flag) && m.without_service_mqtt_web_socket_enabled().service_mqtt_web_socket_enabled is None,
        m.with_service_mqtt_web_socket_listen_port(number).service_mqtt_web_socket_listen_port == Some(number) && m.without_service_mqtt_web_socket_listen_port().service_mqtt_web_socket_listen_port is None,
        m.with_service_rest_incoming_max_connection_count(number).service_rest_incoming_max_connection_count == Some(number) && m.without_service_rest_incoming_max_connection_count().service_rest_incoming_max_connection_count is None,
        m.with_service_rest_incoming_plain_text_enabled(flag).service_rest_incoming_plain_text_enabled == Some(flag) && m.without_service_rest_incoming_plain_text_enabled().service_rest_incoming_plain_text_enabled is None,
        m.with_service_rest_incoming_plain_text_listen_port(number).service_rest_incoming_plain_text_listen_port == Some(number) && m.without_service_rest_incoming_plain_text_listen_port().service_rest_incoming_plain_text_listen_port is None,
        m.with_service_rest_incoming_tls_enabled(flag).service_rest_incoming_tls_enabled == Some(flag) && m.without_service_rest_incoming_tls_enabled().service_rest_incoming_tls_enabled is None,
        m.with_service_rest_incoming_tls_listen_port(number).service_rest_incoming_tls_listen_port == Some(number) && m.without_service_rest_incoming_tls_listen_port().service_rest_incoming_tls_listen_port is None,
        m.with_service_rest_mode(text).service_rest_mode == Some(text) && m.without_service_rest_mode().service_rest_mode is None,
        m.with_service_rest_outgoing_max_connection_count(number).service_rest_outgoing_max_connection_count == Some(number) && m.without_service_rest_outgoing_max_connection_count().service_rest_outgoing_max_connection_count is None,
        m.with_service_smf_max_connection_count(number).service_smf_max_connection_count == Some(number) && m.without_service_smf_max_connection_count().service_smf_max_connection_count is None,
        m.with_service_smf_plain_text_enabled(flag).service_smf_plain_text_enabled == Some(flag) && m.without_service_smf_plain_text_enabled().service_smf_plain_text_enabled is None,
        m.with_service_smf_tls_enabled(flag).service_smf_tls_enabled == Some(flag) && m.without_service_smf_tls_enabled().service_smf_tls_enabled is None,
        m.with_service_web_max_connection_count(number).service_web_max_connection_count == Some(number) && m.without_service_web_max_connection_count().service_web_max_connection_count is None,
        m.with_service_web_plain_text_enabled(flag).service_web_plain_text_enabled == Some(flag) && m.without_service_web_plain_text_enabled().service_web_plain_text_enabled is None,
        m.with_service_web_tls_enabled(flag).service_web_tls_enabled == Some(flag) && m.without_service_web_tls_enabled().service_web_tls_enabled is None,
        m.with_tls_allow_downgrade_to_plain_text_enabled(flag).tls_allow_downgrade_to_plain_text_enabled == Some(flag) && m.without_tls_allow_downgrade_to_plain_text_enabled().tls_allow_downgrade_to_plain_text_enabled is None,
{
}

/// Of two writes to the same attribute, the later one wins.
pub proof fn lemma_msg_vpn_last_write_wins(m: MsgVpnView, flag_a: bool, flag_b: bool, text_a: Seq<char>, text_b: Seq<char>, number_a: i64, number_b: i64, threshold_a: EventThreshold, threshold_b: EventThreshold, by_value_a: EventThresholdByValue, by_value_b: EventThresholdByValue)
    ensures
        m.with_authentication_basic_enabled(flag_a).with_authentication_basic_enabled(flag_b) == m.with_authentication_basic_enabled(flag_b),
        m.with_authentication_basic_profile_name(text_a).with_authentication_basic_profile_name(text_b) == m.with_authentication_basic_profile_name(text_b),
        m.with_authentication_basic_radius_domain(text_a).with_authentication_basic_radius_domain(text_b) == m.with_authentication_basic_radius_domain(text_b),
        m.with_authentication_basic_type(text_a).with_authentication_basic_type(text_b) == m.with_authentication_basic_type(text_b),
        m.with_authentication_client_cert_allow_api_provided_username_enabled(flag_a).with_authentication_client_cert_allow_api_provided_username_enabled(flag_b) == m.with_authentication_client_cert_allow_api_provided_username_enabled(flag_b),
        m.with_authentication_client_cert_enabled(flag_a).with_authentication_client_cert_enabled(flag_b) == m.with_authentication_client_cert_enabled(flag_b),
        m.with_authentication_client_cert_max_chain_depth(number_a).with_authentication_client_cert_max_chain_depth(number_b) == m.with_authentication_client_cert_max_chain_depth(number_b),
        m.with_authentication_client_cert_revocation_check_mode(text_a).with_authentication_client_cert_revocation_check_mode(text_b) == m.with_authentication_client_cert_revocation_check_mode(text_b),
        m.with_authentication_client_cert_username_source(text_a).with_authentication_client_cert_username_source(text_b) == m.with_authentication_client_cert_username_source(text_b),
        m.with_authentication_client_cert_validate_date_enabled(flag_a).with_authentication_client_cert_validate_date_enabled(flag_b) == m.with_authentication_client_cert_validate_date_enabled(flag_b),
        m.with_authentication_kerberos_allow_api_provided_username_enabled(flag_a).with_authentication_kerberos_allow_api_provided_username_enabled(flag_b) == m.with_authentication_kerberos_allow_api_provided_username_enabled(flag_b),
        m.with_authentication_kerberos_enabled(flag_a).with_authentication_kerberos_enabled(flag_b) == m.with_authentication_kerberos_enabled(flag_b),
        m.with_authorization_ldap_group_membership_attribute_name(text_a).with_authorization_ldap_group_membership_attribute_name(text_b) == m.with_authorization_ldap_group_membership_attribute_name(text_b),
        m.with_authorization_profile_name(text_a).with_authorization_profile_name(text_b) == m.with_authorization_profile_name(text_b),
        m.with_authorization_type(text_a).with_authorization_type(text_b) == m.with_authorization_type(text_b),
        m.with_bridging_tls_server_cert_enforce_trusted_common_name_enabled(flag_a).with_bridging_tls_server_cert_enforce_trusted_common_name_enabled(flag_b) == m.with_bridging_tls_server_cert_enforce_trusted_common_name_enabled(flag_b),
        m.with_bridging_tls_server_cert_max_chain_depth(number_a).with_bridging_tls_server_cert_max_chain_depth(number_b) == m.with_bridging_tls_server_cert_max_chain_depth(number_b),
        m.with_bridging_tls_server_cert_validate_date_enabled(flag_a).with_bridging_tls_server_cert_validate_date_enabled(flag_b) == m.with_bridging_tls_server_cert_validate_date_enabled(flag_b),
        m.with_distributed_cache_management_enabled(flag_a).with_distributed_cache_management_enabled(flag_b) == m.with_distributed_cache_management_enabled(flag_b),
        m.with_enabled(flag_a).with_enabled(flag_b) == m.with_enabled(flag_b),
        m.with_event_connection_count_threshold(threshold_a).with_event_connection_count_threshold(threshold_b) == m.with_event_connection_count_threshold(threshold_b),
        m.with_event_egress_flow_count_threshold(threshold_a).with_event_egress_flow_count_threshold(threshold_b) == m.with_event_egress_flow_count_threshold(threshold_b),
        m.with_event_egress_msg_rate_threshold(by_value_a).with_event_egress_msg_rate_threshold(by_value_b) == m.with_event_egress_msg_rate_threshold(by_value_b),
        m.with_event_endpoint_count_threshold(threshold_a).with_event_endpoint_count_threshold(threshold_b) == m.with_event_endpoint_count_threshold(threshold_b),
        m.with_event_ingress_flow_count_threshold(threshold_a).with_event_ingress_flow_count_threshold(threshold_b) == m.with_event_ingress_flow_count_threshold(threshold_b),
        m.with_event_ingress_msg_rate_threshold(by_value_a).with_event_ingress_msg_rate_threshold(by_value_b) == m.with_event_ingress_msg_rate_threshold(by_value_b),
        m.with_event_large_msg_threshold(number_a).with_event_large_msg_threshold(number_b) == m.with_event_large_msg_threshold(number_b),
        m.with_event_log_tag(text_a).with_event_log_tag(text_b) == m.with_event_log_tag(text_b),
        m.with_event_msg_spool_usage_threshold(threshold_a).with_event_msg_spool_usage_threshold(threshold_b) == m.with_event_msg_spool_usage_threshold(threshold_b),
        m.with_event_publish_client_enabled(flag_a).with_event_publish_client_enabled(flag_b) == m.with_event_publish_client_enabled(flag_b),
        m.with_event_publish_msg_vpn_enabled(flag_a).with_event_publish_msg_vpn_enabled(flag_b) == m.with_event_publish_msg_vpn_enabled(flag_b),
        m.with_event_publish_subscription_mode(text_a).with_event_publish_subscription_mode(text_b) == m.with_event_publish_subscription_mode(text_b),
        m.with_event_publish_topic_format_mqtt_enabled(flag_a).with_event_publish_topic_format_mqtt_enabled(flag_b) == m.with_event_publish_topic_format_mqtt_enabled(flag_b),
        m.with_event_publish_topic_format_smf_enabled(flag_a).with_event_publish_topic_format_smf_enabled(flag_b) == m.with_event_publish_topic_format_smf_enabled(flag_b),
        m.with_event_service_amqp_connection_count_threshold(threshold_a).with_event_service_amqp_connection_count_threshold(threshold_b) == m.with_event_service_amqp_connection_count_threshold(threshold_b),
        m.with_event_service_mqtt_connection_count_threshold(threshold_a).with_event_service_mqtt_connection_count_threshold(threshold_b) == m.with_event_service_mqtt_connection_count_threshold(threshold_b),
        m.with_event_service_rest_incoming_connection_count_threshold(threshold_a).with_event_service_rest_incoming_connection_count_threshold(threshold_b) == m.with_event_service_rest_incoming_connection_count_threshold(threshold_b),
        m.with_event_service_smf_connection_count_threshold(threshold_a).with_event_service_smf_connection_count_threshold(threshold_b) == m.with_event_service_smf_connection_count_threshold(threshold_b),
        m.with_event_service_web_connection_count_threshold(threshold_a).with_event_service_web_connection_count_threshold(threshold_b) == m.with_event_service_web_connection_count_threshold(threshold_b),
        m.with_event_subscription_count_threshold(threshold_a).with_event_subscription_count_threshold(threshold_b) == m.with_event_subscription_count_threshold(threshold_b),
        m.with_event_transacted_session_count_threshold(threshold_a).with_event_transacted_session_count_threshold(threshold_b) == m.with_event_transacted_session_count_threshold(threshold_b),
        m.with_event_transaction_count_threshold(threshold_a).with_event_transaction_count_threshold(threshold_b) == m.with_event_transaction_count_threshold(threshold_b),
        m.with_export_subscriptions_enabled(flag_a).with_export_subscriptions_enabled(flag_b) == m.with_export_subscriptions_enabled(flag_b),
        m.with_jndi_enabled(flag_a).with_jndi_enabled(flag_b) == m.with_jndi_enabled(flag_b),
        m.with_max_connection_count(number_a).with_max_connection_count(number_b) == m.with_max_connection_count(number_b),
        m.with_max_egress_flow_count(number_a).with_max_egress_flow_count(number_b) == m.with_max_egress_flow_count(number_b),
        m.with_max_endpoint_count(number_a).with_max_endpoint_count(number_b) == m.with_max_endpoint_count(number_b),
        m.with_max_ingress_flow_count(number_a).with_max_ingress_flow_count(number_b) == m.with_max_ingress_flow_count(number_b),
        m.with_max_msg_spool_usage(number_a).with_max_msg_spool_usage(number_b) == m.with_max_msg_spool_usage(number_b),
        m.with_max_subscription_count(number_a).with_max_subscription_count(number_b) == m.with_max_subscription_count(number_b),
        m.with_max_transacted_session_count(number_a).with_max_transacted_session_count(number_b) == m.with_max_transacted_session_count(number_b),
        m.with_max_transaction_count(number_a).with_max_transaction_count(number_b) == m.with_max_transaction_count(number_b),
        m.with_msg_vpn_name(text_a).with_msg_vpn_name(text_b) == m.with_msg_vpn_name(text_b),
        m.with_replication_ack_propagation_interval_msg_count(number_a).with_replication_ack_propagation_interval_msg_count(number_b) == m.with_replication_ack_propagation_interval_msg_count(number_b),
        m.with_replication_bridge_authentication_basic_client_username(text_a).with_replication_bridge_authentication_basic_client_username(text_b) == m.with_replication_bridge_authentication_basic_client_username(text_b),
        m.with_replication_bridge_authentication_basic_password(text_a).with_replication_bridge_authentication_basic_password(text_b) == m.with_replication_bridge_authentication_basic_password(text_b),
        m.with_replication_bridge_authentication_client_cert_content(text_a).with_replication_bridge_authentication_client_cert_content(text_b) == m.with_replication_bridge_authentication_client_cert_content(text_b),
        m.with_replication_bridge_authentication_client_cert_password(text_a).with_replication_bridge_authentication_client_cert_password(text_b) == m.with_replication_bridge_authentication_client_cert_password(text_b),
        m.with_replication_bridge_authentication_scheme(text_a).with_replication_bridge_authentication_scheme(text_b) == m.with_replication_bridge_authentication_scheme(text_b),
        m.with_replication_bridge_compressed_data_enabled(flag_a).with_replication_bridge_compressed_data_enabled(flag_b) == m.with_replication_bridge_compressed_data_enabled(flag_b),
        m.with_replication_bridge_egress_flow_window_size(number_a).with_replication_bridge_egress_flow_window_size(number_b) == m.with_replication_bridge_egress_flow_window_size(number_b),
        m.with_replication_bridge_retry_delay(number_a).with_replication_bridge_retry_delay(number_b) == m.with_replication_bridge_retry_delay(number_b),
        m.with_replication_bridge_tls_enabled(flag_a).with_replication_bridge_tls_enabled(flag_b) == m.with_replication_bridge_tls_enabled(flag_b),
        m.with_replication_bridge_unidirectional_client_profile_name(text_a).with_replication_bridge_unidirectional_client_profile_name(text_b) == m.with_replication_bridge_unidirectional_client_profile_name(text_b),
        m.with_replication_enabled(flag_a).with_replication_enabled(flag_b) == m.with_replication_enabled(flag_b),
        m.with_replication_enabled_queue_behavior(text_a).with_replication_enabled_queue_behavior(text_b) == m.with_replication_enabled_queue_behavior(text_b),
        m.with_replication_queue_max_msg_spool_usage(number_a).with_replication_queue_max_msg_spool_usage(number_b) == m.with_replication_queue_max_msg_spool_usage(number_b),
        m.with_replication_queue_reject_msg_to_sender_on_discard_enabled(flag_a).with_replication_queue_reject_msg_to_sender_on_discard_enabled(flag_b) == m.with_replication_queue_reject_msg_to_sender_on_discard_enabled(flag_b),
        m.with_replication_reject_msg_when_sync_ineligible_enabled(flag_a).with_replication_reject_msg_when_sync_ineligible_enabled(flag_b) == m.with_replication_reject_msg_when_sync_ineligible_enabled(flag_b),
        m.with_replication_role(text_a).with_replication_role(text_b) == m.with_replication_role(text_b),
        m.with_replication_transaction_mode(text_a).with_replication_transaction_mode(text_b) == m.with_replication_transaction_mode(text_b),
        m.with_rest_tls_server_cert_enforce_trusted_common_name_enabled(flag_a).with_rest_tls_server_cert_enforce_trusted_common_name_enabled(flag_b) == m.with_rest_tls_server_cert_enforce_trusted_common_name_enabled(flag_b),
        m.with_rest_tls_server_cert_max_chain_depth(number_a).with_rest_tls_server_cert_max_chain_depth(number_b) == m.with_rest_tls_server_cert_max_chain_depth(number_b),
        m.with_rest_tls_server_cert_validate_date_enabled(flag_a).with_rest_tls_server_cert_validate_date_enabled(flag_b) == m.with_rest_tls_server_cert_validate_date_enabled(flag_b),
        m.with_semp_over_msg_bus_admin_client_enabled(flag_a).with_semp_over_msg_bus_admin_client_enabled(flag_b) == m.with_semp_over_msg_bus_admin_client_enabled(flag_b),
        m.with_semp_over_msg_bus_admin_distributed_cache_enabled(flag_a).with_semp_over_msg_bus_admin_distributed_cache_enabled(flag_b) == m.with_semp_over_msg_bus_admin_distributed_cache_enabled(flag_b),
        m.with_semp_over_msg_bus_admin_enabled(flag_a).with_semp_over_msg_bus_admin_enabled(flag_b) == m.with_semp_over_msg_bus_admin_enabled(flag_b),
        m.with_semp_over_msg_bus_enabled(flag_a).with_semp_over_msg_bus_enabled(flag_b) == m.with_semp_over_msg_bus_enabled(flag_b),
        m.with_semp_over_msg_bus_show_enabled(flag_a).with_semp_over_msg_bus_show_enabled(flag_b) == m.with_semp_over_msg_bus_show_enabled(flag_b),
        m.with_service_amqp_max_connection_count(number_a).with_service_amqp_max_connection_count(number_b) == m.with_service_amqp_max_connection_count(number_b),
        m.with_service_amqp_plain_text_enabled(flag_a).with_service_amqp_plain_text_enabled(flag_b) == m.with_service_amqp_plain_text_enabled(flag_b),
        m.with_service_amqp_plain_text_listen_port(number_a).with_service_amqp_plain_text_listen_port(number_b) == m.with_service_amqp_plain_text_listen_port(number_b),
        m.with_service_amqp_tls_enabled(flag_a).with_service_amqp_tls_enabled(flag_b) == m.with_service_amqp_tls_enabled(flag_b),
        m.with_service_amqp_tls_listen_port(number_a).with_service_amqp_tls_listen_port(number_b) == m.with_service_amqp_tls_listen_port(number_b),
        m.with_service_mqtt_max_connection_count(number_a).with_service_mqtt_max_connection_count(number_b) == m.with_service_mqtt_max_connection_count(number_b),
        m.with_service_mqtt_plain_text_enabled(flag_a).with_service_mqtt_plain_text_enabled(flag_b) == m.with_service_mqtt_plain_text_enabled(flag_b),
        m.with_service_mqtt_plain_text_listen_port(number_a).with_service_mqtt_plain_text_listen_port(number_b) == m.with_service_mqtt_plain_text_listen_port(number_b),
        m.with_service_mqtt_tls_enabled(flag_a).with_service_mqtt_tls_enabled(flag_b) == m.with_service_mqtt_tls_enabled(flag_b),
        m.with_service_mqtt_tls_listen_port(number_a).with_service_mqtt_tls_listen_port(number_b) == m.with_service_mqtt_tls_listen_port(number_b),
        m.with_service_mqtt_tls_web_socket_enabled(flag_a).with_service_mqtt_tls_web_socket_enabled(flag_b) == m.with_service_mqtt_tls_web_socket_enabled(flag_b),
        m.with_service_mqtt_tls_web_socket_listen_port(number_a).with_service_mqtt_tls_web_socket_listen_port(number_b) == m.with_service_mqtt_tls_web_socket_listen_port(number_b),
        m.with_service_mqtt_web_socket_enabled(flag_a).with_service_mqtt_web_socket_enabled(flag_b) == m.with_service_mqtt_web_socket_enabled(flag_b),
        m.with_service_mqtt_web_socket_listen_port(number_a).with_service_mqtt_web_socket_listen_port(number_b) == m.with_service_mqtt_web_socket_listen_port(number_b),
        m.with_service_rest_incoming_max_connection_count(number_a).with_service_rest_incoming_max_connection_count(number_b) == m.with_service_rest_incoming_max_connection_count(number_b),
        m.with_service_rest_incoming_plain_text_enabled(flag_a).with_service_rest_incoming_plain_text_enabled(flag_b) == m.with_service_rest_incoming_plain_text_enabled(flag_b),
        m.with_service_rest_incoming_plain_text_listen_port(number_a).with_service_rest_incoming_plain_text_listen_port(number_b) == m.with_service_rest_incoming_plain_text_listen_port(number_b),
        m.with_service_rest_incoming_tls_enabled(flag_a).with_service_rest_incoming_tls_enabled(flag_b) == m.with_service_rest_incoming_tls_enabled(flag_b),
        m.with_service_rest_incoming_tls_listen_port(number_a).with_service_rest_incoming_tls_listen_port(number_b) == m.with_service_rest_incoming_tls_listen_port(number_b),
        m.with_service_rest_mode(text_a).with_service_rest_mode(text_b) == m.with_service_rest_mode(text_b),
        m.with_service_rest_outgoing_max_connection_count(number_a).with_service_rest_outgoing_max_connection_count(number_b) == m.with_service_rest_outgoing_max_connection_count(number_b),
        m.with_service_smf_max_connection_count(number_a).with_service_smf_max_connection_count(number_b) == m.with_service_smf_max_connection_count(number_b),
        m.with_service_smf_plain_text_enabled(flag_a).with_service_smf_plain_text_enabled(flag_b) == m.with_service_smf_plain_text_enabled(flag_b),
        m.with_service_smf_tls_enabled(flag_a).with_service_smf_tls_enabled(flag_b) == m.with_service_smf_tls_enabled(flag_b),
        m.with_service_web_max_connection_count(number_a).with_service_web_max_connection_count(number_b) == m.with_service_web_max_connection_count(number_b),
        m.with_service_web_plain_text_enabled(flag_a).with_service_web_plain_text_enabled(flag_b) == m.with_service_web_plain_text_enabled(flag_b),
        m.with_service_web_tls_enabled(flag_a).with_service_web_tls_enabled(flag_b) == m.with_service_web_tls_enabled(flag_b),
        m.with_tls_allow_downgrade_to_plain_text_enabled(flag_a).with_tls_allow_downgrade_to_plain_text_enabled(flag_b) == m.with_tls_allow_downgrade_to_plain_text_enabled(flag_b),
{
}

/// Writing an attribute changes no other attribute: once that attribute is removed again,
/// the result is the starting value with that attribute removed.
pub proof fn lemma_msg_vpn_write_touches_one_attribute(m: MsgVpnView, flag: bool, text: Seq<char>, number: i64, threshold: EventThreshold, by_value: EventThresholdByValue)
    ensures
        m.with_authentication_basic_enabled(flag).without_authentication_basic_enabled() == m.without_authentication_basic_enabled(),
        m.with_authentication_basic_profile_name(text).without_authentication_basic_profile_name() == m.without_authentication_basic_profile_name(),
        m.with_authentication_basic_radius_domain(text).without_authentication_basic_radius_domain() == m.without_authentication_basic_radius_domain(),
        m.with_authentication_basic_type(text).without_authentication_basic_type() == m.without_authentication_basic_type(),
        m.with_authentication_client_cert_allow_api_provided_username_enabled(flag).without_authentication_client_cert_allow_api_provided_username_enabled() == m.without_authentication_client_cert_allow_api_provided_username_enabled(),
        m.with_authentication_client_cert_enabled(flag).without_authentication_client_cert_enabled() == m.without_authentication_client_cert_enabled(),
        m.with_authentication_client_cert_max_chain_depth(number).without_authentication_client_cert_max_chain_depth() == m.without_authentication_client_cert_max_chain_depth(),
        m.with_authentication_client_cert_revocation_check_mode(text).without_authentication_client_cert_revocation_check_mode() == m.without_authentication_client_cert_revocation_check_mode(),
        m.with_authentication_client_cert_username_source(text).without_authentication_client_cert_username_source() == m.without_authentication_client_cert_username_source(),
        m.with_authentication_client_cert_validate_date_enabled(flag).without_authentication_client_cert_validate_date_enabled() == m.without_authentication_client_cert_validate_date_enabled(),
        m.with_authentication_kerberos_allow_api_provided_username_enabled(flag).without_authentication_kerberos_allow_api_provided_username_enabled() == m.without_authentication_kerberos_allow_api_provided_username_enabled(),
        m.with_authentication_kerberos_enabled(flag).without_authentication_kerberos_enabled() == m.without_authentication_kerberos_enabled(),
        m.with_authorization_ldap_group_membership_attribute_name(text).without_authorization_ldap_group_membership_attribute_name() == m.without_authorization_ldap_group_membership_attribute_name(),
        m.with_authorization_profile_name(text).without_authorization_profile_name() == m.without_authorization_profile_name(),
        m.with_authorization_type(text).without_authorization_type() == m.without_authorization_type(),
        m.with_bridging_tls_server_cert_enforce_trusted_common_name_enabled(flag).without_bridging_tls_server_cert_enforce_trusted_common_name_enabled() == m.without_bridging_tls_server_cert_enforce_trusted_common_name_enabled(),
        m.with_bridging_tls_server_cert_max_chain_depth(number).without_bridging_tls_server_cert_max_chain_depth() == m.without_bridging_tls_server_cert_max_chain_depth(),
        m.with_bridging_tls_server_cert_validate_date_enabled(flag).without_bridging_tls_server_cert_validate_date_enabled() == m.without_bridging_tls_server_cert_validate_date_enabled(),
        m.with_distributed_cache_management_enabled(flag).without_distributed_cache_management_enabled() == m.without_distributed_cache_management_enabled(),
        m.with_enabled(flag).without_enabled() == m.without_enabled(),
        m.with_event_connection_count_threshold(threshold).without_event_connection_count_threshold() == m.without_event_connection_count_threshold(),
        m.with_event_egress_flow_count_threshold(threshold).without_event_egress_flow_count_threshold() == m.without_event_egress_flow_count_threshold(),
        m.with_event_egress_msg_rate_threshold(by_value).without_event_egress_msg_rate_threshold() == m.without_event_egress_msg_rate_threshold(),
        m.with_event_endpoint_count_threshold(threshold).without_event_endpoint_count_threshold() == m.without_event_endpoint_count_threshold(),
        m.with_event_ingress_flow_count_threshold(threshold).without_event_ingress_flow_count_threshold() == m.without_event_ingress_flow_count_threshold(),
        m.with_event_ingress_msg_rate_threshold(by_value).without_event_ingress_msg_rate_threshold() == m.without_event_ingress_msg_rate_threshold(),
        m.with_event_large_msg_threshold(number).without_event_large_msg_threshold() == m.without_event_large_msg_threshold(),
        m.with_event_log_tag(text).without_event_log_tag() == m.without_event_log_tag(),
        m.with_event_msg_spool_usage_threshold(threshold).without_event_msg_spool_usage_threshold() == m.without_event_msg_spool_usage_threshold(),
        m.with_event_publish_client_enabled(flag).without_event_publish_client_enabled() == m.without_event_publish_client_enabled(),
        m.with_event_publish_msg_vpn_enabled(flag).without_event_publish_msg_vpn_enabled() == m.without_event_publish_msg_vpn_enabled(),
        m.with_event_publish_subscription_mode(text).without_event_publish_subscription_mode() == m.without_event_publish_subscription_mode(),
        m.with_event_publish_topic_format_mqtt_enabled(flag).without_event_publish_topic_format_mqtt_enabled() == m.without_event_publish_topic_format_mqtt_enabled(),
        m.with_event_publish_topic_format_smf_enabled(flag).without_event_publish_topic_format_smf_enabled() == m.without_event_publish_topic_format_smf_enabled(),
        m.with_event_service_amqp_connection_count_threshold(threshold).without_event_service_amqp_connection_count_threshold() == m.without_event_service_amqp_connection_count_threshold(),
        m.with_event_service_mqtt_connection_count_threshold(threshold).without_event_service_mqtt_connection_count_threshold() == m.without_event_service_mqtt_connection_count_threshold(),
        m.with_event_service_rest_incoming_connection_count_threshold(threshold).without_event_service_rest_incoming_connection_count_threshold() == m.without_event_service_rest_incoming_connection_count_threshold(),
        m.with_event_service_smf_connection_count_threshold(threshold).without_event_service_smf_connection_count_threshold() == m.without_event_service_smf_connection_count_threshold(),
        m.with_event_service_web_connection_count_threshold(threshold).without_event_service_web_connection_count_threshold() == m.without_event_service_web_connection_count_threshold(),
        m.with_event_subscription_count_threshold(threshold).without_event_subscription_count_threshold() == m.without_event_subscription_count_threshold(),
        m.with_event_transacted_session_count_threshold(threshold).without_event_transacted_session_count_threshold() == m.without_event_transacted_session_count_threshold(),
        m.with_event_transaction_count_threshold(threshold).without_event_transaction_count_threshold() == m.without_event_transaction_count_threshold(),
        m.with_export_subscriptions_enabled(flag).without_export_subscriptions_enabled() == m.without_export_subscriptions_enabled(),
        m.with_jndi_enabled(flag).without_jndi_enabled() == m.without_jndi_enabled(),
        m.with_max_connection_count(number).without_max_connection_count() == m.without_max_connection_count(),
        m.with_max_egress_flow_count(number).without_max_egress_flow_count() == m.without_max_egress_flow_count(),
        m.with_max_endpoint_count(number).without_max_endpoint_count() == m.without_max_endpoint_count(),
        m.with_max_ingress_flow_count(number).without_max_ingress_flow_count() == m.without_max_ingress_flow_count(),
        m.with_max_msg_spool_usage(number).without_max_msg_spool_usage() == m.without_max_msg_spool_usage(),
        m.with_max_subscription_count(number).without_max_subscription_count() == m.without_max_subscription_count(),
        m.with_max_transacted_session_count(number).without_max_transacted_session_count() == m.without_max_transacted_session_count(),
        m.with_max_transaction_count(number).without_max_transaction_count() == m.without_max_transaction_count(),
        m.with_msg_vpn_name(text).without_msg_vpn_name() == m.without_msg_vpn_name(),
        m.with_replication_ack_propagation_interval_msg_count(number).without_replication_ack_propagation_interval_msg_count() == m.without_replication_ack_propagation_interval_msg_count(),
        m.with_replication_bridge_authentication_basic_client_username(text).without_replication_bridge_authentication_basic_client_username() == m.without_replication_bridge_authentication_basic_client_username(),
        m.with_replication_bridge_authentication_basic_password(text).without_replication_bridge_authentication_basic_password() == m.without_replication_bridge_authentication_basic_password(),
        m.with_replication_bridge_authentication_client_cert_content(text).without_replication_bridge_authentication_client_cert_content() == m.without_replication_bridge_authentication_client_cert_content(),
        m.with_replication_bridge_authentication_client_cert_password(text).without_replication_bridge_authentication_client_cert_password() == m.without_replication_bridge_authentication_client_cert_password(),
        m.with_replication_bridge_authentication_scheme(text).without_replication_bridge_authentication_scheme() == m.without_replication_bridge_authentication_scheme(),
        m.with_replication_bridge_compressed_data_enabled(flag).without_replication_bridge_compressed_data_enabled() == m.without_replication_bridge_compressed_data_enabled(),
        m.with_replication_bridge_egress_flow_window_size(number).without_replication_bridge_egress_flow_window_size() == m.without_replication_bridge_egress_flow_window_size(),
        m.with_replication_bridge_retry_delay(number).without_replication_bridge_retry_delay() == m.without_replication_bridge_retry_delay(),
        m.with_replication_bridge_tls_enabled(flag).without_replication_bridge_tls_enabled() == m.without_replication_bridge_tls_enabled(),
        m.with_replication_bridge_unidirectional_client_profile_name(text).without_replication_bridge_unidirectional_client_profile_name() == m.without_replication_bridge_unidirectional_client_profile_name(),
        m.with_replication_enabled(flag).without_replication_enabled() == m.without_replication_enabled(),
        m.with_replication_enabled_queue_behavior(text).without_replication_enabled_queue_behavior() == m.without_replication_enabled_queue_behavior(),
        m.with_replication_queue_max_msg_spool_usage(number).without_replication_queue_max_msg_spool_usage() == m.without_replication_queue_max_msg_spool_usage(),
        m.with_replication_queue_reject_msg_to_sender_on_discard_enabled(flag).without_replication_queue_reject_msg_to_sender_on_discard_enabled() == m.without_replication_queue_reject_msg_to_sender_on_discard_enabled(),
        m.with_replication_reject_msg_when_sync_ineligible_enabled(flag).without_replication_reject_msg_when_sync_ineligible_enabled() == m.without_replication_reject_msg_when_sync_ineligible_enabled(),
        m.with_replication_role(text).without_replication_role() == m.without_replication_role(),
        m.with_replication_transaction_mode(text).without_replication_transaction_mode() == m.without_replication_transaction_mode(),
        m.with_rest_tls_server_cert_enforce_trusted_common_name_enabled(flag).without_rest_tls_server_cert_enforce_trusted_common_name_enabled() == m.without_rest_tls_server_cert_enforce_trusted_common_name_enabled(),
        m.with_rest_tls_server_cert_max_chain_depth(number).without_rest_tls_server_cert_max_chain_depth() == m.without_rest_tls_server_cert_max_chain_depth(),
        m.with_rest_tls_server_cert_validate_date_enabled(flag).without_rest_tls_server_cert_validate_date_enabled() == m.without_rest_tls_server_cert_validate_date_enabled(),
        m.with_semp_over_msg_bus_admin_client_enabled(flag).without_semp_over_msg_bus_admin_client_enabled() == m.without_semp_over_msg_bus_admin_client_enabled(),
        m.with_semp_over_msg_bus_admin_distributed_cache_enabled(flag).without_semp_over_msg_bus_admin_distributed_cache_enabled() == m.without_semp_over_msg_bus_admin_distributed_cache_enabled(),
        m.with_semp_over_msg_bus_admin_enabled(flag).without_semp_over_msg_bus_admin_enabled() == m.without_semp_over_msg_bus_admin_enabled(),
        m.with_semp_over_msg_bus_enabled(flag).without_semp_over_msg_bus_enabled() == m.without_semp_over_msg_bus_enabled(),
        m.with_semp_over_msg_bus_show_enabled(flag).without_semp_over_msg_bus_show_enabled() == m.without_semp_over_msg_bus_show_enabled(),
        m.with_service_amqp_max_connection_count(number).without_service_amqp_max_connection_count() == m.without_service_amqp_max_connection_count(),
        m.with_service_amqp_plain_text_enabled(flag).without_service_amqp_plain_text_enabled() == m.without_service_amqp_plain_text_enabled(),
        m.with_service_amqp_plain_text_listen_port(number).without_service_amqp_plain_text_listen_port() == m.without_service_amqp_plain_text_listen_port(),
        m.with_service_amqp_tls_enabled(flag).without_service_amqp_tls_enabled() == m.without_service_amqp_tls_enabled(),
        m.with_service_amqp_tls_listen_port(number).without_service_amqp_tls_listen_port() == m.without_service_amqp_tls_listen_port(),
        m.with_service_mqtt_max_connection_count(number).without_service_mqtt_max_connection_count() == m.without_service_mqtt_max_connection_count(),
        m.with_service_mqtt_plain_text_enabled(flag).without_service_mqtt_plain_text_enabled() == m.without_service_mqtt_plain_text_enabled(),
        m.with_service_mqtt_plain_text_listen_port(number).without_service_mqtt_plain_text_listen_port() == m.without_service_mqtt_plain_text_listen_port(),
        m.with_service_mqtt_tls_enabled(flag).without_service_mqtt_tls_enabled() == m.without_service_mqtt_tls_enabled(),
        m.with_service_mqtt_tls_listen_port(number).without_service_mqtt_tls_listen_port() == m.without_service_mqtt_tls_listen_port(),
        m.with_service_mqtt_tls_web_socket_enabled(flag).without_service_mqtt_tls_web_socket_enabled() == m.without_service_mqtt_tls_web_socket_enabled(),
        m.with_service_mqtt_tls_web_socket_listen_port(number).without_service_mqtt_tls_web_socket_listen_port() == m.without_service_mqtt_tls_web_socket_listen_port(),
        m.with_service_mqtt_web_socket_enabled(flag).without_service_mqtt_web_socket_enabled() == m.without_service_mqtt_web_socket_enabled(),
        m.with_service_mqtt_web_socket_listen_port(number).without_service_mqtt_web_socket_listen_port() == m.without_service_mqtt_web_socket_listen_port(),
        m.with_service_rest_incoming_max_connection_count(number).without_service_rest_incoming_max_connection_count() == m.without_service_rest_incoming_max_connection_count(),
        m.with_service_rest_incoming_plain_text_enabled(flag).without_service_rest_incoming_plain_text_enabled() == m.without_service_rest_incoming_plain_text_enabled(),
        m.with_service_rest_incoming_plain_text_listen_port(number).without_service_rest_incoming_plain_text_listen_port() == m.without_service_rest_incoming_plain_text_listen_port(),
        m.with_service_rest_incoming_tls_enabled(flag).without_service_rest_incoming_tls_enabled() == m.without_service_rest_incoming_tls_enabled(),
        m.with_service_rest_incoming_tls_listen_port(number).without_service_rest_incoming_tls_listen_port() == m.without_service_rest_incoming_tls_listen_port(),
        m.with_service_rest_mode(text).without_service_rest_mode() == m.without_service_rest_mode(),
        m.with_service_rest_outgoing_max_connection_count(number).without_service_rest_outgoing_max_connection_count() == m.without_service_rest_outgoing_max_connection_count(),
        m.with_service_smf_max_connection_count(number).without_service_smf_max_connection_count() == m.without_service_smf_max_connection_count(),
        m.with_service_smf_plain_text_enabled(flag).without_service_smf_plain_text_enabled() == m.without_service_smf_plain_text_enabled(),
        m.with_service_smf_tls_enabled(flag).without_service_smf_tls_enabled() == m.without_service_smf_tls_enabled(),
        m.with_service_web_max_connection_count(number).without_service_web_max_connection_count() == m.without_service_web_max_connection_count(),
        m.with_service_web_plain_text_enabled(flag).without_service_web_plain_text_enabled() == m.without_service_web_plain_text_enabled(),
        m.with_service_web_tls_enabled(flag).without_service_web_tls_enabled() == m.without_service_web_tls_enabled(),
        m.with_tls_allow_downgrade_to_plain_text_enabled(flag).without_tls_allow_downgrade_to_plain_text_enabled() == m.without_tls_allow_downgrade_to_plain_text_enabled(),
{
}

/// Removing an attribute that was absent before a write undoes that write.
pub proof fn lemma_msg_vpn_reset_undoes_write(m: MsgVpnView, flag: bool, text: Seq<char>, number: i64, threshold: EventThreshold, by_value: EventThresholdByValue)
    ensures
        m.authentication_basic_enabled is None ==> m.with_authentication_basic_enabled(flag).without_authentication_basic_enabled() == m,
        m.authentication_basic_profile_name is None ==> m.with_authentication_basic_profile_name(text).without_authentication_basic_profile_name() == m,
        m.authentication_basic_radius_domain is None ==> m.with_authentication_basic_radius_domain(text).without_authentication_basic_radius_domain() == m,
        m.authentication_basic_type is None ==> m.with_authentication_basic_type(text).without_authentication_basic_type() == m,
        m.authentication_client_cert_allow_api_provided_username_enabled is None ==> m.with_authentication_client_cert_allow_api_provided_username_enabled(flag).without_authentication_client_cert_allow_api_provided_username_enabled() == m,
        m.authentication_client_cert_enabled is None ==> m.with_authentication_client_cert_enabled(flag).without_authentication_client_cert_enabled() == m,
        m.authentication_client_cert_max_chain_depth is None ==> m.with_authentication_client_cert_max_chain_depth(number).without_authentication_client_cert_max_chain_depth() == m,
        m.authentication_client_cert_revocation_check_mode is None ==> m.with_authentication_client_cert_revocation_check_mode(text).without_authentication_client_cert_revocation_check_mode() == m,
        m.authentication_client_cert_username_source is None ==> m.with_authentication_client_cert_username_source(text).without_authentication_client_cert_username_source() == m,
        m.authentication_client_cert_validate_date_enabled is None ==> m.with_authentication_client_cert_validate_date_enabled(flag).without_authentication_client_cert_validate_date_enabled() == m,
        m.authentication_kerberos_allow_api_provided_username_enabled is None ==> m.with_authentication_kerberos_allow_api_provided_username_enabled(flag).without_authentication_kerberos_allow_api_provided_username_enabled() == m,
        m.authentication_kerberos_enabled is None ==> m.with_authentication_kerberos_enabled(flag).without_authentication_kerberos_enabled() == m,
        m.authorization_ldap_group_membership_attribute_name is None ==> m.with_authorization_ldap_group_membership_attribute_name(text).without_authorization_ldap_group_membership_attribute_name() == m,
        m.authorization_profile_name is None ==> m.with_authorization_profile_name(text).without_authorization_profile_name() == m,
        m.authorization_type is None ==> m.with_authorization_type(text).without_authorization_type() == m,
        m.bridging_tls_server_cert_enforce_trusted_common_name_enabled is None ==> m.with_bridging_tls_server_cert_enforce_trusted_common_name_enabled(flag).without_bridging_tls_server_cert_enforce_trusted_common_name_enabled() == m,
        m.bridging_tls_server_cert_max_chain_depth is None ==> m.with_bridging_tls_server_cert_max_chain_depth(number).without_bridging_tls_server_cert_max_chain_depth() == m,
        m.bridging_tls_server_cert_validate_date_enabled is None ==> m.with_bridging_tls_server_cert_validate_date_enabled(flag).without_bridging_tls_server_cert_validate_date_enabled() == m,
        m.distributed_cache_management_enabled is None ==> m.with_distributed_cache_management_enabled(flag).without_distributed_cache_management_enabled() == m,
        m.enabled is None ==> m.with_enabled(flag).without_enabled() == m,
        m.event_connection_count_threshold is None ==> m.with_event_connection_count_threshold(threshold).without_event_connection_count_threshold() == m,
        m.event_egress_flow_count_threshold is None ==> m.with_event_egress_flow_count_threshold(threshold).without_event_egress_flow_count_threshold() == m,
        m.event_egress_msg_rate_threshold is None ==> m.with_event_egress_msg_rate_threshold(by_value).without_event_egress_msg_rate_threshold() == m,
        m.event_endpoint_count_threshold is None ==> m.with_event_endpoint_count_threshold(threshold).without_event_endpoint_count_threshold() == m,
        m.event_ingress_flow_count_threshold is None ==> m.with_event_ingress_flow_count_threshold(threshold).without_event_ingress_flow_count_threshold() == m,
        m.event_ingress_msg_rate_threshold is None ==> m.with_event_ingress_msg_rate_threshold(by_value).without_event_ingress_msg_rate_threshold() == m,
        m.event_large_msg_threshold is None ==> m.with_event_large_msg_threshold(number).without_event_large_msg_threshold() == m,
        m.event_log_tag is None ==> m.with_event_log_tag(text).without_event_log_tag() == m,
        m.event_msg_spool_usage_threshold is None ==> m.with_event_msg_spool_usage_threshold(threshold).without_event_msg_spool_usage_threshold() == m,
        m.event_publish_client_enabled is None ==> m.with_event_publish_client_enabled(flag).without_event_publish_client_enabled() == m,
        m.event_publish_msg_vpn_enabled is None ==> m.with_event_publish_msg_vpn_enabled(flag).without_event_publish_msg_vpn_enabled() == m,
        m.event_publish_subscription_mode is None ==> m.with_event_publish_subscription_mode(text).without_event_publish_subscription_mode() == m,
        m.event_publish_topic_format_mqtt_enabled is None ==> m.with_event_publish_topic_format_mqtt_enabled(flag).without_event_publish_topic_format_mqtt_enabled() == m,
        m.event_publish_topic_format_smf_enabled is None ==> m.with_event_publish_topic_format_smf_enabled(flag).without_event_publish_topic_format_smf_enabled() == m,
        m.event_service_amqp_connection_count_threshold is None ==> m.with_event_service_amqp_connection_count_threshold(threshold).without_event_service_amqp_connection_count_threshold() == m,
        m.event_service_mqtt_connection_count_threshold is None ==> m.with_event_service_mqtt_connection_count_threshold(threshold).without_event_service_mqtt_connection_count_threshold() == m,
        m.event_service_rest_incoming_connection_count_threshold is None ==> m.with_event_service_rest_incoming_connection_count_threshold(threshold).without_event_service_rest_incoming_connection_count_threshold() == m,
        m.event_service_smf_connection_count_threshold is None ==> m.with_event_service_smf_connection_count_threshold(threshold).without_event_service_smf_connection_count_threshold() == m,
        m.event_service_web_connection_count_threshold is None ==> m.with_event_service_web_connection_count_threshold(threshold).without_event_service_web_connection_count_threshold() == m,
        m.event_subscription_count_threshold is None ==> m.with_event_subscription_count_threshold(threshold).without_event_subscription_count_threshold() == m,
        m.event_transacted_session_count_threshold is None ==> m.with_event_transacted_session_count_threshold(threshold).without_event_transacted_session_count_threshold() == m,
        m.event_transaction_count_threshold is None ==> m.with_event_transaction_count_threshold(threshold).without_event_transaction_count_threshold() == m,
        m.export_subscriptions_enabled is None ==> m.with_export_subscriptions_enabled(flag).without_export_subscriptions_enabled() == m,
        m.jndi_enabled is None ==> m.with_jndi_enabled(flag).without_jndi_enabled() == m,
        m.max_connection_count is None ==> m.with_max_connection_count(number).without_max_connection_count() == m,
        m.max_egress_flow_count is None ==> m.with_max_egress_flow_count(number).without_max_egress_flow_count() == m,
        m.max_endpoint_count is None ==> m.with_max_endpoint_count(number).without_max_endpoint_count() == m,
        m.max_ingress_flow_count is None ==> m.with_max_ingress_flow_count(number).without_max_ingress_flow_count() == m,
        m.max_msg_spool_usage is None ==> m.with_max_msg_spool_usage(number).without_max_msg_spool_usage() == m,
        m.max_subscription_count is None ==> m.with_max_subscription_count(number).without_max_subscription_count() == m,
        m.max_transacted_session_count is None ==> m.with_max_transacted_session_count(number).without_max_transacted_session_count() == m,
        m.max_transaction_count is None ==> m.with_max_transaction_count(number).without_max_transaction_count() == m,
        m.msg_vpn_name is None ==> m.with_msg_vpn_name(text).without_msg_vpn_name() == m,
        m.replication_ack_propagation_interval_msg_count is None ==> m.with_replication_ack_propagation_interval_msg_count(number).without_replication_ack_propagation_interval_msg_count() == m,
        m.replication_bridge_authentication_basic_client_username is None ==> m.with_replication_bridge_authentication_basic_client_username(text).without_replication_bridge_authentication_basic_client_username() == m,
        m.replication_bridge_authentication_basic_password is None ==> m.with_replication_bridge_authentication_basic_password(text).without_replication_bridge_authentication_basic_password() == m,
        m.replication_bridge_authentication_client_cert_content is None ==> m.with_replication_bridge_authentication_client_cert_content(text).without_replication_bridge_authentication_client_cert_content() == m,
        m.replication_bridge_authentication_client_cert_password is None ==> m.with_replication_bridge_authentication_client_cert_password(text).without_replication_bridge_authentication_client_cert_password() == m,
        m.replication_bridge_authentication_scheme is None ==> m.with_replication_bridge_authentication_scheme(text).without_replication_bridge_authentication_scheme() == m,
        m.replication_bridge_compressed_data_enabled is None ==> m.with_replication_bridge_compressed_data_enabled(flag).without_replication_bridge_compressed_data_enabled() == m,
        m.replication_bridge_egress_flow_window_size is None ==> m.with_replication_bridge_egress_flow_window_size(number).without_replication_bridge_egress_flow_window_size() == m,
        m.replication_bridge_retry_delay is None ==> m.with_replication_bridge_retry_delay(number).without_replication_bridge_retry_delay() == m,
        m.replication_bridge_tls_enabled is None ==> m.with_replication_bridge_tls_enabled(flag).without_replication_bridge_tls_enabled() == m,
        m.replication_bridge_unidirectional_client_profile_name is None ==> m.with_replication_bridge_unidirectional_client_profile_name(text).without_replication_bridge_unidirectional_client_profile_name() == m,
        m.replication_enabled is None ==> m.with_replication_enabled(flag).without_replication_enabled() == m,
        m.replication_enabled_queue_behavior is None ==> m.with_replication_enabled_queue_behavior(text).without_replication_enabled_queue_behavior() == m,
        m.replication_queue_max_msg_spool_usage is None ==> m.with_replication_queue_max_msg_spool_usage(number).without_replication_queue_max_msg_spool_usage() == m,
        m.replication_queue_reject_msg_to_sender_on_discard_enabled is None ==> m.with_replication_queue_reject_msg_to_sender_on_discard_enabled(flag).without_replication_queue_reject_msg_to_sender_on_discard_enabled() == m,
        m.replication_reject_msg_when_sync_ineligible_enabled is None ==> m.with_replication_reject_msg_when_sync_ineligible_enabled(flag).without_replication_reject_msg_when_sync_ineligible_enabled() == m,
        m.replication_role is None ==> m.with_replication_role(text).without_replication_role() == m,
        m.replication_transaction_mode is None ==> m.with_replication_transaction_mode(text).without_replication_transaction_mode() == m,
        m.rest_tls_server_cert_enforce_trusted_common_name_enabled is None ==> m.with_rest_tls_server_cert_enforce_trusted_common_name_enabled(flag).without_rest_tls_server_cert_enforce_trusted_common_name_enabled() == m,
        m.rest_tls_server_cert_max_chain_depth is None ==> m.with_rest_tls_server_cert_max_chain_depth(number).without_rest_tls_server_cert_max_chain_depth() == m,
        m.rest_tls_server_cert_validate_date_enabled is None ==> m.with_rest_tls_server_cert_validate_date_enabled(flag).without_rest_tls_server_cert_validate_date_enabled() == m,
        m.semp_over_msg_bus_admin_client_enabled is None ==> m.with_semp_over_msg_bus_admin_client_enabled(flag).without_semp_over_msg_bus_admin_client_enabled() == m,
        m.semp_over_msg_bus_admin_distributed_cache_enabled is None ==> m.with_semp_over_msg_bus_admin_distributed_cache_enabled(flag).without_semp_over_msg_bus_admin_distributed_cache_enabled() == m,
        m.semp_over_msg_bus_admin_enabled is None ==> m.with_semp_over_msg_bus_admin_enabled(flag).without_semp_over_msg_bus_admin_enabled() == m,
        m.semp_over_msg_bus_enabled is None ==> m.with_semp_over_msg_bus_enabled(flag).without_semp_over_msg_bus_enabled() == m,
        m.semp_over_msg_bus_show_enabled is None ==> m.with_semp_over_msg_bus_show_enabled(flag).without_semp_over_msg_bus_show_enabled() == m,
        m.service_amqp_max_connection_count is None ==> m.with_service_amqp_max_connection_count(number).without_service_amqp_max_connection_count() == m,
        m.service_amqp_plain_text_enabled is None ==> m.with_service_amqp_plain_text_enabled(flag).without_service_amqp_plain_text_enabled() == m,
        m.service_amqp_plain_text_listen_port is None ==> m.with_service_amqp_plain_text_listen_port(number).without_service_amqp_plain_text_listen_port() == m,
        m.service_amqp_tls_enabled is None ==> m.with_service_amqp_tls_enabled(flag).without_service_amqp_tls_enabled() == m,
        m.service_amqp_tls_listen_port is None ==> m.with_service_amqp_tls_listen_port(number).without_service_amqp_tls_listen_port() == m,
        m.service_mqtt_max_connection_count is None ==> m.with_service_mqtt_max_connection_count(number).without_service_mqtt_max_connection_count() == m,
        m.service_mqtt_plain_text_enabled is None ==> m.with_service_mqtt_plain_text_enabled(flag).without_service_mqtt_plain_text_enabled() == m,
        m.service_mqtt_plain_text_listen_port is None ==> m.with_service_mqtt_plain_text_listen_port(number).without_service_mqtt_plain_text_listen_port() == m,
        m.service_mqtt_tls_enabled is None ==> m.with_service_mqtt_tls_enabled(flag).without_service_mqtt_tls_enabled() == m,
        m.service_mqtt_tls_listen_port is None ==> m.with_service_mqtt_tls_listen_port(number).without_service_mqtt_tls_listen_port() == m,
        m.service_mqtt_tls_web_socket_enabled is None ==> m.with_service_mqtt_tls_web_socket_enabled(flag).without_service_mqtt_tls_web_socket_enabled() == m,
        m.service_mqtt_tls_web_socket_listen_port is None ==> m.with_service_mqtt_tls_web_socket_listen_port(number).without_service_mqtt_tls_web_socket_listen_port() == m,
        m.service_mqtt_web_socket_enabled is None ==> m.with_service_mqtt_web_socket_enabled(flag).without_service_mqtt_web_socket_enabled() == m,
        m.service_mqtt_web_socket_listen_port is None ==> m.with_service_mqtt_web_socket_listen_port(number).without_service_mqtt_web_socket_listen_port() == m,
        m.service_rest_incoming_max_connection_count is None ==> m.with_service_rest_incoming_max_connection_count(number).without_service_rest_incoming_max_connection_count() == m,
        m.service_rest_incoming_plain_text_enabled is None ==> m.with_service_rest_incoming_plain_text_enabled(flag).without_service_rest_incoming_plain_text_enabled() == m,
        m.service_rest_incoming_plain_text_listen_port is None ==> m.with_service_rest_incoming_plain_text_listen_port(number).without_service_rest_incoming_plain_text_listen_port() == m,
        m.service_rest_incoming_tls_enabled is None ==> m.with_service_rest_incoming_tls_enabled(flag).without_service_rest_incoming_tls_enabled() == m,
        m.service_rest_incoming_tls_listen_port is None ==> m.with_service_rest_incoming_tls_listen_port(number).without_service_rest_incoming_tls_listen_port() == m,
        m.service_rest_mode is None ==> m.with_service_rest_mode(text).without_service_rest_mode() == m,
        m.service_rest_outgoing_max_connection_count is None ==> m.with_service_rest_outgoing_max_connection_count(number).without_service_rest_outgoing_max_connection_count() == m,
        m.service_smf_max_connection_count is None ==> m.with_service_smf_max_connection_count(number).without_service_smf_max_connection_count() == m,
        m.service_smf_plain_text_enabled is None ==> m.with_service_smf_plain_text_enabled(flag).without_service_smf_plain_text_enabled() == m,
        m.service_smf_tls_enabled is None ==> m.with_service_smf_tls_enabled(flag).without_service_smf_tls_enabled() == m,
        m.service_web_max_connection_count is None ==> m.with_service_web_max_connection_count(number).without_service_web_max_connection_count() == m,
        m.service_web_plain_text_enabled is None ==> m.with_service_web_plain_text_enabled(flag).without_service_web_plain_text_enabled() == m,
        m.service_web_tls_enabled is None ==> m.with_service_web_tls_enabled(flag).without_service_web_tls_enabled() == m,
        m.tls_allow_downgrade_to_plain_text_enabled is None ==> m.with_tls_allow_downgrade_to_plain_text_enabled(flag).without_tls_allow_downgrade_to_plain_text_enabled() == m,
{
}

/// Removing an attribute twice is the same as removing it once, and removing an absent
/// attribute changes nothing.
pub proof fn lemma_msg_vpn_reset_idempotent(m: MsgVpnView)
    ensures
        m.without_authentication_basic_enabled().without_authentication_basic_enabled() == m.without_authentication_basic_enabled() && (m.authentication_basic_enabled is None ==> m.without_authentication_basic_enabled() == m),
        m.without_authentication_basic_profile_name().without_authentication_basic_profile_name() == m.without_authentication_basic_profile_name() && (m.authentication_basic_profile_name is None ==> m.without_authentication_basic_profile_name() == m),
        m.without_authentication_basic_radius_domain().without_authentication_basic_radius_domain() == m.without_authentication_basic_radius_domain() && (m.authentication_basic_radius_domain is None ==> m.without_authentication_basic_radius_domain() == m),
        m.without_authentication_basic_type().without_authentication_basic_type() == m.without_authentication_basic_type() && (m.authentication_basic_type is None ==> m.without_authentication_basic_type() == m),
        m.without_authentication_client_cert_allow_api_provided_username_enabled().without_authentication_client_cert_allow_api_provided_username_enabled() == m.without_authentication_client_cert_allow_api_provided_username_enabled() && (m.authentication_client_cert_allow_api_provided_username_enabled is None ==> m.without_authentication_client_cert_allow_api_provided_username_enabled() == m),
        m.without_authentication_client_cert_enabled().without_authentication_client_cert_enabled() == m.without_authentication_client_cert_enabled() && (m.authentication_client_cert_enabled is None ==> m.without_authentication_client_cert_enabled() == m),
        m.without_authentication_client_cert_max_chain_depth().without_authentication_client_cert_max_chain_depth() == m.without_authentication_client_cert_max_chain_depth() && (m.authentication_client_cert_max_chain_depth is None ==> m.without_authentication_client_cert_max_chain_depth() == m),
        m.without_authentication_client_cert_revocation_check_mode().without_authentication_client_cert_revocation_check_mode() == m.without_authentication_client_cert_revocation_check_mode() && (m.authentication_client_cert_revocation_check_mode is None ==> m.without_authentication_client_cert_revocation_check_mode() == m),
        m.without_authentication_client_cert_username_source().without_authentication_client_cert_username_source() == m.without_authentication_client_cert_username_source() && (m.authentication_client_cert_username_source is None ==> m.without_authentication_client_cert_username_source() == m),
        m.without_authentication_client_cert_validate_date_enabled().without_authentication_client_cert_validate_date_enabled() == m.without_authentication_client_cert_validate_date_enabled() && (m.authentication_client_cert_validate_date_enabled is None ==> m.without_authentication_client_cert_validate_date_enabled() == m),
        m.without_authentication_kerberos_allow_api_provided_username_enabled().without_authentication_kerberos_allow_api_provided_username_enabled() == m.without_authentication_kerberos_allow_api_provided_username_enabled() && (m.authentication_kerberos_allow_api_provided_username_enabled is None ==> m.without_authentication_kerberos_allow_api_provided_username_enabled() == m),
        m.without_authentication_kerberos_enabled().without_authentication_kerberos_enabled() == m.without_authentication_kerberos_enabled() && (m.authentication_kerberos_enabled is None ==> m.without_authentication_kerberos_enabled() == m),
        m.without_authorization_ldap_group_membership_attribute_name().without_authorization_ldap_group_membership_attribute_name() == m.without_authorization_ldap_group_membership_attribute_name() && (m.authorization_ldap_group_membership_attribute_name is None ==> m.without_authorization_ldap_group_membership_attribute_name() == m),
        m.without_authorization_profile_name().without_authorization_profile_name() == m.without_authorization_profile_name() && (m.authorization_profile_name is None ==> m.without_authorization_profile_name() == m),
        m.without_authorization_type().without_authorization_type() == m.without_authorization_type() && (m.authorization_type is None ==> m.without_authorization_type() == m),
        m.without_bridging_tls_server_cert_enforce_trusted_common_name_enabled().without_bridging_tls_server_cert_enforce_trusted_common_name_enabled() == m.without_bridging_tls_server_cert_enforce_trusted_common_name_enabled() && (m.bridging_tls_server_cert_enforce_trusted_common_name_enabled is None ==> m.without_bridging_tls_server_cert_enforce_trusted_common_name_enabled() == m),
        m.without_bridging_tls_server_cert_max_chain_depth().without_bridging_tls_server_cert_max_chain_depth() == m.without_bridging_tls_server_cert_max_chain_depth() && (m.bridging_tls_server_cert_max_chain_depth is None ==> m.without_bridging_tls_server_cert_max_chain_depth() == m),
        m.without_bridging_tls_server_cert_validate_date_enabled().without_bridging_tls_server_cert_validate_date_enabled() == m.without_bridging_tls_server_cert_validate_date_enabled() && (m.bridging_tls_server_cert_validate_date_enabled is None ==> m.without_bridging_tls_server_cert_validate_date_enabled() == m),
        m.without_distributed_cache_management_enabled().without_distributed_cache_management_enabled() == m.without_distributed_cache_management_enabled() && (m.distributed_cache_management_enabled is None ==> m.without_distributed_cache_management_enabled() == m),
        m.without_enabled().without_enabled() == m.without_enabled() && (m.enabled is None ==> m.without_enabled() == m),
        m.without_event_connection_count_threshold().without_event_connection_count_threshold() == m.without_event_connection_count_threshold() && (m.event_connection_count_threshold is None ==> m.without_event_connection_count_threshold() == m),
        m.without_event_egress_flow_count_threshold().without_event_egress_flow_count_threshold() == m.without_event_egress_flow_count_threshold() && (m.event_egress_flow_count_threshold is None ==> m.without_event_egress_flow_count_threshold() == m),
        m.without_event_egress_msg_rate_threshold().without_event_egress_msg_rate_threshold() == m.without_event_egress_msg_rate_threshold() && (m.event_egress_msg_rate_threshold is None ==> m.without_event_egress_msg_rate_threshold() == m),
        m.without_event_endpoint_count_threshold().without_event_endpoint_count_threshold() == m.without_event_endpoint_count_threshold() && (m.event_endpoint_count_threshold is None ==> m.without_event_endpoint_count_threshold() == m),
        m.without_event_ingress_flow_count_threshold().without_event_ingress_flow_count_threshold() == m.without_event_ingress_flow_count_threshold() && (m.event_ingress_flow_count_threshold is None ==> m.without_event_ingress_flow_count_threshold() == m),
        m.without_event_ingress_msg_rate_threshold().without_event_ingress_msg_rate_threshold() == m.without_event_ingress_msg_rate_threshold() && (m.event_ingress_msg_rate_threshold is None ==> m.without_event_ingress_msg_rate_threshold() == m),
        m.without_event_large_msg_threshold().without_event_large_msg_threshold() == m.without_event_large_msg_threshold() && (m.event_large_msg_threshold is None ==> m.without_event_large_msg_threshold() == m),
        m.without_event_log_tag().without_event_log_tag() == m.without_event_log_tag() && (m.event_log_tag is None ==> m.without_event_log_tag() == m),
        m.without_event_msg_spool_usage_threshold().without_event_msg_spool_usage_threshold() == m.without_event_msg_spool_usage_threshold() && (m.event_msg_spool_usage_threshold is None ==> m.without_event_msg_spool_usage_threshold() == m),
        m.without_event_publish_client_enabled().without_event_publish_client_enabled() == m.without_event_publish_client_enabled() && (m.event_publish_client_enabled is None ==> m.without_event_publish_client_enabled() == m),
        m.without_event_publish_msg_vpn_enabled().without_event_publish_msg_vpn_enabled() == m.without_event_publish_msg_vpn_enabled() && (m.event_publish_msg_vpn_enabled is None ==> m.without_event_publish_msg_vpn_enabled() == m),
        m.without_event_publish_subscription_mode().without_event_publish_subscription_mode() == m.without_event_publish_subscription_mode() && (m.event_publish_subscription_mode is None ==> m.without_event_publish_subscription_mode() == m),
        m.without_event_publish_topic_format_mqtt_enabled().without_event_publish_topic_format_mqtt_enabled() == m.without_event_publish_topic_format_mqtt_enabled() && (m.event_publish_topic_format_mqtt_enabled is None ==> m.without_event_publish_topic_format_mqtt_enabled() == m),
        m.without_event_publish_topic_format_smf_enabled().without_event_publish_topic_format_smf_enabled() == m.without_event_publish_topic_format_smf_enabled() && (m.event_publish_topic_format_smf_enabled is None ==> m.without_event_publish_topic_format_smf_enabled() == m),
        m.without_event_service_amqp_connection_count_threshold().without_event_service_amqp_connection_count_threshold() == m.without_event_service_amqp_connection_count_threshold() && (m.event_service_amqp_connection_count_threshold is None ==> m.without_event_service_amqp_connection_count_threshold() == m),
        m.without_event_service_mqtt_connection_count_threshold().without_event_service_mqtt_connection_count_threshold() == m.without_event_service_mqtt_connection_count_threshold() && (m.event_service_mqtt_connection_count_threshold is None ==> m.without_event_service_mqtt_connection_count_threshold() == m),
        m.without_event_service_rest_incoming_connection_count_threshold().without_event_service_rest_incoming_connection_count_threshold() == m.without_event_service_rest_incoming_connection_count_threshold() && (m.event_service_rest_incoming_connection_count_threshold is None ==> m.without_event_service_rest_incoming_connection_count_threshold() == m),
        m.without_event_service_smf_connection_count_threshold().without_event_service_smf_connection_count_threshold() == m.without_event_service_smf_connection_count_threshold() && (m.event_service_smf_connection_count_threshold is None ==> m.without_event_service_smf_connection_count_threshold() == m),
        m.without_event_service_web_connection_count_threshold().without_event_service_web_connection_count_threshold() == m.without_event_service_web_connection_count_threshold() && (m.event_service_web_connection_count_threshold is None ==> m.without_event_service_web_connection_count_threshold() == m),
        m.without_event_subscription_count_threshold().without_event_subscription_count_threshold() == m.without_event_subscription_count_threshold() && (m.event_subscription_count_threshold is None ==> m.without_event_subscription_count_threshold() == m),
        m.without_event_transacted_session_count_threshold().without_event_transacted_session_count_threshold() == m.without_event_transacted_session_count_threshold() && (m.event_transacted_session_count_threshold is None ==> m.without_event_transacted_session_count_threshold() == m),
        m.without_event_transaction_count_threshold().without_event_transaction_count_threshold() == m.without_event_transaction_count_threshold() && (m.event_transaction_count_threshold is None ==> m.without_event_transaction_count_threshold() == m),
        m.without_export_subscriptions_enabled().without_export_subscriptions_enabled() == m.without_export_subscriptions_enabled() && (m.export_subscriptions_enabled is None ==> m.without_export_subscriptions_enabled() == m),
        m.without_jndi_enabled().without_jndi_enabled() == m.without_jndi_enabled() && (m.jndi_enabled is None ==> m.without_jndi_enabled() == m),
        m.without_max_connection_count().without_max_connection_count() == m.without_max_connection_count() && (m.max_connection_count is None ==> m.without_max_connection_count() == m),
        m.without_max_egress_flow_count().without_max_egress_flow_count() == m.without_max_egress_flow_count() && (m.max_egress_flow_count is None ==> m.without_max_egress_flow_count() == m),
        m.without_max_endpoint_count().without_max_endpoint_count() == m.without_max_endpoint_count() && (m.max_endpoint_count is None ==> m.without_max_endpoint_count() == m),
        m.without_max_ingress_flow_count().without_max_ingress_flow_count() == m.without_max_ingress_flow_count() && (m.max_ingress_flow_count is None ==> m.without_max_ingress_flow_count() == m),
        m.without_max_msg_spool_usage().without_max_msg_spool_usage() == m.without_max_msg_spool_usage() && (m.max_msg_spool_usage is None ==> m.without_max_msg_spool_usage() == m),
        m.without_max_subscription_count().without_max_subscription_count() == m.without_max_subscription_count() && (m.max_subscription_count is None ==> m.without_max_subscription_count() == m),
        m.without_max_transacted_session_count().without_max_transacted_session_count() == m.without_max_transacted_session_count() && (m.max_transacted_session_count is None ==> m.without_max_transacted_session_count() == m),
        m.without_max_transaction_count().without_max_transaction_count() == m.without_max_transaction_count() && (m.max_transaction_count is None ==> m.without_max_transaction_count() == m),
        m.without_msg_vpn_name().without_msg_vpn_name() == m.without_msg_vpn_name() && (m.msg_vpn_name is None ==> m.without_msg_vpn_name() == m),
        m.without_replication_ack_propagation_interval_msg_count().without_replication_ack_propagation_interval_msg_count() == m.without_replication_ack_propagation_interval_msg_count() && (m.replication_ack_propagation_interval_msg_count is None ==> m.without_replication_ack_propagation_interval_msg_count() == m),
        m.without_replication_bridge_authentication_basic_client_username().without_replication_bridge_authentication_basic_client_username() == m.without_replication_bridge_authentication_basic_client_username() && (m.replication_bridge_authentication_basic_client_username is None ==> m.without_replication_bridge_authentication_basic_client_username() == m),
        m.without_replication_bridge_authentication_basic_password().without_replication_bridge_authentication_basic_password() == m.without_replication_bridge_authentication_basic_password() && (m.replication_bridge_authentication_basic_password is None ==> m.without_replication_bridge_authentication_basic_password() == m),
        m.without_replication_bridge_authentication_client_cert_content().without_replication_bridge_authentication_client_cert_content() == m.without_replication_bridge_authentication_client_cert_content() && (m.replication_bridge_authentication_client_cert_content is None ==> m.without_replication_bridge_authentication_client_cert_content() == m),
        m.without_replication_bridge_authentication_client_cert_password().without_replication_bridge_authentication_client_cert_password() == m.without_replication_bridge_authentication_client_cert_password() && (m.replication_bridge_authentication_client_cert_password is None ==> m.without_replication_bridge_authentication_client_cert_password() == m),
        m.without_replication_bridge_authentication_scheme().without_replication_bridge_authentication_scheme() == m.without_replication_bridge_authentication_scheme() && (m.replication_bridge_authentication_scheme is None ==> m.without_replication_bridge_authentication_scheme() == m),
        m.without_replication_bridge_compressed_data_enabled().without_replication_bridge_compressed_data_enabled() == m.without_replication_bridge_compressed_data_enabled() && (m.replication_bridge_compressed_data_enabled is None ==> m.without_replication_bridge_compressed_data_enabled() == m),
        m.without_replication_bridge_egress_flow_window_size().without_replication_bridge_egress_flow_window_size() == m.without_replication_bridge_egress_flow_window_size() && (m.replication_bridge_egress_flow_window_size is None ==> m.without_replication_bridge_egress_flow_window_size() == m),
        m.without_replication_bridge_retry_delay().without_replication_bridge_retry_delay() == m.without_replication_bridge_retry_delay() && (m.replication_bridge_retry_delay is None ==> m.without_replication_bridge_retry_delay() == m),
        m.without_replication_bridge_tls_enabled().without_replication_bridge_tls_enabled() == m.without_replication_bridge_tls_enabled() && (m.replication_bridge_tls_enabled is None ==> m.without_replication_bridge_tls_enabled() == m),
        m.without_replication_bridge_unidirectional_client_profile_name().without_replication_bridge_unidirectional_client_profile_name() == m.without_replication_bridge_unidirectional_client_profile_name() && (m.replication_bridge_unidirectional_client_profile_name is None ==> m.without_replication_bridge_unidirectional_client_profile_name() == m),
        m.without_replication_enabled().without_replication_enabled() == m.without_replication_enabled() && (m.replication_enabled is None ==> m.without_replication_enabled() == m),
        m.without_replication_enabled_queue_behavior().without_replication_enabled_queue_behavior() == m.without_replication_enabled_queue_behavior() && (m.replication_enabled_queue_behavior is None ==> m.without_replication_enabled_queue_behavior() == m),
        m.without_replication_queue_max_msg_spool_usage().without_replication_queue_max_msg_spool_usage() == m.without_replication_queue_max_msg_spool_usage() && (m.replication_queue_max_msg_spool_usage is None ==> m.without_replication_queue_max_msg_spool_usage() == m),
        m.without_replication_queue_reject_msg_to_sender_on_discard_enabled().without_replication_queue_reject_msg_to_sender_on_discard_enabled() == m.without_replication_queue_reject_msg_to_sender_on_discard_enabled() && (m.replication_queue_reject_msg_to_sender_on_discard_enabled is None ==> m.without_replication_queue_reject_msg_to_sender_on_discard_enabled() == m),
        m.without_replication_reject_msg_when_sync_ineligible_enabled().without_replication_reject_msg_when_sync_ineligible_enabled() == m.without_replication_reject_msg_when_sync_ineligible_enabled() && (m.replication_reject_msg_when_sync_ineligible_enabled is None ==> m.without_replication_reject_msg_when_sync_ineligible_enabled() == m),
        m.without_replication_role().without_replication_role() == m.without_replication_role() && (m.replication_role is None ==> m.without_replication_role() == m),
        m.without_replication_transaction_mode().without_replication_transaction_mode() == m.without_replication_transaction_mode() && (m.replication_transaction_mode is None ==> m.without_replication_transaction_mode() == m),
        m.without_rest_tls_server_cert_enforce_trusted_common_name_enabled().without_rest_tls_server_cert_enforce_trusted_common_name_enabled() == m.without_rest_tls_server_cert_enforce_trusted_common_name_enabled() && (m.rest_tls_server_cert_enforce_trusted_common_name_enabled is None ==> m.without_rest_tls_server_cert_enforce_trusted_common_name_enabled() == m),
        m.without_rest_tls_server_cert_max_chain_depth().without_rest_tls_server_cert_max_chain_depth() == m.without_rest_tls_server_cert_max_chain_depth() && (m.rest_tls_server_cert_max_chain_depth is None ==> m.without_rest_tls_server_cert_max_chain_depth() == m),
        m.without_rest_tls_server_cert_validate_date_enabled().without_rest_tls_server_cert_validate_date_enabled() == m.without_rest_tls_server_cert_validate_date_enabled() && (m.rest_tls_server_cert_validate_date_enabled is None ==> m.without_rest_tls_server_cert_validate_date_enabled() == m),
        m.without_semp_over_msg_bus_admin_client_enabled().without_semp_over_msg_bus_admin_client_enabled() == m.without_semp_over_msg_bus_admin_client_enabled() && (m.semp_over_msg_bus_admin_client_enabled is None ==> m.without_semp_over_msg_bus_admin_client_enabled() == m),
        m.without_semp_over_msg_bus_admin_distributed_cache_enabled().without_semp_over_msg_bus_admin_distributed_cache_enabled() == m.without_semp_over_msg_bus_admin_distributed_cache_enabled() && (m.semp_over_msg_bus_admin_distributed_cache_enabled is None ==> m.without_semp_over_msg_bus_admin_distributed_cache_enabled() == m),
        m.without_semp_over_msg_bus_admin_enabled().without_semp_over_msg_bus_admin_enabled() == m.without_semp_over_msg_bus_admin_enabled() && (m.semp_over_msg_bus_admin_enabled is None ==> m.without_semp_over_msg_bus_admin_enabled() == m),
        m.without_semp_over_msg_bus_enabled().without_semp_over_msg_bus_enabled() == m.without_semp_over_msg_bus_enabled() && (m.semp_over_msg_bus_enabled is None ==> m.without_semp_over_msg_bus_enabled() == m),
        m.without_semp_over_msg_bus_show_enabled().without_semp_over_msg_bus_show_enabled() == m.without_semp_over_msg_bus_show_enabled() && (m.semp_over_msg_bus_show_enabled is None ==> m.without_semp_over_msg_bus_show_enabled() == m),
        m.without_service_amqp_max_connection_count().without_service_amqp_max_connection_count() == m.without_service_amqp_max_connection_count() && (m.service_amqp_max_connection_count is None ==> m.without_service_amqp_max_connection_count() == m),
        m.without_service_amqp_plain_text_enabled().without_service_amqp_plain_text_enabled() == m.without_service_amqp_plain_text_enabled() && (m.service_amqp_plain_text_enabled is None ==> m.without_service_amqp_plain_text_enabled() == m),
        m.without_service_amqp_plain_text_listen_port().without_service_amqp_plain_text_listen_port() == m.without_service_amqp_plain_text_listen_port() && (m.service_amqp_plain_text_listen_port is None ==> m.without_service_amqp_plain_text_listen_port() == m),
        m.without_service_amqp_tls_enabled().without_service_amqp_tls_enabled() == m.without_service_amqp_tls_enabled() && (m.service_amqp_tls_enabled is None ==> m.without_service_amqp_tls_enabled() == m),
        m.without_service_amqp_tls_listen_port().without_service_amqp_tls_listen_port() == m.without_service_amqp_tls_listen_port() && (m.service_amqp_tls_listen_port is None ==> m.without_service_amqp_tls_listen_port() == m),
        m.without_service_mqtt_max_connection_count().without_service_mqtt_max_connection_count() == m.without_service_mqtt_max_connection_count() && (m.service_mqtt_max_connection_count is None ==> m.without_service_mqtt_max_connection_count() == m),
        m.without_service_mqtt_plain_text_enabled().without_service_mqtt_plain_text_enabled() == m.without_service_mqtt_plain_text_enabled() && (m.service_mqtt_plain_text_enabled is None ==> m.without_service_mqtt_plain_text_enabled() == m),
        m.without_service_mqtt_plain_text_listen_port().without_service_mqtt_plain_text_listen_port() == m.without_service_mqtt_plain_text_listen_port() && (m.service_mqtt_plain_text_listen_port is None ==> m.without_service_mqtt_plain_text_listen_port() == m),
        m.without_service_mqtt_tls_enabled().without_service_mqtt_tls_enabled() == m.without_service_mqtt_tls_enabled() && (m.service_mqtt_tls_enabled is None ==> m.without_service_mqtt_tls_enabled() == m),
        m.without_service_mqtt_tls_listen_port().without_service_mqtt_tls_listen_port() == m.without_service_mqtt_tls_listen_port() && (m.service_mqtt_tls_listen_port is None ==> m.without_service_mqtt_tls_listen_port() == m),
        m.without_service_mqtt_tls_web_socket_enabled().without_service_mqtt_tls_web_socket_enabled() == m.without_service_mqtt_tls_web_socket_enabled() && (m.service_mqtt_tls_web_socket_enabled is None ==> m.without_service_mqtt_tls_web_socket_enabled() == m),
        m.without_service_mqtt_tls_web_socket_listen_port().without_service_mqtt_tls_web_socket_listen_port() == m.without_service_mqtt_tls_web_socket_listen_port() && (m.service_mqtt_tls_web_socket_listen_port is None ==> m.without_service_mqtt_tls_web_socket_listen_port() == m),
        m.without_service_mqtt_web_socket_enabled().without_service_mqtt_web_socket_enabled() == m.without_service_mqtt_web_socket_enabled() && (m.service_mqtt_web_socket_enabled is None ==> m.without_service_mqtt_web_socket_enabled() == m),
        m.without_service_mqtt_web_socket_listen_port().without_service_mqtt_web_socket_listen_port() == m.without_service_mqtt_web_socket_listen_port() && (m.service_mqtt_web_socket_listen_port is None ==> m.without_service_mqtt_web_socket_listen_port() == m),
        m.without_service_rest_incoming_max_connection_count().without_service_rest_incoming_max_connection_count() == m.without_service_rest_incoming_max_connection_count() && (m.service_rest_incoming_max_connection_count is None ==> m.without_service_rest_incoming_max_connection_count() == m),
        m.without_service_rest_incoming_plain_text_enabled().without_service_rest_incoming_plain_text_enabled() == m.without_service_rest_incoming_plain_text_enabled() && (m.service_rest_incoming_plain_text_enabled is None ==> m.without_service_rest_incoming_plain_text_enabled() == m),
        m.without_service_rest_incoming_plain_text_listen_port().without_service_rest_incoming_plain_text_listen_port() == m.without_service_rest_incoming_plain_text_listen_port() && (m.service_rest_incoming_plain_text_listen_port is None ==> m.without_service_rest_incoming_plain_text_listen_port() == m),
        m.without_service_rest_incoming_tls_enabled().without_service_rest_incoming_tls_enabled() == m.without_service_rest_incoming_tls_enabled() && (m.service_rest_incoming_tls_enabled is None ==> m.without_service_rest_incoming_tls_enabled() == m),
        m.without_service_rest_incoming_tls_listen_port().without_service_rest_incoming_tls_listen_port() == m.without_service_rest_incoming_tls_listen_port() && (m.service_rest_incoming_tls_listen_port is None ==> m.without_service_rest_incoming_tls_listen_port() == m),
        m.without_service_rest_mode().without_service_rest_mode() == m.without_service_rest_mode() && (m.service_rest_mode is None ==> m.without_service_rest_mode() == m),
        m.without_service_rest_outgoing_max_connection_count().without_service_rest_outgoing_max_connection_count() == m.without_service_rest_outgoing_max_connection_count() && (m.service_rest_outgoing_max_connection_count is None ==> m.without_service_rest_outgoing_max_connection_count() == m),
        m.without_service_smf_max_connection_count().without_service_smf_max_connection_count() == m.without_service_smf_max_connection_count() && (m.service_smf_max_connection_count is None ==> m.without_service_smf_max_connection_count() == m),
        m.without_service_smf_plain_text_enabled().without_service_smf_plain_text_enabled() == m.without_service_smf_plain_text_enabled() && (m.service_smf_plain_text_enabled is None ==> m.without_service_smf_plain_text_enabled() == m),
        m.without_service_smf_tls_enabled().without_service_smf_tls_enabled() == m.without_service_smf_tls_enabled() && (m.service_smf_tls_enabled is None ==> m.without_service_smf_tls_enabled() == m),
        m.without_service_web_max_connection_count().without_service_web_max_connection_count() == m.without_service_web_max_connection_count() && (m.service_web_max_connection_count is None ==> m.without_service_web_max_connection_count() == m),
        m.without_service_web_plain_text_enabled().without_service_web_plain_text_enabled() == m.without_service_web_plain_text_enabled() && (m.service_web_plain_text_enabled is None ==> m.without_service_web_plain_text_enabled() == m),
        m.without_service_web_tls_enabled().without_service_web_tls_enabled() == m.without_service_web_tls_enabled() && (m.service_web_tls_enabled is None ==> m.without_service_web_tls_enabled() == m),
        m.without_tls_allow_downgrade_to_plain_text_enabled().without_tls_allow_downgrade_to_plain_text_enabled() == m.without_tls_allow_downgrade_to_plain_text_enabled() && (m.tls_allow_downgrade_to_plain_text_enabled is None ==> m.without_tls_allow_downgrade_to_plain_text_enabled() == m),
{
}

/// Writing the value an attribute already holds changes nothing.
pub proof fn lemma_msg_vpn_rewrite_is_no_op(m: MsgVpnView, flag: bool, text: Seq<char>, number: i64, threshold: EventThreshold, by_value: EventThresholdByValue)
    ensures
        m.authentication_basic_enabled == Some(flag) ==> m.with_authentication_basic_enabled(flag) == m,
        m.authentication_basic_profile_name == Some(text) ==> m.with_authentication_basic_profile_name(text) == m,
        m.authentication_basic_radius_domain == Some(text) ==> m.with_authentication_basic_radius_domain(text) == m,
        m.authentication_basic_type == Some(text) ==> m.with_authentication_basic_type(text) == m,
        m.authentication_client_cert_allow_api_provided_username_enabled == Some(flag) ==> m.with_authentication_client_cert_allow_api_provided_username_enabled(flag) == m,
        m.authentication_client_cert_enabled == Some(flag) ==> m.with_authentication_client_cert_enabled(flag) == m,
        m.authentication_client_cert_max_chain_depth == Some(number) ==> m.with_authentication_client_cert_max_chain_depth(number) == m,
        m.authentication_client_cert_revocation_check_mode == Some(text) ==> m.with_authentication_client_cert_revocation_check_mode(text) == m,
        m.authentication_client_cert_username_source == Some(text) ==> m.with_authentication_client_cert_username_source(text) == m,
        m.authentication_client_cert_validate_date_enabled == Some(flag) ==> m.with_authentication_client_cert_validate_date_enabled(flag) == m,
        m.authentication_kerberos_allow_api_provided_username_enabled == Some(flag) ==> m.with_authentication_kerberos_allow_api_provided_username_enabled(flag) == m,
        m.authentication_kerberos_enabled == Some(flag) ==> m.with_authentication_kerberos_enabled(flag) == m,
        m.authorization_ldap_group_membership_attribute_name == Some(text) ==> m.with_authorization_ldap_group_membership_attribute_name(text) == m,
        m.authorization_profile_name == Some(text) ==> m.with_authorization_profile_name(text) == m,
        m.authorization_type == Some(text) ==> m.with_authorization_type(text) == m,
        m.bridging_tls_server_cert_enforce_trusted_common_name_enabled == Some(flag) ==> m.with_bridging_tls_server_cert_enforce_trusted_common_name_enabled(flag) == m,
        m.bridging_tls_server_cert_max_chain_depth == Some(number) ==> m.with_bridging_tls_server_cert_max_chain_depth(number) == m,
        m.bridging_tls_server_cert_validate_date_enabled == Some(flag) ==> m.with_bridging_tls_server_cert_validate_date_enabled(flag) == m,
        m.distributed_cache_management_enabled == Some(flag) ==> m.with_distributed_cache_management_enabled(flag) == m,
        m.enabled == Some(flag) ==> m.with_enabled(flag) == m,
        m.event_connection_count_threshold == Some(threshold) ==> m.with_event_connection_count_threshold(threshold) == m,
        m.event_egress_flow_count_threshold == Some(threshold) ==> m.with_event_egress_flow_count_threshold(threshold) == m,
        m.event_egress_msg_rate_threshold == Some(by_value) ==> m.with_event_egress_msg_rate_threshold(by_value) == m,
        m.event_endpoint_count_threshold == Some(threshold) ==> m.with_event_endpoint_count_threshold(threshold) == m,
        m.event_ingress_flow_count_threshold == Some(threshold) ==> m.with_event_ingress_flow_count_threshold(threshold) == m,
        m.event_ingress_msg_rate_threshold == Some(by_value) ==> m.with_event_ingress_msg_rate_threshold(by_value) == m,
        m.event_large_msg_threshold == Some(number) ==> m.with_event_large_msg_threshold(number) == m,
        m.event_log_tag == Some(text) ==> m.with_event_log_tag(text) == m,
        m.event_msg_spool_usage_threshold == Some(threshold) ==> m.with_event_msg_spool_usage_threshold(threshold) == m,
        m.event_publish_client_enabled == Some(flag) ==> m.with_event_publish_client_enabled(flag) == m,
        m.event_publish_msg_vpn_enabled == Some(flag) ==> m.with_event_publish_msg_vpn_enabled(flag) == m,
        m.event_publish_subscription_mode == Some(text) ==> m.with_event_publish_subscription_mode(text) == m,
        m.event_publish_topic_format_mqtt_enabled == Some(flag) ==> m.with_event_publish_topic_format_mqtt_enabled(flag) == m,
        m.event_publish_topic_format_smf_enabled == Some(flag) ==> m.with_event_publish_topic_format_smf_enabled(flag) == m,
        m.event_service_amqp_connection_count_threshold == Some(threshold) ==> m.with_event_service_amqp_connection_count_threshold(threshold) == m,
        m.event_service_mqtt_connection_count_threshold == Some(threshold) ==> m.with_event_service_mqtt_connection_count_threshold(threshold) == m,
        m.event_service_rest_incoming_connection_count_threshold == Some(threshold) ==> m.with_event_service_rest_incoming_connection_count_threshold(threshold) == m,
        m.event_service_smf_connection_count_threshold == Some(threshold) ==> m.with_event_service_smf_connection_count_threshold(threshold) == m,
        m.event_service_web_connection_count_threshold == Some(threshold) ==> m.with_event_service_web_connection_count_threshold(threshold) == m,
        m.event_subscription_count_threshold == Some(threshold) ==> m.with_event_subscription_count_threshold(threshold) == m,
        m.event_transacted_session_count_threshold == Some(threshold) ==> m.with_event_transacted_session_count_threshold(threshold) == m,
        m.event_transaction_count_threshold == Some(threshold) ==> m.with_event_transaction_count_threshold(threshold) == m,
        m.export_subscriptions_enabled == Some(flag) ==> m.with_export_subscriptions_enabled(flag) == m,
        m.jndi_enabled == Some(flag) ==> m.with_jndi_enabled(flag) == m,
        m.max_connection_count == Some(number) ==> m.with_max_connection_count(number) == m,
        m.max_egress_flow_count == Some(number) ==> m.with_max_egress_flow_count(number) == m,
        m.max_endpoint_count == Some(number) ==> m.with_max_endpoint_count(number) == m,
        m.max_ingress_flow_count == Some(number) ==> m.with_max_ingress_flow_count(number) == m,
        m.max_msg_spool_usage == Some(number) ==> m.with_max_msg_spool_usage(number) == m,
        m.max_subscription_count == Some(number) ==> m.with_max_subscription_count(number) == m,
        m.max_transacted_session_count == Some(number) ==> m.with_max_transacted_session_count(number) == m,
        m.max_transaction_count == Some(number) ==> m.with_max_transaction_count(number) == m,
        m.msg_vpn_name == Some(text) ==> m.with_msg_vpn_name(text) == m,
        m.replication_ack_propagation_interval_msg_count == Some(number) ==> m.with_replication_ack_propagation_interval_msg_count(number) == m,
        m.replication_bridge_authentication_basic_client_username == Some(text) ==> m.with_replication_bridge_authentication_basic_client_username(text) == m,
        m.replication_bridge_authentication_basic_password == Some(text) ==> m.with_replication_bridge_authentication_basic_password(text) == m,
        m.replication_bridge_authentication_client_cert_content == Some(text) ==> m.with_replication_bridge_authentication_client_cert_content(text) == m,
        m.replication_bridge_authentication_client_cert_password == Some(text) ==> m.with_replication_bridge_authentication_client_cert_password(text) == m,
        m.replication_bridge_authentication_scheme == Some(text) ==> m.with_replication_bridge_authentication_scheme(text) == m,
        m.replication_bridge_compressed_data_enabled == Some(flag) ==> m.with_replication_bridge_compressed_data_enabled(flag) == m,
        m.replication_bridge_egress_flow_window_size == Some(number) ==> m.with_replication_bridge_egress_flow_window_size(number) == m,
        m.replication_bridge_retry_delay == Some(number) ==> m.with_replication_bridge_retry_delay(number) == m,
        m.replication_bridge_tls_enabled == Some(flag) ==> m.with_replication_bridge_tls_enabled(flag) == m,
        m.replication_bridge_unidirectional_client_profile_name == Some(text) ==> m.with_replication_bridge_unidirectional_client_profile_name(text) == m,
        m.replication_enabled == Some(flag) ==> m.with_replication_enabled(flag) == m,
        m.replication_enabled_queue_behavior == Some(text) ==> m.with_replication_enabled_queue_behavior(text) == m,
        m.replication_queue_max_msg_spool_usage == Some(number) ==> m.with_replication_queue_max_msg_spool_usage(number) == m,
        m.replication_queue_reject_msg_to_sender_on_discard_enabled == Some(flag) ==> m.with_replication_queue_reject_msg_to_sender_on_discard_enabled(flag) == m,
        m.replication_reject_msg_when_sync_ineligible_enabled == Some(flag) ==> m.with_replication_reject_msg_when_sync_ineligible_enabled(flag) == m,
        m.replication_role == Some(text) ==> m.with_replication_role(text) == m,
        m.replication_transaction_mode == Some(text) ==> m.with_replication_transaction_mode(text) == m,
        m.rest_tls_server_cert_enforce_trusted_common_name_enabled == Some(flag) ==> m.with_rest_tls_server_cert_enforce_trusted_common_name_enabled(flag) == m,
        m.rest_tls_server_cert_max_chain_depth == Some(number) ==> m.with_rest_tls_server_cert_max_chain_depth(number) == m,
        m.rest_tls_server_cert_validate_date_enabled == Some(flag) ==> m.with_rest_tls_server_cert_validate_date_enabled(flag) == m,
        m.semp_over_msg_bus_admin_client_enabled == Some(flag) ==> m.with_semp_over_msg_bus_admin_client_enabled(flag) == m,
        m.semp_over_msg_bus_admin_distributed_cache_enabled == Some(flag) ==> m.with_semp_over_msg_bus_admin_distributed_cache_enabled(flag) == m,
        m.semp_over_msg_bus_admin_enabled == Some(flag) ==> m.with_semp_over_msg_bus_admin_enabled(flag) == m,
        m.semp_over_msg_bus_enabled == Some(flag) ==> m.with_semp_over_msg_bus_enabled(flag) == m,
        m.semp_over_msg_bus_show_enabled == Some(flag) ==> m.with_semp_over_msg_bus_show_enabled(flag) == m,
        m.service_amqp_max_connection_count == Some(number) ==> m.with_service_amqp_max_connection_count(number) == m,
        m.service_amqp_plain_text_enabled == Some(flag) ==> m.with_service_amqp_plain_text_enabled(flag) == m,
        m.service_amqp_plain_text_listen_port == Some(number) ==> m.with_service_amqp_plain_text_listen_port(number) == m,
        m.service_amqp_tls_enabled == Some(flag) ==> m.with_service_amqp_tls_enabled(flag) == m,
        m.service_amqp_tls_listen_port == Some(number) ==> m.with_service_amqp_tls_listen_port(number) == m,
        m.service_mqtt_max_connection_count == Some(number) ==> m.with_service_mqtt_max_connection_count(number) == m,
        m.service_mqtt_plain_text_enabled == Some(flag) ==> m.with_service_mqtt_plain_text_enabled(flag) == m,
        m.service_mqtt_plain_text_listen_port == Some(number) ==> m.with_service_mqtt_plain_text_listen_port(number) == m,
        m.service_mqtt_tls_enabled == Some(flag) ==> m.with_service_mqtt_tls_enabled(flag) == m,
        m.service_mqtt_tls_listen_port == Some(number) ==> m.with_service_mqtt_tls_listen_port(number) == m,
        m.service_mqtt_tls_web_socket_enabled == Some(flag) ==> m.with_service_mqtt_tls_web_socket_enabled(flag) == m,
        m.service_mqtt_tls_web_socket_listen_port == Some(number) ==> m.with_service_mqtt_tls_web_socket_listen_port(number) == m,
        m.service_mqtt_web_socket_enabled == Some(flag) ==> m.with_service_mqtt_web_socket_enabled(flag) == m,
        m.service_mqtt_web_socket_listen_port == Some(number) ==> m.with_service_mqtt_web_socket_listen_port(number) == m,
        m.service_rest_incoming_max_connection_count == Some(number) ==> m.with_service_rest_incoming_max_connection_count(number) == m,
        m.service_rest_incoming_plain_text_enabled == Some(flag) ==> m.with_service_rest_incoming_plain_text_enabled(flag) == m,
        m.service_rest_incoming_plain_text_listen_port == Some(number) ==> m.with_service_rest_incoming_plain_text_listen_port(number) == m,
        m.service_rest_incoming_tls_enabled == Some(flag) ==> m.with_service_rest_incoming_tls_enabled(flag) == m,
        m.service_rest_incoming_tls_listen_port == Some(number) ==> m.with_service_rest_incoming_tls_listen_port(number) == m,
        m.service_rest_mode == Some(text) ==> m.with_service_rest_mode(text) == m,
        m.service_rest_outgoing_max_connection_count == Some(number) ==> m.with_service_rest_outgoing_max_connection_count(number) == m,
        m.service_smf_max_connection_count == Some(number) ==> m.with_service_smf_max_connection_count(number) == m,
        m.service_smf_plain_text_enabled == Some(flag) ==> m.with_service_smf_plain_text_enabled(flag) == m,
        m.service_smf_tls_enabled == Some(flag) ==> m.with_service_smf_tls_enabled(flag) == m,
        m.service_web_max_connection_count == Some(number) ==> m.with_service_web_max_connection_count(number) == m,
        m.service_web_plain_text_enabled == Some(flag) ==> m.with_service_web_plain_text_enabled(flag) == m,
        m.service_web_tls_enabled == Some(flag) ==> m.with_service_web_tls_enabled(flag) == m,
        m.tls_allow_downgrade_to_plain_text_enabled == Some(flag) ==> m.with_tls_allow_downgrade_to_plain_text_enabled(flag) == m,
{
}

/// The name of one attribute of a [`MsgVpn`].
pub enum MsgVpnAttribute {
    /// `authenticationBasicEnabled`
    AuthenticationBasicEnabled,
    /// `authenticationBasicProfileName`
    AuthenticationBasicProfileName,
    /// `authenticationBasicRadiusDomain`
    AuthenticationBasicRadiusDomain,
    /// `authenticationBasicType`
    AuthenticationBasicType,
    /// `authenticationClientCertAllowApiProvidedUsernameEnabled`
    AuthenticationClientCertAllowApiProvidedUsernameEnabled,
    /// `authenticationClientCertEnabled`
    AuthenticationClientCertEnabled,
    /// `authenticationClientCertMaxChainDepth`
    AuthenticationClientCertMaxChainDepth,
    /// `authenticationClientCertRevocationCheckMode`
    AuthenticationClientCertRevocationCheckMode,
    /// `authenticationClientCertUsernameSource`
    AuthenticationClientCertUsernameSource,
    /// `authenticationClientCertValidateDateEnabled`
    AuthenticationClientCertValidateDateEnabled,
    /// `authenticationKerberosAllowApiProvidedUsernameEnabled`
    AuthenticationKerberosAllowApiProvidedUsernameEnabled,
    /// `authenticationKerberosEnabled`
    AuthenticationKerberosEnabled,
    /// `authorizationLdapGroupMembershipAttributeName`
    AuthorizationLdapGroupMembershipAttributeName,
    /// `authorizationProfileName`
    AuthorizationProfileName,
    /// `authorizationType`
    AuthorizationType,
    /// `bridgingTlsServerCertEnforceTrustedCommonNameEnabled`
    BridgingTlsServerCertEnforceTrustedCommonNameEnabled,
    /// `bridgingTlsServerCertMaxChainDepth`
    BridgingTlsServerCertMaxChainDepth,
    /// `bridgingTlsServerCertValidateDateEnabled`
    BridgingTlsServerCertValidateDateEnabled,
    /// `distributedCacheManagementEnabled`
    DistributedCacheManagementEnabled,
    /// `enabled`
    Enabled,
    /// `eventConnectionCountThreshold`
    EventConnectionCountThreshold,
    /// `eventEgressFlowCountThreshold`
    EventEgressFlowCountThreshold,
    /// `eventEgressMsgRateThreshold`
    EventEgressMsgRateThreshold,
    /// `eventEndpointCountThreshold`
    EventEndpointCountThreshold,
    /// `eventIngressFlowCountThreshold`
    EventIngressFlowCountThreshold,
    /// `eventIngressMsgRateThreshold`
    EventIngressMsgRateThreshold,
    /// `eventLargeMsgThreshold`
    EventLargeMsgThreshold,
    /// `eventLogTag`
    EventLogTag,
    /// `eventMsgSpoolUsageThreshold`
    EventMsgSpoolUsageThreshold,
    /// `eventPublishClientEnabled`
    EventPublishClientEnabled,
    /// `eventPublishMsgVpnEnabled`
    EventPublishMsgVpnEnabled,
    /// `eventPublishSubscriptionMode`
    EventPublishSubscriptionMode,
    /// `eventPublishTopicFormatMqttEnabled`
    EventPublishTopicFormatMqttEnabled,
    /// `eventPublishTopicFormatSmfEnabled`
    EventPublishTopicFormatSmfEnabled,
    /// `eventServiceAmqpConnectionCountThreshold`
    EventServiceAmqpConnectionCountThreshold,
    /// `eventServiceMqttConnectionCountThreshold`
    EventServiceMqttConnectionCountThreshold,
    /// `eventServiceRestIncomingConnectionCountThreshold`
    EventServiceRestIncomingConnectionCountThreshold,
    /// `eventServiceSmfConnectionCountThreshold`
    EventServiceSmfConnectionCountThreshold,
    /// `eventServiceWebConnectionCountThreshold`
    EventServiceWebConnectionCountThreshold,
    /// `eventSubscriptionCountThreshold`
    EventSubscriptionCountThreshold,
    /// `eventTransactedSessionCountThreshold`
    EventTransactedSessionCountThreshold,
    /// `eventTransactionCountThreshold`
    EventTransactionCountThreshold,
    /// `exportSubscriptionsEnabled`
    ExportSubscriptionsEnabled,
    /// `jndiEnabled`
    JndiEnabled,
    /// `maxConnectionCount`
    MaxConnectionCount,
    /// `maxEgressFlowCount`
    MaxEgressFlowCount,
    /// `maxEndpointCount`
    MaxEndpointCount,
    /// `maxIngressFlowCount`
    MaxIngressFlowCount,
    /// `maxMsgSpoolUsage`
    MaxMsgSpoolUsage,
    /// `maxSubscriptionCount`
    MaxSubscriptionCount,
    /// `maxTransactedSessionCount`
    MaxTransactedSessionCount,
    /// `maxTransactionCount`
    MaxTransactionCount,
    /// `msgVpnName`
    MsgVpnName,
    /// `replicationAckPropagationIntervalMsgCount`
    ReplicationAckPropagationIntervalMsgCount,
    /// `replicationBridgeAuthenticationBasicClientUsername`
    ReplicationBridgeAuthenticationBasicClientUsername,
    /// `replicationBridgeAuthenticationBasicPassword`
    ReplicationBridgeAuthenticationBasicPassword,
    /// `replicationBridgeAuthenticationClientCertContent`
    ReplicationBridgeAuthenticationClientCertContent,
    /// `replicationBridgeAuthenticationClientCertPassword`
    ReplicationBridgeAuthenticationClientCertPassword,
    /// `replicationBridgeAuthenticationScheme`
    ReplicationBridgeAuthenticationScheme,
    /// `replicationBridgeCompressedDataEnabled`
    ReplicationBridgeCompressedDataEnabled,
    /// `replicationBridgeEgressFlowWindowSize`
    ReplicationBridgeEgressFlowWindowSize,
    /// `replicationBridgeRetryDelay`
    ReplicationBridgeRetryDelay,
    /// `replicationBridgeTlsEnabled`
    ReplicationBridgeTlsEnabled,
    /// `replicationBridgeUnidirectionalClientProfileName`
    ReplicationBridgeUnidirectionalClientProfileName,
    /// `replicationEnabled`
    ReplicationEnabled,
    /// `replicationEnabledQueueBehavior`
    ReplicationEnabledQueueBehavior,
    /// `replicationQueueMaxMsgSpoolUsage`
    ReplicationQueueMaxMsgSpoolUsage,
    /// `replicationQueueRejectMsgToSenderOnDiscardEnabled`
    ReplicationQueueRejectMsgToSenderOnDiscardEnabled,
    /// `replicationRejectMsgWhenSyncIneligibleEnabled`
    ReplicationRejectMsgWhenSyncIneligibleEnabled,
    /// `replicationRole`
    ReplicationRole,
    /// `replicationTransactionMode`
    ReplicationTransactionMode,
    /// `restTlsServerCertEnforceTrustedCommonNameEnabled`
    RestTlsServerCertEnforceTrustedCommonNameEnabled,
    /// `restTlsServerCertMaxChainDepth`
    RestTlsServerCertMaxChainDepth,
    /// `restTlsServerCertValidateDateEnabled`
    RestTlsServerCertValidateDateEnabled,
    /// `sempOverMsgBusAdminClientEnabled`
    SempOverMsgBusAdminClientEnabled,
    /// `sempOverMsgBusAdminDistributedCacheEnabled`
    SempOverMsgBusAdminDistributedCacheEnabled,
    /// `sempOverMsgBusAdminEnabled`
    SempOverMsgBusAdminEnabled,
    /// `sempOverMsgBusEnabled`
    SempOverMsgBusEnabled,
    /// `sempOverMsgBusShowEnabled`
    SempOverMsgBusShowEnabled,
    /// `serviceAmqpMaxConnectionCount`
    ServiceAmqpMaxConnectionCount,
    /// `serviceAmqpPlainTextEnabled`
    ServiceAmqpPlainTextEnabled,
    /// `serviceAmqpPlainTextListenPort`
    ServiceAmqpPlainTextListenPort,
    /// `serviceAmqpTlsEnabled`
    ServiceAmqpTlsEnabled,
    /// `serviceAmqpTlsListenPort`
    ServiceAmqpTlsListenPort,
    /// `serviceMqttMaxConnectionCount`
    ServiceMqttMaxConnectionCount,
    /// `serviceMqttPlainTextEnabled`
    ServiceMqttPlainTextEnabled,
    /// `serviceMqttPlainTextListenPort`
    ServiceMqttPlainTextListenPort,
    /// `serviceMqttTlsEnabled`
    ServiceMqttTlsEnabled,
    /// `serviceMqttTlsListenPort`
    ServiceMqttTlsListenPort,
    /// `serviceMqttTlsWebSocketEnabled`
    ServiceMqttTlsWebSocketEnabled,
    /// `serviceMqttTlsWebSocketListenPort`
    ServiceMqttTlsWebSocketListenPort,
    /// `serviceMqttWebSocketEnabled`
    ServiceMqttWebSocketEnabled,
    /// `serviceMqttWebSocketListenPort`
    ServiceMqttWebSocketListenPort,
    /// `serviceRestIncomingMaxConnectionCount`
    ServiceRestIncomingMaxConnectionCount,
    /// `serviceRestIncomingPlainTextEnabled`
    ServiceRestIncomingPlainTextEnabled,
    /// `serviceRestIncomingPlainTextListenPort`
    ServiceRestIncomingPlainTextListenPort,
    /// `serviceRestIncomingTlsEnabled`
    ServiceRestIncomingTlsEnabled,
    /// `serviceRestIncomingTlsListenPort`
    ServiceRestIncomingTlsListenPort,
    /// `serviceRestMode`
    ServiceRestMode,
    /// `serviceRestOutgoingMaxConnectionCount`
    ServiceRestOutgoingMaxConnectionCount,
    /// `serviceSmfMaxConnectionCount`
    ServiceSmfMaxConnectionCount,
    /// `serviceSmfPlainTextEnabled`
    ServiceSmfPlainTextEnabled,
    /// `serviceSmfTlsEnabled`
    ServiceSmfTlsEnabled,
    /// `serviceWebMaxConnectionCount`
    ServiceWebMaxConnectionCount,
    /// `serviceWebPlainTextEnabled`
    ServiceWebPlainTextEnabled,
    /// `serviceWebTlsEnabled`
    ServiceWebTlsEnabled,
    /// `tlsAllowDowngradeToPlainTextEnabled`
    TlsAllowDowngradeToPlainTextEnabled,
}

impl MsgVpnView {
    /// The value of the named attribute, present or absent.
    pub open spec fn attribute(self, a: MsgVpnAttribute) -> AttributeValue {
        match a {
            MsgVpnAttribute::AuthenticationBasicEnabled => AttributeValue::Flag(self.authentication_basic_enabled),
            MsgVpnAttribute::AuthenticationBasicProfileName => AttributeValue::Text(self.authentication_basic_profile_name),
            MsgVpnAttribute::AuthenticationBasicRadiusDomain => AttributeValue::Text(self.authentication_basic_radius_domain),
            MsgVpnAttribute::AuthenticationBasicType => AttributeValue::Text(self.authentication_basic_type),
            MsgVpnAttribute::AuthenticationClientCertAllowApiProvidedUsernameEnabled => AttributeValue::Flag(self.authentication_client_cert_allow_api_provided_username_enabled),
            MsgVpnAttribute::AuthenticationClientCertEnabled => AttributeValue::Flag(self.authentication_client_cert_enabled),
            MsgVpnAttribute::AuthenticationClientCertMaxChainDepth => AttributeValue::Int64(self.authentication_client_cert_max_chain_depth),
            MsgVpnAttribute::AuthenticationClientCertRevocationCheckMode => AttributeValue::Text(self.authentication_client_cert_revocation_check_mode),
            MsgVpnAttribute::AuthenticationClientCertUsernameSource => AttributeValue::Text(self.authentication_client_cert_username_source),
            MsgVpnAttribute::AuthenticationClientCertValidateDateEnabled => AttributeValue::Flag(self.authentication_client_cert_validate_date_enabled),
            MsgVpnAttribute::AuthenticationKerberosAllowApiProvidedUsernameEnabled => AttributeValue::Flag(self.authentication_kerberos_allow_api_provided_username_enabled),
            MsgVpnAttribute::AuthenticationKerberosEnabled => AttributeValue::Flag(self.authentication_kerberos_enabled),
            MsgVpnAttribute::AuthorizationLdapGroupMembershipAttributeName => AttributeValue::Text(self.authorization_ldap_group_membership_attribute_name),
            MsgVpnAttribute::AuthorizationProfileName => AttributeValue::Text(self.authorization_profile_name),
            MsgVpnAttribute::AuthorizationType => AttributeValue::Text(self.authorization_type),
            MsgVpnAttribute::BridgingTlsServerCertEnforceTrustedCommonNameEnabled => AttributeValue::Flag(self.bridging_tls_server_cert_enforce_trusted_common_name_enabled),
            MsgVpnAttribute::BridgingTlsServerCertMaxChainDepth => AttributeValue::Int64(self.bridging_tls_server_cert_max_chain_depth),
            MsgVpnAttribute::BridgingTlsServerCertValidateDateEnabled => AttributeValue::Flag(self.bridging_tls_server_cert_validate_date_enabled),
            MsgVpnAttribute::DistributedCacheManagementEnabled => AttributeValue::Flag(self.distributed_cache_management_enabled),
            MsgVpnAttribute::Enabled => AttributeValue::Flag(self.enabled),
            MsgVpnAttribute::EventConnectionCountThreshold => AttributeValue::Threshold(self.event_connection_count_threshold),
            MsgVpnAttribute::EventEgressFlowCountThreshold => AttributeValue::Threshold(self.event_egress_flow_count_threshold),
            MsgVpnAttribute::EventEgressMsgRateThreshold => AttributeValue::ThresholdByValue(self.event_egress_msg_rate_threshold),
            MsgVpnAttribute::EventEndpointCountThreshold => AttributeValue::Threshold(self.event_endpoint_count_threshold),
            MsgVpnAttribute::EventIngressFlowCountThreshold => AttributeValue::Threshold(self.event_ingress_flow_count_threshold),
            MsgVpnAttribute::EventIngressMsgRateThreshold => AttributeValue::ThresholdByValue(self.event_ingress_msg_rate_threshold),
            MsgVpnAttribute::EventLargeMsgThreshold => AttributeValue::Int64(self.event_large_msg_threshold),
            MsgVpnAttribute::EventLogTag => AttributeValue::Text(self.event_log_tag),
            MsgVpnAttribute::EventMsgSpoolUsageThreshold => AttributeValue::Threshold(self.event_msg_spool_usage_threshold),
            MsgVpnAttribute::EventPublishClientEnabled => AttributeValue::Flag(self.event_publish_client_enabled),
            MsgVpnAttribute::EventPublishMsgVpnEnabled => AttributeValue::Flag(self.event_publish_msg_vpn_enabled),
            MsgVpnAttribute::EventPublishSubscriptionMode => AttributeValue::Text(self.event_publish_subscription_mode),
            MsgVpnAttribute::EventPublishTopicFormatMqttEnabled => AttributeValue::Flag(self.event_publish_topic_format_mqtt_enabled),
            MsgVpnAttribute::EventPublishTopicFormatSmfEnabled => AttributeValue::Flag(self.event_publish_topic_format_smf_enabled),
            MsgVpnAttribute::EventServiceAmqpConnectionCountThreshold => AttributeValue::Threshold(self.event_service_amqp_connection_count_threshold),
            MsgVpnAttribute::EventServiceMqttConnectionCountThreshold => AttributeValue::Threshold(self.event_service_mqtt_connection_count_threshold),
            MsgVpnAttribute::EventServiceRestIncomingConnectionCountThreshold => AttributeValue::Threshold(self.event_service_rest_incoming_connection_count_threshold),
            MsgVpnAttribute::EventServiceSmfConnectionCountThreshold => AttributeValue::Threshold(self.event_service_smf_connection_count_threshold),
            MsgVpnAttribute::EventServiceWebConnectionCountThreshold => AttributeValue::Threshold(self.event_service_web_connection_count_threshold),
            MsgVpnAttribute::EventSubscriptionCountThreshold => AttributeValue::Threshold(self.event_subscription_count_threshold),
            MsgVpnAttribute::EventTransactedSessionCountThreshold => AttributeValue::Threshold(self.event_transacted_session_count_threshold),
            MsgVpnAttribute::EventTransactionCountThreshold => AttributeValue::Threshold(self.event_transaction_count_threshold),
            MsgVpnAttribute::ExportSubscriptionsEnabled => AttributeValue::Flag(self.export_subscriptions_enabled),
            MsgVpnAttribute::JndiEnabled => AttributeValue::Flag(self.jndi_enabled),
            MsgVpnAttribute::MaxConnectionCount => AttributeValue::Int64(self.max_connection_count),
            MsgVpnAttribute::MaxEgressFlowCount => AttributeValue::Int64(self.max_egress_flow_count),
            MsgVpnAttribute::MaxEndpointCount => AttributeValue::Int64(self.max_endpoint_count),
            MsgVpnAttribute::MaxIngressFlowCount => AttributeValue::Int64(self.max_ingress_flow_count),
            MsgVpnAttribute::MaxMsgSpoolUsage => AttributeValue::Int64(self.max_msg_spool_usage),
            MsgVpnAttribute::MaxSubscriptionCount => AttributeValue::Int64(self.max_subscription_count),
            MsgVpnAttribute::MaxTransactedSessionCount => AttributeValue::Int64(self.max_transacted_session_count),
            MsgVpnAttribute::MaxTransactionCount => AttributeValue::Int64(self.max_transaction_count),
            MsgVpnAttribute::MsgVpnName => AttributeValue::Text(self.msg_vpn_name),
            MsgVpnAttribute::ReplicationAckPropagationIntervalMsgCount => AttributeValue::Int64(self.replication_ack_propagation_interval_msg_count),
            MsgVpnAttribute::ReplicationBridgeAuthenticationBasicClientUsername => AttributeValue::Text(self.replication_bridge_authentication_basic_client_username),
            MsgVpnAttribute::ReplicationBridgeAuthenticationBasicPassword => AttributeValue::Text(self.replication_bridge_authentication_basic_password),
            MsgVpnAttribute::ReplicationBridgeAuthenticationClientCertContent => AttributeValue::Text(self.replication_bridge_authentication_client_cert_content),
            MsgVpnAttribute::ReplicationBridgeAuthenticationClientCertPassword => AttributeValue::Text(self.replication_bridge_authentication_client_cert_password),
            MsgVpnAttribute::ReplicationBridgeAuthenticationScheme => AttributeValue::Text(self.replication_bridge_authentication_scheme),
            MsgVpnAttribute::ReplicationBridgeCompressedDataEnabled => AttributeValue::Flag(self.replication_bridge_compressed_data_enabled),
            MsgVpnAttribute::ReplicationBridgeEgressFlowWindowSize => AttributeValue::Int64(self.replication_bridge_egress_flow_window_size),
            MsgVpnAttribute::ReplicationBridgeRetryDelay => AttributeValue::Int64(self.replication_bridge_retry_delay),
            MsgVpnAttribute::ReplicationBridgeTlsEnabled => AttributeValue::Flag(self.replication_bridge_tls_enabled),
            MsgVpnAttribute::ReplicationBridgeUnidirectionalClientProfileName => AttributeValue::Text(self.replication_bridge_unidirectional_client_profile_name),
            MsgVpnAttribute::ReplicationEnabled => AttributeValue::Flag(self.replication_enabled),
            MsgVpnAttribute::ReplicationEnabledQueueBehavior => AttributeValue::Text(self.replication_enabled_queue_behavior),
            MsgVpnAttribute::ReplicationQueueMaxMsgSpoolUsage => AttributeValue::Int64(self.replication_queue_max_msg_spool_usage),
            MsgVpnAttribute::ReplicationQueueRejectMsgToSenderOnDiscardEnabled => AttributeValue::Flag(self.replication_queue_reject_msg_to_sender_on_discard_enabled),
            MsgVpnAttribute::ReplicationRejectMsgWhenSyncIneligibleEnabled => AttributeValue::Flag(self.replication_reject_msg_when_sync_ineligible_enabled),
            MsgVpnAttribute::ReplicationRole => AttributeValue::Text(self.replication_role),
            MsgVpnAttribute::ReplicationTransactionMode => AttributeValue::Text(self.replication_transaction_mode),
            MsgVpnAttribute::RestTlsServerCertEnforceTrustedCommonNameEnabled => AttributeValue::Flag(self.rest_tls_server_cert_enforce_trusted_common_name_enabled),
            MsgVpnAttribute::RestTlsServerCertMaxChainDepth => AttributeValue::Int64(self.rest_tls_server_cert_max_chain_depth),
            MsgVpnAttribute::RestTlsServerCertValidateDateEnabled => AttributeValue::Flag(self.rest_tls_server_cert_validate_date_enabled),
            MsgVpnAttribute::SempOverMsgBusAdminClientEnabled => AttributeValue::Flag(self.semp_over_msg_bus_admin_client_enabled),
            MsgVpnAttribute::SempOverMsgBusAdminDistributedCacheEnabled => AttributeValue::Flag(self.semp_over_msg_bus_admin_distributed_cache_enabled),
            MsgVpnAttribute::SempOverMsgBusAdminEnabled => AttributeValue::Flag(self.semp_over_msg_bus_admin_enabled),
            MsgVpnAttribute::SempOverMsgBusEnabled => AttributeValue::Flag(self.semp_over_msg_bus_enabled),
            MsgVpnAttribute::SempOverMsgBusShowEnabled => AttributeValue::Flag(self.semp_over_msg_bus_show_enabled),
            MsgVpnAttribute::ServiceAmqpMaxConnectionCount => AttributeValue::Int64(self.service_amqp_max_connection_count),
            MsgVpnAttribute::ServiceAmqpPlainTextEnabled => AttributeValue::Flag(self.service_amqp_plain_text_enabled),
            MsgVpnAttribute::ServiceAmqpPlainTextListenPort => AttributeValue::Int64(self.service_amqp_plain_text_listen_port),
            MsgVpnAttribute::ServiceAmqpTlsEnabled => AttributeValue::Flag(self.service_amqp_tls_enabled),
            MsgVpnAttribute::ServiceAmqpTlsListenPort => AttributeValue::Int64(self.service_amqp_tls_listen_port),
            MsgVpnAttribute::ServiceMqttMaxConnectionCount => AttributeValue::Int64(self.service_mqtt_max_connection_count),
            MsgVpnAttribute::ServiceMqttPlainTextEnabled => AttributeValue::Flag(self.service_mqtt_plain_text_enabled),
            MsgVpnAttribute::ServiceMqttPlainTextListenPort => AttributeValue::Int64(self.service_mqtt_plain_text_listen_port),
            MsgVpnAttribute::ServiceMqttTlsEnabled => AttributeValue::Flag(self.service_mqtt_tls_enabled),
            MsgVpnAttribute::ServiceMqttTlsListenPort => AttributeValue::Int64(self.service_mqtt_tls_listen_port),
            MsgVpnAttribute::ServiceMqttTlsWebSocketEnabled => AttributeValue::Flag(self.service_mqtt_tls_web_socket_enabled),
            MsgVpnAttribute::ServiceMqttTlsWebSocketListenPort => AttributeValue::Int64(self.service_mqtt_tls_web_socket_listen_port),
            MsgVpnAttribute::ServiceMqttWebSocketEnabled => AttributeValue::Flag(self.service_mqtt_web_socket_enabled),
            MsgVpnAttribute::ServiceMqttWebSocketListenPort => AttributeValue::Int64(self.service_mqtt_web_socket_listen_port),
            MsgVpnAttribute::ServiceRestIncomingMaxConnectionCount => AttributeValue::Int64(self.service_rest_incoming_max_connection_count),
            MsgVpnAttribute::ServiceRestIncomingPlainTextEnabled => AttributeValue::Flag(self.service_rest_incoming_plain_text_enabled),
            MsgVpnAttribute::ServiceRestIncomingPlainTextListenPort => AttributeValue::Int64(self.service_rest_incoming_plain_text_listen_port),
            MsgVpnAttribute::ServiceRestIncomingTlsEnabled => AttributeValue::Flag(self.service_rest_incoming_tls_enabled),
            MsgVpnAttribute::ServiceRestIncomingTlsListenPort => AttributeValue::Int64(self.service_rest_incoming_tls_listen_port),
            MsgVpnAttribute::ServiceRestMode => AttributeValue::Text(self.service_rest_mode),
            MsgVpnAttribute::ServiceRestOutgoingMaxConnectionCount => AttributeValue::Int64(self.service_rest_outgoing_max_connection_count),
            MsgVpnAttribute::ServiceSmfMaxConnectionCount => AttributeValue::Int64(self.service_smf_max_connection_count),
            MsgVpnAttribute::ServiceSmfPlainTextEnabled => AttributeValue::Flag(self.service_smf_plain_text_enabled),
            MsgVpnAttribute::ServiceSmfTlsEnabled => AttributeValue::Flag(self.service_smf_tls_enabled),
            MsgVpnAttribute::ServiceWebMaxConnectionCount => AttributeValue::Int64(self.service_web_max_connection_count),
            MsgVpnAttribute::ServiceWebPlainTextEnabled => AttributeValue::Flag(self.service_web_plain_text_enabled),
            MsgVpnAttribute::ServiceWebTlsEnabled => AttributeValue::Flag(self.service_web_tls_enabled),
            MsgVpnAttribute::TlsAllowDowngradeToPlainTextEnabled => AttributeValue::Flag(self.tls_allow_downgrade_to_plain_text_enabled),
        }
    }
}

/// Writing an attribute gives it the value written and leaves every other attribute
/// exactly as it was.
#[verifier::rlimit(100)]
pub proof fn lemma_msg_vpn_write_changes_only_its_attribute(m: MsgVpnView, flag: bool, text: Seq<char>, number: i64, threshold: EventThreshold, by_value: EventThresholdByValue)
    ensures
        m.with_authentication_basic_enabled(flag).attribute(MsgVpnAttribute::AuthenticationBasicEnabled) == AttributeValue::Flag(Some(flag)),
        forall|a: MsgVpnAttribute| a != MsgVpnAttribute::AuthenticationBasicEnabled ==> #[trigger] m.with_authentication_basic_enabled(flag).attribute(a) == m.attribute(a),
        m.with_authentication_basic_profile_name(text).attribute(MsgVpnAttribute::AuthenticationBasicProfileName) == AttributeValue::Text(Some(text)),
        forall|a: MsgVpnAttribute| a != MsgVpnAttribute::AuthenticationBasicProfileName ==> #[trigger] m.with_authentication_basic_profile_name(text).attribute(a) == m.attribute(a),
        m.with_authentication_basic_radius_domain(text).attribute(MsgVpnAttribute::AuthenticationBasicRadiusDomain) == AttributeValue::Text(Some(text)),
        forall|a: MsgVpnAttribute| a != MsgVpnAttribute::AuthenticationBasicRadiusDomain ==> #[trigger] m.with_authentication_basic_radius_domain(text).attribute(a) == m.attribute(a),
        m.with_authentication_basic_type(text).attribute(MsgVpnAttribute::AuthenticationBasicType) == AttributeValue::Text(Some(text)),
        forall|a: MsgVpnAttribute| a != MsgVpnAttribute::AuthenticationBasicType ==> #[trigger] m.with_authentication_basic_type(text).attribute(a) == m.attribute(a),
        m.with_authentication_client_cert_allow_api_provided_username_enabled(flag).attribute(MsgVpnAttribute::AuthenticationClientCertAllowApiProvidedUsernameEnabled) == AttributeValue::Flag(Some(flag)),
        forall|a: MsgVpnAttribute| a != MsgVpnAttribute::AuthenticationClientCertAllowApiProvidedUsernameEnabled ==> #[trigger] m.with_authentication_client_cert_allow_api_provided_username_enabled(flag).attribute(a) == m.attribute(a),
        m.with_authentication_client_cert_enabled(flag).attribute(MsgVpnAttribute::AuthenticationClientCertEnabled) == AttributeValue::Flag(Some(flag)),
        forall|a: MsgVpnAttribute| a != MsgVpnAttribute::AuthenticationClientCertEnabled ==> #[trigger] m.with_authentication_client_cert_enabled(flag).attribute(a) == m.attribute(a),
        m.with_authentication_client_cert_max_chain_depth(number).attribute(MsgVpnAttribute::AuthenticationClientCertMaxChainDepth) == AttributeValue::Int64(Some(number)),
        forall|a: MsgVpnAttribute| a != MsgVpnAttribute::AuthenticationClientCertMaxChainDepth ==> #[trigger] m.with_authentication_client_cert_max_chain_depth(number).attribute(a) == m.attribute(a),
        m.with_authentication_client_cert_revocation_check_mode(text).attribute(MsgVpnAttribute::AuthenticationClientCertRevocationCheckMode) == AttributeValue::Text(Some(text)),
        forall|a: MsgVpnAttribute| a != MsgVpnAttribute::AuthenticationClientCertRevocationCheckMode ==> #[trigger] m.with_authentication_client_cert_revocation_check_mode(text).attribute(a) == m.attribute(a),
        m.with_authentication_client_cert_username_source(text).attribute(MsgVpnAttribute::AuthenticationClientCertUsernameSource) == AttributeValue::Text(Some(text)),
        forall|a: MsgVpnAttribute| a != MsgVpnAttribute::AuthenticationClientCertUsernameSource ==> #[trigger] m.with_authentication_client_cert_username_source(text).attribute(a) == m.attribute(a),
        m.with_authentication_client_cert_validate_date_enabled(flag).attribute(MsgVpnAttribute::AuthenticationClientCertValidateDateEnabled) == AttributeValue::Flag(Some(flag)),
        forall|a: MsgVpnAttribute| a != MsgVpnAttribute::AuthenticationClientCertValidateDateEnabled ==> #[trigger] m.with_authentication_client_cert_validate_date_enabled(flag).attribute(a) == m.attribute(a),
        m.with_authentication_kerberos_allow_api_provided_username_enabled(flag).attribute(MsgVpnAttribute::AuthenticationKerberosAllowApiProvidedUsernameEnabled) == AttributeValue::Flag(Some(flag)),
        forall|a: MsgVpnAttribute| a != MsgVpnAttribute::AuthenticationKerberosAllowApiProvidedUsernameEnabled ==> #[trigger] m.with_authentication_kerberos_allow_api_provided_username_enabled(flag).attribute(a) == m.attribute(a),
        m.with_authentication_kerberos_enabled(flag).attribute(MsgVpnAttribute::AuthenticationKerberosEnabled) == AttributeValue::Flag(Some(flag)),
        forall|a: MsgVpnAttribute| a != MsgVpnAttribute::AuthenticationKerberosEnabled ==> #[trigger] m.with_authentication_kerberos_enabled(flag).attribute(a) == m.attribute(a),
        m.with_authorization_ldap_group_membership_attribute_name(text).attribute(MsgVpnAttribute::AuthorizationLdapGroupMembershipAttributeName) == AttributeValue::Text(Some(text)),
        forall|a: MsgVpnAttribute| a != MsgVpnAttribute::AuthorizationLdapGroupMembershipAttributeName ==> #[trigger] m.with_authorization_ldap_group_membership_attribute_name(text).attribute(a) == m.attribute(a),
        m.with_authorization_profile_name(text).attribute(MsgVpnAttribute::AuthorizationProfileName) == AttributeValue::Text(Some(text)),
        forall|a: MsgVpnAttribute| a != MsgVpnAttribute::AuthorizationProfileName ==> #[trigger] m.with_authorization_profile_name(text).attribute(a) == m.attribute(a),
        m.with_authorization_type(text).attribute(MsgVpnAttribute::AuthorizationType) == AttributeValue::Text(Some(text)),
        forall|a: MsgVpnAttribute| a != MsgVpnAttribute::AuthorizationType ==> #[trigger] m.with_authorization_type(text).attribute(a) == m.attribute(a),
        m.with_bridging_tls_server_cert_enforce_trusted_common_name_enabled(flag).attribute(MsgVpnAttribute::BridgingTlsServerCertEnforceTrustedCommonNameEnabled) == AttributeValue::Flag(Some(flag)),
        forall|a: MsgVpnAttribute| a != MsgVpnAttribute::BridgingTlsServerCertEnforceTrustedCommonNameEnabled ==> #[trigger] m.with_bridging_tls_server_cert_enforce_trusted_common_name_enabled(flag).attribute(a) == m.attribute(a),
        m.with_bridging_tls_server_cert_max_chain_depth(number).attribute(MsgVpnAttribute::BridgingTlsServerCertMaxChainDepth) == AttributeValue::Int64(Some(number)),
        forall|a: MsgVpnAttribute| a != MsgVpnAttribute::BridgingTlsServerCertMaxChainDepth ==> #[trigger] m.with_bridging_tls_server_cert_max_chain_depth(number).attribute(a) == m.attribute(a),
        m.with_bridging_tls_server_cert_validate_date_enabled(flag).attribute(MsgVpnAttribute::BridgingTlsServerCertValidateDateEnabled) == AttributeValue::Flag(Some(flag)),
        forall|a: MsgVpnAttribute| a != MsgVpnAttribute::BridgingTlsServerCertValidateDateEnabled ==> #[trigger] m.with_bridging_tls_server_cert_validate_date_enabled(flag).attribute(a) == m.attribute(a),
        m.with_distributed_cache_management_enabled(flag).attribute(MsgVpnAttribute::DistributedCacheManagementEnabled) == AttributeValue::Flag(Some(flag)),
        forall|a: MsgVpnAttribute| a != MsgVpnAttribute::DistributedCacheManagementEnabled ==> #[trigger] m.with_distributed_cache_management_enabled(flag).attribute(a) == m.attribute(a),
        m.with_enabled(flag).attribute(MsgVpnAttribute::Enabled) == AttributeValue::Flag(Some(flag)),
        forall|a: MsgVpnAttribute| a != MsgVpnAttribute::Enabled ==> #[trigger] m.with_enabled(flag).attribute(a) == m.attribute(a),
        m.with_event_connection_count_threshold(threshold).attribute(MsgVpnAttribute::EventConnectionCountThreshold) == AttributeValue::Threshold(Some(threshold)),
        forall|a: MsgVpnAttribute| a != MsgVpnAttribute::EventConnectionCountThreshold ==> #[trigger] m.with_event_connection_count_threshold(threshold).attribute(a) == m.attribute(a),
        m.with_event_egress_flow_count_threshold(threshold).attribute(MsgVpnAttribute::EventEgressFlowCountThreshold) == AttributeValue::Threshold(Some(threshold)),
        forall|a: MsgVpnAttribute| a != MsgVpnAttribute::EventEgressFlowCountThreshold ==> #[trigger] m.with_event_egress_flow_count_threshold(threshold).attribute(a) == m.attribute(a),
        m.with_event_egress_msg_rate_threshold(by_value).attribute(MsgVpnAttribute::EventEgressMsgRateThreshold) == AttributeValue::ThresholdByValue(Some(by_value)),
        forall|a: MsgVpnAttribute| a != MsgVpnAttribute::EventEgressMsgRateThreshold ==> #[trigger] m.with_event_egress_msg_rate_threshold(by_value).attribute(a) == m.attribute(a),
        m.with_event_endpoint_count_threshold(threshold).attribute(MsgVpnAttribute::EventEndpointCountThreshold) == AttributeValue::Threshold(Some(threshold)),
        forall|a: MsgVpnAttribute| a != MsgVpnAttribute::EventEndpointCountThreshold ==> #[trigger] m.with_event_endpoint_count_threshold(threshold).attribute(a) == m.attribute(a),
        m.with_event_ingress_flow_count_threshold(threshold).attribute(MsgVpnAttribute::EventIngressFlowCountThreshold) == AttributeValue::Threshold(Some(threshold)),
        forall|a: MsgVpnAttribute| a != MsgVpnAttribute::EventIngressFlowCountThreshold ==> #[trigger] m.with_event_ingress_flow_count_threshold(threshold).attribute(a) == m.attribute(a),
        m.with_event_ingress_msg_rate_threshold(by_value).attribute(MsgVpnAttribute::EventIngressMsgRateThreshold) == AttributeValue::ThresholdByValue(Some(by_value)),
        forall|a: MsgVpnAttribute| a != MsgVpnAttribute::EventIngressMsgRateThreshold ==> #[trigger] m.with_event_ingress_msg_rate_threshold(by_value).attribute(a) == m.attribute(a),
        m.with_event_large_msg_threshold(number).attribute(MsgVpnAttribute::EventLargeMsgThreshold) == AttributeValue::Int64(Some(number)),
        forall|a: MsgVpnAttribute| a != MsgVpnAttribute::EventLargeMsgThreshold ==> #[trigger] m.with_event_large_msg_threshold(number).attribute(a) == m.attribute(a),
        m.with_event_log_tag(text).attribute(MsgVpnAttribute::EventLogTag) == AttributeValue::Text(Some(text)),
        forall|a: MsgVpnAttribute| a != MsgVpnAttribute::EventLogTag ==> #[trigger] m.with_event_log_tag(text).attribute(a) == m.attribute(a),
        m.with_event_msg_spool_usage_threshold(threshold).attribute(MsgVpnAttribute::EventMsgSpoolUsageThreshold) == AttributeValue::Threshold(Some(threshold)),
        forall|a: MsgVpnAttribute| a != MsgVpnAttribute::EventMsgSpoolUsageThreshold ==> #[trigger] m.with_event_msg_spool_usage_threshold(threshold).attribute(a) == m.attribute(a),
        m.with_event_publish_client_enabled(flag).attribute(MsgVpnAttribute::EventPublishClientEnabled) == AttributeValue::Flag(Some(flag)),
        forall|a: MsgVpnAttribute| a != MsgVpnAttribute::EventPublishClientEnabled ==> #[trigger] m.with_event_publish_client_enabled(flag).attribute(a) == m.attribute(a),
        m.with_event_publish_msg_vpn_enabled(flag).attribute(MsgVpnAttribute::EventPublishMsgVpnEnabled) == AttributeValue::Flag(Some(flag)),
        forall|a: MsgVpnAttribute| a != MsgVpnAttribute::EventPublishMsgVpnEnabled ==> #[trigger] m.with_event_publish_msg_vpn_enabled(flag).attribute(a) == m.attribute(a),
        m.with_event_publish_subscription_mode(text).attribute(MsgVpnAttribute::EventPublishSubscriptionMode) == AttributeValue::Text(Some(text)),
        forall|a: MsgVpnAttribute| a != MsgVpnAttribute::EventPublishSubscriptionMode ==> #[trigger] m.with_event_publish_subscription_mode(text).attribute(a) == m.attribute(a),
        m.with_event_publish_topic_format_mqtt_enabled(flag).attribute(MsgVpnAttribute::EventPublishTopicFormatMqttEnabled) == AttributeValue::Flag(Some(flag)),
        forall|a: MsgVpnAttribute| a != MsgVpnAttribute::EventPublishTopicFormatMqttEnabled ==> #[trigger] m.with_event_publish_topic_format_mqtt_enabled(flag).attribute(a) == m.attribute(a),
        m.with_event_publish_topic_format_smf_enabled(flag).attribute(MsgVpnAttribute::EventPublishTopicFormatSmfEnabled) == AttributeValue::Flag(Some(flag)),
        forall|a: MsgVpnAttribute| a != MsgVpnAttribute::EventPublishTopicFormatSmfEnabled ==> #[trigger] m.with_event_publish_topic_format_smf_enabled(flag).attribute(a) == m.attribute(a),
        m.with_event_service_amqp_connection_count_threshold(threshold).attribute(MsgVpnAttribute::EventServiceAmqpConnectionCountThreshold) == AttributeValue::Threshold(Some(threshold)),
        forall|a: MsgVpnAttribute| a != MsgVpnAttribute::EventServiceAmqpConnectionCountThreshold ==> #[trigger] m.with_event_service_amqp_connection_count_threshold(threshold).attribute(a) == m.attribute(a),
        m.with_event_service_mqtt_connection_count_threshold(threshold).attribute(MsgVpnAttribute::EventServiceMqttConnectionCountThreshold) == AttributeValue::Threshold(Some(threshold)),
        forall|a: MsgVpnAttribute| a != MsgVpnAttribute::EventServiceMqttConnectionCountThreshold ==> #[trigger] m.with_event_service_mqtt_connection_count_threshold(threshold).attribute(a) == m.attribute(a),
        m.with_event_service_rest_incoming_connection_count_threshold(threshold).attribute(MsgVpnAttribute::EventServiceRestIncomingConnectionCountThreshold) == AttributeValue::Threshold(Some(threshold)),
        forall|a: MsgVpnAttribute| a != MsgVpnAttribute::EventServiceRestIncomingConnectionCountThreshold ==> #[trigger] m.with_event_service_rest_incoming_connection_count_threshold(threshold).attribute(a) == m.attribute(a),
        m.with_event_service_smf_connection_count_threshold(threshold).attribute(MsgVpnAttribute::EventServiceSmfConnectionCountThreshold) == AttributeValue::Threshold(Some(threshold)),
        forall|a: MsgVpnAttribute| a != MsgVpnAttribute::EventServiceSmfConnectionCountThreshold ==> #[trigger] m.with_event_service_smf_connection_count_threshold(threshold).attribute(a) == m.attribute(a),
        m.with_event_service_web_connection_count_threshold(threshold).attribute(MsgVpnAttribute::EventServiceWebConnectionCountThreshold) == AttributeValue::Threshold(Some(threshold)),
        forall|a: MsgVpnAttribute| a != MsgVpnAttribute::EventServiceWebConnectionCountThreshold ==> #[trigger] m.with_event_service_web_connection_count_threshold(threshold).attribute(a) == m.attribute(a),
        m.with_event_subscription_count_threshold(threshold).attribute(MsgVpnAttribute::EventSubscriptionCountThreshold) == AttributeValue::Threshold(Some(threshold)),
        forall|a: MsgVpnAttribute| a != MsgVpnAttribute::EventSubscriptionCountThreshold ==> #[trigger] m.with_event_subscription_count_threshold(threshold).attribute(a) == m.attribute(a),
        m.with_event_transacted_session_count_threshold(threshold).attribute(MsgVpnAttribute::EventTransactedSessionCountThreshold) == AttributeValue::Threshold(Some(threshold)),
        forall|a: MsgVpnAttribute| a != MsgVpnAttribute::EventTransactedSessionCountThreshold ==> #[trigger] m.with_event_transacted_session_count_threshold(threshold).attribute(a) == m.attribute(a),
        m.with_event_transaction_count_threshold(threshold).attribute(MsgVpnAttribute::EventTransactionCountThreshold) == AttributeValue::Threshold(Some(threshold)),
        forall|a: MsgVpnAttribute| a != MsgVpnAttribute::EventTransactionCountThreshold ==> #[trigger] m.with_event_transaction_count_threshold(threshold).attribute(a) == m.attribute(a),
        m.with_export_subscriptions_enabled(flag).attribute(MsgVpnAttribute::ExportSubscriptionsEnabled) == AttributeValue::Flag(Some(flag)),
        forall|a: MsgVpnAttribute| a != MsgVpnAttribute::ExportSubscriptionsEnabled ==> #[trigger] m.with_export_subscriptions_enabled(flag).attribute(a) == m.attribute(a),
        m.with_jndi_enabled(flag).attribute(MsgVpnAttribute::JndiEnabled) == AttributeValue::Flag(Some(flag)),
        forall|a: MsgVpnAttribute| a != MsgVpnAttribute::JndiEnabled ==> #[trigger] m.with_jndi_enabled(flag).attribute(a) == m.attribute(a),
        m.with_max_connection_count(number).attribute(MsgVpnAttribute::MaxConnectionCount) == AttributeValue::Int64(Some(number)),
        forall|a: MsgVpnAttribute| a != MsgVpnAttribute::MaxConnectionCount ==> #[trigger] m.with_max_connection_count(number).attribute(a) == m.attribute(a),
        m.with_max_egress_flow_count(number).attribute(MsgVpnAttribute::MaxEgressFlowCount) == AttributeValue::Int64(Some(number)),
        forall|a: MsgVpnAttribute| a != MsgVpnAttribute::MaxEgressFlowCount ==> #[trigger] m.with_max_egress_flow_count(number).attribute(a) == m.attribute(a),
        m.with_max_endpoint_count(number).attribute(MsgVpnAttribute::MaxEndpointCount) == AttributeValue::Int64(Some(number)),
        forall|a: MsgVpnAttribute| a != MsgVpnAttribute::MaxEndpointCount ==> #[trigger] m.with_max_endpoint_count(number).attribute(a) == m.attribute(a),
        m.with_max_ingress_flow_count(number).attribute(MsgVpnAttribute::MaxIngressFlowCount) == AttributeValue::Int64(Some(number)),
        forall|a: MsgVpnAttribute| a != MsgVpnAttribute::MaxIngressFlowCount ==> #[trigger] m.with_max_ingress_flow_count(number).attribute(a) == m.attribute(a),
        m.with_max_msg_spool_usage(number).attribute(MsgVpnAttribute::MaxMsgSpoolUsage) == AttributeValue::Int64(Some(number)),
        forall|a: MsgVpnAttribute| a != MsgVpnAttribute::MaxMsgSpoolUsage ==> #[trigger] m.with_max_msg_spool_usage(number).attribute(a) == m.attribute(a),
        m.with_max_subscription_count(number).attribute(MsgVpnAttribute::MaxSubscriptionCount) == AttributeValue::Int64(Some(number)),
        forall|a: MsgVpnAttribute| a != MsgVpnAttribute::MaxSubscriptionCount ==> #[trigger] m.with_max_subscription_count(number).attribute(a) == m.attribute(a),
        m.with_max_transacted_session_count(number).attribute(MsgVpnAttribute::MaxTransactedSessionCount) == AttributeValue::Int64(Some(number)),
        forall|a: MsgVpnAttribute| a != MsgVpnAttribute::MaxTransactedSessionCount ==> #[trigger] m.with_max_transacted_session_count(number).attribute(a) == m.attribute(a),
        m.with_max_transaction_count(number).attribute(MsgVpnAttribute::MaxTransactionCount) == AttributeValue::Int64(Some(number)),
        forall|a: MsgVpnAttribute| a != MsgVpnAttribute::MaxTransactionCount ==> #[trigger] m.with_max_transaction_count(number).attribute(a) == m.attribute(a),
        m.with_msg_vpn_name(text).attribute(MsgVpnAttribute::MsgVpnName) == AttributeValue::Text(Some(text)),
        forall|a: MsgVpnAttribute| a != MsgVpnAttribute::MsgVpnName ==> #[trigger] m.with_msg_vpn_name(text).attribute(a) == m.attribute(a),
        m.with_replication_ack_propagation_interval_msg_count(number).attribute(MsgVpnAttribute::ReplicationAckPropagationIntervalMsgCount) == AttributeValue::Int64(Some(number)),
        forall|a: MsgVpnAttribute| a != MsgVpnAttribute::ReplicationAckPropagationIntervalMsgCount ==> #[trigger] m.with_replication_ack_propagation_interval_msg_count(number).attribute(a) == m.attribute(a),
        m.with_replication_bridge_authentication_basic_client_username(text).attribute(MsgVpnAttribute::ReplicationBridgeAuthenticationBasicClientUsername) == AttributeValue::Text(Some(text)),
        forall|a: MsgVpnAttribute| a != MsgVpnAttribute::ReplicationBridgeAuthenticationBasicClientUsername ==> #[trigger] m.with_replication_bridge_authentication_basic_client_username(text).attribute(a) == m.attribute(a),
        m.with_replication_bridge_authentication_basic_password(text).attribute(MsgVpnAttribute::ReplicationBridgeAuthenticationBasicPassword) == AttributeValue::Text(Some(text)),
        forall|a: MsgVpnAttribute| a != MsgVpnAttribute::ReplicationBridgeAuthenticationBasicPassword ==> #[trigger] m.with_replication_bridge_authentication_basic_password(text).attribute(a) == m.attribute(a),
        m.with_replication_bridge_authentication_client_cert_content(text).attribute(MsgVpnAttribute::ReplicationBridgeAuthenticationClientCertContent) == AttributeValue::Text(Some(text)),
        forall|a: MsgVpnAttribute| a != MsgVpnAttribute::ReplicationBridgeAuthenticationClientCertContent ==> #[trigger] m.with_replication_bridge_authentication_client_cert_content(text).attribute(a) == m.attribute(a),
        m.with_replication_bridge_authentication_client_cert_password(text).attribute(MsgVpnAttribute::ReplicationBridgeAuthenticationClientCertPassword) == AttributeValue::Text(Some(text)),
        forall|a: MsgVpnAttribute| a != MsgVpnAttribute::ReplicationBridgeAuthenticationClientCertPassword ==> #[trigger] m.with_replication_bridge_authentication_client_cert_password(text).attribute(a) == m.attribute(a),
        m.with_replication_bridge_authentication_scheme(text).attribute(MsgVpnAttribute::ReplicationBridgeAuthenticationScheme) == AttributeValue::Text(Some(text)),
        forall|a: MsgVpnAttribute| a != MsgVpnAttribute::ReplicationBridgeAuthenticationScheme ==> #[trigger] m.with_replication_bridge_authentication_scheme(text).attribute(a) == m.attribute(a),
        m.with_replication_bridge_compressed_data_enabled(flag).attribute(MsgVpnAttribute::ReplicationBridgeCompressedDataEnabled) == AttributeValue::Flag(Some(flag)),
        forall|a: MsgVpnAttribute| a != MsgVpnAttribute::ReplicationBridgeCompressedDataEnabled ==> #[trigger] m.with_replication_bridge_compressed_data_enabled(flag).attribute(a) == m.attribute(a),
        m.with_replication_bridge_egress_flow_window_size(number).attribute(MsgVpnAttribute::ReplicationBridgeEgressFlowWindowSize) == AttributeValue::Int64(Some(number)),
        forall|a: MsgVpnAttribute| a != MsgVpnAttribute::ReplicationBridgeEgressFlowWindowSize ==> #[trigger] m.with_replication_bridge_egress_flow_window_size(number).attribute(a) == m.attribute(a),
        m.with_replication_bridge_retry_delay(number).attribute(MsgVpnAttribute::ReplicationBridgeRetryDelay) == AttributeValue::Int64(Some(number)),
        forall|a: MsgVpnAttribute| a != MsgVpnAttribute::ReplicationBridgeRetryDelay ==> #[trigger] m.with_replication_bridge_retry_delay(number).attribute(a) == m.attribute(a),
        m.with_replication_bridge_tls_enabled(flag).attribute(MsgVpnAttribute::ReplicationBridgeTlsEnabled) == AttributeValue::Flag(Some(flag)),
        forall|a: MsgVpnAttribute| a != MsgVpnAttribute::ReplicationBridgeTlsEnabled ==> #[trigger] m.with_replication_bridge_tls_enabled(flag).attribute(a) == m.attribute(a),
        m.with_replication_bridge_unidirectional_client_profile_name(text).attribute(MsgVpnAttribute::ReplicationBridgeUnidirectionalClientProfileName) == AttributeValue::Text(Some(text)),
        forall|a: MsgVpnAttribute| a != MsgVpnAttribute::ReplicationBridgeUnidirectionalClientProfileName ==> #[trigger] m.with_replication_bridge_unidirectional_client_profile_name(text).attribute(a) == m.attribute(a),
        m.with_replication_enabled(flag).attribute(MsgVpnAttribute::ReplicationEnabled) == AttributeValue::Flag(Some(flag)),
        forall|a: MsgVpnAttribute| a != MsgVpnAttribute::ReplicationEnabled ==> #[trigger] m.with_replication_enabled(flag).attribute(a) == m.attribute(a),
        m.with_replication_enabled_queue_behavior(text).attribute(MsgVpnAttribute::ReplicationEnabledQueueBehavior) == AttributeValue::Text(Some(text)),
        forall|a: MsgVpnAttribute| a != MsgVpnAttribute::ReplicationEnabledQueueBehavior ==> #[trigger] m.with_replication_enabled_queue_behavior(text).attribute(a) == m.attribute(a),
        m.with_replication_queue_max_msg_spool_usage(number).attribute(MsgVpnAttribute::ReplicationQueueMaxMsgSpoolUsage) == AttributeValue::Int64(Some(number)),
        forall|a: MsgVpnAttribute| a != MsgVpnAttribute::ReplicationQueueMaxMsgSpoolUsage ==> #[trigger] m.with_replication_queue_max_msg_spool_usage(number).attribute(a) == m.attribute(a),
        m.with_replication_queue_reject_msg_to_sender_on_discard_enabled(flag).attribute(MsgVpnAttribute::ReplicationQueueRejectMsgToSenderOnDiscardEnabled) == AttributeValue::Flag(Some(flag)),
        forall|a: MsgVpnAttribute| a != MsgVpnAttribute::ReplicationQueueRejectMsgToSenderOnDiscardEnabled ==> #[trigger] m.with_replication_queue_reject_msg_to_sender_on_discard_enabled(flag).attribute(a) == m.attribute(a),
        m.with_replication_reject_msg_when_sync_ineligible_enabled(flag).attribute(MsgVpnAttribute::ReplicationRejectMsgWhenSyncIneligibleEnabled) == AttributeValue::Flag(Some(flag)),
        forall|a: MsgVpnAttribute| a != MsgVpnAttribute::ReplicationRejectMsgWhenSyncIneligibleEnabled ==> #[trigger] m.with_replication_reject_msg_when_sync_ineligible_enabled(flag).attribute(a) == m.attribute(a),
        m.with_replication_role(text).attribute(MsgVpnAttribute::ReplicationRole) == AttributeValue::Text(Some(text)),
        forall|a: MsgVpnAttribute| a != MsgVpnAttribute::ReplicationRole ==> #[trigger] m.with_replication_role(text).attribute(a) == m.attribute(a),
        m.with_replication_transaction_mode(text).attribute(MsgVpnAttribute::ReplicationTransactionMode) == AttributeValue::Text(Some(text)),
        forall|a: MsgVpnAttribute| a != MsgVpnAttribute::ReplicationTransactionMode ==> #[trigger] m.with_replication_transaction_mode(text).attribute(a) == m.attribute(a),
        m.with_rest_tls_server_cert_enforce_trusted_common_name_enabled(flag).attribute(MsgVpnAttribute::RestTlsServerCertEnforceTrustedCommonNameEnabled) == AttributeValue::Flag(Some(flag)),
        forall|a: MsgVpnAttribute| a != MsgVpnAttribute::RestTlsServerCertEnforceTrustedCommonNameEnabled ==> #[trigger] m.with_rest_tls_server_cert_enforce_trusted_common_name_enabled(flag).attribute(a) == m.attribute(a),
        m.with_rest_tls_server_cert_max_chain_depth(number).attribute(MsgVpnAttribute::RestTlsServerCertMaxChainDepth) == AttributeValue::Int64(Some(number)),
        forall|a: MsgVpnAttribute| a != MsgVpnAttribute::RestTlsServerCertMaxChainDepth ==> #[trigger] m.with_rest_tls_server_cert_max_chain_depth(number).attribute(a) == m.attribute(a),
        m.with_rest_tls_server_cert_validate_date_enabled(flag).attribute(MsgVpnAttribute::RestTlsServerCertValidateDateEnabled) == AttributeValue::Flag(Some(flag)),
        forall|a: MsgVpnAttribute| a != MsgVpnAttribute::RestTlsServerCertValidateDateEnabled ==> #[trigger] m.with_rest_tls_server_cert_validate_date_enabled(flag).attribute(a) == m.attribute(a),
        m.with_semp_over_msg_bus_admin_client_enabled(flag).attribute(MsgVpnAttribute::SempOverMsgBusAdminClientEnabled) == AttributeValue::Flag(Some(flag)),
        forall|a: MsgVpnAttribute| a != MsgVpnAttribute::SempOverMsgBusAdminClientEnabled ==> #[trigger] m.with_semp_over_msg_bus_admin_client_enabled(flag).attribute(a) == m.attribute(a),
        m.with_semp_over_msg_bus_admin_distributed_cache_enabled(flag).attribute(MsgVpnAttribute::SempOverMsgBusAdminDistributedCacheEnabled) == AttributeValue::Flag(Some(flag)),
        forall|a: MsgVpnAttribute| a != MsgVpnAttribute::SempOverMsgBusAdminDistributedCacheEnabled ==> #[trigger] m.with_semp_over_msg_bus_admin_distributed_cache_enabled(flag).attribute(a) == m.attribute(a),
        m.with_semp_over_msg_bus_admin_enabled(flag).attribute(MsgVpnAttribute::SempOverMsgBusAdminEnabled) == AttributeValue::Flag(Some(flag)),
        forall|a: MsgVpnAttribute| a != MsgVpnAttribute::SempOverMsgBusAdminEnabled ==> #[trigger] m.with_semp_over_msg_bus_admin_enabled(flag).attribute(a) == m.attribute(a),
        m.with_semp_over_msg_bus_enabled(flag).attribute(MsgVpnAttribute::SempOverMsgBusEnabled) == AttributeValue::Flag(Some(flag)),
        forall|a: MsgVpnAttribute| a != MsgVpnAttribute::SempOverMsgBusEnabled ==> #[trigger] m.with_semp_over_msg_bus_enabled(flag).attribute(a) == m.attribute(a),
        m.with_semp_over_msg_bus_show_enabled(flag).attribute(MsgVpnAttribute::SempOverMsgBusShowEnabled) == AttributeValue::Flag(Some(flag)),
        forall|a: MsgVpnAttribute| a != MsgVpnAttribute::SempOverMsgBusShowEnabled ==> #[trigger] m.with_semp_over_msg_bus_show_enabled(flag).attribute(a) == m.attribute(a),
        m.with_service_amqp_max_connection_count(number).attribute(MsgVpnAttribute::ServiceAmqpMaxConnectionCount) == AttributeValue::Int64(Some(number)),
        forall|a: MsgVpnAttribute| a != MsgVpnAttribute::ServiceAmqpMaxConnectionCount ==> #[trigger] m.with_service_amqp_max_connection_count(number).attribute(a) == m.attribute(a),
        m.with_service_amqp_plain_text_enabled(flag).attribute(MsgVpnAttribute::ServiceAmqpPlainTextEnabled) == AttributeValue::Flag(Some(flag)),
        forall|a: MsgVpnAttribute| a != MsgVpnAttribute::ServiceAmqpPlainTextEnabled ==> #[trigger] m.with_service_amqp_plain_text_enabled(flag).attribute(a) == m.attribute(a),
        m.with_service_amqp_plain_text_listen_port(number).attribute(MsgVpnAttribute::ServiceAmqpPlainTextListenPort) == AttributeValue::Int64(Some(number)),
        forall|a: MsgVpnAttribute| a != MsgVpnAttribute::ServiceAmqpPlainTextListenPort ==> #[trigger] m.with_service_amqp_plain_text_listen_port(number).attribute(a) == m.attribute(a),
        m.with_service_amqp_tls_enabled(flag).attribute(MsgVpnAttribute::ServiceAmqpTlsEnabled) == AttributeValue::Flag(Some(flag)),
        forall|a: MsgVpnAttribute| a != MsgVpnAttribute::ServiceAmqpTlsEnabled ==> #[trigger] m.with_service_amqp_tls_enabled(flag).attribute(a) == m.attribute(a),
        m.with_service_amqp_tls_listen_port(number).attribute(MsgVpnAttribute::ServiceAmqpTlsListenPort) == AttributeValue::Int64(Some(number)),
        forall|a: MsgVpnAttribute| a != MsgVpnAttribute::ServiceAmqpTlsListenPort ==> #[trigger] m.with_service_amqp_tls_listen_port(number).attribute(a) == m.attribute(a),
        m.with_service_mqtt_max_connection_count(number).attribute(MsgVpnAttribute::ServiceMqttMaxConnectionCount) == AttributeValue::Int64(Some(number)),
        forall|a: MsgVpnAttribute| a != MsgVpnAttribute::ServiceMqttMaxConnectionCount ==> #[trigger] m.with_service_mqtt_max_connection_count(number).attribute(a) == m.attribute(a),
        m.with_service_mqtt_plain_text_enabled(flag).attribute(MsgVpnAttribute::ServiceMqttPlainTextEnabled) == AttributeValue::Flag(Some(flag)),
        forall|a: MsgVpnAttribute| a != MsgVpnAttribute::ServiceMqttPlainTextEnabled ==> #[trigger] m.with_service_mqtt_plain_text_enabled(flag).attribute(a) == m.attribute(a),
        m.with_service_mqtt_plain_text_listen_port(number).attribute(MsgVpnAttribute::ServiceMqttPlainTextListenPort) == AttributeValue::Int64(Some(number)),
        forall|a: MsgVpnAttribute| a != MsgVpnAttribute::ServiceMqttPlainTextListenPort ==> #[trigger] m.with_service_mqtt_plain_text_listen_port(number).attribute(a) == m.attribute(a),
        m.with_service_mqtt_tls_enabled(flag).attribute(MsgVpnAttribute::ServiceMqttTlsEnabled) == AttributeValue::Flag(Some(flag)),
        forall|a: MsgVpnAttribute| a != MsgVpnAttribute::ServiceMqttTlsEnabled ==> #[trigger] m.with_service_mqtt_tls_enabled(flag).attribute(a) == m.attribute(a),
        m.with_service_mqtt_tls_listen_port(number).attribute(MsgVpnAttribute::ServiceMqttTlsListenPort) == AttributeValue::Int64(Some(number)),
        forall|a: MsgVpnAttribute| a != MsgVpnAttribute::ServiceMqttTlsListenPort ==> #[trigger] m.with_service_mqtt_tls_listen_port(number).attribute(a) == m.attribute(a),
        m.with_service_mqtt_tls_web_socket_enabled(flag).attribute(MsgVpnAttribute::ServiceMqttTlsWebSocketEnabled) == AttributeValue::Flag(Some(flag)),
        forall|a: MsgVpnAttribute| a != MsgVpnAttribute::ServiceMqttTlsWebSocketEnabled ==> #[trigger] m.with_service_mqtt_tls_web_socket_enabled(flag).attribute(a) == m.attribute(a),
        m.with_service_mqtt_tls_web_socket_listen_port(number).attribute(MsgVpnAttribute::ServiceMqttTlsWebSocketListenPort) == AttributeValue::Int64(Some(number)),
        forall|a: MsgVpnAttribute| a != MsgVpnAttribute::ServiceMqttTlsWebSocketListenPort ==> #[trigger] m.with_service_mqtt_tls_web_socket_listen_port(number).attribute(a) == m.attribute(a),
        m.with_service_mqtt_web_socket_enabled(flag).attribute(MsgVpnAttribute::ServiceMqttWebSocketEnabled) == AttributeValue::Flag(Some(flag)),
        forall|a: MsgVpnAttribute| a != MsgVpnAttribute::ServiceMqttWebSocketEnabled ==> #[trigger] m.with_service_mqtt_web_socket_enabled(flag).attribute(a) == m.attribute(a),
        m.with_service_mqtt_web_socket_listen_port(number).attribute(MsgVpnAttribute::ServiceMqttWebSocketListenPort) == AttributeValue::Int64(Some(number)),
        forall|a: MsgVpnAttribute| a != MsgVpnAttribute::ServiceMqttWebSocketListenPort ==> #[trigger] m.with_service_mqtt_web_socket_listen_port(number).attribute(a) == m.attribute(a),
        m.with_service_rest_incoming_max_connection_count(number).attribute(MsgVpnAttribute::ServiceRestIncomingMaxConnectionCount) == AttributeValue::Int64(Some(number)),
        forall|a: MsgVpnAttribute| a != MsgVpnAttribute::ServiceRestIncomingMaxConnectionCount ==> #[trigger] m.with_service_rest_incoming_max_connection_count(number).attribute(a) == m.attribute(a),
        m.with_service_rest_incoming_plain_text_enabled(flag).attribute(MsgVpnAttribute::ServiceRestIncomingPlainTextEnabled) == AttributeValue::Flag(Some(flag)),
        forall|a: MsgVpnAttribute| a != MsgVpnAttribute::ServiceRestIncomingPlainTextEnabled ==> #[trigger] m.with_service_rest_incoming_plain_text_enabled(flag).attribute(a) == m.attribute(a),
        m.with_service_rest_incoming_plain_text_listen_port(number).attribute(MsgVpnAttribute::ServiceRestIncomingPlainTextListenPort) == AttributeValue::Int64(Some(number)),
        forall|a: MsgVpnAttribute| a != MsgVpnAttribute::ServiceRestIncomingPlainTextListenPort ==> #[trigger] m.with_service_rest_incoming_plain_text_listen_port(number).attribute(a) == m.attribute(a),
        m.with_service_rest_incoming_tls_enabled(flag).attribute(MsgVpnAttribute::ServiceRestIncomingTlsEnabled) == AttributeValue::Flag(Some(flag)),
        forall|a: MsgVpnAttribute| a != MsgVpnAttribute::ServiceRestIncomingTlsEnabled ==> #[trigger] m.with_service_rest_incoming_tls_enabled(flag).attribute(a) == m.attribute(a),
        m.with_service_rest_incoming_tls_listen_port(number).attribute(MsgVpnAttribute::ServiceRestIncomingTlsListenPort) == AttributeValue::Int64(Some(number)),
        forall|a: MsgVpnAttribute| a != MsgVpnAttribute::ServiceRestIncomingTlsListenPort ==> #[trigger] m.with_service_rest_incoming_tls_listen_port(number).attribute(a) == m.attribute(a),
        m.with_service_rest_mode(text).attribute(MsgVpnAttribute::ServiceRestMode) == AttributeValue::Text(Some(text)),
        forall|a: MsgVpnAttribute| a != MsgVpnAttribute::ServiceRestMode ==> #[trigger] m.with_service_rest_mode(text).attribute(a) == m.attribute(a),
        m.with_service_rest_outgoing_max_connection_count(number).attribute(MsgVpnAttribute::ServiceRestOutgoingMaxConnectionCount) == AttributeValue::Int64(Some(number)),
        forall|a: MsgVpnAttribute| a != MsgVpnAttribute::ServiceRestOutgoingMaxConnectionCount ==> #[trigger] m.with_service_rest_outgoing_max_connection_count(number).attribute(a) == m.attribute(a),
        m.with_service_smf_max_connection_count(number).attribute(MsgVpnAttribute::ServiceSmfMaxConnectionCount) == AttributeValue::Int64(Some(number)),
        forall|a: MsgVpnAttribute| a != MsgVpnAttribute::ServiceSmfMaxConnectionCount ==> #[trigger] m.with_service_smf_max_connection_count(number).attribute(a) == m.attribute(a),
        m.with_service_smf_plain_text_enabled(flag).attribute(MsgVpnAttribute::ServiceSmfPlainTextEnabled) == AttributeValue::Flag(Some(flag)),
        forall|a: MsgVpnAttribute| a != MsgVpnAttribute::ServiceSmfPlainTextEnabled ==> #[trigger] m.with_service_smf_plain_text_enabled(flag).attribute(a) == m.attribute(a),
        m.with_service_smf_tls_enabled(flag).attribute(MsgVpnAttribute::ServiceSmfTlsEnabled) == AttributeValue::Flag(Some(flag)),
        forall|a: MsgVpnAttribute| a != MsgVpnAttribute::ServiceSmfTlsEnabled ==> #[trigger] m.with_service_smf_tls_enabled(flag).attribute(a) == m.attribute(a),
        m.with_service_web_max_connection_count(number).attribute(MsgVpnAttribute::ServiceWebMaxConnectionCount) == AttributeValue::Int64(Some(number)),
        forall|a: MsgVpnAttribute| a != MsgVpnAttribute::ServiceWebMaxConnectionCount ==> #[trigger] m.with_service_web_max_connection_count(number).attribute(a) == m.attribute(a),
        m.with_service_web_plain_text_enabled(flag).attribute(MsgVpnAttribute::ServiceWebPlainTextEnabled) == AttributeValue::Flag(Some(flag)),
        forall|a: MsgVpnAttribute| a != MsgVpnAttribute::ServiceWebPlainTextEnabled ==> #[trigger] m.with_service_web_plain_text_enabled(flag).attribute(a) == m.attribute(a),
        m.with_service_web_tls_enabled(flag).attribute(MsgVpnAttribute::ServiceWebTlsEnabled) == AttributeValue::Flag(Some(flag)),
        forall|a: MsgVpnAttribute| a != MsgVpnAttribute::ServiceWebTlsEnabled ==> #[trigger] m.with_service_web_tls_enabled(flag).attribute(a) == m.attribute(a),
        m.with_tls_allow_downgrade_to_plain_text_enabled(flag).attribute(MsgVpnAttribute::TlsAllowDowngradeToPlainTextEnabled) == AttributeValue::Flag(Some(flag)),
        forall|a: MsgVpnAttribute| a != MsgVpnAttribute::TlsAllowDowngradeToPlainTextEnabled ==> #[trigger] m.with_tls_allow_downgrade_to_plain_text_enabled(flag).attribute(a) == m.attribute(a),
{
}

/// Removing an attribute makes it absent and leaves every other attribute exactly as it was.
#[verifier::rlimit(100)]
pub proof fn lemma_msg_vpn_reset_changes_only_its_attribute(m: MsgVpnView)
    ensures
        m.without_authentication_basic_enabled().attribute(MsgVpnAttribute::AuthenticationBasicEnabled) == AttributeValue::Flag(None),
        forall|a: MsgVpnAttribute| a != MsgVpnAttribute::AuthenticationBasicEnabled ==> #[trigger] m.without_authentication_basic_enabled().attribute(a) == m.attribute(a),
        m.without_authentication_basic_profile_name().attribute(MsgVpnAttribute::AuthenticationBasicProfileName) == AttributeValue::Text(None),
        forall|a: MsgVpnAttribute| a != MsgVpnAttribute::AuthenticationBasicProfileName ==> #[trigger] m.without_authentication_basic_profile_name().attribute(a) == m.attribute(a),
        m.without_authentication_basic_radius_domain().attribute(MsgVpnAttribute::AuthenticationBasicRadiusDomain) == AttributeValue::Text(None),
        forall|a: MsgVpnAttribute| a != MsgVpnAttribute::AuthenticationBasicRadiusDomain ==> #[trigger] m.without_authentication_basic_radius_domain().attribute(a) == m.attribute(a),
        m.without_authentication_basic_type().attribute(MsgVpnAttribute::AuthenticationBasicType) == AttributeValue::Text(None),
        forall|a: MsgVpnAttribute| a != MsgVpnAttribute::AuthenticationBasicType ==> #[trigger] m.without_authentication_basic_type().attribute(a) == m.attribute(a),
        m.without_authentication_client_cert_allow_api_provided_username_enabled().attribute(MsgVpnAttribute::AuthenticationClientCertAllowApiProvidedUsernameEnabled) == AttributeValue::Flag(None),
        forall|a: MsgVpnAttribute| a != MsgVpnAttribute::AuthenticationClientCertAllowApiProvidedUsernameEnabled ==> #[trigger] m.without_authentication_client_cert_allow_api_provided_username_enabled().attribute(a) == m.attribute(a),
        m.without_authentication_client_cert_enabled().attribute(MsgVpnAttribute::AuthenticationClientCertEnabled) == AttributeValue::Flag(None),
        forall|a: MsgVpnAttribute| a != MsgVpnAttribute::AuthenticationClientCertEnabled ==> #[trigger] m.without_authentication_client_cert_enabled().attribute(a) == m.attribute(a),
        m.without_authentication_client_cert_max_chain_depth().attribute(MsgVpnAttribute::AuthenticationClientCertMaxChainDepth) == AttributeValue::Int64(None),
        forall|a: MsgVpnAttribute| a != MsgVpnAttribute::AuthenticationClientCertMaxChainDepth ==> #[trigger] m.without_authentication_client_cert_max_chain_depth().attribute(a) == m.attribute(a),
        m.without_authentication_client_cert_revocation_check_mode().attribute(MsgVpnAttribute::AuthenticationClientCertRevocationCheckMode) == AttributeValue::Text(None),
        forall|a: MsgVpnAttribute| a != MsgVpnAttribute::AuthenticationClientCertRevocationCheckMode ==> #[trigger] m.without_authentication_client_cert_revocation_check_mode().attribute(a) == m.attribute(a),
        m.without_authentication_client_cert_username_source().attribute(MsgVpnAttribute::AuthenticationClientCertUsernameSource) == AttributeValue::Text(None),
        forall|a: MsgVpnAttribute| a != MsgVpnAttribute::AuthenticationClientCertUsernameSource ==> #[trigger] m.without_authentication_client_cert_username_source().attribute(a) == m.attribute(a),
        m.without_authentication_client_cert_validate_date_enabled().attribute(MsgVpnAttribute::AuthenticationClientCertValidateDateEnabled) == AttributeValue::Flag(None),
        forall|a: MsgVpnAttribute| a != MsgVpnAttribute::AuthenticationClientCertValidateDateEnabled ==> #[trigger] m.without_authentication_client_cert_validate_date_enabled().attribute(a) == m.attribute(a),
        m.without_authentication_kerberos_allow_api_provided_username_enabled().attribute(MsgVpnAttribute::AuthenticationKerberosAllowApiProvidedUsernameEnabled) == AttributeValue::Flag(None),
        forall|a: MsgVpnAttribute| a != MsgVpnAttribute::AuthenticationKerberosAllowApiProvidedUsernameEnabled ==> #[trigger] m.without_authentication_kerberos_allow_api_provided_username_enabled().attribute(a) == m.attribute(a),
        m.without_authentication_kerberos_enabled().attribute(MsgVpnAttribute::AuthenticationKerberosEnabled) == AttributeValue::Flag(None),
        forall|a: MsgVpnAttribute| a != MsgVpnAttribute::AuthenticationKerberosEnabled ==> #[trigger] m.without_authentication_kerberos_enabled().attribute(a) == m.attribute(a),
        m.without_authorization_ldap_group_membership_attribute_name().attribute(MsgVpnAttribute::AuthorizationLdapGroupMembershipAttributeName) == AttributeValue::Text(None),
        forall|a: MsgVpnAttribute| a != MsgVpnAttribute::AuthorizationLdapGroupMembershipAttributeName ==> #[trigger] m.without_authorization_ldap_group_membership_attribute_name().attribute(a) == m.attribute(a),
        m.without_authorization_profile_name().attribute(MsgVpnAttribute::AuthorizationProfileName) == AttributeValue::Text(None),
        forall|a: MsgVpnAttribute| a != MsgVpnAttribute::AuthorizationProfileName ==> #[trigger] m.without_authorization_profile_name().attribute(a) == m.attribute(a),
        m.without_authorization_type().attribute(MsgVpnAttribute::AuthorizationType) == AttributeValue::Text(None),
        forall|a: MsgVpnAttribute| a != MsgVpnAttribute::AuthorizationType ==> #[trigger] m.without_authorization_type().attribute(a) == m.attribute(a),
        m.without_bridging_tls_server_cert_enforce_trusted_common_name_enabled().attribute(MsgVpnAttribute::BridgingTlsServerCertEnforceTrustedCommonNameEnabled) == AttributeValue::Flag(None),
        forall|a: MsgVpnAttribute| a != MsgVpnAttribute::BridgingTlsServerCertEnforceTrustedCommonNameEnabled ==> #[trigger] m.without_bridging_tls_server_cert_enforce_trusted_common_name_enabled().attribute(a) == m.attribute(a),
        m.without_bridging_tls_server_cert_max_chain_depth().attribute(MsgVpnAttribute::BridgingTlsServerCertMaxChainDepth) == AttributeValue::Int64(None),
        forall|a: MsgVpnAttribute| a != MsgVpnAttribute::BridgingTlsServerCertMaxChainDepth ==> #[trigger] m.without_bridging_tls_server_cert_max_chain_depth().attribute(a) == m.attribute(a),
        m.without_bridging_tls_server_cert_validate_date_enabled().attribute(MsgVpnAttribute::BridgingTlsServerCertValidateDateEnabled) == AttributeValue::Flag(None),
        forall|a: MsgVpnAttribute| a != MsgVpnAttribute::BridgingTlsServerCertValidateDateEnabled ==> #[trigger] m.without_bridging_tls_server_cert_validate_date_enabled().attribute(a) == m.attribute(a),
        m.without_distributed_cache_management_enabled().attribute(MsgVpnAttribute::DistributedCacheManagementEnabled) == AttributeValue::Flag(None),
        forall|a: MsgVpnAttribute| a != MsgVpnAttribute::DistributedCacheManagementEnabled ==> #[trigger] m.without_distributed_cache_management_enabled().attribute(a) == m.attribute(a),
        m.without_enabled().attribute(MsgVpnAttribute::Enabled) == AttributeValue::Flag(None),
        forall|a: MsgVpnAttribute| a != MsgVpnAttribute::Enabled ==> #[trigger] m.without_enabled().attribute(a) == m.attribute(a),
        m.without_event_connection_count_threshold().attribute(MsgVpnAttribute::EventConnectionCountThreshold) == AttributeValue::Threshold(None),
        forall|a: MsgVpnAttribute| a != MsgVpnAttribute::EventConnectionCountThreshold ==> #[trigger] m.without_event_connection_count_threshold().attribute(a) == m.attribute(a),
        m.without_event_egress_flow_count_threshold().attribute(MsgVpnAttribute::EventEgressFlowCountThreshold) == AttributeValue::Threshold(None),
        forall|a: MsgVpnAttribute| a != MsgVpnAttribute::EventEgressFlowCountThreshold ==> #[trigger] m.without_event_egress_flow_count_threshold().attribute(a) == m.attribute(a),
        m.without_event_egress_msg_rate_threshold().attribute(MsgVpnAttribute::EventEgressMsgRateThreshold) == AttributeValue::ThresholdByValue(None),
        forall|a: MsgVpnAttribute| a != MsgVpnAttribute::EventEgressMsgRateThreshold ==> #[trigger] m.without_event_egress_msg_rate_threshold().attribute(a) == m.attribute(a),
        m.without_event_endpoint_count_threshold().attribute(MsgVpnAttribute::EventEndpointCountThreshold) == AttributeValue::Threshold(None),
        forall|a: MsgVpnAttribute| a != MsgVpnAttribute::EventEndpointCountThreshold ==> #[trigger] m.without_event_endpoint_count_threshold().attribute(a) == m.attribute(a),
        m.without_event_ingress_flow_count_threshold().attribute(MsgVpnAttribute::EventIngressFlowCountThreshold) == AttributeValue::Threshold(None),
        forall|a: MsgVpnAttribute| a != MsgVpnAttribute::EventIngressFlowCountThreshold ==> #[trigger] m.without_event_ingress_flow_count_threshold().attribute(a) == m.attribute(a),
        m.without_event_ingress_msg_rate_threshold().attribute(MsgVpnAttribute::EventIngressMsgRateThreshold) == AttributeValue::ThresholdByValue(None),
        forall|a: MsgVpnAttribute| a != MsgVpnAttribute::EventIngressMsgRateThreshold ==> #[trigger] m.without_event_ingress_msg_rate_threshold().attribute(a) == m.attribute(a),
        m.without_event_large_msg_threshold().attribute(MsgVpnAttribute::EventLargeMsgThreshold) == AttributeValue::Int64(None),
        forall|a: MsgVpnAttribute| a != MsgVpnAttribute::EventLargeMsgThreshold ==> #[trigger] m.without_event_large_msg_threshold().attribute(a) == m.attribute(a),
        m.without_event_log_tag().attribute(MsgVpnAttribute::EventLogTag) == AttributeValue::Text(None),
        forall|a: MsgVpnAttribute| a != MsgVpnAttribute::EventLogTag ==> #[trigger] m.without_event_log_tag().attribute(a) == m.attribute(a),
        m.without_event_msg_spool_usage_threshold().attribute(MsgVpnAttribute::EventMsgSpoolUsageThreshold) == AttributeValue::Threshold(None),
        forall|a: MsgVpnAttribute| a != MsgVpnAttribute::EventMsgSpoolUsageThreshold ==> #[trigger] m.without_event_msg_spool_usage_threshold().attribute(a) == m.attribute(a),
        m.without_event_publish_client_enabled().attribute(MsgVpnAttribute::EventPublishClientEnabled) == AttributeValue::Flag(None),
        forall|a: MsgVpnAttribute| a != MsgVpnAttribute::EventPublishClientEnabled ==> #[trigger] m.without_event_publish_client_enabled().attribute(a) == m.attribute(a),
        m.without_event_publish_msg_vpn_enabled().attribute(MsgVpnAttribute::EventPublishMsgVpnEnabled) == AttributeValue::Flag(None),
        forall|a: MsgVpnAttribute| a != MsgVpnAttribute::EventPublishMsgVpnEnabled ==> #[trigger] m.without_event_publish_msg_vpn_enabled().attribute(a) == m.attribute(a),
        m.without_event_publish_subscription_mode().attribute(MsgVpnAttribute::EventPublishSubscriptionMode) == AttributeValue::Text(None),
        forall|a: MsgVpnAttribute| a != MsgVpnAttribute::EventPublishSubscriptionMode ==> #[trigger] m.without_event_publish_subscription_mode().attribute(a) == m.attribute(a),
        m.without_event_publish_topic_format_mqtt_enabled().attribute(MsgVpnAttribute::EventPublishTopicFormatMqttEnabled) == AttributeValue::Flag(None),
        forall|a: MsgVpnAttribute| a != MsgVpnAttribute::EventPublishTopicFormatMqttEnabled ==> #[trigger] m.without_event_publish_topic_format_mqtt_enabled().attribute(a) == m.attribute(a),
        m.without_event_publish_topic_format_smf_enabled().attribute(MsgVpnAttribute::EventPublishTopicFormatSmfEnabled) == AttributeValue::Flag(None),
        forall|a: MsgVpnAttribute| a != MsgVpnAttribute::EventPublishTopicFormatSmfEnabled ==> #[trigger] m.without_event_publish_topic_format_smf_enabled().attribute(a) == m.attribute(a),
        m.without_event_service_amqp_connection_count_threshold().attribute(MsgVpnAttribute::EventServiceAmqpConnectionCountThreshold) == AttributeValue::Threshold(None),
        forall|a: MsgVpnAttribute| a != MsgVpnAttribute::EventServiceAmqpConnectionCountThreshold ==> #[trigger] m.without_event_service_amqp_connection_count_threshold().attribute(a) == m.attribute(a),
        m.without_event_service_mqtt_connection_count_threshold().attribute(MsgVpnAttribute::EventServiceMqttConnectionCountThreshold) == AttributeValue::Threshold(None),
        forall|a: MsgVpnAttribute| a != MsgVpnAttribute::EventServiceMqttConnectionCountThreshold ==> #[trigger] m.without_event_service_mqtt_connection_count_threshold().attribute(a) == m.attribute(a),
        m.without_event_service_rest_incoming_connection_count_threshold().attribute(MsgVpnAttribute::EventServiceRestIncomingConnectionCountThreshold) == AttributeValue::Threshold(None),
        forall|a: MsgVpnAttribute| a != MsgVpnAttribute::EventServiceRestIncomingConnectionCountThreshold ==> #[trigger] m.without_event_service_rest_incoming_connection_count_threshold().attribute(a) == m.attribute(a),
        m.without_event_service_smf_connection_count_threshold().attribute(MsgVpnAttribute::EventServiceSmfConnectionCountThreshold) == AttributeValue::Threshold(None),
        forall|a: MsgVpnAttribute| a != MsgVpnAttribute::EventServiceSmfConnectionCountThreshold ==> #[trigger] m.without_event_service_smf_connection_count_threshold().attribute(a) == m.attribute(a),
        m.without_event_service_web_connection_count_threshold().attribute(MsgVpnAttribute::EventServiceWebConnectionCountThreshold) == AttributeValue::Threshold(None),
        forall|a: MsgVpnAttribute| a != MsgVpnAttribute::EventServiceWebConnectionCountThreshold ==> #[trigger] m.without_event_service_web_connection_count_threshold().attribute(a) == m.attribute(a),
        m.without_event_subscription_count_threshold().attribute(MsgVpnAttribute::EventSubscriptionCountThreshold) == AttributeValue::Threshold(None),
        forall|a: MsgVpnAttribute| a != MsgVpnAttribute::EventSubscriptionCountThreshold ==> #[trigger] m.without_event_subscription_count_threshold().attribute(a) == m.attribute(a),
        m.without_event_transacted_session_count_threshold().attribute(MsgVpnAttribute::EventTransactedSessionCountThreshold) == AttributeValue::Threshold(None),
        forall|a: MsgVpnAttribute| a != MsgVpnAttribute::EventTransactedSessionCountThreshold ==> #[trigger] m.without_event_transacted_session_count_threshold().attribute(a) == m.attribute(a),
        m.without_event_transaction_count_threshold().attribute(MsgVpnAttribute::EventTransactionCountThreshold) == AttributeValue::Threshold(None),
        forall|a: MsgVpnAttribute| a != MsgVpnAttribute::EventTransactionCountThreshold ==> #[trigger] m.without_event_transaction_count_threshold().attribute(a) == m.attribute(a),
        m.without_export_subscriptions_enabled().attribute(MsgVpnAttribute::ExportSubscriptionsEnabled) == AttributeValue::Flag(None),
        forall|a: MsgVpnAttribute| a != MsgVpnAttribute::ExportSubscriptionsEnabled ==> #[trigger] m.without_export_subscriptions_enabled().attribute(a) == m.attribute(a),
        m.without_jndi_enabled().attribute(MsgVpnAttribute::JndiEnabled) == AttributeValue::Flag(None),
        forall|a: MsgVpnAttribute| a != MsgVpnAttribute::JndiEnabled ==> #[trigger] m.without_jndi_enabled().attribute(a) == m.attribute(a),
        m.without_max_connection_count().attribute(MsgVpnAttribute::MaxConnectionCount) == AttributeValue::Int64(None),
        forall|a: MsgVpnAttribute| a != MsgVpnAttribute::MaxConnectionCount ==> #[trigger] m.without_max_connection_count().attribute(a) == m.attribute(a),
        m.without_max_egress_flow_count().attribute(MsgVpnAttribute::MaxEgressFlowCount) == AttributeValue::Int64(None),
        forall|a: MsgVpnAttribute| a != MsgVpnAttribute::MaxEgressFlowCount ==> #[trigger] m.without_max_egress_flow_count().attribute(a) == m.attribute(a),
        m.without_max_endpoint_count().attribute(MsgVpnAttribute::MaxEndpointCount) == AttributeValue::Int64(None),
        forall|a: MsgVpnAttribute| a != MsgVpnAttribute::MaxEndpointCount ==> #[trigger] m.without_max_endpoint_count().attribute(a) == m.attribute(a),
        m.without_max_ingress_flow_count().attribute(MsgVpnAttribute::MaxIngressFlowCount) == AttributeValue::Int64(None),
        forall|a: MsgVpnAttribute| a != MsgVpnAttribute::MaxIngressFlowCount ==> #[trigger] m.without_max_ingress_flow_count().attribute(a) == m.attribute(a),
        m.without_max_msg_spool_usage().attribute(MsgVpnAttribute::MaxMsgSpoolUsage) == AttributeValue::Int64(None),
        forall|a: MsgVpnAttribute| a != MsgVpnAttribute::MaxMsgSpoolUsage ==> #[trigger] m.without_max_msg_spool_usage().attribute(a) == m.attribute(a),
        m.without_max_subscription_count().attribute(MsgVpnAttribute::MaxSubscriptionCount) == AttributeValue::Int64(None),
        forall|a: MsgVpnAttribute| a != MsgVpnAttribute::MaxSubscriptionCount ==> #[trigger] m.without_max_subscription_count().attribute(a) == m.attribute(a),
        m.without_max_transacted_session_count().attribute(MsgVpnAttribute::MaxTransactedSessionCount) == AttributeValue::Int64(None),
        forall|a: MsgVpnAttribute| a != MsgVpnAttribute::MaxTransactedSessionCount ==> #[trigger] m.without_max_transacted_session_count().attribute(a) == m.attribute(a),
        m.without_max_transaction_count().attribute(MsgVpnAttribute::MaxTransactionCount) == AttributeValue::Int64(None),
        forall|a: MsgVpnAttribute| a != MsgVpnAttribute::MaxTransactionCount ==> #[trigger] m.without_max_transaction_count().attribute(a) == m.attribute(a),
        m.without_msg_vpn_name().attribute(MsgVpnAttribute::MsgVpnName) == AttributeValue::Text(None),
        forall|a: MsgVpnAttribute| a != MsgVpnAttribute::MsgVpnName ==> #[trigger] m.without_msg_vpn_name().attribute(a) == m.attribute(a),
        m.without_replication_ack_propagation_interval_msg_count().attribute(MsgVpnAttribute::ReplicationAckPropagationIntervalMsgCount) == AttributeValue::Int64(None),
        forall|a: MsgVpnAttribute| a != MsgVpnAttribute::ReplicationAckPropagationIntervalMsgCount ==> #[trigger] m.without_replication_ack_propagation_interval_msg_count().attribute(a) == m.attribute(a),
        m.without_replication_bridge_authentication_basic_client_username().attribute(MsgVpnAttribute::ReplicationBridgeAuthenticationBasicClientUsername) == AttributeValue::Text(None),
        forall|a: MsgVpnAttribute| a != MsgVpnAttribute::ReplicationBridgeAuthenticationBasicClientUsername ==> #[trigger] m.without_replication_bridge_authentication_basic_client_username().attribute(a) == m.attribute(a),
        m.without_replication_bridge_authentication_basic_password().attribute(MsgVpnAttribute::ReplicationBridgeAuthenticationBasicPassword) == AttributeValue::Text(None),
        forall|a: MsgVpnAttribute| a != MsgVpnAttribute::ReplicationBridgeAuthenticationBasicPassword ==> #[trigger] m.without_replication_bridge_authentication_basic_password().attribute(a) == m.attribute(a),
        m.without_replication_bridge_authentication_client_cert_content().attribute(MsgVpnAttribute::ReplicationBridgeAuthenticationClientCertContent) == AttributeValue::Text(None),
        forall|a: MsgVpnAttribute| a != MsgVpnAttribute::ReplicationBridgeAuthenticationClientCertContent ==> #[trigger] m.without_replication_bridge_authentication_client_cert_content().attribute(a) == m.attribute(a),
        m.without_replication_bridge_authentication_client_cert_password().attribute(MsgVpnAttribute::ReplicationBridgeAuthenticationClientCertPassword) == AttributeValue::Text(None),
        forall|a: MsgVpnAttribute| a != MsgVpnAttribute::ReplicationBridgeAuthenticationClientCertPassword ==> #[trigger] m.without_replication_bridge_authentication_client_cert_password().attribute(a) == m.attribute(a),
        m.without_replication_bridge_authentication_scheme().attribute(MsgVpnAttribute::ReplicationBridgeAuthenticationScheme) == AttributeValue::Text(None),
        forall|a: MsgVpnAttribute| a != MsgVpnAttribute::ReplicationBridgeAuthenticationScheme ==> #[trigger] m.without_replication_bridge_authentication_scheme().attribute(a) == m.attribute(a),
        m.without_replication_bridge_compressed_data_enabled().attribute(MsgVpnAttribute::ReplicationBridgeCompressedDataEnabled) == AttributeValue::Flag(None),
        forall|a: MsgVpnAttribute| a != MsgVpnAttribute::ReplicationBridgeCompressedDataEnabled ==> #[trigger] m.without_replication_bridge_compressed_data_enabled().attribute(a) == m.attribute(a),
        m.without_replication_bridge_egress_flow_window_size().attribute(MsgVpnAttribute::ReplicationBridgeEgressFlowWindowSize) == AttributeValue::Int64(None),
        forall|a: MsgVpnAttribute| a != MsgVpnAttribute::ReplicationBridgeEgressFlowWindowSize ==> #[trigger] m.without_replication_bridge_egress_flow_window_size().attribute(a) == m.attribute(a),
        m.without_replication_bridge_retry_delay().attribute(MsgVpnAttribute::ReplicationBridgeRetryDelay) == AttributeValue::Int64(None),
        forall|a: MsgVpnAttribute| a != MsgVpnAttribute::ReplicationBridgeRetryDelay ==> #[trigger] m.without_replication_bridge_retry_delay().attribute(a) == m.attribute(a),
        m.without_replication_bridge_tls_enabled().attribute(MsgVpnAttribute::ReplicationBridgeTlsEnabled) == AttributeValue::Flag(None),
        forall|a: MsgVpnAttribute| a != MsgVpnAttribute::ReplicationBridgeTlsEnabled ==> #[trigger] m.without_replication_bridge_tls_enabled().attribute(a) == m.attribute(a),
        m.without_replication_bridge_unidirectional_client_profile_name().attribute(MsgVpnAttribute::ReplicationBridgeUnidirectionalClientProfileName) == AttributeValue::Text(None),
        forall|a: MsgVpnAttribute| a != MsgVpnAttribute::ReplicationBridgeUnidirectionalClientProfileName ==> #[trigger] m.without_replication_bridge_unidirectional_client_profile_name().attribute(a) == m.attribute(a),
        m.without_replication_enabled().attribute(MsgVpnAttribute::ReplicationEnabled) == AttributeValue::Flag(None),
        forall|a: MsgVpnAttribute| a != MsgVpnAttribute::ReplicationEnabled ==> #[trigger] m.without_replication_enabled().attribute(a) == m.attribute(a),
        m.without_replication_enabled_queue_behavior().attribute(MsgVpnAttribute::ReplicationEnabledQueueBehavior) == AttributeValue::Text(None),
        forall|a: MsgVpnAttribute| a != MsgVpnAttribute::ReplicationEnabledQueueBehavior ==> #[trigger] m.without_replication_enabled_queue_behavior().attribute(a) == m.attribute(a),
        m.without_replication_queue_max_msg_spool_usage().attribute(MsgVpnAttribute::ReplicationQueueMaxMsgSpoolUsage) == AttributeValue::Int64(None),
        forall|a: MsgVpnAttribute| a != MsgVpnAttribute::ReplicationQueueMaxMsgSpoolUsage ==> #[trigger] m.without_replication_queue_max_msg_spool_usage().attribute(a) == m.attribute(a),
        m.without_replication_queue_reject_msg_to_sender_on_discard_enabled().attribute(MsgVpnAttribute::ReplicationQueueRejectMsgToSenderOnDiscardEnabled) == AttributeValue::Flag(None),
        forall|a: MsgVpnAttribute| a != MsgVpnAttribute::ReplicationQueueRejectMsgToSenderOnDiscardEnabled ==> #[trigger] m.without_replication_queue_reject_msg_to_sender_on_discard_enabled().attribute(a) == m.attribute(a),
        m.without_replication_reject_msg_when_sync_ineligible_enabled().attribute(MsgVpnAttribute::ReplicationRejectMsgWhenSyncIneligibleEnabled) == AttributeValue::Flag(None),
        forall|a: MsgVpnAttribute| a != MsgVpnAttribute::ReplicationRejectMsgWhenSyncIneligibleEnabled ==> #[trigger] m.without_replication_reject_msg_when_sync_ineligible_enabled().attribute(a) == m.attribute(a),
        m.without_replication_role().attribute(MsgVpnAttribute::ReplicationRole) == AttributeValue::Text(None),
        forall|a: MsgVpnAttribute| a != MsgVpnAttribute::ReplicationRole ==> #[trigger] m.without_replication_role().attribute(a) == m.attribute(a),
        m.without_replication_transaction_mode().attribute(MsgVpnAttribute::ReplicationTransactionMode) == AttributeValue::Text(None),
        forall|a: MsgVpnAttribute| a != MsgVpnAttribute::ReplicationTransactionMode ==> #[trigger] m.without_replication_transaction_mode().attribute(a) == m.attribute(a),
        m.without_rest_tls_server_cert_enforce_trusted_common_name_enabled().attribute(MsgVpnAttribute::RestTlsServerCertEnforceTrustedCommonNameEnabled) == AttributeValue::Flag(None),
        forall|a: MsgVpnAttribute| a != MsgVpnAttribute::RestTlsServerCertEnforceTrustedCommonNameEnabled ==> #[trigger] m.without_rest_tls_server_cert_enforce_trusted_common_name_enabled().attribute(a) == m.attribute(a),
        m.without_rest_tls_server_cert_max_chain_depth().attribute(MsgVpnAttribute::RestTlsServerCertMaxChainDepth) == AttributeValue::Int64(None),
        forall|a: MsgVpnAttribute| a != MsgVpnAttribute::RestTlsServerCertMaxChainDepth ==> #[trigger] m.without_rest_tls_server_cert_max_chain_depth().attribute(a) == m.attribute(a),
        m.without_rest_tls_server_cert_validate_date_enabled().attribute(MsgVpnAttribute::RestTlsServerCertValidateDateEnabled) == AttributeValue::Flag(None),
        forall|a: MsgVpnAttribute| a != MsgVpnAttribute::RestTlsServerCertValidateDateEnabled ==> #[trigger] m.without_rest_tls_server_cert_validate_date_enabled().attribute(a) == m.attribute(a),
        m.without_semp_over_msg_bus_admin_client_enabled().attribute(MsgVpnAttribute::SempOverMsgBusAdminClientEnabled) == AttributeValue::Flag(None),
        forall|a: MsgVpnAttribute| a != MsgVpnAttribute::SempOverMsgBusAdminClientEnabled ==> #[trigger] m.without_semp_over_msg_bus_admin_client_enabled().attribute(a) == m.attribute(a),
        m.without_semp_over_msg_bus_admin_distributed_cache_enabled().attribute(MsgVpnAttribute::SempOverMsgBusAdminDistributedCacheEnabled) == AttributeValue::Flag(None),
        forall|a: MsgVpnAttribute| a != MsgVpnAttribute::SempOverMsgBusAdminDistributedCacheEnabled ==> #[trigger] m.without_semp_over_msg_bus_admin_distributed_cache_enabled().attribute(a) == m.attribute(a),
        m.without_semp_over_msg_bus_admin_enabled().attribute(MsgVpnAttribute::SempOverMsgBusAdminEnabled) == AttributeValue::Flag(None),
        forall|a: MsgVpnAttribute| a != MsgVpnAttribute::SempOverMsgBusAdminEnabled ==> #[trigger] m.without_semp_over_msg_bus_admin_enabled().attribute(a) == m.attribute(a),
        m.without_semp_over_msg_bus_enabled().attribute(MsgVpnAttribute::SempOverMsgBusEnabled) == AttributeValue::Flag(None),
        forall|a: MsgVpnAttribute| a != MsgVpnAttribute::SempOverMsgBusEnabled ==> #[trigger] m.without_semp_over_msg_bus_enabled().attribute(a) == m.attribute(a),
        m.without_semp_over_msg_bus_show_enabled().attribute(MsgVpnAttribute::SempOverMsgBusShowEnabled) == AttributeValue::Flag(None),
        forall|a: MsgVpnAttribute| a != MsgVpnAttribute::SempOverMsgBusShowEnabled ==> #[trigger] m.without_semp_over_msg_bus_show_enabled().attribute(a) == m.attribute(a),
        m.without_service_amqp_max_connection_count().attribute(MsgVpnAttribute::ServiceAmqpMaxConnectionCount) == AttributeValue::Int64(None),
        forall|a: MsgVpnAttribute| a != MsgVpnAttribute::ServiceAmqpMaxConnectionCount ==> #[trigger] m.without_service_amqp_max_connection_count().attribute(a) == m.attribute(a),
        m.without_service_amqp_plain_text_enabled().attribute(MsgVpnAttribute::ServiceAmqpPlainTextEnabled) == AttributeValue::Flag(None),
        forall|a: MsgVpnAttribute| a != MsgVpnAttribute::ServiceAmqpPlainTextEnabled ==> #[trigger] m.without_service_amqp_plain_text_enabled().attribute(a) == m.attribute(a),
        m.without_service_amqp_plain_text_listen_port().attribute(MsgVpnAttribute::ServiceAmqpPlainTextListenPort) == AttributeValue::Int64(None),
        forall|a: MsgVpnAttribute| a != MsgVpnAttribute::ServiceAmqpPlainTextListenPort ==> #[trigger] m.without_service_amqp_plain_text_listen_port().attribute(a) == m.attribute(a),
        m.without_service_amqp_tls_enabled().attribute(MsgVpnAttribute::ServiceAmqpTlsEnabled) == AttributeValue::Flag(None),
        forall|a: MsgVpnAttribute| a != MsgVpnAttribute::ServiceAmqpTlsEnabled ==> #[trigger] m.without_service_amqp_tls_enabled().attribute(a) == m.attribute(a),
        m.without_service_amqp_tls_listen_port().attribute(MsgVpnAttribute::ServiceAmqpTlsListenPort) == AttributeValue::Int64(None),
        forall|a: MsgVpnAttribute| a != MsgVpnAttribute::ServiceAmqpTlsListenPort ==> #[trigger] m.without_service_amqp_tls_listen_port().attribute(a) == m.attribute(a),
        m.without_service_mqtt_max_connection_count().attribute(MsgVpnAttribute::ServiceMqttMaxConnectionCount) == AttributeValue::Int64(None),
        forall|a: MsgVpnAttribute| a != MsgVpnAttribute::ServiceMqttMaxConnectionCount ==> #[trigger] m.without_service_mqtt_max_connection_count().attribute(a) == m.attribute(a),
        m.without_service_mqtt_plain_text_enabled().attribute(MsgVpnAttribute::ServiceMqttPlainTextEnabled) == AttributeValue::Flag(None),
        forall|a: MsgVpnAttribute| a != MsgVpnAttribute::ServiceMqttPlainTextEnabled ==> #[trigger] m.without_service_mqtt_plain_text_enabled().attribute(a) == m.attribute(a),
        m.without_service_mqtt_plain_text_listen_port().attribute(MsgVpnAttribute::ServiceMqttPlainTextListenPort) == AttributeValue::Int64(None),
        forall|a: MsgVpnAttribute| a != MsgVpnAttribute::ServiceMqttPlainTextListenPort ==> #[trigger] m.without_service_mqtt_plain_text_listen_port().attribute(a) == m.attribute(a),
        m.without_service_mqtt_tls_enabled().attribute(MsgVpnAttribute::ServiceMqttTlsEnabled) == AttributeValue::Flag(None),
        forall|a: MsgVpnAttribute| a != MsgVpnAttribute::ServiceMqttTlsEnabled ==> #[trigger] m.without_service_mqtt_tls_enabled().attribute(a) == m.attribute(a),
        m.without_service_mqtt_tls_listen_port().attribute(MsgVpnAttribute::ServiceMqttTlsListenPort) == AttributeValue::Int64(None),
        forall|a: MsgVpnAttribute| a != MsgVpnAttribute::ServiceMqttTlsListenPort ==> #[trigger] m.without_service_mqtt_tls_listen_port().attribute(a) == m.attribute(a),
        m.without_service_mqtt_tls_web_socket_enabled().attribute(MsgVpnAttribute::ServiceMqttTlsWebSocketEnabled) == AttributeValue::Flag(None),
        forall|a: MsgVpnAttribute| a != MsgVpnAttribute::ServiceMqttTlsWebSocketEnabled ==> #[trigger] m.without_service_mqtt_tls_web_socket_enabled().attribute(a) == m.attribute(a),
        m.without_service_mqtt_tls_web_socket_listen_port().attribute(MsgVpnAttribute::ServiceMqttTlsWebSocketListenPort) == AttributeValue::Int64(None),
        forall|a: MsgVpnAttribute| a != MsgVpnAttribute::ServiceMqttTlsWebSocketListenPort ==> #[trigger] m.without_service_mqtt_tls_web_socket_listen_port().attribute(a) == m.attribute(a),
        m.without_service_mqtt_web_socket_enabled().attribute(MsgVpnAttribute::ServiceMqttWebSocketEnabled) == AttributeValue::Flag(None),
        forall|a: MsgVpnAttribute| a != MsgVpnAttribute::ServiceMqttWebSocketEnabled ==> #[trigger] m.without_service_mqtt_web_socket_enabled().attribute(a) == m.attribute(a),
        m.without_service_mqtt_web_socket_listen_port().attribute(MsgVpnAttribute::ServiceMqttWebSocketListenPort) == AttributeValue::Int64(None),
        forall|a: MsgVpnAttribute| a != MsgVpnAttribute::ServiceMqttWebSocketListenPort ==> #[trigger] m.without_service_mqtt_web_socket_listen_port().attribute(a) == m.attribute(a),
        m.without_service_rest_incoming_max_connection_count().attribute(MsgVpnAttribute::ServiceRestIncomingMaxConnectionCount) == AttributeValue::Int64(None),
        forall|a: MsgVpnAttribute| a != MsgVpnAttribute::ServiceRestIncomingMaxConnectionCount ==> #[trigger] m.without_service_rest_incoming_max_connection_count().attribute(a) == m.attribute(a),
        m.without_service_rest_incoming_plain_text_enabled().attribute(MsgVpnAttribute::ServiceRestIncomingPlainTextEnabled) == AttributeValue::Flag(None),
        forall|a: MsgVpnAttribute| a != MsgVpnAttribute::ServiceRestIncomingPlainTextEnabled ==> #[trigger] m.without_service_rest_incoming_plain_text_enabled().attribute(a) == m.attribute(a),
        m.without_service_rest_incoming_plain_text_listen_port().attribute(MsgVpnAttribute::ServiceRestIncomingPlainTextListenPort) == AttributeValue::Int64(None),
        forall|a: MsgVpnAttribute| a != MsgVpnAttribute::ServiceRestIncomingPlainTextListenPort ==> #[trigger] m.without_service_rest_incoming_plain_text_listen_port().attribute(a) == m.attribute(a),
        m.without_service_rest_incoming_tls_enabled().attribute(MsgVpnAttribute::ServiceRestIncomingTlsEnabled) == AttributeValue::Flag(None),
        forall|a: MsgVpnAttribute| a != MsgVpnAttribute::ServiceRestIncomingTlsEnabled ==> #[trigger] m.without_service_rest_incoming_tls_enabled().attribute(a) == m.attribute(a),
        m.without_service_rest_incoming_tls_listen_port().attribute(MsgVpnAttribute::ServiceRestIncomingTlsListenPort) == AttributeValue::Int64(None),
        forall|a: MsgVpnAttribute| a != MsgVpnAttribute::ServiceRestIncomingTlsListenPort ==> #[trigger] m.without_service_rest_incoming_tls_listen_port().attribute(a) == m.attribute(a),
        m.without_service_rest_mode().attribute(MsgVpnAttribute::ServiceRestMode) == AttributeValue::Text(None),
        forall|a: MsgVpnAttribute| a != MsgVpnAttribute::ServiceRestMode ==> #[trigger] m.without_service_rest_mode().attribute(a) == m.attribute(a),
        m.without_service_rest_outgoing_max_connection_count().attribute(MsgVpnAttribute::ServiceRestOutgoingMaxConnectionCount) == AttributeValue::Int64(None),
        forall|a: MsgVpnAttribute| a != MsgVpnAttribute::ServiceRestOutgoingMaxConnectionCount ==> #[trigger] m.without_service_rest_outgoing_max_connection_count().attribute(a) == m.attribute(a),
        m.without_service_smf_max_connection_count().attribute(MsgVpnAttribute::ServiceSmfMaxConnectionCount) == AttributeValue::Int64(None),
        forall|a: MsgVpnAttribute| a != MsgVpnAttribute::ServiceSmfMaxConnectionCount ==> #[trigger] m.without_service_smf_max_connection_count().attribute(a) == m.attribute(a),
        m.without_service_smf_plain_text_enabled().attribute(MsgVpnAttribute::ServiceSmfPlainTextEnabled) == AttributeValue::Flag(None),
        forall|a: MsgVpnAttribute| a != MsgVpnAttribute::ServiceSmfPlainTextEnabled ==> #[trigger] m.without_service_smf_plain_text_enabled().attribute(a) == m.attribute(a),
        m.without_service_smf_tls_enabled().attribute(MsgVpnAttribute::ServiceSmfTlsEnabled) == AttributeValue::Flag(None),
        forall|a: MsgVpnAttribute| a != MsgVpnAttribute::ServiceSmfTlsEnabled ==> #[trigger] m.without_service_smf_tls_enabled().attribute(a) == m.attribute(a),
        m.without_service_web_max_connection_count().attribute(MsgVpnAttribute::ServiceWebMaxConnectionCount) == AttributeValue::Int64(None),
        forall|a: MsgVpnAttribute| a != MsgVpnAttribute::ServiceWebMaxConnectionCount ==> #[trigger] m.without_service_web_max_connection_count().attribute(a) == m.attribute(a),
        m.without_service_web_plain_text_enabled().attribute(MsgVpnAttribute::ServiceWebPlainTextEnabled) == AttributeValue::Flag(None),
        forall|a: MsgVpnAttribute| a != MsgVpnAttribute::ServiceWebPlainTextEnabled ==> #[trigger] m.without_service_web_plain_text_enabled().attribute(a) == m.attribute(a),
        m.without_service_web_tls_enabled().attribute(MsgVpnAttribute::ServiceWebTlsEnabled) == AttributeValue::Flag(None),
        forall|a: MsgVpnAttribute| a != MsgVpnAttribute::ServiceWebTlsEnabled ==> #[trigger] m.without_service_web_tls_enabled().attribute(a) == m.attribute(a),
        m.without_tls_allow_downgrade_to_plain_text_enabled().attribute(MsgVpnAttribute::TlsAllowDowngradeToPlainTextEnabled) == AttributeValue::Flag(None),
        forall|a: MsgVpnAttribute| a != MsgVpnAttribute::TlsAllowDowngradeToPlainTextEnabled ==> #[trigger] m.without_tls_allow_downgrade_to_plain_text_enabled().attribute(a) == m.attribute(a),
{
}

} // verus!
