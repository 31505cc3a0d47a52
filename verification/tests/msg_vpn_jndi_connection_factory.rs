use solace_semp_client::models::MsgVpnJndiConnectionFactory;

fn msg_vpn_jndi_connection_factory_all_set(alt: usize) -> MsgVpnJndiConnectionFactory {
    let mut m = MsgVpnJndiConnectionFactory::new();
    if alt == 0 {
        m.set_allow_duplicate_client_id_enabled(true);
        m.set_client_description("clientDescription-0".to_string());
        m.set_client_id("clientId-0".to_string());
        m.set_connection_factory_name("connectionFactoryName-0".to_string());
        m.set_dto_receive_override_enabled(true);
        m.set_dto_receive_subscriber_local_priority(38);
        m.set_dto_receive_subscriber_network_priority(45);
        m.set_dto_send_enabled(false);
        m.set_dynamic_endpoint_create_durable_enabled(true);
        m.set_dynamic_endpoint_respect_ttl_enabled(false);
        m.set_guaranteed_receive_ack_timeout(73);
        m.set_guaranteed_receive_window_size(80);
        m.set_guaranteed_receive_window_size_ack_threshold(87);
        m.set_guaranteed_send_ack_timeout(94);
        m.set_guaranteed_send_window_size(101);
        m.set_messaging_default_delivery_mode("messagingDefaultDeliveryMode-0".to_string());
        m.set_messaging_default_dmq_eligible_enabled(true);
        m.set_messaging_default_eliding_eligible_enabled(false);
        m.set_messaging_jmsx_user_id_enabled(true);
        m.set_messaging_text_in_xml_payload_enabled(false);
        m.set_msg_vpn_name("msgVpnName-0".to_string());
        m.set_transport_compression_level(150);
        m.set_transport_connect_retry_count(157);
        m.set_transport_connect_retry_per_host_count(164);
        m.set_transport_connect_timeout(171);
        m.set_transport_direct_transport_enabled(false);
        m.set_transport_keepalive_count(185);
        m.set_transport_keepalive_enabled(false);
        m.set_transport_keepalive_interval(199);
        m.set_transport_msg_callback_on_io_thread_enabled(false);
        m.set_transport_optimize_direct_enabled(true);
        m.set_transport_port(220);
        m.set_transport_read_timeout(227);
        m.set_transport_receive_buffer_size(234);
        m.set_transport_reconnect_retry_count(241);
        m.set_transport_reconnect_retry_wait(248);
        m.set_transport_send_buffer_size(255);
        m.set_transport_tcp_no_delay_enabled(false);
        m.set_xa_enabled(true);
    } else {
        m.set_allow_duplicate_client_id_enabled(false);
        m.set_client_description("clientDescription-1".to_string());
        m.set_client_id("clientId-1".to_string());
        m.set_connection_factory_name("connectionFactoryName-1".to_string());
        m.set_dto_receive_override_enabled(false);
        m.set_dto_receive_subscriber_local_priority(39);
        m.set_dto_receive_subscriber_network_priority(46);
        m.set_dto_send_enabled(true);
        m.set_dynamic_endpoint_create_durable_enabled(false);
        m.set_dynamic_endpoint_respect_ttl_enabled(true);
        m.set_guaranteed_receive_ack_timeout(74);
        m.set_guaranteed_receive_window_size(81);
        m.set_guaranteed_receive_window_size_ack_threshold(88);
        m.set_guaranteed_send_ack_timeout(95);
        m.set_guaranteed_send_window_size(102);
        m.set_messaging_default_delivery_mode("messagingDefaultDeliveryMode-1".to_string());
        m.set_messaging_default_dmq_eligible_enabled(false);
        m.set_messaging_default_eliding_eligible_enabled(true);
        m.set_messaging_jmsx_user_id_enabled(false);
        m.set_messaging_text_in_xml_payload_enabled(true);
        m.set_msg_vpn_name("msgVpnName-1".to_string());
        m.set_transport_compression_level(151);
        m.set_transport_connect_retry_count(158);
        m.set_transport_connect_retry_per_host_count(165);
        m.set_transport_connect_timeout(172);
        m.set_transport_direct_transport_enabled(true);
        m.set_transport_keepalive_count(186);
        m.set_transport_keepalive_enabled(true);
        m.set_transport_keepalive_interval(200);
        m.set_transport_msg_callback_on_io_thread_enabled(true);
        m.set_transport_optimize_direct_enabled(false);
        m.set_transport_port(221);
        m.set_transport_read_timeout(228);
        m.set_transport_receive_buffer_size(235);
        m.set_transport_reconnect_retry_count(242);
        m.set_transport_reconnect_retry_wait(249);
        m.set_transport_send_buffer_size(256);
        m.set_transport_tcp_no_delay_enabled(true);
        m.set_xa_enabled(false);
    }
    m
}

#[test]
fn msg_vpn_jndi_connection_factory_new_has_no_attributes() {
    let m = MsgVpnJndiConnectionFactory::new();
    assert_eq!(m.allow_duplicate_client_id_enabled(), None);
    assert_eq!(m.client_description(), None);
    assert_eq!(m.client_id(), None);
    assert_eq!(m.connection_factory_name(), None);
    assert_eq!(m.dto_receive_override_enabled(), None);
    assert_eq!(m.dto_receive_subscriber_local_priority(), None);
    assert_eq!(m.dto_receive_subscriber_network_priority(), None);
    assert_eq!(m.dto_send_enabled(), None);
    assert_eq!(m.dynamic_endpoint_create_durable_enabled(), None);
    assert_eq!(m.dynamic_endpoint_respect_ttl_enabled(), None);
    assert_eq!(m.guaranteed_receive_ack_timeout(), None);
    assert_eq!(m.guaranteed_receive_window_size(), None);
    assert_eq!(m.guaranteed_receive_window_size_ack_threshold(), None);
    assert_eq!(m.guaranteed_send_ack_timeout(), None);
    assert_eq!(m.guaranteed_send_window_size(), None);
    assert_eq!(m.messaging_default_delivery_mode(), None);
    assert_eq!(m.messaging_default_dmq_eligible_enabled(), None);
    assert_eq!(m.messaging_default_eliding_eligible_enabled(), None);
    assert_eq!(m.messaging_jmsx_user_id_enabled(), None);
    assert_eq!(m.messaging_text_in_xml_payload_enabled(), None);
    assert_eq!(m.msg_vpn_name(), None);
    assert_eq!(m.transport_compression_level(), None);
    assert_eq!(m.transport_connect_retry_count(), None);
    assert_eq!(m.transport_connect_retry_per_host_count(), None);
    assert_eq!(m.transport_connect_timeout(), None);
    assert_eq!(m.transport_direct_transport_enabled(), None);
    assert_eq!(m.transport_keepalive_count(), None);
    assert_eq!(m.transport_keepalive_enabled(), None);
    assert_eq!(m.transport_keepalive_interval(), None);
    assert_eq!(m.transport_msg_callback_on_io_thread_enabled(), None);
    assert_eq!(m.transport_optimize_direct_enabled(), None);
    assert_eq!(m.transport_port(), None);
    assert_eq!(m.transport_read_timeout(), None);
    assert_eq!(m.transport_receive_buffer_size(), None);
    assert_eq!(m.transport_reconnect_retry_count(), None);
    assert_eq!(m.transport_reconnect_retry_wait(), None);
    assert_eq!(m.transport_send_buffer_size(), None);
    assert_eq!(m.transport_tcp_no_delay_enabled(), None);
    assert_eq!(m.xa_enabled(), None);
}

#[test]
fn msg_vpn_jndi_connection_factory_set_then_get() {
    let m = msg_vpn_jndi_connection_factory_all_set(0);
    assert_eq!(m.allow_duplicate_client_id_enabled(), Some(&true));
    assert_eq!(m.client_description(), Some(&"clientDescription-0".to_string()));
    assert_eq!(m.client_id(), Some(&"clientId-0".to_string()));
    assert_eq!(m.connection_factory_name(), Some(&"connectionFactoryName-0".to_string()));
    assert_eq!(m.dto_receive_override_enabled(), Some(&true));
    assert_eq!(m.dto_receive_subscriber_local_priority(), Some(&38));
    assert_eq!(m.dto_receive_subscriber_network_priority(), Some(&45));
    assert_eq!(m.dto_send_enabled(), Some(&false));
    assert_eq!(m.dynamic_endpoint_create_durable_enabled(), Some(&true));
    assert_eq!(m.dynamic_endpoint_respect_ttl_enabled(), Some(&false));
    assert_eq!(m.guaranteed_receive_ack_timeout(), Some(&73));
    assert_eq!(m.guaranteed_receive_window_size(), Some(&80));
    assert_eq!(m.guaranteed_receive_window_size_ack_threshold(), Some(&87));
    assert_eq!(m.guaranteed_send_ack_timeout(), Some(&94));
    assert_eq!(m.guaranteed_send_window_size(), Some(&101));
    assert_eq!(m.messaging_default_delivery_mode(), Some(&"messagingDefaultDeliveryMode-0".to_string()));
    assert_eq!(m.messaging_default_dmq_eligible_enabled(), Some(&true));
    assert_eq!(m.messaging_default_eliding_eligible_enabled(), Some(&false));
    assert_eq!(m.messaging_jmsx_user_id_enabled(), Some(&true));
    assert_eq!(m.messaging_text_in_xml_payload_enabled(), Some(&false));
    assert_eq!(m.msg_vpn_name(), Some(&"msgVpnName-0".to_string()));
    assert_eq!(m.transport_compression_level(), Some(&150));
    assert_eq!(m.transport_connect_retry_count(), Some(&157));
    assert_eq!(m.transport_connect_retry_per_host_count(), Some(&164));
    assert_eq!(m.transport_connect_timeout(), Some(&171));
    assert_eq!(m.transport_direct_transport_enabled(), Some(&false));
    assert_eq!(m.transport_keepalive_count(), Some(&185));
    assert_eq!(m.transport_keepalive_enabled(), Some(&false));
    assert_eq!(m.transport_keepalive_interval(), Some(&199));
    assert_eq!(m.transport_msg_callback_on_io_thread_enabled(), Some(&false));
    assert_eq!(m.transport_optimize_direct_enabled(), Some(&true));
    assert_eq!(m.transport_port(), Some(&220));
    assert_eq!(m.transport_read_timeout(), Some(&227));
    assert_eq!(m.transport_receive_buffer_size(), Some(&234));
    assert_eq!(m.transport_reconnect_retry_count(), Some(&241));
    assert_eq!(m.transport_reconnect_retry_wait(), Some(&248));
    assert_eq!(m.transport_send_buffer_size(), Some(&255));
    assert_eq!(m.transport_tcp_no_delay_enabled(), Some(&false));
    assert_eq!(m.xa_enabled(), Some(&true));
}

#[test]
fn msg_vpn_jndi_connection_factory_with_agrees_with_set() {
    let m = MsgVpnJndiConnectionFactory::new()
        .with_allow_duplicate_client_id_enabled(false)
        .with_client_description("clientDescription-1".to_string())
        .with_client_id("clientId-1".to_string())
        .with_connection_factory_name("connectionFactoryName-1".to_string())
        .with_dto_receive_override_enabled(false)
        .with_dto_receive_subscriber_local_priority(39)
        .with_dto_receive_subscriber_network_priority(46)
        .with_dto_send_enabled(true)
        .with_dynamic_endpoint_create_durable_enabled(false)
        .with_dynamic_endpoint_respect_ttl_enabled(true)
        .with_guaranteed_receive_ack_timeout(74)
        .with_guaranteed_receive_window_size(81)
        .with_guaranteed_receive_window_size_ack_threshold(88)
        .with_guaranteed_send_ack_timeout(95)
        .with_guaranteed_send_window_size(102)
        .with_messaging_default_delivery_mode("messagingDefaultDeliveryMode-1".to_string())
        .with_messaging_default_dmq_eligible_enabled(false)
        .with_messaging_default_eliding_eligible_enabled(true)
        .with_messaging_jmsx_user_id_enabled(false)
        .with_messaging_text_in_xml_payload_enabled(true)
        .with_msg_vpn_name("msgVpnName-1".to_string())
        .with_transport_compression_level(151)
        .with_transport_connect_retry_count(158)
        .with_transport_connect_retry_per_host_count(165)
        .with_transport_connect_timeout(172)
        .with_transport_direct_transport_enabled(true)
        .with_transport_keepalive_count(186)
        .with_transport_keepalive_enabled(true)
        .with_transport_keepalive_interval(200)
        .with_transport_msg_callback_on_io_thread_enabled(true)
        .with_transport_optimize_direct_enabled(false)
        .with_transport_port(221)
        .with_transport_read_timeout(228)
        .with_transport_receive_buffer_size(235)
        .with_transport_reconnect_retry_count(242)
        .with_transport_reconnect_retry_wait(249)
        .with_transport_send_buffer_size(256)
        .with_transport_tcp_no_delay_enabled(true)
        .with_xa_enabled(false)
        ;
    assert_eq!(m.allow_duplicate_client_id_enabled(), Some(&false));
    assert_eq!(m.client_description(), Some(&"clientDescription-1".to_string()));
    assert_eq!(m.client_id(), Some(&"clientId-1".to_string()));
    assert_eq!(m.connection_factory_name(), Some(&"connectionFactoryName-1".to_string()));
    assert_eq!(m.dto_receive_override_enabled(), Some(&false));
    assert_eq!(m.dto_receive_subscriber_local_priority(), Some(&39));
    assert_eq!(m.dto_receive_subscriber_network_priority(), Some(&46));
    assert_eq!(m.dto_send_enabled(), Some(&true));
    assert_eq!(m.dynamic_endpoint_create_durable_enabled(), Some(&false));
    assert_eq!(m.dynamic_endpoint_respect_ttl_enabled(), Some(&true));
    assert_eq!(m.guaranteed_receive_ack_timeout(), Some(&74));
    assert_eq!(m.guaranteed_receive_window_size(), Some(&81));
    assert_eq!(m.guaranteed_receive_window_size_ack_threshold(), Some(&88));
    assert_eq!(m.guaranteed_send_ack_timeout(), Some(&95));
    assert_eq!(m.guaranteed_send_window_size(), Some(&102));
    assert_eq!(m.messaging_default_delivery_mode(), Some(&"messagingDefaultDeliveryMode-1".to_string()));
    assert_eq!(m.messaging_default_dmq_eligible_enabled(), Some(&false));
    assert_eq!(m.messaging_default_eliding_eligible_enabled(), Some(&true));
    assert_eq!(m.messaging_jmsx_user_id_enabled(), Some(&false));
    assert_eq!(m.messaging_text_in_xml_payload_enabled(), Some(&true));
    assert_eq!(m.msg_vpn_name(), Some(&"msgVpnName-1".to_string()));
    assert_eq!(m.transport_compression_level(), Some(&151));
    assert_eq!(m.transport_connect_retry_count(), Some(&158));
    assert_eq!(m.transport_connect_retry_per_host_count(), Some(&165));
    assert_eq!(m.transport_connect_timeout(), Some(&172));
    assert_eq!(m.transport_direct_transport_enabled(), Some(&true));
    assert_eq!(m.transport_keepalive_count(), Some(&186));
    assert_eq!(m.transport_keepalive_enabled(), Some(&true));
    assert_eq!(m.transport_keepalive_interval(), Some(&200));
    assert_eq!(m.transport_msg_callback_on_io_thread_enabled(), Some(&true));
    assert_eq!(m.transport_optimize_direct_enabled(), Some(&false));
    assert_eq!(m.transport_port(), Some(&221));
    assert_eq!(m.transport_read_timeout(), Some(&228));
    assert_eq!(m.transport_receive_buffer_size(), Some(&235));
    assert_eq!(m.transport_reconnect_retry_count(), Some(&242));
    assert_eq!(m.transport_reconnect_retry_wait(), Some(&249));
    assert_eq!(m.transport_send_buffer_size(), Some(&256));
    assert_eq!(m.transport_tcp_no_delay_enabled(), Some(&true));
    assert_eq!(m.xa_enabled(), Some(&false));
    let n = msg_vpn_jndi_connection_factory_all_set(1);
    assert_eq!(m.allow_duplicate_client_id_enabled(), n.allow_duplicate_client_id_enabled());
    assert_eq!(m.client_description(), n.client_description());
    assert_eq!(m.client_id(), n.client_id());
    assert_eq!(m.connection_factory_name(), n.connection_factory_name());
    assert_eq!(m.dto_receive_override_enabled(), n.dto_receive_override_enabled());
    assert_eq!(m.dto_receive_subscriber_local_priority(), n.dto_receive_subscriber_local_priority());
    assert_eq!(m.dto_receive_subscriber_network_priority(), n.dto_receive_subscriber_network_priority());
    assert_eq!(m.dto_send_enabled(), n.dto_send_enabled());
    assert_eq!(m.dynamic_endpoint_create_durable_enabled(), n.dynamic_endpoint_create_durable_enabled());
    assert_eq!(m.dynamic_endpoint_respect_ttl_enabled(), n.dynamic_endpoint_respect_ttl_enabled());
    assert_eq!(m.guaranteed_receive_ack_timeout(), n.guaranteed_receive_ack_timeout());
    assert_eq!(m.guaranteed_receive_window_size(), n.guaranteed_receive_window_size());
    assert_eq!(m.guaranteed_receive_window_size_ack_threshold(), n.guaranteed_receive_window_size_ack_threshold());
    assert_eq!(m.guaranteed_send_ack_timeout(), n.guaranteed_send_ack_timeout());
    assert_eq!(m.guaranteed_send_window_size(), n.guaranteed_send_window_size());
    assert_eq!(m.messaging_default_delivery_mode(), n.messaging_default_delivery_mode());
    assert_eq!(m.messaging_default_dmq_eligible_enabled(), n.messaging_default_dmq_eligible_enabled());
    assert_eq!(m.messaging_default_eliding_eligible_enabled(), n.messaging_default_eliding_eligible_enabled());
    assert_eq!(m.messaging_jmsx_user_id_enabled(), n.messaging_jmsx_user_id_enabled());
    assert_eq!(m.messaging_text_in_xml_payload_enabled(), n.messaging_text_in_xml_payload_enabled());
    assert_eq!(m.msg_vpn_name(), n.msg_vpn_name());
    assert_eq!(m.transport_compression_level(), n.transport_compression_level());
    assert_eq!(m.transport_connect_retry_count(), n.transport_connect_retry_count());
    assert_eq!(m.transport_connect_retry_per_host_count(), n.transport_connect_retry_per_host_count());
    assert_eq!(m.transport_connect_timeout(), n.transport_connect_timeout());
    assert_eq!(m.transport_direct_transport_enabled(), n.transport_direct_transport_enabled());
    assert_eq!(m.transport_keepalive_count(), n.transport_keepalive_count());
    assert_eq!(m.transport_keepalive_enabled(), n.transport_keepalive_enabled());
    assert_eq!(m.transport_keepalive_interval(), n.transport_keepalive_interval());
    assert_eq!(m.transport_msg_callback_on_io_thread_enabled(), n.transport_msg_callback_on_io_thread_enabled());
    assert_eq!(m.transport_optimize_direct_enabled(), n.transport_optimize_direct_enabled());
    assert_eq!(m.transport_port(), n.transport_port());
    assert_eq!(m.transport_read_timeout(), n.transport_read_timeout());
    assert_eq!(m.transport_receive_buffer_size(), n.transport_receive_buffer_size());
    assert_eq!(m.transport_reconnect_retry_count(), n.transport_reconnect_retry_count());
    assert_eq!(m.transport_reconnect_retry_wait(), n.transport_reconnect_retry_wait());
    assert_eq!(m.transport_send_buffer_size(), n.transport_send_buffer_size());
    assert_eq!(m.transport_tcp_no_delay_enabled(), n.transport_tcp_no_delay_enabled());
    assert_eq!(m.xa_enabled(), n.xa_enabled());
}

#[test]
fn msg_vpn_jndi_connection_factory_reset_clears_only_its_attribute() {
    let mut m = msg_vpn_jndi_connection_factory_all_set(0);
    m.reset_allow_duplicate_client_id_enabled();
    assert_eq!(m.allow_duplicate_client_id_enabled(), None);
    assert_eq!(m.client_description(), Some(&"clientDescription-0".to_string()));
    assert_eq!(m.client_id(), Some(&"clientId-0".to_string()));
    assert_eq!(m.connection_factory_name(), Some(&"connectionFactoryName-0".to_string()));
    assert_eq!(m.dto_receive_override_enabled(), Some(&true));
    assert_eq!(m.dto_receive_subscriber_local_priority(), Some(&38));
    assert_eq!(m.dto_receive_subscriber_network_priority(), Some(&45));
    assert_eq!(m.dto_send_enabled(), Some(&false));
    assert_eq!(m.dynamic_endpoint_create_durable_enabled(), Some(&true));
    assert_eq!(m.dynamic_endpoint_respect_ttl_enabled(), Some(&false));
    assert_eq!(m.guaranteed_receive_ack_timeout(), Some(&73));
    assert_eq!(m.guaranteed_receive_window_size(), Some(&80));
    assert_eq!(m.guaranteed_receive_window_size_ack_threshold(), Some(&87));
    assert_eq!(m.guaranteed_send_ack_timeout(), Some(&94));
    assert_eq!(m.guaranteed_send_window_size(), Some(&101));
    assert_eq!(m.messaging_default_delivery_mode(), Some(&"messagingDefaultDeliveryMode-0".to_string()));
    assert_eq!(m.messaging_default_dmq_eligible_enabled(), Some(&true));
    assert_eq!(m.messaging_default_eliding_eligible_enabled(), Some(&false));
    assert_eq!(m.messaging_jmsx_user_id_enabled(), Some(&true));
    assert_eq!(m.messaging_text_in_xml_payload_enabled(), Some(&false));
    assert_eq!(m.msg_vpn_name(), Some(&"msgVpnName-0".to_string()));
    assert_eq!(m.transport_compression_level(), Some(&150));
    assert_eq!(m.transport_connect_retry_count(), Some(&157));
    assert_eq!(m.transport_connect_retry_per_host_count(), Some(&164));
    assert_eq!(m.transport_connect_timeout(), Some(&171));
    assert_eq!(m.transport_direct_transport_enabled(), Some(&false));
    assert_eq!(m.transport_keepalive_count(), Some(&185));
    assert_eq!(m.transport_keepalive_enabled(), Some(&false));
    assert_eq!(m.transport_keepalive_interval(), Some(&199));
    assert_eq!(m.transport_msg_callback_on_io_thread_enabled(), Some(&false));
    assert_eq!(m.transport_optimize_direct_enabled(), Some(&true));
    assert_eq!(m.transport_port(), Some(&220));
    assert_eq!(m.transport_read_timeout(), Some(&227));
    assert_eq!(m.transport_receive_buffer_size(), Some(&234));
    assert_eq!(m.transport_reconnect_retry_count(), Some(&241));
    assert_eq!(m.transport_reconnect_retry_wait(), Some(&248));
    assert_eq!(m.transport_send_buffer_size(), Some(&255));
    assert_eq!(m.transport_tcp_no_delay_enabled(), Some(&false));
    assert_eq!(m.xa_enabled(), Some(&true));
    let mut m = msg_vpn_jndi_connection_factory_all_set(0);
    m.reset_messaging_text_in_xml_payload_enabled();
    assert_eq!(m.allow_duplicate_client_id_enabled(), Some(&true));
    assert_eq!(m.client_description(), Some(&"clientDescription-0".to_string()));
    assert_eq!(m.client_id(), Some(&"clientId-0".to_string()));
    assert_eq!(m.connection_factory_name(), Some(&"connectionFactoryName-0".to_string()));
    assert_eq!(m.dto_receive_override_enabled(), Some(&true));
    assert_eq!(m.dto_receive_subscriber_local_priority(), Some(&38));
    assert_eq!(m.dto_receive_subscriber_network_priority(), Some(&45));
    assert_eq!(m.dto_send_enabled(), Some(&false));
    assert_eq!(m.dynamic_endpoint_create_durable_enabled(), Some(&true));
    assert_eq!(m.dynamic_endpoint_respect_ttl_enabled(), Some(&false));
    assert_eq!(m.guaranteed_receive_ack_timeout(), Some(&73));
    assert_eq!(m.guaranteed_receive_window_size(), Some(&80));
    assert_eq!(m.guaranteed_receive_window_size_ack_threshold(), Some(&87));
    assert_eq!(m.guaranteed_send_ack_timeout(), Some(&94));
    assert_eq!(m.guaranteed_send_window_size(), Some(&101));
    assert_eq!(m.messaging_default_delivery_mode(), Some(&"messagingDefaultDeliveryMode-0".to_string()));
    assert_eq!(m.messaging_default_dmq_eligible_enabled(), Some(&true));
    assert_eq!(m.messaging_default_eliding_eligible_enabled(), Some(&false));
    assert_eq!(m.messaging_jmsx_user_id_enabled(), Some(&true));
    assert_eq!(m.messaging_text_in_xml_payload_enabled(), None);
    assert_eq!(m.msg_vpn_name(), Some(&"msgVpnName-0".to_string()));
    assert_eq!(m.transport_compression_level(), Some(&150));
    assert_eq!(m.transport_connect_retry_count(), Some(&157));
    assert_eq!(m.transport_connect_retry_per_host_count(), Some(&164));
    assert_eq!(m.transport_connect_timeout(), Some(&171));
    assert_eq!(m.transport_direct_transport_enabled(), Some(&false));
    assert_eq!(m.transport_keepalive_count(), Some(&185));
    assert_eq!(m.transport_keepalive_enabled(), Some(&false));
    assert_eq!(m.transport_keepalive_interval(), Some(&199));
    assert_eq!(m.transport_msg_callback_on_io_thread_enabled(), Some(&false));
    assert_eq!(m.transport_optimize_direct_enabled(), Some(&true));
    assert_eq!(m.transport_port(), Some(&220));
    assert_eq!(m.transport_read_timeout(), Some(&227));
    assert_eq!(m.transport_receive_buffer_size(), Some(&234));
    assert_eq!(m.transport_reconnect_retry_count(), Some(&241));
    assert_eq!(m.transport_reconnect_retry_wait(), Some(&248));
    assert_eq!(m.transport_send_buffer_size(), Some(&255));
    assert_eq!(m.transport_tcp_no_delay_enabled(), Some(&false));
    assert_eq!(m.xa_enabled(), Some(&true));
    let mut m = msg_vpn_jndi_connection_factory_all_set(0);
    m.reset_xa_enabled();
    assert_eq!(m.allow_duplicate_client_id_enabled(), Some(&true));
    assert_eq!(m.client_description(), Some(&"clientDescription-0".to_string()));
    assert_eq!(m.client_id(), Some(&"clientId-0".to_string()));
    assert_eq!(m.connection_factory_name(), Some(&"connectionFactoryName-0".to_string()));
    assert_eq!(m.dto_receive_override_enabled(), Some(&true));
    assert_eq!(m.dto_receive_subscriber_local_priority(), Some(&38));
    assert_eq!(m.dto_receive_subscriber_network_priority(), Some(&45));
    assert_eq!(m.dto_send_enabled(), Some(&false));
    assert_eq!(m.dynamic_endpoint_create_durable_enabled(), Some(&true));
    assert_eq!(m.dynamic_endpoint_respect_ttl_enabled(), Some(&false));
    assert_eq!(m.guaranteed_receive_ack_timeout(), Some(&73));
    assert_eq!(m.guaranteed_receive_window_size(), Some(&80));
    assert_eq!(m.guaranteed_receive_window_size_ack_threshold(), Some(&87));
    assert_eq!(m.guaranteed_send_ack_timeout(), Some(&94));
    assert_eq!(m.guaranteed_send_window_size(), Some(&101));
    assert_eq!(m.messaging_default_delivery_mode(), Some(&"messagingDefaultDeliveryMode-0".to_string()));
    assert_eq!(m.messaging_default_dmq_eligible_enabled(), Some(&true));
    assert_eq!(m.messaging_default_eliding_eligible_enabled(), Some(&false));
    assert_eq!(m.messaging_jmsx_user_id_enabled(), Some(&true));
    assert_eq!(m.messaging_text_in_xml_payload_enabled(), Some(&false));
    assert_eq!(m.msg_vpn_name(), Some(&"msgVpnName-0".to_string()));
    assert_eq!(m.transport_compression_level(), Some(&150));
    assert_eq!(m.transport_connect_retry_count(), Some(&157));
    assert_eq!(m.transport_connect_retry_per_host_count(), Some(&164));
    assert_eq!(m.transport_connect_timeout(), Some(&171));
    assert_eq!(m.transport_direct_transport_enabled(), Some(&false));
    assert_eq!(m.transport_keepalive_count(), Some(&185));
    assert_eq!(m.transport_keepalive_enabled(), Some(&false));
    assert_eq!(m.transport_keepalive_interval(), Some(&199));
    assert_eq!(m.transport_msg_callback_on_io_thread_enabled(), Some(&false));
    assert_eq!(m.transport_optimize_direct_enabled(), Some(&true));
    assert_eq!(m.transport_port(), Some(&220));
    assert_eq!(m.transport_read_timeout(), Some(&227));
    assert_eq!(m.transport_receive_buffer_size(), Some(&234));
    assert_eq!(m.transport_reconnect_retry_count(), Some(&241));
    assert_eq!(m.transport_reconnect_retry_wait(), Some(&248));
    assert_eq!(m.transport_send_buffer_size(), Some(&255));
    assert_eq!(m.transport_tcp_no_delay_enabled(), Some(&false));
    assert_eq!(m.xa_enabled(), None);
    let mut m = msg_vpn_jndi_connection_factory_all_set(0);
    m.reset_allow_duplicate_client_id_enabled();
    m.reset_client_description();
    m.reset_client_id();
    m.reset_connection_factory_name();
    m.reset_dto_receive_override_enabled();
    m.reset_dto_receive_subscriber_local_priority();
    m.reset_dto_receive_subscriber_network_priority();
    m.reset_dto_send_enabled();
    m.reset_dynamic_endpoint_create_durable_enabled();
    m.reset_dynamic_endpoint_respect_ttl_enabled();
    m.reset_guaranteed_receive_ack_timeout();
    m.reset_guaranteed_receive_window_size();
    m.reset_guaranteed_receive_window_size_ack_threshold();
    m.reset_guaranteed_send_ack_timeout();
    m.reset_guaranteed_send_window_size();
    m.reset_messaging_default_delivery_mode();
    m.reset_messaging_default_dmq_eligible_enabled();
    m.reset_messaging_default_eliding_eligible_enabled();
    m.reset_messaging_jmsx_user_id_enabled();
    m.reset_messaging_text_in_xml_payload_enabled();
    m.reset_msg_vpn_name();
    m.reset_transport_compression_level();
    m.reset_transport_connect_retry_count();
    m.reset_transport_connect_retry_per_host_count();
    m.reset_transport_connect_timeout();
    m.reset_transport_direct_transport_enabled();
    m.reset_transport_keepalive_count();
    m.reset_transport_keepalive_enabled();
    m.reset_transport_keepalive_interval();
    m.reset_transport_msg_callback_on_io_thread_enabled();
    m.reset_transport_optimize_direct_enabled();
    m.reset_transport_port();
    m.reset_transport_read_timeout();
    m.reset_transport_receive_buffer_size();
    m.reset_transport_reconnect_retry_count();
    m.reset_transport_reconnect_retry_wait();
    m.reset_transport_send_buffer_size();
    m.reset_transport_tcp_no_delay_enabled();
    m.reset_xa_enabled();
    assert_eq!(m.allow_duplicate_client_id_enabled(), None);
    assert_eq!(m.client_description(), None);
    assert_eq!(m.client_id(), None);
    assert_eq!(m.connection_factory_name(), None);
    assert_eq!(m.dto_receive_override_enabled(), None);
    assert_eq!(m.dto_receive_subscriber_local_priority(), None);
    assert_eq!(m.dto_receive_subscriber_network_priority(), None);
    assert_eq!(m.dto_send_enabled(), None);
    assert_eq!(m.dynamic_endpoint_create_durable_enabled(), None);
    assert_eq!(m.dynamic_endpoint_respect_ttl_enabled(), None);
    assert_eq!(m.guaranteed_receive_ack_timeout(), None);
    assert_eq!(m.guaranteed_receive_window_size(), None);
    assert_eq!(m.guaranteed_receive_window_size_ack_threshold(), None);
    assert_eq!(m.guaranteed_send_ack_timeout(), None);
    assert_eq!(m.guaranteed_send_window_size(), None);
    assert_eq!(m.messaging_default_delivery_mode(), None);
    assert_eq!(m.messaging_default_dmq_eligible_enabled(), None);
    assert_eq!(m.messaging_default_eliding_eligible_enabled(), None);
    assert_eq!(m.messaging_jmsx_user_id_enabled(), None);
    assert_eq!(m.messaging_text_in_xml_payload_enabled(), None);
    assert_eq!(m.msg_vpn_name(), None);
    assert_eq!(m.transport_compression_level(), None);
    assert_eq!(m.transport_connect_retry_count(), None);
    assert_eq!(m.transport_connect_retry_per_host_count(), None);
    assert_eq!(m.transport_connect_timeout(), None);
    assert_eq!(m.transport_direct_transport_enabled(), None);
    assert_eq!(m.transport_keepalive_count(), None);
    assert_eq!(m.transport_keepalive_enabled(), None);
    assert_eq!(m.transport_keepalive_interval(), None);
    assert_eq!(m.transport_msg_callback_on_io_thread_enabled(), None);
    assert_eq!(m.transport_optimize_direct_enabled(), None);
    assert_eq!(m.transport_port(), None);
    assert_eq!(m.transport_read_timeout(), None);
    assert_eq!(m.transport_receive_buffer_size(), None);
    assert_eq!(m.transport_reconnect_retry_count(), None);
    assert_eq!(m.transport_reconnect_retry_wait(), None);
    assert_eq!(m.transport_send_buffer_size(), None);
    assert_eq!(m.transport_tcp_no_delay_enabled(), None);
    assert_eq!(m.xa_enabled(), None);
}

#[test]
fn msg_vpn_jndi_connection_factory_last_write_wins() {
    let mut m = msg_vpn_jndi_connection_factory_all_set(0);
    m.set_allow_duplicate_client_id_enabled(false);
    m.set_client_description("clientDescription-1".to_string());
    m.set_client_id("clientId-1".to_string());
    m.set_connection_factory_name("connectionFactoryName-1".to_string());
    m.set_dto_receive_override_enabled(false);
    m.set_dto_receive_subscriber_local_priority(39);
    m.set_dto_receive_subscriber_network_priority(46);
    m.set_dto_send_enabled(true);
    m.set_dynamic_endpoint_create_durable_enabled(false);
    m.set_dynamic_endpoint_respect_ttl_enabled(true);
    m.set_guaranteed_receive_ack_timeout(74);
    m.set_guaranteed_receive_window_size(81);
    m.set_guaranteed_receive_window_size_ack_threshold(88);
    m.set_guaranteed_send_ack_timeout(95);
    m.set_guaranteed_send_window_size(102);
    m.set_messaging_default_delivery_mode("messagingDefaultDeliveryMode-1".to_string());
    m.set_messaging_default_dmq_eligible_enabled(false);
    m.set_messaging_default_eliding_eligible_enabled(true);
    m.set_messaging_jmsx_user_id_enabled(false);
    m.set_messaging_text_in_xml_payload_enabled(true);
    m.set_msg_vpn_name("msgVpnName-1".to_string());
    m.set_transport_compression_level(151);
    m.set_transport_connect_retry_count(158);
    m.set_transport_connect_retry_per_host_count(165);
    m.set_transport_connect_timeout(172);
    m.set_transport_direct_transport_enabled(true);
    m.set_transport_keepalive_count(186);
    m.set_transport_keepalive_enabled(true);
    m.set_transport_keepalive_interval(200);
    m.set_transport_msg_callback_on_io_thread_enabled(true);
    m.set_transport_optimize_direct_enabled(false);
    m.set_transport_port(221);
    m.set_transport_read_timeout(228);
    m.set_transport_receive_buffer_size(235);
    m.set_transport_reconnect_retry_count(242);
    m.set_transport_reconnect_retry_wait(249);
    m.set_transport_send_buffer_size(256);
    m.set_transport_tcp_no_delay_enabled(true);
    m.set_xa_enabled(false);
    assert_eq!(m.allow_duplicate_client_id_enabled(), Some(&false));
    assert_eq!(m.client_description(), Some(&"clientDescription-1".to_string()));
    assert_eq!(m.client_id(), Some(&"clientId-1".to_string()));
    assert_eq!(m.connection_factory_name(), Some(&"connectionFactoryName-1".to_string()));
    assert_eq!(m.dto_receive_override_enabled(), Some(&false));
    assert_eq!(m.dto_receive_subscriber_local_priority(), Some(&39));
    assert_eq!(m.dto_receive_subscriber_network_priority(), Some(&46));
    assert_eq!(m.dto_send_enabled(), Some(&true));
    assert_eq!(m.dynamic_endpoint_create_durable_enabled(), Some(&false));
    assert_eq!(m.dynamic_endpoint_respect_ttl_enabled(), Some(&true));
    assert_eq!(m.guaranteed_receive_ack_timeout(), Some(&74));
    assert_eq!(m.guaranteed_receive_window_size(), Some(&81));
    assert_eq!(m.guaranteed_receive_window_size_ack_threshold(), Some(&88));
    assert_eq!(m.guaranteed_send_ack_timeout(), Some(&95));
    assert_eq!(m.guaranteed_send_window_size(), Some(&102));
    assert_eq!(m.messaging_default_delivery_mode(), Some(&"messagingDefaultDeliveryMode-1".to_string()));
    assert_eq!(m.messaging_default_dmq_eligible_enabled(), Some(&false));
    assert_eq!(m.messaging_default_eliding_eligible_enabled(), Some(&true));
    assert_eq!(m.messaging_jmsx_user_id_enabled(), Some(&false));
    assert_eq!(m.messaging_text_in_xml_payload_enabled(), Some(&true));
    assert_eq!(m.msg_vpn_name(), Some(&"msgVpnName-1".to_string()));
    assert_eq!(m.transport_compression_level(), Some(&151));
    assert_eq!(m.transport_connect_retry_count(), Some(&158));
    assert_eq!(m.transport_connect_retry_per_host_count(), Some(&165));
    assert_eq!(m.transport_connect_timeout(), Some(&172));
    assert_eq!(m.transport_direct_transport_enabled(), Some(&true));
    assert_eq!(m.transport_keepalive_count(), Some(&186));
    assert_eq!(m.transport_keepalive_enabled(), Some(&true));
    assert_eq!(m.transport_keepalive_interval(), Some(&200));
    assert_eq!(m.transport_msg_callback_on_io_thread_enabled(), Some(&true));
    assert_eq!(m.transport_optimize_direct_enabled(), Some(&false));
    assert_eq!(m.transport_port(), Some(&221));
    assert_eq!(m.transport_read_timeout(), Some(&228));
    assert_eq!(m.transport_receive_buffer_size(), Some(&235));
    assert_eq!(m.transport_reconnect_retry_count(), Some(&242));
    assert_eq!(m.transport_reconnect_retry_wait(), Some(&249));
    assert_eq!(m.transport_send_buffer_size(), Some(&256));
    assert_eq!(m.transport_tcp_no_delay_enabled(), Some(&true));
    assert_eq!(m.xa_enabled(), Some(&false));
}

#[test]
fn msg_vpn_jndi_connection_factory_reset_twice_and_rewrite() {
    let mut m = msg_vpn_jndi_connection_factory_all_set(0);
    m.reset_allow_duplicate_client_id_enabled();
    m.reset_allow_duplicate_client_id_enabled();
    m.set_allow_duplicate_client_id_enabled(true);
    m.set_allow_duplicate_client_id_enabled(true);
    m.reset_client_description();
    m.reset_client_description();
    m.set_client_description("clientDescription-0".to_string());
    m.set_client_description("clientDescription-0".to_string());
    m.reset_client_id();
    m.reset_client_id();
    m.set_client_id("clientId-0".to_string());
    m.set_client_id("clientId-0".to_string());
    m.reset_connection_factory_name();
    m.reset_connection_factory_name();
    m.set_connection_factory_name("connectionFactoryName-0".to_string());
    m.set_connection_factory_name("connectionFactoryName-0".to_string());
    m.reset_dto_receive_override_enabled();
    m.reset_dto_receive_override_enabled();
    m.set_dto_receive_override_enabled(true);
    m.set_dto_receive_override_enabled(true);
    m.reset_dto_receive_subscriber_local_priority();
    m.reset_dto_receive_subscriber_local_priority();
    m.set_dto_receive_subscriber_local_priority(38);
    m.set_dto_receive_subscriber_local_priority(38);
    m.reset_dto_receive_subscriber_network_priority();
    m.reset_dto_receive_subscriber_network_priority();
    m.set_dto_receive_subscriber_network_priority(45);
    m.set_dto_receive_subscriber_network_priority(45);
    m.reset_dto_send_enabled();
    m.reset_dto_send_enabled();
    m.set_dto_send_enabled(false);
    m.set_dto_send_enabled(false);
    m.reset_dynamic_endpoint_create_durable_enabled();
    m.reset_dynamic_endpoint_create_durable_enabled();
    m.set_dynamic_endpoint_create_durable_enabled(true);
    m.set_dynamic_endpoint_create_durable_enabled(true);
    m.reset_dynamic_endpoint_respect_ttl_enabled();
    m.reset_dynamic_endpoint_respect_ttl_enabled();
    m.set_dynamic_endpoint_respect_ttl_enabled(false);
    m.set_dynamic_endpoint_respect_ttl_enabled(false);
    m.reset_guaranteed_receive_ack_timeout();
    m.reset_guaranteed_receive_ack_timeout();
    m.set_guaranteed_receive_ack_timeout(73);
    m.set_guaranteed_receive_ack_timeout(73);
    m.reset_guaranteed_receive_window_size();
    m.reset_guaranteed_receive_window_size();
    m.set_guaranteed_receive_window_size(80);
    m.set_guaranteed_receive_window_size(80);
    m.reset_guaranteed_receive_window_size_ack_threshold();
    m.reset_guaranteed_receive_window_size_ack_threshold();
    m.set_guaranteed_receive_window_size_ack_threshold(87);
    m.set_guaranteed_receive_window_size_ack_threshold(87);
    m.reset_guaranteed_send_ack_timeout();
    m.reset_guaranteed_send_ack_timeout();
    m.set_guaranteed_send_ack_timeout(94);
    m.set_guaranteed_send_ack_timeout(94);
    m.reset_guaranteed_send_window_size();
    m.reset_guaranteed_send_window_size();
    m.set_guaranteed_send_window_size(101);
    m.set_guaranteed_send_window_size(101);
    m.reset_messaging_default_delivery_mode();
    m.reset_messaging_default_delivery_mode();
    m.set_messaging_default_delivery_mode("messagingDefaultDeliveryMode-0".to_string());
    m.set_messaging_default_delivery_mode("messagingDefaultDeliveryMode-0".to_string());
    m.reset_messaging_default_dmq_eligible_enabled();
    m.reset_messaging_default_dmq_eligible_enabled();
    m.set_messaging_default_dmq_eligible_enabled(true);
    m.set_messaging_default_dmq_eligible_enabled(true);
    m.reset_messaging_default_eliding_eligible_enabled();
    m.reset_messaging_default_eliding_eligible_enabled();
    m.set_messaging_default_eliding_eligible_enabled(false);
    m.set_messaging_default_eliding_eligible_enabled(false);
    m.reset_messaging_jmsx_user_id_enabled();
    m.reset_messaging_jmsx_user_id_enabled();
    m.set_messaging_jmsx_user_id_enabled(true);
    m.set_messaging_jmsx_user_id_enabled(true);
    m.reset_messaging_text_in_xml_payload_enabled();
    m.reset_messaging_text_in_xml_payload_enabled();
    m.set_messaging_text_in_xml_payload_enabled(false);
    m.set_messaging_text_in_xml_payload_enabled(false);
    m.reset_msg_vpn_name();
    m.reset_msg_vpn_name();
    m.set_msg_vpn_name("msgVpnName-0".to_string());
    m.set_msg_vpn_name("msgVpnName-0".to_string());
    m.reset_transport_compression_level();
    m.reset_transport_compression_level();
    m.set_transport_compression_level(150);
    m.set_transport_compression_level(150);
    m.reset_transport_connect_retry_count();
    m.reset_transport_connect_retry_count();
    m.set_transport_connect_retry_count(157);
    m.set_transport_connect_retry_count(157);
    m.reset_transport_connect_retry_per_host_count();
    m.reset_transport_connect_retry_per_host_count();
    m.set_transport_connect_retry_per_host_count(164);
    m.set_transport_connect_retry_per_host_count(164);
    m.reset_transport_connect_timeout();
    m.reset_transport_connect_timeout();
    m.set_transport_connect_timeout(171);
    m.set_transport_connect_timeout(171);
    m.reset_transport_direct_transport_enabled();
    m.reset_transport_direct_transport_enabled();
    m.set_transport_direct_transport_enabled(false);
    m.set_transport_direct_transport_enabled(false);
    m.reset_transport_keepalive_count();
    m.reset_transport_keepalive_count();
    m.set_transport_keepalive_count(185);
    m.set_transport_keepalive_count(185);
    m.reset_transport_keepalive_enabled();
    m.reset_transport_keepalive_enabled();
    m.set_transport_keepalive_enabled(false);
    m.set_transport_keepalive_enabled(false);
    m.reset_transport_keepalive_interval();
    m.reset_transport_keepalive_interval();
    m.set_transport_keepalive_interval(199);
    m.set_transport_keepalive_interval(199);
    m.reset_transport_msg_callback_on_io_thread_enabled();
    m.reset_transport_msg_callback_on_io_thread_enabled();
    m.set_transport_msg_callback_on_io_thread_enabled(false);
    m.set_transport_msg_callback_on_io_thread_enabled(false);
    m.reset_transport_optimize_direct_enabled();
    m.reset_transport_optimize_direct_enabled();
    m.set_transport_optimize_direct_enabled(true);
    m.set_transport_optimize_direct_enabled(true);
    m.reset_transport_port();
    m.reset_transport_port();
    m.set_transport_port(220);
    m.set_transport_port(220);
    m.reset_transport_read_timeout();
    m.reset_transport_read_timeout();
    m.set_transport_read_timeout(227);
    m.set_transport_read_timeout(227);
    m.reset_transport_receive_buffer_size();
    m.reset_transport_receive_buffer_size();
    m.set_transport_receive_buffer_size(234);
    m.set_transport_receive_buffer_size(234);
    m.reset_transport_reconnect_retry_count();
    m.reset_transport_reconnect_retry_count();
    m.set_transport_reconnect_retry_count(241);
    m.set_transport_reconnect_retry_count(241);
    m.reset_transport_reconnect_retry_wait();
    m.reset_transport_reconnect_retry_wait();
    m.set_transport_reconnect_retry_wait(248);
    m.set_transport_reconnect_retry_wait(248);
    m.reset_transport_send_buffer_size();
    m.reset_transport_send_buffer_size();
    m.set_transport_send_buffer_size(255);
    m.set_transport_send_buffer_size(255);
    m.reset_transport_tcp_no_delay_enabled();
    m.reset_transport_tcp_no_delay_enabled();
    m.set_transport_tcp_no_delay_enabled(false);
    m.set_transport_tcp_no_delay_enabled(false);
    m.reset_xa_enabled();
    m.reset_xa_enabled();
    m.set_xa_enabled(true);
    m.set_xa_enabled(true);
    assert_eq!(m.allow_duplicate_client_id_enabled(), Some(&true));
    assert_eq!(m.client_description(), Some(&"clientDescription-0".to_string()));
    assert_eq!(m.client_id(), Some(&"clientId-0".to_string()));
    assert_eq!(m.connection_factory_name(), Some(&"connectionFactoryName-0".to_string()));
    assert_eq!(m.dto_receive_override_enabled(), Some(&true));
    assert_eq!(m.dto_receive_subscriber_local_priority(), Some(&38));
    assert_eq!(m.dto_receive_subscriber_network_priority(), Some(&45));
    assert_eq!(m.dto_send_enabled(), Some(&false));
    assert_eq!(m.dynamic_endpoint_create_durable_enabled(), Some(&true));
    assert_eq!(m.dynamic_endpoint_respect_ttl_enabled(), Some(&false));
    assert_eq!(m.guaranteed_receive_ack_timeout(), Some(&73));
    assert_eq!(m.guaranteed_receive_window_size(), Some(&80));
    assert_eq!(m.guaranteed_receive_window_size_ack_threshold(), Some(&87));
    assert_eq!(m.guaranteed_send_ack_timeout(), Some(&94));
    assert_eq!(m.guaranteed_send_window_size(), Some(&101));
    assert_eq!(m.messaging_default_delivery_mode(), Some(&"messagingDefaultDeliveryMode-0".to_string()));
    assert_eq!(m.messaging_default_dmq_eligible_enabled(), Some(&true));
    assert_eq!(m.messaging_default_eliding_eligible_enabled(), Some(&false));
    assert_eq!(m.messaging_jmsx_user_id_enabled(), Some(&true));
    assert_eq!(m.messaging_text_in_xml_payload_enabled(), Some(&false));
    assert_eq!(m.msg_vpn_name(), Some(&"msgVpnName-0".to_string()));
    assert_eq!(m.transport_compression_level(), Some(&150));
    assert_eq!(m.transport_connect_retry_count(), Some(&157));
    assert_eq!(m.transport_connect_retry_per_host_count(), Some(&164));
    assert_eq!(m.transport_connect_timeout(), Some(&171));
    assert_eq!(m.transport_direct_transport_enabled(), Some(&false));
    assert_eq!(m.transport_keepalive_count(), Some(&185));
    assert_eq!(m.transport_keepalive_enabled(), Some(&false));
    assert_eq!(m.transport_keepalive_interval(), Some(&199));
    assert_eq!(m.transport_msg_callback_on_io_thread_enabled(), Some(&false));
    assert_eq!(m.transport_optimize_direct_enabled(), Some(&true));
    assert_eq!(m.transport_port(), Some(&220));
    assert_eq!(m.transport_read_timeout(), Some(&227));
    assert_eq!(m.transport_receive_buffer_size(), Some(&234));
    assert_eq!(m.transport_reconnect_retry_count(), Some(&241));
    assert_eq!(m.transport_reconnect_retry_wait(), Some(&248));
    assert_eq!(m.transport_send_buffer_size(), Some(&255));
    assert_eq!(m.transport_tcp_no_delay_enabled(), Some(&false));
    assert_eq!(m.xa_enabled(), Some(&true));
}
