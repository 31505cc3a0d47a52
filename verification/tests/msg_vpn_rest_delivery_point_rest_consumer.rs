use solace_semp_client::models::MsgVpnRestDeliveryPointRestConsumer;

fn msg_vpn_rest_delivery_point_rest_consumer_all_set(alt: usize) -> MsgVpnRestDeliveryPointRestConsumer {
    let mut m = MsgVpnRestDeliveryPointRestConsumer::new();
    if alt == 0 {
        m.set_authentication_client_cert_content("authenticationClientCertContent-0".to_string());
        m.set_authentication_client_cert_password("authenticationClientCertPassword-0".to_string());
        m.set_authentication_http_basic_password("authenticationHttpBasicPassword-0".to_string());
        m.set_authentication_http_basic_username("authenticationHttpBasicUsername-0".to_string());
        m.set_authentication_scheme("authenticationScheme-0".to_string());
        m.set_enabled(false);
        m.set_local_interface("localInterface-0".to_string());
        m.set_max_post_wait_time(52);
        m.set_msg_vpn_name("msgVpnName-0".to_string());
        m.set_outgoing_connection_count(66);
        m.set_remote_host("remoteHost-0".to_string());
        m.set_remote_port(11017);
        m.set_rest_consumer_name("restConsumerName-0".to_string());
        m.set_rest_delivery_point_name("restDeliveryPointName-0".to_string());
        m.set_retry_delay(101);
        m.set_tls_cipher_suite_list("tlsCipherSuiteList-0".to_string());
        m.set_tls_enabled(true);
    } else {
        m.set_authentication_client_cert_content("authenticationClientCertContent-1".to_string());
        m.set_authentication_client_cert_password("authenticationClientCertPassword-1".to_string());
        m.set_authentication_http_basic_password("authenticationHttpBasicPassword-1".to_string());
        m.set_authentication_http_basic_username("authenticationHttpBasicUsername-1".to_string());
        m.set_authentication_scheme("authenticationScheme-1".to_string());
        m.set_enabled(true);
        m.set_local_interface("localInterface-1".to_string());
        m.set_max_post_wait_time(53);
        m.set_msg_vpn_name("msgVpnName-1".to_string());
        m.set_outgoing_connection_count(67);
        m.set_remote_host("remoteHost-1".to_string());
        m.set_remote_port(11018);
        m.set_rest_consumer_name("restConsumerName-1".to_string());
        m.set_rest_delivery_point_name("restDeliveryPointName-1".to_string());
        m.set_retry_delay(102);
        m.set_tls_cipher_suite_list("tlsCipherSuiteList-1".to_string());
        m.set_tls_enabled(false);
    }
    m
}

#[test]
fn msg_vpn_rest_delivery_point_rest_consumer_new_has_no_attributes() {
    let m = MsgVpnRestDeliveryPointRestConsumer::new();
    assert_eq!(m.authentication_client_cert_content(), None);
    assert_eq!(m.authentication_client_cert_password(), None);
    assert_eq!(m.authentication_http_basic_password(), None);
    assert_eq!(m.authentication_http_basic_username(), None);
    assert_eq!(m.authentication_scheme(), None);
    assert_eq!(m.enabled(), None);
    assert_eq!(m.local_interface(), None);
    assert_eq!(m.max_post_wait_time(), None);
    assert_eq!(m.msg_vpn_name(), None);
    assert_eq!(m.outgoing_connection_count(), None);
    assert_eq!(m.remote_host(), None);
    assert_eq!(m.remote_port(), None);
    assert_eq!(m.rest_consumer_name(), None);
    assert_eq!(m.rest_delivery_point_name(), None);
    assert_eq!(m.retry_delay(), None);
    assert_eq!(m.tls_cipher_suite_list(), None);
    assert_eq!(m.tls_enabled(), None);
}

#[test]
fn msg_vpn_rest_delivery_point_rest_consumer_set_then_get() {
    let m = msg_vpn_rest_delivery_point_rest_consumer_all_set(0);
    assert_eq!(m.authentication_client_cert_content(), Some(&"authenticationClientCertContent-0".to_string()));
    assert_eq!(m.authentication_client_cert_password(), Some(&"authenticationClientCertPassword-0".to_string()));
    assert_eq!(m.authentication_http_basic_password(), Some(&"authenticationHttpBasicPassword-0".to_string()));
    assert_eq!(m.authentication_http_basic_username(), Some(&"authenticationHttpBasicUsername-0".to_string()));
    assert_eq!(m.authentication_scheme(), Some(&"authenticationScheme-0".to_string()));
    assert_eq!(m.enabled(), Some(&false));
    assert_eq!(m.local_interface(), Some(&"localInterface-0".to_string()));
    assert_eq!(m.max_post_wait_time(), Some(&52));
    assert_eq!(m.msg_vpn_name(), Some(&"msgVpnName-0".to_string()));
    assert_eq!(m.outgoing_connection_count(), Some(&66));
    assert_eq!(m.remote_host(), Some(&"remoteHost-0".to_string()));
    assert_eq!(m.remote_port(), Some(&11017));
    assert_eq!(m.rest_consumer_name(), Some(&"restConsumerName-0".to_string()));
    assert_eq!(m.rest_delivery_point_name(), Some(&"restDeliveryPointName-0".to_string()));
    assert_eq!(m.retry_delay(), Some(&101));
    assert_eq!(m.tls_cipher_suite_list(), Some(&"tlsCipherSuiteList-0".to_string()));
    assert_eq!(m.tls_enabled(), Some(&true));
}

#[test]
fn msg_vpn_rest_delivery_point_rest_consumer_with_agrees_with_set() {
    let m = MsgVpnRestDeliveryPointRestConsumer::new()
        .with_authentication_client_cert_content("authenticationClientCertContent-1".to_string())
        .with_authentication_client_cert_password("authenticationClientCertPassword-1".to_string())
        .with_authentication_http_basic_password("authenticationHttpBasicPassword-1".to_string())
        .with_authentication_http_basic_username("authenticationHttpBasicUsername-1".to_string())
        .with_authentication_scheme("authenticationScheme-1".to_string())
        .with_enabled(true)
        .with_local_interface("localInterface-1".to_string())
        .with_max_post_wait_time(53)
        .with_msg_vpn_name("msgVpnName-1".to_string())
        .with_outgoing_connection_count(67)
        .with_remote_host("remoteHost-1".to_string())
        .with_remote_port(11018)
        .with_rest_consumer_name("restConsumerName-1".to_string())
        .with_rest_delivery_point_name("restDeliveryPointName-1".to_string())
        .with_retry_delay(102)
        .with_tls_cipher_suite_list("tlsCipherSuiteList-1".to_string())
        .with_tls_enabled(false)
        ;
    assert_eq!(m.authentication_client_cert_content(), Some(&"authenticationClientCertContent-1".to_string()));
    assert_eq!(m.authentication_client_cert_password(), Some(&"authenticationClientCertPassword-1".to_string()));
    assert_eq!(m.authentication_http_basic_password(), Some(&"authenticationHttpBasicPassword-1".to_string()));
    assert_eq!(m.authentication_http_basic_username(), Some(&"authenticationHttpBasicUsername-1".to_string()));
    assert_eq!(m.authentication_scheme(), Some(&"authenticationScheme-1".to_string()));
    assert_eq!(m.enabled(), Some(&true));
    assert_eq!(m.local_interface(), Some(&"localInterface-1".to_string()));
    assert_eq!(m.max_post_wait_time(), Some(&53));
    assert_eq!(m.msg_vpn_name(), Some(&"msgVpnName-1".to_string()));
    assert_eq!(m.outgoing_connection_count(), Some(&67));
    assert_eq!(m.remote_host(), Some(&"remoteHost-1".to_string()));
    assert_eq!(m.remote_port(), Some(&11018));
    assert_eq!(m.rest_consumer_name(), Some(&"restConsumerName-1".to_string()));
    assert_eq!(m.rest_delivery_point_name(), Some(&"restDeliveryPointName-1".to_string()));
    assert_eq!(m.retry_delay(), Some(&102));
    assert_eq!(m.tls_cipher_suite_list(), Some(&"tlsCipherSuiteList-1".to_string()));
    assert_eq!(m.tls_enabled(), Some(&false));
    let n = msg_vpn_rest_delivery_point_rest_consumer_all_set(1);
    assert_eq!(m.authentication_client_cert_content(), n.authentication_client_cert_content());
    assert_eq!(m.authentication_client_cert_password(), n.authentication_client_cert_password());
    assert_eq!(m.authentication_http_basic_password(), n.authentication_http_basic_password());
    assert_eq!(m.authentication_http_basic_username(), n.authentication_http_basic_username());
    assert_eq!(m.authentication_scheme(), n.authentication_scheme());
    assert_eq!(m.enabled(), n.enabled());
    assert_eq!(m.local_interface(), n.local_interface());
    assert_eq!(m.max_post_wait_time(), n.max_post_wait_time());
    assert_eq!(m.msg_vpn_name(), n.msg_vpn_name());
    assert_eq!(m.outgoing_connection_count(), n.outgoing_connection_count());
    assert_eq!(m.remote_host(), n.remote_host());
    assert_eq!(m.remote_port(), n.remote_port());
    assert_eq!(m.rest_consumer_name(), n.rest_consumer_name());
    assert_eq!(m.rest_delivery_point_name(), n.rest_delivery_point_name());
    assert_eq!(m.retry_delay(), n.retry_delay());
    assert_eq!(m.tls_cipher_suite_list(), n.tls_cipher_suite_list());
    assert_eq!(m.tls_enabled(), n.tls_enabled());
}

#[test]
fn msg_vpn_rest_delivery_point_rest_consumer_reset_clears_only_its_attribute() {
    let mut m = msg_vpn_rest_delivery_point_rest_consumer_all_set(0);
    m.reset_authentication_client_cert_content();
    assert_eq!(m.authentication_client_cert_content(), None);
    assert_eq!(m.authentication_client_cert_password(), Some(&"authenticationClientCertPassword-0".to_string()));
    assert_eq!(m.authentication_http_basic_password(), Some(&"authenticationHttpBasicPassword-0".to_string()));
    assert_eq!(m.authentication_http_basic_username(), Some(&"authenticationHttpBasicUsername-0".to_string()));
    assert_eq!(m.authentication_scheme(), Some(&"authenticationScheme-0".to_string()));
    assert_eq!(m.enabled(), Some(&false));
    assert_eq!(m.local_interface(), Some(&"localInterface-0".to_string()));
    assert_eq!(m.max_post_wait_time(), Some(&52));
    assert_eq!(m.msg_vpn_name(), Some(&"msgVpnName-0".to_string()));
    assert_eq!(m.outgoing_connection_count(), Some(&66));
    assert_eq!(m.remote_host(), Some(&"remoteHost-0".to_string()));
    assert_eq!(m.remote_port(), Some(&11017));
    assert_eq!(m.rest_consumer_name(), Some(&"restConsumerName-0".to_string()));
    assert_eq!(m.rest_delivery_point_name(), Some(&"restDeliveryPointName-0".to_string()));
    assert_eq!(m.retry_delay(), Some(&101));
    assert_eq!(m.tls_cipher_suite_list(), Some(&"tlsCipherSuiteList-0".to_string()));
    assert_eq!(m.tls_enabled(), Some(&true));
    let mut m = msg_vpn_rest_delivery_point_rest_consumer_all_set(0);
    m.reset_msg_vpn_name();
    assert_eq!(m.authentication_client_cert_content(), Some(&"authenticationClientCertContent-0".to_string()));
    assert_eq!(m.authentication_client_cert_password(), Some(&"authenticationClientCertPassword-0".to_string()));
    assert_eq!(m.authentication_http_basic_password(), Some(&"authenticationHttpBasicPassword-0".to_string()));
    assert_eq!(m.authentication_http_basic_username(), Some(&"authenticationHttpBasicUsername-0".to_string()));
    assert_eq!(m.authentication_scheme(), Some(&"authenticationScheme-0".to_string()));
    assert_eq!(m.enabled(), Some(&false));
    assert_eq!(m.local_interface(), Some(&"localInterface-0".to_string()));
    assert_eq!(m.max_post_wait_time(), Some(&52));
    assert_eq!(m.msg_vpn_name(), None);
    assert_eq!(m.outgoing_connection_count(), Some(&66));
    assert_eq!(m.remote_host(), Some(&"remoteHost-0".to_string()));
    assert_eq!(m.remote_port(), Some(&11017));
    assert_eq!(m.rest_consumer_name(), Some(&"restConsumerName-0".to_string()));
    assert_eq!(m.rest_delivery_point_name(), Some(&"restDeliveryPointName-0".to_string()));
    assert_eq!(m.retry_delay(), Some(&101));
    assert_eq!(m.tls_cipher_suite_list(), Some(&"tlsCipherSuiteList-0".to_string()));
    assert_eq!(m.tls_enabled(), Some(&true));
    let mut m = msg_vpn_rest_delivery_point_rest_consumer_all_set(0);
    m.reset_tls_enabled();
    assert_eq!(m.authentication_client_cert_content(), Some(&"authenticationClientCertContent-0".to_string()));
    assert_eq!(m.authentication_client_cert_password(), Some(&"authenticationClientCertPassword-0".to_string()));
    assert_eq!(m.authentication_http_basic_password(), Some(&"authenticationHttpBasicPassword-0".to_string()));
    assert_eq!(m.authentication_http_basic_username(), Some(&"authenticationHttpBasicUsername-0".to_string()));
    assert_eq!(m.authentication_scheme(), Some(&"authenticationScheme-0".to_string()));
    assert_eq!(m.enabled(), Some(&false));
    assert_eq!(m.local_interface(), Some(&"localInterface-0".to_string()));
    assert_eq!(m.max_post_wait_time(), Some(&52));
    assert_eq!(m.msg_vpn_name(), Some(&"msgVpnName-0".to_string()));
    assert_eq!(m.outgoing_connection_count(), Some(&66));
    assert_eq!(m.remote_host(), Some(&"remoteHost-0".to_string()));
    assert_eq!(m.remote_port(), Some(&11017));
    assert_eq!(m.rest_consumer_name(), Some(&"restConsumerName-0".to_string()));
    assert_eq!(m.rest_delivery_point_name(), Some(&"restDeliveryPointName-0".to_string()));
    assert_eq!(m.retry_delay(), Some(&101));
    assert_eq!(m.tls_cipher_suite_list(), Some(&"tlsCipherSuiteList-0".to_string()));
    assert_eq!(m.tls_enabled(), None);
    let mut m = msg_vpn_rest_delivery_point_rest_consumer_all_set(0);
    m.reset_authentication_client_cert_content();
    m.reset_authentication_client_cert_password();
    m.reset_authentication_http_basic_password();
    m.reset_authentication_http_basic_username();
    m.reset_authentication_scheme();
    m.reset_enabled();
    m.reset_local_interface();
    m.reset_max_post_wait_time();
    m.reset_msg_vpn_name();
    m.reset_outgoing_connection_count();
    m.reset_remote_host();
    m.reset_remote_port();
    m.reset_rest_consumer_name();
    m.reset_rest_delivery_point_name();
    m.reset_retry_delay();
    m.reset_tls_cipher_suite_list();
    m.reset_tls_enabled();
    assert_eq!(m.authentication_client_cert_content(), None);
    assert_eq!(m.authentication_client_cert_password(), None);
    assert_eq!(m.authentication_http_basic_password(), None);
    assert_eq!(m.authentication_http_basic_username(), None);
    assert_eq!(m.authentication_scheme(), None);
    assert_eq!(m.enabled(), None);
    assert_eq!(m.local_interface(), None);
    assert_eq!(m.max_post_wait_time(), None);
    assert_eq!(m.msg_vpn_name(), None);
    assert_eq!(m.outgoing_connection_count(), None);
    assert_eq!(m.remote_host(), None);
    assert_eq!(m.remote_port(), None);
    assert_eq!(m.rest_consumer_name(), None);
    assert_eq!(m.rest_delivery_point_name(), None);
    assert_eq!(m.retry_delay(), None);
    assert_eq!(m.tls_cipher_suite_list(), None);
    assert_eq!(m.tls_enabled(), None);
}

#[test]
fn msg_vpn_rest_delivery_point_rest_consumer_last_write_wins() {
    let mut m = msg_vpn_rest_delivery_point_rest_consumer_all_set(0);
    m.set_authentication_client_cert_content("authenticationClientCertContent-1".to_string());
    m.set_authentication_client_cert_password("authenticationClientCertPassword-1".to_string());
    m.set_authentication_http_basic_password("authenticationHttpBasicPassword-1".to_string());
    m.set_authentication_http_basic_username("authenticationHttpBasicUsername-1".to_string());
    m.set_authentication_scheme("authenticationScheme-1".to_string());
    m.set_enabled(true);
    m.set_local_interface("localInterface-1".to_string());
    m.set_max_post_wait_time(53);
    m.set_msg_vpn_name("msgVpnName-1".to_string());
    m.set_outgoing_connection_count(67);
    m.set_remote_host("remoteHost-1".to_string());
    m.set_remote_port(11018);
    m.set_rest_consumer_name("restConsumerName-1".to_string());
    m.set_rest_delivery_point_name("restDeliveryPointName-1".to_string());
    m.set_retry_delay(102);
    m.set_tls_cipher_suite_list("tlsCipherSuiteList-1".to_string());
    m.set_tls_enabled(false);
    assert_eq!(m.authentication_client_cert_content(), Some(&"authenticationClientCertContent-1".to_string()));
    assert_eq!(m.authentication_client_cert_password(), Some(&"authenticationClientCertPassword-1".to_string()));
    assert_eq!(m.authentication_http_basic_password(), Some(&"authenticationHttpBasicPassword-1".to_string()));
    assert_eq!(m.authentication_http_basic_username(), Some(&"authenticationHttpBasicUsername-1".to_string()));
    assert_eq!(m.authentication_scheme(), Some(&"authenticationScheme-1".to_string()));
    assert_eq!(m.enabled(), Some(&true));
    assert_eq!(m.local_interface(), Some(&"localInterface-1".to_string()));
    assert_eq!(m.max_post_wait_time(), Some(&53));
    assert_eq!(m.msg_vpn_name(), Some(&"msgVpnName-1".to_string()));
    assert_eq!(m.outgoing_connection_count(), Some(&67));
    assert_eq!(m.remote_host(), Some(&"remoteHost-1".to_string()));
    assert_eq!(m.remote_port(), Some(&11018));
    assert_eq!(m.rest_consumer_name(), Some(&"restConsumerName-1".to_string()));
    assert_eq!(m.rest_delivery_point_name(), Some(&"restDeliveryPointName-1".to_string()));
    assert_eq!(m.retry_delay(), Some(&102));
    assert_eq!(m.tls_cipher_suite_list(), Some(&"tlsCipherSuiteList-1".to_string()));
    assert_eq!(m.tls_enabled(), Some(&false));
}

#[test]
fn msg_vpn_rest_delivery_point_rest_consumer_reset_twice_and_rewrite() {
    let mut m = msg_vpn_rest_delivery_point_rest_consumer_all_set(0);
    m.reset_authentication_client_cert_content();
    m.reset_authentication_client_cert_content();
    m.set_authentication_client_cert_content("authenticationClientCertContent-0".to_string());
    m.set_authentication_client_cert_content("authenticationClientCertContent-0".to_string());
    m.reset_authentication_client_cert_password();
    m.reset_authentication_client_cert_password();
    m.set_authentication_client_cert_password("authenticationClientCertPassword-0".to_string());
    m.set_authentication_client_cert_password("authenticationClientCertPassword-0".to_string());
    m.reset_authentication_http_basic_password();
    m.reset_authentication_http_basic_password();
    m.set_authentication_http_basic_password("authenticationHttpBasicPassword-0".to_string());
    m.set_authentication_http_basic_password("authenticationHttpBasicPassword-0".to_string());
    m.reset_authentication_http_basic_username();
    m.reset_authentication_http_basic_username();
    m.set_authentication_http_basic_username("authenticationHttpBasicUsername-0".to_string());
    m.set_authentication_http_basic_username("authenticationHttpBasicUsername-0".to_string());
    m.reset_authentication_scheme();
    m.reset_authentication_scheme();
    m.set_authentication_scheme("authenticationScheme-0".to_string());
    m.set_authentication_scheme("authenticationScheme-0".to_string());
    m.reset_enabled();
    m.reset_enabled();
    m.set_enabled(false);
    m.set_enabled(false);
    m.reset_local_interface();
    m.reset_local_interface();
    m.set_local_interface("localInterface-0".to_string());
    m.set_local_interface("localInterface-0".to_string());
    m.reset_max_post_wait_time();
    m.reset_max_post_wait_time();
    m.set_max_post_wait_time(52);
    m.set_max_post_wait_time(52);
    m.reset_msg_vpn_name();
    m.reset_msg_vpn_name();
    m.set_msg_vpn_name("msgVpnName-0".to_string());
    m.set_msg_vpn_name("msgVpnName-0".to_string());
    m.reset_outgoing_connection_count();
    m.reset_outgoing_connection_count();
    m.set_outgoing_connection_count(66);
    m.set_outgoing_connection_count(66);
    m.reset_remote_host();
    m.reset_remote_host();
    m.set_remote_host("remoteHost-0".to_string());
    m.set_remote_host("remoteHost-0".to_string());
    m.reset_remote_port();
    m.reset_remote_port();
    m.set_remote_port(11017);
    m.set_remote_port(11017);
    m.reset_rest_consumer_name();
    m.reset_rest_consumer_name();
    m.set_rest_consumer_name("restConsumerName-0".to_string());
    m.set_rest_consumer_name("restConsumerName-0".to_string());
    m.reset_rest_delivery_point_name();
    m.reset_rest_delivery_point_name();
    m.set_rest_delivery_point_name("restDeliveryPointName-0".to_string());
    m.set_rest_delivery_point_name("restDeliveryPointName-0".to_string());
    m.reset_retry_delay();
    m.reset_retry_delay();
    m.set_retry_delay(101);
    m.set_retry_delay(101);
    m.reset_tls_cipher_suite_list();
    m.reset_tls_cipher_suite_list();
    m.set_tls_cipher_suite_list("tlsCipherSuiteList-0".to_string());
    m.set_tls_cipher_suite_list("tlsCipherSuiteList-0".to_string());
    m.reset_tls_enabled();
    m.reset_tls_enabled();
    m.set_tls_enabled(true);
    m.set_tls_enabled(true);
    assert_eq!(m.authentication_client_cert_content(), Some(&"authenticationClientCertContent-0".to_string()));
    assert_eq!(m.authentication_client_cert_password(), Some(&"authenticationClientCertPassword-0".to_string()));
    assert_eq!(m.authentication_http_basic_password(), Some(&"authenticationHttpBasicPassword-0".to_string()));
    assert_eq!(m.authentication_http_basic_username(), Some(&"authenticationHttpBasicUsername-0".to_string()));
    assert_eq!(m.authentication_scheme(), Some(&"authenticationScheme-0".to_string()));
    assert_eq!(m.enabled(), Some(&false));
    assert_eq!(m.local_interface(), Some(&"localInterface-0".to_string()));
    assert_eq!(m.max_post_wait_time(), Some(&52));
    assert_eq!(m.msg_vpn_name(), Some(&"msgVpnName-0".to_string()));
    assert_eq!(m.outgoing_connection_count(), Some(&66));
    assert_eq!(m.remote_host(), Some(&"remoteHost-0".to_string()));
    assert_eq!(m.remote_port(), Some(&11017));
    assert_eq!(m.rest_consumer_name(), Some(&"restConsumerName-0".to_string()));
    assert_eq!(m.rest_delivery_point_name(), Some(&"restDeliveryPointName-0".to_string()));
    assert_eq!(m.retry_delay(), Some(&101));
    assert_eq!(m.tls_cipher_suite_list(), Some(&"tlsCipherSuiteList-0".to_string()));
    assert_eq!(m.tls_enabled(), Some(&true));
}
