use solace_semp_client::models::MsgVpnClientUsername;

fn msg_vpn_client_username_all_set(alt: usize) -> MsgVpnClientUsername {
    let mut m = MsgVpnClientUsername::new();
    if alt == 0 {
        m.set_acl_profile_name("aclProfileName-0".to_string());
        m.set_client_profile_name("clientProfileName-0".to_string());
        m.set_client_username("clientUsername-0".to_string());
        m.set_enabled(false);
        m.set_guaranteed_endpoint_permission_override_enabled(true);
        m.set_msg_vpn_name("msgVpnName-0".to_string());
        m.set_password("password-0".to_string());
        m.set_subscription_manager_enabled(false);
    } else {
        m.set_acl_profile_name("aclProfileName-1".to_string());
        m.set_client_profile_name("clientProfileName-1".to_string());
        m.set_client_username("clientUsername-1".to_string());
        m.set_enabled(true);
        m.set_guaranteed_endpoint_permission_override_enabled(false);
        m.set_msg_vpn_name("msgVpnName-1".to_string());
        m.set_password("password-1".to_string());
        m.set_subscription_manager_enabled(true);
    }
    m
}

#[test]
fn msg_vpn_client_username_new_has_no_attributes() {
    let m = MsgVpnClientUsername::new();
    assert_eq!(m.acl_profile_name(), None);
    assert_eq!(m.client_profile_name(), None);
    assert_eq!(m.client_username(), None);
    assert_eq!(m.enabled(), None);
    assert_eq!(m.guaranteed_endpoint_permission_override_enabled(), None);
    assert_eq!(m.msg_vpn_name(), None);
    assert_eq!(m.password(), None);
    assert_eq!(m.subscription_manager_enabled(), None);
}

#[test]
fn msg_vpn_client_username_set_then_get() {
    let m = msg_vpn_client_username_all_set(0);
    assert_eq!(m.acl_profile_name(), Some(&"aclProfileName-0".to_string()));
    assert_eq!(m.client_profile_name(), Some(&"clientProfileName-0".to_string()));
    assert_eq!(m.client_username(), Some(&"clientUsername-0".to_string()));
    assert_eq!(m.enabled(), Some(&false));
    assert_eq!(m.guaranteed_endpoint_permission_override_enabled(), Some(&true));
    assert_eq!(m.msg_vpn_name(), Some(&"msgVpnName-0".to_string()));
    assert_eq!(m.password(), Some(&"password-0".to_string()));
    assert_eq!(m.subscription_manager_enabled(), Some(&false));
}

#[test]
fn msg_vpn_client_username_with_agrees_with_set() {
    let m = MsgVpnClientUsername::new()
        .with_acl_profile_name("aclProfileName-1".to_string())
        .with_client_profile_name("clientProfileName-1".to_string())
        .with_client_username("clientUsername-1".to_string())
        .with_enabled(true)
        .with_guaranteed_endpoint_permission_override_enabled(false)
        .with_msg_vpn_name("msgVpnName-1".to_string())
        .with_password("password-1".to_string())
        .with_subscription_manager_enabled(true)
        ;
    assert_eq!(m.acl_profile_name(), Some(&"aclProfileName-1".to_string()));
    assert_eq!(m.client_profile_name(), Some(&"clientProfileName-1".to_string()));
    assert_eq!(m.client_username(), Some(&"clientUsername-1".to_string()));
    assert_eq!(m.enabled(), Some(&true));
    assert_eq!(m.guaranteed_endpoint_permission_override_enabled(), Some(&false));
    assert_eq!(m.msg_vpn_name(), Some(&"msgVpnName-1".to_string()));
    assert_eq!(m.password(), Some(&"password-1".to_string()));
    assert_eq!(m.subscription_manager_enabled(), Some(&true));
    let n = msg_vpn_client_username_all_set(1);
    assert_eq!(m.acl_profile_name(), n.acl_profile_name());
    assert_eq!(m.client_profile_name(), n.client_profile_name());
    assert_eq!(m.client_username(), n.client_username());
    assert_eq!(m.enabled(), n.enabled());
    assert_eq!(m.guaranteed_endpoint_permission_override_enabled(), n.guaranteed_endpoint_permission_override_enabled());
    assert_eq!(m.msg_vpn_name(), n.msg_vpn_name());
    assert_eq!(m.password(), n.password());
    assert_eq!(m.subscription_manager_enabled(), n.subscription_manager_enabled());
}

#[test]
fn msg_vpn_client_username_reset_clears_only_its_attribute() {
    let mut m = msg_vpn_client_username_all_set(0);
    m.reset_acl_profile_name();
    assert_eq!(m.acl_profile_name(), None);
    assert_eq!(m.client_profile_name(), Some(&"clientProfileName-0".to_string()));
    assert_eq!(m.client_username(), Some(&"clientUsername-0".to_string()));
    assert_eq!(m.enabled(), Some(&false));
    assert_eq!(m.guaranteed_endpoint_permission_override_enabled(), Some(&true));
    assert_eq!(m.msg_vpn_name(), Some(&"msgVpnName-0".to_string()));
    assert_eq!(m.password(), Some(&"password-0".to_string()));
    assert_eq!(m.subscription_manager_enabled(), Some(&false));
    let mut m = msg_vpn_client_username_all_set(0);
    m.reset_guaranteed_endpoint_permission_override_enabled();
    assert_eq!(m.acl_profile_name(), Some(&"aclProfileName-0".to_string()));
    assert_eq!(m.client_profile_name(), Some(&"clientProfileName-0".to_string()));
    assert_eq!(m.client_username(), Some(&"clientUsername-0".to_string()));
    assert_eq!(m.enabled(), Some(&false));
    assert_eq!(m.guaranteed_endpoint_permission_override_enabled(), None);
    assert_eq!(m.msg_vpn_name(), Some(&"msgVpnName-0".to_string()));
    assert_eq!(m.password(), Some(&"password-0".to_string()));
    assert_eq!(m.subscription_manager_enabled(), Some(&false));
    let mut m = msg_vpn_client_username_all_set(0);
    m.reset_subscription_manager_enabled();
    assert_eq!(m.acl_profile_name(), Some(&"aclProfileName-0".to_string()));
    assert_eq!(m.client_profile_name(), Some(&"clientProfileName-0".to_string()));
    assert_eq!(m.client_username(), Some(&"clientUsername-0".to_string()));
    assert_eq!(m.enabled(), Some(&false));
    assert_eq!(m.guaranteed_endpoint_permission_override_enabled(), Some(&true));
    assert_eq!(m.msg_vpn_name(), Some(&"msgVpnName-0".to_string()));
    assert_eq!(m.password(), Some(&"password-0".to_string()));
    assert_eq!(m.subscription_manager_enabled(), None);
    let mut m = msg_vpn_client_username_all_set(0);
    m.reset_acl_profile_name();
    m.reset_client_profile_name();
    m.reset_client_username();
    m.reset_enabled();
    m.reset_guaranteed_endpoint_permission_override_enabled();
    m.reset_msg_vpn_name();
    m.reset_password();
    m.reset_subscription_manager_enabled();
    assert_eq!(m.acl_profile_name(), None);
    assert_eq!(m.client_profile_name(), None);
    assert_eq!(m.client_username(), None);
    assert_eq!(m.enabled(), None);
    assert_eq!(m.guaranteed_endpoint_permission_override_enabled(), None);
    assert_eq!(m.msg_vpn_name(), None);
    assert_eq!(m.password(), None);
    assert_eq!(m.subscription_manager_enabled(), None);
}

#[test]
fn msg_vpn_client_username_last_write_wins() {
    let mut m = msg_vpn_client_username_all_set(0);
    m.set_acl_profile_name("aclProfileName-1".to_string());
    m.set_client_profile_name("clientProfileName-1".to_string());
    m.set_client_username("clientUsername-1".to_string());
    m.set_enabled(true);
    m.set_guaranteed_endpoint_permission_override_enabled(false);
    m.set_msg_vpn_name("msgVpnName-1".to_string());
    m.set_password("password-1".to_string());
    m.set_subscription_manager_enabled(true);
    assert_eq!(m.acl_profile_name(), Some(&"aclProfileName-1".to_string()));
    assert_eq!(m.client_profile_name(), Some(&"clientProfileName-1".to_string()));
    assert_eq!(m.client_username(), Some(&"clientUsername-1".to_string()));
    assert_eq!(m.enabled(), Some(&true));
    assert_eq!(m.guaranteed_endpoint_permission_override_enabled(), Some(&false));
    assert_eq!(m.msg_vpn_name(), Some(&"msgVpnName-1".to_string()));
    assert_eq!(m.password(), Some(&"password-1".to_string()));
    assert_eq!(m.subscription_manager_enabled(), Some(&true));
}

#[test]
fn msg_vpn_client_username_reset_twice_and_rewrite() {
    let mut m = msg_vpn_client_username_all_set(0);
    m.reset_acl_profile_name();
    m.reset_acl_profile_name();
    m.set_acl_profile_name("aclProfileName-0".to_string());
    m.set_acl_profile_name("aclProfileName-0".to_string());
    m.reset_client_profile_name();
    m.reset_client_profile_name();
    m.set_client_profile_name("clientProfileName-0".to_string());
    m.set_client_profile_name("clientProfileName-0".to_string());
    m.reset_client_username();
    m.reset_client_username();
    m.set_client_username("clientUsername-0".to_string());
    m.set_client_username("clientUsername-0".to_string());
    m.reset_enabled();
    m.reset_enabled();
    m.set_enabled(false);
    m.set_enabled(false);
    m.reset_guaranteed_endpoint_permission_override_enabled();
    m.reset_guaranteed_endpoint_permission_override_enabled();
    m.set_guaranteed_endpoint_permission_override_enabled(true);
    m.set_guaranteed_endpoint_permission_override_enabled(true);
    m.reset_msg_vpn_name();
    m.reset_msg_vpn_name();
    m.set_msg_vpn_name("msgVpnName-0".to_string());
    m.set_msg_vpn_name("msgVpnName-0".to_string());
    m.reset_password();
    m.reset_password();
    m.set_password("password-0".to_string());
    m.set_password("password-0".to_string());
    m.reset_subscription_manager_enabled();
    m.reset_subscription_manager_enabled();
    m.set_subscription_manager_enabled(false);
    m.set_subscription_manager_enabled(false);
    assert_eq!(m.acl_profile_name(), Some(&"aclProfileName-0".to_string()));
    assert_eq!(m.client_profile_name(), Some(&"clientProfileName-0".to_string()));
    assert_eq!(m.client_username(), Some(&"clientUsername-0".to_string()));
    assert_eq!(m.enabled(), Some(&false));
    assert_eq!(m.guaranteed_endpoint_permission_override_enabled(), Some(&true));
    assert_eq!(m.msg_vpn_name(), Some(&"msgVpnName-0".to_string()));
    assert_eq!(m.password(), Some(&"password-0".to_string()));
    assert_eq!(m.subscription_manager_enabled(), Some(&false));
}
