use vstd::prelude::*;
use crate::models::attribute::AttributeValue;

verus! {

/// A Client Username of a Message VPN, with each of its configuration attributes present or absent.
#[derive(Debug)]
pub struct MsgVpnClientUsername {
    /// The ACL Profile of the Client Username. The default value is `"default"`.
    acl_profile_name: Option<String>,
    /// The Client Profile of the Client Username. The default value is `"default"`.
    client_profile_name: Option<String>,
    /// The value of the Client Username.
    client_username: Option<String>,
    /// Enables or disables the Client Username. When disabled all clients currently connected as the Client Username are disconnected. The default value is `false`.
    enabled: Option<bool>,
    /// Enables or disables guaranteed endpoint permission override for the Client Username. When enabled all guaranteed endpoints may be accessed, modified or deleted with the same permission as the owner. The default value is `false`.
    guaranteed_endpoint_permission_override_enabled: Option<bool>,
    /// The name of the Message VPN.
    msg_vpn_name: Option<String>,
    /// The password of this Client Username for internal Authentication. The default is to have no password. The default is to have no `password`.
    password: Option<String>,
    /// Enables or disables the subscription management capability of the Client Username. This is the ability to manage subscriptions on behalf of other Client Usernames. The default value is `false`.
    subscription_manager_enabled: Option<bool>,
}

/// The abstract value of a [`MsgVpnClientUsername`]: each attribute, present with its value or absent.
/// Text attributes are held as sequences of characters.
pub struct MsgVpnClientUsernameView {
    pub acl_profile_name: Option<Seq<char>>,
    pub client_profile_name: Option<Seq<char>>,
    pub client_username: Option<Seq<char>>,
    pub enabled: Option<bool>,
    pub guaranteed_endpoint_permission_override_enabled: Option<bool>,
    pub msg_vpn_name: Option<Seq<char>>,
    pub password: Option<Seq<char>>,
    pub subscription_manager_enabled: Option<bool>,
}

impl MsgVpnClientUsernameView {
    /// The value with every attribute absent.
    pub open spec fn empty() -> MsgVpnClientUsernameView {
        MsgVpnClientUsernameView {
            acl_profile_name: None,
            client_profile_name: None,
            client_username: None,
            enabled: None,
            guaranteed_endpoint_permission_override_enabled: None,
            msg_vpn_name: None,
            password: None,
            subscription_manager_enabled: None,
        }
    }

    /// This value with `aclProfileName` present and equal to `v`.
    pub open spec fn with_acl_profile_name(self, v: Seq<char>) -> MsgVpnClientUsernameView {
        MsgVpnClientUsernameView { acl_profile_name: Some(v), ..self }
    }

    /// This value with `aclProfileName` absent.
    pub open spec fn without_acl_profile_name(self) -> MsgVpnClientUsernameView {
        MsgVpnClientUsernameView { acl_profile_name: None, ..self }
    }

    /// This value with `clientProfileName` present and equal to `v`.
    pub open spec fn with_client_profile_name(self, v: Seq<char>) -> MsgVpnClientUsernameView {
        MsgVpnClientUsernameView { client_profile_name: Some(v), ..self }
    }

    /// This value with `clientProfileName` absent.
    pub open spec fn without_client_profile_name(self) -> MsgVpnClientUsernameView {
        MsgVpnClientUsernameView { client_profile_name: None, ..self }
    }

    /// This value with `clientUsername` present and equal to `v`.
    pub open spec fn with_client_username(self, v: Seq<char>) -> MsgVpnClientUsernameView {
        MsgVpnClientUsernameView { client_username: Some(v), ..self }
    }

    /// This value with `clientUsername` absent.
    pub open spec fn without_client_username(self) -> MsgVpnClientUsernameView {
        MsgVpnClientUsernameView { client_username: None, ..self }
    }

    /// This value with `enabled` present and equal to `v`.
    pub open spec fn with_enabled(self, v: bool) -> MsgVpnClientUsernameView {
        MsgVpnClientUsernameView { enabled: Some(v), ..self }
    }

    /// This value with `enabled` absent.
    pub open spec fn without_enabled(self) -> MsgVpnClientUsernameView {
        MsgVpnClientUsernameView { enabled: None, ..self }
    }

    /// This value with `guaranteedEndpointPermissionOverrideEnabled` present and equal to `v`.
    pub open spec fn with_guaranteed_endpoint_permission_override_enabled(self, v: bool) -> MsgVpnClientUsernameView {
        MsgVpnClientUsernameView { guaranteed_endpoint_permission_override_enabled: Some(v), ..self }
    }

    /// This value with `guaranteedEndpointPermissionOverrideEnabled` absent.
    pub open spec fn without_guaranteed_endpoint_permission_override_enabled(self) -> MsgVpnClientUsernameView {
        MsgVpnClientUsernameView { guaranteed_endpoint_permission_override_enabled: None, ..self }
    }

    /// This value with `msgVpnName` present and equal to `v`.
    pub open spec fn with_msg_vpn_name(self, v: Seq<char>) -> MsgVpnClientUsernameView {
        MsgVpnClientUsernameView { msg_vpn_name: Some(v), ..self }
    }

    /// This value with `msgVpnName` absent.
    pub open spec fn without_msg_vpn_name(self) -> MsgVpnClientUsernameView {
        MsgVpnClientUsernameView { msg_vpn_name: None, ..self }
    }

    /// This value with `password` present and equal to `v`.
    pub open spec fn with_password(self, v: Seq<char>) -> MsgVpnClientUsernameView {
        MsgVpnClientUsernameView { password: Some(v), ..self }
    }

    /// This value with `password` absent.
    pub open spec fn without_password(self) -> MsgVpnClientUsernameView {
        MsgVpnClientUsernameView { password: None, ..self }
    }

    /// This value with `subscriptionManagerEnabled` present and equal to `v`.
    pub open spec fn with_subscription_manager_enabled(self, v: bool) -> MsgVpnClientUsernameView {
        MsgVpnClientUsernameView { subscription_manager_enabled: Some(v), ..self }
    }

    /// This value with `subscriptionManagerEnabled` absent.
    pub open spec fn without_subscription_manager_enabled(self) -> MsgVpnClientUsernameView {
        MsgVpnClientUsernameView { subscription_manager_enabled: None, ..self }
    }
}

impl View for MsgVpnClientUsername {
    type V = MsgVpnClientUsernameView;

    closed spec fn view(&self) -> MsgVpnClientUsernameView {
        MsgVpnClientUsernameView {
            acl_profile_name: self.acl_profile_name.deep_view(),
            client_profile_name: self.client_profile_name.deep_view(),
            client_username: self.client_username.deep_view(),
            enabled: self.enabled.deep_view(),
            guaranteed_endpoint_permission_override_enabled: self.guaranteed_endpoint_permission_override_enabled.deep_view(),
            msg_vpn_name: self.msg_vpn_name.deep_view(),
            password: self.password.deep_view(),
            subscription_manager_enabled: self.subscription_manager_enabled.deep_view(),
        }
    }
}

impl MsgVpnClientUsername {
    /// Returns a value with every attribute absent.
    pub fn new() -> (r: MsgVpnClientUsername)
        ensures
            r@ == MsgVpnClientUsernameView::empty(),
    {
        MsgVpnClientUsername {
            acl_profile_name: None,
            client_profile_name: None,
            client_username: None,
            enabled: None,
            guaranteed_endpoint_permission_override_enabled: None,
            msg_vpn_name: None,
            password: None,
            subscription_manager_enabled: None,
        }
    }

    /// Sets `aclProfileName` to the given value; every other attribute is left as it was.
    pub fn set_acl_profile_name(&mut self, acl_profile_name: String)
        ensures
            final(self)@ == old(self)@.with_acl_profile_name(acl_profile_name@),
    {
        self.acl_profile_name = Some(acl_profile_name);
    }

    /// Returns this value with `aclProfileName` set to the given value.
    pub fn with_acl_profile_name(self, acl_profile_name: String) -> (r: MsgVpnClientUsername)
        ensures
            r@ == self@.with_acl_profile_name(acl_profile_name@),
    {
        let mut r = self;
        r.acl_profile_name = Some(acl_profile_name);
        r
    }

    /// Returns `aclProfileName` if it is present.
    pub fn acl_profile_name(&self) -> (r: Option<&String>)
        ensures
            r.deep_view() == self@.acl_profile_name,
    {
        self.acl_profile_name.as_ref()
    }

    /// Removes `aclProfileName`; every other attribute is left as it was.
    pub fn reset_acl_profile_name(&mut self)
        ensures
            final(self)@ == old(self)@.without_acl_profile_name(),
    {
        self.acl_profile_name = None;
    }

    /// Sets `clientProfileName` to the given value; every other attribute is left as it was.
    pub fn set_client_profile_name(&mut self, client_profile_name: String)
        ensures
            final(self)@ == old(self)@.with_client_profile_name(client_profile_name@),
    {
        self.client_profile_name = Some(client_profile_name);
    }

    /// Returns this value with `clientProfileName` set to the given value.
    pub fn with_client_profile_name(self, client_profile_name: String) -> (r: MsgVpnClientUsername)
        ensures
            r@ == self@.with_client_profile_name(client_profile_name@),
    {
        let mut r = self;
        r.client_profile_name = Some(client_profile_name);
        r
    }

    /// Returns `clientProfileName` if it is present.
    pub fn client_profile_name(&self) -> (r: Option<&String>)
        ensures
            r.deep_view() == self@.client_profile_name,
    {
        self.client_profile_name.as_ref()
    }

    /// Removes `clientProfileName`; every other attribute is left as it was.
    pub fn reset_client_profile_name(&mut self)
        ensures
            final(self)@ == old(self)@.without_client_profile_name(),
    {
        self.client_profile_name = None;
    }

    /// Sets `clientUsername` to the given value; every other attribute is left as it was.
    pub fn set_client_username(&mut self, client_username: String)
        ensures
            final(self)@ == old(self)@.with_client_username(client_username@),
    {
        self.client_username = Some(client_username);
    }

    /// Returns this value with `clientUsername` set to the given value.
    pub fn with_client_username(self, client_username: String) -> (r: MsgVpnClientUsername)
        ensures
            r@ == self@.with_client_username(client_username@),
    {
        let mut r = self;
        r.client_username = Some(client_username);
        r
    }

    /// Returns `clientUsername` if it is present.
    pub fn client_username(&self) -> (r: Option<&String>)
        ensures
            r.deep_view() == self@.client_username,
    {
        self.client_username.as_ref()
    }

    /// Removes `clientUsername`; every other attribute is left as it was.
    pub fn reset_client_username(&mut self)
        ensures
            final(self)@ == old(self)@.without_client_username(),
    {
        self.client_username = None;
    }

    /// Sets `enabled` to the given value; every other attribute is left as it was.
    pub fn set_enabled(&mut self, enabled: bool)
        ensures
            final(self)@ == old(self)@.with_enabled(enabled),
    {
        self.enabled = Some(enabled);
    }

    /// Returns this value with `enabled` set to the given value.
    pub fn with_enabled(self, enabled: bool) -> (r: MsgVpnClientUsername)
        ensures
            r@ == self@.with_enabled(enabled),
    {
        let mut r = self;
        r.enabled = Some(enabled);
        r
    }

    /// Returns `enabled` if it is present.
    pub fn enabled(&self) -> (r: Option<&bool>)
        ensures
            r.deep_view() == self@.enabled,
    {
        self.enabled.as_ref()
    }

    /// Removes `enabled`; every other attribute is left as it was.
    pub fn reset_enabled(&mut self)
        ensures
            final(self)@ == old(self)@.without_enabled(),
    {
        self.enabled = None;
    }

    /// Sets `guaranteedEndpointPermissionOverrideEnabled` to the given value; every other attribute is left as it was.
    pub fn set_guaranteed_endpoint_permission_override_enabled(&mut self, guaranteed_endpoint_permission_override_enabled: bool)
        ensures
            final(self)@ == old(self)@.with_guaranteed_endpoint_permission_override_enabled(guaranteed_endpoint_permission_override_enabled),
    {
        self.guaranteed_endpoint_permission_override_enabled = Some(guaranteed_endpoint_permission_override_enabled);
    }

    /// Returns this value with `guaranteedEndpointPermissionOverrideEnabled` set to the given value.
    pub fn with_guaranteed_endpoint_permission_override_enabled(self, guaranteed_endpoint_permission_override_enabled: bool) -> (r: MsgVpnClientUsername)
        ensures
            r@ == self@.with_guaranteed_endpoint_permission_override_enabled(guaranteed_endpoint_permission_override_enabled),
    {
        let mut r = self;
        r.guaranteed_endpoint_permission_override_enabled = Some(guaranteed_endpoint_permission_override_enabled);
        r
    }

    /// Returns `guaranteedEndpointPermissionOverrideEnabled` if it is present.
    pub fn guaranteed_endpoint_permission_override_enabled(&self) -> (r: Option<&bool>)
        ensures
            r.deep_view() == self@.guaranteed_endpoint_permission_override_enabled,
    {
        self.guaranteed_endpoint_permission_override_enabled.as_ref()
    }

    /// Removes `guaranteedEndpointPermissionOverrideEnabled`; every other attribute is left as it was.
    pub fn reset_guaranteed_endpoint_permission_override_enabled(&mut self)
        ensures
            final(self)@ == old(self)@.without_guaranteed_endpoint_permission_override_enabled(),
    {
        self.guaranteed_endpoint_permission_override_enabled = None;
    }

    /// Sets `msgVpnName` to the given value; every other attribute is left as it was.
    pub fn set_msg_vpn_name(&mut self, msg_vpn_name: String)
        ensures
            final(self)@ == old(self)@.with_msg_vpn_name(msg_vpn_name@),
    {
        self.msg_vpn_name = Some(msg_vpn_name);
    }

    /// Returns this value with `msgVpnName` set to the given value.
    pub fn with_msg_vpn_name(self, msg_vpn_name: String) -> (r: MsgVpnClientUsername)
        ensures
            r@ == self@.with_msg_vpn_name(msg_vpn_name@),
    {
        let mut r = self;
        r.msg_vpn_name = Some(msg_vpn_name);
        r
    }

    /// Returns `msgVpnName` if it is present.
    pub fn msg_vpn_name(&self) -> (r: Option<&String>)
        ensures
            r.deep_view() == self@.msg_vpn_name,
    {
        self.msg_vpn_name.as_ref()
    }

    /// Removes `msgVpnName`; every other attribute is left as it was.
    pub fn reset_msg_vpn_name(&mut self)
        ensures
            final(self)@ == old(self)@.without_msg_vpn_name(),
    {
        self.msg_vpn_name = None;
    }

    /// Sets `password` to the given value; every other attribute is left as it was.
    pub fn set_password(&mut self, password: String)
        ensures
            final(self)@ == old(self)@.with_password(password@),
    {
        self.password = Some(password);
    }

    /// Returns this value with `password` set to the given value.
    pub fn with_password(self, password: String) -> (r: MsgVpnClientUsername)
        ensures
            r@ == self@.with_password(password@),
    {
        let mut r = self;
        r.password = Some(password);
        r
    }

    /// Returns `password` if it is present.
    pub fn password(&self) -> (r: Option<&String>)
        ensures
            r.deep_view() == self@.password,
    {
        self.password.as_ref()
    }

    /// Removes `password`; every other attribute is left as it was.
    pub fn reset_password(&mut self)
        ensures
            final(self)@ == old(self)@.without_password(),
    {
        self.password = None;
    }

    /// Sets `subscriptionManagerEnabled` to the given value; every other attribute is left as it was.
    pub fn set_subscription_manager_enabled(&mut self, subscription_manager_enabled: bool)
        ensures
            final(self)@ == old(self)@.with_subscription_manager_enabled(subscription_manager_enabled),
    {
        self.subscription_manager_enabled = Some(subscription_manager_enabled);
    }

    /// Returns this value with `subscriptionManagerEnabled` set to the given value.
    pub fn with_subscription_manager_enabled(self, subscription_manager_enabled: bool) -> (r: MsgVpnClientUsername)
        ensures
            r@ == self@.with_subscription_manager_enabled(subscription_manager_enabled),
    {
        let mut r = self;
        r.subscription_manager_enabled = Some(subscription_manager_enabled);
        r
    }

    /// Returns `subscriptionManagerEnabled` if it is present.
    pub fn subscription_manager_enabled(&self) -> (r: Option<&bool>)
        ensures
            r.deep_view() == self@.subscription_manager_enabled,
    {
        self.subscription_manager_enabled.as_ref()
    }

    /// Removes `subscriptionManagerEnabled`; every other attribute is left as it was.
    pub fn reset_subscription_manager_enabled(&mut self)
        ensures
            final(self)@ == old(self)@.without_subscription_manager_enabled(),
    {
        self.subscription_manager_enabled = None;
    }
}

/// A freshly made value has no attribute present: every read of a new value gives nothing.
pub proof fn lemma_msg_vpn_client_username_new_is_empty()
    ensures
        MsgVpnClientUsernameView::empty().acl_profile_name is None,
        MsgVpnClientUsernameView::empty().client_profile_name is None,
        MsgVpnClientUsernameView::empty().client_username is None,
        MsgVpnClientUsernameView::empty().enabled is None,
        MsgVpnClientUsernameView::empty().guaranteed_endpoint_permission_override_enabled is None,
        MsgVpnClientUsernameView::empty().msg_vpn_name is None,
        MsgVpnClientUsernameView::empty().password is None,
        MsgVpnClientUsernameView::empty().subscription_manager_enabled is None,
{
}

/// Reading an attribute right after writing it gives the value written,
/// and reading it right after removing it gives nothing.
pub proof fn lemma_msg_vpn_client_username_read_after_write(m: MsgVpnClientUsernameView, text: Seq<char>, flag: bool)
    ensures
        m.with_acl_profile_name(text).acl_profile_name == Some(text) && m.without_acl_profile_name().acl_profile_name is None,
        m.with_client_profile_name(text).client_profile_name == Some(text) && m.without_client_profile_name().client_profile_name is None,
        m.with_client_username(text).client_username == Some(text) && m.without_client_username().client_username is None,
        m.with_enabled(flag).enabled == Some(flag) && m.without_enabled().enabled is None,
        m.with_guaranteed_endpoint_permission_override_enabled(flag).guaranteed_endpoint_permission_override_enabled == Some(flag) && m.without_guaranteed_endpoint_permission_override_enabled().guaranteed_endpoint_permission_override_enabled is None,
        m.with_msg_vpn_name(text).msg_vpn_name == Some(text) && m.without_msg_vpn_name().msg_vpn_name is None,
        m.with_password(text).password == Some(text) && m.without_password().password is None,
        m.with_subscription_manager_enabled(flag).subscription_manager_enabled == Some(flag) && m.without_subscription_manager_enabled().subscription_manager_enabled is None,
{
}

/// Of two writes to the same attribute, the later one wins.
pub proof fn lemma_msg_vpn_client_username_last_write_wins(m: MsgVpnClientUsernameView, text_a: Seq<char>, text_b: Seq<char>, flag_a: bool, flag_b: bool)
    ensures
        m.with_acl_profile_name(text_a).with_acl_profile_name(text_b) == m.with_acl_profile_name(text_b),
        m.with_client_profile_name(text_a).with_client_profile_name(text_b) == m.with_client_profile_name(text_b),
        m.with_client_username(text_a).with_client_username(text_b) == m.with_client_username(text_b),
        m.with_enabled(flag_a).with_enabled(flag_b) == m.with_enabled(flag_b),
        m.with_guaranteed_endpoint_permission_override_enabled(flag_a).with_guaranteed_endpoint_permission_override_enabled(flag_b) == m.with_guaranteed_endpoint_permission_override_enabled(flag_b),
        m.with_msg_vpn_name(text_a).with_msg_vpn_name(text_b) == m.with_msg_vpn_name(text_b),
        m.with_password(text_a).with_password(text_b) == m.with_password(text_b),
        m.with_subscription_manager_enabled(flag_a).with_subscription_manager_enabled(flag_b) == m.with_subscription_manager_enabled(flag_b),
{
}

/// Writing an attribute changes no other attribute: once that attribute is removed again,
/// the result is the starting value with that attribute removed.
pub proof fn lemma_msg_vpn_client_username_write_touches_one_attribute(m: MsgVpnClientUsernameView, text: Seq<char>, flag: bool)
    ensures
        m.with_acl_profile_name(text).without_acl_profile_name() == m.without_acl_profile_name(),
        m.with_client_profile_name(text).without_client_profile_name() == m.without_client_profile_name(),
        m.with_client_username(text).without_client_username() == m.without_client_username(),
        m.with_enabled(flag).without_enabled() == m.without_enabled(),
        m.with_guaranteed_endpoint_permission_override_enabled(flag).without_guaranteed_endpoint_permission_override_enabled() == m.without_guaranteed_endpoint_permission_override_enabled(),
        m.with_msg_vpn_name(text).without_msg_vpn_name() == m.without_msg_vpn_name(),
        m.with_password(text).without_password() == m.without_password(),
        m.with_subscription_manager_enabled(flag).without_subscription_manager_enabled() == m.without_subscription_manager_enabled(),
{
}

/// Removing an attribute that was absent before a write undoes that write.
pub proof fn lemma_msg_vpn_client_username_reset_undoes_write(m: MsgVpnClientUsernameView, text: Seq<char>, flag: bool)
    ensures
        m.acl_profile_name is None ==> m.with_acl_profile_name(text).without_acl_profile_name() == m,
        m.client_profile_name is None ==> m.with_client_profile_name(text).without_client_profile_name() == m,
        m.client_username is None ==> m.with_client_username(text).without_client_username() == m,
        m.enabled is None ==> m.with_enabled(flag).without_enabled() == m,
        m.guaranteed_endpoint_permission_override_enabled is None ==> m.with_guaranteed_endpoint_permission_override_enabled(flag).without_guaranteed_endpoint_permission_override_enabled() == m,
        m.msg_vpn_name is None ==> m.with_msg_vpn_name(text).without_msg_vpn_name() == m,
        m.password is None ==> m.with_password(text).without_password() == m,
        m.subscription_manager_enabled is None ==> m.with_subscription_manager_enabled(flag).without_subscription_manager_enabled() == m,
{
}

/// Removing an attribute twice is the same as removing it once, and removing an absent
/// attribute changes nothing.
pub proof fn lemma_msg_vpn_client_username_reset_idempotent(m: MsgVpnClientUsernameView)
    ensures
        m.without_acl_profile_name().without_acl_profile_name() == m.without_acl_profile_name() && (m.acl_profile_name is None ==> m.without_acl_profile_name() == m),
        m.without_client_profile_name().without_client_profile_name() == m.without_client_profile_name() && (m.client_profile_name is None ==> m.without_client_profile_name() == m),
        m.without_client_username().without_client_username() == m.without_client_username() && (m.client_username is None ==> m.without_client_username() == m),
        m.without_enabled().without_enabled() == m.without_enabled() && (m.enabled is None ==> m.without_enabled() == m),
        m.without_guaranteed_endpoint_permission_override_enabled().without_guaranteed_endpoint_permission_override_enabled() == m.without_guaranteed_endpoint_permission_override_enabled() && (m.guaranteed_endpoint_permission_override_enabled is None ==> m.without_guaranteed_endpoint_permission_override_enabled() == m),
        m.without_msg_vpn_name().without_msg_vpn_name() == m.without_msg_vpn_name() && (m.msg_vpn_name is None ==> m.without_msg_vpn_name() == m),
        m.without_password().without_password() == m.without_password() && (m.password is None ==> m.without_password() == m),
        m.without_subscription_manager_enabled().without_subscription_manager_enabled() == m.without_subscription_manager_enabled() && (m.subscription_manager_enabled is None ==> m.without_subscription_manager_enabled() == m),
{
}

/// Writing the value an attribute already holds changes nothing.
pub proof fn lemma_msg_vpn_client_username_rewrite_is_no_op(m: MsgVpnClientUsernameView, text: Seq<char>, flag: bool)
    ensures
        m.acl_profile_name == Some(text) ==> m.with_acl_profile_name(text) == m,
        m.client_profile_name == Some(text) ==> m.with_client_profile_name(text) == m,
        m.client_username == Some(text) ==> m.with_client_username(text) == m,
        m.enabled == Some(flag) ==> m.with_enabled(flag) == m,
        m.guaranteed_endpoint_permission_override_enabled == Some(flag) ==> m.with_guaranteed_endpoint_permission_override_enabled(flag) == m,
        m.msg_vpn_name == Some(text) ==> m.with_msg_vpn_name(text) == m,
        m.password == Some(text) ==> m.with_password(text) == m,
        m.subscription_manager_enabled == Some(flag) ==> m.with_subscription_manager_enabled(flag) == m,
{
}

/// The name of one attribute of a [`MsgVpnClientUsername`].
pub enum MsgVpnClientUsernameAttribute {
    /// `aclProfileName`
    AclProfileName,
    /// `clientProfileName`
    ClientProfileName,
    /// `clientUsername`
    ClientUsername,
    /// `enabled`
    Enabled,
    /// `guaranteedEndpointPermissionOverrideEnabled`
    GuaranteedEndpointPermissionOverrideEnabled,
    /// `msgVpnName`
    MsgVpnName,
    /// `password`
    Password,
    /// `subscriptionManagerEnabled`
    SubscriptionManagerEnabled,
}

impl MsgVpnClientUsernameView {
    /// The value of the named attribute, present or absent.
    pub open spec fn attribute(self, a: MsgVpnClientUsernameAttribute) -> AttributeValue {
        match a {
            MsgVpnClientUsernameAttribute::AclProfileName => AttributeValue::Text(self.acl_profile_name),
            MsgVpnClientUsernameAttribute::ClientProfileName => AttributeValue::Text(self.client_profile_name),
            MsgVpnClientUsernameAttribute::ClientUsername => AttributeValue::Text(self.client_username),
            MsgVpnClientUsernameAttribute::Enabled => AttributeValue::Flag(self.enabled),
            MsgVpnClientUsernameAttribute::GuaranteedEndpointPermissionOverrideEnabled => AttributeValue::Flag(self.guaranteed_endpoint_permission_override_enabled),
            MsgVpnClientUsernameAttribute::MsgVpnName => AttributeValue::Text(self.msg_vpn_name),
            MsgVpnClientUsernameAttribute::Password => AttributeValue::Text(self.password),
            MsgVpnClientUsernameAttribute::SubscriptionManagerEnabled => AttributeValue::Flag(self.subscription_manager_enabled),
        }
    }
}

/// Writing an attribute gives it the value written and leaves every other attribute
/// exactly as it was.
#[verifier::rlimit(100)]
pub proof fn lemma_msg_vpn_client_username_write_changes_only_its_attribute(m: MsgVpnClientUsernameView, text: Seq<char>, flag: bool)
    ensures
        m.with_acl_profile_name(text).attribute(MsgVpnClientUsernameAttribute::AclProfileName) == AttributeValue::Text(Some(text)),
        forall|a: MsgVpnClientUsernameAttribute| a != MsgVpnClientUsernameAttribute::AclProfileName ==> #[trigger] m.with_acl_profile_name(text).attribute(a) == m.attribute(a),
        m.with_client_profile_name(text).attribute(MsgVpnClientUsernameAttribute::ClientProfileName) == AttributeValue::Text(Some(text)),
        forall|a: MsgVpnClientUsernameAttribute| a != MsgVpnClientUsernameAttribute::ClientProfileName ==> #[trigger] m.with_client_profile_name(text).attribute(a) == m.attribute(a),
        m.with_client_username(text).attribute(MsgVpnClientUsernameAttribute::ClientUsername) == AttributeValue::Text(Some(text)),
        forall|a: MsgVpnClientUsernameAttribute| a != MsgVpnClientUsernameAttribute::ClientUsername ==> #[trigger] m.with_client_username(text).attribute(a) == m.attribute(a),
        m.with_enabled(flag).attribute(MsgVpnClientUsernameAttribute::Enabled) == AttributeValue::Flag(Some(flag)),
        forall|a: MsgVpnClientUsernameAttribute| a != MsgVpnClientUsernameAttribute::Enabled ==> #[trigger] m.with_enabled(flag).attribute(a) == m.attribute(a),
        m.with_guaranteed_endpoint_permission_override_enabled(flag).attribute(MsgVpnClientUsernameAttribute::GuaranteedEndpointPermissionOverrideEnabled) == AttributeValue::Flag(Some(flag)),
        forall|a: MsgVpnClientUsernameAttribute| a != MsgVpnClientUsernameAttribute::GuaranteedEndpointPermissionOverrideEnabled ==> #[trigger] m.with_guaranteed_endpoint_permission_override_enabled(flag).attribute(a) == m.attribute(a),
        m.with_msg_vpn_name(text).attribute(MsgVpnClientUsernameAttribute::MsgVpnName) == AttributeValue::Text(Some(text)),
        forall|a: MsgVpnClientUsernameAttribute| a != MsgVpnClientUsernameAttribute::MsgVpnName ==> #[trigger] m.with_msg_vpn_name(text).attribute(a) == m.attribute(a),
        m.with_password(text).attribute(MsgVpnClientUsernameAttribute::Password) == AttributeValue::Text(Some(text)),
        forall|a: MsgVpnClientUsernameAttribute| a != MsgVpnClientUsernameAttribute::Password ==> #[trigger] m.with_password(text).attribute(a) == m.attribute(a),
        m.with_subscription_manager_enabled(flag).attribute(MsgVpnClientUsernameAttribute::SubscriptionManagerEnabled) == AttributeValue::Flag(Some(flag)),
        forall|a: MsgVpnClientUsernameAttribute| a != MsgVpnClientUsernameAttribute::SubscriptionManagerEnabled ==> #[trigger] m.with_subscription_manager_enabled(flag).attribute(a) == m.attribute(a),
{
}

/// Removing an attribute makes it absent and leaves every other attribute exactly as it was.
#[verifier::rlimit(100)]
pub proof fn lemma_msg_vpn_client_username_reset_changes_only_its_attribute(m: MsgVpnClientUsernameView)
    ensures
        m.without_acl_profile_name().attribute(MsgVpnClientUsernameAttribute::AclProfileName) == AttributeValue::Text(None),
        forall|a: MsgVpnClientUsernameAttribute| a != MsgVpnClientUsernameAttribute::AclProfileName ==> #[trigger] m.without_acl_profile_name().attribute(a) == m.attribute(a),
        m.without_client_profile_name().attribute(MsgVpnClientUsernameAttribute::ClientProfileName) == AttributeValue::Text(None),
        forall|a: MsgVpnClientUsernameAttribute| a != MsgVpnClientUsernameAttribute::ClientProfileName ==> #[trigger] m.without_client_profile_name().attribute(a) == m.attribute(a),
        m.without_client_username().attribute(MsgVpnClientUsernameAttribute::ClientUsername) == AttributeValue::Text(None),
        forall|a: MsgVpnClientUsernameAttribute| a != MsgVpnClientUsernameAttribute::ClientUsername ==> #[trigger] m.without_client_username().attribute(a) == m.attribute(a),
        m.without_enabled().attribute(MsgVpnClientUsernameAttribute::Enabled) == AttributeValue::Flag(None),
        forall|a: MsgVpnClientUsernameAttribute| a != MsgVpnClientUsernameAttribute::Enabled ==> #[trigger] m.without_enabled().attribute(a) == m.attribute(a),
        m.without_guaranteed_endpoint_permission_override_enabled().attribute(MsgVpnClientUsernameAttribute::GuaranteedEndpointPermissionOverrideEnabled) == AttributeValue::Flag(None),
        forall|a: MsgVpnClientUsernameAttribute| a != MsgVpnClientUsernameAttribute::GuaranteedEndpointPermissionOverrideEnabled ==> #[trigger] m.without_guaranteed_endpoint_permission_override_enabled().attribute(a) == m.attribute(a),
        m.without_msg_vpn_name().attribute(MsgVpnClientUsernameAttribute::MsgVpnName) == AttributeValue::Text(None),
        forall|a: MsgVpnClientUsernameAttribute| a != MsgVpnClientUsernameAttribute::MsgVpnName ==> #[trigger] m.without_msg_vpn_name().attribute(a) == m.attribute(a),
        m.without_password().attribute(MsgVpnClientUsernameAttribute::Password) == AttributeValue::Text(None),
        forall|a: MsgVpnClientUsernameAttribute| a != MsgVpnClientUsernameAttribute::Password ==> #[trigger] m.without_password().attribute(a) == m.attribute(a),
        m.without_subscription_manager_enabled().attribute(MsgVpnClientUsernameAttribute::SubscriptionManagerEnabled) == AttributeValue::Flag(None),
        forall|a: MsgVpnClientUsernameAttribute| a != MsgVpnClientUsernameAttribute::SubscriptionManagerEnabled ==> #[trigger] m.without_subscription_manager_enabled().attribute(a) == m.attribute(a),
{
}

} // verus!
