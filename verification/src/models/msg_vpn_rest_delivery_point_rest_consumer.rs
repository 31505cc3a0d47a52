use vstd::prelude::*;
use crate::models::attribute::AttributeValue;

verus! {

/// A REST Consumer of a REST Delivery Point, with each of its configuration attributes present or absent.
#[derive(Debug)]
pub struct MsgVpnRestDeliveryPointRestConsumer {
    /// The PEM formatted content for the client certificate that the REST Consumer will present to the REST host. It must consist of a private key and between one and three certificates comprising the certificate trust chain. The default value is `""`. Available since 2.9.
    authentication_client_cert_content: Option<String>,
    /// The password for the client certificate that the REST Consumer will present to the REST host. The default value is `""`. Available since 2.9.
    authentication_client_cert_password: Option<String>,
    /// The password that the REST Consumer will use to login to the REST host. The default value is `""`.
    authentication_http_basic_password: Option<String>,
    /// The username that the REST Consumer will use to login to the REST host. Normally a username is only configured when basic authentication is selected for the REST Consumer. The default value is `""`.
    authentication_http_basic_username: Option<String>,
    /// The authentication scheme used by the REST Consumer to login to the REST host. The default value is `"none"`. The allowed values and their meaning are:  <pre> "none" - Login with no authentication. This may be useful for anonymous connections or when a REST Consumer does not require authentication. "http-basic" - Login with a username and optional password according to HTTP Basic authentication as per RFC2616. "client-certificate" - Login with a client TLS certificate as per RFC5246. Client certificate authentication is only available on TLS connections. </pre>
    authentication_scheme: Option<String>,
    /// Enable or disable the REST Consumer. When disabled, no connections are initiated or messages delivered to this particular REST Consumer. The default value is `false`.
    enabled: Option<bool>,
    /// The interface that will be used for all outgoing connections associated with the REST Consumer. When unspecified, an interface is automatically chosen. The default value is `""`.
    local_interface: Option<String>,
    /// The maximum amount of time (in seconds) to wait for an HTTP POST response from the REST Consumer. Once this time is exceeded, the TCP connection is reset. If the POST request is for a direct message, then the message is discarded. If for a persistent message, then message redelivery is attempted on another available outgoing connection for the REST Delivery Point. The default value is `30`.
    max_post_wait_time: Option<i32>,
    /// The name of the Message VPN.
    msg_vpn_name: Option<String>,
    /// The total number of concurrent TCP connections open to the REST Consumer. Multiple connections to a single REST Consumer increase throughput via concurrency. The default value is `3`.
    outgoing_connection_count: Option<i32>,
    /// The IP address or DNS name to which the router is to connect to deliver messages for this REST Consumer. If the REST Consumer is enabled while the host value is not configured then the REST Consumer has an operational Down state due to the empty host configuration until a usable host value is configured. The default value is `""`.
    remote_host: Option<String>,
    /// The port associated with the host of the REST Consumer. The port can only be changed when the REST Consumer is disabled. The default value is `8080`.
    remote_port: Option<i64>,
    /// The name of the REST Consumer.
    rest_consumer_name: Option<String>,
    /// The name of the REST Delivery Point.
    rest_delivery_point_name: Option<String>,
    /// The number of seconds that must pass before retrying the remote REST Consumer connection. The default value is `3`.
    retry_delay: Option<i32>,
    /// The colon-separated list of cipher-suites the REST Consumer uses in its encrypted connection. All supported suites are included by default, from most-secure to least-secure. The REST Consumer should choose the first suite from this list that it supports. The cipher-suite list can only be changed when the REST Consumer is disabled. The default value is `"default"`.
    tls_cipher_suite_list: Option<String>,
    /// Enable or disable TLS for the REST Consumer. This may only be done when the REST Consumer is disabled. The default value is `false`.
    tls_enabled: Option<bool>,
}

/// The abstract value of a [`MsgVpnRestDeliveryPointRestConsumer`]: each attribute, present with its value or absent.
/// Text attributes are held as sequences of characters.
pub struct MsgVpnRestDeliveryPointRestConsumerView {
    pub authentication_client_cert_content: Option<Seq<char>>,
    pub authentication_client_cert_password: Option<Seq<char>>,
    pub authentication_http_basic_password: Option<Seq<char>>,
    pub authentication_http_basic_username: Option<Seq<char>>,
    pub authentication_scheme: Option<Seq<char>>,
    pub enabled: Option<bool>,
    pub local_interface: Option<Seq<char>>,
    pub max_post_wait_time: Option<i32>,
    pub msg_vpn_name: Option<Seq<char>>,
    pub outgoing_connection_count: Option<i32>,
    pub remote_host: Option<Seq<char>>,
    pub remote_port: Option<i64>,
    pub rest_consumer_name: Option<Seq<char>>,
    pub rest_delivery_point_name: Option<Seq<char>>,
    pub retry_delay: Option<i32>,
    pub tls_cipher_suite_list: Option<Seq<char>>,
    pub tls_enabled: Option<bool>,
}

impl MsgVpnRestDeliveryPointRestConsumerView {
    /// The value with every attribute absent.
    pub open spec fn empty() -> MsgVpnRestDeliveryPointRestConsumerView {
        MsgVpnRestDeliveryPointRestConsumerView {
            authentication_client_cert_content: None,
            authentication_client_cert_password: None,
            authentication_http_basic_password: None,
            authentication_http_basic_username: None,
            authentication_scheme: None,
            enabled: None,
            local_interface: None,
            max_post_wait_time: None,
            msg_vpn_name: None,
            outgoing_connection_count: None,
            remote_host: None,
            remote_port: None,
            rest_consumer_name: None,
            rest_delivery_point_name: None,
            retry_delay: None,
            tls_cipher_suite_list: None,
            tls_enabled: None,
        }
    }

    /// This value with `authenticationClientCertContent` present and equal to `v`.
    pub open spec fn with_authentication_client_cert_content(self, v: Seq<char>) -> MsgVpnRestDeliveryPointRestConsumerView {
        MsgVpnRestDeliveryPointRestConsumerView { authentication_client_cert_content: Some(v), ..self }
    }

    /// This value with `authenticationClientCertContent` absent.
    pub open spec fn without_authentication_client_cert_content(self) -> MsgVpnRestDeliveryPointRestConsumerView {
        MsgVpnRestDeliveryPointRestConsumerView { authentication_client_cert_content: None, ..self }
    }

    /// This value with `authenticationClientCertPassword` present and equal to `v`.
    pub open spec fn with_authentication_client_cert_password(self, v: Seq<char>) -> MsgVpnRestDeliveryPointRestConsumerView {
        MsgVpnRestDeliveryPointRestConsumerView { authentication_client_cert_password: Some(v), ..self }
    }

    /// This value with `authenticationClientCertPassword` absent.
    pub open spec fn without_authentication_client_cert_password(self) -> MsgVpnRestDeliveryPointRestConsumerView {
        MsgVpnRestDeliveryPointRestConsumerView { authentication_client_cert_password: None, ..self }
    }

    /// This value with `authenticationHttpBasicPassword` present and equal to `v`.
    pub open spec fn with_authentication_http_basic_password(self, v: Seq<char>) -> MsgVpnRestDeliveryPointRestConsumerView {
        MsgVpnRestDeliveryPointRestConsumerView { authentication_http_basic_password: Some(v), ..self }
    }

    /// This value with `authenticationHttpBasicPassword` absent.
    pub open spec fn without_authentication_http_basic_password(self) -> MsgVpnRestDeliveryPointRestConsumerView {
        MsgVpnRestDeliveryPointRestConsumerView { authentication_http_basic_password: None, ..self }
    }

    /// This value with `authenticationHttpBasicUsername` present and equal to `v`.
    pub open spec fn with_authentication_http_basic_username(self, v: Seq<char>) -> MsgVpnRestDeliveryPointRestConsumerView {
        MsgVpnRestDeliveryPointRestConsumerView { authentication_http_basic_username: Some(v), ..self }
    }

    /// This value with `authenticationHttpBasicUsername` absent.
    pub open spec fn without_authentication_http_basic_username(self) -> MsgVpnRestDeliveryPointRestConsumerView {
        MsgVpnRestDeliveryPointRestConsumerView { authentication_http_basic_username: None, ..self }
    }

    /// This value with `authenticationScheme` present and equal to `v`.
    pub open spec fn with_authentication_scheme(self, v: Seq<char>) -> MsgVpnRestDeliveryPointRestConsumerView {
        MsgVpnRestDeliveryPointRestConsumerView { authentication_scheme: Some(v), ..self }
    }

    /// This value with `authenticationScheme` absent.
    pub open spec fn without_authentication_scheme(self) -> MsgVpnRestDeliveryPointRestConsumerView {
        MsgVpnRestDeliveryPointRestConsumerView { authentication_scheme: None, ..self }
    }

    /// This value with `enabled` present and equal to `v`.
    pub open spec fn with_enabled(self, v: bool) -> MsgVpnRestDeliveryPointRestConsumerView {
        MsgVpnRestDeliveryPointRestConsumerView { enabled: Some(v), ..self }
    }

    /// This value with `enabled` absent.
    pub open spec fn without_enabled(self) -> MsgVpnRestDeliveryPointRestConsumerView {
        MsgVpnRestDeliveryPointRestConsumerView { enabled: None, ..self }
    }

    /// This value with `localInterface` present and equal to `v`.
    pub open spec fn with_local_interface(self, v: Seq<char>) -> MsgVpnRestDeliveryPointRestConsumerView {
        MsgVpnRestDeliveryPointRestConsumerView { local_interface: Some(v), ..self }
    }

    /// This value with `localInterface` absent.
    pub open spec fn without_local_interface(self) -> MsgVpnRestDeliveryPointRestConsumerView {
        MsgVpnRestDeliveryPointRestConsumerView { local_interface: None, ..self }
    }

    /// This value with `maxPostWaitTime` present and equal to `v`.
    pub open spec fn with_max_post_wait_time(self, v: i32) -> MsgVpnRestDeliveryPointRestConsumerView {
        MsgVpnRestDeliveryPointRestConsumerView { max_post_wait_time: Some(v), ..self }
    }

    /// This value with `maxPostWaitTime` absent.
    pub open spec fn without_max_post_wait_time(self) -> MsgVpnRestDeliveryPointRestConsumerView {
        MsgVpnRestDeliveryPointRestConsumerView { max_post_wait_time: None, ..self }
    }

    /// This value with `msgVpnName` present and equal to `v`.
    pub open spec fn with_msg_vpn_name(self, v: Seq<char>) -> MsgVpnRestDeliveryPointRestConsumerView {
        MsgVpnRestDeliveryPointRestConsumerView { msg_vpn_name: Some(v), ..self }
    }

    /// This value with `msgVpnName` absent.
    pub open spec fn without_msg_vpn_name(self) -> MsgVpnRestDeliveryPointRestConsumerView {
        MsgVpnRestDeliveryPointRestConsumerView { msg_vpn_name: None, ..self }
    }

    /// This value with `outgoingConnectionCount` present and equal to `v`.
    pub open spec fn with_outgoing_connection_count(self, v: i32) -> MsgVpnRestDeliveryPointRestConsumerView {
        MsgVpnRestDeliveryPointRestConsumerView { outgoing_connection_count: Some(v), ..self }
    }

    /// This value with `outgoingConnectionCount` absent.
    pub open spec fn without_outgoing_connection_count(self) -> MsgVpnRestDeliveryPointRestConsumerView {
        MsgVpnRestDeliveryPointRestConsumerView { outgoing_connection_count: None, ..self }
    }

    /// This value with `remoteHost` present and equal to `v`.
    pub open spec fn with_remote_host(self, v: Seq<char>) -> MsgVpnRestDeliveryPointRestConsumerView {
        MsgVpnRestDeliveryPointRestConsumerView { remote_host: Some(v), ..self }
    }

    /// This value with `remoteHost` absent.
    pub open spec fn without_remote_host(self) -> MsgVpnRestDeliveryPointRestConsumerView {
        MsgVpnRestDeliveryPointRestConsumerView { remote_host: None, ..self }
    }

    /// This value with `remotePort` present and equal to `v`.
    pub open spec fn with_remote_port(self, v: i64) -> MsgVpnRestDeliveryPointRestConsumerView {
        MsgVpnRestDeliveryPointRestConsumerView { remote_port: Some(v), ..self }
    }

    /// This value with `remotePort` absent.
    pub open spec fn without_remote_port(self) -> MsgVpnRestDeliveryPointRestConsumerView {
        MsgVpnRestDeliveryPointRestConsumerView { remote_port: None, ..self }
    }

    /// This value with `restConsumerName` present and equal to `v`.
    pub open spec fn with_rest_consumer_name(self, v: Seq<char>) -> MsgVpnRestDeliveryPointRestConsumerView {
        MsgVpnRestDeliveryPointRestConsumerView { rest_consumer_name: Some(v), ..self }
    }

    /// This value with `restConsumerName` absent.
    pub open spec fn without_rest_consumer_name(self) -> MsgVpnRestDeliveryPointRestConsumerView {
        MsgVpnRestDeliveryPointRestConsumerView { rest_consumer_name: None, ..self }
    }

    /// This value with `restDeliveryPointName` present and equal to `v`.
    pub open spec fn with_rest_delivery_point_name(self, v: Seq<char>) -> MsgVpnRestDeliveryPointRestConsumerView {
        MsgVpnRestDeliveryPointRestConsumerView { rest_delivery_point_name: Some(v), ..self }
    }

    /// This value with `restDeliveryPointName` absent.
    pub open spec fn without_rest_delivery_point_name(self) -> MsgVpnRestDeliveryPointRestConsumerView {
        MsgVpnRestDeliveryPointRestConsumerView { rest_delivery_point_name: None, ..self }
    }

    /// This value with `retryDelay` present and equal to `v`.
    pub open spec fn with_retry_delay(self, v: i32) -> MsgVpnRestDeliveryPointRestConsumerView {
        MsgVpnRestDeliveryPointRestConsumerView { retry_delay: Some(v), ..self }
    }

    /// This value with `retryDelay` absent.
    pub open spec fn without_retry_delay(self) -> MsgVpnRestDeliveryPointRestConsumerView {
        MsgVpnRestDeliveryPointRestConsumerView { retry_delay: None, ..self }
    }

    /// This value with `tlsCipherSuiteList` present and equal to `v`.
    pub open spec fn with_tls_cipher_suite_list(self, v: Seq<char>) -> MsgVpnRestDeliveryPointRestConsumerView {
        MsgVpnRestDeliveryPointRestConsumerView { tls_cipher_suite_list: Some(v), ..self }
    }

    /// This value with `tlsCipherSuiteList` absent.
    pub open spec fn without_tls_cipher_suite_list(self) -> MsgVpnRestDeliveryPointRestConsumerView {
        MsgVpnRestDeliveryPointRestConsumerView { tls_cipher_suite_list: None, ..self }
    }

    /// This value with `tlsEnabled` present and equal to `v`.
    pub open spec fn with_tls_enabled(self, v: bool) -> MsgVpnRestDeliveryPointRestConsumerView {
        MsgVpnRestDeliveryPointRestConsumerView { tls_enabled: Some(v), ..self }
    }

    /// This value with `tlsEnabled` absent.
    pub open spec fn without_tls_enabled(self) -> MsgVpnRestDeliveryPointRestConsumerView {
        MsgVpnRestDeliveryPointRestConsumerView { tls_enabled: None, ..self }
    }
}

impl View for MsgVpnRestDeliveryPointRestConsumer {
    type V = MsgVpnRestDeliveryPointRestConsumerView;

    closed spec fn view(&self) -> MsgVpnRestDeliveryPointRestConsumerView {
        MsgVpnRestDeliveryPointRestConsumerView {
            authentication_client_cert_content: self.authentication_client_cert_content.deep_view(),
            authentication_client_cert_password: self.authentication_client_cert_password.deep_view(),
            authentication_http_basic_password: self.authentication_http_basic_password.deep_view(),
            authentication_http_basic_username: self.authentication_http_basic_username.deep_view(),
            authentication_scheme: self.authentication_scheme.deep_view(),
            enabled: self.enabled.deep_view(),
            local_interface: self.local_interface.deep_view(),
            max_post_wait_time: self.max_post_wait_time.deep_view(),
            msg_vpn_name: self.msg_vpn_name.deep_view(),
            outgoing_connection_count: self.outgoing_connection_count.deep_view(),
            remote_host: self.remote_host.deep_view(),
            remote_port: self.remote_port.deep_view(),
            rest_consumer_name: self.rest_consumer_name.deep_view(),
            rest_delivery_point_name: self.rest_delivery_point_name.deep_view(),
            retry_delay: self.retry_delay.deep_view(),
            tls_cipher_suite_list: self.tls_cipher_suite_list.deep_view(),
            tls_enabled: self.tls_enabled.deep_view(),
        }
    }
}

impl MsgVpnRestDeliveryPointRestConsumer {
    /// Returns a value with every attribute absent.
    pub fn new() -> (r: MsgVpnRestDeliveryPointRestConsumer)
        ensures
            r@ == MsgVpnRestDeliveryPointRestConsumerView::empty(),
    {
        MsgVpnRestDeliveryPointRestConsumer {
            authentication_client_cert_content: None,
            authentication_client_cert_password: None,
            authentication_http_basic_password: None,
            authentication_http_basic_username: None,
            authentication_scheme: None,
            enabled: None,
            local_interface: None,
            max_post_wait_time: None,
            msg_vpn_name: None,
            outgoing_connection_count: None,
            remote_host: None,
            remote_port: None,
            rest_consumer_name: None,
            rest_delivery_point_name: None,
            retry_delay: None,
            tls_cipher_suite_list: None,
            tls_enabled: None,
        }
    }

    /// Sets `authenticationClientCertContent` to the given value; every other attribute is left as it was.
    pub fn set_authentication_client_cert_content(&mut self, authentication_client_cert_content: String)
        ensures
            final(self)@ == old(self)@.with_authentication_client_cert_content(authentication_client_cert_content@),
    {
        self.authentication_client_cert_content = Some(authentication_client_cert_content);
    }

    /// Returns this value with `authenticationClientCertContent` set to the given value.
    pub fn with_authentication_client_cert_content(self, authentication_client_cert_content: String) -> (r: MsgVpnRestDeliveryPointRestConsumer)
        ensures
            r@ == self@.with_authentication_client_cert_content(authentication_client_cert_content@),
    {
        let mut r = self;
        r.authentication_client_cert_content = Some(authentication_client_cert_content);
        r
    }

    /// Returns `authenticationClientCertContent` if it is present.
    pub fn authentication_client_cert_content(&self) -> (r: Option<&String>)
        ensures
            r.deep_view() == self@.authentication_client_cert_content,
    {
        self.authentication_client_cert_content.as_ref()
    }

    /// Removes `authenticationClientCertContent`; every other attribute is left as it was.
    pub fn reset_authentication_client_cert_content(&mut self)
        ensures
            final(self)@ == old(self)@.without_authentication_client_cert_content(),
    {
        self.authentication_client_cert_content = None;
    }

    /// Sets `authenticationClientCertPassword` to the given value; every other attribute is left as it was.
    pub fn set_authentication_client_cert_password(&mut self, authentication_client_cert_password: String)
        ensures
            final(self)@ == old(self)@.with_authentication_client_cert_password(authentication_client_cert_password@),
    {
        self.authentication_client_cert_password = Some(authentication_client_cert_password);
    }

    /// Returns this value with `authenticationClientCertPassword` set to the given value.
    pub fn with_authentication_client_cert_password(self, authentication_client_cert_password: String) -> (r: MsgVpnRestDeliveryPointRestConsumer)
        ensures
            r@ == self@.with_authentication_client_cert_password(authentication_client_cert_password@),
    {
        let mut r = self;
        r.authentication_client_cert_password = Some(authentication_client_cert_password);
        r
    }

    /// Returns `authenticationClientCertPassword` if it is present.
    pub fn authentication_client_cert_password(&self) -> (r: Option<&String>)
        ensures
            r.deep_view() == self@.authentication_client_cert_password,
    {
        self.authentication_client_cert_password.as_ref()
    }

    /// Removes `authenticationClientCertPassword`; every other attribute is left as it was.
    pub fn reset_authentication_client_cert_password(&mut self)
        ensures
            final(self)@ == old(self)@.without_authentication_client_cert_password(),
    {
        self.authentication_client_cert_password = None;
    }

    /// Sets `authenticationHttpBasicPassword` to the given value; every other attribute is left as it was.
    pub fn set_authentication_http_basic_password(&mut self, authentication_http_basic_password: String)
        ensures
            final(self)@ == old(self)@.with_authentication_http_basic_password(authentication_http_basic_password@),
    {
        self.authentication_http_basic_password = Some(authentication_http_basic_password);
    }

    /// Returns this value with `authenticationHttpBasicPassword` set to the given value.
    pub fn with_authentication_http_basic_password(self, authentication_http_basic_password: String) -> (r: MsgVpnRestDeliveryPointRestConsumer)
        ensures
            r@ == self@.with_authentication_http_basic_password(authentication_http_basic_password@),
    {
        let mut r = self;
        r.authentication_http_basic_password = Some(authentication_http_basic_password);
        r
    }

    /// Returns `authenticationHttpBasicPassword` if it is present.
    pub fn authentication_http_basic_password(&self) -> (r: Option<&String>)
        ensures
            r.deep_view() == self@.authentication_http_basic_password,
    {
        self.authentication_http_basic_password.as_ref()
    }

    /// Removes `authenticationHttpBasicPassword`; every other attribute is left as it was.
    pub fn reset_authentication_http_basic_password(&mut self)
        ensures
            final(self)@ == old(self)@.without_authentication_http_basic_password(),
    {
        self.authentication_http_basic_password = None;
    }

    /// Sets `authenticationHttpBasicUsername` to the given value; every other attribute is left as it was.
    pub fn set_authentication_http_basic_username(&mut self, authentication_http_basic_username: String)
        ensures
            final(self)@ == old(self)@.with_authentication_http_basic_username(authentication_http_basic_username@),
    {
        self.authentication_http_basic_username = Some(authentication_http_basic_username);
    }

    /// Returns this value with `authenticationHttpBasicUsername` set to the given value.
    pub fn with_authentication_http_basic_username(self, authentication_http_basic_username: String) -> (r: MsgVpnRestDeliveryPointRestConsumer)
        ensures
            r@ == self@.with_authentication_http_basic_username(authentication_http_basic_username@),
    {
        let mut r = self;
        r.authentication_http_basic_username = Some(authentication_http_basic_username);
        r
    }

    /// Returns `authenticationHttpBasicUsername` if it is present.
    pub fn authentication_http_basic_username(&self) -> (r: Option<&String>)
        ensures
            r.deep_view() == self@.authentication_http_basic_username,
    {
        self.authentication_http_basic_username.as_ref()
    }

    /// Removes `authenticationHttpBasicUsername`; every other attribute is left as it was.
    pub fn reset_authentication_http_basic_username(&mut self)
        ensures
            final(self)@ == old(self)@.without_authentication_http_basic_username(),
    {
        self.authentication_http_basic_username = None;
    }

    /// Sets `authenticationScheme` to the given value; every other attribute is left as it was.
    pub fn set_authentication_scheme(&mut self, authentication_scheme: String)
        ensures
            final(self)@ == old(self)@.with_authentication_scheme(authentication_scheme@),
    {
        self.authentication_scheme = Some(authentication_scheme);
    }

    /// Returns this value with `authenticationScheme` set to the given value.
    pub fn with_authentication_scheme(self, authentication_scheme: String) -> (r: MsgVpnRestDeliveryPointRestConsumer)
        ensures
            r@ == self@.with_authentication_scheme(authentication_scheme@),
    {
        let mut r = self;
        r.authentication_scheme = Some(authentication_scheme);
        r
    }

    /// Returns `authenticationScheme` if it is present.
    pub fn authentication_scheme(&self) -> (r: Option<&String>)
        ensures
            r.deep_view() == self@.authentication_scheme,
    {
        self.authentication_scheme.as_ref()
    }

    /// Removes `authenticationScheme`; every other attribute is left as it was.
    pub fn reset_authentication_scheme(&mut self)
        ensures
            final(self)@ == old(self)@.without_authentication_scheme(),
    {
        self.authentication_scheme = None;
    }

    /// Sets `enabled` to the given value; every other attribute is left as it was.
    pub fn set_enabled(&mut self, enabled: bool)
        ensures
            final(self)@ == old(self)@.with_enabled(enabled),
    {
        self.enabled = Some(enabled);
    }

    /// Returns this value with `enabled` set to the given value.
    pub fn with_enabled(self, enabled: bool) -> (r: MsgVpnRestDeliveryPointRestConsumer)
        ensures
            r@ == self@.with_enabled(enabled),
    {
        let mut r = self;
        r.enabled = Some(enabled);
        r
    }

    /// Returns `enabled` if it is present.
    pub fn enabled(&self) -> (r: Option<&bool>)
        ensures
            r.deep_view() == self@.enabled,
    {
        self.enabled.as_ref()
    }

    /// Removes `enabled`; every other attribute is left as it was.
    pub fn reset_enabled(&mut self)
        ensures
            final(self)@ == old(self)@.without_enabled(),
    {
        self.enabled = None;
    }

    /// Sets `localInterface` to the given value; every other attribute is left as it was.
    pub fn set_local_interface(&mut self, local_interface: String)
        ensures
            final(self)@ == old(self)@.with_local_interface(local_interface@),
    {
        self.local_interface = Some(local_interface);
    }

    /// Returns this value with `localInterface` set to the given value.
    pub fn with_local_interface(self, local_interface: String) -> (r: MsgVpnRestDeliveryPointRestConsumer)
        ensures
            r@ == self@.with_local_interface(local_interface@),
    {
        let mut r = self;
        r.local_interface = Some(local_interface);
        r
    }

    /// Returns `localInterface` if it is present.
    pub fn local_interface(&self) -> (r: Option<&String>)
        ensures
            r.deep_view() == self@.local_interface,
    {
        self.local_interface.as_ref()
    }

    /// Removes `localInterface`; every other attribute is left as it was.
    pub fn reset_local_interface(&mut self)
        ensures
            final(self)@ == old(self)@.without_local_interface(),
    {
        self.local_interface = None;
    }

    /// Sets `maxPostWaitTime` to the given value; every other attribute is left as it was.
    pub fn set_max_post_wait_time(&mut self, max_post_wait_time: i32)
        ensures
            final(self)@ == old(self)@.with_max_post_wait_time(max_post_wait_time),
    {
        self.max_post_wait_time = Some(max_post_wait_time);
    }

    /// Returns this value with `maxPostWaitTime` set to the given value.
    pub fn with_max_post_wait_time(self, max_post_wait_time: i32) -> (r: MsgVpnRestDeliveryPointRestConsumer)
        ensures
            r@ == self@.with_max_post_wait_time(max_post_wait_time),
    {
        let mut r = self;
        r.max_post_wait_time = Some(max_post_wait_time);
        r
    }

    /// Returns `maxPostWaitTime` if it is present.
    pub fn max_post_wait_time(&self) -> (r: Option<&i32>)
        ensures
            r.deep_view() == self@.max_post_wait_time,
    {
        self.max_post_wait_time.as_ref()
    }

    /// Removes `maxPostWaitTime`; every other attribute is left as it was.
    pub fn reset_max_post_wait_time(&mut self)
        ensures
            final(self)@ == old(self)@.without_max_post_wait_time(),
    {
        self.max_post_wait_time = None;
    }

    /// Sets `msgVpnName` to the given value; every other attribute is left as it was.
    pub fn set_msg_vpn_name(&mut self, msg_vpn_name: String)
        ensures
            final(self)@ == old(self)@.with_msg_vpn_name(msg_vpn_name@),
    {
        self.msg_vpn_name = Some(msg_vpn_name);
    }

    /// Returns this value with `msgVpnName` set to the given value.
    pub fn with_msg_vpn_name(self, msg_vpn_name: String) -> (r: MsgVpnRestDeliveryPointRestConsumer)
        ensures
            r@ == self@.with_msg_vpn_name(msg_vpn_name@),
    {
        let mut r = self;
        r.msg_vpn_name = Some(msg_vpn_name);
        r
    }

    /// Returns `msgVpnName` if it is present.
    pub fn msg_vpn_name(&self) -> (r: Option<&String>)
        ensures
            r.deep_view() == self@.msg_vpn_name,
    {
        self.msg_vpn_name.as_ref()
    }

    /// Removes `msgVpnName`; every other attribute is left as it was.
    pub fn reset_msg_vpn_name(&mut self)
        ensures
            final(self)@ == old(self)@.without_msg_vpn_name(),
    {
        self.msg_vpn_name = None;
    }

    /// Sets `outgoingConnectionCount` to the given value; every other attribute is left as it was.
    pub fn set_outgoing_connection_count(&mut self, outgoing_connection_count: i32)
        ensures
            final(self)@ == old(self)@.with_outgoing_connection_count(outgoing_connection_count),
    {
        self.outgoing_connection_count = Some(outgoing_connection_count);
    }

    /// Returns this value with `outgoingConnectionCount` set to the given value.
    pub fn with_outgoing_connection_count(self, outgoing_connection_count: i32) -> (r: MsgVpnRestDeliveryPointRestConsumer)
        ensures
            r@ == self@.with_outgoing_connection_count(outgoing_connection_count),
    {
        let mut r = self;
        r.outgoing_connection_count = Some(outgoing_connection_count);
        r
    }

    /// Returns `outgoingConnectionCount` if it is present.
    pub fn outgoing_connection_count(&self) -> (r: Option<&i32>)
        ensures
            r.deep_view() == self@.outgoing_connection_count,
    {
        self.outgoing_connection_count.as_ref()
    }

    /// Removes `outgoingConnectionCount`; every other attribute is left as it was.
    pub fn reset_outgoing_connection_count(&mut self)
        ensures
            final(self)@ == old(self)@.without_outgoing_connection_count(),
    {
        self.outgoing_connection_count = None;
    }

    /// Sets `remoteHost` to the given value; every other attribute is left as it was.
    pub fn set_remote_host(&mut self, remote_host: String)
        ensures
            final(self)@ == old(self)@.with_remote_host(remote_host@),
    {
        self.remote_host = Some(remote_host);
    }

    /// Returns this value with `remoteHost` set to the given value.
    pub fn with_remote_host(self, remote_host: String) -> (r: MsgVpnRestDeliveryPointRestConsumer)
        ensures
            r@ == self@.with_remote_host(remote_host@),
    {
        let mut r = self;
        r.remote_host = Some(remote_host);
        r
    }

    /// Returns `remoteHost` if it is present.
    pub fn remote_host(&self) -> (r: Option<&String>)
        ensures
            r.deep_view() == self@.remote_host,
    {
        self.remote_host.as_ref()
    }

    /// Removes `remoteHost`; every other attribute is left as it was.
    pub fn reset_remote_host(&mut self)
        ensures
            final(self)@ == old(self)@.without_remote_host(),
    {
        self.remote_host = None;
    }

    /// Sets `remotePort` to the given value; every other attribute is left as it was.
    pub fn set_remote_port(&mut self, remote_port: i64)
        ensures
            final(self)@ == old(self)@.with_remote_port(remote_port),
    {
        self.remote_port = Some(remote_port);
    }

    /// Returns this value with `remotePort` set to the given value.
    pub fn with_remote_port(self, remote_port: i64) -> (r: MsgVpnRestDeliveryPointRestConsumer)
        ensures
            r@ == self@.with_remote_port(remote_port),
    {
        let mut r = self;
        r.remote_port = Some(remote_port);
        r
    }

    /// Returns `remotePort` if it is present.
    pub fn remote_port(&self) -> (r: Option<&i64>)
        ensures
            r.deep_view() == self@.remote_port,
    {
        self.remote_port.as_ref()
    }

    /// Removes `remotePort`; every other attribute is left as it was.
    pub fn reset_remote_port(&mut self)
        ensures
            final(self)@ == old(self)@.without_remote_port(),
    {
        self.remote_port = None;
    }

    /// Sets `restConsumerName` to the given value; every other attribute is left as it was.
    pub fn set_rest_consumer_name(&mut self, rest_consumer_name: String)
        ensures
            final(self)@ == old(self)@.with_rest_consumer_name(rest_consumer_name@),
    {
        self.rest_consumer_name = Some(rest_consumer_name);
    }

    /// Returns this value with `restConsumerName` set to the given value.
    pub fn with_rest_consumer_name(self, rest_consumer_name: String) -> (r: MsgVpnRestDeliveryPointRestConsumer)
        ensures
            r@ == self@.with_rest_consumer_name(rest_consumer_name@),
    {
        let mut r = self;
        r.rest_consumer_name = Some(rest_consumer_name);
        r
    }

    /// Returns `restConsumerName` if it is present.
    pub fn rest_consumer_name(&self) -> (r: Option<&String>)
        ensures
            r.deep_view() == self@.rest_consumer_name,
    {
        self.rest_consumer_name.as_ref()
    }

    /// Removes `restConsumerName`; every other attribute is left as it was.
    pub fn reset_rest_consumer_name(&mut self)
        ensures
            final(self)@ == old(self)@.without_rest_consumer_name(),
    {
        self.rest_consumer_name = None;
    }

    /// Sets `restDeliveryPointName` to the given value; every other attribute is left as it was.
    pub fn set_rest_delivery_point_name(&mut self, rest_delivery_point_name: String)
        ensures
            final(self)@ == old(self)@.with_rest_delivery_point_name(rest_delivery_point_name@),
    {
        self.rest_delivery_point_name = Some(rest_delivery_point_name);
    }

    /// Returns this value with `restDeliveryPointName` set to the given value.
    pub fn with_rest_delivery_point_name(self, rest_delivery_point_name: String) -> (r: MsgVpnRestDeliveryPointRestConsumer)
        ensures
            r@ == self@.with_rest_delivery_point_name(rest_delivery_point_name@),
    {
        let mut r = self;
        r.rest_delivery_point_name = Some(rest_delivery_point_name);
        r
    }

    /// Returns `restDeliveryPointName` if it is present.
    pub fn rest_delivery_point_name(&self) -> (r: Option<&String>)
        ensures
            r.deep_view() == self@.rest_delivery_point_name,
    {
        self.rest_delivery_point_name.as_ref()
    }

    /// Removes `restDeliveryPointName`; every other attribute is left as it was.
    pub fn reset_rest_delivery_point_name(&mut self)
        ensures
            final(self)@ == old(self)@.without_rest_delivery_point_name(),
    {
        self.rest_delivery_point_name = None;
    }

    /// Sets `retryDelay` to the given value; every other attribute is left as it was.
    pub fn set_retry_delay(&mut self, retry_delay: i32)
        ensures
            final(self)@ == old(self)@.with_retry_delay(retry_delay),
    {
        self.retry_delay = Some(retry_delay);
    }

    /// Returns this value with `retryDelay` set to the given value.
    pub fn with_retry_delay(self, retry_delay: i32) -> (r: MsgVpnRestDeliveryPointRestConsumer)
        ensures
            r@ == self@.with_retry_delay(retry_delay),
    {
        let mut r = self;
        r.retry_delay = Some(retry_delay);
        r
    }

    /// Returns `retryDelay` if it is present.
    pub fn retry_delay(&self) -> (r: Option<&i32>)
        ensures
            r.deep_view() == self@.retry_delay,
    {
        self.retry_delay.as_ref()
    }

    /// Removes `retryDelay`; every other attribute is left as it was.
    pub fn reset_retry_delay(&mut self)
        ensures
            final(self)@ == old(self)@.without_retry_delay(),
    {
        self.retry_delay = None;
    }

    /// Sets `tlsCipherSuiteList` to the given value; every other attribute is left as it was.
    pub fn set_tls_cipher_suite_list(&mut self, tls_cipher_suite_list: String)
        ensures
            final(self)@ == old(self)@.with_tls_cipher_suite_list(tls_cipher_suite_list@),
    {
        self.tls_cipher_suite_list = Some(tls_cipher_suite_list);
    }

    /// Returns this value with `tlsCipherSuiteList` set to the given value.
    pub fn with_tls_cipher_suite_list(self, tls_cipher_suite_list: String) -> (r: MsgVpnRestDeliveryPointRestConsumer)
        ensures
            r@ == self@.with_tls_cipher_suite_list(tls_cipher_suite_list@),
    {
        let mut r = self;
        r.tls_cipher_suite_list = Some(tls_cipher_suite_list);
        r
    }

    /// Returns `tlsCipherSuiteList` if it is present.
    pub fn tls_cipher_suite_list(&self) -> (r: Option<&String>)
        ensures
            r.deep_view() == self@.tls_cipher_suite_list,
    {
        self.tls_cipher_suite_list.as_ref()
    }

    /// Removes `tlsCipherSuiteList`; every other attribute is left as it was.
    pub fn reset_tls_cipher_suite_list(&mut self)
        ensures
            final(self)@ == old(self)@.without_tls_cipher_suite_list(),
    {
        self.tls_cipher_suite_list = None;
    }

    /// Sets `tlsEnabled` to the given value; every other attribute is left as it was.
    pub fn set_tls_enabled(&mut self, tls_enabled: bool)
        ensures
            final(self)@ == old(self)@.with_tls_enabled(tls_enabled),
    {
        self.tls_enabled = Some(tls_enabled);
    }

    /// Returns this value with `tlsEnabled` set to the given value.
    pub fn with_tls_enabled(self, tls_enabled: bool) -> (r: MsgVpnRestDeliveryPointRestConsumer)
        ensures
            r@ == self@.with_tls_enabled(tls_enabled),
    {
        let mut r = self;
        r.tls_enabled = Some(tls_enabled);
        r
    }

    /// Returns `tlsEnabled` if it is present.
    pub fn tls_enabled(&self) -> (r: Option<&bool>)
        ensures
            r.deep_view() == self@.tls_enabled,
    {
        self.tls_enabled.as_ref()
    }

    /// Removes `tlsEnabled`; every other attribute is left as it was.
    pub fn reset_tls_enabled(&mut self)
        ensures
            final(self)@ == old(self)@.without_tls_enabled(),
    {
        self.tls_enabled = None;
    }
}

/// A freshly made value has no attribute present: every read of a new value gives nothing.
pub proof fn lemma_msg_vpn_rest_delivery_point_rest_consumer_new_is_empty()
    ensures
        MsgVpnRestDeliveryPointRestConsumerView::empty().authentication_client_cert_content is None,
        MsgVpnRestDeliveryPointRestConsumerView::empty().authentication_client_cert_password is None,
        MsgVpnRestDeliveryPointRestConsumerView::empty().authentication_http_basic_password is None,
        MsgVpnRestDeliveryPointRestConsumerView::empty().authentication_http_basic_username is None,
        MsgVpnRestDeliveryPointRestConsumerView::empty().authentication_scheme is None,
        MsgVpnRestDeliveryPointRestConsumerView::empty().enabled is None,
        MsgVpnRestDeliveryPointRestConsumerView::empty().local_interface is None,
        MsgVpnRestDeliveryPointRestConsumerView::empty().max_post_wait_time is None,
        MsgVpnRestDeliveryPointRestConsumerView::empty().msg_vpn_name is None,
        MsgVpnRestDeliveryPointRestConsumerView::empty().outgoing_connection_count is None,
        MsgVpnRestDeliveryPointRestConsumerView::empty().remote_host is None,
        MsgVpnRestDeliveryPointRestConsumerView::empty().remote_port is None,
        MsgVpnRestDeliveryPointRestConsumerView::empty().rest_consumer_name is None,
        MsgVpnRestDeliveryPointRestConsumerView::empty().rest_delivery_point_name is None,
        MsgVpnRestDeliveryPointRestConsumerView::empty().retry_delay is None,
        MsgVpnRestDeliveryPointRestConsumerView::empty().tls_cipher_suite_list is None,
        MsgVpnRestDeliveryPointRestConsumerView::empty().tls_enabled is None,
{
}

/// Reading an attribute right after writing it gives the value written,
/// and reading it right after removing it gives nothing.
pub proof fn lemma_msg_vpn_rest_delivery_point_rest_consumer_read_after_write(m: MsgVpnRestDeliveryPointRestConsumerView, text: Seq<char>, flag: bool, small: i32, number: i64)
    ensures
        m.with_authentication_client_cert_content(text).authentication_client_cert_content == Some(text) && m.without_authentication_client_cert_content().authentication_client_cert_content is None,
        m.with_authentication_client_cert_password(text).authentication_client_cert_password == Some(text) && m.without_authentication_client_cert_password().authentication_client_cert_password is None,
        m.with_authentication_http_basic_password(text).authentication_http_basic_password == Some(text) && m.without_authentication_http_basic_password().authentication_http_basic_password is None,
        m.with_authentication_http_basic_username(text).authentication_http_basic_username == Some(text) && m.without_authentication_http_basic_username().authentication_http_basic_username is None,
        m.with_authentication_scheme(text).authentication_scheme == Some(text) && m.without_authentication_scheme().authentication_scheme is None,
        m.with_enabled(flag).enabled == Some(flag) && m.without_enabled().enabled is None,
        m.with_local_interface(text).local_interface == Some(text) && m.without_local_interface().local_interface is None,
        m.with_max_post_wait_time(small).max_post_wait_time == Some(small) && m.without_max_post_wait_time().max_post_wait_time is None,
        m.with_msg_vpn_name(text).msg_vpn_name == Some(text) && m.without_msg_vpn_name().msg_vpn_name is None,
        m.with_outgoing_connection_count(small).outgoing_connection_count == Some(small) && m.without_outgoing_connection_count().outgoing_connection_count is None,
        m.with_remote_host(text).remote_host == Some(text) && m.without_remote_host().remote_host is None,
        m.with_remote_port(number).remote_port == Some(number) && m.without_remote_port().remote_port is None,
        m.with_rest_consumer_name(text).rest_consumer_name == Some(text) && m.without_rest_consumer_name().rest_consumer_name is None,
        m.with_rest_delivery_point_name(text).rest_delivery_point_name == Some(text) && m.without_rest_delivery_point_name().rest_delivery_point_name is None,
        m.with_retry_delay(small).retry_delay == Some(small) && m.without_retry_delay().retry_delay is None,
        m.with_tls_cipher_suite_list(text).tls_cipher_suite_list == Some(text) && m.without_tls_cipher_suite_list().tls_cipher_suite_list is None,
        m.with_tls_enabled(flag).tls_enabled == Some(flag) && m.without_tls_enabled().tls_enabled is None,
{
}

/// Of two writes to the same attribute, the later one wins.
pub proof fn lemma_msg_vpn_rest_delivery_point_rest_consumer_last_write_wins(m: MsgVpnRestDeliveryPointRestConsumerView, text_a: Seq<char>, text_b: Seq<char>, flag_a: bool, flag_b: bool, small_a: i32, small_b: i32, number_a: i64, number_b: i64)
    ensures
        m.with_authentication_client_cert_content(text_a).with_authentication_client_cert_content(text_b) == m.with_authentication_client_cert_content(text_b),
        m.with_authentication_client_cert_password(text_a).with_authentication_client_cert_password(text_b) == m.with_authentication_client_cert_password(text_b),
        m.with_authentication_http_basic_password(text_a).with_authentication_http_basic_password(text_b) == m.with_authentication_http_basic_password(text_b),
        m.with_authentication_http_basic_username(text_a).with_authentication_http_basic_username(text_b) == m.with_authentication_http_basic_username(text_b),
        m.with_authentication_scheme(text_a).with_authentication_scheme(text_b) == m.with_authentication_scheme(text_b),
        m.with_enabled(flag_a).with_enabled(flag_b) == m.with_enabled(flag_b),
        m.with_local_interface(text_a).with_local_interface(text_b) == m.with_local_interface(text_b),
        m.with_max_post_wait_time(small_a).with_max_post_wait_time(small_b) == m.with_max_post_wait_time(small_b),
        m.with_msg_vpn_name(text_a).with_msg_vpn_name(text_b) == m.with_msg_vpn_name(text_b),
        m.with_outgoing_connection_count(small_a).with_outgoing_connection_count(small_b) == m.with_outgoing_connection_count(small_b),
        m.with_remote_host(text_a).with_remote_host(text_b) == m.with_remote_host(text_b),
        m.with_remote_port(number_a).with_remote_port(number_b) == m.with_remote_port(number_b),
        m.with_rest_consumer_name(text_a).with_rest_consumer_name(text_b) == m.with_rest_consumer_name(text_b),
        m.with_rest_delivery_point_name(text_a).with_rest_delivery_point_name(text_b) == m.with_rest_delivery_point_name(text_b),
        m.with_retry_delay(small_a).with_retry_delay(small_b) == m.with_retry_delay(small_b),
        m.with_tls_cipher_suite_list(text_a).with_tls_cipher_suite_list(text_b) == m.with_tls_cipher_suite_list(text_b),
        m.with_tls_enabled(flag_a).with_tls_enabled(flag_b) == m.with_tls_enabled(flag_b),
{
}

/// Writing an attribute changes no other attribute: once that attribute is removed again,
/// the result is the starting value with that attribute removed.
pub proof fn lemma_msg_vpn_rest_delivery_point_rest_consumer_write_touches_one_attribute(m: MsgVpnRestDeliveryPointRestConsumerView, text: Seq<char>, flag: bool, small: i32, number: i64)
    ensures
        m.with_authentication_client_cert_content(text).without_authentication_client_cert_content() == m.without_authentication_client_cert_content(),
        m.with_authentication_client_cert_password(text).without_authentication_client_cert_password() == m.without_authentication_client_cert_password(),
        m.with_authentication_http_basic_password(text).without_authentication_http_basic_password() == m.without_authentication_http_basic_password(),
        m.with_authentication_http_basic_username(text).without_authentication_http_basic_username() == m.without_authentication_http_basic_username(),
        m.with_authentication_scheme(text).without_authentication_scheme() == m.without_authentication_scheme(),
        m.with_enabled(flag).without_enabled() == m.without_enabled(),
        m.with_local_interface(text).without_local_interface() == m.without_local_interface(),
        m.with_max_post_wait_time(small).without_max_post_wait_time() == m.without_max_post_wait_time(),
        m.with_msg_vpn_name(text).without_msg_vpn_name() == m.without_msg_vpn_name(),
        m.with_outgoing_connection_count(small).without_outgoing_connection_count() == m.without_outgoing_connection_count(),
        m.with_remote_host(text).without_remote_host() == m.without_remote_host(),
        m.with_remote_port(number).without_remote_port() == m.without_remote_port(),
        m.with_rest_consumer_name(text).without_rest_consumer_name() == m.without_rest_consumer_name(),
        m.with_rest_delivery_point_name(text).without_rest_delivery_point_name() == m.without_rest_delivery_point_name(),
        m.with_retry_delay(small).without_retry_delay() == m.without_retry_delay(),
        m.with_tls_cipher_suite_list(text).without_tls_cipher_suite_list() == m.without_tls_cipher_suite_list(),
        m.with_tls_enabled(flag).without_tls_enabled() == m.without_tls_enabled(),
{
}

/// Removing an attribute that was absent before a write undoes that write.
pub proof fn lemma_msg_vpn_rest_delivery_point_rest_consumer_reset_undoes_write(m: MsgVpnRestDeliveryPointRestConsumerView, text: Seq<char>, flag: bool, small: i32, number: i64)
    ensures
        m.authentication_client_cert_content is None ==> m.with_authentication_client_cert_content(text).without_authentication_client_cert_content() == m,
        m.authentication_client_cert_password is None ==> m.with_authentication_client_cert_password(text).without_authentication_client_cert_password() == m,
        m.authentication_http_basic_password is None ==> m.with_authentication_http_basic_password(text).without_authentication_http_basic_password() == m,
        m.authentication_http_basic_username is None ==> m.with_authentication_http_basic_username(text).without_authentication_http_basic_username() == m,
        m.authentication_scheme is None ==> m.with_authentication_scheme(text).without_authentication_scheme() == m,
        m.enabled is None ==> m.with_enabled(flag).without_enabled() == m,
        m.local_interface is None ==> m.with_local_interface(text).without_local_interface() == m,
        m.max_post_wait_time is None ==> m.with_max_post_wait_time(small).without_max_post_wait_time() == m,
        m.msg_vpn_name is None ==> m.with_msg_vpn_name(text).without_msg_vpn_name() == m,
        m.outgoing_connection_count is None ==> m.with_outgoing_connection_count(small).without_outgoing_connection_count() == m,
        m.remote_host is None ==> m.with_remote_host(text).without_remote_host() == m,
        m.remote_port is None ==> m.with_remote_port(number).without_remote_port() == m,
        m.rest_consumer_name is None ==> m.with_rest_consumer_name(text).without_rest_consumer_name() == m,
        m.rest_delivery_point_name is None ==> m.with_rest_delivery_point_name(text).without_rest_delivery_point_name() == m,
        m.retry_delay is None ==> m.with_retry_delay(small).without_retry_delay() == m,
        m.tls_cipher_suite_list is None ==> m.with_tls_cipher_suite_list(text).without_tls_cipher_suite_list() == m,
        m.tls_enabled is None ==> m.with_tls_enabled(flag).without_tls_enabled() == m,
{
}

/// Removing an attribute twice is the same as removing it once, and removing an absent
/// attribute changes nothing.
pub proof fn lemma_msg_vpn_rest_delivery_point_rest_consumer_reset_idempotent(m: MsgVpnRestDeliveryPointRestConsumerView)
    ensures
        m.without_authentication_client_cert_content().without_authentication_client_cert_content() == m.without_authentication_client_cert_content() && (m.authentication_client_cert_content is None ==> m.without_authentication_client_cert_content() == m),
        m.without_authentication_client_cert_password().without_authentication_client_cert_password() == m.without_authentication_client_cert_password() && (m.authentication_client_cert_password is None ==> m.without_authentication_client_cert_password() == m),
        m.without_authentication_http_basic_password().without_authentication_http_basic_password() == m.without_authentication_http_basic_password() && (m.authentication_http_basic_password is None ==> m.without_authentication_http_basic_password() == m),
        m.without_authentication_http_basic_username().without_authentication_http_basic_username() == m.without_authentication_http_basic_username() && (m.authentication_http_basic_username is None ==> m.without_authentication_http_basic_username() == m),
        m.without_authentication_scheme().without_authentication_scheme() == m.without_authentication_scheme() && (m.authentication_scheme is None ==> m.without_authentication_scheme() == m),
        m.without_enabled().without_enabled() == m.without_enabled() && (m.enabled is None ==> m.without_enabled() == m),
        m.without_local_interface().without_local_interface() == m.without_local_interface() && (m.local_interface is None ==> m.without_local_interface() == m),
        m.without_max_post_wait_time().without_max_post_wait_time() == m.without_max_post_wait_time() && (m.max_post_wait_time is None ==> m.without_max_post_wait_time() == m),
        m.without_msg_vpn_name().without_msg_vpn_name() == m.without_msg_vpn_name() && (m.msg_vpn_name is None ==> m.without_msg_vpn_name() == m),
        m.without_outgoing_connection_count().without_outgoing_connection_count() == m.without_outgoing_connection_count() && (m.outgoing_connection_count is None ==> m.without_outgoing_connection_count() == m),
        m.without_remote_host().without_remote_host() == m.without_remote_host() && (m.remote_host is None ==> m.without_remote_host() == m),
        m.without_remote_port().without_remote_port() == m.without_remote_port() && (m.remote_port is None ==> m.without_remote_port() == m),
        m.without_rest_consumer_name().without_rest_consumer_name() == m.without_rest_consumer_name() && (m.rest_consumer_name is None ==> m.without_rest_consumer_name() == m),
        m.without_rest_delivery_point_name().without_rest_delivery_point_name() == m.without_rest_delivery_point_name() && (m.rest_delivery_point_name is None ==> m.without_rest_delivery_point_name() == m),
        m.without_retry_delay().without_retry_delay() == m.without_retry_delay() && (m.retry_delay is None ==> m.without_retry_delay() == m),
        m.without_tls_cipher_suite_list().without_tls_cipher_suite_list() == m.without_tls_cipher_suite_list() && (m.tls_cipher_suite_list is None ==> m.without_tls_cipher_suite_list() == m),
        m.without_tls_enabled().without_tls_enabled() == m.without_tls_enabled() && (m.tls_enabled is None ==> m.without_tls_enabled() == m),
{
}

/// Writing the value an attribute already holds changes nothing.
pub proof fn lemma_msg_vpn_rest_delivery_point_rest_consumer_rewrite_is_no_op(m: MsgVpnRestDeliveryPointRestConsumerView, text: Seq<char>, flag: bool, small: i32, number: i64)
    ensures
        m.authentication_client_cert_content == Some(text) ==> m.with_authentication_client_cert_content(text) == m,
        m.authentication_client_cert_password == Some(text) ==> m.with_authentication_client_cert_password(text) == m,
        m.authentication_http_basic_password == Some(text) ==> m.with_authentication_http_basic_password(text) == m,
        m.authentication_http_basic_username == Some(text) ==> m.with_authentication_http_basic_username(text) == m,
        m.authentication_scheme == Some(text) ==> m.with_authentication_scheme(text) == m,
        m.enabled == Some(flag) ==> m.with_enabled(flag) == m,
        m.local_interface == Some(text) ==> m.with_local_interface(text) == m,
        m.max_post_wait_time == Some(small) ==> m.with_max_post_wait_time(small) == m,
        m.msg_vpn_name == Some(text) ==> m.with_msg_vpn_name(text) == m,
        m.outgoing_connection_count == Some(small) ==> m.with_outgoing_connection_count(small) == m,
        m.remote_host == Some(text) ==> m.with_remote_host(text) == m,
        m.remote_port == Some(number) ==> m.with_remote_port(number) == m,
        m.rest_consumer_name == Some(text) ==> m.with_rest_consumer_name(text) == m,
        m.rest_delivery_point_name == Some(text) ==> m.with_rest_delivery_point_name(text) == m,
        m.retry_delay == Some(small) ==> m.with_retry_delay(small) == m,
        m.tls_cipher_suite_list == Some(text) ==> m.with_tls_cipher_suite_list(text) == m,
        m.tls_enabled == Some(flag) ==> m.with_tls_enabled(flag) == m,
{
}

/// The name of one attribute of a [`MsgVpnRestDeliveryPointRestConsumer`].
pub enum MsgVpnRestDeliveryPointRestConsumerAttribute {
    /// `authenticationClientCertContent`
    AuthenticationClientCertContent,
    /// `authenticationClientCertPassword`
    AuthenticationClientCertPassword,
    /// `authenticationHttpBasicPassword`
    AuthenticationHttpBasicPassword,
    /// `authenticationHttpBasicUsername`
    AuthenticationHttpBasicUsername,
    /// `authenticationScheme`
    AuthenticationScheme,
    /// `enabled`
    Enabled,
    /// `localInterface`
    LocalInterface,
    /// `maxPostWaitTime`
    MaxPostWaitTime,
    /// `msgVpnName`
    MsgVpnName,
    /// `outgoingConnectionCount`
    OutgoingConnectionCount,
    /// `remoteHost`
    RemoteHost,
    /// `remotePort`
    RemotePort,
    /// `restConsumerName`
    RestConsumerName,
    /// `restDeliveryPointName`
    RestDeliveryPointName,
    /// `retryDelay`
    RetryDelay,
    /// `tlsCipherSuiteList`
    TlsCipherSuiteList,
    /// `tlsEnabled`
    TlsEnabled,
}

impl MsgVpnRestDeliveryPointRestConsumerView {
    /// The value of the named attribute, present or absent.
    pub open spec fn attribute(self, a: MsgVpnRestDeliveryPointRestConsumerAttribute) -> AttributeValue {
        match a {
            MsgVpnRestDeliveryPointRestConsumerAttribute::AuthenticationClientCertContent => AttributeValue::Text(self.authentication_client_cert_content),
            MsgVpnRestDeliveryPointRestConsumerAttribute::AuthenticationClientCertPassword => AttributeValue::Text(self.authentication_client_cert_password),
            MsgVpnRestDeliveryPointRestConsumerAttribute::AuthenticationHttpBasicPassword => AttributeValue::Text(self.authentication_http_basic_password),
            MsgVpnRestDeliveryPointRestConsumerAttribute::AuthenticationHttpBasicUsername => AttributeValue::Text(self.authentication_http_basic_username),
            MsgVpnRestDeliveryPointRestConsumerAttribute::AuthenticationScheme => AttributeValue::Text(self.authentication_scheme),
            MsgVpnRestDeliveryPointRestConsumerAttribute::Enabled => AttributeValue::Flag(self.enabled),
            MsgVpnRestDeliveryPointRestConsumerAttribute::LocalInterface => AttributeValue::Text(self.local_interface),
            MsgVpnRestDeliveryPointRestConsumerAttribute::MaxPostWaitTime => AttributeValue::Int32(self.max_post_wait_time),
            MsgVpnRestDeliveryPointRestConsumerAttribute::MsgVpnName => AttributeValue::Text(self.msg_vpn_name),
            MsgVpnRestDeliveryPointRestConsumerAttribute::OutgoingConnectionCount => AttributeValue::Int32(self.outgoing_connection_count),
            MsgVpnRestDeliveryPointRestConsumerAttribute::RemoteHost => AttributeValue::Text(self.remote_host),
            MsgVpnRestDeliveryPointRestConsumerAttribute::RemotePort => AttributeValue::Int64(self.remote_port),
            MsgVpnRestDeliveryPointRestConsumerAttribute::RestConsumerName => AttributeValue::Text(self.rest_consumer_name),
            MsgVpnRestDeliveryPointRestConsumerAttribute::RestDeliveryPointName => AttributeValue::Text(self.rest_delivery_point_name),
            MsgVpnRestDeliveryPointRestConsumerAttribute::RetryDelay => AttributeValue::Int32(self.retry_delay),
            MsgVpnRestDeliveryPointRestConsumerAttribute::TlsCipherSuiteList => AttributeValue::Text(self.tls_cipher_suite_list),
            MsgVpnRestDeliveryPointRestConsumerAttribute::TlsEnabled => AttributeValue::Flag(self.tls_enabled),
        }
    }
}

/// Writing an attribute gives it the value written and leaves every other attribute
/// exactly as it was.
#[verifier::rlimit(100)]
pub proof fn lemma_msg_vpn_rest_delivery_point_rest_consumer_write_changes_only_its_attribute(m: MsgVpnRestDeliveryPointRestConsumerView, text: Seq<char>, flag: bool, small: i32, number: i64)
    ensures
        m.with_authentication_client_cert_content(text).attribute(MsgVpnRestDeliveryPointRestConsumerAttribute::AuthenticationClientCertContent) == AttributeValue::Text(Some(text)),
        forall|a: MsgVpnRestDeliveryPointRestConsumerAttribute| a != MsgVpnRestDeliveryPointRestConsumerAttribute::AuthenticationClientCertContent ==> #[trigger] m.with_authentication_client_cert_content(text).attribute(a) == m.attribute(a),
        m.with_authentication_client_cert_password(text).attribute(MsgVpnRestDeliveryPointRestConsumerAttribute::AuthenticationClientCertPassword) == AttributeValue::Text(Some(text)),
        forall|a: MsgVpnRestDeliveryPointRestConsumerAttribute| a != MsgVpnRestDeliveryPointRestConsumerAttribute::AuthenticationClientCertPassword ==> #[trigger] m.with_authentication_client_cert_password(text).attribute(a) == m.attribute(a),
        m.with_authentication_http_basic_password(text).attribute(MsgVpnRestDeliveryPointRestConsumerAttribute::AuthenticationHttpBasicPassword) == AttributeValue::Text(Some(text)),
        forall|a: MsgVpnRestDeliveryPointRestConsumerAttribute| a != MsgVpnRestDeliveryPointRestConsumerAttribute::AuthenticationHttpBasicPassword ==> #[trigger] m.with_authentication_http_basic_password(text).attribute(a) == m.attribute(a),
        m.with_authentication_http_basic_username(text).attribute(MsgVpnRestDeliveryPointRestConsumerAttribute::AuthenticationHttpBasicUsername) == AttributeValue::Text(Some(text)),
        forall|a: MsgVpnRestDeliveryPointRestConsumerAttribute| a != MsgVpnRestDeliveryPointRestConsumerAttribute::AuthenticationHttpBasicUsername ==> #[trigger] m.with_authentication_http_basic_username(text).attribute(a) == m.attribute(a),
        m.with_authentication_scheme(text).attribute(MsgVpnRestDeliveryPointRestConsumerAttribute::AuthenticationScheme) == AttributeValue::Text(Some(text)),
        forall|a: MsgVpnRestDeliveryPointRestConsumerAttribute| a != MsgVpnRestDeliveryPointRestConsumerAttribute::AuthenticationScheme ==> #[trigger] m.with_authentication_scheme(text).attribute(a) == m.attribute(a),
        m.with_enabled(flag).attribute(MsgVpnRestDeliveryPointRestConsumerAttribute::Enabled) == AttributeValue::Flag(Some(flag)),
        forall|a: MsgVpnRestDeliveryPointRestConsumerAttribute| a != MsgVpnRestDeliveryPointRestConsumerAttribute::Enabled ==> #[trigger] m.with_enabled(flag).attribute(a) == m.attribute(a),
        m.with_local_interface(text).attribute(MsgVpnRestDeliveryPointRestConsumerAttribute::LocalInterface) == AttributeValue::Text(Some(text)),
        forall|a: MsgVpnRestDeliveryPointRestConsumerAttribute| a != MsgVpnRestDeliveryPointRestConsumerAttribute::LocalInterface ==> #[trigger] m.with_local_interface(text).attribute(a) == m.attribute(a),
        m.with_max_post_wait_time(small).attribute(MsgVpnRestDeliveryPointRestConsumerAttribute::MaxPostWaitTime) == AttributeValue::Int32(Some(small)),
        forall|a: MsgVpnRestDeliveryPointRestConsumerAttribute| a != MsgVpnRestDeliveryPointRestConsumerAttribute::MaxPostWaitTime ==> #[trigger] m.with_max_post_wait_time(small).attribute(a) == m.attribute(a),
        m.with_msg_vpn_name(text).attribute(MsgVpnRestDeliveryPointRestConsumerAttribute::MsgVpnName) == AttributeValue::Text(Some(text)),
        forall|a: MsgVpnRestDeliveryPointRestConsumerAttribute| a != MsgVpnRestDeliveryPointRestConsumerAttribute::MsgVpnName ==> #[trigger] m.with_msg_vpn_name(text).attribute(a) == m.attribute(a),
        m.with_outgoing_connection_count(small).attribute(MsgVpnRestDeliveryPointRestConsumerAttribute::OutgoingConnectionCount) == AttributeValue::Int32(Some(small)),
        forall|a: MsgVpnRestDeliveryPointRestConsumerAttribute| a != MsgVpnRestDeliveryPointRestConsumerAttribute::OutgoingConnectionCount ==> #[trigger] m.with_outgoing_connection_count(small).attribute(a) == m.attribute(a),
        m.with_remote_host(text).attribute(MsgVpnRestDeliveryPointRestConsumerAttribute::RemoteHost) == AttributeValue::Text(Some(text)),
        forall|a: MsgVpnRestDeliveryPointRestConsumerAttribute| a != MsgVpnRestDeliveryPointRestConsumerAttribute::RemoteHost ==> #[trigger] m.with_remote_host(text).attribute(a) == m.attribute(a),
        m.with_remote_port(number).attribute(MsgVpnRestDeliveryPointRestConsumerAttribute::RemotePort) == AttributeValue::Int64(Some(number)),
        forall|a: MsgVpnRestDeliveryPointRestConsumerAttribute| a != MsgVpnRestDeliveryPointRestConsumerAttribute::RemotePort ==> #[trigger] m.with_remote_port(number).attribute(a) == m.attribute(a),
        m.with_rest_consumer_name(text).attribute(MsgVpnRestDeliveryPointRestConsumerAttribute::RestConsumerName) == AttributeValue::Text(Some(text)),
        forall|a: MsgVpnRestDeliveryPointRestConsumerAttribute| a != MsgVpnRestDeliveryPointRestConsumerAttribute::RestConsumerName ==> #[trigger] m.with_rest_consumer_name(text).attribute(a) == m.attribute(a),
        m.with_rest_delivery_point_name(text).attribute(MsgVpnRestDeliveryPointRestConsumerAttribute::RestDeliveryPointName) == AttributeValue::Text(Some(text)),
        forall|a: MsgVpnRestDeliveryPointRestConsumerAttribute| a != MsgVpnRestDeliveryPointRestConsumerAttribute::RestDeliveryPointName ==> #[trigger] m.with_rest_delivery_point_name(text).attribute(a) == m.attribute(a),
        m.with_retry_delay(small).attribute(MsgVpnRestDeliveryPointRestConsumerAttribute::RetryDelay) == AttributeValue::Int32(Some(small)),
        forall|a: MsgVpnRestDeliveryPointRestConsumerAttribute| a != MsgVpnRestDeliveryPointRestConsumerAttribute::RetryDelay ==> #[trigger] m.with_retry_delay(small).attribute(a) == m.attribute(a),
        m.with_tls_cipher_suite_list(text).attribute(MsgVpnRestDeliveryPointRestConsumerAttribute::TlsCipherSuiteList) == AttributeValue::Text(Some(text)),
        forall|a: MsgVpnRestDeliveryPointRestConsumerAttribute| a != MsgVpnRestDeliveryPointRestConsumerAttribute::TlsCipherSuiteList ==> #[trigger] m.with_tls_cipher_suite_list(text).attribute(a) == m.attribute(a),
        m.with_tls_enabled(flag).attribute(MsgVpnRestDeliveryPointRestConsumerAttribute::TlsEnabled) == AttributeValue::Flag(Some(flag)),
        forall|a: MsgVpnRestDeliveryPointRestConsumerAttribute| a != MsgVpnRestDeliveryPointRestConsumerAttribute::TlsEnabled ==> #[trigger] m.with_tls_enabled(flag).attribute(a) == m.attribute(a),
{
}

/// Removing an attribute makes it absent and leaves every other attribute exactly as it was.
#[verifier::rlimit(100)]
pub proof fn lemma_msg_vpn_rest_delivery_point_rest_consumer_reset_changes_only_its_attribute(m: MsgVpnRestDeliveryPointRestConsumerView)
    ensures
        m.without_authentication_client_cert_content().attribute(MsgVpnRestDeliveryPointRestConsumerAttribute::AuthenticationClientCertContent) == AttributeValue::Text(None),
        forall|a: MsgVpnRestDeliveryPointRestConsumerAttribute| a != MsgVpnRestDeliveryPointRestConsumerAttribute::AuthenticationClientCertContent ==> #[trigger] m.without_authentication_client_cert_content().attribute(a) == m.attribute(a),
        m.without_authentication_client_cert_password().attribute(MsgVpnRestDeliveryPointRestConsumerAttribute::AuthenticationClientCertPassword) == AttributeValue::Text(None),
        forall|a: MsgVpnRestDeliveryPointRestConsumerAttribute| a != MsgVpnRestDeliveryPointRestConsumerAttribute::AuthenticationClientCertPassword ==> #[trigger] m.without_authentication_client_cert_password().attribute(a) == m.attribute(a),
        m.without_authentication_http_basic_password().attribute(MsgVpnRestDeliveryPointRestConsumerAttribute::AuthenticationHttpBasicPassword) == AttributeValue::Text(None),
        forall|a: MsgVpnRestDeliveryPointRestConsumerAttribute| a != MsgVpnRestDeliveryPointRestConsumerAttribute::AuthenticationHttpBasicPassword ==> #[trigger] m.without_authentication_http_basic_password().attribute(a) == m.attribute(a),
        m.without_authentication_http_basic_username().attribute(MsgVpnRestDeliveryPointRestConsumerAttribute::AuthenticationHttpBasicUsername) == AttributeValue::Text(None),
        forall|a: MsgVpnRestDeliveryPointRestConsumerAttribute| a != MsgVpnRestDeliveryPointRestConsumerAttribute::AuthenticationHttpBasicUsername ==> #[trigger] m.without_authentication_http_basic_username().attribute(a) == m.attribute(a),
        m.without_authentication_scheme().attribute(MsgVpnRestDeliveryPointRestConsumerAttribute::AuthenticationScheme) == AttributeValue::Text(None),
        forall|a: MsgVpnRestDeliveryPointRestConsumerAttribute| a != MsgVpnRestDeliveryPointRestConsumerAttribute::AuthenticationScheme ==> #[trigger] m.without_authentication_scheme().attribute(a) == m.attribute(a),
        m.without_enabled().attribute(MsgVpnRestDeliveryPointRestConsumerAttribute::Enabled) == AttributeValue::Flag(None),
        forall|a: MsgVpnRestDeliveryPointRestConsumerAttribute| a != MsgVpnRestDeliveryPointRestConsumerAttribute::Enabled ==> #[trigger] m.without_enabled().attribute(a) == m.attribute(a),
        m.without_local_interface().attribute(MsgVpnRestDeliveryPointRestConsumerAttribute::LocalInterface) == AttributeValue::Text(None),
        forall|a: MsgVpnRestDeliveryPointRestConsumerAttribute| a != MsgVpnRestDeliveryPointRestConsumerAttribute::LocalInterface ==> #[trigger] m.without_local_interface().attribute(a) == m.attribute(a),
        m.without_max_post_wait_time().attribute(MsgVpnRestDeliveryPointRestConsumerAttribute::MaxPostWaitTime) == AttributeValue::Int32(None),
        forall|a: MsgVpnRestDeliveryPointRestConsumerAttribute| a != MsgVpnRestDeliveryPointRestConsumerAttribute::MaxPostWaitTime ==> #[trigger] m.without_max_post_wait_time().attribute(a) == m.attribute(a),
        m.without_msg_vpn_name().attribute(MsgVpnRestDeliveryPointRestConsumerAttribute::MsgVpnName) == AttributeValue::Text(None),
        forall|a: MsgVpnRestDeliveryPointRestConsumerAttribute| a != MsgVpnRestDeliveryPointRestConsumerAttribute::MsgVpnName ==> #[trigger] m.without_msg_vpn_name().attribute(a) == m.attribute(a),
        m.without_outgoing_connection_count().attribute(MsgVpnRestDeliveryPointRestConsumerAttribute::OutgoingConnectionCount) == AttributeValue::Int32(None),
        forall|a: MsgVpnRestDeliveryPointRestConsumerAttribute| a != MsgVpnRestDeliveryPointRestConsumerAttribute::OutgoingConnectionCount ==> #[trigger] m.without_outgoing_connection_count().attribute(a) == m.attribute(a),
        m.without_remote_host().attribute(MsgVpnRestDeliveryPointRestConsumerAttribute::RemoteHost) == AttributeValue::Text(None),
        forall|a: MsgVpnRestDeliveryPointRestConsumerAttribute| a != MsgVpnRestDeliveryPointRestConsumerAttribute::RemoteHost ==> #[trigger] m.without_remote_host().attribute(a) == m.attribute(a),
        m.without_remote_port().attribute(MsgVpnRestDeliveryPointRestConsumerAttribute::RemotePort) == AttributeValue::Int64(None),
        forall|a: MsgVpnRestDeliveryPointRestConsumerAttribute| a != MsgVpnRestDeliveryPointRestConsumerAttribute::RemotePort ==> #[trigger] m.without_remote_port().attribute(a) == m.attribute(a),
        m.without_rest_consumer_name().attribute(MsgVpnRestDeliveryPointRestConsumerAttribute::RestConsumerName) == AttributeValue::Text(None),
        forall|a: MsgVpnRestDeliveryPointRestConsumerAttribute| a != MsgVpnRestDeliveryPointRestConsumerAttribute::RestConsumerName ==> #[trigger] m.without_rest_consumer_name().attribute(a) == m.attribute(a),
        m.without_rest_delivery_point_name().attribute(MsgVpnRestDeliveryPointRestConsumerAttribute::RestDeliveryPointName) == AttributeValue::Text(None),
        forall|a: MsgVpnRestDeliveryPointRestConsumerAttribute| a != MsgVpnRestDeliveryPointRestConsumerAttribute::RestDeliveryPointName ==> #[trigger] m.without_rest_delivery_point_name().attribute(a) == m.attribute(a),
        m.without_retry_delay().attribute(MsgVpnRestDeliveryPointRestConsumerAttribute::RetryDelay) == AttributeValue::Int32(None),
        forall|a: MsgVpnRestDeliveryPointRestConsumerAttribute| a != MsgVpnRestDeliveryPointRestConsumerAttribute::RetryDelay ==> #[trigger] m.without_retry_delay().attribute(a) == m.attribute(a),
        m.without_tls_cipher_suite_list().attribute(MsgVpnRestDeliveryPointRestConsumerAttribute::TlsCipherSuiteList) == AttributeValue::Text(None),
        forall|a: MsgVpnRestDeliveryPointRestConsumerAttribute| a != MsgVpnRestDeliveryPointRestConsumerAttribute::TlsCipherSuiteList ==> #[trigger] m.without_tls_cipher_suite_list().attribute(a) == m.attribute(a),
        m.without_tls_enabled().attribute(MsgVpnRestDeliveryPointRestConsumerAttribute::TlsEnabled) == AttributeValue::Flag(None),
        forall|a: MsgVpnRestDeliveryPointRestConsumerAttribute| a != MsgVpnRestDeliveryPointRestConsumerAttribute::TlsEnabled ==> #[trigger] m.without_tls_enabled().attribute(a) == m.attribute(a),
{
}

} // verus!
