pub mod attribute;
pub mod event_threshold;
pub mod msg_vpn;
pub mod msg_vpn_client_profile;
pub mod msg_vpn_client_username;
pub mod msg_vpn_jndi_connection_factory;
pub mod msg_vpn_rest_delivery_point_rest_consumer;
pub mod msg_vpn_topic_endpoint;

pub use self::event_threshold::{EventThreshold, EventThresholdByPercent, EventThresholdByValue};
pub use self::msg_vpn::MsgVpn;
pub use self::msg_vpn_client_profile::MsgVpnClientProfile;
pub use self::msg_vpn_client_username::MsgVpnClientUsername;
pub use self::msg_vpn_jndi_connection_factory::MsgVpnJndiConnectionFactory;
pub use self::msg_vpn_rest_delivery_point_rest_consumer::MsgVpnRestDeliveryPointRestConsumer;
pub use self::msg_vpn_topic_endpoint::MsgVpnTopicEndpoint;
