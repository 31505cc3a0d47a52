use vstd::prelude::*;
use crate::models::attribute::AttributeValue;
use crate::models::event_threshold::EventThreshold;

verus! {

/// A Topic Endpoint of a Message VPN, with each of its configuration attributes present or absent.
#[derive(Debug)]
pub struct MsgVpnTopicEndpoint {
    /// The Topic Endpoint access type of either "exclusive" or "non-exclusive". The default value is `"exclusive"`. The allowed values and their meaning are:  <pre> "exclusive" - Exclusive delivery of messages to first bound client. "non-exclusive" - Non-exclusive delivery of messages to all bound clients. </pre>  Available since 2.4.
    access_type: Option<String>,
    /// Enable or disable the propagation of Consumer ACKs received on the active replication Message VPN to the standby replication Message VPN. The default value is `true`.
    consumer_ack_propagation_enabled: Option<bool>,
    /// The name of the Dead Message Queue (DMQ) used by the Topic Endpoint. The default value is `"#DEAD_MSG_QUEUE"`. Available since 2.2.
    dead_msg_queue: Option<String>,
    /// Enable or disable the egress flow of messages from the Topic Endpoint. The default value is `false`.
    egress_enabled: Option<bool>,
    /// The thresholds at which the bind count event is raised and cleared.
    event_bind_count_threshold: Option<EventThreshold>,
    /// The thresholds at which the reject low priority msg limit event is raised and cleared.
    event_reject_low_priority_msg_limit_threshold: Option<EventThreshold>,
    /// The thresholds at which the spool usage event is raised and cleared.
    event_spool_usage_threshold: Option<EventThreshold>,
    /// Enable or disable the ingress flow of messages to the Topic Endpoint. The default value is `false`.
    ingress_enabled: Option<bool>,
    /// The maximum number of simultaneous Consumers of the Topic Endpoint. The default value is `1`. Available since 2.4.
    max_bind_count: Option<i64>,
    /// The maximum allowed number of messages delivered but not acknowledged per flow for the Topic Endpoint. The default is the maximum value supported by the hardware. The default value is `10000`.
    max_delivered_unacked_msgs_per_flow: Option<i64>,
    /// The maximum message size allowed in the Topic Endpoint, in bytes. The default value is `10000000`.
    max_msg_size: Option<i32>,
    /// The maximum number of times the Topic Endpoint will attempt redelivery of a given message prior to it being discarded or moved to the #DEAD_MSG_QUEUE. A value of 0 means to retry forever. The default value is `0`.
    max_redelivery_count: Option<i64>,
    /// The maximum Message Spool usage by the Topic Endpoint (quota), in megabytes. Setting the value to zero enables the "last-value-queue" feature and disables quota checking. The default varies by platform. The default varies by platform.
    max_spool_usage: Option<i64>,
    /// The maximum number of seconds that a message can stay in the Topic Endpoint when "respectTtlEnabled" is "true". A message will expire according to the lesser of the TTL in the message (assigned by the Publisher) and the "maxTtl" configured on the Topic Endpoint. "maxTtl" is a 32-bit integer value from 1 to 4294967295 representing the expiry time in seconds. A "maxTtl" of "0" disables this feature. The default value is `0`.
    max_ttl: Option<i64>,
    /// The name of the Message VPN.
    msg_vpn_name: Option<String>,
    /// The Client Username which owns the Topic Endpoint. The default value is `""`.
    owner: Option<String>,
    /// Permission level for users of the Topic Endpoint, excluding the owner. The default value is `"no-access"`. The allowed values and their meaning are:  <pre> "no-access" - Disallows all access. "read-only" - Read-only access to the messages in the Topic Endpoint. "consume" - Consume (read and remove) messages in the Topic Endpoint. "modify-topic" - Consume messages or modify the topic/selector of the Topic Endpoint. "delete" - Consume messages, modify the topic/selector or delete the Topic Endpoint altogether. </pre>
    permission: Option<String>,
    /// Enable or disable if low priority messages are subject to "rejectLowPriorityMsgLimit" checking. This may only be enabled if "rejectMsgToSenderOnDiscardBehavior" does not have a value of "never". The default value is `false`.
    reject_low_priority_msg_enabled: Option<bool>,
    /// The number of messages of any priority in the Topic Endpoint above which low priority messages are not admitted but higher priority messages are allowed. The default value is `0`.
    reject_low_priority_msg_limit: Option<i64>,
    /// The circumstances under which a negative acknowledgement (NACK) is sent to the client on discards. Note that NACKs cause the message to not be delivered to any destination and transacted-session commits to fail. This attribute may only have a value of "never" if "rejectLowPriorityMsgEnabled" is disabled. The default value is `"never"`. The allowed values and their meaning are:  <pre> "always" - Message discards always result in negative acknowledgments (NACKs) being returned to the sending client, even if the discard reason is that the topic-endpoint is disabled. "when-topic-endpoint-enabled" - Message discards result in negative acknowledgments (NACKs) being returned to the sending client, except if the discard reason is that the Topic Endpoint is disabled. "never" - Message discards never result in negative acknowledgments (NACKs) being returned to the sending client. </pre>
    reject_msg_to_sender_on_discard_behavior: Option<String>,
    /// Enable or disable the respecting of message priority. If enabled, messages contained in the Topic Endpoint are delivered in priority order, from 9 (highest) to 0 (lowest). The default value is `false`. Available since 2.8.
    respect_msg_priority_enabled: Option<bool>,
    /// Enable or disable the respecting of "time to live" (TTL). If enabled, then messages contained in the Topic Endpoint are checked for expiry. If expired, the message is removed from the Topic Endpoint and either discarded or a copy of the message placed in the #DEAD_MSG_QUEUE Endpoint. The default value is `false`.
    respect_ttl_enabled: Option<bool>,
    /// The name of the Topic Endpoint.
    topic_endpoint_name: Option<String>,
}

/// The abstract value of a [`MsgVpnTopicEndpoint`]: each attribute, present with its value or absent.
/// Text attributes are held as sequences of characters.
pub struct MsgVpnTopicEndpointView {
    pub access_type: Option<Seq<char>>,
    pub consumer_ack_propagation_enabled: Option<bool>,
    pub dead_msg_queue: Option<Seq<char>>,
    pub egress_enabled: Option<bool>,
    pub event_bind_count_threshold: Option<EventThreshold>,
    pub event_reject_low_priority_msg_limit_threshold: Option<EventThreshold>,
    pub event_spool_usage_threshold: Option<EventThreshold>,
    pub ingress_enabled: Option<bool>,
    pub max_bind_count: Option<i64>,
    pub max_delivered_unacked_msgs_per_flow: Option<i64>,
    pub max_msg_size: Option<i32>,
    pub max_redelivery_count: Option<i64>,
    pub max_spool_usage: Option<i64>,
    pub max_ttl: Option<i64>,
    pub msg_vpn_name: Option<Seq<char>>,
    pub owner: Option<Seq<char>>,
    pub permission: Option<Seq<char>>,
    pub reject_low_priority_msg_enabled: Option<bool>,
    pub reject_low_priority_msg_limit: Option<i64>,
    pub reject_msg_to_sender_on_discard_behavior: Option<Seq<char>>,
    pub respect_msg_priority_enabled: Option<bool>,
    pub respect_ttl_enabled: Option<bool>,
    pub topic_endpoint_name: Option<Seq<char>>,
}

impl MsgVpnTopicEndpointView {
    /// The value with every attribute absent.
    pub open spec fn empty() -> MsgVpnTopicEndpointView {
        MsgVpnTopicEndpointView {
            access_type: None,
            consumer_ack_propagation_enabled: None,
            dead_msg_queue: None,
            egress_enabled: None,
            event_bind_count_threshold: None,
            event_reject_low_priority_msg_limit_threshold: None,
            event_spool_usage_threshold: None,
            ingress_enabled: None,
            max_bind_count: None,
            max_delivered_unacked_msgs_per_flow: None,
            max_msg_size: None,
            max_redelivery_count: None,
            max_spool_usage: None,
            max_ttl: None,
            msg_vpn_name: None,
            owner: None,
            permission: None,
            reject_low_priority_msg_enabled: None,
            reject_low_priority_msg_limit: None,
            reject_msg_to_sender_on_discard_behavior: None,
            respect_msg_priority_enabled: None,
            respect_ttl_enabled: None,
            topic_endpoint_name: None,
        }
    }

    /// This value with `accessType` present and equal to `v`.
    pub open spec fn with_access_type(self, v: Seq<char>) -> MsgVpnTopicEndpointView {
        MsgVpnTopicEndpointView { access_type: Some(v), ..self }
    }

    /// This value with `accessType` absent.
    pub open spec fn without_access_type(self) -> MsgVpnTopicEndpointView {
        MsgVpnTopicEndpointView { access_type: None, ..self }
    }

    /// This value with `consumerAckPropagationEnabled` present and equal to `v`.
    pub open spec fn with_consumer_ack_propagation_enabled(self, v: bool) -> MsgVpnTopicEndpointView {
        MsgVpnTopicEndpointView { consumer_ack_propagation_enabled: Some(v), ..self }
    }

    /// This value with `consumerAckPropagationEnabled` absent.
    pub open spec fn without_consumer_ack_propagation_enabled(self) -> MsgVpnTopicEndpointView {
        MsgVpnTopicEndpointView { consumer_ack_propagation_enabled: None, ..self }
    }

    /// This value with `deadMsgQueue` present and equal to `v`.
    pub open spec fn with_dead_msg_queue(self, v: Seq<char>) -> MsgVpnTopicEndpointView {
        MsgVpnTopicEndpointView { dead_msg_queue: Some(v), ..self }
    }

    /// This value with `deadMsgQueue` absent.
    pub open spec fn without_dead_msg_queue(self) -> MsgVpnTopicEndpointView {
        MsgVpnTopicEndpointView { dead_msg_queue: None, ..self }
    }

    /// This value with `egressEnabled` present and equal to `v`.
    pub open spec fn with_egress_enabled(self, v: bool) -> MsgVpnTopicEndpointView {
        MsgVpnTopicEndpointView { egress_enabled: Some(v), ..self }
    }

    /// This value with `egressEnabled` absent.
    pub open spec fn without_egress_enabled(self) -> MsgVpnTopicEndpointView {
        MsgVpnTopicEndpointView { egress_enabled: None, ..self }
    }

    /// This value with `eventBindCountThreshold` present and equal to `v`.
    pub open spec fn with_event_bind_count_threshold(self, v: EventThreshold) -> MsgVpnTopicEndpointView {
        MsgVpnTopicEndpointView { event_bind_count_threshold: Some(v), ..self }
    }

    /// This value with `eventBindCountThreshold` absent.
    pub open spec fn without_event_bind_count_threshold(self) -> MsgVpnTopicEndpointView {
        MsgVpnTopicEndpointView { event_bind_count_threshold: None, ..self }
    }

    /// This value with `eventRejectLowPriorityMsgLimitThreshold` present and equal to `v`.
    pub open spec fn with_event_reject_low_priority_msg_limit_threshold(self, v: EventThreshold) -> MsgVpnTopicEndpointView {
        MsgVpnTopicEndpointView { event_reject_low_priority_msg_limit_threshold: Some(v), ..self }
    }

    /// This value with `eventRejectLowPriorityMsgLimitThreshold` absent.
    pub open spec fn without_event_reject_low_priority_msg_limit_threshold(self) -> MsgVpnTopicEndpointView {
        MsgVpnTopicEndpointView { event_reject_low_priority_msg_limit_threshold: None, ..self }
    }

    /// This value with `eventSpoolUsageThreshold` present and equal to `v`.
    pub open spec fn with_event_spool_usage_threshold(self, v: EventThreshold) -> MsgVpnTopicEndpointView {
        MsgVpnTopicEndpointView { event_spool_usage_threshold: Some(v), ..self }
    }

    /// This value with `eventSpoolUsageThreshold` absent.
    pub open spec fn without_event_spool_usage_threshold(self) -> MsgVpnTopicEndpointView {
        MsgVpnTopicEndpointView { event_spool_usage_threshold: None, ..self }
    }

    /// This value with `ingressEnabled` present and equal to `v`.
    pub open spec fn with_ingress_enabled(self, v: bool) -> MsgVpnTopicEndpointView {
        MsgVpnTopicEndpointView { ingress_enabled: Some(v), ..self }
    }

    /// This value with `ingressEnabled` absent.
    pub open spec fn without_ingress_enabled(self) -> MsgVpnTopicEndpointView {
        MsgVpnTopicEndpointView { ingress_enabled: None, ..self }
    }

    /// This value with `maxBindCount` present and equal to `v`.
    pub open spec fn with_max_bind_count(self, v: i64) -> MsgVpnTopicEndpointView {
        MsgVpnTopicEndpointView { max_bind_count: Some(v), ..self }
    }

    /// This value with `maxBindCount` absent.
    pub open spec fn without_max_bind_count(self) -> MsgVpnTopicEndpointView {
        MsgVpnTopicEndpointView { max_bind_count: None, ..self }
    }

    /// This value with `maxDeliveredUnackedMsgsPerFlow` present and equal to `v`.
    pub open spec fn with_max_delivered_unacked_msgs_per_flow(self, v: i64) -> MsgVpnTopicEndpointView {
        MsgVpnTopicEndpointView { max_delivered_unacked_msgs_per_flow: Some(v), ..self }
    }

    /// This value with `maxDeliveredUnackedMsgsPerFlow` absent.
    pub open spec fn without_max_delivered_unacked_msgs_per_flow(self) -> MsgVpnTopicEndpointView {
        MsgVpnTopicEndpointView { max_delivered_unacked_msgs_per_flow: None, ..self }
    }

    /// This value with `maxMsgSize` present and equal to `v`.
    pub open spec fn with_max_msg_size(self, v: i32) -> MsgVpnTopicEndpointView {
        MsgVpnTopicEndpointView { max_msg_size: Some(v), ..self }
    }

    /// This value with `maxMsgSize` absent.
    pub open spec fn without_max_msg_size(self) -> MsgVpnTopicEndpointView {
        MsgVpnTopicEndpointView { max_msg_size: None, ..self }
    }

    /// This value with `maxRedeliveryCount` present and equal to `v`.
    pub open spec fn with_max_redelivery_count(self, v: i64) -> MsgVpnTopicEndpointView {
        MsgVpnTopicEndpointView { max_redelivery_count: Some(v), ..self }
    }

    /// This value with `maxRedeliveryCount` absent.
    pub open spec fn without_max_redelivery_count(self) -> MsgVpnTopicEndpointView {
        MsgVpnTopicEndpointView { max_redelivery_count: None, ..self }
    }

    /// This value with `maxSpoolUsage` present and equal to `v`.
    pub open spec fn with_max_spool_usage(self, v: i64) -> MsgVpnTopicEndpointView {
        MsgVpnTopicEndpointView { max_spool_usage: Some(v), ..self }
    }

    /// This value with `maxSpoolUsage` absent.
    pub open spec fn without_max_spool_usage(self) -> MsgVpnTopicEndpointView {
        MsgVpnTopicEndpointView { max_spool_usage: None, ..self }
    }

    /// This value with `maxTtl` present and equal to `v`.
    pub open spec fn with_max_ttl(self, v: i64) -> MsgVpnTopicEndpointView {
        MsgVpnTopicEndpointView { max_ttl: Some(v), ..self }
    }

    /// This value with `maxTtl` absent.
    pub open spec fn without_max_ttl(self) -> MsgVpnTopicEndpointView {
        MsgVpnTopicEndpointView { max_ttl: None, ..self }
    }

    /// This value with `msgVpnName` present and equal to `v`.
    pub open spec fn with_msg_vpn_name(self, v: Seq<char>) -> MsgVpnTopicEndpointView {
        MsgVpnTopicEndpointView { msg_vpn_name: Some(v), ..self }
    }

    /// This value with `msgVpnName` absent.
    pub open spec fn without_msg_vpn_name(self) -> MsgVpnTopicEndpointView {
        MsgVpnTopicEndpointView { msg_vpn_name: None, ..self }
    }

    /// This value with `owner` present and equal to `v`.
    pub open spec fn with_owner(self, v: Seq<char>) -> MsgVpnTopicEndpointView {
        MsgVpnTopicEndpointView { owner: Some(v), ..self }
    }

    /// This value with `owner` absent.
    pub open spec fn without_owner(self) -> MsgVpnTopicEndpointView {
        MsgVpnTopicEndpointView { owner: None, ..self }
    }

    /// This value with `permission` present and equal to `v`.
    pub open spec fn with_permission(self, v: Seq<char>) -> MsgVpnTopicEndpointView {
        MsgVpnTopicEndpointView { permission: Some(v), ..self }
    }

    /// This value with `permission` absent.
    pub open spec fn without_permission(self) -> MsgVpnTopicEndpointView {
        MsgVpnTopicEndpointView { permission: None, ..self }
    }

    /// This value with `rejectLowPriorityMsgEnabled` present and equal to `v`.
    pub open spec fn with_reject_low_priority_msg_enabled(self, v: bool) -> MsgVpnTopicEndpointView {
        MsgVpnTopicEndpointView { reject_low_priority_msg_enabled: Some(v), ..self }
    }

    /// This value with `rejectLowPriorityMsgEnabled` absent.
    pub open spec fn without_reject_low_priority_msg_enabled(self) -> MsgVpnTopicEndpointView {
        MsgVpnTopicEndpointView { reject_low_priority_msg_enabled: None, ..self }
    }

    /// This value with `rejectLowPriorityMsgLimit` present and equal to `v`.
    pub open spec fn with_reject_low_priority_msg_limit(self, v: i64) -> MsgVpnTopicEndpointView {
        MsgVpnTopicEndpointView { reject_low_priority_msg_limit: Some(v), ..self }
    }

    /// This value with `rejectLowPriorityMsgLimit` absent.
    pub open spec fn without_reject_low_priority_msg_limit(self) -> MsgVpnTopicEndpointView {
        MsgVpnTopicEndpointView { reject_low_priority_msg_limit: None, ..self }
    }

    /// This value with `rejectMsgToSenderOnDiscardBehavior` present and equal to `v`.
    pub open spec fn with_reject_msg_to_sender_on_discard_behavior(self, v: Seq<char>) -> MsgVpnTopicEndpointView {
        MsgVpnTopicEndpointView { reject_msg_to_sender_on_discard_behavior: Some(v), ..self }
    }

    /// This value with `rejectMsgToSenderOnDiscardBehavior` absent.
    pub open spec fn without_reject_msg_to_sender_on_discard_behavior(self) -> MsgVpnTopicEndpointView {
        MsgVpnTopicEndpointView { reject_msg_to_sender_on_discard_behavior: None, ..self }
    }

    /// This value with `respectMsgPriorityEnabled` present and equal to `v`.
    pub open spec fn with_respect_msg_priority_enabled(self, v: bool) -> MsgVpnTopicEndpointView {
        MsgVpnTopicEndpointView { respect_msg_priority_enabled: Some(v), ..self }
    }

    /// This value with `respectMsgPriorityEnabled` absent.
    pub open spec fn without_respect_msg_priority_enabled(self) -> MsgVpnTopicEndpointView {
        MsgVpnTopicEndpointView { respect_msg_priority_enabled: None, ..self }
    }

    /// This value with `respectTtlEnabled` present and equal to `v`.
    pub open spec fn with_respect_ttl_enabled(self, v: bool) -> MsgVpnTopicEndpointView {
        MsgVpnTopicEndpointView { respect_ttl_enabled: Some(v), ..self }
    }

    /// This value with `respectTtlEnabled` absent.
    pub open spec fn without_respect_ttl_enabled(self) -> MsgVpnTopicEndpointView {
        MsgVpnTopicEndpointView { respect_ttl_enabled: None, ..self }
    }

    /// This value with `topicEndpointName` present and equal to `v`.
    pub open spec fn with_topic_endpoint_name(self, v: Seq<char>) -> MsgVpnTopicEndpointView {
        MsgVpnTopicEndpointView { topic_endpoint_name: Some(v), ..self }
    }

    /// This value with `topicEndpointName` absent.
    pub open spec fn without_topic_endpoint_name(self) -> MsgVpnTopicEndpointView {
        MsgVpnTopicEndpointView { topic_endpoint_name: None, ..self }
    }
}

impl View for MsgVpnTopicEndpoint {
    type V = MsgVpnTopicEndpointView;

    closed spec fn view(&self) -> MsgVpnTopicEndpointView {
        MsgVpnTopicEndpointView {
            access_type: self.access_type.deep_view(),
            consumer_ack_propagation_enabled: self.consumer_ack_propagation_enabled.deep_view(),
            dead_msg_queue: self.dead_msg_queue.deep_view(),
            egress_enabled: self.egress_enabled.deep_view(),
            event_bind_count_threshold: self.event_bind_count_threshold.deep_view(),
            event_reject_low_priority_msg_limit_threshold: self.event_reject_low_priority_msg_limit_threshold.deep_view(),
            event_spool_usage_threshold: self.event_spool_usage_threshold.deep_view(),
            ingress_enabled: self.ingress_enabled.deep_view(),
            max_bind_count: self.max_bind_count.deep_view(),
            max_delivered_unacked_msgs_per_flow: self.max_delivered_unacked_msgs_per_flow.deep_view(),
            max_msg_size: self.max_msg_size.deep_view(),
            max_redelivery_count: self.max_redelivery_count.deep_view(),
            max_spool_usage: self.max_spool_usage.deep_view(),
            max_ttl: self.max_ttl.deep_view(),
            msg_vpn_name: self.msg_vpn_name.deep_view(),
            owner: self.owner.deep_view(),
            permission: self.permission.deep_view(),
            reject_low_priority_msg_enabled: self.reject_low_priority_msg_enabled.deep_view(),
            reject_low_priority_msg_limit: self.reject_low_priority_msg_limit.deep_view(),
            reject_msg_to_sender_on_discard_behavior: self.reject_msg_to_sender_on_discard_behavior.deep_view(),
            respect_msg_priority_enabled: self.respect_msg_priority_enabled.deep_view(),
            respect_ttl_enabled: self.respect_ttl_enabled.deep_view(),
            topic_endpoint_name: self.topic_endpoint_name.deep_view(),
        }
    }
}

impl MsgVpnTopicEndpoint {
    /// Returns a value with every attribute absent.
    pub fn new() -> (r: MsgVpnTopicEndpoint)
        ensures
            r@ == MsgVpnTopicEndpointView::empty(),
    {
        MsgVpnTopicEndpoint {
            access_type: None,
            consumer_ack_propagation_enabled: None,
            dead_msg_queue: None,
            egress_enabled: None,
            event_bind_count_threshold: None,
            event_reject_low_priority_msg_limit_threshold: None,
            event_spool_usage_threshold: None,
            ingress_enabled: None,
            max_bind_count: None,
            max_delivered_unacked_msgs_per_flow: None,
            max_msg_size: None,
            max_redelivery_count: None,
            max_spool_usage: None,
            max_ttl: None,
            msg_vpn_name: None,
            owner: None,
            permission: None,
            reject_low_priority_msg_enabled: None,
            reject_low_priority_msg_limit: None,
            reject_msg_to_sender_on_discard_behavior: None,
            respect_msg_priority_enabled: None,
            respect_ttl_enabled: None,
            topic_endpoint_name: None,
        }
    }

    /// Sets `accessType` to the given value; every other attribute is left as it was.
    pub fn set_access_type(&mut self, access_type: String)
        ensures
            final(self)@ == old(self)@.with_access_type(access_type@),
    {
        self.access_type = Some(access_type);
    }

    /// Returns this value with `accessType` set to the given value.
    pub fn with_access_type(self, access_type: String) -> (r: MsgVpnTopicEndpoint)
        ensures
            r@ == self@.with_access_type(access_type@),
    {
        let mut r = self;
        r.access_type = Some(access_type);
        r
    }

    /// Returns `accessType` if it is present.
    pub fn access_type(&self) -> (r: Option<&String>)
        ensures
            r.deep_view() == self@.access_type,
    {
        self.access_type.as_ref()
    }

    /// Removes `accessType`; every other attribute is left as it was.
    pub fn reset_access_type(&mut self)
        ensures
            final(self)@ == old(self)@.without_access_type(),
    {
        self.access_type = None;
    }

    /// Sets `consumerAckPropagationEnabled` to the given value; every other attribute is left as it was.
    pub fn set_consumer_ack_propagation_enabled(&mut self, consumer_ack_propagation_enabled: bool)
        ensures
            final(self)@ == old(self)@.with_consumer_ack_propagation_enabled(consumer_ack_propagation_enabled),
    {
        self.consumer_ack_propagation_enabled = Some(consumer_ack_propagation_enabled);
    }

    /// Returns this value with `consumerAckPropagationEnabled` set to the given value.
    pub fn with_consumer_ack_propagation_enabled(self, consumer_ack_propagation_enabled: bool) -> (r: MsgVpnTopicEndpoint)
        ensures
            r@ == self@.with_consumer_ack_propagation_enabled(consumer_ack_propagation_enabled),
    {
        let mut r = self;
        r.consumer_ack_propagation_enabled = Some(consumer_ack_propagation_enabled);
        r
    }

    /// Returns `consumerAckPropagationEnabled` if it is present.
    pub fn consumer_ack_propagation_enabled(&self) -> (r: Option<&bool>)
        ensures
            r.deep_view() == self@.consumer_ack_propagation_enabled,
    {
        self.consumer_ack_propagation_enabled.as_ref()
    }

    /// Removes `consumerAckPropagationEnabled`; every other attribute is left as it was.
    pub fn reset_consumer_ack_propagation_enabled(&mut self)
        ensures
            final(self)@ == old(self)@.without_consumer_ack_propagation_enabled(),
    {
        self.consumer_ack_propagation_enabled = None;
    }

    /// Sets `deadMsgQueue` to the given value; every other attribute is left as it was.
    pub fn set_dead_msg_queue(&mut self, dead_msg_queue: String)
        ensures
            final(self)@ == old(self)@.with_dead_msg_queue(dead_msg_queue@),
    {
        self.dead_msg_queue = Some(dead_msg_queue);
    }

    /// Returns this value with `deadMsgQueue` set to the given value.
    pub fn with_dead_msg_queue(self, dead_msg_queue: String) -> (r: MsgVpnTopicEndpoint)
        ensures
            r@ == self@.with_dead_msg_queue(dead_msg_queue@),
    {
        let mut r = self;
        r.dead_msg_queue = Some(dead_msg_queue);
        r
    }

    /// Returns `deadMsgQueue` if it is present.
    pub fn dead_msg_queue(&self) -> (r: Option<&String>)
        ensures
            r.deep_view() == self@.dead_msg_queue,
    {
        self.dead_msg_queue.as_ref()
    }

    /// Removes `deadMsgQueue`; every other attribute is left as it was.
    pub fn reset_dead_msg_queue(&mut self)
        ensures
            final(self)@ == old(self)@.without_dead_msg_queue(),
    {
        self.dead_msg_queue = None;
    }

    /// Sets `egressEnabled` to the given value; every other attribute is left as it was.
    pub fn set_egress_enabled(&mut self, egress_enabled: bool)
        ensures
            final(self)@ == old(self)@.with_egress_enabled(egress_enabled),
    {
        self.egress_enabled = Some(egress_enabled);
    }

    /// Returns this value with `egressEnabled` set to the given value.
    pub fn with_egress_enabled(self, egress_enabled: bool) -> (r: MsgVpnTopicEndpoint)
        ensures
            r@ == self@.with_egress_enabled(egress_enabled),
    {
        let mut r = self;
        r.egress_enabled = Some(egress_enabled);
        r
    }

    /// Returns `egressEnabled` if it is present.
    pub fn egress_enabled(&self) -> (r: Option<&bool>)
        ensures
            r.deep_view() == self@.egress_enabled,
    {
        self.egress_enabled.as_ref()
    }

    /// Removes `egressEnabled`; every other attribute is left as it was.
    pub fn reset_egress_enabled(&mut self)
        ensures
            final(self)@ == old(self)@.without_egress_enabled(),
    {
        self.egress_enabled = None;
    }

    /// Sets `eventBindCountThreshold` to the given value; every other attribute is left as it was.
    pub fn set_event_bind_count_threshold(&mut self, event_bind_count_threshold: EventThreshold)
        ensures
            final(self)@ == old(self)@.with_event_bind_count_threshold(event_bind_count_threshold),
    {
        self.event_bind_count_threshold = Some(event_bind_count_threshold);
    }

    /// Returns this value with `eventBindCountThreshold` set to the given value.
    pub fn with_event_bind_count_threshold(self, event_bind_count_threshold: EventThreshold) -> (r: MsgVpnTopicEndpoint)
        ensures
            r@ == self@.with_event_bind_count_threshold(event_bind_count_threshold),
    {
        let mut r = self;
        r.event_bind_count_threshold = Some(event_bind_count_threshold);
        r
    }

    /// Returns `eventBindCountThreshold` if it is present.
    pub fn event_bind_count_threshold(&self) -> (r: Option<&EventThreshold>)
        ensures
            r.deep_view() == self@.event_bind_count_threshold,
    {
        self.event_bind_count_threshold.as_ref()
    }

    /// Removes `eventBindCountThreshold`; every other attribute is left as it was.
    pub fn reset_event_bind_count_threshold(&mut self)
        ensures
            final(self)@ == old(self)@.without_event_bind_count_threshold(),
    {
        self.event_bind_count_threshold = None;
    }

    /// Sets `eventRejectLowPriorityMsgLimitThreshold` to the given value; every other attribute is left as it was.
    pub fn set_event_reject_low_priority_msg_limit_threshold(&mut self, event_reject_low_priority_msg_limit_threshold: EventThreshold)
        ensures
            final(self)@ == old(self)@.with_event_reject_low_priority_msg_limit_threshold(event_reject_low_priority_msg_limit_threshold),
    {
        self.event_reject_low_priority_msg_limit_threshold = Some(event_reject_low_priority_msg_limit_threshold);
    }

    /// Returns this value with `eventRejectLowPriorityMsgLimitThreshold` set to the given value.
    pub fn with_event_reject_low_priority_msg_limit_threshold(self, event_reject_low_priority_msg_limit_threshold: EventThreshold) -> (r: MsgVpnTopicEndpoint)
        ensures
            r@ == self@.with_event_reject_low_priority_msg_limit_threshold(event_reject_low_priority_msg_limit_threshold),
    {
        let mut r = self;
        r.event_reject_low_priority_msg_limit_threshold = Some(event_reject_low_priority_msg_limit_threshold);
        r
    }

    /// Returns `eventRejectLowPriorityMsgLimitThreshold` if it is present.
    pub fn event_reject_low_priority_msg_limit_threshold(&self) -> (r: Option<&EventThreshold>)
        ensures
            r.deep_view() == self@.event_reject_low_priority_msg_limit_threshold,
    {
        self.event_reject_low_priority_msg_limit_threshold.as_ref()
    }

    /// Removes `eventRejectLowPriorityMsgLimitThreshold`; every other attribute is left as it was.
    pub fn reset_event_reject_low_priority_msg_limit_threshold(&mut self)
        ensures
            final(self)@ == old(self)@.without_event_reject_low_priority_msg_limit_threshold(),
    {
        self.event_reject_low_priority_msg_limit_threshold = None;
    }

    /// Sets `eventSpoolUsageThreshold` to the given value; every other attribute is left as it was.
    pub fn set_event_spool_usage_threshold(&mut self, event_spool_usage_threshold: EventThreshold)
        ensures
            final(self)@ == old(self)@.with_event_spool_usage_threshold(event_spool_usage_threshold),
    {
        self.event_spool_usage_threshold = Some(event_spool_usage_threshold);
    }

    /// Returns this value with `eventSpoolUsageThreshold` set to the given value.
    pub fn with_event_spool_usage_threshold(self, event_spool_usage_threshold: EventThreshold) -> (r: MsgVpnTopicEndpoint)
        ensures
            r@ == self@.with_event_spool_usage_threshold(event_spool_usage_threshold),
    {
        let mut r = self;
        r.event_spool_usage_threshold = Some(event_spool_usage_threshold);
        r
    }

    /// Returns `eventSpoolUsageThreshold` if it is present.
    pub fn event_spool_usage_threshold(&self) -> (r: Option<&EventThreshold>)
        ensures
            r.deep_view() == self@.event_spool_usage_threshold,
    {
        self.event_spool_usage_threshold.as_ref()
    }

    /// Removes `eventSpoolUsageThreshold`; every other attribute is left as it was.
    pub fn reset_event_spool_usage_threshold(&mut self)
        ensures
            final(self)@ == old(self)@.without_event_spool_usage_threshold(),
    {
        self.event_spool_usage_threshold = None;
    }

    /// Sets `ingressEnabled` to the given value; every other attribute is left as it was.
    pub fn set_ingress_enabled(&mut self, ingress_enabled: bool)
        ensures
            final(self)@ == old(self)@.with_ingress_enabled(ingress_enabled),
    {
        self.ingress_enabled = Some(ingress_enabled);
    }

    /// Returns this value with `ingressEnabled` set to the given value.
    pub fn with_ingress_enabled(self, ingress_enabled: bool) -> (r: MsgVpnTopicEndpoint)
        ensures
            r@ == self@.with_ingress_enabled(ingress_enabled),
    {
        let mut r = self;
        r.ingress_enabled = Some(ingress_enabled);
        r
    }

    /// Returns `ingressEnabled` if it is present.
    pub fn ingress_enabled(&self) -> (r: Option<&bool>)
        ensures
            r.deep_view() == self@.ingress_enabled,
    {
        self.ingress_enabled.as_ref()
    }

    /// Removes `ingressEnabled`; every other attribute is left as it was.
    pub fn reset_ingress_enabled(&mut self)
        ensures
            final(self)@ == old(self)@.without_ingress_enabled(),
    {
        self.ingress_enabled = None;
    }

    /// Sets `maxBindCount` to the given value; every other attribute is left as it was.
    pub fn set_max_bind_count(&mut self, max_bind_count: i64)
        ensures
            final(self)@ == old(self)@.with_max_bind_count(max_bind_count),
    {
        self.max_bind_count = Some(max_bind_count);
    }

    /// Returns this value with `maxBindCount` set to the given value.
    pub fn with_max_bind_count(self, max_bind_count: i64) -> (r: MsgVpnTopicEndpoint)
        ensures
            r@ == self@.with_max_bind_count(max_bind_count),
    {
        let mut r = self;
        r.max_bind_count = Some(max_bind_count);
        r
    }

    /// Returns `maxBindCount` if it is present.
    pub fn max_bind_count(&self) -> (r: Option<&i64>)
        ensures
            r.deep_view() == self@.max_bind_count,
    {
        self.max_bind_count.as_ref()
    }

    /// Removes `maxBindCount`; every other attribute is left as it was.
    pub fn reset_max_bind_count(&mut self)
        ensures
            final(self)@ == old(self)@.without_max_bind_count(),
    {
        self.max_bind_count = None;
    }

    /// Sets `maxDeliveredUnackedMsgsPerFlow` to the given value; every other attribute is left as it was.
    pub fn set_max_delivered_unacked_msgs_per_flow(&mut self, max_delivered_unacked_msgs_per_flow: i64)
        ensures
            final(self)@ == old(self)@.with_max_delivered_unacked_msgs_per_flow(max_delivered_unacked_msgs_per_flow),
    {
        self.max_delivered_unacked_msgs_per_flow = Some(max_delivered_unacked_msgs_per_flow);
    }

    /// Returns this value with `maxDeliveredUnackedMsgsPerFlow` set to the given value.
    pub fn with_max_delivered_unacked_msgs_per_flow(self, max_delivered_unacked_msgs_per_flow: i64) -> (r: MsgVpnTopicEndpoint)
        ensures
            r@ == self@.with_max_delivered_unacked_msgs_per_flow(max_delivered_unacked_msgs_per_flow),
    {
        let mut r = self;
        r.max_delivered_unacked_msgs_per_flow = Some(max_delivered_unacked_msgs_per_flow);
        r
    }

    /// Returns `maxDeliveredUnackedMsgsPerFlow` if it is present.
    pub fn max_delivered_unacked_msgs_per_flow(&self) -> (r: Option<&i64>)
        ensures
            r.deep_view() == self@.max_delivered_unacked_msgs_per_flow,
    {
        self.max_delivered_unacked_msgs_per_flow.as_ref()
    }

    /// Removes `maxDeliveredUnackedMsgsPerFlow`; every other attribute is left as it was.
    pub fn reset_max_delivered_unacked_msgs_per_flow(&mut self)
        ensures
            final(self)@ == old(self)@.without_max_delivered_unacked_msgs_per_flow(),
    {
        self.max_delivered_unacked_msgs_per_flow = None;
    }

    /// Sets `maxMsgSize` to the given value; every other attribute is left as it was.
    pub fn set_max_msg_size(&mut self, max_msg_size: i32)
        ensures
            final(self)@ == old(self)@.with_max_msg_size(max_msg_size),
    {
        self.max_msg_size = Some(max_msg_size);
    }

    /// Returns this value with `maxMsgSize` set to the given value.
    pub fn with_max_msg_size(self, max_msg_size: i32) -> (r: MsgVpnTopicEndpoint)
        ensures
            r@ == self@.with_max_msg_size(max_msg_size),
    {
        let mut r = self;
        r.max_msg_size = Some(max_msg_size);
        r
    }

    /// Returns `maxMsgSize` if it is present.
    pub fn max_msg_size(&self) -> (r: Option<&i32>)
        ensures
            r.deep_view() == self@.max_msg_size,
    {
        self.max_msg_size.as_ref()
    }

    /// Removes `maxMsgSize`; every other attribute is left as it was.
    pub fn reset_max_msg_size(&mut self)
        ensures
            final(self)@ == old(self)@.without_max_msg_size(),
    {
        self.max_msg_size = None;
    }

    /// Sets `maxRedeliveryCount` to the given value; every other attribute is left as it was.
    pub fn set_max_redelivery_count(&mut self, max_redelivery_count: i64)
        ensures
            final(self)@ == old(self)@.with_max_redelivery_count(max_redelivery_count),
    {
        self.max_redelivery_count = Some(max_redelivery_count);
    }

    /// Returns this value with `maxRedeliveryCount` set to the given value.
    pub fn with_max_redelivery_count(self, max_redelivery_count: i64) -> (r: MsgVpnTopicEndpoint)
        ensures
            r@ == self@.with_max_redelivery_count(max_redelivery_count),
    {
        let mut r = self;
        r.max_redelivery_count = Some(max_redelivery_count);
        r
    }

    /// Returns `maxRedeliveryCount` if it is present.
    pub fn max_redelivery_count(&self) -> (r: Option<&i64>)
        ensures
            r.deep_view() == self@.max_redelivery_count,
    {
        self.max_redelivery_count.as_ref()
    }

    /// Removes `maxRedeliveryCount`; every other attribute is left as it was.
    pub fn reset_max_redelivery_count(&mut self)
        ensures
            final(self)@ == old(self)@.without_max_redelivery_count(),
    {
        self.max_redelivery_count = None;
    }

    /// Sets `maxSpoolUsage` to the given value; every other attribute is left as it was.
    pub fn set_max_spool_usage(&mut self, max_spool_usage: i64)
        ensures
            final(self)@ == old(self)@.with_max_spool_usage(max_spool_usage),
    {
        self.max_spool_usage = Some(max_spool_usage);
    }

    /// Returns this value with `maxSpoolUsage` set to the given value.
    pub fn with_max_spool_usage(self, max_spool_usage: i64) -> (r: MsgVpnTopicEndpoint)
        ensures
            r@ == self@.with_max_spool_usage(max_spool_usage),
    {
        let mut r = self;
        r.max_spool_usage = Some(max_spool_usage);
        r
    }

    /// Returns `maxSpoolUsage` if it is present.
    pub fn max_spool_usage(&self) -> (r: Option<&i64>)
        ensures
            r.deep_view() == self@.max_spool_usage,
    {
        self.max_spool_usage.as_ref()
    }

    /// Removes `maxSpoolUsage`; every other attribute is left as it was.
    pub fn reset_max_spool_usage(&mut self)
        ensures
            final(self)@ == old(self)@.without_max_spool_usage(),
    {
        self.max_spool_usage = None;
    }

    /// Sets `maxTtl` to the given value; every other attribute is left as it was.
    pub fn set_max_ttl(&mut self, max_ttl: i64)
        ensures
            final(self)@ == old(self)@.with_max_ttl(max_ttl),
    {
        self.max_ttl = Some(max_ttl);
    }

    /// Returns this value with `maxTtl` set to the given value.
    pub fn with_max_ttl(self, max_ttl: i64) -> (r: MsgVpnTopicEndpoint)
        ensures
            r@ == self@.with_max_ttl(max_ttl),
    {
        let mut r = self;
        r.max_ttl = Some(max_ttl);
        r
    }

    /// Returns `maxTtl` if it is present.
    pub fn max_ttl(&self) -> (r: Option<&i64>)
        ensures
            r.deep_view() == self@.max_ttl,
    {
        self.max_ttl.as_ref()
    }

    /// Removes `maxTtl`; every other attribute is left as it was.
    pub fn reset_max_ttl(&mut self)
        ensures
            final(self)@ == old(self)@.without_max_ttl(),
    {
        self.max_ttl = None;
    }

    /// Sets `msgVpnName` to the given value; every other attribute is left as it was.
    pub fn set_msg_vpn_name(&mut self, msg_vpn_name: String)
        ensures
            final(self)@ == old(self)@.with_msg_vpn_name(msg_vpn_name@),
    {
        self.msg_vpn_name = Some(msg_vpn_name);
    }

    /// Returns this value with `msgVpnName` set to the given value.
    pub fn with_msg_vpn_name(self, msg_vpn_name: String) -> (r: MsgVpnTopicEndpoint)
        ensures
            r@ == self@.with_msg_vpn_name(msg_vpn_name@),
    {
        let mut r = self;
        r.msg_vpn_name = Some(msg_vpn_name);
        r
    }

    /// Returns `msgVpnName` if it is present.
    pub fn msg_vpn_name(&self) -> (r: Option<&String>)
        ensures
            r.deep_view() == self@.msg_vpn_name,
    {
        self.msg_vpn_name.as_ref()
    }

    /// Removes `msgVpnName`; every other attribute is left as it was.
    pub fn reset_msg_vpn_name(&mut self)
        ensures
            final(self)@ == old(self)@.without_msg_vpn_name(),
    {
        self.msg_vpn_name = None;
    }

    /// Sets `owner` to the given value; every other attribute is left as it was.
    pub fn set_owner(&mut self, owner: String)
        ensures
            final(self)@ == old(self)@.with_owner(owner@),
    {
        self.owner = Some(owner);
    }

    /// Returns this value with `owner` set to the given value.
    pub fn with_owner(self, owner: String) -> (r: MsgVpnTopicEndpoint)
        ensures
            r@ == self@.with_owner(owner@),
    {
        let mut r = self;
        r.owner = Some(owner);
        r
    }

    /// Returns `owner` if it is present.
    pub fn owner(&self) -> (r: Option<&String>)
        ensures
            r.deep_view() == self@.owner,
    {
        self.owner.as_ref()
    }

    /// Removes `owner`; every other attribute is left as it was.
    pub fn reset_owner(&mut self)
        ensures
            final(self)@ == old(self)@.without_owner(),
    {
        self.owner = None;
    }

    /// Sets `permission` to the given value; every other attribute is left as it was.
    pub fn set_permission(&mut self, permission: String)
        ensures
            final(self)@ == old(self)@.with_permission(permission@),
    {
        self.permission = Some(permission);
    }

    /// Returns this value with `permission` set to the given value.
    pub fn with_permission(self, permission: String) -> (r: MsgVpnTopicEndpoint)
        ensures
            r@ == self@.with_permission(permission@),
    {
        let mut r = self;
        r.permission = Some(permission);
        r
    }

    /// Returns `permission` if it is present.
    pub fn permission(&self) -> (r: Option<&String>)
        ensures
            r.deep_view() == self@.permission,
    {
        self.permission.as_ref()
    }

    /// Removes `permission`; every other attribute is left as it was.
    pub fn reset_permission(&mut self)
        ensures
            final(self)@ == old(self)@.without_permission(),
    {
        self.permission = None;
    }

    /// Sets `rejectLowPriorityMsgEnabled` to the given value; every other attribute is left as it was.
    pub fn set_reject_low_priority_msg_enabled(&mut self, reject_low_priority_msg_enabled: bool)
        ensures
            final(self)@ == old(self)@.with_reject_low_priority_msg_enabled(reject_low_priority_msg_enabled),
    {
        self.reject_low_priority_msg_enabled = Some(reject_low_priority_msg_enabled);
    }

    /// Returns this value with `rejectLowPriorityMsgEnabled` set to the given value.
    pub fn with_reject_low_priority_msg_enabled(self, reject_low_priority_msg_enabled: bool) -> (r: MsgVpnTopicEndpoint)
        ensures
            r@ == self@.with_reject_low_priority_msg_enabled(reject_low_priority_msg_enabled),
    {
        let mut r = self;
        r.reject_low_priority_msg_enabled = Some(reject_low_priority_msg_enabled);
        r
    }

    /// Returns `rejectLowPriorityMsgEnabled` if it is present.
    pub fn reject_low_priority_msg_enabled(&self) -> (r: Option<&bool>)
        ensures
            r.deep_view() == self@.reject_low_priority_msg_enabled,
    {
        self.reject_low_priority_msg_enabled.as_ref()
    }

    /// Removes `rejectLowPriorityMsgEnabled`; every other attribute is left as it was.
    pub fn reset_reject_low_priority_msg_enabled(&mut self)
        ensures
            final(self)@ == old(self)@.without_reject_low_priority_msg_enabled(),
    {
        self.reject_low_priority_msg_enabled = None;
    }

    /// Sets `rejectLowPriorityMsgLimit` to the given value; every other attribute is left as it was.
    pub fn set_reject_low_priority_msg_limit(&mut self, reject_low_priority_msg_limit: i64)
        ensures
            final(self)@ == old(self)@.with_reject_low_priority_msg_limit(reject_low_priority_msg_limit),
    {
        self.reject_low_priority_msg_limit = Some(reject_low_priority_msg_limit);
    }

    /// Returns this value with `rejectLowPriorityMsgLimit` set to the given value.
    pub fn with_reject_low_priority_msg_limit(self, reject_low_priority_msg_limit: i64) -> (r: MsgVpnTopicEndpoint)
        ensures
            r@ == self@.with_reject_low_priority_msg_limit(reject_low_priority_msg_limit),
    {
        let mut r = self;
        r.reject_low_priority_msg_limit = Some(reject_low_priority_msg_limit);
        r
    }

    /// Returns `rejectLowPriorityMsgLimit` if it is present.
    pub fn reject_low_priority_msg_limit(&self) -> (r: Option<&i64>)
        ensures
            r.deep_view() == self@.reject_low_priority_msg_limit,
    {
        self.reject_low_priority_msg_limit.as_ref()
    }

    /// Removes `rejectLowPriorityMsgLimit`; every other attribute is left as it was.
    pub fn reset_reject_low_priority_msg_limit(&mut self)
        ensures
            final(self)@ == old(self)@.without_reject_low_priority_msg_limit(),
    {
        self.reject_low_priority_msg_limit = None;
    }

    /// Sets `rejectMsgToSenderOnDiscardBehavior` to the given value; every other attribute is left as it was.
    pub fn set_reject_msg_to_sender_on_discard_behavior(&mut self, reject_msg_to_sender_on_discard_behavior: String)
        ensures
            final(self)@ == old(self)@.with_reject_msg_to_sender_on_discard_behavior(reject_msg_to_sender_on_discard_behavior@),
    {
        self.reject_msg_to_sender_on_discard_behavior = Some(reject_msg_to_sender_on_discard_behavior);
    }

    /// Returns this value with `rejectMsgToSenderOnDiscardBehavior` set to the given value.
    pub fn with_reject_msg_to_sender_on_discard_behavior(self, reject_msg_to_sender_on_discard_behavior: String) -> (r: MsgVpnTopicEndpoint)
        ensures
            r@ == self@.with_reject_msg_to_sender_on_discard_behavior(reject_msg_to_sender_on_discard_behavior@),
    {
        let mut r = self;
        r.reject_msg_to_sender_on_discard_behavior = Some(reject_msg_to_sender_on_discard_behavior);
        r
    }

    /// Returns `rejectMsgToSenderOnDiscardBehavior` if it is present.
    pub fn reject_msg_to_sender_on_discard_behavior(&self) -> (r: Option<&String>)
        ensures
            r.deep_view() == self@.reject_msg_to_sender_on_discard_behavior,
    {
        self.reject_msg_to_sender_on_discard_behavior.as_ref()
    }

    /// Removes `rejectMsgToSenderOnDiscardBehavior`; every other attribute is left as it was.
    pub fn reset_reject_msg_to_sender_on_discard_behavior(&mut self)
        ensures
            final(self)@ == old(self)@.without_reject_msg_to_sender_on_discard_behavior(),
    {
        self.reject_msg_to_sender_on_discard_behavior = None;
    }

    /// Sets `respectMsgPriorityEnabled` to the given value; every other attribute is left as it was.
    pub fn set_respect_msg_priority_enabled(&mut self, respect_msg_priority_enabled: bool)
        ensures
            final(self)@ == old(self)@.with_respect_msg_priority_enabled(respect_msg_priority_enabled),
    {
        self.respect_msg_priority_enabled = Some(respect_msg_priority_enabled);
    }

    /// Returns this value with `respectMsgPriorityEnabled` set to the given value.
    pub fn with_respect_msg_priority_enabled(self, respect_msg_priority_enabled: bool) -> (r: MsgVpnTopicEndpoint)
        ensures
            r@ == self@.with_respect_msg_priority_enabled(respect_msg_priority_enabled),
    {
        let mut r = self;
        r.respect_msg_priority_enabled = Some(respect_msg_priority_enabled);
        r
    }

    /// Returns `respectMsgPriorityEnabled` if it is present.
    pub fn respect_msg_priority_enabled(&self) -> (r: Option<&bool>)
        ensures
            r.deep_view() == self@.respect_msg_priority_enabled,
    {
        self.respect_msg_priority_enabled.as_ref()
    }

    /// Removes `respectMsgPriorityEnabled`; every other attribute is left as it was.
    pub fn reset_respect_msg_priority_enabled(&mut self)
        ensures
            final(self)@ == old(self)@.without_respect_msg_priority_enabled(),
    {
        self.respect_msg_priority_enabled = None;
    }

    /// Sets `respectTtlEnabled` to the given value; every other attribute is left as it was.
    pub fn set_respect_ttl_enabled(&mut self, respect_ttl_enabled: bool)
        ensures
            final(self)@ == old(self)@.with_respect_ttl_enabled(respect_ttl_enabled),
    {
        self.respect_ttl_enabled = Some(respect_ttl_enabled);
    }

    /// Returns this value with `respectTtlEnabled` set to the given value.
    pub fn with_respect_ttl_enabled(self, respect_ttl_enabled: bool) -> (r: MsgVpnTopicEndpoint)
        ensures
            r@ == self@.with_respect_ttl_enabled(respect_ttl_enabled),
    {
        let mut r = self;
        r.respect_ttl_enabled = Some(respect_ttl_enabled);
        r
    }

    /// Returns `respectTtlEnabled` if it is present.
    pub fn respect_ttl_enabled(&self) -> (r: Option<&bool>)
        ensures
            r.deep_view() == self@.respect_ttl_enabled,
    {
        self.respect_ttl_enabled.as_ref()
    }

    /// Removes `respectTtlEnabled`; every other attribute is left as it was.
    pub fn reset_respect_ttl_enabled(&mut self)
        ensures
            final(self)@ == old(self)@.without_respect_ttl_enabled(),
    {
        self.respect_ttl_enabled = None;
    }

    /// Sets `topicEndpointName` to the given value; every other attribute is left as it was.
    pub fn set_topic_endpoint_name(&mut self, topic_endpoint_name: String)
        ensures
            final(self)@ == old(self)@.with_topic_endpoint_name(topic_endpoint_name@),
    {
        self.topic_endpoint_name = Some(topic_endpoint_name);
    }

    /// Returns this value with `topicEndpointName` set to the given value.
    pub fn with_topic_endpoint_name(self, topic_endpoint_name: String) -> (r: MsgVpnTopicEndpoint)
        ensures
            r@ == self@.with_topic_endpoint_name(topic_endpoint_name@),
    {
        let mut r = self;
        r.topic_endpoint_name = Some(topic_endpoint_name);
        r
    }

    /// Returns `topicEndpointName` if it is present.
    pub fn topic_endpoint_name(&self) -> (r: Option<&String>)
        ensures
            r.deep_view() == self@.topic_endpoint_name,
    {
        self.topic_endpoint_name.as_ref()
    }

    /// Removes `topicEndpointName`; every other attribute is left as it was.
    pub fn reset_topic_endpoint_name(&mut self)
        ensures
            final(self)@ == old(self)@.without_topic_endpoint_name(),
    {
        self.topic_endpoint_name = None;
    }
}

/// A freshly made value has no attribute present: every read of a new value gives nothing.
pub proof fn lemma_msg_vpn_topic_endpoint_new_is_empty()
    ensures
        MsgVpnTopicEndpointView::empty().access_type is None,
        MsgVpnTopicEndpointView::empty().consumer_ack_propagation_enabled is None,
        MsgVpnTopicEndpointView::empty().dead_msg_queue is None,
        MsgVpnTopicEndpointView::empty().egress_enabled is None,
        MsgVpnTopicEndpointView::empty().event_bind_count_threshold is None,
        MsgVpnTopicEndpointView::empty().event_reject_low_priority_msg_limit_threshold is None,
        MsgVpnTopicEndpointView::empty().event_spool_usage_threshold is None,
        MsgVpnTopicEndpointView::empty().ingress_enabled is None,
        MsgVpnTopicEndpointView::empty().max_bind_count is None,
        MsgVpnTopicEndpointView::empty().max_delivered_unacked_msgs_per_flow is None,
        MsgVpnTopicEndpointView::empty().max_msg_size is None,
        MsgVpnTopicEndpointView::empty().max_redelivery_count is None,
        MsgVpnTopicEndpointView::empty().max_spool_usage is None,
        MsgVpnTopicEndpointView::empty().max_ttl is None,
        MsgVpnTopicEndpointView::empty().msg_vpn_name is None,
        MsgVpnTopicEndpointView::empty().owner is None,
        MsgVpnTopicEndpointView::empty().permission is None,
        MsgVpnTopicEndpointView::empty().reject_low_priority_msg_enabled is None,
        MsgVpnTopicEndpointView::empty().reject_low_priority_msg_limit is None,
        MsgVpnTopicEndpointView::empty().reject_msg_to_sender_on_discard_behavior is None,
        MsgVpnTopicEndpointView::empty().respect_msg_priority_enabled is None,
        MsgVpnTopicEndpointView::empty().respect_ttl_enabled is None,
        MsgVpnTopicEndpointView::empty().topic_endpoint_name is None,
{
}

/// Reading an attribute right after writing it gives the value written,
/// and reading it right after removing it gives nothing.
pub proof fn lemma_msg_vpn_topic_endpoint_read_after_write(m: MsgVpnTopicEndpointView, text: Seq<char>, flag: bool, threshold: EventThreshold, number: i64, small: i32)
    ensures
        m.with_access_type(text).access_type == Some(text) && m.without_access_type().access_type is None,
        m.with_consumer_ack_propagation_enabled(flag).consumer_ack_propagation_enabled == Some(flag) && m.without_consumer_ack_propagation_enabled().consumer_ack_propagation_enabled is None,
        m.with_dead_msg_queue(text).dead_msg_queue == Some(text) && m.without_dead_msg_queue().dead_msg_queue is None,
        m.with_egress_enabled(flag).egress_enabled == Some(flag) && m.without_egress_enabled().egress_enabled is None,
        m.with_event_bind_count_threshold(threshold).event_bind_count_threshold == Some(threshold) && m.without_event_bind_count_threshold().event_bind_count_threshold is None,
        m.with_event_reject_low_priority_msg_limit_threshold(threshold).event_reject_low_priority_msg_limit_threshold == Some(threshold) && m.without_event_reject_low_priority_msg_limit_threshold().event_reject_low_priority_msg_limit_threshold is None,
        m.with_event_spool_usage_threshold(threshold).event_spool_usage_threshold == Some(threshold) && m.without_event_spool_usage_threshold().event_spool_usage_threshold is None,
        m.with_ingress_enabled(flag).ingress_enabled == Some(flag) && m.without_ingress_enabled().ingress_enabled is None,
        m.with_max_bind_count(number).max_bind_count == Some(number) && m.without_max_bind_count().max_bind_count is None,
        m.with_max_delivered_unacked_msgs_per_flow(number).max_delivered_unacked_msgs_per_flow == Some(number) && m.without_max_delivered_unacked_msgs_per_flow().max_delivered_unacked_msgs_per_flow is None,
        m.with_max_msg_size(small).max_msg_size == Some(small) && m.without_max_msg_size().max_msg_size is None,
        m.with_max_redelivery_count(number).max_redelivery_count == Some(number) && m.without_max_redelivery_count().max_redelivery_count is None,
        m.with_max_spool_usage(number).max_spool_usage == Some(number) && m.without_max_spool_usage().max_spool_usage is None,
        m.with_max_ttl(number).max_ttl == Some(number) && m.without_max_ttl().max_ttl is None,
        m.with_msg_vpn_name(text).msg_vpn_name == Some(text) && m.without_msg_vpn_name().msg_vpn_name is None,
        m.with_owner(text).owner == Some(text) && m.without_owner().owner is None,
        m.with_permission(text).permission == Some(text) && m.without_permission().permission is None,
        m.with_reject_low_priority_msg_enabled(flag).reject_low_priority_msg_enabled == Some(flag) && m.without_reject_low_priority_msg_enabled().reject_low_priority_msg_enabled is None,
        m.with_reject_low_priority_msg_limit(number).reject_low_priority_msg_limit == Some(number) && m.without_reject_low_priority_msg_limit().reject_low_priority_msg_limit is None,
        m.with_reject_msg_to_sender_on_discard_behavior(text).reject_msg_to_sender_on_discard_behavior == Some(text) && m.without_reject_msg_to_sender_on_discard_behavior().reject_msg_to_sender_on_discard_behavior is None,
        m.with_respect_msg_priority_enabled(flag).respect_msg_priority_enabled == Some(flag) && m.without_respect_msg_priority_enabled().respect_msg_priority_enabled is None,
        m.with_respect_ttl_enabled(flag).respect_ttl_enabled == Some(flag) && m.without_respect_ttl_enabled().respect_ttl_enabled is None,
        m.with_topic_endpoint_name(text).topic_endpoint_name == Some(text) && m.without_topic_endpoint_name().topic_endpoint_name is None,
{
}

/// Of two writes to the same attribute, the later one wins.
pub proof fn lemma_msg_vpn_topic_endpoint_last_write_wins(m: MsgVpnTopicEndpointView, text_a: Seq<char>, text_b: Seq<char>, flag_a: bool, flag_b: bool, threshold_a: EventThreshold, threshold_b: EventThreshold, number_a: i64, number_b: i64, small_a: i32, small_b: i32)
    ensures
        m.with_access_type(text_a).with_access_type(text_b) == m.with_access_type(text_b),
        m.with_consumer_ack_propagation_enabled(flag_a).with_consumer_ack_propagation_enabled(flag_b) == m.with_consumer_ack_propagation_enabled(flag_b),
        m.with_dead_msg_queue(text_a).with_dead_msg_queue(text_b) == m.with_dead_msg_queue(text_b),
        m.with_egress_enabled(flag_a).with_egress_enabled(flag_b) == m.with_egress_enabled(flag_b),
        m.with_event_bind_count_threshold(threshold_a).with_event_bind_count_threshold(threshold_b) == m.with_event_bind_count_threshold(threshold_b),
        m.with_event_reject_low_priority_msg_limit_threshold(threshold_a).with_event_reject_low_priority_msg_limit_threshold(threshold_b) == m.with_event_reject_low_priority_msg_limit_threshold(threshold_b),
        m.with_event_spool_usage_threshold(threshold_a).with_event_spool_usage_threshold(threshold_b) == m.with_event_spool_usage_threshold(threshold_b),
        m.with_ingress_enabled(flag_a).with_ingress_enabled(flag_b) == m.with_ingress_enabled(flag_b),
        m.with_max_bind_count(number_a).with_max_bind_count(number_b) == m.with_max_bind_count(number_b),
        m.with_max_delivered_unacked_msgs_per_flow(number_a).with_max_delivered_unacked_msgs_per_flow(number_b) == m.with_max_delivered_unacked_msgs_per_flow(number_b),
        m.with_max_msg_size(small_a).with_max_msg_size(small_b) == m.with_max_msg_size(small_b),
        m.with_max_redelivery_count(number_a).with_max_redelivery_count(number_b) == m.with_max_redelivery_count(number_b),
        m.with_max_spool_usage(number_a).with_max_spool_usage(number_b) == m.with_max_spool_usage(number_b),
        m.with_max_ttl(number_a).with_max_ttl(number_b) == m.with_max_ttl(number_b),
        m.with_msg_vpn_name(text_a).with_msg_vpn_name(text_b) == m.with_msg_vpn_name(text_b),
        m.with_owner(text_a).with_owner(text_b) == m.with_owner(text_b),
        m.with_permission(text_a).with_permission(text_b) == m.with_permission(text_b),
        m.with_reject_low_priority_msg_enabled(flag_a).with_reject_low_priority_msg_enabled(flag_b) == m.with_reject_low_priority_msg_enabled(flag_b),
        m.with_reject_low_priority_msg_limit(number_a).with_reject_low_priority_msg_limit(number_b) == m.with_reject_low_priority_msg_limit(number_b),
        m.with_reject_msg_to_sender_on_discard_behavior(text_a).with_reject_msg_to_sender_on_discard_behavior(text_b) == m.with_reject_msg_to_sender_on_discard_behavior(text_b),
        m.with_respect_msg_priority_enabled(flag_a).with_respect_msg_priority_enabled(flag_b) == m.with_respect_msg_priority_enabled(flag_b),
        m.with_respect_ttl_enabled(flag_a).with_respect_ttl_enabled(flag_b) == m.with_respect_ttl_enabled(flag_b),
        m.with_topic_endpoint_name(text_a).with_topic_endpoint_name(text_b) == m.with_topic_endpoint_name(text_b),
{
}

/// Writing an attribute changes no other attribute: once that attribute is removed again,
/// the result is the starting value with that attribute removed.
pub proof fn lemma_msg_vpn_topic_endpoint_write_touches_one_attribute(m: MsgVpnTopicEndpointView, text: Seq<char>, flag: bool, threshold: EventThreshold, number: i64, small: i32)
    ensures
        m.with_access_type(text).without_access_type() == m.without_access_type(),
        m.with_consumer_ack_propagation_enabled(flag).without_consumer_ack_propagation_enabled() == m.without_consumer_ack_propagation_enabled(),
        m.with_dead_msg_queue(text).without_dead_msg_queue() == m.without_dead_msg_queue(),
        m.with_egress_enabled(flag).without_egress_enabled() == m.without_egress_enabled(),
        m.with_event_bind_count_threshold(threshold).without_event_bind_count_threshold() == m.without_event_bind_count_threshold(),
        m.with_event_reject_low_priority_msg_limit_threshold(threshold).without_event_reject_low_priority_msg_limit_threshold() == m.without_event_reject_low_priority_msg_limit_threshold(),
        m.with_event_spool_usage_threshold(threshold).without_event_spool_usage_threshold() == m.without_event_spool_usage_threshold(),
        m.with_ingress_enabled(flag).without_ingress_enabled() == m.without_ingress_enabled(),
        m.with_max_bind_count(number).without_max_bind_count() == m.without_max_bind_count(),
        m.with_max_delivered_unacked_msgs_per_flow(number).without_max_delivered_unacked_msgs_per_flow() == m.without_max_delivered_unacked_msgs_per_flow(),
        m.with_max_msg_size(small).without_max_msg_size() == m.without_max_msg_size(),
        m.with_max_redelivery_count(number).without_max_redelivery_count() == m.without_max_redelivery_count(),
        m.with_max_spool_usage(number).without_max_spool_usage() == m.without_max_spool_usage(),
        m.with_max_ttl(number).without_max_ttl() == m.without_max_ttl(),
        m.with_msg_vpn_name(text).without_msg_vpn_name() == m.without_msg_vpn_name(),
        m.with_owner(text).without_owner() == m.without_owner(),
        m.with_permission(text).without_permission() == m.without_permission(),
        m.with_reject_low_priority_msg_enabled(flag).without_reject_low_priority_msg_enabled() == m.without_reject_low_priority_msg_enabled(),
        m.with_reject_low_priority_msg_limit(number).without_reject_low_priority_msg_limit() == m.without_reject_low_priority_msg_limit(),
        m.with_reject_msg_to_sender_on_discard_behavior(text).without_reject_msg_to_sender_on_discard_behavior() == m.without_reject_msg_to_sender_on_discard_behavior(),
        m.with_respect_msg_priority_enabled(flag).without_respect_msg_priority_enabled() == m.without_respect_msg_priority_enabled(),
        m.with_respect_ttl_enabled(flag).without_respect_ttl_enabled() == m.without_respect_ttl_enabled(),
        m.with_topic_endpoint_name(text).without_topic_endpoint_name() == m.without_topic_endpoint_name(),
{
}

/// Removing an attribute that was absent before a write undoes that write.
pub proof fn lemma_msg_vpn_topic_endpoint_reset_undoes_write(m: MsgVpnTopicEndpointView, text: Seq<char>, flag: bool, threshold: EventThreshold, number: i64, small: i32)
    ensures
        m.access_type is None ==> m.with_access_type(text).without_access_type() == m,
        m.consumer_ack_propagation_enabled is None ==> m.with_consumer_ack_propagation_enabled(flag).without_consumer_ack_propagation_enabled() == m,
        m.dead_msg_queue is None ==> m.with_dead_msg_queue(text).without_dead_msg_queue() == m,
        m.egress_enabled is None ==> m.with_egress_enabled(flag).without_egress_enabled() == m,
        m.event_bind_count_threshold is None ==> m.with_event_bind_count_threshold(threshold).without_event_bind_count_threshold() == m,
        m.event_reject_low_priority_msg_limit_threshold is None ==> m.with_event_reject_low_priority_msg_limit_threshold(threshold).without_event_reject_low_priority_msg_limit_threshold() == m,
        m.event_spool_usage_threshold is None ==> m.with_event_spool_usage_threshold(threshold).without_event_spool_usage_threshold() == m,
        m.ingress_enabled is None ==> m.with_ingress_enabled(flag).without_ingress_enabled() == m,
        m.max_bind_count is None ==> m.with_max_bind_count(number).without_max_bind_count() == m,
        m.max_delivered_unacked_msgs_per_flow is None ==> m.with_max_delivered_unacked_msgs_per_flow(number).without_max_delivered_unacked_msgs_per_flow() == m,
        m.max_msg_size is None ==> m.with_max_msg_size(small).without_max_msg_size() == m,
        m.max_redelivery_count is None ==> m.with_max_redelivery_count(number).without_max_redelivery_count() == m,
        m.max_spool_usage is None ==> m.with_max_spool_usage(number).without_max_spool_usage() == m,
        m.max_ttl is None ==> m.with_max_ttl(number).without_max_ttl() == m,
        m.msg_vpn_name is None ==> m.with_msg_vpn_name(text).without_msg_vpn_name() == m,
        m.owner is None ==> m.with_owner(text).without_owner() == m,
        m.permission is None ==> m.with_permission(text).without_permission() == m,
        m.reject_low_priority_msg_enabled is None ==> m.with_reject_low_priority_msg_enabled(flag).without_reject_low_priority_msg_enabled() == m,
        m.reject_low_priority_msg_limit is None ==> m.with_reject_low_priority_msg_limit(number).without_reject_low_priority_msg_limit() == m,
        m.reject_msg_to_sender_on_discard_behavior is None ==> m.with_reject_msg_to_sender_on_discard_behavior(text).without_reject_msg_to_sender_on_discard_behavior() == m,
        m.respect_msg_priority_enabled is None ==> m.with_respect_msg_priority_enabled(flag).without_respect_msg_priority_enabled() == m,
        m.respect_ttl_enabled is None ==> m.with_respect_ttl_enabled(flag).without_respect_ttl_enabled() == m,
        m.topic_endpoint_name is None ==> m.with_topic_endpoint_name(text).without_topic_endpoint_name() == m,
{
}

/// Removing an attribute twice is the same as removing it once, and removing an absent
/// attribute changes nothing.
pub proof fn lemma_msg_vpn_topic_endpoint_reset_idempotent(m: MsgVpnTopicEndpointView)
    ensures
        m.without_access_type().without_access_type() == m.without_access_type() && (m.access_type is None ==> m.without_access_type() == m),
        m.without_consumer_ack_propagation_enabled().without_consumer_ack_propagation_enabled() == m.without_consumer_ack_propagation_enabled() && (m.consumer_ack_propagation_enabled is None ==> m.without_consumer_ack_propagation_enabled() == m),
        m.without_dead_msg_queue().without_dead_msg_queue() == m.without_dead_msg_queue() && (m.dead_msg_queue is None ==> m.without_dead_msg_queue() == m),
        m.without_egress_enabled().without_egress_enabled() == m.without_egress_enabled() && (m.egress_enabled is None ==> m.without_egress_enabled() == m),
        m.without_event_bind_count_threshold().without_event_bind_count_threshold() == m.without_event_bind_count_threshold() && (m.event_bind_count_threshold is None ==> m.without_event_bind_count_threshold() == m),
        m.without_event_reject_low_priority_msg_limit_threshold().without_event_reject_low_priority_msg_limit_threshold() == m.without_event_reject_low_priority_msg_limit_threshold() && (m.event_reject_low_priority_msg_limit_threshold is None ==> m.without_event_reject_low_priority_msg_limit_threshold() == m),
        m.without_event_spool_usage_threshold().without_event_spool_usage_threshold() == m.without_event_spool_usage_threshold() && (m.event_spool_usage_threshold is None ==> m.without_event_spool_usage_threshold() == m),
        m.without_ingress_enabled().without_ingress_enabled() == m.without_ingress_enabled() && (m.ingress_enabled is None ==> m.without_ingress_enabled() == m),
        m.without_max_bind_count().without_max_bind_count() == m.without_max_bind_count() && (m.max_bind_count is None ==> m.without_max_bind_count() == m),
        m.without_max_delivered_unacked_msgs_per_flow().without_max_delivered_unacked_msgs_per_flow() == m.without_max_delivered_unacked_msgs_per_flow() && (m.max_delivered_unacked_msgs_per_flow is None ==> m.without_max_delivered_unacked_msgs_per_flow() == m),
        m.without_max_msg_size().without_max_msg_size() == m.without_max_msg_size() && (m.max_msg_size is None ==> m.without_max_msg_size() == m),
        m.without_max_redelivery_count().without_max_redelivery_count() == m.without_max_redelivery_count() && (m.max_redelivery_count is None ==> m.without_max_redelivery_count() == m),
        m.without_max_spool_usage().without_max_spool_usage() == m.without_max_spool_usage() && (m.max_spool_usage is None ==> m.without_max_spool_usage() == m),
        m.without_max_ttl().without_max_ttl() == m.without_max_ttl() && (m.max_ttl is None ==> m.without_max_ttl() == m),
        m.without_msg_vpn_name().without_msg_vpn_name() == m.without_msg_vpn_name() && (m.msg_vpn_name is None ==> m.without_msg_vpn_name() == m),
        m.without_owner().without_owner() == m.without_owner() && (m.owner is None ==> m.without_owner() == m),
        m.without_permission().without_permission() == m.without_permission() && (m.permission is None ==> m.without_permission() == m),
        m.without_reject_low_priority_msg_enabled().without_reject_low_priority_msg_enabled() == m.without_reject_low_priority_msg_enabled() && (m.reject_low_priority_msg_enabled is None ==> m.without_reject_low_priority_msg_enabled() == m),
        m.without_reject_low_priority_msg_limit().without_reject_low_priority_msg_limit() == m.without_reject_low_priority_msg_limit() && (m.reject_low_priority_msg_limit is None ==> m.without_reject_low_priority_msg_limit() == m),
        m.without_reject_msg_to_sender_on_discard_behavior().without_reject_msg_to_sender_on_discard_behavior() == m.without_reject_msg_to_sender_on_discard_behavior() && (m.reject_msg_to_sender_on_discard_behavior is None ==> m.without_reject_msg_to_sender_on_discard_behavior() == m),
        m.without_respect_msg_priority_enabled().without_respect_msg_priority_enabled() == m.without_respect_msg_priority_enabled() && (m.respect_msg_priority_enabled is None ==> m.without_respect_msg_priority_enabled() == m),
        m.without_respect_ttl_enabled().without_respect_ttl_enabled() == m.without_respect_ttl_enabled() && (m.respect_ttl_enabled is None ==> m.without_respect_ttl_enabled() == m),
        m.without_topic_endpoint_name().without_topic_endpoint_name() == m.without_topic_endpoint_name() && (m.topic_endpoint_name is None ==> m.without_topic_endpoint_name() == m),
{
}

/// Writing the value an attribute already holds changes nothing.
pub proof fn lemma_msg_vpn_topic_endpoint_rewrite_is_no_op(m: MsgVpnTopicEndpointView, text: Seq<char>, flag: bool, threshold: EventThreshold, number: i64, small: i32)
    ensures
        m.access_type == Some(text) ==> m.with_access_type(text) == m,
        m.consumer_ack_propagation_enabled == Some(flag) ==> m.with_consumer_ack_propagation_enabled(flag) == m,
        m.dead_msg_queue == Some(text) ==> m.with_dead_msg_queue(text) == m,
        m.egress_enabled == Some(flag) ==> m.with_egress_enabled(flag) == m,
        m.event_bind_count_threshold == Some(threshold) ==> m.with_event_bind_count_threshold(threshold) == m,
        m.event_reject_low_priority_msg_limit_threshold == Some(threshold) ==> m.with_event_reject_low_priority_msg_limit_threshold(threshold) == m,
        m.event_spool_usage_threshold == Some(threshold) ==> m.with_event_spool_usage_threshold(threshold) == m,
        m.ingress_enabled == Some(flag) ==> m.with_ingress_enabled(flag) == m,
        m.max_bind_count == Some(number) ==> m.with_max_bind_count(number) == m,
        m.max_delivered_unacked_msgs_per_flow == Some(number) ==> m.with_max_delivered_unacked_msgs_per_flow(number) == m,
        m.max_msg_size == Some(small) ==> m.with_max_msg_size(small) == m,
        m.max_redelivery_count == Some(number) ==> m.with_max_redelivery_count(number) == m,
        m.max_spool_usage == Some(number) ==> m.with_max_spool_usage(number) == m,
        m.max_ttl == Some(number) ==> m.with_max_ttl(number) == m,
        m.msg_vpn_name == Some(text) ==> m.with_msg_vpn_name(text) == m,
        m.owner == Some(text) ==> m.with_owner(text) == m,
        m.permission == Some(text) ==> m.with_permission(text) == m,
        m.reject_low_priority_msg_enabled == Some(flag) ==> m.with_reject_low_priority_msg_enabled(flag) == m,
        m.reject_low_priority_msg_limit == Some(number) ==> m.with_reject_low_priority_msg_limit(number) == m,
        m.reject_msg_to_sender_on_discard_behavior == Some(text) ==> m.with_reject_msg_to_sender_on_discard_behavior(text) == m,
        m.respect_msg_priority_enabled == Some(flag) ==> m.with_respect_msg_priority_enabled(flag) == m,
        m.respect_ttl_enabled == Some(flag) ==> m.with_respect_ttl_enabled(flag) == m,
        m.topic_endpoint_name == Some(text) ==> m.with_topic_endpoint_name(text) == m,
{
}

/// The name of one attribute of a [`MsgVpnTopicEndpoint`].
pub enum MsgVpnTopicEndpointAttribute {
    /// `accessType`
    AccessType,
    /// `consumerAckPropagationEnabled`
    ConsumerAckPropagationEnabled,
    /// `deadMsgQueue`
    DeadMsgQueue,
    /// `egressEnabled`
    EgressEnabled,
    /// `eventBindCountThreshold`
    EventBindCountThreshold,
    /// `eventRejectLowPriorityMsgLimitThreshold`
    EventRejectLowPriorityMsgLimitThreshold,
    /// `eventSpoolUsageThreshold`
    EventSpoolUsageThreshold,
    /// `ingressEnabled`
    IngressEnabled,
    /// `maxBindCount`
    MaxBindCount,
    /// `maxDeliveredUnackedMsgsPerFlow`
    MaxDeliveredUnackedMsgsPerFlow,
    /// `maxMsgSize`
    MaxMsgSize,
    /// `maxRedeliveryCount`
    MaxRedeliveryCount,
    /// `maxSpoolUsage`
    MaxSpoolUsage,
    /// `maxTtl`
    MaxTtl,
    /// `msgVpnName`
    MsgVpnName,
    /// `owner`
    Owner,
    /// `permission`
    Permission,
    /// `rejectLowPriorityMsgEnabled`
    RejectLowPriorityMsgEnabled,
    /// `rejectLowPriorityMsgLimit`
    RejectLowPriorityMsgLimit,
    /// `rejectMsgToSenderOnDiscardBehavior`
    RejectMsgToSenderOnDiscardBehavior,
    /// `respectMsgPriorityEnabled`
    RespectMsgPriorityEnabled,
    /// `respectTtlEnabled`
    RespectTtlEnabled,
    /// `topicEndpointName`
    TopicEndpointName,
}

impl MsgVpnTopicEndpointView {
    /// The value of the named attribute, present or absent.
    pub open spec fn attribute(self, a: MsgVpnTopicEndpointAttribute) -> AttributeValue {
        match a {
            MsgVpnTopicEndpointAttribute::AccessType => AttributeValue::Text(self.access_type),
            MsgVpnTopicEndpointAttribute::ConsumerAckPropagationEnabled => AttributeValue::Flag(self.consumer_ack_propagation_enabled),
            MsgVpnTopicEndpointAttribute::DeadMsgQueue => AttributeValue::Text(self.dead_msg_queue),
            MsgVpnTopicEndpointAttribute::EgressEnabled => AttributeValue::Flag(self.egress_enabled),
            MsgVpnTopicEndpointAttribute::EventBindCountThreshold => AttributeValue::Threshold(self.event_bind_count_threshold),
            MsgVpnTopicEndpointAttribute::EventRejectLowPriorityMsgLimitThreshold => AttributeValue::Threshold(self.event_reject_low_priority_msg_limit_threshold),
            MsgVpnTopicEndpointAttribute::EventSpoolUsageThreshold => AttributeValue::Threshold(self.event_spool_usage_threshold),
            MsgVpnTopicEndpointAttribute::IngressEnabled => AttributeValue::Flag(self.ingress_enabled),
            MsgVpnTopicEndpointAttribute::MaxBindCount => AttributeValue::Int64(self.max_bind_count),
            MsgVpnTopicEndpointAttribute::MaxDeliveredUnackedMsgsPerFlow => AttributeValue::Int64(self.max_delivered_unacked_msgs_per_flow),
            MsgVpnTopicEndpointAttribute::MaxMsgSize => AttributeValue::Int32(self.max_msg_size),
            MsgVpnTopicEndpointAttribute::MaxRedeliveryCount => AttributeValue::Int64(self.max_redelivery_count),
            MsgVpnTopicEndpointAttribute::MaxSpoolUsage => AttributeValue::Int64(self.max_spool_usage),
            MsgVpnTopicEndpointAttribute::MaxTtl => AttributeValue::Int64(self.max_ttl),
            MsgVpnTopicEndpointAttribute::MsgVpnName => AttributeValue::Text(self.msg_vpn_name),
            MsgVpnTopicEndpointAttribute::Owner => AttributeValue::Text(self.owner),
            MsgVpnTopicEndpointAttribute::Permission => AttributeValue::Text(self.permission),
            MsgVpnTopicEndpointAttribute::RejectLowPriorityMsgEnabled => AttributeValue::Flag(self.reject_low_priority_msg_enabled),
            MsgVpnTopicEndpointAttribute::RejectLowPriorityMsgLimit => AttributeValue::Int64(self.reject_low_priority_msg_limit),
            MsgVpnTopicEndpointAttribute::RejectMsgToSenderOnDiscardBehavior => AttributeValue::Text(self.reject_msg_to_sender_on_discard_behavior),
            MsgVpnTopicEndpointAttribute::RespectMsgPriorityEnabled => AttributeValue::Flag(self.respect_msg_priority_enabled),
            MsgVpnTopicEndpointAttribute::RespectTtlEnabled => AttributeValue::Flag(self.respect_ttl_enabled),
            MsgVpnTopicEndpointAttribute::TopicEndpointName => AttributeValue::Text(self.topic_endpoint_name),
        }
    }
}

/// Writing an attribute gives it the value written and leaves every other attribute
/// exactly as it was.
#[verifier::rlimit(100)]
pub proof fn lemma_msg_vpn_topic_endpoint_write_changes_only_its_attribute(m: MsgVpnTopicEndpointView, text: Seq<char>, flag: bool, threshold: EventThreshold, number: i64, small: i32)
    ensures
        m.with_access_type(text).attribute(MsgVpnTopicEndpointAttribute::AccessType) == AttributeValue::Text(Some(text)),
        forall|a: MsgVpnTopicEndpointAttribute| a != MsgVpnTopicEndpointAttribute::AccessType ==> #[trigger] m.with_access_type(text).attribute(a) == m.attribute(a),
        m.with_consumer_ack_propagation_enabled(flag).attribute(MsgVpnTopicEndpointAttribute::ConsumerAckPropagationEnabled) == AttributeValue::Flag(Some(flag)),
        forall|a: MsgVpnTopicEndpointAttribute| a != MsgVpnTopicEndpointAttribute::ConsumerAckPropagationEnabled ==> #[trigger] m.with_consumer_ack_propagation_enabled(flag).attribute(a) == m.attribute(a),
        m.with_dead_msg_queue(text).attribute(MsgVpnTopicEndpointAttribute::DeadMsgQueue) == AttributeValue::Text(Some(text)),
        forall|a: MsgVpnTopicEndpointAttribute| a != MsgVpnTopicEndpointAttribute::DeadMsgQueue ==> #[trigger] m.with_dead_msg_queue(text).attribute(a) == m.attribute(a),
        m.with_egress_enabled(flag).attribute(MsgVpnTopicEndpointAttribute::EgressEnabled) == AttributeValue::Flag(Some(flag)),
        forall|a: MsgVpnTopicEndpointAttribute| a != MsgVpnTopicEndpointAttribute::EgressEnabled ==> #[trigger] m.with_egress_enabled(flag).attribute(a) == m.attribute(a),
        m.with_event_bind_count_threshold(threshold).attribute(MsgVpnTopicEndpointAttribute::EventBindCountThreshold) == AttributeValue::Threshold(Some(threshold)),
        forall|a: MsgVpnTopicEndpointAttribute| a != MsgVpnTopicEndpointAttribute::EventBindCountThreshold ==> #[trigger] m.with_event_bind_count_threshold(threshold).attribute(a) == m.attribute(a),
        m.with_event_reject_low_priority_msg_limit_threshold(threshold).attribute(MsgVpnTopicEndpointAttribute::EventRejectLowPriorityMsgLimitThreshold) == AttributeValue::Threshold(Some(threshold)),
        forall|a: MsgVpnTopicEndpointAttribute| a != MsgVpnTopicEndpointAttribute::EventRejectLowPriorityMsgLimitThreshold ==> #[trigger] m.with_event_reject_low_priority_msg_limit_threshold(threshold).attribute(a) == m.attribute(a),
        m.with_event_spool_usage_threshold(threshold).attribute(MsgVpnTopicEndpointAttribute::EventSpoolUsageThreshold) == AttributeValue::Threshold(Some(threshold)),
        forall|a: MsgVpnTopicEndpointAttribute| a != MsgVpnTopicEndpointAttribute::EventSpoolUsageThreshold ==> #[trigger] m.with_event_spool_usage_threshold(threshold).attribute(a) == m.attribute(a),
        m.with_ingress_enabled(flag).attribute(MsgVpnTopicEndpointAttribute::IngressEnabled) == AttributeValue::Flag(Some(flag)),
        forall|a: MsgVpnTopicEndpointAttribute| a != MsgVpnTopicEndpointAttribute::IngressEnabled ==> #[trigger] m.with_ingress_enabled(flag).attribute(a) == m.attribute(a),
        m.with_max_bind_count(number).attribute(MsgVpnTopicEndpointAttribute::MaxBindCount) == AttributeValue::Int64(Some(number)),
        forall|a: MsgVpnTopicEndpointAttribute| a != MsgVpnTopicEndpointAttribute::MaxBindCount ==> #[trigger] m.with_max_bind_count(number).attribute(a) == m.attribute(a),
        m.with_max_delivered_unacked_msgs_per_flow(number).attribute(MsgVpnTopicEndpointAttribute::MaxDeliveredUnackedMsgsPerFlow) == AttributeValue::Int64(Some(number)),
        forall|a: MsgVpnTopicEndpointAttribute| a != MsgVpnTopicEndpointAttribute::MaxDeliveredUnackedMsgsPerFlow ==> #[trigger] m.with_max_delivered_unacked_msgs_per_flow(number).attribute(a) == m.attribute(a),
        m.with_max_msg_size(small).attribute(MsgVpnTopicEndpointAttribute::MaxMsgSize) == AttributeValue::Int32(Some(small)),
        forall|a: MsgVpnTopicEndpointAttribute| a != MsgVpnTopicEndpointAttribute::MaxMsgSize ==> #[trigger] m.with_max_msg_size(small).attribute(a) == m.attribute(a),
        m.with_max_redelivery_count(number).attribute(MsgVpnTopicEndpointAttribute::MaxRedeliveryCount) == AttributeValue::Int64(Some(number)),
        forall|a: MsgVpnTopicEndpointAttribute| a != MsgVpnTopicEndpointAttribute::MaxRedeliveryCount ==> #[trigger] m.with_max_redelivery_count(number).attribute(a) == m.attribute(a),
        m.with_max_spool_usage(number).attribute(MsgVpnTopicEndpointAttribute::MaxSpoolUsage) == AttributeValue::Int64(Some(number)),
        forall|a: MsgVpnTopicEndpointAttribute| a != MsgVpnTopicEndpointAttribute::MaxSpoolUsage ==> #[trigger] m.with_max_spool_usage(number).attribute(a) == m.attribute(a),
        m.with_max_ttl(number).attribute(MsgVpnTopicEndpointAttribute::MaxTtl) == AttributeValue::Int64(Some(number)),
        forall|a: MsgVpnTopicEndpointAttribute| a != MsgVpnTopicEndpointAttribute::MaxTtl ==> #[trigger] m.with_max_ttl(number).attribute(a) == m.attribute(a),
        m.with_msg_vpn_name(text).attribute(MsgVpnTopicEndpointAttribute::MsgVpnName) == AttributeValue::Text(Some(text)),
        forall|a: MsgVpnTopicEndpointAttribute| a != MsgVpnTopicEndpointAttribute::MsgVpnName ==> #[trigger] m.with_msg_vpn_name(text).attribute(a) == m.attribute(a),
        m.with_owner(text).attribute(MsgVpnTopicEndpointAttribute::Owner) == AttributeValue::Text(Some(text)),
        forall|a: MsgVpnTopicEndpointAttribute| a != MsgVpnTopicEndpointAttribute::Owner ==> #[trigger] m.with_owner(text).attribute(a) == m.attribute(a),
        m.with_permission(text).attribute(MsgVpnTopicEndpointAttribute::Permission) == AttributeValue::Text(Some(text)),
        forall|a: MsgVpnTopicEndpointAttribute| a != MsgVpnTopicEndpointAttribute::Permission ==> #[trigger] m.with_permission(text).attribute(a) == m.attribute(a),
        m.with_reject_low_priority_msg_enabled(flag).attribute(MsgVpnTopicEndpointAttribute::RejectLowPriorityMsgEnabled) == AttributeValue::Flag(Some(flag)),
        forall|a: MsgVpnTopicEndpointAttribute| a != MsgVpnTopicEndpointAttribute::RejectLowPriorityMsgEnabled ==> #[trigger] m.with_reject_low_priority_msg_enabled(flag).attribute(a) == m.attribute(a),
        m.with_reject_low_priority_msg_limit(number).attribute(MsgVpnTopicEndpointAttribute::RejectLowPriorityMsgLimit) == AttributeValue::Int64(Some(number)),
        forall|a: MsgVpnTopicEndpointAttribute| a != MsgVpnTopicEndpointAttribute::RejectLowPriorityMsgLimit ==> #[trigger] m.with_reject_low_priority_msg_limit(number).attribute(a) == m.attribute(a),
        m.with_reject_msg_to_sender_on_discard_behavior(text).attribute(MsgVpnTopicEndpointAttribute::RejectMsgToSenderOnDiscardBehavior) == AttributeValue::Text(Some(text)),
        forall|a: MsgVpnTopicEndpointAttribute| a != MsgVpnTopicEndpointAttribute::RejectMsgToSenderOnDiscardBehavior ==> #[trigger] m.with_reject_msg_to_sender_on_discard_behavior(text).attribute(a) == m.attribute(a),
        m.with_respect_msg_priority_enabled(flag).attribute(MsgVpnTopicEndpointAttribute::RespectMsgPriorityEnabled) == AttributeValue::Flag(Some(flag)),
        forall|a: MsgVpnTopicEndpointAttribute| a != MsgVpnTopicEndpointAttribute::RespectMsgPriorityEnabled ==> #[trigger] m.with_respect_msg_priority_enabled(flag).attribute(a) == m.attribute(a),
        m.with_respect_ttl_enabled(flag).attribute(MsgVpnTopicEndpointAttribute::RespectTtlEnabled) == AttributeValue::Flag(Some(flag)),
        forall|a: MsgVpnTopicEndpointAttribute| a != MsgVpnTopicEndpointAttribute::RespectTtlEnabled ==> #[trigger] m.with_respect_ttl_enabled(flag).attribute(a) == m.attribute(a),
        m.with_topic_endpoint_name(text).attribute(MsgVpnTopicEndpointAttribute::TopicEndpointName) == AttributeValue::Text(Some(text)),
        forall|a: MsgVpnTopicEndpointAttribute| a != MsgVpnTopicEndpointAttribute::TopicEndpointName ==> #[trigger] m.with_topic_endpoint_name(text).attribute(a) == m.attribute(a),
{
}

/// Removing an attribute makes it absent and leaves every other attribute exactly as it was.
#[verifier::rlimit(100)]
pub proof fn lemma_msg_vpn_topic_endpoint_reset_changes_only_its_attribute(m: MsgVpnTopicEndpointView)
    ensures
        m.without_access_type().attribute(MsgVpnTopicEndpointAttribute::AccessType) == AttributeValue::Text(None),
        forall|a: MsgVpnTopicEndpointAttribute| a != MsgVpnTopicEndpointAttribute::AccessType ==> #[trigger] m.without_access_type().attribute(a) == m.attribute(a),
        m.without_consumer_ack_propagation_enabled().attribute(MsgVpnTopicEndpointAttribute::ConsumerAckPropagationEnabled) == AttributeValue::Flag(None),
        forall|a: MsgVpnTopicEndpointAttribute| a != MsgVpnTopicEndpointAttribute::ConsumerAckPropagationEnabled ==> #[trigger] m.without_consumer_ack_propagation_enabled().attribute(a) == m.attribute(a),
        m.without_dead_msg_queue().attribute(MsgVpnTopicEndpointAttribute::DeadMsgQueue) == AttributeValue::Text(None),
        forall|a: MsgVpnTopicEndpointAttribute| a != MsgVpnTopicEndpointAttribute::DeadMsgQueue ==> #[trigger] m.without_dead_msg_queue().attribute(a) == m.attribute(a),
        m.without_egress_enabled().attribute(MsgVpnTopicEndpointAttribute::EgressEnabled) == AttributeValue::Flag(None),
        forall|a: MsgVpnTopicEndpointAttribute| a != MsgVpnTopicEndpointAttribute::EgressEnabled ==> #[trigger] m.without_egress_enabled().attribute(a) == m.attribute(a),
        m.without_event_bind_count_threshold().attribute(MsgVpnTopicEndpointAttribute::EventBindCountThreshold) == AttributeValue::Threshold(None),
        forall|a: MsgVpnTopicEndpointAttribute| a != MsgVpnTopicEndpointAttribute::EventBindCountThreshold ==> #[trigger] m.without_event_bind_count_threshold().attribute(a) == m.attribute(a),
        m.without_event_reject_low_priority_msg_limit_threshold().attribute(MsgVpnTopicEndpointAttribute::EventRejectLowPriorityMsgLimitThreshold) == AttributeValue::Threshold(None),
        forall|a: MsgVpnTopicEndpointAttribute| a != MsgVpnTopicEndpointAttribute::EventRejectLowPriorityMsgLimitThreshold ==> #[trigger] m.without_event_reject_low_priority_msg_limit_threshold().attribute(a) == m.attribute(a),
        m.without_event_spool_usage_threshold().attribute(MsgVpnTopicEndpointAttribute::EventSpoolUsageThreshold) == AttributeValue::Threshold(None),
        forall|a: MsgVpnTopicEndpointAttribute| a != MsgVpnTopicEndpointAttribute::EventSpoolUsageThreshold ==> #[trigger] m.without_event_spool_usage_threshold().attribute(a) == m.attribute(a),
        m.without_ingress_enabled().attribute(MsgVpnTopicEndpointAttribute::IngressEnabled) == AttributeValue::Flag(None),
        forall|a: MsgVpnTopicEndpointAttribute| a != MsgVpnTopicEndpointAttribute::IngressEnabled ==> #[trigger] m.without_ingress_enabled().attribute(a) == m.attribute(a),
        m.without_max_bind_count().attribute(MsgVpnTopicEndpointAttribute::MaxBindCount) == AttributeValue::Int64(None),
        forall|a: MsgVpnTopicEndpointAttribute| a != MsgVpnTopicEndpointAttribute::MaxBindCount ==> #[trigger] m.without_max_bind_count().attribute(a) == m.attribute(a),
        m.without_max_delivered_unacked_msgs_per_flow().attribute(MsgVpnTopicEndpointAttribute::MaxDeliveredUnackedMsgsPerFlow) == AttributeValue::Int64(None),
        forall|a: MsgVpnTopicEndpointAttribute| a != MsgVpnTopicEndpointAttribute::MaxDeliveredUnackedMsgsPerFlow ==> #[trigger] m.without_max_delivered_unacked_msgs_per_flow().attribute(a) == m.attribute(a),
        m.without_max_msg_size().attribute(MsgVpnTopicEndpointAttribute::MaxMsgSize) == AttributeValue::Int32(None),
        forall|a: MsgVpnTopicEndpointAttribute| a != MsgVpnTopicEndpointAttribute::MaxMsgSize ==> #[trigger] m.without_max_msg_size().attribute(a) == m.attribute(a),
        m.without_max_redelivery_count().attribute(MsgVpnTopicEndpointAttribute::MaxRedeliveryCount) == AttributeValue::Int64(None),
        forall|a: MsgVpnTopicEndpointAttribute| a != MsgVpnTopicEndpointAttribute::MaxRedeliveryCount ==> #[trigger] m.without_max_redelivery_count().attribute(a) == m.attribute(a),
        m.without_max_spool_usage().attribute(MsgVpnTopicEndpointAttribute::MaxSpoolUsage) == AttributeValue::Int64(None),
        forall|a: MsgVpnTopicEndpointAttribute| a != MsgVpnTopicEndpointAttribute::MaxSpoolUsage ==> #[trigger] m.without_max_spool_usage().attribute(a) == m.attribute(a),
        m.without_max_ttl().attribute(MsgVpnTopicEndpointAttribute::MaxTtl) == AttributeValue::Int64(None),
        forall|a: MsgVpnTopicEndpointAttribute| a != MsgVpnTopicEndpointAttribute::MaxTtl ==> #[trigger] m.without_max_ttl().attribute(a) == m.attribute(a),
        m.without_msg_vpn_name().attribute(MsgVpnTopicEndpointAttribute::MsgVpnName) == AttributeValue::Text(None),
        forall|a: MsgVpnTopicEndpointAttribute| a != MsgVpnTopicEndpointAttribute::MsgVpnName ==> #[trigger] m.without_msg_vpn_name().attribute(a) == m.attribute(a),
        m.without_owner().attribute(MsgVpnTopicEndpointAttribute::Owner) == AttributeValue::Text(None),
        forall|a: MsgVpnTopicEndpointAttribute| a != MsgVpnTopicEndpointAttribute::Owner ==> #[trigger] m.without_owner().attribute(a) == m.attribute(a),
        m.without_permission().attribute(MsgVpnTopicEndpointAttribute::Permission) == AttributeValue::Text(None),
        forall|a: MsgVpnTopicEndpointAttribute| a != MsgVpnTopicEndpointAttribute::Permission ==> #[trigger] m.without_permission().attribute(a) == m.attribute(a),
        m.without_reject_low_priority_msg_enabled().attribute(MsgVpnTopicEndpointAttribute::RejectLowPriorityMsgEnabled) == AttributeValue::Flag(None),
        forall|a: MsgVpnTopicEndpointAttribute| a != MsgVpnTopicEndpointAttribute::RejectLowPriorityMsgEnabled ==> #[trigger] m.without_reject_low_priority_msg_enabled().attribute(a) == m.attribute(a),
        m.without_reject_low_priority_msg_limit().attribute(MsgVpnTopicEndpointAttribute::RejectLowPriorityMsgLimit) == AttributeValue::Int64(None),
        forall|a: MsgVpnTopicEndpointAttribute| a != MsgVpnTopicEndpointAttribute::RejectLowPriorityMsgLimit ==> #[trigger] m.without_reject_low_priority_msg_limit().attribute(a) == m.attribute(a),
        m.without_reject_msg_to_sender_on_discard_behavior().attribute(MsgVpnTopicEndpointAttribute::RejectMsgToSenderOnDiscardBehavior) == AttributeValue::Text(None),
        forall|a: MsgVpnTopicEndpointAttribute| a != MsgVpnTopicEndpointAttribute::RejectMsgToSenderOnDiscardBehavior ==> #[trigger] m.without_reject_msg_to_sender_on_discard_behavior().attribute(a) == m.attribute(a),
        m.without_respect_msg_priority_enabled().attribute(MsgVpnTopicEndpointAttribute::RespectMsgPriorityEnabled) == AttributeValue::Flag(None),
        forall|a: MsgVpnTopicEndpointAttribute| a != MsgVpnTopicEndpointAttribute::RespectMsgPriorityEnabled ==> #[trigger] m.without_respect_msg_priority_enabled().attribute(a) == m.attribute(a),
        m.without_respect_ttl_enabled().attribute(MsgVpnTopicEndpointAttribute::RespectTtlEnabled) == AttributeValue::Flag(None),
        forall|a: MsgVpnTopicEndpointAttribute| a != MsgVpnTopicEndpointAttribute::RespectTtlEnabled ==> #[trigger] m.without_respect_ttl_enabled().attribute(a) == m.attribute(a),
        m.without_topic_endpoint_name().attribute(MsgVpnTopicEndpointAttribute::TopicEndpointName) == AttributeValue::Text(None),
        forall|a: MsgVpnTopicEndpointAttribute| a != MsgVpnTopicEndpointAttribute::TopicEndpointName ==> #[trigger] m.without_topic_endpoint_name().attribute(a) == m.attribute(a),
{
}

} // verus!
