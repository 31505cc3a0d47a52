use solace_semp_client::models::{EventThreshold, EventThresholdByPercent, EventThresholdByValue, MsgVpn};

#[test]
fn event_threshold_is_kept_as_given() {
    let t = EventThreshold { clear_percent: Some(60), clear_value: None, set_percent: Some(80), set_value: None };
    let m = MsgVpn::new().with_event_connection_count_threshold(t);
    let got = m.event_connection_count_threshold().copied();
    assert_eq!(got, Some(t));
    assert_eq!(got.unwrap().clear_percent, Some(60));
    assert_eq!(got.unwrap().set_value, None);
}

#[test]
fn event_threshold_by_value_and_by_percent_are_kept_as_given() {
    let v = EventThresholdByValue { clear_value: Some(40), set_value: Some(50) };
    let p = EventThresholdByPercent { clear_percent: Some(5), set_percent: Some(95) };
    assert_ne!(v, EventThresholdByValue { clear_value: Some(40), set_value: None });
    assert_ne!(p, EventThresholdByPercent { clear_percent: None, set_percent: Some(95) });
    let m = MsgVpn::new().with_event_ingress_msg_rate_threshold(v);
    assert_eq!(m.event_ingress_msg_rate_threshold(), Some(&v));
    assert_eq!(m.event_egress_msg_rate_threshold(), None);
}
