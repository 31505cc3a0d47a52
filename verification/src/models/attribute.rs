use vstd::prelude::*;
use crate::models::event_threshold::{EventThreshold, EventThresholdByPercent, EventThresholdByValue};

verus! {

/// The abstract value of one attribute of a model, by its kind: present with a value, or absent.
pub enum AttributeValue {
    Text(Option<Seq<char>>),
    Flag(Option<bool>),
    Int32(Option<i32>),
    Int64(Option<i64>),
    Threshold(Option<EventThreshold>),
    ThresholdByPercent(Option<EventThresholdByPercent>),
    ThresholdByValue(Option<EventThresholdByValue>),
}

} // verus!
