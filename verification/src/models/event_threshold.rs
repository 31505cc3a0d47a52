use vstd::prelude::*;

verus! {

/// The thresholds at which an event is raised and cleared, each given as a
/// percentage, as a value, or both; an absent threshold is left to the broker.
#[derive(Debug, Clone, Copy, PartialEq, Eq, Structural)]
pub struct EventThreshold {
    /// The clear threshold for the value of this counter as a percentage of its maximum value.
    pub clear_percent: Option<i64>,
    /// The clear threshold for the absolute value of this counter.
    pub clear_value: Option<i64>,
    /// The set threshold for the value of this counter as a percentage of its maximum value.
    pub set_percent: Option<i64>,
    /// The set threshold for the absolute value of this counter.
    pub set_value: Option<i64>,
}

/// The thresholds at which an event is raised and cleared, given as percentages.
#[derive(Debug, Clone, Copy, PartialEq, Eq, Structural)]
pub struct EventThresholdByPercent {
    /// The clear threshold, as a percentage of the maximum value.
    pub clear_percent: Option<i64>,
    /// The set threshold, as a percentage of the maximum value.
    pub set_percent: Option<i64>,
}

/// The thresholds at which an event is raised and cleared, given as absolute values.
#[derive(Debug, Clone, Copy, PartialEq, Eq, Structural)]
pub struct EventThresholdByValue {
    /// The clear threshold for the absolute value of this counter.
    pub clear_value: Option<i64>,
    /// The set threshold for the absolute value of this counter.
    pub set_value: Option<i64>,
}

impl DeepView for EventThreshold {
    type V = EventThreshold;

    open spec fn deep_view(&self) -> EventThreshold {
        *self
    }
}

impl DeepView for EventThresholdByPercent {
    type V = EventThresholdByPercent;

    open spec fn deep_view(&self) -> EventThresholdByPercent {
        *self
    }
}

impl DeepView for EventThresholdByValue {
    type V = EventThresholdByValue;

    open spec fn deep_view(&self) -> EventThresholdByValue {
        *self
    }
}

} // verus!
