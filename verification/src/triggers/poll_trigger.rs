//! A trigger that fires an event at a regular interval. The ticking loop is
//! run by the composing layer; the trigger holds the polling configuration
//! and decides what each tick emits.

use vstd::prelude::*;

use crate::triggers::event::TEvent;

verus! {

/// A builder for [`PollTrigger`].
pub struct PollTriggerBuilder {
    event_name: String,
    interval: u64,
    hot_start: bool,
}

impl PollTriggerBuilder {
    /// The name of the event the built trigger fires.
    pub closed spec fn spec_event_name(&self) -> Seq<char> {
        self.event_name@
    }

    /// The interval of the built trigger, in milliseconds.
    pub closed spec fn spec_interval_ms(&self) -> u64 {
        self.interval
    }

    /// Whether the built trigger fires immediately upon launch.
    pub closed spec fn spec_hot_start(&self) -> bool {
        self.hot_start
    }

    /// Creates a builder for a trigger that fires an event of the given name
    /// at the given interval (in milliseconds). By default the first event
    /// comes only after one full interval.
    pub fn new(event_name: &str, interval: u64) -> (r: Self)
        ensures
            r.spec_event_name() == event_name@,
            r.spec_interval_ms() == interval,
            !r.spec_hot_start(),
    {
        Self { event_name: event_name.to_owned(), interval, hot_start: false }
    }

    /// Sets whether the trigger fires an event immediately upon launch.
    pub fn with_hot_start(self, hot_start: bool) -> (r: Self)
        ensures
            r.spec_event_name() == self.spec_event_name(),
            r.spec_interval_ms() == self.spec_interval_ms(),
            r.spec_hot_start() == hot_start,
    {
        let mut b = self;
        b.hot_start = hot_start;
        b
    }

    /// Builds a `PollTrigger`.
    pub fn build(&self) -> (r: PollTrigger)
        ensures
            r.event_name@ == self.spec_event_name(),
            r.interval == self.spec_interval_ms(),
            r.hot_start == self.spec_hot_start(),
    {
        PollTrigger {
            event_name: self.event_name.clone(),
            interval: self.interval,
            hot_start: self.hot_start,
        }
    }
}

/// A trigger that fires an event at a regular interval.
pub struct PollTrigger {
    /// The name of the event to fire.
    pub event_name: String,
    /// The interval at which to fire the event, in milliseconds.
    pub interval: u64,
    /// Whether to fire an event immediately upon launch; otherwise the first
    /// event comes only after one full interval.
    pub hot_start: bool,
}

impl PollTrigger {
    /// The event one tick of this trigger emits: the configured name, with
    /// no payload.
    pub fn tick_event(&self) -> (r: TEvent)
        ensures
            r.name@ == self.event_name@,
            r.spec_payload() is None,
    {
        TEvent { name: self.event_name.clone(), payload: None }
    }
}

} // verus!
