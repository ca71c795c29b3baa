//! Activity and learn indicators the front end draws.

use vstd::prelude::*;

verus! {

/// Relies on std::time::SystemTime::now: microseconds since the epoch,
/// saturated into 64 bits. Nothing is promised of the reading.
#[verifier::external_body]
fn wallclock_micros() -> u64 {
    match std::time::SystemTime::now().duration_since(std::time::UNIX_EPOCH) {
        Ok(elapsed) => {
            let micros = elapsed.as_micros();
            if micros > u64::MAX as u128 { u64::MAX } else { micros as u64 }
        },
        Err(_) => 0,
    }
}

/// The learn-mode indicator: whether learning is on and the last message.
#[derive(Debug)]
pub struct LearnIndicatorWidget {
    /// Whether MIDI learn is active
    pub active: bool,
    /// The last message seen while learning
    pub last_message: Option<String>,
}

impl LearnIndicatorWidget {
    /// Create an indicator with no message yet.
    pub fn new(active: bool) -> (r: Self)
        ensures
            r.active == active,
            r.last_message is None,
    {
        Self { active, last_message: None }
    }

    /// Attach the last seen message.
    pub fn last_message(self, msg: String) -> (r: Self)
        ensures
            r.active == self.active,
            (r.last_message matches Some(m) && m@ == msg@),
    {
        LearnIndicatorWidget { last_message: Some(msg), ..self }
    }
}

/// A lamp that lights briefly after MIDI traffic.
#[derive(Debug)]
pub struct ActivityIndicator {
    /// The label drawn beside the lamp
    pub label: String,
    /// Wallclock microsecond of the last traffic, if any
    last_activity_micros: Option<u64>,
}

impl ActivityIndicator {
    /// Whether traffic has been seen at all.
    pub closed spec fn spec_triggered(self) -> bool {
        self.last_activity_micros is Some
    }

    /// The label drawn beside the lamp.
    pub closed spec fn spec_label(self) -> Seq<char> {
        self.label@
    }

    /// Create an indicator that has seen no traffic.
    pub fn new(label: String) -> (r: Self)
        ensures
            r.spec_label() == label@,
            !r.spec_triggered(),
    {
        Self { label, last_activity_micros: None }
    }

    /// Record traffic now.
    pub fn trigger(&mut self)
        ensures
            final(self).spec_triggered(),
            final(self).spec_label() == old(self).spec_label(),
    {
        self.last_activity_micros = Some(wallclock_micros());
    }

    /// Whether the lamp is lit: traffic was seen within the last tenth of
    /// a second. Never lit before any traffic.
    pub fn is_active(&self) -> (r: bool)
        ensures
            r ==> self.spec_triggered(),
    {
        match self.last_activity_micros {
            Some(last) => {
                let now = wallclock_micros();
                now >= last && now - last < 100_000
            },
            None => false,
        }
    }
}

} // verus!
