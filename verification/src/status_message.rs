//! Messages shown in the status bar for a while.
use vstd::prelude::*;
use std::time::{Duration, Instant};

verus! {

#[verifier::external_type_specification]
#[verifier::external_body]
pub struct ExInstant(Instant);

/// The current time (`Instant::now`). Nothing is stated of the result: it
/// is read from the system clock.
#[verifier::external_body]
fn instant_now() -> Instant {
    Instant::now()
}

/// The time passed since `start` (`Instant::elapsed`). Nothing is stated of
/// the result: it is read from the system clock.
#[verifier::external_body]
pub(crate) fn instant_elapsed(start: &Instant) -> Duration {
    start.elapsed()
}

/// The whole nanoseconds of a duration (`Duration::as_nanos`). Nothing is
/// stated of the result: a `Duration` is opaque here.
#[verifier::external_body]
pub(crate) fn duration_as_nanos(d: &Duration) -> u128 {
    d.as_nanos()
}

/// A message, the time it was created and how long it stays.
#[derive(Debug)]
pub struct StatusMessage {
    message: String,
    start: Instant,
    delay_millis: u64,
}

impl Default for StatusMessage {
    /// An empty message that stays for one millisecond.
    fn default() -> (m: StatusMessage)
        ensures
            m.text() == Seq::<char>::empty(),
            m.delay() == 1,
    {
        StatusMessage { message: String::new(), start: instant_now(), delay_millis: 1 }
    }
}

impl StatusMessage {
    /// The text of the message.
    pub closed spec fn text(&self) -> Seq<char> {
        self.message@
    }

    /// How long the message stays, in milliseconds.
    pub closed spec fn delay(&self) -> u64 {
        self.delay_millis
    }

    /// A message that stays for `delay_millis` milliseconds from now.
    pub fn new(message: &str, delay_millis: u64) -> (m: StatusMessage)
        ensures
            m.text() == message@,
            m.delay() == delay_millis,
    {
        StatusMessage { message: message.to_owned(), start: instant_now(), delay_millis }
    }

    /// The text of the message.
    pub fn get(&self) -> (s: &str)
        ensures
            s@ == self.text(),
    {
        self.message.as_str()
    }

    /// True when more than the delay has passed since the message was
    /// created. The time passed is read from the clock, so no clause ties
    /// the result to the arguments; `expired_after` states the decision.
    pub fn is_expired(&self) -> bool {
        let elapsed = instant_elapsed(&self.start);
        let nanos = duration_as_nanos(&elapsed);
        self.expired_after(nanos)
    }

    /// True when `elapsed_nanos` nanoseconds are more than the delay.
    pub fn expired_after(&self, elapsed_nanos: u128) -> (b: bool)
        ensures
            b == (elapsed_nanos > self.delay() * 1_000_000),
    {
        elapsed_nanos > (self.delay_millis as u128) * 1_000_000
    }
}

} // verus!
