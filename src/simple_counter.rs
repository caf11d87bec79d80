//! A single `u64` register that callers can increment or reset.
use vstd::prelude::*;

verus! {

/// Failures of the counter calls.
#[derive(Clone, Copy, Debug, PartialEq, Eq, Structural)]
pub enum Error {
    /// The register already holds `u64::MAX`.
    Overflow,
}

/// Notifications emitted by successful counter calls.
#[derive(Clone, Copy, Debug, PartialEq, Eq, Structural)]
pub enum Event {
    CounterIncremented { new: u64, who: u64 },
    CounterReset { who: u64 },
}

/// The counter module: the register and the events it has emitted.
pub struct Pallet {
    counter: u64,
    events: Vec<Event>,
}

impl Pallet {
    /// The current value of the register.
    pub closed spec fn value(&self) -> u64 {
        self.counter
    }

    /// Every event emitted so far, oldest first.
    pub closed spec fn event_log(&self) -> Seq<Event> {
        self.events@
    }

    /// A fresh module: the register holds zero and no event was emitted.
    pub fn new() -> (r: Self)
        ensures
            r.value() == 0,
            r.event_log() == Seq::<Event>::empty(),
    {
        Pallet { counter: 0, events: Vec::new() }
    }

    /// Reads the register.
    pub fn counter(&self) -> (r: u64)
        ensures
            r == self.value(),
    {
        self.counter
    }

    /// Writes the register directly, as the host's storage layer can.
    pub fn put_counter(&mut self, value: u64)
        ensures
            final(self).value() == value,
            final(self).event_log() == old(self).event_log(),
    {
        self.counter = value;
    }

    /// The most recent event, if any.
    pub fn last_event(&self) -> (r: Option<Event>)
        ensures
            r == (if self.event_log().len() == 0 {
                None
            } else {
                Some(self.event_log().last())
            }),
    {
        let n = self.events.len();
        if n == 0 {
            None
        } else {
            Some(self.events[n - 1])
        }
    }

    /// Adds one to the register on behalf of `who`.
    ///
    /// At `u64::MAX` the call fails with `Overflow` and changes nothing;
    /// otherwise the register grows by one and `CounterIncremented` is emitted.
    pub fn increment(&mut self, who: u64) -> (r: Result<(), Error>)
        ensures
            old(self).value() == u64::MAX ==> {
                &&& r == Err::<(), Error>(Error::Overflow)
                &&& final(self).value() == old(self).value()
                &&& final(self).event_log() == old(self).event_log()
            },
            old(self).value() < u64::MAX ==> {
                &&& r == Ok::<(), Error>(())
                &&& final(self).value() == old(self).value() + 1
                &&& final(self).event_log() == old(self).event_log().push(
                    Event::CounterIncremented { new: final(self).value(), who },
                )
            },
    {
        match self.counter.checked_add(1) {
            None => Err(Error::Overflow),
            Some(next) => {
                self.counter = next;
                self.events.push(Event::CounterIncremented { new: next, who });
                Ok(())
            },
        }
    }

    /// Sets the register to zero on behalf of `who` and emits `CounterReset`.
    pub fn reset(&mut self, who: u64) -> (r: Result<(), Error>)
        ensures
            r == Ok::<(), Error>(()),
            final(self).value() == 0,
            final(self).event_log() == old(self).event_log().push(Event::CounterReset { who }),
    {
        self.counter = 0;
        self.events.push(Event::CounterReset { who });
        Ok(())
    }
}

} // verus!
