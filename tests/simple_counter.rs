use solochain_pallets::simple_counter::{Error, Event, Pallet};

#[test]
fn increment_updates_counter_and_event() {
    let mut counter = Pallet::new();
    assert_eq!(counter.increment(1), Ok(()));
    assert_eq!(counter.counter(), 1);
    assert_eq!(counter.last_event(), Some(Event::CounterIncremented { new: 1, who: 1 }));
}

#[test]
fn reset_sets_zero() {
    let mut counter = Pallet::new();
    assert_eq!(counter.increment(1), Ok(()));
    assert_eq!(counter.reset(2), Ok(()));
    assert_eq!(counter.counter(), 0);
    assert_eq!(counter.last_event(), Some(Event::CounterReset { who: 2 }));
}

#[test]
fn overflow_guard() {
    let mut counter = Pallet::new();
    counter.put_counter(u64::MAX);
    assert_eq!(counter.increment(1), Err(Error::Overflow));
    assert_eq!(counter.counter(), u64::MAX);
    assert_eq!(counter.last_event(), None);
}

#[test]
fn increment_reaches_max_from_one_below() {
    let mut counter = Pallet::new();
    counter.put_counter(u64::MAX - 1);
    assert_eq!(counter.increment(7), Ok(()));
    assert_eq!(counter.counter(), u64::MAX);
    assert_eq!(counter.last_event(), Some(Event::CounterIncremented { new: u64::MAX, who: 7 }));
    assert_eq!(counter.increment(7), Err(Error::Overflow));
    assert_eq!(counter.counter(), u64::MAX);
}

#[test]
fn fresh_counter_is_zero_without_events() {
    let counter = Pallet::new();
    assert_eq!(counter.counter(), 0);
    assert_eq!(counter.last_event(), None);
}
