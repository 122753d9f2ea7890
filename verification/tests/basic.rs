use chainer::basic::CallChain;
use chainer::basic::CallChainMut;

struct HitCounter<'c> {
    hits: &'c core::sync::atomic::AtomicU8,
}

impl<'c> HitCounter<'c> {
    fn increment(&self) {
        self.hits.fetch_add(1, core::sync::atomic::Ordering::Relaxed);
    }
}

#[test]
fn test_immutable() {
    let hits = core::sync::atomic::AtomicU8::new(0);
    let counter = HitCounter { hits: &hits };

    counter
        .chain(HitCounter::increment)
        .chain(HitCounter::increment)
        .chain(HitCounter::increment);

    assert_eq!(hits.load(core::sync::atomic::Ordering::Relaxed), 3);
}

struct Counter {
    value: i32,
}

impl Counter {
    fn increment(&mut self) -> i32 {
        self.value += 1;
        self.value
    }
}

#[test]
fn test_basic_mutable() {
    let mut counter = Counter { value: 0 };

    counter
        .chain_mut(Counter::increment)
        .chain_mut(Counter::increment)
        .chain_mut(Counter::increment);

    assert_eq!(counter.value, 3);
}

struct LoggingCounter {
    value: i32,
    seen: Vec<i32>,
}

impl LoggingCounter {
    fn increment(&mut self) -> i32 {
        self.value += 1;
        self.seen.push(self.value);
        self.value
    }
}

#[test]
fn test_basic_mutable_values_in_order() {
    let mut counter = LoggingCounter { value: 0, seen: Vec::new() };

    counter
        .chain_mut(LoggingCounter::increment)
        .chain_mut(LoggingCounter::increment)
        .chain_mut(LoggingCounter::increment);

    assert_eq!(counter.value, 3);
    assert_eq!(counter.seen, vec![1, 2, 3]);
}

#[test]
fn test_basic_immutable_returns_same_subject() {
    let subject: i32 = 41;
    let r = subject.chain(|v: &i32| *v + 1);
    assert_eq!(*r, 41);
}

#[test]
fn test_chain_observes_one_subject_law() {
    let subject: i32 = 7;
    let double = |v: &i32| *v * 2;
    let r = chainer::basic::chain_observes_one_subject(&subject, double, double, double);
    assert_eq!(*r, 7);
}

#[test]
fn test_chain_mut_applies_in_order_law() {
    let mut counter = Counter { value: 0 };
    let inc = Counter::increment;
    chainer::basic::chain_mut_applies_in_order(&mut counter, inc, inc, inc);
    assert_eq!(counter.value, 3);
}
