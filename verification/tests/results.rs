use chainer::results::CallChain;
use chainer::results::CallChainMut;

struct Counter {
    value: i32,
}

impl Counter {
    fn increment(&mut self) -> i32 {
        self.value += 1;
        self.value
    }
}

#[test]
fn test_results_mutable() {
    let result = Counter { value: 0 }
        .chain_mut(Counter::increment)
        .chain_mut(Counter::increment)
        .chain_mut(Counter::increment)
        .result;

    assert_eq!(result, 3);
}

#[test]
fn test_results_mutable_subject_after_chain() {
    let mut counter = Counter { value: 0 };

    let result = counter
        .chain_mut(Counter::increment)
        .chain_mut(Counter::increment)
        .chain_mut(Counter::increment)
        .into_result();

    assert_eq!(result, 3);
    assert_eq!(counter.value, 3);
}

#[test]
fn test_results_step_results_in_order() {
    let mut counter = Counter { value: 0 };

    let mut w1 = counter.chain_mut(Counter::increment);
    assert_eq!(w1.result, 1);
    let mut w2 = w1.chain_mut(Counter::increment);
    assert_eq!(w2.result, 2);
    let w3 = w2.chain_mut(Counter::increment);
    assert_eq!(w3.result, 3);
    assert_eq!(w3.as_ref().value, 3);
}

struct HitCounter<'c> {
    hits: &'c core::sync::atomic::AtomicU8,
}

impl<'c> HitCounter<'c> {
    fn increment(&self) -> u8 {
        self.hits.fetch_add(1, core::sync::atomic::Ordering::Relaxed) + 1
    }
}

#[test]
fn test_results_immutable_each_step_runs_once() {
    let hits = core::sync::atomic::AtomicU8::new(0);
    let counter = HitCounter { hits: &hits };

    let result = counter
        .chain(HitCounter::increment)
        .chain(HitCounter::increment)
        .chain(HitCounter::increment)
        .into_result();

    assert_eq!(result, 3);
    assert_eq!(hits.load(core::sync::atomic::Ordering::Relaxed), 3);
}

#[test]
fn test_retrieval_is_a_pure_read() {
    let hits = core::sync::atomic::AtomicU8::new(0);
    let counter = HitCounter { hits: &hits };

    let w = counter.chain(HitCounter::increment);
    assert_eq!(hits.load(core::sync::atomic::Ordering::Relaxed), 1);

    assert_eq!(*w.result_ref(), 1);
    assert_eq!(w.result, 1);
    assert_eq!(w.into_result(), 1);

    assert_eq!(hits.load(core::sync::atomic::Ordering::Relaxed), 1);
}

#[test]
fn test_results_immutable_keeps_subject() {
    let subject: i32 = 5;

    let w = subject.chain(|v: &i32| *v * 2);
    assert_eq!(w.result, 10);
    assert_eq!(*w.as_ref(), 5);

    let w2 = w.chain(|v: &i32| *v * 3);
    assert_eq!(w2.result, 15);
    assert_eq!(*w2.as_ref(), 5);
}

#[test]
fn test_result_accessors_read_and_write() {
    let mut counter = Counter { value: 0 };

    let mut w = counter.chain_mut(Counter::increment);
    assert_eq!(*w.result_ref(), 1);

    *w.result_mut() = 9;
    assert_eq!(w.result, 9);

    w.as_mut().value = 40;
    assert_eq!(w.as_ref().value, 40);

    assert_eq!(w.into_result(), 9);
    assert_eq!(counter.value, 40);
}

#[test]
fn test_chain_retains_last_result_and_subject_law() {
    let subject: i32 = 5;
    let w = chainer::results::chain_retains_last_result_and_subject(
        &subject,
        |v: &i32| *v + 1,
        |v: &i32| *v + 2,
        |v: &i32| *v * 3,
    );
    assert_eq!(w.result, 15);
    assert_eq!(*w.as_ref(), 5);
}

#[test]
fn test_chain_mut_retains_last_result_law() {
    let mut counter = Counter { value: 0 };
    let inc = Counter::increment;
    let r = chainer::results::chain_mut_retains_last_result(&mut counter, inc, inc, inc);
    assert_eq!(r, 3);
    assert_eq!(counter.value, 3);
}
