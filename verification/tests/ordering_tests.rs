use std::cell::Cell;
use std::cell::RefCell;

use defer_rs::Defer;
use defer_rs::DeferGroup;
use defer_rs::DeferredAction;
use defer_rs::DeferredCall;
use defer_rs::EagerCall;

/// Records its label in a shared log when it runs.
struct Record<'a> {
    log: &'a RefCell<Vec<&'static str>>,
    label: &'static str,
}

impl DeferredAction for Record<'_> {
    fn run(self) {
        self.log.borrow_mut().push(self.label);
    }
}

/// Adds one to a shared counter when it runs.
struct Bump<'a> {
    count: &'a Cell<u32>,
}

impl DeferredAction for Bump<'_> {
    fn run(self) {
        self.count.set(self.count.get() + 1);
    }
}

#[test]
fn slot_runs_action_exactly_once() {
    let count = Cell::new(0);
    {
        let _slot = Defer::new(Bump { count: &count });
        // Not yet: the action runs at the moment the owning scope ends,
        // never before.
        assert_eq!(count.get(), 0);
    }
    assert_eq!(count.get(), 1);
}

#[test]
fn slot_runs_action_on_early_exit() {
    let count = Cell::new(0);
    'body: {
        let _slot = Defer::new(Bump { count: &count });
        if count.get() == 0 {
            break 'body;
        }
        unreachable!();
    }
    assert_eq!(count.get(), 1);
}

#[test]
fn group_append_is_fifo() {
    let log = RefCell::new(Vec::new());
    {
        let mut group = DeferGroup::new();
        group.push(Record { log: &log, label: "a1" });
        group.push(Record { log: &log, label: "a2" });
        group.push(Record { log: &log, label: "a3" });
        assert_eq!(log.borrow().len(), 0);
    }
    assert_eq!(*log.borrow(), vec!["a1", "a2", "a3"]);
}

#[test]
fn group_prepend_is_lifo() {
    let log = RefCell::new(Vec::new());
    {
        let mut group = DeferGroup::new();
        group.add(Record { log: &log, label: "a1" });
        group.add(Record { log: &log, label: "a2" });
        group.add(Record { log: &log, label: "a3" });
        assert_eq!(log.borrow().len(), 0);
    }
    assert_eq!(*log.borrow(), vec!["a3", "a2", "a1"]);
}

#[test]
fn group_mixed_composition_order() {
    let log = RefCell::new(Vec::new());
    {
        let mut group = DeferGroup::new();
        group.push(Record { log: &log, label: "a" });
        group.add(Record { log: &log, label: "b" });
        group.push(Record { log: &log, label: "c" });
        group.add(Record { log: &log, label: "d" });
    }
    assert_eq!(*log.borrow(), vec!["d", "b", "a", "c"]);
}

#[test]
fn nested_group_drains_before_and_independently_of_outer() {
    let log = RefCell::new(Vec::new());
    {
        let mut outer = DeferGroup::new();
        outer.push(Record { log: &log, label: "outer1" });
        {
            let mut inner = DeferGroup::new();
            inner.push(Record { log: &log, label: "inner1" });
            inner.push(Record { log: &log, label: "inner2" });
            // More registrations on the outer group while the inner one
            // lives: the two groups do not affect each other.
            outer.push(Record { log: &log, label: "outer2" });
        }
        // The inner group drained fully at its own scope's end, before the
        // outer group's drain; the outer group is unaffected.
        assert_eq!(*log.borrow(), vec!["inner1", "inner2"]);
    }
    assert_eq!(*log.borrow(), vec!["inner1", "inner2", "outer1", "outer2"]);
}

/// A target for [`EagerCall`]: records the frozen value in the log.
struct RecordValue<'a> {
    log: &'a RefCell<Vec<i32>>,
}

impl DeferredCall<i32> for RecordValue<'_> {
    fn call_with(self, arg: i32) {
        self.log.borrow_mut().push(arg);
    }
}

/// Records the counter's value as observed at execution time.
struct RecordCounterLater<'a> {
    log: &'a RefCell<Vec<i32>>,
    counter: &'a Cell<i32>,
}

impl DeferredAction for RecordCounterLater<'_> {
    fn run(self) {
        self.log.borrow_mut().push(self.counter.get());
    }
}

#[test]
fn eager_capture_observes_registration_time_value() {
    let log = RefCell::new(Vec::new());
    let counter = Cell::new(0);
    {
        // Eager-argument mode: the argument is evaluated here and now,
        // while the counter is still 0.
        let _eager = Defer::new(EagerCall::new(
            RecordValue { log: &log },
            counter.get(),
        ));
        counter.set(3);
    }
    assert_eq!(*log.borrow(), vec![0]);
}

#[test]
fn lazy_capture_observes_execution_time_value() {
    let log = RefCell::new(Vec::new());
    let counter = Cell::new(0);
    {
        // Lazy-body mode: the counter is read only when the action runs,
        // after the mutation below.
        let _lazy = Defer::new(RecordCounterLater {
            log: &log,
            counter: &counter,
        });
        counter.set(3);
    }
    assert_eq!(*log.borrow(), vec![3]);
}

/// Appends a line of printable output to a shared transcript.
struct Print<'a> {
    out: &'a RefCell<String>,
    text: &'static str,
}

impl DeferredAction for Print<'_> {
    fn run(self) {
        self.out.borrow_mut().push_str(self.text);
        self.out.borrow_mut().push('\n');
    }
}

#[test]
fn appended_prints_run_in_order_prepended_in_reverse() {
    let out = RefCell::new(String::new());
    {
        let mut group = DeferGroup::new();
        group.push(Print { out: &out, text: "A" });
        group.push(Print { out: &out, text: "B" });
    }
    assert_eq!(*out.borrow(), "A\nB\n");

    let out2 = RefCell::new(String::new());
    {
        let mut group = DeferGroup::new();
        group.add(Print { out: &out2, text: "C" });
        group.add(Print { out: &out2, text: "D" });
    }
    assert_eq!(*out2.borrow(), "D\nC\n");
}
