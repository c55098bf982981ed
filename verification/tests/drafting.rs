use std::cell::RefCell;
use std::rc::Rc;

use rustest::draft::{execute_suit, DraftSuitContext};
use rustest::procedures::{ListProcedure, TestProcedure};
use rustest::test::FakeTest;
use rustest::test_error::TestError;

/// A hook that appends its message to a shared log.
#[derive(Clone)]
struct Callback {
    log: Rc<RefCell<Vec<String>>>,
    message: String,
}

impl Callback {
    fn new(log: &Rc<RefCell<Vec<String>>>, message: &str) -> Callback {
        Callback { log: Rc::clone(log), message: message.to_string() }
    }
}

impl ListProcedure for Callback {
    fn run(&self) {
        self.log.borrow_mut().push(self.message.clone());
    }
}

/// A test body that appends its message to a shared log and fails when
/// told to.
#[derive(Clone)]
struct Fallible {
    log: Rc<RefCell<Vec<String>>>,
    message: String,
    fails: bool,
}

impl TestProcedure for Fallible {
    fn run(&self) -> Result<(), TestError> {
        self.log.borrow_mut().push(self.message.clone());
        if self.fails {
            Err(TestError::new(self.message.clone()))
        } else {
            Ok(())
        }
    }
}

fn new_log() -> Rc<RefCell<Vec<String>>> {
    Rc::new(RefCell::new(Vec::new()))
}

#[test]
fn main_engine_flow() {
    let mut suit: DraftSuitContext<Callback, FakeTest<Callback>> = DraftSuitContext::new();
    let outputs = new_log();

    // register tests
    suit.tests_queue.push(FakeTest { cb: Callback::new(&outputs, "Ran call back n° 1!") });
    suit.tests_queue.push(FakeTest { cb: Callback::new(&outputs, "Ran call back n° 2!") });

    // registers before all and after all
    suit.before_all_queue.push(Callback::new(&outputs, "Before all ran!!!"));
    suit.after_all_queue.push(Callback::new(&outputs, "After all ran!!!"));

    // registers before and after each
    suit.before_each_list.push(Callback::new(&outputs, "Before each 1 just ran."));
    suit.before_each_list.push(Callback::new(&outputs, "Before each 1 just ran."));
    suit.after_each_list.push(Callback::new(&outputs, "After each 1 just ran."));
    suit.after_each_list.push(Callback::new(&outputs, "After each 1 just ran."));

    let result = execute_suit(suit.seal());
    result.unwrap();

    let expected_output: Vec<String> = vec![
        "Before all ran!!!".into(),
        "Before each 1 just ran.".into(),
        "Before each 1 just ran.".into(),
        "Ran call back n° 1!".into(),
        "After each 1 just ran.".into(),
        "After each 1 just ran.".into(),
        "Before each 1 just ran.".into(),
        "Before each 1 just ran.".into(),
        "Ran call back n° 2!".into(),
        "After each 1 just ran.".into(),
        "After each 1 just ran.".into(),
        "After all ran!!!".into(),
    ];

    assert_eq!(expected_output, outputs.take());
}

#[test]
fn seal_preserves_order_and_empties_nothing() {
    let log = new_log();
    let mut draft: DraftSuitContext<Callback, Fallible> = DraftSuitContext::new();
    draft.before_all_queue.push(Callback::new(&log, "ba0"));
    draft.before_all_queue.push(Callback::new(&log, "ba1"));
    draft.after_all_queue.push(Callback::new(&log, "aa0"));
    draft.before_each_list.push(Callback::new(&log, "be0"));
    draft.after_each_list.push(Callback::new(&log, "ae0"));
    draft.tests_queue.push(Fallible { log: Rc::clone(&log), message: "t0".into(), fails: false });
    draft.tests_queue.push(Fallible { log: Rc::clone(&log), message: "t1".into(), fails: false });

    let mut sealed = draft.seal();

    assert_eq!(2, sealed.before_all_queue.size());
    assert_eq!("ba0", sealed.before_all_queue.dequeue().unwrap().message);
    assert_eq!("ba1", sealed.before_all_queue.dequeue().unwrap().message);
    assert!(sealed.before_all_queue.dequeue().is_none());
    assert_eq!(1, sealed.after_all_queue.size());
    assert_eq!("aa0", sealed.after_all_queue.dequeue().unwrap().message);
    assert_eq!(1, sealed.before_each_list.len());
    assert_eq!("be0", sealed.before_each_list[0].message);
    assert_eq!(1, sealed.after_each_list.len());
    assert_eq!("ae0", sealed.after_each_list[0].message);
    assert_eq!(2, sealed.tests_queue.size());
    assert_eq!("t0", sealed.tests_queue.dequeue().unwrap().message);
    assert_eq!("t1", sealed.tests_queue.dequeue().unwrap().message);
}

#[test]
fn empty_draft_seals_to_a_no_op_suite() {
    let draft: DraftSuitContext<Callback, Fallible> = DraftSuitContext::new();
    let result = execute_suit(draft.seal());
    assert!(result.is_ok());
}

#[test]
fn execute_suit_completes_the_run_despite_a_failure() {
    let log = new_log();
    let mut draft: DraftSuitContext<Callback, Fallible> = DraftSuitContext::new();
    draft.before_each_list.push(Callback::new(&log, "before"));
    draft.after_each_list.push(Callback::new(&log, "after"));
    draft.after_all_queue.push(Callback::new(&log, "teardown"));
    draft.tests_queue.push(Fallible { log: Rc::clone(&log), message: "pass".into(), fails: false });
    draft.tests_queue.push(Fallible { log: Rc::clone(&log), message: "boom".into(), fails: true });
    draft.tests_queue.push(Fallible { log: Rc::clone(&log), message: "late".into(), fails: false });

    let result = execute_suit(draft.seal());

    let err = result.unwrap_err();
    assert_eq!("boom", err.message);
    // the failing test's after-each hooks, the remaining tests and the
    // after-all hooks all still ran
    let expected: Vec<String> = vec![
        "before".into(),
        "pass".into(),
        "after".into(),
        "before".into(),
        "boom".into(),
        "after".into(),
        "before".into(),
        "late".into(),
        "after".into(),
        "teardown".into(),
    ];
    assert_eq!(expected, log.take());
}

#[test]
fn execute_suit_reports_the_first_of_several_failures() {
    let log = new_log();
    let mut draft: DraftSuitContext<Callback, Fallible> = DraftSuitContext::new();
    draft.tests_queue.push(Fallible { log: Rc::clone(&log), message: "ok".into(), fails: false });
    draft.tests_queue.push(Fallible { log: Rc::clone(&log), message: "first".into(), fails: true });
    draft
        .tests_queue
        .push(Fallible { log: Rc::clone(&log), message: "second".into(), fails: true });

    let result = execute_suit(draft.seal());

    let err = result.unwrap_err();
    assert_eq!("first", err.message);
    // every test ran, the later failure included
    let expected: Vec<String> = vec!["ok".into(), "first".into(), "second".into()];
    assert_eq!(expected, log.take());
}
