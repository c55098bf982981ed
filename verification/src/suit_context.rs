use vstd::prelude::*;
use crate::queues::FIFOQueue;
use crate::test::TestContext;

verus! {

/// A suite context: one situation being tested, execution-ready.
///
/// A suite context is composed of:
/// - **before-all queue** — procedures run once each, in first-in
///   first-out order, before any test; each entry is dequeued (moved) into
///   the execution step, so it can never run twice;
/// - **after-all queue** — likewise, but run once each at the very end of
///   the suite, after every test has completed;
/// - **before-each list** — a read-only ordered list of shared procedures
///   run in list order before every test; the processor only borrows the
///   list, so its entries are never consumed;
/// - **after-each list** — likewise, run in list order after every test;
/// - **tests queue** — the tests themselves, dequeued (moved) and run
///   exactly once each, in first-in first-out order.
///
/// `Q` is the run-once hook type, `L` the shared run-many hook type and
/// `F` the fallible procedure type wrapped by each [`TestContext`].
pub struct SuitContext<Q, L, F> {
    /// Run-once procedures executed before every test, in queue order.
    pub before_all_queue: FIFOQueue<Q>,
    /// Run-once procedures executed after every test, in queue order.
    pub after_all_queue: FIFOQueue<Q>,
    /// Shared procedures executed before each test, in list order.
    pub before_each_list: Vec<L>,
    /// Shared procedures executed after each test, in list order.
    pub after_each_list: Vec<L>,
    /// The tests to run, in queue order.
    pub tests_queue: FIFOQueue<TestContext<F>>,
}

impl<Q, L, F> SuitContext<Q, L, F> {
    /// Creates a suite with no hooks and no tests.
    pub fn new() -> (s: Self)
        ensures
            s.before_all_queue@ == Seq::<Q>::empty(),
            s.after_all_queue@ == Seq::<Q>::empty(),
            s.before_each_list@ == Seq::<L>::empty(),
            s.after_each_list@ == Seq::<L>::empty(),
            s.tests_queue@ == Seq::<TestContext<F>>::empty(),
    {
        SuitContext {
            before_all_queue: FIFOQueue::new(),
            after_all_queue: FIFOQueue::new(),
            before_each_list: Vec::new(),
            after_each_list: Vec::new(),
            tests_queue: FIFOQueue::new(),
        }
    }

    /// Creates a suite whose tests queue holds `tests` in order and whose
    /// hook collections are all empty: the common case of "tests only, no
    /// hooks".
    pub fn from_tests(tests: Vec<TestContext<F>>) -> (s: Self)
        ensures
            s.before_all_queue@ == Seq::<Q>::empty(),
            s.after_all_queue@ == Seq::<Q>::empty(),
            s.before_each_list@ == Seq::<L>::empty(),
            s.after_each_list@ == Seq::<L>::empty(),
            s.tests_queue@ == tests@,
    {
        SuitContext {
            before_all_queue: FIFOQueue::new(),
            after_all_queue: FIFOQueue::new(),
            before_each_list: Vec::new(),
            after_each_list: Vec::new(),
            tests_queue: FIFOQueue::from_vec(tests),
        }
    }
}

} // verus!
