use vstd::prelude::*;
use crate::procedures::{ListProcedure, TestProcedure};
use crate::queue::FIFOQueue;
use crate::suit_processor::{collected_failures, lemma_collected_failures_empty};
use crate::test_error::TestError;

verus! {

/// The execution-ready, order-locked form of a suite, produced by sealing
/// a [`DraftSuitContext`].
///
/// Before-all, after-all and tests are strict first-in first-out queues,
/// consumed by the run; before-each and after-each stay read-only ordered
/// lists, replayed for every test and never consumed. `P` is the shared
/// hook procedure type, `T` the test type.
pub struct SuitContext<P: Clone, T: Clone> {
    /// Procedures run once each, in queue order, before the first test.
    pub before_all_queue: FIFOQueue<P>,
    /// Procedures run once each, in queue order, after the last test.
    pub after_all_queue: FIFOQueue<P>,
    /// Shared procedures run before each test, in list order.
    pub before_each_list: Vec<P>,
    /// Shared procedures run after each test, in list order.
    pub after_each_list: Vec<P>,
    /// The tests to run, in queue order.
    pub tests_queue: FIFOQueue<T>,
}

/// The very first stage of a suite: all five collections are plain
/// vectors, freely mutable by the suite's builder.
///
/// Array order is intended execution order, but no ordering contract is
/// enforced until [`DraftSuitContext::seal`] turns the draft into a
/// [`SuitContext`]. Sealing consumes the draft, so a sealed suite can
/// never be re-entered into builder mode.
pub struct DraftSuitContext<P: Clone, T: Clone> {
    /// Will become the before-all queue, in this order.
    pub before_all_queue: Vec<P>,
    /// Will become the after-all queue, in this order.
    pub after_all_queue: Vec<P>,
    /// Will stay the before-each list, in this order.
    pub before_each_list: Vec<P>,
    /// Will stay the after-each list, in this order.
    pub after_each_list: Vec<P>,
    /// Will become the tests queue, in this order.
    pub tests_queue: Vec<T>,
}

impl<P: Clone, T: Clone> DraftSuitContext<P, T> {
    /// Creates a draft with all five collections empty.
    pub fn new() -> (d: Self)
        ensures
            d.before_all_queue@ == Seq::<P>::empty(),
            d.after_all_queue@ == Seq::<P>::empty(),
            d.before_each_list@ == Seq::<P>::empty(),
            d.after_each_list@ == Seq::<P>::empty(),
            d.tests_queue@ == Seq::<T>::empty(),
    {
        Self {
            before_all_queue: Vec::new(),
            after_all_queue: Vec::new(),
            before_each_list: Vec::new(),
            after_each_list: Vec::new(),
            tests_queue: Vec::new(),
        }
    }

    /// Seals the draft, consuming it and returning the execution-ready
    /// suite. Sealing never reorders entries: array order at seal time
    /// equals dequeue order at run time, and sealing always succeeds.
    pub fn seal(self) -> (s: SuitContext<P, T>)
        ensures
            s.before_all_queue@ == self.before_all_queue@,
            s.after_all_queue@ == self.after_all_queue@,
            s.before_each_list@ == self.before_each_list@,
            s.after_each_list@ == self.after_each_list@,
            s.tests_queue@ == self.tests_queue@,
    {
        SuitContext {
            before_all_queue: FIFOQueue::from_vec(self.before_all_queue),
            after_all_queue: FIFOQueue::from_vec(self.after_all_queue),
            before_each_list: self.before_each_list,
            after_each_list: self.after_each_list,
            tests_queue: FIFOQueue::from_vec(self.tests_queue),
        }
    }
}

/// `rs` assigns every test of `tests` an outcome that the test's own
/// contract admits: one entry per test of the queue, in test order.
pub open spec fn run_outcomes<T: TestProcedure>(
    tests: Seq<T>,
    rs: Seq<Result<(), TestError>>,
) -> bool {
    rs.len() == tests.len() && (forall|i: int|
        0 <= i < rs.len() ==> tests[i].outcome(#[trigger] rs[i]))
}

/// Executes one sealed suite to completion and reports the first test
/// failure, if any.
///
/// The lifecycle is the deterministic order of
/// [`crate::schedule::run_order`]: drain the before-all queue, then for
/// each test replay the before-each list, run the test and replay the
/// after-each list, and drain the after-all queue last. A test's failure
/// never aborts the run: the failing test's after-each hooks, the
/// remaining tests and the after-all hooks all still run.
///
/// `Ok(())` means every test ran and reported success; `Err(e)` means
/// every test still ran, and `e` is the first failure collected — the
/// head of [`collected_failures`] over the whole run's outcomes. A caller
/// that wants the complete failure list uses
/// [`crate::suit_processor::suit_processor`].
#[verifier::loop_isolation(false)]
pub fn execute_suit<P: ListProcedure + Clone, T: TestProcedure + Clone>(
    suit: SuitContext<P, T>,
) -> (r: Result<(), TestError>)
    ensures
        r is Ok ==> forall|i: int|
            0 <= i < suit.tests_queue@.len()
                ==> #[trigger] suit.tests_queue@[i].outcome(Ok::<(), TestError>(())),
        r is Err ==> exists|rs: Seq<Result<(), TestError>>|
            #[trigger] run_outcomes(suit.tests_queue@, rs) && collected_failures(rs).len() > 0
                && collected_failures(rs)[0] == r->Err_0,
{
    let ghost all_tests = suit.tests_queue@;
    let mut suit = suit;
    let mut errors: Vec<TestError> = Vec::new();
    let ghost mut outcomes: Seq<Result<(), TestError>> = Seq::empty();

    // runs every before-all-procedure
    while suit.before_all_queue.size() > 0
        invariant
            suit.tests_queue@ == all_tests,
        decreases suit.before_all_queue@.len(),
    {
        if let Some(bap) = suit.before_all_queue.dequeue() {
            bap.run();
        }
    }

    // runs tests
    while suit.tests_queue.size() > 0
        invariant
            outcomes.len() + suit.tests_queue@.len() == all_tests.len(),
            suit.tests_queue@ == all_tests.skip(outcomes.len() as int),
            errors@ == collected_failures(outcomes),
            forall|i: int|
                0 <= i < outcomes.len() ==> all_tests[i].outcome(#[trigger] outcomes[i]),
        decreases suit.tests_queue@.len(),
    {
        let test = suit.tests_queue.dequeue().unwrap();
        proof {
            assert(test == all_tests[outcomes.len() as int]);
            assert(suit.tests_queue@ =~= all_tests.skip(outcomes.len() as int + 1));
        }

        // runs every before-each-procedure
        let mut i: usize = 0;
        while i < suit.before_each_list.len()
            decreases suit.before_each_list@.len() - i,
        {
            suit.before_each_list[i].run();
            i = i + 1;
        }

        let result = test.run();
        let ghost prev_outcomes = outcomes;
        proof {
            outcomes = outcomes.push(result);
            assert(outcomes.drop_last() =~= prev_outcomes);
        }
        if let Err(error) = result {
            errors.push(error);
        }

        // runs every after-each-procedure
        let mut i: usize = 0;
        while i < suit.after_each_list.len()
            decreases suit.after_each_list@.len() - i,
        {
            suit.after_each_list[i].run();
            i = i + 1;
        }
    }

    // runs every after-all-procedure
    while suit.after_all_queue.size() > 0
        decreases suit.after_all_queue@.len(),
    {
        if let Some(aap) = suit.after_all_queue.dequeue() {
            aap.run();
        }
    }

    proof {
        assert(run_outcomes(all_tests, outcomes));
    }
    if errors.len() == 0 {
        proof {
            lemma_collected_failures_empty(outcomes);
            assert forall|i: int|
                0 <= i < all_tests.len() implies #[trigger] all_tests[i].outcome(
                Ok::<(), TestError>(()),
            ) by {
                assert(outcomes[i] is Ok);
                assert(outcomes[i]->Ok_0 == ());
                assert(outcomes[i] == Ok::<(), TestError>(outcomes[i]->Ok_0));
            }
        }
        Ok(())
    } else {
        let first = errors.remove(0);
        Err(first)
    }
}

} // verus!
