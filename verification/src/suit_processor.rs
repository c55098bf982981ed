use vstd::prelude::*;
use crate::procedures::{ListProcedure, QueueProcedure, TestProcedure};
use crate::queue;
use crate::suit_context::SuitContext;
use crate::test_error::TestError;

verus! {

/// The failures a run reports, given the outcome of every test in order:
/// the error of each failing test, kept in the order the tests ran.
pub open spec fn collected_failures(rs: Seq<Result<(), TestError>>) -> Seq<TestError>
    decreases rs.len(),
{
    if rs.len() == 0 {
        Seq::empty()
    } else {
        let init = collected_failures(rs.drop_last());
        match rs.last() {
            Ok(_) => init,
            Err(e) => init.push(e),
        }
    }
}

/// A run never reports more failures than it ran tests.
pub proof fn lemma_collected_failures_len(rs: Seq<Result<(), TestError>>)
    ensures
        collected_failures(rs).len() <= rs.len(),
    decreases rs.len(),
{
    if rs.len() > 0 {
        lemma_collected_failures_len(rs.drop_last());
    }
}

/// A run in which every test succeeds reports no failures: an empty
/// failure list signals a fully passing run.
pub proof fn lemma_collected_failures_all_ok(rs: Seq<Result<(), TestError>>)
    requires
        forall|i: int| 0 <= i < rs.len() ==> (#[trigger] rs[i]) is Ok,
    ensures
        collected_failures(rs) == Seq::<TestError>::empty(),
    decreases rs.len(),
{
    if rs.len() > 0 {
        assert(rs.last() is Ok);
        lemma_collected_failures_all_ok(rs.drop_last());
    }
}

/// A run that reports no failures is a run in which every test
/// succeeded.
pub proof fn lemma_collected_failures_empty(rs: Seq<Result<(), TestError>>)
    requires
        collected_failures(rs).len() == 0,
    ensures
        forall|i: int| 0 <= i < rs.len() ==> (#[trigger] rs[i]) is Ok,
    decreases rs.len(),
{
    if rs.len() > 0 {
        assert(rs.last() is Ok);
        lemma_collected_failures_empty(rs.drop_last());
        assert forall|i: int| 0 <= i < rs.len() implies (#[trigger] rs[i]) is Ok by {
            if i < rs.len() - 1 {
                assert(rs[i] == rs.drop_last()[i]);
            }
        }
    }
}

/// Borrows every element of `v`, in order.
fn borrow_all<T>(v: &Vec<T>) -> (r: Vec<&T>)
    ensures
        r@.len() == v@.len(),
        forall|i: int| 0 <= i < v@.len() ==> r@[i] == v@[i],
{
    let mut r: Vec<&T> = Vec::new();
    let mut i: usize = 0;
    while i < v.len()
        invariant
            i <= v@.len(),
            r@.len() == i,
            forall|j: int| 0 <= j < i ==> r@[j] == v@[j],
        decreases v@.len() - i,
    {
        r.push(&v[i]);
        i = i + 1;
    }
    r
}

/// Executes one suite to completion and reports every test failure, in the
/// order the tests ran, without ever aborting early because a test failed.
///
/// The lifecycle is deterministic and strictly sequential: the before-all
/// queue is drained first; then each test is dequeued in turn, surrounded
/// by a fresh first-in first-out pass over the shared before-each and
/// after-each lists; the after-all queue is drained last, even if some or
/// all tests failed. [`crate::schedule::run_order`] states this order
/// exactly.
///
/// The result is [`collected_failures`] of the tests' outcomes: one entry
/// per failing test, in test order, and each outcome is one the dequeued
/// test's own contract admits. An empty result signals a fully passing
/// run.
pub fn suit_processor<Q: QueueProcedure, L: ListProcedure, F: TestProcedure>(
    suit: SuitContext<Q, L, F>,
) -> (errors: Vec<TestError>)
    ensures
        exists|rs: Seq<Result<(), TestError>>|
            rs.len() == suit.tests_queue@.len() && errors@ == #[trigger] collected_failures(rs)
                && (forall|i: int|
                0 <= i < rs.len() ==> suit.tests_queue@[i].procedure().outcome(#[trigger] rs[i])),
        errors@.len() <= suit.tests_queue@.len(),
        suit.tests_queue@.len() == 0 ==> errors@ == Seq::<TestError>::empty(),
{
    let ghost all_tests = suit.tests_queue@;
    let mut suit = suit;
    let mut errors: Vec<TestError> = Vec::new();
    let ghost mut outcomes: Seq<Result<(), TestError>> = Seq::empty();

    // runs every before-all-procedure
    while suit.before_all_queue.size() > 0
        invariant
            suit.tests_queue@ == all_tests,
        decreases suit.before_all_queue@.len(),
    {
        if let Some(bap) = suit.before_all_queue.dequeue() {
            bap.run();
        }
    }

    // runs tests
    while suit.tests_queue.size() > 0
        invariant
            outcomes.len() + suit.tests_queue@.len() == all_tests.len(),
            suit.tests_queue@ == all_tests.skip(outcomes.len() as int),
            errors@ == collected_failures(outcomes),
            forall|i: int|
                0 <= i < outcomes.len() ==> all_tests[i].procedure().outcome(#[trigger] outcomes[i]),
        decreases suit.tests_queue@.len(),
    {
        let test = suit.tests_queue.dequeue().unwrap();
        proof {
            assert(test == all_tests[outcomes.len() as int]);
            assert(suit.tests_queue@ =~= all_tests.skip(outcomes.len() as int + 1));
        }

        // runs every before-each-procedure
        let mut before_each_procedures = queue::FIFOQueue::from_vec(borrow_all(
            &suit.before_each_list,
        ));
        while before_each_procedures.size() > 0
            decreases before_each_procedures@.len(),
        {
            if let Some(bep) = before_each_procedures.dequeue() {
                bep.run();
            }
        }

        let result = test.run();
        let ghost prev_outcomes = outcomes;
        proof {
            outcomes = outcomes.push(result);
            assert(outcomes.drop_last() =~= prev_outcomes);
        }
        if let Err(error) = result {
            errors.push(error);
        }

        // runs every after-each-procedure
        let mut after_each_procedures = queue::FIFOQueue::from_vec(borrow_all(
            &suit.after_each_list,
        ));
        while after_each_procedures.size() > 0
            decreases after_each_procedures@.len(),
        {
            if let Some(aep) = after_each_procedures.dequeue() {
                aep.run();
            }
        }
    }

    // runs every after-all-procedure
    while suit.after_all_queue.size() > 0
        decreases suit.after_all_queue@.len(),
    {
        if let Some(aap) = suit.after_all_queue.dequeue() {
            aap.run();
        }
    }

    proof {
        assert(outcomes.len() == all_tests.len());
        lemma_collected_failures_len(outcomes);
        assert(rs_witness(outcomes, all_tests, errors@));
    }
    errors
}

/// The body of `suit_processor`'s main postcondition, for one candidate
/// outcome sequence.
spec fn rs_witness<F: TestProcedure>(
    rs: Seq<Result<(), TestError>>,
    tests: Seq<crate::test::TestContext<F>>,
    errors: Seq<TestError>,
) -> bool {
    rs.len() == tests.len() && errors == collected_failures(rs) && (forall|i: int|
        0 <= i < rs.len() ==> tests[i].procedure().outcome(#[trigger] rs[i]))
}

} // verus!
