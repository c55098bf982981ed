use vstd::prelude::*;
use crate::test_error::TestError;

verus! {

/// A zero-argument, side-effecting callable that is consumed by its one
/// invocation.
///
/// Values of a `QueueProcedure` type are meant to sit in a first-in
/// first-out queue: the execution step dequeues a procedure, takes
/// ownership of it and runs it, so the procedure is invoked at most once.
pub trait QueueProcedure {
    /// Runs the procedure, consuming it.
    fn run(self);
}

/// A zero-argument, side-effecting callable that may be invoked any number
/// of times.
///
/// Values of a `ListProcedure` type stay in the list that owns them; every
/// execution attempt only borrows them, so the same procedure can be run
/// once per test without ever being consumed.
pub trait ListProcedure {
    /// Runs the procedure without consuming it.
    fn run(&self);
}

/// A zero-argument fallible callable: the body of one test.
///
/// Running a test procedure never aborts the caller; any failure is
/// reported as a [`TestError`] value in the result.
///
/// `outcome` is the implementor's description of the results its `run` can
/// produce. The default admits every result, which is all that can be said
/// of an arbitrary test body; an implementor with a stronger contract (such
/// as [`crate::test::FakeTest`], which never fails) narrows it.
pub trait TestProcedure {
    /// Which results `run` may return.
    open spec fn outcome(&self, r: Result<(), TestError>) -> bool {
        true
    }

    /// Runs the test body once, returning its success or failure.
    fn run(&self) -> (r: Result<(), TestError>)
        ensures
            self.outcome(r),
    ;
}

} // verus!
