use vstd::prelude::*;

verus! {

/// The one domain error of the engine: a single test's failure.
///
/// The message identifies which test failed and why. Hook procedures are
/// infallible by construction, so no other error kind exists; a failing
/// test is recorded as one `TestError` and never aborts the run.
#[derive(Debug, Clone)]
pub struct TestError {
    /// What failed and why.
    pub message: String,
}

impl TestError {
    /// Creates a failure report carrying `message`.
    pub fn new(message: String) -> (e: Self)
        ensures
            e.message == message,
    {
        TestError { message }
    }
}

} // verus!
