//! Data model of the test-job platform: job kinds, lifecycle states and the
//! request shape used to create a job.  Scheduling, persistence and the
//! transport layer live outside the library.

use vstd::prelude::*;

verus! {

/// The automation framework a test job runs under.
#[derive(Clone, Debug, PartialEq, Eq, Structural)]
pub enum TestType {
    Playwright,
    Selenium,
    Cypress,
}

/// The lifecycle state of a test job.
#[derive(Clone, Debug, PartialEq, Eq, Structural)]
pub enum JobStatus {
    Pending,
    Running,
    Completed,
    Failed,
}

/// The outcome of one step within a job; a healed step was repaired
/// automatically and still counts as passing.
#[derive(Clone, Debug, PartialEq, Eq, Structural)]
pub enum StepStatus {
    Success,
    Healed,
    Failed,
}

/// A request to create a new test job.
#[derive(Clone, Debug)]
pub struct CreateJobRequest {
    pub test_type: TestType,
    pub config_payload: String,
}

} // verus!
