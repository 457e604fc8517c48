//! The verdict model: what one check found, and the report of a whole run.

use vstd::prelude::*;
use vstd::string::StringExecFns;

verus! {

/// The verdict of one check.
#[derive(Debug, Clone, Copy, PartialEq, Eq, Structural)]
pub enum Status {
    Secure,
    Vulnerable,
    Warning,
}

impl Status {
    /// How grave a verdict is: `Secure` below `Warning` below `Vulnerable`.
    pub open spec fn severity(self) -> nat {
        match self {
            Status::Secure => 0,
            Status::Warning => 1,
            Status::Vulnerable => 2,
        }
    }

    /// The severity as a machine integer.
    pub fn rank(self) -> (r: u8)
        ensures
            r == self.severity(),
    {
        match self {
            Status::Secure => 0,
            Status::Warning => 1,
            Status::Vulnerable => 2,
        }
    }
}

/// The outcome of one check.
#[derive(Debug)]
pub struct TestResult {
    pub name: String,
    pub status: Status,
    pub description: String,
}

/// A `TestResult` as plain values.
pub struct TestResultView {
    pub name: Seq<char>,
    pub status: Status,
    pub description: Seq<char>,
}

impl TestResultView {
    /// What a result becomes when a finding is recorded: a graver verdict
    /// replaces verdict and description, and any other changes nothing.
    pub open spec fn escalated(self, status: Status, description: Seq<char>) -> TestResultView {
        if status.severity() > self.status.severity() {
            TestResultView { name: self.name, status, description }
        } else {
            self
        }
    }
}

impl View for TestResult {
    type V = TestResultView;

    open spec fn view(&self) -> TestResultView {
        TestResultView { name: self.name@, status: self.status, description: self.description@ }
    }
}

impl TestResult {
    /// A result that starts out `Secure`.
    pub fn secure(name: &str, description: &str) -> (r: TestResult)
        ensures
            r@ == (TestResultView {
                name: name@,
                status: Status::Secure,
                description: description@,
            }),
    {
        TestResult {
            name: String::from_str(name),
            status: Status::Secure,
            description: String::from_str(description),
        }
    }

    /// Records a finding. The verdict only ever becomes graver: a finding that
    /// is not graver than the present verdict changes nothing.
    pub fn escalate(&mut self, status: Status, description: &str)
        ensures
            final(self)@ == old(self)@.escalated(status, description@),
            final(self).status.severity() >= old(self).status.severity(),
    {
        if status.rank() > self.status.rank() {
            self.status = status;
            self.description = String::from_str(description);
        }
    }
}

/// The results of one run against one target, in the order of evaluation.
#[derive(Debug)]
pub struct SecurityReport {
    pub target: String,
    pub tests: Vec<TestResult>,
}

/// A `SecurityReport` as plain values.
pub struct SecurityReportView {
    pub target: Seq<char>,
    pub tests: Seq<TestResultView>,
}

/// The results of `tests` as plain values.
pub open spec fn results_of(tests: Seq<TestResult>) -> Seq<TestResultView> {
    Seq::new(tests.len(), |i: int| tests[i]@)
}

impl View for SecurityReport {
    type V = SecurityReportView;

    open spec fn view(&self) -> SecurityReportView {
        SecurityReportView { target: self.target@, tests: results_of(self.tests@) }
    }
}

} // verus!
