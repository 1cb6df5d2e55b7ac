use vstd::prelude::*;
use std::marker::PhantomData;

verus! {

/// Feedback from executor to planner for adaptive test generation.
#[derive(Debug)]
pub struct PlannerFeedback;

/// A test scenario represents a high-level test strategy targeting one or more
/// endpoints; it generates concrete test cases lazily.
#[derive(Debug)]
pub struct TestScenario<A> {
    pub scenario_id: String,
    pub description: String,
    pub action: PhantomData<A>,
}

impl<A> TestScenario<A> {
    /// Create an iterator that lazily generates test cases from this scenario.
    pub fn into_cases(self) -> (it: CaseIterator<A>)
        ensures
            it.scenario == self,
            it.current_index == 0,
            it.total_cases is None,
    {
        CaseIterator::new(self)
    }
}

/// Iterator that lazily generates test cases from a scenario's parameter space.
pub struct CaseIterator<A> {
    pub scenario: TestScenario<A>,
    pub current_index: usize,
    pub total_cases: Option<usize>,
}

impl<A> CaseIterator<A> {
    /// A fresh iterator positioned before the first case of `scenario`, with the
    /// number of cases not yet known.
    pub fn new(scenario: TestScenario<A>) -> (it: Self)
        ensures
            it.scenario == scenario,
            it.current_index == 0,
            it.total_cases is None,
    {
        CaseIterator { scenario, current_index: 0, total_cases: None }
    }
}

/// Assertion to validate an action result (protocol-agnostic).
#[derive(Debug)]
pub struct AssertionRule {
    pub description: String,
}

/// A concrete test case with all parameters materialized.
#[derive(Debug)]
pub struct TestCase<A> {
    pub case_id: String,
    pub scenario_id: String,
    pub action: A,
    pub assertions: Vec<AssertionRule>,
}

/// HTTP methods a request template can use.
#[derive(Debug, Clone, Copy, PartialEq, Eq, Structural)]
pub enum Method {
    Get,
    Post,
    Put,
    Delete,
    Patch,
    Head,
    Options,
}

/// Request template for execution.
#[derive(Debug)]
pub struct RequestTemplate {
    pub method: Method,
    pub url: String,
    pub headers: Vec<(String, String)>,
    pub body: Option<Vec<u8>>,
    pub query_params: Vec<(String, String)>,
}

} // verus!
