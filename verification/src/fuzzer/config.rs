use vstd::prelude::*;

verus! {

/// Identifier of a test scenario.
#[derive(Debug)]
pub struct ScenarioId(pub String);

/// Main test scenario configuration.
#[derive(Debug)]
pub struct Configuration {
    /// Unique identifier for this scenario
    pub id: ScenarioId,
    /// Name of the test scenario
    pub name: String,
    /// Description of what this test does
    pub description: Option<String>,
    /// Target configuration
    pub target: TargetConfig,
    /// Test scenario type and settings
    pub scenario: Scenario,
}

/// Target system configuration.
#[derive(Debug)]
pub struct TargetConfig {
    /// Base URL of the target system
    pub base_url: String,
    /// Optional authentication token
    pub auth_token: Option<String>,
    /// Request timeout in seconds
    pub timeout_seconds: u64,
    /// Custom headers to include in all requests
    pub headers: Option<Vec<(String, String)>>,
}

/// The kind of test a scenario runs.
#[derive(Debug)]
pub enum Scenario {
    LoadTesting(LoadTesting),
    Security(Security),
}

/// Security testing configuration.
#[derive(Debug)]
pub struct Security {
    /// List of attack types to test
    pub attack_types: Vec<AttackType>,
    /// Number of concurrent requests
    pub concurrent_requests: u32,
    /// Maximum number of total requests
    pub max_requests: Option<u64>,
    /// Endpoints to test (if empty, will discover from target)
    pub endpoints: Vec<String>,
}

/// Kinds of attack a security scenario tries.
#[derive(Debug, Clone, Copy, PartialEq, Eq, Structural)]
pub enum AttackType {
    SqlInjection,
    XssInjection,
    CommandInjection,
    PathTraversal,
    AuthBypass,
    BrokenAccess,
    Csrf,
}

/// Load testing configuration.
#[derive(Debug)]
pub struct LoadTesting {
    /// Load pattern to use
    pub pattern: LoadPattern,
    /// Duration of the test in seconds
    pub duration_seconds: u64,
    /// Endpoints to test with their weights
    pub endpoints: Vec<EndpointWeight>,
    /// Think time between requests in milliseconds (per virtual user)
    pub think_time_ms: u64,
}

/// Load pattern configuration.
#[derive(Debug, Clone, Copy, PartialEq, Eq, Structural)]
pub enum LoadPattern {
    /// Constant number of virtual users
    Constant { virtual_users: u32, requests_per_second: Option<u32> },
    /// Ramp up from start to end users
    RampUp { start_users: u32, end_users: u32, ramp_duration_seconds: u64 },
    /// Spike pattern
    Spike { base_users: u32, spike_users: u32, spike_duration_seconds: u64 },
    /// Step pattern
    Step { start_users: u32, step_increment: u32, step_duration_seconds: u64, max_users: u32 },
}

/// Endpoint with weight for load distribution.
#[derive(Debug)]
pub struct EndpointWeight {
    /// HTTP method
    pub method: String,
    /// Endpoint path
    pub path: String,
    /// Optional request body template
    pub body: Option<String>,
    /// Weight for this endpoint (higher = more requests)
    pub weight: u32,
}

} // verus!
