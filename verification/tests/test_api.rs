use elerem::web::api::test_routes::{
    compute_limit, compute_response, count_primes_up_to, create_user, get_user_by_id, get_users,
    health, memory_workload, performance_response, protected_user_info, public_info, update_user,
    ComputeQuery, CreateUserRequest, PerfEndpoint, PerformanceQuery, UserQuery,
    DEFAULT_MEMORY_SIZE, DEFAULT_PRIME_LIMIT,
};

fn names(search: Option<&str>) -> Vec<String> {
    get_users(UserQuery { search: search.map(|s| s.to_string()) })
        .into_iter()
        .map(|u| u.username)
        .collect()
}

#[test]
fn listing_users_with_and_without_search() {
    assert_eq!(names(None), vec!["alice", "bob", "charlie"]);
    assert_eq!(names(Some("")), vec!["alice", "bob", "charlie"]);
    assert_eq!(names(Some("ALICE")), vec!["alice"]);
    assert_eq!(names(Some("example.com")), vec!["alice", "bob", "charlie"]);
    assert_eq!(names(Some("Ar")), vec!["charlie"]);
    assert_eq!(names(Some("zzz")), Vec::<String>::new());
    let users = get_users(UserQuery { search: Some("b".to_string()) });
    assert_eq!(users.len(), 1);
    assert_eq!(users[0].id, 2);
    assert_eq!(users[0].email, "bob@example.com");
}

#[test]
fn fixed_answers() {
    let h = health();
    assert_eq!(h.status, "ok");
    assert_eq!(h.message, "Service is running");
    let i = public_info();
    assert_eq!(i.service, "Elerem API");
    assert_eq!(i.version, "1.0.0");
    assert_eq!(i.description, "Test API with protected and unprotected routes");
    let me = protected_user_info();
    assert_eq!((me.id, me.username.as_str(), me.email.as_str()), (1, "current_user", "user@example.com"));
}

#[test]
fn users_by_id_and_from_requests() {
    let u = get_user_by_id(42);
    assert_eq!(u.id, 42);
    assert_eq!(u.username, "user42");
    assert_eq!(u.email, "user42@example.com");
    let c = create_user(CreateUserRequest { username: "dora".to_string(), email: "d@x.io".to_string() });
    assert_eq!((c.id, c.username.as_str(), c.email.as_str()), (999, "dora", "d@x.io"));
    let up = update_user(5, CreateUserRequest { username: "eve".to_string(), email: "e@x.io".to_string() });
    assert_eq!((up.id, up.username.as_str(), up.email.as_str()), (5, "eve", "e@x.io"));
}

#[test]
fn performance_endpoints() {
    let none = PerformanceQuery { delay_ms: None };
    assert_eq!(PerfEndpoint::Fast.delay_for(&none), 10);
    assert_eq!(PerfEndpoint::Medium.delay_for(&none), 100);
    assert_eq!(PerfEndpoint::Slow.delay_for(&none), 500);
    assert_eq!(PerfEndpoint::VerySlow.delay_for(&none), 2000);
    assert_eq!(PerfEndpoint::Slow.delay_for(&PerformanceQuery { delay_ms: Some(3) }), 3);
    let r = performance_response(PerfEndpoint::VerySlow, 2000, 2003);
    assert_eq!(r.endpoint, "very_slow");
    assert_eq!(r.processing_time_ms, 2003);
    assert_eq!(r.message, "This endpoint responds in ~2000ms");
    assert_eq!(performance_response(PerfEndpoint::Fast, 10, 11).endpoint, "fast");
}

#[test]
fn prime_counts() {
    assert_eq!(count_primes_up_to(0), 0);
    assert_eq!(count_primes_up_to(1), 0);
    assert_eq!(count_primes_up_to(2), 1);
    assert_eq!(count_primes_up_to(10), 4);
    assert_eq!(count_primes_up_to(100), 25);
    assert_eq!(count_primes_up_to(DEFAULT_PRIME_LIMIT), 9592);
    assert_eq!(compute_limit(&ComputeQuery { limit: None }, DEFAULT_PRIME_LIMIT), 100_000);
    assert_eq!(compute_limit(&ComputeQuery { limit: Some(7) }, DEFAULT_PRIME_LIMIT), 7);
    let r = compute_response(4, 10, 1);
    assert_eq!((r.result, r.iterations, r.processing_time_ms), (4, 10, 1));
}

#[test]
fn memory_workload_sums_the_largest_thousand() {
    assert_eq!(memory_workload(0), Some(0));
    assert_eq!(memory_workload(5), Some(10));
    assert_eq!(memory_workload(2000), Some(1_499_500));
    let expected: u64 = (0..DEFAULT_MEMORY_SIZE).rev().take(1000).sum();
    assert_eq!(memory_workload(DEFAULT_MEMORY_SIZE), Some(expected));
}
