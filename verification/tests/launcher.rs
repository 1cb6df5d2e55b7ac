use elerem::fuzzer::config::{
    Configuration, EndpointWeight, LoadPattern, LoadTesting, Scenario, ScenarioId, TargetConfig,
};
use elerem::fuzzer::launcher::{JobId, JobIdCounter, Launcher};

fn config() -> Configuration {
    Configuration {
        id: ScenarioId("load".to_string()),
        name: "load".to_string(),
        description: Some("constant load".to_string()),
        target: TargetConfig {
            base_url: "http://127.0.0.1:8081".to_string(),
            auth_token: None,
            timeout_seconds: 10,
            headers: Some(vec![("x".to_string(), "y".to_string())]),
        },
        scenario: Scenario::LoadTesting(LoadTesting {
            pattern: LoadPattern::Constant { virtual_users: 5, requests_per_second: Some(2) },
            duration_seconds: 60,
            endpoints: vec![EndpointWeight {
                method: "GET".to_string(),
                path: "/health".to_string(),
                body: None,
                weight: 1,
            }],
            think_time_ms: 100,
        }),
    }
}

#[test]
fn job_ids_start_at_one_and_advance() {
    let mut counter = JobIdCounter::new();
    let a = JobId::new(&mut counter);
    let b = JobId::new(&mut counter);
    assert_eq!(a.as_u64(), 1);
    assert_eq!(b.as_u64(), 2);
    assert_ne!(a, b);
    assert_eq!(JobId::from(42).to_string(), "42");
    assert_eq!(JobId::from(0).to_string(), "0");
    assert_eq!(JobId::from(u64::MAX).to_string(), "18446744073709551615");
}

#[test]
fn job_ids_wrap_around() {
    let mut counter = JobIdCounter { next: u64::MAX };
    assert_eq!(JobId::new(&mut counter).as_u64(), u64::MAX);
    assert_eq!(JobId::new(&mut counter).as_u64(), 0);
}

#[test]
fn metrics_read_after_create() {
    let mut launcher: Launcher<(), &str> = Launcher::new();
    let first = launcher.create_job(config(), "empty-1").unwrap();
    let second = launcher.create_job(config(), "empty-2").unwrap();
    assert_eq!(first, 1);
    assert_eq!(second, 2);
    assert_eq!(launcher.get_metrics(first), Ok(&"empty-1"));
    assert_eq!(launcher.get_metrics(second), Ok(&"empty-2"));
    assert_eq!(launcher.get_metrics(3), Err("No metrics for job 3".to_string()));
}

#[test]
fn stopping_an_unknown_job_is_reported() {
    let mut launcher: Launcher<u8, u8> = Launcher::new();
    let id = launcher.create_job(config(), 0).unwrap();
    assert_eq!(launcher.stop_job(id), Err(format!("Job {} not found", id)));
    assert_eq!(launcher.stop_job(77), Err("Job 77 not found".to_string()));
    assert_eq!(launcher.get_metrics(id), Ok(&0));
}

#[test]
fn restart_creates_a_job_with_the_same_config() {
    let mut launcher: Launcher<u8, &str> = Launcher::new();
    let id = launcher.create_job(config(), "first").unwrap();
    assert_eq!(launcher.job_config(id).map(|c| c.id.0.clone()), Some("load".to_string()));
    let (handle, new_id) = launcher.restart_job(id, "again").unwrap();
    assert_eq!(handle, None);
    assert_eq!(new_id, 2);
    assert_eq!(launcher.get_metrics(new_id), Ok(&"again"));
    assert_eq!(launcher.get_metrics(id), Ok(&"first"));
    assert_eq!(launcher.job_config(new_id).map(|c| c.name.clone()), Some("load".to_string()));
    assert!(launcher.job_config(id).is_none());
    assert_eq!(launcher.restart_job(id, "x"), Err("Job 1 not found".to_string()));
    assert_eq!(launcher.restart_job(9, "x"), Err("Job 9 not found".to_string()));
}
