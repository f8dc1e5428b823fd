use boots_core::samples::dns::{HealthChecker, HealthStatus, Region};

#[test]
fn test_region_creation() {
    let region = Region::new("us-east-1", "https://api.example.com/health");
    assert_eq!(region.id, "us-east-1");
    assert_eq!(region.weight, 100);
}

#[test]
fn test_region_with_weight() {
    let region = Region::with_weight("eu-west-1", "https://api-eu.example.com/health", 50);
    assert_eq!(region.weight, 50);
}

#[test]
fn test_health_checker() {
    let checker = HealthChecker::new(vec![Region::new("region-1", "http://localhost:8080/health")]);

    let statuses = checker.check_all();
    assert_eq!(statuses.len(), 1);
}

fn three_regions() -> HealthChecker {
    HealthChecker::new(vec![
        Region::new("a", "http://a"),
        Region::new("b", "http://b"),
        Region::with_weight("c", "http://c", 10),
    ])
}

#[test]
fn statuses_are_healthy_or_not() {
    let good = HealthStatus::healthy("a".to_string(), 900);
    assert!(good.healthy);
    assert_eq!(good.region_id, "a");
    assert_eq!(good.latency_nanos, 900);
    assert!(good.error.is_none());
    assert!(good.last_check > 1_600_000_000);
    let bad = HealthStatus::unhealthy("b".to_string(), "Status: 500".to_string());
    assert!(!bad.healthy);
    assert_eq!(bad.latency_nanos, 0);
    assert_eq!(bad.error, Some("Status: 500".to_string()));
}

#[test]
fn healthy_regions_are_those_with_a_healthy_status() {
    let checker = three_regions();
    let statuses = vec![
        HealthStatus::healthy("a".to_string(), 30),
        HealthStatus::unhealthy("b".to_string(), "down".to_string()),
        HealthStatus::healthy("c".to_string(), 10),
    ];
    let ids: Vec<&str> = checker.healthy_among(&statuses).iter().map(|r| r.id.as_str()).collect();
    assert_eq!(ids, vec!["a", "c"]);
    let short = vec![HealthStatus::unhealthy("a".to_string(), "down".to_string())];
    assert!(checker.healthy_among(&short).is_empty());
    assert!(checker.healthy_among(&Vec::new()).is_empty());
}

#[test]
fn best_region_is_the_first_of_the_fastest() {
    let checker = three_regions();
    let statuses = vec![
        HealthStatus::healthy("a".to_string(), 30),
        HealthStatus::healthy("b".to_string(), 10),
        HealthStatus::healthy("c".to_string(), 10),
    ];
    assert_eq!(checker.best_among(&statuses), Some(1));
    let with_fast_failure = vec![
        HealthStatus::healthy("a".to_string(), 30),
        HealthStatus::unhealthy("b".to_string(), "down".to_string()),
        HealthStatus::healthy("c".to_string(), 40),
    ];
    assert_eq!(checker.best_among(&with_fast_failure), Some(0));
    let none = vec![
        HealthStatus::unhealthy("a".to_string(), "x".to_string()),
        HealthStatus::unhealthy("b".to_string(), "x".to_string()),
    ];
    assert_eq!(checker.best_among(&none), None);
    let more_statuses_than_regions = vec![
        HealthStatus::healthy("a".to_string(), 30),
        HealthStatus::healthy("b".to_string(), 20),
        HealthStatus::healthy("c".to_string(), 25),
        HealthStatus::healthy("d".to_string(), 1),
    ];
    assert_eq!(checker.best_among(&more_statuses_than_regions), Some(1));
}

#[test]
fn a_check_of_every_region() {
    let checker = three_regions().with_timeout(250);
    let statuses = checker.check_all();
    assert_eq!(statuses.len(), 3);
    assert!(statuses.iter().all(|s| s.healthy));
    assert_eq!(statuses[2].region_id, "c");
    let all: Vec<&str> = checker.healthy_regions().iter().map(|r| r.id.as_str()).collect();
    assert_eq!(all, vec!["a", "b", "c"]);
    assert!(checker.select_best().is_some());
    let nothing = HealthChecker::new(Vec::new());
    assert!(nothing.select_best().is_none());
    assert!(nothing.healthy_regions().is_empty());
    let one = checker.check(&Region::new("z", "http://z"));
    assert!(one.healthy);
    assert_eq!(one.region_id, "z");
}
