use trailblazer::basic::{health_response_body, LoadBalancer, WorkerStatus};

fn hosts() -> Vec<String> {
    vec![
        "127.0.0.1:3000".to_string(),
        "127.0.0.1:3001".to_string(),
        "127.0.0.1:3002".to_string(),
    ]
}

#[test]
fn basic_load_balancer_refuses_empty_list() {
    match LoadBalancer::new(vec![]) {
        Err(message) => assert_eq!(message, "No worker hosts provided"),
        Ok(_) => panic!("expected an error"),
    }
}

#[test]
fn basic_round_robin_starts_at_second_worker() {
    let mut lb = LoadBalancer::new(hosts()).unwrap();
    assert_eq!(lb.get_next_worker(), "127.0.0.1:3001");
    assert_eq!(lb.get_next_worker(), "127.0.0.1:3002");
    assert_eq!(lb.get_next_worker(), "127.0.0.1:3000");
    assert_eq!(lb.get_next_worker(), "127.0.0.1:3001");
}

#[test]
fn basic_single_worker_always_chosen() {
    let mut lb = LoadBalancer::new(vec!["only:1".to_string()]).unwrap();
    assert_eq!(lb.get_next_worker(), "only:1");
    assert_eq!(lb.get_next_worker(), "only:1");
}

#[test]
fn basic_forward_request_uri() {
    let mut lb = LoadBalancer::new(hosts()).unwrap();
    let uri = lb.forward_request(Some("/a?b=c")).unwrap();
    assert_eq!(uri.to_string(), "http://127.0.0.1:3001/a?b=c");
    let mut bad = LoadBalancer::new(vec!["no good".to_string()]).unwrap();
    assert!(bad.forward_request(None).is_err());
}

#[test]
fn basic_health_body_is_up() {
    let body = health_response_body(3);
    assert_eq!(body.status, WorkerStatus::UP);
    assert_eq!(body.connection_count, 3);
}
