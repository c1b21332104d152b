use invok::errors::RuntimeError;
use invok::runtime::{
    build_outcome, container_request, cpu_limits, parse_port_binding, BuildEvent, SIZE_256_MB,
};
use invok::scheduler::container_details;

#[test]
fn test_cpu_limits() {
    let (period, quota) = cpu_limits(1000);
    assert_eq!(period, 100000);
    assert_eq!(quota, 100000);
    let (period, quota) = cpu_limits(2000);
    assert_eq!(period, 100000);
    assert_eq!(quota, 200000);
    let (period, quota) = cpu_limits(500);
    assert_eq!(period, 100000);
    assert_eq!(quota, 50000);
}

#[test]
fn port_bindings_split_at_the_colon() {
    assert_eq!(
        parse_port_binding("8080:8080"),
        Some((String::from("8080"), String::from("8080")))
    );
    assert_eq!(
        parse_port_binding(":8080"),
        Some((String::from(""), String::from("8080")))
    );
    assert_eq!(parse_port_binding("8080"), None);
    assert_eq!(parse_port_binding("a:b:c"), None);
}

#[test]
fn container_request_carries_the_limits() {
    let details = container_details(3, String::from("runner-1"), String::from("invok-net"));
    let r = container_request(String::from("hello-3b32b2dc"), &details);
    assert_eq!(r.image, "hello-3b32b2dc");
    assert_eq!(r.memory_bytes, SIZE_256_MB);
    assert_eq!(r.memory_bytes, 256 * 1024 * 1024);
    assert_eq!((r.cpu_period, r.cpu_quota), (100000, 100000));
    assert_eq!(r.host_ip, "127.0.0.1");
    assert_eq!(r.host_port, details.bind_port);
    assert_eq!(r.container_port, 8080);
    assert!(r.auto_remove);
    assert_eq!(r.network, "invok-net");
}

#[test]
fn build_stream_verdicts() {
    assert!(build_outcome(BuildEvent::Completed).is_ok());
    match build_outcome(BuildEvent::ServerError(String::from("no such base image"))) {
        Err(e) => assert_eq!(e.message(), "Docker build error: no such base image"),
        Ok(_) => panic!("a daemon-reported failure must fail the build"),
    }
    match build_outcome(BuildEvent::StreamError(String::from("connection reset"))) {
        Err(e) => assert_eq!(e.message(), "Build stream error: connection reset"),
        Ok(_) => panic!("a broken stream must fail the build"),
    }
    let system = RuntimeError::System(String::from("daemon unreachable"));
    assert_eq!(system.message(), "System Error: daemon unreachable");
}
