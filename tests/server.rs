use hyper_line::registry::{HandlerId, HandlerRegistry};
use hyper_line::routing::{HttpMethod, PathConfig};
use hyper_line::server::{alpn_protocols, worker_thread_name_of, ServerBuilder};

#[test]
fn builder_defaults() {
    let b: ServerBuilder<u8> = ServerBuilder::new();
    let c = b.build();
    assert_eq!(c.worker_threads, 1);
    assert_eq!(c.worker_thread_name, "WT");
    assert_eq!(c.port, 8080);
    assert!(!c.tls_enabled);
    assert!(c.tls_server_config.is_none());
    assert!(c.paths.is_empty());
}

#[test]
fn builder_settings() {
    let mut b: ServerBuilder<u8> = ServerBuilder::new();
    b.worker_thread_name("worker")
        .worker_threads(4)
        .port(9000)
        .add_path(PathConfig { path: "/a".to_string(), method: HttpMethod::Get, request: vec![1], response: vec![] })
        .add_path(PathConfig { path: "/b".to_string(), method: HttpMethod::Post, request: vec![], response: vec![2] });
    let c = b.build();
    assert_eq!(c.worker_threads, 4);
    assert_eq!(c.worker_thread_name, "worker");
    assert_eq!(c.port, 9000);
    assert_eq!(c.paths.len(), 2);
    assert_eq!(c.paths[0].path, "/a");
    assert_eq!(c.paths[1].response, vec![2]);
    assert!(!c.tls_enabled);
}

#[test]
fn registry_refuses_duplicates() {
    let mut r: HandlerRegistry<u32> = HandlerRegistry::new();
    assert!(r.register("echo", 1).is_ok());
    assert!(r.register("proxy", 2).is_ok());
    assert!(r.register("echo", 3).is_err());
    assert_eq!(r.get_handler(&HandlerId("echo".to_string())), Some(&1));
    assert_eq!(r.get_handler(&HandlerId("echo".to_string())), Some(&1));
    assert_eq!(r.get_handler(&HandlerId("proxy".to_string())), Some(&2));
    assert_eq!(r.get_handler(&HandlerId("trace".to_string())), None);
}

#[test]
fn worker_threads_are_numbered() {
    assert_eq!(worker_thread_name_of("WT", 0), "WT-0");
    assert_eq!(worker_thread_name_of("pool", 1234), "pool-1234");
    assert_eq!(worker_thread_name_of("", 18446744073709551615), "-18446744073709551615");
}

#[test]
fn tls_offers_h2_then_http1() {
    assert_eq!(alpn_protocols(), vec![b"h2".to_vec(), b"http/1.1".to_vec()]);
}
