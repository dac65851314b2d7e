use hyper_line::exchange::Exchange;
use hyper_line::routing::{select_binding, ChainRun, HttpMethod, PathConfig, Step, INTERNAL_SERVER_ERROR, NOT_FOUND};
use std::str::FromStr;

fn binding(path: &str, method: HttpMethod) -> PathConfig<u32> {
    PathConfig { path: path.to_string(), method, request: vec![], response: vec![] }
}

#[test]
fn no_binding_matches() {
    let paths = vec![binding("/api", HttpMethod::Post)];
    assert_eq!(select_binding(&paths, HttpMethod::Get, "/missing"), None);
    assert_eq!(NOT_FOUND, 404);
}

#[test]
fn method_must_match_too() {
    let paths = vec![binding("/api", HttpMethod::Post)];
    assert_eq!(select_binding(&paths, HttpMethod::Get, "/api"), None);
    assert_eq!(select_binding(&paths, HttpMethod::Post, "/api/x"), Some(0));
}

#[test]
fn first_matching_binding_wins() {
    let paths = vec![
        binding("/b", HttpMethod::Get),
        binding("/a", HttpMethod::Get),
        binding("/", HttpMethod::Get),
        binding("/a/b", HttpMethod::Get),
    ];
    assert_eq!(select_binding(&paths, HttpMethod::Get, "/a/b/c"), Some(1));
    assert_eq!(select_binding(&paths, HttpMethod::Get, "/c"), Some(2));
    assert_eq!(select_binding(&paths, HttpMethod::Get, "/b"), Some(0));
}

#[test]
fn prefix_is_case_sensitive() {
    let paths = vec![binding("/API", HttpMethod::Get)];
    assert_eq!(select_binding(&paths, HttpMethod::Get, "/api"), None);
    assert_eq!(select_binding(&paths, HttpMethod::Get, "/API"), Some(0));
    assert_eq!(select_binding(&paths, HttpMethod::Get, "/AP"), None);
}

#[test]
fn methods_parse_in_any_case() {
    assert_eq!(HttpMethod::parse("GET"), Ok(HttpMethod::Get));
    assert_eq!(HttpMethod::parse("post"), Ok(HttpMethod::Post));
    assert_eq!(HttpMethod::parse("PaTcH"), Ok(HttpMethod::Patch));
    assert_eq!(HttpMethod::parse("TRACE"), Ok(HttpMethod::Trace));
    assert_eq!(HttpMethod::parse("OPTIONS"), Ok(HttpMethod::Options));
    assert_eq!(HttpMethod::from_str("Connect"), Ok(HttpMethod::Connect));
    assert_eq!(HttpMethod::parse("fetch"), Err(()));
    assert_eq!(HttpMethod::parse(""), Err(()));
    assert_eq!(HttpMethod::from_lowercase("GET"), Err(()));
    assert_eq!(HttpMethod::from_lowercase("delete"), Ok(HttpMethod::Delete));
}

#[test]
fn chains_run_in_order() {
    let mut run = ChainRun::start(2, 2);
    let mut seen = vec![];
    while !run.is_done() {
        seen.push(run.step);
        run = run.next(true);
    }
    assert_eq!(seen, vec![Step::Request(0), Step::Request(1), Step::Response(0), Step::Response(1)]);
    assert_eq!(run.step, Step::Respond);
}

#[test]
fn empty_chains_respond_at_once() {
    assert_eq!(ChainRun::start(0, 0).step, Step::Respond);
    assert_eq!(ChainRun::start(0, 3).step, Step::Response(0));
}

#[test]
fn request_chain_failure_stops_the_chain() {
    // Three request handlers; the first fails. A counter records each run.
    let outcomes = [false, true, true];
    let mut invoked = 0;
    let mut run = ChainRun::start(3, 1);
    while !run.is_done() {
        let ok = match run.step {
            Step::Request(i) => outcomes[i],
            Step::Response(_) => true,
            _ => unreachable!(),
        };
        invoked += 1;
        run = run.next(ok);
    }
    assert_eq!(invoked, 1);
    assert_eq!(run.step, Step::Reject(500));
    assert_eq!(INTERNAL_SERVER_ERROR, 500);
    assert_eq!(run.next(true).step, Step::Reject(500));
}

#[test]
fn response_chain_failure_rejects() {
    let run = ChainRun::start(0, 2);
    let run = run.next(true);
    assert_eq!(run.step, Step::Response(1));
    assert_eq!(run.next(false).step, Step::Reject(500));
}

#[test]
fn echo_through_one_handler() {
    let paths = vec![binding("/test", HttpMethod::Post)];
    let i = select_binding(&paths, HttpMethod::Post, "/test").unwrap();
    let mut ex: Exchange<Vec<u8>, Vec<u8>> = Exchange::new();
    ex.save_input(b"hello".to_vec());
    let mut run = ChainRun::start(1, paths[i].response.len());
    while !run.is_done() {
        // The echo handler: consume the input and store it as the output.
        let body = ex.consume_request();
        let ok = match body {
            Ok(b) => {
                ex.save_output(b);
                true
            }
            Err(_) => false,
        };
        run = run.next(ok);
    }
    assert_eq!(run.step, Step::Respond);
    let code = ex.response_code();
    let out = ex.consume_output().unwrap();
    assert_eq!(code, 200);
    assert_eq!(out, b"hello".to_vec());
}
