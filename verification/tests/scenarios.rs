use hostname_pipeline::pool::WorkPool;
use hostname_pipeline::resolve::resolved_line;
use hostname_pipeline::resolve::serviced_line;
use hostname_pipeline::resolve::Ipv4;
use hostname_pipeline::shared_buffer::Buffer;
use hostname_pipeline::shared_buffer::PopAttempt;
use hostname_pipeline::shared_buffer::PushAttempt;

fn stub_resolve(hostname: &str) -> Option<Ipv4> {
    if hostname == "localhost" {
        Some(Ipv4 { a: 127, b: 0, c: 0, d: 1 })
    } else {
        None
    }
}

/// Pushes every hostname through a buffer with one producer and one
/// consumer taking turns, and returns the two logs that the run writes.
fn run_one_by_one(hostnames: &[&str]) -> (String, String) {
    let mut buffer: Buffer<String> = Buffer::new();
    let mut serviced_log = String::new();
    let mut resolved_log = String::new();
    buffer.register_producer();
    for hostname in hostnames {
        match buffer.try_push(hostname.to_string()) {
            PushAttempt::Pushed => serviced_log.push_str(&serviced_line(hostname)),
            PushAttempt::MustWait(_) => panic!("buffer full with a lone producer"),
        }
        match buffer.try_pop() {
            PopAttempt::Item(h) => {
                resolved_log.push_str(&resolved_line(&h, &stub_resolve(&h)));
            }
            other => panic!("expected an item, got {:?}", other),
        }
    }
    buffer.deregister_producer();
    assert!(matches!(buffer.try_pop(), PopAttempt::Finished));
    (serviced_log, resolved_log)
}

#[test]
fn lone_worker_pair_logs_each_hostname_once() {
    let (serviced, resolved) = run_one_by_one(&["h1", "h2", "h3"]);
    assert_eq!(serviced, "h1\nh2\nh3\n");
    let mut lines: Vec<&str> = resolved.lines().collect();
    assert_eq!(lines.len(), 3);
    lines.sort();
    assert_eq!(lines, vec!["h1, NOT_RESOLVED", "h2, NOT_RESOLVED", "h3, NOT_RESOLVED"]);
}

#[test]
fn concrete_two_host_run() {
    let (serviced, resolved) = run_one_by_one(&["localhost", "nonexistent.invalid.test"]);
    assert_eq!(serviced, "localhost\nnonexistent.invalid.test\n");
    let mut lines: Vec<&str> = resolved.lines().collect();
    lines.sort();
    assert_eq!(lines, vec!["localhost, 127.0.0.1", "nonexistent.invalid.test, NOT_RESOLVED"]);
}

#[test]
fn pool_claims_are_exclusive_and_drain_the_pool() {
    let mut pool = WorkPool::new(vec!["a".to_string(), "b".to_string(), "c".to_string()]);
    assert_eq!(pool.claim(), Some("c".to_string()));
    assert_eq!(pool.claim(), Some("b".to_string()));
    pool.add("d".to_string());
    assert_eq!(pool.claim(), Some("d".to_string()));
    assert_eq!(pool.claim(), Some("a".to_string()));
    assert_eq!(pool.claim(), None);
}

#[test]
fn empty_directory_expansion_leaves_pool_unchanged() {
    let mut pool = WorkPool::new(vec!["x".to_string()]);
    assert_eq!(pool.split_claim(vec![]), None);
    assert_eq!(pool.claim(), Some("x".to_string()));
    assert_eq!(pool.claim(), None);
}

#[test]
fn directory_children_are_all_serviced_across_producers() {
    // A directory expands into files a, b and c; two producers take turns
    // claiming from the shared pool. Every line of every child ends up
    // serviced, whoever claims it.
    let dir_children = vec!["a".to_string(), "b".to_string(), "c".to_string()];
    let file_lines = |name: &str| -> Vec<String> {
        match name {
            "a" => vec!["a1".to_string(), "a2".to_string()],
            "b" => vec!["b1".to_string()],
            "c" => vec!["c1".to_string(), "c2".to_string(), "c3".to_string()],
            _ => panic!("unknown file"),
        }
    };

    let mut pool = WorkPool::new(vec!["dir".to_string()]);
    let mut buffer: Buffer<String> = Buffer::new();
    let mut serviced: Vec<String> = Vec::new();
    buffer.register_producer();
    buffer.register_producer();
    loop {
        let claimed = pool.claim();
        let Some(mut source) = claimed else { break };
        if source == "dir" {
            match pool.split_claim(dir_children.clone()) {
                Some(child) => source = child,
                None => continue,
            }
        }
        for line in file_lines(&source) {
            match buffer.try_push(line.clone()) {
                PushAttempt::Pushed => serviced.push(line),
                PushAttempt::MustWait(_) => panic!("buffer unexpectedly full"),
            }
            // A consumer drains right away so the buffer never fills.
            assert!(matches!(buffer.try_pop(), PopAttempt::Item(_)));
        }
    }
    buffer.deregister_producer();
    buffer.deregister_producer();
    assert!(matches!(buffer.try_pop(), PopAttempt::Finished));

    serviced.sort();
    assert_eq!(serviced, vec!["a1", "a2", "b1", "c1", "c2", "c3"]);
}

#[test]
fn popped_multiset_equals_pushed_multiset() {
    // Push more items than the capacity, popping whenever the buffer is
    // full; what comes out is exactly what went in, each item once.
    let pushed: Vec<u64> = (0..25).collect();
    let mut buffer: Buffer<u64> = Buffer::new();
    let mut popped: Vec<u64> = Vec::new();
    for item in &pushed {
        let mut value = *item;
        loop {
            match buffer.try_push(value) {
                PushAttempt::Pushed => break,
                PushAttempt::MustWait(back) => {
                    value = back;
                    match buffer.try_pop() {
                        PopAttempt::Item(v) => popped.push(v),
                        other => panic!("expected an item, got {:?}", other),
                    }
                }
            }
        }
    }
    loop {
        match buffer.pop() {
            Some(v) => popped.push(v),
            None => break,
        }
    }
    popped.sort();
    assert_eq!(popped, pushed);
}

#[test]
fn outcome_multiset_is_the_same_for_both_interleavings() {
    // The same input set processed under two different push/pop
    // interleavings yields the same multiset of resolved-log lines.
    let hostnames = ["localhost", "x.invalid", "y.invalid", "localhost"];

    // One producer and one consumer taking strict turns.
    let (_, resolved_a) = run_one_by_one(&hostnames);

    // A bursty interleaving: everything pushed first, then drained.
    let mut buffer: Buffer<String> = Buffer::new();
    let mut resolved_b = String::new();
    buffer.register_producer();
    for hostname in &hostnames {
        assert!(matches!(buffer.try_push(hostname.to_string()), PushAttempt::Pushed));
    }
    buffer.deregister_producer();
    loop {
        match buffer.try_pop() {
            PopAttempt::Item(h) => resolved_b.push_str(&resolved_line(&h, &stub_resolve(&h))),
            PopAttempt::Finished => break,
            PopAttempt::MustWait => panic!("no producer is live"),
        }
    }

    let mut lines_a: Vec<&str> = resolved_a.lines().collect();
    let mut lines_b: Vec<&str> = resolved_b.lines().collect();
    lines_a.sort();
    lines_b.sort();
    assert_eq!(lines_a, lines_b);
}
