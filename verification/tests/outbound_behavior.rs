use service_discovery::cache::{
    get_service_instance_key, CacheType, Expiration, TtlCache,
};
use service_discovery::load_balance::{Instance, LoadBalance};
use service_discovery::request_to_internal_service::{
    backoff_delay_ms, CallOutcome, CallStep, OutboundCall, SettleStep,
};

fn cache_with_one_instance() -> (TtlCache, String) {
    let lb = LoadBalance::new(
        "svc".to_string(),
        vec![Instance::new("10.0.0.1".to_string(), 8080)],
    );
    let mut cache = TtlCache::new(16);
    let key = get_service_instance_key("svc".to_string());
    cache.insert(key.clone(), Expiration::AfterLongTime, CacheType::LoadBalance(lb), 0);
    (cache, key)
}

fn cached_failed_counter(cache: &TtlCache, key: &String, now: u64) -> u64 {
    match &cache.get(key, now).expect("balancer entry gone").value {
        CacheType::LoadBalance(lb) => lb.instances[0].failed_counter,
        _ => panic!("wrong variant under the balancer key"),
    }
}

#[test]
fn two_unavailable_answers_then_a_success_within_the_budget() {
    let (mut cache, key) = cache_with_one_instance();
    let mut call = OutboundCall::new();

    // first attempt: 503 — charged to the instance, backed off 200 ms
    let step = call.begin(&mut cache, &key, 10);
    let (ip, port) = match step {
        CallStep::Send { ip, port } => (ip, port),
        _ => panic!("first attempt did not select"),
    };
    assert_eq!(ip, "10.0.0.1");
    assert_eq!(port, 8080);
    match call.settle(&mut cache, &key, &ip, port, CallOutcome::ServiceUnavailable, 11) {
        SettleStep::RetryAfter(d) => assert_eq!(d, 200),
        _ => panic!("a 503 within budget must back off"),
    }

    // second attempt: 503 again — backed off 400 ms
    let step = call.begin(&mut cache, &key, 220);
    let (ip, port) = match step {
        CallStep::Send { ip, port } => (ip, port),
        _ => panic!("second attempt did not select"),
    };
    match call.settle(&mut cache, &key, &ip, port, CallOutcome::ServiceUnavailable, 221) {
        SettleStep::RetryAfter(d) => assert_eq!(d, 400),
        _ => panic!("a second 503 within budget must back off"),
    }

    // third attempt: success — the body comes back
    let step = call.begin(&mut cache, &key, 630);
    let (ip, port) = match step {
        CallStep::Send { ip, port } => (ip, port),
        _ => panic!("third attempt did not select"),
    };
    match call.settle(
        &mut cache,
        &key,
        &ip,
        port,
        CallOutcome::Succeeded("payload".to_string()),
        631,
    ) {
        SettleStep::Done(body) => assert_eq!(body, "payload"),
        _ => panic!("the successful attempt must return the body"),
    }

    // the success does not reset the two recorded failures
    assert_eq!(cached_failed_counter(&cache, &key, 700), 2);
}

#[test]
fn three_failures_exhaust_the_budget() {
    let (mut cache, key) = cache_with_one_instance();
    let mut call = OutboundCall::new();
    for attempt in 0..3u64 {
        let now = attempt * 1000;
        let step = call.begin(&mut cache, &key, now);
        let (ip, port) = match step {
            CallStep::Send { ip, port } => (ip, port),
            _ => panic!("attempt did not select"),
        };
        let settled = call.settle(
            &mut cache,
            &key,
            &ip,
            port,
            CallOutcome::TransportFailed("connection refused".to_string()),
            now + 1,
        );
        if attempt < 2 {
            assert!(matches!(settled, SettleStep::RetryAfter(_)));
        } else {
            assert!(matches!(settled, SettleStep::FailExhausted));
        }
    }
    // a fourth attempt is refused outright
    assert!(matches!(call.begin(&mut cache, &key, 5000), CallStep::FailExhausted));
    assert_eq!(cached_failed_counter(&cache, &key, 5000), 3);
}

#[test]
fn body_read_failure_counts_against_the_instance_and_is_retried() {
    let (mut cache, key) = cache_with_one_instance();
    let mut call = OutboundCall::new();
    let step = call.begin(&mut cache, &key, 0);
    let (ip, port) = match step {
        CallStep::Send { ip, port } => (ip, port),
        _ => panic!("attempt did not select"),
    };
    let settled = call.settle(
        &mut cache,
        &key,
        &ip,
        port,
        CallOutcome::BodyReadFailed("stream ended".to_string()),
        1,
    );
    assert!(matches!(settled, SettleStep::RetryAfter(200)));
    assert_eq!(cached_failed_counter(&cache, &key, 2), 1);
}

#[test]
fn a_missing_balancer_is_terminal_and_still_counts() {
    let mut cache = TtlCache::new(16);
    let key = get_service_instance_key("unknown".to_string());
    let mut call = OutboundCall::new();
    let step = call.begin(&mut cache, &key, 0);
    assert!(matches!(step, CallStep::FailMissing));
    assert_eq!(step.message(), "Failed to get SERVICE_URL");
    assert_eq!(call.attempt, 1);
}

#[test]
fn no_available_instance_is_terminal_and_still_counts() {
    let (mut cache, key) = cache_with_one_instance();
    // trip the only instance
    for _ in 0..16 {
        assert!(cache.report_instance_failure(&key, &"10.0.0.1".to_string(), 8080, 100));
    }
    let mut call = OutboundCall::new();
    let step = call.begin(&mut cache, &key, 200);
    assert!(matches!(step, CallStep::FailNoInstance));
    assert_eq!(step.message(), "Failed to get SERVICE_URL");
    assert_eq!(call.attempt, 1);
}

#[test]
fn exhaustion_carries_its_own_message() {
    let step = CallStep::FailExhausted;
    assert_eq!(step.message(), "请求重试已达上限");
}

#[test]
fn backoff_doubles_from_the_base_delay() {
    assert_eq!(backoff_delay_ms(0), 100);
    assert_eq!(backoff_delay_ms(1), 200);
    assert_eq!(backoff_delay_ms(2), 400);
    assert_eq!(backoff_delay_ms(10), 102_400);
}
