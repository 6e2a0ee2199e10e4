use serde_json::Value;
use swiss_ai::errors::{InputFault, NetworkFault, ProviderError};
use swiss_ai::retry::{RetryConfig, Run, Verdict};

fn server(status: u16) -> Result<Value, ProviderError> {
    Err(ProviderError::TransientNetwork { cause: NetworkFault::Server { status } })
}

fn success() -> Result<Value, ProviderError> {
    Ok(serde_json::from_str(r#"{"ok": true}"#).unwrap())
}

#[test]
fn standard_policy_values() {
    assert_eq!(
        RetryConfig::standard(),
        RetryConfig { max_attempts: 4, base_delay_ms: 1000, max_delay_ms: 30000 }
    );
}

#[test]
fn delays_double_up_to_the_cap() {
    let policy = RetryConfig::standard();
    assert_eq!(policy.delay_ms(0), 1000);
    assert_eq!(policy.delay_ms(1), 2000);
    assert_eq!(policy.delay_ms(2), 4000);
    assert_eq!(policy.delay_ms(3), 8000);
    assert_eq!(policy.delay_ms(4), 16000);
    assert_eq!(policy.delay_ms(5), 30000);
    assert_eq!(policy.delay_ms(6), 30000);
    assert_eq!(policy.delay_ms(u32::MAX), 30000);
}

#[test]
fn delay_edge_cases() {
    let zero = RetryConfig { max_attempts: 3, base_delay_ms: 0, max_delay_ms: 100 };
    assert_eq!(zero.delay_ms(0), 0);
    assert_eq!(zero.delay_ms(1000), 0);
    let over = RetryConfig { max_attempts: 3, base_delay_ms: 500, max_delay_ms: 100 };
    assert_eq!(over.delay_ms(0), 100);
    assert_eq!(over.delay_ms(3), 100);
    let huge = RetryConfig { max_attempts: 3, base_delay_ms: u64::MAX / 2 + 1, max_delay_ms: u64::MAX };
    assert_eq!(huge.delay_ms(0), u64::MAX / 2 + 1);
    assert_eq!(huge.delay_ms(1), u64::MAX);
    let exact = RetryConfig { max_attempts: 3, base_delay_ms: 25, max_delay_ms: 100 };
    assert_eq!(exact.delay_ms(2), 100);
    assert_eq!(exact.delay_ms(3), 100);
    let odd = RetryConfig { max_attempts: 3, base_delay_ms: 30, max_delay_ms: 100 };
    assert_eq!(odd.delay_ms(1), 60);
    assert_eq!(odd.delay_ms(2), 100);
}

#[test]
fn verdict_on_each_kind_of_outcome() {
    let policy = RetryConfig::standard();
    assert_eq!(policy.verdict(0, &success()), Verdict::Finish);
    assert_eq!(policy.verdict(0, &server(500)), Verdict::RetryAfter { delay_ms: 1000 });
    assert_eq!(policy.verdict(1, &server(502)), Verdict::RetryAfter { delay_ms: 2000 });
    assert_eq!(policy.verdict(2, &server(502)), Verdict::RetryAfter { delay_ms: 4000 });
    assert_eq!(policy.verdict(3, &server(502)), Verdict::Finish);
    assert_eq!(policy.verdict(u32::MAX, &server(502)), Verdict::Finish);
    assert_eq!(
        policy.verdict(0, &Err(ProviderError::RateLimited { status: 429 })),
        Verdict::RetryAfter { delay_ms: 1000 }
    );
    assert_eq!(
        policy.verdict(0, &Err(ProviderError::Authentication { status: 401 })),
        Verdict::Finish
    );
    assert_eq!(
        policy.verdict(
            0,
            &Err(ProviderError::MalformedInput { fault: InputFault::Rejected { status: 404 } })
        ),
        Verdict::Finish
    );
}

#[test]
fn a_ceiling_of_one_or_none_never_retries() {
    let once = RetryConfig { max_attempts: 1, base_delay_ms: 10, max_delay_ms: 10 };
    assert_eq!(once.verdict(0, &server(500)), Verdict::Finish);
    let none = RetryConfig { max_attempts: 0, base_delay_ms: 10, max_delay_ms: 10 };
    assert_eq!(none.verdict(0, &server(500)), Verdict::Finish);
}

#[test]
fn two_server_errors_then_success_takes_three_invocations() {
    let policy = RetryConfig::standard();
    let run = policy.replay(vec![server(500), server(503), success(), server(500)]);
    assert_eq!(
        run,
        Run { invocations: 3, result: Some(success()), waits: vec![1000, 2000] }
    );
}

#[test]
fn an_authentication_failure_is_invoked_once() {
    let policy = RetryConfig::standard();
    let denied = || Err(ProviderError::Authentication { status: 401 });
    let run = policy.replay(vec![denied(), success()]);
    assert_eq!(run, Run { invocations: 1, result: Some(denied()), waits: vec![] });
}

#[test]
fn exhaustion_surfaces_the_last_error() {
    let policy = RetryConfig::standard();
    let run = policy.replay(vec![
        server(500),
        server(501),
        Err(ProviderError::RateLimited { status: 429 }),
        server(503),
        success(),
    ]);
    assert_eq!(
        run,
        Run { invocations: 4, result: Some(server(503)), waits: vec![1000, 2000, 4000] }
    );
}

#[test]
fn a_script_that_runs_out_has_no_result() {
    let policy = RetryConfig::standard();
    let run = policy.replay(vec![server(500), server(500)]);
    assert_eq!(run, Run { invocations: 2, result: None, waits: vec![1000, 2000] });
    let run = policy.replay(vec![]);
    assert_eq!(run, Run { invocations: 0, result: None, waits: vec![] });
}

#[test]
fn a_permanent_failure_after_retries_stands_at_once() {
    let policy = RetryConfig::standard();
    let rejected =
        || Err(ProviderError::MalformedInput { fault: InputFault::Rejected { status: 400 } });
    let run = policy.replay(vec![server(500), rejected(), success()]);
    assert_eq!(run, Run { invocations: 2, result: Some(rejected()), waits: vec![1000] });
}
