use serde_json::Value;
use swiss_ai::auth::AuthMethod;
use swiss_ai::errors::{
    classify_status, handle_response, InputFault, NetworkFault, ProviderError, ShapeFault,
    TransportOutcome,
};

fn doc(text: &str) -> Value {
    serde_json::from_str(text).unwrap()
}

#[test]
fn bearer_token_becomes_an_authorization_header() {
    let auth = AuthMethod::BearerToken("abc".to_string());
    assert_eq!(auth.header(), Some(("Authorization".to_string(), "Bearer abc".to_string())));
}

#[test]
fn api_key_uses_its_own_header_and_anonymous_has_none() {
    let auth = AuthMethod::ApiKey { header: "x-api-key".to_string(), key: "k".to_string() };
    assert_eq!(auth.header(), Some(("x-api-key".to_string(), "k".to_string())));
    assert_eq!(AuthMethod::Anonymous.header(), None);
}

#[test]
fn success_statuses_are_no_error() {
    assert_eq!(classify_status(200), None);
    assert_eq!(classify_status(204), None);
    assert_eq!(classify_status(299), None);
}

#[test]
fn statuses_are_classified_by_range() {
    assert_eq!(classify_status(401), Some(ProviderError::Authentication { status: 401 }));
    assert_eq!(classify_status(403), Some(ProviderError::Authentication { status: 403 }));
    assert_eq!(classify_status(429), Some(ProviderError::RateLimited { status: 429 }));
    assert_eq!(
        classify_status(400),
        Some(ProviderError::MalformedInput { fault: InputFault::Rejected { status: 400 } })
    );
    assert_eq!(
        classify_status(499),
        Some(ProviderError::MalformedInput { fault: InputFault::Rejected { status: 499 } })
    );
    assert_eq!(
        classify_status(500),
        Some(ProviderError::TransientNetwork { cause: NetworkFault::Server { status: 500 } })
    );
    assert_eq!(
        classify_status(599),
        Some(ProviderError::TransientNetwork { cause: NetworkFault::Server { status: 599 } })
    );
    assert_eq!(
        classify_status(199),
        Some(ProviderError::ResponseShape { defect: ShapeFault::UnexpectedStatus { status: 199 } })
    );
    assert_eq!(
        classify_status(302),
        Some(ProviderError::ResponseShape { defect: ShapeFault::UnexpectedStatus { status: 302 } })
    );
    assert_eq!(
        classify_status(600),
        Some(ProviderError::ResponseShape { defect: ShapeFault::UnexpectedStatus { status: 600 } })
    );
}

#[test]
fn only_throttling_and_transient_failures_are_retriable() {
    assert!(ProviderError::RateLimited { status: 429 }.is_retriable());
    assert!(ProviderError::TransientNetwork { cause: NetworkFault::Timeout }.is_retriable());
    assert!(ProviderError::TransientNetwork { cause: NetworkFault::Connection }.is_retriable());
    assert!(
        ProviderError::TransientNetwork { cause: NetworkFault::Server { status: 503 } }
            .is_retriable()
    );
    assert!(!ProviderError::Authentication { status: 401 }.is_retriable());
    assert!(!ProviderError::Configuration { key: "K".to_string() }.is_retriable());
    assert!(!ProviderError::MalformedInput { fault: InputFault::DuplicateTool }.is_retriable());
    assert!(
        !ProviderError::MalformedInput { fault: InputFault::Rejected { status: 404 } }
            .is_retriable()
    );
    assert!(
        !ProviderError::ResponseShape { defect: ShapeFault::MissingMessage }.is_retriable()
    );
}

#[test]
fn a_successful_response_hands_out_its_body() {
    let body = doc(r#"{"a": 1}"#);
    let outcome = TransportOutcome::Response { status: 200, body: Some(body.clone()) };
    assert_eq!(handle_response(outcome), Ok(body));
}

#[test]
fn a_successful_response_without_json_is_a_shape_error() {
    let outcome = TransportOutcome::Response { status: 200, body: None };
    assert_eq!(
        handle_response(outcome),
        Err(ProviderError::ResponseShape { defect: ShapeFault::UnreadableBody })
    );
}

#[test]
fn the_status_decides_before_the_body() {
    let outcome = TransportOutcome::Response { status: 401, body: Some(doc("{}")) };
    assert_eq!(handle_response(outcome), Err(ProviderError::Authentication { status: 401 }));
    let outcome = TransportOutcome::Response { status: 503, body: None };
    assert_eq!(
        handle_response(outcome),
        Err(ProviderError::TransientNetwork { cause: NetworkFault::Server { status: 503 } })
    );
}

#[test]
fn transport_failures_are_transient() {
    assert_eq!(
        handle_response(TransportOutcome::ConnectionFailed),
        Err(ProviderError::TransientNetwork { cause: NetworkFault::Connection })
    );
    assert_eq!(
        handle_response(TransportOutcome::TimedOut),
        Err(ProviderError::TransientNetwork { cause: NetworkFault::Timeout })
    );
}
