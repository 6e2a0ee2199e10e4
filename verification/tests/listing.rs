use serde_json::Value;
use swiss_ai::errors::{NetworkFault, ProviderError, ShapeFault, TransportOutcome};
use swiss_ai::listing::{insert_sorted, sorted_model_ids};
use swiss_ai::provider::SwissAiProvider;
use swiss_ai::text::{compare, Standing};

fn doc(text: &str) -> Value {
    serde_json::from_str(text).unwrap()
}

fn ok(text: &str) -> TransportOutcome {
    TransportOutcome::Response { status: 200, body: Some(doc(text)) }
}

#[test]
fn listing_is_sorted_and_without_duplicates() {
    let response = doc(
        r#"{"data": [{"id": "zeta"}, {"id": "alpha"}, {"id": "mu"}, {"id": "alpha"}, {"id": "zeta"}]}"#,
    );
    assert_eq!(
        sorted_model_ids(&response),
        Ok(vec!["alpha".to_string(), "mu".to_string(), "zeta".to_string()])
    );
}

#[test]
fn listing_agrees_with_the_standard_sort() {
    let ids = ["b", "B", "a10", "a2", "", "é", "e", "ab", "a", "Z", "z", "a2", "é"];
    let entries: Vec<Value> = ids
        .iter()
        .map(|id| {
            let mut entry = serde_json::Map::new();
            entry.insert("id".to_string(), Value::String(id.to_string()));
            Value::Object(entry)
        })
        .collect();
    let mut response = serde_json::Map::new();
    response.insert("data".to_string(), Value::Array(entries));
    let mut expected: Vec<String> = ids.iter().map(|id| id.to_string()).collect();
    expected.sort();
    expected.dedup();
    assert_eq!(sorted_model_ids(&Value::Object(response)), Ok(expected));
}

#[test]
fn entries_without_a_string_id_are_passed_over() {
    let response = doc(
        r#"{"data": [{"id": 7}, {"name": "x"}, "bare", {"id": "kept"}, {"id": null}, []]}"#,
    );
    assert_eq!(sorted_model_ids(&response), Ok(vec!["kept".to_string()]));
}

#[test]
fn an_empty_listing_is_an_empty_list() {
    assert_eq!(sorted_model_ids(&doc(r#"{"data": []}"#)), Ok(vec![]));
}

#[test]
fn a_listing_without_data_is_a_shape_error() {
    let missing = Err(ProviderError::ResponseShape { defect: ShapeFault::MissingListing });
    assert_eq!(sorted_model_ids(&doc(r#"{"models": []}"#)), missing);
    assert_eq!(sorted_model_ids(&doc(r#"{"data": {"id": "a"}}"#)), missing);
    assert_eq!(sorted_model_ids(&doc(r#"{"data": "a"}"#)), missing);
    assert_eq!(sorted_model_ids(&doc(r#"[{"id": "a"}]"#)), missing);
    assert_eq!(sorted_model_ids(&doc("null")), missing);
}

#[test]
fn fetch_supported_models_reads_a_successful_listing() {
    let outcome = ok(r#"{"object": "list", "data": [{"id": "llama-4-405b-instruct"}, {"id": "llama-3.3-70b-instruct"}]}"#);
    assert_eq!(
        SwissAiProvider::fetch_supported_models(outcome),
        Ok(Some(vec![
            "llama-3.3-70b-instruct".to_string(),
            "llama-4-405b-instruct".to_string()
        ]))
    );
}

#[test]
fn fetch_supported_models_reports_a_missing_listing() {
    assert_eq!(
        SwissAiProvider::fetch_supported_models(ok(r#"{"error": "none"}"#)),
        Err(ProviderError::ResponseShape { defect: ShapeFault::MissingListing })
    );
}

#[test]
fn fetch_supported_models_hands_on_transport_failures() {
    assert_eq!(
        SwissAiProvider::fetch_supported_models(TransportOutcome::Response {
            status: 401,
            body: Some(doc(r#"{"data": [{"id": "a"}]}"#)),
        }),
        Err(ProviderError::Authentication { status: 401 })
    );
    assert_eq!(
        SwissAiProvider::fetch_supported_models(TransportOutcome::TimedOut),
        Err(ProviderError::TransientNetwork { cause: NetworkFault::Timeout })
    );
    assert_eq!(
        SwissAiProvider::fetch_supported_models(TransportOutcome::Response {
            status: 200,
            body: None,
        }),
        Err(ProviderError::ResponseShape { defect: ShapeFault::UnreadableBody })
    );
}

#[test]
fn insert_sorted_keeps_order_and_skips_what_is_there() {
    let mut names: Vec<String> = Vec::new();
    insert_sorted(&mut names, "m");
    insert_sorted(&mut names, "a");
    insert_sorted(&mut names, "z");
    insert_sorted(&mut names, "m");
    insert_sorted(&mut names, "b");
    assert_eq!(names, vec!["a", "b", "m", "z"]);
}

#[test]
fn compare_orders_texts_like_a_dictionary() {
    assert_eq!(compare("a", "b"), Standing::Before);
    assert_eq!(compare("b", "a"), Standing::After);
    assert_eq!(compare("abc", "abc"), Standing::Same);
    assert_eq!(compare("", ""), Standing::Same);
    assert_eq!(compare("", "a"), Standing::Before);
    assert_eq!(compare("ab", "abc"), Standing::Before);
    assert_eq!(compare("abc", "ab"), Standing::After);
    assert_eq!(compare("Z", "a"), Standing::Before);
    assert_eq!(compare("a10", "a2"), Standing::Before);
    assert_eq!(compare("e", "é"), Standing::Before);
    assert_eq!(compare("z", "é"), Standing::Before);
}

#[test]
fn compare_agrees_with_the_standard_order() {
    let samples = ["", "a", "A", "ab", "b", "llama-3.3", "llama-4", "é", "日本", "z", "~"];
    for a in samples {
        for b in samples {
            let expected = if a < b {
                Standing::Before
            } else if a == b {
                Standing::Same
            } else {
                Standing::After
            };
            assert_eq!(compare(a, b), expected, "{:?} against {:?}", a, b);
        }
    }
}
