use indexer_service::dispatch::SubgraphDeploymentID;
use indexer_service::graph_node::{
    attestable_from_header, deployment_query_result, graphql_envelope, network_query_result,
    subgraph_query_url,
};
use indexer_service::headers::header_is_text;

#[test]
fn envelope_without_variables_has_only_a_query_field() {
    let body = graphql_envelope("{ _meta { block { number } } }", None);
    assert_eq!(body, "{\"query\":\"{ _meta { block { number } } }\"}");
    let parsed: serde_json::Value = serde_json::from_str(&body).unwrap();
    assert_eq!(
        parsed.get("query").unwrap().as_str().unwrap(),
        "{ _meta { block { number } } }"
    );
    assert!(parsed.get("variables").is_none());
}

#[test]
fn envelope_escapes_the_query_text() {
    let body = graphql_envelope("say \"hi\"\n", None);
    assert_eq!(body, "{\"query\":\"say \\\"hi\\\"\\n\"}");
}

#[test]
fn envelope_with_variables_keeps_them_unchanged() {
    let mut map = serde_json::Map::new();
    map.insert(
        "block".to_string(),
        serde_json::Value::Number(serde_json::Number::from(7u32)),
    );
    let variables = serde_json::to_string(&serde_json::Value::Object(map)).unwrap();
    let body = graphql_envelope("{ indexer }", Some(&variables));
    assert_eq!(body, "{\"query\":\"{ indexer }\",\"variables\":{\"block\":7}}");
    let parsed: serde_json::Value = serde_json::from_str(&body).unwrap();
    assert_eq!(parsed.get("query").unwrap().as_str().unwrap(), "{ indexer }");
    assert_eq!(
        serde_json::to_string(parsed.get("variables").unwrap()).unwrap(),
        variables
    );
}

#[test]
fn attestable_only_for_the_exact_marker() {
    assert!(attestable_from_header(&Some(b"true".to_vec())));
    assert!(!attestable_from_header(&Some(b"false".to_vec())));
    assert!(!attestable_from_header(&Some(b"TRUE".to_vec())));
    assert!(!attestable_from_header(&Some(b"True".to_vec())));
    assert!(!attestable_from_header(&Some(b"true ".to_vec())));
    assert!(!attestable_from_header(&Some(b"".to_vec())));
    assert!(!attestable_from_header(&None));
}

#[test]
fn deployment_result_reads_the_attestable_header() {
    let r = deployment_query_result("{\"data\":{}}".to_string(), Some(b"true".to_vec()));
    assert!(r.attestable);
    assert_eq!(r.graphql_response, "{\"data\":{}}");
    let r = deployment_query_result("{\"data\":{}}".to_string(), None);
    assert!(!r.attestable);
}

#[test]
fn network_results_are_never_attestable() {
    let r = network_query_result("{\"data\":{\"network\":1}}".to_string());
    assert!(!r.attestable);
    assert_eq!(r.graphql_response, "{\"data\":{\"network\":1}}");
}

#[test]
fn deployment_url_appends_the_subgraph_path() {
    let base = "http://localhost:8000".to_string();
    let id = SubgraphDeploymentID::new("Qm123".to_string());
    assert_eq!(
        subgraph_query_url(&base, &id),
        "http://localhost:8000/subgraphs/id/Qm123"
    );
}

#[test]
fn header_text_accepts_visible_ascii_and_tab() {
    assert!(header_is_text(&b"receipt-xyz".to_vec()));
    assert!(header_is_text(&b"a\tb".to_vec()));
    assert!(header_is_text(&Vec::new()));
    assert!(!header_is_text(&vec![0x19u8]));
    assert!(!header_is_text(&vec![0x7Fu8]));
    assert!(!header_is_text(&vec![0xC3u8, 0xA9u8]));
}
