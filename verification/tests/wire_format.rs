use humio_logger::{HumioLogger, TrackingEvent, HUMIO_ENDPOINT};

fn ev(ts: &str, attrs: &[(&str, &str)]) -> TrackingEvent {
    TrackingEvent {
        timestamp: ts.to_string(),
        attributes: attrs.iter().map(|(k, v)| (k.to_string(), v.to_string())).collect(),
    }
}

fn logger(key: &str, tags: &[(&str, &str)]) -> HumioLogger {
    HumioLogger::new(
        key.to_string(),
        tags.iter().map(|(k, v)| (k.to_string(), v.to_string())).collect(),
    )
}

fn body_for(key: &str, tags: &[(&str, &str)], events: Vec<TrackingEvent>) -> String {
    let mut lg = logger(key, tags);
    for e in events {
        lg.push(e);
    }
    let mut flusher = lg.tick();
    let chunk = flusher.current_chunk().expect("one chunk").clone();
    lg.request_for(&chunk).body
}

#[test]
fn single_event_exact_body() {
    let body = body_for(
        "K",
        &[("service", "api")],
        vec![ev("2024-01-01T00:00:00Z", &[("user", "u1")])],
    );
    assert_eq!(
        body,
        "[{\"tags\":{\"service\":\"api\"},\"events\":[{\"timestamp\":\"2024-01-01T00:00:00Z\",\"attributes\":{\"user\":\"u1\"}}]}]"
    );
}

#[test]
fn request_carries_method_url_and_credential() {
    let lg = logger("secret-token", &[("service", "api")]);
    let chunk = vec![ev("t", &[])];
    let parts = lg.request_for(&chunk);
    assert_eq!(parts.method, "POST");
    assert_eq!(parts.url, HUMIO_ENDPOINT);
    assert_eq!(parts.url, "https://cloud.humio.com:443/api/v1/ingest/humio-structured");
    assert_eq!(parts.auth, "Bearer secret-token");
}

#[test]
fn every_request_bears_the_constructed_credential() {
    for key in ["K", "", "another key with spaces"] {
        let lg = logger(key, &[]);
        let parts = lg.request_for(&vec![ev("t", &[])]);
        assert_eq!(parts.auth, format!("Bearer {}", key));
    }
}

#[test]
fn body_is_singleton_array_with_exact_keys() {
    let body = body_for(
        "K",
        &[("service", "api"), ("region", "eu")],
        vec![ev("t1", &[("a", "1"), ("b", "2")]), ev("t2", &[])],
    );
    let parsed: serde_json::Value = serde_json::from_str(&body).expect("valid JSON");
    let top = parsed.as_array().expect("top-level array");
    assert_eq!(top.len(), 1);
    let batch = top[0].as_object().expect("batch object");
    let mut batch_keys: Vec<&String> = batch.keys().collect();
    batch_keys.sort();
    assert_eq!(batch_keys, vec!["events", "tags"]);
    let tags = batch["tags"].as_object().expect("tags object");
    assert_eq!(tags.len(), 2);
    assert_eq!(tags["service"], "api");
    assert_eq!(tags["region"], "eu");
    let events = batch["events"].as_array().expect("events array");
    assert_eq!(events.len(), 2);
    for event in events {
        let obj = event.as_object().expect("event object");
        let mut keys: Vec<&String> = obj.keys().collect();
        keys.sort();
        assert_eq!(keys, vec!["attributes", "timestamp"]);
    }
    assert_eq!(events[0]["timestamp"], "t1");
    assert_eq!(events[0]["attributes"]["a"], "1");
    assert_eq!(events[0]["attributes"]["b"], "2");
    assert_eq!(events[1]["timestamp"], "t2");
    assert_eq!(events[1]["attributes"].as_object().expect("empty object").len(), 0);
}

#[test]
fn escaping_survives_an_independent_parser() {
    let nasty = "quote \" backslash \\ newline \n tab \t cr \r bs \u{8} ff \u{c} ctl \u{1} \u{1f} unicode \u{e9}\u{4e16}";
    let body = body_for("K", &[("tag \"x\"", "v\\")], vec![ev(nasty, &[("k\n", nasty)])]);
    let parsed: serde_json::Value = serde_json::from_str(&body).expect("valid JSON");
    let batch = &parsed.as_array().expect("array")[0];
    assert_eq!(batch["tags"]["tag \"x\""], "v\\");
    let event = &batch["events"][0];
    assert_eq!(event["timestamp"], nasty);
    assert_eq!(event["attributes"]["k\n"], nasty);
}

#[test]
fn encoding_agrees_with_serde_json() {
    let body = body_for(
        "K",
        &[("service", "api")],
        vec![ev("ts \u{5} \"x\"", &[("user", "u\u{b}1")])],
    );
    let parsed: serde_json::Value = serde_json::from_str(&body).expect("valid JSON");

    let mut attributes = serde_json::Map::new();
    attributes.insert("user".to_string(), serde_json::Value::String("u\u{b}1".to_string()));
    let mut event = serde_json::Map::new();
    event.insert(
        "timestamp".to_string(),
        serde_json::Value::String("ts \u{5} \"x\"".to_string()),
    );
    event.insert("attributes".to_string(), serde_json::Value::Object(attributes));
    let mut tags = serde_json::Map::new();
    tags.insert("service".to_string(), serde_json::Value::String("api".to_string()));
    let mut batch = serde_json::Map::new();
    batch.insert("tags".to_string(), serde_json::Value::Object(tags));
    batch.insert(
        "events".to_string(),
        serde_json::Value::Array(vec![serde_json::Value::Object(event)]),
    );
    let expected = serde_json::Value::Array(vec![serde_json::Value::Object(batch)]);
    assert_eq!(parsed, expected);
}

#[test]
fn empty_chunk_still_well_formed() {
    let lg = logger("K", &[]);
    let parts = lg.request_for(&Vec::new());
    assert_eq!(parts.body, "[{\"tags\":{},\"events\":[]}]");
}

#[test]
fn default_event_is_empty() {
    let e = TrackingEvent::default();
    assert_eq!(e.timestamp, "");
    assert!(e.attributes.is_empty());
}
