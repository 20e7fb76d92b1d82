use http_client::client::HttpClientBuilder;
use http_client::decode::{resolve_batch, resolve_single};
use http_client::encode::{encode_batch, encode_call, encode_notification};
use http_client::envelope::{
    BatchOutcome, Call, ErrorEnvelope, Notification, ResponseEnvelope, ResponseId, SingleOutcome,
};

fn json(text: &str) -> serde_json::Value {
    serde_json::from_str(text).unwrap()
}

#[test]
fn make_call_allocates_in_order() {
    let mut c = HttpClientBuilder::default().build();
    let a = c.make_call("first".to_string(), None);
    let b = c.make_call("second".to_string(), Some(json("[1]")));
    assert_eq!(a.id, 0);
    assert_eq!(a.method, "first");
    assert_eq!(a.params, None);
    assert_eq!(b.id, 1);
    assert_eq!(b.method, "second");
    assert_eq!(b.params, Some(json("[1]")));
    assert_eq!(c.request_id.counter, 2);
}

#[test]
fn make_notification_carries_no_id() {
    let c = HttpClientBuilder::default().build();
    let n = c.make_notification("tick".to_string(), Some(json("{}")));
    assert_eq!(n.method, "tick");
    assert_eq!(n.params, Some(json("{}")));
    assert_eq!(c.request_id.counter, 0);
}

#[test]
fn make_batch_maps_ids_to_positions() {
    let mut c = HttpClientBuilder::default().build();
    let entries = vec![
        ("a".to_string(), None),
        ("b".to_string(), None),
        ("c".to_string(), None),
    ];
    let (calls, handle) = c.make_batch(entries);
    assert_eq!(calls.len(), 3);
    assert_eq!(calls[0].id, 0);
    assert_eq!(calls[1].id, 1);
    assert_eq!(calls[2].id, 2);
    assert_eq!(handle.ids, vec![0, 1, 2]);
    assert_eq!(handle.positions.get(&0), Some(&0));
    assert_eq!(handle.positions.get(&1), Some(&1));
    assert_eq!(handle.positions.get(&2), Some(&2));
    assert_eq!(handle.positions.get(&3), None);
}

#[test]
fn encode_call_produces_the_envelope() {
    let call = Call { method: "m".to_string(), params: Some(json("[true]")), id: 9 };
    let text = encode_call(&call).unwrap();
    let v = json(&text);
    assert_eq!(v, json(r#"{"jsonrpc":"2.0","id":9,"method":"m","params":[true]}"#));
}

#[test]
fn encode_notification_produces_the_envelope() {
    let n = Notification { method: "m".to_string(), params: None };
    let text = encode_notification(&n).unwrap();
    assert_eq!(json(&text), json(r#"{"jsonrpc":"2.0","method":"m"}"#));
}

#[test]
fn encode_batch_keeps_submission_order() {
    let calls = vec![
        Call { method: "x".to_string(), params: None, id: 4 },
        Call { method: "y".to_string(), params: None, id: 3 },
    ];
    let text = encode_batch(&calls).unwrap();
    let v = json(&text);
    let items = v.as_array().unwrap();
    assert_eq!(items[0].get("id").unwrap(), &json("4"));
    assert_eq!(items[1].get("id").unwrap(), &json("3"));
}

#[test]
fn resolve_single_prefers_the_success_reading() {
    let env = ResponseEnvelope { id: ResponseId::Num(1), result: json("5") };
    let err = |code: i64| ErrorEnvelope {
        id: ResponseId::Num(1),
        code,
        message: "e".to_string(),
        data: None,
    };
    let r = resolve_single(Some(env), Some(err(2)), "d".to_string());
    assert!(matches!(r, SingleOutcome::Success(_)));
    let r = resolve_single(None, Some(err(2)), "d".to_string());
    assert!(matches!(r, SingleOutcome::ProtocolErrorShape(_)));
    let r = resolve_single(None, None, "d".to_string());
    assert_eq!(r, SingleOutcome::Undecodable("d".to_string()));
}

#[test]
fn resolve_batch_prefers_the_array_reading() {
    let envs = vec![ResponseEnvelope { id: ResponseId::Num(1), result: json("5") }];
    let r = resolve_batch(Some(envs), None, "d".to_string());
    assert!(matches!(r, BatchOutcome::Batch(_)));
    let r = resolve_batch(None, None, "d".to_string());
    assert_eq!(r, BatchOutcome::Undecodable("d".to_string()));
}
