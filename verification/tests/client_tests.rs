use http_client::client::{HttpClient, HttpClientBuilder, TEN_MB_SIZE_BYTES};
use http_client::correlate::BatchHandle;
use http_client::envelope::{BatchOutcome, ResponseEnvelope, ResponseId};
use http_client::errors::RpcError;
use http_client::ids::IdGenerator;

fn new_client() -> HttpClient {
    HttpClientBuilder::default().build()
}

fn json(text: &str) -> serde_json::Value {
    serde_json::from_str(text).unwrap()
}

#[test]
fn builder_default_is_ten_mib() {
    let b = HttpClientBuilder::default();
    assert_eq!(b.max_request_body_size, TEN_MB_SIZE_BYTES);
    assert_eq!(TEN_MB_SIZE_BYTES, 10 * 1024 * 1024);
}

#[test]
fn builder_sets_limit() {
    let b = HttpClientBuilder::default().max_request_body_size(64);
    assert_eq!(b.max_request_body_size, 64);
    let c = b.build();
    assert_eq!(c.max_request_body_size, 64);
    assert_eq!(c.request_id.counter, 0);
}

#[test]
fn ids_distinct_and_increasing() {
    let mut g = IdGenerator::new();
    let mut seen = Vec::new();
    for _ in 0..100u32 {
        seen.push(g.next_id());
    }
    for i in 0..seen.len() {
        for j in 0..seen.len() {
            if i != j {
                assert_ne!(seen[i], seen[j]);
            }
        }
        assert_eq!(seen[i], i as u64);
    }
}

#[test]
fn id_wraps_to_zero_without_failure() {
    let mut g = IdGenerator { counter: u64::MAX };
    assert_eq!(g.next_id(), u64::MAX);
    assert_eq!(g.next_id(), 0);
    assert_eq!(g.next_id(), 1);
}

#[test]
fn single_call_success() {
    let c = new_client();
    let r = c.complete_request(0, br#"{"jsonrpc":"2.0","id":0,"result":42}"#);
    assert_eq!(r.unwrap(), json("42"));
}

#[test]
fn single_call_wrong_id_is_unattributable() {
    let c = new_client();
    let r = c.complete_request(0, br#"{"jsonrpc":"2.0","id":1,"result":42}"#);
    assert_eq!(r.unwrap_err(), RpcError::Unattributable);
}

#[test]
fn single_call_missing_id_is_unattributable() {
    let c = new_client();
    let r = c.complete_request(0, br#"{"jsonrpc":"2.0","result":42}"#);
    assert_eq!(r.unwrap_err(), RpcError::Unattributable);
}

#[test]
fn single_call_unparseable_id_is_unattributable() {
    let c = new_client();
    let r = c.complete_request(0, br#"{"jsonrpc":"2.0","id":"zero","result":42}"#);
    assert_eq!(r.unwrap_err(), RpcError::Unattributable);
    let r = c.complete_request(0, br#"{"jsonrpc":"2.0","id":null,"result":42}"#);
    assert_eq!(r.unwrap_err(), RpcError::Unattributable);
}

#[test]
fn batch_reply_order_does_not_matter() {
    let mut c = new_client();
    // Move the counter to 5 so the batch gets ids [5, 6, 7].
    for _ in 0..5 {
        let _ = c.start_request("warm", None);
    }
    let entries = vec![
        ("one".to_string(), None),
        ("two".to_string(), None),
        ("three".to_string(), None),
    ];
    let (handle, _body) = c.start_batch(entries).unwrap();
    assert_eq!(handle.ids, vec![5, 6, 7]);
    let reply = br#"[
        {"jsonrpc":"2.0","id":7,"result":"c"},
        {"jsonrpc":"2.0","id":5,"result":"a"},
        {"jsonrpc":"2.0","id":6,"result":"b"}
    ]"#;
    let out = c.complete_batch(&handle, reply, serde_json::Value::Null).unwrap();
    assert_eq!(out, vec![json("\"a\""), json("\"b\""), json("\"c\"")]);
}

#[test]
fn batch_unknown_id_fails_whole_batch() {
    let mut c = new_client();
    let entries = vec![("one".to_string(), None), ("two".to_string(), None)];
    let (handle, _body) = c.start_batch(entries).unwrap();
    assert_eq!(handle.ids, vec![0, 1]);
    let reply = br#"[
        {"jsonrpc":"2.0","id":0,"result":1},
        {"jsonrpc":"2.0","id":99,"result":2}
    ]"#;
    let r = c.complete_batch(&handle, reply, serde_json::Value::Null);
    assert_eq!(r.unwrap_err(), RpcError::Unattributable);
}

#[test]
fn batch_short_reply_leaves_placeholder() {
    let mut c = new_client();
    let entries = vec![("one".to_string(), None), ("two".to_string(), None)];
    let (handle, _body) = c.start_batch(entries).unwrap();
    let reply = br#"[{"jsonrpc":"2.0","id":1,"result":"only"}]"#;
    let placeholder = json("\"missing\"");
    let out = c.complete_batch(&handle, reply, placeholder).unwrap();
    assert_eq!(out, vec![json("\"missing\""), json("\"only\"")]);
}

#[test]
fn batch_duplicate_reply_id_last_wins() {
    let handle = BatchHandle::from_ids(vec![0, 1]);
    let envs = vec![
        ResponseEnvelope { id: ResponseId::Num(0), result: json("1") },
        ResponseEnvelope { id: ResponseId::Num(1), result: json("2") },
        ResponseEnvelope { id: ResponseId::Num(0), result: json("3") },
    ];
    let out = http_client::correlate::finish_batch(
        &handle,
        BatchOutcome::Batch(envs),
        serde_json::Value::Null,
    )
    .unwrap();
    assert_eq!(out, vec![json("3"), json("2")]);
}

#[test]
fn batch_protocol_error_reply() {
    let mut c = new_client();
    let (handle, _body) = c.start_batch(vec![("one".to_string(), None)]).unwrap();
    let reply = br#"{"jsonrpc":"2.0","id":null,"error":{"code":-32700,"message":"Parse error"}}"#;
    match c.complete_batch(&handle, reply, serde_json::Value::Null).unwrap_err() {
        RpcError::Protocol { code, message, data } => {
            assert_eq!(code, -32700);
            assert_eq!(message, "Parse error");
            assert_eq!(data, None);
        }
        other => panic!("expected a protocol error, got {:?}", other),
    }
}

#[test]
fn notifications_never_allocate_ids() {
    let c = new_client();
    for i in 0..10u64 {
        let body = c.start_notification("tick", Some(serde_json::Value::from(i))).unwrap();
        assert!(!body.is_empty());
    }
    assert_eq!(c.request_id.counter, 0);
    let mut c = c;
    let (id, _body) = c.start_request("first", None).unwrap();
    assert_eq!(id, 0);
}

#[test]
fn unparseable_bytes_yield_parse_error() {
    let c = new_client();
    match c.complete_request(0, b"this is not json").unwrap_err() {
        RpcError::Parse(detail) => assert!(!detail.is_empty()),
        other => panic!("expected a parse error, got {:?}", other),
    }
}

#[test]
fn wrong_shape_yields_parse_error() {
    let c = new_client();
    // Valid JSON, but neither a success nor an error envelope.
    let r = c.complete_request(0, br#"{"jsonrpc":"2.0","id":0}"#);
    assert!(matches!(r.unwrap_err(), RpcError::Parse(_)));
    // An error envelope whose error object is malformed is no envelope.
    let r = c.complete_request(0, br#"{"jsonrpc":"2.0","id":0,"error":{"code":"x"}}"#);
    assert!(matches!(r.unwrap_err(), RpcError::Parse(_)));
}

#[test]
fn error_envelope_yields_protocol_error() {
    let c = new_client();
    let reply = br#"{"jsonrpc":"2.0","id":0,"error":{"code":-32600,"message":"Invalid Request"}}"#;
    match c.complete_request(0, reply).unwrap_err() {
        RpcError::Protocol { code, message, data } => {
            assert_eq!(code, -32600);
            assert_eq!(message, "Invalid Request");
            assert_eq!(data, None);
        }
        other => panic!("expected a protocol error, got {:?}", other),
    }
}

#[test]
fn error_envelope_data_is_carried() {
    let c = new_client();
    let reply =
        br#"{"jsonrpc":"2.0","id":0,"error":{"code":1,"message":"m","data":{"k":[1,2]}}}"#;
    match c.complete_request(0, reply).unwrap_err() {
        RpcError::Protocol { code, message, data } => {
            assert_eq!(code, 1);
            assert_eq!(message, "m");
            assert_eq!(data, Some(json(r#"{"k":[1,2]}"#)));
        }
        other => panic!("expected a protocol error, got {:?}", other),
    }
}

#[test]
fn request_body_is_a_call_envelope() {
    let mut c = new_client();
    let params = json(r#"[1,"two"]"#);
    let (id, body) = c.start_request("sum", Some(params.clone())).unwrap();
    assert_eq!(id, 0);
    let v: serde_json::Value = serde_json::from_slice(&body).unwrap();
    assert_eq!(v.get("jsonrpc").unwrap(), &json("\"2.0\""));
    assert_eq!(v.get("method").unwrap(), &json("\"sum\""));
    assert_eq!(v.get("id").unwrap(), &json("0"));
    assert_eq!(v.get("params").unwrap(), &params);
}

#[test]
fn notification_body_has_no_id() {
    let c = new_client();
    let body = c.start_notification("tick", None).unwrap();
    let v: serde_json::Value = serde_json::from_slice(&body).unwrap();
    assert_eq!(v.get("jsonrpc").unwrap(), &json("\"2.0\""));
    assert_eq!(v.get("method").unwrap(), &json("\"tick\""));
    assert!(v.get("id").is_none());
    assert!(v.get("params").is_none());
}

#[test]
fn batch_body_is_an_ordered_array() {
    let mut c = new_client();
    let entries = vec![
        ("alpha".to_string(), Some(json("1"))),
        ("beta".to_string(), None),
    ];
    let (handle, body) = c.start_batch(entries).unwrap();
    let v: serde_json::Value = serde_json::from_slice(&body).unwrap();
    let items = v.as_array().unwrap();
    assert_eq!(items.len(), 2);
    assert_eq!(items[0].get("method").unwrap(), &json("\"alpha\""));
    assert_eq!(items[0].get("id").unwrap(), &json("0"));
    assert_eq!(items[0].get("params").unwrap(), &json("1"));
    assert_eq!(items[1].get("method").unwrap(), &json("\"beta\""));
    assert_eq!(items[1].get("id").unwrap(), &json("1"));
    assert_eq!(handle.ids, vec![0, 1]);
}

#[test]
fn oversize_body_is_rejected_as_transport_failure() {
    let mut c = HttpClientBuilder::default().max_request_body_size(8).build();
    let r = c.start_request("a_method_name_longer_than_the_limit", None);
    assert!(matches!(r.unwrap_err(), RpcError::Transport(_)));
    // The id was still consumed.
    assert_eq!(c.request_id.counter, 1);
    let c2 = HttpClientBuilder::default().max_request_body_size(8).build();
    let r = c2.start_notification("a_method_name_longer_than_the_limit", None);
    assert!(matches!(r.unwrap_err(), RpcError::Transport(_)));
}

#[test]
fn empty_batch_correlates_to_empty_output() {
    let mut c = new_client();
    let (handle, _body) = c.start_batch(Vec::new()).unwrap();
    assert_eq!(handle.ids, Vec::<u64>::new());
    let out = c.complete_batch(&handle, b"[]", serde_json::Value::Null).unwrap();
    assert_eq!(out, Vec::<serde_json::Value>::new());
}
