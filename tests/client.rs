use hyper::header::{Authorization, Basic};
use jsonrpc::{decode_response, frame_request, interpret_reply, Client, Credentials, NonceCounter, RpcError};
use serde_json::Value;

#[test]
fn sanity() {
    let mut client = Client::new("localhost".to_owned(), None, None);
    assert_eq!(client.last_nonce(), 0);
    let req1 = client.build_request("test".to_owned(), vec![]);
    assert_eq!(client.last_nonce(), 1);
    let req2 = client.build_request("test".to_owned(), vec![]);
    assert_eq!(client.last_nonce(), 2);
    assert!(req1 != req2);
}

#[test]
fn ids_run_from_one_to_n() {
    let mut client = Client::new("localhost".to_owned(), None, None);
    let mut ids = Vec::new();
    for _ in 0..5 {
        ids.push(client.build_request("ping".to_owned(), vec![]).id);
    }
    assert_eq!(ids, vec![1, 2, 3, 4, 5]);
    assert_eq!(client.last_nonce(), 5);
}

#[test]
fn consecutive_requests_differ_only_by_id() {
    let mut client = Client::new("localhost".to_owned(), None, None);
    let a = client.build_request("add".to_owned(), vec![Value::from(1u64), Value::from("x")]);
    let b = client.build_request("add".to_owned(), vec![Value::from(1u64), Value::from("x")]);
    assert_ne!(a, b);
    assert_eq!(a.method, b.method);
    assert_eq!(a.params, b.params);
    assert_eq!(b.id, a.id + 1);
}

#[test]
fn counter_builds_numbered_requests() {
    let mut counter = NonceCounter::new();
    assert_eq!(counter.last(), 0);
    let r = counter.build_request("getinfo".to_owned(), vec![Value::Bool(true)]);
    assert_eq!(r.id, 1);
    assert_eq!(r.method, "getinfo");
    assert_eq!(r.params, vec![Value::Bool(true)]);
    assert_eq!(counter.advance(), 2);
    assert_eq!(counter.last(), 2);
}

#[test]
fn no_user_means_no_credentials() {
    let client = Client::new("http://localhost:8332".to_owned(), None, None);
    assert_eq!(client.credentials(), None);
    let h = client.headers();
    assert!(!h.has::<Authorization<Basic>>());
    assert_eq!(h.len(), 0);
}

#[test]
fn user_and_password_give_basic_credentials() {
    let client = Client::new("http://localhost:8332".to_owned(), Some("alice".to_owned()), Some("secret".to_owned()));
    assert_eq!(
        client.credentials(),
        Some(Credentials { username: "alice".to_owned(), password: Some("secret".to_owned()) })
    );
    let h = client.headers();
    let auth = h.get::<Authorization<Basic>>().unwrap();
    assert_eq!(auth.0.username, "alice");
    assert_eq!(auth.0.password, Some("secret".to_owned()));
    assert_eq!(h.len(), 1);
    assert_eq!(h.to_string(), "Authorization: Basic YWxpY2U6c2VjcmV0\r\n");
}

#[test]
fn user_without_password_is_accepted() {
    let client = Client::new("http://h".to_owned(), Some("bob".to_owned()), None);
    assert_eq!(client.credentials(), Some(Credentials { username: "bob".to_owned(), password: None }));
    let h = client.headers();
    let auth = h.get::<Authorization<Basic>>().unwrap();
    assert_eq!(auth.0.username, "bob");
    assert_eq!(auth.0.password, None);
    assert_eq!(client.url(), "http://h");
}

#[test]
fn frame_joins_parts() {
    let body = frame_request(&b"\"m\"".to_vec(), &vec![b"1".to_vec(), b"[true]".to_vec()], 1234567890);
    assert_eq!(body, b"{\"method\":\"m\",\"params\":[1,[true]],\"id\":1234567890}".to_vec());
    let empty = frame_request(&b"\"\"".to_vec(), &vec![], 0);
    assert_eq!(empty, b"{\"method\":\"\",\"params\":[],\"id\":0}".to_vec());
    let largest = frame_request(&b"\"x\"".to_vec(), &vec![b"null".to_vec()], u64::MAX);
    assert_eq!(largest, b"{\"method\":\"x\",\"params\":[null],\"id\":18446744073709551615}".to_vec());
}

#[test]
fn encode_writes_request_object() {
    let mut client = Client::new("localhost".to_owned(), None, None);
    let req = client.build_request("test".to_owned(), vec![]);
    assert_eq!(req.encode().unwrap(), b"{\"method\":\"test\",\"params\":[],\"id\":1}".to_vec());
    let req = client.build_request("getblock".to_owned(), vec![Value::from(7u64), Value::from("a\"b")]);
    assert_eq!(req.encode().unwrap(), b"{\"method\":\"getblock\",\"params\":[7,\"a\\\"b\"],\"id\":2}".to_vec());
}

#[test]
fn encode_escapes_method_name() {
    let mut counter = NonceCounter::new();
    let req = counter.build_request("say \"hi\"".to_owned(), vec![Value::Null]);
    assert_eq!(req.encode().unwrap(), b"{\"method\":\"say \\\"hi\\\"\",\"params\":[null],\"id\":1}".to_vec());
}

#[test]
fn ok_reply_is_decoded() {
    let r = interpret_reply(200, b"{\"id\":1,\"result\":42,\"error\":null}").unwrap();
    assert_eq!(r.id, Value::from(1u64));
    assert_eq!(r.result, Some(Value::from(42u64)));
    assert_eq!(r.error, None);
}

#[test]
fn error_reply_is_decoded() {
    let r = interpret_reply(200, b" {\"error\":{\"code\":-1},\"id\":\"a\"} ").unwrap();
    assert_eq!(r.id, Value::from("a"));
    assert_eq!(r.result, None);
    let mut code = serde_json::Map::new();
    code.insert("code".to_owned(), Value::from(-1i64));
    assert_eq!(r.error, Some(Value::Object(code)));
}

#[test]
fn missing_id_reads_as_null() {
    let r = decode_response(b"{\"result\":[1,2]}").unwrap();
    assert_eq!(r.id, Value::Null);
    assert_eq!(r.result, Some(Value::Array(vec![Value::from(1u64), Value::from(2u64)])));
    assert_eq!(r.error, None);
}

#[test]
fn bad_status_ignores_body() {
    assert!(matches!(interpret_reply(500, b"{\"id\":1,\"result\":42,\"error\":null}"), Err(RpcError::Status(500))));
    assert!(matches!(interpret_reply(500, b"not json"), Err(RpcError::Status(500))));
    assert!(matches!(interpret_reply(404, b""), Err(RpcError::Status(404))));
}

#[test]
fn malformed_body_is_decode_error() {
    assert!(matches!(interpret_reply(200, b"{\"id\":1,"), Err(RpcError::Decode(_))));
    assert!(matches!(interpret_reply(200, b""), Err(RpcError::Decode(_))));
    assert!(matches!(interpret_reply(200, b"[1,2]"), Err(RpcError::Decode(_))));
    assert!(matches!(decode_response(b"42"), Err(RpcError::Decode(_))));
}

#[test]
fn clients_count_apart() {
    let mut a = Client::new("http://a".to_owned(), None, None);
    let mut b = Client::new("http://b".to_owned(), None, None);
    assert_eq!(a.build_request("x".to_owned(), vec![]).id, 1);
    assert_eq!(a.build_request("x".to_owned(), vec![]).id, 2);
    assert_eq!(b.last_nonce(), 0);
    assert_eq!(b.build_request("x".to_owned(), vec![]).id, 1);
    assert_eq!(a.last_nonce(), 2);
}
