use elo::ws::layer::message::{Message, OnlyId, Request};
use elo::ws::layer::{try_extract_id, FlowControl, Layer, Received};
use elo::ws::Error;

#[test]
fn status_errors_carry_the_reason() {
    let e = Error::from_status(400);
    assert_eq!(e.code, 400);
    assert_eq!(e.message, "Bad Request");
    assert_eq!(Error::from_status(404).message, "Not Found");
    assert_eq!(Error::from_status(599).message, "");
    assert_eq!(Error::new(409, "Entry already exists").message, "Entry already exists");
}

#[test]
fn binary_requests_give_their_id() {
    let bytes = rmp_serde::to_vec_named(&json_value_for_test()).unwrap();
    assert_eq!(try_extract_id::<Vec<u8>>(&bytes), Some(27));
    assert_eq!(try_extract_id::<Vec<u8>>(b"\xc1"), None);
}

fn json_value_for_test() -> serde_json::Value {
    let mut map = serde_json::Map::new();
    map.insert(String::from("id"), serde_json::Value::from(27u32));
    map.insert(String::from("do"), serde_json::Value::from("x"));
    serde_json::Value::Object(map)
}

#[test]
fn ids_that_do_not_fit_are_missing() {
    assert_eq!(try_extract_id::<String>(br#"{"id":4294967296}"#), None);
    assert_eq!(try_extract_id::<String>(br#"{"id":4294967295}"#), Some(u32::MAX));
    assert_eq!(try_extract_id::<String>(br#"{"id":-1}"#), None);
    assert_eq!(try_extract_id::<String>(br#"{"id":27.5}"#), None);
}

#[test]
fn sockets_are_named_in_hex() {
    let layer = Layer::<String>::new(0xbeef, String::from("user"));
    assert_eq!(layer.id(), "beef");
    assert_eq!(layer.user(), "user");
    assert_eq!(layer.mode(), "text");
    assert_eq!(Layer::<Vec<u8>>::new(10, String::new()).id(), "000a");
    assert_eq!(Layer::<Vec<u8>>::new(10, String::new()).mode(), "binary");
}

#[test]
fn reads_of_the_socket() {
    let layer = Layer::<String>::new(1, String::from("user"));
    assert_eq!(layer.receive(Received::Closed), FlowControl::Break);
    assert_eq!(layer.receive(Received::Broken), FlowControl::Break);
    assert_eq!(layer.receive(Received::Ping), FlowControl::Continue);
    assert_eq!(layer.receive(Received::Pong), FlowControl::Continue);
    assert_eq!(layer.receive(Received::Close), FlowControl::Continue);
    assert_eq!(
        layer.receive(Received::Text(String::from("{}"))),
        FlowControl::Pass(b"{}".to_vec())
    );
    assert_eq!(
        layer.receive(Received::Binary(vec![1, 2])),
        FlowControl::Pass(vec![1, 2])
    );
}

#[test]
fn unreadable_messages_are_refused() {
    let layer = Layer::<String>::new(1, String::from("user"));
    let m: Message<(), ()> = layer.refusal(br#"{"id":27,"do":5}"#, "bad");
    assert_eq!(m, Message::Error(Some(27), Error::new(400, "bad")));
    let m: Message<(), ()> = layer.refusal(b"not json", "worse");
    assert_eq!(m, Message::Error(None, Error::new(400, "worse")));
}

#[test]
fn sends_stop_on_failure() {
    let layer = Layer::<String>::new(1, String::from("user"));
    assert_eq!(layer.sent::<()>(true, true), FlowControl::Continue);
    assert_eq!(layer.sent::<()>(true, false), FlowControl::Break);
    assert_eq!(layer.sent::<()>(false, true), FlowControl::Break);
}

#[test]
fn replies_carry_the_request_id() {
    let ok: Message<u8, ()> = Message::reply(27, Ok(5));
    assert_eq!(ok, Message::Answer(27, 5));
    let err: Message<u8, ()> = Message::reply(27, Err(Error::new(403, "Forbidden")));
    assert_eq!(err, Message::Error(Some(27), Error::new(403, "Forbidden")));
    let request = Request { id: 3, payload: () };
    assert_eq!(request.id, 3);
    assert_eq!(OnlyId { id: 4 }.id, 4);
}

#[test]
fn requests_holding_only_their_id_may_be_arrays() {
    assert_eq!(try_extract_id::<String>(b"[27]"), Some(27));
    assert_eq!(try_extract_id::<String>(b" [ 4294967295 ] "), Some(u32::MAX));
    assert_eq!(try_extract_id::<String>(b"[27, 1]"), None);
    assert_eq!(try_extract_id::<String>(b"[]"), None);
    assert_eq!(try_extract_id::<String>(b"[4294967296]"), None);
    let packed = rmp_serde::to_vec(&(27u32,)).unwrap();
    assert_eq!(try_extract_id::<Vec<u8>>(&packed), Some(27));
    let two = rmp_serde::to_vec(&(27u32, 1u32)).unwrap();
    assert_eq!(try_extract_id::<Vec<u8>>(&two), None);
}
