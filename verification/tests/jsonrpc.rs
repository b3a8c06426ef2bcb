use untis::error::{Error, ProtocolError, RpcError, TransportError};
use untis::json::{parse, Json};
use untis::jsonrpc::{correlate, Call, Client, ErrorCode, Reply};

fn received(body: &str) -> Reply {
    Reply::Received { status: 200, body: body.to_string() }
}

fn call_with_id<R>(id: i64) -> Call<R> {
    Call { id, url: String::new(), body: String::new(), marker: core::marker::PhantomData }
}

#[test]
fn request_writes_the_envelope() {
    let mut client = Client::new("https://example.org/rpc");
    let call: Call<i64> = client.request("getLatestImportTime", &());
    assert_eq!(call.id, 1);
    assert_eq!(call.url, "https://example.org/rpc");
    assert_eq!(call.body, "{\"id\":1,\"method\":\"getLatestImportTime\",\"params\":null}");
}

#[test]
fn request_ids_strictly_increase() {
    let mut client = Client::new("u");
    let mut last = 0;
    for _ in 0..50 {
        let call: Call<()> = client.request("m", &());
        assert!(call.id > last);
        assert_eq!(call.id, last + 1);
        last = call.id;
    }
}

#[test]
fn request_ids_are_per_handle() {
    let mut first = Client::new("u");
    let mut second = Client::new("u");
    let a: Call<()> = first.request("m", &());
    let b: Call<()> = first.request("m", &());
    let c: Call<()> = second.request("m", &());
    assert_eq!((a.id, b.id, c.id), (1, 2, 1));
}

#[test]
fn request_escapes_the_method_name() {
    let mut client = Client::new("u");
    let call: Call<()> = client.request("a\"b", &());
    assert_eq!(call.body, "{\"id\":1,\"method\":\"a\\\"b\",\"params\":null}");
}

#[test]
fn request_sends_a_list_of_parameters() {
    let mut client = Client::new("u");
    let call: Call<()> = client.request("m", &vec!["x", "y"]);
    assert_eq!(call.body, "{\"id\":1,\"method\":\"m\",\"params\":[\"x\",\"y\"]}");
}

#[test]
fn a_handle_can_request_until_the_ids_run_out() {
    assert!(Client::new("u").can_request());
}

#[test]
fn answer_decodes_the_result() {
    let call: Call<i64> = call_with_id(7);
    assert_eq!(call.answer(&received("{\"jsonrpc\":\"2.0\",\"id\":7,\"result\":1431648000000}")), Ok(1431648000000));
}

#[test]
fn answer_accepts_a_null_error_beside_the_result() {
    let call: Call<i64> = call_with_id(7);
    assert_eq!(call.answer(&received("{\"id\":7,\"result\":5,\"error\":null}")), Ok(5));
}

#[test]
fn answer_with_another_id_is_a_protocol_error() {
    let call: Call<i64> = call_with_id(7);
    assert_eq!(
        call.answer(&received("{\"id\":8,\"result\":5}")),
        Err(Error::Protocol(ProtocolError::IdMismatch { expected: 7, received: 8 }))
    );
}

#[test]
fn answer_with_another_id_never_hands_out_the_payload() {
    for other in [-1i64, 0, 1, 6, 8, 700, i64::MAX] {
        let call: Call<i64> = call_with_id(7);
        let body = format!("{{\"id\":{},\"result\":5}}", other);
        assert_eq!(
            call.answer(&received(&body)),
            Err(Error::Protocol(ProtocolError::IdMismatch { expected: 7, received: other as i128 }))
        );
        let failing = format!("{{\"id\":{},\"error\":{{\"code\":1,\"message\":\"m\"}}}}", other);
        let again: Call<i64> = call_with_id(7);
        assert_eq!(
            again.answer(&received(&failing)),
            Err(Error::Protocol(ProtocolError::IdMismatch { expected: 7, received: other as i128 }))
        );
    }
}

#[test]
fn answer_without_an_integer_id_is_malformed() {
    let call: Call<i64> = call_with_id(7);
    assert_eq!(call.answer(&received("{\"result\":5}")), Err(Error::Protocol(ProtocolError::Malformed)));
    assert_eq!(call.answer(&received("{\"id\":\"7\",\"result\":5}")), Err(Error::Protocol(ProtocolError::Malformed)));
    assert_eq!(call.answer(&received("{\"id\":7.5,\"result\":5}")), Err(Error::Protocol(ProtocolError::Malformed)));
    assert_eq!(call.answer(&received("[7, 5]")), Err(Error::Protocol(ProtocolError::Malformed)));
    assert_eq!(call.answer(&received("null")), Err(Error::Protocol(ProtocolError::Malformed)));
}

#[test]
fn answer_with_neither_result_nor_error_is_malformed() {
    let call: Call<i64> = call_with_id(7);
    assert_eq!(call.answer(&received("{\"id\":7}")), Err(Error::Protocol(ProtocolError::Malformed)));
    assert_eq!(call.answer(&received("{\"id\":7,\"error\":null}")), Err(Error::Protocol(ProtocolError::Malformed)));
}

#[test]
fn answer_with_both_result_and_error_is_malformed() {
    let call: Call<i64> = call_with_id(7);
    assert_eq!(
        call.answer(&received("{\"id\":7,\"result\":5,\"error\":{\"code\":1,\"message\":\"m\"}}")),
        Err(Error::Protocol(ProtocolError::Malformed))
    );
}

#[test]
fn answer_that_is_no_json_is_a_protocol_error() {
    let call: Call<i64> = call_with_id(7);
    assert_eq!(call.answer(&received("<html>502</html>")), Err(Error::Protocol(ProtocolError::NotJson)));
    assert_eq!(call.answer(&received("")), Err(Error::Protocol(ProtocolError::NotJson)));
}

#[test]
fn answer_with_an_unknown_code_keeps_code_and_message() {
    let call: Call<i64> = call_with_id(7);
    let got = call.answer(&received("{\"id\":7,\"error\":{\"code\":9999,\"message\":\"custom failure\"}}"));
    assert_eq!(got, Err(Error::Rpc(RpcError { code: 9999, message: "custom failure".to_string() })));
    match got {
        Err(Error::Rpc(e)) => assert_eq!(e.kind(), None),
        _ => panic!("a server error was expected"),
    }
}

#[test]
fn answer_with_a_known_code_keeps_code_and_message() {
    let call: Call<i64> = call_with_id(7);
    let got = call.answer(&received("{\"id\":7,\"error\":{\"message\":\"not authenticated\",\"code\":-8520}}"));
    assert_eq!(got, Err(Error::Rpc(RpcError { code: -8520, message: "not authenticated".to_string() })));
    match got {
        Err(Error::Rpc(e)) => assert_eq!(e.kind(), Some(ErrorCode::NotAuthenticated)),
        _ => panic!("a server error was expected"),
    }
}

#[test]
fn answer_accepts_a_null_result_beside_the_error() {
    let call: Call<i64> = call_with_id(7);
    assert_eq!(
        call.answer(&received("{\"id\":7,\"result\":null,\"error\":{\"code\":-8509,\"message\":\"no right\"}}")),
        Err(Error::Rpc(RpcError { code: -8509, message: "no right".to_string() }))
    );
}

#[test]
fn answer_with_an_error_that_lacks_code_or_message_is_malformed() {
    let call: Call<i64> = call_with_id(7);
    for body in [
        "{\"id\":7,\"error\":{\"message\":\"m\"}}",
        "{\"id\":7,\"error\":{\"code\":1}}",
        "{\"id\":7,\"error\":{\"code\":\"1\",\"message\":\"m\"}}",
        "{\"id\":7,\"error\":{\"code\":1,\"message\":2}}",
        "{\"id\":7,\"error\":\"failed\"}",
        "{\"id\":7,\"error\":{\"code\":9223372036854775808,\"message\":\"m\"}}",
    ] {
        assert_eq!(call.answer(&received(body)), Err(Error::Protocol(ProtocolError::Malformed)));
    }
}

#[test]
fn answer_with_a_result_of_another_shape_is_a_decode_error() {
    let call: Call<i64> = call_with_id(7);
    assert_eq!(call.answer(&received("{\"id\":7,\"result\":\"text\"}")), Err(Error::Decode));
    assert_eq!(call.answer(&received("{\"id\":7,\"result\":null}")), Err(Error::Decode));
    let list: Call<Vec<i64>> = call_with_id(7);
    assert_eq!(list.answer(&received("{\"id\":7,\"result\":[1,\"2\"]}")), Err(Error::Decode));
    assert_eq!(list.answer(&received("{\"id\":7,\"result\":[1,2]}")), Ok(vec![1, 2]));
}

#[test]
fn answer_with_a_status_that_is_no_success_is_a_transport_error() {
    let call: Call<i64> = call_with_id(7);
    for status in [0u16, 100, 199, 300, 301, 404, 500, 503] {
        let reply = Reply::Received { status, body: "{\"id\":7,\"result\":5}".to_string() };
        assert_eq!(call.answer(&reply), Err(Error::Transport(TransportError::Status(status))));
    }
    for status in [200u16, 201, 204, 299] {
        let reply = Reply::Received { status, body: "{\"id\":7,\"result\":5}".to_string() };
        assert_eq!(call.answer(&reply), Ok(5));
    }
}

#[test]
fn answer_to_a_failed_transport_is_a_transport_error() {
    let call: Call<i64> = call_with_id(7);
    let reply = Reply::Failed { reason: "connection refused".to_string() };
    assert_eq!(call.answer(&reply), Err(Error::Transport(TransportError::Failed("connection refused".to_string()))));
}

#[test]
fn read_takes_the_parsed_envelope() {
    let call: Call<i64> = call_with_id(3);
    let envelope = parse("{\"id\":3,\"result\":11}").unwrap();
    assert_eq!(call.read(&envelope), Ok(11));
    let foreign = parse("{\"id\":4,\"result\":11}").unwrap();
    assert_eq!(call.read(&foreign), Err(Error::Protocol(ProtocolError::IdMismatch { expected: 3, received: 4 })));
}

#[test]
fn correlate_hands_out_the_result_member() {
    let envelope = Json::Object(vec![
        ("id".to_string(), Json::Number(Some(3))),
        ("result".to_string(), Json::Array(vec![Json::Null])),
    ]);
    assert_eq!(correlate(3, &envelope), Ok(&Json::Array(vec![Json::Null])));
    assert_eq!(correlate(2, &envelope), Err(Error::Protocol(ProtocolError::IdMismatch { expected: 2, received: 3 })));
}

#[test]
fn correlate_takes_a_null_result_for_a_result() {
    let envelope = Json::Object(vec![("id".to_string(), Json::Number(Some(3))), ("result".to_string(), Json::Null)]);
    assert_eq!(correlate(3, &envelope), Ok(&Json::Null));
}

#[test]
fn error_codes_have_their_numbers() {
    assert_eq!(ErrorCode::TooManyResults.as_isize(), -6003);
    assert_eq!(ErrorCode::NotAuthenticated.as_isize(), -8520);
    assert_eq!(ErrorCode::NotAuthorized.as_isize(), -8509);
    assert_eq!(ErrorCode::BadCredentials.as_isize(), -8504);
    assert_eq!(ErrorCode::InvalidSchool.as_isize(), -8500);
    assert_eq!(ErrorCode::InvalidDate.as_isize(), -7004);
    assert_eq!(ErrorCode::MethodNotFound.as_isize(), -32601);
}

#[test]
fn error_codes_are_found_under_their_numbers() {
    for code in [
        ErrorCode::TooManyResults,
        ErrorCode::NotAuthenticated,
        ErrorCode::NotAuthorized,
        ErrorCode::BadCredentials,
        ErrorCode::InvalidSchool,
        ErrorCode::InvalidDate,
        ErrorCode::MethodNotFound,
    ] {
        assert_eq!(ErrorCode::lookup(code.as_isize() as i64), Some(code));
    }
}

#[test]
fn other_numbers_are_no_known_code() {
    for number in [0i64, 1, -1, 9999, -6002, -6004, 6003, i64::MIN, i64::MAX] {
        assert_eq!(ErrorCode::lookup(number), None);
    }
}
