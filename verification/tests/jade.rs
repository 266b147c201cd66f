use bhwi::bip32::{DerivationPath, Fingerprint, Xpub};
use bhwi::jade::api::{decimal_digits, read_envelope, write_request, write_xpub_params, Envelope};
use bhwi::jade::{
    JadeCommand, JadeError, JadeInterpreter, JadeRecipient, JadeResponse, JADE_BAUD_RATE,
    JADE_NETWORK_MAINNET, JADE_NETWORK_TESTNET,
};
use bhwi::network::Network;
use bhwi::Interpreter;
use serde_cbor::Value;
use std::collections::BTreeMap;

const MASTER_XPUB: &str = "xpub661MyMwAqRbcFtXgS5sYJABqqG9YLmC4Q1Rdap9gSE8NqtwybGhePY2gZ29ESFjqJoCu1Rupje8YtGqsefD265TMg7usUDFdp6W1EGMcet8";

fn text(s: &str) -> Value {
    Value::Text(s.to_string())
}

fn map(pairs: Vec<(&str, Value)>) -> Value {
    let mut m = BTreeMap::new();
    for (k, v) in pairs {
        m.insert(text(k), v);
    }
    Value::Map(m)
}

fn cbor(value: &Value) -> Vec<u8> {
    serde_cbor::to_vec(value).unwrap()
}

fn decode(bytes: &[u8]) -> Value {
    serde_cbor::from_slice(bytes).unwrap()
}

fn request(id: &str, method: &str, params: Value) -> Value {
    map(vec![("id", text(id)), ("method", text(method)), ("params", params)])
}

fn xpub_params(network: &str, path: Vec<u32>) -> Value {
    let path = path.into_iter().map(|n| Value::Integer(n as i128)).collect();
    map(vec![("network", text(network)), ("path", Value::Array(path))])
}

fn result(id: &str, value: Value) -> Vec<u8> {
    cbor(&map(vec![("id", text(id)), ("result", value)]))
}

fn pin_server_request(urls: Value, data: Value) -> Value {
    map(vec![
        (
            "http_request",
            map(vec![
                (
                    "params",
                    map(vec![
                        ("urls", urls),
                        ("method", text("POST")),
                        ("accept", text("json")),
                        ("data", data),
                    ]),
                ),
                ("on-reply", text("pin")),
            ]),
        ),
    ])
}

#[test]
fn network_names() {
    assert_eq!(JADE_NETWORK_MAINNET, "mainnet");
    assert_eq!(JADE_NETWORK_TESTNET, "testnet");
    assert_eq!(JADE_BAUD_RATE, 115200);
}

#[test]
fn auth_request_bytes() {
    let mut intpr = JadeInterpreter::new().with_network(Network::Testnet);
    let transmit = intpr.start(JadeCommand::Auth).unwrap();
    assert!(matches!(transmit.recipient, JadeRecipient::Device));
    let expected: Vec<u8> = vec![
        0xa3, 0x62, 0x69, 0x64, 0x61, 0x31, 0x66, 0x6d, 0x65, 0x74, 0x68, 0x6f, 0x64, 0x69, 0x61,
        0x75, 0x74, 0x68, 0x5f, 0x75, 0x73, 0x65, 0x72, 0x66, 0x70, 0x61, 0x72, 0x61, 0x6d, 0x73,
        0xa2, 0x67, 0x6e, 0x65, 0x74, 0x77, 0x6f, 0x72, 0x6b, 0x67, 0x74, 0x65, 0x73, 0x74, 0x6e,
        0x65, 0x74, 0x64, 0x70, 0x61, 0x74, 0x68, 0x80,
    ];
    assert_eq!(transmit.payload, expected);
    assert_eq!(decode(&transmit.payload), request("1", "auth_user", xpub_params("testnet", vec![])));
}

#[test]
fn auth_scenario() {
    let mut intpr = JadeInterpreter::new().with_network(Network::Testnet);
    intpr.start(JadeCommand::Auth).unwrap();
    let data = map(vec![("data", text("AAEC"))]);
    let reply = result(
        "1",
        pin_server_request(Value::Array(vec![text("https://p"), text("http://q.onion")]), data),
    );
    let to_server = intpr.exchange(reply).unwrap().unwrap();
    match &to_server.recipient {
        JadeRecipient::PinServer { url } => assert_eq!(url, "https://p"),
        other => panic!("{:?}", other),
    }
    assert_eq!(to_server.payload, b"{\"data\":\"AAEC\"}".to_vec());

    let to_device = intpr.exchange(b"{ \"data\": \"BAUG\" }".to_vec()).unwrap().unwrap();
    assert!(matches!(to_device.recipient, JadeRecipient::Device));
    assert_eq!(
        decode(&to_device.payload),
        request("2", "pin", map(vec![("data", text("BAUG"))]))
    );
    assert!(intpr.exchange(result("2", Value::Bool(true))).unwrap().is_none());
    assert_eq!(intpr.end().unwrap(), JadeResponse::TaskDone);
}

#[test]
fn auth_refused() {
    let mut intpr = JadeInterpreter::new();
    intpr.start(JadeCommand::Auth).unwrap();
    let reply = result("1", pin_server_request(Value::Array(vec![text("https://p")]), text("x")));
    let to_server = intpr.exchange(reply).unwrap().unwrap();
    assert_eq!(to_server.payload, b"\"x\"".to_vec());
    intpr.exchange(b"[1,2]".to_vec()).unwrap().unwrap();
    assert!(matches!(
        intpr.exchange(result("2", Value::Bool(false))),
        Err(JadeError::HandshakeRefused)
    ));
    assert!(matches!(intpr.end(), Err(JadeError::NoErrorOrResult)));
}

#[test]
fn auth_urls_as_an_object() {
    let mut intpr = JadeInterpreter::new();
    intpr.start(JadeCommand::Auth).unwrap();
    let urls = map(vec![("onion", text("http://q.onion")), ("url", text("https://pin"))]);
    let reply = result("1", pin_server_request(urls, Value::Integer(5)));
    let to_server = intpr.exchange(reply).unwrap().unwrap();
    match &to_server.recipient {
        JadeRecipient::PinServer { url } => assert_eq!(url, "https://pin"),
        other => panic!("{:?}", other),
    }
    assert_eq!(to_server.payload, b"5".to_vec());
}

#[test]
fn auth_without_a_url() {
    let mut intpr = JadeInterpreter::new();
    intpr.start(JadeCommand::Auth).unwrap();
    let reply = result("1", pin_server_request(Value::Array(vec![]), text("x")));
    match intpr.exchange(reply) {
        Err(JadeError::Unexpected(m)) => assert_eq!(m, "No url provided"),
        other => panic!("{:?}", other),
    }
    // the interpreter now waits for the server
    assert!(matches!(
        intpr.exchange(b"not json".to_vec()),
        Err(JadeError::Request("Wrong response from pin server"))
    ));
}

#[test]
fn auth_of_an_unlocked_device_changes_nothing() {
    let mut intpr = JadeInterpreter::new();
    intpr.start(JadeCommand::Auth).unwrap();
    assert!(intpr.exchange(result("1", Value::Bool(true))).unwrap().is_none());
    assert!(matches!(intpr.end(), Err(JadeError::NoErrorOrResult)));
}

#[test]
fn auth_replies_of_another_shape() {
    for value in [
        Value::Integer(1),
        text("yes"),
        map(vec![("http_request", map(vec![("params", map(vec![("urls", text("u"))]))]))]),
        map(vec![("http_request", map(vec![("params", map(vec![("data", text("d"))]))]))]),
        pin_server_request(Value::Array(vec![Value::Integer(1)]), text("d")),
        pin_server_request(map(vec![("onion", text("o"))]), text("d")),
    ] {
        let mut intpr = JadeInterpreter::new();
        intpr.start(JadeCommand::Auth).unwrap();
        assert!(matches!(intpr.exchange(result("1", value)), Err(JadeError::Cbor)));
    }
}

#[test]
fn pin_server_data_that_is_no_json() {
    let mut intpr = JadeInterpreter::new();
    intpr.start(JadeCommand::Auth).unwrap();
    let mut keyed_by_number = BTreeMap::new();
    keyed_by_number.insert(Value::Integer(1), Value::Integer(2));
    let reply = result(
        "1",
        pin_server_request(Value::Array(vec![text("https://p")]), Value::Map(keyed_by_number)),
    );
    assert!(matches!(intpr.exchange(reply), Err(JadeError::Unexpected(_))));
}

#[test]
fn get_master_fingerprint_scenario_jade() {
    let mut intpr = JadeInterpreter::new();
    let transmit = intpr.start(JadeCommand::GetMasterFingerprint).unwrap();
    assert_eq!(decode(&transmit.payload), request("1", "get_xpub", xpub_params("mainnet", vec![])));
    assert!(intpr.exchange(result("1", text(MASTER_XPUB))).unwrap().is_none());
    assert_eq!(
        intpr.end().unwrap(),
        JadeResponse::MasterFingerprint(Fingerprint::new([0x34, 0x42, 0x19, 0x3e]))
    );
}

#[test]
fn get_xpub_at_a_path() {
    let path = DerivationPath::from_str("m/48'/1'/0'/2'/23/70000").unwrap();
    let mut intpr = JadeInterpreter::new().with_network(Network::Regtest).with_request_id(41);
    let transmit = intpr.start(JadeCommand::GetXpub(path)).unwrap();
    assert_eq!(
        decode(&transmit.payload),
        request(
            "41",
            "get_xpub",
            xpub_params(
                "testnet",
                vec![0x80000030, 0x80000001, 0x80000000, 0x80000002, 23, 70000]
            )
        )
    );
    assert!(intpr.exchange(result("41", text(MASTER_XPUB))).unwrap().is_none());
    assert_eq!(intpr.end().unwrap(), JadeResponse::Xpub(Xpub::from_str(MASTER_XPUB).unwrap()));
}

#[test]
fn a_text_that_is_no_key() {
    let mut intpr = JadeInterpreter::new();
    intpr.start(JadeCommand::GetMasterFingerprint).unwrap();
    match intpr.exchange(result("1", text("nokey"))) {
        Err(JadeError::Unexpected(m)) => {
            assert_eq!(m, "nokey".parse::<bitcoin::bip32::Xpub>().unwrap_err().to_string())
        }
        other => panic!("{:?}", other),
    }
    assert!(matches!(intpr.exchange(result("1", Value::Bool(true))), Err(JadeError::Cbor)));
    assert!(matches!(intpr.end(), Err(JadeError::NoErrorOrResult)));
}

#[test]
fn rpc_errors() {
    let mut intpr = JadeInterpreter::new();
    intpr.start(JadeCommand::GetMasterFingerprint).unwrap();
    let error = map(vec![
        ("code", Value::Integer(-32000)),
        ("message", text("locked")),
        ("data", Value::Null),
    ]);
    let reply = cbor(&map(vec![("id", text("1")), ("error", error)]));
    match intpr.exchange(reply) {
        Err(JadeError::Rpc(e)) => {
            assert_eq!(e.code, -32000);
            assert_eq!(e.message.as_deref(), Some("locked"));
        }
        other => panic!("{:?}", other),
    }
    let error = map(vec![("code", Value::Integer(7))]);
    let reply =
        cbor(&map(vec![("id", text("1")), ("result", text(MASTER_XPUB)), ("error", error)]));
    match intpr.exchange(reply) {
        Err(JadeError::Rpc(e)) => {
            assert_eq!(e.code, 7);
            assert_eq!(e.message, None);
        }
        other => panic!("{:?}", other),
    }
    for error in [
        text("failed"),
        map(vec![("message", text("no code"))]),
        map(vec![("code", Value::Integer(1 << 31))]),
        map(vec![("code", Value::Integer(1)), ("message", Value::Integer(2))]),
    ] {
        let reply = cbor(&map(vec![("id", text("1")), ("error", error)]));
        assert!(matches!(intpr.exchange(reply), Err(JadeError::Cbor)));
    }
}

#[test]
fn replies_without_result_or_error() {
    let mut intpr = JadeInterpreter::new();
    intpr.start(JadeCommand::GetMasterFingerprint).unwrap();
    let reply = cbor(&map(vec![("id", text("1"))]));
    assert!(matches!(intpr.exchange(reply), Err(JadeError::NoErrorOrResult)));
    let reply = cbor(&map(vec![("id", text("1")), ("result", Value::Null), ("error", Value::Null)]));
    assert!(matches!(intpr.exchange(reply), Err(JadeError::NoErrorOrResult)));
    let reply =
        cbor(&map(vec![("id", text("1")), ("error", Value::Null), ("result", text(MASTER_XPUB))]));
    assert!(intpr.exchange(reply).unwrap().is_none());
    assert!(intpr.end().is_ok());
}

#[test]
fn replies_that_are_no_cbor() {
    let good = result("1", text(MASTER_XPUB));
    let mut trailing = good.clone();
    trailing.push(0);
    let replies = [
        vec![],
        vec![0xff],
        good[..good.len() - 1].to_vec(),
        trailing,
        cbor(&text("result")),
        cbor(&Value::Array(vec![text("result"), text(MASTER_XPUB)])),
        vec![0xbf, 0x62, 0x69, 0x64, 0x61, 0x31, 0xff],
    ];
    for reply in replies {
        let mut intpr = JadeInterpreter::new();
        intpr.start(JadeCommand::GetMasterFingerprint).unwrap();
        assert!(matches!(intpr.exchange(reply), Err(JadeError::Cbor)));
    }
}

#[test]
fn jade_end_before_completion_is_no_result() {
    assert!(matches!(JadeInterpreter::new().end(), Err(JadeError::NoErrorOrResult)));
    assert!(matches!(JadeInterpreter::default().end(), Err(JadeError::NoErrorOrResult)));
    let mut intpr = JadeInterpreter::new();
    assert!(intpr.exchange(result("1", Value::Bool(true))).unwrap().is_none());
    intpr.start(JadeCommand::Auth).unwrap();
    assert!(matches!(intpr.end(), Err(JadeError::NoErrorOrResult)));
}

#[test]
fn request_ids_count_up() {
    let mut intpr = JadeInterpreter::new().with_request_id(9);
    for id in ["9", "10", "11"] {
        let transmit = intpr.start(JadeCommand::GetMasterFingerprint).unwrap();
        assert_eq!(
            decode(&transmit.payload),
            request(id, "get_xpub", xpub_params("mainnet", vec![]))
        );
    }
    let mut intpr = JadeInterpreter::new().with_request_id(u64::MAX);
    let transmit = intpr.start(JadeCommand::Auth).unwrap();
    assert_eq!(
        decode(&transmit.payload),
        request("18446744073709551615", "auth_user", xpub_params("mainnet", vec![]))
    );
    let transmit = intpr.start(JadeCommand::Auth).unwrap();
    assert_eq!(decode(&transmit.payload), request("0", "auth_user", xpub_params("mainnet", vec![])));
}

#[test]
fn decimal_digits_of_numbers() {
    for n in [0u64, 1, 9, 10, 99, 100, 12345, u64::MAX] {
        assert_eq!(decimal_digits(n), n.to_string().into_bytes());
    }
}

#[test]
fn requests_agree_with_serde_cbor() {
    let params = write_xpub_params(true, &[0, 23, 24, 255, 256, 65535, 65536, u32::MAX]);
    assert_eq!(
        decode(&params),
        xpub_params("mainnet", vec![0, 23, 24, 255, 256, 65535, 65536, u32::MAX])
    );
    // field by field, in the order of the fields
    let mut expected = vec![0xa2];
    expected.extend(cbor(&text("network")));
    expected.extend(cbor(&text("mainnet")));
    expected.extend(cbor(&text("path")));
    expected.extend(cbor(&Value::Array(
        [0u32, 23, 24, 255, 256, 65535, 65536, u32::MAX]
            .iter()
            .map(|n| Value::Integer(*n as i128))
            .collect(),
    )));
    assert_eq!(params, expected);
    let long = "m".repeat(300);
    let bytes = write_request(77, &long, &cbor(&Value::Null));
    assert_eq!(decode(&bytes), request("77", &long, Value::Null));
}

#[test]
fn envelopes() {
    assert!(matches!(read_envelope(&result("1", Value::Bool(true))), Envelope::Result(_)));
    assert!(matches!(read_envelope(&cbor(&map(vec![]))), Envelope::Empty));
    assert!(matches!(read_envelope(&[0xa1, 0x01]), Envelope::Malformed));
    let nested = map(vec![
        ("a", Value::Array(vec![map(vec![("result", Value::Integer(1))]), Value::Bytes(vec![1; 30])])),
        ("b", Value::Tag(5, Box::new(Value::Float(1.5)))),
        ("result", Value::Integer(-3)),
    ]);
    match read_envelope(&cbor(&nested)) {
        Envelope::Result(at) => assert_eq!(cbor(&nested)[at], 0x22),
        _ => panic!("no result"),
    }
    match read_envelope(&cbor(&map(vec![("error", map(vec![("code", Value::Integer(-1))]))]))) {
        Envelope::Failure(e) => assert_eq!((e.code, e.message), (-1, None)),
        _ => panic!("no failure"),
    }
}

#[test]
fn texts_must_be_utf8() {
    // {result: {http_request: {params: {urls: [<text ff>], data: 1}}}}
    let mut reply = vec![0xa1, 0x66];
    reply.extend_from_slice(b"result");
    reply.extend_from_slice(&[0xa1, 0x6c]);
    reply.extend_from_slice(b"http_request");
    reply.extend_from_slice(&[0xa1, 0x66]);
    reply.extend_from_slice(b"params");
    reply.extend_from_slice(&[0xa2, 0x64]);
    reply.extend_from_slice(b"urls");
    reply.extend_from_slice(&[0x81, 0x61, 0xff, 0x64]);
    reply.extend_from_slice(b"data");
    reply.extend_from_slice(&[0x01]);
    let mut intpr = JadeInterpreter::new();
    intpr.start(JadeCommand::Auth).unwrap();
    assert!(matches!(intpr.exchange(reply), Err(JadeError::Cbor)));

    // {error: {code: 1, message: <text ff>}}
    let mut reply = vec![0xa1, 0x65];
    reply.extend_from_slice(b"error");
    reply.extend_from_slice(&[0xa2, 0x64]);
    reply.extend_from_slice(b"code");
    reply.extend_from_slice(&[0x01, 0x67]);
    reply.extend_from_slice(b"message");
    reply.extend_from_slice(&[0x61, 0xff]);
    assert!(matches!(intpr.exchange(reply), Err(JadeError::Cbor)));

    // {result: <text ff>}
    let mut reply = vec![0xa1, 0x66];
    reply.extend_from_slice(b"result");
    reply.extend_from_slice(&[0x61, 0xff]);
    let mut intpr = JadeInterpreter::new();
    intpr.start(JadeCommand::GetMasterFingerprint).unwrap();
    match intpr.exchange(reply) {
        Err(JadeError::Unexpected(m)) => {
            assert_eq!(m, std::str::from_utf8(&[0xff]).unwrap_err().to_string())
        }
        other => panic!("{:?}", other),
    }
}
