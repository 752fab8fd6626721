use essrpc::Client;
use essrpc::Envelope;
use essrpc::Transport;
use essrpc::InterfaceDef;
use essrpc::LimitedLoopback;
use essrpc::Loopback;
use essrpc::MethodId;
use essrpc::PartialMethodId;
use essrpc::RPCErrorKind;
use essrpc::RPCServer;
use essrpc::Server;
use essrpc::WireRequest;
use essrpc::WireValue;
use essrpc::demo::EchoService;
use essrpc::demo::FooService;
use essrpc::demo::SmallService;
use essrpc::demo::StopAfterFirst;
use essrpc::loopback_exchange;
use essrpc::roundtrip::decode_transaction_response;
use essrpc::roundtrip::encode_transaction_request;
use essrpc::transact;

fn foo_interface() -> InterfaceDef {
    let mut ifc = InterfaceDef::new();
    ifc.add_method("bar".to_string(), vec!["a".to_string(), "b".to_string()]);
    ifc.add_method("expect_error".to_string(), Vec::new());
    ifc
}

fn expect_text(r: Result<WireValue, essrpc::RPCError>) -> String {
    match r {
        Ok(WireValue::Text(t)) => t,
        other => panic!("expected a text result, got {:?}", other),
    }
}

#[test]
fn bar_concatenates_over_loopback() {
    let mut client = Client::new(foo_interface(), Loopback::new());
    let mut server = Server::new(foo_interface(), FooService, Loopback::new());
    let args = vec![
        WireValue::Text("the answer".to_string()),
        WireValue::Int(42),
    ];
    let r = loopback_exchange(&mut client, &mut server, 0, args);
    assert_eq!(expect_text(r), "the answer is 42");
}

#[test]
fn declared_error_reaches_client() {
    let mut client = Client::new(foo_interface(), Loopback::new());
    let mut server = Server::new(foo_interface(), FooService, Loopback::new());
    let r = loopback_exchange(&mut client, &mut server, 1, Vec::new());
    let e = r.expect_err("the implementation declares an error");
    assert_eq!(e.kind, RPCErrorKind::Other);
    assert!(e.display_string().contains("iamerror"));
}

#[test]
fn unknown_method_observed_by_client() {
    // The client is built against {m0(), m1(x)}; the server declares m0 only.
    let mut client_ifc = InterfaceDef::new();
    client_ifc.add_method("m0".to_string(), Vec::new());
    client_ifc.add_method("m1".to_string(), vec!["x".to_string()]);
    let mut server_ifc = InterfaceDef::new();
    server_ifc.add_method("m0".to_string(), Vec::new());
    let mut client = Client::new(client_ifc, Loopback::new());
    let mut server = Server::new(server_ifc, SmallService, Loopback::new());
    let r = loopback_exchange(&mut client, &mut server, 1, vec![WireValue::Int(7)]);
    let e = r.expect_err("the server does not declare m1");
    assert_eq!(e.kind, RPCErrorKind::UnknownMethod);
}

#[test]
fn oversized_text_is_refused() {
    let mut echo_ifc = InterfaceDef::new();
    echo_ifc.add_method("echo".to_string(), vec!["s".to_string()]);
    let mut client = Client::new(echo_ifc, Loopback::new());
    let mut server_ifc = InterfaceDef::new();
    server_ifc.add_method("echo".to_string(), vec!["s".to_string()]);
    let mut server = Server::new(server_ifc, EchoService, LimitedLoopback::new(8));

    let args = vec![WireValue::Text("123456789".to_string())];
    client.call_send(0, args).expect("transmit succeeds");
    let w = client.transport.take_request().expect("the request was delivered");
    server.transport.give_request(w);

    let served = server.serve_single_call();
    let e = served.expect_err("the decoder refuses nine characters");
    assert_eq!(e.kind, RPCErrorKind::SerializationError);
    assert!(server.transport.take_response().is_none());

    let client_side = client.call_recv();
    let ce = client_side.expect_err("no reply ever arrives");
    assert_eq!(ce.kind, RPCErrorKind::Other);
}

#[test]
fn echo_within_limit_passes() {
    let mut echo_ifc = InterfaceDef::new();
    echo_ifc.add_method("echo".to_string(), vec!["s".to_string()]);
    let mut client = Client::new(echo_ifc, Loopback::new());
    let mut server_ifc = InterfaceDef::new();
    server_ifc.add_method("echo".to_string(), vec!["s".to_string()]);
    let mut server = Server::new(server_ifc, EchoService, LimitedLoopback::new(8));

    let args = vec![WireValue::Text("12345678".to_string())];
    client.call_send(0, args).expect("transmit succeeds");
    let w = client.transport.take_request().expect("the request was delivered");
    server.transport.give_request(w);
    server.serve_single_call().expect("eight characters pass the limit");
    let env = server.transport.take_response().expect("a reply was transmitted");
    client.transport.give_response(env);
    assert_eq!(expect_text(client.call_recv()), "12345678");
}

#[test]
fn two_transactions_resolve_independently() {
    // Two requests are both issued before either response is resolved, each
    // against its own in-memory server instance.
    let ifc = foo_interface();
    let req_x = encode_transaction_request(
        &ifc,
        0,
        vec![WireValue::Text("x".to_string()), WireValue::Int(1)],
    );
    let req_y = encode_transaction_request(
        &ifc,
        0,
        vec![WireValue::Text("y".to_string()), WireValue::Int(2)],
    );
    let mut server_x = Server::new(foo_interface(), FooService, Loopback::new());
    let mut server_y = Server::new(foo_interface(), FooService, Loopback::new());
    let env_y = transact(&mut server_y, req_y).expect("a reply envelope");
    let env_x = transact(&mut server_x, req_x).expect("a reply envelope");
    assert_eq!(expect_text(decode_transaction_response(env_x)), "x is 1");
    assert_eq!(expect_text(decode_transaction_response(env_y)), "y is 2");
}

#[test]
fn serve_until_stops_after_one_call() {
    let mut server = Server::new(foo_interface(), FooService, Loopback::new());
    server.transport.give_request(WireRequest {
        method: MethodId { name: "bar".to_string(), num: 0 },
        params: vec![WireValue::Text("the answer".to_string()), WireValue::Int(42)],
    });
    let mut cond = StopAfterFirst;
    server.serve_until(&mut cond).expect("one call is served, then the predicate stops it");
    let env = server.transport.take_response().expect("the one call was answered");
    assert_eq!(expect_text(decode_transaction_response(env)), "the answer is 42");
    // A second call would find no request: exactly one call was served.
    assert!(server.serve_single_call().is_err());
}

#[test]
fn serve_returns_only_on_failure() {
    let mut server = Server::new(foo_interface(), FooService, Loopback::new());
    server.transport.give_request(WireRequest {
        method: MethodId { name: "expect_error".to_string(), num: 1 },
        params: Vec::new(),
    });
    // The one request is served (its reply is an error envelope); the next
    // begin-receive finds nothing and serving stops with that failure.
    let r = server.serve();
    assert!(r.is_err());
    let env = server.transport.take_response().expect("the call was answered first");
    let e = decode_transaction_response(env).expect_err("an error envelope");
    assert!(e.display_string().contains("iamerror"));
}

#[test]
fn sequential_calls_are_isolated() {
    let mut client = Client::new(foo_interface(), Loopback::new());
    let mut server = Server::new(foo_interface(), FooService, Loopback::new());
    let r1 = loopback_exchange(
        &mut client,
        &mut server,
        0,
        vec![WireValue::Text("a".to_string()), WireValue::Int(1)],
    );
    assert_eq!(expect_text(r1), "a is 1");
    let r2 = loopback_exchange(&mut client, &mut server, 1, Vec::new());
    assert!(r2.is_err());
    let r3 = loopback_exchange(
        &mut client,
        &mut server,
        0,
        vec![WireValue::Text("b".to_string()), WireValue::Int(2)],
    );
    assert_eq!(expect_text(r3), "b is 2");
}

#[test]
fn appending_a_method_preserves_earlier_indices() {
    // A client built before the extension still reaches the old methods of
    // an extended server by the same indices.
    let mut old_ifc = InterfaceDef::new();
    old_ifc.add_method("bar".to_string(), vec!["a".to_string(), "b".to_string()]);
    old_ifc.add_method("expect_error".to_string(), Vec::new());
    let mut extended = foo_interface();
    let idx = extended.add_method("later".to_string(), Vec::new());
    assert_eq!(idx, 2);
    let mut client = Client::new(old_ifc, Loopback::new());
    let mut server = Server::new(extended, FooService, Loopback::new());
    let r = loopback_exchange(
        &mut client,
        &mut server,
        0,
        vec![WireValue::Text("still".to_string()), WireValue::Int(3)],
    );
    assert_eq!(expect_text(r), "still is 3");
}

#[test]
fn resolution_by_name_and_by_index() {
    let ifc = foo_interface();
    assert_eq!(ifc.method_count(), 2);
    assert_eq!(ifc.resolve(PartialMethodId::Num(0)), Some(0));
    assert_eq!(ifc.resolve(PartialMethodId::Num(1)), Some(1));
    assert_eq!(ifc.resolve(PartialMethodId::Num(2)), None);
    assert_eq!(ifc.resolve(PartialMethodId::Name("bar".to_string())), Some(0));
    assert_eq!(
        ifc.resolve(PartialMethodId::Name("expect_error".to_string())),
        Some(1)
    );
    assert_eq!(ifc.resolve(PartialMethodId::Name("BAR".to_string())), None);
    let id = ifc.method_id(1);
    assert_eq!(id.name, "expect_error");
    assert_eq!(id.num, 1);
}

#[test]
fn malformed_arguments_yield_serialization_error() {
    let mut client = Client::new(foo_interface(), Loopback::new());
    let mut server = Server::new(foo_interface(), FooService, Loopback::new());
    // Two arguments of the wrong shapes: declared count, undeclared types.
    let args = vec![WireValue::Int(1), WireValue::Int(2)];
    let r = loopback_exchange(&mut client, &mut server, 0, args);
    let e = r.expect_err("the implementation rejects the shapes");
    assert_eq!(e.kind, RPCErrorKind::SerializationError);
}

#[test]
fn transport_operations_in_protocol_order() {
    let mut t = Loopback::new();
    let mut tx = t
        .tx_begin_call(MethodId { name: "bar".to_string(), num: 0 })
        .expect("begin transmit");
    t.tx_add_param("a", WireValue::Text("hi".to_string()), &mut tx)
        .expect("first parameter");
    t.tx_add_param("b", WireValue::Int(5), &mut tx).expect("second parameter");
    t.tx_finalize(&mut tx).expect("finalize");

    let (pid, mut rx) = t.rx_begin_call().expect("a request is pending");
    match pid {
        PartialMethodId::Num(n) => assert_eq!(n, 0),
        PartialMethodId::Name(n) => panic!("this transport decodes indices, got name {}", n),
    }
    match t.rx_read_param("a", &mut rx).expect("first parameter is read") {
        WireValue::Text(s) => assert_eq!(s, "hi"),
        other => panic!("expected text, got {:?}", other),
    }
    match t.rx_read_param("b", &mut rx).expect("second parameter is read") {
        WireValue::Int(n) => assert_eq!(n, 5),
        other => panic!("expected an integer, got {:?}", other),
    }
    let e = t.rx_read_param("c", &mut rx).expect_err("no third parameter was added");
    assert_eq!(e.kind, RPCErrorKind::SerializationError);

    t.tx_response(Envelope::Success(WireValue::Unit)).expect("reply");
    match t.rx_response().expect("the reply is pending") {
        Envelope::Success(WireValue::Unit) => {},
        other => panic!("expected the unit success envelope, got {:?}", other),
    }
    assert!(t.rx_response().is_err());
}

#[test]
fn begin_receive_without_request_fails() {
    let mut t = Loopback::new();
    let e = t.rx_begin_call().expect_err("nothing was delivered");
    assert_eq!(e.kind, RPCErrorKind::Other);
}
