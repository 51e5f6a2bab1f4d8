use prpc::dispatch::{Decode, Encode, Invocation, MethodEntry, MethodTable};
use prpc::path::join_path;
use prpc::schema::{Builder, GenerateError, MethodSchema, ServiceSchema};
use prpc::server::Error;

fn entry(path: &str, has_request: bool) -> MethodEntry {
    MethodEntry { path: path.to_string(), has_request }
}

fn table() -> MethodTable {
    MethodTable {
        entries: vec![
            entry("Greeter.SayHello", true),
            entry("Greeter.Ping", false),
            entry("Greeter.SayHello", false),
        ],
    }
}

fn not_found(out: Result<Invocation, Error>) -> String {
    match out {
        Err(Error::NotFound(path)) => path,
        _ => panic!("expected NotFound"),
    }
}

#[test]
fn binary_dispatch_decodes_with_the_primary_codec() {
    let out = table().dispatch_request("Greeter.SayHello", b"\x0a\x01x").ok().unwrap();
    assert_eq!(out, Invocation { method: 0, decode: Decode::Binary, encode: Encode::Binary });
    let out = table().dispatch_request("Greeter.SayHello", b"").ok().unwrap();
    assert_eq!(out, Invocation { method: 0, decode: Decode::Binary, encode: Encode::Binary });
}

#[test]
fn alternate_dispatch_chooses_the_form_of_the_payload() {
    let t = table();
    let json = t.dispatch_json_request("Greeter.SayHello", b"{}", false).ok().unwrap();
    assert_eq!(json, Invocation { method: 0, decode: Decode::Json, encode: Encode::Json });
    let query = t.dispatch_json_request("Greeter.SayHello", b"name=x", true).ok().unwrap();
    assert_eq!(query, Invocation { method: 0, decode: Decode::Query, encode: Encode::Json });
}

#[test]
fn alternate_dispatch_reads_an_empty_payload_as_the_default_request() {
    let t = table();
    for query in [false, true] {
        let out = t.dispatch_json_request("Greeter.SayHello", b"", query).ok().unwrap();
        assert_eq!(out, Invocation { method: 0, decode: Decode::Default, encode: Encode::Json });
    }
}

#[test]
fn method_without_request_is_never_decoded() {
    let t = table();
    for data in [&b""[..], &b"not a message"[..]] {
        let binary = t.dispatch_request("Greeter.Ping", data).ok().unwrap();
        assert_eq!(binary, Invocation { method: 1, decode: Decode::Skip, encode: Encode::Binary });
        for query in [false, true] {
            let alternate = t.dispatch_json_request("Greeter.Ping", data, query).ok().unwrap();
            assert_eq!(alternate, Invocation { method: 1, decode: Decode::Skip, encode: Encode::Json });
        }
    }
}

#[test]
fn unknown_path_is_not_found_on_both_paths() {
    let t = table();
    assert_eq!(not_found(t.dispatch_request("Greeter.Missing", b"")), "Greeter.Missing");
    assert_eq!(not_found(t.dispatch_json_request("Greeter.Missing", b"{}", false)), "Greeter.Missing");
    assert_eq!(not_found(t.dispatch("greeter.ping", b"", false, false)), "greeter.ping");
    assert_eq!(not_found(t.dispatch("", b"", true, true)), "");
}

#[test]
fn dispatch_selects_the_path_by_the_flag() {
    let t = table();
    assert_eq!(
        t.dispatch("Greeter.SayHello", b"x", false, true).ok().unwrap(),
        Invocation { method: 0, decode: Decode::Binary, encode: Encode::Binary }
    );
    assert_eq!(
        t.dispatch("Greeter.SayHello", b"x", true, true).ok().unwrap(),
        Invocation { method: 0, decode: Decode::Query, encode: Encode::Json }
    );
    assert_eq!(
        t.dispatch("Greeter.SayHello", b"x", true, false).ok().unwrap(),
        Invocation { method: 0, decode: Decode::Json, encode: Encode::Json }
    );
}

#[test]
fn first_row_of_a_path_wins() {
    let t = table();
    assert_eq!(t.lookup("Greeter.SayHello"), Some(0));
    assert_eq!(t.lookup("Greeter.Ping"), Some(1));
    assert_eq!(t.lookup("Greeter"), None);
}

#[test]
fn empty_table_finds_nothing() {
    let t = MethodTable { entries: vec![] };
    assert_eq!(t.lookup("A.b"), None);
    assert_eq!(not_found(t.dispatch("A.b", b"", false, false)), "A.b");
    assert!(t.supported_methods().is_empty());
}

#[test]
fn supported_methods_are_the_paths_in_order() {
    assert_eq!(
        table().supported_methods(),
        vec!["Greeter.SayHello", "Greeter.Ping", "Greeter.SayHello"]
    );
}

fn method(name: &str, identifier: &str, request: Option<&str>, streams: (bool, bool)) -> MethodSchema {
    MethodSchema {
        name: name.to_string(),
        identifier: identifier.to_string(),
        request: request.map(|r| r.to_string()),
        response: "Reply".to_string(),
        client_streaming: streams.0,
        server_streaming: streams.1,
    }
}

fn service(methods: Vec<MethodSchema>) -> ServiceSchema {
    ServiceSchema {
        name: "Greeter".to_string(),
        package: "hello".to_string(),
        identifier: "Greeter".to_string(),
        module: "greeter".to_string(),
        methods,
    }
}

#[test]
fn table_of_a_schema_has_one_row_per_method() {
    let schema = service(vec![
        method("say_hello", "SayHello", Some("Request"), (false, false)),
        method("ping", "Ping", None, (false, false)),
    ]);
    let t = MethodTable::from_schema(&schema, &Builder { emit_package: false }).ok().unwrap();
    assert_eq!(t.supported_methods(), vec!["Greeter.SayHello", "Greeter.Ping"]);
    assert!(t.entries[0].has_request);
    assert!(!t.entries[1].has_request);
    let t = MethodTable::from_schema(&schema, &Builder { emit_package: true }).ok().unwrap();
    assert_eq!(t.supported_methods(), vec!["hello.Greeter.SayHello", "hello.Greeter.Ping"]);
}

#[test]
fn table_of_a_schema_with_a_stream_is_refused() {
    let schema = service(vec![
        method("ping", "Ping", None, (false, false)),
        method("watch", "Watch", None, (false, true)),
    ]);
    let out = MethodTable::from_schema(&schema, &Builder { emit_package: false });
    assert_eq!(out.err(), Some(GenerateError::StreamingNotSupported(1)));
}

#[test]
fn table_finds_each_method_under_its_route_key() {
    let schema = service(vec![
        method("say_hello", "SayHello", Some("Request"), (false, false)),
        method("ping", "Ping", None, (false, false)),
        method("say", "Say", Some("Request"), (false, false)),
    ]);
    for emit_package in [false, true] {
        let config = Builder { emit_package };
        let t = MethodTable::from_schema(&schema, &config).ok().unwrap();
        for (i, m) in schema.methods.iter().enumerate() {
            let key = join_path(&config, &schema.package, &schema.identifier, &m.identifier);
            assert_eq!(t.lookup(&key), Some(i));
        }
    }
}
