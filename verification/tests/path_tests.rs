use prpc::path::{join_path, service_segment};
use prpc::schema::Builder;
use prpc::text::string_literal;

#[test]
fn join_path_without_package() {
    let config = Builder { emit_package: false };
    assert_eq!(join_path(&config, "pkg", "Greeter", "SayHello"), "Greeter.SayHello");
    assert_eq!(join_path(&config, "", "Greeter", "SayHello"), "Greeter.SayHello");
}

#[test]
fn join_path_with_package() {
    let config = Builder { emit_package: true };
    assert_eq!(join_path(&config, "pkg.v1", "Greeter", "SayHello"), "pkg.v1.Greeter.SayHello");
}

#[test]
fn join_path_with_empty_package_has_no_leading_delimiter() {
    let config = Builder { emit_package: true };
    assert_eq!(join_path(&config, "", "Greeter", "SayHello"), "Greeter.SayHello");
}

#[test]
fn join_path_is_deterministic() {
    let config = Builder { emit_package: false };
    assert_eq!(join_path(&config, "p", "S", "M"), join_path(&config, "p", "S", "M"));
}

#[test]
fn join_path_tells_methods_apart() {
    let config = Builder { emit_package: true };
    let methods = ["Get", "Put", "GetAll", "get"];
    for (i, a) in methods.iter().enumerate() {
        for (j, b) in methods.iter().enumerate() {
            let same = join_path(&config, "p", "S", a) == join_path(&config, "p", "S", b);
            assert_eq!(same, i == j);
        }
    }
}

#[test]
fn join_path_of_empty_identifiers() {
    let config = Builder { emit_package: false };
    assert_eq!(join_path(&config, "", "", ""), ".");
}

#[test]
fn service_segment_is_what_precedes_the_first_delimiter() {
    assert_eq!(service_segment("B.Method1"), "B");
    assert_eq!(service_segment("pkg.Service.Method"), "pkg");
}

#[test]
fn service_segment_of_a_path_without_delimiter_is_the_path() {
    assert_eq!(service_segment("Greeter"), "Greeter");
    assert_eq!(service_segment(""), "");
}

#[test]
fn service_segment_of_a_leading_delimiter_is_empty() {
    assert_eq!(service_segment(".Method"), "");
    assert_eq!(service_segment("."), "");
}

#[test]
fn service_segment_keeps_characters_beyond_ascii() {
    assert_eq!(service_segment("Grüße.Hallo"), "Grüße");
}

#[test]
fn service_segment_of_a_route_key_is_the_service() {
    let config = Builder { emit_package: false };
    let key = join_path(&config, "pkg", "Greeter", "SayHello");
    assert_eq!(service_segment(&key), "Greeter");
}

#[test]
fn string_literal_of_plain_text() {
    assert_eq!(string_literal("Greeter.SayHello"), "\"Greeter.SayHello\"");
    assert_eq!(string_literal(""), "\"\"");
}

#[test]
fn string_literal_escapes_quotes_and_backslashes() {
    assert_eq!(string_literal("a\"b"), "\"a\\\"b\"");
    assert_eq!(string_literal("a\\b"), "\"a\\\\b\"");
}

#[test]
fn string_literal_escapes_line_breaks_and_tabs() {
    assert_eq!(string_literal("a\nb\rc\td"), "\"a\\nb\\rc\\td\"");
}

#[test]
fn string_literal_reads_back_as_its_value() {
    let values = ["Greeter.SayHello", "a\"b\\c", "line\nbreak\ttab\r", "ünï.cödé", ""];
    for value in values {
        let literal = string_literal(value);
        let parsed: syn::LitStr = syn::parse_str(&literal).unwrap();
        assert_eq!(parsed.value(), value);
    }
}
