use lucat::codegen::service::{is_google_type, resolve_message_type, service_full_name};
use lucat::codegen::{configure, match_name, method_path, naive_snake_case, Attributes};

#[test]
fn method_paths_follow_package_service_method() {
    assert_eq!(
        method_path("helloworld", "Greeter", "SayHello"),
        "/helloworld.Greeter/SayHello"
    );
    assert_eq!(method_path("echo", "Echo", "SayEcho"), "/echo.Echo/SayEcho");
    assert_eq!(method_path("", "Greeter", "SayHello"), "/Greeter/SayHello");
}

#[test]
fn service_full_names_join_with_a_dot() {
    assert_eq!(service_full_name("helloworld", "Greeter"), "helloworld.Greeter");
    assert_eq!(service_full_name("", "Greeter"), "Greeter");
}

#[test]
fn snake_case_lowers_and_separates() {
    assert_eq!(naive_snake_case("Greeter"), "greeter");
    assert_eq!(naive_snake_case("SayHello"), "say_hello");
    assert_eq!(naive_snake_case("HTTPServer"), "h_t_t_p_server");
    assert_eq!(naive_snake_case("already_snake"), "already_snake");
    assert_eq!(naive_snake_case(""), "");
}

#[test]
fn name_matching_follows_segment_rules() {
    assert!(!match_name("", "any.path"));
    assert!(match_name(".", "any.path"));
    assert!(match_name("a.b", "a.b"));
    // Anchored patterns lead the path.
    assert!(match_name(".a", ".a.b"));
    assert!(!match_name(".a", ".ab"));
    assert!(!match_name(".c", ".a.b"));
    // Unanchored patterns close the path at a segment edge.
    assert!(match_name("b.c", "a.b.c"));
    assert!(!match_name("b.c", "ab.c"));
    assert!(match_name("c", "a.b.c"));
    assert!(!match_name("x", "a.b.c"));
}

#[test]
fn attributes_are_matched_in_order() {
    let mut attrs = Attributes::default();
    attrs.push_mod("echo", "#[allow(dead_code)]");
    attrs.push_mod("other", "#[deny(missing_docs)]");
    attrs.push_struct("echo.Echo", "#[derive(Default)]");
    assert_eq!(attrs.for_mod("echo"), vec!["#[allow(dead_code)]"]);
    assert!(attrs.for_mod("nothing").is_empty());
    assert_eq!(attrs.for_struct("echo.Echo"), vec!["#[derive(Default)]"]);
    assert!(attrs.for_struct("echo.Other").is_empty());
}

#[test]
fn well_known_types_resolve_verbatim() {
    assert!(is_google_type(".google.protobuf.Empty"));
    assert!(!is_google_type(".echo.EchoRequest"));
    assert_eq!(
        resolve_message_type("super", "::pbjson_types::Empty", ".google.protobuf.Empty", false),
        "::pbjson_types::Empty"
    );
    assert_eq!(
        resolve_message_type("super", "Empty", ".google.protobuf.Empty", true),
        "super::Empty"
    );
    assert_eq!(
        resolve_message_type("super", "crate::EchoRequest", ".echo.EchoRequest", false),
        "crate::EchoRequest"
    );
    assert_eq!(
        resolve_message_type("super", "EchoRequest", ".echo.EchoRequest", false),
        "super::EchoRequest"
    );
}

#[test]
fn configure_starts_from_the_documented_defaults() {
    let b = configure();
    assert!(b.build_client);
    assert!(b.build_server);
    assert!(b.file_descriptor_set_path.is_none());
    assert!(b.extern_path.is_empty());
    assert!(b.field_attributes.is_empty());
    assert!(b.type_attributes.is_empty());
    assert_eq!(b.proto_path, "super");
    assert!(b.emit_package);
    assert!(!b.compile_well_known_types);
    assert!(b.protoc_args.is_empty());
    assert!(b.out_dir.is_none());
    assert!(b.format);
}

#[test]
fn builder_setters_record_their_settings() {
    let b = configure()
        .build_client(false)
        .build_server(true)
        .out_dir("/tmp/out")
        .file_descriptor_set_path("/tmp/fds.bin")
        .proto_path("crate::pb")
        .extern_path(".google.protobuf", "::pbjson_types")
        .field_attribute("EchoRequest.data", "#[serde(default)]")
        .type_attribute("EchoRequest", "#[derive(Hash)]")
        .server_mod_attribute("echo", "#[allow(unused)]")
        .server_attribute("echo.Echo", "#[derive(Clone)]")
        .client_mod_attribute("echo", "#[allow(unused)]")
        .client_attribute("echo.Echo", "#[derive(Clone)]")
        .protoc_arg("--experimental_allow_proto3_optional")
        .disable_package_emission()
        .compile_well_known_types(true)
        .format(false);
    assert!(!b.build_client);
    assert!(b.build_server);
    assert_eq!(b.out_dir.as_deref(), Some("/tmp/out"));
    assert_eq!(b.file_descriptor_set_path.as_deref(), Some("/tmp/fds.bin"));
    assert_eq!(b.proto_path, "crate::pb");
    assert_eq!(
        b.extern_path,
        vec![(".google.protobuf".to_string(), "::pbjson_types".to_string())]
    );
    assert_eq!(b.protoc_args, vec!["--experimental_allow_proto3_optional".to_string()]);
    assert!(!b.emit_package);
    assert!(b.compile_well_known_types);
    assert!(!b.format);
    assert_eq!(b.server_attributes.for_mod("echo"), vec!["#[allow(unused)]"]);
    assert_eq!(b.server_attributes.for_struct("echo.Echo"), vec!["#[derive(Clone)]"]);
    assert_eq!(b.client_attributes.for_mod("echo"), vec!["#[allow(unused)]"]);
    assert_eq!(b.client_attributes.for_struct("echo.Echo"), vec!["#[derive(Clone)]"]);
}
