use grpc_client::domain::MethodName;
use grpc_client::domain::ServiceName;
use grpc_client::reflection::find_method;
use grpc_client::reflection::streaming_shape;
use grpc_client::reflection::symbol_candidates;
use grpc_client::reflection::FieldDescriptor;
use grpc_client::reflection::FileDescriptorInfo;
use grpc_client::reflection::MethodDescriptor;
use grpc_client::reflection::MethodProto;
use grpc_client::reflection::ReflectionClient;
use grpc_client::reflection::ServiceDescriptor;
use grpc_client::reflection::ServiceProto;
use grpc_client::reflection::StreamingType;
use grpc_client::reflection::Symbol;

#[test]
fn test_descriptor_types() {
    let service = ServiceDescriptor {
        name: ServiceName::new("TestService".to_string()),
        methods: Vec::new(),
        description: Some("Test service".to_string()),
    };

    assert_eq!(service.name.as_str(), "TestService");
    assert_eq!(service.description, Some("Test service".to_string()));
}

#[test]
fn test_method_descriptor() {
    let method = MethodDescriptor {
        name: MethodName::new("GetUser".to_string()),
        service: ServiceName::new("UserService".to_string()),
        input_type: "GetUserRequest".to_string(),
        output_type: "GetUserResponse".to_string(),
        client_streaming: false,
        server_streaming: false,
        streaming_type: StreamingType::Unary,
        description: None,
    };

    assert_eq!(method.name.as_str(), "GetUser");
    assert_eq!(method.service.as_str(), "UserService");
    assert!(!method.client_streaming);
    assert!(!method.server_streaming);
    assert_eq!(method.streaming_type, StreamingType::Unary);
}

#[test]
fn test_streaming_type_detection() {
    // Test unary
    let unary_method = MethodDescriptor {
        name: MethodName::new("GetUser".to_string()),
        service: ServiceName::new("UserService".to_string()),
        input_type: "GetUserRequest".to_string(),
        output_type: "GetUserResponse".to_string(),
        client_streaming: false,
        server_streaming: false,
        streaming_type: StreamingType::Unary,
        description: None,
    };
    assert_eq!(unary_method.streaming_type, StreamingType::Unary);

    // Test server streaming
    let server_stream_method = MethodDescriptor {
        name: MethodName::new("ListUsers".to_string()),
        service: ServiceName::new("UserService".to_string()),
        input_type: "ListUsersRequest".to_string(),
        output_type: "ListUsersResponse".to_string(),
        client_streaming: false,
        server_streaming: true,
        streaming_type: StreamingType::ServerStream,
        description: None,
    };
    assert_eq!(
        server_stream_method.streaming_type,
        StreamingType::ServerStream
    );

    // Test client streaming
    let client_stream_method = MethodDescriptor {
        name: MethodName::new("CreateUsers".to_string()),
        service: ServiceName::new("UserService".to_string()),
        input_type: "CreateUserRequest".to_string(),
        output_type: "CreateUsersResponse".to_string(),
        client_streaming: true,
        server_streaming: false,
        streaming_type: StreamingType::ClientStream,
        description: None,
    };
    assert_eq!(
        client_stream_method.streaming_type,
        StreamingType::ClientStream
    );

    // Test bidirectional streaming
    let bidirectional_method = MethodDescriptor {
        name: MethodName::new("ChatUsers".to_string()),
        service: ServiceName::new("UserService".to_string()),
        input_type: "ChatMessage".to_string(),
        output_type: "ChatMessage".to_string(),
        client_streaming: true,
        server_streaming: true,
        streaming_type: StreamingType::BiDirectional,
        description: None,
    };
    assert_eq!(
        bidirectional_method.streaming_type,
        StreamingType::BiDirectional
    );
}

#[test]
fn test_field_descriptor() {
    let field = FieldDescriptor {
        name: "user_id".to_string(),
        field_type: "string".to_string(),
        number: 1,
        optional: false,
        repeated: false,
    };

    assert_eq!(field.name, "user_id");
    assert_eq!(field.field_type, "string");
    assert_eq!(field.number, 1);
    assert!(!field.optional);
    assert!(!field.repeated);
}

#[test]
fn test_symbol_enum() {
    let service = ServiceDescriptor {
        name: ServiceName::new("TestService".to_string()),
        methods: Vec::new(),
        description: None,
    };

    let symbol = Symbol::Service(service);

    match symbol {
        Symbol::Service(s) => assert_eq!(s.name.as_str(), "TestService"),
        _ => panic!("Expected Service symbol"),
    }
}

#[test]
fn test_type_name_resolution() {
    let client = ReflectionClient::new();

    assert_eq!(
        client.resolve_type_name(".package.Message", "package"),
        "package.Message"
    );
    assert_eq!(client.resolve_type_name("Message", "package"), "Message");
    assert_eq!(
        client.resolve_type_name(".google.protobuf.Empty", ""),
        "google.protobuf.Empty"
    );
}

#[test]
fn test_symbol_resolution_parsing() {
    // Test service.method parsing logic
    let service_method = "UserService.GetUser";
    if let Some(dot_pos) = service_method.rfind('.') {
        let service_part = &service_method[..dot_pos];
        let method_part = &service_method[dot_pos + 1..];
        assert_eq!(service_part, "UserService");
        assert_eq!(method_part, "GetUser");
    } else {
        panic!("Expected to find dot in service.method");
    }

    // Test service/method parsing logic
    let service_method = "UserService/GetUser";
    if let Some(slash_pos) = service_method.rfind('/') {
        let service_part = &service_method[..slash_pos];
        let method_part = &service_method[slash_pos + 1..];
        assert_eq!(service_part, "UserService");
        assert_eq!(method_part, "GetUser");
    } else {
        panic!("Expected to find slash in service/method");
    }

    // Test fully qualified service.method parsing
    let fully_qualified = "com.example.UserService.GetUser";
    if let Some(dot_pos) = fully_qualified.rfind('.') {
        let service_part = &fully_qualified[..dot_pos];
        let method_part = &fully_qualified[dot_pos + 1..];
        assert_eq!(service_part, "com.example.UserService");
        assert_eq!(method_part, "GetUser");
    } else {
        panic!("Expected to find dot in fully qualified name");
    }
}

#[test]
fn test_streaming_shape_table() {
    assert_eq!(streaming_shape(false, false), StreamingType::Unary);
    assert_eq!(streaming_shape(false, true), StreamingType::ServerStream);
    assert_eq!(streaming_shape(true, false), StreamingType::ClientStream);
    assert_eq!(streaming_shape(true, true), StreamingType::BiDirectional);
}

fn sample_file() -> FileDescriptorInfo {
    FileDescriptorInfo {
        name: "user.proto".to_string(),
        package: "com.example".to_string(),
        services: vec![ServiceProto {
            name: "UserService".to_string(),
            methods: vec![
                MethodProto {
                    name: "GetUser".to_string(),
                    input_type: ".com.example.GetUserRequest".to_string(),
                    output_type: ".com.example.GetUserResponse".to_string(),
                    client_streaming: false,
                    server_streaming: false,
                },
                MethodProto {
                    name: "ListUsers".to_string(),
                    input_type: ".com.example.ListUsersRequest".to_string(),
                    output_type: ".com.example.User".to_string(),
                    client_streaming: false,
                    server_streaming: true,
                },
            ],
        }],
        raw: Vec::new(),
    }
}

#[test]
fn test_parse_service_from_file() {
    let client = ReflectionClient::new();
    let file = sample_file();

    let descriptor = client
        .parse_service_from_file(&file, "com.example.UserService")
        .unwrap();
    assert_eq!(descriptor.name.as_str(), "com.example.UserService");
    assert_eq!(descriptor.methods.len(), 2);

    let get_user = &descriptor.methods[0];
    assert_eq!(get_user.name.as_str(), "GetUser");
    assert_eq!(get_user.service.as_str(), "com.example.UserService");
    assert_eq!(get_user.input_type, "com.example.GetUserRequest");
    assert_eq!(get_user.output_type, "com.example.GetUserResponse");
    assert_eq!(get_user.streaming_type, StreamingType::Unary);

    let list_users = &descriptor.methods[1];
    assert_eq!(list_users.streaming_type, StreamingType::ServerStream);

    // The bare service name resolves too, under its fully qualified name.
    let descriptor = client.parse_service_from_file(&file, "UserService").unwrap();
    assert_eq!(descriptor.name.as_str(), "com.example.UserService");

    // A missing service is a symbol-not-found error naming the string.
    match client.parse_service_from_file(&file, "Missing") {
        Err(grpc_client::errors::GrpcClientError::SymbolNotFound(msg)) => {
            assert!(msg.contains("Missing"));
        }
        other => panic!("expected a symbol-not-found error, got {:?}", other),
    }
}

#[test]
fn test_service_cache_round_trip() {
    let mut client = ReflectionClient::new();
    let file = sample_file();

    assert!(client.cached_service("com.example.UserService").is_none());
    client
        .record_service(&file, "com.example.UserService")
        .unwrap();

    let cached = client.cached_service("com.example.UserService").unwrap();
    assert_eq!(cached.name.as_str(), "com.example.UserService");
    assert_eq!(cached.methods.len(), 2);

    client.clear_cache();
    assert!(client.cached_service("com.example.UserService").is_none());
}

#[test]
fn test_symbol_candidates_order() {
    let candidates = symbol_candidates("com.example.UserService/GetUser");
    assert_eq!(candidates.len(), 3);
    assert_eq!(candidates[0].service, "com.example.UserService/GetUser");
    assert!(candidates[0].method.is_none());
    assert_eq!(candidates[1].service, "com.example");
    assert_eq!(candidates[1].method.as_deref(), Some("UserService/GetUser"));
    assert_eq!(candidates[2].service, "com.example.UserService");
    assert_eq!(candidates[2].method.as_deref(), Some("GetUser"));

    let candidates = symbol_candidates("PlainService");
    assert_eq!(candidates.len(), 1);
    assert_eq!(candidates[0].service, "PlainService");
    assert!(candidates[0].method.is_none());
}

#[test]
fn test_find_method() {
    let client = ReflectionClient::new();
    let file = sample_file();
    let descriptor = client
        .parse_service_from_file(&file, "com.example.UserService")
        .unwrap();

    let m = find_method(&descriptor, "ListUsers").unwrap();
    assert_eq!(m.name.as_str(), "ListUsers");
    assert!(find_method(&descriptor, "Nope").is_none());
}
