use grpc_client::cache::connection_cache_key;
use grpc_client::cache::pool_cache_key;
use grpc_client::cache::PerformanceCache;
use grpc_client::domain::u16_to_string;
use grpc_client::domain::Endpoint;
use grpc_client::codec::create_descriptor_pool;
use grpc_client::codec::decode_response_message;
use grpc_client::codec::descriptor_set_sources;
use grpc_client::codec::message_layouts;
use grpc_client::domain::MethodName;
use grpc_client::domain::ServiceName;
use grpc_client::errors::classify_status;
use grpc_client::errors::handle_stream_error;
use grpc_client::errors::GrpcClientError;
use grpc_client::errors::WireCode;
use grpc_client::errors::WireStatus;
use grpc_client::invoke::create_request_stream;
use grpc_client::invoke::encode_request_items;
use grpc_client::invoke::plan_call;
use grpc_client::invoke::process_response_stream;
use grpc_client::invoke::RecvMode;
use grpc_client::invoke::ResponseCollector;
use grpc_client::invoke::SendMode;
use grpc_client::metadata::validate_metadata;
use grpc_client::reflection::FileDescriptorInfo;
use grpc_client::reflection::MethodDescriptor;
use grpc_client::reflection::ReflectionClient;
use grpc_client::reflection::ServiceDescriptor;
use grpc_client::reflection::StreamingType;

use prost::Message;
use prost_types::field_descriptor_proto::Label;
use prost_types::field_descriptor_proto::Type;
use prost_types::DescriptorProto;
use prost_types::FieldDescriptorProto;
use prost_types::FileDescriptorProto;
use prost_types::MethodDescriptorProto;
use prost_types::ServiceDescriptorProto;

/// A file descriptor declaring `test.Echo { string text = 1; }` and a
/// client-streaming service method, encoded as reflection would return it.
fn echo_file_bytes() -> Vec<u8> {
    let mut field = FieldDescriptorProto::default();
    field.name = Some("text".to_string());
    field.number = Some(1);
    field.set_type(Type::String);
    field.set_label(Label::Optional);

    let mut message = DescriptorProto::default();
    message.name = Some("Echo".to_string());
    message.field.push(field);

    let mut method = MethodDescriptorProto::default();
    method.name = Some("Collect".to_string());
    method.input_type = Some(".test.Echo".to_string());
    method.output_type = Some(".test.Echo".to_string());
    method.client_streaming = Some(true);
    method.server_streaming = Some(false);

    let mut service = ServiceDescriptorProto::default();
    service.name = Some("Echoer".to_string());
    service.method.push(method);

    let mut fd = FileDescriptorProto::default();
    fd.name = Some("echo.proto".to_string());
    fd.package = Some("test".to_string());
    fd.message_type.push(message);
    fd.service.push(service);
    fd.encode_to_vec()
}

fn echo_json(text: &str) -> serde_json::Value {
    let mut map = serde_json::Map::new();
    map.insert(
        "text".to_string(),
        serde_json::Value::String(text.to_string()),
    );
    serde_json::Value::Object(map)
}

#[test]
fn test_reflection_ingest_and_resolve() {
    let bytes = echo_file_bytes();
    let mut client = ReflectionClient::new();

    let name = client.ingest_file(&bytes).unwrap();
    assert_eq!(name, "echo.proto");

    let file = client.cached_file("echo.proto").unwrap().clone();
    assert_eq!(file.package, "test");
    assert_eq!(file.services.len(), 1);

    client.record_service(&file, "test.Echoer").unwrap();
    let service = client.cached_service("test.Echoer").unwrap();
    assert_eq!(service.name.as_str(), "test.Echoer");
    assert_eq!(service.methods.len(), 1);
    let m = &service.methods[0];
    assert_eq!(m.name.as_str(), "Collect");
    assert_eq!(m.input_type, "test.Echo");
    assert_eq!(m.output_type, "test.Echo");
    assert_eq!(m.streaming_type, StreamingType::ClientStream);
}

#[test]
fn test_ingest_rejects_garbage() {
    let mut client = ReflectionClient::new();
    // A length-delimited field promising more bytes than exist cannot decode.
    let result = client.ingest_file(&vec![0x0a, 0xff, 0x01]);
    assert!(matches!(result, Err(GrpcClientError::DecodeFailure(_))));
}

#[test]
fn test_codec_round_trip() {
    let bytes = echo_file_bytes();
    let file = FileDescriptorInfo {
        name: "echo.proto".to_string(),
        package: "test".to_string(),
        services: Vec::new(),
        raw: bytes,
    };
    let pool = create_descriptor_pool(&file, &file).unwrap();
    let (input_desc, output_desc) = message_layouts(&pool, "test.Echo", "test.Echo").unwrap();

    let bufs = encode_request_items(vec![echo_json("hello")], &input_desc).unwrap();
    assert_eq!(bufs.len(), 1);
    assert!(!bufs[0].is_empty());

    let decoded = decode_response_message(&bufs[0], &output_desc).unwrap();
    assert_eq!(decoded, echo_json("hello"));

    assert!(message_layouts(&pool, "test.Echo", "test.Missing").is_err());
}

#[test]
fn test_descriptor_set_deduplication() {
    let bytes = echo_file_bytes();
    let file = FileDescriptorInfo {
        name: "echo.proto".to_string(),
        package: "test".to_string(),
        services: Vec::new(),
        raw: bytes.clone(),
    };
    let other = FileDescriptorInfo {
        name: "other.proto".to_string(),
        package: "test".to_string(),
        services: Vec::new(),
        raw: bytes,
    };
    assert_eq!(descriptor_set_sources(&file, &file).len(), 1);
    assert_eq!(descriptor_set_sources(&file, &other).len(), 2);
}

#[test]
fn test_client_stream_sends_one_message_per_element() {
    let bytes = echo_file_bytes();
    let file = FileDescriptorInfo {
        name: "echo.proto".to_string(),
        package: "test".to_string(),
        services: Vec::new(),
        raw: bytes,
    };
    let pool = create_descriptor_pool(&file, &file).unwrap();
    let (input_desc, _) = message_layouts(&pool, "test.Echo", "test.Echo").unwrap();

    let body = serde_json::Value::Array(vec![
        echo_json("a"),
        echo_json("b"),
        echo_json("c"),
        echo_json("d"),
    ]);
    let bufs = create_request_stream(body, &input_desc).unwrap();
    assert_eq!(bufs.len(), 4);

    // A lone object is a one-element batch.
    let bufs = create_request_stream(echo_json("solo"), &input_desc).unwrap();
    assert_eq!(bufs.len(), 1);

    // Anything else is rejected before the call.
    let result = create_request_stream(serde_json::Value::Bool(true), &input_desc);
    assert!(matches!(result, Err(GrpcClientError::DecodeFailure(_))));
}

#[test]
fn test_server_stream_returns_messages_in_order() {
    let msgs = vec![
        (5usize, echo_json("first")),
        (5usize, echo_json("second")),
        (5usize, echo_json("third")),
    ];
    let values = process_response_stream(msgs).unwrap();
    assert_eq!(values.len(), 3);
    assert_eq!(values[0], echo_json("first"));
    assert_eq!(values[1], echo_json("second"));
    assert_eq!(values[2], echo_json("third"));
}

#[test]
fn test_memory_guard_aborts_past_hard_threshold() {
    let big = 300 * 1024 * 1024;
    let msgs = vec![
        (big, echo_json("one")),
        (big, echo_json("two")),
        (big, echo_json("never")),
    ];
    let result = process_response_stream(msgs);
    // The abort states the cumulative count at the crossing message, and the
    // message after the crossing is never touched.
    match result {
        Err(GrpcClientError::ResourceExhausted { total_bytes }) => {
            assert_eq!(total_bytes, 2 * big);
        }
        other => panic!("expected a resource-exhausted abort, got {:?}", other),
    }

    let mut collector = ResponseCollector::new();
    collector.push_response(big, echo_json("one")).unwrap();
    let err = collector.push_response(big, echo_json("two")).unwrap_err();
    assert!(matches!(err, GrpcClientError::ResourceExhausted { .. }));
    // Nothing was recorded by the aborting push.
    assert_eq!(collector.bytes_processed(), big);
    assert_eq!(collector.into_responses().len(), 1);
}

#[test]
fn test_invalid_header_key_rejected_before_send() {
    let headers = vec![("invalid\nheader".to_string(), "value".to_string())];
    let result = validate_metadata(&headers);
    match result {
        Err(GrpcClientError::InvalidMetadata(msg)) => {
            assert!(msg.contains("Invalid header key"));
        }
        other => panic!("expected invalid metadata, got {:?}", other),
    }

    let good = vec![
        ("authorization".to_string(), "Bearer token".to_string()),
        ("x-custom".to_string(), "value".to_string()),
    ];
    assert!(validate_metadata(&good).is_ok());

    let bad_value = vec![("x-custom".to_string(), "a\nb".to_string())];
    assert!(matches!(
        validate_metadata(&bad_value),
        Err(GrpcClientError::InvalidMetadata(_))
    ));

    let empty_key = vec![(String::new(), "v".to_string())];
    assert!(validate_metadata(&empty_key).is_err());
}

fn sample_service() -> ServiceDescriptor {
    ServiceDescriptor {
        name: ServiceName::new("test.Echoer".to_string()),
        methods: vec![MethodDescriptor {
            name: MethodName::new("Collect".to_string()),
            service: ServiceName::new("test.Echoer".to_string()),
            input_type: "test.Echo".to_string(),
            output_type: "test.Echo".to_string(),
            client_streaming: true,
            server_streaming: false,
            streaming_type: StreamingType::ClientStream,
            description: None,
        }],
        description: None,
    }
}

#[test]
fn test_plan_call_shapes_and_errors() {
    let service = sample_service();

    let plan = plan_call(&service, "Collect", &Vec::new()).unwrap();
    assert_eq!(plan.path.as_str(), "/test.Echoer/Collect");
    assert_eq!(plan.method_index, 0);
    assert_eq!(plan.send_mode, SendMode::Many);
    assert_eq!(plan.recv_mode, RecvMode::One);

    // A missing method is a symbol error that names method and service.
    match plan_call(&service, "Missing", &Vec::new()) {
        Err(GrpcClientError::SymbolNotFound(msg)) => {
            assert_eq!(msg, "Method Missing not found in service test.Echoer");
        }
        other => panic!("expected a symbol-not-found error, got {:?}", other),
    }

    // Invalid metadata fails the call before anything else, even when the
    // method does not exist either.
    let bad = vec![("bad\nkey".to_string(), "v".to_string())];
    assert!(matches!(
        plan_call(&service, "Missing", &bad),
        Err(GrpcClientError::InvalidMetadata(_))
    ));
}

#[test]
fn test_performance_cache_connection() {
    let cache = PerformanceCache::new();
    let key = "localhost:9090".to_string();

    // Initially no connection cached
    assert!(cache.get_connection(&key).is_none());

    // Test that cache operations don't panic
    let result = cache.get_connection(&key);
    assert!(result.is_none());
}

#[test]
fn test_performance_cache_descriptor_pool() {
    let cache = PerformanceCache::new();
    let key = "localhost:9090:input:output".to_string();

    // Initially no descriptor pool cached
    assert!(cache.get_descriptor_pool(&key).is_none());

    // Test that cache operations don't panic
    let result = cache.get_descriptor_pool(&key);
    assert!(result.is_none());
}

#[test]
fn test_connection_cache_round_trip() {
    let runtime = tokio::runtime::Builder::new_current_thread()
        .enable_all()
        .build()
        .unwrap();
    let _guard = runtime.enter();
    let mut cache = PerformanceCache::new();
    let channel = tonic::transport::Channel::from_static("http://127.0.0.1:9090").connect_lazy();

    let mut connects: usize = 0;
    for _ in 0..2 {
        if cache.get_connection("127.0.0.1:9090").is_none() {
            connects += 1;
            cache.store_connection("127.0.0.1:9090".to_string(), channel.clone());
        }
        assert!(cache.get_connection("127.0.0.1:9090").is_some());
    }
    // The connect path ran exactly once; the second call was a cache hit.
    assert_eq!(connects, 1);

    assert_eq!(
        pool_cache_key("localhost", "test.Echo", "test.Echo"),
        "localhost:test.Echo:test.Echo"
    );
}

#[test]
fn test_cache_key_rendering() {
    assert_eq!(u16_to_string(0), "0");
    assert_eq!(u16_to_string(80), "80");
    assert_eq!(u16_to_string(65535), "65535");

    let endpoint = Endpoint::parse("localhost:9090").unwrap();
    assert_eq!(connection_cache_key(&endpoint), "localhost:9090");
}

#[test]
fn test_stream_error_handling() {
    let status_error = tonic::Status::unavailable("service down");
    let (ws, handled) = classify_status(&status_error, "Test operation");
    assert_eq!(ws.code, WireCode::Unavailable);
    assert!(handled.contains("Server unavailable"));

    let timeout_error = tonic::Status::deadline_exceeded("timeout");
    let (_, handled) = classify_status(&timeout_error, "Test operation");
    assert!(handled.contains("Request timed out"));

    let auth_error = tonic::Status::unauthenticated("no token");
    let (_, handled) = classify_status(&auth_error, "Test operation");
    assert!(handled.contains("Authentication required"));

    let not_found_error = tonic::Status::not_found("missing");
    let (_, handled) = classify_status(&not_found_error, "Test operation");
    assert!(handled.contains("Service or method not found"));

    let generic_error = tonic::Status::internal("Something went wrong");
    let (ws, handled) = classify_status(&generic_error, "Test operation");
    assert_eq!(ws.code, WireCode::Other);
    assert!(handled.contains("Test operation failed"));
    assert_eq!(ws.message, "Something went wrong");
}

#[test]
fn test_wire_status_messages_name_condition() {
    let unavailable = WireStatus {
        code: WireCode::Unavailable,
        code_text: "unavailable".to_string(),
        message: "down".to_string(),
    };
    let msg = handle_stream_error(&unavailable, "Call");
    assert!(msg.contains("unavailable"));
    assert!(msg.contains("running"));

    let deadline = WireStatus {
        code: WireCode::DeadlineExceeded,
        code_text: "deadline".to_string(),
        message: "late".to_string(),
    };
    let msg = handle_stream_error(&deadline, "Call");
    assert!(msg.contains("timed out"));
}
