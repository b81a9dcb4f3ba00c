use grpc_client::client::GrpcClient;
use grpc_client::errors::GrpcClientError;
use grpc_client::invoke::create_method_path;
use grpc_client::invoke::monitor_stream_memory_usage;
use grpc_client::invoke::parse_method;
use grpc_client::server::config::GrpcServerConfig;

#[test]
fn test_rfind_behavior() {
    let test_string = "test.Service.GetUser";
    if let Some(pos) = test_string.rfind('.') {
        let service = &test_string[..pos];
        let method = &test_string[pos + 1..];
        println!("rfind test: service='{}', method='{}'", service, method);
        assert_eq!(service, "test.Service");
        assert_eq!(method, "GetUser");
    } else {
        panic!("rfind should find a dot");
    }
}

#[test]
fn test_parse_method() {
    // Test fully qualified service.method format
    let (service, method) = parse_method("test.Service.GetUser").unwrap();
    assert_eq!(service, "test.Service");
    assert_eq!(method, "GetUser");

    let (service, method) = parse_method("test.Service/GetUser").unwrap();
    assert_eq!(service, "test.Service");
    assert_eq!(method, "GetUser");

    // Test simple service.method format
    let (service, method) = parse_method("UserService.GetUser").unwrap();
    assert_eq!(service, "UserService");
    assert_eq!(method, "GetUser");

    assert!(parse_method("InvalidMethod").is_err());
}

#[test]
fn test_parse_method_edge_cases() {
    // Test multiple dots - should use the last one
    let (service, method) = parse_method("com.example.Service.GetUser").unwrap();
    assert_eq!(service, "com.example.Service");
    assert_eq!(method, "GetUser");

    // Test multiple slashes - should use the last one
    let (service, method) = parse_method("com/example/Service/GetUser").unwrap();
    assert_eq!(service, "com/example/Service");
    assert_eq!(method, "GetUser");

    // Test edge cases with empty parts - these actually succeed due to rfind behavior
    let (service, method) = parse_method(".GetUser").unwrap();
    assert_eq!(service, "");
    assert_eq!(method, "GetUser");

    let (service, method) = parse_method("Service.").unwrap();
    assert_eq!(service, "Service");
    assert_eq!(method, "");

    let (service, method) = parse_method("/GetUser").unwrap();
    assert_eq!(service, "");
    assert_eq!(method, "GetUser");

    let (service, method) = parse_method("Service/").unwrap();
    assert_eq!(service, "Service");
    assert_eq!(method, "");
}

#[test]
fn test_parse_method_rejects_plain_name_with_invalid_reference() {
    let err = parse_method("InvalidMethod").unwrap_err();
    assert!(matches!(err, GrpcClientError::InvalidReference(_)));
    if let GrpcClientError::InvalidReference(msg) = err {
        assert!(msg.contains("Invalid method format: InvalidMethod"));
    }
}

#[test]
fn test_create_method_path() {
    let path = create_method_path("UserService", "GetUser");
    assert_eq!(path.as_str(), "/UserService/GetUser");

    let path = create_method_path("com.example.Service", "ListUsers");
    assert_eq!(path.as_str(), "/com.example.Service/ListUsers");
}

#[test]
fn test_memory_monitoring() {
    // Normal memory usage passes
    let result = monitor_stream_memory_usage(1024, true);
    assert!(result.is_ok());

    // The warning threshold still passes
    let result = monitor_stream_memory_usage(150 * 1024 * 1024, true);
    assert!(result.is_ok());

    // The error threshold fails
    let result = monitor_stream_memory_usage(600 * 1024 * 1024, true);
    assert!(result.is_err());
    assert!(matches!(
        result.unwrap_err(),
        GrpcClientError::ResourceExhausted { .. }
    ));
}

#[test]
fn test_grpc_client_from_config() {
    let config = GrpcServerConfig {
        name: "Test Server".to_string(),
        endpoint: "localhost:9090".to_string(),
        plaintext: true,
        ca_cert: None,
        headers: Vec::new(),
        description: Some("Test server".to_string()),
    };

    let client = GrpcClient::from_config(&config);
    assert!(client.is_ok());

    let client = client.unwrap();
    assert_eq!(client.endpoint.host, "localhost");
    assert_eq!(client.endpoint.port, 9090);
    assert!(client.plaintext);
}

#[test]
fn test_grpc_client_with_headers() {
    let headers = vec![
        ("authorization".to_string(), "Bearer token123".to_string()),
        ("x-api-key".to_string(), "api-key-456".to_string()),
    ];

    let config = GrpcServerConfig {
        name: "Test Server".to_string(),
        endpoint: "localhost:9090".to_string(),
        plaintext: true,
        ca_cert: None,
        headers,
        description: None,
    };

    let client = GrpcClient::from_config(&config);
    assert!(client.is_ok());

    let client = client.unwrap();
    assert_eq!(client.headers.len(), 2);
    assert!(client
        .headers
        .contains(&("authorization".to_string(), "Bearer token123".to_string())));
    assert!(client
        .headers
        .contains(&("x-api-key".to_string(), "api-key-456".to_string())));
}
