use grpc_client::domain::MethodName;
use grpc_client::domain::ServiceName;
use grpc_client::reflection::MethodDescriptor;
use grpc_client::reflection::ServiceDescriptor;
use grpc_client::reflection::StreamingType;
use grpc_client::server::config::GrpcServerConfig;
use grpc_client::server::config::ServerConfig;
use grpc_client::server::handlers::method_info_from;
use grpc_client::server::handlers::service_info_from;
use grpc_client::server::manager::method_cache_key;
use grpc_client::server::manager::service_cache_key;
use grpc_client::server::state::get_connection_status;

#[test]
fn test_config_default() {
    let config = ServerConfig::default();
    assert!(config.get_server("local").is_some());
    assert!(config.get_server("reflection-demo").is_some());
}

#[test]
fn test_get_server_and_ids() {
    let config = ServerConfig {
        servers: vec![(
            "test".to_string(),
            GrpcServerConfig {
                name: "Test Server".to_string(),
                endpoint: "localhost:9090".to_string(),
                plaintext: true,
                ca_cert: None,
                headers: Vec::new(),
                description: Some("Test server".to_string()),
            },
        )],
    };

    assert_eq!(config.server_ids(), vec!["test".to_string()]);
    let server = config.get_server("test").unwrap();
    assert_eq!(server.endpoint, "localhost:9090");
    assert!(config.get_server("missing").is_none());
}

#[test]
fn test_connection_status() {
    let config = ServerConfig::default();
    let statuses = get_connection_status(&config, &vec!["local".to_string()]);

    assert_eq!(statuses.len(), 2);
    assert_eq!(statuses[0].id, "local");
    assert_eq!(statuses[0].name, "Local gRPC Server");
    assert!(statuses[0].connected);
    assert_eq!(statuses[1].id, "reflection-demo");
    assert!(!statuses[1].connected);
}

#[test]
fn test_cache_keys() {
    assert_eq!(service_cache_key("srv1"), "services:srv1");
    assert_eq!(method_cache_key("srv1", "pkg.Service"), "methods:srv1:pkg.Service");
}

#[test]
fn test_method_and_service_info() {
    let method = MethodDescriptor {
        name: MethodName::new("Chat".to_string()),
        service: ServiceName::new("pkg.Chatter".to_string()),
        input_type: "pkg.Message".to_string(),
        output_type: "pkg.Message".to_string(),
        client_streaming: true,
        server_streaming: true,
        streaming_type: StreamingType::BiDirectional,
        description: None,
    };
    let info = method_info_from(&method);
    assert_eq!(info.name, "Chat");
    assert_eq!(info.streaming_type, "bidirectional");
    assert!(info.client_streaming);
    assert!(info.server_streaming);

    let service = ServiceDescriptor {
        name: ServiceName::new("pkg.Chatter".to_string()),
        methods: vec![method],
        description: Some("chat".to_string()),
    };
    let sinfo = service_info_from(&service);
    assert_eq!(sinfo.name, "pkg.Chatter");
    assert_eq!(sinfo.description.as_deref(), Some("chat"));
    assert_eq!(sinfo.methods.len(), 1);
    assert_eq!(sinfo.methods[0].input_type, "pkg.Message");
}
