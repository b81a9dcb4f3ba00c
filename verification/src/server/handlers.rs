//! The API response shapes of the web front-end, and the verified
//! conversions from resolved descriptors into them. The HTTP handlers
//! themselves live outside and only reshape what these functions return.

use vstd::prelude::*;
use vstd::string::StringExecFns;

use crate::reflection::MethodDescriptor;
use crate::reflection::ServiceDescriptor;
use crate::reflection::StreamingType;

verus! {

/// An API error: a code identifier and optional detail.
#[derive(Debug, Clone)]
pub struct ErrorResponse {
    /// Error code identifier.
    pub error: String,
    /// Additional error details.
    pub details: Option<String>,
}

/// A request to invoke a gRPC method.
#[derive(Debug)]
pub struct CallRequest {
    /// Full method reference (`package.service/method`).
    pub method: String,
    /// JSON request data.
    pub data: serde_json::Value,
    /// Custom headers for the call.
    pub headers: Vec<(String, String)>,
    /// Whether to emit default values in the response.
    pub emit_defaults: bool,
}

/// The response of an invoked gRPC method.
#[derive(Debug)]
pub struct CallResponse {
    /// Whether the call succeeded.
    pub success: bool,
    /// The decoded responses, in arrival order.
    pub response: Vec<serde_json::Value>,
    /// The error message when the call failed.
    pub error: Option<String>,
}

/// Service information for API responses.
#[derive(Debug, Clone)]
pub struct ServiceInfo {
    pub name: String,
    pub description: Option<String>,
    pub methods: Vec<MethodInfo>,
}

/// Method information for API responses.
#[derive(Debug, Clone)]
pub struct MethodInfo {
    pub name: String,
    pub input_type: String,
    pub output_type: String,
    pub client_streaming: bool,
    pub server_streaming: bool,
    pub streaming_type: String,
    pub description: Option<String>,
}

/// The label of a call shape in API responses.
pub open spec fn spec_streaming_label(shape: StreamingType) -> Seq<char> {
    match shape {
        StreamingType::Unary => "unary"@,
        StreamingType::ServerStream => "server_streaming"@,
        StreamingType::ClientStream => "client_streaming"@,
        StreamingType::BiDirectional => "bidirectional"@,
    }
}

/// Renders a call shape as its API label.
pub fn streaming_type_label(shape: &StreamingType) -> (r: String)
    ensures
        r@ == spec_streaming_label(*shape),
{
    match shape {
        StreamingType::Unary => String::from_str("unary"),
        StreamingType::ServerStream => String::from_str("server_streaming"),
        StreamingType::ClientStream => String::from_str("client_streaming"),
        StreamingType::BiDirectional => String::from_str("bidirectional"),
    }
}

/// What a method-info rendering owes to its descriptor.
pub open spec fn spec_method_info_of(m: MethodDescriptor, r: MethodInfo) -> bool {
    &&& r.name@ == m.name@
    &&& r.input_type@ == m.input_type@
    &&& r.output_type@ == m.output_type@
    &&& r.client_streaming == m.client_streaming
    &&& r.server_streaming == m.server_streaming
    &&& r.streaming_type@ == spec_streaming_label(m.streaming_type)
    &&& r.description == m.description
}

/// Renders one resolved method for an API response.
pub fn method_info_from(m: &MethodDescriptor) -> (r: MethodInfo)
    ensures
        spec_method_info_of(*m, r),
{
    let description = match &m.description {
        Some(d) => Some(d.clone()),
        None => None,
    };
    MethodInfo {
        name: String::from_str(m.name.as_str()),
        input_type: m.input_type.clone(),
        output_type: m.output_type.clone(),
        client_streaming: m.client_streaming,
        server_streaming: m.server_streaming,
        streaming_type: streaming_type_label(&m.streaming_type),
        description,
    }
}

/// Renders one resolved service for an API response, its methods in order.
pub fn service_info_from(s: &ServiceDescriptor) -> (r: ServiceInfo)
    ensures
        r.name@ == s.name@,
        r.description == s.description,
        r.methods.len() == s.methods.len(),
        forall|i: int|
            0 <= i < s.methods.len() ==> spec_method_info_of(
                s.methods@[i],
                #[trigger] r.methods@[i],
            ),
{
    let n = s.methods.len();
    let mut methods: Vec<MethodInfo> = Vec::new();
    let mut i: usize = 0;
    while i < n
        invariant
            0 <= i <= n,
            n == s.methods.len(),
            methods.len() == i,
            forall|j: int|
                0 <= j < i ==> spec_method_info_of(s.methods@[j], #[trigger] methods@[j]),
        decreases n - i,
    {
        methods.push(method_info_from(&s.methods[i]));
        i += 1;
    }
    let description = match &s.description {
        Some(d) => Some(d.clone()),
        None => None,
    };
    ServiceInfo { name: String::from_str(s.name.as_str()), description, methods }
}

} // verus!
