//! The dynamic codec: descriptor-pool assembly out of raw file-descriptor
//! bytes, and JSON-to-wire conversion through descriptor-driven dynamic
//! messages. The outside calls stand behind small trusted wrappers; the
//! assembly decisions around them are verified.

use vstd::prelude::*;
use vstd::string::StringExecFns;

use prost_reflect::MessageDescriptor as PoolMessageDescriptor;

use crate::errors::GrpcClientError;
use crate::reflection::FileDescriptorInfo;
use crate::strutil::str_eq;

verus! {

#[verifier::external_type_specification]
#[verifier::external_body]
pub struct ExValue(serde_json::Value);

#[verifier::external_type_specification]
#[verifier::external_body]
pub struct ExDescriptorPool(prost_reflect::DescriptorPool);

#[verifier::external_type_specification]
#[verifier::external_body]
pub struct ExMessageDescriptor(PoolMessageDescriptor);

#[verifier::external_type_specification]
#[verifier::external_body]
pub struct ExDynamicMessage(prost_reflect::DynamicMessage);

#[verifier::external_type_specification]
#[verifier::external_body]
pub struct ExFileDescriptorProto(prost_types::FileDescriptorProto);

#[verifier::external_type_specification]
#[verifier::external_body]
pub struct ExServiceDescriptorProto(prost_types::ServiceDescriptorProto);

#[verifier::external_type_specification]
#[verifier::external_body]
pub struct ExMethodDescriptorProto(prost_types::MethodDescriptorProto);

/// Whether prost parses these bytes as a file descriptor; parsing is a
/// function of the bytes alone.
pub uninterp spec fn file_decodes(bytes: Seq<u8>) -> bool;

/// Whether a descriptor pool assembles from these raw file-descriptor
/// sources, in order: every buffer parses as a file descriptor and the
/// decoded set merges into one registry without incompatible redefinitions;
/// a function of the byte sources alone.
pub uninterp spec fn pool_assembles(sources: Seq<Seq<u8>>) -> bool;

/// The fully qualified message names an assembled pool can look up.
pub uninterp spec fn pool_types(pool: prost_reflect::DescriptorPool) -> Set<Seq<char>>;

/// Relies on prost-types' `name` accessor of a file descriptor, which
/// substitutes the proto3 default (the empty string) for an absent field.
#[verifier::external_body]
pub(crate) fn file_proto_name(fd: &prost_types::FileDescriptorProto) -> (r: String) {
    fd.name().to_string()
}

/// Relies on prost-types' `package` accessor of a file descriptor, which
/// substitutes the proto3 default (the empty string) for an absent field.
#[verifier::external_body]
pub(crate) fn file_proto_package(fd: &prost_types::FileDescriptorProto) -> (r: String) {
    fd.package().to_string()
}

/// Relies on the `service` list field of a prost-types file descriptor: the
/// services the file declares, in declaration order.
#[verifier::external_body]
pub(crate) fn file_proto_services(fd: &prost_types::FileDescriptorProto) -> (r: &Vec<
    prost_types::ServiceDescriptorProto,
>) {
    &fd.service
}

/// Relies on prost-types' `name` accessor of a service declaration.
#[verifier::external_body]
pub(crate) fn service_proto_name(s: &prost_types::ServiceDescriptorProto) -> (r: String) {
    s.name().to_string()
}

/// Relies on the `method` list field of a prost-types service declaration:
/// its methods, in declaration order.
#[verifier::external_body]
pub(crate) fn service_proto_methods(s: &prost_types::ServiceDescriptorProto) -> (r: &Vec<
    prost_types::MethodDescriptorProto,
>) {
    &s.method
}

/// Relies on prost-types' `name` accessor of a method declaration.
#[verifier::external_body]
pub(crate) fn method_proto_name(m: &prost_types::MethodDescriptorProto) -> (r: String) {
    m.name().to_string()
}

/// Relies on prost-types' `input_type` accessor of a method declaration.
#[verifier::external_body]
pub(crate) fn method_proto_input_type(m: &prost_types::MethodDescriptorProto) -> (r: String) {
    m.input_type().to_string()
}

/// Relies on prost-types' `output_type` accessor of a method declaration.
#[verifier::external_body]
pub(crate) fn method_proto_output_type(m: &prost_types::MethodDescriptorProto) -> (r: String) {
    m.output_type().to_string()
}

/// Relies on prost-types' `client_streaming` accessor of a method
/// declaration, which substitutes the proto3 default (false) when absent.
#[verifier::external_body]
pub(crate) fn method_proto_client_streaming(m: &prost_types::MethodDescriptorProto) -> (r: bool) {
    m.client_streaming()
}

/// Relies on prost-types' `server_streaming` accessor of a method
/// declaration, which substitutes the proto3 default (false) when absent.
#[verifier::external_body]
pub(crate) fn method_proto_server_streaming(m: &prost_types::MethodDescriptorProto) -> (r: bool) {
    m.server_streaming()
}

/// Relies on prost's `Message::decode` for `FileDescriptorProto`: it either
/// parses the given bytes or reports a decode error, and whether it parses
/// depends on the bytes alone (`file_decodes`).
#[verifier::external_body]
pub(crate) fn decode_file_proto(bytes: &Vec<u8>) -> (r: Result<
    prost_types::FileDescriptorProto,
    GrpcClientError,
>)
    ensures
        r is Ok <==> file_decodes(bytes@),
        r is Err ==> r matches Err(GrpcClientError::DecodeFailure(_)),
{
    match <prost_types::FileDescriptorProto as prost::Message>::decode(bytes.as_slice()) {
        Ok(fd) => Ok(fd),
        Err(e) => Err(
            GrpcClientError::DecodeFailure(format!("Failed to decode file descriptor: {}", e)),
        ),
    }
}

/// Relies on prost's `Message::decode` on each buffer and prost-reflect's
/// `DescriptorPool::from_file_descriptor_set` on the decoded set: it builds
/// a queryable type registry or fails on malformed or incompatible sources,
/// and success depends on the byte sources alone (`pool_assembles`).
#[verifier::external_body]
fn pool_from_file_sources(sources: &Vec<Vec<u8>>) -> (r: Result<
    prost_reflect::DescriptorPool,
    GrpcClientError,
>)
    ensures
        r is Ok <==> pool_assembles(sources.deep_view()),
        r is Err ==> r matches Err(GrpcClientError::DecodeFailure(_)),
{
    let mut set = prost_types::FileDescriptorSet { file: Vec::new() };
    for bytes in sources {
        match <prost_types::FileDescriptorProto as prost::Message>::decode(bytes.as_slice()) {
            Ok(fd) => set.file.push(fd),
            Err(e) => return Err(GrpcClientError::DecodeFailure(
                format!("Failed to decode file descriptor: {}", e))),
        }
    }
    prost_reflect::DescriptorPool::from_file_descriptor_set(set).map_err(|e| {
        GrpcClientError::DecodeFailure(format!("Failed to create descriptor pool: {}", e))
    })
}

/// Relies on prost-reflect's `DescriptorPool::get_message_by_name`: the
/// message descriptor registered under a fully qualified name, found exactly
/// when the pool holds that name (`pool_types`).
#[verifier::external_body]
fn get_message_by_name(pool: &prost_reflect::DescriptorPool, name: &str) -> (r: Option<
    PoolMessageDescriptor,
>)
    ensures
        r is Some <==> pool_types(*pool).contains(name@),
{
    pool.get_message_by_name(name)
}

/// Looks both message layouts of a method up in an assembled pool: it
/// succeeds exactly when the pool holds both type names, and otherwise fails
/// with a decode error naming the first missing type.
pub fn message_layouts(
    pool: &prost_reflect::DescriptorPool,
    input_type: &str,
    output_type: &str,
) -> (r: Result<(PoolMessageDescriptor, PoolMessageDescriptor), GrpcClientError>)
    ensures
        r is Ok <==> pool_types(*pool).contains(input_type@) && pool_types(*pool).contains(
            output_type@,
        ),
        r matches Err(e) ==> e matches GrpcClientError::DecodeFailure(m) && (
        (!pool_types(*pool).contains(input_type@) && m@
            == "Failed to get message descriptor for: "@ + input_type@) || (pool_types(
            *pool,
        ).contains(input_type@) && !pool_types(*pool).contains(output_type@) && m@
            == "Failed to get message descriptor for: "@ + output_type@)),
{
    let input_desc = match get_message_by_name(pool, input_type) {
        Some(d) => d,
        None => {
            return Err(
                GrpcClientError::DecodeFailure(
                    String::from_str("Failed to get message descriptor for: ").concat(input_type),
                ),
            );
        },
    };
    let output_desc = match get_message_by_name(pool, output_type) {
        Some(d) => d,
        None => {
            return Err(
                GrpcClientError::DecodeFailure(
                    String::from_str("Failed to get message descriptor for: ").concat(output_type),
                ),
            );
        },
    };
    Ok((input_desc, output_desc))
}

/// Relies on prost-reflect's serde support: `DynamicMessage::deserialize`
/// builds a message of the given layout from a JSON value, or fails when the
/// value does not fit the layout.
#[verifier::external_body]
pub(crate) fn parse_request_message(
    value: serde_json::Value,
    input_desc: &PoolMessageDescriptor,
) -> (r: Result<prost_reflect::DynamicMessage, GrpcClientError>)
    ensures
        r is Err ==> r matches Err(GrpcClientError::DecodeFailure(_)),
{
    match prost_reflect::DynamicMessage::deserialize(input_desc.clone(), value) {
        Ok(msg) => Ok(msg),
        Err(e) => Err(
            GrpcClientError::DecodeFailure(
                format!("Failed to deserialize request message: {}", e),
            ),
        ),
    }
}

/// Relies on prost's `Message::encode_to_vec`: the wire encoding of a
/// dynamic message.
#[verifier::external_body]
pub(crate) fn encode_dynamic_message(msg: &prost_reflect::DynamicMessage) -> (r: Vec<u8>) {
    prost::Message::encode_to_vec(msg)
}

/// Relies on prost-reflect's `DynamicMessage::decode`: it parses wire bytes
/// under the given layout or reports a decode error.
#[verifier::external_body]
fn decode_dynamic_message(
    desc: &PoolMessageDescriptor,
    buf: &Vec<u8>,
) -> (r: Result<prost_reflect::DynamicMessage, GrpcClientError>)
    ensures
        r is Err ==> r matches Err(GrpcClientError::DecodeFailure(_)),
{
    match prost_reflect::DynamicMessage::decode(desc.clone(), buf.as_slice()) {
        Ok(msg) => Ok(msg),
        Err(e) => Err(
            GrpcClientError::DecodeFailure(format!("Failed to decode response message: {}", e)),
        ),
    }
}

/// Relies on serde_json's `to_value` over prost-reflect's serde support: the
/// JSON rendering of a dynamic message.
#[verifier::external_body]
fn dynamic_message_to_json(msg: &prost_reflect::DynamicMessage) -> (r: Result<
    serde_json::Value,
    GrpcClientError,
>)
    ensures
        r is Err ==> r matches Err(GrpcClientError::DecodeFailure(_)),
{
    match serde_json::to_value(msg) {
        Ok(v) => Ok(v),
        Err(e) => Err(
            GrpcClientError::DecodeFailure(format!("Failed to convert response to JSON: {}", e)),
        ),
    }
}

/// Decodes one wire message under `desc` and renders it as JSON.
pub fn decode_response_message(buf: &Vec<u8>, desc: &PoolMessageDescriptor) -> (r:
    Result<serde_json::Value, GrpcClientError>)
    ensures
        r is Err ==> r matches Err(GrpcClientError::DecodeFailure(_)),
{
    match decode_dynamic_message(desc, buf) {
        Ok(msg) => dynamic_message_to_json(&msg),
        Err(e) => Err(e),
    }
}

/// Relies on serde_json's `Value` variants, one arm each: a JSON array is a
/// request per element, a lone JSON object is a one-element batch, and any
/// other value is rejected as request data.
#[verifier::external_body]
pub(crate) fn json_body_items(data: serde_json::Value) -> (r: Result<
    Vec<serde_json::Value>,
    GrpcClientError,
>)
    ensures
        r is Err ==> r matches Err(GrpcClientError::DecodeFailure(_)),
{
    match data {
        serde_json::Value::Array(items) => Ok(items),
        serde_json::Value::Object(map) => Ok(vec![serde_json::Value::Object(map)]),
        other => Err(GrpcClientError::DecodeFailure(format!("Invalid request data: {}", other))),
    }
}

/// Copies a byte buffer; contracts see that the copy equals the original.
pub(crate) fn copy_bytes(src: &Vec<u8>) -> (r: Vec<u8>)
    ensures
        r@ == src@,
{
    let n = src.len();
    let mut out: Vec<u8> = Vec::new();
    let mut i: usize = 0;
    while i < n
        invariant
            0 <= i <= n,
            n == src.len(),
            out@ == src@.subrange(0, i as int),
        decreases n - i,
    {
        out.push(src[i]);
        proof {
            assert(out@ =~= src@.subrange(0, i + 1));
        }
        i += 1;
    }
    proof {
        assert(src@.subrange(0, n as int) =~= src@);
    }
    out
}

/// The raw file descriptors a pool is assembled from: when input and output
/// types live in the same file (same file name), that file is used once;
/// distinct files are both used, input first.
pub fn descriptor_set_sources(
    input_file: &FileDescriptorInfo,
    output_file: &FileDescriptorInfo,
) -> (r: Vec<Vec<u8>>)
    ensures
        input_file.name@ == output_file.name@ ==> r.len() == 1,
        input_file.name@ != output_file.name@ ==> r.len() == 2 && r@[1]@ == output_file.raw@,
        r@[0]@ == input_file.raw@,
{
    let mut sources: Vec<Vec<u8>> = Vec::new();
    sources.push(copy_bytes(&input_file.raw));
    if !str_eq(input_file.name.as_str(), output_file.name.as_str()) {
        sources.push(copy_bytes(&output_file.raw));
    }
    sources
}

/// The byte sources a pool for these two files is assembled from: the
/// backing file once when input and output types share it, else both.
pub open spec fn spec_pool_sources(
    input_file: FileDescriptorInfo,
    output_file: FileDescriptorInfo,
) -> Seq<Seq<u8>> {
    if input_file.name@ == output_file.name@ {
        seq![input_file.raw@]
    } else {
        seq![input_file.raw@, output_file.raw@]
    }
}

/// Assembles a descriptor pool sufficient for both a method's input and
/// output types: the two backing files are deduplicated, then decoded and
/// merged into one registry; it succeeds exactly when those sources
/// assemble.
pub fn create_descriptor_pool(
    input_file: &FileDescriptorInfo,
    output_file: &FileDescriptorInfo,
) -> (r: Result<prost_reflect::DescriptorPool, GrpcClientError>)
    ensures
        r is Ok <==> pool_assembles(spec_pool_sources(*input_file, *output_file)),
        r is Err ==> r matches Err(GrpcClientError::DecodeFailure(_)),
{
    let sources = descriptor_set_sources(input_file, output_file);
    proof {
        assert(sources.deep_view() =~~= spec_pool_sources(*input_file, *output_file));
    }
    pool_from_file_sources(&sources)
}

} // verus!
