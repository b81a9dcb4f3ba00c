//! Error kinds of the client core, and the boundary classifier that turns a
//! wire-level status into a human-readable message category.

use vstd::prelude::*;
use vstd::string::StringExecFns;

use crate::strutil::contains_seq;

verus! {

/// Everything that can go wrong inside the client core.
#[derive(Debug, Clone, PartialEq, Eq)]
pub enum GrpcClientError {
    /// A malformed method reference string.
    InvalidReference(String),
    /// A service or method that could not be resolved.
    SymbolNotFound(String),
    /// A connect, handshake or timeout failure, or a failed wire-level call.
    TransportFailure(String),
    /// The server answered a reflection query with an error code and message.
    ReflectionProtocolError { code: i32, message: String },
    /// Descriptor bytes or a JSON body that do not match the resolved layout.
    DecodeFailure(String),
    /// The client-side memory guard tripped during a streaming receive.
    ResourceExhausted { total_bytes: usize },
    /// A header key or value that is illegal for the wire metadata format.
    InvalidMetadata(String),
}

/// The wire-level status categories that the boundary classifier tells apart.
#[derive(Debug, Clone, Copy, PartialEq, Eq, Structural)]
pub enum WireCode {
    Unavailable,
    DeadlineExceeded,
    ResourceExhausted,
    PermissionDenied,
    Unauthenticated,
    NotFound,
    Other,
}

/// A wire-level status as plain values: its category, the display text of its
/// code, and its message, preserved verbatim for programmatic inspection.
#[derive(Debug, Clone)]
pub struct WireStatus {
    pub code: WireCode,
    pub code_text: String,
    pub message: String,
}

/// The message that the classifier owes for each status category.
pub open spec fn spec_stream_error_message(status: WireStatus, operation_name: Seq<char>) -> Seq<char> {
    match status.code {
        WireCode::Unavailable => operation_name
            + " failed: Server unavailable. Please check the server is running and accessible."@,
        WireCode::DeadlineExceeded => operation_name
            + " failed: Request timed out. The server may be overloaded."@,
        WireCode::ResourceExhausted => operation_name
            + " failed: Server resource exhausted. Try reducing request size or frequency."@,
        WireCode::PermissionDenied => operation_name
            + " failed: Permission denied. Check authentication credentials."@,
        WireCode::Unauthenticated => operation_name
            + " failed: Authentication required. Provide valid credentials."@,
        WireCode::NotFound => operation_name
            + " failed: Service or method not found. Verify the service and method names."@,
        WireCode::Other => operation_name + " failed: gRPC error ("@ + status.code_text@ + "): "@
            + status.message@,
    }
}

/// Maps a wire-level status to the distinct, human-readable message category
/// owed for its code, naming the failed operation.
pub fn handle_stream_error(status: &WireStatus, operation_name: &str) -> (r: String)
    ensures
        r@ == spec_stream_error_message(*status, operation_name@),
{
    let prefix = String::from_str(operation_name);
    match status.code {
        WireCode::Unavailable => prefix.concat(
            " failed: Server unavailable. Please check the server is running and accessible.",
        ),
        WireCode::DeadlineExceeded => prefix.concat(
            " failed: Request timed out. The server may be overloaded.",
        ),
        WireCode::ResourceExhausted => prefix.concat(
            " failed: Server resource exhausted. Try reducing request size or frequency.",
        ),
        WireCode::PermissionDenied => prefix.concat(
            " failed: Permission denied. Check authentication credentials.",
        ),
        WireCode::Unauthenticated => prefix.concat(
            " failed: Authentication required. Provide valid credentials.",
        ),
        WireCode::NotFound => prefix.concat(
            " failed: Service or method not found. Verify the service and method names.",
        ),
        WireCode::Other => prefix
            .concat(" failed: gRPC error (")
            .concat(status.code_text.as_str())
            .concat("): ")
            .concat(status.message.as_str()),
    }
}

#[verifier::external_type_specification]
#[verifier::external_body]
pub struct ExStatus(tonic::Status);

/// Relies on tonic's `Status::code` and `Status::message` accessors and on
/// the display text of `Code`; each wire code that gets its own message
/// category is told apart, one arm each.
#[verifier::external_body]
fn wire_status_of(status: &tonic::Status) -> (r: WireStatus) {
    let code = match status.code() {
        tonic::Code::Unavailable => WireCode::Unavailable,
        tonic::Code::DeadlineExceeded => WireCode::DeadlineExceeded,
        tonic::Code::ResourceExhausted => WireCode::ResourceExhausted,
        tonic::Code::PermissionDenied => WireCode::PermissionDenied,
        tonic::Code::Unauthenticated => WireCode::Unauthenticated,
        tonic::Code::NotFound => WireCode::NotFound,
        _ => WireCode::Other,
    };
    WireStatus {
        code,
        code_text: status.code().to_string(),
        message: status.message().to_string(),
    }
}

/// Classifies a wire-level status at the boundary: the returned message is
/// exactly the category message owed for the returned status, which keeps
/// the original code and message for programmatic inspection.
pub fn classify_status(status: &tonic::Status, operation_name: &str) -> (r: (WireStatus, String))
    ensures
        r.1@ == spec_stream_error_message(r.0, operation_name@),
{
    let ws = wire_status_of(status);
    let message = handle_stream_error(&ws, operation_name);
    (ws, message)
}

/// An unavailable status is always reported with a message that names the
/// condition: whatever the operation, the classifier's output holds the text
/// `unavailable`.
pub proof fn lemma_unavailable_message_names_condition(
    status: WireStatus,
    operation_name: Seq<char>,
)
    requires
        status.code is Unavailable,
    ensures
        contains_seq(spec_stream_error_message(status, operation_name), "unavailable"@),
{
    reveal_strlit(
        " failed: Server unavailable. Please check the server is running and accessible.",
    );
    reveal_strlit("unavailable");
    let m = spec_stream_error_message(status, operation_name);
    let i = operation_name.len() as int + 16;
    assert(m.subrange(i, i + 11) =~= "unavailable"@);
}

/// A deadline-exceeded status is always reported with a message that names
/// the condition: whatever the operation, the classifier's output holds the
/// text `timed out`.
pub proof fn lemma_deadline_message_names_condition(status: WireStatus, operation_name: Seq<char>)
    requires
        status.code is DeadlineExceeded,
    ensures
        contains_seq(spec_stream_error_message(status, operation_name), "timed out"@),
{
    reveal_strlit(" failed: Request timed out. The server may be overloaded.");
    reveal_strlit("timed out");
    let m = spec_stream_error_message(status, operation_name);
    let i = operation_name.len() as int + 17;
    assert(m.subrange(i, i + 9) =~= "timed out"@);
}

} // verus!
