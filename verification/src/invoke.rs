//! The invocation dispatcher: method-reference parsing, the per-call plan
//! (metadata check first, then method lookup and shape dispatch), the encode
//! loop for outbound requests, and the receive loop with its memory guard.

use vstd::prelude::*;
use vstd::string::StrSliceExecFns;
use vstd::string::StringExecFns;

use crate::codec::encode_dynamic_message;
use crate::codec::json_body_items;
use crate::codec::parse_request_message;
use crate::errors::GrpcClientError;
use crate::metadata::spec_metadata_error;
use crate::metadata::spec_metadata_ok;
use crate::metadata::validate_metadata;
use crate::reflection::ServiceDescriptor;
use crate::reflection::StreamingType;
use crate::strutil::contains_char;
use crate::strutil::find_last;
use crate::strutil::is_last_index_of;

use prost_reflect::MessageDescriptor as PoolMessageDescriptor;

verus! {

/// Splits a method reference into service and method at the last slash, or
/// failing that at the last dot; a reference with neither separator is an
/// input error.
pub fn parse_method<'a>(method: &'a str) -> (r: Result<(&'a str, &'a str), GrpcClientError>)
    ensures
        contains_char(method@, '/') ==> (r matches Ok(p) && exists|i: int|
            {
                &&& #[trigger] is_last_index_of(method@, '/', i)
                &&& p.0@ == method@.subrange(0, i)
                &&& p.1@ == method@.subrange(i + 1, method@.len() as int)
            }),
        !contains_char(method@, '/') && contains_char(method@, '.') ==> (r matches Ok(p)
            && exists|i: int|
            {
                &&& #[trigger] is_last_index_of(method@, '.', i)
                &&& p.0@ == method@.subrange(0, i)
                &&& p.1@ == method@.subrange(i + 1, method@.len() as int)
            }),
        r is Err <==> !contains_char(method@, '/') && !contains_char(method@, '.'),
        r matches Err(e) ==> e matches GrpcClientError::InvalidReference(m) && m@
            == "Invalid method format: "@ + method@
            + ". Expected 'service.method' or 'service/method'"@,
{
    let len = method.unicode_len();
    if let Some(pos) = find_last(method, '/') {
        assert(pos < len);
        Ok((method.substring_char(0, pos), method.substring_char(pos + 1, len)))
    } else if let Some(pos) = find_last(method, '.') {
        assert(pos < len);
        Ok((method.substring_char(0, pos), method.substring_char(pos + 1, len)))
    } else {
        Err(
            GrpcClientError::InvalidReference(
                String::from_str("Invalid method format: ").concat(method).concat(
                    ". Expected 'service.method' or 'service/method'",
                ),
            ),
        )
    }
}

/// Builds the wire path of a call, `/service/method`.
pub fn create_method_path(service: &str, method: &str) -> (r: String)
    ensures
        r@ == "/"@ + service@ + "/"@ + method@,
{
    String::from_str("/").concat(service).concat("/").concat(method)
}

/// The error owed when a service has no method of the requested name.
pub fn method_not_found_error(method_name: &str, service_name: &str) -> (r: GrpcClientError)
    ensures
        r matches GrpcClientError::SymbolNotFound(m) && m@ == "Method "@ + method_name@
            + " not found in service "@ + service_name@,
{
    GrpcClientError::SymbolNotFound(
        String::from_str("Method ").concat(method_name).concat(" not found in service ").concat(
            service_name,
        ),
    )
}

/// How many requests a call shape sends: one, or a whole stream.
#[derive(Debug, Clone, Copy, PartialEq, Eq, Structural)]
pub enum SendMode {
    One,
    Many,
}

/// How many responses a call shape receives: exactly one, or all messages
/// until the stream ends.
#[derive(Debug, Clone, Copy, PartialEq, Eq, Structural)]
pub enum RecvMode {
    One,
    Many,
}

/// The send half of the shape table.
pub open spec fn spec_send_mode(shape: StreamingType) -> SendMode {
    match shape {
        StreamingType::Unary => SendMode::One,
        StreamingType::ServerStream => SendMode::One,
        StreamingType::ClientStream => SendMode::Many,
        StreamingType::BiDirectional => SendMode::Many,
    }
}

/// The receive half of the shape table.
pub open spec fn spec_recv_mode(shape: StreamingType) -> RecvMode {
    match shape {
        StreamingType::Unary => RecvMode::One,
        StreamingType::ServerStream => RecvMode::Many,
        StreamingType::ClientStream => RecvMode::One,
        StreamingType::BiDirectional => RecvMode::Many,
    }
}

/// How many requests the given shape sends.
pub fn send_mode(shape: &StreamingType) -> (r: SendMode)
    ensures
        r == spec_send_mode(*shape),
{
    match shape {
        StreamingType::Unary => SendMode::One,
        StreamingType::ServerStream => SendMode::One,
        StreamingType::ClientStream => SendMode::Many,
        StreamingType::BiDirectional => SendMode::Many,
    }
}

/// How many responses the given shape receives.
pub fn recv_mode(shape: &StreamingType) -> (r: RecvMode)
    ensures
        r == spec_recv_mode(*shape),
{
    match shape {
        StreamingType::Unary => RecvMode::One,
        StreamingType::ServerStream => RecvMode::Many,
        StreamingType::ClientStream => RecvMode::One,
        StreamingType::BiDirectional => RecvMode::Many,
    }
}

/// Everything decided before the transport is driven: the wire path, which
/// method of the service is called, and the two halves of its shape.
#[derive(Debug)]
pub struct CallPlan {
    pub path: String,
    pub method_index: usize,
    pub send_mode: SendMode,
    pub recv_mode: RecvMode,
}

/// Decides a call: the metadata is validated before anything else (so an
/// invalid header fails the call before any bytes go on the wire), then the
/// method is looked up in the service, and its shape fixes how many messages
/// are sent and received.
pub fn plan_call(
    service: &ServiceDescriptor,
    method_name: &str,
    headers: &Vec<(String, String)>,
) -> (r: Result<CallPlan, GrpcClientError>)
    ensures
        !spec_metadata_ok(headers@) ==> (r matches Err(GrpcClientError::InvalidMetadata(m))
            && spec_metadata_error(headers@, m@)),
        r is Ok <==> spec_metadata_ok(headers@) && exists|i: int|
            0 <= i < service.methods.len() && (#[trigger] service.methods@[i]).name@
                == method_name@,
        spec_metadata_ok(headers@) && (forall|i: int|
            0 <= i < service.methods.len() ==> (#[trigger] service.methods@[i]).name@
                != method_name@) ==> (r matches Err(GrpcClientError::SymbolNotFound(m)) && m@
            == "Method "@ + method_name@ + " not found in service "@ + service.name@),
        r matches Ok(p) ==> {
            &&& 0 <= p.method_index < service.methods.len()
            &&& service.methods@[p.method_index as int].name@ == method_name@
            &&& forall|j: int|
                0 <= j < p.method_index ==> (#[trigger] service.methods@[j]).name@ != method_name@
            &&& p.path@ == "/"@ + service.name@ + "/"@ + method_name@
            &&& p.send_mode == spec_send_mode(
                service.methods@[p.method_index as int].streaming_type,
            )
            &&& p.recv_mode == spec_recv_mode(
                service.methods@[p.method_index as int].streaming_type,
            )
        },
{
    match validate_metadata(headers) {
        Err(e) => {
            return Err(e);
        },
        Ok(()) => {},
    }
    assert(spec_metadata_ok(headers@));
    let n = service.methods.len();
    let mut i: usize = 0;
    while i < n
        invariant
            0 <= i <= n,
            n == service.methods.len(),
            spec_metadata_ok(headers@),
            forall|j: int| 0 <= j < i ==> (#[trigger] service.methods@[j]).name@ != method_name@,
        decreases n - i,
    {
        if crate::strutil::str_eq(service.methods[i].name.as_str(), method_name) {
            assert(service.methods@[i as int].name@ == method_name@);
            let path = create_method_path(service.name.as_str(), method_name);
            let shape = &service.methods[i].streaming_type;
            return Ok(
                CallPlan {
                    path,
                    method_index: i,
                    send_mode: send_mode(shape),
                    recv_mode: recv_mode(shape),
                },
            );
        }
        i += 1;
    }
    Err(method_not_found_error(method_name, service.name.as_str()))
}

/// Soft threshold of the streaming memory guard: past it a warning is due.
pub const MEMORY_WARNING_THRESHOLD: usize = 100 * 1024 * 1024;

/// Hard threshold of the streaming memory guard: past it the call aborts.
pub const MEMORY_ERROR_THRESHOLD: usize = 500 * 1024 * 1024;

/// Checks the cumulative decoded-byte count of a streaming receive: past the
/// hard threshold the stream is terminated with a resource-exhausted error
/// that states the count.
pub fn monitor_stream_memory_usage(bytes_processed: usize, _verbose: bool) -> (r: Result<
    (),
    GrpcClientError,
>)
    ensures
        r is Ok <==> bytes_processed <= MEMORY_ERROR_THRESHOLD,
        r matches Err(e) ==> e == (GrpcClientError::ResourceExhausted {
            total_bytes: bytes_processed,
        }),
{
    if bytes_processed > MEMORY_ERROR_THRESHOLD {
        Err(GrpcClientError::ResourceExhausted { total_bytes: bytes_processed })
    } else {
        Ok(())
    }
}

/// Whether the soft-threshold warning is due: only past the warning level,
/// and only when verbose diagnostics are enabled.
pub fn memory_warning_due(bytes_processed: usize, verbose: bool) -> (r: bool)
    ensures
        r == (bytes_processed > MEMORY_WARNING_THRESHOLD && verbose),
{
    bytes_processed > MEMORY_WARNING_THRESHOLD && verbose
}

/// The byte count of a message sequence.
pub open spec fn sum_lens(s: Seq<(usize, serde_json::Value)>) -> int
    decreases s.len(),
{
    if s.len() == 0 {
        0
    } else {
        sum_lens(s.drop_last()) + s.last().0
    }
}

/// The payloads of a message sequence, in order.
pub open spec fn spec_values(s: Seq<(usize, serde_json::Value)>) -> Seq<serde_json::Value> {
    s.map_values(|p: (usize, serde_json::Value)| p.1)
}

/// A prefix of a message sequence never holds more bytes than the whole.
proof fn lemma_sum_lens_prefix_le(s: Seq<(usize, serde_json::Value)>, i: int)
    requires
        0 <= i <= s.len(),
    ensures
        sum_lens(s.subrange(0, i)) <= sum_lens(s),
    decreases s.len() - i,
{
    if i < s.len() {
        let t = s.subrange(0, i + 1);
        assert(t.drop_last() =~= s.subrange(0, i));
        lemma_sum_lens_prefix_le(s, i + 1);
    } else {
        assert(s.subrange(0, i) =~= s);
    }
}

/// Accumulates the decoded messages of one streaming receive, in arrival
/// order, guarding the cumulative byte count. Once the guard trips, the
/// collector is left unchanged and no further message may be recorded.
#[derive(Debug)]
pub struct ResponseCollector {
    total: usize,
    responses: Vec<serde_json::Value>,
}

impl ResponseCollector {
    /// The bytes recorded so far.
    pub closed spec fn total_bytes(&self) -> int {
        self.total as int
    }

    /// The messages recorded so far, in arrival order.
    pub closed spec fn responses(&self) -> Seq<serde_json::Value> {
        self.responses@
    }

    /// The guard's invariant: the recorded bytes never pass the hard limit.
    pub open spec fn wf(&self) -> bool {
        self.total_bytes() <= MEMORY_ERROR_THRESHOLD
    }

    /// An empty collector.
    pub fn new() -> (r: Self)
        ensures
            r.wf(),
            r.total_bytes() == 0,
            r.responses() == Seq::<serde_json::Value>::empty(),
    {
        let r = Self { total: 0, responses: Vec::new() };
        proof {
            assert(r.responses@.len() == 0);
        }
        r
    }

    /// Records one decoded message of `byte_len` bytes, unless doing so would
    /// pass the hard memory limit; then nothing is recorded and the call must
    /// abort with the cumulative count.
    pub fn push_response(&mut self, byte_len: usize, value: serde_json::Value) -> (r: Result<
        (),
        GrpcClientError,
    >)
        requires
            old(self).wf(),
        ensures
            final(self).wf(),
            r is Ok <==> old(self).total_bytes() + byte_len <= MEMORY_ERROR_THRESHOLD,
            r is Ok ==> final(self).total_bytes() == old(self).total_bytes() + byte_len
                && final(self).responses() == old(self).responses().push(value),
            r is Err ==> final(self).total_bytes() == old(self).total_bytes()
                && final(self).responses() == old(self).responses(),
            r matches Err(e) ==> e matches GrpcClientError::ResourceExhausted { total_bytes }
                && total_bytes > MEMORY_ERROR_THRESHOLD && (old(self).total_bytes() + byte_len
                <= usize::MAX ==> total_bytes as int == old(self).total_bytes() + byte_len),
    {
        match self.total.checked_add(byte_len) {
            Some(t) => {
                if t <= MEMORY_ERROR_THRESHOLD {
                    self.total = t;
                    self.responses.push(value);
                    Ok(())
                } else {
                    Err(GrpcClientError::ResourceExhausted { total_bytes: t })
                }
            },
            None => Err(GrpcClientError::ResourceExhausted { total_bytes: usize::MAX }),
        }
    }

    /// The bytes recorded so far, for diagnostics.
    pub fn bytes_processed(&self) -> (r: usize)
        ensures
            r as int == self.total_bytes(),
    {
        self.total
    }

    /// Hands the collected messages out, in arrival order.
    pub fn into_responses(self) -> (r: Vec<serde_json::Value>)
        ensures
            r@ == self.responses(),
    {
        self.responses
    }
}

/// Drains a whole response stream, already decoded into `(byte count, JSON)`
/// pairs: on success the payloads come back in arrival order; the call aborts
/// with a resource-exhausted error exactly when the cumulative byte count
/// passes the hard memory limit, and later messages are then never touched.
pub fn process_response_stream(msgs: Vec<(usize, serde_json::Value)>) -> (r: Result<
    Vec<serde_json::Value>,
    GrpcClientError,
>)
    ensures
        r matches Ok(vs) ==> vs@ == spec_values(msgs@) && sum_lens(msgs@)
            <= MEMORY_ERROR_THRESHOLD,
        r is Err <==> sum_lens(msgs@) > MEMORY_ERROR_THRESHOLD,
        r matches Err(e) ==> exists|k: int|
            {
                &&& 0 <= k < msgs@.len()
                &&& sum_lens(#[trigger] msgs@.subrange(0, k)) <= MEMORY_ERROR_THRESHOLD
                &&& sum_lens(msgs@.subrange(0, k + 1)) > MEMORY_ERROR_THRESHOLD
                &&& e matches GrpcClientError::ResourceExhausted { total_bytes }
                &&& total_bytes > MEMORY_ERROR_THRESHOLD
                &&& (sum_lens(msgs@.subrange(0, k + 1)) <= usize::MAX ==> total_bytes as int
                    == sum_lens(msgs@.subrange(0, k + 1)))
            },
{
    let ghost orig = msgs@;
    let mut rest = msgs;
    let mut collector = ResponseCollector::new();
    let ghost mut k: int = 0;
    while rest.len() != 0
        invariant
            orig == msgs@,
            collector.wf(),
            0 <= k <= orig.len(),
            rest@ =~= orig.subrange(k, orig.len() as int),
            collector.responses() =~= spec_values(orig.subrange(0, k)),
            collector.total_bytes() == sum_lens(orig.subrange(0, k)),
        decreases rest@.len(),
    {
        let (byte_len, value) = rest.remove(0);
        proof {
            assert(orig.subrange(k, orig.len() as int)[0] == orig[k]);
        }
        match collector.push_response(byte_len, value) {
            Ok(()) => {
                proof {
                    let t = orig.subrange(0, k + 1);
                    assert(t.drop_last() =~= orig.subrange(0, k));
                    assert(t.last() == orig[k]);
                    assert(spec_values(t) =~= spec_values(orig.subrange(0, k)).push(orig[k].1));
                    k = k + 1;
                    assert(rest@ =~= orig.subrange(k, orig.len() as int));
                }
            },
            Err(e) => {
                proof {
                    let t = orig.subrange(0, k + 1);
                    assert(t.drop_last() =~= orig.subrange(0, k));
                    assert(sum_lens(msgs@.subrange(0, k)) <= MEMORY_ERROR_THRESHOLD);
                    assert(sum_lens(t) > MEMORY_ERROR_THRESHOLD);
                    lemma_sum_lens_prefix_le(orig, k + 1);
                }
                return Err(e);
            },
        }
    }
    proof {
        assert(orig.subrange(k, orig.len() as int).len() == 0);
        assert(k == orig.len());
        assert(orig.subrange(0, orig.len() as int) =~= orig);
    }
    Ok(collector.into_responses())
}

/// Encodes each JSON request in order under the input layout: one wire
/// message per element, so a client stream of `n` bodies sends exactly `n`
/// messages before the write side closes.
pub fn encode_request_items(
    items: Vec<serde_json::Value>,
    input_desc: &PoolMessageDescriptor,
) -> (r: Result<Vec<Vec<u8>>, GrpcClientError>)
    ensures
        r matches Ok(bufs) ==> bufs.len() == items.len(),
        r matches Err(e) ==> e matches GrpcClientError::DecodeFailure(_),
{
    let ghost total = items@.len();
    let mut rest = items;
    let mut bufs: Vec<Vec<u8>> = Vec::new();
    while rest.len() != 0
        invariant
            bufs@.len() + rest@.len() == total,
        decreases rest@.len(),
    {
        let value = rest.remove(0);
        match parse_request_message(value, input_desc) {
            Ok(msg) => {
                bufs.push(encode_dynamic_message(&msg));
            },
            Err(e) => {
                return Err(e);
            },
        }
    }
    Ok(bufs)
}

/// Shapes the caller's JSON body into the outbound request stream: an array
/// yields one encoded wire message per element in array order, a lone object
/// yields a single message, and anything else is rejected before the call.
pub fn create_request_stream(data: serde_json::Value, input_desc: &PoolMessageDescriptor) -> (r:
    Result<Vec<Vec<u8>>, GrpcClientError>)
    ensures
        r matches Err(e) ==> e matches GrpcClientError::DecodeFailure(_),
{
    match json_body_items(data) {
        Ok(items) => encode_request_items(items, input_desc),
        Err(e) => Err(e),
    }
}

} // verus!

