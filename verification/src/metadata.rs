//! Validation of caller-supplied call metadata (header key/value pairs),
//! performed before any network activity.

use vstd::prelude::*;
use vstd::string::StringExecFns;

use crate::errors::GrpcClientError;
use crate::strutil::contains_char;

verus! {

/// Whether tonic accepts this key for ASCII wire metadata.
pub uninterp spec fn metadata_key_ok(k: Seq<char>) -> bool;

/// Whether tonic accepts this value for ASCII wire metadata.
pub uninterp spec fn metadata_value_ok(v: Seq<char>) -> bool;

/// Relies on tonic's `MetadataKey::from_bytes` (for ASCII keys), which goes
/// by the characters alone: header-name characters only, and no name with
/// the binary suffix `-bin`; the empty string and anything holding a line
/// break are rejected.
#[verifier::external_body]
fn metadata_key_is_valid(k: &str) -> (r: bool)
    ensures
        r == metadata_key_ok(k@),
        k@.len() == 0 ==> !r,
        contains_char(k@, '\n') ==> !r,
{
    tonic::metadata::AsciiMetadataKey::from_bytes(k.as_bytes()).is_ok()
}

/// Relies on tonic's ASCII `MetadataValue` parsing, which goes by the
/// characters alone: visible characters and horizontal tab are accepted,
/// other control characters (a line break among them) are not.
#[verifier::external_body]
fn metadata_value_is_valid(v: &str) -> (r: bool)
    ensures
        r == metadata_value_ok(v@),
        contains_char(v@, '\n') ==> !r,
{
    v.parse::<tonic::metadata::AsciiMetadataValue>().is_ok()
}

/// Every pair of `headers` is legal wire metadata.
pub open spec fn spec_metadata_ok(headers: Seq<(String, String)>) -> bool {
    forall|i: int|
        0 <= i < headers.len() ==> metadata_key_ok((#[trigger] headers[i]).0@) && metadata_value_ok(
            headers[i].1@,
        )
}

/// What a failed metadata check reports: the first offending pair, as an
/// invalid-metadata error naming a bad key, or the fixed bad-value message.
pub open spec fn spec_metadata_error(headers: Seq<(String, String)>, m: Seq<char>) -> bool {
    exists|i: int|
        {
            &&& 0 <= i < headers.len()
            &&& (forall|j: int|
                0 <= j < i ==> metadata_key_ok((#[trigger] headers[j]).0@) && metadata_value_ok(
                    headers[j].1@,
                ))
            &&& ((!metadata_key_ok((#[trigger] headers[i]).0@) && m == "Invalid header key: "@
                + headers[i].0@) || (metadata_key_ok(headers[i].0@) && !metadata_value_ok(
                headers[i].1@,
            ) && m == "Invalid header value"@))
        }
}

/// Checks every header pair before any bytes go on the wire: succeeds exactly
/// when each key and value is legal wire metadata, and otherwise reports the
/// first offending pair as an invalid-metadata error.
pub fn validate_metadata(headers: &Vec<(String, String)>) -> (r: Result<(), GrpcClientError>)
    ensures
        r is Ok <==> spec_metadata_ok(headers@),
        r matches Err(e) ==> e matches GrpcClientError::InvalidMetadata(m) && spec_metadata_error(
            headers@,
            m@,
        ),
{
    let n = headers.len();
    let mut i: usize = 0;
    while i < n
        invariant
            0 <= i <= n,
            n == headers.len(),
            forall|j: int|
                0 <= j < i ==> metadata_key_ok((#[trigger] headers@[j]).0@) && metadata_value_ok(
                    headers@[j].1@,
                ),
        decreases n - i,
    {
        if !metadata_key_is_valid(headers[i].0.as_str()) {
            assert(!metadata_key_ok(headers@[i as int].0@));
            return Err(
                GrpcClientError::InvalidMetadata(
                    String::from_str("Invalid header key: ").concat(headers[i].0.as_str()),
                ),
            );
        }
        if !metadata_value_is_valid(headers[i].1.as_str()) {
            assert(metadata_key_ok(headers@[i as int].0@));
            return Err(
                GrpcClientError::InvalidMetadata(String::from_str("Invalid header value")),
            );
        }
        i += 1;
    }
    Ok(())
}

} // verus!
