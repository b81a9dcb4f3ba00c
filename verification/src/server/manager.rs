//! Call results and cache-key derivation for the server manager. The manager
//! itself shares clients across request handlers and lives outside; the keys
//! under which it caches discovery results are decided here.

use vstd::prelude::*;
use vstd::string::StringExecFns;

verus! {

/// The outcome of one method call made through the manager.
#[derive(Debug)]
pub struct CallResult {
    pub success: bool,
    pub response: Option<serde_json::Value>,
    pub error: Option<String>,
    pub metadata: CallMetadata,
}

/// Bookkeeping about one method call.
#[derive(Debug, Clone)]
pub struct CallMetadata {
    pub method: String,
    pub server_id: String,
    pub duration_ms: u64,
    pub response_size: usize,
    pub timestamp: String,
}

/// The cache key of a server's service list.
pub fn service_cache_key(server_id: &str) -> (r: String)
    ensures
        r@ == "services:"@ + server_id@,
{
    String::from_str("services:").concat(server_id)
}

/// The cache key of one service's method list on one server.
pub fn method_cache_key(server_id: &str, service_name: &str) -> (r: String)
    ensures
        r@ == "methods:"@ + server_id@ + ":"@ + service_name@,
{
    String::from_str("methods:").concat(server_id).concat(":").concat(service_name)
}

} // verus!
