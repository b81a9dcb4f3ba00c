//! Connection status derivation for the web front-end: which configured
//! servers currently have an initialized client.

use vstd::prelude::*;

use crate::server::config::ServerConfig;
use crate::strutil::str_eq;

verus! {

/// Connection status of one configured server, for API responses.
#[derive(Debug, Clone)]
pub struct ServerStatus {
    /// Server identifier.
    pub id: String,
    /// Human-readable server name.
    pub name: String,
    /// Server endpoint (`host:port`).
    pub endpoint: String,
    /// Whether a client for the server is currently initialized.
    pub connected: bool,
    /// Optional server description.
    pub description: Option<String>,
}

/// `s` occurs among `ids`.
pub open spec fn spec_contains_id(ids: Seq<String>, s: Seq<char>) -> bool {
    exists|j: int| 0 <= j < ids.len() && (#[trigger] ids[j])@ == s
}

/// Whether `s` occurs among `ids`.
pub fn contains_id(ids: &Vec<String>, s: &str) -> (r: bool)
    ensures
        r == spec_contains_id(ids@, s@),
{
    let n = ids.len();
    let mut i: usize = 0;
    while i < n
        invariant
            0 <= i <= n,
            n == ids.len(),
            forall|j: int| 0 <= j < i ==> (#[trigger] ids@[j])@ != s@,
        decreases n - i,
    {
        if str_eq(ids[i].as_str(), s) {
            assert(ids@[i as int]@ == s@);
            return true;
        }
        i += 1;
    }
    false
}

/// One status entry per configured server, in configuration order: a server
/// counts as connected exactly when its id is among `connected_ids`.
pub fn get_connection_status(config: &ServerConfig, connected_ids: &Vec<String>) -> (r: Vec<
    ServerStatus,
>)
    ensures
        r.len() == config.servers.len(),
        forall|i: int|
            0 <= i < r.len() ==> {
                &&& (#[trigger] r@[i]).id@ == config.servers@[i].0@
                &&& r@[i].name@ == config.servers@[i].1.name@
                &&& r@[i].endpoint@ == config.servers@[i].1.endpoint@
                &&& r@[i].connected == spec_contains_id(connected_ids@, config.servers@[i].0@)
                &&& r@[i].description == config.servers@[i].1.description
            },
{
    let n = config.servers.len();
    let mut out: Vec<ServerStatus> = Vec::new();
    let mut i: usize = 0;
    while i < n
        invariant
            0 <= i <= n,
            n == config.servers.len(),
            out.len() == i,
            forall|j: int|
                0 <= j < i ==> {
                    &&& (#[trigger] out@[j]).id@ == config.servers@[j].0@
                    &&& out@[j].name@ == config.servers@[j].1.name@
                    &&& out@[j].endpoint@ == config.servers@[j].1.endpoint@
                    &&& out@[j].connected == spec_contains_id(
                        connected_ids@,
                        config.servers@[j].0@,
                    )
                    &&& out@[j].description == config.servers@[j].1.description
                },
        decreases n - i,
    {
        let entry = &config.servers[i];
        let description = match &entry.1.description {
            Some(d) => Some(d.clone()),
            None => None,
        };
        out.push(
            ServerStatus {
                id: entry.0.clone(),
                name: entry.1.name.clone(),
                endpoint: entry.1.endpoint.clone(),
                connected: contains_id(connected_ids, entry.0.as_str()),
                description,
            },
        );
        i += 1;
    }
    out
}

} // verus!
