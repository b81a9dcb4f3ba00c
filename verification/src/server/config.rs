//! Configuration of the servers the web front-end can reach. Loading and
//! saving the YAML file is I/O and happens outside; the lookup logic and the
//! default configuration are verified here.

use vstd::prelude::*;
use vstd::string::StringExecFns;

use crate::strutil::str_eq;

verus! {

/// One configured gRPC server.
#[derive(Debug, Clone)]
pub struct GrpcServerConfig {
    /// Human-readable name for the server.
    pub name: String,
    /// Server endpoint (`host:port`).
    pub endpoint: String,
    /// Whether to connect without transport encryption.
    pub plaintext: bool,
    /// Path to a verification-authority file for encrypted connections.
    pub ca_cert: Option<String>,
    /// Default headers sent with every request.
    pub headers: Vec<(String, String)>,
    /// Optional description of the server.
    pub description: Option<String>,
}

/// The whole configuration: server id to server settings, in file order.
#[derive(Debug, Clone)]
pub struct ServerConfig {
    pub servers: Vec<(String, GrpcServerConfig)>,
}

impl ServerConfig {
    /// The settings stored under `server_id`, if any.
    pub fn get_server(&self, server_id: &str) -> (r: Option<&GrpcServerConfig>)
        ensures
            match r {
                Some(c) => exists|i: int|
                    {
                        &&& 0 <= i < self.servers.len()
                        &&& (#[trigger] self.servers@[i]).0@ == server_id@
                        &&& *c == self.servers@[i].1
                        &&& forall|j: int|
                            0 <= j < i ==> (#[trigger] self.servers@[j]).0@ != server_id@
                    },
                None => forall|j: int|
                    0 <= j < self.servers.len() ==> (#[trigger] self.servers@[j]).0@ != server_id@,
            },
    {
        let n = self.servers.len();
        let mut i: usize = 0;
        while i < n
            invariant
                0 <= i <= n,
                n == self.servers.len(),
                forall|j: int| 0 <= j < i ==> (#[trigger] self.servers@[j]).0@ != server_id@,
            decreases n - i,
        {
            if str_eq(self.servers[i].0.as_str(), server_id) {
                assert(self.servers@[i as int].0@ == server_id@);
                return Some(&self.servers[i].1);
            }
            i += 1;
        }
        None
    }

    /// All configured server ids, in file order.
    pub fn server_ids(&self) -> (r: Vec<String>)
        ensures
            r.len() == self.servers.len(),
            forall|i: int| 0 <= i < r.len() ==> (#[trigger] r@[i])@ == self.servers@[i].0@,
    {
        let n = self.servers.len();
        let mut out: Vec<String> = Vec::new();
        let mut i: usize = 0;
        while i < n
            invariant
                0 <= i <= n,
                n == self.servers.len(),
                out.len() == i,
                forall|j: int| 0 <= j < i ==> (#[trigger] out@[j])@ == self.servers@[j].0@,
            decreases n - i,
        {
            out.push(self.servers[i].0.clone());
            i += 1;
        }
        out
    }
}

impl Default for ServerConfig {
    /// Two example entries: a local development server reached without
    /// encryption, and a public demonstration server.
    fn default() -> (r: Self)
        ensures
            r.servers.len() == 2,
            r.servers@[0].0@ == "local"@,
            r.servers@[0].1.name@ == "Local gRPC Server"@,
            r.servers@[0].1.endpoint@ == "localhost:9090"@,
            r.servers@[0].1.plaintext,
            r.servers@[0].1.ca_cert is None,
            r.servers@[0].1.headers@.len() == 0,
            r.servers@[0].1.description matches Some(d) && d@ == "Local development gRPC server"@,
            r.servers@[1].0@ == "reflection-demo"@,
            r.servers@[1].1.name@ == "gRPC Reflection Demo"@,
            r.servers@[1].1.endpoint@ == "grpcb.in:9000"@,
            !r.servers@[1].1.plaintext,
            r.servers@[1].1.ca_cert is None,
            r.servers@[1].1.headers@.len() == 0,
            r.servers@[1].1.description matches Some(d) && d@
                == "Public gRPC server with reflection enabled"@,
    {
        let mut servers: Vec<(String, GrpcServerConfig)> = Vec::new();
        servers.push(
            (
                String::from_str("local"),
                GrpcServerConfig {
                    name: String::from_str("Local gRPC Server"),
                    endpoint: String::from_str("localhost:9090"),
                    plaintext: true,
                    ca_cert: None,
                    headers: Vec::new(),
                    description: Some(String::from_str("Local development gRPC server")),
                },
            ),
        );
        servers.push(
            (
                String::from_str("reflection-demo"),
                GrpcServerConfig {
                    name: String::from_str("gRPC Reflection Demo"),
                    endpoint: String::from_str("grpcb.in:9000"),
                    plaintext: false,
                    ca_cert: None,
                    headers: Vec::new(),
                    description: Some(String::from_str("Public gRPC server with reflection enabled")),
                },
            ),
        );
        Self { servers }
    }
}

} // verus!
