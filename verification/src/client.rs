//! The client instance: one endpoint, its default call options, and the
//! caches that make repeated calls cheap. The async transport driving lives
//! outside and consults the verified planners and caches here.

use vstd::prelude::*;

use crate::cache::PerformanceCache;
use crate::domain::Endpoint;
use crate::domain::OutputFormat;
use crate::domain::spec_host_port_err;
use crate::domain::spec_host_port_ok;
use crate::domain::spec_scheme_split;
use crate::errors::GrpcClientError;
use crate::server::config::GrpcServerConfig;

verus! {

/// One client: endpoint, default headers, output format, security choices,
/// and a cache instance of its own (two clients share nothing).
#[derive(Debug, Clone)]
pub struct GrpcClient {
    pub endpoint: Endpoint,
    pub headers: Vec<(String, String)>,
    pub format: OutputFormat,
    pub verbose: bool,
    pub ca_cert_path: Option<String>,
    pub plaintext: bool,
    pub cache: PerformanceCache,
}

impl GrpcClient {
    /// Builds a client from one server's configuration: the endpoint string
    /// is parsed, the configured headers are carried over in order, output
    /// defaults to pretty JSON, and the caches start empty.
    pub fn from_config(config: &GrpcServerConfig) -> (r: Result<Self, GrpcClientError>)
        ensures
            (match r {
                Ok(c) => {
                    &&& spec_host_port_ok(
                        spec_scheme_split(config.endpoint@).0,
                        spec_scheme_split(config.endpoint@).1,
                        c.endpoint,
                    )
                    &&& c.headers@ == config.headers@
                    &&& c.format == (OutputFormat::Json { pretty: true, emit_defaults: false })
                    &&& !c.verbose
                    &&& c.ca_cert_path == config.ca_cert
                    &&& c.plaintext == config.plaintext
                    &&& c.cache.connections_map() == Map::<
                        Seq<char>,
                        tonic::transport::Channel,
                    >::empty()
                    &&& c.cache.pools_map() == Map::<
                        Seq<char>,
                        prost_reflect::DescriptorPool,
                    >::empty()
                },
                Err(_) => spec_host_port_err(spec_scheme_split(config.endpoint@).0),
            }),
            r is Err ==> r matches Err(GrpcClientError::InvalidReference(_)),
    {
        let endpoint = match Endpoint::parse(config.endpoint.as_str()) {
            Ok(e) => e,
            Err(e) => {
                return Err(e);
            },
        };
        let n = config.headers.len();
        let mut headers: Vec<(String, String)> = Vec::new();
        let mut i: usize = 0;
        while i < n
            invariant
                0 <= i <= n,
                n == config.headers.len(),
                headers@ =~= config.headers@.subrange(0, i as int),
            decreases n - i,
        {
            let pair = &config.headers[i];
            headers.push((pair.0.clone(), pair.1.clone()));
            proof {
                assert(headers@ =~= config.headers@.subrange(0, i + 1));
            }
            i += 1;
        }
        proof {
            assert(config.headers@.subrange(0, n as int) =~= config.headers@);
        }
        let ca_cert_path = match &config.ca_cert {
            Some(p) => Some(p.clone()),
            None => None,
        };
        Ok(
            Self {
                endpoint,
                headers,
                format: OutputFormat::Json { pretty: true, emit_defaults: false },
                verbose: false,
                ca_cert_path,
                plaintext: config.plaintext,
                cache: PerformanceCache::new(),
            },
        )
    }
}

} // verus!
