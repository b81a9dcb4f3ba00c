//! The transport provider's configuration: a builder for connection options
//! and the security-mode decision for a channel. Opening the channel itself
//! is network work and happens outside; every choice made before it is
//! verified here.

use vstd::prelude::*;
use vstd::string::StringExecFns;

use crate::domain::spec_decimal_of;
use crate::domain::u16_to_string;
use crate::domain::Endpoint;
use crate::domain::SecurityConfig;

verus! {

#[verifier::external_type_specification]
#[verifier::external_body]
pub struct ExChannel(tonic::transport::Channel);

/// The connect and per-request timeout used when none is chosen, in seconds.
pub const DEFAULT_TIMEOUT_SECS: u64 = 10;

/// Collects the options of a connection before it is opened.
#[derive(Debug)]
pub struct ConnectionBuilder {
    pub endpoint: Option<Endpoint>,
    pub security: Option<SecurityConfig>,
    pub timeout: Option<core::time::Duration>,
    pub headers: Vec<(String, String)>,
}

impl ConnectionBuilder {
    /// A builder with nothing chosen yet.
    pub fn new() -> (r: Self)
        ensures
            r.endpoint is None,
            r.security is None,
            r.timeout is None,
            r.headers@ == Seq::<(String, String)>::empty(),
    {
        let r = Self { endpoint: None, security: None, timeout: None, headers: Vec::new() };
        proof {
            assert(r.headers@.len() == 0);
            assert(r.headers@ =~= Seq::<(String, String)>::empty());
        }
        r
    }

    /// Chooses the endpoint to connect to.
    pub fn endpoint(self, endpoint: Endpoint) -> (r: Self)
        ensures
            r.endpoint == Some(endpoint),
            r.security == self.security,
            r.timeout == self.timeout,
            r.headers == self.headers,
    {
        Self { endpoint: Some(endpoint), ..self }
    }

    /// Chooses the security mode.
    pub fn security(self, config: SecurityConfig) -> (r: Self)
        ensures
            r.security == Some(config),
            r.endpoint == self.endpoint,
            r.timeout == self.timeout,
            r.headers == self.headers,
    {
        Self { security: Some(config), ..self }
    }

    /// Chooses the connect and per-request timeout.
    pub fn timeout(self, timeout: core::time::Duration) -> (r: Self)
        ensures
            r.timeout == Some(timeout),
            r.endpoint == self.endpoint,
            r.security == self.security,
            r.headers == self.headers,
    {
        Self { timeout: Some(timeout), ..self }
    }

    /// Adds one default header.
    pub fn header(self, name: String, value: String) -> (r: Self)
        ensures
            r.headers@ == self.headers@.push((name, value)),
            r.endpoint == self.endpoint,
            r.security == self.security,
            r.timeout == self.timeout,
    {
        let mut headers = self.headers;
        headers.push((name, value));
        Self { headers, ..self }
    }

    /// Adds a batch of default headers, in order.
    pub fn headers(self, headers: Vec<(String, String)>) -> (r: Self)
        ensures
            r.headers@ == self.headers@ + headers@,
            r.endpoint == self.endpoint,
            r.security == self.security,
            r.timeout == self.timeout,
    {
        let mut mine = self.headers;
        let mut rest = headers;
        let ghost sofar = mine@;
        let ghost added = rest@;
        let ghost mut k: int = 0;
        while rest.len() != 0
            invariant
                0 <= k <= added.len(),
                rest@ =~= added.subrange(k, added.len() as int),
                mine@ =~= sofar + added.subrange(0, k),
            decreases rest@.len(),
        {
            let pair = rest.remove(0);
            mine.push(pair);
            proof {
                assert(added.subrange(k, added.len() as int)[0] == added[k]);
                let t = added.subrange(0, k + 1);
                assert(t.drop_last() =~= added.subrange(0, k));
                k = k + 1;
            }
        }
        proof {
            assert(added.subrange(0, added.len() as int) =~= added);
        }
        Self { headers: mine, ..self }
    }
}

impl Default for ConnectionBuilder {
    fn default() -> (r: Self)
        ensures
            r.endpoint is None,
            r.security is None,
            r.timeout is None,
            r.headers@ == Seq::<(String, String)>::empty(),
    {
        Self::new()
    }
}

/// Starts building a connection.
pub fn connect() -> (r: ConnectionBuilder)
    ensures
        r.endpoint is None,
        r.security is None,
        r.timeout is None,
        r.headers@ == Seq::<(String, String)>::empty(),
{
    ConnectionBuilder::new()
}

/// The URI a channel to `endpoint` is opened with: the scheme chosen by the
/// security mode, then `host:port` with the port in its shortest numeral.
pub fn channel_uri(endpoint: &Endpoint, secure: bool) -> (r: String)
    ensures
        exists|d: Seq<char>|
            #[trigger] spec_decimal_of(endpoint.port as int, d) && r@ == (if secure {
                "https://"@
            } else {
                "http://"@
            }) + endpoint.host@ + ":"@ + d,
{
    let scheme = if secure {
        "https://"
    } else {
        "http://"
    };
    let port = u16_to_string(endpoint.port);
    let r = String::from_str(scheme).concat(endpoint.host.as_str()).concat(":").concat(
        port.as_str(),
    );
    proof {
        assert(spec_decimal_of(endpoint.port as int, port@));
    }
    r
}

/// The security mode a channel is opened with: plaintext wins over
/// everything, a secure endpoint takes the verification-authority file when
/// one is given, and an insecure endpoint is plaintext.
pub fn channel_security(endpoint: &Endpoint, plaintext: bool, ca_cert_path: &Option<String>) -> (r:
    SecurityConfig)
    ensures
        plaintext ==> r is Plaintext,
        !plaintext && !endpoint.tls ==> r is Plaintext,
        !plaintext && endpoint.tls ==> (r matches SecurityConfig::Tls {
            ca_cert,
            client_cert,
            client_key,
            server_name,
        } && {
            &&& (match ca_cert_path {
                Some(p) => ca_cert matches Some(q) && q@ == p@,
                None => ca_cert is None,
            })
            &&& client_cert is None
            &&& client_key is None
            &&& server_name is None
        }),
{
    if plaintext {
        SecurityConfig::Plaintext
    } else if endpoint.tls {
        match ca_cert_path {
            Some(path) => SecurityConfig::Tls {
                ca_cert: Some(path.clone()),
                client_cert: None,
                client_key: None,
                server_name: None,
            },
            None => SecurityConfig::default(),
        }
    } else {
        SecurityConfig::Plaintext
    }
}

} // verus!
