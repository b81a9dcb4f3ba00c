//! The resource cache: open connections by endpoint string, assembled
//! descriptor pools by `(host, input type, output type)` key. A second call
//! to the same endpoint or method pair is answered from here and pays no
//! resolution cost.

use vstd::prelude::*;
use vstd::string::StringExecFns;

use crate::assoc::StrMap;
use crate::domain::spec_decimal_of;
use crate::domain::u16_to_string;
use crate::domain::Endpoint;

verus! {

/// Connection and descriptor-pool caches of one client instance.
#[derive(Debug, Clone)]
pub struct PerformanceCache {
    connections: StrMap<tonic::transport::Channel>,
    descriptor_pools: StrMap<prost_reflect::DescriptorPool>,
}

impl PerformanceCache {
    /// The connections stored so far, by endpoint string.
    pub closed spec fn connections_map(&self) -> Map<Seq<char>, tonic::transport::Channel> {
        self.connections@
    }

    /// The descriptor pools stored so far, by cache key.
    pub closed spec fn pools_map(&self) -> Map<Seq<char>, prost_reflect::DescriptorPool> {
        self.descriptor_pools@
    }

    /// A cache with nothing stored.
    pub fn new() -> (r: Self)
        ensures
            r.connections_map() == Map::<Seq<char>, tonic::transport::Channel>::empty(),
            r.pools_map() == Map::<Seq<char>, prost_reflect::DescriptorPool>::empty(),
    {
        Self { connections: StrMap::new(), descriptor_pools: StrMap::new() }
    }

    /// The connection stored under `key`, if any; a hit means the transport's
    /// connect path is not taken again.
    pub fn get_connection(&self, key: &str) -> (r: Option<&tonic::transport::Channel>)
        ensures
            match r {
                Some(c) => self.connections_map().contains_key(key@) && *c
                    == self.connections_map().index(key@),
                None => !self.connections_map().contains_key(key@),
            },
    {
        self.connections.get(key)
    }

    /// Stores an open connection under `key` for reuse.
    pub fn store_connection(&mut self, key: String, channel: tonic::transport::Channel)
        ensures
            final(self).connections_map() == old(self).connections_map().insert(key@, channel),
            final(self).pools_map() == old(self).pools_map(),
    {
        self.connections.insert(key, channel);
    }

    /// The descriptor pool stored under `key`, if any.
    pub fn get_descriptor_pool(&self, key: &str) -> (r: Option<&prost_reflect::DescriptorPool>)
        ensures
            match r {
                Some(p) => self.pools_map().contains_key(key@) && *p == self.pools_map().index(
                    key@,
                ),
                None => !self.pools_map().contains_key(key@),
            },
    {
        self.descriptor_pools.get(key)
    }

    /// Stores an assembled descriptor pool under `key` for reuse.
    pub fn store_descriptor_pool(&mut self, key: String, pool: prost_reflect::DescriptorPool)
        ensures
            final(self).pools_map() == old(self).pools_map().insert(key@, pool),
            final(self).connections_map() == old(self).connections_map(),
    {
        self.descriptor_pools.insert(key, pool);
    }
}

impl Default for PerformanceCache {
    fn default() -> (r: Self)
        ensures
            r.connections_map() == Map::<Seq<char>, tonic::transport::Channel>::empty(),
            r.pools_map() == Map::<Seq<char>, prost_reflect::DescriptorPool>::empty(),
    {
        Self::new()
    }
}

/// Cache round trip: after `store_connection` records a connection for an
/// endpoint string, `get_connection` on the resulting cache answers that
/// string with exactly the stored handle, so the expensive connect path runs
/// once per endpoint.
pub proof fn lemma_connection_cache_round_trip(
    pre: PerformanceCache,
    post: PerformanceCache,
    key: Seq<char>,
    channel: tonic::transport::Channel,
)
    requires
        post.connections_map() == pre.connections_map().insert(key, channel),
    ensures
        post.connections_map().contains_key(key),
        post.connections_map().index(key) == channel,
{
}

/// The connection cache key of an endpoint: `host:port`, the port in its
/// shortest decimal numeral.
pub fn connection_cache_key(endpoint: &Endpoint) -> (r: String)
    ensures
        exists|d: Seq<char>|
            #[trigger] spec_decimal_of(endpoint.port as int, d) && r@ == endpoint.host@ + ":"@ + d,
{
    let port = u16_to_string(endpoint.port);
    let r = String::from_str(endpoint.host.as_str()).concat(":").concat(port.as_str());
    proof {
        assert(spec_decimal_of(endpoint.port as int, port@));
    }
    r
}

/// The cache key of a descriptor pool: the host and the two type names.
pub fn pool_cache_key(host: &str, input_type: &str, output_type: &str) -> (r: String)
    ensures
        r@ == host@ + ":"@ + input_type@ + ":"@ + output_type@,
{
    String::from_str(host).concat(":").concat(input_type).concat(":").concat(output_type)
}

} // verus!
