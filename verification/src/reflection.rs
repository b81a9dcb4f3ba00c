//! The schema resolver: descriptor data model, streaming-shape derivation,
//! service parsing out of decoded file descriptors, and the per-connection
//! decode caches, written as a sans-I/O state machine. The network round
//! trips themselves are driven by the caller; every decision between them is
//! verified here.

use vstd::prelude::*;
use vstd::string::StrSliceExecFns;
use vstd::string::StringExecFns;

use crate::assoc::StrMap;
use crate::domain::MethodName;
use crate::domain::ServiceName;
use crate::errors::GrpcClientError;
use crate::strutil::contains_char;
use crate::strutil::find_last;
use crate::strutil::is_last_index_of;
use crate::strutil::str_eq;

verus! {

/// The four call shapes, decided by the two streaming flags of a method.
#[derive(Debug, Clone, Copy, PartialEq, Eq, Structural)]
pub enum StreamingType {
    /// One request, one response.
    Unary,
    /// One request, a stream of responses.
    ServerStream,
    /// A stream of requests, one response.
    ClientStream,
    /// Streams in both directions.
    BiDirectional,
}

/// The shape a method with the given streaming flags calls for.
pub open spec fn spec_streaming_shape(client_streaming: bool, server_streaming: bool)
    -> StreamingType {
    if client_streaming && server_streaming {
        StreamingType::BiDirectional
    } else if client_streaming {
        StreamingType::ClientStream
    } else if server_streaming {
        StreamingType::ServerStream
    } else {
        StreamingType::Unary
    }
}

/// Derives the streaming shape from the two flags.
pub fn streaming_shape(client_streaming: bool, server_streaming: bool) -> (r: StreamingType)
    ensures
        r == spec_streaming_shape(client_streaming, server_streaming),
{
    if client_streaming && server_streaming {
        StreamingType::BiDirectional
    } else if client_streaming {
        StreamingType::ClientStream
    } else if server_streaming {
        StreamingType::ServerStream
    } else {
        StreamingType::Unary
    }
}

/// The shape table in full: each flag combination maps to its own shape.
pub proof fn lemma_streaming_shape_table()
    ensures
        spec_streaming_shape(false, false) == StreamingType::Unary,
        spec_streaming_shape(false, true) == StreamingType::ServerStream,
        spec_streaming_shape(true, false) == StreamingType::ClientStream,
        spec_streaming_shape(true, true) == StreamingType::BiDirectional,
{
}

/// A resolved method: its names, message types and call shape.
#[derive(Debug, Clone, PartialEq)]
pub struct MethodDescriptor {
    pub name: MethodName,
    pub service: ServiceName,
    pub input_type: String,
    pub output_type: String,
    pub client_streaming: bool,
    pub server_streaming: bool,
    pub streaming_type: StreamingType,
    pub description: Option<String>,
}

/// A resolved service and its ordered method list.
#[derive(Debug, Clone, PartialEq)]
pub struct ServiceDescriptor {
    pub name: ServiceName,
    pub methods: Vec<MethodDescriptor>,
    pub description: Option<String>,
}

/// A message layout summary, as far as discovery reports it.
#[derive(Debug, Clone, PartialEq)]
pub struct MessageDescriptor {
    pub name: String,
    pub fields: Vec<FieldDescriptor>,
    pub description: Option<String>,
}

/// One field of a message layout.
#[derive(Debug, Clone, PartialEq)]
pub struct FieldDescriptor {
    pub name: String,
    pub field_type: String,
    pub number: i32,
    pub optional: bool,
    pub repeated: bool,
}

/// What an arbitrary symbol string resolved to.
#[derive(Debug, Clone, PartialEq)]
pub enum Symbol {
    Service(ServiceDescriptor),
    Method(MethodDescriptor),
    Message(MessageDescriptor),
}

/// One method of a service, as a file descriptor declares it.
#[derive(Debug, Clone, PartialEq)]
pub struct MethodProto {
    pub name: String,
    pub input_type: String,
    pub output_type: String,
    pub client_streaming: bool,
    pub server_streaming: bool,
}

/// One service of a file descriptor.
#[derive(Debug, Clone, PartialEq)]
pub struct ServiceProto {
    pub name: String,
    pub methods: Vec<MethodProto>,
}

/// A decoded file descriptor: its name, package, declared services, and the
/// raw bytes it was decoded from (kept for descriptor-pool assembly).
#[derive(Debug, Clone, PartialEq)]
pub struct FileDescriptorInfo {
    pub name: String,
    pub package: String,
    pub services: Vec<ServiceProto>,
    pub raw: Vec<u8>,
}

/// Builds one method summary out of a decoded method declaration, through
/// the prost-types field accessors.
fn convert_method_proto(m: &prost_types::MethodDescriptorProto) -> (r: MethodProto) {
    MethodProto {
        name: crate::codec::method_proto_name(m),
        input_type: crate::codec::method_proto_input_type(m),
        output_type: crate::codec::method_proto_output_type(m),
        client_streaming: crate::codec::method_proto_client_streaming(m),
        server_streaming: crate::codec::method_proto_server_streaming(m),
    }
}

/// Builds one service summary out of a decoded service declaration, its
/// methods in declaration order.
fn convert_service_proto(s: &prost_types::ServiceDescriptorProto) -> (r: ServiceProto) {
    let methods_src = crate::codec::service_proto_methods(s);
    let n = methods_src.len();
    let mut methods: Vec<MethodProto> = Vec::new();
    let mut i: usize = 0;
    while i < n
        invariant
            0 <= i <= n,
            n == methods_src.len(),
        decreases n - i,
    {
        methods.push(convert_method_proto(&methods_src[i]));
        i += 1;
    }
    ServiceProto { name: crate::codec::service_proto_name(s), methods }
}

/// Decodes raw file-descriptor bytes into the plain summary the resolver
/// works on; the raw bytes are kept for descriptor-pool assembly. Succeeds
/// exactly when the bytes parse as a file descriptor.
fn decode_file_descriptor_bytes(bytes: &Vec<u8>) -> (r: Result<
    FileDescriptorInfo,
    GrpcClientError,
>)
    ensures
        r is Ok <==> crate::codec::file_decodes(bytes@),
        (r matches Ok(f) ==> f.raw@ == bytes@),
        r is Err ==> r matches Err(GrpcClientError::DecodeFailure(_)),
{
    let fd = match crate::codec::decode_file_proto(bytes) {
        Ok(fd) => fd,
        Err(e) => {
            return Err(e);
        },
    };
    let services_src = crate::codec::file_proto_services(&fd);
    let n = services_src.len();
    let mut services: Vec<ServiceProto> = Vec::new();
    let mut i: usize = 0;
    while i < n
        invariant
            0 <= i <= n,
            n == services_src.len(),
        decreases n - i,
    {
        services.push(convert_service_proto(&services_src[i]));
        i += 1;
    }
    Ok(
        FileDescriptorInfo {
            name: crate::codec::file_proto_name(&fd),
            package: crate::codec::file_proto_package(&fd),
            services,
            raw: crate::codec::copy_bytes(bytes),
        },
    )
}

/// A type name with its leading dot stripped.
pub open spec fn spec_strip_leading_dot(s: Seq<char>) -> Seq<char> {
    if s.len() > 0 && s[0] == '.' {
        s.subrange(1, s.len() as int)
    } else {
        s
    }
}

/// The fully qualified name of a service inside a package.
pub open spec fn spec_full_service_name(package: Seq<char>, name: Seq<char>) -> Seq<char> {
    if package.len() == 0 {
        name
    } else {
        package + "."@ + name
    }
}

/// A service declaration answers for `target` when its fully qualified or its
/// bare name equals it.
pub open spec fn spec_service_matches(svc: ServiceProto, package: Seq<char>, target: Seq<char>)
    -> bool {
    spec_full_service_name(package, svc.name@) == target || svc.name@ == target
}

/// What a built method descriptor owes to its declaration.
pub open spec fn spec_built_method(
    mp: MethodProto,
    service_name: Seq<char>,
    md: MethodDescriptor,
) -> bool {
    &&& md.name@ == mp.name@
    &&& md.service@ == service_name
    &&& md.input_type@ == spec_strip_leading_dot(mp.input_type@)
    &&& md.output_type@ == spec_strip_leading_dot(mp.output_type@)
    &&& md.client_streaming == mp.client_streaming
    &&& md.server_streaming == mp.server_streaming
    &&& md.streaming_type == spec_streaming_shape(mp.client_streaming, mp.server_streaming)
    &&& md.description is None
}

/// What a built service descriptor owes to its declaration.
pub open spec fn spec_built_service(
    sp: ServiceProto,
    full_name: Seq<char>,
    d: ServiceDescriptor,
) -> bool {
    &&& d.name@ == full_name
    &&& d.description is None
    &&& d.methods.len() == sp.methods.len()
    &&& forall|i: int|
        0 <= i < sp.methods.len() ==> spec_built_method(
            sp.methods[i],
            full_name,
            #[trigger] d.methods[i],
        )
}

/// A successful service parse: the first matching declaration in the file was
/// built, under its fully qualified name.
pub open spec fn spec_service_found(
    file: FileDescriptorInfo,
    target: Seq<char>,
    d: ServiceDescriptor,
) -> bool {
    exists|i: int|
        {
            &&& 0 <= i < file.services.len()
            &&& #[trigger] spec_service_matches(file.services[i], file.package@, target)
            &&& forall|j: int|
                0 <= j < i ==> !spec_service_matches(
                    #[trigger] file.services[j],
                    file.package@,
                    target,
                )
            &&& spec_built_service(
                file.services[i],
                spec_full_service_name(file.package@, file.services[i].name@),
                d,
            )
        }
}

/// The caches a resolver keeps over one connection: service descriptors by
/// fully qualified service name, decoded file descriptors by file name. The
/// network fetches happen outside; this state decides when one is needed and
/// digests what it returned.
#[derive(Debug)]
pub struct ReflectionClient {
    service_cache: StrMap<ServiceDescriptor>,
    file_cache: StrMap<FileDescriptorInfo>,
}

impl ReflectionClient {
    /// The service descriptors recorded so far, by service name.
    pub closed spec fn service_map(&self) -> Map<Seq<char>, ServiceDescriptor> {
        self.service_cache@
    }

    /// The file descriptors recorded so far, by file name.
    pub closed spec fn file_map(&self) -> Map<Seq<char>, FileDescriptorInfo> {
        self.file_cache@
    }

    /// A fresh resolver with empty caches.
    pub fn new() -> (r: Self)
        ensures
            r.service_map() == Map::<Seq<char>, ServiceDescriptor>::empty(),
            r.file_map() == Map::<Seq<char>, FileDescriptorInfo>::empty(),
    {
        Self { service_cache: StrMap::new(), file_cache: StrMap::new() }
    }

    /// Forgets everything recorded on this connection.
    pub fn clear_cache(&mut self)
        ensures
            final(self).service_map() == Map::<Seq<char>, ServiceDescriptor>::empty(),
            final(self).file_map() == Map::<Seq<char>, FileDescriptorInfo>::empty(),
    {
        self.service_cache.clear();
        self.file_cache.clear();
    }

    /// The recorded descriptor of `service`, if an earlier resolution cached
    /// it; a hit means no network round trip is needed.
    pub fn cached_service(&self, service: &str) -> (r: Option<&ServiceDescriptor>)
        ensures
            match r {
                Some(d) => self.service_map().contains_key(service@) && *d
                    == self.service_map().index(service@),
                None => !self.service_map().contains_key(service@),
            },
    {
        self.service_cache.get(service)
    }

    /// The recorded file descriptor under `key`, if any.
    pub fn cached_file(&self, key: &str) -> (r: Option<&FileDescriptorInfo>)
        ensures
            match r {
                Some(f) => self.file_map().contains_key(key@) && *f == self.file_map()[key@],
                None => !self.file_map().contains_key(key@),
            },
    {
        self.file_cache.get(key)
    }

    /// Digests the raw bytes a file-descriptor fetch returned: decodes them
    /// and records the file under its own name, returning that name. It
    /// succeeds exactly when the bytes parse as a file descriptor; the
    /// service cache is untouched, and nothing is recorded on failure.
    pub fn ingest_file(&mut self, bytes: &Vec<u8>) -> (r: Result<String, GrpcClientError>)
        ensures
            r is Ok <==> crate::codec::file_decodes(bytes@),
            match r {
                Ok(name) => {
                    &&& final(self).file_map().contains_key(name@)
                    &&& final(self).file_map()[name@].name@ == name@
                    &&& final(self).file_map()[name@].raw@ == bytes@
                    &&& final(self).file_map() == old(self).file_map().insert(
                        name@,
                        final(self).file_map()[name@],
                    )
                    &&& final(self).service_map() == old(self).service_map()
                },
                Err(e) => {
                    &&& final(self).file_map() == old(self).file_map()
                    &&& final(self).service_map() == old(self).service_map()
                    &&& e matches GrpcClientError::DecodeFailure(_)
                },
            },
    {
        match decode_file_descriptor_bytes(bytes) {
            Ok(f) => {
                let name = f.name.clone();
                self.file_cache.insert(f.name.clone(), f);
                Ok(name)
            },
            Err(e) => Err(e),
        }
    }

    /// Parses the named service out of `file` and records its descriptor in
    /// the cache, so later resolutions of the same name are answered without
    /// a fetch. It fails exactly when no declaration in the file answers for
    /// the name, and nothing is then recorded.
    pub fn record_service(&mut self, file: &FileDescriptorInfo, service: &str) -> (r: Result<
        (),
        GrpcClientError,
    >)
        ensures
            r is Err <==> (forall|j: int|
                0 <= j < file.services.len() ==> !spec_service_matches(
                    #[trigger] file.services@[j],
                    file.package@,
                    service@,
                )),
            match r {
                Ok(()) => {
                    &&& final(self).service_map().contains_key(service@)
                    &&& spec_service_found(*file, service@, final(self).service_map()[service@])
                    &&& final(self).service_map() == old(self).service_map().insert(
                        service@,
                        final(self).service_map()[service@],
                    )
                    &&& final(self).file_map() == old(self).file_map()
                },
                Err(e) => {
                    &&& final(self).service_map() == old(self).service_map()
                    &&& final(self).file_map() == old(self).file_map()
                    &&& e matches GrpcClientError::SymbolNotFound(_)
                },
            },
    {
        match self.parse_service_from_file(file, service) {
            Ok(d) => {
                self.service_cache.insert(String::from_str(service), d);
                Ok(())
            },
            Err(e) => Err(e),
        }
    }

    /// Finds the first declaration in `file` whose fully qualified or bare
    /// name is `service_name` and builds its descriptor.
    pub fn parse_service_from_file(
        &self,
        file: &FileDescriptorInfo,
        service_name: &str,
    ) -> (r: Result<ServiceDescriptor, GrpcClientError>)
        ensures
            (r matches Ok(d) ==> spec_service_found(*file, service_name@, d)),
            r is Err <==> (forall|j: int|
                0 <= j < file.services.len() ==> !spec_service_matches(
                    #[trigger] file.services@[j],
                    file.package@,
                    service_name@,
                )),
            r is Err ==> r matches Err(GrpcClientError::SymbolNotFound(_)),
    {
        let n = file.services.len();
        let package_empty = file.package.as_str().unicode_len() == 0;
        let mut i: usize = 0;
        while i < n
            invariant
                0 <= i <= n,
                n == file.services.len(),
                package_empty == (file.package@.len() == 0),
                forall|j: int|
                    0 <= j < i ==> !spec_service_matches(
                        #[trigger] file.services@[j],
                        file.package@,
                        service_name@,
                    ),
            decreases n - i,
        {
            let svc = &file.services[i];
            let full_name: String = if package_empty {
                svc.name.clone()
            } else {
                file.package.clone().concat(".").concat(svc.name.as_str())
            };
            proof {
                reveal_strlit(".");
                assert(full_name@ == spec_full_service_name(file.package@, svc.name@));
            }
            if str_eq(full_name.as_str(), service_name) || str_eq(svc.name.as_str(), service_name) {
                let d = self.build_service_descriptor(svc, full_name.as_str(), file.package.as_str());
                proof {
                    assert(spec_service_matches(
                        file.services@[i as int],
                        file.package@,
                        service_name@,
                    ));
                    assert(spec_built_service(
                        file.services@[i as int],
                        spec_full_service_name(file.package@, file.services@[i as int].name@),
                        d,
                    ));
                }
                return Ok(d);
            }
            i += 1;
        }
        Err(
            GrpcClientError::SymbolNotFound(
                String::from_str("Service ").concat(service_name).concat(
                    " not found in file descriptor",
                ),
            ),
        )
    }

    /// Builds a service descriptor from a declaration, under `full_name`.
    pub fn build_service_descriptor(
        &self,
        service: &ServiceProto,
        full_name: &str,
        package: &str,
    ) -> (r: ServiceDescriptor)
        ensures
            spec_built_service(*service, full_name@, r),
    {
        let n = service.methods.len();
        let mut methods: Vec<MethodDescriptor> = Vec::new();
        let mut i: usize = 0;
        while i < n
            invariant
                0 <= i <= n,
                n == service.methods.len(),
                methods.len() == i,
                forall|j: int|
                    0 <= j < i ==> spec_built_method(
                        service.methods@[j],
                        full_name@,
                        #[trigger] methods@[j],
                    ),
            decreases n - i,
        {
            let md = self.build_method_descriptor(&service.methods[i], full_name, package);
            methods.push(md);
            i += 1;
        }
        ServiceDescriptor {
            name: ServiceName::new(String::from_str(full_name)),
            methods,
            description: None,
        }
    }

    /// Builds a method descriptor from a declaration: type names lose their
    /// leading dot and the streaming shape is derived from the two flags.
    pub fn build_method_descriptor(
        &self,
        method: &MethodProto,
        service_name: &str,
        _package: &str,
    ) -> (r: MethodDescriptor)
        ensures
            spec_built_method(*method, service_name@, r),
    {
        let input_type = self.resolve_type_name(method.input_type.as_str(), _package);
        let output_type = self.resolve_type_name(method.output_type.as_str(), _package);
        MethodDescriptor {
            name: MethodName::new(method.name.clone()),
            service: ServiceName::new(String::from_str(service_name)),
            input_type,
            output_type,
            client_streaming: method.client_streaming,
            server_streaming: method.server_streaming,
            streaming_type: streaming_shape(method.client_streaming, method.server_streaming),
            description: None,
        }
    }

    /// Normalizes a type name by stripping a leading dot, if present.
    pub fn resolve_type_name(&self, raw_name: &str, _package: &str) -> (r: String)
        ensures
            r@ == spec_strip_leading_dot(raw_name@),
    {
        let len = raw_name.unicode_len();
        if len > 0 && raw_name.get_char(0) == '.' {
            String::from_str(raw_name.substring_char(1, len))
        } else {
            String::from_str(raw_name)
        }
    }

    /// Turns the plain service names a list-services fetch returned into the
    /// validated newtype, in order.
    pub fn parse_service_names(&self, names: Vec<String>) -> (r: Vec<ServiceName>)
        ensures
            r.len() == names.len(),
            forall|i: int| 0 <= i < names.len() ==> (#[trigger] r@[i])@ == names@[i]@,
    {
        let n = names.len();
        let mut out: Vec<ServiceName> = Vec::new();
        let mut i: usize = 0;
        while i < n
            invariant
                0 <= i <= n,
                n == names.len(),
                out.len() == i,
                forall|j: int| 0 <= j < i ==> (#[trigger] out@[j])@ == names@[j]@,
            decreases n - i,
        {
            out.push(ServiceName::new(names[i].clone()));
            i += 1;
        }
        out
    }
}

/// A service recorded by one resolution stays recorded: after
/// `record_service` caches a descriptor under `name`, `cached_service` on
/// the resulting resolver answers `name` from the cache with that very
/// descriptor, so the underlying file descriptor is fetched over the network
/// exactly once per resolver instance.
pub proof fn lemma_repeat_resolution_hits_cache(
    pre: ReflectionClient,
    post: ReflectionClient,
    name: Seq<char>,
    d: ServiceDescriptor,
)
    requires
        post.service_map() == pre.service_map().insert(name, d),
    ensures
        post.service_map().contains_key(name),
        post.service_map()[name] == d,
{
}

/// One candidate reading of a symbol string: a service name, possibly with a
/// method inside it.
#[derive(Debug, Clone, PartialEq)]
pub struct SymbolCandidate {
    pub service: String,
    pub method: Option<String>,
}

/// The readings tried for an arbitrary symbol, in resolution order: the whole
/// string as a service, then a split at the last dot, then at the last slash.
pub fn symbol_candidates(symbol: &str) -> (r: Vec<SymbolCandidate>)
    ensures
        r.len() == 1 + (if contains_char(symbol@, '.') {
            1int
        } else {
            0int
        }) + (if contains_char(symbol@, '/') {
            1int
        } else {
            0int
        }),
        r@[0].service@ == symbol@ && r@[0].method is None,
        contains_char(symbol@, '.') ==> exists|i: int|
            {
                &&& #[trigger] is_last_index_of(symbol@, '.', i)
                &&& r@[1].service@ == symbol@.subrange(0, i)
                &&& r@[1].method matches Some(m) && m@ == symbol@.subrange(
                    i + 1,
                    symbol@.len() as int,
                )
            },
        contains_char(symbol@, '/') ==> exists|i: int|
            {
                &&& #[trigger] is_last_index_of(symbol@, '/', i)
                &&& r@[r.len() - 1].service@ == symbol@.subrange(0, i)
                &&& r@[r.len() - 1].method matches Some(m) && m@ == symbol@.subrange(
                    i + 1,
                    symbol@.len() as int,
                )
            },
{
    let len = symbol.unicode_len();
    let mut out: Vec<SymbolCandidate> = Vec::new();
    out.push(SymbolCandidate { service: String::from_str(symbol), method: None });
    if let Some(i) = find_last(symbol, '.') {
        assert(i < len);
        out.push(
            SymbolCandidate {
                service: String::from_str(symbol.substring_char(0, i)),
                method: Some(String::from_str(symbol.substring_char(i + 1, len))),
            },
        );
    }
    if let Some(i) = find_last(symbol, '/') {
        assert(i < len);
        out.push(
            SymbolCandidate {
                service: String::from_str(symbol.substring_char(0, i)),
                method: Some(String::from_str(symbol.substring_char(i + 1, len))),
            },
        );
    }
    out
}

/// The first method of `service` carrying `method_name`, if any.
pub fn find_method<'a>(service: &'a ServiceDescriptor, method_name: &str) -> (r: Option<
    &'a MethodDescriptor,
>)
    ensures
        match r {
            Some(m) => exists|i: int|
                {
                    &&& 0 <= i < service.methods.len()
                    &&& *m == service.methods@[i]
                    &&& (#[trigger] service.methods@[i]).name@ == method_name@
                    &&& forall|j: int|
                        0 <= j < i ==> (#[trigger] service.methods@[j]).name@ != method_name@
                },
            None => forall|j: int|
                0 <= j < service.methods.len() ==> (#[trigger] service.methods@[j]).name@
                    != method_name@,
        },
{
    let n = service.methods.len();
    let mut i: usize = 0;
    while i < n
        invariant
            0 <= i <= n,
            n == service.methods.len(),
            forall|j: int| 0 <= j < i ==> (#[trigger] service.methods@[j]).name@ != method_name@,
        decreases n - i,
    {
        if str_eq(service.methods[i].name.as_str(), method_name) {
            return Some(&service.methods[i]);
        }
        i += 1;
    }
    None
}

/// The error owed when no reading of a symbol resolves, naming the exact
/// string that failed and the supported formats.
pub fn symbol_not_found_error(symbol: &str) -> (r: GrpcClientError)
    ensures
        r matches GrpcClientError::SymbolNotFound(m) && m@ == "Symbol not found: "@ + symbol@
            + ". Supported formats: 'ServiceName' or 'ServiceName.MethodName' or 'ServiceName/MethodName'"@,
{
    GrpcClientError::SymbolNotFound(
        String::from_str("Symbol not found: ").concat(symbol).concat(
            ". Supported formats: 'ServiceName' or 'ServiceName.MethodName' or 'ServiceName/MethodName'",
        ),
    )
}

} // verus!
