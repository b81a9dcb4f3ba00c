//! Core domain values: validated name newtypes, endpoint parsing, and the
//! output / security configuration choices.

use vstd::prelude::*;
use vstd::string::StrSliceExecFns;
use vstd::string::StringExecFns;

use crate::errors::GrpcClientError;
use crate::strutil::contains_char;
use crate::strutil::find_last;
use crate::strutil::has_prefix;
use crate::strutil::is_last_index_of;
use crate::strutil::is_prefix_of;

verus! {

/// A service name, treated as an opaque string key.
#[derive(Debug, Clone, PartialEq, Eq)]
pub struct ServiceName(String);

impl View for ServiceName {
    type V = Seq<char>;

    closed spec fn view(&self) -> Seq<char> {
        self.0@
    }
}

impl ServiceName {
    pub fn new(name: String) -> (r: Self)
        ensures
            r@ == name@,
    {
        Self(name)
    }

    pub fn as_str(&self) -> (r: &str)
        ensures
            r@ == self@,
    {
        self.0.as_str()
    }
}

/// A method name, treated as an opaque string key.
#[derive(Debug, Clone, PartialEq, Eq)]
pub struct MethodName(String);

impl View for MethodName {
    type V = Seq<char>;

    closed spec fn view(&self) -> Seq<char> {
        self.0@
    }
}

impl MethodName {
    pub fn new(name: String) -> (r: Self)
        ensures
            r@ == name@,
    {
        Self(name)
    }

    pub fn as_str(&self) -> (r: &str)
        ensures
            r@ == self@,
    {
        self.0.as_str()
    }
}

/// A parsed endpoint: after parsing, the port is always present.
#[derive(Debug, Clone)]
pub struct Endpoint {
    pub host: String,
    pub port: u16,
    pub tls: bool,
}

/// `c` is a decimal digit.
pub open spec fn is_dec_digit(c: char) -> bool {
    '0' <= c && c <= '9'
}

/// Every character of `s` is a decimal digit.
pub open spec fn all_dec_digits(s: Seq<char>) -> bool {
    forall|i: int| 0 <= i < s.len() ==> is_dec_digit(#[trigger] s[i])
}

/// The value of `s` read as a decimal numeral.
pub open spec fn dec_value(s: Seq<char>) -> int
    decreases s.len(),
{
    if s.len() == 0 {
        0
    } else {
        dec_value(s.drop_last()) * 10 + (s.last() as int - '0' as int)
    }
}

/// `s` is a digit string that denotes a valid port number.
pub open spec fn valid_port_digits(s: Seq<char>) -> bool {
    s.len() > 0 && all_dec_digits(s) && dec_value(s) <= 65535
}

/// A digit-string prefix never exceeds the value of the whole string.
proof fn lemma_dec_value_prefix_le(s: Seq<char>, i: int)
    requires
        all_dec_digits(s),
        0 <= i <= s.len(),
    ensures
        dec_value(s.subrange(0, i)) <= dec_value(s),
    decreases s.len() - i,
{
    if i < s.len() {
        let t = s.subrange(0, i + 1);
        assert(t.drop_last() =~= s.subrange(0, i));
        assert(dec_value(t) == dec_value(s.subrange(0, i)) * 10 + (s[i] as int - '0' as int));
        assert(dec_value(s.subrange(0, i)) <= dec_value(t)) by {
            assert(dec_value(s.subrange(0, i)) >= 0) by {
                lemma_dec_value_nonneg(s.subrange(0, i));
            }
        }
        lemma_dec_value_prefix_le(s, i + 1);
        assert(s.subrange(0, s.len() as int) =~= s);
    } else {
        assert(s.subrange(0, i) =~= s);
    }
}

/// The decimal value of a digit string is never negative.
proof fn lemma_dec_value_nonneg(s: Seq<char>)
    requires
        all_dec_digits(s),
    ensures
        dec_value(s) >= 0,
    decreases s.len(),
{
    if s.len() > 0 {
        assert(all_dec_digits(s.drop_last()));
        lemma_dec_value_nonneg(s.drop_last());
    }
}

/// Reads a port number from a decimal digit string.
pub fn parse_port(s: &str) -> (r: Option<u16>)
    ensures
        match r {
            Some(p) => valid_port_digits(s@) && p as int == dec_value(s@),
            None => !valid_port_digits(s@),
        },
{
    let len = s.unicode_len();
    if len == 0 {
        return None;
    }
    let mut acc: u32 = 0;
    let mut i: usize = 0;
    while i < len
        invariant
            0 <= i <= len,
            len == s@.len(),
            all_dec_digits(s@.subrange(0, i as int)),
            acc as int == dec_value(s@.subrange(0, i as int)),
            acc <= 65535,
        decreases len - i,
    {
        let c = s.get_char(i);
        if c < '0' || c > '9' {
            return None;
        }
        let d: u32 = c as u32 - '0' as u32;
        proof {
            let t = s@.subrange(0, i + 1);
            assert(t.drop_last() =~= s@.subrange(0, i as int));
            assert(t.last() == s@[i as int]);
        }
        acc = acc * 10 + d;
        i += 1;
        if acc > 65535 {
            proof {
                if all_dec_digits(s@) {
                    lemma_dec_value_prefix_le(s@, i as int);
                    assert(s@.subrange(0, s@.len() as int) =~= s@);
                }
            }
            return None;
        }
    }
    proof {
        assert(s@.subrange(0, len as int) =~= s@);
    }
    Some(acc as u16)
}

/// Ten to the power `k`.
pub open spec fn pow10(k: nat) -> int
    decreases k,
{
    if k == 0 {
        1
    } else {
        10 * pow10((k - 1) as nat)
    }
}

/// Prepending a digit multiplies its weight by ten for every digit after it.
proof fn lemma_dec_value_prepend(c: char, s: Seq<char>)
    ensures
        dec_value(seq![c] + s) == (c as int - '0' as int) * pow10(s.len()) + dec_value(s),
    decreases s.len(),
{
    let d = c as int - '0' as int;
    if s.len() == 0 {
        assert(seq![c] + s =~= seq![c]);
        assert((seq![c]).drop_last() =~= Seq::<char>::empty());
        assert(dec_value(Seq::<char>::empty()) == 0);
        assert((seq![c]).last() == c);
        assert(dec_value(seq![c]) == dec_value(Seq::<char>::empty()) * 10 + d);
    } else {
        let t = seq![c] + s;
        assert(t.drop_last() =~= seq![c] + s.drop_last());
        assert(t.last() == s.last());
        assert(dec_value(t) == dec_value(seq![c] + s.drop_last()) * 10 + (s.last() as int
            - '0' as int));
        lemma_dec_value_prepend(c, s.drop_last());
        assert(dec_value(seq![c] + s.drop_last()) == d * pow10((s.len() - 1) as nat) + dec_value(
            s.drop_last(),
        ));
        assert(d * pow10((s.len() - 1) as nat) * 10 == d * pow10(s.len())) by (nonlinear_arith)
            requires
                pow10(s.len()) == 10 * pow10((s.len() - 1) as nat),
        ;
        assert((d * pow10((s.len() - 1) as nat) + dec_value(s.drop_last())) * 10 == d * pow10(
            (s.len() - 1) as nat,
        ) * 10 + dec_value(s.drop_last()) * 10) by (nonlinear_arith);
        assert(dec_value(s) == dec_value(s.drop_last()) * 10 + (s.last() as int - '0' as int));
    }
}

/// The one-character numeral of a single digit.
fn digit_str(d: u32) -> (r: &'static str)
    requires
        d < 10,
    ensures
        r@.len() == 1,
        is_dec_digit(r@[0]),
        r@[0] as int == '0' as int + d as int,
{
    proof {
        reveal_strlit("0");
        reveal_strlit("1");
        reveal_strlit("2");
        reveal_strlit("3");
        reveal_strlit("4");
        reveal_strlit("5");
        reveal_strlit("6");
        reveal_strlit("7");
        reveal_strlit("8");
        reveal_strlit("9");
    }
    match d {
        0 => "0",
        1 => "1",
        2 => "2",
        3 => "3",
        4 => "4",
        5 => "5",
        6 => "6",
        7 => "7",
        8 => "8",
        _ => "9",
    }
}

/// `s` is the shortest decimal numeral of `n`.
pub open spec fn spec_decimal_of(n: int, s: Seq<char>) -> bool {
    &&& s.len() > 0
    &&& all_dec_digits(s)
    &&& dec_value(s) == n
    &&& (s.len() > 1 ==> s[0] != '0')
}

/// Renders a port number as its shortest decimal numeral.
pub fn u16_to_string(n: u16) -> (r: String)
    ensures
        spec_decimal_of(n as int, r@),
{
    if n == 0 {
        let r = String::from_str(digit_str(0));
        proof {
            assert(r@.len() == 1);
            assert(r@.last() == r@[0]);
            assert(r@.drop_last() =~= Seq::<char>::empty());
            assert(dec_value(Seq::<char>::empty()) == 0);
            assert(dec_value(r@) == dec_value(r@.drop_last()) * 10 + (r@.last() as int
                - '0' as int));
        }
        return r;
    }
    let mut rem: u32 = n as u32;
    let mut out = String::new();
    while rem > 0
        invariant
            rem <= n,
            all_dec_digits(out@),
            n as int == rem as int * pow10(out@.len()) + dec_value(out@),
            rem == 0 ==> out@.len() > 0,
            out@.len() > 0 ==> (rem > 0 || out@[0] != '0'),
        decreases rem,
    {
        let d: u32 = rem % 10;
        let ghost old_out = out@;
        let ghost old_rem = rem as int;
        let piece = digit_str(d);
        rem = rem / 10;
        out = String::from_str(piece).concat(out.as_str());
        proof {
            assert(out@ =~= seq![piece@[0]] + old_out);
            lemma_dec_value_prepend(piece@[0], old_out);
            assert(old_rem == rem as int * 10 + d as int);
            assert(rem as int * 10 * pow10(old_out.len()) == rem as int * pow10(
                old_out.len() + 1,
            )) by (nonlinear_arith)
                requires
                    pow10(old_out.len() + 1) == 10 * pow10(old_out.len()),
            ;
            assert((old_rem * pow10(old_out.len())) == (rem as int * 10 + d as int) * pow10(
                old_out.len(),
            ));
            assert((rem as int * 10 + d as int) * pow10(old_out.len()) == rem as int * 10 * pow10(
                old_out.len(),
            ) + d as int * pow10(old_out.len())) by (nonlinear_arith);
        }
    }
    out
}

/// The address part and security flag left after stripping a scheme prefix.
pub open spec fn spec_scheme_split(s: Seq<char>) -> (Seq<char>, bool) {
    if is_prefix_of("https://"@, s) || is_prefix_of("grpcs://"@, s) {
        (s.subrange(8, s.len() as int), true)
    } else if is_prefix_of("http://"@, s) || is_prefix_of("grpc://"@, s) {
        (s.subrange(7, s.len() as int), false)
    } else {
        (s, true)
    }
}

/// What a successful host:port parse owes: the host is everything before the
/// last colon and the port is its decimal suffix, or the whole string with the
/// scheme's default port when no colon is present.
pub open spec fn spec_host_port_ok(a: Seq<char>, tls: bool, e: Endpoint) -> bool {
    &&& e.tls == tls
    &&& if contains_char(a, ':') {
        exists|i: int|
            {
                &&& #[trigger] is_last_index_of(a, ':', i)
                &&& e.host@ == a.subrange(0, i)
                &&& valid_port_digits(a.subrange(i + 1, a.len() as int))
                &&& e.port as int == dec_value(a.subrange(i + 1, a.len() as int))
            }
    } else {
        e.host@ == a && e.port == (if tls {
            443u16
        } else {
            80u16
        })
    }
}

/// A failed parse reports the text after the last colon as an invalid port.
pub open spec fn spec_port_error_message(a: Seq<char>, m: Seq<char>) -> bool {
    exists|i: int|
        {
            &&& #[trigger] is_last_index_of(a, ':', i)
            &&& !valid_port_digits(a.subrange(i + 1, a.len() as int))
            &&& m == "Invalid port number: "@ + a.subrange(i + 1, a.len() as int)
        }
}

/// A host:port parse fails exactly when the text after the last colon is not a
/// valid port numeral.
pub open spec fn spec_host_port_err(a: Seq<char>) -> bool {
    exists|i: int|
        #[trigger] is_last_index_of(a, ':', i) && !valid_port_digits(
            a.subrange(i + 1, a.len() as int),
        )
}

impl Endpoint {
    /// Parses an address with an optional scheme prefix; `https://` and
    /// `grpcs://` force transport security, `http://` and `grpc://` disable
    /// it, and a bare address defaults to secure.
    pub fn parse(address: &str) -> (r: Result<Self, GrpcClientError>)
        ensures
            (match r {
                Ok(e) => spec_host_port_ok(
                    spec_scheme_split(address@).0,
                    spec_scheme_split(address@).1,
                    e,
                ),
                Err(_) => spec_host_port_err(spec_scheme_split(address@).0),
            }),
            r matches Err(e) ==> e matches GrpcClientError::InvalidReference(m)
                && spec_port_error_message(spec_scheme_split(address@).0, m@),
    {
        if has_prefix(address, "https://") || has_prefix(address, "grpcs://") {
            proof {
                reveal_strlit("https://");
                reveal_strlit("grpcs://");
            }
            let rest = address.substring_char(8, address.unicode_len());
            Self::parse_host_port(rest, true)
        } else if has_prefix(address, "http://") || has_prefix(address, "grpc://") {
            proof {
                reveal_strlit("http://");
                reveal_strlit("grpc://");
            }
            let rest = address.substring_char(7, address.unicode_len());
            Self::parse_host_port(rest, false)
        } else {
            Self::parse_host_port(address, true)
        }
    }

    /// Splits `address` at its last colon into host and port; without a colon
    /// the port defaults from the security flag.
    pub fn parse_host_port(address: &str, tls: bool) -> (r: Result<Self, GrpcClientError>)
        ensures
            (match r {
                Ok(e) => spec_host_port_ok(address@, tls, e),
                Err(_) => spec_host_port_err(address@),
            }),
            r matches Err(e) ==> e matches GrpcClientError::InvalidReference(m)
                && spec_port_error_message(address@, m@),
    {
        let len = address.unicode_len();
        match find_last(address, ':') {
            Some(i) => {
                assert(i < len);
                let host = address.substring_char(0, i);
                let port_str = address.substring_char(i + 1, len);
                match parse_port(port_str) {
                    Some(port) => Ok(Self { host: host.to_owned(), port, tls }),
                    None => Err(
                        GrpcClientError::InvalidReference(
                            String::from_str("Invalid port number: ").concat(port_str),
                        ),
                    ),
                }
            },
            None => Ok(
                Self {
                    host: address.to_owned(),
                    port: if tls {
                        443
                    } else {
                        80
                    },
                    tls,
                },
            ),
        }
    }
}

/// How decoded responses are rendered for the caller.
#[derive(Debug, Clone)]
pub enum OutputFormat {
    Json { pretty: bool, emit_defaults: bool },
    Text { compact: bool },
}

impl Default for OutputFormat {
    fn default() -> (r: Self)
        ensures
            r == (OutputFormat::Json { pretty: true, emit_defaults: false }),
    {
        OutputFormat::Json { pretty: true, emit_defaults: false }
    }
}

/// How a connection is secured; paths are carried as plain strings.
#[derive(Debug, Clone)]
pub enum SecurityConfig {
    Plaintext,
    Tls {
        ca_cert: Option<String>,
        client_cert: Option<String>,
        client_key: Option<String>,
        server_name: Option<String>,
    },
}

impl Default for SecurityConfig {
    fn default() -> (r: Self)
        ensures
            r == (SecurityConfig::Tls {
                ca_cert: None,
                client_cert: None,
                client_key: None,
                server_name: None,
            }),
    {
        SecurityConfig::Tls { ca_cert: None, client_cert: None, client_key: None, server_name: None }
    }
}

} // verus!
