//! Inspection of a parsed request head: which target the client asks for.

use vstd::prelude::*;
use vstd::slice::slice_subrange;
use vstd::string::StringSliceAdditionalSpecFns;
use vstd::utf8::*;
use crate::error::BridgeError;
use crate::text::{
    eq_ignore_ascii_case, eq_ignoring_ascii_case, field_len, first_field_len, parse_port, port_of,
    utf8_text, COLON,
};

verus! {

/// Where a plain proxied request goes when it names no port.
pub const DEFAULT_HTTP_PORT: u16 = 80;

/// Where a tunnel request goes when it names no port.
pub const DEFAULT_CONNECT_PORT: u16 = 443;

/// One header of a request head: its name, and its value as raw bytes.
#[derive(Debug, PartialEq, Eq)]
pub struct Header {
    /// The name, as the client wrote it.
    pub name: String,
    /// The value, without the blanks around it.
    pub value: Vec<u8>,
}

/// The mathematical content of a [`Header`].
pub struct HeaderModel {
    pub name: Seq<char>,
    pub value: Seq<u8>,
}

impl View for Header {
    type V = HeaderModel;

    open spec fn view(&self) -> HeaderModel {
        HeaderModel { name: self.name@, value: self.value@ }
    }
}

/// The contents of a list of headers, in order.
pub open spec fn header_models(headers: Seq<Header>) -> Seq<HeaderModel> {
    Seq::new(headers.len(), |i: int| headers[i]@)
}

/// Where a request is to be sent, and how.
#[derive(Debug, PartialEq, Eq)]
pub struct Target {
    /// The host named by the `Host` header, without its port.
    pub host: String,
    /// The port to connect to.
    pub port: u16,
    /// Whether the buffered request itself is passed on to the target.
    /// False exactly for tunnel requests.
    pub resend: bool,
}

/// The mathematical content of a [`Target`].
pub struct TargetModel {
    pub host: Seq<char>,
    pub port: u16,
    pub resend: bool,
}

impl View for Target {
    type V = TargetModel;

    open spec fn view(&self) -> TargetModel {
        TargetModel { host: self.host@, port: self.port, resend: self.resend }
    }
}

/// The bytes of `connect`.
pub open spec fn connect_token() -> Seq<u8> {
    seq![0x63u8, 0x6fu8, 0x6eu8, 0x6eu8, 0x65u8, 0x63u8, 0x74u8]
}

/// The bytes of `host`.
pub open spec fn host_token() -> Seq<u8> {
    seq![0x68u8, 0x6fu8, 0x73u8, 0x74u8]
}

/// A method asks for a tunnel when it reads `CONNECT`, in any case.
pub open spec fn is_connect(method: Seq<char>) -> bool {
    eq_ignoring_ascii_case(encode_utf8(method), connect_token())
}

/// A header is a host header when its name reads `Host`, in any case.
pub open spec fn names_host(header: HeaderModel) -> bool {
    eq_ignoring_ascii_case(encode_utf8(header.name), host_token())
}

/// Header `i` is the first host header of the list.
pub open spec fn is_first_host(headers: Seq<HeaderModel>, i: int) -> bool {
    &&& 0 <= i < headers.len()
    &&& names_host(headers[i])
    &&& forall|j: int| 0 <= j < i ==> !names_host(headers[j])
}

/// The list holds a host header.
pub open spec fn has_host(headers: Seq<HeaderModel>) -> bool {
    exists|i: int| 0 <= i < headers.len() && names_host(headers[i])
}

/// The port that a method implies when the host header names none.
pub open spec fn default_port(method: Seq<char>) -> u16 {
    if is_connect(method) {
        DEFAULT_CONNECT_PORT
    } else {
        DEFAULT_HTTP_PORT
    }
}

/// The host field of a host header value: what stands before the first
/// colon.
pub open spec fn host_field(value: Seq<u8>) -> Seq<u8> {
    value.take(field_len(value))
}

/// The port field of a host header value that holds a colon: what stands
/// between the first colon and the next one, or the end.
pub open spec fn port_field(value: Seq<u8>) -> Seq<u8> {
    let rest = value.skip(field_len(value) + 1);
    rest.take(field_len(rest))
}

/// The target that a method and a host header value describe.
///
/// The host is the text before the first colon.  Without a colon the port
/// is the one the method implies; with a colon it is the number written
/// behind it.  A value that is not UTF-8, or whose port field is no port
/// number, describes no target.
pub open spec fn target_of(method: Seq<char>, value: Seq<u8>) -> Result<TargetModel, BridgeError> {
    if !valid_utf8(value) {
        Err(BridgeError::InvalidHostHeader)
    } else if field_len(value) == value.len() {
        Ok(
            TargetModel {
                host: decode_utf8(host_field(value)),
                port: default_port(method),
                resend: !is_connect(method),
            },
        )
    } else {
        match port_of(port_field(value)) {
            Some(port) => Ok(
                TargetModel {
                    host: decode_utf8(host_field(value)),
                    port,
                    resend: !is_connect(method),
                },
            ),
            None => Err(BridgeError::InvalidHostHeader),
        }
    }
}

/// What inspecting a request head yields: the target described by its first
/// host header, later ones being ignored; without any host header, an error.
pub open spec fn inspection(method: Seq<char>, headers: Seq<HeaderModel>) -> Result<
    TargetModel,
    BridgeError,
> {
    if has_host(headers) {
        target_of(method, headers[choose|i: int| is_first_host(headers, i)].value)
    } else {
        Err(BridgeError::MissingHostHeader)
    }
}

/// A list of headers has at most one first host header.
pub proof fn first_host_is_unique(headers: Seq<HeaderModel>, i: int)
    requires
        is_first_host(headers, i),
    ensures
        has_host(headers),
        (choose|k: int| is_first_host(headers, k)) == i,
{
    let k = choose|k: int| is_first_host(headers, k);
    assert(is_first_host(headers, k));
}

/// A request is refused for want of a host header exactly when its list
/// holds none.
pub proof fn missing_host_means_no_host_header(method: Seq<char>, headers: Seq<HeaderModel>)
    ensures
        inspection(method, headers) == Err::<TargetModel, BridgeError>(
            BridgeError::MissingHostHeader,
        ) <==> !has_host(headers),
{
}

/// Whatever the headers are, a target is resent exactly when its method is
/// not `CONNECT`, and a host header without a colon leaves the port at 443
/// for `CONNECT` and at 80 for any other method.
pub proof fn method_decides_resend_and_default_port(method: Seq<char>, headers: Seq<HeaderModel>)
    ensures
        inspection(method, headers) matches Ok(target) ==> {
            &&& target.resend == !is_connect(method)
            &&& has_host(headers)
            &&& ({
                let value = headers[choose|i: int| is_first_host(headers, i)].value;
                field_len(value) == value.len() ==> target.port == if is_connect(method) {
                    443u16
                } else {
                    80u16
                }
            })
        },
{
}

/// Headers behind the first host header change nothing.
pub proof fn later_headers_are_ignored(
    method: Seq<char>,
    headers: Seq<HeaderModel>,
    more: Seq<HeaderModel>,
)
    requires
        has_host(headers),
    ensures
        inspection(method, headers + more) == inspection(method, headers),
{
    let k = choose|k: int| 0 <= k < headers.len() && names_host(headers[k]);
    let i = first_host_below(headers, k);
    first_host_is_unique(headers, i);
    let all = headers + more;
    assert(is_first_host(all, i)) by {
        assert(all[i] == headers[i]);
        assert forall|j: int| 0 <= j < i implies !names_host(all[j]) by {
            assert(all[j] == headers[j]);
        }
    }
    first_host_is_unique(all, i);
}

/// A list with a host header at `k` has its first host header at or
/// before `k`.
proof fn first_host_below(headers: Seq<HeaderModel>, k: int) -> (i: int)
    requires
        0 <= k < headers.len(),
        names_host(headers[k]),
    ensures
        0 <= i <= k,
        is_first_host(headers, i),
    decreases k,
{
    if exists|j: int| 0 <= j < k && names_host(headers[j]) {
        let j = choose|j: int| 0 <= j < k && names_host(headers[j]);
        first_host_below(headers, j)
    } else {
        k
    }
}

/// Says whether a method asks for a tunnel.
pub fn is_connect_method(method: &str) -> (r: bool)
    ensures
        r == is_connect(method@),
{
    let token: [u8; 7] = [0x63, 0x6f, 0x6e, 0x6e, 0x65, 0x63, 0x74];
    assert(token@ =~= connect_token());
    eq_ignore_ascii_case(method.as_bytes(), token.as_slice())
}

/// Says whether a header name reads `Host`.
pub fn is_host_header(header: &Header) -> (r: bool)
    ensures
        r == names_host(header@),
{
    let token: [u8; 4] = [0x68, 0x6f, 0x73, 0x74];
    assert(token@ =~= host_token());
    eq_ignore_ascii_case(header.name.as_str().as_bytes(), token.as_slice())
}

/// The mathematical content of an inspection's outcome.
pub open spec fn outcome_model(r: Result<Target, BridgeError>) -> Result<TargetModel, BridgeError> {
    match r {
        Ok(target) => Ok(target@),
        Err(e) => Err(e),
    }
}

/// Works out the target that a method and a host header value describe.
pub fn host_target(method: &str, value: &[u8]) -> (r: Result<Target, BridgeError>)
    ensures
        outcome_model(r) == target_of(method@, value@),
{
    let text = match utf8_text(value) {
        Some(text) => text,
        None => {
            return Err(BridgeError::InvalidHostHeader);
        },
    };
    let bytes = text.as_bytes();
    let n = first_field_len(bytes);
    proof {
        if n < bytes@.len() {
            assert(!is_continuation_byte(COLON)) by (bit_vector);
            is_char_boundary_iff_not_is_continuation_byte(bytes@, n as int);
        } else {
            is_char_boundary_start_end_of_seq(bytes@);
        }
    }
    let (host_text, _) = text.split_at(n);
    let host = host_text.to_owned();
    proof {
        assert(host_text.spec_bytes() =~= host_field(value@));
        encode_utf8_decode_utf8(host_text@);
    }
    let tunnel = is_connect_method(method);
    let port = if n == bytes.len() {
        if tunnel {
            DEFAULT_CONNECT_PORT
        } else {
            DEFAULT_HTTP_PORT
        }
    } else {
        let rest = slice_subrange(bytes, n + 1, bytes.len());
        let field = slice_subrange(rest, 0, first_field_len(rest));
        assert(rest@ =~= value@.skip(n + 1));
        assert(field@ =~= port_field(value@));
        match parse_port(field) {
            Some(port) => port,
            None => {
                return Err(BridgeError::InvalidHostHeader);
            },
        }
    };
    Ok(Target { host, port, resend: !tunnel })
}

/// Finds the target of a request from its method and its headers.
///
/// The first header named `Host`, in any case, decides; later ones are
/// ignored.  The port is 443 for `CONNECT` and 80 for any other method,
/// unless the header names one.  `resend` is false exactly for `CONNECT`.
pub fn inspect_request(method: &str, headers: &[Header]) -> (r: Result<Target, BridgeError>)
    ensures
        outcome_model(r) == inspection(method@, header_models(headers@)),
{
    let ghost models = header_models(headers@);
    let mut i: usize = 0;
    while i < headers.len()
        invariant
            i <= headers@.len(),
            models == header_models(headers@),
            forall|j: int| 0 <= j < i ==> !names_host(models[j]),
        decreases headers@.len() - i,
    {
        if is_host_header(&headers[i]) {
            proof {
                first_host_is_unique(models, i as int);
            }
            return host_target(method, headers[i].value.as_slice());
        }
        i += 1;
    }
    Err(BridgeError::MissingHostHeader)
}

} // verus!
