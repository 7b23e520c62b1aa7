//! The SOCKS5 messages sent to the relay.

use vstd::prelude::*;
use vstd::string::StringSliceAdditionalSpecFns;

verus! {

/// Longest domain name that the one-byte length prefix can announce.
pub const MAX_DOMAIN_LEN: usize = 255;

/// The raw address that a host string denotes when it is an IP literal.
#[derive(Clone, Copy, Debug, PartialEq, Eq)]
pub enum IpLiteral {
    /// The four octets of an IPv4 address, in network order.
    V4([u8; 4]),
    /// The sixteen octets of an IPv6 address, in network order.
    V6([u8; 16]),
}

/// Why a CONNECT command could not be encoded.
#[derive(Clone, Copy, Debug, PartialEq, Eq, Structural)]
pub enum EncodeError {
    /// The host is a domain name of more than 255 bytes.
    HostTooLong,
}

/// The greeting that opens every negotiation: version 5, two methods on
/// offer, "no authentication" (0) and GSSAPI (1).
pub open spec fn greeting_bytes() -> Seq<u8> {
    seq![5u8, 2u8, 0u8, 1u8]
}

/// A port in network order: high byte first.
pub open spec fn port_bytes(port: u16) -> Seq<u8> {
    seq![(port / 256) as u8, (port % 256) as u8]
}

/// Version 5, command CONNECT, reserved zero, then the address type.
pub open spec fn command_prefix(address_type: u8) -> Seq<u8> {
    seq![5u8, 1u8, 0u8, address_type]
}

/// The CONNECT command for a target.  `ip` is the address when the host is
/// an IP literal; otherwise `name` holds the bytes of the domain name.
pub open spec fn command_bytes(ip: Option<IpLiteral>, name: Seq<u8>, port: u16) -> Seq<u8> {
    match ip {
        Some(IpLiteral::V4(octets)) => command_prefix(1) + octets@ + port_bytes(port),
        Some(IpLiteral::V6(octets)) => command_prefix(4) + octets@ + port_bytes(port),
        None => command_prefix(3) + seq![name.len() as u8] + name + port_bytes(port),
    }
}

/// A target can be encoded unless it is a domain name whose length does not
/// fit the length prefix.
pub open spec fn encodable(ip: Option<IpLiteral>, name: Seq<u8>) -> bool {
    ip is Some || name.len() <= MAX_DOMAIN_LEN
}

/// Builds the greeting sent to the relay right after connecting.
pub fn socks5_greeting() -> (out: Vec<u8>)
    ensures
        out@ == greeting_bytes(),
{
    let mut out: Vec<u8> = Vec::new();
    out.push(5u8);
    out.push(2u8);
    out.push(0u8);
    out.push(1u8);
    assert(out@ =~= greeting_bytes());
    out
}

/// Appends `src` to `out`, byte by byte.
pub(crate) fn push_all(out: &mut Vec<u8>, src: &[u8])
    ensures
        final(out)@ == old(out)@ + src@,
{
    let ghost before = out@;
    let mut i: usize = 0;
    while i < src.len()
        invariant
            i <= src@.len(),
            out@ == before + src@.take(i as int),
        decreases src@.len() - i,
    {
        out.push(src[i]);
        assert(src@.take(i + 1) =~= src@.take(i as int).push(src@[i as int]));
        assert(out@ =~= before + src@.take(i + 1));
        i += 1;
    }
    assert(src@.take(i as int) =~= src@);
}

/// Appends a port in network order.
fn push_port(out: &mut Vec<u8>, port: u16)
    ensures
        final(out)@ == old(out)@ + port_bytes(port),
{
    let ghost before = out@;
    let high: u8 = (port >> 8) as u8;
    let low: u8 = (port & 0xff) as u8;
    assert((port >> 8) == port / 256 && (port >> 8) < 256) by (bit_vector);
    assert((port & 0xff) == port % 256 && (port & 0xff) < 256) by (bit_vector);
    out.push(high);
    out.push(low);
    assert(out@ =~= before + port_bytes(port));
}

/// Encodes the SOCKS5 CONNECT command for `host` and `port`.
///
/// `ip` says what `host` denotes when it is an IP literal; with `None` the
/// host is sent as a domain name, its bytes copied behind a one-byte length.
/// A domain name longer than 255 bytes is refused: its length is never cut
/// down to fit the prefix.
pub fn build_socks5_cmd(host: &str, ip: Option<IpLiteral>, port: u16) -> (r: Result<
    Vec<u8>,
    EncodeError,
>)
    ensures
        match r {
            Ok(cmd) => encodable(ip, host.spec_bytes()) && cmd@ == command_bytes(
                ip,
                host.spec_bytes(),
                port,
            ),
            Err(e) => !encodable(ip, host.spec_bytes()) && e == EncodeError::HostTooLong,
        },
{
    let mut out: Vec<u8> = Vec::new();
    out.push(5u8);
    out.push(1u8);
    out.push(0u8);
    match ip {
        Some(IpLiteral::V4(octets)) => {
            out.push(1u8);
            assert(out@ =~= command_prefix(1));
            push_all(&mut out, octets.as_slice());
            push_port(&mut out, port);
            Ok(out)
        },
        Some(IpLiteral::V6(octets)) => {
            out.push(4u8);
            assert(out@ =~= command_prefix(4));
            push_all(&mut out, octets.as_slice());
            push_port(&mut out, port);
            Ok(out)
        },
        None => {
            let name = host.as_bytes();
            if name.len() > MAX_DOMAIN_LEN {
                return Err(EncodeError::HostTooLong);
            }
            out.push(3u8);
            assert(out@ =~= command_prefix(3));
            let len: u8 = name.len() as u8;
            out.push(len);
            assert(out@ =~= command_prefix(3) + seq![name@.len() as u8]);
            push_all(&mut out, name);
            push_port(&mut out, port);
            Ok(out)
        },
    }
}

/// The command for an IPv4 address is always built and is exactly ten
/// bytes long: the prefix with address type 1, the four octets as they
/// are, and the port with its high byte first.
pub proof fn ipv4_command_layout(octets: [u8; 4], name: Seq<u8>, port: u16)
    ensures
        encodable(Some(IpLiteral::V4(octets)), name),
        ({
            let cmd = command_bytes(Some(IpLiteral::V4(octets)), name, port);
            &&& cmd.len() == 10
            &&& cmd.subrange(0, 4) == seq![5u8, 1u8, 0u8, 1u8]
            &&& cmd[3] == 1
            &&& cmd.subrange(4, 8) == octets@
            &&& cmd[8] * 256 + cmd[9] == port
        }),
{
    let cmd = command_bytes(Some(IpLiteral::V4(octets)), name, port);
    assert(cmd.subrange(0, 4) =~= seq![5u8, 1u8, 0u8, 1u8]);
    assert(cmd.subrange(4, 8) =~= octets@);
}

/// The command for an IPv6 address is always built and is exactly
/// twenty-two bytes long: the prefix with address type 4, the sixteen
/// octets as they are, and the port with its high byte first.
pub proof fn ipv6_command_layout(octets: [u8; 16], name: Seq<u8>, port: u16)
    ensures
        encodable(Some(IpLiteral::V6(octets)), name),
        ({
            let cmd = command_bytes(Some(IpLiteral::V6(octets)), name, port);
            &&& cmd.len() == 22
            &&& cmd.subrange(0, 4) == seq![5u8, 1u8, 0u8, 4u8]
            &&& cmd[3] == 4
            &&& cmd.subrange(4, 20) == octets@
            &&& cmd[20] * 256 + cmd[21] == port
        }),
{
    let cmd = command_bytes(Some(IpLiteral::V6(octets)), name, port);
    assert(cmd.subrange(0, 4) =~= seq![5u8, 1u8, 0u8, 4u8]);
    assert(cmd.subrange(4, 20) =~= octets@);
}

/// The command for a domain name of at most 255 bytes is built and is
/// seven bytes longer than the name: the prefix with address type 3, the
/// length of the name in one byte, the whole name, and the port with its
/// high byte first.
pub proof fn domain_command_layout(name: Seq<u8>, port: u16)
    requires
        name.len() <= MAX_DOMAIN_LEN,
    ensures
        encodable(None, name),
        ({
            let cmd = command_bytes(None, name, port);
            let len = name.len() as int;
            &&& cmd.len() == 5 + len + 2
            &&& cmd.subrange(0, 4) == seq![5u8, 1u8, 0u8, 3u8]
            &&& cmd[3] == 3
            &&& cmd[4] == len
            &&& cmd.subrange(5, 5 + len) == name
            &&& cmd[5 + len] * 256 + cmd[6 + len] == port
        }),
{
    let cmd = command_bytes(None, name, port);
    let len = name.len() as int;
    assert(cmd.subrange(0, 4) =~= seq![5u8, 1u8, 0u8, 3u8]);
    assert(cmd.subrange(5, 5 + len) =~= name);
}

/// Only a domain name of more than 255 bytes is refused, and it always is.
pub proof fn refusal_is_for_long_names(ip: Option<IpLiteral>, name: Seq<u8>)
    ensures
        !encodable(ip, name) <==> ip is None && name.len() > MAX_DOMAIN_LEN,
{
}

/// Encoding is a function of its inputs: the same address, name and port
/// are encodable alike and give the same bytes, whichever kind of address
/// it is.
pub proof fn encoding_is_deterministic(
    ip1: Option<IpLiteral>,
    name1: Seq<u8>,
    port1: u16,
    ip2: Option<IpLiteral>,
    name2: Seq<u8>,
    port2: u16,
)
    requires
        ip1 == ip2,
        name1 == name2,
        port1 == port2,
    ensures
        encodable(ip1, name1) == encodable(ip2, name2),
        command_bytes(ip1, name1, port1) == command_bytes(ip2, name2, port2),
{
}

} // verus!
