//! IPv4 endpoints and the outcome of transport operations.

use vstd::prelude::*;

verus! {

/// An IPv4 address.
#[derive(Clone, Copy, Debug, PartialEq, Eq, Structural)]
pub struct Ipv4Address {
    a: u8,
    b: u8,
    c: u8,
    d: u8,
}

impl View for Ipv4Address {
    type V = Seq<u8>;

    closed spec fn view(&self) -> Seq<u8> {
        seq![self.a, self.b, self.c, self.d]
    }
}

impl Ipv4Address {
    /// The address `a.b.c.d`.
    pub fn new(a: u8, b: u8, c: u8, d: u8) -> (address: Self)
        ensures
            address@ == seq![a, b, c, d],
    {
        Ipv4Address { a, b, c, d }
    }

    /// The address with these octets, the most significant one first.
    pub fn from_octets(octets: [u8; 4]) -> (address: Self)
        ensures
            address@ == octets@,
    {
        let address = Ipv4Address { a: octets[0], b: octets[1], c: octets[2], d: octets[3] };
        assert(address@ =~= octets@);
        address
    }

    /// The octets of the address, the most significant one first.
    pub fn octets(&self) -> (octets: [u8; 4])
        ensures
            octets@ == self@,
    {
        let octets: [u8; 4] = [self.a, self.b, self.c, self.d];
        assert(octets@ =~= self@);
        octets
    }
}

/// An address has four octets and is nothing but them.
pub proof fn ipv4_address_is_its_octets(left: Ipv4Address, right: Ipv4Address)
    ensures
        left@.len() == 4,
        left@ == right@ ==> left == right,
{
    assert(left@[0] == left.a && left@[1] == left.b && left@[2] == left.c && left@[3] == left.d);
    assert(right@[0] == right.a && right@[1] == right.b && right@[2] == right.c && right@[3]
        == right.d);
}

/// A TCP or UDP endpoint of the physical network.
#[derive(Clone, Copy, Debug, PartialEq, Eq, Structural)]
pub struct Endpoint {
    /// The host.
    pub address: Ipv4Address,
    /// The TCP or UDP port of the host.
    pub port: u16,
}

impl Endpoint {
    /// The endpoint at this address and port.
    pub fn new(address: Ipv4Address, port: u16) -> (endpoint: Self)
        ensures
            endpoint.address == address,
            endpoint.port == port,
    {
        Endpoint { address, port }
    }

    /// The endpoint whose address has these octets.
    pub fn from_parts(octets: [u8; 4], port: u16) -> (endpoint: Self)
        ensures
            endpoint.address@ == octets@,
            endpoint.port == port,
    {
        Endpoint { address: Ipv4Address::from_octets(octets), port }
    }

    /// The octets of the address, and the port.
    pub fn to_parts(&self) -> (parts: ([u8; 4], u16))
        ensures
            parts.0@ == self.address@,
            parts.1 == self.port,
    {
        (self.address.octets(), self.port)
    }
}

/// Endpoints survive the way through octets and port: an endpoint that is
/// rebuilt from the octets and the port of another one equals it.
pub proof fn endpoints_round_trip(endpoint: Endpoint, rebuilt: Endpoint)
    requires
        rebuilt.address@ == endpoint.address@,
        rebuilt.port == endpoint.port,
    ensures
        rebuilt == endpoint,
{
    ipv4_address_is_its_octets(rebuilt.address, endpoint.address);
}

/// Why a transport refused or failed.
#[derive(Clone, Copy, Debug, PartialEq, Eq, Structural)]
pub enum TransportError {
    /// A name could not be resolved to an IPv4 address.
    Dns,
    /// A connection or a local port could not be had.
    Connect,
    /// The other side is not the one that was asked for.
    Authentication,
    /// Receiving failed.
    Read,
    /// Sending, flushing or closing failed.
    Write,
    /// The session was closed before.
    State,
}

/// What a transport was doing when it failed.
#[derive(Clone, Copy, Debug, PartialEq, Eq, Structural)]
pub enum TransportOperation {
    /// A DNS query.
    Resolve,
    /// A TCP connect.
    Connect,
    /// Binding a UDP socket.
    Bind,
    /// A certificate-verifying TLS handshake.
    Handshake,
    /// Reading from a stream.
    Read,
    /// Receiving a datagram.
    ReceiveFrom,
    /// Writing to a stream.
    Write,
    /// Sending a datagram.
    SendTo,
    /// Flushing a stream.
    Flush,
    /// Closing a stream.
    Close,
}

/// The error with which the failure of an operation is reported.
pub open spec fn failure_of(operation: TransportOperation) -> TransportError {
    match operation {
        TransportOperation::Resolve => TransportError::Dns,
        TransportOperation::Connect | TransportOperation::Bind => TransportError::Connect,
        TransportOperation::Handshake => TransportError::Authentication,
        TransportOperation::Read | TransportOperation::ReceiveFrom => TransportError::Read,
        TransportOperation::Write
        | TransportOperation::SendTo
        | TransportOperation::Flush
        | TransportOperation::Close => TransportError::Write,
    }
}

/// Report the outcome of a transport operation: a value is handed on, and any
/// failure becomes the one error of that operation.
pub fn transport_result<T, E>(operation: TransportOperation, outcome: Result<T, E>) -> (reported:
    Result<T, TransportError>)
    ensures
        outcome matches Ok(value) ==> reported == Ok::<T, TransportError>(value),
        outcome is Err ==> reported == Err::<T, TransportError>(failure_of(operation)),
{
    match outcome {
        Ok(value) => Ok(value),
        Err(_) => {
            match operation {
                TransportOperation::Resolve => Err(TransportError::Dns),
                TransportOperation::Connect | TransportOperation::Bind => Err(
                    TransportError::Connect,
                ),
                TransportOperation::Handshake => Err(TransportError::Authentication),
                TransportOperation::Read | TransportOperation::ReceiveFrom => Err(
                    TransportError::Read,
                ),
                TransportOperation::Write
                | TransportOperation::SendTo
                | TransportOperation::Flush
                | TransportOperation::Close => Err(TransportError::Write),
            }
        },
    }
}

/// Pick the address of a resolved name: the first IPv4 address that the DNS
/// query brought. A failed query and one without an answer are DNS errors.
pub fn resolve_ipv4<E>(answers: Result<Vec<Ipv4Address>, E>) -> (resolved: Result<
    Ipv4Address,
    TransportError,
>)
    ensures
        resolved == (match answers {
            Ok(found) if found@.len() > 0 => Ok::<Ipv4Address, TransportError>(found@[0]),
            _ => Err::<Ipv4Address, TransportError>(TransportError::Dns),
        }),
{
    let found = transport_result(TransportOperation::Resolve, answers)?;
    if found.len() > 0 {
        Ok(found[0])
    } else {
        Err(TransportError::Dns)
    }
}

/// The error tells what failed: name resolution, connecting or binding, the
/// handshake, receiving, or sending, flushing and closing.
pub proof fn errors_tell_what_failed(operation: TransportOperation)
    ensures
        failure_of(operation) is Dns <==> operation is Resolve,
        failure_of(operation) is Connect <==> operation is Connect || operation is Bind,
        failure_of(operation) is Authentication <==> operation is Handshake,
        failure_of(operation) is Read <==> operation is Read || operation is ReceiveFrom,
        failure_of(operation) is Write <==> operation is Write || operation is SendTo
            || operation is Flush || operation is Close,
{
}

} // verus!
