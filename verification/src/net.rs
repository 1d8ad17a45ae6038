//! Addresses, joining information and errors of the network interface that the driver offers.
use vstd::prelude::*;

verus! {

/// An IPv4 address, as its four octets.
#[derive(Clone, Copy, Debug, PartialEq, Eq, Structural)]
pub struct IpAddressV4(pub u8, pub u8, pub u8, pub u8);

/// An address of a network interface.
#[derive(Clone, Copy, Debug, PartialEq, Eq, Structural)]
pub enum IpAddress {
    V4(IpAddressV4),
}

/// The transport protocol asked for when a socket is connected.
#[derive(Clone, Copy, Debug, PartialEq, Eq, Structural)]
pub enum IpProtocol {
    Tcp,
    Udp,
}

/// The remote end of a connection.
#[derive(Clone, Copy, Debug, PartialEq, Eq, Structural)]
pub struct SocketAddress {
    pub ip: IpAddress,
    pub port: u16,
}

/// How an access point is to be joined.
#[derive(Debug)]
pub enum Join {
    /// An access point without a password.
    Open,
    /// An access point that is protected by a password.
    Wpa { ssid: String, password: String },
}

/// Why an access point was not joined.
#[derive(Clone, Copy, Debug, PartialEq, Eq, Structural)]
pub enum JoinError {
    Unknown,
    UnableToAssociate,
}

/// Why an operation on a socket failed.
#[derive(Clone, Copy, Debug, PartialEq, Eq, Structural)]
pub enum TcpError {
    ConnectError,
    ReadError,
    WriteError,
    SocketClosed,
}

} // verus!
