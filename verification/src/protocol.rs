//! The commands that the adapter understands and the responses that it gives.
use vstd::prelude::*;

use crate::net::{IpAddressV4, SocketAddress};

verus! {

/// The number of bytes that one response can carry.
pub const BUFFER_LEN: usize = 512;

/// The role that the adapter plays in a wireless network.
#[derive(Clone, Copy, Debug, PartialEq, Eq, Structural)]
pub enum WiFiMode {
    Station,
    SoftAccessPoint,
    Both,
}

/// The kind of a connection.
#[derive(Clone, Copy, Debug, PartialEq, Eq, Structural)]
pub enum ConnectionType {
    TCP,
    UDP,
}

/// A command for the adapter.
#[derive(Clone, Copy, Debug, PartialEq, Eq)]
pub enum Command<'c> {
    /// Play the given role.
    SetMode(WiFiMode),
    /// Join an access point.
    JoinAp { ssid: &'c str, password: &'c str },
    /// Report the addresses of the adapter.
    QueryIpAddress,
    /// Connect a link to a remote address.
    StartConnection(usize, ConnectionType, SocketAddress),
    /// Close a link.
    CloseConnection(usize),
    /// Prepare to send data over a link.
    Send { link_id: usize, len: usize },
    /// Hand over data that a link has received.
    Receive { link_id: usize, len: usize },
}

/// The version of the adapter's firmware.
#[derive(Clone, Copy, Debug, PartialEq, Eq, Structural)]
pub struct FirmwareInfo {
    pub major: u8,
    pub minor: u8,
    pub patch: u8,
    pub build: u8,
}

/// The addresses that the adapter was given by its network.
#[derive(Clone, Copy, Debug, PartialEq, Eq, Structural)]
pub struct IpAddresses {
    pub ip: IpAddressV4,
    pub gateway: IpAddressV4,
    pub netmask: IpAddressV4,
}

/// The name servers that the adapter asks.
#[derive(Clone, Copy, Debug, PartialEq, Eq)]
pub struct ResolverAddresses {
    pub resolver1: IpAddressV4,
    pub resolver2: Option<IpAddressV4>,
}

/// Why the adapter could not join an access point.
#[derive(Clone, Copy, Debug, PartialEq, Eq, Structural)]
pub enum WifiConnectionFailure {
    Timeout,
    WrongPassword,
    CannotFindTargetAp,
    ConnectionFailed,
}

/// A response of the adapter, or a message that it sends of its own accord.
#[derive(Clone, Copy, Debug, PartialEq, Eq)]
pub enum Response {
    Nothing,
    Okay,
    Error,
    FirmwareInfo(FirmwareInfo),
    ReadyForData,
    ReceivedDataToSend(usize),
    SendOk,
    SendFail,
    DataAvailable { link_id: usize, len: usize },
    DataReceived([u8; BUFFER_LEN], usize),
    WifiConnected,
    WifiConnectionFailure(WifiConnectionFailure),
    WifiDisconnect,
    GotIp,
    IpAddresses(IpAddresses),
    Connect(usize),
    Closed(usize),
    IpAddress(IpAddressV4),
    Resolvers(ResolverAddresses),
    DnsFail,
    UnlinkFail,
}

} // verus!
