//! The socket layer above the stack. It holds the types only: no socket
//! is opened, bound or served yet.

use vstd::prelude::*;
use crate::addr::Ipv4Addr;

verus! {

/// The transport a socket speaks.
#[derive(Debug, Clone, Copy, PartialEq, Eq, Structural)]
pub enum SocketType {
    Tcp,
    Udp,
}

/// An IPv4 address together with a port.
#[derive(Debug, Clone, Copy, PartialEq, Eq, Structural)]
pub struct SocketAddrV4 {
    pub ip: Ipv4Addr,
    pub port: u16,
}

/// One socket: its transport and the two ends it connects, as far as
/// they are known.
#[derive(Debug)]
pub struct Socket {
    pub socket_type: SocketType,
    pub local_addr: Option<SocketAddrV4>,
    pub remote_addr: Option<SocketAddrV4>,
}

/// The keeper of all sockets of one stack.
#[derive(Debug)]
pub struct SocketManager {}

} // verus!
