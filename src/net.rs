use vstd::prelude::*;

use crate::error::{IOError, Result};

verus! {

/// An IPv4 socket address: four octets and a port.
#[derive(Debug, Clone, Copy, PartialEq, Eq)]
pub struct SocketAddrV4 {
    octets: [u8; 4],
    port: u16,
}

/// The port that two bytes in network order (most significant first) hold.
pub open spec fn port_of_network_bytes(b: Seq<u8>) -> int {
    b[0] as int * 256 + b[1] as int
}

impl SocketAddrV4 {
    pub closed spec fn spec_octets(&self) -> Seq<u8> {
        self.octets@
    }

    pub closed spec fn spec_port(&self) -> u16 {
        self.port
    }

    pub fn new(octets: [u8; 4], port: u16) -> (r: Self)
        ensures
            r.spec_octets() == octets@,
            r.spec_port() == port,
    {
        Self { octets, port }
    }

    /// The IPv4 address octets.
    pub fn ip_octets(&self) -> (r: [u8; 4])
        ensures
            r@ == self.spec_octets(),
    {
        self.octets
    }

    /// The port number.
    pub fn port(&self) -> (r: u16)
        ensures
            r == self.spec_port(),
    {
        self.port
    }

    /// The address that a socket address structure holds, its address and
    /// its port both in network byte order, as they lie in memory.
    pub fn from_network(addr: [u8; 4], port: [u8; 2]) -> (r: Self)
        ensures
            r.spec_octets() == addr@,
            r.spec_port() == port_of_network_bytes(port@),
    {
        let p: u16 = (port[0] as u16) * 256 + (port[1] as u16);
        Self { octets: addr, port: p }
    }

    /// The port in network byte order, as a socket address structure holds it.
    pub fn port_network_bytes(&self) -> (r: [u8; 2])
        ensures
            port_of_network_bytes(r@) == self.spec_port(),
    {
        let hi: u8 = (self.port / 256) as u8;
        let lo: u8 = (self.port % 256) as u8;
        [hi, lo]
    }
}

/// A listening TCP socket: its descriptor and the address it is bound to.
#[derive(Debug)]
pub struct TcpListener {
    fd: i32,
    addr: SocketAddrV4,
}

impl TcpListener {
    pub closed spec fn spec_fd(&self) -> i32 {
        self.fd
    }

    pub closed spec fn spec_address(&self) -> SocketAddrV4 {
        self.addr
    }

    /// A listener over a descriptor that is already bound to `addr` and
    /// listening.
    pub fn new(fd: i32, addr: SocketAddrV4) -> (r: Self)
        ensures
            r.spec_fd() == fd,
            r.spec_address() == addr,
    {
        TcpListener { fd, addr }
    }

    /// The address the listener is bound to.
    pub fn address(&self) -> (r: &SocketAddrV4)
        ensures
            *r == self.spec_address(),
    {
        &self.addr
    }

    /// The listener's descriptor.
    pub fn fd(&self) -> (r: i32)
        ensures
            r == self.spec_fd(),
    {
        self.fd
    }

    /// The outcome of one accept call. `raw` is the accepted descriptor, or
    /// the error that the call reported; `addr` and `port` are the peer's
    /// address structure fields, in network byte order.
    pub fn accept_result(raw: Result<i32>, addr: [u8; 4], port: [u8; 2]) -> (r: Result<
        (TcpStream, SocketAddrV4),
    >)
        ensures
            match raw {
                Ok(fd) => r matches Ok((s, a)) && s.spec_fd() == fd && a.spec_octets() == addr@
                    && a.spec_port() == port_of_network_bytes(port@),
                Err(e) => r == Err::<(TcpStream, SocketAddrV4), IOError>(e),
            },
    {
        match raw {
            Ok(fd) => Ok((TcpStream::new(fd), SocketAddrV4::from_network(addr, port))),
            Err(e) => Err(e),
        }
    }
}

/// A connected TCP socket.
#[derive(Debug)]
pub struct TcpStream {
    client_fd: i32,
}

/// What one read call amounts to: a count of zero means that the peer has
/// closed the connection.
pub open spec fn read_outcome(raw: Result<isize>) -> Result<isize> {
    match raw {
        Ok(n) => if n == 0 {
            Err(IOError::ConnectionClosed)
        } else {
            Ok(n)
        },
        Err(e) => Err(e),
    }
}

impl TcpStream {
    pub closed spec fn spec_fd(&self) -> i32 {
        self.client_fd
    }

    /// A stream over a connected descriptor.
    pub fn new(fd: i32) -> (r: TcpStream)
        ensures
            r.spec_fd() == fd,
    {
        TcpStream { client_fd: fd }
    }

    /// The stream's descriptor.
    pub fn fd(&self) -> (r: i32)
        ensures
            r == self.spec_fd(),
    {
        self.client_fd
    }

    /// The outcome of one read call, where `raw` is the count the call
    /// returned or the error it reported.
    pub fn read_result(raw: Result<isize>) -> (r: Result<isize>)
        ensures
            r == read_outcome(raw),
    {
        match raw {
            Ok(n) => if n == 0 {
                Err(IOError::ConnectionClosed)
            } else {
                Ok(n)
            },
            Err(e) => Err(e),
        }
    }
}

} // verus!
