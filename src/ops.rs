use vstd::prelude::*;

use crate::error::{IOError, Result};
use crate::net::{self, port_of_network_bytes, read_outcome, SocketAddrV4};
use crate::reactor::{modify_spec, register_spec, remove_spec, Interest, Reactor};
use crate::task::Context;

verus! {

/// The result of polling a suspendable operation once.
#[derive(Debug, PartialEq)]
pub enum Poll<T> {
    /// The operation reached its result; it is not polled again.
    Ready(T),
    /// The operation suspended; its descriptor is armed with the poller's
    /// wake capability.
    Pending,
}

/// The outcome of an attempt that asks the operation to suspend.
pub open spec fn would_block<T>(attempt: Result<T>) -> bool {
    attempt matches Err(IOError::WouldBlock)
}

/// A read that finds the peer gone ends with `ConnectionClosed`: the
/// outcome is final, not a request to suspend.
pub proof fn lemma_peer_close_ends_read()
    ensures
        read_outcome(Ok(0isize)) == Err::<isize, IOError>(IOError::ConnectionClosed),
        !would_block(read_outcome(Ok(0isize))),
        !would_block(Ok::<isize, IOError>(0isize)),
{
}

/// A listener of the runtime: a non-blocking listening socket, registered
/// with a reactor for readiness to accept.
pub struct TcpListener {
    inner: net::TcpListener,
}

impl TcpListener {
    pub closed spec fn spec_fd(&self) -> i32 {
        self.inner.spec_fd()
    }

    pub closed spec fn spec_address(&self) -> SocketAddrV4 {
        self.inner.spec_address()
    }

    /// Takes over a bound, listening, non-blocking socket and registers it
    /// with `reactor`.
    pub fn new(inner: net::TcpListener, reactor: &mut Reactor) -> (r: TcpListener)
        ensures
            r.spec_fd() == inner.spec_fd(),
            r.spec_address() == inner.spec_address(),
            final(reactor)@ == register_spec(old(reactor)@, inner.spec_fd(), Interest::readable_spec()),
    {
        let fd = inner.fd();
        reactor.register(fd, Interest::readable());
        TcpListener { inner }
    }

    pub fn fd(&self) -> (r: i32)
        ensures
            r == self.spec_fd(),
    {
        self.inner.fd()
    }

    /// The address the listener is bound to.
    pub fn address(&self) -> (r: &SocketAddrV4)
        ensures
            *r == self.spec_address(),
    {
        self.inner.address()
    }

    /// An operation that accepts the next connection.
    pub fn accept(&self) -> (r: Accept)
        ensures
            r.spec_fd() == self.spec_fd(),
            !r.spec_finished(),
    {
        Accept { listener: self.inner.fd(), finished: false }
    }

    /// Gives up the listener: its registration and any task suspended on
    /// it are forgotten at once.
    pub fn close(self, reactor: &mut Reactor) -> (r: net::TcpListener)
        ensures
            r.spec_fd() == self.spec_fd(),
            final(reactor)@ == remove_spec(old(reactor)@, self.spec_fd()),
    {
        reactor.remove(self.inner.fd());
        self.inner
    }
}

/// The operation of accepting one connection.
pub struct Accept {
    listener: i32,
    finished: bool,
}

impl Accept {
    pub closed spec fn spec_fd(&self) -> i32 {
        self.listener
    }

    pub closed spec fn spec_finished(&self) -> bool {
        self.finished
    }

    pub fn is_finished(&self) -> (r: bool)
        ensures
            r == self.spec_finished(),
    {
        self.finished
    }

    /// Polls the operation with the outcome of one accept call on the
    /// listener: `raw` is the accepted descriptor or the error reported,
    /// `addr` and `port` the peer's address in network byte order. A new
    /// connection is registered with `reactor` for both kinds of readiness;
    /// a call that would block arms the listener with the poller's wake
    /// capability; any other failure ends the operation.
    pub fn poll(
        &mut self,
        reactor: &mut Reactor,
        cx: &Context,
        raw: Result<i32>,
        addr: [u8; 4],
        port: [u8; 2],
    ) -> (r: Poll<Result<(TcpStream, SocketAddrV4)>>)
        requires
            !old(self).spec_finished(),
        ensures
            final(self).spec_fd() == old(self).spec_fd(),
            final(self).spec_finished() == (r is Ready),
            match raw {
                Ok(fd) => r matches Poll::Ready(Ok((s, a))) && s.spec_fd() == fd && a.spec_octets()
                    == addr@ && a.spec_port() == port_of_network_bytes(port@) && final(reactor)@
                    == register_spec(old(reactor)@, fd, Interest::both_spec()),
                Err(IOError::WouldBlock) => r is Pending && final(reactor)@ == modify_spec(
                    old(reactor)@,
                    old(self).spec_fd(),
                    Interest::readable_spec(),
                    cx.spec_waker(),
                ),
                Err(e) => r == Poll::<Result<(TcpStream, SocketAddrV4)>>::Ready(Err(e))
                    && final(reactor)@ == old(reactor)@,
            },
    {
        match net::TcpListener::accept_result(raw, addr, port) {
            Ok((stream, peer)) => {
                self.finished = true;
                Poll::Ready(Ok((TcpStream::new(stream, reactor), peer)))
            },
            Err(IOError::WouldBlock) => {
                reactor.modify(self.listener, Interest::readable(), cx.waker());
                Poll::Pending
            },
            Err(e) => {
                self.finished = true;
                Poll::Ready(Err(e))
            },
        }
    }
}

/// A connected stream of the runtime, registered with a reactor for both
/// kinds of readiness.
pub struct TcpStream {
    inner: net::TcpStream,
}

impl TcpStream {
    pub closed spec fn spec_fd(&self) -> i32 {
        self.inner.spec_fd()
    }

    /// Takes over a connected non-blocking socket and registers it with
    /// `reactor`.
    pub fn new(inner: net::TcpStream, reactor: &mut Reactor) -> (r: TcpStream)
        ensures
            r.spec_fd() == inner.spec_fd(),
            final(reactor)@ == register_spec(old(reactor)@, inner.spec_fd(), Interest::both_spec()),
    {
        let fd = inner.fd();
        reactor.register(fd, Interest::both());
        TcpStream { inner }
    }

    pub fn fd(&self) -> (r: i32)
        ensures
            r == self.spec_fd(),
    {
        self.inner.fd()
    }

    /// An operation that reads from the stream once.
    pub fn read(&mut self) -> (r: ReadFuture)
        ensures
            r.spec_fd() == old(self).spec_fd(),
            !r.spec_finished(),
            final(self).spec_fd() == old(self).spec_fd(),
    {
        ReadFuture { stream: self.inner.fd(), finished: false }
    }

    /// An operation that writes to the stream once.
    pub fn write(&mut self) -> (r: WriteFuture)
        ensures
            r.spec_fd() == old(self).spec_fd(),
            !r.spec_finished(),
            final(self).spec_fd() == old(self).spec_fd(),
    {
        WriteFuture { stream: self.inner.fd(), finished: false }
    }

    /// Gives up the stream: its registration and any task suspended on it
    /// are forgotten at once.
    pub fn close(self, reactor: &mut Reactor) -> (r: net::TcpStream)
        ensures
            r.spec_fd() == self.spec_fd(),
            final(reactor)@ == remove_spec(old(reactor)@, self.spec_fd()),
    {
        reactor.remove(self.inner.fd());
        self.inner
    }
}

/// The operation of reading from a stream.
pub struct ReadFuture {
    stream: i32,
    finished: bool,
}

impl ReadFuture {
    pub closed spec fn spec_fd(&self) -> i32 {
        self.stream
    }

    pub closed spec fn spec_finished(&self) -> bool {
        self.finished
    }

    pub fn is_finished(&self) -> (r: bool)
        ensures
            r == self.spec_finished(),
    {
        self.finished
    }

    /// Polls the operation with the outcome of one read call: `raw` is the
    /// count read or the error reported. A count of zero means the peer
    /// closed the connection; a call that would block arms the stream for
    /// readability with the poller's wake capability; anything else ends
    /// the operation.
    pub fn poll(&mut self, reactor: &mut Reactor, cx: &Context, raw: Result<isize>) -> (r: Poll<
        Result<isize>,
    >)
        requires
            !old(self).spec_finished(),
        ensures
            final(self).spec_fd() == old(self).spec_fd(),
            final(self).spec_finished() == (r is Ready),
            would_block(raw) ==> r is Pending && final(reactor)@ == modify_spec(
                old(reactor)@,
                old(self).spec_fd(),
                Interest::readable_spec(),
                cx.spec_waker(),
            ),
            !would_block(raw) ==> r == Poll::Ready(read_outcome(raw)) && final(reactor)@ == old(
                reactor,
            )@,
    {
        match net::TcpStream::read_result(raw) {
            Err(IOError::WouldBlock) => {
                reactor.modify(self.stream, Interest::readable(), cx.waker());
                Poll::Pending
            },
            outcome => {
                self.finished = true;
                Poll::Ready(outcome)
            },
        }
    }
}

/// The operation of writing to a stream.
pub struct WriteFuture {
    stream: i32,
    finished: bool,
}

impl WriteFuture {
    pub closed spec fn spec_fd(&self) -> i32 {
        self.stream
    }

    pub closed spec fn spec_finished(&self) -> bool {
        self.finished
    }

    pub fn is_finished(&self) -> (r: bool)
        ensures
            r == self.spec_finished(),
    {
        self.finished
    }

    /// Polls the operation with the outcome of one write call: `raw` is the
    /// count written or the error reported. A call that would block arms
    /// the stream for writability with the poller's wake capability;
    /// anything else ends the operation.
    pub fn poll(&mut self, reactor: &mut Reactor, cx: &Context, raw: Result<isize>) -> (r: Poll<
        Result<isize>,
    >)
        requires
            !old(self).spec_finished(),
        ensures
            final(self).spec_fd() == old(self).spec_fd(),
            final(self).spec_finished() == (r is Ready),
            would_block(raw) ==> r is Pending && final(reactor)@ == modify_spec(
                old(reactor)@,
                old(self).spec_fd(),
                Interest::writable_spec(),
                cx.spec_waker(),
            ),
            !would_block(raw) ==> r == Poll::Ready(raw) && final(reactor)@ == old(reactor)@,
    {
        match raw {
            Err(IOError::WouldBlock) => {
                reactor.modify(self.stream, Interest::writable(), cx.waker());
                Poll::Pending
            },
            outcome => {
                self.finished = true;
                Poll::Ready(outcome)
            },
        }
    }
}

} // verus!
