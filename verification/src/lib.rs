//! A minimal stream-socket abstraction over the vsock address family: a
//! listener that binds and accepts, and a stream that connects with bounded
//! exponential backoff and moves raw bytes, mapping an interrupted transfer
//! call to a zero-byte success.

use vstd::prelude::*;

pub mod backoff;
pub mod error;
pub mod numfmt;
mod sys;

use crate::error::SysError;
use crate::error::VsockError;
use nix::sys::socket::SockAddr;

verus! {

/// The backlog of pending connections a listener asks the OS to queue.
pub const BACKLOG: usize = 128;

/// A bare socket handle.
pub struct Vsock {
    pub fd: i32,
}

/// Owns a socket handle that is bound to a local address and listening.
/// The handle is released exactly once, when the listener is dropped.
pub struct VsockListener {
    socket: i32,
}

/// Owns a socket handle that is connected to a peer. The handle is released
/// exactly once, when the stream is dropped.
pub struct VsockStream {
    socket: i32,
}

impl View for VsockListener {
    type V = int;

    closed spec fn view(&self) -> int {
        self.socket as int
    }
}

impl View for VsockStream {
    type V = int;

    closed spec fn view(&self) -> int {
        self.socket as int
    }
}

/// The interrupted-call policy on byte transfer: a successful call reports
/// its count unchanged; a call a signal interrupted counts as a zero-byte
/// success, not an error; any other failure surfaces the OS errno.
pub fn interpret_io_result(r: Result<usize, SysError>) -> (out: Result<usize, VsockError>)
    ensures
        r matches Ok(n) ==> out == Ok::<usize, VsockError>(n),
        r matches Err(e) ==> out == (if e.interrupted {
            Ok::<usize, VsockError>(0usize)
        } else {
            Err::<usize, VsockError>(VsockError::Io { errno: e.errno })
        }),
{
    match r {
        Ok(n) => Ok(n),
        Err(e) => if e.interrupted {
            Ok(0)
        } else {
            Err(VsockError::Io { errno: e.errno })
        },
    }
}

impl VsockListener {
    /// The handle-lifecycle invariant: the owned handle is a valid,
    /// non-negative descriptor.
    pub open spec fn wf(&self) -> bool {
        self@ >= 0
    }

    /// Creates a vsock stream socket, binds it to `addr` and puts it into
    /// listening state. An error names the stage that failed, and a handle
    /// created before the failing stage is released before the error is
    /// returned.
    pub fn bind(addr: &SockAddr) -> (r: Result<VsockListener, VsockError>)
        ensures
            r matches Ok(l) ==> l.wf(),
            r matches Err(e) ==> (e is CreateSocket || e is Bind || e is Listen),
    {
        let fd = match sys::sys_socket_stream() {
            Ok(fd) => fd,
            Err(errno) => {
                return Err(VsockError::CreateSocket { errno });
            },
        };
        match sys::sys_bind(fd, addr) {
            Ok(()) => (),
            Err(errno) => {
                let _ = sys::sys_close(fd);
                return Err(VsockError::Bind { errno });
            },
        }
        match sys::sys_listen(fd, BACKLOG) {
            Ok(()) => (),
            Err(errno) => {
                let _ = sys::sys_close(fd);
                return Err(VsockError::Listen { errno });
            },
        }
        Ok(VsockListener { socket: fd })
    }

    /// Blocks until a peer connects, then returns a stream owning the new
    /// connection's handle. On failure the listener stays usable and the
    /// error carries the OS errno.
    pub fn accept(&self) -> (r: Result<VsockStream, VsockError>)
        requires
            self.wf(),
        ensures
            r matches Ok(s) ==> s.wf(),
            r matches Err(e) ==> e is Accept,
    {
        match sys::sys_accept(self.socket) {
            Ok(peer) => Ok(VsockStream { socket: peer }),
            Err(errno) => Err(VsockError::Accept { errno }),
        }
    }

    /// The raw handle the listener owns.
    pub fn as_raw_fd(&self) -> (fd: i32)
        ensures
            fd == self@,
    {
        self.socket
    }
}

impl VsockStream {
    /// The handle-lifecycle invariant: the owned handle is a valid,
    /// non-negative descriptor.
    pub open spec fn wf(&self) -> bool {
        self@ >= 0
    }

    /// Connects to `addr` with the default backoff base of one second, so
    /// the sleeps after failed attempts are 1, 2, 4, 8 and 16 seconds.
    pub fn connect(addr: &SockAddr) -> (r: Result<VsockStream, VsockError>)
        ensures
            r matches Ok(s) ==> s.wf(),
            r matches Err(e) ==> (e is CreateSocket || e is Connect),
    {
        Self::connect_with_backoff(addr, 1)
    }

    /// Connects to `addr`, trying up to `backoff::CONNECT_ATTEMPTS` times
    /// with a fresh socket per attempt and a sleep of `base * 2^i` seconds
    /// after failed attempt `i`; a failed attempt's handle is released
    /// before the next one. Only the last attempt's connect errno is kept
    /// and reported once the attempts are exhausted; a socket-creation
    /// failure ends the attempts at once.
    pub fn connect_with_backoff(addr: &SockAddr, base: u32) -> (r: Result<VsockStream, VsockError>)
        requires
            base <= backoff::MAX_BACKOFF_BASE,
        ensures
            r matches Ok(s) ==> s.wf(),
            r matches Err(e) ==> (e is CreateSocket || e is Connect),
    {
        let mut last_errno: u32 = 0;
        let mut attempt: u32 = 0;
        while attempt < backoff::CONNECT_ATTEMPTS
            invariant
                attempt <= backoff::CONNECT_ATTEMPTS,
                base <= backoff::MAX_BACKOFF_BASE,
            decreases backoff::CONNECT_ATTEMPTS - attempt,
        {
            let fd = match sys::sys_socket_stream() {
                Ok(fd) => fd,
                Err(errno) => {
                    return Err(VsockError::CreateSocket { errno });
                },
            };
            match sys::sys_connect(fd, addr) {
                Ok(()) => {
                    return Ok(VsockStream { socket: fd });
                },
                Err(errno) => {
                    let _ = sys::sys_close(fd);
                    last_errno = errno;
                },
            }
            let delay = backoff::delay_secs(base, attempt);
            let _ = sys::sys_sleep(delay);
            attempt = attempt + 1;
        }
        Err(VsockError::Connect { errno: last_errno })
    }

    /// Issues exactly one receive call into `buf`, whose length it never
    /// changes, and returns how many bytes the OS placed at its front. An
    /// interrupted call counts as a zero-byte success; any other failure
    /// surfaces the OS errno.
    pub fn read(&self, buf: &mut Vec<u8>) -> (r: Result<usize, VsockError>)
        requires
            self.wf(),
        ensures
            final(buf)@.len() == old(buf)@.len(),
            r matches Ok(n) ==> n <= final(buf)@.len(),
            r matches Err(e) ==> e is Io,
    {
        interpret_io_result(sys::sys_recv(self.socket, buf))
    }

    /// Issues exactly one send call with the contents of `buf` and returns
    /// how many bytes the OS accepted for sending. An interrupted call
    /// counts as a zero-byte success; any other failure surfaces the OS
    /// errno.
    pub fn write(&self, buf: &[u8]) -> (r: Result<usize, VsockError>)
        requires
            self.wf(),
        ensures
            r matches Ok(n) ==> n <= buf@.len(),
            r matches Err(e) ==> e is Io,
    {
        interpret_io_result(sys::sys_send(self.socket, buf))
    }

    /// There is no internal buffering, so there is nothing to flush: always
    /// succeeds.
    pub fn flush(&self) -> (r: Result<(), VsockError>)
        ensures
            r == Ok::<(), VsockError>(()),
    {
        Ok(())
    }

    /// The raw handle the stream owns.
    pub fn as_raw_fd(&self) -> (fd: i32)
        ensures
            fd == self@,
    {
        self.socket
    }

    /// Wraps an already-connected stream handle, taking ownership of it.
    pub fn from_fd(fd: i32) -> (s: VsockStream)
        requires
            fd >= 0,
        ensures
            s@ == fd,
            s.wf(),
    {
        VsockStream { socket: fd }
    }
}

impl Drop for VsockListener {
    /// Relies on nix::unistd::close: the owned handle is released exactly
    /// once, when the listener is destroyed.
    #[verifier::external_body]
    fn drop(&mut self)
        opens_invariants none
        no_unwind
    {
        let _ = nix::unistd::close(self.socket);
    }
}

impl Drop for VsockStream {
    /// Relies on nix::unistd::close: the owned handle is released exactly
    /// once, when the stream is destroyed.
    #[verifier::external_body]
    fn drop(&mut self)
        opens_invariants none
        no_unwind
    {
        let _ = nix::unistd::close(self.socket);
    }
}

} // verus!
