//! Trusted wrappers around the operating-system socket calls, one per call.
//! Their contracts state only what the underlying calls are documented to
//! guarantee; everything nondeterministic (whether a call succeeds, how many
//! bytes it moves) is left open and handled by the verified callers.

use vstd::prelude::*;
use crate::error::SysError;

verus! {

/// nix's socket address value, carried through opaquely: this crate never
/// reads or builds one, it only hands it to the bind and connect calls.
#[verifier::external_type_specification]
#[verifier::external_body]
pub struct ExSockAddr(nix::sys::socket::SockAddr);

/// Relies on nix::sys::socket::socket: on success the OS hands out a fresh
/// non-negative descriptor for a stream socket in the vsock family; on
/// failure, the errno of the failed call.
#[verifier::external_body]
pub(crate) fn sys_socket_stream() -> (r: Result<i32, u32>)
    ensures
        r matches Ok(fd) ==> fd >= 0,
{
    match nix::sys::socket::socket(
        nix::sys::socket::AddressFamily::Vsock,
        nix::sys::socket::SockType::Stream,
        nix::sys::socket::SockFlag::empty(),
        None,
    ) {
        Ok(fd) => Ok(fd),
        Err(e) => Err(e as u32),
    }
}

/// Relies on nix::sys::socket::bind: binds the socket to the address, or
/// fails with the call's errno.
#[verifier::external_body]
pub(crate) fn sys_bind(fd: i32, addr: &nix::sys::socket::SockAddr) -> (r: Result<(), u32>) {
    nix::sys::socket::bind(fd, addr).map_err(|e| e as u32)
}

/// Relies on nix::sys::socket::listen: puts the socket into listening state
/// with the given backlog, or fails with the call's errno.
#[verifier::external_body]
pub(crate) fn sys_listen(fd: i32, backlog: usize) -> (r: Result<(), u32>) {
    nix::sys::socket::listen(fd, backlog).map_err(|e| e as u32)
}

/// Relies on nix::sys::socket::accept: blocks until a peer connects, then
/// hands out the non-negative descriptor of the new connection; on failure,
/// the errno of the failed call.
#[verifier::external_body]
pub(crate) fn sys_accept(fd: i32) -> (r: Result<i32, u32>)
    ensures
        r matches Ok(peer) ==> peer >= 0,
{
    nix::sys::socket::accept(fd).map_err(|e| e as u32)
}

/// Relies on nix::sys::socket::connect: connects the socket to the address,
/// or fails with the call's errno.
#[verifier::external_body]
pub(crate) fn sys_connect(fd: i32, addr: &nix::sys::socket::SockAddr) -> (r: Result<(), u32>) {
    nix::sys::socket::connect(fd, addr).map_err(|e| e as u32)
}

/// Relies on nix::sys::socket::send: on success the OS accepted `n` bytes of
/// the buffer for sending, and `n` is at most the buffer's length. On failure
/// the errno, with a mark for a call a signal interrupted.
#[verifier::external_body]
pub(crate) fn sys_send(fd: i32, buf: &[u8]) -> (r: Result<usize, SysError>)
    ensures
        r matches Ok(n) ==> n <= buf@.len(),
{
    match nix::sys::socket::send(fd, buf, nix::sys::socket::MsgFlags::empty()) {
        Ok(n) => Ok(n),
        Err(e) => Err(SysError { errno: e as u32, interrupted: e == nix::errno::Errno::EINTR }),
    }
}

/// Relies on nix::sys::socket::recv: on success the OS placed `n` bytes at
/// the front of the buffer, with `n` at most the buffer's length, which the
/// call does not change. On failure the errno, with a mark for a call a
/// signal interrupted.
#[verifier::external_body]
pub(crate) fn sys_recv(fd: i32, buf: &mut Vec<u8>) -> (r: Result<usize, SysError>)
    ensures
        final(buf)@.len() == old(buf)@.len(),
        r matches Ok(n) ==> n <= final(buf)@.len(),
{
    match nix::sys::socket::recv(fd, buf.as_mut_slice(), nix::sys::socket::MsgFlags::empty()) {
        Ok(n) => Ok(n),
        Err(e) => Err(SysError { errno: e as u32, interrupted: e == nix::errno::Errno::EINTR }),
    }
}

/// Relies on nix::unistd::close: releases the descriptor, or fails with the
/// call's errno.
#[verifier::external_body]
pub(crate) fn sys_close(fd: i32) -> (r: Result<(), u32>) {
    nix::unistd::close(fd).map_err(|e| e as u32)
}

/// Relies on nix::unistd::sleep: suspends the calling thread for up to the
/// given number of seconds, returning how many of them were not slept.
#[verifier::external_body]
pub(crate) fn sys_sleep(secs: u32) -> (r: u32)
    ensures
        r <= secs,
{
    nix::unistd::sleep(secs)
}

} // verus!
