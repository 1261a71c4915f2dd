//! Trusted bindings to the `nix` crate: the whole syscall surface this
//! library stands on. Each item's contract states only what the called
//! function's source and documentation show; everything above is verified
//! against these contracts. Failures are handed up as raw errno values and
//! mapped by [`crate::error::match_errno`] in verified code.

use nix::NixPath;
use vstd::prelude::*;

verus! {

/// The kernel's handle for one open queue descriptor, an opaque value owned
/// by [`crate::Queue`].
#[verifier::external_type_specification]
#[verifier::external_body]
pub struct ExMqdT(nix::mqueue::MqdT);

/// Relies on `nix::mqueue::mq_open` (`mq_open(3)`), called read/write with
/// the given creation flags, permission bits and, if given, the requested
/// maximum message count and size. Per `mq_open(3)`, a request that creates a
/// queue is rejected with `EINVAL` unless both attribute values are greater
/// than zero, so an exclusive creation that succeeds had positive attributes.
/// The name is handed over through `nix::NixPath::with_nix_path`, which
/// reports `EINVAL` for a name with an embedded nul byte instead of calling.
#[verifier::external_body]
pub(crate) fn mq_open(
    name: &str,
    create: bool,
    excl: bool,
    mode: u32,
    attr: Option<(i64, i64)>,
) -> (r: Result<nix::mqueue::MqdT, i32>)
    ensures
        (r is Ok && create && excl) ==> (attr matches Some(a) ==> a.0 > 0 && a.1 > 0),
{
    let mut flags = nix::mqueue::MQ_OFlag::O_RDWR;
    if create {
        flags |= nix::mqueue::MQ_OFlag::O_CREAT;
    }
    if excl {
        flags |= nix::mqueue::MQ_OFlag::O_EXCL;
    }
    let m = nix::sys::stat::Mode::from_bits_truncate(mode);
    let a = attr.map(|(maxmsg, msgsize)| nix::mqueue::MqAttr::new(0, maxmsg, msgsize, 0));
    match name.with_nix_path(|c| nix::mqueue::mq_open(c, flags, m, a.as_ref())) {
        Ok(Ok(d)) => Ok(d),
        Ok(Err(e)) => Err(e as i32),
        Err(e) => Err(e as i32),
    }
}

/// Relies on `nix::mqueue::mq_getattr` (`mq_getattr(3)`): reports the queue's
/// current maximum message count and maximum message size. Both are fixed at
/// creation time, where `mq_open(3)` rejects values that are not greater than
/// zero, so an existing queue's values are positive.
#[verifier::external_body]
pub(crate) fn mq_getattr(mqd: &nix::mqueue::MqdT) -> (r: Result<(i64, i64), i32>)
    ensures
        r matches Ok(a) ==> a.0 > 0 && a.1 > 0,
{
    match nix::mqueue::mq_getattr(mqd) {
        Ok(a) => Ok((a.maxmsg(), a.msgsize())),
        Err(e) => Err(e as i32),
    }
}

/// Relies on `nix::mqueue::mq_send` (`mq_send(3)`): enqueues the message with
/// the given priority, blocking while the queue is full.
#[verifier::external_body]
pub(crate) fn mq_send(mqd: &nix::mqueue::MqdT, data: &[u8], priority: u32) -> (r: Result<
    (),
    i32,
>) {
    match nix::mqueue::mq_send(mqd, data, priority) {
        Ok(()) => Ok(()),
        Err(e) => Err(e as i32),
    }
}

/// Relies on `nix::mqueue::mq_receive` (`mq_receive(3)`): blocks until a
/// message arrives, writes it into the front of the buffer and returns its
/// length. The call fails (`EMSGSIZE`) rather than deliver into a buffer
/// smaller than the queue's maximum message size, so a returned length never
/// exceeds the buffer's length, and writing into the slice cannot change that
/// length.
#[verifier::external_body]
pub(crate) fn mq_receive(mqd: &nix::mqueue::MqdT, buf: &mut Vec<u8>, priority: &mut u32) -> (r:
    Result<usize, i32>)
    ensures
        final(buf)@.len() == old(buf)@.len(),
        r matches Ok(n) ==> n <= old(buf)@.len(),
{
    match nix::mqueue::mq_receive(mqd, buf.as_mut_slice(), priority) {
        Ok(n) => Ok(n),
        Err(e) => Err(e as i32),
    }
}

/// Relies on `nix::mqueue::mq_unlink` (`mq_unlink(3)`): removes the name from
/// the system namespace; open descriptors stay usable until closed. The name
/// is handed over through `nix::NixPath::with_nix_path`, as in `mq_open`.
#[verifier::external_body]
pub(crate) fn mq_unlink(name: &str) -> (r: Result<(), i32>) {
    match name.with_nix_path(|c| nix::mqueue::mq_unlink(c)) {
        Ok(Ok(())) => Ok(()),
        Ok(Err(e)) => Err(e as i32),
        Err(e) => Err(e as i32),
    }
}

/// Relies on `nix::fcntl::open` (`open(2)`) with read-only flags and no
/// creation mode: returns a descriptor for the file at the given path.
#[verifier::external_body]
pub(crate) fn open_read(path: &str) -> (r: Result<i32, i32>) {
    match nix::fcntl::open(path, nix::fcntl::OFlag::O_RDONLY, nix::sys::stat::Mode::empty()) {
        Ok(fd) => Ok(fd),
        Err(e) => Err(e as i32),
    }
}

/// Relies on `nix::unistd::read` (`read(2)`): reads into the front of the
/// buffer and returns how many bytes were read, never more than the buffer's
/// length; zero means end of file. Writing into the slice cannot change the
/// buffer's length.
#[verifier::external_body]
pub(crate) fn read_fd(fd: i32, buf: &mut Vec<u8>) -> (r: Result<usize, i32>)
    ensures
        final(buf)@.len() == old(buf)@.len(),
        r matches Ok(n) ==> n <= old(buf)@.len(),
{
    match nix::unistd::read(fd, buf.as_mut_slice()) {
        Ok(n) => Ok(n),
        Err(e) => Err(e as i32),
    }
}

/// Relies on `nix::mqueue::mq_close` (`mq_close(3)`): releases a queue
/// descriptor. Used on the error exits taken before a [`crate::Queue`] owns
/// the descriptor, so that it is released exactly once on every path; the
/// result is discarded there for the same reason as in the destructor — the
/// only reported code means the descriptor was already closed.
#[verifier::external_body]
pub(crate) fn mq_close(mqd: nix::mqueue::MqdT) {
    let _ = nix::mqueue::mq_close(mqd);
}

/// Relies on `nix::unistd::close` (`close(2)`). The result is discarded: the
/// caller has nothing actionable to do with a failed close of a read-only
/// configuration file descriptor.
#[verifier::external_body]
pub(crate) fn close_fd(fd: i32) {
    let _ = nix::unistd::close(fd);
}

} // verus!
