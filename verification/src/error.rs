//! The error taxonomy: a closed set of semantic error kinds, and the total
//! mapping from raw kernel error codes into it.
//!
//! The queue syscalls report failures as errno values. Only the codes that the
//! exposed operations can actually produce are mapped to a kind of their own;
//! every other code falls through to `UnknownForeignError`, which carries the
//! raw code so that nothing is ever silently dropped. The codes for timed,
//! non-blocking or unvalidated calls (timeout, would-block, invalid argument,
//! name too long) have no kind of their own on purpose: the corresponding
//! syscall paths are never issued, and name and size validation happen before
//! any syscall.

use vstd::prelude::*;

verus! {

/// Error code for "permission denied" (Linux `EACCES`).
pub const CODE_ACCES: i32 = 13;

/// Error code for "bad descriptor" (Linux `EBADF`).
pub const CODE_BADF: i32 = 9;

/// Error code for "interrupted by signal" (Linux `EINTR`).
pub const CODE_INTR: i32 = 4;

/// Error code for "already exists" (Linux `EEXIST`).
pub const CODE_EXIST: i32 = 17;

/// Error code for "process descriptor limit reached" (Linux `EMFILE`).
pub const CODE_MFILE: i32 = 24;

/// Error code for "system descriptor limit reached" (Linux `ENFILE`).
pub const CODE_NFILE: i32 = 23;

/// Error code for "no such queue" (Linux `ENOENT`).
pub const CODE_NOENT: i32 = 2;

/// Error code for "insufficient memory" (Linux `ENOMEM`).
pub const CODE_NOMEM: i32 = 12;

/// Error code for "insufficient space" (Linux `ENOSPC`).
pub const CODE_NOSPC: i32 = 28;

/// The reason a queue name was rejected by validation, one variant per rule.
/// `message` renders the human-readable text that callers can show.
#[derive(Clone, Copy, Debug, PartialEq, Eq, Structural)]
pub enum NameError {
    /// The name does not start with the separator character `/`.
    MustStartWithSeparator,
    /// The name is exactly the separator character and nothing else.
    SeparatorOnly,
    /// The name is longer than 255 bytes.
    TooLong,
    /// The name contains the separator character more than once.
    TooManySeparators,
}

/// The human-readable text for each validation failure, as a mathematical
/// value.
pub open spec fn name_error_message(e: NameError) -> Seq<char> {
    match e {
        NameError::MustStartWithSeparator => "Queue name must start with '/'"@,
        NameError::SeparatorOnly => "Queue name must be a slash followed by one or more characters"@,
        NameError::TooLong => "Queue name must not exceed 255 characters"@,
        NameError::TooManySeparators => "Queue name can not contain more than one slash"@,
    }
}

impl NameError {
    /// The human-readable reason for the rejection.
    pub fn message(&self) -> (r: &'static str)
        ensures
            r@ == name_error_message(*self),
    {
        match self {
            NameError::MustStartWithSeparator => "Queue name must start with '/'",
            NameError::SeparatorOnly => "Queue name must be a slash followed by one or more characters",
            NameError::TooLong => "Queue name must not exceed 255 characters",
            NameError::TooManySeparators => "Queue name can not contain more than one slash",
        }
    }
}

/// Every failure an operation of this crate can report.
///
/// The first group is raised by the crate's own validation, before any
/// syscall. The second group matches the kernel-reported codes described in
/// `mq_overview(7)` and the pages it points to. The last two are catch-alls
/// for anything outside the explicit mapping; `UnknownForeignError` keeps the
/// raw errno value for diagnostics.
#[derive(Clone, Copy, Debug, PartialEq, Eq, Structural)]
pub enum Error {
    /// The queue name failed validation; carries the reason.
    InvalidQueueName(NameError),
    /// A system configuration value could not be read; carries the errno
    /// reported while opening or reading the configuration file.
    ValueReadingError(i32),
    /// A message was larger than the owning queue's maximum message size.
    MessageSizeExceeded,
    /// A requested maximum message size exceeded the system-wide limit.
    MaximumMessageSizeExceeded,
    /// A requested maximum message count exceeded the system-wide limit.
    MaximumMessageCountExceeded,
    /// Permission to the specified queue was denied.
    PermissionDenied,
    /// The internal queue descriptor was invalid.
    InvalidQueueDescriptor,
    /// A blocking queue call was interrupted by a signal.
    QueueCallInterrupted,
    /// The queue to be created already exists.
    QueueAlreadyExists,
    /// The queue to be opened does not exist.
    QueueNotFound,
    /// Insufficient memory to carry out the call.
    InsufficientMemory,
    /// Insufficient space to carry out the call.
    InsufficientSpace,
    /// The per-process descriptor limit was reached.
    ProcessFileDescriptorLimitReached,
    /// The system-wide descriptor limit was reached.
    SystemFileDescriptorLimitReached,
    /// A kernel error code outside the explicit mapping; carries the raw code.
    UnknownForeignError(i32),
    /// An unexpected failure inside the crate itself, such as a system
    /// configuration file that does not hold an integer.
    UnknownInternalError,
}

/// The mapping from kernel error codes, as a mathematical function. It is
/// total: every unmapped code becomes `UnknownForeignError` with the raw code.
pub open spec fn spec_match_errno(err: int) -> Error {
    if err == CODE_ACCES {
        Error::PermissionDenied
    } else if err == CODE_BADF {
        Error::InvalidQueueDescriptor
    } else if err == CODE_INTR {
        Error::QueueCallInterrupted
    } else if err == CODE_EXIST {
        Error::QueueAlreadyExists
    } else if err == CODE_MFILE {
        Error::ProcessFileDescriptorLimitReached
    } else if err == CODE_NFILE {
        Error::SystemFileDescriptorLimitReached
    } else if err == CODE_NOENT {
        Error::QueueNotFound
    } else if err == CODE_NOMEM {
        Error::InsufficientMemory
    } else if err == CODE_NOSPC {
        Error::InsufficientSpace
    } else {
        Error::UnknownForeignError(err as i32)
    }
}

/// True of the kinds that the errno mapping can produce, and of no other:
/// the kinds that reach a caller only when the kernel itself reported a
/// failure.
pub open spec fn is_errno_kind(e: Error) -> bool {
    match e {
        Error::PermissionDenied => true,
        Error::InvalidQueueDescriptor => true,
        Error::QueueCallInterrupted => true,
        Error::QueueAlreadyExists => true,
        Error::QueueNotFound => true,
        Error::InsufficientMemory => true,
        Error::InsufficientSpace => true,
        Error::ProcessFileDescriptorLimitReached => true,
        Error::SystemFileDescriptorLimitReached => true,
        Error::UnknownForeignError(_) => true,
        _ => false,
    }
}

/// Map a raw kernel error code to its semantic kind.
pub fn match_errno(err: i32) -> (r: Error)
    ensures
        r == spec_match_errno(err as int),
{
    if err == CODE_ACCES {
        Error::PermissionDenied
    } else if err == CODE_BADF {
        Error::InvalidQueueDescriptor
    } else if err == CODE_INTR {
        Error::QueueCallInterrupted
    } else if err == CODE_EXIST {
        Error::QueueAlreadyExists
    } else if err == CODE_MFILE {
        Error::ProcessFileDescriptorLimitReached
    } else if err == CODE_NFILE {
        Error::SystemFileDescriptorLimitReached
    } else if err == CODE_NOENT {
        Error::QueueNotFound
    } else if err == CODE_NOMEM {
        Error::InsufficientMemory
    } else if err == CODE_NOSPC {
        Error::InsufficientSpace
    } else {
        Error::UnknownForeignError(err)
    }
}

/// The errno mapping only ever produces kernel-reported kinds: never a
/// validation kind such as `MessageSizeExceeded` or `InvalidQueueName`.
pub proof fn lemma_match_errno_is_errno_kind(err: int)
    ensures
        is_errno_kind(spec_match_errno(err)),
{
}

/// The text for each error kind, as a mathematical value.
pub open spec fn spec_description(e: Error) -> Seq<char> {
    match e {
        Error::InvalidQueueName(r) => name_error_message(r),
        Error::ValueReadingError(_) => "error reading system configuration for message queues"@,
        Error::MessageSizeExceeded => "message is larger than maximum size for specified queue"@,
        Error::MaximumMessageSizeExceeded => "specified queue message size exceeds system maximum"@,
        Error::MaximumMessageCountExceeded => "specified queue message count exceeds system maximum"@,
        Error::PermissionDenied => "permission to the specified queue was denied"@,
        Error::InvalidQueueDescriptor => "the internal queue descriptor was invalid"@,
        Error::QueueCallInterrupted => "queue method interrupted by signal"@,
        Error::QueueAlreadyExists => "the specified queue already exists"@,
        Error::QueueNotFound => "the specified queue could not be found"@,
        Error::InsufficientMemory => "insufficient memory to call queue method"@,
        Error::InsufficientSpace => "insufficient space to call queue method"@,
        Error::ProcessFileDescriptorLimitReached => "maximum number of process file descriptors reached"@,
        Error::SystemFileDescriptorLimitReached => "maximum number of system file descriptors reached"@,
        Error::UnknownForeignError(_) => "unknown foreign error occured: please report a bug!"@,
        Error::UnknownInternalError => "unknown internal error occured: please report a bug!"@,
    }
}

impl Error {
    /// A short human-readable description of the error.
    pub fn description(&self) -> (r: &'static str)
        ensures
            r@ == spec_description(*self),
    {
        match self {
            Error::InvalidQueueName(r) => r.message(),
            Error::ValueReadingError(_) => "error reading system configuration for message queues",
            Error::MessageSizeExceeded => "message is larger than maximum size for specified queue",
            Error::MaximumMessageSizeExceeded => "specified queue message size exceeds system maximum",
            Error::MaximumMessageCountExceeded => "specified queue message count exceeds system maximum",
            Error::PermissionDenied => "permission to the specified queue was denied",
            Error::InvalidQueueDescriptor => "the internal queue descriptor was invalid",
            Error::QueueCallInterrupted => "queue method interrupted by signal",
            Error::QueueAlreadyExists => "the specified queue already exists",
            Error::QueueNotFound => "the specified queue could not be found",
            Error::InsufficientMemory => "insufficient memory to call queue method",
            Error::InsufficientSpace => "insufficient space to call queue method",
            Error::ProcessFileDescriptorLimitReached => "maximum number of process file descriptors reached",
            Error::SystemFileDescriptorLimitReached => "maximum number of system file descriptors reached",
            Error::UnknownForeignError(_) => "unknown foreign error occured: please report a bug!",
            Error::UnknownInternalError => "unknown internal error occured: please report a bug!",
        }
    }
}

} // verus!
