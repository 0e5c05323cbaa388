//! The two conversions: from an error kind to its error number, which always
//! succeeds, and from an error number back to a kind, which succeeds for the
//! numbers that some kind has.

use vstd::prelude::*;
use vstd::std_specs::convert::{FromSpecImpl, TryFromSpecImpl};
use crate::ax_error::AxError;
use crate::linux_errno::LinuxError;

verus! {

/// The error number of each kind. Several kinds may share one number; a kind
/// that carries a number has that number.
pub open spec fn errno_of(kind: AxError) -> LinuxError {
    match kind {
        AxError::AddressInUse => LinuxError::EADDRINUSE,
        AxError::AlreadyExists => LinuxError::EEXIST,
        AxError::BadAddress | AxError::BadState => LinuxError::EFAULT,
        AxError::ConnectionRefused => LinuxError::ECONNREFUSED,
        AxError::ConnectionReset => LinuxError::ECONNRESET,
        AxError::DirectoryNotEmpty => LinuxError::ENOTEMPTY,
        AxError::InvalidInput | AxError::InvalidData => LinuxError::EINVAL,
        AxError::Io => LinuxError::EIO,
        AxError::IsADirectory => LinuxError::EISDIR,
        AxError::NoMemory => LinuxError::ENOMEM,
        AxError::NotADirectory => LinuxError::ENOTDIR,
        AxError::NotConnected => LinuxError::ENOTCONN,
        AxError::NotFound => LinuxError::ENOENT,
        AxError::PermissionDenied => LinuxError::EACCES,
        AxError::ResourceBusy => LinuxError::EBUSY,
        AxError::StorageFull => LinuxError::ENOSPC,
        AxError::Unsupported => LinuxError::ENOSYS,
        AxError::UnexpectedEof | AxError::WriteZero => LinuxError::EIO,
        AxError::WouldBlock => LinuxError::EAGAIN,
        AxError::TooBig => LinuxError::E2BIG,
        AxError::CrossesDevices => LinuxError::EXDEV,
        AxError::BadIoctl => LinuxError::ENOTTY,
        AxError::NameTooLong => LinuxError::ENAMETOOLONG,
        AxError::BadFileDescriptor => LinuxError::EBADF,
        AxError::FilesystemLoop => LinuxError::ELOOP,
        AxError::OperationNotSupported => LinuxError::EOPNOTSUPP,
        AxError::InProgress => LinuxError::EINPROGRESS,
        AxError::AlreadyConnected => LinuxError::EISCONN,
        AxError::Interrupted => LinuxError::EINTR,
        AxError::TimedOut => LinuxError::ETIMEDOUT,
        AxError::NotASocket => LinuxError::ENOTSOCK,
        AxError::BrokenPipe => LinuxError::EPIPE,
        AxError::TooManyOpenFiles => LinuxError::EMFILE,
        AxError::NoSuchProcess => LinuxError::ESRCH,
        AxError::IllegalBytes => LinuxError::EILSEQ,
        AxError::OperationNotPermitted => LinuxError::EPERM,
        AxError::OutOfRange => LinuxError::ERANGE,
        AxError::InvalidExecutable => LinuxError::ENOEXEC,
        AxError::NoSuchDevice => LinuxError::ENODEV,
        AxError::ReadOnlyFilesystem => LinuxError::EROFS,
        AxError::Other(errno) => errno,
    }
}

/// The kind that stands for an error number, where it has one. Of the kinds
/// that share a number, the one declared first stands for it.
pub open spec fn kind_of(errno: LinuxError) -> Option<AxError> {
    match errno {
        LinuxError::EADDRINUSE => Some(AxError::AddressInUse),
        LinuxError::EEXIST => Some(AxError::AlreadyExists),
        LinuxError::EFAULT => Some(AxError::BadAddress),
        LinuxError::ECONNREFUSED => Some(AxError::ConnectionRefused),
        LinuxError::ECONNRESET => Some(AxError::ConnectionReset),
        LinuxError::ENOTEMPTY => Some(AxError::DirectoryNotEmpty),
        LinuxError::EINVAL => Some(AxError::InvalidInput),
        LinuxError::EIO => Some(AxError::Io),
        LinuxError::EISDIR => Some(AxError::IsADirectory),
        LinuxError::ENOMEM => Some(AxError::NoMemory),
        LinuxError::ENOTDIR => Some(AxError::NotADirectory),
        LinuxError::ENOTCONN => Some(AxError::NotConnected),
        LinuxError::ENOENT => Some(AxError::NotFound),
        LinuxError::EACCES => Some(AxError::PermissionDenied),
        LinuxError::EBUSY => Some(AxError::ResourceBusy),
        LinuxError::ENOSPC => Some(AxError::StorageFull),
        LinuxError::ENOSYS => Some(AxError::Unsupported),
        LinuxError::EAGAIN => Some(AxError::WouldBlock),
        LinuxError::E2BIG => Some(AxError::TooBig),
        LinuxError::EXDEV => Some(AxError::CrossesDevices),
        LinuxError::ENOTTY => Some(AxError::BadIoctl),
        LinuxError::ENAMETOOLONG => Some(AxError::NameTooLong),
        LinuxError::EBADF => Some(AxError::BadFileDescriptor),
        LinuxError::ELOOP => Some(AxError::FilesystemLoop),
        LinuxError::EOPNOTSUPP => Some(AxError::OperationNotSupported),
        LinuxError::EINPROGRESS => Some(AxError::InProgress),
        LinuxError::EISCONN => Some(AxError::AlreadyConnected),
        LinuxError::EINTR => Some(AxError::Interrupted),
        LinuxError::ETIMEDOUT => Some(AxError::TimedOut),
        LinuxError::ENOTSOCK => Some(AxError::NotASocket),
        LinuxError::EPIPE => Some(AxError::BrokenPipe),
        LinuxError::EMFILE => Some(AxError::TooManyOpenFiles),
        LinuxError::ESRCH => Some(AxError::NoSuchProcess),
        LinuxError::EILSEQ => Some(AxError::IllegalBytes),
        LinuxError::EPERM => Some(AxError::OperationNotPermitted),
        LinuxError::ERANGE => Some(AxError::OutOfRange),
        LinuxError::ENOEXEC => Some(AxError::InvalidExecutable),
        LinuxError::ENODEV => Some(AxError::NoSuchDevice),
        LinuxError::EROFS => Some(AxError::ReadOnlyFilesystem),
        _ => None,
    }
}

impl FromSpecImpl<AxError> for LinuxError {
    open spec fn obeys_from_spec() -> bool {
        true
    }

    open spec fn from_spec(e: AxError) -> LinuxError {
        errno_of(e)
    }
}

impl From<AxError> for LinuxError {
    /// Gives the error number of a kind. Every kind has one.
    fn from(e: AxError) -> (errno: LinuxError)
        ensures
            errno == errno_of(e),
    {
        match e {
            AxError::AddressInUse => LinuxError::EADDRINUSE,
            AxError::AlreadyExists => LinuxError::EEXIST,
            AxError::BadAddress | AxError::BadState => LinuxError::EFAULT,
            AxError::ConnectionRefused => LinuxError::ECONNREFUSED,
            AxError::ConnectionReset => LinuxError::ECONNRESET,
            AxError::DirectoryNotEmpty => LinuxError::ENOTEMPTY,
            AxError::InvalidInput | AxError::InvalidData => LinuxError::EINVAL,
            AxError::Io => LinuxError::EIO,
            AxError::IsADirectory => LinuxError::EISDIR,
            AxError::NoMemory => LinuxError::ENOMEM,
            AxError::NotADirectory => LinuxError::ENOTDIR,
            AxError::NotConnected => LinuxError::ENOTCONN,
            AxError::NotFound => LinuxError::ENOENT,
            AxError::PermissionDenied => LinuxError::EACCES,
            AxError::ResourceBusy => LinuxError::EBUSY,
            AxError::StorageFull => LinuxError::ENOSPC,
            AxError::Unsupported => LinuxError::ENOSYS,
            AxError::UnexpectedEof | AxError::WriteZero => LinuxError::EIO,
            AxError::WouldBlock => LinuxError::EAGAIN,
            AxError::TooBig => LinuxError::E2BIG,
            AxError::CrossesDevices => LinuxError::EXDEV,
            AxError::BadIoctl => LinuxError::ENOTTY,
            AxError::NameTooLong => LinuxError::ENAMETOOLONG,
            AxError::BadFileDescriptor => LinuxError::EBADF,
            AxError::FilesystemLoop => LinuxError::ELOOP,
            AxError::OperationNotSupported => LinuxError::EOPNOTSUPP,
            AxError::InProgress => LinuxError::EINPROGRESS,
            AxError::AlreadyConnected => LinuxError::EISCONN,
            AxError::Interrupted => LinuxError::EINTR,
            AxError::TimedOut => LinuxError::ETIMEDOUT,
            AxError::NotASocket => LinuxError::ENOTSOCK,
            AxError::BrokenPipe => LinuxError::EPIPE,
            AxError::TooManyOpenFiles => LinuxError::EMFILE,
            AxError::NoSuchProcess => LinuxError::ESRCH,
            AxError::IllegalBytes => LinuxError::EILSEQ,
            AxError::OperationNotPermitted => LinuxError::EPERM,
            AxError::OutOfRange => LinuxError::ERANGE,
            AxError::InvalidExecutable => LinuxError::ENOEXEC,
            AxError::NoSuchDevice => LinuxError::ENODEV,
            AxError::ReadOnlyFilesystem => LinuxError::EROFS,
            AxError::Other(errno) => errno,
        }
    }
}

impl TryFromSpecImpl<LinuxError> for AxError {
    open spec fn obeys_try_from_spec() -> bool {
        true
    }

    open spec fn try_from_spec(e: LinuxError) -> Result<AxError, LinuxError> {
        match kind_of(e) {
            Some(kind) => Ok(kind),
            None => Err(e),
        }
    }
}

impl TryFrom<LinuxError> for AxError {
    type Error = LinuxError;

    /// Gives the kind that stands for an error number. A number that no kind
    /// has is handed back unchanged as the error, for the caller to wrap in
    /// [`AxError::Other`].
    fn try_from(e: LinuxError) -> (r: Result<AxError, LinuxError>)
        ensures
            kind_of(e) matches Some(kind) ==> r == Ok::<AxError, LinuxError>(kind),
            kind_of(e) is None ==> r == Err::<AxError, LinuxError>(e),
    {
        Ok(
            match e {
                LinuxError::EADDRINUSE => AxError::AddressInUse,
                LinuxError::EEXIST => AxError::AlreadyExists,
                LinuxError::EFAULT => AxError::BadAddress,
                LinuxError::ECONNREFUSED => AxError::ConnectionRefused,
                LinuxError::ECONNRESET => AxError::ConnectionReset,
                LinuxError::ENOTEMPTY => AxError::DirectoryNotEmpty,
                LinuxError::EINVAL => AxError::InvalidInput,
                LinuxError::EIO => AxError::Io,
                LinuxError::EISDIR => AxError::IsADirectory,
                LinuxError::ENOMEM => AxError::NoMemory,
                LinuxError::ENOTDIR => AxError::NotADirectory,
                LinuxError::ENOTCONN => AxError::NotConnected,
                LinuxError::ENOENT => AxError::NotFound,
                LinuxError::EACCES => AxError::PermissionDenied,
                LinuxError::EBUSY => AxError::ResourceBusy,
                LinuxError::ENOSPC => AxError::StorageFull,
                LinuxError::ENOSYS => AxError::Unsupported,
                LinuxError::EAGAIN => AxError::WouldBlock,
                LinuxError::E2BIG => AxError::TooBig,
                LinuxError::EXDEV => AxError::CrossesDevices,
                LinuxError::ENOTTY => AxError::BadIoctl,
                LinuxError::ENAMETOOLONG => AxError::NameTooLong,
                LinuxError::EBADF => AxError::BadFileDescriptor,
                LinuxError::ELOOP => AxError::FilesystemLoop,
                LinuxError::EOPNOTSUPP => AxError::OperationNotSupported,
                LinuxError::EINPROGRESS => AxError::InProgress,
                LinuxError::EISCONN => AxError::AlreadyConnected,
                LinuxError::EINTR => AxError::Interrupted,
                LinuxError::ETIMEDOUT => AxError::TimedOut,
                LinuxError::ENOTSOCK => AxError::NotASocket,
                LinuxError::EPIPE => AxError::BrokenPipe,
                LinuxError::EMFILE => AxError::TooManyOpenFiles,
                LinuxError::ESRCH => AxError::NoSuchProcess,
                LinuxError::EILSEQ => AxError::IllegalBytes,
                LinuxError::EPERM => AxError::OperationNotPermitted,
                LinuxError::ERANGE => AxError::OutOfRange,
                LinuxError::ENOEXEC => AxError::InvalidExecutable,
                LinuxError::ENODEV => AxError::NoSuchDevice,
                LinuxError::EROFS => AxError::ReadOnlyFilesystem,
                _ => {
                    return Err(e);
                },
            },
        )
    }
}

} // verus!
