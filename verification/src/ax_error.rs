//! The error kinds, and what each is called in words.

use vstd::prelude::*;
use crate::linux_errno::LinuxError;

verus! {

/// A specialized `Result` with [`LinuxError`] as the error type.
pub type LinuxResult<T = ()> = Result<T, LinuxError>;

/// A specialized `Result` with [`AxError`] as the error type.
pub type AxResult<T = ()> = Result<T, AxError>;

/// Why an operation failed, in terms that depend on no operating system.
///
/// An error number of Linux that has no kind of its own is carried by
/// [`Other`](AxError::Other).
#[non_exhaustive]
#[derive(Clone, Copy, Debug, PartialEq, Eq, Structural, PartialOrd, Ord, Hash)]
pub enum AxError {
    /// A socket address could not be bound because the address is already in use
    /// elsewhere.
    AddressInUse,
    /// An entity already exists, often a file.
    AlreadyExists,
    /// Bad address.
    BadAddress,
    /// Bad internal state.
    BadState,
    /// The connection was refused by the remote server.
    ConnectionRefused,
    /// The connection was reset by the remote server.
    ConnectionReset,
    /// A non-empty directory was specified where an empty directory was expected.
    DirectoryNotEmpty,
    /// Data not valid for the operation were encountered.
    ///
    /// Unlike [`InvalidInput`](AxError::InvalidInput), this typically means that
    /// the parameters of the operation were valid and the input data were
    /// malformed: a file that should hold UTF-8 and does not, for example.
    InvalidData,
    /// Invalid parameter or argument.
    InvalidInput,
    /// Input/output error.
    Io,
    /// The filesystem object is, unexpectedly, a directory.
    IsADirectory,
    /// Not enough space, or memory cannot be allocated.
    NoMemory,
    /// A filesystem object is, unexpectedly, not a directory.
    NotADirectory,
    /// The network operation failed because it was not connected yet.
    NotConnected,
    /// The requested entity is not found.
    NotFound,
    /// The operation lacked the necessary privileges to complete.
    PermissionDenied,
    /// Device or resource is busy.
    ResourceBusy,
    /// The underlying storage (typically, a filesystem) is full.
    StorageFull,
    /// An operation could not be completed because an end of file was reached
    /// prematurely.
    UnexpectedEof,
    /// This operation is unsupported or unimplemented.
    Unsupported,
    /// The operation needs to block to complete, but the blocking operation was
    /// requested to not occur.
    WouldBlock,
    /// An operation could not be completed because a write returned `Ok(0)`.
    WriteZero,
    /// Argument list is too long.
    TooBig,
    /// Cross-device or cross-filesystem (hard) link or rename.
    CrossesDevices,
    /// Inappropriate ioctl for device.
    BadIoctl,
    /// Filename is too long.
    NameTooLong,
    /// Bad file descriptor.
    BadFileDescriptor,
    /// Loop in the filesystem or I/O subsystem; often, too many levels of symbolic
    /// links.
    FilesystemLoop,
    /// Operation not supported.
    OperationNotSupported,
    /// The operation was partially successful and needs to be checked later on
    /// due to not blocking.
    InProgress,
    /// The socket is already connected.
    AlreadyConnected,
    /// The operation was interrupted by a signal.
    Interrupted,
    /// The timeout of the I/O operation expired, causing it to be canceled.
    TimedOut,
    /// The specified entity is not a socket.
    NotASocket,
    /// Broken pipe.
    BrokenPipe,
    /// The process has too many files open.
    TooManyOpenFiles,
    /// No such process.
    NoSuchProcess,
    /// Illegal byte sequence.
    IllegalBytes,
    /// Operation not permitted.
    OperationNotPermitted,
    /// Result out of range.
    OutOfRange,
    /// Invalid executable format.
    InvalidExecutable,
    /// No such device.
    NoSuchDevice,
    /// The filesystem is read-only.
    ReadOnlyFilesystem,
    /// Another error, with the given error number of Linux.
    Other(LinuxError),
}

impl AxError {
    /// The description of each kind, as a sequence of characters. A kind that
    /// carries an error number is described as that number is.
    pub open spec fn description(self) -> Seq<char> {
        match self {
            AxError::AddressInUse => "Address in use"@,
            AxError::AlreadyExists => "Entity already exists"@,
            AxError::BadAddress => "Bad address"@,
            AxError::BadState => "Bad internal state"@,
            AxError::ConnectionRefused => "Connection refused"@,
            AxError::ConnectionReset => "Connection reset"@,
            AxError::DirectoryNotEmpty => "Directory not empty"@,
            AxError::InvalidData => "Invalid data"@,
            AxError::InvalidInput => "Invalid input parameter"@,
            AxError::Io => "I/O error"@,
            AxError::IsADirectory => "Is a directory"@,
            AxError::NoMemory => "Out of memory"@,
            AxError::NotADirectory => "Not a directory"@,
            AxError::NotConnected => "Not connected"@,
            AxError::NotFound => "Entity not found"@,
            AxError::PermissionDenied => "Permission denied"@,
            AxError::ResourceBusy => "Resource busy"@,
            AxError::StorageFull => "No storage space"@,
            AxError::UnexpectedEof => "Unexpected end of file"@,
            AxError::Unsupported => "Operation not supported"@,
            AxError::WouldBlock => "Operation would block"@,
            AxError::WriteZero => "Write zero"@,
            AxError::TooBig => "Argument list too long"@,
            AxError::CrossesDevices => "Cross-device link or rename"@,
            AxError::BadIoctl => "Inappropriate ioctl for device"@,
            AxError::NameTooLong => "Filename too long"@,
            AxError::BadFileDescriptor => "Bad file descriptor"@,
            AxError::FilesystemLoop => "Filesystem loop or indirection limit"@,
            AxError::OperationNotSupported => "Operation not supported"@,
            AxError::InProgress => "Operation in progress"@,
            AxError::AlreadyConnected => "Already connected"@,
            AxError::Interrupted => "Operation interrupted"@,
            AxError::TimedOut => "Timed out"@,
            AxError::NotASocket => "Not a socket"@,
            AxError::BrokenPipe => "Broken pipe"@,
            AxError::TooManyOpenFiles => "Too many open files"@,
            AxError::NoSuchProcess => "No such process"@,
            AxError::IllegalBytes => "Illegal byte sequence"@,
            AxError::OperationNotPermitted => "Operation not permitted"@,
            AxError::OutOfRange => "Result out of range"@,
            AxError::InvalidExecutable => "Invalid executable format"@,
            AxError::NoSuchDevice => "No such device"@,
            AxError::ReadOnlyFilesystem => "Read-only filesystem"@,
            AxError::Other(errno) => errno.description(),
        }
    }

    /// Returns the error description.
    pub fn as_str(&self) -> (s: &'static str)
        ensures
            s@ == self.description(),
    {
        match *self {
            AxError::AddressInUse => "Address in use",
            AxError::AlreadyExists => "Entity already exists",
            AxError::BadAddress => "Bad address",
            AxError::BadState => "Bad internal state",
            AxError::ConnectionRefused => "Connection refused",
            AxError::ConnectionReset => "Connection reset",
            AxError::DirectoryNotEmpty => "Directory not empty",
            AxError::InvalidData => "Invalid data",
            AxError::InvalidInput => "Invalid input parameter",
            AxError::Io => "I/O error",
            AxError::IsADirectory => "Is a directory",
            AxError::NoMemory => "Out of memory",
            AxError::NotADirectory => "Not a directory",
            AxError::NotConnected => "Not connected",
            AxError::NotFound => "Entity not found",
            AxError::PermissionDenied => "Permission denied",
            AxError::ResourceBusy => "Resource busy",
            AxError::StorageFull => "No storage space",
            AxError::UnexpectedEof => "Unexpected end of file",
            AxError::Unsupported => "Operation not supported",
            AxError::WouldBlock => "Operation would block",
            AxError::WriteZero => "Write zero",
            AxError::TooBig => "Argument list too long",
            AxError::CrossesDevices => "Cross-device link or rename",
            AxError::BadIoctl => "Inappropriate ioctl for device",
            AxError::NameTooLong => "Filename too long",
            AxError::BadFileDescriptor => "Bad file descriptor",
            AxError::FilesystemLoop => "Filesystem loop or indirection limit",
            AxError::OperationNotSupported => "Operation not supported",
            AxError::InProgress => "Operation in progress",
            AxError::AlreadyConnected => "Already connected",
            AxError::Interrupted => "Operation interrupted",
            AxError::TimedOut => "Timed out",
            AxError::NotASocket => "Not a socket",
            AxError::BrokenPipe => "Broken pipe",
            AxError::TooManyOpenFiles => "Too many open files",
            AxError::NoSuchProcess => "No such process",
            AxError::IllegalBytes => "Illegal byte sequence",
            AxError::OperationNotPermitted => "Operation not permitted",
            AxError::OutOfRange => "Result out of range",
            AxError::InvalidExecutable => "Invalid executable format",
            AxError::NoSuchDevice => "No such device",
            AxError::ReadOnlyFilesystem => "Read-only filesystem",
            AxError::Other(errno) => errno.as_str(),
        }
    }
}

} // verus!
