//! The errno space of Linux: one variant per error number, with the number
//! and the description that the kernel's headers give it.

use vstd::prelude::*;

verus! {

/// An error number of Linux.
///
/// The variants stand in ascending order of their numbers, so the derived
/// ordering is the numeric one.
#[derive(Clone, Copy, Debug, PartialEq, Eq, Structural, PartialOrd, Ord, Hash)]
pub enum LinuxError {
    /// Operation not permitted
    EPERM,
    /// No such file or directory
    ENOENT,
    /// No such process
    ESRCH,
    /// Interrupted system call
    EINTR,
    /// I/O error
    EIO,
    /// No such device or address
    ENXIO,
    /// Argument list too long
    E2BIG,
    /// Exec format error
    ENOEXEC,
    /// Bad file number
    EBADF,
    /// No child processes
    ECHILD,
    /// Try again
    EAGAIN,
    /// Out of memory
    ENOMEM,
    /// Permission denied
    EACCES,
    /// Bad address
    EFAULT,
    /// Block device required
    ENOTBLK,
    /// Device or resource busy
    EBUSY,
    /// File exists
    EEXIST,
    /// Cross-device link
    EXDEV,
    /// No such device
    ENODEV,
    /// Not a directory
    ENOTDIR,
    /// Is a directory
    EISDIR,
    /// Invalid argument
    EINVAL,
    /// File table overflow
    ENFILE,
    /// Too many open files
    EMFILE,
    /// Not a typewriter
    ENOTTY,
    /// Text file busy
    ETXTBSY,
    /// File too large
    EFBIG,
    /// No space left on device
    ENOSPC,
    /// Illegal seek
    ESPIPE,
    /// Read-only file system
    EROFS,
    /// Too many links
    EMLINK,
    /// Broken pipe
    EPIPE,
    /// Math argument out of domain of func
    EDOM,
    /// Math result not representable
    ERANGE,
    /// Resource deadlock would occur
    EDEADLK,
    /// File name too long
    ENAMETOOLONG,
    /// No record locks available
    ENOLCK,
    /// Invalid system call number
    ENOSYS,
    /// Directory not empty
    ENOTEMPTY,
    /// Too many symbolic links encountered
    ELOOP,
    /// No message of desired type
    ENOMSG,
    /// Identifier removed
    EIDRM,
    /// Channel number out of range
    ECHRNG,
    /// Level 2 not synchronized
    EL2NSYNC,
    /// Level 3 halted
    EL3HLT,
    /// Level 3 reset
    EL3RST,
    /// Link number out of range
    ELNRNG,
    /// Protocol driver not attached
    EUNATCH,
    /// No CSI structure available
    ENOCSI,
    /// Level 2 halted
    EL2HLT,
    /// Invalid exchange
    EBADE,
    /// Invalid request descriptor
    EBADR,
    /// Exchange full
    EXFULL,
    /// No anode
    ENOANO,
    /// Invalid request code
    EBADRQC,
    /// Invalid slot
    EBADSLT,
    /// Bad font file format
    EBFONT,
    /// Device not a stream
    ENOSTR,
    /// No data available
    ENODATA,
    /// Timer expired
    ETIME,
    /// Out of streams resources
    ENOSR,
    /// Machine is not on the network
    ENONET,
    /// Package not installed
    ENOPKG,
    /// Object is remote
    EREMOTE,
    /// Link has been severed
    ENOLINK,
    /// Advertise error
    EADV,
    /// Srmount error
    ESRMNT,
    /// Communication error on send
    ECOMM,
    /// Protocol error
    EPROTO,
    /// Multihop attempted
    EMULTIHOP,
    /// RFS specific error
    EDOTDOT,
    /// Not a data message
    EBADMSG,
    /// Value too large for defined data type
    EOVERFLOW,
    /// Name not unique on network
    ENOTUNIQ,
    /// File descriptor in bad state
    EBADFD,
    /// Remote address changed
    EREMCHG,
    /// Can not access a needed shared library
    ELIBACC,
    /// Accessing a corrupted shared library
    ELIBBAD,
    /// .lib section in a.out corrupted
    ELIBSCN,
    /// Attempting to link in too many shared libraries
    ELIBMAX,
    /// Cannot exec a shared library directly
    ELIBEXEC,
    /// Illegal byte sequence
    EILSEQ,
    /// Interrupted system call should be restarted
    ERESTART,
    /// Streams pipe error
    ESTRPIPE,
    /// Too many users
    EUSERS,
    /// Socket operation on non-socket
    ENOTSOCK,
    /// Destination address required
    EDESTADDRREQ,
    /// Message too long
    EMSGSIZE,
    /// Protocol wrong type for socket
    EPROTOTYPE,
    /// Protocol not available
    ENOPROTOOPT,
    /// Protocol not supported
    EPROTONOSUPPORT,
    /// Socket type not supported
    ESOCKTNOSUPPORT,
    /// Operation not supported on transport endpoint
    EOPNOTSUPP,
    /// Protocol family not supported
    EPFNOSUPPORT,
    /// Address family not supported by protocol
    EAFNOSUPPORT,
    /// Address already in use
    EADDRINUSE,
    /// Cannot assign requested address
    EADDRNOTAVAIL,
    /// Network is down
    ENETDOWN,
    /// Network is unreachable
    ENETUNREACH,
    /// Network dropped connection because of reset
    ENETRESET,
    /// Software caused connection abort
    ECONNABORTED,
    /// Connection reset by peer
    ECONNRESET,
    /// No buffer space available
    ENOBUFS,
    /// Transport endpoint is already connected
    EISCONN,
    /// Transport endpoint is not connected
    ENOTCONN,
    /// Cannot send after transport endpoint shutdown
    ESHUTDOWN,
    /// Too many references: cannot splice
    ETOOMANYREFS,
    /// Connection timed out
    ETIMEDOUT,
    /// Connection refused
    ECONNREFUSED,
    /// Host is down
    EHOSTDOWN,
    /// No route to host
    EHOSTUNREACH,
    /// Operation already in progress
    EALREADY,
    /// Operation now in progress
    EINPROGRESS,
    /// Stale file handle
    ESTALE,
    /// Structure needs cleaning
    EUCLEAN,
    /// Not a XENIX named type file
    ENOTNAM,
    /// No XENIX semaphores available
    ENAVAIL,
    /// Is a named type file
    EISNAM,
    /// Remote I/O error
    EREMOTEIO,
    /// Quota exceeded
    EDQUOT,
    /// No medium found
    ENOMEDIUM,
    /// Wrong medium type
    EMEDIUMTYPE,
    /// Operation Canceled
    ECANCELED,
    /// Required key not available
    ENOKEY,
    /// Key has expired
    EKEYEXPIRED,
    /// Key has been revoked
    EKEYREVOKED,
    /// Key was rejected by service
    EKEYREJECTED,
    /// Owner died
    EOWNERDEAD,
    /// State not recoverable
    ENOTRECOVERABLE,
    /// Operation not possible due to RF-kill
    ERFKILL,
    /// Memory page has hardware error
    EHWPOISON,
}

impl LinuxError {
    /// The error number of each variant.
    pub open spec fn number(self) -> int {
        match self {
            LinuxError::EPERM => 1,
            LinuxError::ENOENT => 2,
            LinuxError::ESRCH => 3,
            LinuxError::EINTR => 4,
            LinuxError::EIO => 5,
            LinuxError::ENXIO => 6,
            LinuxError::E2BIG => 7,
            LinuxError::ENOEXEC => 8,
            LinuxError::EBADF => 9,
            LinuxError::ECHILD => 10,
            LinuxError::EAGAIN => 11,
            LinuxError::ENOMEM => 12,
            LinuxError::EACCES => 13,
            LinuxError::EFAULT => 14,
            LinuxError::ENOTBLK => 15,
            LinuxError::EBUSY => 16,
            LinuxError::EEXIST => 17,
            LinuxError::EXDEV => 18,
            LinuxError::ENODEV => 19,
            LinuxError::ENOTDIR => 20,
            LinuxError::EISDIR => 21,
            LinuxError::EINVAL => 22,
            LinuxError::ENFILE => 23,
            LinuxError::EMFILE => 24,
            LinuxError::ENOTTY => 25,
            LinuxError::ETXTBSY => 26,
            LinuxError::EFBIG => 27,
            LinuxError::ENOSPC => 28,
            LinuxError::ESPIPE => 29,
            LinuxError::EROFS => 30,
            LinuxError::EMLINK => 31,
            LinuxError::EPIPE => 32,
            LinuxError::EDOM => 33,
            LinuxError::ERANGE => 34,
            LinuxError::EDEADLK => 35,
            LinuxError::ENAMETOOLONG => 36,
            LinuxError::ENOLCK => 37,
            LinuxError::ENOSYS => 38,
            LinuxError::ENOTEMPTY => 39,
            LinuxError::ELOOP => 40,
            LinuxError::ENOMSG => 42,
            LinuxError::EIDRM => 43,
            LinuxError::ECHRNG => 44,
            LinuxError::EL2NSYNC => 45,
            LinuxError::EL3HLT => 46,
            LinuxError::EL3RST => 47,
            LinuxError::ELNRNG => 48,
            LinuxError::EUNATCH => 49,
            LinuxError::ENOCSI => 50,
            LinuxError::EL2HLT => 51,
            LinuxError::EBADE => 52,
            LinuxError::EBADR => 53,
            LinuxError::EXFULL => 54,
            LinuxError::ENOANO => 55,
            LinuxError::EBADRQC => 56,
            LinuxError::EBADSLT => 57,
            LinuxError::EBFONT => 59,
            LinuxError::ENOSTR => 60,
            LinuxError::ENODATA => 61,
            LinuxError::ETIME => 62,
            LinuxError::ENOSR => 63,
            LinuxError::ENONET => 64,
            LinuxError::ENOPKG => 65,
            LinuxError::EREMOTE => 66,
            LinuxError::ENOLINK => 67,
            LinuxError::EADV => 68,
            LinuxError::ESRMNT => 69,
            LinuxError::ECOMM => 70,
            LinuxError::EPROTO => 71,
            LinuxError::EMULTIHOP => 72,
            LinuxError::EDOTDOT => 73,
            LinuxError::EBADMSG => 74,
            LinuxError::EOVERFLOW => 75,
            LinuxError::ENOTUNIQ => 76,
            LinuxError::EBADFD => 77,
            LinuxError::EREMCHG => 78,
            LinuxError::ELIBACC => 79,
            LinuxError::ELIBBAD => 80,
            LinuxError::ELIBSCN => 81,
            LinuxError::ELIBMAX => 82,
            LinuxError::ELIBEXEC => 83,
            LinuxError::EILSEQ => 84,
            LinuxError::ERESTART => 85,
            LinuxError::ESTRPIPE => 86,
            LinuxError::EUSERS => 87,
            LinuxError::ENOTSOCK => 88,
            LinuxError::EDESTADDRREQ => 89,
            LinuxError::EMSGSIZE => 90,
            LinuxError::EPROTOTYPE => 91,
            LinuxError::ENOPROTOOPT => 92,
            LinuxError::EPROTONOSUPPORT => 93,
            LinuxError::ESOCKTNOSUPPORT => 94,
            LinuxError::EOPNOTSUPP => 95,
            LinuxError::EPFNOSUPPORT => 96,
            LinuxError::EAFNOSUPPORT => 97,
            LinuxError::EADDRINUSE => 98,
            LinuxError::EADDRNOTAVAIL => 99,
            LinuxError::ENETDOWN => 100,
            LinuxError::ENETUNREACH => 101,
            LinuxError::ENETRESET => 102,
            LinuxError::ECONNABORTED => 103,
            LinuxError::ECONNRESET => 104,
            LinuxError::ENOBUFS => 105,
            LinuxError::EISCONN => 106,
            LinuxError::ENOTCONN => 107,
            LinuxError::ESHUTDOWN => 108,
            LinuxError::ETOOMANYREFS => 109,
            LinuxError::ETIMEDOUT => 110,
            LinuxError::ECONNREFUSED => 111,
            LinuxError::EHOSTDOWN => 112,
            LinuxError::EHOSTUNREACH => 113,
            LinuxError::EALREADY => 114,
            LinuxError::EINPROGRESS => 115,
            LinuxError::ESTALE => 116,
            LinuxError::EUCLEAN => 117,
            LinuxError::ENOTNAM => 118,
            LinuxError::ENAVAIL => 119,
            LinuxError::EISNAM => 120,
            LinuxError::EREMOTEIO => 121,
            LinuxError::EDQUOT => 122,
            LinuxError::ENOMEDIUM => 123,
            LinuxError::EMEDIUMTYPE => 124,
            LinuxError::ECANCELED => 125,
            LinuxError::ENOKEY => 126,
            LinuxError::EKEYEXPIRED => 127,
            LinuxError::EKEYREVOKED => 128,
            LinuxError::EKEYREJECTED => 129,
            LinuxError::EOWNERDEAD => 130,
            LinuxError::ENOTRECOVERABLE => 131,
            LinuxError::ERFKILL => 132,
            LinuxError::EHWPOISON => 133,
        }
    }

    /// The description of each variant, as a sequence of characters.
    pub open spec fn description(self) -> Seq<char> {
        match self {
            LinuxError::EPERM => "Operation not permitted"@,
            LinuxError::ENOENT => "No such file or directory"@,
            LinuxError::ESRCH => "No such process"@,
            LinuxError::EINTR => "Interrupted system call"@,
            LinuxError::EIO => "I/O error"@,
            LinuxError::ENXIO => "No such device or address"@,
            LinuxError::E2BIG => "Argument list too long"@,
            LinuxError::ENOEXEC => "Exec format error"@,
            LinuxError::EBADF => "Bad file number"@,
            LinuxError::ECHILD => "No child processes"@,
            LinuxError::EAGAIN => "Try again"@,
            LinuxError::ENOMEM => "Out of memory"@,
            LinuxError::EACCES => "Permission denied"@,
            LinuxError::EFAULT => "Bad address"@,
            LinuxError::ENOTBLK => "Block device required"@,
            LinuxError::EBUSY => "Device or resource busy"@,
            LinuxError::EEXIST => "File exists"@,
            LinuxError::EXDEV => "Cross-device link"@,
            LinuxError::ENODEV => "No such device"@,
            LinuxError::ENOTDIR => "Not a directory"@,
            LinuxError::EISDIR => "Is a directory"@,
            LinuxError::EINVAL => "Invalid argument"@,
            LinuxError::ENFILE => "File table overflow"@,
            LinuxError::EMFILE => "Too many open files"@,
            LinuxError::ENOTTY => "Not a typewriter"@,
            LinuxError::ETXTBSY => "Text file busy"@,
            LinuxError::EFBIG => "File too large"@,
            LinuxError::ENOSPC => "No space left on device"@,
            LinuxError::ESPIPE => "Illegal seek"@,
            LinuxError::EROFS => "Read-only file system"@,
            LinuxError::EMLINK => "Too many links"@,
            LinuxError::EPIPE => "Broken pipe"@,
            LinuxError::EDOM => "Math argument out of domain of func"@,
            LinuxError::ERANGE => "Math result not representable"@,
            LinuxError::EDEADLK => "Resource deadlock would occur"@,
            LinuxError::ENAMETOOLONG => "File name too long"@,
            LinuxError::ENOLCK => "No record locks available"@,
            LinuxError::ENOSYS => "Invalid system call number"@,
            LinuxError::ENOTEMPTY => "Directory not empty"@,
            LinuxError::ELOOP => "Too many symbolic links encountered"@,
            LinuxError::ENOMSG => "No message of desired type"@,
            LinuxError::EIDRM => "Identifier removed"@,
            LinuxError::ECHRNG => "Channel number out of range"@,
            LinuxError::EL2NSYNC => "Level 2 not synchronized"@,
            LinuxError::EL3HLT => "Level 3 halted"@,
            LinuxError::EL3RST => "Level 3 reset"@,
            LinuxError::ELNRNG => "Link number out of range"@,
            LinuxError::EUNATCH => "Protocol driver not attached"@,
            LinuxError::ENOCSI => "No CSI structure available"@,
            LinuxError::EL2HLT => "Level 2 halted"@,
            LinuxError::EBADE => "Invalid exchange"@,
            LinuxError::EBADR => "Invalid request descriptor"@,
            LinuxError::EXFULL => "Exchange full"@,
            LinuxError::ENOANO => "No anode"@,
            LinuxError::EBADRQC => "Invalid request code"@,
            LinuxError::EBADSLT => "Invalid slot"@,
            LinuxError::EBFONT => "Bad font file format"@,
            LinuxError::ENOSTR => "Device not a stream"@,
            LinuxError::ENODATA => "No data available"@,
            LinuxError::ETIME => "Timer expired"@,
            LinuxError::ENOSR => "Out of streams resources"@,
            LinuxError::ENONET => "Machine is not on the network"@,
            LinuxError::ENOPKG => "Package not installed"@,
            LinuxError::EREMOTE => "Object is remote"@,
            LinuxError::ENOLINK => "Link has been severed"@,
            LinuxError::EADV => "Advertise error"@,
            LinuxError::ESRMNT => "Srmount error"@,
            LinuxError::ECOMM => "Communication error on send"@,
            LinuxError::EPROTO => "Protocol error"@,
            LinuxError::EMULTIHOP => "Multihop attempted"@,
            LinuxError::EDOTDOT => "RFS specific error"@,
            LinuxError::EBADMSG => "Not a data message"@,
            LinuxError::EOVERFLOW => "Value too large for defined data type"@,
            LinuxError::ENOTUNIQ => "Name not unique on network"@,
            LinuxError::EBADFD => "File descriptor in bad state"@,
            LinuxError::EREMCHG => "Remote address changed"@,
            LinuxError::ELIBACC => "Can not access a needed shared library"@,
            LinuxError::ELIBBAD => "Accessing a corrupted shared library"@,
            LinuxError::ELIBSCN => ".lib section in a.out corrupted"@,
            LinuxError::ELIBMAX => "Attempting to link in too many shared libraries"@,
            LinuxError::ELIBEXEC => "Cannot exec a shared library directly"@,
            LinuxError::EILSEQ => "Illegal byte sequence"@,
            LinuxError::ERESTART => "Interrupted system call should be restarted"@,
            LinuxError::ESTRPIPE => "Streams pipe error"@,
            LinuxError::EUSERS => "Too many users"@,
            LinuxError::ENOTSOCK => "Socket operation on non-socket"@,
            LinuxError::EDESTADDRREQ => "Destination address required"@,
            LinuxError::EMSGSIZE => "Message too long"@,
            LinuxError::EPROTOTYPE => "Protocol wrong type for socket"@,
            LinuxError::ENOPROTOOPT => "Protocol not available"@,
            LinuxError::EPROTONOSUPPORT => "Protocol not supported"@,
            LinuxError::ESOCKTNOSUPPORT => "Socket type not supported"@,
            LinuxError::EOPNOTSUPP => "Operation not supported on transport endpoint"@,
            LinuxError::EPFNOSUPPORT => "Protocol family not supported"@,
            LinuxError::EAFNOSUPPORT => "Address family not supported by protocol"@,
            LinuxError::EADDRINUSE => "Address already in use"@,
            LinuxError::EADDRNOTAVAIL => "Cannot assign requested address"@,
            LinuxError::ENETDOWN => "Network is down"@,
            LinuxError::ENETUNREACH => "Network is unreachable"@,
            LinuxError::ENETRESET => "Network dropped connection because of reset"@,
            LinuxError::ECONNABORTED => "Software caused connection abort"@,
            LinuxError::ECONNRESET => "Connection reset by peer"@,
            LinuxError::ENOBUFS => "No buffer space available"@,
            LinuxError::EISCONN => "Transport endpoint is already connected"@,
            LinuxError::ENOTCONN => "Transport endpoint is not connected"@,
            LinuxError::ESHUTDOWN => "Cannot send after transport endpoint shutdown"@,
            LinuxError::ETOOMANYREFS => "Too many references: cannot splice"@,
            LinuxError::ETIMEDOUT => "Connection timed out"@,
            LinuxError::ECONNREFUSED => "Connection refused"@,
            LinuxError::EHOSTDOWN => "Host is down"@,
            LinuxError::EHOSTUNREACH => "No route to host"@,
            LinuxError::EALREADY => "Operation already in progress"@,
            LinuxError::EINPROGRESS => "Operation now in progress"@,
            LinuxError::ESTALE => "Stale file handle"@,
            LinuxError::EUCLEAN => "Structure needs cleaning"@,
            LinuxError::ENOTNAM => "Not a XENIX named type file"@,
            LinuxError::ENAVAIL => "No XENIX semaphores available"@,
            LinuxError::EISNAM => "Is a named type file"@,
            LinuxError::EREMOTEIO => "Remote I/O error"@,
            LinuxError::EDQUOT => "Quota exceeded"@,
            LinuxError::ENOMEDIUM => "No medium found"@,
            LinuxError::EMEDIUMTYPE => "Wrong medium type"@,
            LinuxError::ECANCELED => "Operation Canceled"@,
            LinuxError::ENOKEY => "Required key not available"@,
            LinuxError::EKEYEXPIRED => "Key has expired"@,
            LinuxError::EKEYREVOKED => "Key has been revoked"@,
            LinuxError::EKEYREJECTED => "Key was rejected by service"@,
            LinuxError::EOWNERDEAD => "Owner died"@,
            LinuxError::ENOTRECOVERABLE => "State not recoverable"@,
            LinuxError::ERFKILL => "Operation not possible due to RF-kill"@,
            LinuxError::EHWPOISON => "Memory page has hardware error"@,
        }
    }

    /// Returns the error description.
    pub fn as_str(&self) -> (s: &'static str)
        ensures
            s@ == self.description(),
    {
        match *self {
            LinuxError::EPERM => "Operation not permitted",
            LinuxError::ENOENT => "No such file or directory",
            LinuxError::ESRCH => "No such process",
            LinuxError::EINTR => "Interrupted system call",
            LinuxError::EIO => "I/O error",
            LinuxError::ENXIO => "No such device or address",
            LinuxError::E2BIG => "Argument list too long",
            LinuxError::ENOEXEC => "Exec format error",
            LinuxError::EBADF => "Bad file number",
            LinuxError::ECHILD => "No child processes",
            LinuxError::EAGAIN => "Try again",
            LinuxError::ENOMEM => "Out of memory",
            LinuxError::EACCES => "Permission denied",
            LinuxError::EFAULT => "Bad address",
            LinuxError::ENOTBLK => "Block device required",
            LinuxError::EBUSY => "Device or resource busy",
            LinuxError::EEXIST => "File exists",
            LinuxError::EXDEV => "Cross-device link",
            LinuxError::ENODEV => "No such device",
            LinuxError::ENOTDIR => "Not a directory",
            LinuxError::EISDIR => "Is a directory",
            LinuxError::EINVAL => "Invalid argument",
            LinuxError::ENFILE => "File table overflow",
            LinuxError::EMFILE => "Too many open files",
            LinuxError::ENOTTY => "Not a typewriter",
            LinuxError::ETXTBSY => "Text file busy",
            LinuxError::EFBIG => "File too large",
            LinuxError::ENOSPC => "No space left on device",
            LinuxError::ESPIPE => "Illegal seek",
            LinuxError::EROFS => "Read-only file system",
            LinuxError::EMLINK => "Too many links",
            LinuxError::EPIPE => "Broken pipe",
            LinuxError::EDOM => "Math argument out of domain of func",
            LinuxError::ERANGE => "Math result not representable",
            LinuxError::EDEADLK => "Resource deadlock would occur",
            LinuxError::ENAMETOOLONG => "File name too long",
            LinuxError::ENOLCK => "No record locks available",
            LinuxError::ENOSYS => "Invalid system call number",
            LinuxError::ENOTEMPTY => "Directory not empty",
            LinuxError::ELOOP => "Too many symbolic links encountered",
            LinuxError::ENOMSG => "No message of desired type",
            LinuxError::EIDRM => "Identifier removed",
            LinuxError::ECHRNG => "Channel number out of range",
            LinuxError::EL2NSYNC => "Level 2 not synchronized",
            LinuxError::EL3HLT => "Level 3 halted",
            LinuxError::EL3RST => "Level 3 reset",
            LinuxError::ELNRNG => "Link number out of range",
            LinuxError::EUNATCH => "Protocol driver not attached",
            LinuxError::ENOCSI => "No CSI structure available",
            LinuxError::EL2HLT => "Level 2 halted",
            LinuxError::EBADE => "Invalid exchange",
            LinuxError::EBADR => "Invalid request descriptor",
            LinuxError::EXFULL => "Exchange full",
            LinuxError::ENOANO => "No anode",
            LinuxError::EBADRQC => "Invalid request code",
            LinuxError::EBADSLT => "Invalid slot",
            LinuxError::EBFONT => "Bad font file format",
            LinuxError::ENOSTR => "Device not a stream",
            LinuxError::ENODATA => "No data available",
            LinuxError::ETIME => "Timer expired",
            LinuxError::ENOSR => "Out of streams resources",
            LinuxError::ENONET => "Machine is not on the network",
            LinuxError::ENOPKG => "Package not installed",
            LinuxError::EREMOTE => "Object is remote",
            LinuxError::ENOLINK => "Link has been severed",
            LinuxError::EADV => "Advertise error",
            LinuxError::ESRMNT => "Srmount error",
            LinuxError::ECOMM => "Communication error on send",
            LinuxError::EPROTO => "Protocol error",
            LinuxError::EMULTIHOP => "Multihop attempted",
            LinuxError::EDOTDOT => "RFS specific error",
            LinuxError::EBADMSG => "Not a data message",
            LinuxError::EOVERFLOW => "Value too large for defined data type",
            LinuxError::ENOTUNIQ => "Name not unique on network",
            LinuxError::EBADFD => "File descriptor in bad state",
            LinuxError::EREMCHG => "Remote address changed",
            LinuxError::ELIBACC => "Can not access a needed shared library",
            LinuxError::ELIBBAD => "Accessing a corrupted shared library",
            LinuxError::ELIBSCN => ".lib section in a.out corrupted",
            LinuxError::ELIBMAX => "Attempting to link in too many shared libraries",
            LinuxError::ELIBEXEC => "Cannot exec a shared library directly",
            LinuxError::EILSEQ => "Illegal byte sequence",
            LinuxError::ERESTART => "Interrupted system call should be restarted",
            LinuxError::ESTRPIPE => "Streams pipe error",
            LinuxError::EUSERS => "Too many users",
            LinuxError::ENOTSOCK => "Socket operation on non-socket",
            LinuxError::EDESTADDRREQ => "Destination address required",
            LinuxError::EMSGSIZE => "Message too long",
            LinuxError::EPROTOTYPE => "Protocol wrong type for socket",
            LinuxError::ENOPROTOOPT => "Protocol not available",
            LinuxError::EPROTONOSUPPORT => "Protocol not supported",
            LinuxError::ESOCKTNOSUPPORT => "Socket type not supported",
            LinuxError::EOPNOTSUPP => "Operation not supported on transport endpoint",
            LinuxError::EPFNOSUPPORT => "Protocol family not supported",
            LinuxError::EAFNOSUPPORT => "Address family not supported by protocol",
            LinuxError::EADDRINUSE => "Address already in use",
            LinuxError::EADDRNOTAVAIL => "Cannot assign requested address",
            LinuxError::ENETDOWN => "Network is down",
            LinuxError::ENETUNREACH => "Network is unreachable",
            LinuxError::ENETRESET => "Network dropped connection because of reset",
            LinuxError::ECONNABORTED => "Software caused connection abort",
            LinuxError::ECONNRESET => "Connection reset by peer",
            LinuxError::ENOBUFS => "No buffer space available",
            LinuxError::EISCONN => "Transport endpoint is already connected",
            LinuxError::ENOTCONN => "Transport endpoint is not connected",
            LinuxError::ESHUTDOWN => "Cannot send after transport endpoint shutdown",
            LinuxError::ETOOMANYREFS => "Too many references: cannot splice",
            LinuxError::ETIMEDOUT => "Connection timed out",
            LinuxError::ECONNREFUSED => "Connection refused",
            LinuxError::EHOSTDOWN => "Host is down",
            LinuxError::EHOSTUNREACH => "No route to host",
            LinuxError::EALREADY => "Operation already in progress",
            LinuxError::EINPROGRESS => "Operation now in progress",
            LinuxError::ESTALE => "Stale file handle",
            LinuxError::EUCLEAN => "Structure needs cleaning",
            LinuxError::ENOTNAM => "Not a XENIX named type file",
            LinuxError::ENAVAIL => "No XENIX semaphores available",
            LinuxError::EISNAM => "Is a named type file",
            LinuxError::EREMOTEIO => "Remote I/O error",
            LinuxError::EDQUOT => "Quota exceeded",
            LinuxError::ENOMEDIUM => "No medium found",
            LinuxError::EMEDIUMTYPE => "Wrong medium type",
            LinuxError::ECANCELED => "Operation Canceled",
            LinuxError::ENOKEY => "Required key not available",
            LinuxError::EKEYEXPIRED => "Key has expired",
            LinuxError::EKEYREVOKED => "Key has been revoked",
            LinuxError::EKEYREJECTED => "Key was rejected by service",
            LinuxError::EOWNERDEAD => "Owner died",
            LinuxError::ENOTRECOVERABLE => "State not recoverable",
            LinuxError::ERFKILL => "Operation not possible due to RF-kill",
            LinuxError::EHWPOISON => "Memory page has hardware error",
        }
    }

    /// Returns the error number.
    pub fn code(self) -> (c: i32)
        ensures
            c == self.number(),
    {
        match self {
            LinuxError::EPERM => 1,
            LinuxError::ENOENT => 2,
            LinuxError::ESRCH => 3,
            LinuxError::EINTR => 4,
            LinuxError::EIO => 5,
            LinuxError::ENXIO => 6,
            LinuxError::E2BIG => 7,
            LinuxError::ENOEXEC => 8,
            LinuxError::EBADF => 9,
            LinuxError::ECHILD => 10,
            LinuxError::EAGAIN => 11,
            LinuxError::ENOMEM => 12,
            LinuxError::EACCES => 13,
            LinuxError::EFAULT => 14,
            LinuxError::ENOTBLK => 15,
            LinuxError::EBUSY => 16,
            LinuxError::EEXIST => 17,
            LinuxError::EXDEV => 18,
            LinuxError::ENODEV => 19,
            LinuxError::ENOTDIR => 20,
            LinuxError::EISDIR => 21,
            LinuxError::EINVAL => 22,
            LinuxError::ENFILE => 23,
            LinuxError::EMFILE => 24,
            LinuxError::ENOTTY => 25,
            LinuxError::ETXTBSY => 26,
            LinuxError::EFBIG => 27,
            LinuxError::ENOSPC => 28,
            LinuxError::ESPIPE => 29,
            LinuxError::EROFS => 30,
            LinuxError::EMLINK => 31,
            LinuxError::EPIPE => 32,
            LinuxError::EDOM => 33,
            LinuxError::ERANGE => 34,
            LinuxError::EDEADLK => 35,
            LinuxError::ENAMETOOLONG => 36,
            LinuxError::ENOLCK => 37,
            LinuxError::ENOSYS => 38,
            LinuxError::ENOTEMPTY => 39,
            LinuxError::ELOOP => 40,
            LinuxError::ENOMSG => 42,
            LinuxError::EIDRM => 43,
            LinuxError::ECHRNG => 44,
            LinuxError::EL2NSYNC => 45,
            LinuxError::EL3HLT => 46,
            LinuxError::EL3RST => 47,
            LinuxError::ELNRNG => 48,
            LinuxError::EUNATCH => 49,
            LinuxError::ENOCSI => 50,
            LinuxError::EL2HLT => 51,
            LinuxError::EBADE => 52,
            LinuxError::EBADR => 53,
            LinuxError::EXFULL => 54,
            LinuxError::ENOANO => 55,
            LinuxError::EBADRQC => 56,
            LinuxError::EBADSLT => 57,
            LinuxError::EBFONT => 59,
            LinuxError::ENOSTR => 60,
            LinuxError::ENODATA => 61,
            LinuxError::ETIME => 62,
            LinuxError::ENOSR => 63,
            LinuxError::ENONET => 64,
            LinuxError::ENOPKG => 65,
            LinuxError::EREMOTE => 66,
            LinuxError::ENOLINK => 67,
            LinuxError::EADV => 68,
            LinuxError::ESRMNT => 69,
            LinuxError::ECOMM => 70,
            LinuxError::EPROTO => 71,
            LinuxError::EMULTIHOP => 72,
            LinuxError::EDOTDOT => 73,
            LinuxError::EBADMSG => 74,
            LinuxError::EOVERFLOW => 75,
            LinuxError::ENOTUNIQ => 76,
            LinuxError::EBADFD => 77,
            LinuxError::EREMCHG => 78,
            LinuxError::ELIBACC => 79,
            LinuxError::ELIBBAD => 80,
            LinuxError::ELIBSCN => 81,
            LinuxError::ELIBMAX => 82,
            LinuxError::ELIBEXEC => 83,
            LinuxError::EILSEQ => 84,
            LinuxError::ERESTART => 85,
            LinuxError::ESTRPIPE => 86,
            LinuxError::EUSERS => 87,
            LinuxError::ENOTSOCK => 88,
            LinuxError::EDESTADDRREQ => 89,
            LinuxError::EMSGSIZE => 90,
            LinuxError::EPROTOTYPE => 91,
            LinuxError::ENOPROTOOPT => 92,
            LinuxError::EPROTONOSUPPORT => 93,
            LinuxError::ESOCKTNOSUPPORT => 94,
            LinuxError::EOPNOTSUPP => 95,
            LinuxError::EPFNOSUPPORT => 96,
            LinuxError::EAFNOSUPPORT => 97,
            LinuxError::EADDRINUSE => 98,
            LinuxError::EADDRNOTAVAIL => 99,
            LinuxError::ENETDOWN => 100,
            LinuxError::ENETUNREACH => 101,
            LinuxError::ENETRESET => 102,
            LinuxError::ECONNABORTED => 103,
            LinuxError::ECONNRESET => 104,
            LinuxError::ENOBUFS => 105,
            LinuxError::EISCONN => 106,
            LinuxError::ENOTCONN => 107,
            LinuxError::ESHUTDOWN => 108,
            LinuxError::ETOOMANYREFS => 109,
            LinuxError::ETIMEDOUT => 110,
            LinuxError::ECONNREFUSED => 111,
            LinuxError::EHOSTDOWN => 112,
            LinuxError::EHOSTUNREACH => 113,
            LinuxError::EALREADY => 114,
            LinuxError::EINPROGRESS => 115,
            LinuxError::ESTALE => 116,
            LinuxError::EUCLEAN => 117,
            LinuxError::ENOTNAM => 118,
            LinuxError::ENAVAIL => 119,
            LinuxError::EISNAM => 120,
            LinuxError::EREMOTEIO => 121,
            LinuxError::EDQUOT => 122,
            LinuxError::ENOMEDIUM => 123,
            LinuxError::EMEDIUMTYPE => 124,
            LinuxError::ECANCELED => 125,
            LinuxError::ENOKEY => 126,
            LinuxError::EKEYEXPIRED => 127,
            LinuxError::EKEYREVOKED => 128,
            LinuxError::EKEYREJECTED => 129,
            LinuxError::EOWNERDEAD => 130,
            LinuxError::ENOTRECOVERABLE => 131,
            LinuxError::ERFKILL => 132,
            LinuxError::EHWPOISON => 133,
        }
    }
}

} // verus!
