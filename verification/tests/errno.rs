use axerrno::{AxError, LinuxError};

fn every_errno() -> Vec<(LinuxError, i32, &'static str)> {
    vec![
        (LinuxError::EPERM, 1, "Operation not permitted"),
        (LinuxError::ENOENT, 2, "No such file or directory"),
        (LinuxError::ESRCH, 3, "No such process"),
        (LinuxError::EINTR, 4, "Interrupted system call"),
        (LinuxError::EIO, 5, "I/O error"),
        (LinuxError::ENXIO, 6, "No such device or address"),
        (LinuxError::E2BIG, 7, "Argument list too long"),
        (LinuxError::ENOEXEC, 8, "Exec format error"),
        (LinuxError::EBADF, 9, "Bad file number"),
        (LinuxError::ECHILD, 10, "No child processes"),
        (LinuxError::EAGAIN, 11, "Try again"),
        (LinuxError::ENOMEM, 12, "Out of memory"),
        (LinuxError::EACCES, 13, "Permission denied"),
        (LinuxError::EFAULT, 14, "Bad address"),
        (LinuxError::ENOTBLK, 15, "Block device required"),
        (LinuxError::EBUSY, 16, "Device or resource busy"),
        (LinuxError::EEXIST, 17, "File exists"),
        (LinuxError::EXDEV, 18, "Cross-device link"),
        (LinuxError::ENODEV, 19, "No such device"),
        (LinuxError::ENOTDIR, 20, "Not a directory"),
        (LinuxError::EISDIR, 21, "Is a directory"),
        (LinuxError::EINVAL, 22, "Invalid argument"),
        (LinuxError::ENFILE, 23, "File table overflow"),
        (LinuxError::EMFILE, 24, "Too many open files"),
        (LinuxError::ENOTTY, 25, "Not a typewriter"),
        (LinuxError::ETXTBSY, 26, "Text file busy"),
        (LinuxError::EFBIG, 27, "File too large"),
        (LinuxError::ENOSPC, 28, "No space left on device"),
        (LinuxError::ESPIPE, 29, "Illegal seek"),
        (LinuxError::EROFS, 30, "Read-only file system"),
        (LinuxError::EMLINK, 31, "Too many links"),
        (LinuxError::EPIPE, 32, "Broken pipe"),
        (LinuxError::EDOM, 33, "Math argument out of domain of func"),
        (LinuxError::ERANGE, 34, "Math result not representable"),
        (LinuxError::EDEADLK, 35, "Resource deadlock would occur"),
        (LinuxError::ENAMETOOLONG, 36, "File name too long"),
        (LinuxError::ENOLCK, 37, "No record locks available"),
        (LinuxError::ENOSYS, 38, "Invalid system call number"),
        (LinuxError::ENOTEMPTY, 39, "Directory not empty"),
        (LinuxError::ELOOP, 40, "Too many symbolic links encountered"),
        (LinuxError::ENOMSG, 42, "No message of desired type"),
        (LinuxError::EIDRM, 43, "Identifier removed"),
        (LinuxError::ECHRNG, 44, "Channel number out of range"),
        (LinuxError::EL2NSYNC, 45, "Level 2 not synchronized"),
        (LinuxError::EL3HLT, 46, "Level 3 halted"),
        (LinuxError::EL3RST, 47, "Level 3 reset"),
        (LinuxError::ELNRNG, 48, "Link number out of range"),
        (LinuxError::EUNATCH, 49, "Protocol driver not attached"),
        (LinuxError::ENOCSI, 50, "No CSI structure available"),
        (LinuxError::EL2HLT, 51, "Level 2 halted"),
        (LinuxError::EBADE, 52, "Invalid exchange"),
        (LinuxError::EBADR, 53, "Invalid request descriptor"),
        (LinuxError::EXFULL, 54, "Exchange full"),
        (LinuxError::ENOANO, 55, "No anode"),
        (LinuxError::EBADRQC, 56, "Invalid request code"),
        (LinuxError::EBADSLT, 57, "Invalid slot"),
        (LinuxError::EBFONT, 59, "Bad font file format"),
        (LinuxError::ENOSTR, 60, "Device not a stream"),
        (LinuxError::ENODATA, 61, "No data available"),
        (LinuxError::ETIME, 62, "Timer expired"),
        (LinuxError::ENOSR, 63, "Out of streams resources"),
        (LinuxError::ENONET, 64, "Machine is not on the network"),
        (LinuxError::ENOPKG, 65, "Package not installed"),
        (LinuxError::EREMOTE, 66, "Object is remote"),
        (LinuxError::ENOLINK, 67, "Link has been severed"),
        (LinuxError::EADV, 68, "Advertise error"),
        (LinuxError::ESRMNT, 69, "Srmount error"),
        (LinuxError::ECOMM, 70, "Communication error on send"),
        (LinuxError::EPROTO, 71, "Protocol error"),
        (LinuxError::EMULTIHOP, 72, "Multihop attempted"),
        (LinuxError::EDOTDOT, 73, "RFS specific error"),
        (LinuxError::EBADMSG, 74, "Not a data message"),
        (LinuxError::EOVERFLOW, 75, "Value too large for defined data type"),
        (LinuxError::ENOTUNIQ, 76, "Name not unique on network"),
        (LinuxError::EBADFD, 77, "File descriptor in bad state"),
        (LinuxError::EREMCHG, 78, "Remote address changed"),
        (LinuxError::ELIBACC, 79, "Can not access a needed shared library"),
        (LinuxError::ELIBBAD, 80, "Accessing a corrupted shared library"),
        (LinuxError::ELIBSCN, 81, ".lib section in a.out corrupted"),
        (LinuxError::ELIBMAX, 82, "Attempting to link in too many shared libraries"),
        (LinuxError::ELIBEXEC, 83, "Cannot exec a shared library directly"),
        (LinuxError::EILSEQ, 84, "Illegal byte sequence"),
        (LinuxError::ERESTART, 85, "Interrupted system call should be restarted"),
        (LinuxError::ESTRPIPE, 86, "Streams pipe error"),
        (LinuxError::EUSERS, 87, "Too many users"),
        (LinuxError::ENOTSOCK, 88, "Socket operation on non-socket"),
        (LinuxError::EDESTADDRREQ, 89, "Destination address required"),
        (LinuxError::EMSGSIZE, 90, "Message too long"),
        (LinuxError::EPROTOTYPE, 91, "Protocol wrong type for socket"),
        (LinuxError::ENOPROTOOPT, 92, "Protocol not available"),
        (LinuxError::EPROTONOSUPPORT, 93, "Protocol not supported"),
        (LinuxError::ESOCKTNOSUPPORT, 94, "Socket type not supported"),
        (LinuxError::EOPNOTSUPP, 95, "Operation not supported on transport endpoint"),
        (LinuxError::EPFNOSUPPORT, 96, "Protocol family not supported"),
        (LinuxError::EAFNOSUPPORT, 97, "Address family not supported by protocol"),
        (LinuxError::EADDRINUSE, 98, "Address already in use"),
        (LinuxError::EADDRNOTAVAIL, 99, "Cannot assign requested address"),
        (LinuxError::ENETDOWN, 100, "Network is down"),
        (LinuxError::ENETUNREACH, 101, "Network is unreachable"),
        (LinuxError::ENETRESET, 102, "Network dropped connection because of reset"),
        (LinuxError::ECONNABORTED, 103, "Software caused connection abort"),
        (LinuxError::ECONNRESET, 104, "Connection reset by peer"),
        (LinuxError::ENOBUFS, 105, "No buffer space available"),
        (LinuxError::EISCONN, 106, "Transport endpoint is already connected"),
        (LinuxError::ENOTCONN, 107, "Transport endpoint is not connected"),
        (LinuxError::ESHUTDOWN, 108, "Cannot send after transport endpoint shutdown"),
        (LinuxError::ETOOMANYREFS, 109, "Too many references: cannot splice"),
        (LinuxError::ETIMEDOUT, 110, "Connection timed out"),
        (LinuxError::ECONNREFUSED, 111, "Connection refused"),
        (LinuxError::EHOSTDOWN, 112, "Host is down"),
        (LinuxError::EHOSTUNREACH, 113, "No route to host"),
        (LinuxError::EALREADY, 114, "Operation already in progress"),
        (LinuxError::EINPROGRESS, 115, "Operation now in progress"),
        (LinuxError::ESTALE, 116, "Stale file handle"),
        (LinuxError::EUCLEAN, 117, "Structure needs cleaning"),
        (LinuxError::ENOTNAM, 118, "Not a XENIX named type file"),
        (LinuxError::ENAVAIL, 119, "No XENIX semaphores available"),
        (LinuxError::EISNAM, 120, "Is a named type file"),
        (LinuxError::EREMOTEIO, 121, "Remote I/O error"),
        (LinuxError::EDQUOT, 122, "Quota exceeded"),
        (LinuxError::ENOMEDIUM, 123, "No medium found"),
        (LinuxError::EMEDIUMTYPE, 124, "Wrong medium type"),
        (LinuxError::ECANCELED, 125, "Operation Canceled"),
        (LinuxError::ENOKEY, 126, "Required key not available"),
        (LinuxError::EKEYEXPIRED, 127, "Key has expired"),
        (LinuxError::EKEYREVOKED, 128, "Key has been revoked"),
        (LinuxError::EKEYREJECTED, 129, "Key was rejected by service"),
        (LinuxError::EOWNERDEAD, 130, "Owner died"),
        (LinuxError::ENOTRECOVERABLE, 131, "State not recoverable"),
        (LinuxError::ERFKILL, 132, "Operation not possible due to RF-kill"),
        (LinuxError::EHWPOISON, 133, "Memory page has hardware error"),
    ]
}

fn every_plain_kind() -> Vec<AxError> {
    vec![
        AxError::AddressInUse,
        AxError::AlreadyExists,
        AxError::BadAddress,
        AxError::BadState,
        AxError::ConnectionRefused,
        AxError::ConnectionReset,
        AxError::DirectoryNotEmpty,
        AxError::InvalidData,
        AxError::InvalidInput,
        AxError::Io,
        AxError::IsADirectory,
        AxError::NoMemory,
        AxError::NotADirectory,
        AxError::NotConnected,
        AxError::NotFound,
        AxError::PermissionDenied,
        AxError::ResourceBusy,
        AxError::StorageFull,
        AxError::UnexpectedEof,
        AxError::Unsupported,
        AxError::WouldBlock,
        AxError::WriteZero,
        AxError::TooBig,
        AxError::CrossesDevices,
        AxError::BadIoctl,
        AxError::NameTooLong,
        AxError::BadFileDescriptor,
        AxError::FilesystemLoop,
        AxError::OperationNotSupported,
        AxError::InProgress,
        AxError::AlreadyConnected,
        AxError::Interrupted,
        AxError::TimedOut,
        AxError::NotASocket,
        AxError::BrokenPipe,
        AxError::TooManyOpenFiles,
        AxError::NoSuchProcess,
        AxError::IllegalBytes,
        AxError::OperationNotPermitted,
        AxError::OutOfRange,
        AxError::InvalidExecutable,
        AxError::NoSuchDevice,
        AxError::ReadOnlyFilesystem,
    ]
}

#[test]
fn not_found_is_enoent_both_ways() {
    assert_eq!(LinuxError::from(AxError::NotFound), LinuxError::ENOENT);
    assert_eq!(AxError::try_from(LinuxError::ENOENT), Ok(AxError::NotFound));
}

#[test]
fn bad_address_and_bad_state_share_efault() {
    assert_eq!(LinuxError::from(AxError::BadAddress), LinuxError::EFAULT);
    assert_eq!(LinuxError::from(AxError::BadState), LinuxError::EFAULT);
    assert_eq!(AxError::try_from(LinuxError::EFAULT), Ok(AxError::BadAddress));
}

#[test]
fn shared_errnos_pick_the_first_declared_kind() {
    assert_eq!(LinuxError::from(AxError::InvalidInput), LinuxError::EINVAL);
    assert_eq!(LinuxError::from(AxError::InvalidData), LinuxError::EINVAL);
    assert_eq!(AxError::try_from(LinuxError::EINVAL), Ok(AxError::InvalidInput));
    assert_eq!(LinuxError::from(AxError::Io), LinuxError::EIO);
    assert_eq!(LinuxError::from(AxError::UnexpectedEof), LinuxError::EIO);
    assert_eq!(LinuxError::from(AxError::WriteZero), LinuxError::EIO);
    assert_eq!(AxError::try_from(LinuxError::EIO), Ok(AxError::Io));
}

#[test]
fn errno_without_kind_comes_back_unchanged() {
    assert_eq!(AxError::try_from(LinuxError::EDEADLK), Err(LinuxError::EDEADLK));
    assert_eq!(AxError::try_from(LinuxError::ECHILD), Err(LinuxError::ECHILD));
    assert_eq!(AxError::try_from(LinuxError::EHWPOISON), Err(LinuxError::EHWPOISON));
}

#[test]
fn kind_survives_the_diagnostic_line() {
    let kind = AxError::NoMemory;
    assert_eq!(format!("[{:?}]", kind), "[NoMemory]");
    assert_eq!(format!("[{:?}] {}", kind, "the pool is empty"), "[NoMemory] the pool is empty");
    assert_eq!(kind, AxError::NoMemory);
    assert_eq!(format!("[{:?}]", LinuxError::ENOMEM), "[ENOMEM]");
}

#[test]
fn forward_mapping_table() {
    let expected = vec![
        (AxError::AddressInUse, LinuxError::EADDRINUSE),
        (AxError::AlreadyExists, LinuxError::EEXIST),
        (AxError::BadAddress, LinuxError::EFAULT),
        (AxError::BadState, LinuxError::EFAULT),
        (AxError::ConnectionRefused, LinuxError::ECONNREFUSED),
        (AxError::ConnectionReset, LinuxError::ECONNRESET),
        (AxError::DirectoryNotEmpty, LinuxError::ENOTEMPTY),
        (AxError::InvalidData, LinuxError::EINVAL),
        (AxError::InvalidInput, LinuxError::EINVAL),
        (AxError::Io, LinuxError::EIO),
        (AxError::IsADirectory, LinuxError::EISDIR),
        (AxError::NoMemory, LinuxError::ENOMEM),
        (AxError::NotADirectory, LinuxError::ENOTDIR),
        (AxError::NotConnected, LinuxError::ENOTCONN),
        (AxError::NotFound, LinuxError::ENOENT),
        (AxError::PermissionDenied, LinuxError::EACCES),
        (AxError::ResourceBusy, LinuxError::EBUSY),
        (AxError::StorageFull, LinuxError::ENOSPC),
        (AxError::UnexpectedEof, LinuxError::EIO),
        (AxError::Unsupported, LinuxError::ENOSYS),
        (AxError::WouldBlock, LinuxError::EAGAIN),
        (AxError::WriteZero, LinuxError::EIO),
        (AxError::TooBig, LinuxError::E2BIG),
        (AxError::CrossesDevices, LinuxError::EXDEV),
        (AxError::BadIoctl, LinuxError::ENOTTY),
        (AxError::NameTooLong, LinuxError::ENAMETOOLONG),
        (AxError::BadFileDescriptor, LinuxError::EBADF),
        (AxError::FilesystemLoop, LinuxError::ELOOP),
        (AxError::OperationNotSupported, LinuxError::EOPNOTSUPP),
        (AxError::InProgress, LinuxError::EINPROGRESS),
        (AxError::AlreadyConnected, LinuxError::EISCONN),
        (AxError::Interrupted, LinuxError::EINTR),
        (AxError::TimedOut, LinuxError::ETIMEDOUT),
        (AxError::NotASocket, LinuxError::ENOTSOCK),
        (AxError::BrokenPipe, LinuxError::EPIPE),
        (AxError::TooManyOpenFiles, LinuxError::EMFILE),
        (AxError::NoSuchProcess, LinuxError::ESRCH),
        (AxError::IllegalBytes, LinuxError::EILSEQ),
        (AxError::OperationNotPermitted, LinuxError::EPERM),
        (AxError::OutOfRange, LinuxError::ERANGE),
        (AxError::InvalidExecutable, LinuxError::ENOEXEC),
        (AxError::NoSuchDevice, LinuxError::ENODEV),
        (AxError::ReadOnlyFilesystem, LinuxError::EROFS),
    ];
    assert_eq!(expected.len(), every_plain_kind().len());
    for (i, (kind, errno)) in expected.into_iter().enumerate() {
        assert_eq!(every_plain_kind()[i], kind);
        assert_eq!(LinuxError::from(kind), errno);
    }
}

#[test]
fn forward_mapping_is_repeatable() {
    for kind in every_plain_kind() {
        assert_eq!(LinuxError::from(kind), LinuxError::from(kind));
    }
    for (errno, _, _) in every_errno() {
        assert_eq!(LinuxError::from(AxError::Other(errno)), LinuxError::from(AxError::Other(errno)));
    }
}

#[test]
fn other_maps_to_the_errno_it_carries() {
    for (errno, _, _) in every_errno() {
        assert_eq!(LinuxError::from(AxError::Other(errno)), errno);
    }
}

#[test]
fn errno_of_every_plain_kind_has_a_kind() {
    for kind in every_plain_kind() {
        assert!(AxError::try_from(LinuxError::from(kind)).is_ok());
    }
}

#[test]
fn kind_of_an_errno_maps_back_to_it() {
    let mut with_kind = 0;
    for (errno, _, _) in every_errno() {
        if let Ok(kind) = AxError::try_from(errno) {
            with_kind += 1;
            assert!(!matches!(kind, AxError::Other(_)));
            assert_eq!(LinuxError::from(kind), errno);
        }
    }
    assert_eq!(with_kind, 39);
}

#[test]
fn failed_conversion_keeps_the_errno() {
    let mut without_kind = 0;
    for (errno, _, _) in every_errno() {
        if let Err(given) = AxError::try_from(errno) {
            without_kind += 1;
            assert_eq!(given, errno);
        }
    }
    assert_eq!(without_kind, 92);
}

#[test]
fn errno_has_a_kind_exactly_when_some_plain_kind_has_it() {
    for (errno, _, _) in every_errno() {
        let in_image = every_plain_kind().into_iter().any(|kind| LinuxError::from(kind) == errno);
        assert_eq!(AxError::try_from(errno).is_ok(), in_image);
    }
}

#[test]
fn round_trip_keeps_the_errno() {
    for kind in every_plain_kind() {
        let errno = LinuxError::from(kind);
        let back = AxError::try_from(errno).unwrap();
        assert_eq!(LinuxError::from(back), errno);
    }
    let back = AxError::try_from(LinuxError::from(AxError::WriteZero)).unwrap();
    assert_eq!(back, AxError::Io);
}

#[test]
fn other_is_described_as_its_errno() {
    for (errno, _, text) in every_errno() {
        assert_eq!(AxError::Other(errno).as_str(), errno.as_str());
        assert_eq!(AxError::Other(errno).as_str(), text);
    }
}

#[test]
fn errno_codes_and_descriptions() {
    let all = every_errno();
    assert_eq!(all.len(), 131);
    for (errno, code, text) in all {
        assert_eq!(errno.code(), code);
        assert_eq!(errno.as_str(), text);
    }
    assert_eq!(LinuxError::EPERM.code(), 1);
    assert_eq!(LinuxError::EAGAIN.code(), 11);
    assert_eq!(LinuxError::ELOOP.code(), 40);
    assert_eq!(LinuxError::ENOMSG.code(), 42);
    assert_eq!(LinuxError::EBADSLT.code(), 57);
    assert_eq!(LinuxError::EBFONT.code(), 59);
    assert_eq!(LinuxError::EHWPOISON.code(), 133);
    assert_eq!(LinuxError::ENOENT.as_str(), "No such file or directory");
}

#[test]
fn errno_codes_are_distinct_and_ascending() {
    let all = every_errno();
    for pair in all.windows(2) {
        assert!(pair[0].1 < pair[1].1);
        assert!(pair[0].0 < pair[1].0);
        assert_ne!(pair[0].0, pair[1].0);
    }
    assert!(all.iter().all(|(_, code, _)| 1 <= *code && *code <= 133));
}

#[test]
fn kind_descriptions() {
    assert_eq!(AxError::AddressInUse.as_str(), "Address in use");
    assert_eq!(AxError::AlreadyExists.as_str(), "Entity already exists");
    assert_eq!(AxError::BadAddress.as_str(), "Bad address");
    assert_eq!(AxError::BadState.as_str(), "Bad internal state");
    assert_eq!(AxError::ConnectionRefused.as_str(), "Connection refused");
    assert_eq!(AxError::ConnectionReset.as_str(), "Connection reset");
    assert_eq!(AxError::DirectoryNotEmpty.as_str(), "Directory not empty");
    assert_eq!(AxError::InvalidData.as_str(), "Invalid data");
    assert_eq!(AxError::InvalidInput.as_str(), "Invalid input parameter");
    assert_eq!(AxError::Io.as_str(), "I/O error");
    assert_eq!(AxError::IsADirectory.as_str(), "Is a directory");
    assert_eq!(AxError::NoMemory.as_str(), "Out of memory");
    assert_eq!(AxError::NotADirectory.as_str(), "Not a directory");
    assert_eq!(AxError::NotConnected.as_str(), "Not connected");
    assert_eq!(AxError::NotFound.as_str(), "Entity not found");
    assert_eq!(AxError::PermissionDenied.as_str(), "Permission denied");
    assert_eq!(AxError::ResourceBusy.as_str(), "Resource busy");
    assert_eq!(AxError::StorageFull.as_str(), "No storage space");
    assert_eq!(AxError::UnexpectedEof.as_str(), "Unexpected end of file");
    assert_eq!(AxError::Unsupported.as_str(), "Operation not supported");
    assert_eq!(AxError::WouldBlock.as_str(), "Operation would block");
    assert_eq!(AxError::WriteZero.as_str(), "Write zero");
    assert_eq!(AxError::TooBig.as_str(), "Argument list too long");
    assert_eq!(AxError::CrossesDevices.as_str(), "Cross-device link or rename");
    assert_eq!(AxError::BadIoctl.as_str(), "Inappropriate ioctl for device");
    assert_eq!(AxError::NameTooLong.as_str(), "Filename too long");
    assert_eq!(AxError::BadFileDescriptor.as_str(), "Bad file descriptor");
    assert_eq!(AxError::FilesystemLoop.as_str(), "Filesystem loop or indirection limit");
    assert_eq!(AxError::OperationNotSupported.as_str(), "Operation not supported");
    assert_eq!(AxError::InProgress.as_str(), "Operation in progress");
    assert_eq!(AxError::AlreadyConnected.as_str(), "Already connected");
    assert_eq!(AxError::Interrupted.as_str(), "Operation interrupted");
    assert_eq!(AxError::TimedOut.as_str(), "Timed out");
    assert_eq!(AxError::NotASocket.as_str(), "Not a socket");
    assert_eq!(AxError::BrokenPipe.as_str(), "Broken pipe");
    assert_eq!(AxError::TooManyOpenFiles.as_str(), "Too many open files");
    assert_eq!(AxError::NoSuchProcess.as_str(), "No such process");
    assert_eq!(AxError::IllegalBytes.as_str(), "Illegal byte sequence");
    assert_eq!(AxError::OperationNotPermitted.as_str(), "Operation not permitted");
    assert_eq!(AxError::OutOfRange.as_str(), "Result out of range");
    assert_eq!(AxError::InvalidExecutable.as_str(), "Invalid executable format");
    assert_eq!(AxError::NoSuchDevice.as_str(), "No such device");
    assert_eq!(AxError::ReadOnlyFilesystem.as_str(), "Read-only filesystem");
    assert_eq!(AxError::Other(LinuxError::EDEADLK).as_str(), "Resource deadlock would occur");
}

#[test]
fn kinds_are_ordered_as_declared() {
    let kinds = every_plain_kind();
    for pair in kinds.windows(2) {
        assert!(pair[0] < pair[1]);
    }
    assert!(AxError::ReadOnlyFilesystem < AxError::Other(LinuxError::EPERM));
    assert!(AxError::Other(LinuxError::EPERM) < AxError::Other(LinuxError::ENOENT));
    assert_eq!(AxError::Other(LinuxError::EIO), AxError::Other(LinuxError::EIO));
    assert_ne!(AxError::Other(LinuxError::EIO), AxError::Io);
}

#[test]
fn result_aliases_default_to_unit() {
    let done: axerrno::AxResult = Ok(());
    let failed: axerrno::AxResult<u32> = Err(AxError::WouldBlock);
    let low: axerrno::LinuxResult = Err(LinuxError::EAGAIN);
    assert_eq!(done, Ok(()));
    assert_eq!(failed.map_err(LinuxError::from), Err(LinuxError::EAGAIN));
    assert_eq!(low, Err(LinuxError::EAGAIN));
}
