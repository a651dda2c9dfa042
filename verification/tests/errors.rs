use gpio_cdev_errors::errors::{bail, check_offset, Error, ErrorKind, IoCause, NixCause};
use gpio_cdev_errors::lift::{
    from_io_error, from_nix_error, io_cause, nix_cause, nix_cause_from_code,
};

#[test]
fn io_lift_round_trips_message() {
    let e = std::io::Error::new(std::io::ErrorKind::Other, "boom");
    let expected = e.to_string();
    let err = from_io_error(&e);
    assert_eq!(err.kind(), ErrorKind::Io);
    assert_eq!(err.message(), expected);
    assert_eq!(err.cause_message(), Some(expected));
}

#[test]
fn io_conversion_yields_io_variant() {
    let c = IoCause {
        message: "boom".to_string(),
    };
    let err = Error::from(c.clone());
    assert_eq!(err, Error::Io { source: c });
    assert_eq!(err.message(), "boom");
}

#[test]
fn nix_lift_round_trips_message() {
    let e = nix::errno::Errno::EACCES;
    let expected = e.to_string();
    let err = from_nix_error(e);
    assert_eq!(err.kind(), ErrorKind::Nix);
    assert_eq!(err.message(), expected);
    assert_eq!(err.cause_message(), Some(expected));
}

#[test]
fn nix_conversion_yields_nix_variant() {
    let c = nix_cause(nix::errno::Errno::EIO);
    let err = Error::from(c.clone());
    assert_eq!(err, Error::Nix { source: c });
    assert_eq!(err.message(), nix::errno::Errno::EIO.to_string());
}

#[test]
fn nix_cause_records_errno_and_message() {
    let c = nix_cause_from_code(13);
    assert_eq!(c.errno, 13);
    assert_eq!(c.message, "EACCES: Permission denied");
    assert_eq!(
        c.message,
        nix::errno::Errno::from_raw(13).to_string()
    );
}

#[test]
fn offset_out_of_range_fixed_message_and_no_cause() {
    let a = Error::OffsetOutOfRange;
    let b = Error::OffsetOutOfRange;
    assert_eq!(a.message(), "Offset out of range");
    assert_eq!(a.message(), b.message());
    assert_eq!(a.cause_message(), None);
}

#[test]
fn read_dev_directory_fixed_message_keeps_cause() {
    let e = std::io::Error::new(std::io::ErrorKind::PermissionDenied, "denied");
    let err = Error::ReadDevDirectory {
        source: io_cause(&e),
    };
    assert_eq!(err.message(), "unable to read /dev directory");
    assert_eq!(err.cause_message(), Some("denied".to_string()));
}

#[test]
fn open_chip_message_contains_path() {
    let e = std::io::Error::new(std::io::ErrorKind::NotFound, "missing");
    let err = Error::OpenChip {
        source: io_cause(&e),
        path: "/dev/gpiochip0".to_string(),
    };
    assert_eq!(err.message(), "unable to open chip at path /dev/gpiochip0");
    assert!(err.message().contains("/dev/gpiochip0"));
    assert_eq!(err.cause_message(), Some("missing".to_string()));
}

#[test]
fn get_chip_info_message_contains_path() {
    let err = Error::GetChipInfo {
        source: nix_cause(nix::errno::Errno::EINVAL),
        path: "/dev/gpiochip3".to_string(),
    };
    assert_eq!(err.message(), "unable to get chip info for /dev/gpiochip3");
    assert!(err.message().contains("/dev/gpiochip3"));
}

#[test]
fn ioctl_and_value_variants_render_name_and_cause() {
    let eio = nix::errno::Errno::EIO;
    let cause = || nix_cause(eio);
    let cases = [
        (
            Error::LineeventIoctl { source: cause() },
            "LineeventIoctl: EIO: I/O error",
        ),
        (
            Error::LineinfoIoctl { source: cause() },
            "LineinfoIoctl: EIO: I/O error",
        ),
        (
            Error::LinehandleRequestIoctl { source: cause() },
            "LinehandleRequestIoctl: EIO: I/O error",
        ),
        (
            Error::GetLineValue { source: cause() },
            "GetLineValue: EIO: I/O error",
        ),
        (
            Error::SetLineValue { source: cause() },
            "SetLineValue: EIO: I/O error",
        ),
    ];
    for (err, expected) in cases.iter() {
        assert_eq!(err.message(), *expected);
    }
}

#[test]
fn bail_preserves_the_exact_error() {
    let c = NixCause {
        errno: 5,
        message: "EIO: Input/output error".to_string(),
    };
    let r: gpio_cdev_errors::errors::Result<u8> = bail(c.clone());
    assert_eq!(r, Err(Error::Nix { source: c }));

    let ic = IoCause {
        message: "boom".to_string(),
    };
    let r: gpio_cdev_errors::errors::Result<()> = bail(ic.clone());
    assert_eq!(r, Err(Error::Io { source: ic }));
}

#[test]
fn all_eleven_variants_are_distinguishable() {
    let io = || IoCause {
        message: "same text".to_string(),
    };
    let nx = || NixCause {
        errno: 5,
        message: "same text".to_string(),
    };
    let all = [
        Error::Io { source: io() },
        Error::Nix { source: nx() },
        Error::OffsetOutOfRange,
        Error::ReadDevDirectory { source: io() },
        Error::OpenChip {
            source: io(),
            path: "p".to_string(),
        },
        Error::GetChipInfo {
            source: nx(),
            path: "p".to_string(),
        },
        Error::LineeventIoctl { source: nx() },
        Error::LineinfoIoctl { source: nx() },
        Error::LinehandleRequestIoctl { source: nx() },
        Error::GetLineValue { source: nx() },
        Error::SetLineValue { source: nx() },
    ];
    for i in 0..all.len() {
        for j in 0..all.len() {
            if i != j {
                assert_ne!(all[i].kind(), all[j].kind());
                assert_ne!(all[i], all[j]);
                // Every variant but the two catch-alls is also told apart by
                // its rendered message alone.
                if i >= 2 && j >= 2 {
                    assert_ne!(all[i].message(), all[j].message());
                }
            }
        }
    }
}

#[test]
fn open_nonexistent_chip_reports_open_chip_with_path() {
    let path = "/dev/does-not-exist";
    let res = nix::fcntl::open(
        path,
        nix::fcntl::OFlag::O_RDONLY,
        nix::sys::stat::Mode::empty(),
    );
    let errno = match res {
        Ok(_) => panic!("opening {} unexpectedly succeeded", path),
        Err(errno) => errno,
    };
    assert_eq!(errno, nix::errno::Errno::ENOENT);
    let underlying = std::io::Error::from_raw_os_error(errno as i32);
    let err = Error::OpenChip {
        source: io_cause(&underlying),
        path: path.to_string(),
    };
    assert_eq!(err.kind(), ErrorKind::OpenChip);
    match &err {
        Error::OpenChip { path: p, .. } => assert_eq!(p, path),
        other => panic!("expected OpenChip, got {:?}", other),
    }
    assert!(err.message().contains(path));
}

#[test]
fn offset_beyond_line_count_fails_locally() {
    let num_lines: u32 = 8;
    let r = check_offset(64, num_lines);
    assert_eq!(r, Err(Error::OffsetOutOfRange));
    match r {
        Err(e) => assert_eq!(e.cause_message(), None),
        Ok(()) => panic!("offset 64 on 8 lines must fail"),
    }
    assert_eq!(check_offset(7, num_lines), Ok(()));
    assert_eq!(check_offset(8, num_lines), Err(Error::OffsetOutOfRange));
}

#[test]
fn failed_value_write_is_set_line_value_not_nix() {
    let denied = nix::errno::Errno::EACCES;
    let err = Error::SetLineValue {
        source: nix_cause(denied),
    };
    assert_eq!(err.kind(), ErrorKind::SetLineValue);
    assert_ne!(err.kind(), ErrorKind::Nix);
    assert!(!matches!(err, Error::Nix { .. }));
    assert_eq!(err.cause_message(), Some(denied.to_string()));
    assert_eq!(err.message(), format!("SetLineValue: {}", denied));
}
