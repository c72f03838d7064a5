use sdbus::error::{Errno, Error, RawError, EPERM};

#[test]
fn t_raw_error() {
    let name = b"name\0";
    let message = b"error\0";
    let _raw = RawError::new().set(name, Some(message));
}

#[test]
fn raw_error_starts_unset() {
    let raw = RawError::new();
    assert!(!raw.is_set());
    assert!(raw.name().is_none());
    assert!(raw.message().is_none());
    assert!(raw.into_result().is_ok());
}

#[test]
fn raw_error_set_populates_once() {
    let mut raw = RawError::new();
    raw.set(b"org.freedesktop.DBus.Error.Failed\0", Some(b"it failed\0"));
    assert!(raw.is_set());
    assert_eq!(raw.name().unwrap().as_slice(), b"org.freedesktop.DBus.Error.Failed\0");
    assert_eq!(raw.message().unwrap().as_slice(), b"it failed\0");

    // A second set leaves an already-set slot unchanged.
    raw.set(b"other\0", None);
    assert_eq!(raw.name().unwrap().as_slice(), b"org.freedesktop.DBus.Error.Failed\0");
    assert_eq!(raw.message().unwrap().as_slice(), b"it failed\0");
}

#[test]
fn raw_error_into_result_carries_strings() {
    let raw = RawError::with(b"a.b\0", Some(b"oops\0"));
    let e = raw.into_result().err().unwrap();
    assert_eq!(e.name().as_slice(), b"a.b\0");
    assert_eq!(e.message().unwrap().as_slice(), b"oops\0");
}

#[test]
fn raw_error_clone_copies() {
    let raw = RawError::with(b"a.b\0", None);
    let copy = raw.clone();
    assert!(copy.is_set());
    assert_eq!(copy.name().unwrap().as_slice(), b"a.b\0");
    assert!(copy.message().is_none());
}

#[test]
fn error_without_message_displays_name_only() {
    let e = Error::new(b"org.x.Err\0", None);
    assert!(e.message().is_none());
    assert_eq!(e.display_bytes(), b"Dbus Error: org.x.Err".to_vec());
}

#[test]
fn error_with_message_displays_both() {
    let e = Error::new(b"org.x.Err\0", Some(b"a thing broke\0"));
    assert_eq!(e.message().unwrap().as_slice(), b"a thing broke\0");
    assert_eq!(e.display_bytes(), b"Dbus Error: org.x.Err: a thing broke".to_vec());
}

#[test]
fn errno_compares_by_code() {
    assert_eq!(Errno { code: EPERM }, Errno { code: 1 });
    assert_ne!(Errno { code: EPERM }, Errno { code: 2 });
}
