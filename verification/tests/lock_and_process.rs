use bitswap_net::lock::{parse_pid, read_lock, read_lock_pid, LockError};
use bitswap_net::process::{stop, ProcessError};

#[test]
fn test_corrupt_lock() {
    let path = "lock.lock".to_string();
    let contents = b"oh noes, not a lock file".to_vec();
    let e = read_lock(path, Some(&contents)).err().unwrap();
    match e {
        LockError::NoLock(_) => panic!("expected CorruptLock"),
        LockError::CorruptLock(_) => (),
        LockError::Uncategorized(_) => panic!("expected CorruptLock"),
    }
}

#[test]
fn read_lock_reports_stored_pid() {
    let contents = b"12345".to_vec();
    assert_eq!(read_lock("a.lock".to_string(), Some(&contents)), Ok(12345));
}

#[test]
fn read_lock_missing_file_is_no_lock() {
    match read_lock("gone.lock".to_string(), None) {
        Err(LockError::NoLock(path)) => assert_eq!(path, "gone.lock"),
        _ => panic!("an absent file must report NoLock"),
    }
}

#[test]
fn read_lock_pid_names_the_lock_file() {
    match read_lock_pid("iroh", None) {
        Err(LockError::NoLock(path)) => assert_eq!(path, "iroh.lock"),
        _ => panic!("an absent file must report NoLock"),
    }
    let contents = b"99".to_vec();
    assert_eq!(read_lock_pid("iroh", Some(&contents)), Ok(99));
    match read_lock_pid("iroh", Some(&b"nope".to_vec())) {
        Err(LockError::CorruptLock(path)) => assert_eq!(path, "iroh.lock"),
        _ => panic!("junk contents must report CorruptLock"),
    }
}

#[test]
fn pid_parsing_matches_str_parse() {
    // The hand-rolled parser accepts and rejects exactly what
    // str::parse::<u32> does on the same bytes.
    let cases: &[&[u8]] = &[
        b"0",
        b"1",
        b"12345",
        b"+17",
        b"4294967295",
        b"4294967296",
        b"99999999999999",
        b"",
        b"+",
        b"-3",
        b" 12",
        b"12 ",
        b"1a2",
        b"\xff\xfe",
    ];
    for &bytes in cases {
        let expected = std::str::from_utf8(bytes).ok().and_then(|s| s.parse::<u32>().ok());
        assert_eq!(parse_pid(bytes), expected, "on {:?}", bytes);
    }
}

#[test]
fn stop_converts_small_pids() {
    assert_eq!(stop(123), Ok(123));
    assert_eq!(stop(0), Ok(0));
    assert_eq!(stop(i32::MAX as u32), Ok(i32::MAX));
}

#[test]
fn stop_refuses_oversized_pids() {
    assert_eq!(stop(i32::MAX as u32 + 1), Err(ProcessError::InvalidPid));
    assert_eq!(stop(u32::MAX), Err(ProcessError::InvalidPid));
}
