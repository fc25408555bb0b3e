use fathom_syzygy::Error;
use fathom_syzygy::Fathom;
use fathom_syzygy::InitFlag;

/// A handle torn down before a second one is made: the flag must be clear
/// again, so the second initialization succeeds — with any path, even the
/// empty one.
#[test]
fn test_drop_safety() {
    let mut flag = InitFlag::new();
    {
        // This doesn't even need a real path, just any non-empty string will do.
        let handle = Fathom::new(&mut flag, "foobar").unwrap();
        handle.close(&mut flag);
    }
    {
        // The second time it can be anything, even an empty string.
        let handle = Fathom::new(&mut flag, "").unwrap();
        handle.close(&mut flag);
    }
}

#[test]
fn double_initialization_without_destruction_fails() {
    let mut flag = InitFlag::new();
    let first = Fathom::new(&mut flag, "pathA").unwrap();
    let second = Fathom::new(&mut flag, "pathB");
    assert!(matches!(second, Err(Error::AlreadyInitialized)));
    // The refused attempt left the live handle and its flag untouched.
    assert!(flag.check_initialized());
    first.close(&mut flag);
    assert!(!flag.check_initialized());
}

#[test]
fn embedded_terminator_is_an_invalid_path() {
    let mut flag = InitFlag::new();
    let r = Fathom::new(&mut flag, "tables\0dir");
    assert!(matches!(r, Err(Error::InvalidPath)));
    // The failed initialization tore itself down, so a retry succeeds.
    assert!(!flag.check_initialized());
    let handle = Fathom::new(&mut flag, "tablesdir").unwrap();
    handle.close(&mut flag);
}

#[test]
fn reload_keeps_the_handle_live() {
    let mut flag = InitFlag::new();
    let handle = Fathom::new(&mut flag, "first").unwrap();
    let handle = handle.reload(&mut flag, "second").unwrap();
    assert!(flag.check_initialized());
    handle.close(&mut flag);
    assert!(!flag.check_initialized());
}

#[test]
fn reload_with_invalid_path_consumes_the_handle() {
    let mut flag = InitFlag::new();
    let handle = Fathom::new(&mut flag, "first").unwrap();
    let r = handle.reload(&mut flag, "bad\0path");
    assert!(matches!(r, Err(Error::InvalidPath)));
    // The handle is gone and the flag is clear: initialization is open again.
    assert!(!flag.check_initialized());
    let handle = Fathom::new(&mut flag, "third").unwrap();
    handle.close(&mut flag);
}

#[test]
fn probers_are_borrowed_from_the_handle() {
    let mut flag = InitFlag::new();
    let mut handle = Fathom::new(&mut flag, "foobar").unwrap();
    {
        let (root_prober, prober) = handle.get_probers();
        // The read-only capability is freely copyable; the root capability
        // is not.
        let prober_copy = prober;
        let _ = format!("{:?} {:?} {:?}", root_prober, prober, prober_copy);
    }
    handle.close(&mut flag);
    assert!(!flag.check_initialized());
}
