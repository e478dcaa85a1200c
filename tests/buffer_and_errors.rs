use go_cosmwasm::{
    clear_error, free_rust, handle_c_error, handle_c_flag, recover, set_error, ArgName, Buffer,
    Error, Ownership,
};

#[test]
fn buffer_round_trip() {
    let data = vec![0u8, 1, 2, 255];
    let b = Buffer::from_bytes(&data);
    assert_eq!(b.read(), Some(&data[..]));
    assert_eq!(b.ownership(), Ownership::OwnedByNative);
    let v = Buffer::from_vec(data.clone());
    assert_eq!(v.consume(), data);
}

#[test]
fn empty_sentinel_reads_absent() {
    let b = Buffer::empty();
    assert!(b.read().is_none());
    assert!(b.is_empty());
    assert!(Buffer::default().read().is_none());
}

#[test]
fn empty_bytes_differ_from_sentinel() {
    let b = Buffer::from_vec(Vec::new());
    assert_eq!(b.read(), Some(&[][..]));
    assert!(!b.is_empty());
}

#[test]
fn caller_buffer_is_borrowed() {
    let b = Buffer::from_caller(b"abc".to_vec());
    assert_eq!(b.ownership(), Ownership::BorrowedByCaller);
    assert_eq!(b.read(), Some(&b"abc"[..]));
}

#[test]
fn free_native_buffer() {
    free_rust(Buffer::from_vec(vec![1, 2, 3]));
}

#[test]
fn error_messages() {
    assert_eq!(Error::empty_arg(ArgName::Cache).message(), "Null/Empty argument: cache");
    assert_eq!(Error::empty_arg(ArgName::GasUsed).message(), "Null/Empty argument: gas_used");
    assert_eq!(Error::panic().message(), "Caught panic");
    assert_eq!(Error::vm_err("boom".to_string()).message(), "Error calling the VM: boom");
    assert_eq!(Error::InvalidChecksum { len: 3 }.message(), "Checksum not of length 32");
    assert_eq!(
        Error::InvalidUtf8 { msg: "bad".to_string() }.message(),
        "Cannot decode UTF8 bytes into string: bad"
    );
}

#[test]
fn set_and_clear_error_slot() {
    let mut slot = Buffer::empty();
    set_error(&Error::empty_arg(ArgName::Wasm), &mut slot);
    assert_eq!(slot.read(), Some(&b"Null/Empty argument: wasm"[..]));
    assert_eq!(slot.ownership(), Ownership::OwnedByNative);
    clear_error(&mut slot);
    assert!(slot.read().is_none());
}

#[test]
fn handle_c_error_success_clears_slot() {
    let mut slot = Buffer::from_vec(b"stale".to_vec());
    let out = handle_c_error(Ok(vec![7, 8]), &mut slot);
    assert_eq!(out.read(), Some(&[7u8, 8][..]));
    assert!(slot.read().is_none());
}

#[test]
fn handle_c_error_failure_fills_slot() {
    let mut slot = Buffer::empty();
    let out = handle_c_error(Err(Error::vm_err("out".to_string())), &mut slot);
    assert!(out.read().is_none());
    assert_eq!(slot.read(), Some(&b"Error calling the VM: out"[..]));
}

#[test]
fn handle_c_flag_outcomes() {
    let mut slot = Buffer::empty();
    assert!(handle_c_flag(Ok(()), &mut slot));
    assert!(slot.read().is_none());
    assert!(!handle_c_flag(Err(Error::empty_arg(ArgName::Params)), &mut slot));
    assert_eq!(slot.read(), Some(&b"Null/Empty argument: params"[..]));
}

#[test]
fn caught_fault_becomes_panic_error() {
    let r: Result<Vec<u8>, Error> = recover(None);
    let mut slot = Buffer::empty();
    let out = handle_c_error(r, &mut slot);
    assert!(out.read().is_none());
    let msg = slot.read().unwrap();
    assert!(!msg.is_empty());
    assert_eq!(msg, b"Caught panic");
}

#[test]
fn recover_passes_outcome_through() {
    let r = recover(Some(Ok::<Vec<u8>, Error>(vec![1])));
    assert_eq!(r.unwrap(), vec![1]);
}
