use std::cell::RefCell;

use go_cosmwasm::{
    gas_meter_t, iterator_t, next_item, Buffer, FfiErrorKind, GoIter, GoResult, Iterator_vtable,
    NextDb,
};

struct Step {
    code: i32,
    gas: u64,
    key: Option<Vec<u8>>,
    value: Option<Vec<u8>>,
}

struct Script {
    steps: RefCell<Vec<Step>>,
    calls: RefCell<usize>,
}

impl Script {
    fn new(mut steps: Vec<Step>) -> Script {
        steps.reverse();
        Script { steps: RefCell::new(steps), calls: RefCell::new(0) }
    }
}

impl NextDb for Script {
    fn next_db(
        &self,
        state: &iterator_t,
        gas_meter: &gas_meter_t,
        used_gas: &mut u64,
        key: &mut Buffer,
        value: &mut Buffer,
    ) -> i32 {
        *self.calls.borrow_mut() += 1;
        assert_eq!(*used_gas, 0);
        assert!(key.read().is_none());
        assert!(value.read().is_none());
        assert_eq!((state.addr, gas_meter.addr), (2, 1));
        let step = self.steps.borrow_mut().pop().expect("scan stepped past its end");
        *used_gas = step.gas;
        if let Some(k) = step.key {
            *key = Buffer::from_vec(k);
        }
        if let Some(v) = step.value {
            *value = Buffer::from_vec(v);
        }
        step.code
    }
}

fn pair(k: &[u8], v: &[u8], gas: u64) -> Step {
    Step { code: 0, gas, key: Some(k.to_vec()), value: Some(v.to_vec()) }
}

fn iter_over(steps: Vec<Step>) -> GoIter<Script> {
    GoIter::new(
        gas_meter_t { addr: 1 },
        iterator_t { addr: 2 },
        Iterator_vtable { next_db: Some(Script::new(steps)) },
    )
}

#[test]
fn n_pairs_then_natural_end() {
    let mut it = iter_over(vec![
        pair(b"a", b"1", 10),
        pair(b"b", b"22", 20),
        pair(b"c", b"333", 30),
        Step { code: 0, gas: 5, key: None, value: None },
    ]);
    let mut got = Vec::new();
    while let Some(item) = it.next() {
        got.push(item.expect("no step should fail"));
    }
    assert_eq!(
        got,
        vec![
            ((b"a".to_vec(), b"1".to_vec()), 10),
            ((b"b".to_vec(), b"22".to_vec()), 20),
            ((b"c".to_vec(), b"333".to_vec()), 30),
        ]
    );
    assert_eq!(*it.vtable.next_db.as_ref().unwrap().calls.borrow(), 4);
}

#[test]
fn empty_scan_ends_at_once() {
    let mut it = iter_over(vec![Step { code: 0, gas: 0, key: None, value: None }]);
    assert!(it.next().is_none());
}

#[test]
fn key_without_value_is_an_error() {
    let mut it = iter_over(vec![Step { code: 0, gas: 3, key: Some(b"k".to_vec()), value: None }]);
    let err = it.next().unwrap().unwrap_err();
    assert_eq!(err.kind, FfiErrorKind::Other);
    assert_eq!(
        err.msg.as_deref(),
        Some("Failed to read value while reading the next key in the db")
    );
}

#[test]
fn failing_step_is_annotated() {
    let mut it = iter_over(vec![Step { code: 3, gas: 9, key: None, value: None }]);
    let err = it.next().unwrap().unwrap_err();
    assert_eq!(err.kind, FfiErrorKind::OutOfGas);
    assert_eq!(err.msg.as_deref(), Some("Failed to fetch next item from iterator"));
}

#[test]
fn unknown_code_is_unknown_failure() {
    let mut it = iter_over(vec![Step { code: -7, gas: 0, key: Some(b"k".to_vec()), value: None }]);
    let err = it.next().unwrap().unwrap_err();
    assert_eq!(err.kind, FfiErrorKind::Unknown);
    assert_eq!(err.msg.as_deref(), Some("Failed to fetch next item from iterator"));
}

#[test]
fn unset_vtable_reports_on_first_next() {
    let mut it: GoIter<Script> = GoIter::default();
    assert_eq!(it.state.addr, 0);
    let err = it.next().unwrap().unwrap_err();
    assert_eq!(err.kind, FfiErrorKind::Other);
    assert_eq!(err.msg.as_deref(), Some("iterator vtable not set"));
}

#[test]
fn next_item_copies_key_and_value() {
    let k = Buffer::from_vec(vec![1, 2]);
    let v = Buffer::from_vec(vec![3]);
    let item = next_item(0, 42, &k, &v).unwrap().unwrap();
    assert_eq!(item, ((vec![1, 2], vec![3]), 42));
}

#[test]
fn go_result_codes() {
    assert_eq!(GoResult::from_code(0), GoResult::Success);
    assert_eq!(GoResult::from_code(1), GoResult::Panic);
    assert_eq!(GoResult::from_code(2), GoResult::BadArgument);
    assert_eq!(GoResult::from_code(3), GoResult::OutOfGas);
    assert_eq!(GoResult::from_code(99), GoResult::Other);
    assert!(GoResult::Success.into_ffi_result().is_ok());
    assert_eq!(GoResult::Panic.into_ffi_result().unwrap_err().kind, FfiErrorKind::ForeignPanic);
}

#[test]
fn adapter_unchanged_by_steps() {
    let mut it = iter_over(vec![pair(b"a", b"1", 1), Step { code: 0, gas: 0, key: None, value: None }]);
    assert!(it.next().unwrap().is_ok());
    assert!(it.next().is_none());
    assert_eq!((it.state.addr, it.gas_meter.addr), (2, 1));
    assert!(it.vtable.next_db.is_some());
}
