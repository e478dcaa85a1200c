use vstd::prelude::*;
use vstd::slice::slice_to_vec;
use crate::ffi::{FfiError, FfiErrorKind, FfiErrorView, GoResult};
use crate::memory::{empty_buffer, read_view, Buffer};

verus! {

/// The foreign caller's iterator state: an opaque token that is handed back
/// to the caller's callback and never looked into here.
pub struct iterator_t {
    pub addr: usize,
}

/// The foreign caller's gas meter, opaque in the same way.
pub struct gas_meter_t {
    pub addr: usize,
}

/// The `next` step of a foreign range scan. It is handed a zero gas slot and
/// two empty buffers, and may write how much gas the step used, the next key
/// and its value; a key left empty ends the scan. Its return code is not
/// trusted and is decoded by [`GoResult::from_code`].
pub trait NextDb {
    fn next_db(
        &self,
        state: &iterator_t,
        gas_meter: &gas_meter_t,
        used_gas: &mut u64,
        key: &mut Buffer,
        value: &mut Buffer,
    ) -> i32
        requires
            *old(used_gas) == 0,
            old(key)@ == empty_buffer(),
            old(value)@ == empty_buffer(),
    ;
}

/// The callback table of a foreign iterator; the slot may be unset.
pub struct Iterator_vtable<F> {
    pub next_db: Option<F>,
}

impl<F> Default for Iterator_vtable<F> {
    fn default() -> (r: Self)
        ensures
            r.next_db is None,
    {
        Iterator_vtable { next_db: None }
    }
}

/// A key, its value, and the gas the step that produced them used.
pub type StorageIteratorItem = Result<((Vec<u8>, Vec<u8>), u64), FfiError>;

pub type ItemView = Result<((Seq<u8>, Seq<u8>), u64), FfiErrorView>;

pub open spec fn item_view(i: &StorageIteratorItem) -> ItemView {
    match i {
        Ok(((k, v), g)) => Ok(((k@, v@), *g)),
        Err(e) => Err(e@),
    }
}

pub open spec fn step_view(r: &Option<StorageIteratorItem>) -> Option<ItemView> {
    match r {
        Some(i) => Some(item_view(i)),
        None => None,
    }
}

pub open spec fn not_set_error() -> FfiErrorView {
    FfiErrorView { kind: FfiErrorKind::Other, msg: Some("iterator vtable not set"@) }
}

pub open spec fn fetch_failed_text() -> Seq<char> {
    "Failed to fetch next item from iterator"@
}

pub open spec fn missing_value_error() -> FfiErrorView {
    FfiErrorView {
        kind: FfiErrorKind::Other,
        msg: Some("Failed to read value while reading the next key in the db"@),
    }
}

/// What one call of the foreign `next` callback left behind.
pub struct RawStep {
    pub code: i32,
    pub used_gas: u64,
    pub key: Option<Seq<u8>>,
    pub value: Option<Seq<u8>>,
}

/// What the adapter yields for one callback step: a failing code gives the
/// fetch error, an absent key the natural end, a key without a value the
/// missing-value error, and otherwise the pair with the step's gas.
pub open spec fn step_item(s: RawStep) -> Option<ItemView> {
    match GoResult::spec_from_code(s.code).spec_failure() {
        Some(kind) => Some(Err(FfiErrorView { kind, msg: Some(fetch_failed_text()) })),
        None => match s.key {
            None => None,
            Some(k) => match s.value {
                Some(v) => Some(Ok(((k, v), s.used_gas))),
                None => Some(Err(missing_value_error())),
            },
        },
    }
}

/// Builds the adapter's answer from what the callback left behind.
pub fn next_item(code: i32, used_gas: u64, key: &Buffer, value: &Buffer) -> (r: Option<
    StorageIteratorItem,
>)
    ensures
        step_view(&r) == step_item(
            RawStep { code, used_gas, key: read_view(key@), value: read_view(value@) },
        ),
{
    let go_result = GoResult::from_code(code);
    let mut result = go_result.into_ffi_result();
    if let Err(error) = &mut result {
        error.set_message("Failed to fetch next item from iterator");
    }
    if let Err(err) = result {
        return Some(Err(err));
    }
    match key.read() {
        Some(k) => match value.read() {
            Some(v) => Some(Ok(((slice_to_vec(k), slice_to_vec(v)), used_gas))),
            None => Some(
                Err(FfiError::other("Failed to read value while reading the next key in the db")),
            ),
        },
        None => None,
    }
}

/// A native pull-based view of a foreign range scan.
pub struct GoIter<F> {
    pub gas_meter: gas_meter_t,
    pub state: iterator_t,
    pub vtable: Iterator_vtable<F>,
}

impl<F> Default for GoIter<F> {
    fn default() -> (r: Self)
        ensures
            r.vtable.next_db is None,
            r.gas_meter.addr == 0,
            r.state.addr == 0,
    {
        GoIter {
            gas_meter: gas_meter_t { addr: 0 },
            state: iterator_t { addr: 0 },
            vtable: Iterator_vtable::default(),
        }
    }
}

impl<F: NextDb> GoIter<F> {
    /// Binds a callback table to the caller's state and gas meter. The table
    /// is not consulted until the first step.
    pub fn new(gas_meter: gas_meter_t, state: iterator_t, vtable: Iterator_vtable<F>) -> (r: Self)
        ensures
            r == (GoIter { gas_meter, state, vtable }),
    {
        GoIter { gas_meter, state, vtable }
    }

    /// Runs one step of the foreign scan: the callback, if bound, is called
    /// once with the adapter's state and gas meter, a zero gas slot and two
    /// empty buffers. `None` is the natural end; an error ends the scan, which
    /// need not be resumable afterwards. The adapter itself is left as it was.
    pub fn next(&mut self) -> (r: Option<StorageIteratorItem>)
        ensures
            *final(self) == *old(self),
            old(self).vtable.next_db is None ==> step_view(&r) == Some(
                Err::<((Seq<u8>, Seq<u8>), u64), FfiErrorView>(not_set_error()),
            ),
            old(self).vtable.next_db is Some ==> exists|s: RawStep|
                step_view(&r) == #[trigger] step_item(s),
    {
        match &self.vtable.next_db {
            None => Some(Err(FfiError::other("iterator vtable not set"))),
            Some(f) => {
                let mut key_buf = Buffer::empty();
                let mut value_buf = Buffer::empty();
                let mut used_gas: u64 = 0;
                let code = f.next_db(
                    &self.state,
                    &self.gas_meter,
                    &mut used_gas,
                    &mut key_buf,
                    &mut value_buf,
                );
                let r = next_item(code, used_gas, &key_buf, &value_buf);
                assert(step_view(&r) == step_item(
                    RawStep {
                        code,
                        used_gas,
                        key: read_view(key_buf@),
                        value: read_view(value_buf@),
                    },
                ));
                r
            },
        }
    }
}

/// How a scan stops.
pub enum ScanEnd {
    /// The callback reported no further key.
    Exhausted,
    /// A step failed; the scan stops there.
    Failed(FfiErrorView),
    /// The recorded steps ran out before either of the above.
    Unfinished,
}

/// The pairs a consumer collects from a run of steps, and how the run stops.
pub open spec fn scan(steps: Seq<RawStep>) -> (Seq<((Seq<u8>, Seq<u8>), u64)>, ScanEnd)
    decreases steps.len(),
{
    if steps.len() == 0 {
        (Seq::empty(), ScanEnd::Unfinished)
    } else {
        match step_item(steps[0]) {
            None => (Seq::empty(), ScanEnd::Exhausted),
            Some(Err(e)) => (Seq::empty(), ScanEnd::Failed(e)),
            Some(Ok(p)) => {
                let rest = scan(steps.drop_first());
                (seq![p] + rest.0, rest.1)
            },
        }
    }
}

/// A step that succeeds with both a key and a value.
pub open spec fn full_step(s: RawStep) -> bool {
    s.code == 0 && s.key is Some && s.value is Some
}

/// A step that succeeds without a key.
pub open spec fn end_step(s: RawStep) -> bool {
    s.code == 0 && s.key is None
}

/// `n` successful steps followed by a step without a key yield exactly the
/// `n` pairs, in order and each with its own step's gas, and then end
/// without an error.
pub proof fn lemma_scan_n_pairs_then_end(steps: Seq<RawStep>, n: nat)
    requires
        steps.len() == n + 1,
        forall|i: int| 0 <= i < n ==> full_step(#[trigger] steps[i]),
        end_step(steps[n as int]),
    ensures
        scan(steps).0.len() == n,
        forall|i: int|
            0 <= i < n ==> #[trigger] scan(steps).0[i] == (
            (steps[i].key.unwrap(), steps[i].value.unwrap()),
            steps[i].used_gas,
        ),
        scan(steps).1 is Exhausted,
    decreases n,
{
    if n > 0 {
        let rest = steps.drop_first();
        assert forall|i: int| 0 <= i < n - 1 implies full_step(#[trigger] rest[i]) by {
            assert(rest[i] == steps[i + 1]);
        }
        assert(rest[n - 1] == steps[n as int]);
        lemma_scan_n_pairs_then_end(rest, (n - 1) as nat);
        assert(full_step(steps[0]));
        let r = scan(steps);
        assert forall|i: int| 0 <= i < n implies #[trigger] r.0[i] == (
            (steps[i].key.unwrap(), steps[i].value.unwrap()),
            steps[i].used_gas,
        ) by {
            if i > 0 {
                assert(r.0[i] == scan(rest).0[i - 1]);
                assert(rest[i - 1] == steps[i]);
            }
        }
    }
}

/// A step whose key is present but whose value is absent ends the scan with
/// the missing-value error.
pub proof fn lemma_missing_value_fails(s: RawStep)
    requires
        s.code == 0,
        s.key is Some,
        s.value is None,
    ensures
        step_item(s) == Some(Err::<((Seq<u8>, Seq<u8>), u64), FfiErrorView>(missing_value_error())),
        scan(seq![s]).1 == ScanEnd::Failed(missing_value_error()),
{
    assert(seq![s][0] == s);
}

} // verus!
