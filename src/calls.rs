use vstd::prelude::*;
use vstd::string::StringExecFns;
use vstd::slice::slice_to_vec;
use vstd::utf8::{decode_utf8, valid_utf8};
use crate::cache::{cache_t, CacheRegistry};
use crate::error::{clear_error, error_bytes, set_error, ArgName, Error};
use crate::memory::{empty_buffer, native_buffer, read_view, Buffer, BufferView};

verus! {

/// The fixed byte length of a contract checksum.
pub const CHECKSUM_LEN: usize = 32;

/// The content hash that identifies a compiled contract in the cache.
pub struct Checksum {
    bytes: Vec<u8>,
}

impl View for Checksum {
    type V = Seq<u8>;

    closed spec fn view(&self) -> Seq<u8> {
        self.bytes@
    }
}

impl Checksum {
    #[verifier::type_invariant]
    spec fn has_fixed_len(self) -> bool {
        self.bytes@.len() == CHECKSUM_LEN
    }

    /// Accepts exactly [`CHECKSUM_LEN`] bytes.
    pub fn try_from_slice(b: &[u8]) -> (r: Result<Checksum, Error>)
        ensures
            b@.len() == CHECKSUM_LEN ==> (r matches Ok(c) && c@ == b@),
            b@.len() != CHECKSUM_LEN ==> r == Err::<Checksum, Error>(
                Error::InvalidChecksum { len: b@.len() as usize },
            ),
    {
        if b.len() != CHECKSUM_LEN {
            Err(Error::InvalidChecksum { len: b.len() })
        } else {
            Ok(Checksum { bytes: slice_to_vec(b) })
        }
    }

    pub fn as_slice(&self) -> (r: &[u8])
        ensures
            r@ == self@,
            r@.len() == CHECKSUM_LEN,
    {
        proof {
            use_type_invariant(self);
        }
        self.bytes.as_slice()
    }

    pub fn to_vec(&self) -> (r: Vec<u8>)
        ensures
            r@ == self@,
            r@.len() == CHECKSUM_LEN,
    {
        slice_to_vec(self.as_slice())
    }
}

/// Relies on std::str::from_utf8: it accepts exactly the valid UTF-8 byte
/// sequences, and the text it gives is what they encode. A rejection keeps
/// the error's description.
#[verifier::external_body]
fn utf8_text(b: &[u8]) -> (r: Result<String, String>)
    ensures
        r is Ok == valid_utf8(b@),
        r matches Ok(s) ==> s@ == decode_utf8(b@),
{
    match std::str::from_utf8(b) {
        Ok(s) => Ok(s.to_string()),
        Err(e) => Err(e.to_string()),
    }
}

/// A required byte argument: its bytes, or the named-argument error when it
/// is absent.
pub open spec fn arg_bytes(b: BufferView, name: ArgName) -> Result<Seq<u8>, Error> {
    match read_view(b) {
        Some(d) => Ok(d),
        None => Err(Error::EmptyArg { name }),
    }
}

pub open spec fn bytes_view(r: &Result<Vec<u8>, Error>) -> Result<Seq<u8>, Error> {
    match r {
        Ok(v) => Ok(v@),
        Err(e) => Err(*e),
    }
}

/// Reads a required byte argument.
pub fn read_arg(b: &Buffer, name: ArgName) -> (r: Result<Vec<u8>, Error>)
    ensures
        bytes_view(&r) == arg_bytes(b@, name),
{
    match b.read() {
        Some(d) => Ok(slice_to_vec(d)),
        None => Err(Error::empty_arg(name)),
    }
}

/// How a text argument decodes.
pub enum TextArg {
    Missing,
    NotUtf8,
    Text(Seq<char>),
}

pub open spec fn text_arg(b: BufferView) -> TextArg {
    match read_view(b) {
        None => TextArg::Missing,
        Some(d) => if valid_utf8(d) {
            TextArg::Text(decode_utf8(d))
        } else {
            TextArg::NotUtf8
        },
    }
}

/// Reads a required UTF-8 text argument.
pub fn read_text_arg(b: &Buffer, name: ArgName) -> (r: Result<String, Error>)
    ensures
        text_arg(b@) is Missing ==> r == Err::<String, Error>(Error::EmptyArg { name }),
        text_arg(b@) is NotUtf8 ==> r matches Err(Error::InvalidUtf8 { .. }),
        text_arg(b@) matches TextArg::Text(t) ==> (r matches Ok(s) && s@ == t),
{
    match b.read() {
        None => Err(Error::empty_arg(name)),
        Some(d) => match utf8_text(d) {
            Ok(s) => Ok(s),
            Err(msg) => Err(Error::InvalidUtf8 { msg }),
        },
    }
}

/// The decoded arguments of `init_cache`: the data directory and the
/// comma-separated list of supported features.
pub fn init_cache_args(data_dir: &Buffer, supported_features: &Buffer) -> (r: Result<
    (String, String),
    Error,
>)
    ensures
        text_arg(data_dir@) is Missing ==> r == Err::<(String, String), Error>(
            Error::EmptyArg { name: ArgName::DataDir },
        ),
        text_arg(data_dir@) is NotUtf8 ==> r matches Err(Error::InvalidUtf8 { .. }),
        text_arg(data_dir@) is Text && text_arg(supported_features@) is Missing ==> r == Err::<
            (String, String),
            Error,
        >(Error::EmptyArg { name: ArgName::SupportedFeatures }),
        text_arg(data_dir@) is Text && text_arg(supported_features@) is NotUtf8 ==> r matches Err(
            Error::InvalidUtf8 { .. },
        ),
        text_arg(data_dir@) is Text && text_arg(supported_features@) is Text ==> (r matches Ok(
            (d, f),
        ) && text_arg(data_dir@) == TextArg::Text(d@) && text_arg(supported_features@)
            == TextArg::Text(f@)),
{
    let dir = read_text_arg(data_dir, ArgName::DataDir)?;
    let features = read_text_arg(supported_features, ArgName::SupportedFeatures)?;
    Ok((dir, features))
}

/// Ends `init_cache`: registers the cache that was built and returns its
/// handle with a cleared error slot, or reports why no cache was built and
/// returns the null handle.
pub fn finish_init_cache<C>(registry: &mut CacheRegistry<C>, built: Result<C, Error>, err: &mut Buffer) -> (h:
    Option<cache_t>)
    ensures
        built matches Ok(c) ==> (h matches Some(hh) && hh.index() == old(registry).slots().len()
            && final(registry).slots() == old(registry).slots().push(Some(c))
            && final(registry).holds(&hh) && final(err)@ == empty_buffer()),
        built matches Err(e) ==> (h is None && final(registry).slots() == old(registry).slots()
            && final(err)@ == native_buffer(error_bytes(&e))),
{
    match built {
        Ok(c) => {
            let h = registry.insert(c);
            clear_error(err);
            Some(h)
        },
        Err(e) => {
            set_error(&e, err);
            None
        },
    }
}

/// Whether a possibly null handle stands for a cache of the registry.
pub open spec fn cache_present<C>(registry: &CacheRegistry<C>, cache: Option<&cache_t>) -> bool {
    cache matches Some(h) && registry.holds(h)
}

/// Rejects a null handle, or one that stands for no cache, as the missing
/// cache argument.
pub fn check_cache<C>(registry: &CacheRegistry<C>, cache: Option<&cache_t>) -> (r: Result<
    (),
    Error,
>)
    ensures
        cache_present(registry, cache) ==> r is Ok,
        !cache_present(registry, cache) ==> r == Err::<(), Error>(
            Error::EmptyArg { name: ArgName::Cache },
        ),
{
    match cache {
        Some(h) => if registry.contains(h) {
            Ok(())
        } else {
            Err(Error::empty_arg(ArgName::Cache))
        },
        None => Err(Error::empty_arg(ArgName::Cache)),
    }
}

/// The outcome of `create`'s argument checks: the contract code to store.
pub open spec fn create_spec(cache_ok: bool, wasm: BufferView) -> Result<Seq<u8>, Error> {
    if !cache_ok {
        Err(Error::EmptyArg { name: ArgName::Cache })
    } else {
        arg_bytes(wasm, ArgName::Wasm)
    }
}

/// Checks the arguments of `create` and returns the code to store.
pub fn create_args<C>(registry: &CacheRegistry<C>, cache: Option<&cache_t>, wasm: &Buffer) -> (r:
    Result<Vec<u8>, Error>)
    ensures
        bytes_view(&r) == create_spec(cache_present(registry, cache), wasm@),
{
    check_cache(registry, cache)?;
    read_arg(wasm, ArgName::Wasm)
}

/// A checksum argument: its bytes, the missing-argument error, or the
/// length error.
pub open spec fn checksum_arg(b: BufferView) -> Result<Seq<u8>, Error> {
    match arg_bytes(b, ArgName::CodeId) {
        Err(e) => Err(e),
        Ok(d) => if d.len() == CHECKSUM_LEN {
            Ok(d)
        } else {
            Err(Error::InvalidChecksum { len: d.len() as usize })
        },
    }
}

pub open spec fn checksum_view(r: &Result<Checksum, Error>) -> Result<Seq<u8>, Error> {
    match r {
        Ok(c) => Ok(c@),
        Err(e) => Err(*e),
    }
}

/// Reads a checksum argument.
pub fn read_checksum(b: &Buffer) -> (r: Result<Checksum, Error>)
    ensures
        checksum_view(&r) == checksum_arg(b@),
{
    let bytes = read_arg(b, ArgName::CodeId)?;
    Checksum::try_from_slice(bytes.as_slice())
}

/// The outcome of `get_code`'s argument checks: the checksum to look up.
pub open spec fn get_code_spec(cache_ok: bool, id: BufferView) -> Result<Seq<u8>, Error> {
    if !cache_ok {
        Err(Error::EmptyArg { name: ArgName::Cache })
    } else {
        checksum_arg(id)
    }
}

/// Checks the arguments of `get_code` and returns the checksum to look up.
pub fn get_code_args<C>(registry: &CacheRegistry<C>, cache: Option<&cache_t>, id: &Buffer) -> (r:
    Result<Checksum, Error>)
    ensures
        checksum_view(&r) == get_code_spec(cache_present(registry, cache), id@),
{
    check_cache(registry, cache)?;
    read_checksum(id)
}

/// The decoded arguments of a contract call.
pub struct CallArgs {
    pub checksum: Checksum,
    pub params: Vec<u8>,
    pub msg: Vec<u8>,
}

pub struct CallArgsView {
    pub checksum: Seq<u8>,
    pub params: Seq<u8>,
    pub msg: Seq<u8>,
}

pub open spec fn call_args_view(r: &Result<CallArgs, Error>) -> Result<CallArgsView, Error> {
    match r {
        Ok(a) => Ok(CallArgsView { checksum: a.checksum@, params: a.params@, msg: a.msg@ }),
        Err(e) => Err(*e),
    }
}

/// The outcome of the argument checks of `instantiate`, `handle` and
/// `migrate`, in order: the cache handle, the gas output slot, the checksum,
/// the parameters and the message.
pub open spec fn call_spec(
    cache_ok: bool,
    gas_used_present: bool,
    code_id: BufferView,
    params: BufferView,
    msg: BufferView,
) -> Result<CallArgsView, Error> {
    if !cache_ok {
        Err(Error::EmptyArg { name: ArgName::Cache })
    } else if !gas_used_present {
        Err(Error::EmptyArg { name: ArgName::GasUsed })
    } else {
        match checksum_arg(code_id) {
            Err(e) => Err(e),
            Ok(c) => match arg_bytes(params, ArgName::Params) {
                Err(e) => Err(e),
                Ok(p) => match arg_bytes(msg, ArgName::Msg) {
                    Err(e) => Err(e),
                    Ok(m) => Ok(CallArgsView { checksum: c, params: p, msg: m }),
                },
            },
        }
    }
}

/// Checks the arguments of `instantiate`, `handle` or `migrate`.
pub fn call_args<C>(
    registry: &CacheRegistry<C>,
    cache: Option<&cache_t>,
    code_id: &Buffer,
    params: &Buffer,
    msg: &Buffer,
    gas_used_present: bool,
) -> (r: Result<CallArgs, Error>)
    ensures
        call_args_view(&r) == call_spec(
            cache_present(registry, cache),
            gas_used_present,
            code_id@,
            params@,
            msg@,
        ),
{
    check_cache(registry, cache)?;
    if !gas_used_present {
        return Err(Error::empty_arg(ArgName::GasUsed));
    }
    let checksum = read_checksum(code_id)?;
    let params = read_arg(params, ArgName::Params)?;
    let msg = read_arg(msg, ArgName::Msg)?;
    Ok(CallArgs { checksum, params, msg })
}

/// The decoded arguments of a query.
pub struct QueryArgs {
    pub checksum: Checksum,
    pub msg: Vec<u8>,
}

pub open spec fn query_args_view(r: &Result<QueryArgs, Error>) -> Result<(Seq<u8>, Seq<u8>), Error> {
    match r {
        Ok(a) => Ok((a.checksum@, a.msg@)),
        Err(e) => Err(*e),
    }
}

/// The outcome of `query`'s argument checks: as for a call, without
/// parameters.
pub open spec fn query_spec(
    cache_ok: bool,
    gas_used_present: bool,
    code_id: BufferView,
    msg: BufferView,
) -> Result<(Seq<u8>, Seq<u8>), Error> {
    if !cache_ok {
        Err(Error::EmptyArg { name: ArgName::Cache })
    } else if !gas_used_present {
        Err(Error::EmptyArg { name: ArgName::GasUsed })
    } else {
        match checksum_arg(code_id) {
            Err(e) => Err(e),
            Ok(c) => match arg_bytes(msg, ArgName::Msg) {
                Err(e) => Err(e),
                Ok(m) => Ok((c, m)),
            },
        }
    }
}

/// Checks the arguments of `query`.
pub fn query_args<C>(
    registry: &CacheRegistry<C>,
    cache: Option<&cache_t>,
    code_id: &Buffer,
    msg: &Buffer,
    gas_used_present: bool,
) -> (r: Result<QueryArgs, Error>)
    ensures
        query_args_view(&r) == query_spec(
            cache_present(registry, cache),
            gas_used_present,
            code_id@,
            msg@,
        ),
{
    check_cache(registry, cache)?;
    if !gas_used_present {
        return Err(Error::empty_arg(ArgName::GasUsed));
    }
    let checksum = read_checksum(code_id)?;
    let msg = read_arg(msg, ArgName::Msg)?;
    Ok(QueryArgs { checksum, msg })
}

/// Reports gas and then surfaces the VM's outcome. Called after the VM call
/// returned, whether it failed or not, with the gas the instance has left:
/// the gas output is written with `gas_limit - gas_left` before the outcome
/// is passed on. An instance reporting more gas left than its limit is an
/// arithmetic fault, reported as a caught fault.
pub fn finish_call(
    gas_limit: u64,
    gas_left: u64,
    outcome: Result<Vec<u8>, Error>,
    gas_used: &mut u64,
) -> (r: Result<Vec<u8>, Error>)
    ensures
        gas_left <= gas_limit ==> *final(gas_used) == gas_limit - gas_left && r == outcome,
        gas_left > gas_limit ==> *final(gas_used) == *old(gas_used) && r matches Err(Error::Panic),
{
    if gas_left > gas_limit {
        return Err(Error::panic());
    }
    *gas_used = gas_limit - gas_left;
    outcome
}

/// The text reported when `get_encrypted_seed` gets no certificate.
pub open spec fn no_certificate_text() -> Seq<char> {
    "Attestation Certificate is empty"@
}

/// The text reported when `init_node` gets no master certificate.
pub open spec fn no_public_key_text() -> Seq<char> {
    "Public key is empty"@
}

/// The text reported when `init_node` gets no encrypted seed.
pub open spec fn no_seed_text() -> Seq<char> {
    "Encrypted seed is empty"@
}

/// Whether `r` is the enclave-side error carrying `text`.
pub open spec fn is_vm_error<T>(r: &Result<T, Error>, text: Seq<char>) -> bool {
    r matches Err(Error::VmErr { msg }) && msg@ == text
}

/// Reads an enclave argument, reporting `text` when it is absent.
fn read_enclave_arg(b: &Buffer, text: &str) -> (r: Result<Vec<u8>, Error>)
    ensures
        read_view(b@) matches Some(d) ==> (r matches Ok(v) && v@ == d),
        read_view(b@) is None ==> is_vm_error(&r, text@),
{
    match b.read() {
        Some(d) => Ok(slice_to_vec(d)),
        None => Err(Error::vm_err(String::from_str(text))),
    }
}

/// The certificate argument of `get_encrypted_seed`.
pub fn encrypted_seed_args(cert: &Buffer) -> (r: Result<Vec<u8>, Error>)
    ensures
        read_view(cert@) matches Some(d) ==> (r matches Ok(v) && v@ == d),
        read_view(cert@) is None ==> is_vm_error(&r, no_certificate_text()),
{
    read_enclave_arg(cert, "Attestation Certificate is empty")
}

/// Checks the arguments of `init_node`: the master certificate, then the
/// encrypted seed.
pub fn init_node_args(master_cert: &Buffer, encrypted_seed: &Buffer) -> (r: Result<
    (Vec<u8>, Vec<u8>),
    Error,
>)
    ensures
        read_view(master_cert@) is None ==> is_vm_error(&r, no_public_key_text()),
        read_view(master_cert@) is Some && read_view(encrypted_seed@) is None ==> is_vm_error(
            &r,
            no_seed_text(),
        ),
        read_view(master_cert@) matches Some(c) ==> (read_view(encrypted_seed@) matches Some(s)
            ==> (r matches Ok((cv, sv)) && cv@ == c && sv@ == s)),
{
    let cert = read_enclave_arg(master_cert, "Public key is empty")?;
    let seed = read_enclave_arg(encrypted_seed, "Encrypted seed is empty")?;
    Ok((cert, seed))
}

/// Every entry point that takes a cache handle fails with the missing cache
/// argument when the handle is null or stands for no cache, whatever its
/// other arguments are.
pub proof fn lemma_missing_cache_fails_every_entry_point(
    code_id: BufferView,
    params: BufferView,
    msg: BufferView,
    gas_used_present: bool,
)
    ensures
        create_spec(false, code_id) == Err::<Seq<u8>, Error>(Error::EmptyArg { name: ArgName::Cache }),
        get_code_spec(false, code_id) == Err::<Seq<u8>, Error>(
            Error::EmptyArg { name: ArgName::Cache },
        ),
        call_spec(false, gas_used_present, code_id, params, msg) == Err::<CallArgsView, Error>(
            Error::EmptyArg { name: ArgName::Cache },
        ),
        query_spec(false, gas_used_present, code_id, msg) == Err::<(Seq<u8>, Seq<u8>), Error>(
            Error::EmptyArg { name: ArgName::Cache },
        ),
{
}

} // verus!
