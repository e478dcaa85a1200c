use vstd::prelude::*;
use vstd::string::StringExecFns;
use vstd::utf8::{encode_scalar, encode_utf8};
use crate::memory::{empty_buffer, native_buffer, Buffer};

verus! {

/// The arguments of the exported entry points that can be missing.
#[derive(Clone, Copy, Debug, PartialEq, Eq, Structural)]
pub enum ArgName {
    DataDir,
    SupportedFeatures,
    Cache,
    Wasm,
    CodeId,
    Msg,
    Params,
    GasUsed,
}

impl ArgName {
    /// The argument's name as the foreign caller knows it.
    pub open spec fn text(self) -> Seq<char> {
        match self {
            ArgName::DataDir => "data_dir"@,
            ArgName::SupportedFeatures => "supported_features"@,
            ArgName::Cache => "cache"@,
            ArgName::Wasm => "wasm"@,
            ArgName::CodeId => "code_id"@,
            ArgName::Msg => "msg"@,
            ArgName::Params => "params"@,
            ArgName::GasUsed => "gas_used"@,
        }
    }

    pub fn as_str(&self) -> (r: &'static str)
        ensures
            r@ == self.text(),
    {
        match self {
            ArgName::DataDir => "data_dir",
            ArgName::SupportedFeatures => "supported_features",
            ArgName::Cache => "cache",
            ArgName::Wasm => "wasm",
            ArgName::CodeId => "code_id",
            ArgName::Msg => "msg",
            ArgName::Params => "params",
            ArgName::GasUsed => "gas_used",
        }
    }
}

/// Every failure an entry point can report to the foreign caller.
#[derive(Debug)]
pub enum Error {
    /// A required argument (or the cache handle) is null or absent.
    EmptyArg { name: ArgName },
    /// A text argument is not valid UTF-8.
    InvalidUtf8 { msg: String },
    /// A checksum argument does not have the fixed checksum length.
    InvalidChecksum { len: usize },
    /// The VM or the enclave reported a failure; its message is kept.
    VmErr { msg: String },
    /// A fault was caught at the boundary.
    Panic,
}

impl Error {
    pub fn empty_arg(name: ArgName) -> (r: Error)
        ensures
            r == (Error::EmptyArg { name }),
    {
        Error::EmptyArg { name }
    }

    pub fn panic() -> (r: Error)
        ensures
            r is Panic,
    {
        Error::Panic
    }

    pub fn vm_err(msg: String) -> (r: Error)
        ensures
            r matches Error::VmErr { msg: m } && m@ == msg@,
    {
        Error::VmErr { msg }
    }

    /// The human-readable text reported for this error.
    pub open spec fn text(&self) -> Seq<char> {
        match self {
            Error::EmptyArg { name } => "Null/Empty argument: "@ + name.text(),
            Error::InvalidUtf8 { msg } => "Cannot decode UTF8 bytes into string: "@ + msg@,
            Error::InvalidChecksum { .. } => "Checksum not of length 32"@,
            Error::VmErr { msg } => "Error calling the VM: "@ + msg@,
            Error::Panic => "Caught panic"@,
        }
    }

    pub fn message(&self) -> (r: String)
        ensures
            r@ == self.text(),
    {
        match self {
            Error::EmptyArg { name } => String::from_str("Null/Empty argument: ").concat(
                name.as_str(),
            ),
            Error::InvalidUtf8 { msg } => String::from_str(
                "Cannot decode UTF8 bytes into string: ",
            ).concat(msg.as_str()),
            Error::InvalidChecksum { .. } => String::from_str("Checksum not of length 32"),
            Error::VmErr { msg } => String::from_str("Error calling the VM: ").concat(
                msg.as_str(),
            ),
            Error::Panic => String::from_str("Caught panic"),
        }
    }
}

/// The UTF-8 bytes of an error's text, as written to the error slot.
pub open spec fn error_bytes(e: &Error) -> Seq<u8> {
    encode_utf8(e.text())
}

/// Writes the error's text into the caller's error slot as a native-owned
/// buffer, which the caller must release.
pub fn set_error(e: &Error, err: &mut Buffer)
    ensures
        final(err)@ == native_buffer(error_bytes(e)),
{
    let msg = e.message();
    let bytes = msg.as_str().as_bytes();
    *err = Buffer::from_bytes(bytes);
}

/// Resets the caller's error slot to the empty sentinel.
pub fn clear_error(err: &mut Buffer)
    ensures
        final(err)@ == empty_buffer(),
{
    *err = Buffer::empty();
}

/// Turns an entry point's outcome into what crosses the boundary: the result
/// bytes with a cleared error slot, or the empty sentinel with the error's
/// text in the error slot.
pub fn handle_c_error(r: Result<Vec<u8>, Error>, err: &mut Buffer) -> (out: Buffer)
    ensures
        r matches Ok(v) ==> out@ == native_buffer(v@) && final(err)@ == empty_buffer(),
        r matches Err(e) ==> out@ == empty_buffer() && final(err)@ == native_buffer(
            error_bytes(&e),
        ),
{
    match r {
        Ok(v) => {
            clear_error(err);
            Buffer::from_vec(v)
        },
        Err(e) => {
            set_error(&e, err);
            Buffer::empty()
        },
    }
}

/// Like [`handle_c_error`] for entry points that answer with a flag.
pub fn handle_c_flag(r: Result<(), Error>, err: &mut Buffer) -> (out: bool)
    ensures
        out == (r is Ok),
        r is Ok ==> final(err)@ == empty_buffer(),
        r matches Err(e) ==> final(err)@ == native_buffer(error_bytes(&e)),
{
    match r {
        Ok(()) => {
            clear_error(err);
            true
        },
        Err(e) => {
            set_error(&e, err);
            false
        },
    }
}

/// An entry point's outcome after the unwind barrier: a fault that was caught
/// (`None`) becomes [`Error::Panic`], anything else passes through.
pub fn recover<T>(caught: Option<Result<T, Error>>) -> (r: Result<T, Error>)
    ensures
        caught is None ==> r matches Err(Error::Panic),
        caught matches Some(inner) ==> r == inner,
{
    match caught {
        Some(inner) => inner,
        None => Err(Error::panic()),
    }
}

/// Every error is reported with a non-empty message.
pub proof fn lemma_error_message_not_empty(e: &Error)
    ensures
        e.text().len() > 0,
        error_bytes(e).len() > 0,
{
    reveal_strlit("Null/Empty argument: ");
    reveal_strlit("Cannot decode UTF8 bytes into string: ");
    reveal_strlit("Checksum not of length 32");
    reveal_strlit("Error calling the VM: ");
    reveal_strlit("Caught panic");
    let t = e.text();
    assert(t.len() > 0);
    assert(encode_utf8(t) == encode_scalar(t[0] as u32) + encode_utf8(t.drop_first()));
    assert(encode_scalar(t[0] as u32).len() > 0);
}

} // verus!
