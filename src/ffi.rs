use vstd::prelude::*;
use vstd::string::StringExecFns;

verus! {

/// The kinds of failure a foreign callback can report.
#[derive(Clone, Copy, Debug, PartialEq, Eq, Structural)]
pub enum FfiErrorKind {
    ForeignPanic,
    BadArgument,
    OutOfGas,
    Unknown,
    Other,
}

/// A failure of a foreign callback, with an optional context message.
#[derive(Debug)]
pub struct FfiError {
    pub kind: FfiErrorKind,
    pub msg: Option<String>,
}

pub struct FfiErrorView {
    pub kind: FfiErrorKind,
    pub msg: Option<Seq<char>>,
}

impl View for FfiError {
    type V = FfiErrorView;

    open spec fn view(&self) -> FfiErrorView {
        FfiErrorView {
            kind: self.kind,
            msg: match self.msg {
                Some(m) => Some(m@),
                None => None,
            },
        }
    }
}

impl FfiError {
    pub fn new(kind: FfiErrorKind) -> (r: FfiError)
        ensures
            r@ == (FfiErrorView { kind, msg: None }),
    {
        FfiError { kind, msg: None }
    }

    pub fn other(msg: &str) -> (r: FfiError)
        ensures
            r@ == (FfiErrorView { kind: FfiErrorKind::Other, msg: Some(msg@) }),
    {
        FfiError { kind: FfiErrorKind::Other, msg: Some(String::from_str(msg)) }
    }

    /// Replaces the context message, keeping the kind.
    pub fn set_message(&mut self, msg: &str)
        ensures
            final(self)@ == (FfiErrorView { kind: old(self)@.kind, msg: Some(msg@) }),
    {
        self.msg = Some(String::from_str(msg));
    }
}

/// A foreign callback's return code, decoded. The code is untrusted: any
/// value that is not a known code counts as [`GoResult::Other`].
#[derive(Clone, Copy, Debug, PartialEq, Eq, Structural)]
pub enum GoResult {
    Success,
    Panic,
    BadArgument,
    OutOfGas,
    Other,
}

impl GoResult {
    pub open spec fn spec_from_code(code: i32) -> GoResult {
        if code == 0 {
            GoResult::Success
        } else if code == 1 {
            GoResult::Panic
        } else if code == 2 {
            GoResult::BadArgument
        } else if code == 3 {
            GoResult::OutOfGas
        } else {
            GoResult::Other
        }
    }

    pub fn from_code(code: i32) -> (r: GoResult)
        ensures
            r == Self::spec_from_code(code),
    {
        if code == 0 {
            GoResult::Success
        } else if code == 1 {
            GoResult::Panic
        } else if code == 2 {
            GoResult::BadArgument
        } else if code == 3 {
            GoResult::OutOfGas
        } else {
            GoResult::Other
        }
    }

    /// The failure kind a non-success code stands for.
    pub open spec fn spec_failure(self) -> Option<FfiErrorKind> {
        match self {
            GoResult::Success => None,
            GoResult::Panic => Some(FfiErrorKind::ForeignPanic),
            GoResult::BadArgument => Some(FfiErrorKind::BadArgument),
            GoResult::OutOfGas => Some(FfiErrorKind::OutOfGas),
            GoResult::Other => Some(FfiErrorKind::Unknown),
        }
    }

    pub fn into_ffi_result(self) -> (r: Result<(), FfiError>)
        ensures
            self.spec_failure() is None ==> r is Ok,
            self.spec_failure() matches Some(k) ==> (r matches Err(e) && e@ == (FfiErrorView {
                kind: k,
                msg: None,
            })),
    {
        match self {
            GoResult::Success => Ok(()),
            GoResult::Panic => Err(FfiError::new(FfiErrorKind::ForeignPanic)),
            GoResult::BadArgument => Err(FfiError::new(FfiErrorKind::BadArgument)),
            GoResult::OutOfGas => Err(FfiError::new(FfiErrorKind::OutOfGas)),
            GoResult::Other => Err(FfiError::new(FfiErrorKind::Unknown)),
        }
    }
}

} // verus!
