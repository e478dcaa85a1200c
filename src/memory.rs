use vstd::prelude::*;
use vstd::slice::slice_to_vec;

verus! {

/// Who is responsible for releasing the bytes a [`Buffer`] describes.
#[derive(Clone, Copy, Debug, PartialEq, Eq, Structural)]
pub enum Ownership {
    /// Memory of the foreign caller: read-only here and never released here.
    BorrowedByCaller,
    /// Memory allocated on this side whose ownership passes to the caller,
    /// who releases it exactly once through [`free_rust`].
    OwnedByNative,
}

/// What a buffer describes: its bytes (absent for the empty sentinel) and
/// who owns them.
pub struct BufferView {
    pub bytes: Option<Seq<u8>>,
    pub owner: Ownership,
}

/// The empty/null sentinel.
pub open spec fn empty_buffer() -> BufferView {
    BufferView { bytes: None, owner: Ownership::OwnedByNative }
}

/// A native-owned buffer holding `data`.
pub open spec fn native_buffer(data: Seq<u8>) -> BufferView {
    BufferView { bytes: Some(data), owner: Ownership::OwnedByNative }
}

/// A caller-owned buffer holding `data`.
pub open spec fn caller_buffer(data: Seq<u8>) -> BufferView {
    BufferView { bytes: Some(data), owner: Ownership::BorrowedByCaller }
}

/// What reading a buffer yields.
pub open spec fn read_view(b: BufferView) -> Option<Seq<u8>> {
    b.bytes
}

/// A length-prefixed byte range handed across the boundary, or the empty
/// sentinel. Moving a buffer moves its ownership, so a buffer can be released
/// only once.
pub struct Buffer {
    data: Option<Vec<u8>>,
    owner: Ownership,
}

impl View for Buffer {
    type V = BufferView;

    closed spec fn view(&self) -> BufferView {
        BufferView {
            bytes: match self.data {
                Some(v) => Some(v@),
                None => None,
            },
            owner: self.owner,
        }
    }
}

impl Buffer {
    /// The empty sentinel: reading it yields no data.
    pub fn empty() -> (r: Buffer)
        ensures
            r@ == empty_buffer(),
    {
        Buffer { data: None, owner: Ownership::OwnedByNative }
    }

    /// Takes ownership of `v`; the caller must later release the buffer.
    pub fn from_vec(v: Vec<u8>) -> (r: Buffer)
        ensures
            r@ == native_buffer(v@),
    {
        Buffer { data: Some(v), owner: Ownership::OwnedByNative }
    }

    /// Copies `data` into a new native-owned buffer.
    pub fn from_bytes(data: &[u8]) -> (r: Buffer)
        ensures
            r@ == native_buffer(data@),
    {
        Buffer::from_vec(slice_to_vec(data))
    }

    /// Describes bytes that belong to the caller.
    pub fn from_caller(data: Vec<u8>) -> (r: Buffer)
        ensures
            r@ == caller_buffer(data@),
    {
        Buffer { data: Some(data), owner: Ownership::BorrowedByCaller }
    }

    /// Who owns the described bytes.
    pub fn ownership(&self) -> (r: Ownership)
        ensures
            r == self@.owner,
    {
        self.owner
    }

    /// Whether this is the empty sentinel.
    pub fn is_empty(&self) -> (r: bool)
        ensures
            r == (self@.bytes is None),
    {
        self.data.is_none()
    }

    /// Borrows the bytes, or yields `None` for the empty sentinel.
    pub fn read(&self) -> (r: Option<&[u8]>)
        ensures
            r is Some == (read_view(self@) is Some),
            r matches Some(s) ==> read_view(self@) == Some(s@),
    {
        match &self.data {
            Some(v) => Some(v.as_slice()),
            None => None,
        }
    }

    /// Takes the bytes out of the buffer; the empty sentinel gives no bytes.
    pub fn consume(self) -> (r: Vec<u8>)
        ensures
            read_view(self@) matches Some(d) ==> r@ == d,
            read_view(self@) is None ==> r@.len() == 0,
    {
        match self.data {
            Some(v) => v,
            None => Vec::new(),
        }
    }
}

impl Default for Buffer {
    fn default() -> (r: Buffer)
        ensures
            r@ == empty_buffer(),
    {
        Buffer::empty()
    }
}

/// Releases a buffer that this side handed to the caller. The buffer is
/// taken by value, so the same buffer cannot be released twice.
pub fn free_rust(buf: Buffer)
    requires
        buf@.owner == Ownership::OwnedByNative,
{
    let _ = buf.consume();
}

/// Bytes put into a buffer read back unchanged, and the empty sentinel reads
/// as absent.
pub proof fn lemma_buffer_round_trip(data: Seq<u8>)
    ensures
        read_view(native_buffer(data)) == Some(data),
        read_view(caller_buffer(data)) == Some(data),
        read_view(empty_buffer()) is None,
{
}

} // verus!
