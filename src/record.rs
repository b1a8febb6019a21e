use vstd::prelude::*;

verus! {

/// Length in bytes of an account address.
pub const ADDRESS_LEN: usize = 32;

/// Length in bytes of a serialized record: two addresses and the payload.
pub const CERTIFICATE_LEN: usize = 872;

/// A 32-byte account address.
pub type Address = [u8; 32];

/// The persisted certificate record: fixed size, no variable-length fields.
#[derive(Clone, Copy, Debug)]
pub struct Certificate {
    pub sender: Address,
    pub owner: Address,
    pub data: [u8; 808],
}

/// The serialized form of a record made of the given fields, in field order.
pub open spec fn layout_of(sender: Address, owner: Address, data: [u8; 808]) -> Seq<u8> {
    sender@ + owner@ + data@
}

impl Certificate {
    /// The record's bytes as they are persisted: `sender`, then `owner`, then `data`.
    pub open spec fn layout(self) -> Seq<u8> {
        layout_of(self.sender, self.owner, self.data)
    }

    /// Builds a record from its three fields.
    pub fn new(sender: Address, owner: Address, data: [u8; 808]) -> (r: Certificate)
        ensures
            r.sender == sender,
            r.owner == owner,
            r.data == data,
    {
        Certificate { sender, owner, data }
    }

    /// Serializes the record into exactly `CERTIFICATE_LEN` bytes.
    pub fn to_bytes(&self) -> (r: Vec<u8>)
        ensures
            r@ == self.layout(),
            r@.len() == CERTIFICATE_LEN,
    {
        let mut out: Vec<u8> = Vec::with_capacity(CERTIFICATE_LEN);
        append_bytes(&mut out, self.sender.as_slice());
        append_bytes(&mut out, self.owner.as_slice());
        append_bytes(&mut out, self.data.as_slice());
        out
    }

    /// Reads a record back from its serialized form; `None` unless the input holds
    /// exactly `CERTIFICATE_LEN` bytes.
    pub fn from_bytes(bytes: &[u8]) -> (r: Option<Certificate>)
        ensures
            r is Some <==> bytes@.len() == CERTIFICATE_LEN,
            r matches Some(c) ==> c.layout() == bytes@,
    {
        if bytes.len() != CERTIFICATE_LEN {
            return None;
        }
        let sender: [u8; 32] = read_array(bytes, 0);
        let owner: [u8; 32] = read_array(bytes, ADDRESS_LEN);
        let data: [u8; 808] = read_array(bytes, 2 * ADDRESS_LEN);
        let c = Certificate { sender, owner, data };
        assert(c.layout() =~= bytes@);
        Some(c)
    }
}

/// Appends every byte of `src` to `out`, in order.
fn append_bytes(out: &mut Vec<u8>, src: &[u8])
    ensures
        final(out)@ == old(out)@ + src@,
{
    let mut i: usize = 0;
    while i < src.len()
        invariant
            i <= src@.len(),
            out@ == old(out)@ + src@.subrange(0, i as int),
        decreases src@.len() - i,
    {
        out.push(src[i]);
        i = i + 1;
        assert(src@.subrange(0, i as int) =~= src@.subrange(0, (i - 1) as int).push(src@[i - 1]));
    }
    assert(src@.subrange(0, src@.len() as int) =~= src@);
}

/// Copies the `N` bytes of `bytes` that start at `start` into an array.
fn read_array<const N: usize>(bytes: &[u8], start: usize) -> (r: [u8; N])
    requires
        start + N <= bytes@.len(),
    ensures
        r@ == bytes@.subrange(start as int, start + N),
{
    let len: usize = bytes.len();
    let mut a: [u8; N] = [0u8; N];
    let mut i: usize = 0;
    while i < N
        invariant
            i <= N,
            len == bytes@.len(),
            start + N <= len,
            a@.len() == N,
            forall|j: int| 0 <= j < i ==> a@[j] == bytes@[start + j],
        decreases N - i,
    {
        a[i] = bytes[start + i];
        i = i + 1;
    }
    assert(a@ =~= bytes@.subrange(start as int, start + N));
    a
}

} // verus!
