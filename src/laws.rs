use vstd::prelude::*;
use crate::record::{layout_of, Address, Certificate, CERTIFICATE_LEN};
use crate::view::{loaded, LoadedCertificate};

verus! {

/// Loading a record and storing the view back with no change in between leaves the
/// record as it was, byte for byte.
pub proof fn lemma_load_store_round_trip(r: Certificate)
    ensures
        loaded(r).written_back().account == r,
        loaded(r).written_back().account.layout() == r.layout(),
{
}

/// Storing a view writes exactly its `sender`, `owner` and `data` into the record:
/// the record's bytes are those of the view's fields and nothing else, and the
/// view's working fields are left as they were.
pub proof fn lemma_store_copies_fields(v: LoadedCertificate)
    ensures
        v.written_back().account.sender == v.sender,
        v.written_back().account.owner == v.owner,
        v.written_back().account.data == v.data,
        v.written_back().account.layout() == layout_of(v.sender, v.owner, v.data),
        v.written_back().staged() == v.staged(),
{
}

/// Initializing a view and storing it yields a record that holds the sender's
/// address, the owner's address and the payload, whatever the payload's bytes.
pub proof fn lemma_init_then_store(
    cert: LoadedCertificate,
    sender: Address,
    owner: Address,
    data: [u8; 808],
)
    ensures
        cert.with_fields(sender, owner, data).written_back().account.sender == sender,
        cert.with_fields(sender, owner, data).written_back().account.owner == owner,
        cert.with_fields(sender, owner, data).written_back().account.data == data,
{
}

/// Every record serializes to exactly `CERTIFICATE_LEN` bytes, whatever its fields hold.
pub proof fn lemma_layout_fixed_size(r: Certificate)
    ensures
        r.layout().len() == CERTIFICATE_LEN,
{
}

/// Two records with the same bytes are the same record.
pub proof fn lemma_layout_injective(a: Certificate, b: Certificate)
    requires
        a.layout() == b.layout(),
    ensures
        a == b,
{
    assert(a.sender@ =~= a.layout().subrange(0, 32));
    assert(b.sender@ =~= b.layout().subrange(0, 32));
    assert(a.owner@ =~= a.layout().subrange(32, 64));
    assert(b.owner@ =~= b.layout().subrange(32, 64));
    assert(a.data@ =~= a.layout().subrange(64, 872));
    assert(b.data@ =~= b.layout().subrange(64, 872));
    assert(a.sender =~= b.sender);
    assert(a.owner =~= b.owner);
    assert(a.data =~= b.data);
}

/// Storing a view twice in a row, with no change in between, gives the same view and
/// record as storing it once.
pub proof fn lemma_store_idempotent(v: LoadedCertificate)
    ensures
        v.written_back().written_back() == v.written_back(),
{
}

} // verus!
