use vstd::prelude::*;
use crate::record::{Address, Certificate};

verus! {

/// A mutable view of a record: working copies of its fields, staged until
/// `Certificate::store` writes them back into `account`, the record the view was
/// loaded from and which it holds exclusively for its lifetime.
#[derive(Clone, Copy, Debug)]
pub struct LoadedCertificate {
    pub account: Certificate,
    pub sender: Address,
    pub owner: Address,
    pub data: [u8; 808],
}

/// The view that `Certificate::load` makes of `r`.
pub open spec fn loaded(r: Certificate) -> LoadedCertificate {
    LoadedCertificate { account: r, sender: r.sender, owner: r.owner, data: r.data }
}

impl LoadedCertificate {
    /// The record that the view's current fields describe.
    pub open spec fn staged(self) -> Certificate {
        Certificate { sender: self.sender, owner: self.owner, data: self.data }
    }

    /// The view after its fields have been written back into its record.
    pub open spec fn written_back(self) -> LoadedCertificate {
        LoadedCertificate {
            account: self.staged(),
            sender: self.sender,
            owner: self.owner,
            data: self.data,
        }
    }

    /// The view with its working fields replaced; the record is left as it is.
    pub open spec fn with_fields(self, sender: Address, owner: Address, data: [u8; 808]) -> LoadedCertificate {
        LoadedCertificate { account: self.account, sender, owner, data }
    }
}

impl Certificate {
    /// Opens a view of `account` whose working fields are copies of the record's.
    pub fn load(account: Certificate) -> (r: LoadedCertificate)
        ensures
            r == loaded(account),
    {
        let sender = account.sender;
        let owner = account.owner;
        let data = account.data;
        LoadedCertificate { account, sender, owner, data }
    }

    /// Writes the view's `sender`, `owner` and `data` back into its record, all
    /// three unconditionally; the working fields stay as they are.
    pub fn store(loaded: &mut LoadedCertificate)
        ensures
            *final(loaded) == old(loaded).written_back(),
    {
        let sender = loaded.sender;
        loaded.account.sender = sender;
        let owner = loaded.owner;
        loaded.account.owner = owner;
        let data = loaded.data;
        loaded.account.data = data;
    }
}

/// Fills a freshly created certificate's view: `sender` and `owner` take the given
/// addresses and `data` the payload. The payer and the seed serve the host's account
/// creation and address derivation only; the record itself changes on `store`.
pub fn init_certificate_handler(
    payer: Address,
    sender: Address,
    owner: Address,
    cert: &mut LoadedCertificate,
    seed_8: u64,
    data: [u8; 808],
)
    ensures
        *final(cert) == old(cert).with_fields(sender, owner, data),
{
    cert.sender = sender;
    cert.owner = owner;
    cert.data = data;
}

} // verus!
