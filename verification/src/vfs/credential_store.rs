//! Credentials, such as passphrases, that back-ends try when they open encrypted data.

use vstd::prelude::*;

use crate::bytes::copy_bytes;

verus! {

/// Credential.
pub enum VfsCredential {
    /// Passphrase.
    Passphrase(Vec<u8>),
}

/// Model of a credential.
pub ghost enum CredentialView {
    Passphrase(Seq<u8>),
}

impl View for VfsCredential {
    type V = CredentialView;

    open spec fn view(&self) -> CredentialView {
        match self {
            VfsCredential::Passphrase(passphrase) => CredentialView::Passphrase(passphrase@),
        }
    }
}

/// Models of a sequence of credentials.
pub open spec fn credential_views(credentials: Seq<VfsCredential>) -> Seq<CredentialView> {
    credentials.map_values(|credential: VfsCredential| credential@)
}

/// Copy of a credential.
fn copy_credential(credential: &VfsCredential) -> (copy: VfsCredential)
    ensures
        copy@ == credential@,
{
    match credential {
        VfsCredential::Passphrase(passphrase) => VfsCredential::Passphrase(
            copy_bytes(passphrase.as_slice()),
        ),
    }
}

/// Store of credentials, in the order they were added.
pub struct VfsCredentialStore {
    credentials: Vec<VfsCredential>,
}

impl View for VfsCredentialStore {
    type V = Seq<CredentialView>;

    closed spec fn view(&self) -> Seq<CredentialView> {
        credential_views(self.credentials@)
    }
}

impl VfsCredentialStore {
    /// Creates an empty store.
    pub fn new() -> (store: Self)
        ensures
            store@ == Seq::<CredentialView>::empty(),
    {
        let store: VfsCredentialStore = VfsCredentialStore { credentials: Vec::new() };
        assert(store@ =~= Seq::<CredentialView>::empty());
        store
    }

    /// Adds a passphrase.
    pub fn add_passphrase(&mut self, password: &[u8])
        ensures
            final(self)@ == old(self)@.push(CredentialView::Passphrase(password@)),
    {
        self.credentials.push(VfsCredential::Passphrase(copy_bytes(password)));
        assert(self@ =~= old(self)@.push(CredentialView::Passphrase(password@)));
    }

    /// Retrieves copies of the credentials, in the order they were added.
    pub fn iter(&self) -> (credentials: Vec<VfsCredential>)
        ensures
            credential_views(credentials@) == self@,
    {
        let mut credentials: Vec<VfsCredential> = Vec::new();
        let mut index: usize = 0;
        while index < self.credentials.len()
            invariant
                index <= self.credentials.len(),
                credentials@.len() == index,
                credential_views(credentials@) =~= credential_views(
                    self.credentials@,
                ).take(index as int),
            decreases self.credentials.len() - index,
        {
            let credential: VfsCredential = copy_credential(&self.credentials[index]);
            credentials.push(credential);
            index += 1;
            assert(credential_views(credentials@) =~= credential_views(self.credentials@).take(
                index as int,
            ));
        }
        assert(credential_views(self.credentials@).take(index as int) =~= credential_views(
            self.credentials@,
        ));
        credentials
    }
}

} // verus!
