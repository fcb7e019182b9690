//! Credential records and a store that keeps at most one record per email.

use vstd::prelude::*;
use crate::error::StoreError;

verus! {

/// A registered user: identity and password hash, never the plaintext.
#[derive(Clone, Debug)]
pub struct CredentialRecord {
    /// Opaque unique identifier, chosen at registration.
    pub user_id: String,
    /// Free-text label; no lookup goes by it.
    pub display_name: String,
    /// The unique key that login looks a record up by.
    pub email: String,
    /// The encoded hash of the password.
    pub password_hash: String,
    /// The instant of creation, in seconds since the epoch.
    pub created_at: u64,
}

/// The mathematical content of a credential record.
pub struct RecordModel {
    pub user_id: Seq<char>,
    pub display_name: Seq<char>,
    pub email: Seq<char>,
    pub password_hash: Seq<char>,
    pub created_at: u64,
}

impl View for CredentialRecord {
    type V = RecordModel;

    open spec fn view(&self) -> RecordModel {
        RecordModel {
            user_id: self.user_id@,
            display_name: self.display_name@,
            email: self.email@,
            password_hash: self.password_hash@,
            created_at: self.created_at,
        }
    }
}

/// Whether some record has this email.
pub open spec fn has_email(records: Seq<RecordModel>, email: Seq<char>) -> bool {
    exists|i: int| 0 <= i < records.len() && (#[trigger] records[i]).email == email
}

/// Whether no two records share an email.
pub open spec fn unique_emails(records: Seq<RecordModel>) -> bool {
    forall|i: int, j: int|
        0 <= i < j < records.len() ==> (#[trigger] records[i]).email != (#[trigger] records[j]).email
}

/// The password hash stored under an email, if a record has that email.
pub open spec fn stored_hash(records: Seq<RecordModel>, email: Seq<char>) -> Option<Seq<char>> {
    if has_email(records, email) {
        let i = choose|i: int| 0 <= i < records.len() && (#[trigger] records[i]).email == email;
        Some(records[i].password_hash)
    } else {
        None
    }
}

/// What creating a record does: a record whose email is taken is refused and
/// changes nothing; any other is appended.
pub open spec fn created(records: Seq<RecordModel>, record: RecordModel) -> (
    Result<(), StoreError>,
    Seq<RecordModel>,
) {
    if has_email(records, record.email) {
        (Err(StoreError::DuplicateEmail), records)
    } else {
        (Ok(()), records.push(record))
    }
}

/// What looking a hash up returns.
pub open spec fn found(records: Seq<RecordModel>, email: Seq<char>) -> Result<Seq<char>, StoreError> {
    match stored_hash(records, email) {
        Some(hash) => Ok(hash),
        None => Err(StoreError::NotFound),
    }
}

/// The view of a lookup's result.
pub open spec fn lookup_view(r: Result<String, StoreError>) -> Result<Seq<char>, StoreError> {
    match r {
        Ok(hash) => Ok(hash@),
        Err(e) => Err(e),
    }
}

/// A credential store held in memory, in order of registration.
pub struct MemoryStore {
    /// The records, oldest first.
    pub records: Vec<CredentialRecord>,
}

impl View for MemoryStore {
    type V = Seq<RecordModel>;

    open spec fn view(&self) -> Seq<RecordModel> {
        Seq::new(self.records@.len(), |i: int| self.records@[i]@)
    }
}

impl MemoryStore {
    /// The store's invariant: at most one record per email.
    pub open spec fn wf(&self) -> bool {
        unique_emails(self@)
    }

    /// An empty store.
    pub fn new() -> (store: MemoryStore)
        ensures
            store@ == Seq::<RecordModel>::empty(),
            store.wf(),
    {
        let store = MemoryStore { records: Vec::new() };
        assert(store@ =~= Seq::<RecordModel>::empty());
        store
    }

    /// The number of records.
    pub fn len(&self) -> (n: usize)
        ensures
            n == self@.len(),
    {
        self.records.len()
    }

    /// The position of the first record with this email, if there is one.
    fn position(&self, email: &String) -> (r: Option<usize>)
        ensures
            match r {
                Some(i) => i < self@.len() && self@[i as int].email == email@,
                None => !has_email(self@, email@),
            },
    {
        let mut i: usize = 0;
        while i < self.records.len()
            invariant
                i <= self.records.len(),
                forall|k: int| 0 <= k < i ==> (#[trigger] self@[k]).email != email@,
            decreases self.records.len() - i,
        {
            if self.records[i].email == *email {
                return Some(i);
            }
            i += 1;
        }
        None
    }

    /// Persists a new record, unless its email is taken.
    pub fn create(&mut self, record: CredentialRecord) -> (r: Result<(), StoreError>)
        requires
            old(self).wf(),
        ensures
            (r, final(self)@) == created(old(self)@, record@),
            final(self).wf(),
            has_email(final(self)@, record@.email),
    {
        match self.position(&record.email) {
            Some(_) => Err(StoreError::DuplicateEmail),
            None => {
                let ghost before = self@;
                self.records.push(record);
                proof {
                    assert(self@ =~= before.push(record@));
                    assert(self@[before.len() as int].email == record@.email);
                }
                Ok(())
            },
        }
    }

    /// Fetches the password hash stored under an email.
    pub fn find_hash_by_email(&self, email: &str) -> (r: Result<String, StoreError>)
        requires
            self.wf(),
        ensures
            lookup_view(r) == found(self@, email@),
    {
        let key = email.to_owned();
        match self.position(&key) {
            Some(i) => {
                Ok(self.records[i].password_hash.clone())
            },
            None => Err(StoreError::NotFound),
        }
    }
}

/// Of two registrations of one email, one after the other, the second is
/// refused as a duplicate whatever became of the first, and the first succeeds
/// where the email was free: never two successes.
pub proof fn lemma_one_email_one_success(
    records: Seq<RecordModel>,
    first: RecordModel,
    second: RecordModel,
)
    requires
        unique_emails(records),
        first.email == second.email,
    ensures
        created(created(records, first).1, second).0 == Err::<(), StoreError>(
            StoreError::DuplicateEmail,
        ),
        created(created(records, first).1, second).1 == created(records, first).1,
        !has_email(records, first.email) ==> created(records, first).0 == Ok::<(), StoreError>(()),
        unique_emails(created(records, first).1),
{
    let after = created(records, first).1;
    if !has_email(records, first.email) {
        assert(after[records.len() as int].email == second.email);
    }
}

} // verus!
