//! The registration and login flows: each request passes once through
//! validation, the hasher, the store and the token issuer, and every failure
//! leaves as one of four classes with a fixed reply.

use vstd::prelude::*;
use crate::error::{Failure, HashError, StoreError};
use crate::password::{argon2_accepts, hash, hash_result_view, is_hash_of, verify};
use crate::store::{
    created, found, has_email, lookup_view, unique_emails, CredentialRecord, MemoryStore, RecordModel,
};
use crate::token::{issued, opens_to, TokenConfig};

verus! {

/// A registration request.
pub struct UserRegister {
    pub name: String,
    pub email: String,
    pub password: String,
}

/// A login request.
pub struct UserLogin {
    pub email: String,
    pub password: String,
}

/// What goes back to the caller: a status code and a body.
#[derive(Clone, Debug)]
pub struct Response {
    pub status: u16,
    pub body: String,
}

impl View for Response {
    type V = (u16, Seq<char>);

    open spec fn view(&self) -> (u16, Seq<char>) {
        (self.status, self.body@)
    }
}

/// The bytes of a password as the hasher sees them.
pub open spec fn password_bytes(password: Seq<char>) -> Seq<u8> {
    vstd::utf8::encode_utf8(password)
}

/// Whether a registration request has all three fields.
pub open spec fn registration_complete(name: Seq<char>, email: Seq<char>, password: Seq<char>) -> bool {
    name.len() > 0 && email.len() > 0 && password.len() > 0
}

/// Whether a login request has both fields.
pub open spec fn login_complete(email: Seq<char>, password: Seq<char>) -> bool {
    email.len() > 0 && password.len() > 0
}

/// The reply to each class of failure. It depends on the class alone.
pub open spec fn failure_reply(failure: Failure) -> (u16, Seq<char>) {
    match failure {
        Failure::BadRequest => (400u16, "Missing required field"@),
        Failure::Conflict => (409u16, "Email already registered"@),
        Failure::Unauthorized => (401u16, "Invalid email or password"@),
        Failure::Internal => (500u16, "Internal server error"@),
    }
}

/// The reply to a registration.
pub open spec fn registration_reply(outcome: Result<(), Failure>) -> (u16, Seq<char>) {
    match outcome {
        Ok(_) => (200u16, "User registered successfully"@),
        Err(failure) => failure_reply(failure),
    }
}

/// The reply to a login: the token itself on success.
pub open spec fn login_reply(outcome: Result<Seq<char>, Failure>) -> (u16, Seq<char>) {
    match outcome {
        Ok(token) => (200u16, token),
        Err(failure) => failure_reply(failure),
    }
}

/// How a registration ends, given what the store answered.
pub open spec fn registration_outcome(stored: Result<(), StoreError>) -> Result<(), Failure> {
    match stored {
        Ok(_) => Ok(()),
        Err(StoreError::DuplicateEmail) => Err(Failure::Conflict),
        Err(_) => Err(Failure::Internal),
    }
}

/// The record that a registration persists, given what the hasher answered.
pub open spec fn record_for(
    name: Seq<char>,
    email: Seq<char>,
    user_id: Seq<char>,
    now: u64,
    hashed: Result<Seq<char>, HashError>,
) -> Result<RecordModel, Failure> {
    match hashed {
        Ok(encoded) => Ok(
            RecordModel {
                user_id,
                display_name: name,
                email,
                password_hash: encoded,
                created_at: now,
            },
        ),
        Err(_) => Err(Failure::Internal),
    }
}

/// What persisting a validated registration does to the reply and to the
/// records, given what the hasher answered: without a hash nothing is stored.
pub open spec fn persisted(
    name: Seq<char>,
    email: Seq<char>,
    user_id: Seq<char>,
    now: u64,
    hashed: Result<Seq<char>, HashError>,
    records: Seq<RecordModel>,
) -> ((u16, Seq<char>), Seq<RecordModel>) {
    match record_for(name, email, user_id, now, hashed) {
        Ok(record) => (
            registration_reply(registration_outcome(created(records, record).0)),
            created(records, record).1,
        ),
        Err(failure) => (failure_reply(failure), records),
    }
}

/// How a login ends, given what the store answered to the lookup. An unknown
/// email and a wrong password end alike.
pub open spec fn login_outcome(
    secret: Seq<u8>,
    ttl: u64,
    email: Seq<char>,
    password: Seq<char>,
    lookup: Result<Seq<char>, StoreError>,
    now: u64,
) -> Result<Seq<char>, Failure> {
    match lookup {
        Err(StoreError::NotFound) => Err(Failure::Unauthorized),
        Err(_) => Err(Failure::Internal),
        Ok(stored) => if argon2_accepts(password_bytes(password), stored) {
            match issued(email, now, ttl, secret) {
                Ok(token) => Ok(token),
                Err(_) => Err(Failure::Internal),
            }
        } else {
            Err(Failure::Unauthorized)
        },
    }
}

/// A whole login against a store: validation first, then lookup, check and issue.
pub open spec fn login_flow(
    secret: Seq<u8>,
    ttl: u64,
    email: Seq<char>,
    password: Seq<char>,
    records: Seq<RecordModel>,
    now: u64,
) -> Result<Seq<char>, Failure> {
    if login_complete(email, password) {
        login_outcome(secret, ttl, email, password, found(records, email), now)
    } else {
        Err(Failure::BadRequest)
    }
}

/// The view of a result that carries a record.
pub open spec fn record_view(r: Result<CredentialRecord, Failure>) -> Result<RecordModel, Failure> {
    match r {
        Ok(record) => Ok(record@),
        Err(e) => Err(e),
    }
}

/// The view of a login's outcome.
pub open spec fn outcome_view(r: Result<String, Failure>) -> Result<Seq<char>, Failure> {
    match r {
        Ok(token) => Ok(token@),
        Err(e) => Err(e),
    }
}

/// The reply to a failure.
pub fn failure_response(failure: Failure) -> (resp: Response)
    ensures
        resp@ == failure_reply(failure),
{
    match failure {
        Failure::BadRequest => Response { status: 400, body: "Missing required field".to_owned() },
        Failure::Conflict => Response { status: 409, body: "Email already registered".to_owned() },
        Failure::Unauthorized => Response {
            status: 401,
            body: "Invalid email or password".to_owned(),
        },
        Failure::Internal => Response { status: 500, body: "Internal server error".to_owned() },
    }
}

/// The reply to a registration. No token is issued at registration.
pub fn registration_response(outcome: Result<(), Failure>) -> (resp: Response)
    ensures
        resp@ == registration_reply(outcome),
{
    match outcome {
        Ok(_) => Response { status: 200, body: "User registered successfully".to_owned() },
        Err(failure) => failure_response(failure),
    }
}

/// The reply to a login.
pub fn login_response(outcome: Result<String, Failure>) -> (resp: Response)
    ensures
        resp@ == login_reply(outcome_view(outcome)),
{
    match outcome {
        Ok(token) => Response { status: 200, body: token },
        Err(failure) => failure_response(failure),
    }
}

/// Accepts a registration request that has a name, an email and a password.
pub fn validate_registration(info: &UserRegister) -> (r: Result<(), Failure>)
    ensures
        r == (if registration_complete(info.name@, info.email@, info.password@) {
            Ok::<(), Failure>(())
        } else {
            Err::<(), Failure>(Failure::BadRequest)
        }),
{
    if info.name.as_str().is_empty() || info.email.as_str().is_empty()
        || info.password.as_str().is_empty() {
        Err(Failure::BadRequest)
    } else {
        Ok(())
    }
}

/// Accepts a login request that has an email and a password.
pub fn validate_login(info: &UserLogin) -> (r: Result<(), Failure>)
    ensures
        r == (if login_complete(info.email@, info.password@) {
            Ok::<(), Failure>(())
        } else {
            Err::<(), Failure>(Failure::BadRequest)
        }),
{
    if info.email.as_str().is_empty() || info.password.as_str().is_empty() {
        Err(Failure::BadRequest)
    } else {
        Ok(())
    }
}

/// Builds the record to persist from a validated request and the hasher's answer.
pub fn record_from_hash(
    info: &UserRegister,
    user_id: String,
    now: u64,
    hashed: Result<String, HashError>,
) -> (r: Result<CredentialRecord, Failure>)
    ensures
        record_view(r) == record_for(info.name@, info.email@, user_id@, now, hash_result_view(hashed)),
{
    match hashed {
        Ok(encoded) => Ok(
            CredentialRecord {
                user_id,
                display_name: info.name.clone(),
                email: info.email.clone(),
                password_hash: encoded,
                created_at: now,
            },
        ),
        Err(_) => Err(Failure::Internal),
    }
}

/// The first half of a registration: validates the request and hashes the
/// password under a fresh salt. An incomplete request is a bad request; a
/// complete one gives the record to persist, whose hash verifies the password,
/// or fails as internal where the hasher failed.
pub fn prepare_registration(info: &UserRegister, user_id: String, now: u64) -> (r: Result<
    CredentialRecord,
    Failure,
>)
    ensures
        !registration_complete(info.name@, info.email@, info.password@) ==> r is Err
            && r->Err_0 == Failure::BadRequest,
        registration_complete(info.name@, info.email@, info.password@) ==> match r {
            Ok(record) => record_for(
                info.name@,
                info.email@,
                user_id@,
                now,
                Ok(record@.password_hash),
            ) == Ok::<RecordModel, Failure>(record@) && is_hash_of(
                password_bytes(info.password@),
                record@.password_hash,
            ) && argon2_accepts(password_bytes(info.password@), record@.password_hash),
            Err(e) => e == Failure::Internal,
        },
{
    match validate_registration(info) {
        Err(e) => Err(e),
        Ok(_) => {
            let hashed = hash(info.password.as_str().as_bytes());
            record_from_hash(info, user_id, now, hashed)
        },
    }
}

/// The second half of a registration: a duplicate email is a conflict, any
/// other refusal of the store is internal.
pub fn conclude_registration(stored: Result<(), StoreError>) -> (r: Result<(), Failure>)
    ensures
        r == registration_outcome(stored),
{
    match stored {
        Ok(_) => Ok(()),
        Err(StoreError::DuplicateEmail) => Err(Failure::Conflict),
        Err(_) => Err(Failure::Internal),
    }
}

/// The second half of a login, after the lookup: checks the password against
/// the stored hash and issues the token.
pub fn conclude_login(
    cfg: &TokenConfig,
    info: &UserLogin,
    lookup: Result<String, StoreError>,
    now: u64,
) -> (r: Result<String, Failure>)
    requires
        now + cfg.ttl <= u64::MAX,
    ensures
        outcome_view(r) == login_outcome(
            cfg.secret@,
            cfg.ttl,
            info.email@,
            info.password@,
            lookup_view(lookup),
            now,
        ),
        r matches Ok(token) ==> opens_to(
            token@,
            cfg.secret@,
            info.email@,
            (now + cfg.ttl) as u64,
        ),
{
    match lookup {
        Err(StoreError::NotFound) => Err(Failure::Unauthorized),
        Err(_) => Err(Failure::Internal),
        Ok(stored) => {
            if verify(info.password.as_str().as_bytes(), stored.as_str()) {
                match cfg.create_jwt(info.email.as_str(), now) {
                    Ok(token) => Ok(token),
                    Err(_) => Err(Failure::Internal),
                }
            } else {
                Err(Failure::Unauthorized)
            }
        },
    }
}

/// The second half of a registration against a store in memory: builds the
/// record from the hasher's answer and persists it.
pub fn persist_registration(
    store: &mut MemoryStore,
    info: &UserRegister,
    user_id: String,
    now: u64,
    hashed: Result<String, HashError>,
) -> (resp: Response)
    requires
        old(store).wf(),
    ensures
        final(store).wf(),
        (resp@, final(store)@) == persisted(
            info.name@,
            info.email@,
            user_id@,
            now,
            hash_result_view(hashed),
            old(store)@,
        ),
        hashed is Ok ==> has_email(final(store)@, info.email@),
{
    match record_from_hash(info, user_id, now, hashed) {
        Err(e) => failure_response(e),
        Ok(record) => {
            let stored = store.create(record);
            registration_response(conclude_registration(stored))
        },
    }
}

/// Registers a user in a store: validates, hashes, persists. The store
/// changes only on success, by the one new record.
pub fn register(store: &mut MemoryStore, info: &UserRegister, user_id: String, now: u64) -> (resp:
    Response)
    requires
        old(store).wf(),
    ensures
        final(store).wf(),
        !registration_complete(info.name@, info.email@, info.password@) ==> resp@ == failure_reply(
            Failure::BadRequest,
        ) && final(store)@ == old(store)@,
        registration_complete(info.name@, info.email@, info.password@) ==> exists|
            hashed: Result<Seq<char>, HashError>,
        |
            (resp@, final(store)@) == #[trigger] persisted(
                info.name@,
                info.email@,
                user_id@,
                now,
                hashed,
                old(store)@,
            ) && (hashed matches Ok(encoded) ==> is_hash_of(
                password_bytes(info.password@),
                encoded,
            ) && argon2_accepts(password_bytes(info.password@), encoded)),
        resp.status == 200 ==> has_email(final(store)@, info.email@),
        resp.status == 200 ==> !has_email(old(store)@, info.email@) && final(store)@ == old(
            store,
        )@.push(final(store)@.last()) && final(store)@.last().email == info.email@
            && argon2_accepts(password_bytes(info.password@), final(store)@.last().password_hash),
        resp.status != 200 ==> final(store)@ == old(store)@,
        has_email(old(store)@, info.email@) ==> resp.status != 200,
{
    match validate_registration(info) {
        Err(e) => failure_response(e),
        Ok(_) => {
            let hashed = hash(info.password.as_str().as_bytes());
            let ghost before = store@;
            let resp = persist_registration(store, info, user_id, now, hashed);
            proof {
                if resp.status == 200 {
                    assert(store@ =~= before.push(store@.last()));
                }
            }
            resp
        },
    }
}

/// Logs a user in against a store: validates, looks the hash up, checks the
/// password and issues the token.
pub fn login(store: &MemoryStore, cfg: &TokenConfig, info: &UserLogin, now: u64) -> (resp: Response)
    requires
        store.wf(),
        now + cfg.ttl <= u64::MAX,
    ensures
        resp@ == login_reply(
            login_flow(cfg.secret@, cfg.ttl, info.email@, info.password@, store@, now),
        ),
        resp.status == 200 ==> opens_to(
            resp.body@,
            cfg.secret@,
            info.email@,
            (now + cfg.ttl) as u64,
        ),
{
    match validate_login(info) {
        Err(e) => failure_response(e),
        Ok(_) => {
            let lookup = store.find_hash_by_email(info.email.as_str());
            login_response(conclude_login(cfg, info, lookup, now))
        },
    }
}

/// A login with an email that no record has and a login with a wrong password
/// get the same reply, status and body, whatever the two requests hold.
pub proof fn lemma_login_failures_alike(
    secret: Seq<u8>,
    ttl: u64,
    now: u64,
    unknown_email: Seq<char>,
    any_password: Seq<char>,
    known_email: Seq<char>,
    wrong_password: Seq<char>,
    stored: Seq<char>,
)
    requires
        !argon2_accepts(password_bytes(wrong_password), stored),
    ensures
        login_reply(
            login_outcome(secret, ttl, unknown_email, any_password, Err(StoreError::NotFound), now),
        ) == login_reply(
            login_outcome(secret, ttl, known_email, wrong_password, Ok(stored), now),
        ),
        login_reply(
            login_outcome(secret, ttl, unknown_email, any_password, Err(StoreError::NotFound), now),
        ) == failure_reply(Failure::Unauthorized),
{
}

/// Once a record is stored whose hash verifies a password, a login with the
/// record's email and that password is never refused as unauthorized: it ends
/// as the token issuer ends.
pub proof fn lemma_registered_password_logs_in(
    records: Seq<RecordModel>,
    record: RecordModel,
    password: Seq<char>,
    secret: Seq<u8>,
    ttl: u64,
    now: u64,
)
    requires
        unique_emails(records),
        !has_email(records, record.email),
        login_complete(record.email, password),
        argon2_accepts(password_bytes(password), record.password_hash),
    ensures
        found(records.push(record), record.email) == Ok::<Seq<char>, StoreError>(
            record.password_hash,
        ),
        login_flow(secret, ttl, record.email, password, records.push(record), now) == (match issued(
            record.email,
            now,
            ttl,
            secret,
        ) {
            Ok(token) => Ok::<Seq<char>, Failure>(token),
            Err(_) => Err::<Seq<char>, Failure>(Failure::Internal),
        }),
{
    let after = records.push(record);
    let last = records.len() as int;
    assert(after[last].email == record.email);
    assert(has_email(after, record.email));
    let k = choose|i: int| 0 <= i < after.len() && (#[trigger] after[i]).email == record.email;
    if k != last {
        assert(after[k] == records[k]);
        assert(has_email(records, record.email));
    }
}

} // verus!
