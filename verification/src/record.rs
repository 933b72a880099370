//! The lifecycle record persisted between invocations, and the generation
//! of the fresh random identities planted with it.

use vstd::prelude::*;

verus! {

use crate::codec::subvec;
use fake::Fake;

/// Mathematical view of a lifecycle record: every field as a byte sequence.
pub ghost struct NotebookUserView {
    pub username: Seq<u8>,
    pub password: Seq<u8>,
    pub note_id: Option<Seq<u8>>,
    pub note: Option<Seq<u8>>,
    pub task_chain_id: Seq<u8>,
}

/// The record planted by one lifecycle instance and recalled later: the
/// generated identity, the stored content and the identifier the target
/// returned for it, keyed by the correlation id (`task_chain_id`) of the
/// lifecycle. `note_id` and `note` are absent until a store-content exchange
/// succeeded, and are never overwritten afterwards: a recall phase only reads
/// them for comparison.
#[derive(Debug)]
pub struct NotebookUser {
    pub username: Vec<u8>,
    pub password: Vec<u8>,
    pub note_id: Option<Vec<u8>>,
    pub note: Option<Vec<u8>>,
    pub task_chain_id: Vec<u8>,
}

impl View for NotebookUser {
    type V = NotebookUserView;

    open spec fn view(&self) -> NotebookUserView {
        NotebookUserView {
            username: self.username@,
            password: self.password@,
            note_id: match self.note_id {
                Some(v) => Some(v@),
                None => None,
            },
            note: match self.note {
                Some(v) => Some(v@),
                None => None,
            },
            task_chain_id: self.task_chain_id@,
        }
    }
}

impl NotebookUserView {
    /// A record is planted once it carries both the content and the
    /// identifier the target returned for it.
    pub open spec fn planted(self) -> bool {
        self.note_id is Some && self.note is Some
    }
}

/// A byte of the password alphabet: an ASCII digit or letter.
pub open spec fn is_alnum_byte(b: u8) -> bool {
    ||| 48 <= b <= 57
    ||| 65 <= b <= 90
    ||| 97 <= b <= 122
}

/// Relies on rand::random, seeded from the thread-local generator. Nothing
/// can be promised of the drawn value.
pub assume_specification<T>[ rand::random::<T> ]() -> (r: T)
    where
        rand::distributions::Standard: rand::distributions::Distribution<T>,
;

/// Relies on fake's FreeEmail faker: an arbitrary generated e-mail address.
/// Nothing is promised of the drawn value.
#[verifier::external_body]
fn fake_free_email() -> Vec<u8> {
    fake::faker::internet::en::FreeEmail().fake::<String>().into_bytes()
}

/// Relies on fake's SafeEmail faker: an arbitrary generated e-mail address
/// under an example.* domain. Nothing is promised of the drawn value.
#[verifier::external_body]
fn fake_safe_email() -> Vec<u8> {
    fake::faker::internet::en::SafeEmail().fake::<String>().into_bytes()
}

/// Relies on fake's Username faker: an arbitrary generated user name.
/// Nothing is promised of the drawn value.
#[verifier::external_body]
fn fake_username() -> Vec<u8> {
    fake::faker::internet::en::Username().fake::<String>().into_bytes()
}

/// Relies on fake's Password faker: it samples a length from the given range
/// and that many characters from the locale's password alphabet, which for
/// this locale holds exactly the ASCII digits and letters.
#[verifier::external_body]
fn fake_password() -> (r: Vec<u8>)
    ensures
        12 <= r@.len() < 24,
        forall|i: int| 0 <= i < r@.len() ==> is_alnum_byte(r@[i]),
{
    fake::faker::internet::en::Password(12..24).fake::<String>().into_bytes()
}

/// Copy of a byte string.
pub fn copy_bytes(v: &Vec<u8>) -> (r: Vec<u8>)
    ensures
        r@ == v@,
{
    let r = subvec(v, 0, v.len());
    proof {
        assert(v@.subrange(0, v@.len() as int) =~= v@);
    }
    r
}

/// Copy of an optional byte string.
pub fn copy_opt_bytes(v: &Option<Vec<u8>>) -> (r: Option<Vec<u8>>)
    ensures
        match r {
            Some(b) => v matches Some(o) && b@ == o@,
            None => v is None,
        },
{
    match v {
        Some(b) => Some(copy_bytes(b)),
        None => None,
    }
}

impl NotebookUser {
    /// A fresh identity for one lifecycle instance: an arbitrary generated
    /// user name or e-mail address and a generated password, no content yet,
    /// keyed by the given correlation id.
    pub fn gen_random(id: Vec<u8>) -> (r: Self)
        ensures
            r@.task_chain_id == id@,
            r@.note_id is None,
            r@.note is None,
            12 <= r@.password.len() < 24,
            forall|i: int| 0 <= i < r@.password.len() ==> is_alnum_byte(r@.password[i]),
    {
        let username = if rand::random::<bool>() {
            if rand::random::<bool>() {
                fake_free_email()
            } else {
                fake_safe_email()
            }
        } else {
            fake_username()
        };
        NotebookUser {
            username,
            password: fake_password(),
            note_id: None,
            note: None,
            task_chain_id: id,
        }
    }

    /// A field-for-field copy of the record.
    pub fn duplicate(&self) -> (r: Self)
        ensures
            r@ == self@,
    {
        NotebookUser {
            username: copy_bytes(&self.username),
            password: copy_bytes(&self.password),
            note_id: copy_opt_bytes(&self.note_id),
            note: copy_opt_bytes(&self.note),
            task_chain_id: copy_bytes(&self.task_chain_id),
        }
    }
}

} // verus!
