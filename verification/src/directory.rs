use vstd::prelude::*;
use crate::signup::SignUpPayload;
use crate::signup::SignUpViolation;
use crate::signup::UniqueField;
use crate::signup::email_valid;
use crate::signup::sign_up_validate;
use crate::signup::spec_band_independent_ok;
use crate::signup::spec_first_conflict;
use crate::signup::spec_sign_up_violations;
use crate::signup::spec_username;

verus! {

/// One reverse-lookup row: a unique contact value and the user that owns
/// it.
#[derive(Debug)]
pub struct DirectoryRow {
    pub value: String,
    pub user_id: String,
}

/// Whether some row holds the value.
pub open spec fn spec_dir_has(rows: Seq<DirectoryRow>, v: Seq<char>) -> bool {
    exists|i: int| 0 <= i < rows.len() && rows[i].value@ == v
}

/// One tenant's reverse-lookup tables for usernames, emails and phone
/// numbers. The storage engine owns the real tables; this model is what
/// the uniqueness contracts and laws speak of, and what the tests run
/// against.
#[derive(Debug)]
pub struct Directory {
    pub usernames: Vec<DirectoryRow>,
    pub emails: Vec<DirectoryRow>,
    pub phones: Vec<DirectoryRow>,
}

/// The first field that blocks a registration against the directory, in
/// check order.
pub open spec fn spec_payload_conflict(dir: &Directory, payload: &SignUpPayload) -> Option<
    UniqueField,
> {
    spec_first_conflict(
        payload.username is Some,
        (payload.username matches Some(u) && spec_dir_has(dir.usernames@, u@)),
        spec_dir_has(dir.emails@, payload.email@),
        payload.phone_number is Some,
        (payload.phone_number matches Some(p) && spec_dir_has(dir.phones@, p@)),
    )
}

fn rows_contain(rows: &Vec<DirectoryRow>, v: &String) -> (r: bool)
    ensures
        r == spec_dir_has(rows@, v@),
{
    let mut i: usize = 0;
    while i < rows.len()
        invariant
            0 <= i <= rows@.len(),
            forall|j: int| 0 <= j < i ==> rows@[j].value@ != v@,
        decreases rows@.len() - i,
    {
        if rows[i].value.eq(v) {
            return true;
        }
        i = i + 1;
    }
    false
}

/// The user the first row carrying the value names, if any row does.
pub open spec fn spec_rows_find(rows: Seq<DirectoryRow>, v: Seq<char>) -> Option<Seq<char>>
    decreases rows.len(),
{
    if rows.len() == 0 {
        None
    } else if rows[0].value@ == v {
        Some(rows[0].user_id@)
    } else {
        spec_rows_find(rows.drop_first(), v)
    }
}

/// The user that owns a value: the first row carrying it decides, and a
/// miss means no row carries it.
pub fn rows_find<'a>(rows: &'a Vec<DirectoryRow>, v: &String) -> (r: Option<&'a String>)
    ensures
        r matches Some(u) ==> spec_rows_find(rows@, v@) == Some(u@),
        r is None ==> spec_rows_find(rows@, v@) is None,
        r is None ==> !spec_dir_has(rows@, v@),
{
    let mut i: usize = 0;
    proof {
        assert(rows@.skip(0) =~= rows@);
    }
    while i < rows.len()
        invariant
            0 <= i <= rows@.len(),
            forall|j: int| 0 <= j < i ==> rows@[j].value@ != v@,
            spec_rows_find(rows@, v@) == spec_rows_find(rows@.skip(i as int), v@),
        decreases rows@.len() - i,
    {
        proof {
            assert(rows@.skip(i as int)[0] == rows@[i as int]);
        }
        if rows[i].value.eq(v) {
            return Some(&rows[i].user_id);
        }
        proof {
            assert(rows@.skip(i as int).drop_first() =~= rows@.skip(i + 1));
        }
        i = i + 1;
    }
    proof {
        assert(rows@.skip(rows@.len() as int).len() == 0);
    }
    None
}

/// What a whole registration attempt decides against the model: a 422
/// with the collected violations, a 409 naming the first blocking field,
/// or a created user.
#[derive(Debug)]
pub enum SignUpModelOutcome {
    Rejected(Vec<SignUpViolation>),
    Conflict(UniqueField),
    Created,
}

impl Directory {
    /// Empty tables.
    pub fn new() -> (r: Directory)
        ensures
            r.usernames@.len() == 0,
            r.emails@.len() == 0,
            r.phones@.len() == 0,
    {
        Directory { usernames: Vec::new(), emails: Vec::new(), phones: Vec::new() }
    }

    /// The first blocking field for a registration: the username when
    /// given and taken, else the email when taken, else the phone number
    /// when given and taken. Checks after the first hit do not run.
    pub fn first_conflict_for(&self, payload: &SignUpPayload) -> (r: Option<UniqueField>)
        ensures
            r == spec_payload_conflict(self, payload),
    {
        if let Some(u) = &payload.username {
            if rows_contain(&self.usernames, u) {
                return Some(UniqueField::Username);
            }
        }
        if rows_contain(&self.emails, &payload.email) {
            return Some(UniqueField::Email);
        }
        if let Some(p) = &payload.phone_number {
            if rows_contain(&self.phones, p) {
                return Some(UniqueField::PhoneNumber);
            }
        }
        None
    }

    /// Runs a whole registration against the model: validation first, then
    /// the ordered uniqueness checks, then the writes. A validation
    /// failure or a conflict leaves every table exactly as it was; a
    /// payload failing a band-independent rule is always rejected, so
    /// only a validated, conflict-free registration writes, appending the
    /// new user's rows.
    pub fn sign_up_model(&mut self, payload: &SignUpPayload, user_id: String) -> (r:
        SignUpModelOutcome)
        ensures
            r matches SignUpModelOutcome::Rejected(v) ==> *final(self) == *old(self) && v@.len()
                > 0 && exists|score: u8|
                #![auto]
                score <= 4 && v@ == spec_sign_up_violations(
                    spec_username(payload),
                    email_valid(payload.email@),
                    payload.password@,
                    score,
                ),
            !spec_band_independent_ok(payload) ==> r is Rejected,
            r matches SignUpModelOutcome::Conflict(f) ==> *final(self) == *old(self) && Some(f)
                == spec_payload_conflict(old(self), payload) && spec_band_independent_ok(payload),
            r is Created ==> {
                &&& spec_band_independent_ok(payload)
                &&& spec_payload_conflict(old(self), payload) is None
                &&& final(self).emails@.len() == old(self).emails@.len() + 1
                &&& final(self).emails@.last().value@ == payload.email@
                &&& final(self).emails@.last().user_id@ == user_id@
                &&& final(self).emails@.subrange(0, old(self).emails@.len() as int) == old(
                    self,
                ).emails@
                &&& (payload.username is Some ==> final(self).usernames@.len() == old(
                    self,
                ).usernames@.len() + 1 && (payload.username matches Some(u)
                    ==> final(self).usernames@.last().value@ == u@))
                &&& (payload.username is None ==> final(self).usernames@ == old(self).usernames@)
                &&& (payload.phone_number is Some ==> final(self).phones@.len() == old(
                    self,
                ).phones@.len() + 1 && (payload.phone_number matches Some(p)
                    ==> final(self).phones@.last().value@ == p@))
                &&& (payload.phone_number is None ==> final(self).phones@ == old(self).phones@)
            },
    {
        let (violations, _score, _suggestions) = sign_up_validate(payload);
        if violations.len() > 0 {
            return SignUpModelOutcome::Rejected(violations);
        }
        proof {
            assert(spec_band_independent_ok(payload));
        }
        match self.first_conflict_for(payload) {
            Some(field) => SignUpModelOutcome::Conflict(field),
            None => {
                if let Some(u) = &payload.username {
                    self.usernames.push(
                        DirectoryRow { value: u.clone(), user_id: user_id.clone() },
                    );
                }
                self.emails.push(
                    DirectoryRow { value: payload.email.clone(), user_id: user_id.clone() },
                );
                if let Some(p) = &payload.phone_number {
                    self.phones.push(DirectoryRow { value: p.clone(), user_id });
                }
                SignUpModelOutcome::Created
            },
        }
    }
}

} // verus!
