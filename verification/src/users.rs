//! The user store: the records the registration service persists and the
//! integrity rules every insert must satisfy.
//!
//! The store models the single table of the persistence layer — an
//! auto-assigned integer primary key, unique contact columns, and a
//! checked notifier column — as a well-formed sequence of records.
//! Persistence itself (the database file and its connections) lives
//! outside the library and mirrors this model row for row.

use vstd::prelude::*;

use crate::types::Notifier;

verus! {

/// The data stored for each user in the database.
#[derive(Debug)]
pub struct User {
    /// A unique identifier for a user.
    pub id: u32,
    /// Email of the user.
    pub email: Option<String>,
    /// Telegram handle of the user.
    pub tg_handle: Option<String>,
    /// Defines the channel through which the user would like to be notified.
    pub notifier: Notifier,
}

/// The mathematical content of one user record: the contact handles as
/// character sequences.
pub ghost struct UserView {
    /// A unique identifier for a user.
    pub id: u32,
    /// Email of the user.
    pub email: Option<Seq<char>>,
    /// Telegram handle of the user.
    pub tg_handle: Option<Seq<char>>,
    /// Defines the channel through which the user would like to be notified.
    pub notifier: Notifier,
}

impl View for User {
    type V = UserView;

    open spec fn view(&self) -> UserView {
        UserView {
            id: self.id,
            email: self.email.deep_view(),
            tg_handle: self.tg_handle.deep_view(),
            notifier: self.notifier,
        }
    }
}

impl DeepView for User {
    type V = UserView;

    open spec fn deep_view(&self) -> UserView {
        self.view()
    }
}

impl Clone for User {
    /// Field-by-field copy of the record.
    fn clone(&self) -> (r: Self)
        ensures
            r@ == self@,
    {
        User {
            id: self.id,
            email: match &self.email {
                Some(e) => Some(e.clone()),
                None => None,
            },
            tg_handle: match &self.tg_handle {
                Some(h) => Some(h.clone()),
                None => None,
            },
            notifier: self.notifier,
        }
    }
}

/// The per-record integrity rules: a record names at least one contact
/// handle, and the chosen notification channel has its handle present.
pub open spec fn valid_user(u: UserView) -> bool {
    &&& u.email is Some || u.tg_handle is Some
    &&& u.notifier == Notifier::Email ==> u.email is Some
    &&& u.notifier == Notifier::Telegram ==> u.tg_handle is Some
}

/// Whether two contact columns collide: both are present and hold the
/// same text.
pub open spec fn contact_conflict(a: Option<Seq<char>>, b: Option<Seq<char>>) -> bool {
    a is Some && a == b
}

/// The integrity of the whole table: every record is valid, the primary
/// key is the auto-assigned position (starting at 1), and no two records
/// share an email or a telegram handle.
pub open spec fn store_inv(s: Seq<UserView>) -> bool {
    &&& forall|i: int| 0 <= i < s.len() ==> valid_user(#[trigger] s[i])
    &&& forall|i: int| 0 <= i < s.len() ==> (#[trigger] s[i]).id == i + 1
    &&& forall|i: int, j: int|
        0 <= i < j < s.len() ==> !contact_conflict((#[trigger] s[i]).email, (#[trigger] s[j]).email)
    &&& forall|i: int, j: int|
        0 <= i < j < s.len() ==> !contact_conflict(
            (#[trigger] s[i]).tg_handle,
            (#[trigger] s[j]).tg_handle,
        )
}

/// Why a store operation failed.
#[derive(Clone, Copy, Debug, PartialEq, Eq, Structural)]
pub enum StoreError {
    /// The record breaks a per-record integrity rule.
    Invalid,
    /// The record names an email or telegram handle another record
    /// already holds.
    Conflict,
    /// No record matches the query.
    NotFound,
}

/// The user table, kept well formed by construction.
pub struct UserStore {
    users: Vec<User>,
}

impl View for UserStore {
    type V = Seq<UserView>;

    closed spec fn view(&self) -> Seq<UserView> {
        self.users.deep_view()
    }
}

fn contact_eq(a: &Option<String>, b: &Option<String>) -> (r: bool)
    ensures
        r == contact_conflict(a.deep_view(), b.deep_view()),
{
    match (a, b) {
        (Some(x), Some(y)) => *x == *y,
        _ => false,
    }
}

impl UserStore {
    /// Whether the table satisfies its integrity rules.
    pub open spec fn wf(self) -> bool {
        store_inv(self@)
    }

    /// An empty table, as first connection creates it when none exists.
    pub fn new() -> (s: Self)
        ensures
            s@ == Seq::<UserView>::empty(),
            s.wf(),
    {
        let s = UserStore { users: Vec::new() };
        proof {
            assert(s@ =~= Seq::<UserView>::empty());
        }
        s
    }

    /// All records of the table, in insertion order.
    pub fn query_all(&self) -> (r: Vec<User>)
        ensures
            r.deep_view() == self@,
    {
        let mut r: Vec<User> = Vec::new();
        let mut i: usize = 0;
        while i < self.users.len()
            invariant
                0 <= i <= self.users.len(),
                r@.len() == i,
                forall|j: int| 0 <= j < i ==> (#[trigger] r@[j])@ == self@[j],
            decreases self.users.len() - i,
        {
            r.push(self.users[i].clone());
            i += 1;
            proof {
                assert(self@[i - 1] == self.users@[i - 1]@);
                assert(r.deep_view()[i - 1] == r@[i - 1]@);
            }
        }
        proof {
            assert(r.deep_view() =~= self@);
        }
        r
    }

    /// The record whose primary key is `id`, or `NotFound` when the table
    /// holds none.
    pub fn query_by_id(&self, id: u32) -> (r: Result<User, StoreError>)
        ensures
            match r {
                Ok(u) => exists|i: int| 0 <= i < self@.len() && #[trigger] self@[i] == u@ && u@.id
                    == id,
                Err(e) => e == StoreError::NotFound && forall|i: int|
                    0 <= i < self@.len() ==> (#[trigger] self@[i]).id != id,
            },
    {
        let mut i: usize = 0;
        while i < self.users.len()
            invariant
                0 <= i <= self.users.len(),
                forall|j: int| 0 <= j < i ==> (#[trigger] self@[j]).id != id,
            decreases self.users.len() - i,
        {
            proof {
                assert(self@[i as int] == self.users@[i as int]@);
            }
            if self.users[i].id == id {
                return Ok(self.users[i].clone());
            }
            i += 1;
        }
        Err(StoreError::NotFound)
    }

    /// The record holding the given email, or `NotFound` when the table
    /// holds none.
    pub fn query_by_email(&self, email: &String) -> (r: Result<User, StoreError>)
        ensures
            match r {
                Ok(u) => exists|i: int| 0 <= i < self@.len() && #[trigger] self@[i] == u@
                    && u@.email == Some(email@),
                Err(e) => e == StoreError::NotFound && forall|i: int|
                    0 <= i < self@.len() ==> (#[trigger] self@[i]).email != Some(email@),
            },
    {
        let mut i: usize = 0;
        while i < self.users.len()
            invariant
                0 <= i <= self.users.len(),
                forall|j: int| 0 <= j < i ==> (#[trigger] self@[j]).email != Some(email@),
            decreases self.users.len() - i,
        {
            proof {
                assert(self@[i as int] == self.users@[i as int]@);
            }
            match &self.users[i].email {
                Some(e) => {
                    if *e == *email {
                        return Ok(self.users[i].clone());
                    }
                },
                None => {},
            }
            i += 1;
        }
        Err(StoreError::NotFound)
    }

    /// The record holding the given telegram handle, or `NotFound` when
    /// the table holds none.
    pub fn query_by_tg_handle(&self, handle: &String) -> (r: Result<User, StoreError>)
        ensures
            match r {
                Ok(u) => exists|i: int| 0 <= i < self@.len() && #[trigger] self@[i] == u@
                    && u@.tg_handle == Some(handle@),
                Err(e) => e == StoreError::NotFound && forall|i: int|
                    0 <= i < self@.len() ==> (#[trigger] self@[i]).tg_handle != Some(handle@),
            },
    {
        let mut i: usize = 0;
        while i < self.users.len()
            invariant
                0 <= i <= self.users.len(),
                forall|j: int| 0 <= j < i ==> (#[trigger] self@[j]).tg_handle != Some(handle@),
            decreases self.users.len() - i,
        {
            proof {
                assert(self@[i as int] == self.users@[i as int]@);
            }
            match &self.users[i].tg_handle {
                Some(h) => {
                    if *h == *handle {
                        return Ok(self.users[i].clone());
                    }
                },
                None => {},
            }
            i += 1;
        }
        Err(StoreError::NotFound)
    }

    /// Insert a record, assigning the next primary key; the id the caller
    /// supplies is advisory and ignored.
    ///
    /// The table rejects exactly the inserts that would break its
    /// integrity rules: an invalid record, or a contact handle another
    /// record already holds. A rejected insert leaves the table
    /// unchanged.
    pub fn create_user(&mut self, user: &User) -> (r: Result<(), StoreError>)
        requires
            old(self).wf(),
            old(self)@.len() < u32::MAX,
        ensures
            final(self).wf(),
            match r {
                Ok(()) => {
                    &&& valid_user(user@)
                    &&& forall|i: int|
                        0 <= i < old(self)@.len() ==> !contact_conflict(
                            user@.email,
                            (#[trigger] old(self)@[i]).email,
                        )
                    &&& forall|i: int|
                        0 <= i < old(self)@.len() ==> !contact_conflict(
                            user@.tg_handle,
                            (#[trigger] old(self)@[i]).tg_handle,
                        )
                    &&& final(self)@ == old(self)@.push(
                        UserView {
                            id: (old(self)@.len() + 1) as u32,
                            email: user@.email,
                            tg_handle: user@.tg_handle,
                            notifier: user@.notifier,
                        },
                    )
                },
                Err(StoreError::Invalid) => !valid_user(user@) && final(self)@ == old(self)@,
                Err(StoreError::Conflict) => {
                    &&& valid_user(user@)
                    &&& exists|i: int|
                        0 <= i < old(self)@.len() && (contact_conflict(
                            user@.email,
                            (#[trigger] old(self)@[i]).email,
                        ) || contact_conflict(user@.tg_handle, old(self)@[i].tg_handle))
                    &&& final(self)@ == old(self)@
                },
                Err(StoreError::NotFound) => false,
            },
    {
        let valid_contact = user.email.is_some() || user.tg_handle.is_some();
        let valid_channel = match user.notifier {
            Notifier::Email => user.email.is_some(),
            Notifier::Telegram => user.tg_handle.is_some(),
            Notifier::Null => true,
        };
        if !(valid_contact && valid_channel) {
            return Err(StoreError::Invalid);
        }
        let mut i: usize = 0;
        while i < self.users.len()
            invariant
                *self == *old(self),
                self.wf(),
                self@.len() < u32::MAX,
                valid_user(user@),
                0 <= i <= self.users.len(),
                forall|j: int|
                    0 <= j < i ==> !contact_conflict(
                        user@.email,
                        (#[trigger] old(self)@[j]).email,
                    ),
                forall|j: int|
                    0 <= j < i ==> !contact_conflict(
                        user@.tg_handle,
                        (#[trigger] old(self)@[j]).tg_handle,
                    ),
            decreases self.users.len() - i,
        {
            proof {
                assert(old(self)@[i as int] == self.users@[i as int]@);
            }
            if contact_eq(&user.email, &self.users[i].email) || contact_eq(
                &user.tg_handle,
                &self.users[i].tg_handle,
            ) {
                return Err(StoreError::Conflict);
            }
            i += 1;
        }
        let assigned: u32 = (self.users.len() as u32) + 1;
        let record = User {
            id: assigned,
            email: match &user.email {
                Some(e) => Some(e.clone()),
                None => None,
            },
            tg_handle: match &user.tg_handle {
                Some(h) => Some(h.clone()),
                None => None,
            },
            notifier: user.notifier,
        };
        self.users.push(record);
        proof {
            let rec = UserView {
                id: (old(self)@.len() + 1) as u32,
                email: user@.email,
                tg_handle: user@.tg_handle,
                notifier: user@.notifier,
            };
            assert(self@ =~= old(self)@.push(rec));
            let s = self@;
            assert forall|a: int, b: int| 0 <= a < b < s.len() implies !contact_conflict(
                (#[trigger] s[a]).email,
                (#[trigger] s[b]).email,
            ) by {
                if b == s.len() - 1 {
                    assert(!contact_conflict(user@.email, (old(self)@[a]).email));
                }
            }
            assert forall|a: int, b: int| 0 <= a < b < s.len() implies !contact_conflict(
                (#[trigger] s[a]).tg_handle,
                (#[trigger] s[b]).tg_handle,
            ) by {
                if b == s.len() - 1 {
                    assert(!contact_conflict(user@.tg_handle, (old(self)@[a]).tg_handle));
                }
            }
            assert forall|a: int| 0 <= a < s.len() implies valid_user(#[trigger] s[a]) by {}
            assert forall|a: int| 0 <= a < s.len() implies (#[trigger] s[a]).id == a + 1 by {}
        }
        Ok(())
    }
}

} // verus!
