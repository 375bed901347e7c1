//! Registration handling: validation of a registration request and the
//! decision the registration endpoint takes — accept and persist, or
//! reject with a status code and a message.
//!
//! The HTTP layer around this module parses the request body into a
//! [`RegistrationData`] and turns the returned [`ApiError`] into the wire
//! response; the decisions themselves are made here.

use vstd::prelude::*;

use crate::types::Notifier;
use crate::users::{contact_conflict, valid_user, User, UserStore, UserView};

verus! {

/// The body of a registration request.
#[derive(Debug)]
pub struct RegistrationData {
    /// Client-supplied identifier; advisory only, the store assigns its
    /// own primary key.
    pub id: u32,
    /// Defines how the user wants to receive their notifications.
    pub notifier: Notifier,
    /// The user's email.
    pub email: Option<String>,
    /// The user's telegram handle.
    pub tg_handle: Option<String>,
}

impl View for RegistrationData {
    type V = UserView;

    open spec fn view(&self) -> UserView {
        UserView {
            id: self.id,
            email: self.email.deep_view(),
            tg_handle: self.tg_handle.deep_view(),
            notifier: self.notifier,
        }
    }
}

/// Why a registration request is rejected before it reaches the store.
#[derive(Clone, Copy, Debug, PartialEq, Eq, Structural)]
pub enum ValidationError {
    /// Neither an email nor a telegram handle was given.
    MissingContact,
    /// The email channel was chosen but no email was given.
    MissingEmail,
    /// The telegram channel was chosen but no handle was given.
    MissingHandle,
}

impl ValidationError {
    /// The description of each rejection, as the API reports it.
    pub open spec fn spec_message(self) -> Seq<char> {
        match self {
            ValidationError::MissingContact => "Email and Telegram cannot be empty"@,
            ValidationError::MissingEmail => "Email must not be empty"@,
            ValidationError::MissingHandle => "Telegram handle must exist"@,
        }
    }

    /// The description of this rejection, as the API reports it.
    pub fn message(&self) -> (m: String)
        ensures
            m@ == self.spec_message(),
    {
        match self {
            ValidationError::MissingContact => "Email and Telegram cannot be empty".to_owned(),
            ValidationError::MissingEmail => "Email must not be empty".to_owned(),
            ValidationError::MissingHandle => "Telegram handle must exist".to_owned(),
        }
    }
}

/// The outcome validation owes a request: the first integrity rule it
/// breaks, or success when it breaks none.
pub open spec fn spec_validate(u: UserView) -> Result<(), ValidationError> {
    if u.email is None && u.tg_handle is None {
        Err(ValidationError::MissingContact)
    } else if u.notifier == Notifier::Email && u.email is None {
        Err(ValidationError::MissingEmail)
    } else if u.notifier == Notifier::Telegram && u.tg_handle is None {
        Err(ValidationError::MissingHandle)
    } else {
        Ok(())
    }
}

impl RegistrationData {
    /// Check the request against the per-record integrity rules: a
    /// contact must be named, and the chosen notification channel must
    /// have its handle present. Succeeds exactly on the requests that
    /// describe a valid record.
    pub fn validate(&self) -> (r: Result<(), ValidationError>)
        ensures
            r == spec_validate(self@),
            r is Ok <==> valid_user(self@),
    {
        if self.email.is_none() && self.tg_handle.is_none() {
            return Err(ValidationError::MissingContact);
        }
        match self.notifier {
            Notifier::Email => {
                if self.email.is_none() {
                    Err(ValidationError::MissingEmail)
                } else {
                    Ok(())
                }
            },
            Notifier::Telegram => {
                if self.tg_handle.is_none() {
                    Err(ValidationError::MissingHandle)
                } else {
                    Ok(())
                }
            },
            Notifier::Null => Ok(()),
        }
    }
}

/// A failed registration, as the endpoint reports it: an HTTP status
/// code and the message of the JSON error body.
#[derive(Debug)]
pub struct ApiError {
    /// The HTTP status code of the response.
    pub status: u16,
    /// The message of the JSON error body.
    pub message: String,
}

/// Decide a registration request against the store: reject an invalid
/// request, reject a duplicate email or telegram handle, and otherwise
/// insert the described user under a fresh primary key.
///
/// Succeeds exactly on the valid, conflict-free requests; a rejected
/// request leaves the store unchanged, and carries status 400 with the
/// validation message, or with `"User already exists"` on a duplicate.
/// The wire protocol's persistence-failure response (status 500) cannot
/// arise here: an insert that passed validation and the duplicate checks
/// is always accepted by the store.
pub fn register_user(store: &mut UserStore, data: &RegistrationData) -> (r: Result<(), ApiError>)
    requires
        old(store).wf(),
        old(store)@.len() < u32::MAX,
    ensures
        final(store).wf(),
        match r {
            Ok(()) => {
                &&& valid_user(data@)
                &&& forall|i: int|
                    0 <= i < old(store)@.len() ==> !contact_conflict(
                        data@.email,
                        (#[trigger] old(store)@[i]).email,
                    )
                &&& forall|i: int|
                    0 <= i < old(store)@.len() ==> !contact_conflict(
                        data@.tg_handle,
                        (#[trigger] old(store)@[i]).tg_handle,
                    )
                &&& final(store)@ == old(store)@.push(
                    UserView {
                        id: (old(store)@.len() + 1) as u32,
                        email: data@.email,
                        tg_handle: data@.tg_handle,
                        notifier: data@.notifier,
                    },
                )
            },
            Err(e) => {
                &&& final(store)@ == old(store)@
                &&& e.status == 400
                &&& (spec_validate(data@) matches Err(v) ==> e.message@ == v.spec_message())
                &&& (spec_validate(data@) is Ok ==> (exists|i: int|
                    0 <= i < old(store)@.len() && (contact_conflict(
                        data@.email,
                        (#[trigger] old(store)@[i]).email,
                    ) || contact_conflict(data@.tg_handle, old(store)@[i].tg_handle)))
                    && e.message@ == "User already exists"@)
            },
        },
{
    match data.validate() {
        Err(v) => {
            return Err(ApiError { status: 400, message: v.message() });
        },
        Ok(()) => {},
    }
    match &data.email {
        Some(email) => {
            if store.query_by_email(email).is_ok() {
                return Err(
                    ApiError { status: 400, message: "User already exists".to_owned() },
                );
            }
        },
        None => {},
    }
    match &data.tg_handle {
        Some(handle) => {
            if store.query_by_tg_handle(handle).is_ok() {
                return Err(
                    ApiError { status: 400, message: "User already exists".to_owned() },
                );
            }
        },
        None => {},
    }
    let user = User {
        id: data.id,
        email: match &data.email {
            Some(e) => Some(e.clone()),
            None => None,
        },
        tg_handle: match &data.tg_handle {
            Some(h) => Some(h.clone()),
            None => None,
        },
        notifier: data.notifier,
    };
    match store.create_user(&user) {
        Ok(()) => Ok(()),
        Err(_) => Err(ApiError { status: 500, message: "Failed to register user".to_owned() }),
    }
}

} // verus!
