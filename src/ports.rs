//! The ports through which the domain reaches storage and notification
//! backends.

use vstd::prelude::*;

use crate::error::DomainError;
use crate::store::distinct_ids;
use crate::user::{Email, User, UserId};

verus! {

/// Storage of users, implemented by each backend. A backend only fails when
/// the backend itself breaks, and then with an infrastructure error.
pub trait UserRepository: Send + Sync {
    /// The current record with id `id`; absence is `None`, not a failure.
    fn find_by_id(&self, id: &UserId) -> (r: Result<Option<User>, DomainError>)
        ensures
            r matches Ok(Some(u)) ==> u.id == *id,
            r matches Err(e) ==> e is Infrastructure,
    ;

    /// A record with the address `email`, if one exists.
    fn find_by_email(&self, email: &Email) -> (r: Result<Option<User>, DomainError>)
        ensures
            r matches Ok(Some(u)) ==> u.email@ == email@,
            r matches Err(e) ==> e is Infrastructure,
    ;

    /// Inserts `user`, overwriting any record with the same id.
    fn save(&self, user: &User) -> (r: Result<(), DomainError>)
        ensures
            r matches Err(e) ==> e is Infrastructure,
    ;

    /// Removes the record with id `id`; removing an absent id is no failure.
    fn delete(&self, id: &UserId) -> (r: Result<(), DomainError>)
        ensures
            r matches Err(e) ==> e is Infrastructure,
    ;

    /// A snapshot of every record, each id once, in no promised order.
    fn list(&self) -> (r: Result<Vec<User>, DomainError>)
        ensures
            r matches Ok(users) ==> distinct_ids(users@),
            r matches Err(e) ==> e is Infrastructure,
    ;
}

/// Delivery of email messages, implemented by each provider. Callers such as
/// `UserService::register` rely on the methods handing the message off and
/// returning without waiting for delivery; a provider that talks to a slow
/// service should deliver in the background. Callers do not act on a failed
/// delivery, so a provider records its own failures.
pub trait EmailService: Send + Sync {
    /// Hands off a plain-text message; returns without waiting for delivery.
    fn send(&self, to: &Email, subject: &str, body: &str) -> Result<(), DomainError>;

    /// Hands off a message with an HTML body; returns without waiting for delivery.
    fn send_html(&self, to: &Email, subject: &str, html_body: &str) -> Result<(), DomainError>;
}

} // verus!
