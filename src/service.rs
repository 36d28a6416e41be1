//! The user service: registration, lookup, renaming, deletion and listing,
//! orchestrated over the repository and notification ports. The service owns
//! the rule that no two users share an email address.

use std::sync::Arc;

use vstd::prelude::*;

use crate::error::DomainError;
use crate::ports::{EmailService, UserRepository};
use crate::store::distinct_ids;
use crate::user::{
    is_v4_layout, is_valid_email, lower_of, next_stamp, uuid_text_of, Email, Timestamp, User, UserId,
};

verus! {

/// Subject of the message sent to a newly registered user.
pub const WELCOME_SUBJECT: &'static str = "Welcome!";

/// Body of the message sent to a newly registered user.
pub const WELCOME_BODY: &'static str = "Thank you for registering with us.";

/// The outcome of the duplicate check of a registration, given the
/// repository's answer to the lookup under the new address: free when it
/// found nothing, a conflict when it found a record, and the repository's
/// error, unchanged, when the lookup failed.
pub fn email_available(found: Result<Option<User>, DomainError>, email: &Email) -> (r: Result<
    (),
    DomainError,
>)
    ensures
        found matches Ok(None) ==> r is Ok,
        found matches Ok(Some(_)) ==> (r matches Err(e) && e is Conflict),
        found matches Err(e) ==> r == Err::<(), DomainError>(e),
{
    match found {
        Ok(None) => Ok(()),
        Ok(Some(_)) => {
            let message = String::from_str("User with email ").concat(email.as_str()).concat(
                " already exists",
            );
            Err(DomainError::Conflict(message))
        },
        Err(e) => Err(e),
    }
}

/// The outcome of a registration, given the new user and the repository's
/// answer to saving it: the user when the save succeeded, and the
/// repository's error, unchanged, when it failed.
pub fn registered(user: User, saved: Result<(), DomainError>) -> (r: Result<User, DomainError>)
    ensures
        saved is Ok ==> r == Ok::<User, DomainError>(user),
        saved matches Err(e) ==> r == Err::<User, DomainError>(e),
{
    match saved {
        Ok(()) => Ok(user),
        Err(e) => Err(e),
    }
}

/// The outcome of a lookup by id, given what the repository found: the user,
/// or a not-found error naming the id.
pub fn found_by_id(found: Option<User>, id: &UserId) -> (r: Result<User, DomainError>)
    ensures
        found matches Some(u) ==> (r matches Ok(v) && v == u),
        found is None ==> (r matches Err(DomainError::NotFound { key, .. }) && key@ == uuid_text_of(
            id.0,
        )),
{
    match found {
        Some(u) => Ok(u),
        None => Err(DomainError::not_found("User", id.to_string())),
    }
}

/// The outcome of a lookup by address, given what the repository found: the
/// user, or a not-found error naming the address.
pub fn found_by_email(found: Option<User>, email: &Email) -> (r: Result<User, DomainError>)
    ensures
        found matches Some(u) ==> (r matches Ok(v) && v == u),
        found is None ==> (r matches Err(DomainError::NotFound { key, .. }) && key@ == email@),
{
    match found {
        Some(u) => Ok(u),
        None => Err(DomainError::not_found("User", email.to_string())),
    }
}

/// The outcome of a rename made at the clock reading `now`, given what the
/// repository found under `id`: the found user with the new name and a
/// refreshed stamp, or a not-found error naming the id.
pub fn renamed(found: Option<User>, id: &UserId, new_name: &str, now: Timestamp) -> (r: Result<
    User,
    DomainError,
>)
    ensures
        found matches Some(u0) ==> (r matches Ok(u1) && {
            &&& u1.id == u0.id
            &&& u1.email == u0.email
            &&& u1.created_at == u0.created_at
            &&& u1.name@ == new_name@
            &&& u1.updated_at == next_stamp(u0.updated_at, now)
            &&& u0.updated_at.0 < i64::MAX ==> u1.updated_at.0 > u0.updated_at.0
        }),
        found is None ==> (r matches Err(DomainError::NotFound { key, .. }) && key@ == uuid_text_of(
            id.0,
        )),
{
    match found_by_id(found, id) {
        Ok(mut user) => {
            user.update_name_at(new_name, now);
            Ok(user)
        },
        Err(e) => Err(e),
    }
}

/// Business operations on users over a repository `R` and a notifier `E`.
pub struct UserService<R: UserRepository, E: EmailService> {
    repository: Arc<R>,
    email_service: Arc<E>,
}

impl<R: UserRepository, E: EmailService> UserService<R, E> {
    /// The repository the service stores users in.
    pub closed spec fn repository(&self) -> Arc<R> {
        self.repository
    }

    /// The notifier the service sends welcome messages through.
    pub closed spec fn email_service(&self) -> Arc<E> {
        self.email_service
    }

    /// A service over the given ports.
    pub fn new(repository: Arc<R>, email_service: Arc<E>) -> (r: UserService<R, E>)
        ensures
            r.repository() == repository,
            r.email_service() == email_service,
    {
        UserService { repository, email_service }
    }

    /// Registers a user under `email` with display name `name`.
    ///
    /// The address is validated and normalized; a conflict is returned when
    /// the repository already holds a user with it. Otherwise a user with a
    /// fresh id is saved and returned. The welcome message is then handed to
    /// the notifier, whose outcome never changes the result. The service
    /// relies on `EmailService::send` returning without waiting for delivery
    /// (a notifier that delivers in the background), so that registration
    /// never waits on it; a failed delivery leaves the registration as it is.
    /// The service keeps no log, so recording a failed delivery is the
    /// notifier's task (the background notifier of the server logs it).
    ///
    /// Step by step: an invalid address is a validation error; otherwise the
    /// lookup's answer goes through `email_available`, and then the save's
    /// answer goes through `registered`, whose result is returned. The
    /// message is handed to the notifier only after a successful save, and
    /// its answer is discarded.
    ///
    /// The duplicate check and the save are two separate repository calls,
    /// each under the repository's own lock, and nothing holds a lock across
    /// them. Two concurrent registrations with the same address can both pass
    /// the check and both be saved. This race is accepted here: uniqueness is
    /// guaranteed for registrations that do not overlap in time, and closing
    /// it for overlapping ones is left to a backend with a uniqueness
    /// constraint on the address.
    pub fn register(&self, email: &str, name: &str) -> (r: Result<User, DomainError>)
        ensures
            !is_valid_email(email@) ==> r matches Err(DomainError::ValidationError(_)),
            r matches Ok(u) ==> {
                &&& u.email@ == lower_of(email@)
                &&& u.name@ == name@
                &&& is_v4_layout(u.id.0)
                &&& u.created_at == u.updated_at
            },
            r matches Err(e) ==> e is ValidationError || e is Conflict || e is Infrastructure,
            r matches Err(DomainError::ValidationError(_)) ==> !is_valid_email(email@),
    {
        let email = match Email::new(email) {
            Ok(e) => e,
            Err(e) => return Err(e),
        };
        let found = self.repository.find_by_email(&email);
        match email_available(found, &email) {
            Ok(()) => {},
            Err(e) => return Err(e),
        }
        let user = User::new(email.clone(), name);
        let saved = self.repository.save(&user);
        match registered(user, saved) {
            Ok(user) => {
                let _ = self.email_service.send(&email, WELCOME_SUBJECT, WELCOME_BODY);
                Ok(user)
            },
            Err(e) => Err(e),
        }
    }

    /// The user with id `id`.
    pub fn get_by_id(&self, id: &UserId) -> (r: Result<User, DomainError>)
        ensures
            r matches Ok(u) ==> u.id == *id,
            r matches Err(e) ==> e is NotFound || e is Infrastructure,
    {
        match self.repository.find_by_id(id) {
            Ok(found) => found_by_id(found, id),
            Err(e) => Err(e),
        }
    }

    /// The user registered under the address `email`.
    pub fn get_by_email(&self, email: &str) -> (r: Result<User, DomainError>)
        ensures
            !is_valid_email(email@) ==> r matches Err(DomainError::ValidationError(_)),
            r matches Ok(u) ==> u.email@ == lower_of(email@),
            r matches Err(e) ==> e is ValidationError || e is NotFound || e is Infrastructure,
            r matches Err(DomainError::ValidationError(_)) ==> !is_valid_email(email@),
    {
        let email = match Email::new(email) {
            Ok(e) => e,
            Err(e) => return Err(e),
        };
        match self.repository.find_by_email(&email) {
            Ok(found) => found_by_email(found, &email),
            Err(e) => Err(e),
        }
    }

    /// Renames the user with id `id`, refreshing its `updated_at`, and saves
    /// it; what is saved and returned is what `renamed` makes of the record
    /// found. An absent id gives a not-found error and nothing is saved.
    pub fn update_name(&self, id: &UserId, new_name: &str) -> (r: Result<User, DomainError>)
        ensures
            r matches Ok(u) ==> u.id == *id && u.name@ == new_name@,
            r matches Err(e) ==> e is NotFound || e is Infrastructure,
    {
        let found = match self.repository.find_by_id(id) {
            Ok(f) => f,
            Err(e) => return Err(e),
        };
        let user = match renamed(found, id, new_name, Timestamp::now()) {
            Ok(u) => u,
            Err(e) => return Err(e),
        };
        match self.repository.save(&user) {
            Ok(()) => Ok(user),
            Err(e) => Err(e),
        }
    }

    /// Deletes the user with id `id`, which must exist.
    pub fn delete(&self, id: &UserId) -> (r: Result<(), DomainError>)
        ensures
            r matches Err(e) ==> e is NotFound || e is Infrastructure,
    {
        match self.get_by_id(id) {
            Ok(_) => self.repository.delete(id),
            Err(e) => Err(e),
        }
    }

    /// Every user, each once.
    pub fn list(&self) -> (r: Result<Vec<User>, DomainError>)
        ensures
            r matches Ok(users) ==> distinct_ids(users@),
            r matches Err(e) ==> e is Infrastructure,
    {
        self.repository.list()
    }
}

} // verus!
