//! The in-memory repository: one user table behind a single reader/writer
//! lock. Lookups and listing share the lock; saving and deleting hold it
//! alone. The lock is held for one table operation and never across a call
//! that leaves the repository; callers always receive copies. Every critical
//! section is verified code that cannot panic, so no holder can leave the lock
//! in a broken state, and the operations of this backend never fail.

use vstd::prelude::*;
use vstd::rwlock::{RwLock, RwLockPredicate};

use crate::error::DomainError;
use crate::ports::UserRepository;
use crate::store::UserStore;
use crate::user::{Email, User, UserId};

verus! {

/// What the lock guarantees of the table it guards: it is well formed.
pub struct WellFormedTable;

impl RwLockPredicate<UserStore> for WellFormedTable {
    open spec fn inv(self, v: UserStore) -> bool {
        v.wf()
    }
}

/// A user repository kept in memory, safe to share between threads.
pub struct InMemoryUserRepository {
    users: RwLock<UserStore, WellFormedTable>,
}

impl InMemoryUserRepository {
    /// An empty repository.
    pub fn new() -> (r: InMemoryUserRepository) {
        InMemoryUserRepository { users: RwLock::new(UserStore::new(), Ghost(WellFormedTable)) }
    }
}

impl Default for InMemoryUserRepository {
    fn default() -> (r: InMemoryUserRepository) {
        InMemoryUserRepository::new()
    }
}

impl UserRepository for InMemoryUserRepository {
    fn find_by_id(&self, id: &UserId) -> (r: Result<Option<User>, DomainError>)
        ensures
            r is Ok,
    {
        let handle = self.users.acquire_read();
        let found = handle.borrow().find_by_id(id);
        handle.release_read();
        Ok(found)
    }

    fn find_by_email(&self, email: &Email) -> (r: Result<Option<User>, DomainError>)
        ensures
            r is Ok,
    {
        let handle = self.users.acquire_read();
        let found = handle.borrow().find_by_email(email);
        handle.release_read();
        Ok(found)
    }

    fn save(&self, user: &User) -> (r: Result<(), DomainError>)
        ensures
            r is Ok,
    {
        let (mut store, handle) = self.users.acquire_write();
        store.save(user);
        handle.release_write(store);
        Ok(())
    }

    fn delete(&self, id: &UserId) -> (r: Result<(), DomainError>)
        ensures
            r is Ok,
    {
        let (mut store, handle) = self.users.acquire_write();
        store.delete(id);
        handle.release_write(store);
        Ok(())
    }

    fn list(&self) -> (r: Result<Vec<User>, DomainError>)
        ensures
            r is Ok,
    {
        let handle = self.users.acquire_read();
        let users = handle.borrow().list();
        handle.release_read();
        Ok(users)
    }
}

} // verus!
