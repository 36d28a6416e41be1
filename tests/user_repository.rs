use std::sync::Arc;

use hexagonal_users::in_memory::InMemoryUserRepository;
use hexagonal_users::ports::UserRepository;
use hexagonal_users::user::{Email, Timestamp, User, UserId};

#[test]
fn test_create_and_find_user() {
    let repo = InMemoryUserRepository::new();

    let email = Email::new("test@example.com").unwrap();
    let user = User::new(email, "Test User");
    let user_id = user.id;

    repo.save(&user).unwrap();

    let found = repo.find_by_id(&user_id).unwrap();
    assert!(found.is_some());

    let found_user = found.unwrap();
    assert_eq!(found_user.name, "Test User");
    assert_eq!(found_user.email.as_str(), "test@example.com");
}

#[test]
fn user_repository_tests_test_find_by_email() {
    let repo = InMemoryUserRepository::new();

    let email = Email::new("unique@example.com").unwrap();
    let user = User::new(email.clone(), "Unique User");

    repo.save(&user).unwrap();

    let found = repo.find_by_email(&email).unwrap();
    assert!(found.is_some());
    assert_eq!(found.unwrap().name, "Unique User");
}

#[test]
fn test_user_not_found() {
    let repo = InMemoryUserRepository::new();

    let random_id = UserId::new();
    let found = repo.find_by_id(&random_id).unwrap();

    assert!(found.is_none());
}

#[test]
fn test_delete_user() {
    let repo = InMemoryUserRepository::new();

    let email = Email::new("delete@example.com").unwrap();
    let user = User::new(email, "Delete Me");
    let user_id = user.id;

    repo.save(&user).unwrap();
    assert!(repo.find_by_id(&user_id).unwrap().is_some());

    repo.delete(&user_id).unwrap();
    assert!(repo.find_by_id(&user_id).unwrap().is_none());
}

#[test]
fn test_list_users() {
    let repo = InMemoryUserRepository::new();

    let user1 = User::new(Email::new("user1@example.com").unwrap(), "User 1");
    let user2 = User::new(Email::new("user2@example.com").unwrap(), "User 2");
    let user3 = User::new(Email::new("user3@example.com").unwrap(), "User 3");

    repo.save(&user1).unwrap();
    repo.save(&user2).unwrap();
    repo.save(&user3).unwrap();

    let users = repo.list().unwrap();
    assert_eq!(users.len(), 3);
}

#[test]
fn test_update_user() {
    let repo = InMemoryUserRepository::new();

    let email = Email::new("update@example.com").unwrap();
    let mut user = User::new(email, "Original Name");
    let user_id = user.id;

    repo.save(&user).unwrap();

    user.name = "Updated Name".to_string();
    user.updated_at = Timestamp::now();
    repo.save(&user).unwrap();

    let found = repo.find_by_id(&user_id).unwrap().unwrap();
    assert_eq!(found.name, "Updated Name");
}

#[test]
fn test_concurrent_access() {
    let repo = Arc::new(InMemoryUserRepository::new());
    let runtime = tokio::runtime::Runtime::new().unwrap();

    runtime.block_on(async {
        let mut handles = vec![];

        for i in 0..10 {
            let repo_clone = repo.clone();
            let handle = tokio::spawn(async move {
                let email = Email::new(&format!("user{}@example.com", i)).unwrap();
                let user = User::new(email, &format!("User {}", i));
                repo_clone.save(&user).unwrap();
            });
            handles.push(handle);
        }

        for handle in handles {
            handle.await.unwrap();
        }
    });

    let users = repo.list().unwrap();
    assert_eq!(users.len(), 10);
}
