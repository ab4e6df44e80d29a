use auth_core::repo::{MemoryUserStore, RepoError, UserRepository};
use auth_core::user::UserRole;

fn seeded_store() -> (MemoryUserStore, u128) {
    let mut store = MemoryUserStore::new();
    let user = store
        .save_user("alice", "a@x.com", "hash-a", "tok-a", 2000, 1000)
        .unwrap();
    (store, user.id)
}

#[test]
fn save_and_lookup_by_each_criterion() {
    let (store, id) = seeded_store();
    let by_id = store.get_user(Some(id), None, None, None).unwrap();
    assert_eq!(by_id.email, "a@x.com");
    assert_eq!(by_id.role, UserRole::User);
    assert!(!by_id.verified);
    assert_eq!(by_id.created_at, 1000);
    let by_name = store.get_user(None, Some("alice"), None, None).unwrap();
    assert_eq!(by_name.id, id);
    let by_email = store.get_user(None, None, Some("a@x.com"), None).unwrap();
    assert_eq!(by_email.name, "alice");
    let by_token = store.get_user(None, None, None, Some("tok-a")).unwrap();
    assert_eq!(by_token.id, id);
    assert_eq!(by_token.token_expires_at, Some(2000));
    assert!(store.get_user(None, None, None, None).is_none());
    assert!(store.get_user(None, None, Some("b@x.com"), None).is_none());
    assert!(store.get_user(Some(id + 1), None, None, None).is_none());
}

#[test]
fn duplicate_email_rejected() {
    let (mut store, _) = seeded_store();
    assert_eq!(
        store.save_user("bob", "a@x.com", "h", "t", 0, 0).unwrap_err(),
        RepoError::DuplicateEmail
    );
    assert_eq!(store.get_user_count(), 1);
}

#[test]
fn consumption_is_single_use() {
    let (mut store, id) = seeded_store();
    store.verified_token("tok-a", 1500);
    assert!(store.get_user(None, None, None, Some("tok-a")).is_none());
    let user = store.get_user(Some(id), None, None, None).unwrap();
    assert!(user.verified);
    assert!(user.verification_token.is_none());
    assert!(user.token_expires_at.is_none());
    assert_eq!(user.updated_at, 1500);
    // consuming again changes nothing
    store.verified_token("tok-a", 1600);
    assert!(store.get_user(None, None, None, Some("tok-a")).is_none());
    let user = store.get_user(Some(id), None, None, None).unwrap();
    assert_eq!(user.updated_at, 1500);
}

#[test]
fn plain_consumption_clears_token_without_verifying() {
    let (mut store, id) = seeded_store();
    store.consume_token("tok-a", 1500);
    assert!(store.get_user(None, None, None, Some("tok-a")).is_none());
    let user = store.get_user(Some(id), None, None, None).unwrap();
    assert!(!user.verified);
    assert!(user.verification_token.is_none());
    assert!(user.token_expires_at.is_none());
}

#[test]
fn add_verified_token_overwrites_pending_token() {
    let (mut store, id) = seeded_store();
    store.add_verified_token(id, "tok-b", 9999, 1500);
    assert!(store.get_user(None, None, None, Some("tok-a")).is_none());
    let u = store.get_user(None, None, None, Some("tok-b")).unwrap();
    assert_eq!(u.id, id);
    assert_eq!(u.token_expires_at, Some(9999));
}

#[test]
fn listing_is_newest_first_and_paged() {
    let mut store = MemoryUserStore::new();
    for i in 0..5u64 {
        let name = format!("user{}", i);
        let email = format!("u{}@x.com", i);
        store.save_user(&name, &email, "h", "t", 0, i).unwrap();
    }
    let page1 = store.get_users(1, 2);
    assert_eq!(page1.len(), 2);
    assert_eq!(page1[0].name, "user4");
    assert_eq!(page1[1].name, "user3");
    let page3 = store.get_users(3, 2);
    assert_eq!(page3.len(), 1);
    assert_eq!(page3[0].name, "user0");
    assert!(store.get_users(4, 2).is_empty());
    // page zero behaves like page one
    assert_eq!(store.get_users(0, 2)[0].name, "user4");
    assert_eq!(store.get_user_count(), 5);
}

#[test]
fn updates_replace_single_fields() {
    let (mut store, id) = seeded_store();
    let u = store.update_username(id, "alicia", 2000).unwrap();
    assert_eq!(u.name, "alicia");
    assert_eq!(u.updated_at, 2000);
    let u = store.update_user_role(id, UserRole::Admin, 2001).unwrap();
    assert_eq!(u.role, UserRole::Admin);
    assert_eq!(u.name, "alicia");
    let u = store.update_user_password(id, "hash-b", 2002).unwrap();
    assert_eq!(u.password, "hash-b");
    assert_eq!(u.email, "a@x.com");
    assert!(store.update_username(id + 7, "x", 0).is_none());
    assert!(store.update_user_role(id + 7, UserRole::User, 0).is_none());
    assert!(store.update_user_password(id + 7, "h", 0).is_none());
}
