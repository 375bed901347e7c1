use coretime_notifier::register::{register_user, RegistrationData, ValidationError};
use coretime_notifier::types::Notifier;
use coretime_notifier::users::{StoreError, User, UserStore};

fn email_user(email: &str) -> User {
    User {
        id: 0,
        email: Some(email.to_string()),
        tg_handle: None,
        notifier: Notifier::Email,
    }
}

fn telegram_user(handle: &str) -> User {
    User {
        id: 0,
        email: None,
        tg_handle: Some(handle.to_string()),
        notifier: Notifier::Telegram,
    }
}

#[test]
fn create_assigns_sequential_ids() {
    let mut store = UserStore::new();
    assert!(store.create_user(&email_user("a@b")).is_ok());
    assert!(store.create_user(&telegram_user("@a")).is_ok());
    let all = store.query_all();
    assert_eq!(all.len(), 2);
    assert_eq!(all[0].id, 1);
    assert_eq!(all[1].id, 2);
}

#[test]
fn queries_find_the_created_record() {
    let mut store = UserStore::new();
    store.create_user(&email_user("a@b")).unwrap();
    store.create_user(&telegram_user("@a")).unwrap();

    let by_id = store.query_by_id(2).unwrap();
    assert_eq!(by_id.tg_handle.as_deref(), Some("@a"));

    let by_email = store.query_by_email(&"a@b".to_string()).unwrap();
    assert_eq!(by_email.id, 1);
    assert_eq!(by_email.notifier, Notifier::Email);

    let by_handle = store.query_by_tg_handle(&"@a".to_string()).unwrap();
    assert_eq!(by_handle.id, 2);
    assert_eq!(by_handle.notifier, Notifier::Telegram);
}

#[test]
fn queries_report_not_found() {
    let store = UserStore::new();
    assert_eq!(store.query_by_id(1).unwrap_err(), StoreError::NotFound);
    assert_eq!(store.query_by_email(&"a@b".to_string()).unwrap_err(), StoreError::NotFound);
    assert_eq!(store.query_by_tg_handle(&"@a".to_string()).unwrap_err(), StoreError::NotFound);
}

#[test]
fn store_rejects_record_without_contact() {
    let mut store = UserStore::new();
    let user = User { id: 0, email: None, tg_handle: None, notifier: Notifier::Null };
    assert_eq!(store.create_user(&user), Err(StoreError::Invalid));
    assert_eq!(store.query_all().len(), 0);
}

#[test]
fn store_rejects_channel_without_handle() {
    let mut store = UserStore::new();
    let no_email = User {
        id: 0,
        email: None,
        tg_handle: Some("@a".to_string()),
        notifier: Notifier::Email,
    };
    assert_eq!(store.create_user(&no_email), Err(StoreError::Invalid));
    let no_handle = User {
        id: 0,
        email: Some("a@b".to_string()),
        tg_handle: None,
        notifier: Notifier::Telegram,
    };
    assert_eq!(store.create_user(&no_handle), Err(StoreError::Invalid));
    assert_eq!(store.query_all().len(), 0);
}

#[test]
fn store_rejects_duplicate_email_and_handle() {
    let mut store = UserStore::new();
    store.create_user(&email_user("a@b")).unwrap();
    store.create_user(&telegram_user("@a")).unwrap();
    assert_eq!(store.create_user(&email_user("a@b")), Err(StoreError::Conflict));
    assert_eq!(store.create_user(&telegram_user("@a")), Err(StoreError::Conflict));
    assert_eq!(store.query_all().len(), 2);
}

#[test]
fn store_accepts_null_notifier_with_contact() {
    let mut store = UserStore::new();
    let user = User {
        id: 0,
        email: Some("quiet@example".to_string()),
        tg_handle: None,
        notifier: Notifier::Null,
    };
    assert!(store.create_user(&user).is_ok());
}

fn email_registration(email: &str) -> RegistrationData {
    RegistrationData {
        id: 7,
        notifier: Notifier::Email,
        email: Some(email.to_string()),
        tg_handle: None,
    }
}

#[test]
fn duplicate_registration_is_rejected_with_message() {
    let mut store = UserStore::new();
    assert!(register_user(&mut store, &email_registration("a@b")).is_ok());
    let err = register_user(&mut store, &email_registration("a@b")).unwrap_err();
    assert_eq!(err.status, 400);
    assert_eq!(err.message, "User already exists");
    assert_eq!(store.query_all().len(), 1);
}

#[test]
fn registration_validates_before_storing() {
    let mut store = UserStore::new();
    let no_contact = RegistrationData {
        id: 1,
        notifier: Notifier::Null,
        email: None,
        tg_handle: None,
    };
    let err = register_user(&mut store, &no_contact).unwrap_err();
    assert_eq!(err.status, 400);
    assert_eq!(err.message, "Email and Telegram cannot be empty");

    let no_email = RegistrationData {
        id: 2,
        notifier: Notifier::Email,
        email: None,
        tg_handle: Some("@a".to_string()),
    };
    let err = register_user(&mut store, &no_email).unwrap_err();
    assert_eq!(err.message, "Email must not be empty");

    let no_handle = RegistrationData {
        id: 3,
        notifier: Notifier::Telegram,
        email: Some("a@b".to_string()),
        tg_handle: None,
    };
    let err = register_user(&mut store, &no_handle).unwrap_err();
    assert_eq!(err.message, "Telegram handle must exist");

    assert_eq!(store.query_all().len(), 0);
}

#[test]
fn validate_reports_each_rule() {
    let ok = RegistrationData {
        id: 1,
        notifier: Notifier::Null,
        email: Some("a@b".to_string()),
        tg_handle: None,
    };
    assert!(ok.validate().is_ok());

    let no_contact = RegistrationData {
        id: 1,
        notifier: Notifier::Email,
        email: None,
        tg_handle: None,
    };
    assert_eq!(no_contact.validate(), Err(ValidationError::MissingContact));
}

#[test]
fn registration_ignores_advisory_id() {
    let mut store = UserStore::new();
    register_user(&mut store, &email_registration("a@b")).unwrap();
    let stored = store.query_by_email(&"a@b".to_string()).unwrap();
    assert_eq!(stored.id, 1);
}
