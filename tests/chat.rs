use chat_core::model::{Identity, Message, Timestamp, User};
use chat_core::reducers::{
    client_connected, identity_disconnected, send_message, set_name, ReducerContext, UserWrite,
};
use chat_core::store::{Anomaly, ChatDb};
use chat_core::validation::{validate_message, validate_name};

fn id(n: u128) -> Identity {
    Identity { high: 7, low: n }
}

fn ctx(n: u128, t: i64) -> ReducerContext {
    ReducerContext { sender: id(n), timestamp: Timestamp { micros_since_unix_epoch: t } }
}

fn user_fields(u: &User) -> (Identity, Option<String>, bool) {
    (u.identity, u.name.clone(), u.online)
}

fn message_fields(m: &Message) -> (Identity, i64, String) {
    (m.sender, m.sent.micros_since_unix_epoch, m.text.clone())
}

#[test]
fn validation_keeps_non_empty_text() {
    assert_eq!(validate_name("Alice".to_string()), Ok("Alice".to_string()));
    assert_eq!(validate_message("hi".to_string()), Ok("hi".to_string()));
    assert_eq!(validate_name("  padded ".to_string()), Ok("  padded ".to_string()));
    assert_eq!(validate_message(" ".to_string()), Ok(" ".to_string()));
}

#[test]
fn validation_rejects_empty_text() {
    assert_eq!(validate_name(String::new()), Err("Names must not be empty".to_string()));
    assert_eq!(validate_message(String::new()), Err("Messages must not be empty".to_string()));
}

#[test]
fn decide_set_name() {
    let found = User { identity: id(1), name: None, online: true };
    let u = set_name(Some(found), "Alice".to_string()).unwrap();
    assert_eq!(user_fields(&u), (id(1), Some("Alice".to_string()), true));
    let found = User { identity: id(1), name: None, online: true };
    assert_eq!(set_name(Some(found), String::new()).unwrap_err(), "Names must not be empty");
    assert_eq!(set_name(None, "X".to_string()).unwrap_err(), "Cannot set name for unknown user");
    assert_eq!(set_name(None, String::new()).unwrap_err(), "Names must not be empty");
}

#[test]
fn decide_send_message() {
    let m = send_message(&ctx(2, 42), "hello".to_string()).unwrap();
    assert_eq!(message_fields(&m), (id(2), 42, "hello".to_string()));
    assert_eq!(send_message(&ctx(2, 42), String::new()).unwrap_err(), "Messages must not be empty");
}

#[test]
fn decide_client_connected() {
    match client_connected(&ctx(3, 0), None) {
        UserWrite::Insert(u) => assert_eq!(user_fields(&u), (id(3), None, true)),
        UserWrite::Update(_) => panic!("a new identity is inserted"),
    }
    let found = User { identity: id(3), name: Some("Cy".to_string()), online: false };
    match client_connected(&ctx(3, 0), Some(found)) {
        UserWrite::Update(u) => assert_eq!(user_fields(&u), (id(3), Some("Cy".to_string()), true)),
        UserWrite::Insert(_) => panic!("a known identity is updated"),
    }
}

#[test]
fn decide_identity_disconnected() {
    assert!(identity_disconnected(None).is_none());
    let found = User { identity: id(4), name: Some("Di".to_string()), online: true };
    let u = identity_disconnected(Some(found)).unwrap();
    assert_eq!(user_fields(&u), (id(4), Some("Di".to_string()), false));
}

#[test]
fn connect_set_name_send_and_disconnect() {
    let a = ctx(10, 1_000);
    let mut db = ChatDb::new();
    db.on_connect(&a);
    assert_eq!(user_fields(&db.find_by_identity(id(10)).unwrap()), (id(10), None, true));
    assert_eq!(db.set_name(&a, "Alice".to_string()), Ok(()));
    assert_eq!(
        user_fields(&db.find_by_identity(id(10)).unwrap()),
        (id(10), Some("Alice".to_string()), true)
    );
    let before = db.message_count();
    assert_eq!(db.send_message(&a, "hi".to_string()), Ok(()));
    assert_eq!(db.message_count(), before + 1);
    assert_eq!(message_fields(&db.message_at(before).unwrap()), (id(10), 1_000, "hi".to_string()));
    assert_eq!(db.on_disconnect(&a), None);
    assert_eq!(
        user_fields(&db.find_by_identity(id(10)).unwrap()),
        (id(10), Some("Alice".to_string()), false)
    );
}

#[test]
fn empty_message_leaves_log_unchanged() {
    let b = ctx(11, 5);
    let mut db = ChatDb::new();
    assert_eq!(db.send_message(&b, "first".to_string()), Ok(()));
    assert_eq!(db.send_message(&b, String::new()), Err("Messages must not be empty".to_string()));
    assert_eq!(db.message_count(), 1);
}

#[test]
fn unknown_user_cannot_set_name() {
    let c = ctx(12, 5);
    let mut db = ChatDb::new();
    assert_eq!(db.set_name(&c, "X".to_string()), Err("Cannot set name for unknown user".to_string()));
    assert!(db.find_by_identity(id(12)).is_none());
    assert_eq!(db.user_count(), 0);
}

#[test]
fn empty_name_changes_nothing() {
    let a = ctx(13, 5);
    let mut db = ChatDb::new();
    db.on_connect(&a);
    assert_eq!(db.set_name(&a, "Ann".to_string()), Ok(()));
    assert_eq!(db.set_name(&a, String::new()), Err("Names must not be empty".to_string()));
    assert_eq!(
        user_fields(&db.find_by_identity(id(13)).unwrap()),
        (id(13), Some("Ann".to_string()), true)
    );
}

#[test]
fn disconnect_without_connect_is_reported() {
    let d = ctx(14, 5);
    let mut db = ChatDb::new();
    assert_eq!(db.on_disconnect(&d), Some(Anomaly::DisconnectOfUnknownUser(id(14))));
    assert!(db.find_by_identity(id(14)).is_none());
    assert_eq!(db.user_count(), 0);
}

#[test]
fn connecting_twice_keeps_one_online_record() {
    let a = ctx(15, 5);
    let mut db = ChatDb::new();
    db.on_connect(&a);
    assert_eq!(db.set_name(&a, "Eve".to_string()), Ok(()));
    db.on_connect(&a);
    db.on_connect(&a);
    assert_eq!(db.user_count(), 1);
    assert_eq!(
        user_fields(&db.find_by_identity(id(15)).unwrap()),
        (id(15), Some("Eve".to_string()), true)
    );
}

#[test]
fn connect_then_disconnect_goes_offline() {
    let a = ctx(16, 5);
    let mut db = ChatDb::new();
    db.on_connect(&a);
    db.on_disconnect(&a);
    assert_eq!(user_fields(&db.find_by_identity(id(16)).unwrap()), (id(16), None, false));
    assert_eq!(db.set_name(&a, "Fay".to_string()), Ok(()));
    db.on_connect(&a);
    assert_eq!(db.on_disconnect(&a), None);
    assert_eq!(
        user_fields(&db.find_by_identity(id(16)).unwrap()),
        (id(16), Some("Fay".to_string()), false)
    );
}

#[test]
fn identities_are_kept_apart() {
    let a = ctx(17, 5);
    let b = ctx(18, 6);
    let mut db = ChatDb::new();
    db.on_connect(&a);
    db.on_connect(&b);
    assert_eq!(db.set_name(&b, "Bo".to_string()), Ok(()));
    db.on_disconnect(&a);
    assert_eq!(db.user_count(), 2);
    assert_eq!(user_fields(&db.find_by_identity(id(17)).unwrap()), (id(17), None, false));
    assert_eq!(
        user_fields(&db.find_by_identity(id(18)).unwrap()),
        (id(18), Some("Bo".to_string()), true)
    );
}

#[test]
fn messages_keep_their_order_and_senders() {
    let mut db = ChatDb::new();
    assert_eq!(db.send_message(&ctx(19, 1), "one".to_string()), Ok(()));
    assert_eq!(db.send_message(&ctx(20, 2), "two".to_string()), Ok(()));
    assert_eq!(db.message_count(), 2);
    assert_eq!(message_fields(&db.message_at(0).unwrap()), (id(19), 1, "one".to_string()));
    assert_eq!(message_fields(&db.message_at(1).unwrap()), (id(20), 2, "two".to_string()));
    assert!(db.message_at(2).is_none());
}
