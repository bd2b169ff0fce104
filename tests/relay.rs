use fcm_relay::app::{App, AuthError, CreateNotificationService, CreateTokenService, DeleteTokenService};
use fcm_relay::dispatch::{validate, ValidationError, NOTIFICATION_ICON, NOTIFICATION_TITLE};
use fcm_relay::registry::Registry;

fn app_with_secret() -> App {
    App::new("s3cret".to_owned())
}

#[test]
fn create_then_get_returns_token() {
    let mut app = app_with_secret();
    let id = app.create_token("abcd1234".to_owned()).unwrap();
    assert_eq!(id.len(), 72);
    assert!(id.chars().all(|c| c.is_ascii_hexdigit() && !c.is_ascii_uppercase()));
    assert_ne!(id, "abcd1234");
    let all = app.list_tokens();
    assert_eq!(all.len(), 1);
    assert_eq!(all[0].id, id);
    assert_eq!(all[0].token, "abcd1234");
}

#[test]
fn registry_insert_get_delete() {
    let mut r = Registry::new();
    assert!(r.insert("a".to_owned(), 5, "tok".to_owned()));
    assert!(!r.insert("a".to_owned(), 6, "other".to_owned()));
    let t = r.get(&"a".to_owned()).unwrap();
    assert_eq!(t.token, "tok");
    assert_eq!(t.created_at, 5);
    assert!(r.contains(&"a".to_owned()));
    r.delete(&"a".to_owned());
    assert!(r.get(&"a".to_owned()).is_none());
}

#[test]
fn delete_is_idempotent() {
    let mut app = app_with_secret();
    let id = app.create_token("t".to_owned()).unwrap();
    app.delete_token(id.clone());
    app.delete_token(id.clone());
    app.delete_token("unknown".to_owned());
    assert!(app.list_tokens().is_empty());
}

#[test]
fn resolve_omits_unknown_ids() {
    let mut r = Registry::new();
    r.insert("id1".to_owned(), 1, "t1".to_owned());
    let out = r.resolve(&vec!["id1".to_owned(), "unknown".to_owned()]);
    assert_eq!(out.len(), 1);
    assert_eq!(out[0].id, "id1");
    assert_eq!(out[0].token, "t1");
}

#[test]
fn empty_message_is_invalid() {
    let app = app_with_secret();
    let r = app.create_notification(vec![], String::new(), "https://evil.example/".to_owned());
    assert_eq!(r.unwrap_err(), ValidationError::InvalidMessage);
    assert_eq!(ValidationError::InvalidMessage.describe(), "invalid message");
}

#[test]
fn foreign_url_is_invalid() {
    let app = app_with_secret();
    let r = app.create_notification(vec![], "hi".to_owned(), "https://evil.example/".to_owned());
    assert_eq!(r.unwrap_err(), ValidationError::InvalidUrl);
    assert_eq!(ValidationError::InvalidUrl.describe(), "invalid url");
}

#[test]
fn allowed_origins() {
    let m = "m".to_owned();
    assert!(validate(&m, &"https://bouzuya.net/x".to_owned()).is_ok());
    assert!(validate(&m, &"https://blog.bouzuya.net/2024".to_owned()).is_ok());
    assert_eq!(validate(&m, &"http://bouzuya.net/".to_owned()), Err(ValidationError::InvalidUrl));
}

#[test]
fn dispatch_reaches_only_known_tokens() {
    let mut app = app_with_secret();
    let id = app.create_token("device-1".to_owned()).unwrap();
    let msgs = app
        .create_notification(
            vec![id, "unknown".to_owned()],
            "hello".to_owned(),
            "https://bouzuya.net/x".to_owned(),
        )
        .unwrap();
    assert_eq!(msgs.len(), 1);
    assert_eq!(msgs[0].token, "device-1");
    assert_eq!(msgs[0].body, "hello");
    assert_eq!(msgs[0].url, "https://bouzuya.net/x");
    assert_eq!(msgs[0].title, "bouzuya.net からのお知らせ");
    assert_eq!(msgs[0].title, NOTIFICATION_TITLE);
    assert_eq!(msgs[0].icon, NOTIFICATION_ICON);
    assert!(msgs[0].require_interaction);
}

#[test]
fn test_notification_targets_one_token() {
    let mut app = app_with_secret();
    let id = app.create_token("device-2".to_owned()).unwrap();
    let msgs = CreateNotificationService::create_test_notification(&app, id).unwrap();
    assert_eq!(msgs.len(), 1);
    assert_eq!(msgs[0].body, "テスト通知です");
    assert_eq!(msgs[0].url, "https://bouzuya.net/");
    let none = app.create_test_notification("unknown".to_owned()).unwrap();
    assert!(none.is_empty());
}

#[test]
fn admin_gate_outcomes() {
    let app = app_with_secret();
    assert_eq!(app.authorize(None).err(), Some(AuthError::Unauthorized));
    assert_eq!(app.authorize(Some("Bearer wrong")).err(), Some(AuthError::Forbidden));
    assert!(app.authorize(Some("Bearer s3cret")).is_ok());
    assert!(app.authorize(Some("s3cret")).is_ok());
    assert_eq!(app.authorize(Some("Bearer Bearer s3cret")).err(), Some(AuthError::Forbidden));
    assert_eq!(app.authorize(Some("")).err(), Some(AuthError::Forbidden));
    assert!(app.is_admin("s3cret"));
    assert!(!app.is_admin("Bearer s3cret"));
}

#[test]
fn admin_listing_gives_ids_and_times() {
    let mut app = app_with_secret();
    let a = app.create_token("ta".to_owned()).unwrap();
    let b = app.create_token("tb".to_owned()).unwrap();
    let auth = app.authorize(Some("Bearer s3cret")).ok().unwrap();
    let body = app.list(auth);
    let mut ids: Vec<String> = body.tokens.iter().map(|t| t.id.clone()).collect();
    ids.sort();
    let mut want = vec![a, b];
    want.sort();
    assert_eq!(ids, want);
    assert!(body.tokens.iter().all(|t| t.created_at > 0));
}

#[test]
fn many_creates_give_distinct_ids() {
    let mut app = app_with_secret();
    let mut ids = Vec::new();
    for i in 0..20 {
        ids.push(CreateTokenService::create_token(&mut app, format!("t{}", i)).unwrap());
    }
    let mut listed: Vec<String> = app.list_tokens().into_iter().map(|t| t.id).collect();
    listed.sort();
    ids.sort();
    ids.dedup();
    assert_eq!(ids.len(), 20);
    assert_eq!(listed, ids);
    assert!(DeleteTokenService::delete_token(&mut app, listed[0].clone()).is_ok());
    assert_eq!(app.list_tokens().len(), 19);
}

#[test]
fn drawn_bytes_become_hex_id() {
    let mut app = app_with_secret();
    let id = app.register_drawn(&vec![0x00, 0xab, 0x1f, 0xff], 42, "dev".to_owned());
    assert_eq!(id, "00ab1fff");
    let again = app.register_drawn(&vec![0x00, 0xab, 0x1f, 0xff], 43, "other".to_owned());
    assert_eq!(again, "00ab1fff");
    let all = app.list_tokens();
    assert_eq!(all.len(), 1);
    assert_eq!(all[0].token, "dev");
    assert_eq!(all[0].created_at, 42);
}
