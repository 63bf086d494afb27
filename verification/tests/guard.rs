use door_gateway::auth::generate_token_at;
use door_gateway::middlewares::auth::{admit_at, bearer_token, intercept_request, intercept_request_at};

const SECRET: &str = "a-signing-secret";
const NOW: u64 = 1_700_000_000;

fn header_for(token: &str) -> Option<String> {
    Some(format!("Bearer {}", token))
}

#[test]
fn bearer_token_is_what_follows_the_prefix() {
    assert_eq!(bearer_token("Bearer abc.def.ghi"), Some("abc.def.ghi".to_string()));
    assert_eq!(bearer_token("Bearer "), Some(String::new()));
    assert_eq!(bearer_token("Bearer  two"), Some(" two".to_string()));
    assert_eq!(bearer_token("Bearer çã"), Some("çã".to_string()));
    assert_eq!(bearer_token("bearer abc"), None);
    assert_eq!(bearer_token("Bearer"), None);
    assert_eq!(bearer_token("Bearerabc"), None);
    assert_eq!(bearer_token(" Bearer abc"), None);
    assert_eq!(bearer_token("Basic abc"), None);
    assert_eq!(bearer_token(""), None);
}

#[test]
fn request_with_a_good_token_goes_on() {
    let token = generate_token_at(7, "ana@example.com".to_string(), SECRET, Some(NOW)).unwrap();
    assert_eq!(intercept_request_at(&header_for(&token), SECRET, NOW), Ok(()));
    assert_eq!(intercept_request_at(&header_for(&token), SECRET, NOW + 86399), Ok(()));
    let claims = admit_at(&header_for(&token), SECRET, NOW).unwrap();
    assert_eq!(claims.user_id, 7);
    assert_eq!(claims.email, "ana@example.com");
}

#[test]
fn request_is_turned_away_with_401() {
    let token = generate_token_at(7, "ana@example.com".to_string(), SECRET, Some(NOW)).unwrap();
    assert_eq!(intercept_request_at(&None, SECRET, NOW), Err(401));
    assert_eq!(intercept_request_at(&Some(token.clone()), SECRET, NOW), Err(401));
    assert_eq!(intercept_request_at(&Some(format!("Basic {}", token)), SECRET, NOW), Err(401));
    assert_eq!(intercept_request_at(&header_for(&token), SECRET, NOW + 86400), Err(401));
    assert_eq!(intercept_request_at(&header_for(&token), "another-secret", NOW), Err(401));
    assert_eq!(intercept_request_at(&header_for(&token[..token.len() - 3]), SECRET, NOW), Err(401));
    assert_eq!(intercept_request_at(&header_for(""), SECRET, NOW), Err(401));
    assert!(admit_at(&header_for(&token), SECRET, NOW + 86400).is_none());
}

#[test]
fn request_is_judged_by_the_clock() {
    let fresh = door_gateway::auth::generate_token(7, "ana@example.com".to_string(), SECRET).unwrap();
    assert_eq!(intercept_request(&header_for(&fresh), SECRET), Ok(()));
    let stale = generate_token_at(7, "ana@example.com".to_string(), SECRET, Some(1_000)).unwrap();
    assert_eq!(intercept_request(&header_for(&stale), SECRET), Err(401));
    assert_eq!(intercept_request(&None, SECRET), Err(401));
}

#[test]
fn request_is_judged_by_the_clock_reading_it_is_given() {
    let token = generate_token_at(7, "ana@example.com".to_string(), SECRET, Some(NOW)).unwrap();
    let header = header_for(&token);
    let let_in = |reading| door_gateway::middlewares::auth::admit_reading(&header, SECRET, reading);
    assert_eq!(let_in(Some((NOW, 0))).unwrap().user_id, 7);
    assert_eq!(let_in(Some((NOW + 86399, 5))).unwrap().email, "ana@example.com");
    assert!(let_in(Some((NOW + 86400, 0))).is_none());
    assert!(let_in(None).is_none());
    assert!(door_gateway::middlewares::auth::admit_reading(&None, SECRET, Some((NOW, 0))).is_none());
}
