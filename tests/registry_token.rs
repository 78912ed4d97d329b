use teeclaude::error::{status_of, ApiError};
use teeclaude::registry::TokenRegistry;
use teeclaude::token::{Token, TOKEN_LEN, TOKEN_TTL_MILLIS};

#[test]
fn token_valid_until_ttl_elapses() {
    let issued = 1_700_000_000_000i64;
    let t = Token::issue("tok".to_string(), issued);
    assert_eq!(t.expires_at, issued + 86_400_000);
    assert!(t.is_valid_at(issued));
    assert!(t.is_valid_at(issued + TOKEN_TTL_MILLIS - 1));
    assert!(!t.is_valid_at(issued + TOKEN_TTL_MILLIS));
    assert!(!t.is_valid_at(issued + 2 * TOKEN_TTL_MILLIS));
}

#[test]
fn token_expiry_saturates() {
    let t = Token::issue("tok".to_string(), i64::MAX - 5);
    assert_eq!(t.expires_at, i64::MAX);
}

#[test]
fn generated_token_is_short_and_url_safe() {
    let t = Token::generate();
    assert_eq!(t.value.chars().count(), TOKEN_LEN);
    assert!(t.value.chars().all(|c| c.is_ascii_alphanumeric() || c == '_' || c == '-'));
    assert!(t.is_valid());
    let u = Token::generate();
    assert_ne!(t.value, u.value);
}

#[test]
fn validate_reports_expiry_only_when_valid() {
    let mut reg: TokenRegistry<u8> = TokenRegistry::new();
    let t = Token::issue("abc".to_string(), 100);
    reg.add(&t, 1);
    let v = reg.validate("abc", 100);
    assert!(v.valid);
    assert_eq!(v.expires_at, Some(100 + TOKEN_TTL_MILLIS));
    let late = reg.validate("abc", 100 + TOKEN_TTL_MILLIS);
    assert!(!late.valid);
    assert_eq!(late.expires_at, None);
    let unknown = reg.validate("zzz", 100);
    assert!(!unknown.valid);
    assert_eq!(unknown.expires_at, None);
}

#[test]
fn get_valid_refuses_expired_and_unknown() {
    let mut reg: TokenRegistry<u8> = TokenRegistry::new();
    let t = Token::issue("abc".to_string(), 0);
    reg.add(&t, 9);
    assert_eq!(*reg.get_valid("abc", 10).ok().unwrap(), 9);
    assert!(matches!(reg.get_valid("abc", TOKEN_TTL_MILLIS), Err(ApiError::Unauthorized)));
    assert!(matches!(reg.get_valid("nope", 10), Err(ApiError::Unauthorized)));
    assert_eq!(*reg.get("abc").unwrap(), 9);
    assert!(reg.get("nope").is_none());
    assert_eq!(ApiError::Unauthorized.status_code(), 401);
}

#[test]
fn create_token_registers_hub() {
    let mut reg: TokenRegistry<u8> = TokenRegistry::new();
    let t = reg.create_token(3);
    assert_eq!(reg.len(), 1);
    assert_eq!(*reg.get(&t.value).unwrap(), 3);
    assert!(reg.validate(&t.value, t.expires_at - 1).valid);
}

#[test]
fn re_adding_a_token_replaces_its_hub() {
    let mut reg: TokenRegistry<u8> = TokenRegistry::new();
    let t = Token::issue("abc".to_string(), 0);
    reg.add(&t, 1);
    reg.add(&t, 2);
    assert_eq!(reg.len(), 1);
    assert_eq!(*reg.get("abc").unwrap(), 2);
}

#[test]
fn status_counts_tokens_and_sessions() {
    let mut reg: TokenRegistry<u8> = TokenRegistry::new();
    reg.add(&Token::issue("a".to_string(), 0), 0);
    reg.add(&Token::issue("b".to_string(), 1_000_000_000), 0);
    reg.add(&Token::issue("c".to_string(), 1_000_000_000), 0);
    let now = TOKEN_TTL_MILLIS + 5;
    let st = reg.status(&vec![2, 0, 3], now);
    assert_eq!(st.tokens.len(), 3);
    assert_eq!(st.tokens[0].token, "a");
    assert!(!st.tokens[0].is_valid);
    assert!(st.tokens[1].is_valid);
    assert_eq!(st.tokens[2].sessions, 3);
    assert_eq!(st.summary.total_tokens, 3);
    assert_eq!(st.summary.valid_tokens, 2);
    assert_eq!(st.summary.total_sessions, 5);
}

#[test]
fn status_of_empty_registry() {
    let reg: TokenRegistry<u8> = TokenRegistry::new();
    let st = reg.status(&Vec::new(), 0);
    assert!(st.tokens.is_empty());
    assert_eq!(st.summary.total_tokens, 0);
    assert_eq!(st.summary.valid_tokens, 0);
    assert_eq!(st.summary.total_sessions, 0);
}

#[test]
fn status_codes_for_each_outcome() {
    assert_eq!(status_of(Ok(())), 200);
    assert_eq!(status_of(Err(ApiError::Unauthorized)), 401);
    assert_eq!(status_of(Err(ApiError::NotFound)), 404);
    assert_eq!(status_of(Err(ApiError::Unavailable)), 503);
    assert_eq!(status_of(Err(ApiError::Internal)), 500);
    assert_eq!(ApiError::Internal.status_code(), 500);
}
