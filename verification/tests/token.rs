use rustc_serialize::json::Json;
use vkrs::response::{find_i64, find_string, find_u64};
use vkrs::time::MAX_CLOCK_SECS;
use vkrs::{AccessToken, AccessTokenLifetime, Instant, ParseError};

fn json(text: &str) -> Json {
    Json::from_str(text).unwrap()
}

fn at(secs: i64) -> Instant {
    Instant::from_timestamp(secs)
}

#[test]
fn instant_parts() {
    let t = Instant::new(10, 999_999_999).unwrap();
    assert_eq!(t.timestamp(), 10);
    assert_eq!(t.subsec_nanos(), 999_999_999);
    assert!(Instant::new(10, 1_000_000_000).is_none());
    assert!(Instant::new(10, u32::MAX).is_none());
    assert_eq!(at(-5).timestamp(), -5);
    assert_eq!(at(-5).subsec_nanos(), 0);
}

#[test]
fn instant_order() {
    let a = Instant::new(10, 5).unwrap();
    let b = Instant::new(10, 6).unwrap();
    let c = Instant::new(11, 0).unwrap();
    let d = Instant::new(-1, 999_999_999).unwrap();
    assert!(a.le(&a));
    assert!(a.le(&b));
    assert!(!b.le(&a));
    assert!(b.le(&c));
    assert!(!c.le(&b));
    assert!(d.le(&at(0)));
    assert!(!at(0).le(&d));
}

#[test]
fn instant_checked_add_seconds() {
    let t = Instant::new(10, 7).unwrap();
    assert_eq!(t.checked_add_seconds(5), Instant::new(15, 7));
    assert_eq!(t.checked_add_seconds(-20), Instant::new(-10, 7));
    assert_eq!(t.checked_add_seconds(i64::MAX), None);
    assert_eq!(t.checked_add_seconds(i64::MAX - 10), Instant::new(i64::MAX, 7));
    assert_eq!(at(-1).checked_add_seconds(i64::MIN), None);
}

#[test]
fn clock_reads_a_plausible_time() {
    let now = Instant::now();
    assert!(now.timestamp() > 1_500_000_000);
    assert!(now.timestamp() < MAX_CLOCK_SECS);
    assert!(now.subsec_nanos() < 1_000_000_000);
    let later = Instant::now();
    assert!(now.le(&later) || later.timestamp() >= now.timestamp() - 1);
}

#[test]
fn lifetime_is_not_expired_when_issued_for_a_positive_time() {
    let now = Instant::new(1000, 500).unwrap();
    let lifetime = AccessTokenLifetime::issued_at(now, 1).unwrap();
    assert!(!lifetime.expired_at(now));
    let lifetime = AccessTokenLifetime::issued_at(now, 3600).unwrap();
    assert!(!lifetime.expired_at(now));
}

#[test]
fn lifetime_is_expired_when_issued_for_no_time() {
    let now = Instant::new(1000, 500).unwrap();
    assert!(AccessTokenLifetime::issued_at(now, 0).unwrap().expired_at(now));
    assert!(AccessTokenLifetime::issued_at(now, -1).unwrap().expired_at(now));
    assert!(AccessTokenLifetime::issued_at(now, i64::MIN + 2000).unwrap().expired_at(now));
}

#[test]
fn lifetime_expires_at_its_end_and_not_before() {
    let now = Instant::new(1000, 500).unwrap();
    let lifetime = AccessTokenLifetime::issued_at(now, 60).unwrap();
    assert_eq!(lifetime.expires(), Instant::new(1060, 500).unwrap());
    assert!(!lifetime.expired_at(Instant::new(1060, 499).unwrap()));
    assert!(lifetime.expired_at(Instant::new(1060, 500).unwrap()));
    assert!(lifetime.expired_at(Instant::new(1060, 501).unwrap()));
    assert!(lifetime.expired_at(at(2000)));
    assert!(!lifetime.expired_at(at(1060)));
}

#[test]
fn lifetime_out_of_range_is_none() {
    let now = at(1000);
    assert!(AccessTokenLifetime::issued_at(now, i64::MAX).is_none());
    assert!(AccessTokenLifetime::issued_at(now, i64::MAX - 1000).is_some());
    assert!(AccessTokenLifetime::issued_at(now, i64::MAX - 999).is_none());
    assert!(AccessTokenLifetime::issued_at(at(-1), i64::MIN).is_none());
}

#[test]
fn lifetime_timestamp_round_trip() {
    let lifetime = AccessTokenLifetime::from_timestamp(1431648000);
    assert_eq!(lifetime.timestamp(), 1431648000);
    assert_eq!(AccessTokenLifetime::from_timestamp(lifetime.timestamp()), lifetime);
    let now = Instant::new(10, 500_000_000).unwrap();
    let lifetime = AccessTokenLifetime::issued_at(now, 5).unwrap();
    assert_eq!(lifetime.timestamp(), 15);
    assert_eq!(AccessTokenLifetime::from_timestamp(-7).timestamp(), -7);
}

#[test]
fn lifetime_equality_is_that_of_the_end() {
    let a = AccessTokenLifetime::issued_at(at(100), 50).unwrap();
    let b = AccessTokenLifetime::issued_at(at(120), 30).unwrap();
    let c = AccessTokenLifetime::issued_at(at(120), 31).unwrap();
    assert_eq!(a, b);
    assert_ne!(a, c);
    assert_eq!(a, AccessTokenLifetime::from_timestamp(150));
}

#[test]
fn lifetime_against_the_system_clock() {
    assert!(AccessTokenLifetime::from_timestamp(0).expired());
    assert!(!AccessTokenLifetime::from_timestamp(i64::MAX).expired());
    let soon = AccessTokenLifetime::issued_at(Instant::now(), 3600).unwrap();
    assert!(!soon.expired());
    let past = AccessTokenLifetime::issued_at(Instant::now(), 0).unwrap();
    assert!(past.expired());
}

#[test]
fn lifetime_from_expires_in() {
    let now = at(1000);
    assert_eq!(
        AccessTokenLifetime::from_expires_in(Some(3600), now),
        Ok(AccessTokenLifetime::from_timestamp(4600))
    );
    assert_eq!(
        AccessTokenLifetime::from_expires_in(None, now),
        Err(ParseError::ExpectedFieldType("expires_in", "i64"))
    );
    assert_eq!(
        AccessTokenLifetime::from_expires_in(Some(i64::MAX), now),
        Err(ParseError::ExpectedFieldValue(
            "expires_in",
            "seconds within the range of the clock"
        ))
    );
}

#[test]
fn lifetime_from_response() {
    let now = at(1000);
    let payload = json(r#"{"expires_in":3600}"#);
    let lifetime = AccessTokenLifetime::from_response_at(&payload, now).unwrap();
    assert_eq!(lifetime.timestamp(), 4600);
    let lifetime = AccessTokenLifetime::from_response(&payload).unwrap();
    assert!(!lifetime.expired());
    assert!(lifetime.timestamp() > 1_500_000_000);
    assert_eq!(
        AccessTokenLifetime::from_response(&json(r#"{"expires":3600}"#)),
        Err(ParseError::ExpectedFieldType("expires_in", "i64"))
    );
    assert_eq!(
        AccessTokenLifetime::from_response_at(&json(r#"{"expires_in":"3600"}"#), now),
        Err(ParseError::ExpectedFieldType("expires_in", "i64"))
    );
    assert_eq!(
        AccessTokenLifetime::from_response_at(&json(r#"{"expires_in":1.5}"#), now),
        Err(ParseError::ExpectedFieldType("expires_in", "i64"))
    );
    let negative = AccessTokenLifetime::from_response_at(&json(r#"{"expires_in":-5}"#), now);
    assert_eq!(negative, Ok(AccessTokenLifetime::from_timestamp(995)));
    assert!(negative.unwrap().expired_at(now));
}

#[test]
fn fields_are_found_by_name_and_type() {
    let payload = json(r#"{"a":"text","b":7,"c":-7,"d":1.5,"e":null,"f":[1],"g":{"a":1}}"#);
    assert_eq!(find_string(&payload, "a"), Some(String::from("text")));
    assert_eq!(find_string(&payload, "b"), None);
    assert_eq!(find_string(&payload, "missing"), None);
    assert_eq!(find_u64(&payload, "b"), Some(7));
    assert_eq!(find_u64(&payload, "c"), None);
    assert_eq!(find_u64(&payload, "a"), None);
    assert_eq!(find_u64(&payload, "d"), None);
    assert_eq!(find_u64(&payload, "missing"), None);
    assert_eq!(find_i64(&payload, "b"), Some(7));
    assert_eq!(find_i64(&payload, "c"), Some(-7));
    assert_eq!(find_i64(&payload, "d"), None);
    assert_eq!(find_i64(&payload, "e"), None);
    assert_eq!(find_i64(&payload, "f"), None);
    assert_eq!(find_i64(&payload, "g"), None);
    assert_eq!(find_u64(&json("[1,2]"), "0"), None);
    assert_eq!(find_string(&json(r#""a""#), "a"), None);
}

#[test]
fn token_response_without_email() {
    let payload = json(r#"{"user_id":42,"access_token":"tok","expires_in":3600}"#);
    let now = at(1000);
    let token = AccessToken::from_response_at(&payload, now).unwrap();
    assert_eq!(token.email(), None);
    assert_eq!(token.user_id(), 42);
    assert_eq!(token.access_token(), "tok");
    assert_eq!(token.scope(), None);
    assert_eq!(token.lifetime().timestamp(), 4600);
    assert!(!token.expired_at(now));
    assert!(token.expired_at(at(4600)));
}

#[test]
fn token_response_with_email() {
    let payload = json(
        r#"{"email":"a@b.c","user_id":42,"access_token":"tok","expires_in":3600,"more":true}"#,
    );
    let token = AccessToken::from_response_at(&payload, at(0)).unwrap();
    assert_eq!(token.email(), Some("a@b.c"));
    assert_eq!(token.user_id(), 42);
    let numeric = json(r#"{"email":5,"user_id":42,"access_token":"tok","expires_in":3600}"#);
    let token = AccessToken::from_response_at(&numeric, at(0)).unwrap();
    assert_eq!(token.email(), None);
}

#[test]
fn token_response_missing_user_id() {
    let payload = json(r#"{"access_token":"tok","expires_in":3600}"#);
    assert_eq!(
        AccessToken::from_response_at(&payload, at(1000)),
        Err(ParseError::ExpectedFieldType("user_id", "u64"))
    );
    assert_eq!(
        AccessToken::from_response(&payload),
        Err(ParseError::ExpectedFieldType("user_id", "u64"))
    );
}

#[test]
fn token_response_reports_the_first_missing_field() {
    let now = at(1000);
    assert_eq!(
        AccessToken::from_response_at(&json("{}"), now),
        Err(ParseError::ExpectedFieldType("user_id", "u64"))
    );
    assert_eq!(
        AccessToken::from_response_at(&json(r#"{"user_id":1}"#), now),
        Err(ParseError::ExpectedFieldType("access_token", "string"))
    );
    assert_eq!(
        AccessToken::from_response_at(&json(r#"{"user_id":1,"access_token":"t"}"#), now),
        Err(ParseError::ExpectedFieldType("expires_in", "i64"))
    );
    assert_eq!(
        AccessToken::from_response_at(&json(r#"{"user_id":-1,"access_token":"t","expires_in":1}"#), now),
        Err(ParseError::ExpectedFieldType("user_id", "u64"))
    );
    assert_eq!(
        AccessToken::from_response_at(&json(r#"{"user_id":"1","access_token":"t","expires_in":1}"#), now),
        Err(ParseError::ExpectedFieldType("user_id", "u64"))
    );
    assert_eq!(
        AccessToken::from_response_at(&json(r#"{"user_id":1,"access_token":7,"expires_in":1}"#), now),
        Err(ParseError::ExpectedFieldType("access_token", "string"))
    );
    assert_eq!(
        AccessToken::from_response_at(&json("[]"), now),
        Err(ParseError::ExpectedFieldType("user_id", "u64"))
    );
}

#[test]
fn token_response_with_a_lifetime_out_of_range() {
    let payload = json(r#"{"user_id":1,"access_token":"t","expires_in":9223372036854775806}"#);
    assert_eq!(
        AccessToken::from_response_at(&payload, at(1000)),
        Err(ParseError::ExpectedFieldValue(
            "expires_in",
            "seconds within the range of the clock"
        ))
    );
    assert!(AccessToken::from_response_at(&payload, at(1)).is_ok());
}

#[test]
fn token_from_fields() {
    let now = at(1000);
    let token = AccessToken::from_fields(
        Some(String::from("a@b.c")),
        Some(42),
        Some(String::from("tok")),
        Some(3600),
        now,
    )
    .unwrap();
    assert_eq!(token.email(), Some("a@b.c"));
    assert_eq!(token.user_id(), 42);
    assert_eq!(token.access_token(), "tok");
    assert_eq!(token.lifetime(), &AccessTokenLifetime::from_timestamp(4600));
    assert_eq!(
        AccessToken::from_fields(None, None, None, None, now),
        Err(ParseError::ExpectedFieldType("user_id", "u64"))
    );
    assert_eq!(
        AccessToken::from_fields(None, Some(1), None, None, now),
        Err(ParseError::ExpectedFieldType("access_token", "string"))
    );
    assert_eq!(
        AccessToken::from_fields(None, Some(1), Some(String::new()), None, now),
        Err(ParseError::ExpectedFieldType("expires_in", "i64"))
    );
}

#[test]
fn token_read_now_is_valid_for_its_lifetime() {
    let payload = json(r#"{"user_id":42,"access_token":"tok","expires_in":3600}"#);
    let token = AccessToken::from_response(&payload).unwrap();
    assert!(!token.expired());
    assert_eq!(token.user_id(), 42);
    assert_eq!(token.access_token(), "tok");
    let stale = json(r#"{"user_id":42,"access_token":"tok","expires_in":0}"#);
    assert!(AccessToken::from_response(&stale).unwrap().expired());
}

#[test]
fn token_clone_is_equal() {
    let payload = json(r#"{"email":"e","user_id":42,"access_token":"tok","expires_in":3600}"#);
    let token = AccessToken::from_response_at(&payload, at(5)).unwrap();
    assert_eq!(token.clone(), token);
}

#[test]
fn parse_errors_read_as_sentences() {
    assert_eq!(
        ParseError::ExpectedFieldType("user_id", "u64").to_string(),
        "Expected field user_id of type u64"
    );
    assert_eq!(
        ParseError::ExpectedFieldValue("expires_in", "1").to_string(),
        "Expected field expires_in to equal 1"
    );
}

#[test]
fn tokens_compare_by_what_they_hold() {
    let now = at(7);
    let make = |email: Option<&str>, id: u64, token: &str, expires_in: i64| {
        AccessToken::from_fields(
            email.map(String::from),
            Some(id),
            Some(String::from(token)),
            Some(expires_in),
            now,
        )
        .unwrap()
    };
    let token = make(Some("e"), 1, "t", 10);
    assert_eq!(token, make(Some("e"), 1, "t", 10));
    assert_ne!(token, make(None, 1, "t", 10));
    assert_ne!(token, make(Some("f"), 1, "t", 10));
    assert_ne!(token, make(Some("e"), 2, "t", 10));
    assert_ne!(token, make(Some("e"), 1, "u", 10));
    assert_ne!(token, make(Some("e"), 1, "t", 11));
    assert_eq!(make(None, 1, "t", 10), make(None, 1, "t", 10));
}

#[test]
fn clock_bound_is_two_to_the_forty_fourth() {
    assert_eq!(MAX_CLOCK_SECS, 1i64 << 44);
}

#[test]
fn token_read_now_with_the_longest_lifetime_that_fits_every_reading() {
    let longest = i64::MAX - MAX_CLOCK_SECS;
    let payload = json(&format!(
        r#"{{"user_id":1,"access_token":"t","expires_in":{}}}"#,
        longest
    ));
    let token = AccessToken::from_response(&payload).unwrap();
    assert!(!token.expired());
    assert!(AccessTokenLifetime::from_response(&payload).is_ok());
    let shortest = i64::MIN + MAX_CLOCK_SECS;
    let payload = json(&format!(
        r#"{{"user_id":1,"access_token":"t","expires_in":{}}}"#,
        shortest
    ));
    assert!(AccessToken::from_response(&payload).unwrap().expired());
}
