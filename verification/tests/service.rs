use service_lib::datetime::DateTime;
use service_lib::entity::ShortUrlRecord;
use service_lib::router::short_url_service::{
    list_short_url, redirect_at, redirect_short_url, RedirectPlan, STATUS_FOUND, STATUS_INTERNAL_SERVER_ERROR,
    STATUS_NOT_FOUND, STATUS_OK,
};
use service_lib::router::slug::{make_random_short_url, slug_from_salt};

const T0: i128 = 1_672_628_645_000_000_000; // 2023-01-02T03:04:05Z

fn at(nanos: i128) -> DateTime {
    DateTime { unix_nanos: nanos, offset_seconds: 0 }
}

fn record(active: bool, expires: Option<DateTime>) -> ShortUrlRecord {
    ShortUrlRecord {
        created: at(0),
        updated: at(0),
        long_url: "http://example.com".into(),
        active,
        expires,
        creator_id: 3,
    }
}

#[test]
fn slug_from_salt_known_value() {
    // base62 of SHA256("http://example.com" ++ [1, 2, 3, 4]) read as one number, cut to eight.
    assert_eq!(slug_from_salt("http://example.com", vec![1, 2, 3, 4]), "ZWvO96f9");
    assert_eq!(slug_from_salt("", vec![0, 0, 0, 0]), "qwD2sVgi");
    assert_eq!(slug_from_salt("https://example.org/a", vec![255, 255, 255, 255]), "lOYk7Gbc");
}

#[test]
fn random_slugs_are_short_and_alphanumeric() {
    for url in ["http://example.com", "", "héllo wörld"] {
        let s = make_random_short_url(url);
        assert!(!s.is_empty() && s.chars().count() <= 8, "{:?}", s);
        assert!(s.chars().all(|c| c.is_ascii_alphanumeric()));
    }
}

#[test]
fn redirect_unknown_slug_is_not_found() {
    assert!(matches!(redirect_at("x".into(), None, &at(T0)), RedirectPlan::NotFound));
    assert_eq!(redirect_short_url("x".into(), None).unwrap_err(), STATUS_NOT_FOUND);
}

#[test]
fn redirect_inactive_or_expired_is_not_found() {
    assert!(matches!(redirect_at("x".into(), Some(record(false, None)), &at(T0)), RedirectPlan::NotFound));
    assert!(matches!(
        redirect_at("x".into(), Some(record(true, Some(at(T0 - 1)))), &at(T0)),
        RedirectPlan::NotFound
    ));
    assert_eq!(redirect_short_url("x".into(), Some(record(true, Some(at(0))))).unwrap_err(), STATUS_NOT_FOUND);
}

#[test]
fn redirect_active_leads_to_long_url() {
    match redirect_at("x".into(), Some(record(true, Some(at(T0)))), &at(T0)) {
        RedirectPlan::Found { location, expires } => {
            assert_eq!(location, "http://example.com");
            assert_eq!(expires, Some(at(T0)));
        }
        RedirectPlan::NotFound => panic!("expected a redirect"),
    }
    let r = redirect_short_url("x".into(), Some(record(true, None))).unwrap();
    assert_eq!(r.status, STATUS_FOUND);
    assert_eq!(r.location, "http://example.com");
    assert_eq!(r.expires, None);
    let far = at(4_102_444_800_000_000_000); // 2100-01-01T00:00:00Z
    let r = redirect_short_url("x".into(), Some(record(true, Some(far)))).unwrap();
    assert_eq!(r.expires, Some(b"Fri, 01 Jan 2100 00:00:00 +0000".to_vec()));
    let east = DateTime { unix_nanos: far.unix_nanos, offset_seconds: 7200 };
    let r = redirect_short_url("x".into(), Some(record(true, Some(east)))).unwrap();
    assert_eq!(r.expires, Some(b"Fri, 01 Jan 2100 02:00:00 +0200".to_vec()));
}

#[test]
fn list_gives_every_record_under_its_key() {
    let (status, list) = list_short_url(vec![
        ("abc".to_string(), record(true, None)),
        ("Xy12".to_string(), record(false, Some(at(1)))),
    ]);
    assert_eq!(status, STATUS_OK);
    assert_eq!(list.len(), 2);
    assert_eq!(list[0].slug, "abc");
    assert_eq!(list[1].slug, "Xy12");
    assert!(list[0].active && !list[1].active);
    assert_eq!(list[0].long_url, "http://example.com");
    assert_eq!(list[1].expires, Some(at(1)));
    let (status, list) = list_short_url(vec![]);
    assert_eq!(status, STATUS_OK);
    assert!(list.is_empty());
}

#[test]
fn redirect_with_unwritable_expiry_is_a_server_error() {
    let far = 4_102_444_800_000_000_000; // 2100-01-01T00:00:00Z
    let odd_offset = DateTime { unix_nanos: far, offset_seconds: 30 };
    assert_eq!(
        redirect_short_url("x".into(), Some(record(true, Some(odd_offset)))).unwrap_err(),
        STATUS_INTERNAL_SERVER_ERROR
    );
    // 9999-12-31T23:00:00Z is 10000-01-01T01:00:00 two hours east.
    let last_hour = DateTime { unix_nanos: 253_402_297_200_000_000_000, offset_seconds: 7200 };
    assert_eq!(
        redirect_short_url("x".into(), Some(record(true, Some(last_hour)))).unwrap_err(),
        STATUS_INTERNAL_SERVER_ERROR
    );
    let written = DateTime { unix_nanos: 253_402_297_200_000_000_000, offset_seconds: 0 };
    let r = redirect_short_url("x".into(), Some(record(true, Some(written)))).unwrap();
    assert_eq!(r.expires, Some(b"Fri, 31 Dec 9999 23:00:00 +0000".to_vec()));
}
