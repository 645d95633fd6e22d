use service_lib::datetime::{
    representable_nanos, DateTime, ISO8601_SIX_DIGIT_YEAR_CONFIG, MAX_UNIX_TIMESTAMP, MIN_UNIX_TIMESTAMP,
    NANOS_PER_SECOND, YEAR_ZERO_LOCAL_TIMESTAMP,
};
use time::format_description::well_known::iso8601::Config;
use service_lib::entity::{ShortUrl, ShortUrlRecord};
use service_lib::util::serde::{iso8601, opt_iso8601, opt_timestamp};

const T0: i128 = 1_672_628_645_000_000_000; // 2023-01-02T03:04:05Z

fn at(nanos: i128) -> DateTime {
    DateTime { unix_nanos: nanos, offset_seconds: 0 }
}

#[test]
fn new_short_url_is_active_and_fresh() {
    let e = ShortUrl::new("abc".into(), "http://example.com".into(), None, 7);
    assert!(e.active);
    assert_eq!(e.created, e.updated);
    assert_eq!(e.created.offset_seconds, 0);
    assert_eq!(e.slug, "abc");
    assert_eq!(e.creator_id, 7);
    assert!(!e.expired());
    assert!(e.responsive());
}

#[test]
fn new_at_uses_the_given_instant() {
    let e = ShortUrl::new_at("s".into(), "u".into(), Some(at(T0 + 10)), 1, at(T0));
    assert_eq!(e.created, at(T0));
    assert_eq!(e.updated, at(T0));
    assert!(!e.expired_at(&at(T0 + 10)));
    assert!(e.expired_at(&at(T0 + 11)));
    assert!(e.responsive_at(&at(T0 + 10)));
    assert!(!e.responsive_at(&at(T0 + 11)));
}

#[test]
fn expiry_compares_instants_not_offsets() {
    let expires = DateTime { unix_nanos: T0, offset_seconds: 7200 };
    let e = ShortUrl::new_at("s".into(), "u".into(), Some(expires), 1, at(0));
    assert!(!e.expired_at(&DateTime { unix_nanos: T0, offset_seconds: -3600 }));
    assert!(e.expired_at(&DateTime { unix_nanos: T0 + 1, offset_seconds: 0 }));
}

#[test]
fn inactive_is_never_responsive() {
    let mut e = ShortUrl::new_at("s".into(), "u".into(), None, 1, at(0));
    e.active = false;
    assert!(!e.responsive_at(&at(0)));
    assert!(!e.responsive());
    assert!(!e.expired());
}

#[test]
fn past_expiry_is_expired_now() {
    let e = ShortUrl::new_at("s".into(), "u".into(), Some(at(0)), 1, at(0));
    assert!(e.expired());
    assert!(!e.responsive());
}

#[test]
fn record_round_trip() {
    let e = ShortUrl::new_at("slug".into(), "http://x".into(), Some(at(5)), 9, at(1));
    let rec = ShortUrlRecord::from(e.clone());
    assert_eq!(rec.long_url, "http://x");
    let back = rec.to_entity("slug".to_string());
    assert_eq!(back.slug, e.slug);
    assert_eq!(back.created, e.created);
    assert_eq!(back.updated, e.updated);
    assert_eq!(back.long_url, e.long_url);
    assert_eq!(back.active, e.active);
    assert_eq!(back.expires, e.expires);
    assert_eq!(back.creator_id, e.creator_id);
}

#[test]
fn new_is_created_now_in_utc() {
    let e = ShortUrl::new("s".into(), "u".into(), None, 1);
    assert_eq!(e.created.offset_seconds, 0);
    assert!(e.created.unix_nanos > T0);
}

#[test]
fn unix_timestamp_rounds_towards_the_past() {
    assert_eq!(at(T0).unix_timestamp(), 1_672_628_645);
    assert_eq!(at(1_999_999_999).unix_timestamp(), 1);
    assert_eq!(at(-1).unix_timestamp(), -1);
    assert_eq!(at(-1_000_000_000).unix_timestamp(), -1);
    assert_eq!(at(-1_000_000_001).unix_timestamp(), -2);
}

#[test]
fn timestamp_range() {
    assert_eq!(opt_timestamp::deserialize(Some(1_672_628_645)), Ok(Some(at(T0))));
    assert!(opt_timestamp::deserialize(Some(MIN_UNIX_TIMESTAMP)).unwrap().is_some());
    assert!(opt_timestamp::deserialize(Some(MAX_UNIX_TIMESTAMP)).unwrap().is_some());
    assert_eq!(opt_timestamp::deserialize(Some(MIN_UNIX_TIMESTAMP - 1)), Err(()));
    assert_eq!(opt_timestamp::deserialize(Some(MAX_UNIX_TIMESTAMP + 1)), Err(()));
    assert!(representable_nanos(MIN_UNIX_TIMESTAMP as i128 * 1_000_000_000));
    assert!(!representable_nanos(MIN_UNIX_TIMESTAMP as i128 * 1_000_000_000 - 1));
    assert!(representable_nanos((MAX_UNIX_TIMESTAMP as i128 + 1) * 1_000_000_000 - 1));
    assert!(!representable_nanos((MAX_UNIX_TIMESTAMP as i128 + 1) * 1_000_000_000));
}

#[test]
fn opt_timestamp_values() {
    assert_eq!(opt_timestamp::deserialize(None), Ok(None));
    assert_eq!(opt_timestamp::deserialize(Some(1_672_628_645)), Ok(Some(at(T0))));
    assert_eq!(opt_timestamp::deserialize(Some(i64::MAX)), Err(()));
    assert_eq!(opt_timestamp::serialize(&None), None);
    assert_eq!(opt_timestamp::serialize(&Some(at(T0 + 999_999_999))), Some(1_672_628_645));
    let back = opt_timestamp::deserialize(Some(-86_400)).unwrap();
    assert_eq!(opt_timestamp::serialize(&back), Some(-86_400));
}

#[test]
fn iso8601_values() {
    let d = iso8601::deserialize("2023-01-02T03:04:05Z").unwrap();
    assert_eq!(d, at(T0));
    assert_eq!(d.offset_seconds, 0);
    let d = iso8601::deserialize("2023-01-02T05:04:05+02:00").unwrap();
    assert_eq!(d.unix_nanos, T0);
    assert_eq!(d.offset_seconds, 7200);
    let d = iso8601::deserialize("+002023-01-02T03:04:05.000000000Z").unwrap();
    assert_eq!(d, at(T0));
    assert_eq!(iso8601::deserialize("not a date"), Err(()));
    assert_eq!(iso8601::serialize(&at(T0)).unwrap(), "+002023-01-02T03:04:05.000000000Z");
    assert_eq!(
        iso8601::serialize(&DateTime { unix_nanos: T0, offset_seconds: 7200 }).unwrap(),
        "+002023-01-02T05:04:05.000000000+02:00"
    );
    // 0000-01-01T00:00:00Z less one second: a negative year.
    let before_year_zero = at((YEAR_ZERO_LOCAL_TIMESTAMP as i128 - 1) * NANOS_PER_SECOND);
    assert_eq!(iso8601::serialize(&before_year_zero).unwrap(), "-000001-12-31T23:59:59.000000000Z");
    assert_eq!(opt_iso8601::serialize(&Some(before_year_zero)), Err(()));
    assert_eq!(iso8601::serialize(&DateTime { unix_nanos: T0, offset_seconds: 30 }), Err(()));
    assert_eq!(opt_iso8601::deserialize(None), Ok(None));
    assert_eq!(opt_iso8601::deserialize(Some("garbage".into())), Err(()));
    assert_eq!(opt_iso8601::deserialize(Some("2023-01-02T03:04:05Z".into())), Ok(Some(at(T0))));
    assert_eq!(opt_iso8601::serialize(&None), Ok(None));
    let text = opt_iso8601::serialize(&Some(DateTime { unix_nanos: T0, offset_seconds: 7200 }))
        .unwrap()
        .unwrap();
    assert_eq!(text, "2023-01-02T05:04:05.000000000+02:00");
    let back = opt_iso8601::deserialize(Some(text)).unwrap().unwrap();
    assert_eq!(back.unix_nanos, T0);
    assert_eq!(back.offset_seconds, 7200);
}

#[test]
fn six_digit_year_config_is_the_serde_one() {
    assert_eq!(ISO8601_SIX_DIGIT_YEAR_CONFIG, Config::DEFAULT.set_year_is_six_digits(true).encode());
}

#[test]
fn equality_compares_instants() {
    let a = DateTime { unix_nanos: T0, offset_seconds: 0 };
    let b = DateTime { unix_nanos: T0, offset_seconds: 7200 };
    assert_eq!(a, b);
    assert_ne!(a, at(T0 + 1));
}

#[test]
fn before_compares_instants() {
    let a = DateTime { unix_nanos: 5, offset_seconds: 3600 };
    let b = DateTime { unix_nanos: 6, offset_seconds: -3600 };
    assert!(a.before(&b));
    assert!(!b.before(&a));
    assert!(!a.before(&a));
}

#[test]
fn iso8601_text_reads_back() {
    let instants: [i128; 9] = [
        T0,
        T0 + 1,
        T0 + 999_999_999,
        0,
        -1,
        MIN_UNIX_TIMESTAMP as i128 * NANOS_PER_SECOND,
        (MAX_UNIX_TIMESTAMP as i128 + 1) * NANOS_PER_SECOND - 1,
        YEAR_ZERO_LOCAL_TIMESTAMP as i128 * NANOS_PER_SECOND,
        YEAR_ZERO_LOCAL_TIMESTAMP as i128 * NANOS_PER_SECOND - 123_456_789,
    ];
    let offsets: [i32; 7] = [0, 7200, -1800, 93_540, -93_540, 60, -60];
    let mut written = 0;
    for nanos in instants {
        for offset in offsets {
            let d = DateTime { unix_nanos: nanos, offset_seconds: offset };
            if let Ok(text) = iso8601::serialize(&d) {
                written += 1;
                let back = iso8601::deserialize(&text).unwrap();
                assert_eq!((back.unix_nanos, back.offset_seconds), (nanos, offset), "{}", text);
            }
            if let Ok(Some(text)) = opt_iso8601::serialize(&Some(d)) {
                written += 1;
                let back = opt_iso8601::deserialize(Some(text.clone())).unwrap().unwrap();
                assert_eq!((back.unix_nanos, back.offset_seconds), (nanos, offset), "{}", text);
            }
        }
    }
    assert!(written > 40);
}
