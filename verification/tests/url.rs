use service_lib::datetime::DateTime;
use service_lib::router::short_url_service::{
    create_short_url, create_status, CreateAction, CreateShortUrlBody, CreateShortUrlError,
    STATUS_CREATED, STATUS_UNPROCESSABLE_ENTITY,
};

fn is_base62(c: char) -> bool {
    c.is_ascii_alphanumeric()
}

/// Runs the creation flow against a database that holds the given slugs.
fn run_create(body: CreateShortUrlBody, taken: &[&str]) -> (CreateAction, Vec<String>) {
    let (mut flow, mut action) = create_short_url(body);
    let mut looked_up = Vec::new();
    loop {
        match action {
            CreateAction::CheckExists(slug) => {
                let exists = taken.contains(&slug.as_str());
                looked_up.push(slug);
                action = flow.on_lookup(exists);
            }
            other => return (other, looked_up),
        }
    }
}

#[test]
fn create_url() {
    let dto = CreateShortUrlBody {
        long_url: "http://example.com".into(),
        expires: None,
        slug: None,
    };
    let (action, _) = run_create(dto, &[]);
    assert_eq!(create_status(&action), Some(STATUS_CREATED));
    match action {
        CreateAction::Store(user) => {
            assert_eq!(user.long_url, "http://example.com");
            assert_eq!(user.expires, None);
            assert_eq!(user.slug.len(), 8);
            assert_eq!(user.active, true);
        }
        _ => panic!("expected the short url to be stored"),
    }
}

#[test]
fn create_url_with_slug() {
    let dto = CreateShortUrlBody {
        long_url: "http://example.com".into(),
        expires: None,
        slug: Some("My_Custom_Slug".into()),
    };
    let (action, looked_up) = run_create(dto, &[]);
    assert_eq!(create_status(&action), Some(STATUS_CREATED));
    assert_eq!(looked_up, vec!["My_Custom_Slug".to_string()]);
    match action {
        CreateAction::Store(user) => {
            assert_eq!(user.long_url, "http://example.com");
            assert_eq!(user.expires, None);
            assert_eq!(user.slug, "My_Custom_Slug");
            assert_eq!(user.active, true);
        }
        _ => panic!("expected the short url to be stored"),
    }
}

#[test]
fn create_url_with_taken_slug_is_refused() {
    let dto = CreateShortUrlBody {
        long_url: "http://example.com".into(),
        expires: None,
        slug: Some("taken".into()),
    };
    let (action, looked_up) = run_create(dto, &["taken"]);
    assert_eq!(create_status(&action), Some(STATUS_UNPROCESSABLE_ENTITY));
    assert_eq!(looked_up.len(), 1);
    match action {
        CreateAction::Reject(e) => assert_eq!(e, CreateShortUrlError::ShortUrlExist),
        _ => panic!("expected a refusal"),
    }
}

#[test]
fn create_url_retries_taken_random_slug() {
    let expires = DateTime { unix_nanos: 1_672_628_645_000_000_000, offset_seconds: 3600 };
    let body = CreateShortUrlBody {
        long_url: "http://example.com/a".into(),
        expires: Some(expires),
        slug: None,
    };
    let (mut flow, first) = create_short_url(body);
    let first_slug = match first {
        CreateAction::CheckExists(s) => s,
        _ => panic!("expected a lookup"),
    };
    assert!(!flow.custom);
    assert_eq!(flow.candidate, first_slug);
    let second = flow.on_lookup(true);
    let second_slug = match second {
        CreateAction::CheckExists(s) => s,
        _ => panic!("expected another lookup"),
    };
    assert!(second_slug.len() <= 8 && second_slug.chars().all(is_base62));
    match flow.on_lookup(false) {
        CreateAction::Store(e) => {
            assert_eq!(e.slug, second_slug);
            assert_eq!(e.expires, Some(expires));
            assert_eq!(e.created, e.updated);
            assert_eq!(e.created.offset_seconds, 0);
        }
        _ => panic!("expected the short url to be stored"),
    }
}

