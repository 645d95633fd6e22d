//! The short-url entity and the record that the database keeps of it.

use vstd::prelude::*;
use crate::datetime::{now_utc, DateTime};

verus! {

/// A short url: the slug that names it and the long url it redirects to.
#[derive(Debug)]
pub struct ShortUrl {
    /// Short url slug and record ID.
    pub slug: String,
    pub created: DateTime,
    pub updated: DateTime,
    pub long_url: String,
    pub active: bool,
    pub expires: Option<DateTime>,
    /// The ULID of the creator, as its 128-bit value.
    pub creator_id: u128,
}

impl Clone for ShortUrl {
    fn clone(&self) -> (r: Self)
        ensures
            r == *self,
    {
        ShortUrl {
            slug: self.slug.clone(),
            created: self.created,
            updated: self.updated,
            long_url: self.long_url.clone(),
            active: self.active,
            expires: self.expires,
            creator_id: self.creator_id,
        }
    }
}

impl ShortUrl {
    /// Whether the short url has expired at the instant `now`: it has an
    /// expiry date and that date is earlier than `now`.
    pub open spec fn expired_at_spec(&self, now: DateTime) -> bool {
        self.expires matches Some(e) && e.unix_nanos < now.unix_nanos
    }

    /// Whether the short url can be redirected at the instant `now`.
    pub open spec fn responsive_at_spec(&self, now: DateTime) -> bool {
        self.active && !self.expired_at_spec(now)
    }

    /// A new, active short url created at `now`; it was last updated when
    /// it was created.
    pub fn new_at(
        slug: String,
        long_url: String,
        expires: Option<DateTime>,
        creator_id: u128,
        now: DateTime,
    ) -> (r: Self)
        ensures
            r == (ShortUrl {
                slug,
                created: now,
                updated: now,
                long_url,
                active: true,
                expires,
                creator_id,
            }),
    {
        ShortUrl { slug, created: now, updated: now, long_url, active: true, expires, creator_id }
    }

    /// A new, active short url created now, in UTC.
    pub fn new(slug: String, long_url: String, expires: Option<DateTime>, creator_id: u128) -> (r: Self)
        ensures
            r.slug == slug,
            r.long_url == long_url,
            r.expires == expires,
            r.creator_id == creator_id,
            r.active,
            r.updated == r.created,
            r.created.offset_seconds == 0,
    {
        let created = now_utc();
        Self::new_at(slug, long_url, expires, creator_id, created)
    }

    /// Whether the short url has expired at the instant `now`.
    pub fn expired_at(&self, now: &DateTime) -> (r: bool)
        ensures
            r == self.expired_at_spec(*now),
    {
        match &self.expires {
            Some(expires) => expires.before(now),
            None => false,
        }
    }

    /// Verify if the ShortUrl is expired, at the current time.
    pub fn expired(&self) -> (r: bool)
        ensures
            exists|now: DateTime| now.offset_seconds == 0 && r == self.expired_at_spec(now),
            self.expires is None ==> !r,
    {
        let now = now_utc();
        let r = self.expired_at(&now);
        assert(now.offset_seconds == 0 && r == self.expired_at_spec(now));
        r
    }

    /// Whether the short url can be redirected at the instant `now`.
    pub fn responsive_at(&self, now: &DateTime) -> (r: bool)
        ensures
            r == self.responsive_at_spec(*now),
    {
        self.active && !self.expired_at(now)
    }

    /// Verify if the ShortUrl can be redirected, at the current time.
    pub fn responsive(&self) -> (r: bool)
        ensures
            exists|now: DateTime| now.offset_seconds == 0 && r == self.responsive_at_spec(now),
            r ==> self.active,
            self.expires is None ==> r == self.active,
    {
        let now = now_utc();
        let r = self.responsive_at(&now);
        assert(now.offset_seconds == 0 && r == self.responsive_at_spec(now));
        r
    }
}

/// What the database keeps of a short url; the slug is the record's id.
#[derive(Debug)]
pub struct ShortUrlRecord {
    pub created: DateTime,
    pub updated: DateTime,
    pub long_url: String,
    pub active: bool,
    pub expires: Option<DateTime>,
    pub creator_id: u128,
}

impl Clone for ShortUrlRecord {
    fn clone(&self) -> (r: Self)
        ensures
            r == *self,
    {
        ShortUrlRecord {
            created: self.created,
            updated: self.updated,
            long_url: self.long_url.clone(),
            active: self.active,
            expires: self.expires,
            creator_id: self.creator_id,
        }
    }
}

/// The entity that a record stands for under the id `slug`.
pub open spec fn record_entity(record: ShortUrlRecord, slug: String) -> ShortUrl {
    ShortUrl {
        slug,
        created: record.created,
        updated: record.updated,
        long_url: record.long_url,
        active: record.active,
        expires: record.expires,
        creator_id: record.creator_id,
    }
}

/// The record that the database keeps of an entity: all but the slug.
pub open spec fn entity_record(value: ShortUrl) -> ShortUrlRecord {
    ShortUrlRecord {
        created: value.created,
        updated: value.updated,
        long_url: value.long_url,
        active: value.active,
        expires: value.expires,
        creator_id: value.creator_id,
    }
}

impl ShortUrlRecord {
    /// The entity that this record stands for under the id `slug`.
    pub fn to_entity(self, slug: String) -> (r: ShortUrl)
        ensures
            r == record_entity(self, slug),
    {
        ShortUrl {
            slug,
            created: self.created,
            updated: self.updated,
            long_url: self.long_url,
            active: self.active,
            expires: self.expires,
            creator_id: self.creator_id,
        }
    }
}

impl From<ShortUrl> for ShortUrlRecord {
    fn from(value: ShortUrl) -> (r: Self) {
        ShortUrlRecord {
            created: value.created,
            updated: value.updated,
            long_url: value.long_url,
            active: value.active,
            expires: value.expires,
            creator_id: value.creator_id,
        }
    }
}

impl vstd::std_specs::convert::FromSpecImpl<ShortUrl> for ShortUrlRecord {
    open spec fn obeys_from_spec() -> bool {
        true
    }

    open spec fn from_spec(value: ShortUrl) -> Self {
        entity_record(value)
    }
}

/// Storing an entity as a record and reading the record back under the
/// entity's slug gives the entity again.
pub proof fn law_record_round_trip(value: ShortUrl)
    ensures
        record_entity(entity_record(value), value.slug) == value,
{
}

/// Reading a record under some slug and storing the entity again gives the
/// record back.
pub proof fn law_entity_round_trip(record: ShortUrlRecord, slug: String)
    ensures
        entity_record(record_entity(record, slug)) == record,
{
}

/// An expired short url stays expired: expiry is monotone in time.
pub proof fn law_expiry_is_permanent(value: ShortUrl, earlier: DateTime, later: DateTime)
    requires
        earlier.unix_nanos <= later.unix_nanos,
        value.expired_at_spec(earlier),
    ensures
        value.expired_at_spec(later),
        !value.responsive_at_spec(later),
{
}

/// A short url without an expiry date never expires.
pub proof fn law_no_expiry_never_expires(value: ShortUrl, now: DateTime)
    requires
        value.expires is None,
    ensures
        !value.expired_at_spec(now),
        value.responsive_at_spec(now) == value.active,
{
}

} // verus!
