//! The decisions behind the short-url handlers. The handlers themselves
//! talk to the database; here each one is a function from what was read to
//! what to answer, or, for the creation handler, a state machine that says
//! which lookup or store to do next.

use vstd::prelude::*;
use crate::datetime::{format_rfc2822, now_utc, rfc2822_formattable, rfc2822_text, DateTime};
use crate::entity::{record_entity, ShortUrlRecord};
pub use crate::entity::ShortUrl;
use crate::router::slug::{is_random_slug_for, make_random_short_url, new_ulid};

verus! {

/// HTTP 200 OK.
pub const STATUS_OK: u16 = 200u16;
/// HTTP 201 Created.
pub const STATUS_CREATED: u16 = 201u16;
/// HTTP 302 Found.
pub const STATUS_FOUND: u16 = 302u16;
/// HTTP 404 Not Found.
pub const STATUS_NOT_FOUND: u16 = 404u16;
/// HTTP 422 Unprocessable Entity.
pub const STATUS_UNPROCESSABLE_ENTITY: u16 = 422u16;
/// HTTP 500 Internal Server Error.
pub const STATUS_INTERNAL_SERVER_ERROR: u16 = 500u16;

/// The body of a request to create a short url.
#[derive(Debug)]
pub struct CreateShortUrlBody {
    pub long_url: String,
    pub expires: Option<DateTime>,
    /// A slug that the client asks for; a random one is made when absent.
    pub slug: Option<String>,
}

/// Why a short url was not created.
#[derive(PartialEq, Eq, Structural, Clone, Copy, Debug)]
pub enum CreateShortUrlError {
    /// A short url with the requested slug exists already.
    ShortUrlExist,
}

/// What the creation handler is to do next.
#[derive(Debug)]
pub enum CreateAction {
    /// Look the slug up in the database and report whether a record is
    /// kept under it.
    CheckExists(String),
    /// Store the entity's record under its slug, then answer
    /// `STATUS_CREATED` with the entity.
    Store(ShortUrl),
    /// Answer `STATUS_UNPROCESSABLE_ENTITY` with the error.
    Reject(CreateShortUrlError),
}

/// Where the creation of one short url stands: the slug that was last sent
/// to be looked up, and whether the client chose it.
#[derive(Debug)]
pub struct CreateShortUrl {
    pub long_url: String,
    pub expires: Option<DateTime>,
    /// Whether the candidate slug came from the request.
    pub custom: bool,
    /// The slug that was last sent to be looked up.
    pub candidate: String,
}

/// Whether `e` is the entity that a creation in state `s` stores: an
/// active short url under the candidate slug, for the requested long url
/// and expiry date, created now in UTC.
pub open spec fn is_new_entity_for(s: CreateShortUrl, e: ShortUrl) -> bool {
    &&& e.slug == s.candidate
    &&& e.long_url == s.long_url
    &&& e.expires == s.expires
    &&& e.active
    &&& e.updated == e.created
    &&& e.created.offset_seconds == 0
}

/// Starts creating a short url: the slug the client asked for is looked
/// up first; without one, a random slug is made and looked up.
pub fn create_short_url(data: CreateShortUrlBody) -> (r: (CreateShortUrl, CreateAction))
    ensures
        r.0.long_url == data.long_url,
        r.0.expires == data.expires,
        r.1 == CreateAction::CheckExists(r.0.candidate),
        match data.slug {
            Some(slug) => r.0.custom && r.0.candidate == slug,
            None => !r.0.custom && is_random_slug_for(data.long_url@, r.0.candidate@),
        },
{
    let CreateShortUrlBody { long_url, expires, slug } = data;
    let (custom, candidate) = match slug {
        Some(slug) => (true, slug),
        None => (false, make_random_short_url(long_url.as_str())),
    };
    let action = CreateAction::CheckExists(candidate.clone());
    (CreateShortUrl { long_url, expires, custom, candidate }, action)
}

impl CreateShortUrl {
    /// Takes the answer to the last lookup. A slug the client chose that is
    /// taken is refused; a random slug that is taken is replaced by a new
    /// random slug, which is looked up in turn; a free slug is stored.
    pub fn on_lookup(&mut self, exists: bool) -> (r: CreateAction)
        ensures
            final(self).long_url == old(self).long_url,
            final(self).expires == old(self).expires,
            final(self).custom == old(self).custom,
            exists && old(self).custom ==> *final(self) == *old(self) && r
                == CreateAction::Reject(CreateShortUrlError::ShortUrlExist),
            exists && !old(self).custom ==> is_random_slug_for(
                old(self).long_url@,
                final(self).candidate@,
            ) && r == CreateAction::CheckExists(final(self).candidate),
            !exists ==> *final(self) == *old(self) && (r matches CreateAction::Store(e)
                && is_new_entity_for(*old(self), e)),
    {
        if exists {
            if self.custom {
                CreateAction::Reject(CreateShortUrlError::ShortUrlExist)
            } else {
                let next = make_random_short_url(self.long_url.as_str());
                self.candidate = next;
                CreateAction::CheckExists(self.candidate.clone())
            }
        } else {
            let entity = ShortUrl::new(
                self.candidate.clone(),
                self.long_url.clone(),
                self.expires,
                new_ulid(),
            );
            CreateAction::Store(entity)
        }
    }
}

/// The status code that answers a creation that ended with `action`, or
/// `None` while a lookup is still to be done.
pub fn create_status(action: &CreateAction) -> (r: Option<u16>)
    ensures
        match action {
            CreateAction::CheckExists(_) => r is None,
            CreateAction::Store(_) => r == Some(STATUS_CREATED),
            CreateAction::Reject(_) => r == Some(STATUS_UNPROCESSABLE_ENTITY),
        },
{
    match action {
        CreateAction::CheckExists(_) => None,
        CreateAction::Store(_) => Some(STATUS_CREATED),
        CreateAction::Reject(_) => Some(STATUS_UNPROCESSABLE_ENTITY),
    }
}


/// Where a redirect leads, if anywhere.
#[derive(Debug)]
pub enum RedirectPlan {
    /// Redirect to `location`; `expires` is the short url's expiry date.
    Found { location: String, expires: Option<DateTime> },
    /// There is nothing to redirect to.
    NotFound,
}

/// The answer to a redirect request that leads somewhere.
#[derive(Debug)]
pub struct Redirect {
    /// `STATUS_FOUND`.
    pub status: u16,
    /// The `Location` header: the long url.
    pub location: String,
    /// The `Expires` header: the expiry date in RFC 2822, when there is one.
    pub expires: Option<Vec<u8>>,
}

/// Where a request for `slug` leads at the instant `now`, given the record
/// kept under the slug: to the long url when there is a record and its
/// entity can be redirected at `now`, else nowhere.
pub open spec fn redirect_plan(slug: String, record: Option<ShortUrlRecord>, now: DateTime) -> RedirectPlan {
    match record {
        Some(rec) => if record_entity(rec, slug).responsive_at_spec(now) {
            RedirectPlan::Found { location: rec.long_url, expires: rec.expires }
        } else {
            RedirectPlan::NotFound
        },
        None => RedirectPlan::NotFound,
    }
}

/// Decides where a request for `slug` leads at the instant `now`, given
/// the record kept under the slug.
pub fn redirect_at(slug: String, record: Option<ShortUrlRecord>, now: &DateTime) -> (r: RedirectPlan)
    ensures
        r == redirect_plan(slug, record, *now),
{
    match record {
        Some(rec) => {
            let entity = rec.to_entity(slug);
            if entity.responsive_at(now) {
                let ShortUrl { long_url, expires, .. } = entity;
                RedirectPlan::Found { location: long_url, expires }
            } else {
                RedirectPlan::NotFound
            }
        },
        None => RedirectPlan::NotFound,
    }
}

/// Whether `r` answers a redirect request whose plan is `plan`.
pub open spec fn answers_plan(plan: RedirectPlan, r: Result<Redirect, u16>) -> bool {
    match plan {
        RedirectPlan::NotFound => r == Err::<Redirect, u16>(STATUS_NOT_FOUND),
        RedirectPlan::Found { location, expires } => match expires {
            None => r matches Ok(a) && a.status == STATUS_FOUND && a.location == location
                && a.expires is None,
            Some(e) => if rfc2822_formattable(e.unix_nanos as int, e.offset_seconds as int) {
                r matches Ok(a) && a.status == STATUS_FOUND && a.location == location
                    && (a.expires matches Some(v) && rfc2822_text(e.unix_nanos, e.offset_seconds)
                    == Some(v@))
            } else {
                r == Err::<Redirect, u16>(STATUS_INTERNAL_SERVER_ERROR)
            },
        },
    }
}

/// Answers a request for `slug`, given the record kept under it, at the
/// current time: a redirect to the long url, with its expiry date as the
/// `Expires` header, or `Err(STATUS_NOT_FOUND)`. `Err` with
/// `STATUS_INTERNAL_SERVER_ERROR` only when the expiry date cannot be written
/// in RFC 2822.
pub fn redirect_short_url(slug: String, record: Option<ShortUrlRecord>) -> (r: Result<Redirect, u16>)
    ensures
        exists|now: DateTime|
            now.offset_seconds == 0 && answers_plan(#[trigger] redirect_plan(slug, record, now), r),
        r == Err::<Redirect, u16>(STATUS_INTERNAL_SERVER_ERROR) ==> (record matches Some(rec)
            && rec.expires matches Some(e) && !rfc2822_formattable(
            e.unix_nanos as int,
            e.offset_seconds as int,
        )),
        r is Err ==> r == Err::<Redirect, u16>(STATUS_NOT_FOUND) || r == Err::<Redirect, u16>(
            STATUS_INTERNAL_SERVER_ERROR,
        ),
{
    let now = now_utc();
    let plan = redirect_at(slug, record, &now);
    let r = match plan {
        RedirectPlan::NotFound => Err(STATUS_NOT_FOUND),
        RedirectPlan::Found { location, expires } => match expires {
            None => Ok(Redirect { status: STATUS_FOUND, location, expires: None }),
            Some(e) => match format_rfc2822(&e) {
                Some(text) => Ok(Redirect { status: STATUS_FOUND, location, expires: Some(text) }),
                None => Err(STATUS_INTERNAL_SERVER_ERROR),
            },
        },
    };
    assert(now.offset_seconds == 0 && answers_plan(redirect_plan(slug, record, now), r));
    r
}

/// Answers a request for the list of short urls, given the records kept,
/// each with its key: `STATUS_OK` and one entity per record, in the same
/// order, each under its record's key as slug.
pub fn list_short_url(records: Vec<(String, ShortUrlRecord)>) -> (r: (u16, Vec<ShortUrl>))
    ensures
        r.0 == STATUS_OK,
        r.1.len() == records.len(),
        forall|i: int|
            0 <= i < records.len() ==> #[trigger] r.1@[i] == record_entity(records@[i].1, records@[i].0),
{
    let mut entities: Vec<ShortUrl> = Vec::new();
    let n = records.len();
    for i in 0..n
        invariant
            n == records.len(),
            entities.len() == i,
            forall|j: int|
                0 <= j < i ==> #[trigger] entities@[j] == record_entity(records@[j].1, records@[j].0),
    {
        let slug = records[i].0.clone();
        let entity = records[i].1.clone().to_entity(slug);
        entities.push(entity);
    }
    (STATUS_OK, entities)
}

} // verus!
