use vstd::prelude::*;
use crate::hash_generator::{character_mapper, short_hash};
use crate::models::{RowTicket, StoreError, UrlFromDB, UrlReqBody, UserData};
use crate::responses::{is_error_reply, is_redirect_to, spec_status_of, ApiResponse, Status};
use crate::ticket_counter::{ticket_server_for, SharedState, TicketServer};

verus! {

/// How long a resolved short URL stays in the cache, in seconds.
pub const CACHE_TTL_SECS: u64 = 3600;

/// What URL creation does next.
#[derive(Debug, Clone, PartialEq, Eq)]
pub enum CreateUrlStep {
    /// Answer with this reply.
    Respond(ApiResponse),
    /// Take a ticket from this server, then call `create_url_after_ticket`.
    FetchTicket { server: TicketServer, creator_id: i32 },
}

/// What URL creation does once it has a ticket (or failed to get one).
#[derive(Debug, Clone, PartialEq, Eq)]
pub enum CreateUrlNext {
    /// Answer with this reply.
    Respond(ApiResponse),
    /// Store the URL under this hash, then call `create_url_after_insert`.
    InsertUrl { hash: String, original_url: String, creator_id: i32 },
}

/// The start of URL creation: without a signed-in user it is a `500` reply and the counter
/// does not move; otherwise the counter picks the ticket server and advances.
pub fn create_url_start(user: Option<&UserData>, state: &mut SharedState) -> (res: CreateUrlStep)
    ensures
        user is None ==> (res matches CreateUrlStep::Respond(r) && is_error_reply(
            r,
            Status::InternalServerError,
            "Issue talking to the database"@,
        ) && final(state)@ == old(state)@),
        user matches Some(u) ==> (res == CreateUrlStep::FetchTicket {
            server: ticket_server_for(old(state)@),
            creator_id: u.user_id,
        } && final(state)@ == (old(state)@ + 1) % 6),
{
    match user {
        None => CreateUrlStep::Respond(
            ApiResponse::error(Status::InternalServerError, "Issue talking to the database"),
        ),
        Some(u) => {
            let server = state.next_ticket_server();
            CreateUrlStep::FetchTicket { server, creator_id: u.user_id }
        },
    }
}

/// URL creation with the ticket: a failed or empty fetch is a `500` reply; otherwise the URL is
/// stored under the short hash of the ticket number.
pub fn create_url_after_ticket(
    fetched: Result<Option<RowTicket>, StoreError>,
    body: UrlReqBody,
    creator_id: i32,
) -> (res: CreateUrlNext)
    ensures
        !(fetched matches Ok(Some(_))) ==> (res matches CreateUrlNext::Respond(r) && is_error_reply(
            r,
            Status::InternalServerError,
            "Issue fetching the index"@,
        )),
        fetched matches Ok(Some(t)) ==> (res matches CreateUrlNext::InsertUrl {
            hash,
            original_url,
            creator_id: c,
        } && hash@ == short_hash((t.prev as u32) as nat) && original_url == body.url && c
            == creator_id),
{
    match fetched {
        Ok(Some(t)) => {
            let hash = character_mapper(t.prev);
            CreateUrlNext::InsertUrl { hash, original_url: body.url, creator_id }
        },
        _ => CreateUrlNext::Respond(
            ApiResponse::error(Status::InternalServerError, "Issue fetching the index"),
        ),
    }
}

/// URL creation after the insert: a failed or empty insert is a `500` reply, else `201` with
/// the stored URL.
pub fn create_url_after_insert(inserted: Result<Option<UrlFromDB>, StoreError>) -> (res: ApiResponse)
    ensures
        !(inserted matches Ok(Some(_))) ==> is_error_reply(
            res,
            Status::InternalServerError,
            "Issue writing to the database"@,
        ),
        inserted matches Ok(Some(u)) ==> res == ApiResponse::UrlCreated(u),
{
    match inserted {
        Ok(Some(u)) => ApiResponse::UrlCreated(u),
        _ => ApiResponse::error(Status::InternalServerError, "Issue writing to the database"),
    }
}

/// What resolving a short hash does once the cache was asked.
#[derive(Debug, Clone, PartialEq, Eq)]
pub enum GetUrlStep {
    /// Answer with this reply.
    Respond(ApiResponse),
    /// Look the hash up in the database, then call `get_url_after_lookup`.
    LookupDatabase,
}

/// What resolving a short hash does once the database answered.
#[derive(Debug, Clone, PartialEq, Eq)]
pub enum GetUrlNext {
    /// Answer with this reply.
    Respond(ApiResponse),
    /// Store `value` under `key` in the cache for `ttl_secs` seconds, then answer with `reply`.
    CacheThenRespond { key: String, value: String, ttl_secs: u64, reply: ApiResponse },
}

/// Resolving a short hash, after asking the cache: a cached URL is redirected to at once.
pub open spec fn get_url_cache_spec(cached: Option<String>, res: GetUrlStep) -> bool {
    &&& cached matches Some(u) ==> (res matches GetUrlStep::Respond(r) && is_redirect_to(r, u@))
    &&& cached is None ==> res == GetUrlStep::LookupDatabase
}

/// Resolving a short hash, after the database lookup.
pub open spec fn get_url_lookup_spec(
    hash: String,
    found: Result<Option<UrlFromDB>, StoreError>,
    res: GetUrlNext,
) -> bool {
    &&& found is Err ==> (res matches GetUrlNext::Respond(r) && is_error_reply(
        r,
        Status::InternalServerError,
        "Issue fetching the index"@,
    ))
    &&& found matches Ok(None) ==> (res matches GetUrlNext::Respond(r) && is_error_reply(
        r,
        Status::NotFound,
        "Not found"@,
    ))
    &&& found matches Ok(Some(row)) ==> (res matches GetUrlNext::CacheThenRespond {
        key,
        value,
        ttl_secs,
        reply,
    } && key == hash && value@ == row.original_url@ && ttl_secs == CACHE_TTL_SECS
        && is_redirect_to(reply, row.original_url@))
}

/// Resolving a short hash, after asking the cache: a hit is a `308` redirect to the cached URL;
/// a miss means the database is asked.
pub fn get_url_after_cache(cached: Option<String>) -> (res: GetUrlStep)
    ensures
        get_url_cache_spec(cached, res),
{
    match cached {
        Some(url) => GetUrlStep::Respond(ApiResponse::Redirect { location: url }),
        None => GetUrlStep::LookupDatabase,
    }
}

/// Resolving a short hash, after the database lookup: a failed query is `500`, an unknown hash
/// `404`; a known one is cached for an hour and redirected to.
pub fn get_url_after_lookup(hash: String, found: Result<Option<UrlFromDB>, StoreError>) -> (res:
    GetUrlNext)
    ensures
        get_url_lookup_spec(hash, found, res),
{
    match found {
        Err(_) => GetUrlNext::Respond(
            ApiResponse::error(Status::InternalServerError, "Issue fetching the index"),
        ),
        Ok(None) => GetUrlNext::Respond(ApiResponse::error(Status::NotFound, "Not found")),
        Ok(Some(row)) => {
            let location = row.original_url.clone();
            GetUrlNext::CacheThenRespond {
                key: hash,
                value: row.original_url,
                ttl_secs: CACHE_TTL_SECS,
                reply: ApiResponse::Redirect { location },
            }
        },
    }
}

/// A short hash resolves to the same place whether the answer comes from the database or,
/// later, from the cache entry that the database answer wrote.
pub proof fn lemma_cached_url_redirects_alike(
    hash: String,
    found: Result<Option<UrlFromDB>, StoreError>,
    next: GetUrlNext,
    cached: String,
    later: GetUrlStep,
)
    requires
        get_url_lookup_spec(hash, found, next),
        next matches GetUrlNext::CacheThenRespond { value, .. } && cached@ == value@,
        get_url_cache_spec(Some(cached), later),
    ensures
        next matches GetUrlNext::CacheThenRespond { reply, .. } ==> (later matches GetUrlStep::Respond(
            r,
        ) && is_redirect_to(r, cached@) && is_redirect_to(reply, cached@)),
{
}

/// The reply that a step after the database lookup ends in.
pub open spec fn get_url_next_reply(next: GetUrlNext) -> ApiResponse {
    match next {
        GetUrlNext::Respond(r) => r,
        GetUrlNext::CacheThenRespond { reply, .. } => reply,
    }
}

/// Two resolutions of the same hash that get the same answer from the database reply alike:
/// the same status, the same error message, and a redirect to the same place.
pub proof fn lemma_repeated_lookups_reply_alike(
    hash: String,
    found: Result<Option<UrlFromDB>, StoreError>,
    first: GetUrlNext,
    second: GetUrlNext,
)
    requires
        get_url_lookup_spec(hash, found, first),
        get_url_lookup_spec(hash, found, second),
    ensures
        spec_status_of(get_url_next_reply(first)) == spec_status_of(get_url_next_reply(second)),
        forall|status: Status, message: Seq<char>|
            is_error_reply(get_url_next_reply(first), status, message) <==> is_error_reply(
                get_url_next_reply(second),
                status,
                message,
            ),
        forall|location: Seq<char>|
            is_redirect_to(get_url_next_reply(first), location) <==> is_redirect_to(
                get_url_next_reply(second),
                location,
            ),
{
}

} // verus!
