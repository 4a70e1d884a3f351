use api_server_rust::auth::{auth_after_token, auth_after_user_check, auth_on_request, AuthStep};
use api_server_rust::models::{RowTicket, StoreError, UrlFromDB, UrlReqBody, UserData};
use api_server_rust::responses::{ApiResponse, GeneralError, Status};
use api_server_rust::ticket_counter::{SharedState, TicketServer};
use api_server_rust::token::{claims_for, Claims, TOKEN_LIFETIME_SECS};
use api_server_rust::url_routes::{
    create_url_after_insert, create_url_after_ticket, create_url_start, get_url_after_cache,
    get_url_after_lookup, CreateUrlNext, CreateUrlStep, GetUrlNext, GetUrlStep, CACHE_TTL_SECS,
};

fn error(status: Status, message: &str) -> ApiResponse {
    ApiResponse::Error { status, body: GeneralError { message: message.to_string() } }
}

fn robert() -> UserData {
    UserData { username: "robert".to_string(), user_id: 9 }
}

#[test]
fn missing_cookie_is_unauthorized() {
    assert_eq!(
        auth_on_request(None, true),
        AuthStep::Reject(error(Status::Unauthorized, "Unauthorized: Missing accessToken cookie"))
    );
    assert_eq!(Status::Unauthorized.code(), 401);
}

#[test]
fn missing_state_is_a_server_error() {
    assert_eq!(
        auth_on_request(Some("t".to_string()), false),
        AuthStep::Reject(error(Status::InternalServerError, "Failed to retrieve application state"))
    );
}

#[test]
fn token_is_validated_then_user_checked() {
    assert_eq!(auth_on_request(Some("tok".to_string()), true), AuthStep::ValidateToken("tok".to_string()));
    assert_eq!(
        auth_after_token(Err("ExpiredSignature".to_string())),
        AuthStep::Reject(error(Status::Unauthorized, "ExpiredSignature"))
    );
    let c = Claims { user_id: 9, username: "robert".to_string(), exp: 100 };
    assert_eq!(auth_after_token(Ok(c.clone())), AuthStep::CheckUser(c.clone()));
    assert_eq!(
        auth_after_user_check(c.clone(), Err("User not found".to_string())),
        AuthStep::Reject(error(Status::BadRequest, "User not found"))
    );
    assert_eq!(auth_after_user_check(c, Ok(())), AuthStep::Forward(robert()));
}

#[test]
fn claims_expire_a_day_later() {
    let c = claims_for("robert", 9, 1_700_000_000);
    assert_eq!(c, Claims { user_id: 9, username: "robert".to_string(), exp: 1_700_086_400 });
    assert_eq!(TOKEN_LIFETIME_SECS, 86400);
}

#[test]
fn counter_starts_at_one_and_alternates_servers() {
    let mut state = SharedState::new();
    assert_eq!(state.counter(), 1);
    let mut servers = Vec::new();
    for _ in 0..7 {
        servers.push(state.next_ticket_server());
        assert!(state.counter() < 6);
    }
    assert_eq!(servers, vec![TicketServer::Ts2, TicketServer::Ts1, TicketServer::Ts2, TicketServer::Ts1, TicketServer::Ts2, TicketServer::Ts1, TicketServer::Ts2]);
    assert_eq!(state.counter(), 2);
}

#[test]
fn url_creation_without_user_keeps_counter() {
    let mut state = SharedState::new();
    assert_eq!(
        create_url_start(None, &mut state),
        CreateUrlStep::Respond(error(Status::InternalServerError, "Issue talking to the database"))
    );
    assert_eq!(state.counter(), 1);
}

#[test]
fn url_creation_picks_server_and_advances() {
    let mut state = SharedState::new();
    let u = robert();
    assert_eq!(
        create_url_start(Some(&u), &mut state),
        CreateUrlStep::FetchTicket { server: TicketServer::Ts2, creator_id: 9 }
    );
    assert_eq!(state.counter(), 2);
    assert_eq!(
        create_url_start(Some(&u), &mut state),
        CreateUrlStep::FetchTicket { server: TicketServer::Ts1, creator_id: 9 }
    );
}

#[test]
fn url_creation_after_ticket() {
    let body = UrlReqBody { url: "https://example.com".to_string() };
    assert_eq!(
        create_url_after_ticket(Err(StoreError), body.clone(), 9),
        CreateUrlNext::Respond(error(Status::InternalServerError, "Issue fetching the index"))
    );
    assert_eq!(
        create_url_after_ticket(Ok(None), body.clone(), 9),
        CreateUrlNext::Respond(error(Status::InternalServerError, "Issue fetching the index"))
    );
    assert_eq!(
        create_url_after_ticket(Ok(Some(RowTicket { prev: 64 })), body, 9),
        CreateUrlNext::InsertUrl {
            hash: "ba".to_string(),
            original_url: "https://example.com".to_string(),
            creator_id: 9
        }
    );
}

#[test]
fn url_creation_after_insert() {
    assert_eq!(
        create_url_after_insert(Err(StoreError)),
        error(Status::InternalServerError, "Issue writing to the database")
    );
    assert_eq!(
        create_url_after_insert(Ok(None)),
        error(Status::InternalServerError, "Issue writing to the database")
    );
    let row = UrlFromDB { hash: "ba".to_string(), original_url: "https://e.com".to_string(), creator_id: 9 };
    let reply = create_url_after_insert(Ok(Some(row.clone())));
    assert_eq!(reply, ApiResponse::UrlCreated(row));
    assert_eq!(reply.status().code(), 201);
}

#[test]
fn cached_url_redirects_at_once() {
    assert_eq!(
        get_url_after_cache(Some("https://e.com".to_string())),
        GetUrlStep::Respond(ApiResponse::Redirect { location: "https://e.com".to_string() })
    );
    assert_eq!(get_url_after_cache(None), GetUrlStep::LookupDatabase);
    assert_eq!(Status::PermanentRedirect.code(), 308);
}

#[test]
fn database_lookup_replies() {
    assert_eq!(
        get_url_after_lookup("ba".to_string(), Err(StoreError)),
        GetUrlNext::Respond(error(Status::InternalServerError, "Issue fetching the index"))
    );
    assert_eq!(
        get_url_after_lookup("ba".to_string(), Ok(None)),
        GetUrlNext::Respond(error(Status::NotFound, "Not found"))
    );
    let row = UrlFromDB { hash: "ba".to_string(), original_url: "https://e.com".to_string(), creator_id: 9 };
    assert_eq!(
        get_url_after_lookup("ba".to_string(), Ok(Some(row))),
        GetUrlNext::CacheThenRespond {
            key: "ba".to_string(),
            value: "https://e.com".to_string(),
            ttl_secs: 3600,
            reply: ApiResponse::Redirect { location: "https://e.com".to_string() },
        }
    );
    assert_eq!(CACHE_TTL_SECS, 3600);
}

#[test]
fn database_answer_and_later_cache_hit_redirect_alike() {
    let row = UrlFromDB { hash: "d0ja".to_string(), original_url: "https://e.com/x".to_string(), creator_id: 1 };
    let (value, first) = match get_url_after_lookup("d0ja".to_string(), Ok(Some(row))) {
        GetUrlNext::CacheThenRespond { value, reply, .. } => (value, reply),
        other => panic!("unexpected {:?}", other),
    };
    match get_url_after_cache(Some(value)) {
        GetUrlStep::Respond(later) => assert_eq!(later, first),
        other => panic!("unexpected {:?}", other),
    }
}

#[test]
fn repeated_database_lookups_reply_alike() {
    let row = || UrlFromDB { hash: "ba".to_string(), original_url: "https://e.com".to_string(), creator_id: 1 };
    assert_eq!(
        get_url_after_lookup("ba".to_string(), Ok(Some(row()))),
        get_url_after_lookup("ba".to_string(), Ok(Some(row())))
    );
    assert_eq!(
        get_url_after_lookup("zz".to_string(), Ok(None)),
        get_url_after_lookup("zz".to_string(), Ok(None))
    );
}
