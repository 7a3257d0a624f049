//! The requests that the gateway answers or passes on.
use vstd::prelude::*;

use crate::clock;
use crate::clock::Timestamp;
use crate::errors::AppError;
use crate::gateway::jwt;
use crate::gateway::jwt::JwtKeys;
use crate::gateway::jwt::UserStore;
use crate::gateway::middleware;
use crate::models::LoginRequest;
use crate::models::TokenResponse;
use crate::text;

verus! {

/// The state of the gateway: its keys and users, and where the services are.
pub struct AppState {
    pub jwt_keys: JwtKeys,
    pub user_store: UserStore,
    pub user_svc_url: String,
    pub order_svc_url: String,
}

/// What follows the check of a user's password, given the token that was signed.
pub fn token_reply(token: Result<String, AppError>) -> (r: Result<TokenResponse, AppError>)
    ensures
        match token {
            Ok(token) => {
                &&& r matches Ok(reply)
                &&& reply.access_token == token
                &&& reply.token_type@ == "Bearer"@
                &&& reply.expires_in == jwt::TOKEN_EXPIRY_SECS
            },
            Err(error) => r matches Err(given) && given == error,
        },
{
    match token {
        Ok(token) => Ok(
            TokenResponse {
                access_token: token,
                token_type: "Bearer".to_owned(),
                expires_in: jwt::TOKEN_EXPIRY_SECS,
            },
        ),
        Err(error) => Err(error),
    }
}

/// What a login is answered at the second `now`: a token for the user's roles, which lasts an hour,
/// or that the credentials are wrong. If no token can be signed, the error says why.
pub open spec fn is_login_answer(
    r: Result<TokenResponse, AppError>,
    state: AppState,
    request: LoginRequest,
    now: i64,
) -> bool {
    match jwt::login(state.user_store.users(), request.username@, request.password@) {
        Some(roles) => match r {
            Ok(reply) => {
                &&& jwt::is_token(
                    reply.access_token@,
                    state.jwt_keys.private_key(),
                    jwt::claims_at(request.username@, roles, now),
                )
                &&& reply.token_type@ == "Bearer"@
                &&& reply.expires_in == jwt::TOKEN_EXPIRY_SECS
            },
            Err(error) => jwt::is_signed(
                Err(error),
                state.jwt_keys.private_key(),
                jwt::claims_at(request.username@, roles, now),
            ),
        },
        None => r matches Err(error) && error is AuthBadCredentials,
    }
}

/// `POST /auth/token` at the second `now`.
pub fn auth_token_at(state: &AppState, request: &LoginRequest, now: i64) -> (r: Result<
    TokenResponse,
    AppError,
>)
    requires
        now <= clock::MAX_SECS,
    ensures
        is_login_answer(r, *state, *request, now),
{
    match state.user_store.authenticate(request.username.as_str(), request.password.as_str()) {
        Some(roles) => token_reply(
            state.jwt_keys.sign_at(request.username.as_str(), roles, now),
        ),
        None => Err(AppError::AuthBadCredentials),
    }
}

/// `POST /auth/token`: logs a user in.
pub fn auth_token(state: &AppState, request: &LoginRequest) -> (r: Result<TokenResponse, AppError>)
    ensures
        exists|now: Timestamp| #[trigger]
            clock::was_shown(now) && is_login_answer(r, *state, *request, now.secs) && 0 <= now.secs
                <= clock::MAX_SECS,
{
    let now: Timestamp = clock::now();
    auth_token_at(state, request, now.secs)
}

/// Where `GET /users/:id` is passed on to.
pub fn proxy_user(state: &AppState, id: &str) -> (r: String)
    ensures
        r@ == state.user_svc_url@ + "/users/"@ + id@,
{
    text::concat3(state.user_svc_url.as_str(), "/users/", id)
}

/// Where `GET /users` is passed on to.
pub fn proxy_users(state: &AppState) -> (r: String)
    ensures
        r@ == state.user_svc_url@ + "/users"@,
{
    text::concat2(state.user_svc_url.as_str(), "/users")
}

/// Where `GET /orders/:id` is passed on to.
pub fn proxy_order(state: &AppState, id: &str) -> (r: String)
    ensures
        r@ == state.order_svc_url@ + "/orders/"@ + id@,
{
    text::concat3(state.order_svc_url.as_str(), "/orders/", id)
}

/// Where `GET /orders` is passed on to.
pub fn proxy_orders(state: &AppState) -> (r: String)
    ensures
        r@ == state.order_svc_url@ + "/orders"@,
{
    text::concat2(state.order_svc_url.as_str(), "/orders")
}

/// What a service answered: a status, and a body or the text of the error that reading it gave.
#[derive(Debug)]
pub struct Answer<B> {
    pub status: u16,
    pub body: Result<B, String>,
}

/// What the gateway answers when it has passed a request on.
#[derive(Debug)]
pub enum ProxyReply<B> {
    /// The service's body, with status 200.
    Success(B),
    /// The service's body, with the service's status.
    Failure { status: u16, body: B },
    /// The service could not be reached at this address.
    Unreached { message: String, url: String },
    /// The service's body could not be read.
    Unreadable { message: String },
}

impl<B> ProxyReply<B> {
    /// The status of the reply.
    pub open spec fn status_spec(&self) -> int {
        match *self {
            ProxyReply::Success(_) => 200,
            ProxyReply::Failure { status, .. } => status as int,
            ProxyReply::Unreached { .. } => 502,
            ProxyReply::Unreadable { .. } => 502,
        }
    }

    /// The status of the reply.
    pub fn status(&self) -> (r: u16)
        ensures
            r == self.status_spec(),
    {
        match self {
            ProxyReply::Success(_) => 200,
            ProxyReply::Failure { status, .. } => *status,
            ProxyReply::Unreached { .. } => 502,
            ProxyReply::Unreadable { .. } => 502,
        }
    }

    /// The error code in the body of the reply; none where the body is the service's own.
    pub fn code(&self) -> (r: Option<&'static str>)
        ensures
            match *self {
                ProxyReply::Success(_) => r is None,
                ProxyReply::Failure { .. } => r is None,
                ProxyReply::Unreached { .. } => r matches Some(code) && code@ == "UPSTREAM_ERROR"@,
                ProxyReply::Unreadable { .. } => r matches Some(code) && code@ == "PARSE_ERROR"@,
            },
    {
        match self {
            ProxyReply::Success(_) => None,
            ProxyReply::Failure { .. } => None,
            ProxyReply::Unreached { .. } => Some("UPSTREAM_ERROR"),
            ProxyReply::Unreadable { .. } => Some("PARSE_ERROR"),
        }
    }
}

/// Whether `r` is what the gateway answers for what came back from `url`: an error is given by its
/// text.
pub open spec fn is_proxied<B>(
    r: ProxyReply<B>,
    url: Seq<char>,
    sent: Result<Answer<B>, String>,
) -> bool {
    match sent {
        Err(why) => r matches ProxyReply::Unreached { message, url: named } && message == why
            && named@ == url,
        Ok(answer) => match answer.body {
            Err(why) => r matches ProxyReply::Unreadable { message } && message == why,
            Ok(body) => if 200 <= answer.status <= 299 {
                r == ProxyReply::Success(body)
            } else {
                r == (ProxyReply::Failure { status: answer.status, body })
            },
        },
    }
}

/// What the gateway answers for what came back from `url`.
pub fn proxy_get<B>(url: &str, sent: Result<Answer<B>, String>) -> (r: ProxyReply<B>)
    ensures
        is_proxied(r, url@, sent),
{
    match sent {
        Err(message) => ProxyReply::Unreached { message, url: url.to_owned() },
        Ok(answer) => match answer.body {
            Err(message) => ProxyReply::Unreadable { message },
            Ok(body) => if 200 <= answer.status && answer.status <= 299 {
                ProxyReply::Success(body)
            } else {
                ProxyReply::Failure { status: answer.status, body }
            },
        },
    }
}

/// What a health check is answered.
#[derive(Debug)]
pub struct GatewayHealth {
    pub status: &'static str,
    pub service: &'static str,
    pub sealed: bool,
    pub cert_serial: String,
}

/// `GET /health`: that the gateway runs, and the serial number of the certificate in use.
pub fn health(cert_serial: &str) -> (r: GatewayHealth)
    ensures
        r.status@ == "ok"@,
        r.service@ == "api-gateway"@,
        !r.sealed,
        r.cert_serial@ == cert_serial@,
{
    GatewayHealth {
        status: "ok",
        service: "api-gateway",
        sealed: false,
        cert_serial: cert_serial.to_owned(),
    }
}

/// Wrong credentials give no token: the login is answered 401 whatever the time.
pub proof fn wrong_credentials_give_no_token(
    r: Result<TokenResponse, AppError>,
    state: AppState,
    request: LoginRequest,
    now: i64,
)
    requires
        is_login_answer(r, state, request, now),
        jwt::login(state.user_store.users(), request.username@, request.password@) is None,
    ensures
        r matches Err(error) && crate::errors::status_of(error) == 401,
{
}

/// A user who has logged in is the one whom the services are told of: if the token from a login is
/// presented and passes, the headers name the user and the roles that the login gave.
pub proof fn services_are_told_who_logged_in(
    login: Result<TokenResponse, AppError>,
    state: AppState,
    request: LoginRequest,
    now: i64,
    header: &str,
    checked: Result<middleware::IdentityHeaders, AppError>,
    second: u64,
)
    requires
        jwt::public_half(state.jwt_keys.private_key()) == Some(state.jwt_keys.public_key()),
        is_login_answer(login, state, request, now),
        login matches Ok(reply) && header@ == "Bearer "@ + reply.access_token@,
        middleware::is_checked(checked, state.jwt_keys.public_key(), Some(header), second),
        checked is Ok,
    ensures
        jwt::login(
            state.user_store.users(),
            request.username@,
            request.password@,
        ) matches Some(roles) && checked->Ok_0.user_id@ == request.username@
            && checked->Ok_0.user_roles@ == text::joined(roles, ","@),
{
    let token = login->Ok_0.access_token@;
    let prefix = "Bearer "@;
    assert(header@.take(prefix.len() as int) == prefix);
    assert(header@.skip(prefix.len() as int) == token);
    let roles = jwt::login(state.user_store.users(), request.username@, request.password@)->0;
    jwt::claims_read_back(jwt::claims_at(request.username@, roles, now));
}

/// A user who has logged in is let in for an hour: if the token from a login is presented in that time,
/// or in the minute after it, the request passes with the headers of the user and the roles, unless
/// those make no headers; later it is refused as expired.
pub proof fn logins_last_an_hour(
    login: Result<TokenResponse, AppError>,
    state: AppState,
    request: LoginRequest,
    now: i64,
    header: &str,
    checked: Result<middleware::IdentityHeaders, AppError>,
    second: u64,
)
    requires
        0 <= now <= clock::MAX_SECS,
        60 <= second,
        jwt::public_half(state.jwt_keys.private_key()) == Some(state.jwt_keys.public_key()),
        is_login_answer(login, state, request, now),
        login matches Ok(reply) && header@ == "Bearer "@ + reply.access_token@,
        middleware::is_checked(checked, state.jwt_keys.public_key(), Some(header), second),
    ensures
        jwt::login(
            state.user_store.users(),
            request.username@,
            request.password@,
        ) matches Some(roles) && if second <= now + jwt::TOKEN_EXPIRY_SECS + 60 {
            middleware::is_identity(checked, jwt::claims_at(request.username@, roles, now))
        } else {
            checked matches Err(AppError::AuthInvalidToken(why)) && why@ == "ExpiredSignature"@
        },
{
    let token = login->Ok_0.access_token@;
    let prefix = "Bearer "@;
    assert(header@.take(prefix.len() as int) == prefix);
    assert(header@.skip(prefix.len() as int) == token);
    let roles = jwt::login(state.user_store.users(), request.username@, request.password@)->0;
    jwt::claims_read_back(jwt::claims_at(request.username@, roles, now));
}

/// A failure of a service reaches the user: the status of the reply is that of the service, or 502
/// where the service has not answered or cannot be understood.
pub proof fn failures_are_passed_on<B>(
    r: ProxyReply<B>,
    url: Seq<char>,
    sent: Result<Answer<B>, String>,
)
    requires
        is_proxied(r, url, sent),
    ensures
        sent is Err ==> r.status_spec() == 502,
        sent matches Ok(answer) ==> answer.body is Err ==> r.status_spec() == 502,
        sent matches Ok(answer) ==> answer.body is Ok ==> (r is Success <==> 200 <= answer.status
            <= 299),
        sent matches Ok(answer) ==> answer.body is Ok ==> r is Failure ==> r.status_spec()
            == answer.status,
{
}

/// A login is answered with a token exactly if the user is let in and a token can be signed: the token is
/// the one that is signed for the user and their roles at that second, of type `Bearer`, for an hour.
pub proof fn logins_give_the_signed_token(
    state: &AppState,
    request: &LoginRequest,
    now: i64,
    r: Result<TokenResponse, AppError>,
    username: &str,
    password: &str,
    roles: Option<Vec<String>>,
    signed: Result<String, AppError>,
)
    requires
        now <= clock::MAX_SECS,
        call_ensures(auth_token_at, (state, request, now), r),
        username@ == request.username@,
        password@ == request.password@,
        call_ensures(UserStore::authenticate, (&state.user_store, username, password), roles),
        roles matches Some(given) ==> call_ensures(
            JwtKeys::sign_at,
            (&state.jwt_keys, username, given, now),
            signed,
        ),
    ensures
        roles is None ==> (r matches Err(error) && error is AuthBadCredentials),
        roles is Some ==> (r is Ok <==> signed is Ok),
        r matches Ok(reply) ==> {
            &&& reply.access_token@ == signed->Ok_0@
            &&& reply.token_type@ == "Bearer"@
            &&& reply.expires_in == 3600
        },
        roles is Some && r is Err ==> (r->Err_0 matches AppError::Internal(why) && signed->Err_0
            matches AppError::Internal(text) && why@ == text@),
{
}

/// A login now is one at the second that the system clock shows: wrong credentials give no token, and
/// right ones one that says who has logged in, from when and until when.
pub proof fn logins_go_by_the_clock(
    state: &AppState,
    request: &LoginRequest,
    r: Result<TokenResponse, AppError>,
    username: &str,
    password: &str,
    roles: Option<Vec<String>>,
    public_pem: Seq<u8>,
)
    requires
        call_ensures(auth_token, (state, request), r),
        username@ == request.username@,
        password@ == request.password@,
        call_ensures(UserStore::authenticate, (&state.user_store, username, password), roles),
        jwt::public_half(state.jwt_keys.private_key()) == Some(public_pem),
    ensures
        roles is None ==> (r matches Err(error) && error is AuthBadCredentials),
        r matches Ok(reply) ==> {
            &&& roles is Some
            &&& reply.token_type@ == "Bearer"@
            &&& reply.expires_in == 3600
            &&& jwt::signed_fields(reply.access_token@, public_pem) matches Ok(fields)
            &&& fields.sub == Some(jwt::FieldView::Text(request.username@))
            &&& fields.roles == Some(
                jwt::FieldView::List(
                    text::texts(roles->0@).map_values(|role: Seq<char>| Some(role)),
                ),
            )
            &&& exists|now: Timestamp| #[trigger]
                clock::was_shown(now) && fields.iat == Some(
                    jwt::FieldView::Number(Some(now.secs)),
                ) && fields.exp == Some(jwt::FieldView::Number(Some((now.secs + 3600) as i64)))
        },
{
    let now = choose|now: Timestamp| #[trigger]
        clock::was_shown(now) && is_login_answer(r, *state, *request, now.secs) && 0 <= now.secs
            <= clock::MAX_SECS;
    assert(clock::was_shown(now));
}

/// What follows the signing of a token: it is handed out as it is, or the error is.
pub proof fn signed_tokens_are_handed_out(
    token: Result<String, AppError>,
    r: Result<TokenResponse, AppError>,
)
    requires
        call_ensures(token_reply, (token,), r),
    ensures
        token matches Ok(text) ==> r matches Ok(reply) && reply.access_token@ == text@
            && reply.token_type@ == "Bearer"@ && reply.expires_in == 3600,
        token matches Err(error) ==> r == Err::<TokenResponse, AppError>(error),
{
}

/// Requests for users go to the user service and those for orders to the order service, with the id that
/// was given.
pub proof fn requests_go_to_their_service(
    state: &AppState,
    id: &str,
    user: String,
    users: String,
    order: String,
    orders: String,
)
    requires
        call_ensures(proxy_user, (state, id), user),
        call_ensures(proxy_users, (state,), users),
        call_ensures(proxy_order, (state, id), order),
        call_ensures(proxy_orders, (state,), orders),
    ensures
        users@ == state.user_svc_url@ + "/users"@,
        orders@ == state.order_svc_url@ + "/orders"@,
        user@ == users@ + "/"@ + id@,
        order@ == orders@ + "/"@ + id@,
{
    reveal_strlit("/users");
    reveal_strlit("/users/");
    reveal_strlit("/orders");
    reveal_strlit("/orders/");
    reveal_strlit("/");
    assert("/users/"@ =~= "/users"@ + "/"@);
    assert("/orders/"@ =~= "/orders"@ + "/"@);
    assert(user@ =~= users@ + "/"@ + id@);
    assert(order@ =~= orders@ + "/"@ + id@);
}

/// What a service has answered is passed on: its body as it is, with status 200 if it has succeeded and
/// its own status if it has not. A service that was not reached, or whose body cannot be read, is answered
/// 502, with the text of the error.
pub proof fn answers_are_passed_on<B>(
    url: &str,
    sent: Result<Answer<B>, String>,
    r: ProxyReply<B>,
    status: u16,
    code: Option<&'static str>,
)
    requires
        call_ensures(proxy_get::<B>, (url, sent), r),
        call_ensures(ProxyReply::<B>::status, (&r,), status),
        call_ensures(ProxyReply::<B>::code, (&r,), code),
    ensures
        sent matches Ok(answer) ==> answer.body matches Ok(body) ==> {
            &&& 200 <= answer.status <= 299 ==> r == ProxyReply::Success(body) && status == 200
            &&& answer.status < 200 || 299 < answer.status ==> (r matches ProxyReply::Failure {
                status: own,
                body: given,
            } && own == answer.status && given == body && status == answer.status)
            &&& code is None
        },
        sent matches Ok(answer) ==> answer.body matches Err(why) ==> {
            &&& r matches ProxyReply::Unreadable { message }
            &&& message@ == why@
            &&& status == 502
            &&& code matches Some(word)
            &&& word@ == "PARSE_ERROR"@
        },
        sent matches Err(why) ==> {
            &&& r matches ProxyReply::Unreached { message, url: named }
            &&& message@ == why@
            &&& named@ == url@
            &&& status == 502
            &&& code matches Some(word)
            &&& word@ == "UPSTREAM_ERROR"@
        },
{
}

/// A health check tells the serial number of the certificate in use.
pub proof fn health_tells_the_serial(cert_serial: &str, r: GatewayHealth)
    requires
        call_ensures(health, (cert_serial,), r),
    ensures
        r.status@ == "ok"@ && r.service@ == "api-gateway"@ && !r.sealed,
        r.cert_serial@ == cert_serial@,
{
}

} // verus!
