//! What each route answers, given what the verifier and the access
//! layer found: the status and the envelope.

use crate::auth::{AuthError, AuthUser};
use crate::flows::CountOp;
use crate::ids::{format_id, id_text};
use crate::remote::StoreError;
use crate::stats::{
    build_statistics_response, daily_stats_of, statistics_total_fits, today_count_of, total_of,
    weekly_days_of,
};
use crate::text::join;
use crate::types::{
    map_count, map_user, ApiResponse, CreateUserRequest, StatisticsResponse, SupabaseUser,
    SupabaseWillCount, UserResponse, WillCountResponse,
};
use vstd::prelude::*;

verus! {

/// The statuses that the routes answer with.
pub const OK: u16 = 200;

pub const CREATED: u16 = 201;

pub const BAD_REQUEST: u16 = 400;

pub const UNAUTHORIZED: u16 = 401;

pub const FORBIDDEN: u16 = 403;

pub const NOT_FOUND: u16 = 404;

pub const INTERNAL_SERVER_ERROR: u16 = 500;

pub const SERVICE_UNAVAILABLE: u16 = 503;

/// How many days of history are shown where the caller names no number.
pub const DEFAULT_DAYS: i32 = 30;

/// An answer to a caller.
#[derive(Debug, PartialEq, Eq)]
pub struct Answer<T> {
    pub status: u16,
    pub body: ApiResponse<T>,
}

impl<T> Answer<T> {
    /// Whether this answer reports the failure `error` with `status`,
    /// and nothing else.
    pub open spec fn fails_with(self, status: u16, error: Seq<char>) -> bool {
        &&& self.status == status
        &&& !self.body.success
        &&& self.body.data is None
        &&& self.body.message@ == Seq::<char>::empty()
        &&& self.body.error.deep_view() == Some(error)
    }

    /// Whether this answer carries data with `status` and `message`.
    pub open spec fn succeeds_with(self, status: u16, message: Seq<char>) -> bool {
        &&& self.status == status
        &&& self.body.success
        &&& self.body.data is Some
        &&& self.body.message@ == message
        &&& self.body.error is None
    }

    fn failure(status: u16, error: &str) -> (r: Self)
        ensures
            r.fails_with(status, error@),
    {
        Answer { status, body: ApiResponse::failure(error) }
    }

    fn success(status: u16, data: T, message: &str) -> (r: Self)
        ensures
            r.succeeds_with(status, message@),
            r.body.data == Some(data),
    {
        Answer { status, body: ApiResponse::ok(data, message) }
    }
}

impl StoreError {
    /// What went wrong, in words.
    pub open spec fn reason_text(self) -> Seq<char> {
        match self {
            StoreError::RemoteUnavailable => "the remote store is unavailable"@,
            StoreError::RemoteConflict => "the remote store reports a conflict"@,
            StoreError::RemoteMalformedResponse => "the remote store answered unreadably"@,
            StoreError::OperationFailed => "the operation failed"@,
        }
    }

    /// What went wrong, in words.
    pub fn reason(&self) -> (r: &'static str)
        ensures
            r@ == self.reason_text(),
    {
        match self {
            StoreError::RemoteUnavailable => "the remote store is unavailable",
            StoreError::RemoteConflict => "the remote store reports a conflict",
            StoreError::RemoteMalformedResponse => "the remote store answered unreadably",
            StoreError::OperationFailed => "the operation failed",
        }
    }
}

/// The answer to a request that was turned away: the reason, and
/// nothing of what the token held.
pub fn unauthorized<T>(error: AuthError) -> (r: Answer<T>)
    ensures
        r.fails_with(UNAUTHORIZED, error.reason_text()),
{
    Answer::failure(UNAUTHORIZED, error.reason())
}

/// The address under which a user is kept whose token gives none.
pub open spec fn email_or_unknown_of(email: Option<Seq<char>>) -> Seq<char> {
    match email {
        Some(e) => e,
        None => "unknown@domain.com"@,
    }
}

/// The address under which the user of an identity is kept.
pub fn email_or_unknown(user: &AuthUser) -> (r: String)
    ensures
        r@ == email_or_unknown_of(user@.email),
{
    match &user.email {
        Some(e) => e.clone(),
        None => "unknown@domain.com".to_owned(),
    }
}

/// How many days of history are shown: what the caller asks for, one at
/// least, and thirty where it asks for nothing.
pub open spec fn history_days_of(days: Option<i32>) -> int {
    match days {
        Some(d) => if d < 1 {
            1
        } else {
            d as int
        },
        None => DEFAULT_DAYS as int,
    }
}

/// How many days of history are shown to a caller that asks for `days`.
pub fn history_days(days: Option<i32>) -> (r: i32)
    ensures
        r == history_days_of(days),
{
    match days {
        Some(d) => if d < 1 {
            1
        } else {
            d
        },
        None => DEFAULT_DAYS,
    }
}

/// Whether a caller may have the user of a request created: only its own.
pub fn may_create(request: &CreateUserRequest, user: &AuthUser) -> (r: bool)
    ensures
        r == (request.auth0_id@ == user.sub@),
{
    request.auth0_id == user.sub
}

/// How the creation of a user ended.
#[derive(Debug, PartialEq, Eq)]
pub enum Creation {
    /// The caller asked for the user of someone else.
    Forbidden,
    /// The store had the user already.
    Existing(SupabaseUser),
    /// The user has been made sure of.
    Created(SupabaseUser),
}

/// What the creation of a user does next.
#[derive(Debug, PartialEq, Eq)]
pub enum CreationStep {
    /// The creation has ended, and the store is not asked further.
    Done(Creation),
    /// Ask the store for the user of the request.
    Lookup,
    /// Make sure of the user of the request.
    Ensure,
}

/// The first step of the creation of a user: a caller that asks for
/// the user of another subject is refused before the store is asked
/// for anything; every other caller has the store looked up.
pub fn create_user_begin(request: &CreateUserRequest, user: &AuthUser) -> (r: CreationStep)
    ensures
        if request.auth0_id@ == user.sub@ {
            r is Lookup
        } else {
            r matches CreationStep::Done(c) && c is Forbidden
        },
{
    if may_create(request, user) {
        CreationStep::Lookup
    } else {
        CreationStep::Done(Creation::Forbidden)
    }
}

/// The step after the store has been looked up: a user that it has is
/// the one that exists already; in every other case the user is made
/// sure of.
pub fn create_user_found(found: Result<Option<SupabaseUser>, StoreError>) -> (r: CreationStep)
    ensures
        match found {
            Ok(Some(user)) => r matches CreationStep::Done(Creation::Existing(u)) && u@ == user@,
            _ => r is Ensure,
        },
{
    match found {
        Ok(Some(user)) => CreationStep::Done(Creation::Existing(user)),
        _ => CreationStep::Ensure,
    }
}

/// The answer to the creation of a user.
pub fn create_user(outcome: Creation) -> (r: Answer<UserResponse>)
    ensures
        match outcome {
            Creation::Forbidden => r.fails_with(
                FORBIDDEN,
                "Cannot create user for different auth0_id"@,
            ),
            Creation::Existing(user) => r.succeeds_with(OK, "User already exists"@)
                && r.body.data->0@ == user@.response(),
            Creation::Created(user) => r.succeeds_with(CREATED, "User created successfully"@)
                && r.body.data->0@ == user@.response(),
        },
{
    match outcome {
        Creation::Forbidden => Answer::failure(
            FORBIDDEN,
            "Cannot create user for different auth0_id",
        ),
        Creation::Existing(user) => Answer::success(OK, map_user(user), "User already exists"),
        Creation::Created(user) => Answer::success(
            CREATED,
            map_user(user),
            "User created successfully",
        ),
    }
}

/// The answer to a caller that asks for its own user.
pub fn me(found: Result<Option<SupabaseUser>, StoreError>) -> (r: Answer<UserResponse>)
    ensures
        match found {
            Ok(Some(user)) => r.succeeds_with(OK, Seq::empty()) && r.body.data->0@
                == user@.response(),
            Ok(None) => r.fails_with(NOT_FOUND, "User not found"@),
            Err(_) => r.fails_with(INTERNAL_SERVER_ERROR, "Failed to get user"@),
        },
{
    proof {
        reveal_strlit("");
        assert(""@ =~= Seq::<char>::empty());
    }
    match found {
        Ok(Some(user)) => Answer::success(OK, map_user(user), ""),
        Ok(None) => Answer::failure(NOT_FOUND, "User not found"),
        Err(_) => Answer::failure(INTERNAL_SERVER_ERROR, "Failed to get user"),
    }
}

/// The answer that is owed at once to a lookup by subject: there is
/// one exactly where the request names no subject, and the store is
/// then not asked.
pub fn subject_required(auth0_id: &str) -> (r: Option<Answer<UserResponse>>)
    ensures
        (r is Some) == (auth0_id@.len() == 0),
        r matches Some(answer) ==> answer.fails_with(BAD_REQUEST, "Auth0 ID is required"@),
{
    if auth0_id.is_empty() {
        Some(Answer::failure(BAD_REQUEST, "Auth0 ID is required"))
    } else {
        None
    }
}

/// The answer to a caller that asks for the user of a subject.
pub fn get_user_by_auth0(found: Result<Option<SupabaseUser>, StoreError>) -> (r: Answer<
    UserResponse,
>)
    ensures
        match found {
            Ok(Some(user)) => r.succeeds_with(OK, Seq::empty()) && r.body.data->0@
                == user@.response(),
            Ok(None) => r.fails_with(NOT_FOUND, "User not found"@),
            Err(e) => r.fails_with(
                INTERNAL_SERVER_ERROR,
                "Failed to get user: "@ + e.reason_text(),
            ),
        },
{
    proof {
        reveal_strlit("");
        assert(""@ =~= Seq::<char>::empty());
    }
    match found {
        Ok(Some(user)) => Answer::success(OK, map_user(user), ""),
        Ok(None) => Answer::failure(NOT_FOUND, "User not found"),
        Err(e) => {
            let error = join("Failed to get user: ", e.reason());
            Answer::failure(INTERNAL_SERVER_ERROR, error.as_str())
        },
    }
}

/// The answer that is owed at once to the recording of a login: there
/// is one exactly where the request names no user, and the store is
/// then not asked.
pub fn user_required(user_id: &str) -> (r: Option<Answer<()>>)
    ensures
        (r is Some) == (user_id@.len() == 0),
        r matches Some(answer) ==> answer.fails_with(BAD_REQUEST, "User ID is required"@),
{
    if user_id.is_empty() {
        Some(Answer::failure(BAD_REQUEST, "User ID is required"))
    } else {
        None
    }
}

/// The answer to the recording of a login.
pub fn update_login(outcome: Result<bool, StoreError>) -> (r: Answer<()>)
    ensures
        match outcome {
            Ok(true) => {
                &&& r.status == OK
                &&& r.body.success
                &&& r.body.data is None
                &&& r.body.message@ == "Last login updated"@
                &&& r.body.error is None
            },
            Ok(false) => r.fails_with(NOT_FOUND, "User not found"@),
            Err(_) => r.fails_with(INTERNAL_SERVER_ERROR, "Failed to update login"@),
        },
{
    match outcome {
        Ok(true) => Answer { status: OK, body: ApiResponse::done("Last login updated") },
        Ok(false) => Answer::failure(NOT_FOUND, "User not found"),
        Err(_) => Answer::failure(INTERNAL_SERVER_ERROR, "Failed to update login"),
    }
}

/// What a caller learns of a user that has been made sure of.
#[derive(Debug, PartialEq, Eq)]
pub struct EnsuredUser {
    pub user_id: String,
}

/// The answer to the making sure of a user.
pub fn ensure_user(user: &SupabaseUser) -> (r: Answer<EnsuredUser>)
    ensures
        r.succeeds_with(OK, "User ensured successfully"@),
        r.body.data->0.user_id@ == id_text(user.id),
{
    Answer::success(OK, EnsuredUser { user_id: format_id(user.id) }, "User ensured successfully")
}

/// What is said of an operation on a day's counter that failed.
pub open spec fn count_failure_text(op: CountOp, error: StoreError) -> Seq<char> {
    match op {
        CountOp::Today => "Failed to get today's count: "@ + error.reason_text(),
        CountOp::Increment => "Failed to increment count"@,
        CountOp::Reset => "Failed to reset count"@,
    }
}

/// The answer to an operation on a day's counter: the counter itself,
/// without an envelope, or the failure in its envelope.
#[derive(Debug, PartialEq, Eq)]
pub struct CountAnswer {
    pub status: u16,
    pub body: Result<WillCountResponse, ApiResponse<()>>,
}

/// The answer to an operation on a day's counter.
pub fn count_answer(op: CountOp, outcome: Result<SupabaseWillCount, StoreError>) -> (r:
    CountAnswer)
    ensures
        match outcome {
            Ok(count) => r.status == OK && (r.body matches Ok(shown) && shown@
                == count@.response()),
            Err(e) => r.body matches Err(body) && (Answer { status: r.status, body }).fails_with(
                INTERNAL_SERVER_ERROR,
                count_failure_text(op, e),
            ),
        },
{
    match outcome {
        Ok(count) => CountAnswer { status: OK, body: Ok(map_count(count)) },
        Err(e) => {
            let failure: Answer<()> = match op {
                CountOp::Today => {
                    let error = join("Failed to get today's count: ", e.reason());
                    Answer::failure(INTERNAL_SERVER_ERROR, error.as_str())
                },
                CountOp::Increment => Answer::failure(
                    INTERNAL_SERVER_ERROR,
                    "Failed to increment count",
                ),
                CountOp::Reset => Answer::failure(INTERNAL_SERVER_ERROR, "Failed to reset count"),
            };
            CountAnswer { status: failure.status, body: Err(failure.body) }
        },
    }
}

/// The answer to a request for statistics over `days` days, summed up
/// from the history `counts` as of the day `today`.
pub fn statistics(counts: Vec<SupabaseWillCount>, days: i32, today: &str) -> (r: Answer<
    StatisticsResponse,
>)
    ensures
        if statistics_total_fits(counts.deep_view()) {
            &&& r.succeeds_with(OK, Seq::empty())
            &&& r.body.data->0.total_count == total_of(counts.deep_view())
            &&& r.body.data->0.today_count == today_count_of(counts.deep_view(), today@)
            &&& r.body.data->0.weekly_days == weekly_days_of(days as int)
            &&& r.body.data->0.daily_counts.deep_view() == daily_stats_of(counts.deep_view())
        } else {
            r.fails_with(INTERNAL_SERVER_ERROR, "Failed to get statistics"@)
        },
{
    proof {
        reveal_strlit("");
        assert(""@ =~= Seq::<char>::empty());
    }
    match build_statistics_response(counts, days, today) {
        Some(stats) => Answer::success(OK, stats, ""),
        None => Answer::failure(INTERNAL_SERVER_ERROR, "Failed to get statistics"),
    }
}

/// What the service says of itself.
#[derive(Debug, PartialEq, Eq)]
pub struct ServiceInfo {
    pub message: &'static str,
    pub version: &'static str,
}

/// The answer at the root of the service.
pub fn root() -> (r: ApiResponse<ServiceInfo>)
    ensures
        r.success,
        r.data matches Some(info) && info.message@ == "Will Counter API"@ && info.version@
            == "1.0.0"@,
        r.message@ == "Welcome to Will Counter API"@,
        r.error is None,
{
    ApiResponse::ok(
        ServiceInfo { message: "Will Counter API", version: "1.0.0" },
        "Welcome to Will Counter API",
    )
}

/// What the service says of its health.
#[derive(Debug, PartialEq, Eq)]
pub struct Health {
    pub code: u16,
    pub status: &'static str,
    pub supabase: &'static str,
    pub sql_database: &'static str,
}

/// The report on the health of the service, given whether the remote
/// store is there.
pub fn health(store_is_healthy: bool) -> (r: Health)
    ensures
        r.code == if store_is_healthy {
            OK
        } else {
            SERVICE_UNAVAILABLE
        },
        r.status@ == if store_is_healthy {
            "ok"@
        } else {
            "degraded"@
        },
        r.supabase@ == if store_is_healthy {
            "healthy"@
        } else {
            "unavailable"@
        },
        r.sql_database@ == r.supabase@,
{
    if store_is_healthy {
        Health { code: OK, status: "ok", supabase: "healthy", sql_database: "healthy" }
    } else {
        Health {
            code: SERVICE_UNAVAILABLE,
            status: "degraded",
            supabase: "unavailable",
            sql_database: "unavailable",
        }
    }
}

} // verus!
