//! The conversation with the remote store: what is asked of it, what it
//! may answer, and how an answer is read.

use crate::ids::{format_id, id_text};
use crate::text::join;
use vstd::prelude::*;
use vstd::string::StringExecFns;

verus! {

/// Why an operation on the remote store gave no result.
#[derive(Clone, Copy, Debug, PartialEq, Eq, Structural)]
pub enum StoreError {
    /// The store did not answer in time, or answered with a status
    /// other than the one that the request succeeds with.
    RemoteUnavailable,
    /// The store holds such a record already.
    RemoteConflict,
    /// The store answered, but not with records.
    RemoteMalformedResponse,
    /// Neither the remote store nor the fallback can do what was asked.
    OperationFailed,
}

/// The status with which the store answers a query.
pub const STATUS_OK: u16 = 200;

/// The status with which the store answers a creation.
pub const STATUS_CREATED: u16 = 201;

/// The status with which the store answers a probe of something it
/// does not have.
pub const STATUS_NOT_FOUND: u16 = 404;

/// The status with which the store refuses a second record of one key.
pub const STATUS_CONFLICT: u16 = 409;

/// One request to the remote store.
#[derive(Debug, PartialEq, Eq)]
pub enum RemoteCall {
    /// Is the store there?
    Probe,
    /// The users of this subject.
    FindUser { auth0_id: String },
    /// A new user.
    CreateUser { auth0_id: String, email: String },
    /// The user with this identifier has logged in at `at`.
    TouchLogin { user_id: u128, at: String },
    /// The counters of this user on this day.
    FindCount { user_id: u128, date: String },
    /// A new counter at zero.
    CreateCount { user_id: u128, date: String, now: String },
    /// One more event for this user today, counted by the store itself
    /// in one step.
    IncrementCount { user_id: u128 },
    /// New contents for the counter with this identifier.
    PatchCount { id: u128, count: i32, timestamps: Vec<String>, updated_at: String },
    /// The counters of this user from `start` on, latest first.
    History { user_id: u128, start: String },
}

/// A request, with its texts as characters.
pub enum RemoteCallModel {
    Probe,
    FindUser { auth0_id: Seq<char> },
    CreateUser { auth0_id: Seq<char>, email: Seq<char> },
    TouchLogin { user_id: u128, at: Seq<char> },
    FindCount { user_id: u128, date: Seq<char> },
    CreateCount { user_id: u128, date: Seq<char>, now: Seq<char> },
    IncrementCount { user_id: u128 },
    PatchCount { id: u128, count: int, timestamps: Seq<Seq<char>>, updated_at: Seq<char> },
    History { user_id: u128, start: Seq<char> },
}

impl View for RemoteCall {
    type V = RemoteCallModel;

    open spec fn view(&self) -> RemoteCallModel {
        match self {
            RemoteCall::Probe => RemoteCallModel::Probe,
            RemoteCall::FindUser { auth0_id } => RemoteCallModel::FindUser { auth0_id: auth0_id@ },
            RemoteCall::CreateUser { auth0_id, email } => RemoteCallModel::CreateUser {
                auth0_id: auth0_id@,
                email: email@,
            },
            RemoteCall::TouchLogin { user_id, at } => RemoteCallModel::TouchLogin {
                user_id: *user_id,
                at: at@,
            },
            RemoteCall::FindCount { user_id, date } => RemoteCallModel::FindCount {
                user_id: *user_id,
                date: date@,
            },
            RemoteCall::CreateCount { user_id, date, now } => RemoteCallModel::CreateCount {
                user_id: *user_id,
                date: date@,
                now: now@,
            },
            RemoteCall::IncrementCount { user_id } => RemoteCallModel::IncrementCount {
                user_id: *user_id,
            },
            RemoteCall::PatchCount { id, count, timestamps, updated_at } => {
                RemoteCallModel::PatchCount {
                    id: *id,
                    count: *count as int,
                    timestamps: timestamps.deep_view(),
                    updated_at: updated_at@,
                }
            },
            RemoteCall::History { user_id, start } => RemoteCallModel::History {
                user_id: *user_id,
                start: start@,
            },
        }
    }
}

/// The verb of a request.
#[derive(Clone, Copy, Debug, PartialEq, Eq, Structural)]
pub enum Method {
    Get,
    Post,
    Patch,
}

/// A value in the body of a request.
#[derive(Debug, PartialEq, Eq)]
pub enum Field {
    Text(String),
    Number(i32),
    Texts(Vec<String>),
}

/// A value in the body of a request, with its texts as characters.
pub enum FieldModel {
    Text(Seq<char>),
    Number(int),
    Texts(Seq<Seq<char>>),
}

impl View for Field {
    type V = FieldModel;

    open spec fn view(&self) -> FieldModel {
        match self {
            Field::Text(t) => FieldModel::Text(t@),
            Field::Number(n) => FieldModel::Number(*n as int),
            Field::Texts(ts) => FieldModel::Texts(ts.deep_view()),
        }
    }
}

impl DeepView for Field {
    type V = FieldModel;

    open spec fn deep_view(&self) -> FieldModel {
        self@
    }
}

/// A filter that keeps the records whose column equals `value`.
pub open spec fn equals(value: Seq<char>) -> Seq<char> {
    "eq."@ + value
}

/// A filter that keeps the records whose column is `value` or more.
pub open spec fn at_least(value: Seq<char>) -> Seq<char> {
    "gte."@ + value
}

impl RemoteCallModel {
    /// The verb of the request.
    pub open spec fn method(self) -> Method {
        match self {
            RemoteCallModel::Probe => Method::Get,
            RemoteCallModel::FindUser { .. } => Method::Get,
            RemoteCallModel::CreateUser { .. } => Method::Post,
            RemoteCallModel::TouchLogin { .. } => Method::Patch,
            RemoteCallModel::FindCount { .. } => Method::Get,
            RemoteCallModel::CreateCount { .. } => Method::Post,
            RemoteCallModel::IncrementCount { .. } => Method::Post,
            RemoteCallModel::PatchCount { .. } => Method::Patch,
            RemoteCallModel::History { .. } => Method::Get,
        }
    }

    /// The path of the request below the address of the store.
    pub open spec fn path(self) -> Seq<char> {
        match self {
            RemoteCallModel::Probe => "/rest/v1/"@,
            RemoteCallModel::FindUser { .. } => "/rest/v1/users"@,
            RemoteCallModel::CreateUser { .. } => "/rest/v1/users"@,
            RemoteCallModel::TouchLogin { .. } => "/rest/v1/users"@,
            RemoteCallModel::FindCount { .. } => "/rest/v1/will_counts"@,
            RemoteCallModel::CreateCount { .. } => "/rest/v1/will_counts"@,
            RemoteCallModel::IncrementCount { .. } => "/rest/v1/rpc/increment_will_count"@,
            RemoteCallModel::PatchCount { .. } => "/rest/v1/will_counts"@,
            RemoteCallModel::History { .. } => "/rest/v1/will_counts"@,
        }
    }

    /// The filters of the request, in order.
    pub open spec fn query(self) -> Seq<(Seq<char>, Seq<char>)> {
        match self {
            RemoteCallModel::FindUser { auth0_id } => seq![
                ("auth0_id"@, equals(auth0_id)),
                ("select"@, "*"@),
            ],
            RemoteCallModel::TouchLogin { user_id, .. } => seq![("id"@, equals(id_text(user_id)))],
            RemoteCallModel::FindCount { user_id, date } => seq![
                ("user_id"@, equals(id_text(user_id))),
                ("date"@, equals(date)),
                ("select"@, "*"@),
            ],
            RemoteCallModel::PatchCount { id, .. } => seq![("id"@, equals(id_text(id)))],
            RemoteCallModel::History { user_id, start } => seq![
                ("user_id"@, equals(id_text(user_id))),
                ("date"@, at_least(start)),
                ("order"@, "date.desc"@),
                ("select"@, "*"@),
            ],
            _ => Seq::empty(),
        }
    }

    /// The fields of the body of the request, in order; none where the
    /// request has no body.
    pub open spec fn body(self) -> Seq<(Seq<char>, FieldModel)> {
        match self {
            RemoteCallModel::CreateUser { auth0_id, email } => seq![
                ("auth0_id"@, FieldModel::Text(auth0_id)),
                ("email"@, FieldModel::Text(email)),
            ],
            RemoteCallModel::TouchLogin { at, .. } => seq![("last_login"@, FieldModel::Text(at))],
            RemoteCallModel::CreateCount { user_id, date, now } => seq![
                ("user_id"@, FieldModel::Text(id_text(user_id))),
                ("date"@, FieldModel::Text(date)),
                ("count"@, FieldModel::Number(0)),
                ("timestamps"@, FieldModel::Texts(Seq::empty())),
                ("created_at"@, FieldModel::Text(now)),
                ("updated_at"@, FieldModel::Text(now)),
            ],
            RemoteCallModel::IncrementCount { user_id } => seq![
                ("p_user_id"@, FieldModel::Text(id_text(user_id))),
            ],
            RemoteCallModel::PatchCount { count, timestamps, updated_at, .. } => seq![
                ("count"@, FieldModel::Number(count)),
                ("timestamps"@, FieldModel::Texts(timestamps)),
                ("updated_at"@, FieldModel::Text(updated_at)),
            ],
            _ => Seq::empty(),
        }
    }

    /// Whether the store is asked to answer with the records that the
    /// request wrote.
    pub open spec fn wants_records(self) -> bool {
        match self {
            RemoteCallModel::CreateUser { .. } => true,
            RemoteCallModel::TouchLogin { .. } => true,
            RemoteCallModel::CreateCount { .. } => true,
            RemoteCallModel::PatchCount { .. } => true,
            _ => false,
        }
    }

    /// Whether the store answers with one record, not with a list.
    pub open spec fn answers_one(self) -> bool {
        self is IncrementCount
    }
}

impl RemoteCall {
    /// The verb of the request.
    pub fn method(&self) -> (r: Method)
        ensures
            r == self@.method(),
    {
        match self {
            RemoteCall::Probe => Method::Get,
            RemoteCall::FindUser { .. } => Method::Get,
            RemoteCall::CreateUser { .. } => Method::Post,
            RemoteCall::TouchLogin { .. } => Method::Patch,
            RemoteCall::FindCount { .. } => Method::Get,
            RemoteCall::CreateCount { .. } => Method::Post,
            RemoteCall::IncrementCount { .. } => Method::Post,
            RemoteCall::PatchCount { .. } => Method::Patch,
            RemoteCall::History { .. } => Method::Get,
        }
    }

    /// The path of the request below the address of the store.
    pub fn path(&self) -> (r: &'static str)
        ensures
            r@ == self@.path(),
    {
        match self {
            RemoteCall::Probe => "/rest/v1/",
            RemoteCall::FindUser { .. } => "/rest/v1/users",
            RemoteCall::CreateUser { .. } => "/rest/v1/users",
            RemoteCall::TouchLogin { .. } => "/rest/v1/users",
            RemoteCall::FindCount { .. } => "/rest/v1/will_counts",
            RemoteCall::CreateCount { .. } => "/rest/v1/will_counts",
            RemoteCall::IncrementCount { .. } => "/rest/v1/rpc/increment_will_count",
            RemoteCall::PatchCount { .. } => "/rest/v1/will_counts",
            RemoteCall::History { .. } => "/rest/v1/will_counts",
        }
    }

    /// The filters of the request, in order.
    pub fn query(&self) -> (r: Vec<(String, String)>)
        ensures
            r.deep_view() == self@.query(),
    {
        let mut r: Vec<(String, String)> = Vec::new();
        match self {
            RemoteCall::FindUser { auth0_id } => {
                r.push((String::from_str("auth0_id"), join("eq.", auth0_id.as_str())));
                r.push((String::from_str("select"), String::from_str("*")));
            },
            RemoteCall::TouchLogin { user_id, .. } => {
                r.push((String::from_str("id"), join("eq.", format_id(*user_id).as_str())));
            },
            RemoteCall::FindCount { user_id, date } => {
                r.push((String::from_str("user_id"), join("eq.", format_id(*user_id).as_str())));
                r.push((String::from_str("date"), join("eq.", date.as_str())));
                r.push((String::from_str("select"), String::from_str("*")));
            },
            RemoteCall::PatchCount { id, .. } => {
                r.push((String::from_str("id"), join("eq.", format_id(*id).as_str())));
            },
            RemoteCall::History { user_id, start } => {
                r.push((String::from_str("user_id"), join("eq.", format_id(*user_id).as_str())));
                r.push((String::from_str("date"), join("gte.", start.as_str())));
                r.push((String::from_str("order"), String::from_str("date.desc")));
                r.push((String::from_str("select"), String::from_str("*")));
            },
            _ => {},
        }
        assert(r.deep_view() =~= self@.query());
        r
    }

    /// The fields of the body of the request, in order; none where the
    /// request has no body.
    pub fn body(&self) -> (r: Vec<(String, Field)>)
        ensures
            r.deep_view() == self@.body(),
    {
        let mut r: Vec<(String, Field)> = Vec::new();
        match self {
            RemoteCall::CreateUser { auth0_id, email } => {
                r.push((String::from_str("auth0_id"), Field::Text(auth0_id.clone())));
                r.push((String::from_str("email"), Field::Text(email.clone())));
            },
            RemoteCall::TouchLogin { at, .. } => {
                r.push((String::from_str("last_login"), Field::Text(at.clone())));
            },
            RemoteCall::CreateCount { user_id, date, now } => {
                let none: Vec<String> = Vec::new();
                assert(none.deep_view() =~= Seq::empty());
                r.push((String::from_str("user_id"), Field::Text(format_id(*user_id))));
                r.push((String::from_str("date"), Field::Text(date.clone())));
                r.push((String::from_str("count"), Field::Number(0)));
                r.push((String::from_str("timestamps"), Field::Texts(none)));
                r.push((String::from_str("created_at"), Field::Text(now.clone())));
                r.push((String::from_str("updated_at"), Field::Text(now.clone())));
            },
            RemoteCall::IncrementCount { user_id } => {
                r.push((String::from_str("p_user_id"), Field::Text(format_id(*user_id))));
            },
            RemoteCall::PatchCount { count, timestamps, updated_at, .. } => {
                r.push((String::from_str("count"), Field::Number(*count)));
                r.push((String::from_str("timestamps"), Field::Texts(timestamps.clone())));
                r.push((String::from_str("updated_at"), Field::Text(updated_at.clone())));
            },
            _ => {},
        }
        assert(r.deep_view() =~= self@.body());
        r
    }

    /// Whether the store is asked to answer with the records that the
    /// request wrote.
    pub fn wants_records(&self) -> (r: bool)
        ensures
            r == self@.wants_records(),
    {
        match self {
            RemoteCall::CreateUser { .. } => true,
            RemoteCall::TouchLogin { .. } => true,
            RemoteCall::CreateCount { .. } => true,
            RemoteCall::PatchCount { .. } => true,
            _ => false,
        }
    }

    /// Whether the store answers with one record, not with a list.
    pub fn answers_one(&self) -> (r: bool)
        ensures
            r == self@.answers_one(),
    {
        match self {
            RemoteCall::IncrementCount { .. } => true,
            _ => false,
        }
    }
}

/// What came back for one request.
#[derive(Debug, PartialEq, Eq)]
pub enum Reply<T> {
    /// Nothing: the request failed on the way, or ran out of time.
    Unreachable,
    /// An answer, with its status and the records in its body where the
    /// body could be read as records.
    Answered { status: u16, rows: Option<Vec<T>> },
}

/// What came back for a request, with its records in their mathematical form.
pub enum ReplyModel<M> {
    Unreachable,
    Answered { status: u16, rows: Option<Seq<M>> },
}

impl<T: DeepView> View for Reply<T> {
    type V = ReplyModel<T::V>;

    open spec fn view(&self) -> ReplyModel<T::V> {
        match self {
            Reply::Unreachable => ReplyModel::Unreachable,
            Reply::Answered { status, rows } => ReplyModel::Answered {
                status: *status,
                rows: rows.deep_view(),
            },
        }
    }
}

impl<M> ReplyModel<M> {
    /// How an answer is read where `expected` is the status of success:
    /// the first record, or that there is none, or why the request
    /// failed. A conflict is told apart from the other failures.
    pub open spec fn first_row(self, expected: u16) -> Result<Option<M>, StoreError> {
        match self {
            ReplyModel::Unreachable => Err(StoreError::RemoteUnavailable),
            ReplyModel::Answered { status, rows } => {
                if status == STATUS_CONFLICT {
                    Err(StoreError::RemoteConflict)
                } else if status != expected {
                    Err(StoreError::RemoteUnavailable)
                } else {
                    match rows {
                        None => Err(StoreError::RemoteMalformedResponse),
                        Some(rs) => Ok(
                            if rs.len() > 0 {
                                Some(rs[0])
                            } else {
                                None
                            },
                        ),
                    }
                }
            },
        }
    }
}

/// Whether `r` is the exec form of the spec result `m`.
pub open spec fn same_row<T: DeepView>(
    r: Result<Option<T>, StoreError>,
    m: Result<Option<T::V>, StoreError>,
) -> bool {
    match (r, m) {
        (Ok(a), Ok(b)) => a.deep_view() == b,
        (Err(e), Err(f)) => e == f,
        _ => false,
    }
}

impl<T: DeepView> Reply<T> {
    /// Reads an answer where `expected` is the status of success.
    pub fn first_row(self, expected: u16) -> (r: Result<Option<T>, StoreError>)
        ensures
            same_row(r, self@.first_row(expected)),
    {
        match self {
            Reply::Unreachable => Err(StoreError::RemoteUnavailable),
            Reply::Answered { status, rows } => {
                if status == STATUS_CONFLICT {
                    Err(StoreError::RemoteConflict)
                } else if status != expected {
                    Err(StoreError::RemoteUnavailable)
                } else {
                    match rows {
                        None => Err(StoreError::RemoteMalformedResponse),
                        Some(mut rs) => {
                            if rs.len() > 0 {
                                let first = rs.swap_remove(0);
                                Ok(Some(first))
                            } else {
                                Ok(None)
                            }
                        },
                    }
                }
            },
        }
    }
}

} // verus!
