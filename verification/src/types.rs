//! The records that pass between the remote store, the fallback store
//! and the callers, each with its mathematical model.

use crate::ids::{format_id, id_text};
use vstd::prelude::*;
use vstd::string::StringExecFns;

verus! {

/// One setting of a user, as far as its value is read here.
#[derive(Debug, PartialEq, Eq)]
pub enum PreferenceValue {
    /// A switch.
    Flag(bool),
    /// A piece of text.
    Text(String),
    /// Any other value, kept as the JSON text it was written in.
    Json(String),
}

/// The value of a setting, with its text as characters.
pub enum PreferenceValueModel {
    Flag(bool),
    Text(Seq<char>),
    Json(Seq<char>),
}

impl View for PreferenceValue {
    type V = PreferenceValueModel;

    open spec fn view(&self) -> PreferenceValueModel {
        match self {
            PreferenceValue::Flag(b) => PreferenceValueModel::Flag(*b),
            PreferenceValue::Text(t) => PreferenceValueModel::Text(t@),
            PreferenceValue::Json(t) => PreferenceValueModel::Json(t@),
        }
    }
}

impl Clone for PreferenceValue {
    fn clone(&self) -> (r: Self)
        ensures
            r@ == self@,
    {
        match self {
            PreferenceValue::Flag(b) => PreferenceValue::Flag(*b),
            PreferenceValue::Text(t) => PreferenceValue::Text(t.clone()),
            PreferenceValue::Json(t) => PreferenceValue::Json(t.clone()),
        }
    }
}

/// A named setting of a user.
#[derive(Debug, PartialEq, Eq)]
pub struct Preference {
    pub name: String,
    pub value: PreferenceValue,
}

/// A named setting, with its texts as characters.
pub struct PreferenceModel {
    pub name: Seq<char>,
    pub value: PreferenceValueModel,
}

impl View for Preference {
    type V = PreferenceModel;

    open spec fn view(&self) -> PreferenceModel {
        PreferenceModel { name: self.name@, value: self.value@ }
    }
}

impl DeepView for Preference {
    type V = PreferenceModel;

    open spec fn deep_view(&self) -> PreferenceModel {
        self@
    }
}

impl Clone for Preference {
    fn clone(&self) -> (r: Self)
        ensures
            r@ == self@,
    {
        Preference { name: self.name.clone(), value: self.value.clone() }
    }
}

/// The settings of a user the store has not seen before: sound and
/// notifications switched on, and the light theme.
pub open spec fn default_preferences_model() -> Seq<PreferenceModel> {
    seq![
        PreferenceModel { name: "soundEnabled"@, value: PreferenceValueModel::Flag(true) },
        PreferenceModel { name: "notificationEnabled"@, value: PreferenceValueModel::Flag(true) },
        PreferenceModel { name: "theme"@, value: PreferenceValueModel::Text("light"@) },
    ]
}

/// The settings of a user the store has not seen before.
pub fn default_preferences() -> (r: Vec<Preference>)
    ensures
        r.deep_view() == default_preferences_model(),
{
    let mut r: Vec<Preference> = Vec::new();
    r.push(
        Preference { name: String::from_str("soundEnabled"), value: PreferenceValue::Flag(true) },
    );
    r.push(
        Preference {
            name: String::from_str("notificationEnabled"),
            value: PreferenceValue::Flag(true),
        },
    );
    r.push(
        Preference {
            name: String::from_str("theme"),
            value: PreferenceValue::Text(String::from_str("light")),
        },
    );
    assert(r.deep_view() =~= default_preferences_model());
    r
}

/// A copy of a list of settings.
pub fn clone_preferences(p: &Vec<Preference>) -> (r: Vec<Preference>)
    ensures
        r.deep_view() == p.deep_view(),
{
    let mut r: Vec<Preference> = Vec::new();
    let mut i: usize = 0;
    while i < p.len()
        invariant
            i <= p.len(),
            r.len() == i,
            forall|j: int| 0 <= j < i ==> r@[j]@ == p@[j]@,
        decreases p.len() - i,
    {
        r.push(p[i].clone());
        i += 1;
    }
    assert(r.deep_view() =~= p.deep_view());
    r
}

/// A user as the stores hold it.
#[derive(Debug, PartialEq, Eq)]
pub struct SupabaseUser {
    pub id: u128,
    pub auth0_id: String,
    pub email: String,
    pub created_at: String,
    pub last_login: Option<String>,
    pub preferences: Vec<Preference>,
}

/// A user, with its texts as characters.
pub struct UserModel {
    pub id: u128,
    pub auth0_id: Seq<char>,
    pub email: Seq<char>,
    pub created_at: Seq<char>,
    pub last_login: Option<Seq<char>>,
    pub preferences: Seq<PreferenceModel>,
}

impl UserModel {
    /// The user that the fallback makes up for a subject the remote
    /// store could not give: never logged in, with the default settings.
    pub open spec fn made_up(id: u128, auth0_id: Seq<char>, email: Seq<char>, now: Seq<char>) -> UserModel {
        UserModel {
            id,
            auth0_id,
            email,
            created_at: now,
            last_login: None,
            preferences: default_preferences_model(),
        }
    }
}

impl View for SupabaseUser {
    type V = UserModel;

    open spec fn view(&self) -> UserModel {
        UserModel {
            id: self.id,
            auth0_id: self.auth0_id@,
            email: self.email@,
            created_at: self.created_at@,
            last_login: self.last_login.deep_view(),
            preferences: self.preferences.deep_view(),
        }
    }
}

impl DeepView for SupabaseUser {
    type V = UserModel;

    open spec fn deep_view(&self) -> UserModel {
        self@
    }
}

impl Clone for SupabaseUser {
    fn clone(&self) -> (r: Self)
        ensures
            r@ == self@,
    {
        let last_login = match &self.last_login {
            Some(t) => Some(t.clone()),
            None => None,
        };
        SupabaseUser {
            id: self.id,
            auth0_id: self.auth0_id.clone(),
            email: self.email.clone(),
            created_at: self.created_at.clone(),
            last_login,
            preferences: clone_preferences(&self.preferences),
        }
    }
}

/// The counter of one user on one day, as the stores hold it.
#[derive(Debug, PartialEq, Eq)]
pub struct SupabaseWillCount {
    pub id: u128,
    pub user_id: u128,
    pub date: String,
    pub count: i32,
    pub timestamps: Vec<String>,
    pub created_at: String,
    pub updated_at: String,
}

/// A day's counter, with its texts as characters and its count as a number without bound.
pub struct CountModel {
    pub id: u128,
    pub user_id: u128,
    pub date: Seq<char>,
    pub count: int,
    pub timestamps: Seq<Seq<char>>,
    pub created_at: Seq<char>,
    pub updated_at: Seq<char>,
}

impl CountModel {
    /// A counter stands for as many events as it has recorded times.
    pub open spec fn consistent(self) -> bool {
        self.count == self.timestamps.len()
    }

    /// The counter of a day on which nothing has happened yet.
    pub open spec fn fresh(id: u128, user_id: u128, date: Seq<char>, now: Seq<char>) -> CountModel {
        CountModel {
            id,
            user_id,
            date,
            count: 0,
            timestamps: Seq::empty(),
            created_at: now,
            updated_at: now,
        }
    }

    /// This counter after one more event, at `now`.
    pub open spec fn incremented(self, now: Seq<char>) -> CountModel {
        CountModel {
            count: self.count + 1,
            timestamps: self.timestamps.push(now),
            updated_at: now,
            ..self
        }
    }

    /// This counter set back to nothing, at `now`.
    pub open spec fn cleared(self, now: Seq<char>) -> CountModel {
        CountModel { count: 0, timestamps: Seq::empty(), updated_at: now, ..self }
    }
}

impl View for SupabaseWillCount {
    type V = CountModel;

    open spec fn view(&self) -> CountModel {
        CountModel {
            id: self.id,
            user_id: self.user_id,
            date: self.date@,
            count: self.count as int,
            timestamps: self.timestamps.deep_view(),
            created_at: self.created_at@,
            updated_at: self.updated_at@,
        }
    }
}

impl DeepView for SupabaseWillCount {
    type V = CountModel;

    open spec fn deep_view(&self) -> CountModel {
        self@
    }
}

impl Clone for SupabaseWillCount {
    fn clone(&self) -> (r: Self)
        ensures
            r@ == self@,
    {
        SupabaseWillCount {
            id: self.id,
            user_id: self.user_id,
            date: self.date.clone(),
            count: self.count,
            timestamps: self.timestamps.clone(),
            created_at: self.created_at.clone(),
            updated_at: self.updated_at.clone(),
        }
    }
}

/// The envelope in which an answer is given to a caller.
#[derive(Debug, PartialEq, Eq)]
pub struct ApiResponse<T> {
    pub success: bool,
    pub data: Option<T>,
    pub message: String,
    pub error: Option<String>,
}

impl<T> ApiResponse<T> {
    /// An answer that carries `data`.
    pub fn ok(data: T, message: &str) -> (r: Self)
        ensures
            r.success,
            r.data == Some(data),
            r.message@ == message@,
            r.error is None,
    {
        ApiResponse { success: true, data: Some(data), message: message.to_owned(), error: None }
    }

    /// An answer that carries no data, only that all went well.
    pub fn done(message: &str) -> (r: Self)
        ensures
            r.success,
            r.data is None,
            r.message@ == message@,
            r.error is None,
    {
        ApiResponse { success: true, data: None, message: message.to_owned(), error: None }
    }

    /// An answer that says what went wrong, and nothing else.
    pub fn failure(error: &str) -> (r: Self)
        ensures
            !r.success,
            r.data is None,
            r.message@ == Seq::<char>::empty(),
            r.error.deep_view() == Some(error@),
    {
        ApiResponse { success: false, data: None, message: String::new(), error: Some(error.to_owned()) }
    }
}

/// What a caller sends to have a user created.
#[derive(Debug, PartialEq, Eq)]
pub struct CreateUserRequest {
    pub auth0_id: String,
    pub email: String,
}

/// A user as callers see it.
#[derive(Debug, PartialEq, Eq)]
pub struct UserResponse {
    pub id: String,
    pub auth0_id: String,
    pub email: String,
    pub created_at: String,
    pub last_login: Option<String>,
    pub preferences: Vec<Preference>,
}

/// A user as callers see it, with its texts as characters.
pub struct UserResponseModel {
    pub id: Seq<char>,
    pub auth0_id: Seq<char>,
    pub email: Seq<char>,
    pub created_at: Seq<char>,
    pub last_login: Option<Seq<char>>,
    pub preferences: Seq<PreferenceModel>,
}

impl View for UserResponse {
    type V = UserResponseModel;

    open spec fn view(&self) -> UserResponseModel {
        UserResponseModel {
            id: self.id@,
            auth0_id: self.auth0_id@,
            email: self.email@,
            created_at: self.created_at@,
            last_login: self.last_login.deep_view(),
            preferences: self.preferences.deep_view(),
        }
    }
}

impl UserModel {
    /// This user as callers see it: the same, with the identifier written out.
    pub open spec fn response(self) -> UserResponseModel {
        UserResponseModel {
            id: id_text(self.id),
            auth0_id: self.auth0_id,
            email: self.email,
            created_at: self.created_at,
            last_login: self.last_login,
            preferences: self.preferences,
        }
    }
}

/// A stored user in the form that callers see.
pub fn map_user(user: SupabaseUser) -> (r: UserResponse)
    ensures
        r@ == user@.response(),
{
    UserResponse {
        id: format_id(user.id),
        auth0_id: user.auth0_id,
        email: user.email,
        created_at: user.created_at,
        last_login: user.last_login,
        preferences: user.preferences,
    }
}

/// A day's counter as callers see it.
#[derive(Debug, PartialEq, Eq)]
pub struct WillCountResponse {
    pub id: String,
    pub user_id: String,
    pub date: String,
    pub count: i32,
    pub timestamps: Vec<String>,
    pub created_at: String,
    pub updated_at: String,
}

/// A day's counter as callers see it, with its texts as characters.
pub struct WillCountResponseModel {
    pub id: Seq<char>,
    pub user_id: Seq<char>,
    pub date: Seq<char>,
    pub count: int,
    pub timestamps: Seq<Seq<char>>,
    pub created_at: Seq<char>,
    pub updated_at: Seq<char>,
}

impl View for WillCountResponse {
    type V = WillCountResponseModel;

    open spec fn view(&self) -> WillCountResponseModel {
        WillCountResponseModel {
            id: self.id@,
            user_id: self.user_id@,
            date: self.date@,
            count: self.count as int,
            timestamps: self.timestamps.deep_view(),
            created_at: self.created_at@,
            updated_at: self.updated_at@,
        }
    }
}

impl CountModel {
    /// This counter as callers see it: the same, with the identifiers
    /// written out.
    pub open spec fn response(self) -> WillCountResponseModel {
        WillCountResponseModel {
            id: id_text(self.id),
            user_id: id_text(self.user_id),
            date: self.date,
            count: self.count,
            timestamps: self.timestamps,
            created_at: self.created_at,
            updated_at: self.updated_at,
        }
    }
}

/// A stored counter in the form that callers see.
pub fn map_count(count: SupabaseWillCount) -> (r: WillCountResponse)
    ensures
        r@ == count@.response(),
{
    WillCountResponse {
        id: format_id(count.id),
        user_id: format_id(count.user_id),
        date: count.date,
        count: count.count,
        timestamps: count.timestamps,
        created_at: count.created_at,
        updated_at: count.updated_at,
    }
}

/// One day in a user's statistics.
#[derive(Debug, PartialEq, Eq)]
pub struct DailyStat {
    pub date: String,
    pub count: i32,
    /// How many times were recorded on that day.
    pub sessions: usize,
}

/// One day of the statistics, with its text as characters.
pub struct DailyStatModel {
    pub date: Seq<char>,
    pub count: int,
    pub sessions: nat,
}

impl View for DailyStat {
    type V = DailyStatModel;

    open spec fn view(&self) -> DailyStatModel {
        DailyStatModel { date: self.date@, count: self.count as int, sessions: self.sessions as nat }
    }
}

impl DeepView for DailyStat {
    type V = DailyStatModel;

    open spec fn deep_view(&self) -> DailyStatModel {
        self@
    }
}

/// A user's statistics over the last days. The average per day of the
/// week is the total over `weekly_days`, and zero where that is zero.
#[derive(Debug, PartialEq, Eq)]
pub struct StatisticsResponse {
    pub total_count: i32,
    pub today_count: i32,
    /// By how many days the total is divided for the weekly average.
    pub weekly_days: i32,
    pub daily_counts: Vec<DailyStat>,
}

} // verus!
