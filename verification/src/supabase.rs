//! The access layer of the remote store. Each operation asks the
//! remote store first, one request at a time, and falls back to records
//! kept in this process where the remote store fails.

use crate::clock::{Moment, MomentModel};
use crate::ids::{format_id, id_text};
use crate::remote::{RemoteCall, StoreError};
use crate::text::{join, strip_trailing, trim_end_slashes};
use crate::types::{
    default_preferences, CountModel, SupabaseUser, SupabaseWillCount, UserModel,
};
use vstd::hash_map::StringHashMap;
use vstd::prelude::*;
use vstd::string::StringExecFns;

verus! {

/// The key of a counter in the fallback: the user's identifier as it
/// is written, a hyphen, and the day.
pub open spec fn count_key(user_id: u128, date: Seq<char>) -> Seq<char> {
    id_text(user_id) + "-"@ + date
}

/// The records that this process keeps in place of the remote store
/// while that fails. They are never written back, and are gone when
/// the process ends.
pub struct FallbackModel {
    /// The users, by subject.
    pub users: Map<Seq<char>, UserModel>,
    /// The counters, each under the key of its user and day.
    pub counts: Map<Seq<char>, CountModel>,
}

impl FallbackModel {
    /// Each record is kept under its own key, and each counter stands
    /// for as many events as it has recorded times.
    pub open spec fn wf(self) -> bool {
        &&& forall|k: Seq<char>| #[trigger]
            self.users.contains_key(k) ==> self.users[k].auth0_id == k
        &&& forall|k: Seq<char>| #[trigger]
            self.counts.contains_key(k) ==> {
                &&& count_key(self.counts[k].user_id, self.counts[k].date) == k
                &&& self.counts[k].consistent()
                &&& self.counts[k].count <= i32::MAX
            }
    }

    /// The fallback of a process that has just begun.
    pub open spec fn empty() -> FallbackModel {
        FallbackModel { users: Map::empty(), counts: Map::empty() }
    }

    /// The user of a subject: the one that is kept, or else a new one
    /// with the identifier `id`, made at `now`.
    pub open spec fn user(self, auth0_id: Seq<char>, email: Seq<char>, id: u128, now: Seq<char>) -> UserModel {
        if self.users.contains_key(auth0_id) {
            self.users[auth0_id]
        } else {
            UserModel::made_up(id, auth0_id, email, now)
        }
    }

    /// The fallback once the user of a subject has been asked for.
    pub open spec fn with_user(self, auth0_id: Seq<char>, email: Seq<char>, id: u128, now: Seq<char>) -> FallbackModel {
        FallbackModel {
            users: self.users.insert(auth0_id, self.user(auth0_id, email, id, now)),
            ..self
        }
    }

    /// The counter of a user on the day of `m`: the one that is kept,
    /// or else a new one at zero with the identifier `id`.
    pub open spec fn today(self, user_id: u128, id: u128, m: MomentModel) -> CountModel {
        if self.counts.contains_key(count_key(user_id, m.today)) {
            self.counts[count_key(user_id, m.today)]
        } else {
            CountModel::fresh(id, user_id, m.today, m.now)
        }
    }

    /// The fallback once the counter of a user on the day of `m` has
    /// been asked for.
    pub open spec fn with_today(self, user_id: u128, id: u128, m: MomentModel) -> FallbackModel {
        FallbackModel {
            counts: self.counts.insert(count_key(user_id, m.today), self.today(user_id, id, m)),
            ..self
        }
    }

    /// The counter of a user on the day of `m` after one more event, or
    /// that it cannot count further.
    pub open spec fn incremented(self, user_id: u128, id: u128, m: MomentModel) -> Result<CountModel, StoreError> {
        if self.today(user_id, id, m).count < i32::MAX {
            Ok(self.today(user_id, id, m).incremented(m.now))
        } else {
            Err(StoreError::OperationFailed)
        }
    }

    /// The fallback after an increment; a counter that cannot count
    /// further stays as it is.
    pub open spec fn with_increment(self, user_id: u128, id: u128, m: MomentModel) -> FallbackModel {
        match self.incremented(user_id, id, m) {
            Ok(c) => FallbackModel { counts: self.counts.insert(count_key(user_id, m.today), c), ..self },
            Err(_) => self.with_today(user_id, id, m),
        }
    }

    /// The counter of a user on the day of `m`, set back to nothing.
    pub open spec fn cleared(self, user_id: u128, id: u128, m: MomentModel) -> CountModel {
        self.today(user_id, id, m).cleared(m.now)
    }

    /// The fallback after a reset.
    pub open spec fn with_reset(self, user_id: u128, id: u128, m: MomentModel) -> FallbackModel {
        FallbackModel {
            counts: self.counts.insert(count_key(user_id, m.today), self.cleared(user_id, id, m)),
            ..self
        }
    }
}

/// The fallback after the events of one day: one increment for each
/// of the times in `stamps`, in order.
pub open spec fn after_events(
    store: FallbackModel,
    user_id: u128,
    id: u128,
    day: Seq<char>,
    stamps: Seq<Seq<char>>,
) -> FallbackModel
    decreases stamps.len(),
{
    if stamps.len() == 0 {
        store
    } else {
        after_events(store, user_id, id, day, stamps.drop_last()).with_increment(
            user_id,
            id,
            MomentModel { today: day, now: stamps.last() },
        )
    }
}

/// Every operation leaves a well-formed fallback well formed.
pub proof fn lemma_fallback_stays_wf(
    store: FallbackModel,
    auth0_id: Seq<char>,
    email: Seq<char>,
    user_id: u128,
    id: u128,
    m: MomentModel,
)
    requires
        store.wf(),
    ensures
        store.with_user(auth0_id, email, id, m.now).wf(),
        store.with_today(user_id, id, m).wf(),
        store.with_increment(user_id, id, m).wf(),
        store.with_reset(user_id, id, m).wf(),
{
    let key = count_key(user_id, m.today);
    assert(store.counts.contains_key(key) ==> store.counts[key].consistent());
}

/// The fallback keeps one user for a subject: asking for the user of
/// the same subject again gives the same user and changes nothing,
/// whatever address, identifier and time the second asking brings.
pub proof fn lemma_fallback_user_once(
    store: FallbackModel,
    auth0_id: Seq<char>,
    first: (Seq<char>, u128, Seq<char>),
    second: (Seq<char>, u128, Seq<char>),
)
    ensures
        ({
            let once = store.with_user(auth0_id, first.0, first.1, first.2);
            &&& once.users.contains_key(auth0_id)
            &&& once.user(auth0_id, second.0, second.1, second.2) == store.user(
                auth0_id,
                first.0,
                first.1,
                first.2,
            )
            &&& once.with_user(auth0_id, second.0, second.1, second.2) == once
            &&& once.users.dom() == store.users.dom().insert(auth0_id)
        }),
{
    let once = store.with_user(auth0_id, first.0, first.1, first.2);
    assert(once.with_user(auth0_id, second.0, second.1, second.2).users =~= once.users);
    assert(once.users.dom() =~= store.users.dom().insert(auth0_id));
}

/// After as many increments as there are times in `stamps`, on a day
/// whose counter was at nothing, the counter stands at their number and
/// holds exactly those times.
pub proof fn lemma_count_is_number_of_events(
    store: FallbackModel,
    user_id: u128,
    id: u128,
    day: Seq<char>,
    stamps: Seq<Seq<char>>,
)
    requires
        store.wf(),
        store.counts.contains_key(count_key(user_id, day)) ==> store.counts[count_key(user_id, day)].count == 0,
        stamps.len() <= i32::MAX,
    ensures
        ({
            let after = after_events(store, user_id, id, day, stamps);
            let m = MomentModel { today: day, now: Seq::empty() };
            &&& after.wf()
            &&& after.today(user_id, id, m).count == stamps.len()
            &&& after.today(user_id, id, m).timestamps == stamps
            &&& stamps.len() > 0 ==> after.counts.contains_key(count_key(user_id, day))
        }),
    decreases stamps.len(),
{
    let key = count_key(user_id, day);
    let m = MomentModel { today: day, now: Seq::<char>::empty() };
    if stamps.len() == 0 {
        if store.counts.contains_key(key) {
            assert(store.counts[key].consistent());
            assert(store.counts[key].timestamps =~= stamps);
        } else {
            assert(store.today(user_id, id, m).timestamps =~= stamps);
        }
    } else {
        let before = after_events(store, user_id, id, day, stamps.drop_last());
        lemma_count_is_number_of_events(store, user_id, id, day, stamps.drop_last());
        let step = MomentModel { today: day, now: stamps.last() };
        lemma_fallback_stays_wf(before, Seq::empty(), Seq::empty(), user_id, id, step);
        assert(before.today(user_id, id, step).count == before.today(user_id, id, m).count);
        assert(before.today(user_id, id, step).timestamps == before.today(user_id, id, m).timestamps);
        assert(stamps.drop_last().push(stamps.last()) =~= stamps);
    }
}

/// A reset leaves the day's counter at nothing: read again on the same
/// day, it has no events and no times.
pub proof fn lemma_today_after_reset(
    store: FallbackModel,
    user_id: u128,
    id: u128,
    m: MomentModel,
    later_id: u128,
    later: MomentModel,
)
    requires
        later.today == m.today,
    ensures
        store.with_reset(user_id, id, m).today(user_id, later_id, later).count == 0,
        store.with_reset(user_id, id, m).today(user_id, later_id, later).timestamps == Seq::<
            Seq<char>,
        >::empty(),
{
}

/// The users of a map, in their mathematical form.
pub open spec fn user_models(users: Map<Seq<char>, SupabaseUser>) -> Map<Seq<char>, UserModel> {
    Map::new(|k: Seq<char>| users.contains_key(k), |k: Seq<char>| users[k]@)
}

/// The counters of a map, in their mathematical form.
pub open spec fn count_models(counts: Map<Seq<char>, SupabaseWillCount>) -> Map<
    Seq<char>,
    CountModel,
> {
    Map::new(|k: Seq<char>| counts.contains_key(k), |k: Seq<char>| counts[k]@)
}

/// The client of the remote store, with the fallback records.
pub struct SupabaseClient {
    base_url: String,
    service_role_key: String,
    fallback_counts: StringHashMap<SupabaseWillCount>,
    fallback_users: StringHashMap<SupabaseUser>,
}

/// The client, with its texts as characters and its fallback records as tables.
pub struct ClientModel {
    pub base_url: Seq<char>,
    pub service_role_key: Seq<char>,
    pub fallback: FallbackModel,
}

impl View for SupabaseClient {
    type V = ClientModel;

    closed spec fn view(&self) -> ClientModel {
        ClientModel {
            base_url: self.base_url@,
            service_role_key: self.service_role_key@,
            fallback: FallbackModel {
                users: user_models(self.fallback_users@),
                counts: count_models(self.fallback_counts@),
            },
        }
    }
}

impl SupabaseClient {
    /// Each fallback record is kept under its own key, and each
    /// fallback counter stands for as many events as it has recorded
    /// times.
    pub closed spec fn wf(&self) -> bool {
        self@.fallback.wf()
    }

    /// A well-formed client has a well-formed fallback.
    pub proof fn lemma_fallback_wf(&self)
        requires
            self.wf(),
        ensures
            self@.fallback.wf(),
    {
    }

    /// A client of the store at `base_url`, with nothing in the fallback.
    pub fn new(base_url: String, service_role_key: String) -> (r: Self)
        ensures
            r.wf(),
            r@ == (ClientModel {
                base_url: strip_trailing(base_url@, '/'),
                service_role_key: service_role_key@,
                fallback: FallbackModel::empty(),
            }),
    {
        let r = SupabaseClient {
            base_url: trim_end_slashes(base_url.as_str()).to_owned(),
            service_role_key,
            fallback_counts: StringHashMap::new(),
            fallback_users: StringHashMap::new(),
        };
        proof {
            assert(r@.fallback.users =~= Map::empty());
            assert(r@.fallback.counts =~= Map::empty());
        }
        r
    }

    /// The address of a request: that of the store, then the path.
    pub fn url(&self, call: &RemoteCall) -> (r: String)
        ensures
            r@ == self@.base_url + call@.path(),
    {
        join(self.base_url.as_str(), call.path())
    }

    /// The headers that every request carries: the service credential,
    /// once as a key and once as a bearer token, and the type of the body.
    pub fn headers(&self) -> (r: Vec<(String, String)>)
        ensures
            r.deep_view() == seq![
                ("apikey"@, self@.service_role_key),
                ("authorization"@, "Bearer "@ + self@.service_role_key),
                ("content-type"@, "application/json"@),
            ],
    {
        let mut r: Vec<(String, String)> = Vec::new();
        r.push((String::from_str("apikey"), self.service_role_key.clone()));
        r.push(
            (String::from_str("authorization"), join("Bearer ", self.service_role_key.as_str())),
        );
        r.push((String::from_str("content-type"), String::from_str("application/json")));
        assert(r.deep_view() =~= seq![
            ("apikey"@, self@.service_role_key),
            ("authorization"@, "Bearer "@ + self@.service_role_key),
            ("content-type"@, "application/json"@),
        ]);
        r
    }

    /// The key under which the fallback keeps the counter of a user on
    /// a day.
    pub fn fallback_key(&self, user_id: u128, date: &str) -> (r: String)
        ensures
            r@ == count_key(user_id, date@),
    {
        let user = format_id(user_id);
        let head = join(user.as_str(), "-");
        join(head.as_str(), date)
    }

    /// The fallback user of a subject: the one that is kept, or else a
    /// new one with the identifier `id`, made at `now` and kept from
    /// now on. Asking twice gives the same user.
    pub fn fallback_user_at(&mut self, auth0_id: &str, email: &str, id: u128, now: &str) -> (r:
        SupabaseUser)
        requires
            old(self).wf(),
        ensures
            final(self).wf(),
            r@ == old(self)@.fallback.user(auth0_id@, email@, id, now@),
            final(self)@ == (ClientModel {
                fallback: old(self)@.fallback.with_user(auth0_id@, email@, id, now@),
                ..old(self)@
            }),
    {
        let ghost before = self@.fallback;
        match self.fallback_users.get(auth0_id) {
            Some(kept) => {
                let user = kept.clone();
                assert(before.users.insert(auth0_id@, user@) =~= before.users);
                user
            },
            None => {
                let user = SupabaseUser {
                    id,
                    auth0_id: auth0_id.to_owned(),
                    email: email.to_owned(),
                    created_at: now.to_owned(),
                    last_login: None,
                    preferences: default_preferences(),
                };
                let kept = user.clone();
                self.fallback_users.insert(auth0_id.to_owned(), kept);
                assert(self@.fallback.users =~= before.users.insert(auth0_id@, user@));
                assert(self@.fallback.counts =~= before.counts);
                user
            },
        }
    }

    /// The fallback counter of a user on the day of `moment`: the one
    /// that is kept, or else a new one at zero with the identifier
    /// `id`, kept from now on.
    pub fn fallback_today_at(&mut self, user_id: u128, id: u128, moment: &Moment) -> (r:
        SupabaseWillCount)
        requires
            old(self).wf(),
        ensures
            final(self).wf(),
            r@ == old(self)@.fallback.today(user_id, id, moment@),
            r@.consistent(),
            final(self)@ == (ClientModel {
                fallback: old(self)@.fallback.with_today(user_id, id, moment@),
                ..old(self)@
            }),
    {
        let ghost before = self@.fallback;
        let key = self.fallback_key(user_id, moment.today.as_str());
        match self.fallback_counts.get(key.as_str()) {
            Some(kept) => {
                let count = kept.clone();
                assert(before.counts.insert(key@, count@) =~= before.counts);
                count
            },
            None => {
                let count = SupabaseWillCount {
                    id,
                    user_id,
                    date: moment.today.clone(),
                    count: 0,
                    timestamps: Vec::new(),
                    created_at: moment.now.clone(),
                    updated_at: moment.now.clone(),
                };
                assert(count@.timestamps =~= Seq::empty());
                let kept = count.clone();
                self.fallback_counts.insert(key, kept);
                assert(self@.fallback.counts =~= before.counts.insert(
                    count_key(user_id, moment.today@),
                    count@,
                ));
                assert(self@.fallback.users =~= before.users);
                count
            },
        }
    }

    /// Puts new contents in the place of the counter of a user and a day.
    fn put_count(&mut self, count: &SupabaseWillCount)
        requires
            old(self).wf(),
            count@.consistent(),
        ensures
            final(self).wf(),
            final(self)@ == (ClientModel {
                fallback: FallbackModel {
                    counts: old(self)@.fallback.counts.insert(
                        count_key(count.user_id, count.date@),
                        count@,
                    ),
                    ..old(self)@.fallback
                },
                ..old(self)@
            }),
    {
        let ghost before = self@.fallback;
        let key = self.fallback_key(count.user_id, count.date.as_str());
        self.fallback_counts.insert(key, count.clone());
        assert(self@.fallback.counts =~= before.counts.insert(
            count_key(count.user_id, count.date@),
            count@,
        ));
        assert(self@.fallback.users =~= before.users);
    }

    /// Counts one more event for a user on the day of `moment` in the
    /// fallback, making the counter first where there is none. A
    /// counter that is full stays as it is, and the increment fails.
    pub fn increment_fallback_at(&mut self, user_id: u128, id: u128, moment: &Moment) -> (r: Result<
        SupabaseWillCount,
        StoreError,
    >)
        requires
            old(self).wf(),
        ensures
            final(self).wf(),
            same_count(r, old(self)@.fallback.incremented(user_id, id, moment@)),
            r matches Ok(c) ==> c@.consistent(),
            final(self)@ == (ClientModel {
                fallback: old(self)@.fallback.with_increment(user_id, id, moment@),
                ..old(self)@
            }),
    {
        let ghost start = self@.fallback;
        let mut count = self.fallback_today_at(user_id, id, moment);
        if count.count == i32::MAX {
            return Err(StoreError::OperationFailed);
        }
        let ghost before = count@;
        let ghost key = count_key(user_id, moment.today@);
        assert(count_key(before.user_id, before.date) == key);
        count.count = count.count + 1;
        count.timestamps.push(moment.now.clone());
        count.updated_at = moment.now.clone();
        assert(count@ == before.incremented(moment.now@)) by {
            assert(count@.timestamps =~= before.timestamps.push(moment.now@));
        }
        self.put_count(&count);
        assert(start.counts.insert(key, before).insert(key, count@) =~= start.counts.insert(
            key,
            count@,
        ));
        Ok(count)
    }

    /// Sets the fallback counter of a user on the day of `moment` back
    /// to nothing, making the counter first where there is none.
    pub fn reset_fallback_at(&mut self, user_id: u128, id: u128, moment: &Moment) -> (r:
        SupabaseWillCount)
        requires
            old(self).wf(),
        ensures
            final(self).wf(),
            r@ == old(self)@.fallback.cleared(user_id, id, moment@),
            r@.consistent(),
            final(self)@ == (ClientModel {
                fallback: old(self)@.fallback.with_reset(user_id, id, moment@),
                ..old(self)@
            }),
    {
        let ghost start = self@.fallback;
        let mut count = self.fallback_today_at(user_id, id, moment);
        let ghost before = count@;
        let ghost key = count_key(user_id, moment.today@);
        assert(count_key(before.user_id, before.date) == key);
        count.count = 0;
        count.timestamps = Vec::new();
        count.updated_at = moment.now.clone();
        assert(count@ == before.cleared(moment.now@)) by {
            assert(count@.timestamps =~= Seq::empty());
        }
        self.put_count(&count);
        assert(start.counts.insert(key, before).insert(key, count@) =~= start.counts.insert(
            key,
            count@,
        ));
        count
    }
}

/// Whether `r` is the exec form of the spec result `m`.
pub open spec fn same_count(
    r: Result<SupabaseWillCount, StoreError>,
    m: Result<CountModel, StoreError>,
) -> bool {
    match (r, m) {
        (Ok(a), Ok(b)) => a@ == b,
        (Err(e), Err(f)) => e == f,
        _ => false,
    }
}

} // verus!
