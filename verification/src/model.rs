//! The remote store as its interface describes it, and what the
//! operations of the access layer achieve against such a store, also
//! where two run at once.
//!
//! Nothing here is claimed of the store that is really there: the
//! operations themselves are verified for every answer it may give.
//! The laws of this module say what follows where the store does
//! behave as described.

use crate::clock::MomentModel;
use crate::flows::{
    CountFlowModel, CountOp, CountStepModel, EnsureUserModel, UserPhase, UserStepModel,
};
use crate::ids::id_of_text;
use crate::remote::{
    RemoteCallModel, ReplyModel, STATUS_CONFLICT, STATUS_CREATED, STATUS_NOT_FOUND, STATUS_OK,
};
use crate::supabase::FallbackModel;
use crate::types::{CountModel, PreferenceModel, UserModel};
use vstd::prelude::*;

verus! {

/// A store that keeps at most one user for a subject and at most one
/// counter for a user and a day, and answers each request in one step.
pub struct RemoteModel {
    pub users: Map<Seq<char>, UserModel>,
    pub counts: Map<(u128, Seq<char>), CountModel>,
    /// The settings that the store gives to a user it creates.
    pub settings: Seq<PreferenceModel>,
    /// Whether the store offers to count by itself.
    pub counts_by_itself: bool,
}

impl RemoteModel {
    /// Each record is kept under its own key, each counter stands for
    /// as many events as it has recorded times, and no two counters
    /// have the same identifier.
    pub open spec fn wf(self) -> bool {
        &&& forall|k: Seq<char>| #[trigger]
            self.users.contains_key(k) ==> self.users[k].auth0_id == k
        &&& forall|k: (u128, Seq<char>)| #[trigger]
            self.counts.contains_key(k) ==> {
                &&& self.counts[k].user_id == k.0
                &&& self.counts[k].date == k.1
                &&& self.counts[k].consistent()
            }
        &&& forall|j: (u128, Seq<char>), k: (u128, Seq<char>)|
            #![trigger self.counts[j], self.counts[k]]
            self.counts.contains_key(j) && self.counts.contains_key(k) && self.counts[j].id
                == self.counts[k].id ==> j == k
    }

    /// The answer of the store to a request about users, and the store
    /// after it. A user that is created gets the identifier `id`.
    pub open spec fn answer_user(self, call: RemoteCallModel, id: u128, now: Seq<char>) -> (
        ReplyModel<UserModel>,
        RemoteModel,
    ) {
        match call {
            RemoteCallModel::FindUser { auth0_id } => (
                ReplyModel::Answered {
                    status: STATUS_OK,
                    rows: Some(
                        if self.users.contains_key(auth0_id) {
                            seq![self.users[auth0_id]]
                        } else {
                            Seq::empty()
                        },
                    ),
                },
                self,
            ),
            RemoteCallModel::CreateUser { auth0_id, email } => {
                if self.users.contains_key(auth0_id) {
                    (ReplyModel::Answered { status: STATUS_CONFLICT, rows: None }, self)
                } else {
                    let user = UserModel {
                        id,
                        auth0_id,
                        email,
                        created_at: now,
                        last_login: None,
                        preferences: self.settings,
                    };
                    (
                        ReplyModel::Answered { status: STATUS_CREATED, rows: Some(seq![user]) },
                        RemoteModel { users: self.users.insert(auth0_id, user), ..self },
                    )
                }
            },
            _ => (ReplyModel::Answered { status: STATUS_NOT_FOUND, rows: None }, self),
        }
    }

    /// Whether a counter has the identifier `id`.
    pub open spec fn has_counter(self, id: u128) -> bool {
        exists|k: (u128, Seq<char>)| self.counts.contains_key(k) && #[trigger] self.counts[k].id == id
    }

    /// The key of the counter with the identifier `id`.
    pub open spec fn counter_key(self, id: u128) -> (u128, Seq<char>) {
        choose|k: (u128, Seq<char>)| self.counts.contains_key(k) && #[trigger] self.counts[k].id == id
    }

    /// The counter of a user on the day of `m` as the store would count
    /// on from: the one it keeps, or else a new one at zero.
    pub open spec fn today(self, user_id: u128, id: u128, m: MomentModel) -> CountModel {
        if self.counts.contains_key((user_id, m.today)) {
            self.counts[(user_id, m.today)]
        } else {
            CountModel::fresh(id, user_id, m.today, m.now)
        }
    }

    /// The answer of the store to a request about counters, at `m`,
    /// and the store after it. A counter that is created gets the
    /// identifier `id`.
    pub open spec fn answer_count(self, call: RemoteCallModel, id: u128, m: MomentModel) -> (
        ReplyModel<CountModel>,
        RemoteModel,
    ) {
        match call {
            RemoteCallModel::FindCount { user_id, date } => (
                ReplyModel::Answered {
                    status: STATUS_OK,
                    rows: Some(
                        if self.counts.contains_key((user_id, date)) {
                            seq![self.counts[(user_id, date)]]
                        } else {
                            Seq::empty()
                        },
                    ),
                },
                self,
            ),
            RemoteCallModel::CreateCount { user_id, date, now } => {
                if self.counts.contains_key((user_id, date)) {
                    (ReplyModel::Answered { status: STATUS_CONFLICT, rows: None }, self)
                } else {
                    let count = CountModel::fresh(id, user_id, date, now);
                    (
                        ReplyModel::Answered { status: STATUS_CREATED, rows: Some(seq![count]) },
                        RemoteModel { counts: self.counts.insert((user_id, date), count), ..self },
                    )
                }
            },
            RemoteCallModel::IncrementCount { user_id } => {
                if self.counts_by_itself {
                    let count = self.today(user_id, id, m).incremented(m.now);
                    (
                        ReplyModel::Answered { status: STATUS_OK, rows: Some(seq![count]) },
                        RemoteModel {
                            counts: self.counts.insert((user_id, m.today), count),
                            ..self
                        },
                    )
                } else {
                    (ReplyModel::Answered { status: STATUS_NOT_FOUND, rows: None }, self)
                }
            },
            RemoteCallModel::PatchCount { id: target, count, timestamps, updated_at } => {
                if self.has_counter(target) {
                    let key = self.counter_key(target);
                    let patched = CountModel { count, timestamps, updated_at, ..self.counts[key] };
                    (
                        ReplyModel::Answered { status: STATUS_OK, rows: Some(seq![patched]) },
                        RemoteModel { counts: self.counts.insert(key, patched), ..self },
                    )
                } else {
                    (ReplyModel::Answered { status: STATUS_OK, rows: Some(Seq::empty()) }, self)
                }
            },
            _ => (ReplyModel::Answered { status: STATUS_NOT_FOUND, rows: None }, self),
        }
    }
}

/// How an operation on a day's counter ends.
pub struct CountEnd {
    pub step: CountStepModel,
    pub remote: RemoteModel,
    pub fallback: FallbackModel,
}

/// An operation on a day's counter from `step` on, with each of its
/// requests answered by the store, all at `m`, for `turns` requests at
/// most.
pub open spec fn count_run(
    step: CountStepModel,
    remote: RemoteModel,
    fallback: FallbackModel,
    id: u128,
    m: MomentModel,
    turns: nat,
) -> CountEnd
    decreases turns,
{
    match step {
        CountStepModel::Call(flow, call) => if turns == 0 {
            CountEnd { step, remote, fallback }
        } else {
            let answered = remote.answer_count(call, id, m);
            let stepped = flow.next(answered.0, fallback, id, m);
            count_run(stepped.0, answered.1, stepped.1, id, m, (turns - 1) as nat)
        },
        _ => CountEnd { step, remote, fallback },
    }
}

/// An operation of the kind `op` for the user that `user_id` names, run
/// to its end at `m` against the store.
pub open spec fn count_operation(
    op: CountOp,
    user_id: Seq<char>,
    remote: RemoteModel,
    fallback: FallbackModel,
    id: u128,
    m: MomentModel,
) -> CountEnd {
    count_run(CountFlowModel::begin(op, user_id, m), remote, fallback, id, m, 4)
}

/// The store and the fallback after one increment for each of the
/// times in `stamps`, in order, all on the day `day`.
pub open spec fn after_increments(
    user_id: Seq<char>,
    remote: RemoteModel,
    fallback: FallbackModel,
    id: u128,
    day: Seq<char>,
    stamps: Seq<Seq<char>>,
) -> (RemoteModel, FallbackModel)
    decreases stamps.len(),
{
    if stamps.len() == 0 {
        (remote, fallback)
    } else {
        let before = after_increments(user_id, remote, fallback, id, day, stamps.drop_last());
        let end = count_operation(
            CountOp::Increment,
            user_id,
            before.0,
            before.1,
            id,
            MomentModel { today: day, now: stamps.last() },
        );
        (end.remote, end.fallback)
    }
}

/// Against a store that answers, an increment counts exactly one event
/// more, whether the store counts by itself or has its counter
/// patched: the day's counter goes up by one, the time is recorded
/// after those that were there, and the fallback is not touched.
pub proof fn lemma_increment_counts_one(
    user_id: Seq<char>,
    remote: RemoteModel,
    fallback: FallbackModel,
    id: u128,
    m: MomentModel,
)
    requires
        remote.wf(),
        id_of_text(user_id) is Some,
        remote.counts.contains_key((id_of_text(user_id)->0, m.today)) || !remote.has_counter(id),
        remote.today(id_of_text(user_id)->0, id, m).count < i32::MAX,
    ensures
        ({
            let user = id_of_text(user_id)->0;
            let end = count_operation(CountOp::Increment, user_id, remote, fallback, id, m);
            let counted = remote.today(user, id, m).incremented(m.now);
            &&& end.step == CountStepModel::Done(counted)
            &&& end.remote == (RemoteModel {
                counts: remote.counts.insert((user, m.today), counted),
                ..remote
            })
            &&& end.remote.wf()
            &&& end.fallback == fallback
        }),
{
    let user = id_of_text(user_id)->0;
    let key = (user, m.today);
    let counted = remote.today(user, id, m).incremented(m.now);
    let grown = RemoteModel { counts: remote.counts.insert(key, counted), ..remote };
    reveal_with_fuel(count_run, 5);
    if remote.counts.contains_key(key) {
        assert(remote.counts[key].consistent());
        lemma_patch_hits(remote, key);
    } else {
        let made = CountModel::fresh(id, user, m.today, m.now);
        let held = RemoteModel { counts: remote.counts.insert(key, made), ..remote };
        lemma_insert_stays_wf(remote, key, made);
        lemma_patch_hits(held, key);
        assert(held.counts.insert(key, counted) =~= remote.counts.insert(key, counted));
    }
    lemma_replace_stays_wf(remote, key, id, counted);
    assert(grown.wf());
}

/// After as many increments as there are times in `stamps`, against a
/// store that answers and had no counter for the day, the day's counter
/// stands at their number and holds exactly those times.
pub proof fn lemma_count_is_number_of_increments(
    user_id: Seq<char>,
    remote: RemoteModel,
    fallback: FallbackModel,
    id: u128,
    day: Seq<char>,
    stamps: Seq<Seq<char>>,
)
    requires
        remote.wf(),
        id_of_text(user_id) is Some,
        !remote.has_counter(id),
        !remote.counts.contains_key((id_of_text(user_id)->0, day)),
        0 < stamps.len() <= i32::MAX,
    ensures
        ({
            let key = (id_of_text(user_id)->0, day);
            let end = after_increments(user_id, remote, fallback, id, day, stamps);
            &&& end.1 == fallback
            &&& end.0.wf()
            &&& end.0.counts.contains_key(key)
            &&& end.0.counts[key].count == stamps.len()
            &&& end.0.counts[key].timestamps == stamps
            &&& end.0.counts.dom() == remote.counts.dom().insert(key)
        }),
    decreases stamps.len(),
{
    let user = id_of_text(user_id)->0;
    let key = (user, day);
    let m = MomentModel { today: day, now: stamps.last() };
    if stamps.len() == 1 {
        assert(stamps.drop_last().len() == 0);
        lemma_increment_counts_one(user_id, remote, fallback, id, m);
        assert(Seq::<Seq<char>>::empty().push(stamps.last()) =~= stamps);
        assert(remote.counts.insert(key, remote.today(user, id, m).incremented(m.now)).dom()
            =~= remote.counts.dom().insert(key));
    } else {
        lemma_count_is_number_of_increments(user_id, remote, fallback, id, day, stamps.drop_last());
        let before = after_increments(user_id, remote, fallback, id, day, stamps.drop_last());
        lemma_increment_counts_one(user_id, before.0, before.1, id, m);
        assert(stamps.drop_last().push(stamps.last()) =~= stamps);
        assert(before.0.counts.insert(key, before.0.today(user, id, m).incremented(m.now)).dom()
            =~= remote.counts.dom().insert(key));
    }
}

/// Against a store that answers, a reset leaves the day's counter at
/// nothing, and a read on the same day finds it so.
pub proof fn lemma_reset_then_today(
    user_id: Seq<char>,
    remote: RemoteModel,
    fallback: FallbackModel,
    id: u128,
    m: MomentModel,
    later_id: u128,
    later: MomentModel,
)
    requires
        remote.wf(),
        id_of_text(user_id) is Some,
        remote.counts.contains_key((id_of_text(user_id)->0, m.today)) || !remote.has_counter(id),
        later.today == m.today,
    ensures
        ({
            let user = id_of_text(user_id)->0;
            let reset = count_operation(CountOp::Reset, user_id, remote, fallback, id, m);
            let read = count_operation(
                CountOp::Today,
                user_id,
                reset.remote,
                reset.fallback,
                later_id,
                later,
            );
            let cleared = remote.today(user, id, m).cleared(m.now);
            &&& reset.step == CountStepModel::Done(cleared)
            &&& read.step == CountStepModel::Done(cleared)
            &&& cleared.count == 0
            &&& cleared.timestamps == Seq::<Seq<char>>::empty()
            &&& read.remote == reset.remote
            &&& read.fallback == fallback
        }),
{
    let user = id_of_text(user_id)->0;
    let key = (user, m.today);
    let cleared = remote.today(user, id, m).cleared(m.now);
    reveal_with_fuel(count_run, 5);
    if remote.counts.contains_key(key) {
        lemma_patch_hits(remote, key);
    } else {
        let made = CountModel::fresh(id, user, m.today, m.now);
        let held = RemoteModel { counts: remote.counts.insert(key, made), ..remote };
        lemma_insert_stays_wf(remote, key, made);
        lemma_patch_hits(held, key);
        assert(held.counts.insert(key, cleared) =~= remote.counts.insert(key, cleared));
    }
}

/// A counter that is kept is the one that a patch of its identifier hits.
proof fn lemma_patch_hits(remote: RemoteModel, key: (u128, Seq<char>))
    requires
        remote.wf(),
        remote.counts.contains_key(key),
    ensures
        remote.has_counter(remote.counts[key].id),
        remote.counter_key(remote.counts[key].id) == key,
{
    let id = remote.counts[key].id;
    assert(remote.counts.contains_key(key) && remote.counts[key].id == id);
    let found = remote.counter_key(id);
    assert(remote.counts.contains_key(found) && remote.counts[found].id == id);
}

/// A new counter with an identifier that no counter has leaves the
/// store well formed.
proof fn lemma_insert_stays_wf(remote: RemoteModel, key: (u128, Seq<char>), count: CountModel)
    requires
        remote.wf(),
        !remote.counts.contains_key(key),
        !remote.has_counter(count.id),
        count.user_id == key.0,
        count.date == key.1,
        count.consistent(),
    ensures
        (RemoteModel { counts: remote.counts.insert(key, count), ..remote }).wf(),
{
    let grown = RemoteModel { counts: remote.counts.insert(key, count), ..remote };
    assert forall|j: (u128, Seq<char>), k: (u128, Seq<char>)|
        #![trigger grown.counts[j], grown.counts[k]]
        grown.counts.contains_key(j) && grown.counts.contains_key(k) && grown.counts[j].id
            == grown.counts[k].id implies j == k by {
        if j != key && k != key {
            assert(remote.counts[j].id == remote.counts[k].id);
        } else if j != key {
            assert(remote.counts.contains_key(j) && remote.counts[j].id == count.id);
        } else if k != key {
            assert(remote.counts.contains_key(k) && remote.counts[k].id == count.id);
        }
    }
}

/// New contents for the counter of a key, under the identifier it has
/// or, where there is none, under one that no counter has, leave the
/// store well formed.
proof fn lemma_replace_stays_wf(
    remote: RemoteModel,
    key: (u128, Seq<char>),
    id: u128,
    count: CountModel,
)
    requires
        remote.wf(),
        remote.counts.contains_key(key) || !remote.has_counter(id),
        count.user_id == key.0,
        count.date == key.1,
        count.consistent(),
        count.id == (if remote.counts.contains_key(key) {
            remote.counts[key].id
        } else {
            id
        }),
    ensures
        (RemoteModel { counts: remote.counts.insert(key, count), ..remote }).wf(),
{
    let grown = RemoteModel { counts: remote.counts.insert(key, count), ..remote };
    assert forall|j: (u128, Seq<char>), k: (u128, Seq<char>)|
        #![trigger grown.counts[j], grown.counts[k]]
        grown.counts.contains_key(j) && grown.counts.contains_key(k) && grown.counts[j].id
            == grown.counts[k].id implies j == k by {
        if j != key && k != key {
            assert(remote.counts[j].id == remote.counts[k].id);
        } else if j != key {
            assert(remote.counts.contains_key(j) && remote.counts[j].id == count.id);
            if remote.counts.contains_key(key) {
                assert(remote.counts[j].id == remote.counts[key].id);
            }
        } else if k != key {
            assert(remote.counts.contains_key(k) && remote.counts[k].id == count.id);
            if remote.counts.contains_key(key) {
                assert(remote.counts[k].id == remote.counts[key].id);
            }
        }
    }
}

/// Against a store that counts by itself, an increment is one request.
pub proof fn lemma_increment_by_the_store_is_one_request(
    user_id: Seq<char>,
    remote: RemoteModel,
    fallback: FallbackModel,
    id: u128,
    m: MomentModel,
)
    requires
        remote.wf(),
        remote.counts_by_itself,
        id_of_text(user_id) is Some,
    ensures
        count_run(CountFlowModel::begin(CountOp::Increment, user_id, m), remote, fallback, id, m, 1).step
            == CountStepModel::Done(
            remote.today(id_of_text(user_id)->0, id, m).incremented(m.now),
        ),
{
    reveal_with_fuel(count_run, 2);
    let key = (id_of_text(user_id)->0, m.today);
    if remote.counts.contains_key(key) {
        assert(remote.counts[key].consistent());
    }
}

/// Two callers that count an event for one user at once, each between
/// two of its requests, with the store and the fallback they share.
pub struct CountRace {
    pub first: CountStepModel,
    pub second: CountStepModel,
    pub remote: RemoteModel,
    pub fallback: FallbackModel,
}

impl CountRace {
    /// The race after one turn: the caller that moves has its request
    /// answered by the store and takes its next step. A caller that has
    /// its result stays as it is.
    pub open spec fn turn(self, t: Turn) -> CountRace {
        let mover = if t.first_moves {
            self.first
        } else {
            self.second
        };
        match mover {
            CountStepModel::Call(flow, call) => {
                let answered = self.remote.answer_count(call, t.id, t.at);
                let stepped = flow.next(answered.0, self.fallback, t.id, t.at);
                if t.first_moves {
                    CountRace { first: stepped.0, remote: answered.1, fallback: stepped.1, ..self }
                } else {
                    CountRace { second: stepped.0, remote: answered.1, fallback: stepped.1, ..self }
                }
            },
            _ => self,
        }
    }

    /// The race after the turns of `schedule`, in order.
    pub open spec fn run(self, schedule: Seq<Turn>) -> CountRace
        decreases schedule.len(),
    {
        if schedule.len() == 0 {
            self
        } else {
            self.run(schedule.drop_last()).turn(schedule.last())
        }
    }

    /// The start of a race of two increments for one user, both begun
    /// at `m`.
    pub open spec fn start(
        user_id: Seq<char>,
        m: MomentModel,
        remote: RemoteModel,
        fallback: FallbackModel,
    ) -> CountRace {
        CountRace {
            first: CountFlowModel::begin(CountOp::Increment, user_id, m),
            second: CountFlowModel::begin(CountOp::Increment, user_id, m),
            remote,
            fallback,
        }
    }

    /// How many of the two callers have their result.
    pub open spec fn finished(self) -> int {
        (if self.first is Done {
            1int
        } else {
            0int
        }) + (if self.second is Done {
            1int
        } else {
            0int
        })
    }
}

/// Where a caller may stand in a race of increments against a store
/// that counts by itself: before its one request, or with a result
/// that is one of the counts reached so far.
spec fn counting(step: CountStepModel, user: u128, base: int, finished: int) -> bool {
    match step {
        CountStepModel::Call(flow, call) => call == (RemoteCallModel::IncrementCount {
            user_id: user,
        }) && flow.op is Increment && flow.phase is Counting && flow.user_id == user,
        CountStepModel::Done(count) => base < count.count <= base + finished,
        CountStepModel::Failed(_) => false,
    }
}

/// What holds at every point of a race of two increments on the day
/// `day` against a store that counts by itself, where the day's counter
/// stood at `base` before.
spec fn counted_so_far(r: CountRace, user: u128, day: Seq<char>, base: int, fallback: FallbackModel) -> bool {
    let key = (user, day);
    &&& r.fallback == fallback
    &&& r.remote.counts_by_itself
    &&& r.remote.counts.contains_key(key) ==> r.remote.counts[key].consistent()
    &&& r.finished() > 0 ==> r.remote.counts.contains_key(key)
    &&& (if r.remote.counts.contains_key(key) {
        r.remote.counts[key].count
    } else {
        0
    }) == base + r.finished()
    &&& counting(r.first, user, base, r.finished())
    &&& counting(r.second, user, base, r.finished())
    &&& r.first matches CountStepModel::Done(a) ==> (r.second matches CountStepModel::Done(b)
        ==> a.count != b.count)
}

proof fn lemma_counted_so_far(
    user_id: Seq<char>,
    m: MomentModel,
    remote: RemoteModel,
    fallback: FallbackModel,
    schedule: Seq<Turn>,
)
    requires
        remote.wf(),
        remote.counts_by_itself,
        id_of_text(user_id) is Some,
        forall|i: int| 0 <= i < schedule.len() ==> (#[trigger] schedule[i]).at.today == m.today,
    ensures
        counted_so_far(
            CountRace::start(user_id, m, remote, fallback).run(schedule),
            id_of_text(user_id)->0,
            m.today,
            remote.today(id_of_text(user_id)->0, 0, m).count,
            fallback,
        ),
    decreases schedule.len(),
{
    let key = (id_of_text(user_id)->0, m.today);
    if schedule.len() > 0 {
        lemma_counted_so_far(user_id, m, remote, fallback, schedule.drop_last());
        assert(schedule.last().at.today == m.today);
    } else {
        if remote.counts.contains_key(key) {
            assert(remote.counts[key].consistent());
        }
    }
}

/// Two increments for one user that run at once against a store that
/// counts by itself are both counted, in whatever order their requests
/// reach the store: when both have their result, the day's counter
/// stands two higher than before, the two results differ, and the
/// fallback is not touched.
pub proof fn lemma_increments_at_once_are_both_counted(
    user_id: Seq<char>,
    m: MomentModel,
    remote: RemoteModel,
    fallback: FallbackModel,
    schedule: Seq<Turn>,
)
    requires
        remote.wf(),
        remote.counts_by_itself,
        id_of_text(user_id) is Some,
        forall|i: int| 0 <= i < schedule.len() ==> (#[trigger] schedule[i]).at.today == m.today,
    ensures
        ({
            let user = id_of_text(user_id)->0;
            let base = remote.today(user, 0, m).count;
            let end = CountRace::start(user_id, m, remote, fallback).run(schedule);
            &&& end.fallback == fallback
            &&& !(end.first is Failed) && !(end.second is Failed)
            &&& end.first is Done && end.second is Done ==> {
                &&& end.remote.counts.contains_key((user, m.today))
                &&& end.remote.counts[(user, m.today)].count == base + 2
                &&& end.first->Done_0.count != end.second->Done_0.count
                &&& end.first->Done_0.count + end.second->Done_0.count == 2 * base + 3
            }
        }),
{
    lemma_counted_so_far(user_id, m, remote, fallback, schedule);
}

/// Two callers that make sure of a user at once, each between two of
/// its requests, with the store and the fallback they share.
pub struct Race {
    pub first: UserStepModel,
    pub second: UserStepModel,
    pub remote: RemoteModel,
    pub fallback: FallbackModel,
}

/// One turn of a race: which caller moves, the identifier that is at
/// hand for a new record, and the time.
pub struct Turn {
    pub first_moves: bool,
    pub id: u128,
    pub at: MomentModel,
}

impl Race {
    /// The race after one turn: the caller that moves has its request
    /// answered by the store and takes its next step. A caller that has
    /// its result stays as it is.
    pub open spec fn turn(self, t: Turn) -> Race {
        let mover = if t.first_moves {
            self.first
        } else {
            self.second
        };
        match mover {
            UserStepModel::Done(_) => self,
            UserStepModel::Call(flow, call) => {
                let answered = self.remote.answer_user(call, t.id, t.at.now);
                let stepped = flow.next(answered.0, self.fallback, t.id, t.at);
                if t.first_moves {
                    Race { first: stepped.0, remote: answered.1, fallback: stepped.1, ..self }
                } else {
                    Race { second: stepped.0, remote: answered.1, fallback: stepped.1, ..self }
                }
            },
        }
    }

    /// The race after the turns of `schedule`, in order.
    pub open spec fn run(self, schedule: Seq<Turn>) -> Race
        decreases schedule.len(),
    {
        if schedule.len() == 0 {
            self
        } else {
            self.run(schedule.drop_last()).turn(schedule.last())
        }
    }

    /// The start of a race for one subject.
    pub open spec fn start(
        auth0_id: Seq<char>,
        emails: (Seq<char>, Seq<char>),
        remote: RemoteModel,
        fallback: FallbackModel,
    ) -> Race {
        Race {
            first: EnsureUserModel::begin(auth0_id, emails.0),
            second: EnsureUserModel::begin(auth0_id, emails.1),
            remote,
            fallback,
        }
    }
}

/// Where a caller may stand in a race for `auth0_id`.
spec fn stands(step: UserStepModel, auth0_id: Seq<char>, remote: RemoteModel) -> bool {
    match step {
        UserStepModel::Done(user) => remote.users.contains_key(auth0_id) && remote.users[auth0_id]
            == user,
        UserStepModel::Call(flow, call) => {
            &&& flow.auth0_id == auth0_id
            &&& match flow.phase {
                UserPhase::Finding => call == (RemoteCallModel::FindUser { auth0_id }),
                UserPhase::Creating => call == (RemoteCallModel::CreateUser {
                    auth0_id,
                    email: flow.email,
                }),
                UserPhase::Rereading => call == (RemoteCallModel::FindUser { auth0_id })
                    && remote.users.contains_key(auth0_id),
            }
        },
    }
}

/// What holds at every point of a race for `auth0_id` that began with
/// the store `remote` and the fallback `fallback`.
spec fn on_course(r: Race, auth0_id: Seq<char>, remote: RemoteModel, fallback: FallbackModel) -> bool {
    &&& r.fallback == fallback
    &&& r.remote.wf()
    &&& r.remote.counts == remote.counts
    &&& forall|k: Seq<char>| k != auth0_id ==> r.remote.users.contains_key(k) == remote.users.contains_key(k)
    &&& forall|k: Seq<char>| #[trigger] remote.users.contains_key(k) ==> r.remote.users.contains_key(k) && r.remote.users[k] == remote.users[k]
    &&& stands(r.first, auth0_id, r.remote)
    &&& stands(r.second, auth0_id, r.remote)
}

proof fn lemma_turn_stays_on_course(
    r: Race,
    t: Turn,
    auth0_id: Seq<char>,
    remote: RemoteModel,
    fallback: FallbackModel,
)
    requires
        on_course(r, auth0_id, remote, fallback),
    ensures
        on_course(r.turn(t), auth0_id, remote, fallback),
{
}

/// Two callers that make sure of the user of one subject at once, in
/// whatever order their requests reach a store that keeps one user for
/// a subject, end with the same user: the one that the store keeps.
/// The store gains no record but that one, and the fallback is not
/// touched.
pub proof fn lemma_race_ends_with_one_user(
    auth0_id: Seq<char>,
    emails: (Seq<char>, Seq<char>),
    remote: RemoteModel,
    fallback: FallbackModel,
    schedule: Seq<Turn>,
)
    requires
        remote.wf(),
    ensures
        ({
            let end = Race::start(auth0_id, emails, remote, fallback).run(schedule);
            &&& end.fallback == fallback
            &&& end.remote.counts == remote.counts
            &&& end.remote.users.dom().subset_of(remote.users.dom().insert(auth0_id))
            &&& remote.users.submap_of(end.remote.users)
            &&& end.first matches UserStepModel::Done(user) ==> end.remote.users.contains_key(
                auth0_id,
            ) && end.remote.users[auth0_id] == user
            &&& end.second matches UserStepModel::Done(user) ==> end.remote.users.contains_key(
                auth0_id,
            ) && end.remote.users[auth0_id] == user
            &&& end.first is Done && end.second is Done ==> end.first == end.second
        }),
{
    lemma_race_on_course(auth0_id, emails, remote, fallback, schedule);
    let end = Race::start(auth0_id, emails, remote, fallback).run(schedule);
    assert forall|k: Seq<char>| end.remote.users.dom().contains(k) implies remote.users.dom().insert(
        auth0_id,
    ).contains(k) by {
        if k != auth0_id {
            assert(end.remote.users.contains_key(k) == remote.users.contains_key(k));
        }
    }
}

proof fn lemma_race_on_course(
    auth0_id: Seq<char>,
    emails: (Seq<char>, Seq<char>),
    remote: RemoteModel,
    fallback: FallbackModel,
    schedule: Seq<Turn>,
)
    requires
        remote.wf(),
    ensures
        on_course(
            Race::start(auth0_id, emails, remote, fallback).run(schedule),
            auth0_id,
            remote,
            fallback,
        ),
    decreases schedule.len(),
{
    let start = Race::start(auth0_id, emails, remote, fallback);
    if schedule.len() > 0 {
        lemma_race_on_course(auth0_id, emails, remote, fallback, schedule.drop_last());
        lemma_turn_stays_on_course(
            start.run(schedule.drop_last()),
            schedule.last(),
            auth0_id,
            remote,
            fallback,
        );
    }
}

} // verus!
