//! The operations of the access layer as conversations: each begins
//! with a request to the remote store and goes on, answer by answer,
//! to the next request or to its result. The caller sends the requests
//! and brings the answers.

use crate::clock::{date_before, days_before, utc_now, Moment, MomentModel};
use crate::ids::{id_of_text, parse_id, random_id};
use crate::remote::{
    same_row, RemoteCall, RemoteCallModel, Reply, ReplyModel, StoreError, STATUS_CREATED,
    STATUS_NOT_FOUND, STATUS_OK,
};
use crate::supabase::{
    count_key, lemma_fallback_stays_wf, ClientModel, FallbackModel, SupabaseClient,
};
use crate::types::{CountModel, SupabaseUser, SupabaseWillCount, UserModel};
use vstd::prelude::*;

verus! {

/// How far the making sure of a user has come.
#[derive(Clone, Copy, Debug, PartialEq, Eq, Structural)]
pub enum UserPhase {
    /// The remote store has been asked for the user.
    Finding,
    /// It had none, and has been asked to create one.
    Creating,
    /// Someone else created the user first; the remote store has been
    /// asked for the user again.
    Rereading,
}

impl UserPhase {
    /// How many requests may still follow the one that is under way.
    pub open spec fn rank(self) -> nat {
        match self {
            UserPhase::Finding => 2,
            UserPhase::Creating => 1,
            UserPhase::Rereading => 0,
        }
    }
}

/// The making sure of a user, between two requests.
#[derive(Debug, PartialEq, Eq)]
pub struct EnsureUser {
    pub phase: UserPhase,
    pub auth0_id: String,
    pub email: String,
}

/// The making sure of a user between two requests, with its texts as characters.
pub struct EnsureUserModel {
    pub phase: UserPhase,
    pub auth0_id: Seq<char>,
    pub email: Seq<char>,
}

impl View for EnsureUser {
    type V = EnsureUserModel;

    open spec fn view(&self) -> EnsureUserModel {
        EnsureUserModel { phase: self.phase, auth0_id: self.auth0_id@, email: self.email@ }
    }
}

/// What the making sure of a user does next.
#[derive(Debug, PartialEq, Eq)]
pub enum UserStep {
    /// Send this request, and come back with the answer.
    Call(EnsureUser, RemoteCall),
    /// This is the user.
    Done(SupabaseUser),
}

/// The next step of the making sure of a user, in mathematical form.
pub enum UserStepModel {
    Call(EnsureUserModel, RemoteCallModel),
    Done(UserModel),
}

impl View for UserStep {
    type V = UserStepModel;

    open spec fn view(&self) -> UserStepModel {
        match self {
            UserStep::Call(flow, call) => UserStepModel::Call(flow@, call@),
            UserStep::Done(user) => UserStepModel::Done(user@),
        }
    }
}

impl EnsureUserModel {
    /// The first step: ask the remote store for the user.
    pub open spec fn begin(auth0_id: Seq<char>, email: Seq<char>) -> UserStepModel {
        UserStepModel::Call(
            EnsureUserModel { phase: UserPhase::Finding, auth0_id, email },
            RemoteCallModel::FindUser { auth0_id },
        )
    }

    /// The end in the fallback: its user of this subject, made now
    /// with the identifier `id` where there was none.
    pub open spec fn fall_back(self, store: FallbackModel, id: u128, m: MomentModel) -> (
        UserStepModel,
        FallbackModel,
    ) {
        (
            UserStepModel::Done(store.user(self.auth0_id, self.email, id, m.now)),
            store.with_user(self.auth0_id, self.email, id, m.now),
        )
    }

    /// The step after an answer, and the fallback after it.
    ///
    /// A user that the remote store has is the result. Where it has
    /// none, it is asked to create one, once; where it then reports a
    /// conflict, it is asked for the user again. Every other failure
    /// ends in the fallback.
    pub open spec fn next(
        self,
        reply: ReplyModel<UserModel>,
        store: FallbackModel,
        id: u128,
        m: MomentModel,
    ) -> (UserStepModel, FallbackModel) {
        match self.phase {
            UserPhase::Finding => match reply.first_row(STATUS_OK) {
                Ok(Some(user)) => (UserStepModel::Done(user), store),
                Ok(None) => (
                    UserStepModel::Call(
                        EnsureUserModel { phase: UserPhase::Creating, ..self },
                        RemoteCallModel::CreateUser { auth0_id: self.auth0_id, email: self.email },
                    ),
                    store,
                ),
                Err(_) => self.fall_back(store, id, m),
            },
            UserPhase::Creating => match reply.first_row(STATUS_CREATED) {
                Ok(Some(user)) => (UserStepModel::Done(user), store),
                Err(StoreError::RemoteConflict) => (
                    UserStepModel::Call(
                        EnsureUserModel { phase: UserPhase::Rereading, ..self },
                        RemoteCallModel::FindUser { auth0_id: self.auth0_id },
                    ),
                    store,
                ),
                _ => self.fall_back(store, id, m),
            },
            UserPhase::Rereading => match reply.first_row(STATUS_OK) {
                Ok(Some(user)) => (UserStepModel::Done(user), store),
                _ => self.fall_back(store, id, m),
            },
        }
    }
}

/// The requests that the making sure of a user sends from `step` on,
/// where the remote store answers them with `replies`, in order, as far
/// as those go.
pub open spec fn user_requests(
    step: UserStepModel,
    replies: Seq<ReplyModel<UserModel>>,
    store: FallbackModel,
    id: u128,
    m: MomentModel,
) -> Seq<RemoteCallModel>
    decreases replies.len(),
{
    match step {
        UserStepModel::Done(_) => Seq::empty(),
        UserStepModel::Call(flow, call) => if replies.len() == 0 {
            seq![call]
        } else {
            let after = flow.next(replies[0], store, id, m);
            seq![call] + user_requests(after.0, replies.drop_first(), after.1, id, m)
        },
    }
}

/// How many of the requests ask the remote store to create a user.
pub open spec fn creations(calls: Seq<RemoteCallModel>) -> nat
    decreases calls.len(),
{
    if calls.len() == 0 {
        0
    } else if calls[0] is CreateUser {
        1 + creations(calls.drop_first())
    } else {
        creations(calls.drop_first())
    }
}

proof fn lemma_user_requests_from(
    flow: EnsureUserModel,
    call: RemoteCallModel,
    replies: Seq<ReplyModel<UserModel>>,
    store: FallbackModel,
    id: u128,
    m: MomentModel,
)
    ensures
        ({
            let calls = user_requests(UserStepModel::Call(flow, call), replies, store, id, m);
            &&& calls.len() <= flow.phase.rank() + 1
            &&& creations(calls) <= (if call is CreateUser {
                1nat
            } else {
                0nat
            }) + (if flow.phase is Finding {
                1nat
            } else {
                0nat
            })
        }),
    decreases replies.len(),
{
    let calls = user_requests(UserStepModel::Call(flow, call), replies, store, id, m);
    if replies.len() == 0 {
        assert(calls.drop_first() =~= Seq::empty());
        assert(creations(calls.drop_first()) == 0);
    } else {
        let after = flow.next(replies[0], store, id, m);
        let rest = user_requests(after.0, replies.drop_first(), after.1, id, m);
        assert(calls.drop_first() =~= rest);
        match after.0 {
            UserStepModel::Done(_) => {
                assert(creations(rest) == 0);
            },
            UserStepModel::Call(then, next_call) => {
                lemma_user_requests_from(then, next_call, replies.drop_first(), after.1, id, m);
            },
        }
    }
}

/// However the remote store answers, the making sure of a user asks
/// it to create the user at most once, and sends three requests at most.
pub proof fn lemma_user_created_at_most_once(
    auth0_id: Seq<char>,
    email: Seq<char>,
    replies: Seq<ReplyModel<UserModel>>,
    store: FallbackModel,
    id: u128,
    m: MomentModel,
)
    ensures
        creations(user_requests(EnsureUserModel::begin(auth0_id, email), replies, store, id, m))
            <= 1,
        user_requests(EnsureUserModel::begin(auth0_id, email), replies, store, id, m).len() <= 3,
{
    lemma_user_requests_from(
        EnsureUserModel { phase: UserPhase::Finding, auth0_id, email },
        RemoteCallModel::FindUser { auth0_id },
        replies,
        store,
        id,
        m,
    );
}

/// The remote store is asked to create a user only after it has
/// answered that it has none of that subject; and where it reports that
/// someone else has created the user meanwhile, it is asked for that
/// user, not to create again.
pub proof fn lemma_user_created_only_when_missing(
    flow: EnsureUserModel,
    reply: ReplyModel<UserModel>,
    store: FallbackModel,
    id: u128,
    m: MomentModel,
)
    ensures
        flow.next(reply, store, id, m).0 matches UserStepModel::Call(_, call) ==> {
            &&& call is CreateUser <==> flow.phase is Finding
            &&& call is CreateUser ==> reply.first_row(STATUS_OK) == Ok::<
                Option<UserModel>,
                StoreError,
            >(None)
            &&& call is FindUser <==> flow.phase is Creating
            &&& call is FindUser ==> reply.first_row(STATUS_CREATED) == Err::<
                Option<UserModel>,
                StoreError,
            >(StoreError::RemoteConflict)
        },
{
}

/// Which operation on a day's counter is under way.
#[derive(Clone, Copy, Debug, PartialEq, Eq, Structural)]
pub enum CountOp {
    /// Read today's counter, creating it at zero where there is none.
    Today,
    /// Count one more event.
    Increment,
    /// Set today's counter back to nothing.
    Reset,
}

/// How far an operation on a day's counter has come.
#[derive(Clone, Copy, Debug, PartialEq, Eq, Structural)]
pub enum CountPhase {
    /// The remote store has been asked to count by itself.
    Counting,
    /// The remote store has been asked for today's counter.
    Finding,
    /// It had none, and has been asked to create one.
    Creating,
    /// The remote store has been asked to take new contents for the
    /// counter.
    Patching,
}

impl CountPhase {
    /// How many requests may still follow the one that is under way.
    pub open spec fn rank(self) -> nat {
        match self {
            CountPhase::Counting => 3,
            CountPhase::Finding => 2,
            CountPhase::Creating => 1,
            CountPhase::Patching => 0,
        }
    }
}

/// An operation on a day's counter, between two requests.
#[derive(Debug, PartialEq, Eq)]
pub struct CountFlow {
    pub op: CountOp,
    pub phase: CountPhase,
    pub user_id: u128,
    /// The day on which the operation began.
    pub date: String,
}

/// An operation on a day's counter between two requests, with its text as characters.
pub struct CountFlowModel {
    pub op: CountOp,
    pub phase: CountPhase,
    pub user_id: u128,
    pub date: Seq<char>,
}

impl View for CountFlow {
    type V = CountFlowModel;

    open spec fn view(&self) -> CountFlowModel {
        CountFlowModel { op: self.op, phase: self.phase, user_id: self.user_id, date: self.date@ }
    }
}

/// What an operation on a day's counter does next.
#[derive(Debug, PartialEq, Eq)]
pub enum CountStep {
    /// Send this request, and come back with the answer.
    Call(CountFlow, RemoteCall),
    /// This is the counter.
    Done(SupabaseWillCount),
    /// The operation cannot be done, neither remotely nor in the fallback.
    Failed(StoreError),
}

/// The next step of an operation on a day's counter, in mathematical form.
pub enum CountStepModel {
    Call(CountFlowModel, RemoteCallModel),
    Done(CountModel),
    Failed(StoreError),
}

impl View for CountStep {
    type V = CountStepModel;

    open spec fn view(&self) -> CountStepModel {
        match self {
            CountStep::Call(flow, call) => CountStepModel::Call(flow@, call@),
            CountStep::Done(count) => CountStepModel::Done(count@),
            CountStep::Failed(e) => CountStepModel::Failed(*e),
        }
    }
}

impl CountFlowModel {
    /// The first step of an operation for the user that `user_id`
    /// names, at `m`. A text that names no user fails the operation.
    /// An increment first asks the remote store to count by itself;
    /// the other operations ask for today's counter.
    pub open spec fn begin(op: CountOp, user_id: Seq<char>, m: MomentModel) -> CountStepModel {
        match id_of_text(user_id) {
            None => CountStepModel::Failed(StoreError::OperationFailed),
            Some(user) => match op {
                CountOp::Increment => CountStepModel::Call(
                    CountFlowModel { op, phase: CountPhase::Counting, user_id: user, date: m.today },
                    RemoteCallModel::IncrementCount { user_id: user },
                ),
                _ => CountStepModel::Call(
                    CountFlowModel { op, phase: CountPhase::Finding, user_id: user, date: m.today },
                    RemoteCallModel::FindCount { user_id: user, date: m.today },
                ),
            },
        }
    }

    /// The end of an operation in the fallback.
    pub open spec fn fall_back(self, store: FallbackModel, id: u128, m: MomentModel) -> (
        CountStepModel,
        FallbackModel,
    ) {
        match self.op {
            CountOp::Today => (
                CountStepModel::Done(store.today(self.user_id, id, m)),
                store.with_today(self.user_id, id, m),
            ),
            CountOp::Increment => (
                match store.incremented(self.user_id, id, m) {
                    Ok(count) => CountStepModel::Done(count),
                    Err(e) => CountStepModel::Failed(e),
                },
                store.with_increment(self.user_id, id, m),
            ),
            CountOp::Reset => (
                CountStepModel::Done(store.cleared(self.user_id, id, m)),
                store.with_reset(self.user_id, id, m),
            ),
        }
    }

    /// The step once today's counter is at hand: it is the result of a
    /// read; an increment and a reset ask the remote store to take its
    /// new contents.
    ///
    /// The new contents of an increment are computed here from what was
    /// read. Two increments of one counter that run at once may
    /// therefore read the same contents and count one event between
    /// them; only the store's own counting is safe from that.
    pub open spec fn with_current(
        self,
        current: CountModel,
        store: FallbackModel,
        id: u128,
        m: MomentModel,
    ) -> (CountStepModel, FallbackModel) {
        let patching = CountFlowModel { phase: CountPhase::Patching, ..self };
        match self.op {
            CountOp::Today => (CountStepModel::Done(current), store),
            CountOp::Increment => if current.count < i32::MAX {
                (
                    CountStepModel::Call(
                        patching,
                        RemoteCallModel::PatchCount {
                            id: current.id,
                            count: current.count + 1,
                            timestamps: current.timestamps.push(m.now),
                            updated_at: m.now,
                        },
                    ),
                    store,
                )
            } else {
                self.fall_back(store, id, m)
            },
            CountOp::Reset => (
                CountStepModel::Call(
                    patching,
                    RemoteCallModel::PatchCount {
                        id: current.id,
                        count: 0,
                        timestamps: Seq::empty(),
                        updated_at: m.now,
                    },
                ),
                store,
            ),
        }
    }

    /// The step where the remote store gave no counter for today: the
    /// fallback's counter takes its place.
    pub open spec fn with_fallback_current(self, store: FallbackModel, id: u128, m: MomentModel) -> (
        CountStepModel,
        FallbackModel,
    ) {
        self.with_current(store.today(self.user_id, id, m), store.with_today(self.user_id, id, m), id, m)
    }

    /// The step after an answer, and the fallback after it.
    ///
    /// A counter that the remote store gives is taken as it is: it is
    /// the result of the store's own counting, of a patch and of a
    /// read, and what an increment or a reset goes on from. Where the
    /// store gives none, today's counter is created, once; every
    /// failure ends in the fallback.
    pub open spec fn next(
        self,
        reply: ReplyModel<CountModel>,
        store: FallbackModel,
        id: u128,
        m: MomentModel,
    ) -> (CountStepModel, FallbackModel) {
        match self.phase {
            CountPhase::Counting => match reply.first_row(STATUS_OK) {
                Ok(Some(count)) => (CountStepModel::Done(count), store),
                _ => (
                    CountStepModel::Call(
                        CountFlowModel { phase: CountPhase::Finding, ..self },
                        RemoteCallModel::FindCount { user_id: self.user_id, date: self.date },
                    ),
                    store,
                ),
            },
            CountPhase::Finding => match reply.first_row(STATUS_OK) {
                Ok(Some(count)) => self.with_current(count, store, id, m),
                Ok(None) => (
                    CountStepModel::Call(
                        CountFlowModel { phase: CountPhase::Creating, ..self },
                        RemoteCallModel::CreateCount {
                            user_id: self.user_id,
                            date: self.date,
                            now: m.now,
                        },
                    ),
                    store,
                ),
                Err(_) => self.with_fallback_current(store, id, m),
            },
            CountPhase::Creating => match reply.first_row(STATUS_CREATED) {
                Ok(Some(count)) => self.with_current(count, store, id, m),
                _ => self.with_fallback_current(store, id, m),
            },
            CountPhase::Patching => match reply.first_row(STATUS_OK) {
                Ok(Some(count)) => (CountStepModel::Done(count), store),
                _ => self.fall_back(store, id, m),
            },
        }
    }
}

/// The request that records a login of the user that `user_id` names,
/// at `at`. A text that names no user fails the operation.
pub open spec fn login_call(user_id: Seq<char>, at: Seq<char>) -> Result<RemoteCallModel, StoreError> {
    match id_of_text(user_id) {
        Some(user) => Ok(RemoteCallModel::TouchLogin { user_id: user, at }),
        None => Err(StoreError::OperationFailed),
    }
}

/// What the answer to that request says: whether the store took the
/// login, or that it could not be reached.
pub open spec fn login_outcome<M>(reply: ReplyModel<M>) -> Result<bool, StoreError> {
    match reply {
        ReplyModel::Unreachable => Err(StoreError::RemoteUnavailable),
        ReplyModel::Answered { status, .. } => Ok(status == STATUS_OK),
    }
}

/// Whether the answer to a probe shows the store to be there: it must
/// answer, and say either that all is well or that it has no such thing.
pub open spec fn healthy<M>(reply: ReplyModel<M>) -> bool {
    match reply {
        ReplyModel::Unreachable => false,
        ReplyModel::Answered { status, .. } => status == STATUS_OK || status == STATUS_NOT_FOUND,
    }
}

/// The request for the counters of the last `days` days of the user
/// that `user_id` names, counted back from the day of `m`. There is
/// none where the text names no user or the calendar has no such day.
pub open spec fn history_call(user_id: Seq<char>, days: int, m: MomentModel) -> Option<
    RemoteCallModel,
> {
    match (id_of_text(user_id), date_before(m.today, days)) {
        (Some(user), Some(start)) => Some(RemoteCallModel::History { user_id: user, start }),
        _ => None,
    }
}

/// The history in an answer: its records as they came, and nothing
/// where the request failed in any way.
pub open spec fn history_of(reply: ReplyModel<CountModel>) -> Seq<CountModel> {
    match reply {
        ReplyModel::Answered { status, rows: Some(rows) } => if status == STATUS_OK {
            rows
        } else {
            Seq::empty()
        },
        _ => Seq::empty(),
    }
}

/// Reads the answer to the request for a user: the user, or that the
/// store has none of this subject, or why the store gave no answer.
pub fn found_user(reply: Reply<SupabaseUser>) -> (r: Result<Option<SupabaseUser>, StoreError>)
    ensures
        same_row(r, reply@.first_row(STATUS_OK)),
{
    reply.first_row(STATUS_OK)
}

/// Reads the answer to the request that records a login.
pub fn login_updated<T: DeepView>(reply: &Reply<T>) -> (r: Result<bool, StoreError>)
    ensures
        r == login_outcome(reply@),
{
    match reply {
        Reply::Unreachable => Err(StoreError::RemoteUnavailable),
        Reply::Answered { status, .. } => Ok(*status == STATUS_OK),
    }
}

/// Reads the answer to a probe.
pub fn is_healthy<T: DeepView>(reply: &Reply<T>) -> (r: bool)
    ensures
        r == healthy(reply@),
{
    match reply {
        Reply::Unreachable => false,
        Reply::Answered { status, .. } => *status == STATUS_OK || *status == STATUS_NOT_FOUND,
    }
}

/// Reads the answer to the request for a history. A failure of the
/// remote store gives an empty history, never an error.
pub fn history_from(reply: Reply<SupabaseWillCount>) -> (r: Vec<SupabaseWillCount>)
    ensures
        r.deep_view() == history_of(reply@),
{
    match reply {
        Reply::Answered { status, rows: Some(rows) } => {
            if status == STATUS_OK {
                rows
            } else {
                let none: Vec<SupabaseWillCount> = Vec::new();
                assert(none.deep_view() =~= Seq::empty());
                none
            }
        },
        _ => {
            let none: Vec<SupabaseWillCount> = Vec::new();
            assert(none.deep_view() =~= Seq::empty());
            none
        },
    }
}

/// Whether the first counter in an answer, if there is one, stands
/// for as many events as it has recorded times.
pub open spec fn answers_consistently(reply: ReplyModel<CountModel>) -> bool {
    reply matches ReplyModel::Answered { rows: Some(rows), .. } ==> (rows.len() > 0
        ==> rows[0].consistent())
}

/// An operation on a day's counter leaves the fallback well formed,
/// whatever the remote store answers. Where the counter in the answer
/// stands for as many events as it has recorded times, so does the
/// counter that is handed out, and so do the contents of a patch.
pub proof fn lemma_counts_stay_consistent(
    flow: CountFlowModel,
    reply: ReplyModel<CountModel>,
    store: FallbackModel,
    id: u128,
    m: MomentModel,
)
    requires
        store.wf(),
        answers_consistently(reply),
    ensures
        flow.next(reply, store, id, m).1.wf(),
        flow.next(reply, store, id, m).0 matches CountStepModel::Done(count) ==> count.consistent(),
        flow.next(reply, store, id, m).0 matches CountStepModel::Call(
            _,
            RemoteCallModel::PatchCount { count, timestamps, .. },
        ) ==> count == timestamps.len(),
{
    lemma_fallback_stays_wf(store, Seq::empty(), Seq::empty(), flow.user_id, id, m);
    let key = count_key(flow.user_id, m.today);
    let held = store.with_today(flow.user_id, id, m);
    assert(held.counts.contains_key(key));
    lemma_fallback_stays_wf(held, Seq::empty(), Seq::empty(), flow.user_id, id, m);
    assert(held.with_today(flow.user_id, id, m).counts =~= held.counts);
    assert(store.with_increment(flow.user_id, id, m).counts =~= held.with_increment(
        flow.user_id,
        id,
        m,
    ).counts);
}

/// The requests that an operation on a day's counter sends from `step`
/// on, where the remote store answers them with `replies`, in order, as
/// far as those go.
pub open spec fn count_requests(
    step: CountStepModel,
    replies: Seq<ReplyModel<CountModel>>,
    store: FallbackModel,
    id: u128,
    m: MomentModel,
) -> Seq<RemoteCallModel>
    decreases replies.len(),
{
    match step {
        CountStepModel::Call(flow, call) => if replies.len() == 0 {
            seq![call]
        } else {
            let after = flow.next(replies[0], store, id, m);
            seq![call] + count_requests(after.0, replies.drop_first(), after.1, id, m)
        },
        _ => Seq::empty(),
    }
}

proof fn lemma_count_requests_from(
    flow: CountFlowModel,
    call: RemoteCallModel,
    replies: Seq<ReplyModel<CountModel>>,
    store: FallbackModel,
    id: u128,
    m: MomentModel,
)
    ensures
        count_requests(CountStepModel::Call(flow, call), replies, store, id, m).len()
            <= flow.phase.rank() + 1,
        flow.op is Today && (flow.phase is Finding || flow.phase is Creating) ==> count_requests(
            CountStepModel::Call(flow, call),
            replies,
            store,
            id,
            m,
        ).len() <= flow.phase.rank(),
    decreases replies.len(),
{
    let calls = count_requests(CountStepModel::Call(flow, call), replies, store, id, m);
    if replies.len() > 0 {
        let after = flow.next(replies[0], store, id, m);
        let rest = count_requests(after.0, replies.drop_first(), after.1, id, m);
        assert(calls == seq![call] + rest);
        assert(calls.len() == 1 + rest.len());
        match after.0 {
            CountStepModel::Call(then, next_call) => {
                lemma_count_requests_from(then, next_call, replies.drop_first(), after.1, id, m);
            },
            _ => {
                assert(rest.len() == 0);
            },
        }
    } else {
        assert(calls.len() == 1);
    }
}

/// However the remote store answers, an operation on a day's counter
/// sends few requests and never one of them again: a read two at most,
/// a reset three, an increment four.
pub proof fn lemma_count_requests_are_few(
    op: CountOp,
    user_id: Seq<char>,
    replies: Seq<ReplyModel<CountModel>>,
    store: FallbackModel,
    id: u128,
    m: MomentModel,
)
    ensures
        count_requests(CountFlowModel::begin(op, user_id, m), replies, store, id, m).len() <= (
        match op {
            CountOp::Today => 2nat,
            CountOp::Reset => 3nat,
            CountOp::Increment => 4nat,
        }),
{
    match CountFlowModel::begin(op, user_id, m) {
        CountStepModel::Call(flow, call) => {
            lemma_count_requests_from(flow, call, replies, store, id, m);
        },
        _ => {},
    }
}

impl SupabaseClient {
    /// The probe that shows whether the remote store is there.
    pub fn health_check(&self) -> (r: RemoteCall)
        ensures
            r@ == RemoteCallModel::Probe,
    {
        RemoteCall::Probe
    }

    /// The request for the user of a subject.
    pub fn get_user_by_auth0(&self, auth0_id: &str) -> (r: RemoteCall)
        ensures
            r@ == (RemoteCallModel::FindUser { auth0_id: auth0_id@ }),
    {
        RemoteCall::FindUser { auth0_id: auth0_id.to_owned() }
    }

    /// The request that records a login at `moment`.
    pub fn update_last_login_at(&self, user_id: &str, moment: &Moment) -> (r: Result<
        RemoteCall,
        StoreError,
    >)
        ensures
            match login_call(user_id@, moment@.now) {
                Ok(call) => r matches Ok(c) && c@ == call,
                Err(e) => r matches Err(f) && f == e,
            },
    {
        match parse_id(user_id) {
            Some(user) => Ok(RemoteCall::TouchLogin { user_id: user, at: moment.now.clone() }),
            None => Err(StoreError::OperationFailed),
        }
    }

    /// The request that records a login at the time of the call.
    pub fn update_last_login(&self, user_id: &str) -> (r: Result<RemoteCall, StoreError>)
        ensures
            exists|at: Seq<char>|
                match #[trigger] login_call(user_id@, at) {
                    Ok(call) => r matches Ok(c) && c@ == call,
                    Err(e) => r matches Err(f) && f == e,
                },
    {
        let moment = utc_now();
        let r = self.update_last_login_at(user_id, &moment);
        assert(match login_call(user_id@, moment@.now) {
            Ok(call) => r matches Ok(c) && c@ == call,
            Err(e) => r matches Err(f) && f == e,
        });
        r
    }

    /// The request for the counters of the last `days` days, counted
    /// back from the day of `moment`; `None` where there is nothing to
    /// ask, and the history is empty.
    pub fn get_statistics_at(&self, user_id: &str, days: i32, moment: &Moment) -> (r: Option<
        RemoteCall,
    >)
        ensures
            match history_call(user_id@, days as int, moment@) {
                Some(call) => r matches Some(c) && c@ == call,
                None => r is None,
            },
    {
        let user = match parse_id(user_id) {
            Some(u) => u,
            None => {
                return None;
            },
        };
        match days_before(moment.today.as_str(), days) {
            Some(start) => Some(RemoteCall::History { user_id: user, start }),
            None => None,
        }
    }

    /// The request for the counters of the last `days` days, counted
    /// back from the day of the call.
    pub fn get_statistics(&self, user_id: &str, days: i32) -> (r: Option<RemoteCall>)
        ensures
            exists|m: MomentModel|
                match #[trigger] history_call(user_id@, days as int, m) {
                    Some(call) => r matches Some(c) && c@ == call,
                    None => r is None,
                },
    {
        let moment = utc_now();
        let r = self.get_statistics_at(user_id, days, &moment);
        assert(match history_call(user_id@, days as int, moment@) {
            Some(call) => r matches Some(c) && c@ == call,
            None => r is None,
        });
        r
    }

    /// Begins to make sure that the user of a subject exists.
    pub fn ensure_user_exists(&self, auth0_id: &str, email: &str) -> (r: UserStep)
        ensures
            r@ == EnsureUserModel::begin(auth0_id@, email@),
    {
        UserStep::Call(
            EnsureUser {
                phase: UserPhase::Finding,
                auth0_id: auth0_id.to_owned(),
                email: email.to_owned(),
            },
            RemoteCall::FindUser { auth0_id: auth0_id.to_owned() },
        )
    }

    fn user_fall_back(&mut self, flow: EnsureUser, id: u128, moment: &Moment) -> (r: UserStep)
        requires
            old(self).wf(),
        ensures
            final(self).wf(),
            r@ == flow@.fall_back(old(self)@.fallback, id, moment@).0,
            final(self)@ == (ClientModel {
                fallback: flow@.fall_back(old(self)@.fallback, id, moment@).1,
                ..old(self)@
            }),
    {
        UserStep::Done(
            self.fallback_user_at(flow.auth0_id.as_str(), flow.email.as_str(), id, moment.now.as_str()),
        )
    }

    /// Goes on with the making sure of a user, given the answer to the
    /// request of the step before, an identifier that no record has
    /// yet, and the time.
    pub fn ensure_user_step_at(
        &mut self,
        flow: EnsureUser,
        reply: Reply<SupabaseUser>,
        id: u128,
        moment: &Moment,
    ) -> (r: UserStep)
        requires
            old(self).wf(),
        ensures
            final(self).wf(),
            r@ == flow@.next(reply@, old(self)@.fallback, id, moment@).0,
            final(self)@ == (ClientModel {
                fallback: flow@.next(reply@, old(self)@.fallback, id, moment@).1,
                ..old(self)@
            }),
            r matches UserStep::Call(after, _) ==> after.phase.rank() < flow.phase.rank(),
    {
        match flow.phase {
            UserPhase::Finding => match reply.first_row(STATUS_OK) {
                Ok(Some(user)) => UserStep::Done(user),
                Ok(None) => {
                    let call = RemoteCall::CreateUser {
                        auth0_id: flow.auth0_id.clone(),
                        email: flow.email.clone(),
                    };
                    UserStep::Call(EnsureUser { phase: UserPhase::Creating, ..flow }, call)
                },
                Err(_) => self.user_fall_back(flow, id, moment),
            },
            UserPhase::Creating => match reply.first_row(STATUS_CREATED) {
                Ok(Some(user)) => UserStep::Done(user),
                Err(StoreError::RemoteConflict) => {
                    let call = RemoteCall::FindUser { auth0_id: flow.auth0_id.clone() };
                    UserStep::Call(EnsureUser { phase: UserPhase::Rereading, ..flow }, call)
                },
                _ => self.user_fall_back(flow, id, moment),
            },
            UserPhase::Rereading => match reply.first_row(STATUS_OK) {
                Ok(Some(user)) => UserStep::Done(user),
                _ => self.user_fall_back(flow, id, moment),
            },
        }
    }

    /// Goes on with the making sure of a user at the time of the call,
    /// with an identifier drawn at random for a user that has to be
    /// made up.
    pub fn ensure_user_step(&mut self, flow: EnsureUser, reply: Reply<SupabaseUser>) -> (r: UserStep)
        requires
            old(self).wf(),
        ensures
            final(self).wf(),
            exists|id: u128, m: MomentModel|
                {
                    &&& r@ == (#[trigger] flow@.next(reply@, old(self)@.fallback, id, m)).0
                    &&& final(self)@ == (ClientModel {
                        fallback: flow@.next(reply@, old(self)@.fallback, id, m).1,
                        ..old(self)@
                    })
                },
            r matches UserStep::Call(after, _) ==> after.phase.rank() < flow.phase.rank(),
    {
        let moment = utc_now();
        let id = random_id();
        self.ensure_user_step_at(flow, reply, id, &moment)
    }

    /// Begins an operation on the counter of the user that `user_id`
    /// names, on the day of `moment`.
    pub fn count_begin_at(&self, op: CountOp, user_id: &str, moment: &Moment) -> (r: CountStep)
        ensures
            r@ == CountFlowModel::begin(op, user_id@, moment@),
    {
        let user = match parse_id(user_id) {
            Some(u) => u,
            None => {
                return CountStep::Failed(StoreError::OperationFailed);
            },
        };
        match op {
            CountOp::Increment => CountStep::Call(
                CountFlow {
                    op,
                    phase: CountPhase::Counting,
                    user_id: user,
                    date: moment.today.clone(),
                },
                RemoteCall::IncrementCount { user_id: user },
            ),
            _ => CountStep::Call(
                CountFlow {
                    op,
                    phase: CountPhase::Finding,
                    user_id: user,
                    date: moment.today.clone(),
                },
                RemoteCall::FindCount { user_id: user, date: moment.today.clone() },
            ),
        }
    }

    fn count_fall_back(&mut self, flow: CountFlow, id: u128, moment: &Moment) -> (r: CountStep)
        requires
            old(self).wf(),
        ensures
            final(self).wf(),
            r@ == flow@.fall_back(old(self)@.fallback, id, moment@).0,
            final(self)@ == (ClientModel {
                fallback: flow@.fall_back(old(self)@.fallback, id, moment@).1,
                ..old(self)@
            }),
            r matches CountStep::Done(c) ==> c@.consistent(),
            !(r is Call),
    {
        match flow.op {
            CountOp::Today => CountStep::Done(self.fallback_today_at(flow.user_id, id, moment)),
            CountOp::Increment => match self.increment_fallback_at(flow.user_id, id, moment) {
                Ok(count) => CountStep::Done(count),
                Err(e) => CountStep::Failed(e),
            },
            CountOp::Reset => CountStep::Done(self.reset_fallback_at(flow.user_id, id, moment)),
        }
    }

    fn count_with_current(
        &mut self,
        flow: CountFlow,
        current: SupabaseWillCount,
        id: u128,
        moment: &Moment,
    ) -> (r: CountStep)
        requires
            old(self).wf(),
        ensures
            final(self).wf(),
            r@ == flow@.with_current(current@, old(self)@.fallback, id, moment@).0,
            final(self)@ == (ClientModel {
                fallback: flow@.with_current(current@, old(self)@.fallback, id, moment@).1,
                ..old(self)@
            }),
            r matches CountStep::Call(after, _) ==> after.phase == CountPhase::Patching,
    {
        match flow.op {
            CountOp::Today => CountStep::Done(current),
            CountOp::Increment => {
                if current.count < i32::MAX {
                    let mut timestamps = current.timestamps.clone();
                    timestamps.push(moment.now.clone());
                    assert(timestamps.deep_view() =~= current@.timestamps.push(moment.now@));
                    let call = RemoteCall::PatchCount {
                        id: current.id,
                        count: current.count + 1,
                        timestamps,
                        updated_at: moment.now.clone(),
                    };
                    CountStep::Call(CountFlow { phase: CountPhase::Patching, ..flow }, call)
                } else {
                    self.count_fall_back(flow, id, moment)
                }
            },
            CountOp::Reset => {
                let timestamps: Vec<String> = Vec::new();
                assert(timestamps.deep_view() =~= Seq::empty());
                let call = RemoteCall::PatchCount {
                    id: current.id,
                    count: 0,
                    timestamps,
                    updated_at: moment.now.clone(),
                };
                CountStep::Call(CountFlow { phase: CountPhase::Patching, ..flow }, call)
            },
        }
    }

    fn count_with_fallback_current(&mut self, flow: CountFlow, id: u128, moment: &Moment) -> (r:
        CountStep)
        requires
            old(self).wf(),
        ensures
            final(self).wf(),
            r@ == flow@.with_fallback_current(old(self)@.fallback, id, moment@).0,
            final(self)@ == (ClientModel {
                fallback: flow@.with_fallback_current(old(self)@.fallback, id, moment@).1,
                ..old(self)@
            }),
            r matches CountStep::Call(after, _) ==> after.phase == CountPhase::Patching,
    {
        let current = self.fallback_today_at(flow.user_id, id, moment);
        self.count_with_current(flow, current, id, moment)
    }

    /// Goes on with an operation on a day's counter, given the answer
    /// to the request of the step before, an identifier that no record
    /// has yet, and the time.
    pub fn count_step_at(
        &mut self,
        flow: CountFlow,
        reply: Reply<SupabaseWillCount>,
        id: u128,
        moment: &Moment,
    ) -> (r: CountStep)
        requires
            old(self).wf(),
        ensures
            final(self).wf(),
            r@ == flow@.next(reply@, old(self)@.fallback, id, moment@).0,
            final(self)@ == (ClientModel {
                fallback: flow@.next(reply@, old(self)@.fallback, id, moment@).1,
                ..old(self)@
            }),
            r matches CountStep::Call(after, _) ==> after.phase.rank() < flow.phase.rank(),
    {
        match flow.phase {
            CountPhase::Counting => match reply.first_row(STATUS_OK) {
                Ok(Some(count)) => CountStep::Done(count),
                _ => {
                    let call = RemoteCall::FindCount {
                        user_id: flow.user_id,
                        date: flow.date.clone(),
                    };
                    CountStep::Call(CountFlow { phase: CountPhase::Finding, ..flow }, call)
                },
            },
            CountPhase::Finding => match reply.first_row(STATUS_OK) {
                Ok(Some(count)) => self.count_with_current(flow, count, id, moment),
                Ok(None) => {
                    let call = RemoteCall::CreateCount {
                        user_id: flow.user_id,
                        date: flow.date.clone(),
                        now: moment.now.clone(),
                    };
                    CountStep::Call(CountFlow { phase: CountPhase::Creating, ..flow }, call)
                },
                Err(_) => self.count_with_fallback_current(flow, id, moment),
            },
            CountPhase::Creating => match reply.first_row(STATUS_CREATED) {
                Ok(Some(count)) => self.count_with_current(flow, count, id, moment),
                _ => self.count_with_fallback_current(flow, id, moment),
            },
            CountPhase::Patching => match reply.first_row(STATUS_OK) {
                Ok(Some(count)) => CountStep::Done(count),
                _ => self.count_fall_back(flow, id, moment),
            },
        }
    }

    /// Goes on with an operation on a day's counter at the time of the
    /// call, with an identifier drawn at random for a counter that has
    /// to be made.
    pub fn count_step(&mut self, flow: CountFlow, reply: Reply<SupabaseWillCount>) -> (r: CountStep)
        requires
            old(self).wf(),
        ensures
            final(self).wf(),
            exists|id: u128, m: MomentModel|
                {
                    &&& r@ == (#[trigger] flow@.next(reply@, old(self)@.fallback, id, m)).0
                    &&& final(self)@ == (ClientModel {
                        fallback: flow@.next(reply@, old(self)@.fallback, id, m).1,
                        ..old(self)@
                    })
                },
            r matches CountStep::Call(after, _) ==> after.phase.rank() < flow.phase.rank(),
    {
        let moment = utc_now();
        let id = random_id();
        self.count_step_at(flow, reply, id, &moment)
    }

    /// Begins to read today's counter of a user, creating it where
    /// there is none.
    pub fn get_today_count(&self, user_id: &str) -> (r: CountStep)
        ensures
            exists|m: MomentModel| r@ == CountFlowModel::begin(CountOp::Today, user_id@, m),
    {
        let moment = utc_now();
        self.count_begin_at(CountOp::Today, user_id, &moment)
    }

    /// Begins to count one more event for a user today.
    pub fn increment_count(&self, user_id: &str) -> (r: CountStep)
        ensures
            exists|m: MomentModel| r@ == CountFlowModel::begin(CountOp::Increment, user_id@, m),
    {
        let moment = utc_now();
        self.count_begin_at(CountOp::Increment, user_id, &moment)
    }

    /// Begins to set today's counter of a user back to nothing.
    pub fn reset_today(&self, user_id: &str) -> (r: CountStep)
        ensures
            exists|m: MomentModel| r@ == CountFlowModel::begin(CountOp::Reset, user_id@, m),
    {
        let moment = utc_now();
        self.count_begin_at(CountOp::Reset, user_id, &moment)
    }
}

} // verus!
