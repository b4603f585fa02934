use std::collections::BTreeMap;

use will_counter_api::clock::Moment;
use will_counter_api::flows::{history_from, CountOp, CountStep, UserStep};
use will_counter_api::remote::{RemoteCall, Reply};
use will_counter_api::supabase::SupabaseClient;
use will_counter_api::types::{SupabaseUser, SupabaseWillCount};

const USER_TEXT: &str = "550e8400-e29b-41d4-a716-446655440000";
const USER: u128 = 0x550e8400_e29b_41d4_a716_446655440000;

/// A store in memory that answers as the remote store is said to.
struct FakeStore {
    users: BTreeMap<String, SupabaseUser>,
    counts: BTreeMap<(u128, String), SupabaseWillCount>,
    counts_by_itself: bool,
    next_id: u128,
    requests: Vec<RemoteCall>,
}

impl FakeStore {
    fn new(counts_by_itself: bool) -> Self {
        FakeStore {
            users: BTreeMap::new(),
            counts: BTreeMap::new(),
            counts_by_itself,
            next_id: 1000,
            requests: Vec::new(),
        }
    }

    fn fresh_id(&mut self) -> u128 {
        self.next_id += 1;
        self.next_id
    }

    fn answer_user(&mut self, call: RemoteCall, now: &str) -> Reply<SupabaseUser> {
        let reply = match &call {
            RemoteCall::FindUser { auth0_id } => Reply::Answered {
                status: 200,
                rows: Some(self.users.get(auth0_id).cloned().into_iter().collect()),
            },
            RemoteCall::CreateUser { auth0_id, email } => {
                if self.users.contains_key(auth0_id) {
                    Reply::Answered { status: 409, rows: None }
                } else {
                    let user = SupabaseUser {
                        id: self.fresh_id(),
                        auth0_id: auth0_id.clone(),
                        email: email.clone(),
                        created_at: now.to_string(),
                        last_login: None,
                        preferences: vec![],
                    };
                    self.users.insert(auth0_id.clone(), user.clone());
                    Reply::Answered { status: 201, rows: Some(vec![user]) }
                }
            }
            _ => Reply::Answered { status: 404, rows: None },
        };
        self.requests.push(call);
        reply
    }

    fn answer_count(&mut self, call: RemoteCall, moment: &Moment) -> Reply<SupabaseWillCount> {
        let reply = match &call {
            RemoteCall::FindCount { user_id, date } => Reply::Answered {
                status: 200,
                rows: Some(self.counts.get(&(*user_id, date.clone())).cloned().into_iter().collect()),
            },
            RemoteCall::CreateCount { user_id, date, now } => {
                let key = (*user_id, date.clone());
                if self.counts.contains_key(&key) {
                    Reply::Answered { status: 409, rows: None }
                } else {
                    let count = SupabaseWillCount {
                        id: self.fresh_id(),
                        user_id: *user_id,
                        date: date.clone(),
                        count: 0,
                        timestamps: vec![],
                        created_at: now.clone(),
                        updated_at: now.clone(),
                    };
                    self.counts.insert(key, count.clone());
                    Reply::Answered { status: 201, rows: Some(vec![count]) }
                }
            }
            RemoteCall::IncrementCount { user_id } => {
                if self.counts_by_itself {
                    let id = self.fresh_id();
                    let count = self
                        .counts
                        .entry((*user_id, moment.today.clone()))
                        .or_insert(SupabaseWillCount {
                            id,
                            user_id: *user_id,
                            date: moment.today.clone(),
                            count: 0,
                            timestamps: vec![],
                            created_at: moment.now.clone(),
                            updated_at: moment.now.clone(),
                        });
                    count.count += 1;
                    count.timestamps.push(moment.now.clone());
                    count.updated_at = moment.now.clone();
                    Reply::Answered { status: 200, rows: Some(vec![count.clone()]) }
                } else {
                    Reply::Answered { status: 404, rows: None }
                }
            }
            RemoteCall::PatchCount { id, count, timestamps, updated_at } => {
                let mut patched = Vec::new();
                for kept in self.counts.values_mut() {
                    if kept.id == *id {
                        kept.count = *count;
                        kept.timestamps = timestamps.clone();
                        kept.updated_at = updated_at.clone();
                        patched.push(kept.clone());
                    }
                }
                Reply::Answered { status: 200, rows: Some(patched) }
            }
            RemoteCall::History { user_id, start } => {
                let mut found: Vec<SupabaseWillCount> = self
                    .counts
                    .values()
                    .filter(|c| c.user_id == *user_id && c.date.as_str() >= start.as_str())
                    .cloned()
                    .collect();
                found.reverse();
                Reply::Answered { status: 200, rows: Some(found) }
            }
            _ => Reply::Answered { status: 404, rows: None },
        };
        self.requests.push(call);
        reply
    }
}

fn new_client() -> SupabaseClient {
    SupabaseClient::new("https://store.example.com".to_string(), "service-key".to_string())
}

fn on(today: &str, now: &str) -> Moment {
    Moment { today: today.to_string(), now: now.to_string() }
}

fn run_count(
    client: &mut SupabaseClient,
    store: &mut FakeStore,
    op: CountOp,
    moment: &Moment,
) -> SupabaseWillCount {
    let mut step = client.count_begin_at(op, USER_TEXT, moment);
    loop {
        match step {
            CountStep::Call(flow, call) => {
                let reply = store.answer_count(call, moment);
                step = client.count_step_at(flow, reply, 77, moment);
            }
            CountStep::Done(count) => return count,
            CountStep::Failed(error) => panic!("failed with {:?}", error),
        }
    }
}

fn turn(client: &mut SupabaseClient, store: &mut FakeStore, step: UserStep, id: u128) -> UserStep {
    match step {
        UserStep::Call(flow, call) => {
            let reply = store.answer_user(call, "now");
            client.ensure_user_step_at(flow, reply, id, &on("2025-12-22", "now"))
        }
        done => done,
    }
}

fn creations(store: &FakeStore) -> usize {
    store.requests.iter().filter(|call| matches!(call, RemoteCall::CreateUser { .. })).count()
}

#[test]
fn ensure_user_twice_leaves_one_remote_user() {
    let mut client = new_client();
    let mut store = FakeStore::new(false);
    let mut users = Vec::new();
    for email in ["a@example.com", "b@example.com"] {
        let mut step = client.ensure_user_exists("auth0|abc", email);
        let user = loop {
            match step {
                UserStep::Done(user) => break user,
                call => step = turn(&mut client, &mut store, call, 77),
            }
        };
        users.push(user);
    }
    assert_eq!(users[0], users[1]);
    assert_eq!(users[0].email, "a@example.com");
    assert_eq!(store.users.len(), 1);
    assert_eq!(creations(&store), 1);
    assert_eq!(store.requests.len(), 3);
}

#[test]
fn ensure_user_at_once_leaves_one_remote_user_in_every_order() {
    for schedule in 0u32..64 {
        let mut client = new_client();
        let mut store = FakeStore::new(false);
        let mut first = client.ensure_user_exists("auth0|abc", "a@example.com");
        let mut second = client.ensure_user_exists("auth0|abc", "b@example.com");
        for bit in 0..6 {
            if schedule & (1 << bit) == 0 {
                first = turn(&mut client, &mut store, first, 77);
            } else {
                second = turn(&mut client, &mut store, second, 78);
            }
        }
        for _ in 0..3 {
            first = turn(&mut client, &mut store, first, 77);
            second = turn(&mut client, &mut store, second, 78);
        }
        match (first, second) {
            (UserStep::Done(a), UserStep::Done(b)) => {
                assert_eq!(a, b, "schedule {}", schedule);
                assert_eq!(store.users.get("auth0|abc"), Some(&a));
            }
            other => panic!("schedule {} did not end: {:?}", schedule, other),
        }
        assert_eq!(store.users.len(), 1);
        assert_eq!(creations(&store), 1 + usize::from(store.requests.len() == 5));
        let untouched = client.fallback_user_at("auth0|abc", "c@example.com", 99, "later");
        assert_eq!(untouched.id, 99);
    }
}

#[test]
fn increments_by_patch_count_their_number() {
    let mut client = new_client();
    let mut store = FakeStore::new(false);
    for n in 1..=5 {
        let moment = on("2025-12-22", &format!("t{}", n));
        let count = run_count(&mut client, &mut store, CountOp::Increment, &moment);
        assert_eq!(count.count, n);
        assert_eq!(count.timestamps.len(), n as usize);
    }
    let kept = &store.counts[&(USER, "2025-12-22".to_string())];
    assert_eq!(kept.count, 5);
    assert_eq!(kept.timestamps, vec!["t1", "t2", "t3", "t4", "t5"]);
    assert_eq!(store.counts.len(), 1);
}

#[test]
fn increments_by_the_store_count_their_number() {
    let mut client = new_client();
    let mut store = FakeStore::new(true);
    for n in 1..=5 {
        let moment = on("2025-12-22", &format!("t{}", n));
        let count = run_count(&mut client, &mut store, CountOp::Increment, &moment);
        assert_eq!(count.count, n);
        assert_eq!(count.timestamps.len(), n as usize);
    }
    assert_eq!(store.requests.len(), 5);
    assert!(store.requests.iter().all(|call| matches!(call, RemoteCall::IncrementCount { .. })));
}

#[test]
fn increment_of_existing_counter_appends_one_time() {
    let mut client = new_client();
    let mut store = FakeStore::new(false);
    store.counts.insert(
        (USER, "2025-12-22".to_string()),
        SupabaseWillCount {
            id: 5,
            user_id: USER,
            date: "2025-12-22".to_string(),
            count: 2,
            timestamps: vec!["t1".to_string(), "t2".to_string()],
            created_at: "t0".to_string(),
            updated_at: "t2".to_string(),
        },
    );
    let count = run_count(&mut client, &mut store, CountOp::Increment, &on("2025-12-22", "t3"));
    assert_eq!(count.count, 3);
    assert_eq!(count.timestamps, vec!["t1", "t2", "t3"]);
    assert_eq!(count.id, 5);
    assert_eq!(count.created_at, "t0");
    assert_eq!(count.updated_at, "t3");
    assert_eq!(
        store.requests.iter().map(|call| call.path()).collect::<Vec<_>>(),
        vec!["/rest/v1/rpc/increment_will_count", "/rest/v1/will_counts", "/rest/v1/will_counts"]
    );
}

#[test]
fn reset_then_today_against_the_store() {
    let mut client = new_client();
    let mut store = FakeStore::new(false);
    for n in 1..=3 {
        run_count(&mut client, &mut store, CountOp::Increment, &on("2025-12-22", &format!("t{}", n)));
    }
    let reset = run_count(&mut client, &mut store, CountOp::Reset, &on("2025-12-22", "t4"));
    assert_eq!(reset.count, 0);
    assert!(reset.timestamps.is_empty());
    let today = run_count(&mut client, &mut store, CountOp::Today, &on("2025-12-22", "t5"));
    assert_eq!(today, reset);
    assert_eq!(store.counts.len(), 1);
}

#[test]
fn today_creates_one_counter_for_a_day() {
    let mut client = new_client();
    let mut store = FakeStore::new(false);
    let first = run_count(&mut client, &mut store, CountOp::Today, &on("2025-12-22", "t1"));
    let second = run_count(&mut client, &mut store, CountOp::Today, &on("2025-12-22", "t2"));
    assert_eq!(first, second);
    assert_eq!(first.count, 0);
    assert_eq!(store.counts.len(), 1);
    let next = run_count(&mut client, &mut store, CountOp::Today, &on("2025-12-23", "t3"));
    assert_ne!(next.id, first.id);
    assert_eq!(store.counts.len(), 2);
}

#[test]
fn history_of_the_last_days() {
    let mut client = new_client();
    let mut store = FakeStore::new(true);
    for day in ["2025-12-01", "2025-12-20", "2025-12-21", "2025-12-22"] {
        run_count(&mut client, &mut store, CountOp::Increment, &on(day, "t"));
    }
    let call = client.get_statistics_at(USER_TEXT, 7, &on("2025-12-22", "t")).unwrap();
    let history = history_from(store.answer_count(call, &on("2025-12-22", "t")));
    assert_eq!(
        history.iter().map(|c| c.date.as_str()).collect::<Vec<_>>(),
        vec!["2025-12-22", "2025-12-21", "2025-12-20"]
    );
}
