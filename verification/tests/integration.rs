// The enforcer's operations, driven against an in-memory store that answers the store
// commands the way Redis does.

use std::collections::HashMap;

use deadpool_redis::redis::{ErrorKind, RedisError};
use token_enforcer::enforcer::{queue_usage_event, Operation, Outcome, Session, Step};
use token_enforcer::error::EnforcerError;
use token_enforcer::store::{Command, Reply, StoreFailure};
use token_enforcer::{TokenUsage, UsageEvent};

const COUNTER_MAX: u64 = i64::MAX as u64;

struct MemoryStore {
    values: HashMap<String, u64>,
    events: Vec<UsageEvent>,
    clock: u64,
}

impl MemoryStore {
    fn new() -> Self {
        MemoryStore { values: HashMap::new(), events: Vec::new(), clock: 1_700_000_000 }
    }

    fn execute(&mut self, cmd: Command) -> Reply {
        match cmd {
            Command::Get { key } => Reply::Value(self.values.get(&key).copied()),
            Command::Put { key, value } => {
                self.values.insert(key, value);
                Reply::Written
            }
            Command::IncrBy { key, delta } => {
                let cur = self.values.get(&key).copied().unwrap_or(0);
                match cur.checked_add(delta) {
                    Some(new) if new <= COUNTER_MAX => {
                        self.values.insert(key, new);
                        Reply::Count(new)
                    }
                    _ => Reply::Failed(StoreFailure::Command(RedisError::from((
                        ErrorKind::ResponseError,
                        "increment or decrement would overflow",
                    )))),
                }
            }
            Command::DecrFloor { key, delta } => match self.values.get(&key).copied() {
                None => Reply::Count(0),
                Some(cur) => {
                    let new = cur.saturating_sub(delta);
                    self.values.insert(key, new);
                    Reply::Count(new)
                }
            },
            Command::Delete { first, second } => {
                self.values.remove(&first);
                self.values.remove(&second);
                Reply::Written
            }
        }
    }

    fn perform(&mut self, prefix: &str, op: Operation) -> Result<Outcome, EnforcerError> {
        let mut step = Session::begin(prefix, op);
        let mut commands = 0;
        loop {
            match step {
                Step::Finish(result) => {
                    queue_usage_event(&mut self.events, &result, self.clock);
                    return result;
                }
                Step::Issue(session, cmd) => {
                    commands += 1;
                    assert!(commands <= 3);
                    let reply = self.execute(cmd);
                    assert!(session.accepts_reply(&reply));
                    step = session.resume(reply);
                }
            }
        }
    }
}

struct Enforcer {
    store: MemoryStore,
    prefix: &'static str,
}

impl Enforcer {
    fn set_budget(&mut self, id: &str, limit: u64) -> Result<Outcome, EnforcerError> {
        self.store.perform(self.prefix, Operation::SetBudget { tenant_id: id.to_string(), limit })
    }
    fn check(&mut self, id: &str, estimated: u64) -> Result<Outcome, EnforcerError> {
        self.store.perform(self.prefix, Operation::Check { tenant_id: id.to_string(), estimated })
    }
    fn check_and_reserve(&mut self, id: &str, estimated: u64) -> Result<Outcome, EnforcerError> {
        self.store.perform(self.prefix, Operation::CheckAndReserve { tenant_id: id.to_string(), estimated })
    }
    fn record(&mut self, id: &str, usage: TokenUsage) -> Result<Outcome, EnforcerError> {
        self.store.perform(self.prefix, Operation::Record { tenant_id: id.to_string(), usage, model: None })
    }
    fn settle(&mut self, token: Outcome, actual: TokenUsage) -> Result<Outcome, EnforcerError> {
        let reservation = match token {
            Outcome::Reserved(r) => r,
            _ => panic!("not a reservation"),
        };
        self.store.perform(self.prefix, Operation::Settle { reservation, actual })
    }
    fn status(&mut self, id: &str) -> Result<Outcome, EnforcerError> {
        self.store.perform(self.prefix, Operation::Status { tenant_id: id.to_string() })
    }
    fn used(&mut self, id: &str) -> u64 {
        match self.status(id) {
            Ok(Outcome::Status(st)) => st.used,
            _ => panic!("no status"),
        }
    }
    fn reset_usage(&mut self, id: &str) -> Result<Outcome, EnforcerError> {
        self.store.perform(self.prefix, Operation::ResetUsage { tenant_id: id.to_string() })
    }
    fn remove_tenant(&mut self, id: &str) -> Result<Outcome, EnforcerError> {
        self.store.perform(self.prefix, Operation::RemoveTenant { tenant_id: id.to_string() })
    }
}

fn setup_enforcer() -> Enforcer {
    Enforcer { store: MemoryStore::new(), prefix: "test_te" }
}

fn next_id() -> String {
    "tenant-under-test".to_string()
}

#[test]
fn test_set_and_check_budget() {
    let mut te = setup_enforcer();
    let id = next_id();
    te.set_budget(&id, 1000).unwrap();
    te.check(&id, 500).expect("Budget check failed");
}

#[test]
fn test_budget_exceeded() {
    let mut te = setup_enforcer();
    let id = next_id();
    te.set_budget(&id, 100).unwrap();
    te.record(&id, TokenUsage { input_tokens: 50, output_tokens: 40 }).unwrap();
    let result = te.check(&id, 20);
    assert!(matches!(result, Err(EnforcerError::BudgetExceeded { .. })));
}

#[test]
fn test_record_increments_usage() {
    let mut te = setup_enforcer();
    let id = next_id();
    te.set_budget(&id, 1000).unwrap();
    te.record(&id, TokenUsage { input_tokens: 100, output_tokens: 50 }).unwrap();
    te.record(&id, TokenUsage { input_tokens: 200, output_tokens: 50 }).unwrap();
    assert_eq!(te.used(&id), 400);
}

#[test]
fn test_tenant_not_found() {
    let mut te = setup_enforcer();
    let id = next_id();
    let result = te.check(&id, 100);
    assert!(matches!(result, Err(EnforcerError::TenantNotFound(_))));
}

#[test]
fn test_reset_usage() {
    let mut te = setup_enforcer();
    let id = next_id();
    te.set_budget(&id, 1000).unwrap();
    te.record(&id, TokenUsage { input_tokens: 100, output_tokens: 100 }).unwrap();
    assert_eq!(te.used(&id), 200);
    te.reset_usage(&id).unwrap();
    assert_eq!(te.used(&id), 0);
}

#[test]
fn test_optimistic_reservation_overspend() {
    let mut te = setup_enforcer();
    let id = next_id();
    te.set_budget(&id, 1000).unwrap();
    let token = te.check_and_reserve(&id, 500).unwrap();
    te.settle(token, TokenUsage { input_tokens: 300, output_tokens: 300 }).unwrap();
    assert_eq!(te.used(&id), 600);
}

#[test]
fn test_optimistic_reservation_refund() {
    let mut te = setup_enforcer();
    let id = next_id();
    te.set_budget(&id, 1000).unwrap();
    let token = te.check_and_reserve(&id, 500).unwrap();
    te.settle(token, TokenUsage { input_tokens: 150, output_tokens: 150 }).unwrap();
    assert_eq!(te.used(&id), 300);
}

#[test]
fn budget_exceeded_reports_usage_limit_and_remaining() {
    let mut te = setup_enforcer();
    te.set_budget("t", 100).unwrap();
    te.record("t", TokenUsage { input_tokens: 50, output_tokens: 40 }).unwrap();
    match te.check("t", 20) {
        Err(EnforcerError::BudgetExceeded { tenant_id, used, limit, remaining }) => {
            assert_eq!(tenant_id, "t");
            assert_eq!(used, 90);
            assert_eq!(limit, 100);
            assert_eq!(remaining, 10);
        }
        _ => panic!("expected BudgetExceeded"),
    }
    // exactly at the limit passes
    assert!(matches!(te.check("t", 10), Ok(Outcome::Done)));
}

#[test]
fn remaining_is_zero_once_the_limit_is_passed() {
    let mut te = setup_enforcer();
    te.set_budget("t", 100).unwrap();
    te.record("t", TokenUsage { input_tokens: 100, output_tokens: 50 }).unwrap();
    match te.status("t") {
        Ok(Outcome::Status(st)) => {
            assert_eq!((st.used, st.limit, st.remaining), (150, 100, 0));
            assert_eq!(st.tenant_id, "t");
        }
        _ => panic!("expected a status"),
    }
    match te.check("t", 0) {
        Err(EnforcerError::BudgetExceeded { remaining, used, .. }) => {
            assert_eq!(remaining, 0);
            assert_eq!(used, 150);
        }
        _ => panic!("expected BudgetExceeded"),
    }
}

#[test]
fn status_of_unknown_tenant_is_not_found() {
    let mut te = setup_enforcer();
    assert!(matches!(te.status("nobody"), Err(EnforcerError::TenantNotFound(t)) if t == "nobody"));
}

#[test]
fn check_near_u64_max_does_not_overflow() {
    let mut te = setup_enforcer();
    te.set_budget("t", u64::MAX).unwrap();
    te.record("t", TokenUsage { input_tokens: 10, output_tokens: 0 }).unwrap();
    assert!(matches!(te.check("t", u64::MAX), Err(EnforcerError::BudgetExceeded { .. })));
    assert!(matches!(te.check("t", u64::MAX - 10), Ok(Outcome::Done)));
}

#[test]
fn refused_reservation_changes_nothing() {
    let mut te = setup_enforcer();
    te.set_budget("t", 100).unwrap();
    assert!(matches!(te.check_and_reserve("t", 101), Err(EnforcerError::BudgetExceeded { .. })));
    assert_eq!(te.used("t"), 0);
    match te.check_and_reserve("t", 100) {
        Ok(Outcome::Reserved(tok)) => {
            assert_eq!(tok.tenant_id, "t");
            assert_eq!(tok.reserved, 100);
        }
        _ => panic!("expected a reservation"),
    }
    assert_eq!(te.used("t"), 100);
}

#[test]
fn exact_settlement_sends_no_command() {
    let reservation = token_enforcer::ReservationToken { tenant_id: "t".to_string(), reserved: 30 };
    let step = Session::begin("te", Operation::Settle {
        reservation,
        actual: TokenUsage { input_tokens: 10, output_tokens: 20 },
    });
    match step {
        Step::Finish(Ok(Outcome::Logged { tenant_id, usage, model })) => {
            assert_eq!(tenant_id, "t");
            assert_eq!(usage, TokenUsage { input_tokens: 10, output_tokens: 20 });
            assert!(model.is_none());
        }
        _ => panic!("expected an immediate finish"),
    }
}

#[test]
fn removed_tenant_is_not_found() {
    let mut te = setup_enforcer();
    te.set_budget("t", 100).unwrap();
    te.record("t", TokenUsage { input_tokens: 5, output_tokens: 5 }).unwrap();
    te.remove_tenant("t").unwrap();
    assert!(matches!(te.check("t", 1), Err(EnforcerError::TenantNotFound(_))));
    assert!(te.store.values.is_empty());
}

#[test]
fn tenants_do_not_share_counters() {
    let mut te = setup_enforcer();
    te.set_budget("a", 100).unwrap();
    te.set_budget("b", 200).unwrap();
    te.record("a", TokenUsage { input_tokens: 60, output_tokens: 0 }).unwrap();
    assert_eq!(te.used("a"), 60);
    assert_eq!(te.used("b"), 0);
    te.remove_tenant("a").unwrap();
    match te.status("b") {
        Ok(Outcome::Status(st)) => assert_eq!(st.limit, 200),
        _ => panic!("expected a status"),
    }
}

#[test]
fn store_keys_follow_the_schema() {
    let mut te = Enforcer { store: MemoryStore::new(), prefix: "te" };
    te.set_budget("tenant_123", 7).unwrap();
    te.record("tenant_123", TokenUsage { input_tokens: 1, output_tokens: 2 }).unwrap();
    assert_eq!(te.store.values.get("te:budget:tenant_123"), Some(&7));
    assert_eq!(te.store.values.get("te:usage:tenant_123"), Some(&3));
}

#[test]
fn refund_never_goes_below_zero() {
    let mut te = setup_enforcer();
    te.set_budget("t", 1000).unwrap();
    let token = te.check_and_reserve("t", 500).unwrap();
    te.reset_usage("t").unwrap();
    te.settle(token, TokenUsage { input_tokens: 100, output_tokens: 0 }).unwrap();
    assert_eq!(te.used("t"), 0);
}

#[test]
fn recording_queues_an_event_with_the_total() {
    let mut te = setup_enforcer();
    te.set_budget("t", 1000).unwrap();
    te.store
        .perform("test_te", Operation::Record {
            tenant_id: "t".to_string(),
            usage: TokenUsage { input_tokens: 312, output_tokens: 189 },
            model: Some("gpt-4o".to_string()),
        })
        .unwrap();
    let ev = &te.store.events[0];
    assert_eq!(ev.tenant_id, "t");
    assert_eq!((ev.input_tokens, ev.output_tokens, ev.total_tokens), (312, 189, 501));
    assert_eq!(ev.model.as_deref(), Some("gpt-4o"));
    assert_eq!(ev.timestamp, 1_700_000_000);
}

#[test]
fn failed_command_ends_the_operation_with_its_error() {
    let mut te = setup_enforcer();
    te.set_budget("t", u64::MAX).unwrap();
    te.record("t", TokenUsage { input_tokens: COUNTER_MAX, output_tokens: 0 }).unwrap();
    let r = te.record("t", TokenUsage { input_tokens: 1, output_tokens: 0 });
    assert!(matches!(r, Err(EnforcerError::RedisCmd(_))));
    assert_eq!(te.used("t"), COUNTER_MAX);
}

#[test]
fn admitted_usage_stays_within_limit() {
    let mut te = setup_enforcer();
    te.set_budget("t", 1000).unwrap();
    te.record("t", TokenUsage { input_tokens: 400, output_tokens: 0 }).unwrap();
    te.check("t", 600).unwrap();
    te.record("t", TokenUsage { input_tokens: 350, output_tokens: 250 }).unwrap();
    match te.status("t") {
        Ok(Outcome::Status(st)) => {
            assert_eq!(st.used, 1000);
            assert!(st.used <= st.limit);
            assert_eq!(st.remaining, 0);
        }
        _ => panic!("expected a status"),
    }
}

#[test]
fn reset_keeps_the_budget() {
    let mut te = setup_enforcer();
    te.set_budget("t", 321).unwrap();
    te.record("t", TokenUsage { input_tokens: 21, output_tokens: 0 }).unwrap();
    te.reset_usage("t").unwrap();
    match te.status("t") {
        Ok(Outcome::Status(st)) => assert_eq!((st.used, st.limit, st.remaining), (0, 321, 321)),
        _ => panic!("expected a status"),
    }
}

#[test]
fn set_budget_then_status_reads_it_back() {
    let mut te = setup_enforcer();
    te.record("t", TokenUsage { input_tokens: 7, output_tokens: 0 }).unwrap();
    te.set_budget("t", 50).unwrap();
    match te.status("t") {
        Ok(Outcome::Status(st)) => assert_eq!((st.used, st.limit, st.remaining), (7, 50, 43)),
        _ => panic!("expected a status"),
    }
    te.set_budget("t", 5).unwrap();
    assert!(matches!(te.check("t", 0), Err(EnforcerError::BudgetExceeded { .. })));
}

#[test]
fn failed_settlement_queues_no_event() {
    let mut te = setup_enforcer();
    te.set_budget("t", u64::MAX).unwrap();
    let token = te.check_and_reserve("t", 10).unwrap();
    te.record("t", TokenUsage { input_tokens: COUNTER_MAX - 10, output_tokens: 0 }).unwrap();
    let before = te.store.events.len();
    let r = te.settle(token, TokenUsage { input_tokens: 11, output_tokens: 0 });
    assert!(matches!(r, Err(EnforcerError::RedisCmd(_))));
    assert_eq!(te.store.events.len(), before);
    assert_eq!(te.used("t"), COUNTER_MAX);
}

#[test]
fn failed_read_reserves_nothing() {
    let token = Operation::CheckAndReserve { tenant_id: "t".to_string(), estimated: 5 };
    let step = Session::begin("te", token);
    let session = match step {
        Step::Issue(session, Command::Get { .. }) => session,
        _ => panic!("expected a read of the budget"),
    };
    let failure = StoreFailure::Command(RedisError::from((ErrorKind::IoError, "connection lost")));
    match session.resume(Reply::Failed(failure)) {
        Step::Finish(Err(EnforcerError::RedisCmd(_))) => {}
        _ => panic!("expected the command error"),
    }
}
