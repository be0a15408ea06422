use vstd::prelude::*;

use crate::error::EnforcerError;
use crate::keys::{budget_key, budget_key_of, lemma_keys_separate, usage_key, usage_key_of};
use crate::models::{remaining_of, BudgetStatus, TokenUsage, UsageEvent};
use crate::store::{
    apply, counter, counter_max, decremented, incremented, stored, Command, Reply, StoreFailure,
    StoreState,
};

verus! {

/// A token for a pre-reserved token amount.
#[derive(Debug, Clone)]
pub struct ReservationToken {
    /// The tenant for which the reservation was made.
    pub tenant_id: String,
    /// The number of tokens that were reserved.
    pub reserved: u64,
}

/// An operation of the enforcer on one tenant.
#[derive(Debug)]
pub enum Operation {
    /// Sets or updates the token budget of a tenant.
    SetBudget { tenant_id: String, limit: u64 },
    /// Checks that a tenant has enough budget left for an estimated number of tokens.
    Check { tenant_id: String, estimated: u64 },
    /// Checks as `Check` does, then counts the estimate as used.
    CheckAndReserve { tenant_id: String, estimated: u64 },
    /// Counts the tokens of a finished call as used.
    Record { tenant_id: String, usage: TokenUsage, model: Option<String> },
    /// Replaces a reservation by the tokens that the call actually used.
    Settle { reservation: ReservationToken, actual: TokenUsage },
    /// Reads the budget state of a tenant.
    Status { tenant_id: String },
    /// Resets the usage of a tenant to zero, keeping its budget.
    ResetUsage { tenant_id: String },
    /// Removes the budget and the usage of a tenant.
    RemoveTenant { tenant_id: String },
}

impl Operation {
    /// The tenant that the operation is about.
    pub open spec fn tenant(self) -> String {
        match self {
            Operation::SetBudget { tenant_id, .. } => tenant_id,
            Operation::Check { tenant_id, .. } => tenant_id,
            Operation::CheckAndReserve { tenant_id, .. } => tenant_id,
            Operation::Record { tenant_id, .. } => tenant_id,
            Operation::Settle { reservation, .. } => reservation.tenant_id,
            Operation::Status { tenant_id } => tenant_id,
            Operation::ResetUsage { tenant_id } => tenant_id,
            Operation::RemoveTenant { tenant_id } => tenant_id,
        }
    }

    /// The token totals that the operation adds up fit in a `u64`.
    pub open spec fn well_formed(self) -> bool {
        match self {
            Operation::Record { usage, .. } => usage.total_fits(),
            Operation::Settle { actual, .. } => actual.total_fits(),
            _ => true,
        }
    }

    /// The tenant that the operation is about.
    pub fn tenant_id(&self) -> (t: &String)
        ensures
            *t == self.tenant(),
    {
        match self {
            Operation::SetBudget { tenant_id, .. } => tenant_id,
            Operation::Check { tenant_id, .. } => tenant_id,
            Operation::CheckAndReserve { tenant_id, .. } => tenant_id,
            Operation::Record { tenant_id, .. } => tenant_id,
            Operation::Settle { reservation, .. } => &reservation.tenant_id,
            Operation::Status { tenant_id } => tenant_id,
            Operation::ResetUsage { tenant_id } => tenant_id,
            Operation::RemoveTenant { tenant_id } => tenant_id,
        }
    }

    fn into_tenant(self) -> (t: String)
        ensures
            t == self.tenant(),
    {
        match self {
            Operation::SetBudget { tenant_id, .. } => tenant_id,
            Operation::Check { tenant_id, .. } => tenant_id,
            Operation::CheckAndReserve { tenant_id, .. } => tenant_id,
            Operation::Record { tenant_id, .. } => tenant_id,
            Operation::Settle { reservation, .. } => reservation.tenant_id,
            Operation::Status { tenant_id } => tenant_id,
            Operation::ResetUsage { tenant_id } => tenant_id,
            Operation::RemoveTenant { tenant_id } => tenant_id,
        }
    }
}

/// What a finished operation hands back.
#[derive(Debug)]
pub enum Outcome {
    /// The operation succeeded and has nothing to hand back.
    Done,
    /// The tokens are reserved.
    Reserved(ReservationToken),
    /// The budget state of the tenant.
    Status(BudgetStatus),
    /// The usage was counted; an event for it is to be queued for the flush sink.
    Logged { tenant_id: String, usage: TokenUsage, model: Option<String> },
}

/// The outcome of an operation whose commands all went through.
pub open spec fn completion(op: Operation) -> Outcome {
    match op {
        Operation::CheckAndReserve { tenant_id, estimated } => Outcome::Reserved(
            ReservationToken { tenant_id, reserved: estimated },
        ),
        Operation::Record { tenant_id, usage, model } => Outcome::Logged { tenant_id, usage, model },
        Operation::Settle { reservation, actual } => Outcome::Logged {
            tenant_id: reservation.tenant_id,
            usage: actual,
            model: None,
        },
        _ => Outcome::Done,
    }
}

fn complete(op: Operation) -> (out: Outcome)
    ensures
        out == completion(op),
{
    match op {
        Operation::CheckAndReserve { tenant_id, estimated } => Outcome::Reserved(
            ReservationToken { tenant_id, reserved: estimated },
        ),
        Operation::Record { tenant_id, usage, model } => Outcome::Logged { tenant_id, usage, model },
        Operation::Settle { reservation, actual } => Outcome::Logged {
            tenant_id: reservation.tenant_id,
            usage: actual,
            model: None,
        },
        _ => Outcome::Done,
    }
}

impl Outcome {
    /// The usage that a `Logged` outcome counted has a total that fits in a `u64`.
    pub open spec fn usage_fits(self) -> bool {
        match self {
            Outcome::Logged { usage, .. } => usage.total_fits(),
            _ => true,
        }
    }
}

/// The result that an operation ended with, with the usage it counted fitting in a `u64`.
pub open spec fn result_fits(r: Result<Outcome, EnforcerError>) -> bool {
    match r {
        Ok(out) => out.usage_fits(),
        Err(_) => true,
    }
}

/// The queue of pending usage events after an operation ended with `result` at `timestamp`:
/// one event more where the operation counted usage, the same queue otherwise.
pub open spec fn queued_after(
    queue: Seq<UsageEvent>,
    result: Result<Outcome, EnforcerError>,
    timestamp: u64,
) -> Seq<UsageEvent> {
    match result {
        Ok(Outcome::Logged { tenant_id, usage, model }) => queue.push(
            UsageEvent::spec_of(tenant_id, usage, model, timestamp),
        ),
        _ => queue,
    }
}

fn copy_model(model: &Option<String>) -> (m: Option<String>)
    ensures
        m == *model,
{
    match model {
        Some(name) => Some(name.clone()),
        None => None,
    }
}

/// Queues the usage event of an operation that ended with `result`: exactly one event,
/// stamped with `timestamp`, where the operation counted usage (a record or a settlement
/// that went through), and none where it failed or counted nothing.
pub fn queue_usage_event(queue: &mut Vec<UsageEvent>, result: &Result<Outcome, EnforcerError>, timestamp: u64)
    requires
        result_fits(*result),
    ensures
        final(queue)@ == queued_after(old(queue)@, *result, timestamp),
        match *result {
            Ok(Outcome::Logged { tenant_id, usage, model }) => {
                &&& final(queue)@.len() == old(queue)@.len() + 1
                &&& final(queue)@.subrange(0, old(queue)@.len() as int) == old(queue)@
                &&& final(queue)@.last() == (UsageEvent {
                    tenant_id,
                    input_tokens: usage.input_tokens,
                    output_tokens: usage.output_tokens,
                    total_tokens: (usage.input_tokens + usage.output_tokens) as u64,
                    timestamp,
                    model,
                })
            },
            _ => final(queue)@ == old(queue)@,
        },
{
    if let Ok(Outcome::Logged { tenant_id, usage, model }) = result {
        let event = UsageEvent::of(tenant_id.clone(), usage, copy_model(model), timestamp);
        queue.push(event);
    }
}

/// The answer to a budget check of `estimated` tokens for a tenant whose limit is `limit`
/// (`None` where no budget is set) and whose usage is `used`.
pub open spec fn admission(tenant_id: String, limit: Option<u64>, used: u64, estimated: u64) -> Result<(), EnforcerError> {
    match limit {
        None => Err(EnforcerError::TenantNotFound(tenant_id)),
        Some(limit) => if used + estimated > limit {
            Err(EnforcerError::BudgetExceeded {
                tenant_id,
                used,
                limit,
                remaining: remaining_of(limit, used),
            })
        } else {
            Ok(())
        },
    }
}

/// Whether `used + estimated` passes `limit`, computed without overflow.
pub fn exceeds(limit: u64, used: u64, estimated: u64) -> (r: bool)
    ensures
        r == (used + estimated > limit),
{
    used > limit || estimated > limit - used
}

/// The error for a tenant whose check of some estimate found the budget exceeded.
pub fn budget_exceeded(tenant_id: String, limit: u64, used: u64) -> (e: EnforcerError)
    ensures
        e == (EnforcerError::BudgetExceeded {
            tenant_id,
            used,
            limit,
            remaining: remaining_of(limit, used),
        }),
        e matches EnforcerError::BudgetExceeded { tenant_id: t, used: u, limit: l, remaining: r }
            && t == tenant_id && u == used && l == limit && (used >= limit ==> r == 0) && (used
            < limit ==> r == limit - used),
{
    EnforcerError::BudgetExceeded { tenant_id, used, limit, remaining: limit.saturating_sub(used) }
}

/// The budget check of `estimated` tokens for a tenant whose limit is `limit` (`None` where
/// no budget is set) and whose usage is `used`.
pub fn check_budget(tenant_id: String, limit: Option<u64>, used: u64, estimated: u64) -> (r: Result<(), EnforcerError>)
    ensures
        r == admission(tenant_id, limit, used, estimated),
{
    match limit {
        None => Err(EnforcerError::TenantNotFound(tenant_id)),
        Some(limit) => if exceeds(limit, used, estimated) {
            Err(budget_exceeded(tenant_id, limit, used))
        } else {
            Ok(())
        },
    }
}

/// How a reservation's counter is corrected once the actual usage is known.
#[derive(Debug, Clone, Copy, PartialEq, Eq, Structural)]
pub enum Adjustment {
    /// The reservation was exact: nothing to change.
    Keep,
    /// The call used this many tokens more than reserved.
    Raise(u64),
    /// The call used this many tokens fewer than reserved.
    Refund(u64),
}

/// The correction of a reservation of `reserved` tokens by a call that used `actual` tokens.
pub open spec fn adjustment_of(reserved: u64, actual: int) -> Adjustment {
    if actual > reserved {
        Adjustment::Raise((actual - reserved) as u64)
    } else if actual == reserved {
        Adjustment::Keep
    } else {
        Adjustment::Refund((reserved - actual) as u64)
    }
}

/// Computes the correction of a reservation of `reserved` tokens by a call that used
/// `actual` tokens.
pub fn settle_adjustment(reserved: u64, actual: u64) -> (a: Adjustment)
    ensures
        a == adjustment_of(reserved, actual as int),
{
    if actual >= reserved {
        let extra = actual - reserved;
        if extra > 0 {
            Adjustment::Raise(extra)
        } else {
            Adjustment::Keep
        }
    } else {
        Adjustment::Refund(reserved - actual)
    }
}

/// The error that a failed command ends an operation with.
pub open spec fn failure_error(f: StoreFailure) -> EnforcerError {
    match f {
        StoreFailure::Pool(e) => EnforcerError::Redis(e),
        StoreFailure::Command(e) => EnforcerError::RedisCmd(e),
    }
}

enum Stage {
    AwaitBudget,
    AwaitUsage { limit: u64 },
    AwaitCount,
    AwaitWrite,
}

/// An operation under way: which command it waits on the answer to, and what comes next.
pub struct Session {
    op: Operation,
    budget_key: String,
    usage_key: String,
    stage: Stage,
}

/// What an operation asks for next.
pub enum Step {
    /// Send this command to the store, then hand the answer to the session.
    Issue(Session, Command),
    /// The operation is over, with this result.
    Finish(Result<Outcome, EnforcerError>),
}

impl Step {
    /// A finished step counted only usage whose total fits in a `u64`.
    pub open spec fn fits(self) -> bool {
        match self {
            Step::Finish(r) => result_fits(r),
            Step::Issue(..) => true,
        }
    }
}

impl Session {
    /// The stage of the session fits its operation.
    #[verifier::type_invariant]
    closed spec fn wf(self) -> bool {
        &&& self.op.well_formed()
        &&& match self.stage {
            Stage::AwaitBudget | Stage::AwaitUsage { .. } => {
                ||| self.op is Check
                ||| self.op is CheckAndReserve
                ||| self.op is Status
            },
            Stage::AwaitCount => {
                ||| self.op is CheckAndReserve
                ||| self.op is Record
                ||| self.op is Settle
            },
            Stage::AwaitWrite => {
                ||| self.op is SetBudget
                ||| self.op is ResetUsage
                ||| self.op is RemoveTenant
            },
        }
    }

    /// The answer `reply` has the form that the command the session waits on is answered with.
    pub closed spec fn accepts(self, reply: Reply) -> bool {
        match reply {
            Reply::Failed(_) => true,
            Reply::Value(_) => self.stage is AwaitBudget || self.stage is AwaitUsage,
            Reply::Count(_) => self.stage is AwaitCount,
            Reply::Written => self.stage is AwaitWrite,
        }
    }

    /// The first step of `op`, whose budget key is `bk` and whose usage key is `uk`.
    pub closed spec fn opening(op: Operation, bk: String, uk: String) -> Step {
        let at = |stage: Stage| Session { op, budget_key: bk, usage_key: uk, stage };
        match op {
            Operation::SetBudget { limit, .. } => Step::Issue(
                at(Stage::AwaitWrite),
                Command::Put { key: bk, value: limit },
            ),
            Operation::Check { .. } => Step::Issue(at(Stage::AwaitBudget), Command::Get { key: bk }),
            Operation::CheckAndReserve { .. } => Step::Issue(
                at(Stage::AwaitBudget),
                Command::Get { key: bk },
            ),
            Operation::Status { .. } => Step::Issue(at(Stage::AwaitBudget), Command::Get { key: bk }),
            Operation::Record { usage, .. } => Step::Issue(
                at(Stage::AwaitCount),
                Command::IncrBy { key: uk, delta: usage.spec_total() as u64 },
            ),
            Operation::Settle { reservation, actual } => match adjustment_of(
                reservation.reserved,
                actual.spec_total(),
            ) {
                Adjustment::Keep => Step::Finish(Ok(completion(op))),
                Adjustment::Raise(d) => Step::Issue(
                    at(Stage::AwaitCount),
                    Command::IncrBy { key: uk, delta: d },
                ),
                Adjustment::Refund(d) => Step::Issue(
                    at(Stage::AwaitCount),
                    Command::DecrFloor { key: uk, delta: d },
                ),
            },
            Operation::ResetUsage { .. } => Step::Issue(
                at(Stage::AwaitWrite),
                Command::Put { key: uk, value: 0 },
            ),
            Operation::RemoveTenant { .. } => Step::Issue(
                at(Stage::AwaitWrite),
                Command::Delete { first: bk, second: uk },
            ),
        }
    }

    /// `step` is the first step of `op` with the keys of its tenant under `prefix`.
    pub open spec fn opens(prefix: Seq<char>, op: Operation, step: Step) -> bool {
        exists|bk: String, uk: String|
            #![trigger Session::opening(op, bk, uk)]
            bk@ == budget_key_of(prefix, op.tenant()@) && uk@ == usage_key_of(prefix, op.tenant()@)
                && step == Session::opening(op, bk, uk)
    }

    /// The step that follows the answer `reply`.
    pub closed spec fn after(self, reply: Reply) -> Step {
        match reply {
            Reply::Failed(f) => Step::Finish(Err(failure_error(f))),
            Reply::Count(_) => Step::Finish(Ok(completion(self.op))),
            Reply::Written => Step::Finish(Ok(Outcome::Done)),
            Reply::Value(v) => match self.stage {
                Stage::AwaitBudget => match v {
                    None => Step::Finish(Err(EnforcerError::TenantNotFound(self.op.tenant()))),
                    Some(limit) => Step::Issue(
                        Session { stage: Stage::AwaitUsage { limit }, ..self },
                        Command::Get { key: self.usage_key },
                    ),
                },
                Stage::AwaitUsage { limit } => {
                    let used = match v {
                        Some(u) => u,
                        None => 0,
                    };
                    match self.op {
                        Operation::Status { tenant_id } => Step::Finish(
                            Ok(Outcome::Status(BudgetStatus::spec_of(tenant_id, limit, used))),
                        ),
                        Operation::Check { tenant_id, estimated } => match admission(
                            tenant_id,
                            Some(limit),
                            used,
                            estimated,
                        ) {
                            Ok(_) => Step::Finish(Ok(Outcome::Done)),
                            Err(e) => Step::Finish(Err(e)),
                        },
                        Operation::CheckAndReserve { tenant_id, estimated } => match admission(
                            tenant_id,
                            Some(limit),
                            used,
                            estimated,
                        ) {
                            Ok(_) => Step::Issue(
                                Session { stage: Stage::AwaitCount, ..self },
                                Command::IncrBy { key: self.usage_key, delta: estimated },
                            ),
                            Err(e) => Step::Finish(Err(e)),
                        },
                        _ => Step::Finish(Ok(Outcome::Done)),
                    }
                },
                _ => Step::Finish(Ok(Outcome::Done)),
            },
        }
    }

    /// Starts `op` on the keys of its tenant under `prefix`.
    pub fn begin(prefix: &str, op: Operation) -> (step: Step)
        requires
            op.well_formed(),
        ensures
            Session::opens(prefix@, op, step),
            step.fits(),
    {
        let bk = budget_key(prefix, op.tenant_id().as_str());
        let uk = usage_key(prefix, op.tenant_id().as_str());
        let ghost spec_bk = bk;
        let ghost spec_uk = uk;
        let ghost spec_op = op;
        let step = match &op {
            Operation::SetBudget { limit, .. } => {
                let value = *limit;
                let key = bk.clone();
                Step::Issue(
                    Session { op, budget_key: bk, usage_key: uk, stage: Stage::AwaitWrite },
                    Command::Put { key, value },
                )
            },
            Operation::Check { .. } | Operation::CheckAndReserve { .. } | Operation::Status { .. } => {
                let key = bk.clone();
                Step::Issue(
                    Session { op, budget_key: bk, usage_key: uk, stage: Stage::AwaitBudget },
                    Command::Get { key },
                )
            },
            Operation::Record { usage, .. } => {
                let delta = usage.total();
                let key = uk.clone();
                Step::Issue(
                    Session { op, budget_key: bk, usage_key: uk, stage: Stage::AwaitCount },
                    Command::IncrBy { key, delta },
                )
            },
            Operation::Settle { reservation, actual } => {
                match settle_adjustment(reservation.reserved, actual.total()) {
                    Adjustment::Keep => Step::Finish(Ok(complete(op))),
                    Adjustment::Raise(delta) => {
                        let key = uk.clone();
                        Step::Issue(
                            Session { op, budget_key: bk, usage_key: uk, stage: Stage::AwaitCount },
                            Command::IncrBy { key, delta },
                        )
                    },
                    Adjustment::Refund(delta) => {
                        let key = uk.clone();
                        Step::Issue(
                            Session { op, budget_key: bk, usage_key: uk, stage: Stage::AwaitCount },
                            Command::DecrFloor { key, delta },
                        )
                    },
                }
            },
            Operation::ResetUsage { .. } => {
                let key = uk.clone();
                Step::Issue(
                    Session { op, budget_key: bk, usage_key: uk, stage: Stage::AwaitWrite },
                    Command::Put { key, value: 0 },
                )
            },
            Operation::RemoveTenant { .. } => {
                let first = bk.clone();
                let second = uk.clone();
                Step::Issue(
                    Session { op, budget_key: bk, usage_key: uk, stage: Stage::AwaitWrite },
                    Command::Delete { first, second },
                )
            },
        };
        assert(step == Session::opening(spec_op, spec_bk, spec_uk));
        step
    }

    /// Whether `reply` has the form that the command the session waits on is answered with.
    pub fn accepts_reply(&self, reply: &Reply) -> (r: bool)
        ensures
            r == self.accepts(*reply),
    {
        match reply {
            Reply::Failed(_) => true,
            Reply::Value(_) => match self.stage {
                Stage::AwaitBudget | Stage::AwaitUsage { .. } => true,
                _ => false,
            },
            Reply::Count(_) => match self.stage {
                Stage::AwaitCount => true,
                _ => false,
            },
            Reply::Written => match self.stage {
                Stage::AwaitWrite => true,
                _ => false,
            },
        }
    }

    /// Hands the store's answer to the session and returns what comes next.
    pub fn resume(self, reply: Reply) -> (step: Step)
        requires
            reply is Failed || self.accepts(reply),
        ensures
            step == self.after(reply),
            reply matches Reply::Failed(f) ==> step == Step::Finish(
                Err::<Outcome, EnforcerError>(failure_error(f)),
            ),
            step.fits(),
    {
        proof {
            use_type_invariant(&self);
        }
        match reply {
            Reply::Failed(f) => Step::Finish(
                Err(
                    match f {
                        StoreFailure::Pool(e) => EnforcerError::Redis(e),
                        StoreFailure::Command(e) => EnforcerError::RedisCmd(e),
                    },
                ),
            ),
            Reply::Count(_) => Step::Finish(Ok(complete(self.op))),
            Reply::Written => Step::Finish(Ok(Outcome::Done)),
            Reply::Value(v) => match self.stage {
                Stage::AwaitBudget => match v {
                    None => Step::Finish(Err(EnforcerError::TenantNotFound(self.op.into_tenant()))),
                    Some(limit) => {
                        let key = self.usage_key.clone();
                        Step::Issue(
                            Session {
                                op: self.op,
                                budget_key: self.budget_key,
                                usage_key: self.usage_key,
                                stage: Stage::AwaitUsage { limit },
                            },
                            Command::Get { key },
                        )
                    },
                },
                Stage::AwaitUsage { limit } => {
                    let used = match v {
                        Some(u) => u,
                        None => 0,
                    };
                    match self.op {
                        Operation::Status { tenant_id } => Step::Finish(
                            Ok(Outcome::Status(BudgetStatus::of(tenant_id, limit, used))),
                        ),
                        Operation::Check { tenant_id, estimated } => {
                            match check_budget(tenant_id, Some(limit), used, estimated) {
                                Ok(()) => Step::Finish(Ok(Outcome::Done)),
                                Err(e) => Step::Finish(Err(e)),
                            }
                        },
                        Operation::CheckAndReserve { tenant_id, estimated } => {
                            match check_budget(tenant_id.clone(), Some(limit), used, estimated) {
                                Err(e) => Step::Finish(Err(e)),
                                Ok(()) => {
                                    let key = self.usage_key.clone();
                                    Step::Issue(
                                        Session {
                                            op: Operation::CheckAndReserve { tenant_id, estimated },
                                            budget_key: self.budget_key,
                                            usage_key: self.usage_key,
                                            stage: Stage::AwaitCount,
                                        },
                                        Command::IncrBy { key, delta: estimated },
                                    )
                                },
                            }
                        },
                        _ => Step::Finish(Ok(Outcome::Done)),
                    }
                },
                _ => Step::Finish(Ok(Outcome::Done)),
            },
        }
    }
}

/// What `op` does to a store whose contents are `store`, where `bk` and `uk` are the
/// budget and usage keys of its tenant: the result and the store afterwards, or `None`
/// where the store refuses a command.
pub open spec fn run(op: Operation, bk: Seq<char>, uk: Seq<char>, store: StoreState) -> Option<
    (Result<Outcome, EnforcerError>, StoreState),
> {
    match op {
        Operation::SetBudget { limit, .. } => Some((Ok(Outcome::Done), store.insert(bk, limit))),
        Operation::Check { tenant_id, estimated } => Some(
            (
                match admission(tenant_id, stored(store, bk), counter(store, uk), estimated) {
                    Ok(_) => Ok(Outcome::Done),
                    Err(e) => Err(e),
                },
                store,
            ),
        ),
        Operation::CheckAndReserve { tenant_id, estimated } => match admission(
            tenant_id,
            stored(store, bk),
            counter(store, uk),
            estimated,
        ) {
            Err(e) => Some((Err(e), store)),
            Ok(_) => match incremented(store, uk, estimated) {
                Some(next) => Some((Ok(completion(op)), next)),
                None => None,
            },
        },
        Operation::Record { usage, .. } => match incremented(store, uk, usage.spec_total() as u64) {
            Some(next) => Some((Ok(completion(op)), next)),
            None => None,
        },
        Operation::Settle { reservation, actual } => match adjustment_of(
            reservation.reserved,
            actual.spec_total(),
        ) {
            Adjustment::Keep => Some((Ok(completion(op)), store)),
            Adjustment::Raise(d) => match incremented(store, uk, d) {
                Some(next) => Some((Ok(completion(op)), next)),
                None => None,
            },
            Adjustment::Refund(d) => Some((Ok(completion(op)), decremented(store, uk, d))),
        },
        Operation::Status { tenant_id } => Some(
            (
                match stored(store, bk) {
                    None => Err(EnforcerError::TenantNotFound(tenant_id)),
                    Some(limit) => Ok(
                        Outcome::Status(BudgetStatus::spec_of(tenant_id, limit, counter(store, uk))),
                    ),
                },
                store,
            ),
        ),
        Operation::ResetUsage { .. } => Some((Ok(Outcome::Done), store.insert(uk, 0))),
        Operation::RemoveTenant { .. } => Some((Ok(Outcome::Done), store.remove(bk).remove(uk))),
    }
}

/// Carries out `step` against a store whose contents are `store`, for at most `fuel`
/// commands: the result and the store afterwards, or `None` where a command is refused,
/// an answer does not fit the command, or the fuel runs out.
pub open spec fn drive(step: Step, store: StoreState, fuel: nat) -> Option<
    (Result<Outcome, EnforcerError>, StoreState),
>
    decreases fuel,
{
    match step {
        Step::Finish(r) => Some((r, store)),
        Step::Issue(session, cmd) => if fuel == 0 {
            None
        } else {
            match apply(store, cmd) {
                None => None,
                Some((next, reply)) => if session.accepts(reply) {
                    drive(session.after(reply), next, (fuel - 1) as nat)
                } else {
                    None
                },
            }
        },
    }
}

/// Driving a session to its end against a store does what the operation is defined to do:
/// every operation sends at most three commands, and the result and the store afterwards
/// are those of `run` on the keys of the operation's tenant.
pub proof fn lemma_session_runs_operation(prefix: Seq<char>, op: Operation, step: Step, store: StoreState)
    requires
        op.well_formed(),
        Session::opens(prefix, op, step),
    ensures
        drive(step, store, 3) == run(
            op,
            budget_key_of(prefix, op.tenant()@),
            usage_key_of(prefix, op.tenant()@),
            store,
        ),
{
    let (bk, uk) = choose|bk: String, uk: String|
        #![trigger Session::opening(op, bk, uk)]
        bk@ == budget_key_of(prefix, op.tenant()@) && uk@ == usage_key_of(prefix, op.tenant()@)
            && step == Session::opening(op, bk, uk);
    reveal_with_fuel(drive, 4);
}

/// What `op` does to a store whose contents are `store`, with the keys of its tenant under
/// `prefix`.
pub open spec fn perform(prefix: Seq<char>, op: Operation, store: StoreState) -> Option<
    (Result<Outcome, EnforcerError>, StoreState),
> {
    run(op, budget_key_of(prefix, op.tenant()@), usage_key_of(prefix, op.tenant()@), store)
}

/// A budget that was set is what later reads see: after `SetBudget`, a status read reports
/// the new limit beside the usage that was there, and a check of `estimated` tokens passes
/// exactly when that usage plus `estimated` stays within the new limit.
pub proof fn law_budget_read_back(prefix: Seq<char>, tenant_id: String, limit: u64, estimated: u64, store: StoreState)
    ensures
        ({
            let bk = budget_key_of(prefix, tenant_id@);
            let uk = usage_key_of(prefix, tenant_id@);
            let after_set = store.insert(bk, limit);
            let used = counter(store, uk);
            &&& perform(prefix, Operation::SetBudget { tenant_id, limit }, store) == Some(
                (Ok::<Outcome, EnforcerError>(Outcome::Done), after_set),
            )
            &&& perform(prefix, Operation::Status { tenant_id }, after_set) == Some(
                (
                    Ok::<Outcome, EnforcerError>(
                        Outcome::Status(BudgetStatus::spec_of(tenant_id, limit, used)),
                    ),
                    after_set,
                ),
            )
            &&& (perform(prefix, Operation::Check { tenant_id, estimated }, after_set) == Some(
                (Ok::<Outcome, EnforcerError>(Outcome::Done), after_set),
            )) == (used + estimated <= limit)
        }),
{
    lemma_keys_separate(prefix, tenant_id@, tenant_id@);
}

/// The answer to a check, and that a check changes nothing: without a budget the tenant is
/// not found; with one, the check fails with the usage, the limit and what remains exactly
/// when the usage plus the estimate passes the limit.
pub proof fn law_check_answer(prefix: Seq<char>, tenant_id: String, estimated: u64, store: StoreState)
    ensures
        ({
            let bk = budget_key_of(prefix, tenant_id@);
            let used = counter(store, usage_key_of(prefix, tenant_id@));
            perform(prefix, Operation::Check { tenant_id, estimated }, store) == Some(
                (
                    match stored(store, bk) {
                        None => Err(EnforcerError::TenantNotFound(tenant_id)),
                        Some(limit) => if used + estimated > limit {
                            Err(
                                EnforcerError::BudgetExceeded {
                                    tenant_id,
                                    used,
                                    limit,
                                    remaining: remaining_of(limit, used),
                                },
                            )
                        } else {
                            Ok(Outcome::Done)
                        },
                    },
                    store,
                ),
            )
        }),
{
}

/// A status read changes nothing and reports the limit, the usage (0 where none was
/// counted) and what remains; without a budget the tenant is not found.
pub proof fn law_status_answer(prefix: Seq<char>, tenant_id: String, store: StoreState)
    ensures
        ({
            let bk = budget_key_of(prefix, tenant_id@);
            let used = counter(store, usage_key_of(prefix, tenant_id@));
            perform(prefix, Operation::Status { tenant_id }, store) == Some(
                (
                    match stored(store, bk) {
                        None => Err(EnforcerError::TenantNotFound(tenant_id)),
                        Some(limit) => Ok(
                            Outcome::Status(
                                BudgetStatus { tenant_id, used, limit, remaining: remaining_of(limit, used) },
                            ),
                        ),
                    },
                    store,
                ),
            )
        }),
{
}

/// Recording adds the call's total to the tenant's usage and leaves its budget as it was;
/// it goes through exactly when the counter stays within what the store can hold.
pub proof fn law_record_adds_usage(
    prefix: Seq<char>,
    tenant_id: String,
    usage: TokenUsage,
    model: Option<String>,
    store: StoreState,
)
    requires
        usage.total_fits(),
    ensures
        ({
            let bk = budget_key_of(prefix, tenant_id@);
            let uk = usage_key_of(prefix, tenant_id@);
            let r = perform(prefix, Operation::Record { tenant_id, usage, model }, store);
            &&& r is Some <==> counter(store, uk) + usage.spec_total() <= counter_max()
            &&& r matches Some((out, next)) ==> {
                &&& out == Ok::<Outcome, EnforcerError>(Outcome::Logged { tenant_id, usage, model })
                &&& counter(next, uk) == counter(store, uk) + usage.spec_total()
                &&& stored(next, bk) == stored(store, bk)
            }
        }),
{
    lemma_keys_separate(prefix, tenant_id@, tenant_id@);
}

/// Resetting sets the tenant's usage to 0 and leaves its budget as it was.
pub proof fn law_reset_keeps_budget(prefix: Seq<char>, tenant_id: String, store: StoreState)
    ensures
        ({
            let bk = budget_key_of(prefix, tenant_id@);
            let uk = usage_key_of(prefix, tenant_id@);
            perform(prefix, Operation::ResetUsage { tenant_id }, store) matches Some((out, next))
                && out == Ok::<Outcome, EnforcerError>(Outcome::Done) && counter(next, uk) == 0
                && stored(next, uk) == Some(0u64) && stored(next, bk) == stored(store, bk)
        }),
{
    lemma_keys_separate(prefix, tenant_id@, tenant_id@);
}

/// Once a tenant is removed, checks and status reads find no tenant, and its usage reads
/// as 0.
pub proof fn law_removed_tenant_not_found(prefix: Seq<char>, tenant_id: String, estimated: u64, store: StoreState)
    ensures
        ({
            let bk = budget_key_of(prefix, tenant_id@);
            let uk = usage_key_of(prefix, tenant_id@);
            let gone = store.remove(bk).remove(uk);
            &&& perform(prefix, Operation::RemoveTenant { tenant_id }, store) == Some(
                (Ok::<Outcome, EnforcerError>(Outcome::Done), gone),
            )
            &&& perform(prefix, Operation::Check { tenant_id, estimated }, gone) == Some(
                (Err::<Outcome, EnforcerError>(EnforcerError::TenantNotFound(tenant_id)), gone),
            )
            &&& perform(prefix, Operation::Status { tenant_id }, gone) == Some(
                (Err::<Outcome, EnforcerError>(EnforcerError::TenantNotFound(tenant_id)), gone),
            )
            &&& counter(gone, uk) == 0
        }),
{
}

/// A reservation is made exactly when the same check passes: a refused one answers as the
/// check does and changes nothing; a granted one names the tenant and the estimate and
/// adds the estimate to the usage.
pub proof fn law_reserve_follows_check(prefix: Seq<char>, tenant_id: String, estimated: u64, store: StoreState)
    ensures
        ({
            let uk = usage_key_of(prefix, tenant_id@);
            let checked = perform(prefix, Operation::Check { tenant_id, estimated }, store);
            let r = perform(prefix, Operation::CheckAndReserve { tenant_id, estimated }, store);
            &&& checked matches Some((Err(e), _)) ==> r == Some((Err::<Outcome, EnforcerError>(e), store))
            &&& checked matches Some((Ok(_), _)) ==> (r is Some <==> counter(store, uk) + estimated <= counter_max())
            &&& r matches Some((Ok(out), next)) ==> {
                &&& checked == Some((Ok::<Outcome, EnforcerError>(Outcome::Done), store))
                &&& out == Outcome::Reserved(ReservationToken { tenant_id, reserved: estimated })
                &&& counter(next, uk) == counter(store, uk) + estimated
                &&& stored(next, budget_key_of(prefix, tenant_id@)) == stored(store, budget_key_of(prefix, tenant_id@))
            }
        }),
{
    lemma_keys_separate(prefix, tenant_id@, tenant_id@);
}

/// Reserving an estimate and then settling the reservation with the actual usage leaves
/// the tenant's usage as if the actual usage alone had been recorded, and the budget as it
/// was; the settlement goes through whenever the usage stays within what the store can hold.
pub proof fn law_reserve_then_settle(
    prefix: Seq<char>,
    tenant_id: String,
    estimated: u64,
    actual: TokenUsage,
    store: StoreState,
)
    requires
        actual.total_fits(),
    ensures
        ({
            let bk = budget_key_of(prefix, tenant_id@);
            let uk = usage_key_of(prefix, tenant_id@);
            perform(prefix, Operation::CheckAndReserve { tenant_id, estimated }, store) matches Some((Ok(Outcome::Reserved(token)), reserved)) ==> {
                let settled = perform(prefix, Operation::Settle { reservation: token, actual }, reserved);
                &&& settled is Some <==> counter(store, uk) + actual.spec_total() <= counter_max()
                &&& settled matches Some((out, next)) ==> {
                    &&& out == Ok::<Outcome, EnforcerError>(
                        Outcome::Logged { tenant_id, usage: actual, model: None },
                    )
                    &&& counter(next, uk) == counter(store, uk) + actual.spec_total()
                    &&& stored(next, bk) == stored(store, bk)
                }
            }
        }),
{
    lemma_keys_separate(prefix, tenant_id@, tenant_id@);
}

/// Operations on one tenant leave the budget and the usage of every other tenant under the
/// same prefix as they were.
pub proof fn law_tenants_isolated(prefix: Seq<char>, op: Operation, other: Seq<char>, store: StoreState)
    requires
        other != op.tenant()@,
    ensures
        perform(prefix, op, store) matches Some((_, next)) ==> {
            &&& stored(next, budget_key_of(prefix, other)) == stored(store, budget_key_of(prefix, other))
            &&& stored(next, usage_key_of(prefix, other)) == stored(store, usage_key_of(prefix, other))
        },
{
    let t = op.tenant()@;
    lemma_keys_separate(prefix, t, other);
    lemma_keys_separate(prefix, other, t);
}

/// Settling a reservation whose refund is larger than the tenant's current usage (which a
/// reset in between can bring about) leaves the usage at 0, never below.
pub proof fn law_refund_floors_at_zero(
    prefix: Seq<char>,
    reservation: ReservationToken,
    actual: TokenUsage,
    store: StoreState,
)
    requires
        actual.total_fits(),
        actual.spec_total() < reservation.reserved,
        counter(store, usage_key_of(prefix, reservation.tenant_id@)) < reservation.reserved
            - actual.spec_total(),
    ensures
        perform(prefix, Operation::Settle { reservation, actual }, store) matches Some((out, next))
            && out == Ok::<Outcome, EnforcerError>(
            Outcome::Logged { tenant_id: reservation.tenant_id, usage: actual, model: None },
        ) && counter(next, usage_key_of(prefix, reservation.tenant_id@)) == 0,
{
}

/// Run as sessions against a store, a budget that was set is what a later status read
/// reports, beside the usage that was there.
pub proof fn law_sessions_read_back(
    prefix: Seq<char>,
    tenant_id: String,
    limit: u64,
    set_step: Step,
    read_step: Step,
    store: StoreState,
)
    requires
        Session::opens(prefix, Operation::SetBudget { tenant_id, limit }, set_step),
        Session::opens(prefix, Operation::Status { tenant_id }, read_step),
    ensures
        drive(set_step, store, 3) matches Some((Ok(Outcome::Done), after_set)) && drive(
            read_step,
            after_set,
            3,
        ) == Some(
            (
                Ok::<Outcome, EnforcerError>(
                    Outcome::Status(
                        BudgetStatus::spec_of(
                            tenant_id,
                            limit,
                            counter(store, usage_key_of(prefix, tenant_id@)),
                        ),
                    ),
                ),
                after_set,
            ),
        ),
{
    let set = Operation::SetBudget { tenant_id, limit };
    let read = Operation::Status { tenant_id };
    lemma_session_runs_operation(prefix, set, set_step, store);
    law_budget_read_back(prefix, tenant_id, limit, 0, store);
    let after_set = store.insert(budget_key_of(prefix, tenant_id@), limit);
    lemma_session_runs_operation(prefix, read, read_step, after_set);
}

/// What a passed check promises: recording a call that used no more than the checked
/// estimate, or reserving the estimate, keeps the tenant's usage within its limit.
pub proof fn law_admitted_usage_within_limit(
    prefix: Seq<char>,
    tenant_id: String,
    estimated: u64,
    usage: TokenUsage,
    model: Option<String>,
    store: StoreState,
)
    requires
        usage.total_fits(),
        usage.spec_total() <= estimated,
        perform(prefix, Operation::Check { tenant_id, estimated }, store) == Some(
            (Ok::<Outcome, EnforcerError>(Outcome::Done), store),
        ),
    ensures
        ({
            let uk = usage_key_of(prefix, tenant_id@);
            let limit = stored(store, budget_key_of(prefix, tenant_id@));
            &&& limit is Some
            &&& perform(prefix, Operation::Record { tenant_id, usage, model }, store) matches Some((_, next))
                ==> counter(next, uk) <= limit->0
            &&& perform(prefix, Operation::CheckAndReserve { tenant_id, estimated }, store) matches Some((_, next))
                ==> counter(next, uk) <= limit->0
        }),
{
    lemma_keys_separate(prefix, tenant_id@, tenant_id@);
}

/// A finished operation adds to the pending events exactly the usage it counted: a result
/// `Logged` (with a model name or without) appends one event, built from the tenant, the
/// input and output counts, their sum, the model name and the timestamp, behind the events
/// already pending; every other result (a reservation, a status, `Done`, any error) leaves
/// the pending events as they were.
pub proof fn law_queue_after_result(
    queue: Seq<UsageEvent>,
    result: Result<Outcome, EnforcerError>,
    timestamp: u64,
)
    requires
        result_fits(result),
    ensures
        match result {
            Ok(Outcome::Logged { tenant_id, usage, model }) => {
                &&& queued_after(queue, result, timestamp).len() == queue.len() + 1
                &&& queued_after(queue, result, timestamp).subrange(0, queue.len() as int) == queue
                &&& queued_after(queue, result, timestamp).last() == (UsageEvent {
                    tenant_id,
                    input_tokens: usage.input_tokens,
                    output_tokens: usage.output_tokens,
                    total_tokens: (usage.input_tokens + usage.output_tokens) as u64,
                    timestamp,
                    model,
                })
            },
            _ => queued_after(queue, result, timestamp) == queue,
        },
{
    match result {
        Ok(Outcome::Logged { tenant_id, usage, model }) => {
            assert(queued_after(queue, result, timestamp).subrange(0, queue.len() as int) =~= queue);
        },
        _ => {},
    }
}

/// The usage of a settled reservation reaches the queue once: a settlement that went
/// through appends one event for the reservation's tenant with the actual input and output
/// counts, their sum and no model name; a reservation appends nothing.
pub proof fn law_settlement_queues_actual_usage(
    prefix: Seq<char>,
    reservation: ReservationToken,
    actual: TokenUsage,
    store: StoreState,
    queue: Seq<UsageEvent>,
    timestamp: u64,
)
    requires
        actual.total_fits(),
    ensures
        perform(prefix, Operation::Settle { reservation, actual }, store) matches Some((r, _))
            ==> queued_after(queue, r, timestamp) == queue.push(
            (UsageEvent {
                tenant_id: reservation.tenant_id,
                input_tokens: actual.input_tokens,
                output_tokens: actual.output_tokens,
                total_tokens: (actual.input_tokens + actual.output_tokens) as u64,
                timestamp,
                model: None,
            }),
        ),
        perform(
            prefix,
            Operation::CheckAndReserve { tenant_id: reservation.tenant_id, estimated: reservation.reserved },
            store,
        ) matches Some((r, _)) ==> queued_after(queue, r, timestamp) == queue,
{
}

/// A record that went through appends exactly one event: the tenant, the input and output
/// counts as given, their sum, the model name (present or not) and the timestamp.
pub proof fn law_record_queues_its_usage(
    prefix: Seq<char>,
    tenant_id: String,
    usage: TokenUsage,
    model: Option<String>,
    store: StoreState,
    queue: Seq<UsageEvent>,
    timestamp: u64,
)
    requires
        usage.total_fits(),
    ensures
        perform(prefix, Operation::Record { tenant_id, usage, model }, store) matches Some((r, _))
            ==> queued_after(queue, r, timestamp) == queue.push(
            (UsageEvent {
                tenant_id,
                input_tokens: usage.input_tokens,
                output_tokens: usage.output_tokens,
                total_tokens: (usage.input_tokens + usage.output_tokens) as u64,
                timestamp,
                model,
            }),
        ),
{
}

} // verus!
