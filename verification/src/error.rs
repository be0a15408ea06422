use vstd::prelude::*;

verus! {

/// `redis::RedisError`, the error of a failed Redis command; carried through unopened.
#[verifier::external_type_specification]
#[verifier::external_body]
pub struct ExRedisError(deadpool_redis::redis::RedisError);

/// `deadpool_redis::ConfigError`, a faulty pool configuration; carried through unopened.
#[verifier::external_type_specification]
#[verifier::external_body]
pub struct ExRedisConfigError(deadpool_redis::ConfigError);

/// `deadpool::managed::PoolError`, why a pooled connection could not be had; carried
/// through unopened.
#[verifier::external_type_specification]
#[verifier::external_body]
#[verifier::reject_recursive_types(E)]
pub struct ExPoolError<E>(deadpool::managed::PoolError<E>);

/// `deadpool::managed::CreatePoolError`, why a pool could not be created; carried through
/// unopened.
#[verifier::external_type_specification]
#[verifier::external_body]
#[verifier::reject_recursive_types(C)]
pub struct ExCreatePoolError<C>(deadpool::managed::CreatePoolError<C>);

/// Error type of the library.
#[derive(Debug)]
pub enum EnforcerError {
    /// A tenant has exceeded their allocated token budget.
    BudgetExceeded { tenant_id: String, used: u64, limit: u64, remaining: u64 },
    /// No budget is set for the tenant.
    TenantNotFound(String),
    /// The Redis connection pool failed to hand out a connection.
    Redis(deadpool_redis::PoolError),
    /// The Redis connection pool could not be created.
    RedisPool(deadpool_redis::CreatePoolError),
    /// A Redis command failed.
    RedisCmd(deadpool_redis::redis::RedisError),
    /// A configuration issue.
    Config(String),
    /// A flush sink reported an error.
    Sink(String),
}

} // verus!
