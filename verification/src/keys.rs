use vstd::prelude::*;
use vstd::string::*;

verus! {

/// The characters between the prefix and the tenant id in a budget key.
pub open spec fn budget_infix() -> Seq<char> {
    seq![':', 'b', 'u', 'd', 'g', 'e', 't', ':']
}

/// The characters between the prefix and the tenant id in a usage key.
pub open spec fn usage_infix() -> Seq<char> {
    seq![':', 'u', 's', 'a', 'g', 'e', ':']
}

/// The key `{prefix}:budget:{tenant_id}` under which a tenant's limit is stored.
pub open spec fn budget_key_of(prefix: Seq<char>, tenant_id: Seq<char>) -> Seq<char> {
    prefix + budget_infix() + tenant_id
}

/// The key `{prefix}:usage:{tenant_id}` under which a tenant's usage counter is stored.
pub open spec fn usage_key_of(prefix: Seq<char>, tenant_id: Seq<char>) -> Seq<char> {
    prefix + usage_infix() + tenant_id
}

/// Builds the key under which the budget of `tenant_id` is stored.
pub fn budget_key(prefix: &str, tenant_id: &str) -> (key: String)
    ensures
        key@ == budget_key_of(prefix@, tenant_id@),
{
    let mut key = String::from_str(prefix);
    key.append(":budget:");
    key.append(tenant_id);
    proof {
        reveal_strlit(":budget:");
        assert(":budget:"@ =~= budget_infix());
    }
    key
}

/// Builds the key under which the usage counter of `tenant_id` is stored.
pub fn usage_key(prefix: &str, tenant_id: &str) -> (key: String)
    ensures
        key@ == usage_key_of(prefix@, tenant_id@),
{
    let mut key = String::from_str(prefix);
    key.append(":usage:");
    key.append(tenant_id);
    proof {
        reveal_strlit(":usage:");
        assert(":usage:"@ =~= usage_infix());
    }
    key
}

/// Under one prefix, a budget key and a usage key never coincide, and each kind of key
/// determines the tenant it was built from.
pub proof fn lemma_keys_separate(prefix: Seq<char>, a: Seq<char>, b: Seq<char>)
    ensures
        budget_key_of(prefix, a) != usage_key_of(prefix, b),
        budget_key_of(prefix, a) == budget_key_of(prefix, b) ==> a == b,
        usage_key_of(prefix, a) == usage_key_of(prefix, b) ==> a == b,
{
    let i: int = prefix.len() as int + 1;
    assert(budget_key_of(prefix, a)[i] == 'b');
    assert(usage_key_of(prefix, b)[i] == 'u');
    if budget_key_of(prefix, a) == budget_key_of(prefix, b) {
        let n: int = prefix.len() as int + 8;
        assert(budget_key_of(prefix, a).len() == n + a.len() as int);
        assert(a =~= budget_key_of(prefix, a).subrange(n, n + a.len() as int));
        assert(b =~= budget_key_of(prefix, b).subrange(n, n + b.len() as int));
    }
    if usage_key_of(prefix, a) == usage_key_of(prefix, b) {
        let n: int = prefix.len() as int + 7;
        assert(a =~= usage_key_of(prefix, a).subrange(n, n + a.len() as int));
        assert(b =~= usage_key_of(prefix, b).subrange(n, n + b.len() as int));
    }
}

} // verus!
