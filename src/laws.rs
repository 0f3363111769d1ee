//! Laws of the ledger, stated over the transition `after` that every mutation
//! of `Balance` and of `BalanceRepository` follows.
use vstd::prelude::*;
use crate::balance::{after, counters_of, Balance, Counters, Operation, StoreWrite};
use crate::repository::BalanceRepository;

verus! {

/// The counters after performing `ops` in order from `c`; an operation that
/// fails leaves the counters as they were.
pub open spec fn run(ops: Seq<Operation>, c: Counters) -> Counters
    decreases ops.len(),
{
    if ops.len() == 0 {
        c
    } else {
        let next = match after(ops[0], c) {
            Some(t) => t,
            None => c,
        };
        run(ops.drop_first(), next)
    }
}

/// Both counters together.
pub open spec fn total(c: Counters) -> int {
    c.free + c.lock
}

/// No sequence of operations takes either counter below zero.
pub proof fn lemma_counters_stay_nonnegative(ops: Seq<Operation>, c: Counters)
    requires
        c.free >= 0,
        c.lock >= 0,
    ensures
        run(ops, c).free >= 0,
        run(ops, c).lock >= 0,
    decreases ops.len(),
{
    if ops.len() > 0 {
        let next = match after(ops[0], c) {
            Some(t) => t,
            None => c,
        };
        lemma_counters_stay_nonnegative(ops.drop_first(), next);
    }
}

/// Locking and unlocking keep the total; removing lowers it by the amount;
/// only the two additions raise it, by the amount.
pub proof fn lemma_total_moves_only_by_additions(op: Operation, c: Counters)
    requires
        after(op, c) is Some,
    ensures
        match op {
            Operation::Add(v) => total(after(op, c)->Some_0) == total(c) + v,
            Operation::ForceAdd(v) => total(after(op, c)->Some_0) == total(c) + v,
            Operation::Lock(_) => total(after(op, c)->Some_0) == total(c),
            Operation::Unlock(_) => total(after(op, c)->Some_0) == total(c),
            Operation::Remove(v) => total(after(op, c)->Some_0) == total(c) - v,
            Operation::ForceRemove(v) => total(after(op, c)->Some_0) == total(c) - v,
        },
{
}

/// Locking more than is spendable, any number of times, changes nothing.
pub proof fn lemma_failed_lock_repeated(val: usize, n: nat, c: Counters)
    requires
        val > c.free,
    ensures
        run(Seq::new(n, |_i: int| Operation::Lock(val)), c) == c,
    decreases n,
{
    if n > 0 {
        let ops = Seq::new(n, |_i: int| Operation::Lock(val));
        assert(ops.drop_first() =~= Seq::new((n - 1) as nat, |_i: int| Operation::Lock(val)));
        lemma_failed_lock_repeated(val, (n - 1) as nat, c);
    }
}

/// What `commit` writes, handed back to `BalanceRepository::get` by a cache
/// that no longer holds the balance (after a restart), is cached under the
/// same key with the same counters.
pub proof fn lemma_reload_round_trip(
    b: Balance,
    w: StoreWrite,
    pre: BalanceRepository,
    post: BalanceRepository,
)
    requires
        b.persisted_by(w),
        post.extends(&pre, b.user_id@, b.coin@, counters_of(w.record)),
    ensures
        post.entries().last()@ == b@,
        post.entries().last().key_view() == w.key@,
{
}

/// `n` additions of one, performed one after another, reserve exactly `n`
/// more and leave the spendable part alone: no addition is lost.
pub proof fn lemma_unit_additions_accumulate(n: nat, c: Counters)
    ensures
        run(Seq::new(n, |_i: int| Operation::Add(1)), c) == (Counters { free: c.free, lock: c.lock + n }),
    decreases n,
{
    if n > 0 {
        let ops = Seq::new(n, |_i: int| Operation::Add(1));
        assert(ops.drop_first() =~= Seq::new((n - 1) as nat, |_i: int| Operation::Add(1)));
        lemma_unit_additions_accumulate((n - 1) as nat, Counters { free: c.free, lock: c.lock + 1 });
    }
}

/// From a freshly registered account, `n` serialized additions of one leave
/// exactly `n` reserved.
pub proof fn lemma_fresh_account_counts_additions(n: nat)
    ensures
        run(Seq::new(n, |_i: int| Operation::Add(1)), Counters { free: 0, lock: 0 })
            == (Counters { free: 0, lock: n as int }),
{
    lemma_unit_additions_accumulate(n, Counters { free: 0, lock: 0 });
}

} // verus!
