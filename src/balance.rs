use vstd::prelude::*;
use vstd::string::*;

verus! {

/// The stored projection of a balance: the two counters, without the identity,
/// which lives in the storage key.
#[derive(Debug, Clone, Copy, PartialEq, Eq, Structural)]
pub struct BalanceRecord {
    pub free: usize,
    pub lock: usize,
}

/// A record to be written under `key` before the operation that produced it
/// is reported as done.
#[derive(Debug)]
pub struct StoreWrite {
    pub key: String,
    pub record: BalanceRecord,
}

/// The account does not hold enough in the partition an operation draws from.
#[derive(Debug, Clone, Copy, PartialEq, Eq, Structural)]
pub struct InsufficientBalance;

/// The counters of one account, as mathematical integers.
pub struct Counters {
    pub free: int,
    pub lock: int,
}

/// The six mutations of a balance, each with its amount.
#[derive(Debug, Clone, Copy, PartialEq, Eq, Structural)]
pub enum Operation {
    Add(usize),
    ForceAdd(usize),
    Lock(usize),
    Unlock(usize),
    Remove(usize),
    ForceRemove(usize),
}

/// The counters after `op`, or `None` where the partition it draws from holds
/// less than its amount.
pub open spec fn after(op: Operation, c: Counters) -> Option<Counters> {
    match op {
        Operation::Add(v) => Some(Counters { free: c.free, lock: c.lock + v }),
        Operation::ForceAdd(v) => Some(Counters { free: c.free + v, lock: c.lock }),
        Operation::Lock(v) => if v <= c.free {
            Some(Counters { free: c.free - v, lock: c.lock + v })
        } else {
            None
        },
        Operation::Unlock(v) => if v <= c.lock {
            Some(Counters { free: c.free + v, lock: c.lock - v })
        } else {
            None
        },
        Operation::Remove(v) => if v <= c.lock {
            Some(Counters { free: c.free, lock: c.lock - v })
        } else {
            None
        },
        Operation::ForceRemove(v) => if v <= c.free {
            Some(Counters { free: c.free - v, lock: c.lock })
        } else {
            None
        },
    }
}

/// Whether the counters that `op` produces from `c`, if any, fit in a `usize`.
pub open spec fn fits(op: Operation, c: Counters) -> bool {
    match after(op, c) {
        Some(t) => t.free <= usize::MAX && t.lock <= usize::MAX,
        None => true,
    }
}

/// The counters that a stored record holds.
pub open spec fn counters_of(r: BalanceRecord) -> Counters {
    Counters { free: r.free as int, lock: r.lock as int }
}

/// The storage key of an account in a currency: the account id, a colon, the
/// currency code.
pub open spec fn key_of(user_id: Seq<char>, coin: Seq<char>) -> Seq<char> {
    user_id.push(':') + coin
}

/// Builds the storage key of `user_id` in `coin`.
pub fn storage_key(user_id: &String, coin: &String) -> (r: String)
    ensures
        r@ == key_of(user_id@, coin@),
{
    let with_colon = user_id.clone().concat(":");
    proof {
        reveal_strlit(":");
    }
    let r = with_colon.concat(coin.as_str());
    assert(r@ =~= key_of(user_id@, coin@));
    r
}

/// One account's balance in one currency.
pub struct Balance {
    pub free: usize,
    pub lock: usize,
    pub coin: String,
    pub user_id: String,
}

impl View for Balance {
    type V = Counters;

    open spec fn view(&self) -> Counters {
        Counters { free: self.free as int, lock: self.lock as int }
    }
}

impl Balance {
    /// The account id this balance belongs to.
    pub open spec fn account(&self) -> Seq<char> {
        self.user_id@
    }

    /// The key under which this balance is stored.
    pub open spec fn key_view(&self) -> Seq<char> {
        key_of(self.account(), self.coin@)
    }

    /// The record that holds this balance's counters.
    pub open spec fn record(&self) -> BalanceRecord {
        BalanceRecord { free: self.free, lock: self.lock }
    }

    /// Whether `w` writes this balance's counters under its key.
    pub open spec fn persisted_by(&self, w: StoreWrite) -> bool {
        w.key@ == self.key_view() && w.record == self.record()
    }

    /// Whether `other` belongs to the same account and currency.
    pub open spec fn same_identity(&self, other: &Balance) -> bool {
        self.account() == other.account() && self.coin@ == other.coin@
    }

    /// The post-state of a mutation: the identity is kept; on success the
    /// counters are those of `after` and `r` persists them, on failure nothing
    /// changed.
    pub open spec fn outcome(
        &self,
        op: Operation,
        pre: &Balance,
        r: Result<StoreWrite, InsufficientBalance>,
    ) -> bool {
        &&& self.same_identity(pre)
        &&& r is Ok <==> after(op, pre@) is Some
        &&& match r {
            Ok(w) => Some(self@) == after(op, pre@) && self.persisted_by(w),
            Err(_) => *self == *pre,
        }
    }

    /// A balance of `user_id` in `coin` holding what `record` holds.
    pub fn from_record(user_id: &String, coin: &String, record: BalanceRecord) -> (b: Balance)
        ensures
            b.account() == user_id@,
            b.coin@ == coin@,
            b@ == counters_of(record),
            b.record() == record,
    {
        Balance {
            free: record.free,
            lock: record.lock,
            coin: coin.clone(),
            user_id: user_id.clone(),
        }
    }

    /// The write that persists the current counters under this balance's key.
    pub fn commit(&self) -> (w: StoreWrite)
        ensures
            self.persisted_by(w),
    {
        StoreWrite {
            key: storage_key(&self.user_id, &self.coin),
            record: BalanceRecord { free: self.free, lock: self.lock },
        }
    }

    /// Adds `val` to the reserved part.
    pub fn add(&mut self, val: usize) -> (w: StoreWrite)
        requires
            fits(Operation::Add(val), old(self)@),
        ensures
            final(self).outcome(Operation::Add(val), old(self), Ok(w)),
            final(self).free == old(self).free,
            final(self).lock == old(self).lock + val,
    {
        self.lock = self.lock + val;
        self.commit()
    }

    /// Adds `val` to the spendable part.
    pub fn force_add(&mut self, val: usize) -> (w: StoreWrite)
        requires
            fits(Operation::ForceAdd(val), old(self)@),
        ensures
            final(self).outcome(Operation::ForceAdd(val), old(self), Ok(w)),
            final(self).free == old(self).free + val,
            final(self).lock == old(self).lock,
    {
        self.free = self.free + val;
        self.commit()
    }

    /// Moves `val` from the spendable to the reserved part; fails, changing
    /// nothing, where less than `val` is spendable.
    pub fn lock(&mut self, val: usize) -> (r: Result<StoreWrite, InsufficientBalance>)
        requires
            fits(Operation::Lock(val), old(self)@),
        ensures
            final(self).outcome(Operation::Lock(val), old(self), r),
            r is Ok <==> val <= old(self).free,
            r is Ok ==> final(self).free == old(self).free - val && final(self).lock
                == old(self).lock + val,
    {
        if val > self.free {
            return Err(InsufficientBalance);
        }
        self.free = self.free - val;
        self.lock = self.lock + val;
        Ok(self.commit())
    }

    /// Moves `val` from the reserved to the spendable part; fails, changing
    /// nothing, where less than `val` is reserved.
    pub fn unlock(&mut self, val: usize) -> (r: Result<StoreWrite, InsufficientBalance>)
        requires
            fits(Operation::Unlock(val), old(self)@),
        ensures
            final(self).outcome(Operation::Unlock(val), old(self), r),
            r is Ok <==> val <= old(self).lock,
            r is Ok ==> final(self).free == old(self).free + val && final(self).lock
                == old(self).lock - val,
    {
        if val > self.lock {
            return Err(InsufficientBalance);
        }
        self.free = self.free + val;
        self.lock = self.lock - val;
        Ok(self.commit())
    }

    /// Takes `val` out of the reserved part; fails, changing nothing, where
    /// less than `val` is reserved.
    pub fn remove(&mut self, val: usize) -> (r: Result<StoreWrite, InsufficientBalance>)
        requires
            fits(Operation::Remove(val), old(self)@),
        ensures
            final(self).outcome(Operation::Remove(val), old(self), r),
            r is Ok <==> val <= old(self).lock,
            r is Ok ==> final(self).free == old(self).free && final(self).lock == old(self).lock
                - val,
    {
        if val > self.lock {
            return Err(InsufficientBalance);
        }
        self.lock = self.lock - val;
        Ok(self.commit())
    }

    /// Takes `val` out of the spendable part; fails, changing nothing, where
    /// less than `val` is spendable.
    pub fn force_remove(&mut self, val: usize) -> (r: Result<StoreWrite, InsufficientBalance>)
        requires
            fits(Operation::ForceRemove(val), old(self)@),
        ensures
            final(self).outcome(Operation::ForceRemove(val), old(self), r),
            r is Ok <==> val <= old(self).free,
            r is Ok ==> final(self).free == old(self).free - val && final(self).lock
                == old(self).lock,
    {
        if val > self.free {
            return Err(InsufficientBalance);
        }
        self.free = self.free - val;
        Ok(self.commit())
    }

    /// Performs `op`.
    pub fn apply(&mut self, op: Operation) -> (r: Result<StoreWrite, InsufficientBalance>)
        requires
            fits(op, old(self)@),
        ensures
            final(self).outcome(op, old(self), r),
    {
        match op {
            Operation::Add(v) => Ok(self.add(v)),
            Operation::ForceAdd(v) => Ok(self.force_add(v)),
            Operation::Lock(v) => self.lock(v),
            Operation::Unlock(v) => self.unlock(v),
            Operation::Remove(v) => self.remove(v),
            Operation::ForceRemove(v) => self.force_remove(v),
        }
    }
}

} // verus!
