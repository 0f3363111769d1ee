use vstd::prelude::*;
use crate::balance::{
    after, counters_of, fits, key_of, storage_key, Balance, BalanceRecord, Counters,
    InsufficientBalance, Operation, StoreWrite,
};

verus! {

/// Registration found the account already in the cache.
#[derive(Debug, Clone, Copy, PartialEq, Eq, Structural)]
pub struct AlreadyRegistered;

/// The cache of balances, addressed by storage key. A handle is the position of
/// a balance in the cache; positions never change, as nothing is removed.
pub struct BalanceRepository {
    keys: Vec<String>,
    balances: Vec<Balance>,
    database_url: String,
}

impl BalanceRepository {
    /// The cached balances, in the order they were cached.
    pub closed spec fn entries(&self) -> Seq<Balance> {
        self.balances@
    }

    /// The address of the store that backs this cache.
    pub closed spec fn url(&self) -> Seq<char> {
        self.database_url@
    }

    /// Each cached balance sits beside its storage key, and no key is cached twice.
    pub closed spec fn wf(&self) -> bool {
        &&& self.keys@.len() == self.balances@.len()
        &&& forall|i: int| 0 <= i < self.keys@.len() ==> #[trigger] self.keys@[i]@
            == self.balances@[i].key_view()
        &&& forall|i: int, j: int|
            0 <= i < j < self.balances@.len() ==> #[trigger] self.balances@[i].key_view()
                != #[trigger] self.balances@[j].key_view()
    }

    /// Whether a balance stored under `key` is cached.
    pub open spec fn holds(&self, key: Seq<char>) -> bool {
        exists|i: int| 0 <= i < self.entries().len() && #[trigger] self.entries()[i].key_view() == key
    }

    /// Whether `self` is `pre` with one balance more at the end: that of
    /// `user_id` in `coin`, holding `c`.
    pub open spec fn extends(
        &self,
        pre: &BalanceRepository,
        user_id: Seq<char>,
        coin: Seq<char>,
        c: Counters,
    ) -> bool {
        &&& self.url() == pre.url()
        &&& self.entries().len() == pre.entries().len() + 1
        &&& self.entries().drop_last() == pre.entries()
        &&& self.entries().last().account() == user_id
        &&& self.entries().last().coin@ == coin
        &&& self.entries().last()@ == c
    }

    /// An empty cache over the store at `database_url`.
    pub fn new(database_url: &str) -> (r: BalanceRepository)
        ensures
            r.wf(),
            r.entries().len() == 0,
            r.url() == database_url@,
    {
        BalanceRepository { keys: Vec::new(), balances: Vec::new(), database_url: database_url.to_owned() }
    }

    /// The address of the store that backs this cache.
    pub fn database_url(&self) -> (r: &str)
        ensures
            r@ == self.url(),
    {
        self.database_url.as_str()
    }

    /// The number of cached balances.
    pub fn len(&self) -> (r: usize)
        ensures
            r == self.entries().len(),
    {
        self.balances.len()
    }

    fn position(&self, key: &String) -> (r: Option<usize>)
        requires
            self.wf(),
        ensures
            r is Some <==> self.holds(key@),
            r matches Some(h) ==> h < self.entries().len() && self.entries()[h as int].key_view()
                == key@,
    {
        let mut i: usize = 0;
        while i < self.keys.len()
            invariant
                self.wf(),
                i <= self.keys@.len(),
                forall|j: int| 0 <= j < i ==> self.entries()[j].key_view() != key@,
            decreases self.keys@.len() - i,
        {
            if self.keys[i] == *key {
                assert(self.entries()[i as int].key_view() == key@);
                return Some(i);
            }
            i = i + 1;
        }
        None
    }

    /// The handle of the cached balance of `user_id` in `coin`, if it is cached.
    pub fn cached(&self, user_id: &String, coin: &String) -> (r: Option<usize>)
        requires
            self.wf(),
        ensures
            r is Some <==> self.holds(key_of(user_id@, coin@)),
            r matches Some(h) ==> h < self.entries().len() && self.entries()[h as int].key_view()
                == key_of(user_id@, coin@),
    {
        let key = storage_key(user_id, coin);
        self.position(&key)
    }

    fn insert(&mut self, key: String, b: Balance) -> (h: usize)
        requires
            old(self).wf(),
            !old(self).holds(key@),
            b.key_view() == key@,
            old(self).entries().len() < usize::MAX,
        ensures
            final(self).wf(),
            final(self).url() == old(self).url(),
            final(self).entries() == old(self).entries().push(b),
            h == old(self).entries().len(),
    {
        let h = self.balances.len();
        self.keys.push(key);
        self.balances.push(b);
        proof {
            assert(self.entries().drop_last() =~= old(self).entries());
            assert forall|i: int, j: int|
                0 <= i < j < self.balances@.len() implies #[trigger] self.balances@[i].key_view()
                != #[trigger] self.balances@[j].key_view() by {
                if j == h {
                    assert(old(self).entries()[i].key_view() != key@);
                }
            }
        }
        h
    }

    /// Registers `user_id` in `coin` with both counters at zero, unless a
    /// balance is already cached under its key. On success the cache holds the
    /// new balance and `r` is the write that stores it.
    pub fn add(&mut self, user_id: &String, coin: &String) -> (r: Result<StoreWrite, AlreadyRegistered>)
        requires
            old(self).wf(),
            old(self).entries().len() < usize::MAX,
        ensures
            final(self).wf(),
            r is Err <==> old(self).holds(key_of(user_id@, coin@)),
            r is Err ==> *final(self) == *old(self),
            r matches Ok(w) ==> final(self).extends(old(self), user_id@, coin@, Counters { free: 0, lock: 0 })
                && final(self).entries().last().persisted_by(w),
    {
        let key = storage_key(user_id, coin);
        if self.position(&key).is_some() {
            return Err(AlreadyRegistered);
        }
        let b = Balance::from_record(user_id, coin, BalanceRecord { free: 0, lock: 0 });
        let w = b.commit();
        self.insert(key, b);
        assert(self.entries().drop_last() =~= old(self).entries());
        Ok(w)
    }

    /// Resolves `user_id` in `coin` to a handle. A cached balance is returned
    /// as it is. Otherwise `fetched` is what the store holds under the key: a
    /// record is cached and its handle returned; with none, the result is
    /// `None` and nothing is cached.
    pub fn get(&mut self, user_id: &String, coin: &String, fetched: Option<BalanceRecord>) -> (r: Option<usize>)
        requires
            old(self).wf(),
            old(self).entries().len() < usize::MAX,
        ensures
            final(self).wf(),
            old(self).holds(key_of(user_id@, coin@)) ==> {
                &&& *final(self) == *old(self)
                &&& r matches Some(h) && h < old(self).entries().len()
                    && old(self).entries()[h as int].key_view() == key_of(user_id@, coin@)
            },
            !old(self).holds(key_of(user_id@, coin@)) ==> match fetched {
                None => r is None && *final(self) == *old(self),
                Some(rec) => r matches Some(h) && h == old(self).entries().len()
                    && final(self).extends(old(self), user_id@, coin@, counters_of(rec)),
            },
    {
        let key = storage_key(user_id, coin);
        match self.position(&key) {
            Some(h) => Some(h),
            None => match fetched {
                Some(rec) => {
                    let b = Balance::from_record(user_id, coin, rec);
                    let h = self.insert(key, b);
                    assert(self.entries().drop_last() =~= old(self).entries());
                    Some(h)
                },
                None => None,
            },
        }
    }

    /// The balance that `h` addresses.
    pub fn balance(&self, h: usize) -> (r: &Balance)
        requires
            h < self.entries().len(),
        ensures
            *r == self.entries()[h as int],
    {
        &self.balances[h]
    }

    /// Performs `op` on the balance that `h` addresses; the other balances and
    /// every identity stay as they were.
    pub fn apply(&mut self, h: usize, op: Operation) -> (r: Result<StoreWrite, InsufficientBalance>)
        requires
            old(self).wf(),
            h < old(self).entries().len(),
            fits(op, old(self).entries()[h as int]@),
        ensures
            final(self).wf(),
            final(self).url() == old(self).url(),
            final(self).entries() == old(self).entries().update(h as int, final(self).entries()[h as int]),
            final(self).entries()[h as int].outcome(op, &old(self).entries()[h as int], r),
    {
        let r = self.balances[h].apply(op);
        proof {
            assert forall|i: int| 0 <= i < self.keys@.len() implies #[trigger] self.keys@[i]@
                == self.balances@[i].key_view() by {
                assert(old(self).keys@[i]@ == old(self).balances@[i].key_view());
            }
            assert forall|i: int, j: int|
                0 <= i < j < self.balances@.len() implies #[trigger] self.balances@[i].key_view()
                != #[trigger] self.balances@[j].key_view() by {
                assert(old(self).balances@[i].key_view() != old(self).balances@[j].key_view());
            }
        }
        r
    }
}

} // verus!
