use balances::balance::{storage_key, Balance, BalanceRecord, InsufficientBalance, Operation};
use balances::repository::{AlreadyRegistered, BalanceRepository};

fn s(x: &str) -> String {
    x.to_string()
}

fn pair(repo: &BalanceRepository, h: usize) -> (usize, usize) {
    let b = repo.balance(h);
    (b.free, b.lock)
}

#[test]
fn storage_key_joins_account_and_currency() {
    assert_eq!(storage_key(&s("alice"), &s("USD")), "alice:USD");
    assert_eq!(storage_key(&s(""), &s("")), ":");
}

#[test]
fn alice_scenario() {
    let mut repo = BalanceRepository::new("redis://127.0.0.1");
    let w = repo.add(&s("alice"), &s("USD")).unwrap();
    assert_eq!(w.key, "alice:USD");
    assert_eq!(w.record, BalanceRecord { free: 0, lock: 0 });
    let h = repo.get(&s("alice"), &s("USD"), None).unwrap();
    assert_eq!(pair(&repo, h), (0, 0));

    let w = repo.apply(h, Operation::Add(100)).unwrap();
    assert_eq!(pair(&repo, h), (0, 100));
    assert_eq!(w.record, BalanceRecord { free: 0, lock: 100 });

    repo.apply(h, Operation::Unlock(40)).unwrap();
    assert_eq!(pair(&repo, h), (40, 60));

    repo.apply(h, Operation::Remove(60)).unwrap();
    assert_eq!(pair(&repo, h), (40, 0));

    assert_eq!(repo.apply(h, Operation::Lock(50)).unwrap_err(), InsufficientBalance);
    assert_eq!(pair(&repo, h), (40, 0));

    let w = repo.apply(h, Operation::ForceRemove(40)).unwrap();
    assert_eq!(pair(&repo, h), (0, 0));
    assert_eq!(w.key, "alice:USD");
    assert_eq!(w.record, BalanceRecord { free: 0, lock: 0 });
}

#[test]
fn unknown_account_is_not_found_and_not_created() {
    let mut repo = BalanceRepository::new("redis://127.0.0.1");
    assert_eq!(repo.get(&s("bob"), &s("BTC"), None), None);
    assert_eq!(repo.len(), 0);
    assert_eq!(repo.cached(&s("bob"), &s("BTC")), None);
}

#[test]
fn second_registration_keeps_balance() {
    let mut repo = BalanceRepository::new("redis://127.0.0.1");
    repo.add(&s("alice"), &s("USD")).unwrap();
    let h = repo.cached(&s("alice"), &s("USD")).unwrap();
    repo.apply(h, Operation::ForceAdd(25)).unwrap();
    assert_eq!(repo.add(&s("alice"), &s("USD")).unwrap_err(), AlreadyRegistered);
    assert_eq!(repo.len(), 1);
    assert_eq!(pair(&repo, h), (25, 0));
}

#[test]
fn same_account_in_other_currency_is_separate() {
    let mut repo = BalanceRepository::new("redis://127.0.0.1");
    repo.add(&s("alice"), &s("USD")).unwrap();
    let w = repo.add(&s("alice"), &s("ETH")).unwrap();
    assert_eq!(w.key, "alice:ETH");
    assert_eq!(repo.len(), 2);
    assert_eq!(repo.cached(&s("alice"), &s("ETH")), Some(1));
}

#[test]
fn reload_after_restart_gives_same_pair() {
    let mut repo = BalanceRepository::new("redis://127.0.0.1");
    repo.add(&s("carol"), &s("BTC")).unwrap();
    let h = repo.cached(&s("carol"), &s("BTC")).unwrap();
    repo.apply(h, Operation::ForceAdd(70)).unwrap();
    let w = repo.apply(h, Operation::Lock(30)).unwrap();

    let mut fresh = BalanceRepository::new("redis://127.0.0.1");
    assert_eq!(fresh.cached(&s("carol"), &s("BTC")), None);
    let h2 = fresh.get(&s("carol"), &s("BTC"), Some(w.record)).unwrap();
    assert_eq!(pair(&fresh, h2), (40, 30));
    assert_eq!(fresh.balance(h2).commit().key, w.key);
}

#[test]
fn cached_balance_ignores_fetched_record() {
    let mut repo = BalanceRepository::new("redis://127.0.0.1");
    repo.add(&s("dave"), &s("USD")).unwrap();
    let h = repo.get(&s("dave"), &s("USD"), Some(BalanceRecord { free: 9, lock: 9 })).unwrap();
    assert_eq!(pair(&repo, h), (0, 0));
    assert_eq!(repo.len(), 1);
}

#[test]
fn unit_additions_are_not_lost() {
    let mut repo = BalanceRepository::new("redis://127.0.0.1");
    repo.add(&s("erin"), &s("USD")).unwrap();
    let h = repo.cached(&s("erin"), &s("USD")).unwrap();
    for _ in 0..1000 {
        repo.apply(h, Operation::Add(1)).unwrap();
    }
    assert_eq!(pair(&repo, h), (0, 1000));
}

#[test]
fn failed_lock_repeated_changes_nothing() {
    let mut b = Balance::from_record(&s("frank"), &s("USD"), BalanceRecord { free: 5, lock: 7 });
    for _ in 0..10 {
        assert_eq!(b.lock(6).unwrap_err(), InsufficientBalance);
    }
    assert_eq!((b.free, b.lock), (5, 7));
}

#[test]
fn moves_keep_total_and_removals_lower_it() {
    let mut b = Balance::from_record(&s("gina"), &s("USD"), BalanceRecord { free: 50, lock: 50 });
    b.lock(20).unwrap();
    assert_eq!((b.free, b.lock), (30, 70));
    b.unlock(10).unwrap();
    assert_eq!((b.free, b.lock), (40, 60));
    b.remove(15).unwrap();
    assert_eq!((b.free, b.lock), (40, 45));
    b.force_remove(5).unwrap();
    assert_eq!((b.free, b.lock), (35, 45));
    b.add(3);
    assert_eq!((b.free, b.lock), (35, 48));
    b.force_add(4);
    assert_eq!((b.free, b.lock), (39, 48));
}

#[test]
fn each_operation_rejects_too_large_amount() {
    let mut b = Balance::from_record(&s("hal"), &s("ETH"), BalanceRecord { free: 3, lock: 4 });
    assert_eq!(b.lock(4).unwrap_err(), InsufficientBalance);
    assert_eq!(b.force_remove(4).unwrap_err(), InsufficientBalance);
    assert_eq!(b.unlock(5).unwrap_err(), InsufficientBalance);
    assert_eq!(b.remove(5).unwrap_err(), InsufficientBalance);
    assert_eq!((b.free, b.lock), (3, 4));
}

#[test]
fn exact_amounts_empty_a_partition() {
    let mut b = Balance::from_record(&s("ivy"), &s("ETH"), BalanceRecord { free: 3, lock: 4 });
    let w = b.remove(4).unwrap();
    assert_eq!(w.record, BalanceRecord { free: 3, lock: 0 });
    let w = b.lock(3).unwrap();
    assert_eq!(w.record, BalanceRecord { free: 0, lock: 3 });
    assert_eq!(w.key, "ivy:ETH");
}

#[test]
fn largest_amount_fits() {
    let mut b = Balance::from_record(&s("jo"), &s("BTC"), BalanceRecord { free: 0, lock: 0 });
    b.add(usize::MAX);
    b.unlock(usize::MAX).unwrap();
    assert_eq!((b.free, b.lock), (usize::MAX, 0));
}

#[test]
fn repository_keeps_database_url() {
    let repo = BalanceRepository::new("redis://127.0.0.1");
    assert_eq!(repo.database_url(), "redis://127.0.0.1");
}
