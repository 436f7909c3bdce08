use gestetner::storage::{eviction_count, maybe_prune_oldest, total_size_of, StoredFile};

fn file(created: u128, size: u64) -> StoredFile {
    StoredFile { index: created as usize, created, size }
}

#[test]
fn total_of_nothing_is_zero() {
    assert_eq!(total_size_of(&vec![]), 0);
}

#[test]
fn total_does_not_overflow() {
    let files = vec![file(1, u64::MAX), file(2, u64::MAX), file(3, 2)];
    assert_eq!(total_size_of(&files), 2 * (u64::MAX as u128) + 2);
}

#[test]
fn no_eviction_when_room() {
    let files = vec![file(1, 10), file(2, 10)];
    assert_eq!(eviction_count(&files, 10, 100), 0);
}

#[test]
fn evicts_oldest_until_below_capacity() {
    // total 60, incoming 50, capacity 100: 110 >= 100, drop 20 -> 90 < 100
    let files = vec![file(1, 20), file(2, 20), file(3, 20)];
    assert_eq!(eviction_count(&files, 50, 100), 1);
    // reaching the capacity exactly is not room: 40 + 60 >= 100, drop two
    assert_eq!(eviction_count(&files, 60, 100), 2);
}

#[test]
fn oversized_paste_evicts_everything() {
    let files = vec![file(1, 1), file(2, 1)];
    assert_eq!(eviction_count(&files, 100, 100), 2);
    assert_eq!(eviction_count(&vec![], 100, 100), 0);
}

#[test]
fn prune_orders_oldest_first() {
    let files = vec![file(30, 5), file(10, 7), file(20, 9)];
    let plan = maybe_prune_oldest(files, 10, 25);
    assert_eq!(plan.ordered, vec![file(10, 7), file(20, 9), file(30, 5)]);
    // 21 + 10 >= 25; without the oldest 14 + 10 < 25
    assert_eq!(plan.evict, 1);
}

#[test]
fn prune_keeps_newest() {
    let files = vec![file(4, 10), file(1, 10), file(3, 10), file(2, 10)];
    let plan = maybe_prune_oldest(files, 0, 25);
    assert_eq!(plan.evict, 2);
    let kept: Vec<u128> = plan.ordered[plan.evict..].iter().map(|f| f.created).collect();
    assert_eq!(kept, vec![3, 4]);
}

#[test]
fn prune_empty_directory() {
    let plan = maybe_prune_oldest(vec![], 1_000, 10);
    assert!(plan.ordered.is_empty());
    assert_eq!(plan.evict, 0);
}

#[test]
fn repeated_pastes_stay_near_capacity() {
    let capacity: u64 = 100;
    let mut dir: Vec<StoredFile> = Vec::new();
    let sizes = [30u64, 45, 10, 80, 5, 120, 60, 60, 1];
    for (t, size) in sizes.iter().enumerate() {
        let plan = maybe_prune_oldest(dir.clone(), *size, capacity);
        let mut kept: Vec<StoredFile> = plan.ordered[plan.evict..].to_vec();
        kept.push(StoredFile { index: t, created: t as u128 + 1, size: *size });
        for (i, f) in kept.iter_mut().enumerate() {
            f.index = i;
        }
        let total: u64 = kept.iter().map(|f| f.size).sum();
        assert!(total < capacity || kept.len() == 1, "{} at step {}", total, t);
        assert!(total <= capacity + size);
        dir = kept;
    }
}
