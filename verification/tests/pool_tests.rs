use music_dl::pool::WorkerPool;

#[test]
fn pool_starts_empty_with_the_given_capacity() {
    let pool = WorkerPool::new(3);
    assert_eq!(pool.capacity, 3);
    assert_eq!(pool.active, 0);
}

#[test]
fn acquire_fails_only_when_full() {
    let mut pool = WorkerPool::new(2);
    assert!(pool.try_acquire());
    assert!(pool.try_acquire());
    assert!(!pool.try_acquire());
    pool.release();
    assert!(pool.try_acquire());
}

#[test]
fn release_restores_capacity_regardless_of_task_outcome() {
    let mut pool = WorkerPool::new(1);
    assert!(pool.try_acquire());
    pool.release();
    assert_eq!(pool.capacity, 1);
    assert!(pool.try_acquire());
}

// Ten submitted items with pool capacity three: at no point do more than
// three run at once, and every item eventually gets a slot.
#[test]
fn ten_items_capacity_three_never_exceed_three_running() {
    let mut pool = WorkerPool::new(3);
    let mut waiting = 10;
    let mut running = 0;
    let mut finished = 0;
    let mut max_running = 0;
    while finished < 10 {
        while waiting > 0 && pool.try_acquire() {
            waiting -= 1;
            running += 1;
        }
        assert!(pool.active <= pool.capacity);
        if running > max_running {
            max_running = running;
        }
        // One running task completes and returns its slot.
        pool.release();
        running -= 1;
        finished += 1;
    }
    assert_eq!(max_running, 3);
}
