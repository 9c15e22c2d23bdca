use aide::{ReqwestPoolBuilder, ReqwestPoolError, MAX_POOL_SIZE};

#[test]
fn builder_checks_size() {
    assert_eq!(ReqwestPoolBuilder::new(0).unwrap_err(), ReqwestPoolError::SizeNotValid(0));
    assert_eq!(ReqwestPoolBuilder::new(101).unwrap_err(), ReqwestPoolError::SizeNotValid(101));
    assert_eq!(ReqwestPoolBuilder::new(1).unwrap().size(), 1);
    assert_eq!(ReqwestPoolBuilder::new(MAX_POOL_SIZE).unwrap().size(), 100);
    assert_eq!(ReqwestPoolBuilder::new(3).unwrap().slots().available_permits(), 3);
}

#[test]
fn pool_of_one_waits_for_release() {
    let mut slots = ReqwestPoolBuilder::new(1).unwrap().slots();
    assert_eq!(slots.try_acquire_permit(), Ok(true));
    let a = slots.lock_free_slot().unwrap();
    assert_eq!(a, 0);
    // a second request has to wait while the first handle is held
    assert_eq!(slots.try_acquire_permit(), Ok(false));
    assert_eq!(slots.try_acquire_permit(), Ok(false));
    slots.release(a);
    assert_eq!(slots.try_acquire_permit(), Ok(true));
    assert_eq!(slots.lock_free_slot(), Ok(0));
}

#[test]
fn full_pool_release_gives_one_permit() {
    let n = 3;
    let mut slots = ReqwestPoolBuilder::new(n).unwrap().slots();
    let mut held = Vec::new();
    for _ in 0..n {
        assert_eq!(slots.try_acquire_permit(), Ok(true));
        held.push(slots.lock_free_slot().unwrap());
    }
    assert_eq!(held, vec![0, 1, 2]);
    assert_eq!(slots.available_permits(), 0);
    assert_eq!(slots.try_acquire_permit(), Ok(false));
    slots.release(1);
    assert_eq!(slots.available_permits(), 1);
    assert_eq!(slots.try_acquire_permit(), Ok(true));
    assert_eq!(slots.try_acquire_permit(), Ok(false));
    assert_eq!(slots.lock_free_slot(), Ok(1));
}

#[test]
fn closed_pool_refuses_permits() {
    let mut slots = ReqwestPoolBuilder::new(2).unwrap().slots();
    assert_eq!(slots.try_acquire_permit(), Ok(true));
    let a = slots.lock_free_slot().unwrap();
    slots.close();
    assert_eq!(slots.try_acquire_permit(), Err(ReqwestPoolError::Semaphore));
    slots.release(a);
    assert_eq!(slots.available_permits(), 2);
    assert_eq!(slots.size(), 2);
}
