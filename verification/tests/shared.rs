use simple_pool::{FnFactory, Pool, SharedPool};

#[test]
fn default_pool() {
    type BufferPool = SharedPool<()>;
    let pool = BufferPool::new_with_default(10);
    assert!(pool.is_empty());
    let buf = pool.pop_guarded();
    drop(buf);
    assert_eq!(pool.len(), 1);
}

#[test]
fn dynamic_pool() {
    type DynBufferPool = SharedPool<(), FnFactory<Box<dyn Fn()>>>;
    let pool = DynBufferPool::new(10, 0, false, FnFactory(Box::new(|| ())));
    assert!(pool.is_empty());
    pool.pop();
    assert!(pool.is_empty());
    pool.push(());
    assert_eq!(pool.len(), 1);
}

#[test]
fn new_pool() {
    type BufferPool = SharedPool<()>;
    let _pool = BufferPool::new_with_default(10);
    let _pool = SharedPool::new(10, 0, false, FnFactory(|| ()));

    type DynBufferPool = Pool<u8, FnFactory<Box<dyn Fn() -> u8>>>;
    let number = 100;
    let _pool = DynBufferPool::new(10, 0, false, FnFactory(Box::new(move || number)));
}

#[test]
fn guard_auto_return_on_drop() {
    let pool = SharedPool::new(10, 0, false, FnFactory(|| 5u8));
    assert_eq!(pool.len(), 0);
    {
        let guard = pool.pop_guarded();
        assert_eq!(*guard.get(), 5);
        assert_eq!(pool.len(), 0);
    }
    assert_eq!(pool.len(), 1);
    assert_eq!(pool.pop(), 5);
}

#[test]
fn guard_into_inner_prevents_auto_return() {
    let pool = SharedPool::new(10, 0, false, FnFactory(|| 5u8));
    let guard = pool.pop_guarded();
    let value = guard.into_inner();
    assert_eq!(value, 5);
    assert_eq!(pool.len(), 0);
}

#[test]
fn guard_get_mut_changes_what_returns() {
    let pool = SharedPool::new(10, 0, false, FnFactory(|| 1u8));
    {
        let mut guard = pool.pop_guarded();
        *guard.get_mut() = 42;
    }
    assert_eq!(pool.len(), 1);
    assert_eq!(pool.pop(), 42);
}

#[test]
fn guard_outliving_pool_discards_value() {
    let pool = SharedPool::new(10, 0, false, FnFactory(|| 5u8));
    let guard = pool.pop_guarded();
    drop(pool);
    drop(guard);
}

#[test]
fn try_pop_guarded_on_empty_returns_none() {
    let pool = SharedPool::new(10, 0, false, FnFactory(|| 5u8));
    assert!(pool.try_pop_guarded().is_none());
    assert_eq!(pool.len(), 0);
}

#[test]
fn try_pop_guarded_returns_spare_and_guards_it() {
    let pool = SharedPool::new(10, 0, false, FnFactory(|| 5u8));
    pool.push(8);
    {
        let guard = pool.try_pop_guarded().unwrap();
        assert_eq!(*guard.get(), 8);
        assert_eq!(pool.len(), 0);
    }
    assert_eq!(pool.len(), 1);
}

#[test]
fn clones_share_one_pool() {
    let pool_a = SharedPool::new(10, 0, false, FnFactory(|| 0u8));
    let pool_b = pool_a.clone();
    pool_a.push(1);
    assert_eq!(pool_b.len(), 1);
    assert_eq!(pool_b.pop(), 1);
    assert!(pool_a.is_empty());
    pool_b.push(2);
    pool_b.push(3);
    assert_eq!(pool_a.len(), 2);
    pool_a.clear();
    assert!(pool_b.is_empty());
}

#[test]
fn shared_pool_capacity_shedding() {
    let pool = SharedPool::new(3, 0, false, FnFactory(|| 0u8));
    for v in 0..10u8 {
        pool.push(v);
        assert!(pool.len() <= 3);
    }
    assert_eq!(pool.len(), 3);
    assert_eq!(pool.limit(), 3);
}

#[test]
fn dynamic_shared_pool_guard_behaves_like_static() {
    type DynPool = SharedPool<u8, FnFactory<Box<dyn Fn() -> u8>>>;
    let pool = DynPool::new(10, 0, false, FnFactory(Box::new(|| 5u8)));
    assert!(pool.is_empty());
    {
        let guard = pool.pop_guarded();
        assert_eq!(*guard.get(), 5);
    }
    assert_eq!(pool.len(), 1);
    let guard = pool.pop_guarded();
    assert_eq!(guard.into_inner(), 5);
    assert_eq!(pool.len(), 0);
}

#[test]
fn shared_describe_reports_limit_and_size() {
    let pool = SharedPool::new(10, 0, false, FnFactory(|| 0u8));
    assert_eq!(pool.describe(), "SharedPool with limit 10 and size 0");
}
