use clint::counter::Increment;
use clint::cs::cortex;
use clint::cs::dummy;
use clint::cs::CriticalSection;
use clint::scope::Call;
use clint::scope::Chain;
use clint::scope::NestedScope;
use clint::scope::Register;
use clint::FnNOP;
use clint::Handler;
use clint::HandlerArray;

#[test]
fn overrides_unwind() {
    let mut env: Vec<u64> = vec![0];
    let mut ht: HandlerArray<Increment, 2> = HandlerArray::new();
    let mut body = Chain {
        first: Register { nr: 0, callback: Increment { idx: 0 } },
        second: Call { nr: 0 },
    };
    ht.with_overrides(&mut body, &mut env);
    assert_eq!(env[0], 1);
    ht.call(0, &mut env);
    assert_eq!(env[0], 1);
}

#[test]
fn replace() {
    let mut env: Vec<u64> = vec![0];
    let mut handler: Handler<Increment> = Handler::new();
    handler.replace(Increment { idx: 0 });
    assert_eq!(env[0], 0);
    handler.call(&mut env);
    handler.call(&mut env);
    assert_eq!(env[0], 2);
}

#[test]
fn replace_static() {
    // A long-lived handler, standing in for one kept in process-wide storage.
    let handler: &'static mut Handler<Increment> = Box::leak(Box::new(Handler::new()));
    let mut env: Vec<u64> = vec![0];
    handler.replace(Increment { idx: 0 });
    assert_eq!(env[0], 0);
    handler.call(&mut env);
    handler.call(&mut env);
    assert_eq!(env[0], 2);
}

#[test]
fn replace_with_default() {
    let mut handler: Handler<FnNOP> = Handler::new();
    handler.replace(FnNOP());
    let mut env: Vec<u64> = vec![0];
    handler.call(&mut env);
    Handler::<FnNOP>::default_handler();
}

#[test]
fn fresh_table_calls_are_noops() {
    let mut env: Vec<u64> = vec![0];
    let t: HandlerArray<Increment, 2> = HandlerArray::new();
    t.call(0, &mut env);
    t.call(1, &mut env);
    assert_eq!(env[0], 0);
}

#[test]
fn register_then_call_counts_each_call() {
    let mut env: Vec<u64> = vec![0];
    let mut t: HandlerArray<Increment, 2> = HandlerArray::new();
    t.register(0, Increment { idx: 0 });
    t.call(0, &mut env);
    t.call(0, &mut env);
    assert_eq!(env[0], 2);
    t.call(1, &mut env);
    assert_eq!(env[0], 2);
}

#[test]
fn overrides_are_scoped_to_the_body() {
    let mut env: Vec<u64> = vec![0, 0];
    let mut t: HandlerArray<Increment, 2> = HandlerArray::new();
    t.register(0, Increment { idx: 0 });
    let mut body = Chain {
        first: Register { nr: 0, callback: Increment { idx: 1 } },
        second: Call { nr: 0 },
    };
    t.with_overrides(&mut body, &mut env);
    assert_eq!(env[1], 1);
    assert_eq!(env[0], 0);
    t.call(0, &mut env);
    assert_eq!(env[0], 1);
    assert_eq!(env[1], 1);
}

#[test]
fn nested_overrides_unwind_innermost_first() {
    let mut env: Vec<u64> = vec![0, 0, 0];
    let mut t: HandlerArray<Increment, 2> = HandlerArray::new();
    t.register(0, Increment { idx: 0 });
    let mut outer = Chain {
        first: Register { nr: 0, callback: Increment { idx: 1 } },
        second: Chain {
            first: NestedScope {
                body: Chain {
                    first: Register { nr: 0, callback: Increment { idx: 2 } },
                    second: Call { nr: 0 },
                },
            },
            // The inner scope has been unwound: entry 0 is this scope's again.
            second: Call { nr: 0 },
        },
    };
    t.with_overrides(&mut outer, &mut env);
    assert_eq!(env, vec![0, 1, 1]);
    t.call(0, &mut env);
    assert_eq!(env, vec![1, 1, 1]);
}

#[test]
fn pass_through_lock_returns_block_result() {
    let locker = dummy::Locker::new();
    let r = locker.with_lock(|| 42);
    assert_eq!(r, 42);
}

#[test]
fn pass_through_lock_runs_block_exactly_once() {
    let locker = dummy::Locker::new();
    let mut runs: u64 = 0;
    let r = locker.with_lock(|| {
        runs += 1;
        7
    });
    assert_eq!(r, 7);
    assert_eq!(runs, 1);
}

#[test]
fn masking_locker_can_be_constructed() {
    // Its with_lock relies on interrupt masking and only runs on hardware.
    let _locker = cortex::Locker::new();
}

#[test]
fn lock_register_with_explicit_locker() {
    let mut env: Vec<u64> = vec![0];
    let mut t: HandlerArray<Increment, 4> = HandlerArray::new();
    let locker = dummy::Locker::new();
    t.lock_register(&locker, 3, Increment { idx: 0 });
    t.call(3, &mut env);
    assert_eq!(env[0], 1);
}

#[test]
fn lock_overrides_with_explicit_locker() {
    let mut env: Vec<u64> = vec![0, 0];
    let mut t: HandlerArray<Increment, 2> = HandlerArray::new();
    t.register(0, Increment { idx: 0 });
    let locker = dummy::Locker::new();
    let mut body = Chain {
        first: Chain {
            first: Register { nr: 0, callback: Increment { idx: 1 } },
            second: Call { nr: 0 },
        },
        second: Chain {
            first: Register { nr: 1, callback: Increment { idx: 1 } },
            second: Call { nr: 1 },
        },
    };
    t.lock_overrides(&locker, &mut body, &mut env);
    assert_eq!(env, vec![0, 2]);
    t.call(0, &mut env);
    t.call(1, &mut env);
    assert_eq!(env, vec![1, 2]);
}

#[test]
fn out_of_range_scope_bodies_change_nothing() {
    let mut env: Vec<u64> = vec![4];
    let mut t: HandlerArray<Increment, 2> = HandlerArray::new();
    let mut body = Chain {
        first: Register { nr: 9, callback: Increment { idx: 0 } },
        second: Call { nr: 9 },
    };
    t.with_overrides(&mut body, &mut env);
    assert_eq!(env, vec![4]);
}

#[test]
fn two_entries_count_independently() {
    let mut env: Vec<u64> = vec![0, 0];
    let mut t: HandlerArray<Increment, 2> = HandlerArray::new();
    t.register(0, Increment { idx: 0 });
    t.register(1, Increment { idx: 1 });
    t.call(0, &mut env);
    t.call(0, &mut env);
    t.call(1, &mut env);
    assert_eq!(env, vec![2, 1]);
}

#[test]
fn increment_wraps_at_the_top() {
    let mut env: Vec<u64> = vec![u64::MAX];
    let mut t: HandlerArray<Increment, 1> = HandlerArray::new();
    t.register(0, Increment { idx: 0 });
    t.call(0, &mut env);
    assert_eq!(env[0], 0);
}

#[test]
fn increment_out_of_range_changes_nothing() {
    let mut env: Vec<u64> = vec![3];
    let mut t: HandlerArray<Increment, 1> = HandlerArray::new();
    t.register(0, Increment { idx: 5 });
    t.call(0, &mut env);
    assert_eq!(env, vec![3]);
}

#[test]
fn nop_callback_leaves_environment_alone() {
    let mut env: Vec<u64> = vec![9];
    let mut t: HandlerArray<FnNOP, 2> = HandlerArray::new();
    t.register(0, FnNOP());
    t.call(0, &mut env);
    t.call(1, &mut env);
    assert_eq!(env, vec![9]);
}
