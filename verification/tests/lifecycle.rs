use mir::context::GENERATOR_LIMIT;
use mir::Context;
use mir::NativeCall;
use mir::Optimization;

const HANDLE: usize = 0x7f00_1000;

#[test]
fn context_smoke() {
    let _ = Context::new(HANDLE, true);
}

#[test]
fn context_keeps_its_handle() {
    let ctx = Context::new(HANDLE, false);
    assert_eq!(ctx.raw(), HANDLE);
    let other = Context::new(1, true);
    assert_eq!(other.raw(), 1);
}

#[test]
fn plain_context_starts_with_nothing_and_ends_with_finish() {
    let ctx = Context::new(HANDLE, false);
    assert_eq!(ctx.startup(), vec![]);
    assert_eq!(ctx.finish(), vec![NativeCall::Finish]);
}

#[test]
fn front_end_is_started_first_and_stopped_first() {
    let ctx = Context::new(HANDLE, true);
    assert_eq!(ctx.startup(), vec![NativeCall::FrontEndInit]);
    assert_eq!(
        ctx.finish(),
        vec![NativeCall::FrontEndFinish, NativeCall::Finish]
    );
}

#[test]
fn contexts_can_be_made_and_given_up_again_and_again() {
    let mut started: usize = 0;
    let mut stopped: usize = 0;
    let mut released: usize = 0;
    for round in 0..100usize {
        let ctx = Context::new(HANDLE + round, round % 2 == 0);
        for call in ctx.startup() {
            assert_eq!(call, NativeCall::FrontEndInit);
            started += 1;
        }
        for call in ctx.finish() {
            match call {
                NativeCall::FrontEndFinish => {
                    assert_eq!(released, round);
                    stopped += 1;
                }
                NativeCall::Finish => released += 1,
                other => panic!("{:?} does not end a session", other),
            }
        }
        assert_eq!(released, round + 1);
    }
    assert_eq!(started, 50);
    assert_eq!(stopped, 50);
    assert_eq!(released, 100);
}

#[test]
fn zero_generators_become_one() {
    let mut ctx = Context::new(HANDLE, false);
    let gens = ctx.generators(0);
    assert_eq!(gens.count(), 1);
    assert_eq!(gens.startup(), NativeCall::GenInit { count: 0 });
}

#[test]
fn generator_count_is_what_was_asked_for() {
    let mut ctx = Context::new(HANDLE, false);
    let gens = ctx.generators(1);
    assert_eq!(gens.count(), 1);
    assert_eq!(gens.startup(), NativeCall::GenInit { count: 1 });
    assert_eq!(gens.finish(), NativeCall::GenFinish);

    let gens = ctx.generators(8);
    assert_eq!(gens.count(), 8);
    assert_eq!(gens.startup(), NativeCall::GenInit { count: 8 });
    assert_eq!(gens.finish(), NativeCall::GenFinish);
}

#[test]
fn largest_generator_count() {
    assert_eq!(GENERATOR_LIMIT, i32::MAX as u32);
    assert!(Context::admits(0));
    assert!(Context::admits(GENERATOR_LIMIT - 1));
    assert!(!Context::admits(GENERATOR_LIMIT));
    assert!(!Context::admits(u32::MAX));

    let mut ctx = Context::new(HANDLE, false);
    let gens = ctx.generators(GENERATOR_LIMIT - 1);
    assert_eq!(gens.count(), 2_147_483_646);
    assert_eq!(
        gens.startup(),
        NativeCall::GenInit {
            count: 2_147_483_646
        }
    );
}

#[test]
fn generator_index_at_the_count_is_out_of_range() {
    let mut ctx = Context::new(HANDLE, false);
    let gens = ctx.generators(4);
    assert!(gens.has(0));
    assert!(gens.has(3));
    assert!(!gens.has(gens.count()));
    assert!(!gens.has(u32::MAX));

    let mut other = Context::new(HANDLE + 1, false);
    let single = other.generators(0);
    assert!(single.has(0));
    assert!(!single.has(single.count()));
}

#[test]
fn optimization_is_forwarded_with_index_and_level() {
    let mut ctx = Context::new(HANDLE, true);
    let mut gens = ctx.generators(3);
    assert_eq!(
        gens.set_optimization(0, Optimization::L0),
        NativeCall::GenSetOptimizeLevel {
            generator: 0,
            level: 0
        }
    );
    assert_eq!(
        gens.set_optimization(2, Optimization::L3),
        NativeCall::GenSetOptimizeLevel {
            generator: 2,
            level: 3
        }
    );
    assert_eq!(
        gens.set_optimization(1, Optimization::default()),
        NativeCall::GenSetOptimizeLevel {
            generator: 1,
            level: 2
        }
    );
    assert_eq!(gens.count(), 3);
}

#[test]
fn generator_set_sees_its_context() {
    let mut ctx = Context::new(HANDLE, true);
    let gens = ctx.generators(2);
    assert_eq!(gens.context().raw(), HANDLE);
    assert_eq!(gens.context().startup(), vec![NativeCall::FrontEndInit]);
}

#[test]
fn generators_end_before_their_context() {
    let mut calls: Vec<NativeCall> = Vec::new();
    let mut ctx = Context::new(HANDLE, true);
    calls.extend(ctx.startup());
    {
        let mut gens = ctx.generators(2);
        calls.push(gens.startup());
        calls.push(gens.set_optimization(1, Optimization::L1));
        calls.push(gens.finish());
    }
    calls.extend(ctx.finish());
    assert_eq!(
        calls,
        vec![
            NativeCall::FrontEndInit,
            NativeCall::GenInit { count: 2 },
            NativeCall::GenSetOptimizeLevel {
                generator: 1,
                level: 1
            },
            NativeCall::GenFinish,
            NativeCall::FrontEndFinish,
            NativeCall::Finish,
        ]
    );
}
