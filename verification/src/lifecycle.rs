//! What the native library sees of a session that is driven by the two
//! owners: every call is in order when its turn comes, and nothing is left
//! alive.

use crate::context::Context;
use crate::context::Generators;
use crate::context::GENERATOR_LIMIT;
use crate::native::NativeCall;
use crate::native::Session;
use crate::optimization::Optimization;
use vstd::prelude::*;

verus! {

/// The calls for `settings`, in order: each setting is a generator and
/// the level it is set to.
pub open spec fn setting_calls(settings: Seq<(u32, Optimization)>) -> Seq<NativeCall> {
    Seq::new(settings.len(), |i: int| Generators::optimization_call(settings[i].0, settings[i].1))
}

/// Every setting names one of the generators that run when `requested` were
/// asked for.
pub open spec fn in_range(requested: u32, settings: Seq<(u32, Optimization)>) -> bool {
    forall|i: int|
        0 <= i < settings.len() ==> (#[trigger] settings[i]).0 < Generators::normalized(requested)
}

/// The calls of one generator set, from its start to its end.
pub open spec fn scope_calls(requested: u32, settings: Seq<(u32, Optimization)>) -> Seq<
    NativeCall,
> {
    seq![Generators::startup_call(requested)] + setting_calls(settings)
        + seq![NativeCall::GenFinish]
}

/// The calls of several generator sets, one set after the other. Each set
/// is the number asked for and its settings.
pub open spec fn scopes_calls(scopes: Seq<(u32, Seq<(u32, Optimization)>)>) -> Seq<NativeCall>
    decreases scopes.len(),
{
    if scopes.len() == 0 {
        seq![]
    } else {
        scope_calls(scopes[0].0, scopes[0].1) + scopes_calls(scopes.skip(1))
    }
}

/// Every set asks for a number that can be asked for, and every setting
/// names a generator of its set.
pub open spec fn well_used(scopes: Seq<(u32, Seq<(u32, Optimization)>)>) -> bool {
    forall|i: int|
        0 <= i < scopes.len() ==> (#[trigger] scopes[i]).0 < GENERATOR_LIMIT && in_range(
            scopes[i].0,
            scopes[i].1,
        )
}

/// The calls of a whole session: start-up, the generator sets, tear-down.
pub open spec fn session_calls(c2mir: bool, scopes: Seq<(u32, Seq<(u32, Optimization)>)>) -> Seq<
    NativeCall,
> {
    Context::startup_calls(c2mir) + scopes_calls(scopes) + Context::teardown_calls(c2mir)
}

/// In a session that is started and then torn down every call is in order
/// when its turn comes, and nothing of the session is left alive.
pub proof fn lemma_session_balanced(c2mir: bool)
    ensures
        Session::opened().run(Context::startup_calls(c2mir)) == Some(Context::running(c2mir)),
        Context::running(c2mir).run(Context::teardown_calls(c2mir)) == Some(Session::released()),
        Session::opened().run(Context::startup_calls(c2mir) + Context::teardown_calls(c2mir))
            == Some(Session::released()),
{
    let opened = Session::opened();
    let running = Context::running(c2mir);
    if c2mir {
        opened.lemma_run_one(NativeCall::FrontEndInit);
        running.lemma_run_two(NativeCall::FrontEndFinish, NativeCall::Finish);
    } else {
        running.lemma_run_one(NativeCall::Finish);
    }
    opened.lemma_run_concat(Context::startup_calls(c2mir), Context::teardown_calls(c2mir));
}

/// A session is never released before its front-end is stopped: while
/// the front-end runs, the release is out of order, and so is a tear-down
/// that leaves the front-end out.
pub proof fn lemma_front_end_stops_first(session: Session)
    requires
        session.front_end,
    ensures
        !session.permits(NativeCall::Finish),
        session.run(Context::teardown_calls(false)).is_none(),
{
    session.lemma_run_one(NativeCall::Finish);
}

/// A generator set starts in a running session, runs the number of
/// generators asked for, or one where none was asked for, and leaves the
/// session as it found it.
pub proof fn lemma_generators_scoped(c2mir: bool, requested: u32)
    requires
        requested < GENERATOR_LIMIT,
    ensures
        Context::running(c2mir).permits(Generators::startup_call(requested)),
        Context::running(c2mir).after(Generators::startup_call(requested)).generators
            == Generators::normalized(requested),
        Context::running(c2mir).run(
            seq![Generators::startup_call(requested), NativeCall::GenFinish],
        ) == Some(Context::running(c2mir)),
{
    Context::running(c2mir).lemma_run_two(Generators::startup_call(requested), NativeCall::GenFinish);
}

/// While a set runs, the setting of a level is in order for exactly the
/// generators below the set's count, and the setting starts or stops
/// nothing.
pub proof fn lemma_index_bound(c2mir: bool, requested: u32, generator: u32, level: Optimization)
    requires
        requested < GENERATOR_LIMIT,
    ensures
        ({
            let busy = Context::running(c2mir).after(Generators::startup_call(requested));
            &&& busy.permits(Generators::optimization_call(generator, level)) <==> generator
                < Generators::normalized(requested)
            &&& busy.after(Generators::optimization_call(generator, level)) == busy
        }),
{
    assert(generator >= 0x8000_0000u32 ==> (generator as i32) < 0i32) by (bit_vector);
}

/// While generators run, no context can be torn down: in whatever state
/// the session is otherwise, the calls that end it are out of order.
pub proof fn lemma_generators_stop_first(session: Session, c2mir: bool)
    requires
        session.generators > 0,
    ensures
        session.run(Context::teardown_calls(c2mir)).is_none(),
{
    if c2mir {
        session.lemma_run_two(NativeCall::FrontEndFinish, NativeCall::Finish);
    } else {
        session.lemma_run_one(NativeCall::Finish);
    }
}

/// A context whose generator set was started and not yet stopped cannot
/// be torn down; once the set is stopped, it can.
pub proof fn lemma_context_outlives_generators(c2mir: bool, requested: u32)
    requires
        requested < GENERATOR_LIMIT,
    ensures
        ({
            let busy = Context::running(c2mir).after(Generators::startup_call(requested));
            &&& busy.run(Context::teardown_calls(c2mir)).is_none()
            &&& busy.after(NativeCall::GenFinish).run(Context::teardown_calls(c2mir)) == Some(
                Session::released(),
            )
        }),
{
    let busy = Context::running(c2mir).after(Generators::startup_call(requested));
    lemma_generators_stop_first(busy, c2mir);
    lemma_session_balanced(c2mir);
}

/// While a set runs, a sequence of settings is in order to its end where
/// every one of them names a generator of the set, and out of order
/// otherwise.
pub proof fn lemma_settings_accepted(
    c2mir: bool,
    requested: u32,
    settings: Seq<(u32, Optimization)>,
)
    requires
        requested < GENERATOR_LIMIT,
    ensures
        ({
            let busy = Context::running(c2mir).after(Generators::startup_call(requested));
            busy.run(setting_calls(settings)) == if in_range(requested, settings) {
                Some(busy)
            } else {
                None
            }
        }),
    decreases settings.len(),
{
    let busy = Context::running(c2mir).after(Generators::startup_call(requested));
    let calls = setting_calls(settings);
    if settings.len() > 0 {
        let rest = settings.skip(1);
        lemma_index_bound(c2mir, requested, settings[0].0, settings[0].1);
        lemma_settings_accepted(c2mir, requested, rest);
        assert(calls[0] == Generators::optimization_call(settings[0].0, settings[0].1));
        assert(calls.skip(1) =~= setting_calls(rest));
        if in_range(requested, settings) {
            assert forall|i: int| 0 <= i < rest.len() implies (#[trigger] rest[i]).0
                < Generators::normalized(requested) by {
                assert(rest[i] == settings[i + 1]);
            }
        } else if settings[0].0 < Generators::normalized(requested) {
            if in_range(requested, rest) {
                assert forall|i: int| 0 <= i < settings.len() implies (#[trigger] settings[i]).0
                    < Generators::normalized(requested) by {
                    if i > 0 {
                        assert(settings[i] == rest[i - 1]);
                    }
                }
            }
        }
    }
}

/// A generator set whose settings all name one of its generators is in
/// order from its start to its end and leaves the session as it found it;
/// with a setting that names no generator of the set, it is out of order.
pub proof fn lemma_scope_accepted(c2mir: bool, requested: u32, settings: Seq<(u32, Optimization)>)
    requires
        requested < GENERATOR_LIMIT,
    ensures
        Context::running(c2mir).run(scope_calls(requested, settings)) == if in_range(
            requested,
            settings,
        ) {
            Some(Context::running(c2mir))
        } else {
            None
        },
{
    let idle = Context::running(c2mir);
    let start = seq![Generators::startup_call(requested)];
    let busy = idle.after(Generators::startup_call(requested));
    idle.lemma_run_one(Generators::startup_call(requested));
    lemma_settings_accepted(c2mir, requested, settings);
    busy.lemma_run_one(NativeCall::GenFinish);
    busy.lemma_run_concat(setting_calls(settings), seq![NativeCall::GenFinish]);
    idle.lemma_run_concat(start, setting_calls(settings) + seq![NativeCall::GenFinish]);
    assert(scope_calls(requested, settings) =~= start + (setting_calls(settings)
        + seq![NativeCall::GenFinish]));
}

/// Generator sets that follow one another, each used within its range,
/// leave the session as they found it.
pub proof fn lemma_scopes_accepted(c2mir: bool, scopes: Seq<(u32, Seq<(u32, Optimization)>)>)
    requires
        well_used(scopes),
    ensures
        Context::running(c2mir).run(scopes_calls(scopes)) == Some(Context::running(c2mir)),
    decreases scopes.len(),
{
    let idle = Context::running(c2mir);
    if scopes.len() > 0 {
        let rest = scopes.skip(1);
        assert forall|i: int| 0 <= i < rest.len() implies (#[trigger] rest[i]).0 < GENERATOR_LIMIT
            && in_range(rest[i].0, rest[i].1) by {
            assert(rest[i] == scopes[i + 1]);
        }
        assert(scopes[0].0 < GENERATOR_LIMIT && in_range(scopes[0].0, scopes[0].1));
        lemma_scope_accepted(c2mir, scopes[0].0, scopes[0].1);
        lemma_scopes_accepted(c2mir, rest);
        idle.lemma_run_concat(scope_calls(scopes[0].0, scopes[0].1), scopes_calls(rest));
    }
}

/// A whole session, with any number of generator sets that are each used
/// within their range, is in order call by call, from the first call after
/// the opening to the release; and nothing of it is left alive.
pub proof fn lemma_session_accepted(c2mir: bool, scopes: Seq<(u32, Seq<(u32, Optimization)>)>)
    requires
        well_used(scopes),
    ensures
        Session::opened().run(session_calls(c2mir, scopes)) == Some(Session::released()),
{
    lemma_session_balanced(c2mir);
    lemma_scopes_accepted(c2mir, scopes);
    Context::running(c2mir).lemma_run_concat(scopes_calls(scopes), Context::teardown_calls(c2mir));
    Session::opened().lemma_run_concat(
        Context::startup_calls(c2mir),
        scopes_calls(scopes) + Context::teardown_calls(c2mir),
    );
    assert(session_calls(c2mir, scopes) =~= Context::startup_calls(c2mir) + (scopes_calls(scopes)
        + Context::teardown_calls(c2mir)));
}

} // verus!
