//! The two owners: a session's context, and the generators that run
//! inside it.

use crate::native::NativeCall;
use crate::native::Session;
use crate::optimization::Optimization;
use vstd::prelude::*;

verus! {

/// One more than the largest number of generators that can be asked for:
/// the native library takes the number as a C `int`.
pub const GENERATOR_LIMIT: u32 = 2147483647;

/// Fully re-entrant state implicit to any usage of the MIR toolchain.
///
/// A context stands for one open native session. It is made from the handle
/// that opening the session gave, and is not copied: whoever holds it is
/// the one owner of that session.
#[derive(Debug)]
pub struct Context {
    handle: usize,
    c2mir: bool,
}

/// The generators of a context, for as long as they run.
///
/// A set is made from an exclusive borrow of its context and keeps that
/// borrow: while the set is alive the context can neither be used by
/// anyone else nor be torn down. The set changes nothing in the context, so
/// it holds what it borrowed as a shared reference.
#[derive(Debug)]
pub struct Generators<'ctx> {
    ctx: &'ctx Context,
    requested: u32,
}

impl Context {
    /// The handle is never null.
    #[verifier::type_invariant]
    spec fn well_formed(self) -> bool {
        self.handle != 0
    }

    /// The address of the native state.
    pub closed spec fn spec_raw(&self) -> usize {
        self.handle
    }

    /// Whether the session runs the front-end that reads C sources.
    pub closed spec fn spec_front_end(&self) -> bool {
        self.c2mir
    }

    /// What is alive in a session between start-up and tear-down, while
    /// no generators run.
    pub open spec fn running(c2mir: bool) -> Session {
        Session { core: true, front_end: c2mir, generators: 0 }
    }

    /// The calls that follow the opening of a session.
    pub open spec fn startup_calls(c2mir: bool) -> Seq<NativeCall> {
        if c2mir {
            seq![NativeCall::FrontEndInit]
        } else {
            seq![]
        }
    }

    /// The calls that end a session: the front-end goes first, where it
    /// runs, and the session itself last.
    pub open spec fn teardown_calls(c2mir: bool) -> Seq<NativeCall> {
        if c2mir {
            seq![NativeCall::FrontEndFinish, NativeCall::Finish]
        } else {
            seq![NativeCall::Finish]
        }
    }

    /// Takes ownership of the session that `handle` stands for. `handle`
    /// is what opening the session returned; `c2mir` says whether the
    /// session is to run the front-end.
    #[must_use]
    pub fn new(handle: usize, c2mir: bool) -> (ctx: Context)
        requires
            handle != 0,
        ensures
            ctx.spec_raw() == handle,
            ctx.spec_front_end() == c2mir,
    {
        Context { handle, c2mir }
    }

    /// The handle, for those who call native entry points that this
    /// crate does not know. It is valid for as long as the context is.
    #[must_use]
    pub fn raw(&self) -> (handle: usize)
        ensures
            handle == self.spec_raw(),
            handle != 0,
    {
        proof {
            use_type_invariant(self);
        }
        self.handle
    }

    /// The calls to make, in this order, right after the context was
    /// made.
    #[must_use]
    pub fn startup(&self) -> (calls: Vec<NativeCall>)
        ensures
            calls@ == Context::startup_calls(self.spec_front_end()),
    {
        let mut calls: Vec<NativeCall> = Vec::new();
        if self.c2mir {
            calls.push(NativeCall::FrontEndInit);
        }
        assert(calls@ =~= Context::startup_calls(self.c2mir));
        calls
    }

    /// Gives the context up, for the calls to make, in this order, to end
    /// the session. After them the handle is dead. A context that a
    /// generator set still borrows cannot be given up.
    #[must_use]
    pub fn finish(self) -> (calls: Vec<NativeCall>)
        ensures
            calls@ == Context::teardown_calls(self.spec_front_end()),
    {
        let mut calls: Vec<NativeCall> = Vec::new();
        if self.c2mir {
            calls.push(NativeCall::FrontEndFinish);
        }
        calls.push(NativeCall::Finish);
        assert(calls@ =~= Context::teardown_calls(self.c2mir));
        calls
    }

    /// Whether a set of `count` generators can be asked for.
    #[must_use]
    pub fn admits(count: u32) -> (yes: bool)
        ensures
            yes == (count < GENERATOR_LIMIT),
    {
        count < GENERATOR_LIMIT
    }

    /// Borrows the context for a set of `count` generators.
    ///
    /// Note that MIR forces the following:
    /// - if `count` is zero, it will be silently set to 1.
    /// - MIR accepts a C `int`, so `count` has to be below its largest
    ///   value.
    #[must_use]
    pub fn generators(&mut self, count: u32) -> (gens: Generators<'_>)
        requires
            count < GENERATOR_LIMIT,
        ensures
            gens.spec_requested() == count,
            *gens.spec_context() == *old(self),
            *final(self) == *old(self),
    {
        Generators { ctx: &*self, requested: count }
    }
}

impl<'ctx> Generators<'ctx> {
    /// The number asked for fits a C `int`.
    #[verifier::type_invariant]
    spec fn well_formed(self) -> bool {
        self.requested < GENERATOR_LIMIT
    }

    /// The context that the set borrows.
    pub closed spec fn spec_context(&self) -> &Context {
        self.ctx
    }

    /// The number of generators that was asked for.
    pub closed spec fn spec_requested(&self) -> u32 {
        self.requested
    }

    /// The number of generators that run: what was asked for, and one
    /// where that was zero.
    pub open spec fn spec_count(&self) -> u32 {
        Generators::normalized(self.spec_requested())
    }

    /// The number of generators that run when `requested` are asked for.
    pub open spec fn normalized(requested: u32) -> u32 {
        if requested == 0 {
            1
        } else {
            requested
        }
    }

    /// The call that starts `requested` generators. Below the limit the
    /// number is handed on as it is.
    pub open spec fn startup_call(requested: u32) -> NativeCall {
        NativeCall::GenInit { count: requested as i32 }
    }

    /// The call that sets generator `generator` to `level`. Below the
    /// limit the index is handed on as it is.
    pub open spec fn optimization_call(generator: u32, level: Optimization) -> NativeCall {
        NativeCall::GenSetOptimizeLevel { generator: generator as i32, level: level.spec_code() }
    }

    #[must_use]
    pub fn context(&self) -> (ctx: &Context)
        ensures
            *ctx == *self.spec_context(),
    {
        self.ctx
    }

    /// The number of generators that run.
    #[must_use]
    pub fn count(&self) -> (count: u32)
        ensures
            count == self.spec_count(),
            1 <= count < GENERATOR_LIMIT,
    {
        proof {
            use_type_invariant(self);
        }
        if self.requested == 0 {
            1
        } else {
            self.requested
        }
    }

    /// Whether `generator` is one of the generators that run.
    #[must_use]
    pub fn has(&self, generator: u32) -> (yes: bool)
        ensures
            yes == (generator < self.spec_count()),
    {
        generator < self.count()
    }

    /// The call to make right after the set was made.
    #[must_use]
    pub fn startup(&self) -> (call: NativeCall)
        ensures
            call == Generators::startup_call(self.spec_requested()),
            call matches NativeCall::GenInit { count } && count == self.spec_requested(),
    {
        proof {
            use_type_invariant(self);
        }
        NativeCall::GenInit { count: self.requested as i32 }
    }

    /// The call that sets generator `generator` to `level`. `generator`
    /// has to be one of the generators that run.
    #[must_use]
    pub fn set_optimization(&mut self, generator: u32, level: Optimization) -> (call: NativeCall)
        requires
            generator < old(self).spec_count(),
        ensures
            call == Generators::optimization_call(generator, level),
            call matches NativeCall::GenSetOptimizeLevel { generator: index, level: code }
                && index == generator && code == level.spec_code(),
            *final(self) == *old(self),
    {
        proof {
            use_type_invariant(&*self);
        }
        NativeCall::GenSetOptimizeLevel { generator: generator as i32, level: level.code() }
    }

    /// Gives the set up, for the call to make before anything else is done
    /// with its context. The borrow of the context ends here.
    #[must_use]
    pub fn finish(self) -> (call: NativeCall)
        ensures
            call == NativeCall::GenFinish,
    {
        NativeCall::GenFinish
    }
}

} // verus!
