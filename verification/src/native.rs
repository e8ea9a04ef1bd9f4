//! The native entry points that an owner of a session calls, and the order
//! in which they have to be called.

use vstd::prelude::*;

verus! {

/// One call into the native library, on the handle of a session that is
/// already open.
#[derive(Debug, Clone, Copy, PartialEq, Eq, Structural)]
pub enum NativeCall {
    /// `c2mir_init`: start the front-end that reads C sources.
    FrontEndInit,
    /// `MIR_gen_init`: start `count` generators. The native library starts
    /// one where `count` is below one.
    GenInit { count: i32 },
    /// `MIR_gen_set_optimize_level`: configure one generator.
    GenSetOptimizeLevel { generator: i32, level: u32 },
    /// `MIR_gen_finish`: stop the generators.
    GenFinish,
    /// `c2mir_finish`: stop the front-end.
    FrontEndFinish,
    /// `MIR_finish`: release the session. The handle is dead afterwards.
    Finish,
}

/// What is alive in a native session.
pub struct Session {
    /// The session itself is open: its handle may be used.
    pub core: bool,
    /// The front-end is running.
    pub front_end: bool,
    /// How many generators are running; zero while there is no generator
    /// set.
    pub generators: nat,
}

impl Session {
    /// A session right after it was opened.
    pub open spec fn opened() -> Session {
        Session { core: true, front_end: false, generators: 0 }
    }

    /// A session of which nothing is left.
    pub open spec fn released() -> Session {
        Session { core: false, front_end: false, generators: 0 }
    }

    /// How many generators the native library starts when asked for
    /// `count`.
    pub open spec fn started(count: int) -> nat {
        if count < 1 {
            1
        } else {
            count as nat
        }
    }

    /// Whether `call` is in order in this state. Nothing is in order on a
    /// released session, nothing is started twice, only what runs is
    /// stopped or configured, and the session is released last: after its
    /// front-end and its generators.
    pub open spec fn permits(self, call: NativeCall) -> bool {
        self.core && match call {
            NativeCall::FrontEndInit => !self.front_end,
            NativeCall::GenInit { count } => self.generators == 0,
            NativeCall::GenSetOptimizeLevel { generator, level } => 0 <= generator
                < self.generators,
            NativeCall::GenFinish => self.generators > 0,
            NativeCall::FrontEndFinish => self.front_end,
            NativeCall::Finish => !self.front_end && self.generators == 0,
        }
    }

    /// The state that `call` leaves behind.
    pub open spec fn after(self, call: NativeCall) -> Session {
        match call {
            NativeCall::FrontEndInit => Session { front_end: true, ..self },
            NativeCall::GenInit { count } => Session {
                generators: Session::started(count as int),
                ..self
            },
            NativeCall::GenSetOptimizeLevel { generator, level } => self,
            NativeCall::GenFinish => Session { generators: 0, ..self },
            NativeCall::FrontEndFinish => Session { front_end: false, ..self },
            NativeCall::Finish => Session { core: false, ..self },
        }
    }

    /// The state after `calls`, made one after the other; `None` where one
    /// of them is out of order when its turn comes.
    pub open spec fn run(self, calls: Seq<NativeCall>) -> Option<Session>
        decreases calls.len(),
    {
        if calls.len() == 0 {
            Some(self)
        } else if self.permits(calls[0]) {
            self.after(calls[0]).run(calls.skip(1))
        } else {
            None
        }
    }

    /// One call alone is run where it is in order.
    pub proof fn lemma_run_one(self, call: NativeCall)
        ensures
            self.run(seq![call]) == if self.permits(call) {
                Some(self.after(call))
            } else {
                None
            },
    {
        reveal_with_fuel(Session::run, 2);
        assert(seq![call].skip(1).len() == 0);
    }

    /// Two calls are run where each is in order in its turn.
    pub proof fn lemma_run_two(self, first: NativeCall, second: NativeCall)
        ensures
            self.run(seq![first, second]) == if !self.permits(first) {
                None
            } else if self.after(first).permits(second) {
                Some(self.after(first).after(second))
            } else {
                None
            },
    {
        assert(seq![first, second].skip(1) =~= seq![second]);
        if self.permits(first) {
            self.after(first).lemma_run_one(second);
        }
    }

    /// Running two sequences one after the other is running the second
    /// from where the first ends.
    pub proof fn lemma_run_concat(self, first: Seq<NativeCall>, second: Seq<NativeCall>)
        ensures
            self.run(first + second) == match self.run(first) {
                Some(mid) => mid.run(second),
                None => None,
            },
        decreases first.len(),
    {
        if first.len() == 0 {
            assert(first + second =~= second);
        } else {
            assert((first + second)[0] == first[0]);
            assert((first + second).skip(1) =~= first.skip(1) + second);
            if self.permits(first[0]) {
                self.after(first[0]).lemma_run_concat(first.skip(1), second);
            }
        }
    }
}

} // verus!
