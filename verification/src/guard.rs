//! The scoped guard and the decision its destruction takes.
//!
//! A `PanicGuard` marks a protected region: the shell that owns one queries
//! the thread's unwind state when the guard is destroyed and asks
//! [`PanicGuard::unwind_response`] what to do. The answer is `None` — do
//! nothing — unless a catchable fault-driven unwind is in progress, in which
//! case it is the exact diagnostic line to write to standard error before
//! aborting the process.

use vstd::prelude::*;

use crate::decimal::spec_decimal;
use crate::decimal::decimal_string;

verus! {

/// What the runtime reports about the current thread at the moment a guard
/// is destroyed.
pub enum UnwindState {
    /// The thread has no fault-catching context at all: any fault already
    /// aborts the process, so the guard has nothing to add.
    NoContext,
    /// No fault-driven unwind is in progress: the region exited normally.
    NotUnwinding,
    /// A catchable fault-driven unwind is in progress, and this destruction
    /// is part of it.
    Unwinding,
}

/// Once a `PanicGuard` is created, its owning region can only be left in an
/// orderly fashion: destroying it while a fault is unwinding the stack must
/// abort the whole process instead of letting the unwind continue.
pub struct PanicGuard {
    message: Option<&'static str>,
}

impl PanicGuard {
    /// The diagnostic message the guard carries, if one was given at
    /// construction.
    pub closed spec fn spec_message(&self) -> Option<Seq<char>> {
        match self.message {
            Some(m) => Some(m@),
            None => None,
        }
    }

    /// The text emitted by a guard constructed without an explicit message.
    pub open spec fn spec_default_message() -> Seq<char> {
        "cannot unwind past stack frame"@
    }

    /// The message this guard would emit: the one it was constructed with,
    /// or the default.
    pub open spec fn spec_diagnostic(&self) -> Seq<char> {
        match self.spec_message() {
            Some(m) => m,
            None => Self::spec_default_message(),
        }
    }

    /// Create a panic guard with a generic message.
    pub fn new() -> (g: PanicGuard)
        ensures
            g.spec_message() is None,
    {
        PanicGuard { message: None }
    }

    /// Create a panic guard with a custom message.
    pub fn with_message(message: &'static str) -> (g: PanicGuard)
        ensures
            g.spec_message() == Some(message@),
    {
        PanicGuard { message: Some(message) }
    }

    /// The message this guard would emit: the one it was constructed with,
    /// or the default.
    pub fn diagnostic(&self) -> (m: &'static str)
        ensures
            m@ == self.spec_diagnostic(),
    {
        match self.message {
            Some(m) => m,
            None => "cannot unwind past stack frame",
        }
    }

    /// The single line written to standard error when this guard aborts:
    /// its message followed by the source location tag of the guard.
    pub open spec fn spec_line(&self, file: Seq<char>, line: u32) -> Seq<char> {
        self.spec_diagnostic() + " at "@ + file + ":"@ + spec_decimal(line as nat)
    }

    /// Build the diagnostic line `<message> at <file>:<line>`.
    pub fn diagnostic_line(&self, file: &str, line: u32) -> (s: String)
        ensures
            s@ == self.spec_line(file@, line),
    {
        let s = String::from_str(self.diagnostic());
        let s = s.concat(" at ");
        let s = s.concat(file);
        let s = s.concat(":");
        let digits = decimal_string(line);
        let s = s.concat(digits.as_str());
        proof {
            assert(s@ =~= self.spec_line(file@, line));
        }
        s
    }

    /// What destroying this guard does, given the unwind state the runtime
    /// reports for the current thread: the diagnostic line to write before
    /// aborting the process, or `None` when destruction is a no-op.
    pub open spec fn spec_unwind_response(
        &self,
        state: UnwindState,
        file: Seq<char>,
        line: u32,
    ) -> Option<Seq<char>> {
        if state is Unwinding {
            Some(self.spec_line(file, line))
        } else {
            None
        }
    }

    /// Decide what destroying this guard does. The destruction of a guard
    /// aborts if and only if a catchable fault-driven unwind is in progress
    /// on the thread; a normal exit, and a thread with no fault-catching
    /// context at all, leave the guard a no-op.
    pub fn unwind_response(&self, state: UnwindState, file: &str, line: u32) -> (r: Option<
        String,
    >)
        ensures
            r is Some <==> self.spec_unwind_response(state, file@, line) is Some,
            r matches Some(s) ==> Some(s@) == self.spec_unwind_response(state, file@, line),
    {
        match state {
            UnwindState::Unwinding => Some(self.diagnostic_line(file, line)),
            UnwindState::NotUnwinding => None,
            UnwindState::NoContext => None,
        }
    }
}

/// The diagnostics emitted when a stack of nested guards is destroyed in
/// order (innermost region first) while the thread is in `state`.
/// Destruction stops at the first guard that aborts — the process is gone —
/// so at most one line is ever emitted.
pub open spec fn spec_destruction_log(
    guards: Seq<PanicGuard>,
    state: UnwindState,
    file: Seq<char>,
    line: u32,
) -> Seq<Seq<char>>
    decreases guards.len(),
{
    if guards.len() == 0 {
        Seq::empty()
    } else {
        match guards[0].spec_unwind_response(state, file, line) {
            Some(l) => seq![l],
            None => spec_destruction_log(guards.skip(1), state, file, line),
        }
    }
}

/// No-op law: however many guards are constructed and normally destroyed,
/// and however deeply they are nested, nothing is written and no abort is
/// taken as long as no fault-driven unwind is in progress on the thread.
pub proof fn lemma_normal_destruction_silent(
    guards: Seq<PanicGuard>,
    state: UnwindState,
    file: Seq<char>,
    line: u32,
)
    requires
        !(state is Unwinding),
    ensures
        spec_destruction_log(guards, state, file, line) == Seq::<Seq<char>>::empty(),
    decreases guards.len(),
{
    if guards.len() > 0 {
        lemma_normal_destruction_silent(guards.skip(1), state, file, line);
    }
}

/// A thread with no fault-catching context at all must not be mistaken for
/// an unwinding one: a guard destroyed there in the ordinary course of
/// events does nothing.
pub proof fn lemma_no_context_is_noop(g: PanicGuard, file: Seq<char>, line: u32)
    ensures
        g.spec_unwind_response(UnwindState::NoContext, file, line) is None,
{
}

/// A fault unwinding out of a protected region makes the guard abort, and
/// the diagnostic line it writes first starts with the guard's configured
/// message.
pub proof fn lemma_fault_aborts_with_message(g: PanicGuard, file: Seq<char>, line: u32)
    ensures
        g.spec_unwind_response(UnwindState::Unwinding, file, line) == Some(
            g.spec_line(file, line),
        ),
        g.spec_line(file, line).subrange(0, g.spec_diagnostic().len() as int)
            == g.spec_diagnostic(),
{
    assert(g.spec_line(file, line).subrange(0, g.spec_diagnostic().len() as int)
        =~= g.spec_diagnostic());
}

/// A guard constructed without an explicit message emits the default text;
/// one constructed with an explicit message emits exactly that text.
pub proof fn lemma_message_choice(g: PanicGuard)
    ensures
        g.spec_message() is None ==> g.spec_diagnostic() == PanicGuard::spec_default_message(),
        g.spec_message() matches Some(m) ==> g.spec_diagnostic() == m,
{
}

/// Nesting law: when a fault unwinds out of the innermost of several nested
/// regions, only the innermost guard's message is emitted — the abort ends
/// the process before any outer guard's destructor can run its own branch.
pub proof fn lemma_innermost_guard_only(guards: Seq<PanicGuard>, file: Seq<char>, line: u32)
    requires
        guards.len() >= 1,
    ensures
        spec_destruction_log(guards, UnwindState::Unwinding, file, line) == seq![
            guards[0].spec_line(file, line),
        ],
{
}

/// Run a block of logic inside a protected region marked by a fresh guard
/// with the generic message, and hand its value back unchanged.
///
/// Inside this crate a guard's destruction has no effect of its own; the
/// shell that wires guards to the runtime's unwind machinery reproduces this
/// region shape with a guard whose destructor queries the thread's unwind
/// state and acts on [`PanicGuard::unwind_response`].
pub fn run_protected<T, F: FnOnce() -> T>(body: F) -> (result: T)
    requires
        call_requires(body, ()),
    ensures
        call_ensures(body, (), result),
{
    let region = PanicGuard::new();
    let result = body();
    let _ = region;
    result
}

/// Run a block of logic inside a protected region marked by a fresh guard
/// carrying `message`, and hand its value back unchanged.
pub fn run_protected_with_message<T, F: FnOnce() -> T>(message: &'static str, body: F) -> (result:
    T)
    requires
        call_requires(body, ()),
    ensures
        call_ensures(body, (), result),
{
    let region = PanicGuard::with_message(message);
    let result = body();
    let _ = region;
    result
}

} // verus!
