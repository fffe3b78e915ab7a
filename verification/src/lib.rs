//! A scoped guard that turns a panic unwinding out of a protected block into
//! an immediate process abort, so that an unwind can never escape past the
//! guarded stack frame (for example into foreign call frames).
//!
//! The crate's verified core is [`PanicGuard`]: its constructors, the choice
//! of diagnostic message, and the decision taken at guard destruction time.
//! The destruction decision is modelled by [`PanicGuard::unwind_response`],
//! a pure function from the observed unwind state of the thread to the
//! diagnostic line to emit before aborting (or to nothing, on a normal exit).
//! The unverifiable edges — querying the runtime's unwind flag, writing to
//! standard error, and the abort itself — live outside this crate, in a thin
//! shell that owns a guard and calls `unwind_response` from its destructor.

mod decimal;
mod guard;

pub use decimal::decimal_string;
pub use guard::PanicGuard;
pub use guard::UnwindState;
pub use guard::run_protected;
pub use guard::run_protected_with_message;
pub use guard::spec_destruction_log;
pub use guard::lemma_normal_destruction_silent;
pub use guard::lemma_no_context_is_noop;
pub use guard::lemma_fault_aborts_with_message;
pub use guard::lemma_message_choice;
pub use guard::lemma_innermost_guard_only;
