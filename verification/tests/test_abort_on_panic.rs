use abort_on_panic::PanicGuard;
use abort_on_panic::UnwindState;
use abort_on_panic::decimal_string;
use abort_on_panic::run_protected;
use abort_on_panic::run_protected_with_message;

#[test]
pub fn test_macro() {
    let result = run_protected(|| "value");
    assert_eq!("value", result);

    run_protected_with_message("cannot panic inside FFI callbacks", || {
        // ...
    });
}

#[test]
fn test_default_message() {
    let guard = PanicGuard::new();
    assert_eq!("cannot unwind past stack frame", guard.diagnostic());
}

#[test]
fn test_custom_message() {
    let guard = PanicGuard::with_message("cannot panic inside this block");
    assert_eq!("cannot panic inside this block", guard.diagnostic());
}

#[test]
fn test_decimal_string() {
    assert_eq!("0", decimal_string(0));
    assert_eq!("7", decimal_string(7));
    assert_eq!("10", decimal_string(10));
    assert_eq!("907", decimal_string(907));
    assert_eq!("4294967295", decimal_string(4294967295));
}

#[test]
fn test_diagnostic_line() {
    let guard = PanicGuard::new();
    assert_eq!(
        "cannot unwind past stack frame at guard.rs:33",
        guard.diagnostic_line("guard.rs", 33)
    );
    let guard = PanicGuard::with_message("no unwinding here");
    assert_eq!(
        "no unwinding here at src/lib.rs:1204",
        guard.diagnostic_line("src/lib.rs", 1204)
    );
}

#[test]
fn test_normal_destruction_is_silent() {
    let guard = PanicGuard::new();
    assert!(guard.unwind_response(UnwindState::NotUnwinding, "guard.rs", 33).is_none());
}

#[test]
fn test_no_catching_context_is_silent() {
    let guard = PanicGuard::with_message("must not fire");
    assert!(guard.unwind_response(UnwindState::NoContext, "guard.rs", 33).is_none());
}

#[test]
fn test_unwinding_aborts_with_line() {
    let guard = PanicGuard::with_message("cannot panic inside FFI callbacks");
    let response = guard.unwind_response(UnwindState::Unwinding, "guard.rs", 33);
    assert_eq!(
        Some(String::from("cannot panic inside FFI callbacks at guard.rs:33")),
        response
    );
}

#[test]
fn test_innermost_message_only() {
    let outer = PanicGuard::with_message("outer region");
    let inner = PanicGuard::with_message("inner region");
    // A fault in the innermost region reaches the inner guard first; its
    // response carries the inner message alone, and the abort it triggers
    // means the outer guard is never consulted.
    let response = inner.unwind_response(UnwindState::Unwinding, "guard.rs", 33);
    let line = response.unwrap();
    assert_eq!("inner region at guard.rs:33", line);
    assert!(!line.contains("outer region"));
    let _ = outer;
}

#[test]
fn test_repeated_guards_are_noops() {
    for depth in 0..100u32 {
        let guard = if depth % 2 == 0 {
            PanicGuard::new()
        } else {
            PanicGuard::with_message("still silent")
        };
        assert!(guard.unwind_response(UnwindState::NotUnwinding, "guard.rs", depth).is_none());
    }
    let value = run_protected(|| run_protected(|| run_protected(|| 41u32) + 1));
    assert_eq!(42, value);
}
