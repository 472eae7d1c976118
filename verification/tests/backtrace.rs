use kiomq::error::backtrace_utils::{
    BacktraceCatcher, CaughtError, CaughtPanicInfo, PanicLocation, RunEnd,
};

#[test]
fn test_catch_panic() {
    let info = BacktraceCatcher::capture_panic_info(
        Some("Test panic"),
        Some(PanicLocation {
            file: "src/lib.rs".to_string(),
            line: 12,
            col: 5,
        }),
        Some(vec!["worker::main_loop".to_string()]),
    );
    let result: Result<(), CaughtError> = BacktraceCatcher::settle(RunEnd::Panic(Some(info)));
    assert!(matches!(result, Err(CaughtError::Panic(_))));
    if let Err(CaughtError::Panic(info)) = result {
        assert!(info.payload.contains("Test panic"));
        assert!(info.payload.contains("Backtrace:"));
        assert_eq!(
            info.payload,
            "Panic:Test panic :\n src/lib.rs at 12:5\nBacktrace:\n worker::main_loop"
        );
        assert_eq!(info.backtrace, Some(vec!["worker::main_loop".to_string()]));
    }
}

#[test]
fn test_catch_error() {
    let frames = vec!["worker::main_loop".to_string()];
    let result: Result<(), CaughtError> =
        BacktraceCatcher::settle(RunEnd::Error("Test error".to_string(), Some(frames)));
    assert!(matches!(result, Err(CaughtError::Error(_, _))));
    if let Err(CaughtError::Error(err, backtrace)) = result {
        assert_eq!(err, "Test error");
        assert!(!format!("{backtrace:?}").is_empty());
    } else {
        panic!("Expected CaughtError::Error, got something else");
    }
}

#[test]
fn test_no_error() {
    let result: Result<i32, CaughtError> = BacktraceCatcher::settle(RunEnd::Value(42));
    assert!(result.is_ok());
    assert_eq!(result.unwrap(), 42);
}

#[test]
fn panic_of_which_nothing_is_known() {
    let info = BacktraceCatcher::capture_panic_info(None, None, None);
    assert_eq!(info.payload, "Panic:Box<Any> :\n  at 0:0\nBacktrace:");
    let result: Result<(), CaughtError> = BacktraceCatcher::settle(RunEnd::Panic(None));
    if let Err(CaughtError::Panic(info)) = result {
        assert_eq!(info.payload, "Panic occurred but failed to capture backtrace");
        assert!(info.backtrace.is_none());
    } else {
        panic!("a panic was expected");
    }
    assert_eq!(
        CaughtPanicInfo::default().payload,
        "Panic occurred but failed to capture backtrace"
    );
}
