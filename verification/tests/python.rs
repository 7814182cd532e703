use fogws::error::{CloseInfo, DriverError};
use fogws::py::{
    driver_error_to_python, ensure_loop_affinity, extract_limit, no_running_loop, plain,
    CloseAttributes, ExceptionKind, LimitArgument, PyFailure,
};
use fogws::runtime::{
    admit_operation, claim_process, is_owner_process, validate_interpreter, validate_process,
    RUNTIME_WORKER_THREADS,
};

#[test]
fn closes_are_raised_with_their_metadata() {
    let info = CloseInfo {
        code: Some(1011),
        initiated_by_local: false,
        reason: "oops".to_owned(),
    };
    assert_eq!(
        driver_error_to_python(DriverError::ClosedError(info.clone())),
        PyFailure {
            kind: ExceptionKind::ConnectionClosedError,
            message: "connection closed by remote endpoint with code 1011: oops".to_owned(),
            attributes: Some(CloseAttributes {
                code: Some(1011),
                reason: "oops".to_owned(),
                initiated_by_local: Some(false),
            }),
        },
    );
    let clean = driver_error_to_python(DriverError::ClosedOk(CloseInfo::local_normal()));
    assert_eq!(clean.kind, ExceptionKind::ConnectionClosedOk);
    assert_eq!(clean.message, "connection closed by local endpoint with code 1000");
    assert_eq!(
        clean.attributes,
        Some(CloseAttributes {
            code: Some(1000),
            reason: String::new(),
            initiated_by_local: Some(true),
        }),
    );
}

#[test]
fn transport_failures_are_raised_without_metadata() {
    assert_eq!(
        driver_error_to_python(DriverError::Transport("lost".to_owned())),
        PyFailure {
            kind: ExceptionKind::ConnectionClosedError,
            message: "lost".to_owned(),
            attributes: Some(CloseAttributes {
                code: None,
                reason: String::new(),
                initiated_by_local: None,
            }),
        },
    );
}

#[test]
fn other_errors_are_raised_as_their_own_classes() {
    let text = || "text".to_owned();
    for (error, kind) in [
        (DriverError::Concurrency(text()), ExceptionKind::Concurrency),
        (DriverError::ConnectionFailed(text()), ExceptionKind::ConnectionFailed),
        (DriverError::InvalidUri(text()), ExceptionKind::InvalidUri),
        (DriverError::ResourceLimit(text()), ExceptionKind::ResourceLimit),
    ] {
        assert_eq!(driver_error_to_python(error), plain(kind, text()));
    }
}

#[test]
fn limits_default_and_must_be_integers() {
    assert_eq!(extract_limit(LimitArgument::Absent, "max_queue", 16), Ok(16));
    assert_eq!(extract_limit(LimitArgument::Integer(3), "max_queue", 16), Ok(3));
    assert_eq!(
        extract_limit(LimitArgument::Unusable, "max_queue", 16),
        Err(plain(
            ExceptionKind::ResourceLimit,
            "max_queue must be a non-negative platform-sized integer".to_owned(),
        )),
    );
}

#[test]
fn operations_belong_to_one_loop() {
    assert_eq!(ensure_loop_affinity(true), Ok(()));
    assert_eq!(
        ensure_loop_affinity(false),
        Err(plain(
            ExceptionKind::LoopAffinity,
            "connection operations must run on the asyncio loop that created the connection"
                .to_owned(),
        )),
    );
    assert_eq!(
        no_running_loop(),
        plain(
            ExceptionKind::LoopAffinity,
            "FogWS async operations must be called from a running asyncio event loop".to_owned(),
        ),
    );
}

#[test]
fn a_forked_process_is_refused() {
    assert_eq!(validate_process(7, 7), Ok(()));
    assert_eq!(
        validate_process(7, 8),
        Err(plain(
            ExceptionKind::RuntimeContext,
            "FogWS was initialized before fork; create a fresh interpreter process before using it"
                .to_owned(),
        )),
    );
    assert!(is_owner_process(None, 8));
    assert!(is_owner_process(Some(8), 8));
    assert!(!is_owner_process(Some(7), 8));
}

#[test]
fn a_subinterpreter_is_refused() {
    assert_eq!(validate_interpreter(0, 0), Ok(()));
    assert_eq!(
        validate_interpreter(1, 0),
        Err(plain(
            ExceptionKind::Import,
            "module fogws._fogws does not support loading in subinterpreters".to_owned(),
        )),
    );
    assert_eq!(RUNTIME_WORKER_THREADS, 2);
}

#[test]
fn the_first_process_owns_the_package() {
    assert_eq!(claim_process(None, 7), (7, Ok(())));
    assert_eq!(claim_process(Some(7), 7), (7, Ok(())));
    let (owner, result) = claim_process(Some(7), 8);
    assert_eq!(owner, 7);
    assert_eq!(result.err().map(|failure| failure.kind), Some(ExceptionKind::RuntimeContext));
}

#[test]
fn an_operation_needs_the_interpreter_the_process_and_the_loop() {
    let kind = |admitted: (Option<u32>, Result<(), PyFailure>)| {
        (admitted.0, admitted.1.err().map(|failure| failure.kind))
    };

    assert_eq!(admit_operation(Some(7), 7, 0, 0, Some(true)), (Some(7), Ok(())));
    assert_eq!(admit_operation(None, 7, 0, 0, Some(true)), (Some(7), Ok(())));
    assert_eq!(
        kind(admit_operation(None, 7, 1, 0, Some(true))),
        (None, Some(ExceptionKind::Import)),
    );
    assert_eq!(
        kind(admit_operation(Some(7), 8, 1, 0, None)),
        (Some(7), Some(ExceptionKind::Import)),
    );
    assert_eq!(
        kind(admit_operation(Some(7), 8, 0, 0, None)),
        (Some(7), Some(ExceptionKind::RuntimeContext)),
    );
    assert_eq!(
        admit_operation(Some(7), 7, 0, 0, None).1,
        Err(no_running_loop()),
    );
    assert_eq!(
        admit_operation(Some(7), 7, 0, 0, Some(false)).1,
        ensure_loop_affinity(false),
    );
}
