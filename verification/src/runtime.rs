//! In which process and interpreter the package may be used.

use vstd::prelude::*;

use crate::py::{
    ensure_loop_affinity, no_running_loop, plain, ExceptionKind, PyFailure, PyFailureView,
};

verus! {

/// How many worker threads serve all connections of the process.
pub const RUNTIME_WORKER_THREADS: usize = 2;

/// The report on use after a fork.
pub open spec fn forked() -> PyFailureView {
    PyFailureView::plain(
        ExceptionKind::RuntimeContext,
        "FogWS was initialized before fork; create a fresh interpreter process before using it"@,
    )
}

/// The report on use in a subinterpreter.
pub open spec fn subinterpreter() -> PyFailureView {
    PyFailureView::plain(
        ExceptionKind::Import,
        "module fogws._fogws does not support loading in subinterpreters"@,
    )
}

/// Admits the process that claimed the package only.
pub fn validate_process(owner_process: u32, current_process: u32) -> (result: Result<(), PyFailure>)
    ensures
        crate::py::check_view(result) == if owner_process == current_process {
            Ok(())
        } else {
            Err(forked())
        },
{
    if owner_process != current_process {
        return Err(
            plain(
                ExceptionKind::RuntimeContext,
                "FogWS was initialized before fork; create a fresh interpreter process before using it".to_owned(),
            ),
        );
    }
    Ok(())
}

/// Who owns the package after `current_process` asked for it: the first process that
/// asked, for good.
pub open spec fn owner_after(recorded: Option<u32>, current_process: u32) -> u32 {
    match recorded {
        Some(owner_process) => owner_process,
        None => current_process,
    }
}

/// Records the process as the owner unless one is recorded, and admits the owner
/// only. The first part is the owner to record.
pub fn claim_process(recorded: Option<u32>, current_process: u32) -> (claim: (
    u32,
    Result<(), PyFailure>,
))
    ensures
        claim.0 == owner_after(recorded, current_process),
        crate::py::check_view(claim.1) == if claim.0 == current_process {
            Ok(())
        } else {
            Err(forked())
        },
{
    let owner_process: u32 = match recorded {
        Some(owner_process) => owner_process,
        None => current_process,
    };
    (owner_process, validate_process(owner_process, current_process))
}

/// The owner after a sequence of processes asked for the package, first to last.
pub open spec fn owner_after_all(recorded: Option<u32>, processes: Seq<u32>) -> Option<u32>
    decreases processes.len(),
{
    if processes.len() == 0 {
        recorded
    } else {
        Some(owner_after(owner_after_all(recorded, processes.drop_last()), processes.last()))
    }
}

/// The first process that asks for the package owns it and stays its owner.
pub proof fn first_process_stays_the_owner(processes: Seq<u32>)
    requires
        processes.len() > 0,
    ensures
        owner_after_all(None, processes) == Some(processes[0]),
    decreases processes.len(),
{
    reveal_with_fuel(owner_after_all, 2);
    if processes.len() > 1 {
        first_process_stays_the_owner(processes.drop_last());
    }
}

/// Whether this process may clean up: the package is unclaimed or claimed by it.
pub fn is_owner_process(owner_process: Option<u32>, current_process: u32) -> (owner: bool)
    ensures
        owner == (owner_process is None || owner_process == Some(current_process)),
{
    match owner_process {
        None => true,
        Some(owner_process) => owner_process == current_process,
    }
}

/// Admits the main interpreter only.
pub fn validate_interpreter(current: i64, main: i64) -> (result: Result<(), PyFailure>)
    ensures
        crate::py::check_view(result) == if current == main {
            Ok(())
        } else {
            Err(subinterpreter())
        },
{
    if current != main {
        return Err(
            plain(
                ExceptionKind::Import,
                "module fogws._fogws does not support loading in subinterpreters".to_owned(),
            ),
        );
    }
    Ok(())
}

/// Whether an operation may start, and if not, why: the interpreter is looked at
/// first, then the process, then the event loop. `same_loop` is whether the running
/// loop is the one that the operation belongs to, or `None` where no loop runs.
pub open spec fn operation_check(
    recorded: Option<u32>,
    current_process: u32,
    current_interpreter: i64,
    main_interpreter: i64,
    same_loop: Option<bool>,
) -> Result<(), PyFailureView> {
    if current_interpreter != main_interpreter {
        Err(subinterpreter())
    } else if owner_after(recorded, current_process) != current_process {
        Err(forked())
    } else {
        match same_loop {
            None => Err(crate::py::outside_any_loop()),
            Some(false) => Err(crate::py::on_another_loop()),
            Some(true) => Ok(()),
        }
    }
}

/// Admits an operation in the main interpreter of the process that owns the package,
/// on the event loop that the operation belongs to. The first part is the owner to
/// record: a process becomes it only in the main interpreter.
pub fn admit_operation(
    recorded: Option<u32>,
    current_process: u32,
    current_interpreter: i64,
    main_interpreter: i64,
    same_loop: Option<bool>,
) -> (admitted: (Option<u32>, Result<(), PyFailure>))
    ensures
        crate::py::check_view(admitted.1) == operation_check(
            recorded,
            current_process,
            current_interpreter,
            main_interpreter,
            same_loop,
        ),
        admitted.0 == if current_interpreter != main_interpreter {
            recorded
        } else {
            Some(owner_after(recorded, current_process))
        },
{
    match validate_interpreter(current_interpreter, main_interpreter) {
        Err(failure) => (recorded, Err(failure)),
        Ok(_) => {
            let (owner_process, claimed) = claim_process(recorded, current_process);
            let result = match claimed {
                Err(failure) => Err(failure),
                Ok(_) => match same_loop {
                    None => Err(no_running_loop()),
                    Some(same_loop) => ensure_loop_affinity(same_loop),
                },
            };
            (Some(owner_process), result)
        },
    }
}

/// An operation is admitted exactly when the interpreter is the main one, the process
/// owns the package, or nobody does, and the loop is the right one.
pub proof fn admission_needs_interpreter_process_and_loop(
    recorded: Option<u32>,
    current_process: u32,
    current_interpreter: i64,
    main_interpreter: i64,
    same_loop: Option<bool>,
)
    ensures
        operation_check(
            recorded,
            current_process,
            current_interpreter,
            main_interpreter,
            same_loop,
        ) is Ok <==> {
            &&& current_interpreter == main_interpreter
            &&& recorded is None || recorded == Some(current_process)
            &&& same_loop == Some(true)
        },
{
}

/// A process that asks when nobody owns the package becomes the owner; after that
/// nobody else does.
pub proof fn ownership_is_claimed_once(owner_process: u32, current_process: u32)
    ensures
        owner_after(None, current_process) == current_process,
        owner_after(Some(owner_process), current_process) == owner_process,
{
}

/// What is wrong is told in this order: the interpreter, the process, the loop.
pub proof fn operations_are_refused_in_order(
    recorded: Option<u32>,
    current_process: u32,
    current_interpreter: i64,
    main_interpreter: i64,
    same_loop: Option<bool>,
)
    ensures
        ({
            let checked = operation_check(
                recorded,
                current_process,
                current_interpreter,
                main_interpreter,
                same_loop,
            );
            let inside = current_interpreter == main_interpreter;
            let owned = recorded is None || recorded->0 == current_process;
            let told = |kind: ExceptionKind, message: Seq<char>|
                Err::<(), PyFailureView>(PyFailureView { kind, message, attributes: None });
            &&& !inside ==> checked == told(
                ExceptionKind::Import,
                "module fogws._fogws does not support loading in subinterpreters"@,
            )
            &&& inside && !owned ==> checked == told(
                ExceptionKind::RuntimeContext,
                "FogWS was initialized before fork; create a fresh interpreter process before using it"@,
            )
            &&& inside && owned && same_loop is None ==> checked == told(
                ExceptionKind::LoopAffinity,
                "FogWS async operations must be called from a running asyncio event loop"@,
            )
            &&& inside && owned && same_loop == Some(false) ==> checked == told(
                ExceptionKind::LoopAffinity,
                "connection operations must run on the asyncio loop that created the connection"@,
            )
            &&& inside && owned && same_loop == Some(true) ==> checked == Ok::<
                (),
                PyFailureView,
            >(())
        }),
{
}

/// The reports on a wrong process and a wrong interpreter.
pub proof fn context_reports_are_plain()
    ensures
        forked().kind is RuntimeContext,
        forked().message
            == "FogWS was initialized before fork; create a fresh interpreter process before using it"@,
        forked().attributes is None,
        subinterpreter().kind is Import,
        subinterpreter().message
            == "module fogws._fogws does not support loading in subinterpreters"@,
        subinterpreter().attributes is None,
        RUNTIME_WORKER_THREADS == 2,
{
}

} // verus!
