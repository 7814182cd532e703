//! What a Python caller is shown.

use vstd::prelude::*;

use crate::error::{CloseInfo, DriverError, DriverErrorView};
use crate::message::CloseFrameView;
use crate::state::{DriverStateView, StateStep};
use crate::text::join;

verus! {

/// The exception classes of the Python package.
#[derive(Clone, Copy, Debug, Eq, PartialEq, Structural)]
pub enum ExceptionKind {
    ConnectionClosedError,
    ConnectionClosedOk,
    Concurrency,
    ConnectionFailed,
    Import,
    InvalidUri,
    LoopAffinity,
    ResourceLimit,
    RuntimeContext,
}

/// What an exception about a closed connection tells besides its message.
#[derive(Debug, Eq, PartialEq)]
pub struct CloseAttributes {
    pub code: Option<u16>,
    pub reason: String,
    pub initiated_by_local: Option<bool>,
}

/// The content of [`CloseAttributes`].
#[verifier::ext_equal]
pub struct CloseAttributesView {
    pub code: Option<u16>,
    pub reason: Seq<char>,
    pub initiated_by_local: Option<bool>,
}

impl View for CloseAttributes {
    type V = CloseAttributesView;

    open spec fn view(&self) -> CloseAttributesView {
        CloseAttributesView {
            code: self.code,
            reason: self.reason@,
            initiated_by_local: self.initiated_by_local,
        }
    }
}

/// An exception to raise.
#[derive(Debug, Eq, PartialEq)]
pub struct PyFailure {
    pub kind: ExceptionKind,
    pub message: String,
    pub attributes: Option<CloseAttributes>,
}

/// The content of a [`PyFailure`].
#[verifier::ext_equal]
pub struct PyFailureView {
    pub kind: ExceptionKind,
    pub message: Seq<char>,
    pub attributes: Option<CloseAttributesView>,
}

impl View for PyFailure {
    type V = PyFailureView;

    open spec fn view(&self) -> PyFailureView {
        PyFailureView {
            kind: self.kind,
            message: self.message@,
            attributes: match self.attributes {
                Some(attributes) => Some(attributes@),
                None => None,
            },
        }
    }
}

impl PyFailureView {
    /// An exception with a message only.
    pub open spec fn plain(kind: ExceptionKind, message: Seq<char>) -> PyFailureView {
        PyFailureView { kind, message, attributes: None }
    }
}

/// The content of a check that may fail.
pub open spec fn check_view(result: Result<(), PyFailure>) -> Result<(), PyFailureView> {
    match result {
        Ok(value) => Ok(value),
        Err(failure) => Err(failure@),
    }
}

/// The exception for an error. A close carries what is known about it; a
/// transport failure carries the same attributes, with nothing in them.
pub open spec fn python_failure(error: DriverErrorView) -> PyFailureView {
    let message = error.description();
    match error {
        DriverErrorView::ClosedError(info) => PyFailureView {
            kind: ExceptionKind::ConnectionClosedError,
            message,
            attributes: Some(
                CloseAttributesView {
                    code: info.code,
                    reason: info.reason,
                    initiated_by_local: Some(info.initiated_by_local),
                },
            ),
        },
        DriverErrorView::ClosedOk(info) => PyFailureView {
            kind: ExceptionKind::ConnectionClosedOk,
            message,
            attributes: Some(
                CloseAttributesView {
                    code: info.code,
                    reason: info.reason,
                    initiated_by_local: Some(info.initiated_by_local),
                },
            ),
        },
        DriverErrorView::Concurrency(_) => PyFailureView::plain(
            ExceptionKind::Concurrency,
            message,
        ),
        DriverErrorView::ConnectionFailed(_) => PyFailureView::plain(
            ExceptionKind::ConnectionFailed,
            message,
        ),
        DriverErrorView::InvalidUri(_) => PyFailureView::plain(ExceptionKind::InvalidUri, message),
        DriverErrorView::ResourceLimit(_) => PyFailureView::plain(
            ExceptionKind::ResourceLimit,
            message,
        ),
        DriverErrorView::Transport(_) => PyFailureView {
            kind: ExceptionKind::ConnectionClosedError,
            message,
            attributes: Some(
                CloseAttributesView { code: None, reason: Seq::empty(), initiated_by_local: None },
            ),
        },
    }
}

fn closed(kind: ExceptionKind, info: CloseInfo) -> (failure: PyFailure)
    ensures
        failure@ == (PyFailureView {
            kind,
            message: info@.description(),
            attributes: Some(
                CloseAttributesView {
                    code: info.code,
                    reason: info.reason@,
                    initiated_by_local: Some(info.initiated_by_local),
                },
            ),
        }),
{
    let message = info.describe();
    let attributes = CloseAttributes {
        code: info.code,
        reason: info.reason,
        initiated_by_local: Some(info.initiated_by_local),
    };
    PyFailure { kind, message, attributes: Some(attributes) }
}

/// An exception with a message only.
pub fn plain(kind: ExceptionKind, message: String) -> (failure: PyFailure)
    ensures
        failure@ == PyFailureView::plain(kind, message@),
{
    PyFailure { kind, message, attributes: None }
}

/// Turns an error into the exception to raise.
pub fn driver_error_to_python(error: DriverError) -> (failure: PyFailure)
    ensures
        failure@ == python_failure(error@),
{
    match error {
        DriverError::ClosedError(info) => closed(ExceptionKind::ConnectionClosedError, info),
        DriverError::ClosedOk(info) => closed(ExceptionKind::ConnectionClosedOk, info),
        DriverError::Concurrency(message) => plain(ExceptionKind::Concurrency, message),
        DriverError::ConnectionFailed(message) => plain(ExceptionKind::ConnectionFailed, message),
        DriverError::InvalidUri(message) => plain(ExceptionKind::InvalidUri, message),
        DriverError::ResourceLimit(message) => plain(ExceptionKind::ResourceLimit, message),
        DriverError::Transport(message) => {
            let reason = String::new();
            assert(reason@ =~= Seq::empty());
            let attributes = CloseAttributes { code: None, reason, initiated_by_local: None };
            PyFailure {
                kind: ExceptionKind::ConnectionClosedError,
                message,
                attributes: Some(attributes),
            }
        },
    }
}

/// What a Python caller gave for a limit.
#[derive(Clone, Copy, Debug, Eq, PartialEq, Structural)]
pub enum LimitArgument {
    /// Nothing.
    Absent,
    /// An integer of the platform's size.
    Integer(usize),
    /// Anything else.
    Unusable,
}

/// Decides which value a limit has.
pub fn extract_limit(value: LimitArgument, name: &str, default: usize) -> (limit: Result<
    usize,
    PyFailure,
>)
    ensures
        match limit {
            Ok(limit) => value == LimitArgument::Integer(limit) || (value is Absent && limit
                == default),
            Err(failure) => {
                &&& value is Unusable
                &&& failure@ == PyFailureView::plain(
                    ExceptionKind::ResourceLimit,
                    name@ + " must be a non-negative platform-sized integer"@,
                )
            },
        },
{
    match value {
        LimitArgument::Absent => Ok(default),
        LimitArgument::Integer(limit) => Ok(limit),
        LimitArgument::Unusable => Err(
            plain(
                ExceptionKind::ResourceLimit,
                join(name, " must be a non-negative platform-sized integer"),
            ),
        ),
    }
}

/// The report on a call outside any running event loop.
pub open spec fn outside_any_loop() -> PyFailureView {
    PyFailureView::plain(
        ExceptionKind::LoopAffinity,
        "FogWS async operations must be called from a running asyncio event loop"@,
    )
}

/// The report on a call on another event loop than the connection's.
pub open spec fn on_another_loop() -> PyFailureView {
    PyFailureView::plain(
        ExceptionKind::LoopAffinity,
        "connection operations must run on the asyncio loop that created the connection"@,
    )
}

/// Reports a call outside any running event loop.
pub fn no_running_loop() -> (failure: PyFailure)
    ensures
        failure@ == outside_any_loop(),
{
    plain(
        ExceptionKind::LoopAffinity,
        "FogWS async operations must be called from a running asyncio event loop".to_owned(),
    )
}

/// Admits an operation on the event loop that created the connection only.
pub fn ensure_loop_affinity(on_owner_loop: bool) -> (result: Result<(), PyFailure>)
    ensures
        check_view(result) == if on_owner_loop {
            Ok(())
        } else {
            Err(on_another_loop())
        },
{
    if on_owner_loop {
        Ok(())
    } else {
        Err(
            plain(
                ExceptionKind::LoopAffinity,
                "connection operations must run on the asyncio loop that created the connection".to_owned(),
            ),
        )
    }
}

/// A peer's close reaches the caller as it was said: once it is seen on a
/// connection that had no outcome, operations that find the connection closed
/// report the frame's code and reason, as a clean close exactly for an empty
/// frame and the codes for a normal closure and for going away, and they report
/// the same after the writer failed or the close timed out.
pub proof fn peer_close_reaches_the_caller(
    state: DriverStateView,
    frame: Option<CloseFrameView>,
    initiated_by_local: bool,
    failure: DriverErrorView,
)
    requires
        state is Open || state is Closing,
    ensures
        ({
            let outcome = crate::reader::close_outcome(frame, initiated_by_local);
            let seen = state.after(StateStep::PeerClosed(outcome));
            let shown = python_failure(outcome);
            &&& seen.terminal_error() == outcome
            &&& seen.admission() == Err::<(), DriverErrorView>(outcome)
            &&& seen.after(StateStep::WriterFailure(failure)).terminal_error() == outcome
            &&& seen.after(StateStep::CloseTimeout).terminal_error() == outcome
            &&& shown.kind is ConnectionClosedOk <==> (frame is None || frame->0.code == 1000
                || frame->0.code == 1001)
            &&& !(shown.kind is ConnectionClosedOk) ==> shown.kind is ConnectionClosedError
            &&& shown.attributes == Some(
                CloseAttributesView {
                    code: match frame {
                        Some(frame) => Some(frame.code),
                        None => None,
                    },
                    reason: match frame {
                        Some(frame) => frame.reason,
                        None => Seq::empty(),
                    },
                    initiated_by_local: Some(initiated_by_local),
                },
            )
        }),
{
}

/// Exactly the exceptions about a closed connection tell a code, a reason and who
/// closed, and a transport failure tells none of them.
pub proof fn closed_exceptions_have_attributes(error: DriverErrorView)
    ensures
        python_failure(error).attributes is Some <==> (python_failure(
            error,
        ).kind is ConnectionClosedError || python_failure(error).kind is ConnectionClosedOk),
        error is Transport ==> python_failure(error).attributes == Some(
            CloseAttributesView { code: None, reason: Seq::empty(), initiated_by_local: None },
        ),
        python_failure(error).message == error.description(),
{
}

/// Every error is raised as the exception of its kind, with its message. A close tells
/// its code, its reason and who began, whatever they are; a transport failure has
/// none to tell, and nothing else has attributes.
pub proof fn errors_are_raised_as_their_exceptions(
    info: crate::error::CloseInfoView,
    message: Seq<char>,
)
    ensures
        ({
            let told = Some(
                CloseAttributesView {
                    code: info.code,
                    reason: info.reason,
                    initiated_by_local: Some(info.initiated_by_local),
                },
            );
            let clean = python_failure(DriverErrorView::ClosedOk(info));
            let abnormal = python_failure(DriverErrorView::ClosedError(info));
            let transport = python_failure(DriverErrorView::Transport(message));
            let concurrency = python_failure(DriverErrorView::Concurrency(message));
            let failed = python_failure(DriverErrorView::ConnectionFailed(message));
            let invalid = python_failure(DriverErrorView::InvalidUri(message));
            let limit = python_failure(DriverErrorView::ResourceLimit(message));
            &&& clean.kind is ConnectionClosedOk && clean.attributes == told && clean.message
                == info.description()
            &&& abnormal.kind is ConnectionClosedError && abnormal.attributes == told
                && abnormal.message == info.description()
            &&& transport.kind is ConnectionClosedError && transport.message == message
            &&& transport.attributes matches Some(attributes) && attributes.code is None
                && attributes.reason.len() == 0 && attributes.initiated_by_local is None
            &&& concurrency.kind is Concurrency && concurrency.message == message
                && concurrency.attributes is None
            &&& failed.kind is ConnectionFailed && failed.message == message
                && failed.attributes is None
            &&& invalid.kind is InvalidUri && invalid.message == message
                && invalid.attributes is None
            &&& limit.kind is ResourceLimit && limit.message == message && limit.attributes is None
        }),
{
}

/// A plain exception has its kind and its message and nothing else, and both reports
/// on the event loop are of one kind.
pub proof fn loop_reports_are_plain(kind: ExceptionKind, message: Seq<char>)
    ensures
        PyFailureView::plain(kind, message).kind == kind,
        PyFailureView::plain(kind, message).message == message,
        PyFailureView::plain(kind, message).attributes is None,
        outside_any_loop().kind is LoopAffinity,
        outside_any_loop().message
            == "FogWS async operations must be called from a running asyncio event loop"@,
        outside_any_loop().attributes is None,
        on_another_loop().kind is LoopAffinity,
        on_another_loop().message
            == "connection operations must run on the asyncio loop that created the connection"@,
        on_another_loop().attributes is None,
{
}

/// The content of an exception keeps everything that it carries.
pub proof fn exception_contents_are_whole(failure: PyFailure, attributes: CloseAttributes)
    ensures
        attributes@.code == attributes.code,
        attributes@.reason == attributes.reason@,
        attributes@.initiated_by_local == attributes.initiated_by_local,
        failure@.kind == failure.kind,
        failure@.message == failure.message@,
        failure@.attributes is Some <==> failure.attributes is Some,
        failure.attributes matches Some(attributes) ==> failure@.attributes == Some(attributes@),
        check_view(Ok(())) == Ok::<(), PyFailureView>(()),
        check_view(Err(failure)) == Err::<(), PyFailureView>(failure@),
{
}

} // verus!
