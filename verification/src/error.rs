//! How a connection ends, and the errors that its operations report.

use vstd::prelude::*;

use crate::text::{decimal_text, join};

verus! {

/// What is known about a completed close.
#[derive(Debug, Eq, PartialEq)]
pub struct CloseInfo {
    pub code: Option<u16>,
    pub initiated_by_local: bool,
    pub reason: String,
}

/// The content of a [`CloseInfo`].
#[verifier::ext_equal]
pub struct CloseInfoView {
    pub code: Option<u16>,
    pub initiated_by_local: bool,
    pub reason: Seq<char>,
}

impl View for CloseInfo {
    type V = CloseInfoView;

    open spec fn view(&self) -> CloseInfoView {
        CloseInfoView {
            code: self.code,
            initiated_by_local: self.initiated_by_local,
            reason: self.reason@,
        }
    }
}

impl Clone for CloseInfo {
    fn clone(&self) -> (copy: Self)
        ensures
            copy == *self,
    {
        CloseInfo {
            code: self.code,
            initiated_by_local: self.initiated_by_local,
            reason: self.reason.clone(),
        }
    }
}

impl CloseInfoView {
    /// A normal closure that this endpoint asked for.
    pub open spec fn local_normal() -> CloseInfoView {
        CloseInfoView { code: Some(1000), initiated_by_local: true, reason: Seq::empty() }
    }

    /// The diagnostic sentence about this close.
    pub open spec fn description(self) -> Seq<char> {
        let side = if self.initiated_by_local {
            "local endpoint"@
        } else {
            "remote endpoint"@
        };
        let code = match self.code {
            Some(value) => crate::text::decimal(value as nat),
            None => "without a status code"@,
        };
        let sentence = "connection closed by "@ + side + " with code "@ + code;
        if self.reason.len() == 0 {
            sentence
        } else {
            sentence + ": "@ + self.reason
        }
    }
}

impl CloseInfo {
    /// A normal closure that this endpoint asked for.
    pub fn local_normal() -> (info: Self)
        ensures
            info@ == CloseInfoView::local_normal(),
    {
        let reason = String::new();
        assert(reason@ =~= Seq::empty());
        CloseInfo { code: Some(1000), initiated_by_local: true, reason }
    }

    /// The diagnostic sentence about this close.
    pub fn describe(&self) -> (text: String)
        ensures
            text@ == self@.description(),
    {
        let code = match self.code {
            Some(value) => decimal_text(value as usize),
            None => "without a status code".to_owned(),
        };
        let side = if self.initiated_by_local {
            "local endpoint"
        } else {
            "remote endpoint"
        };
        let mut sentence = join("connection closed by ", side);
        sentence.append(" with code ");
        sentence.append(code.as_str());
        if !self.reason.as_str().is_empty() {
            sentence.append(": ");
            sentence.append(self.reason.as_str());
        }
        sentence
    }
}

/// Why an operation on a connection failed.
#[derive(Debug, Eq, PartialEq)]
pub enum DriverError {
    ClosedError(CloseInfo),
    ClosedOk(CloseInfo),
    Concurrency(String),
    ConnectionFailed(String),
    InvalidUri(String),
    ResourceLimit(String),
    Transport(String),
}

/// The content of a [`DriverError`].
#[verifier::ext_equal]
pub enum DriverErrorView {
    ClosedError(CloseInfoView),
    ClosedOk(CloseInfoView),
    Concurrency(Seq<char>),
    ConnectionFailed(Seq<char>),
    InvalidUri(Seq<char>),
    ResourceLimit(Seq<char>),
    Transport(Seq<char>),
}

impl View for DriverError {
    type V = DriverErrorView;

    open spec fn view(&self) -> DriverErrorView {
        match *self {
            DriverError::ClosedError(info) => DriverErrorView::ClosedError(info@),
            DriverError::ClosedOk(info) => DriverErrorView::ClosedOk(info@),
            DriverError::Concurrency(message) => DriverErrorView::Concurrency(message@),
            DriverError::ConnectionFailed(message) => DriverErrorView::ConnectionFailed(message@),
            DriverError::InvalidUri(message) => DriverErrorView::InvalidUri(message@),
            DriverError::ResourceLimit(message) => DriverErrorView::ResourceLimit(message@),
            DriverError::Transport(message) => DriverErrorView::Transport(message@),
        }
    }
}

impl Clone for DriverError {
    fn clone(&self) -> (copy: Self)
        ensures
            copy == *self,
    {
        match self {
            DriverError::ClosedError(info) => DriverError::ClosedError(info.clone()),
            DriverError::ClosedOk(info) => DriverError::ClosedOk(info.clone()),
            DriverError::Concurrency(message) => DriverError::Concurrency(message.clone()),
            DriverError::ConnectionFailed(message) => DriverError::ConnectionFailed(
                message.clone(),
            ),
            DriverError::InvalidUri(message) => DriverError::InvalidUri(message.clone()),
            DriverError::ResourceLimit(message) => DriverError::ResourceLimit(message.clone()),
            DriverError::Transport(message) => DriverError::Transport(message.clone()),
        }
    }
}

impl DriverErrorView {
    /// The text shown to a person.
    pub open spec fn description(self) -> Seq<char> {
        match self {
            DriverErrorView::ClosedError(info) => info.description(),
            DriverErrorView::ClosedOk(info) => info.description(),
            DriverErrorView::Concurrency(message) => message,
            DriverErrorView::ConnectionFailed(message) => message,
            DriverErrorView::InvalidUri(message) => message,
            DriverErrorView::ResourceLimit(message) => message,
            DriverErrorView::Transport(message) => message,
        }
    }
}

impl DriverError {
    /// The text shown to a person.
    pub fn describe(&self) -> (text: String)
        ensures
            text@ == self@.description(),
    {
        match self {
            DriverError::ClosedError(info) => info.describe(),
            DriverError::ClosedOk(info) => info.describe(),
            DriverError::Concurrency(message) => message.clone(),
            DriverError::ConnectionFailed(message) => message.clone(),
            DriverError::InvalidUri(message) => message.clone(),
            DriverError::ResourceLimit(message) => message.clone(),
            DriverError::Transport(message) => message.clone(),
        }
    }
}

/// The result of closing a connection that ended with `error`.
pub open spec fn closing_result(error: DriverErrorView) -> Result<(), DriverErrorView> {
    match error {
        DriverErrorView::ClosedOk(_) => Ok(()),
        _ => Err(error),
    }
}

/// The content of a result that carries no value.
pub open spec fn result_view(result: Result<(), DriverError>) -> Result<(), DriverErrorView> {
    match result {
        Ok(value) => Ok(value),
        Err(error) => Err(error@),
    }
}

/// The content of an error that may be absent.
pub open spec fn optional_view(error: Option<DriverError>) -> Option<DriverErrorView> {
    match error {
        Some(error) => Some(error@),
        None => None,
    }
}

/// Turns the way a connection ended into the result of closing it: a clean end
/// is a success, anything else is reported.
pub fn close_result(error: DriverError) -> (result: Result<(), DriverError>)
    ensures
        result_view(result) == closing_result(error@),
{
    match error {
        DriverError::ClosedOk(_) => Ok(()),
        other => Err(other),
    }
}

/// A clean end is a success of `close`, whatever its code, its reason and whoever
/// began, and every other end is reported as it is.
pub proof fn exactly_clean_ends_are_successes(info: CloseInfoView, error: DriverErrorView)
    ensures
        closing_result(DriverErrorView::ClosedOk(info)) == Ok::<(), DriverErrorView>(()),
        !(error is ClosedOk) ==> closing_result(error) == Err::<(), DriverErrorView>(error),
{
}

/// A normal closure by this endpoint has the code for it and no reason.
pub proof fn local_closure_is_normal()
    ensures
        CloseInfoView::local_normal().code == Some(1000u16),
        CloseInfoView::local_normal().initiated_by_local,
        CloseInfoView::local_normal().reason.len() == 0,
{
}

/// The sentence about a close names the side and the code, and a reason follows it
/// after a colon, whole and only where there is one.
pub proof fn description_tells_side_code_and_reason(info: CloseInfoView)
    ensures
        ({
            let bare = CloseInfoView { reason: Seq::empty(), ..info };
            &&& info.reason.len() > 0 ==> info.description() == bare.description() + ": "@
                + info.reason
            &&& info.initiated_by_local && info.code is Some ==> bare.description()
                == "connection closed by "@ + "local endpoint"@ + " with code "@
                + crate::text::decimal(info.code->0 as nat)
            &&& !info.initiated_by_local && info.code is Some ==> bare.description()
                == "connection closed by "@ + "remote endpoint"@ + " with code "@
                + crate::text::decimal(info.code->0 as nat)
            &&& info.initiated_by_local && info.code is None ==> bare.description()
                == "connection closed by "@ + "local endpoint"@ + " with code "@
                + "without a status code"@
            &&& !info.initiated_by_local && info.code is None ==> bare.description()
                == "connection closed by "@ + "remote endpoint"@ + " with code "@
                + "without a status code"@
        }),
{
    let empty = Seq::<char>::empty();
    assert(info.reason.len() == 0 ==> info.reason =~= empty);
}

/// An error that carries a message shows that message, and one about a close the
/// sentence about it.
pub proof fn errors_show_their_message(info: CloseInfoView, message: Seq<char>)
    ensures
        DriverErrorView::ClosedError(info).description() == info.description(),
        DriverErrorView::ClosedOk(info).description() == info.description(),
        DriverErrorView::Concurrency(message).description() == message,
        DriverErrorView::ConnectionFailed(message).description() == message,
        DriverErrorView::InvalidUri(message).description() == message,
        DriverErrorView::ResourceLimit(message).description() == message,
        DriverErrorView::Transport(message).description() == message,
{
}

/// The content of an error keeps its kind and everything that it carries.
pub proof fn error_contents_are_whole(info: CloseInfo, message: String, error: DriverError)
    ensures
        info@.code == info.code,
        info@.initiated_by_local == info.initiated_by_local,
        info@.reason == info.reason@,
        DriverError::ClosedError(info)@ == DriverErrorView::ClosedError(info@),
        DriverError::ClosedOk(info)@ == DriverErrorView::ClosedOk(info@),
        DriverError::Concurrency(message)@ == DriverErrorView::Concurrency(message@),
        DriverError::ConnectionFailed(message)@ == DriverErrorView::ConnectionFailed(message@),
        DriverError::InvalidUri(message)@ == DriverErrorView::InvalidUri(message@),
        DriverError::ResourceLimit(message)@ == DriverErrorView::ResourceLimit(message@),
        DriverError::Transport(message)@ == DriverErrorView::Transport(message@),
        result_view(Ok(())) == Ok::<(), DriverErrorView>(()),
        result_view(Err(error)) == Err::<(), DriverErrorView>(error@),
        optional_view(None) == None::<DriverErrorView>,
        optional_view(Some(error)) == Some(error@),
{
}

} // verus!
