//! Which URIs a connection may be opened to.

use tokio_tungstenite::tungstenite::client::IntoClientRequest;
use vstd::prelude::*;

use crate::error::{DriverError, DriverErrorView};
use crate::text::join;

verus! {

/// The authority of a URI: its whole text, the host in it and the port number, if
/// the text names one that a port can have.
#[derive(Debug, Eq, PartialEq)]
pub struct Authority {
    pub text: String,
    pub host: String,
    pub port: Option<u16>,
}

/// The content of an [`Authority`].
#[verifier::ext_equal]
pub struct AuthorityView {
    pub text: Seq<char>,
    pub host: Seq<char>,
    pub port: Option<u16>,
}

impl View for Authority {
    type V = AuthorityView;

    open spec fn view(&self) -> AuthorityView {
        AuthorityView { text: self.text@, host: self.host@, port: self.port }
    }
}

/// Where a client request goes.
#[derive(Debug, Eq, PartialEq)]
pub struct RequestTarget {
    pub scheme: Option<String>,
    pub authority: Option<Authority>,
}

/// The content of a [`RequestTarget`].
#[verifier::ext_equal]
pub struct RequestTargetView {
    pub scheme: Option<Seq<char>>,
    pub authority: Option<AuthorityView>,
}

impl View for RequestTarget {
    type V = RequestTargetView;

    open spec fn view(&self) -> RequestTargetView {
        RequestTargetView {
            scheme: match self.scheme {
                Some(scheme) => Some(scheme@),
                None => None,
            },
            authority: match self.authority {
                Some(authority) => Some(authority@),
                None => None,
            },
        }
    }
}

/// The content of a parsed URI or of the reason why it is none.
pub open spec fn target_view(target: Result<RequestTarget, String>) -> Result<
    RequestTargetView,
    Seq<char>,
> {
    match target {
        Ok(target) => Ok(target@),
        Err(reason) => Err(reason@),
    }
}

/// Where tungstenite sends a client request for a URI, or why it makes none.
pub uninterp spec fn request_target(uri: Seq<char>) -> Result<RequestTargetView, Seq<char>>;

/// tungstenite's `IntoClientRequest::into_client_request` on a string: parses the
/// URI as an `http::Uri` and demands a host. The result is the scheme and the
/// authority of the request's URI, the latter with the host and the port number
/// that `http` finds in it, or the error's text. It depends on the URI alone; the
/// request's random key is not part of it.
#[verifier::external_body]
fn parse_request_target(uri: &str) -> (target: Result<RequestTarget, String>)
    ensures
        target_view(target) == request_target(uri@),
{
    let request = uri.into_client_request().map_err(|error| error.to_string())?;
    Ok(
        RequestTarget {
            scheme: request.uri().scheme_str().map(str::to_owned),
            authority: request.uri().authority().map(
                |authority|
                    Authority {
                        text: authority.as_str().to_owned(),
                        host: authority.host().to_owned(),
                        port: authority.port_u16(),
                    },
            ),
        },
    )
}

/// `@`, which ends the user information of an authority.
pub const AT_SIGN: u8 = 64;

/// The bytes after the last `@`: host and port without user information.
pub open spec fn host_and_port(authority: Seq<u8>) -> Seq<u8>
    decreases authority.len(),
{
    if authority.len() == 0 || authority.last() == AT_SIGN {
        Seq::empty()
    } else {
        host_and_port(authority.drop_last()).push(authority.last())
    }
}

fn host_and_port_len(authority: &[u8]) -> (len: usize)
    ensures
        len == host_and_port(authority@).len(),
{
    let mut start: usize = authority.len();
    assert(authority@.take(start as int) =~= authority@);
    while start > 0 && authority[start - 1] != AT_SIGN
        invariant
            start <= authority@.len(),
            host_and_port(authority@).len() == host_and_port(authority@.take(start as int)).len()
                + authority@.len() - start,
        decreases start,
    {
        assert(authority@.take(start as int).drop_last() =~= authority@.take(start - 1));
        start = start - 1;
    }
    assert(start > 0 ==> authority@.take(start as int).last() == authority@[start - 1]);
    authority.len() - start
}

impl RequestTargetView {
    /// Whether something follows the host that is no usable port number.
    pub open spec fn has_invalid_explicit_port(self) -> bool {
        match self.authority {
            Some(authority) => {
                &&& host_and_port(vstd::utf8::encode_utf8(authority.text)).len()
                    > vstd::utf8::encode_utf8(authority.host).len()
                &&& authority.port is None
            },
            None => false,
        }
    }

    /// Why no connection is opened to this target, or `None` if one may be.
    pub open spec fn refusal(self) -> Option<Seq<char>> {
        if self.scheme != Some("ws"@) {
            Some("only plain ws:// URIs are supported in this release slice"@)
        } else if self.has_invalid_explicit_port() {
            Some("WebSocket URI has an invalid explicit port"@)
        } else {
            None
        }
    }
}

/// Whether something follows the host that is no usable port number.
pub fn has_invalid_explicit_port(target: &RequestTarget) -> (invalid: bool)
    ensures
        invalid == target@.has_invalid_explicit_port(),
{
    match &target.authority {
        Some(authority) => {
            host_and_port_len(authority.text.as_str().as_bytes())
                > authority.host.as_str().as_bytes().len() && authority.port.is_none()
        },
        None => false,
    }
}

fn has_plain_scheme(target: &RequestTarget) -> (plain: bool)
    ensures
        plain == (target@.scheme == Some("ws"@)),
{
    match &target.scheme {
        Some(scheme) => *scheme == "ws".to_owned(),
        None => false,
    }
}

/// Decides whether a connection may be opened to a target.
pub fn check_target(target: &RequestTarget) -> (result: Result<(), DriverError>)
    ensures
        crate::error::result_view(result) == match target@.refusal() {
            None => Ok::<(), DriverErrorView>(()),
            Some(message) => Err(DriverErrorView::InvalidUri(message)),
        },
{
    if !has_plain_scheme(target) {
        return Err(
            DriverError::InvalidUri(
                "only plain ws:// URIs are supported in this release slice".to_owned(),
            ),
        );
    }
    if has_invalid_explicit_port(target) {
        return Err(
            DriverError::InvalidUri("WebSocket URI has an invalid explicit port".to_owned()),
        );
    }
    Ok(())
}

/// Finds out where a client request for a URI goes.
pub fn parse_target(uri: &str) -> (result: Result<RequestTarget, DriverError>)
    ensures
        match result {
            Ok(target) => request_target(uri@) == Ok::<RequestTargetView, Seq<char>>(target@),
            Err(error) => {
                &&& request_target(uri@) matches Err(reason)
                &&& error@ == DriverErrorView::InvalidUri("invalid WebSocket URI: "@ + reason)
            },
        },
{
    match parse_request_target(uri) {
        Ok(target) => Ok(target),
        Err(reason) => Err(
            DriverError::InvalidUri(join("invalid WebSocket URI: ", reason.as_str())),
        ),
    }
}

/// Decides whether a connection may be opened to a URI.
pub fn check_uri(uri: &str) -> (result: Result<(), DriverError>)
    ensures
        crate::error::result_view(result) == match request_target(uri@) {
            Ok(target) => match target.refusal() {
                None => Ok::<(), DriverErrorView>(()),
                Some(message) => Err(DriverErrorView::InvalidUri(message)),
            },
            Err(reason) => Err(DriverErrorView::InvalidUri("invalid WebSocket URI: "@ + reason)),
        },
{
    match parse_target(uri) {
        Ok(target) => check_target(&target),
        Err(error) => Err(error),
    }
}

/// The report on a connection attempt that failed.
pub fn connection_failed(description: &str) -> (error: DriverError)
    ensures
        error@ == DriverErrorView::ConnectionFailed(
            "WebSocket connection failed: "@ + description@,
        ),
{
    DriverError::ConnectionFailed(join("WebSocket connection failed: ", description))
}

/// Host and port are what follows the last `@` of an authority, or all of it where
/// there is none.
pub proof fn host_and_port_follow_the_last_at(user: Seq<u8>, rest: Seq<u8>)
    requires
        user.len() == 0 || user.last() == 64u8,
        forall|i: int| 0 <= i < rest.len() ==> #[trigger] rest[i] != 64u8,
    ensures
        host_and_port(user + rest) == rest,
    decreases rest.len(),
{
    if rest.len() > 0 {
        let shorter = rest.drop_last();
        assert((user + rest).drop_last() =~= user + shorter);
        assert((user + rest).last() == rest[rest.len() - 1]);
        assert forall|i: int| 0 <= i < shorter.len() implies #[trigger] shorter[i] != 64u8 by {
            assert(shorter[i] == rest[i]);
        }
        host_and_port_follow_the_last_at(user, shorter);
        assert(shorter.push(rest.last()) =~= rest);
    } else {
        assert(user + rest =~= user);
    }
}

proof fn host_and_port_are_no_longer(authority: Seq<u8>)
    ensures
        host_and_port(authority).len() <= authority.len(),
    decreases authority.len(),
{
    if authority.len() > 0 {
        host_and_port_are_no_longer(authority.drop_last());
    }
}

/// A target is refused exactly when its scheme is not that of plain WebSockets, or
/// something follows the host that is no port number. `user` is the authority up to
/// its last `@`, and `rest` what follows.
pub proof fn targets_are_refused_exactly(
    target: RequestTargetView,
    user: Seq<u8>,
    rest: Seq<u8>,
)
    requires
        target.authority matches Some(authority) ==> vstd::utf8::encode_utf8(authority.text)
            == user + rest,
        user.len() == 0 || user.last() == 64u8,
        forall|i: int| 0 <= i < rest.len() ==> #[trigger] rest[i] != 64u8,
    ensures
        ({
            let port_fits = match target.authority {
                None => true,
                Some(authority) => authority.port is Some || rest.len()
                    <= vstd::utf8::encode_utf8(authority.host).len(),
            };
            &&& target.has_invalid_explicit_port() <==> !port_fits
            &&& target.refusal() is None <==> target.scheme == Some("ws"@) && port_fits
            &&& target.scheme != Some("ws"@) ==> target.refusal() == Some(
                "only plain ws:// URIs are supported in this release slice"@,
            )
            &&& target.scheme == Some("ws"@) && !port_fits ==> target.refusal() == Some(
                "WebSocket URI has an invalid explicit port"@,
            )
        }),
{
    host_and_port_follow_the_last_at(user, rest);
}

/// A plain target is never refused where its authority is its host alone, where it
/// names a port number, or where it has no authority.
pub proof fn plain_targets_are_accepted(target: RequestTargetView)
    requires
        target.scheme == Some("ws"@),
        target.authority matches Some(authority) ==> authority.text == authority.host
            || authority.port is Some,
    ensures
        target.refusal() is None,
{
    if target.authority is Some {
        host_and_port_are_no_longer(vstd::utf8::encode_utf8(target.authority->0.text));
    }
}

/// The content of a target keeps its scheme and its authority whole.
pub proof fn target_contents_are_whole(target: RequestTarget, authority: Authority, reason: String)
    ensures
        authority@.text == authority.text@,
        authority@.host == authority.host@,
        authority@.port == authority.port,
        target@.scheme is Some <==> target.scheme is Some,
        target.scheme matches Some(scheme) ==> target@.scheme == Some(scheme@),
        target@.authority is Some <==> target.authority is Some,
        target.authority matches Some(authority) ==> target@.authority == Some(authority@),
        target_view(Ok(target)) == Ok::<RequestTargetView, Seq<char>>(target@),
        target_view(Err(reason)) == Err::<RequestTargetView, Seq<char>>(reason@),
{
}

} // verus!
