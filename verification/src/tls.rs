//! Decisions of a certificate-verifying TLS session.

use vstd::prelude::*;

use crate::bytes::text_equal;
use crate::net::{Endpoint, TransportError};

verus! {

/// What a [`TlsSession`] is provisioned for, and whether it can be used.
#[verifier::ext_equal]
pub struct TlsSessionView {
    /// The endpoint that the TCP connection was made to.
    pub endpoint: Endpoint,
    /// The name that the certificate has to prove.
    pub server_name: Seq<char>,
    /// Whether the session was not closed yet.
    pub live: bool,
}

/// A certificate-verifying TLS session over a socket that has already
/// completed its TCP connect.
///
/// The session is provisioned for one endpoint and one name, and it is used by
/// nobody who asks for another one. There is deliberately no accept-all or
/// insecure constructor.
pub struct TlsSession<'a> {
    endpoint: Endpoint,
    server_name: &'a str,
    live: bool,
}

impl<'a> View for TlsSession<'a> {
    type V = TlsSessionView;

    closed spec fn view(&self) -> TlsSessionView {
        TlsSessionView {
            endpoint: self.endpoint,
            server_name: self.server_name@,
            live: self.live,
        }
    }
}

/// Whether a session can be used.
pub open spec fn use_outcome(session: TlsSessionView) -> Result<(), TransportError> {
    if session.live {
        Ok(())
    } else {
        Err(TransportError::State)
    }
}

/// Whether a handshake with this endpoint and name may begin on a session.
pub open spec fn connect_outcome(
    session: TlsSessionView,
    endpoint: Endpoint,
    server_name: Seq<char>,
) -> Result<(), TransportError> {
    if endpoint != session.endpoint || server_name != session.server_name {
        Err(TransportError::Authentication)
    } else {
        use_outcome(session)
    }
}

/// A session that was closed.
pub open spec fn closed(session: TlsSessionView) -> TlsSessionView {
    TlsSessionView { live: false, ..session }
}

impl<'a> TlsSession<'a> {
    /// A session for this endpoint and name.
    pub fn new(endpoint: Endpoint, server_name: &'a str) -> (session: Self)
        ensures
            session@ == (TlsSessionView { endpoint, server_name: server_name@, live: true }),
    {
        TlsSession { endpoint, server_name, live: true }
    }

    /// Whether the handshake may begin: the caller has to ask for exactly the
    /// endpoint and the name that the session is provisioned for, and the
    /// session must not be closed.
    pub fn connect_verified(&self, endpoint: Endpoint, server_name: &str) -> (allowed: Result<
        (),
        TransportError,
    >)
        ensures
            allowed == connect_outcome(self@, endpoint, server_name@),
    {
        if endpoint != self.endpoint || !text_equal(server_name, self.server_name) {
            return Err(TransportError::Authentication);
        }
        self.usable()
    }

    /// Whether the session can be read, written and flushed.
    pub fn usable(&self) -> (usable: Result<(), TransportError>)
        ensures
            usable == use_outcome(self@),
    {
        if self.live {
            Ok(())
        } else {
            Err(TransportError::State)
        }
    }

    /// Give the session up, whether or not closing the connection then
    /// succeeds.
    pub fn close(&mut self) -> (outcome: Result<(), TransportError>)
        ensures
            outcome == use_outcome(old(self)@),
            final(self)@ == closed(old(self)@),
    {
        let outcome = self.usable();
        self.live = false;
        outcome
    }
}

/// A handshake may begin only with the endpoint and the name that the session
/// is provisioned for, and with them it may as long as the session is live.
pub proof fn only_the_provisioned_server_is_connected(
    session: TlsSessionView,
    endpoint: Endpoint,
    server_name: Seq<char>,
)
    ensures
        connect_outcome(session, endpoint, server_name) is Ok <==> session.live && endpoint
            == session.endpoint && server_name == session.server_name,
{
}

/// A closed session stays closed: nothing can be done with it any more, and
/// closing it again is an error of state as well.
pub proof fn closed_session_refuses_everything(
    session: TlsSessionView,
    endpoint: Endpoint,
    server_name: Seq<char>,
)
    ensures
        use_outcome(closed(session)) == Err::<(), TransportError>(TransportError::State),
        connect_outcome(closed(session), endpoint, server_name) is Err,
        closed(closed(session)) == closed(session),
{
}

/// A live session can be used, and only a live one; one that was closed is
/// refused as an error of state.
pub proof fn session_is_usable_while_live(session: TlsSessionView)
    ensures
        session.live <==> use_outcome(session) is Ok,
        !session.live ==> use_outcome(session) == Err::<(), TransportError>(TransportError::State),
        !closed(session).live,
        closed(session).endpoint == session.endpoint,
        closed(session).server_name == session.server_name,
{
}

/// Whoever asks for another endpoint or another name is refused as not
/// authentic, live or not; whoever asks for the right ones is refused only by a
/// session that was closed, as an error of state.
pub proof fn wrong_server_is_not_authentic(
    session: TlsSessionView,
    endpoint: Endpoint,
    server_name: Seq<char>,
)
    ensures
        connect_outcome(session, endpoint, server_name) == Err::<(), TransportError>(
            TransportError::Authentication,
        ) <==> endpoint != session.endpoint || server_name != session.server_name,
        connect_outcome(session, endpoint, server_name) == Err::<(), TransportError>(
            TransportError::State,
        ) <==> endpoint == session.endpoint && server_name == session.server_name && !session.live,
{
}

} // verus!
