//! A two-state envelope that carries a request on its way out and a response
//! on its way back.
use vstd::prelude::*;

verus! {

/// Why a payload could not be taken out of an envelope.
#[derive(Debug, Clone, Copy, PartialEq, Eq, Structural)]
pub enum EnvelopeError {
    /// The envelope holds the other kind of payload.
    WrongState,
}

impl EnvelopeError {
    /// The fixed text that stands for this error where errors are strings.
    pub open spec fn spec_message(self) -> Seq<char> {
        match self {
            EnvelopeError::WrongState => "message is in the wrong state"@,
        }
    }

    /// The error as a string.
    pub fn message(&self) -> (r: String)
        ensures
            r@ == self.spec_message(),
    {
        match self {
            EnvelopeError::WrongState => "message is in the wrong state".to_string(),
        }
    }
}

/// An envelope in exactly one of two states: `Send` holds a request of type
/// `S`, `Receive` holds a response of type `R`.
#[derive(Debug, Clone, PartialEq)]
pub enum Message<S, R> {
    Send(S),
    Receive(R),
}

impl<S, R> Message<S, R> {
    /// What `handle_send` gives back for this envelope.
    pub open spec fn spec_handle_send(self) -> Result<S, EnvelopeError> {
        match self {
            Message::Send(s) => Ok(s),
            Message::Receive(_) => Err(EnvelopeError::WrongState),
        }
    }

    /// What `handle_receive` gives back for this envelope.
    pub open spec fn spec_handle_receive(self) -> Result<R, EnvelopeError> {
        match self {
            Message::Send(_) => Err(EnvelopeError::WrongState),
            Message::Receive(r) => Ok(r),
        }
    }

    /// A new envelope in the `Send` state holding `payload`.
    pub fn package_send(payload: S) -> (m: Self)
        ensures
            m == Message::<S, R>::Send(payload),
    {
        Message::Send(payload)
    }

    /// A new envelope in the `Receive` state holding `payload`.
    pub fn package_receive(payload: R) -> (m: Self)
        ensures
            m == Message::<S, R>::Receive(payload),
    {
        Message::Receive(payload)
    }

    /// Takes the request out of a `Send` envelope, consuming it; a `Receive`
    /// envelope gives `WrongState`.
    pub fn handle_send(self) -> (r: Result<S, EnvelopeError>)
        ensures
            r == self.spec_handle_send(),
    {
        match self {
            Message::Send(s) => Ok(s),
            Message::Receive(_) => Err(EnvelopeError::WrongState),
        }
    }

    /// Takes the response out of a `Receive` envelope, consuming it; a `Send`
    /// envelope gives `WrongState`.
    pub fn handle_receive(self) -> (r: Result<R, EnvelopeError>)
        ensures
            r == self.spec_handle_receive(),
    {
        match self {
            Message::Send(_) => Err(EnvelopeError::WrongState),
            Message::Receive(r) => Ok(r),
        }
    }
}

/// A request packaged with `package_send` comes back out of `handle_send`
/// unchanged, and a response envelope never yields a request.
pub proof fn lemma_send_round_trip<S, R>(payload: S, response: R)
    ensures
        Message::<S, R>::Send(payload).spec_handle_send() == Ok::<S, EnvelopeError>(payload),
        Message::<S, R>::Receive(response).spec_handle_send() == Err::<S, EnvelopeError>(
            EnvelopeError::WrongState,
        ),
{
}

/// A response packaged with `package_receive` comes back out of
/// `handle_receive` unchanged, and a request envelope never yields a response.
pub proof fn lemma_receive_round_trip<S, R>(payload: S, response: R)
    ensures
        Message::<S, R>::Receive(response).spec_handle_receive() == Ok::<R, EnvelopeError>(
            response,
        ),
        Message::<S, R>::Send(payload).spec_handle_receive() == Err::<R, EnvelopeError>(
            EnvelopeError::WrongState,
        ),
{
}

} // verus!
