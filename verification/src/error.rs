use futures::channel::oneshot::Canceled;
use vstd::prelude::*;

verus! {

/// What can go wrong in the correlation layer. Nothing here aborts the
/// process: every failure is handed to the caller it concerns.
#[derive(Debug, Clone, PartialEq, Eq)]
pub enum ConnectorError<E> {
    /// A request reused an identifier that is still awaiting its response.
    DuplicateId,
    /// The multiplexer has been shut down.
    Closed,
    /// The pending request was cancelled before a response arrived.
    Cancelled,
    /// A response matched a pending request whose caller no longer waits.
    ReceiverGone,
    /// No endpoint is registered under the target of a request.
    Unroutable,
    /// A response was sent for which no request is outstanding.
    NotPending,
    /// A mapper produced a request where a response was expected, or a
    /// response where a request was expected.
    Mismatched,
    /// An error of the underlying transport, passed through unchanged.
    Transport(E),
}

impl<E> ConnectorError<E> {
    /// What is reported for the outcome of fulfilling a completion handle:
    /// success where the value was accepted, `ReceiverGone` where the
    /// waiting caller had gone away and the value came back.
    pub fn delivered<T>(outcome: Result<(), T>) -> (r: Result<(), Self>)
        ensures
            r == match outcome {
                Ok(()) => Ok::<(), Self>(()),
                Err(_) => Err(ConnectorError::ReceiverGone),
            },
    {
        match outcome {
            Ok(()) => Ok(()),
            Err(_) => Err(ConnectorError::ReceiverGone),
        }
    }

    /// What a waiting caller gets for what its receiver yielded: the value
    /// where there is one; where the completion handle was dropped unused,
    /// `Closed` if the connector has been shut down and `Cancelled` if not.
    pub fn resolve<T>(received: Result<T, Canceled>, closed: bool) -> (r: Result<T, Self>)
        ensures
            r == match received {
                Ok(value) => Ok::<T, Self>(value),
                Err(_) => if closed {
                    Err(ConnectorError::Closed)
                } else {
                    Err(ConnectorError::Cancelled)
                },
            },
    {
        match received {
            Ok(value) => Ok(value),
            Err(_) => if closed {
                Err(ConnectorError::Closed)
            } else {
                Err(ConnectorError::Cancelled)
            },
        }
    }
}

} // verus!
