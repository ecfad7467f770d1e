//! The status variant: the check service's API answers with a JSON record
//! whose `IsTor` flag says whether the request came through Tor.
use vstd::prelude::*;
use crate::error::TorCheckError;
use crate::TorCheck;

verus! {

/// Address of the machine-readable check service.
pub const API_URL: &'static str = "https://check.torproject.org/api/ip";

/// The check service's answer: its `IsTor` field, the one that counts.
#[derive(Debug, Clone, Copy, PartialEq, Eq)]
pub struct TorCheckStatus {
    pub is_tor: bool,
}

impl TorCheckStatus {
    /// `Ok` when the answer says that the request came through Tor.
    pub fn result<E>(&self) -> (r: Result<(), TorCheckError<E>>)
        ensures
            self.is_tor ==> r == Ok::<(), TorCheckError<E>>(()),
            !self.is_tor ==> r == Err::<(), TorCheckError<E>>(TorCheckError::YouAreNotUsingTor),
    {
        if self.is_tor {
            return Ok(());
        }
        Err(TorCheckError::YouAreNotUsingTor)
    }
}

/// What the status variant returns for the client's reply: the client when
/// the answer says Tor, the client's error when the reply failed.
pub open spec fn status_outcome<C, E>(client: C, reply: Result<TorCheckStatus, E>) -> Result<
    C,
    TorCheckError<E>,
> {
    match reply {
        Err(e) => Err(TorCheckError::HttpClient(e)),
        Ok(status) => if status.is_tor {
            Ok(client)
        } else {
            Err(TorCheckError::YouAreNotUsingTor)
        },
    }
}

/// The status variant on the client's reply, which is the decoded answer or
/// the client's error (a failed decode among them).
pub fn check_status<C, E>(client: C, reply: Result<TorCheckStatus, E>) -> (r: Result<
    C,
    TorCheckError<E>,
>)
    ensures
        r == status_outcome(client, reply),
{
    match reply {
        Err(e) => Err(TorCheckError::HttpClient(e)),
        Ok(status) => match status.result::<E>() {
            Ok(()) => Ok(client),
            Err(err) => Err(err),
        },
    }
}

/// A client together with its reply from the check service.
pub struct StatusReply<C, E> {
    pub client: C,
    pub reply: Result<TorCheckStatus, E>,
}

impl<C, E> TorCheck for StatusReply<C, E> {
    type Result = Result<C, TorCheckError<E>>;

    fn tor_check(self) -> (r: Self::Result)
        ensures
            r == status_outcome(self.client, self.reply),
    {
        check_status(self.client, self.reply)
    }
}

/// Two checks on two clients do not interfere: each outcome depends on its
/// own reply alone, and a passing check hands back its own client.
pub proof fn lemma_status_checks_independent<C, E>(
    client1: C,
    client2: C,
    reply: Result<TorCheckStatus, E>,
)
    ensures
        status_outcome(client1, reply) is Ok <==> status_outcome(client2, reply) is Ok,
        status_outcome(client1, reply) is Ok ==> status_outcome(client1, reply) == Ok::<
            C,
            TorCheckError<E>,
        >(client1),
        status_outcome(client1, reply) is Err ==> status_outcome(client1, reply)
            == status_outcome(client2, reply),
{
}

} // verus!
