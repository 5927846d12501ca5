//! The pool of idle sessions, and what becomes of a session after use.
//!
//! Sessions wait in a queue: the one that has waited longest is taken first,
//! and a session that has served well goes to the back.  Where the queue is
//! empty the caller builds a new session.  A session on which a call failed
//! is never put back: bytes of a half-read response could be left on its
//! connection and spoil the next exchange.  A call is tried on fresh
//! sessions up to [`MAX_RETRIES`] times before it is given up.

use vstd::prelude::*;
use std::collections::VecDeque;
use vstd::std_specs::convert::FromSpecImpl;
use crate::connection::{Phase, RconConnection, RconConnectionView, ReceivedView};
use crate::credentials::{RconCredentials, RconCredentialsView};
use crate::error::{RconError, RconErrorView};

verus! {

/// How often a call is tried before it is given up.
pub const MAX_RETRIES: usize = 5;

/// An error of the pool, by what the caller can do about it.
#[derive(Debug, Clone, Copy, PartialEq, Eq)]
pub enum PoolError {
    /// The caller may try again later.
    Recoverable(RconError),
    /// The caller is asked to stop.
    Unrecoverable(RconError),
}

/// Mathematical model of a [`PoolError`].
pub enum PoolErrorView {
    Recoverable(RconErrorView),
    Unrecoverable(RconErrorView),
}

impl View for PoolError {
    type V = PoolErrorView;

    open spec fn view(&self) -> PoolErrorView {
        match *self {
            PoolError::Recoverable(e) => PoolErrorView::Recoverable(e@),
            PoolError::Unrecoverable(e) => PoolErrorView::Unrecoverable(e@),
        }
    }
}

impl RconErrorView {
    /// Errors after which trying again is pointless: a refused password.
    pub open spec fn is_fatal(self) -> bool {
        self is InvalidPassword
    }
}

impl FromSpecImpl<RconError> for PoolError {
    open spec fn obeys_from_spec() -> bool {
        true
    }

    open spec fn from_spec(value: RconError) -> PoolError {
        if value@.is_fatal() {
            PoolError::Unrecoverable(value)
        } else {
            PoolError::Recoverable(value)
        }
    }
}

impl From<RconError> for PoolError {
    /// Classifies an error: a refused password is unrecoverable, everything else recoverable.
    fn from(value: RconError) -> (error: Self) {
        match value {
            RconError::InvalidPassword => Self::Unrecoverable(value),
            _ => Self::Recoverable(value),
        }
    }
}

/// Whether a session is fit to be kept: it is logged in and has not failed.
pub open spec fn usable<T>(session: RconConnection<T>) -> bool {
    session@.phase == Phase::Authenticated
}

/// The queue after `session` was handed back: it goes to the back if it is
/// fit to be kept, and is dropped otherwise.
pub open spec fn released<T>(idle: Seq<RconConnection<T>>, session: RconConnection<T>) -> Seq<
    RconConnection<T>,
> {
    if usable(session) {
        idle.push(session)
    } else {
        idle
    }
}

/// Whether every session of the queue is fit to be kept.
pub open spec fn all_usable<T>(idle: Seq<RconConnection<T>>) -> bool {
    forall|i: int| 0 <= i < idle.len() ==> usable(#[trigger] idle[i])
}

/// What becomes of a call after one attempt.
#[derive(Debug, PartialEq, Eq)]
pub enum Verdict<R> {
    /// The call succeeded with this result.
    Done(R),
    /// The call failed; it is to be tried again on another session.
    Retry,
    /// The call failed for good.
    GiveUp(PoolError),
}

/// Counts the failed attempts of one call.
#[derive(Debug, Clone, Copy, PartialEq, Eq, Structural)]
pub struct Attempts {
    pub failures: usize,
}

/// What the pool makes of a failed attempt, after `failures` earlier ones:
/// whether the call is given up, and with which error.
pub open spec fn failure_verdict(failures: nat, error: RconErrorView) -> Option<PoolErrorView> {
    if error.is_fatal() || failures + 1 >= MAX_RETRIES {
        Some(PoolErrorView::Unrecoverable(error))
    } else {
        None
    }
}

/// A session that is handed back to an empty pool is the one that is
/// taken next, provided that it was fit to be kept.
pub proof fn lemma_fifo_reuse<T>(session: RconConnection<T>)
    requires
        usable(session),
    ensures
        released(Seq::empty(), session).len() == 1,
        released(Seq::empty(), session).first() == session,
{
}

/// Sessions leave the queue in the order in which they were handed back:
/// a session that is handed back is taken after all that waited before it,
/// and before any that is handed back later.
pub proof fn lemma_fifo_order<T>(idle: Seq<RconConnection<T>>, session: RconConnection<T>)
    requires
        usable(session),
    ensures
        released(idle, session).len() == idle.len() + 1,
        forall|i: int| 0 <= i < idle.len() ==> released(idle, session)[i] == idle[i],
        released(idle, session)[idle.len() as int] == session,
{
}

/// A session whose read timed out or failed is not fit to be kept: handed
/// back, it does not come into the queue.
pub proof fn lemma_failed_session_is_dropped(
    session: RconConnectionView,
    expected: u32,
    read: ReceivedView,
)
    requires
        !(read is Bytes),
    ensures
        session.payload_accepted(expected, read).0.phase != Phase::Authenticated,
        session.header_accepted(read).0.phase != Phase::Authenticated,
{
}

/// A pool of sessions over connections of type `T`, with the credentials
/// to build more.
pub struct ConnectionPool<T> {
    connections: VecDeque<RconConnection<T>>,
    credentials: RconCredentials,
}

impl<T> View for ConnectionPool<T> {
    type V = Seq<RconConnection<T>>;

    /// The idle sessions, the one to be taken next first.
    closed spec fn view(&self) -> Seq<RconConnection<T>> {
        self.connections@
    }
}

impl<T> ConnectionPool<T> {
    /// The credentials with which new sessions are built.
    pub closed spec fn credentials_view(&self) -> RconCredentialsView {
        self.credentials@
    }

    /// An empty pool.
    pub fn new(credentials: RconCredentials) -> (pool: Self)
        ensures
            pool@ == Seq::<RconConnection<T>>::empty(),
            all_usable(pool@),
            pool.credentials_view() == credentials@,
    {
        let pool = Self { connections: VecDeque::new(), credentials };
        pool
    }

    /// The credentials with which new sessions are built.
    pub fn credentials(&self) -> (credentials: &RconCredentials)
        ensures
            credentials@ == self.credentials_view(),
    {
        &self.credentials
    }

    /// Replaces the credentials; sessions built from now on use the new ones.
    pub fn set_credentials(&mut self, credentials: RconCredentials)
        ensures
            final(self)@ == old(self)@,
            final(self).credentials_view() == credentials@,
    {
        self.credentials = credentials;
    }

    /// The number of idle sessions.
    pub fn len(&self) -> (n: usize)
        ensures
            n == self@.len(),
    {
        self.connections.len()
    }

    /// Takes the session that has waited longest.  `None` means that the
    /// pool is empty and the caller has to build a session.
    ///
    /// A pool that holds only sessions that are fit to be kept, as every
    /// pool does that was filled by [`ConnectionPool::return_connection`],
    /// hands out such a session.
    pub fn get_connection(&mut self) -> (connection: Option<RconConnection<T>>)
        ensures
            final(self).credentials_view() == old(self).credentials_view(),
            all_usable(old(self)@) ==> all_usable(final(self)@),
            all_usable(old(self)@) ==> match connection {
                Some(session) => usable(session),
                None => true,
            },
            match connection {
                Some(session) => {
                    &&& old(self)@.len() > 0
                    &&& session == old(self)@.first()
                    &&& final(self)@ == old(self)@.drop_first()
                },
                None => old(self)@.len() == 0 && final(self)@ == old(self)@,
            },
    {
        let connection = self.connections.pop_front();
        proof {
            if connection is Some {
                if all_usable(old(self)@) {
                    assert forall|i: int| 0 <= i < self@.len() implies usable(#[trigger] self@[i]) by {}
                }
            }
        }
        connection
    }

    /// Hands a session back.  It goes to the back of the queue if it is
    /// logged in and has not failed; otherwise it is dropped.
    pub fn return_connection(&mut self, connection: RconConnection<T>)
        ensures
            final(self)@ == released(old(self)@, connection),
            final(self).credentials_view() == old(self).credentials_view(),
            all_usable(old(self)@) ==> all_usable(final(self)@),
    {
        if connection.is_authenticated() {
            self.connections.push_back(connection);
        }
    }

    /// Settles one attempt of a call that was made on `connection`.
    ///
    /// After a success the session goes back into the queue and the result is
    /// handed on.  After a failure, whatever it is, the session is dropped,
    /// so that the queue is left as it was, and the failure is counted: the
    /// call is given up at once where the password was refused,
    /// and after [`MAX_RETRIES`] failures in a row otherwise.
    pub fn settle<R>(
        &mut self,
        attempts: &mut Attempts,
        connection: RconConnection<T>,
        outcome: Result<R, RconError>,
    ) -> (verdict: Verdict<R>)
        ensures
            final(self).credentials_view() == old(self).credentials_view(),
            all_usable(old(self)@) ==> all_usable(final(self)@),
            match outcome {
                Ok(result) => {
                    &&& verdict == Verdict::Done(result)
                    &&& final(self)@ == released(old(self)@, connection)
                    &&& *final(attempts) == *old(attempts)
                },
                Err(error) => {
                    &&& final(self)@ == old(self)@
                    &&& final(attempts).failures == if old(attempts).failures == usize::MAX {
                        usize::MAX
                    } else {
                        (old(attempts).failures + 1) as usize
                    }
                    &&& match verdict {
                        Verdict::Done(_) => false,
                        Verdict::Retry => failure_verdict(old(attempts).failures as nat, error@)
                            is None && final(attempts).failures < MAX_RETRIES,
                        Verdict::GiveUp(e) => failure_verdict(
                            old(attempts).failures as nat,
                            error@,
                        ) == Some(e@),
                    }
                },
            },
    {
        match outcome {
            Ok(result) => {
                self.return_connection(connection);
                Verdict::Done(result)
            },
            Err(error) => {
                attempts.failures = attempts.failures.saturating_add(1);
                let fatal = match error {
                    RconError::InvalidPassword => true,
                    _ => false,
                };
                if fatal || attempts.failures >= MAX_RETRIES {
                    Verdict::GiveUp(PoolError::Unrecoverable(error))
                } else {
                    Verdict::Retry
                }
            },
        }
    }
}

impl Attempts {
    /// The count at the start of a call.
    pub fn new() -> (attempts: Self)
        ensures
            attempts.failures == 0,
    {
        Attempts { failures: 0 }
    }
}

} // verus!
