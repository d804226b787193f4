//! The connection-lifecycle state machine around the single FTP session.
//!
//! `RemoteSession` owns at most one live connection handle. Every operation
//! that needs a network round trip takes the handle out, performs the round
//! trip outside this component, and settles the outcome back in; the slot must
//! be empty before a handle is put in, so no handle is ever overwritten and at
//! no point do two live connections sit in the session.
use vstd::prelude::*;

use crate::OpError;

verus! {

/// What a settled liveness probe leaves in the session slot: the handle that
/// was taken out comes back when the probe succeeded and is discarded when it
/// failed, so a dead connection is never kept.
pub open spec fn roundtrip_step<H>(h: H, ok: bool) -> Option<H> {
    if ok {
        Some(h)
    } else {
        None
    }
}

/// What a liveness probe does to the session and reports: with no session the
/// probe reports `false` and changes nothing; with a session it keeps the
/// handle exactly when the probe succeeded, and reports that outcome.
pub open spec fn probe_step<H>(s: Option<H>, ok: bool) -> (Option<H>, bool) {
    match s {
        None => (None, false),
        Some(h) => (roundtrip_step(h, ok), ok),
    }
}

/// Which change-directory primitive a navigation target asks for: `..` asks
/// for parent navigation, anything else for a direct change of directory.
pub enum CdCommand {
    Parent,
    To(String),
}

/// Owner of at most one live FTP connection handle, mutated only through the
/// operations below; the caller serializes them through exclusive access.
pub struct RemoteSession<H> {
    session: Option<H>,
}

impl<H> RemoteSession<H> {
    /// The handle currently held, if any.
    pub closed spec fn handle(&self) -> Option<H> {
        self.session
    }

    /// Whether a session is currently held.
    pub open spec fn connected(&self) -> bool {
        self.handle() is Some
    }

    /// A fresh session holds no connection.
    pub fn new() -> (s: Self)
        ensures
            s.handle() is None,
    {
        RemoteSession { session: None }
    }

    pub fn is_connected(&self) -> (b: bool)
        ensures
            b == self.connected(),
    {
        match &self.session {
            Some(_) => true,
            None => false,
        }
    }

    /// Takes exclusive ownership of the handle for the duration of one round
    /// trip, leaving the slot empty; concurrent callers observe "not
    /// connected" until the outcome is settled.
    pub fn take(&mut self) -> (h: Option<H>)
        ensures
            final(self).handle() is None,
            h == old(self).handle(),
    {
        let mut taken: Option<H> = None;
        core::mem::swap(&mut self.session, &mut taken);
        taken
    }

    /// Puts a handle back after a successful round trip. The slot must be
    /// empty: a held handle is never silently overwritten.
    pub fn restore(&mut self, h: H)
        requires
            old(self).handle() is None,
        ensures
            final(self).handle() == Some(h),
    {
        self.session = Some(h);
    }

    /// Settles the outcome of a liveness probe made on the taken handle: a
    /// live handle is restored, a dead one is discarded, and the probe's
    /// outcome is reported back.
    pub fn settle_probe(&mut self, h: H, ok: bool) -> (alive: bool)
        requires
            old(self).handle() is None,
        ensures
            final(self).handle() == roundtrip_step(h, ok),
            alive == ok,
    {
        if ok {
            self.session = Some(h);
        }
        ok
    }

    /// Settles the outcome of a change-directory round trip made on the taken
    /// handle. The handle is restored whatever the outcome — a rejected
    /// command does not invalidate the control connection, and only
    /// disconnect or a failed liveness probe destroys a session — and the
    /// command's rejection is reported as a protocol error.
    pub fn settle_change_directory(&mut self, h: H, ok: bool) -> (r: Result<(), OpError>)
        requires
            old(self).handle() is None,
        ensures
            final(self).handle() == Some(h),
            r == (if ok {
                Result::<(), OpError>::Ok(())
            } else {
                Result::<(), OpError>::Err(OpError::Protocol)
            }),
    {
        self.session = Some(h);
        if ok {
            Ok(())
        } else {
            Err(OpError::Protocol)
        }
    }
}

/// Which primitive a change-directory request must issue: exactly the target
/// `..` asks for parent navigation, any other target is passed through as a
/// direct change of directory.
pub fn cd_command(target: &String) -> (c: CdCommand)
    ensures
        c is Parent <==> target@ == ".."@,
        c matches CdCommand::To(t) ==> t@ == target@,
{
    let parent = String::from_str("..");
    if *target == parent {
        CdCommand::Parent
    } else {
        CdCommand::To(target.clone())
    }
}

/// The result owed for an attempted remote operation that needed a session:
/// without one the operation fails as not connected; with one it succeeds
/// exactly when the server accepted the command.
pub fn remote_op_result(had_session: bool, ok: bool) -> (r: Result<(), OpError>)
    ensures
        !had_session ==> r == Result::<(), OpError>::Err(OpError::NotConnected),
        had_session && ok ==> r == Result::<(), OpError>::Ok(()),
        had_session && !ok ==> r == Result::<(), OpError>::Err(OpError::Protocol),
{
    if !had_session {
        Err(OpError::NotConnected)
    } else if ok {
        Ok(())
    } else {
        Err(OpError::Protocol)
    }
}

/// The result owed for a connect attempt: the connection must open and the
/// login must be accepted, and each failure is reported as its own error.
pub fn connect_result(opened: bool, logged_in: bool) -> (r: Result<(), OpError>)
    ensures
        !opened ==> r == Result::<(), OpError>::Err(OpError::Network),
        opened && !logged_in ==> r == Result::<(), OpError>::Err(OpError::Auth),
        opened && logged_in ==> r == Result::<(), OpError>::Ok(()),
{
    if !opened {
        Err(OpError::Network)
    } else if !logged_in {
        Err(OpError::Auth)
    } else {
        Ok(())
    }
}

/// A probe that fails leaves the session cleared, and probing again finds no
/// session: it reports `false` and changes nothing, whatever the second
/// probe's nominal outcome.
pub proof fn lemma_failed_probe_idempotent<H>(s: Option<H>, h: H, second: bool)
    ensures
        probe_step(Some(h), false).0 is None,
        probe_step(probe_step(Some(h), false).0, second) == (None::<H>, false),
        probe_step(s, false).1 == false,
{
}

/// How many live connections the session holds: never more than one.
pub open spec fn live_count<H>(s: Option<H>) -> nat {
    match s {
        Some(_) => 1,
        None => 0,
    }
}

/// A liveness probe and a connect attempt, however interleaved, never leave
/// two live connections in the session. The slot holds at most one handle
/// after every probe settling and every round-trip settling; and since
/// `restore`, `settle_probe` and `settle_change_directory` all require the
/// slot to be empty, a handle is never overwritten: the only way a held
/// handle leaves the session is by `take`, which hands it to the caller.
pub proof fn lemma_single_live_handle<H>(s: Option<H>, h: H, ok: bool)
    ensures
        live_count(s) <= 1,
        live_count(probe_step(s, ok).0) <= 1,
        live_count(roundtrip_step(h, ok)) <= 1,
        live_count(Some(h)) <= 1,
        probe_step(s, ok).0 == s || probe_step(s, ok).0 is None,
{
}

} // verus!
