//! The session connector and the remote-control session that it leads to.
use vstd::prelude::*;
use crate::model::{ConnectionView, RemoteControlHandle};

verus! {

/// The connect operation that the loop's driver holds.
#[derive(Clone, Copy, Debug, PartialEq, Eq, Structural)]
pub enum Connection {
    /// Nothing that will ever resolve.
    Idle,
    /// An operation in flight, which resolves to a session or fails.
    Pending,
}

/// The loop's record of the background task that drives a remote-control
/// session.
#[derive(Clone, Copy, Debug, PartialEq, Eq, Structural)]
pub struct RemoteControlTask;

/// At most one connect operation, and at most one remote-control session
/// with its task.
#[derive(Clone, Copy, Debug, PartialEq, Eq)]
pub struct LibreSpotConnection {
    connection: Connection,
    spirc_task: Option<RemoteControlTask>,
    spirc: Option<RemoteControlHandle>,
}

impl View for LibreSpotConnection {
    type V = ConnectionView;

    closed spec fn view(&self) -> ConnectionView {
        ConnectionView {
            connecting: self.connection == Connection::Pending,
            remote_control: self.spirc,
        }
    }
}

impl LibreSpotConnection {
    /// A handle is held exactly when its task is.
    #[verifier::type_invariant]
    spec fn paired(self) -> bool {
        self.spirc is Some <==> self.spirc_task is Some
    }

    /// Starts with the given connect operation and no remote-control
    /// session.
    pub fn new(connection: Connection) -> (c: LibreSpotConnection)
        ensures
            c@ == (ConnectionView {
                connecting: connection == Connection::Pending,
                remote_control: None,
            }),
    {
        LibreSpotConnection { connection, spirc_task: None, spirc: None }
    }

    /// Whether a connect operation is in flight.
    pub fn is_connecting(&self) -> (connecting: bool)
        ensures
            connecting == self@.connecting,
    {
        match self.connection {
            Connection::Pending => true,
            Connection::Idle => false,
        }
    }

    /// The held remote-control session.
    pub fn remote_control(&self) -> (handle: Option<RemoteControlHandle>)
        ensures
            handle == self@.remote_control,
    {
        self.spirc
    }

    /// Whether a remote-control task is held, which is so exactly when a
    /// session is.
    pub fn has_task(&self) -> (held: bool)
        ensures
            held == (self@.remote_control is Some),
    {
        proof {
            use_type_invariant(self);
        }
        self.spirc_task.is_some()
    }

    /// Records that the held session has been asked to shut down, and says
    /// whether there is one to ask.
    pub fn request_shutdown(&mut self) -> (held: bool)
        ensures
            final(self)@ == old(self)@.request_shutdown(),
            held == (old(self)@.remote_control is Some),
    {
        proof {
            use_type_invariant(&*self);
        }
        match self.spirc {
            Some(_) => {
                *self = LibreSpotConnection {
                    connection: self.connection,
                    spirc_task: self.spirc_task,
                    spirc: Some(RemoteControlHandle { shutdown_requested: true }),
                };
                true
            },
            None => false,
        }
    }

    /// Records that a new connect operation has taken the place of the
    /// outstanding one, after the held session was asked to shut down. Says
    /// whether there was a session to ask.
    pub fn supersede(&mut self) -> (held: bool)
        ensures
            final(self)@ == old(self)@.supersede(),
            held == (old(self)@.remote_control is Some),
    {
        let held = self.request_shutdown();
        proof {
            use_type_invariant(&*self);
        }
        *self = LibreSpotConnection {
            connection: Connection::Pending,
            spirc_task: self.spirc_task,
            spirc: self.spirc,
        };
        held
    }

    /// Records that the connect operation has resolved.
    pub fn resolve(&mut self)
        ensures
            final(self)@ == old(self)@.resolve(),
    {
        proof {
            use_type_invariant(&*self);
        }
        *self = LibreSpotConnection {
            connection: Connection::Idle,
            spirc_task: self.spirc_task,
            spirc: self.spirc,
        };
    }

    /// Records a fresh remote-control session and its task in place of the
    /// held pair.
    pub fn attach(&mut self)
        ensures
            final(self)@ == old(self)@.attach(),
    {
        *self = LibreSpotConnection {
            connection: Connection::Idle,
            spirc_task: Some(RemoteControlTask),
            spirc: Some(RemoteControlHandle { shutdown_requested: false }),
        };
    }
}

} // verus!
