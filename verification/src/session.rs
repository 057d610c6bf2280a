//! Sessions and their registry: the fixed set of shells that the dashboard
//! shows, made once at startup.

use crate::shared::SharedLineBuffer;
use vstd::prelude::*;

verus! {

/// The most sessions a registry holds: identities are positive and fit a byte.
pub const MAX_SESSIONS: usize = 255;

/// The colour that marks a session's pane. The core hands it on untouched.
#[derive(Clone, Copy, Debug, PartialEq, Eq, Structural)]
pub struct Accent {
    pub red: u8,
    pub green: u8,
    pub blue: u8,
}

/// What the startup configuration says of one session.
#[derive(Clone, Debug)]
pub struct SessionSpec {
    pub name: String,
    pub accent: Accent,
}

/// One shell shown by the dashboard.
pub struct Session {
    /// Positive, unique within the registry, and never changed.
    pub id: u8,
    /// The name shown in the title of the pane.
    pub name: String,
    /// The colour of the pane's border.
    pub accent: Accent,
    /// The captured output, shared with this session's runner only.
    pub buffer: SharedLineBuffer,
}

/// The sessions of a dashboard, in the order of their panes. Its length and
/// its sessions' identities never change; only the buffers behind it do.
pub struct SessionRegistry {
    sessions: Vec<Session>,
}

impl SessionRegistry {
    /// The sessions, in order.
    pub closed spec fn view(&self) -> Seq<Session> {
        self.sessions@
    }

    /// Identities count up from one in the order of the registry.
    #[verifier::type_invariant]
    pub closed spec fn well_formed(&self) -> bool {
        &&& self.sessions.len() <= MAX_SESSIONS
        &&& forall|i: int| 0 <= i < self.sessions.len() ==> (#[trigger] self.sessions[i]).id == i + 1
    }

    /// Makes the registry for the configured sessions, each with an empty
    /// buffer of `line_limit` lines and the identity of its place, counted
    /// from one. `None` if there are more sessions than identities.
    pub fn build(specs: &Vec<SessionSpec>, line_limit: usize) -> (registry: Option<SessionRegistry>)
        ensures
            registry is Some <==> specs.len() <= MAX_SESSIONS,
            registry matches Some(made) ==> {
                &&& made@.len() == specs.len()
                &&& forall|i: int|
                    0 <= i < specs.len() ==> {
                        &&& (#[trigger] made@[i]).id == i + 1
                        &&& made@[i].name@ == specs[i].name@
                        &&& made@[i].accent == specs[i].accent
                        &&& made@[i].buffer.spec_limit() == line_limit
                    }
            },
    {
        if specs.len() > MAX_SESSIONS {
            return None;
        }
        let mut sessions: Vec<Session> = Vec::new();
        let mut i: usize = 0;
        while i < specs.len()
            invariant
                i <= specs.len() <= MAX_SESSIONS,
                sessions.len() == i,
                forall|k: int|
                    0 <= k < i ==> {
                        &&& (#[trigger] sessions[k]).id == k + 1
                        &&& sessions[k].name@ == specs[k].name@
                        &&& sessions[k].accent == specs[k].accent
                        &&& sessions[k].buffer.spec_limit() == line_limit
                    },
            decreases specs.len() - i,
        {
            let session = Session {
                id: (i + 1) as u8,
                name: specs[i].name.clone(),
                accent: specs[i].accent,
                buffer: SharedLineBuffer::new(line_limit),
            };
            sessions.push(session);
            i = i + 1;
        }
        Some(SessionRegistry { sessions })
    }

    /// The number of sessions.
    pub fn len(&self) -> (count: u8)
        ensures
            count == self@.len(),
    {
        proof {
            use_type_invariant(self);
        }
        self.sessions.len() as u8
    }

    /// The sessions, in order.
    pub fn sessions(&self) -> (sessions: &Vec<Session>)
        ensures
            sessions@ == self@,
            sessions.len() <= MAX_SESSIONS,
            forall|i: int| 0 <= i < sessions.len() ==> (#[trigger] sessions[i]).id == i + 1,
    {
        proof {
            use_type_invariant(self);
        }
        &self.sessions
    }

    /// The session with identity `id`, if the registry has one.
    pub fn session(&self, id: u8) -> (found: Option<&Session>)
        ensures
            found is Some <==> 1 <= id <= self@.len(),
            found matches Some(session) ==> *session == self@[id - 1] && session.id == id,
    {
        proof {
            use_type_invariant(self);
        }
        if id == 0 || id as usize > self.sessions.len() {
            None
        } else {
            Some(&self.sessions[(id - 1) as usize])
        }
    }

    /// A handle to the buffer of the session with identity `id`, for the
    /// runner that fills it.
    pub fn buffer_for(&self, id: u8) -> (handle: Option<SharedLineBuffer>)
        ensures
            handle is Some <==> 1 <= id <= self@.len(),
            handle matches Some(buffer) ==> buffer == self@[id - 1].buffer,
    {
        match self.session(id) {
            Some(session) => Some(session.buffer.share()),
            None => None,
        }
    }

    /// A snapshot of every session's buffer, in the order of the registry.
    /// Each is a state that its buffer was in when it was read.
    pub fn snapshots(&self) -> (snapshots: Vec<Vec<String>>)
        ensures
            snapshots.len() == self@.len(),
            forall|i: int|
                0 <= i < snapshots.len() ==> (#[trigger] snapshots[i]).len()
                    <= self@[i].buffer.spec_limit(),
    {
        let mut snapshots: Vec<Vec<String>> = Vec::new();
        let mut i: usize = 0;
        while i < self.sessions.len()
            invariant
                i <= self.sessions.len(),
                snapshots.len() == i,
                forall|k: int|
                    0 <= k < i ==> (#[trigger] snapshots[k]).len()
                        <= self.sessions[k].buffer.spec_limit(),
            decreases self.sessions.len() - i,
        {
            snapshots.push(self.sessions[i].buffer.snapshot());
            i = i + 1;
        }
        snapshots
    }
}

} // verus!
